use crate::commands::{CommandView, Commands};
use crate::error::Error;
use crate::message::{Message, MessageView, PlaybackMessageType};
use crate::schema::{
    Inbound, Schema, ServiceDescriptor, ServiceDescriptorView, ServiceKind, ServiceKindView,
};
use crate::service::{handled_view, misread, Outcome, OutcomeView, Service, ServiceHandler};
use vstd::prelude::*;

verus! {

/// The channel of the media playback status.
pub const PLAYBACK_CHANNEL: u8 = 8;

/// The media playback status: what the peer plays, for the application to
/// show. It answers nothing.
#[derive(Debug)]
pub struct MediaPlayBackService {}

/// What the playback status publishes of itself: its channel and no more.
pub open spec fn playback_descriptor(channel_id: u8) -> ServiceDescriptorView {
    ServiceDescriptorView { id: channel_id as u32, kind: ServiceKindView::MediaPlaybackStatus }
}

impl MediaPlayBackService {
    pub fn new() -> (service: Self) {
        MediaPlayBackService {  }
    }

    /// Takes in a playback status whose payload may have decoded or not: one
    /// that decoded is for the application, one that did not is dropped.
    pub fn handle_media_start_request(&mut self, decoded: Inbound) -> (handled: Result<
        Outcome,
        Error,
    >)
        ensures
            handled_view(handled) == if Schema::MediaPlaybackStatus.spec_accepts(decoded) {
                Ok::<OutcomeView, Error>(OutcomeView::Delegated)
            } else {
                Err::<OutcomeView, Error>(Error::SchemaError)
            },
    {
        if Schema::MediaPlaybackStatus.accepts(decoded) {
            Ok(Outcome::Delegated)
        } else {
            Err(Error::SchemaError)
        }
    }
}

impl ServiceHandler for MediaPlayBackService {
    open spec fn expects(message: MessageView) -> Option<Schema> {
        if message.msg_type == PlaybackMessageType::MediaPlaybackStatus.spec_to_u16() {
            Some(Schema::MediaPlaybackStatus)
        } else if message.msg_type == PlaybackMessageType::MediaPlaybackMetaData.spec_to_u16() {
            Some(Schema::MediaMetaData)
        } else {
            None
        }
    }

    open spec fn reacts(
        before: Self,
        after: Self,
        message: MessageView,
        decoded: Inbound,
        sent: Seq<CommandView>,
        handled: Result<OutcomeView, Error>,
    ) -> bool {
        &&& sent == Seq::<CommandView>::empty()
        &&& handled == if misread(Self::expects(message), decoded) {
            Err::<OutcomeView, Error>(Error::SchemaError)
        } else if Self::expects(message).is_some() {
            Ok::<OutcomeView, Error>(OutcomeView::Delegated)
        } else {
            Ok::<OutcomeView, Error>(OutcomeView::Ignored)
        }
    }

    fn schema_for(&self, message: &Message) -> (schema: Option<Schema>) {
        match PlaybackMessageType::from_u16(message.msg_type) {
            Some(PlaybackMessageType::MediaPlaybackStatus) => Some(Schema::MediaPlaybackStatus),
            Some(PlaybackMessageType::MediaPlaybackMetaData) => Some(Schema::MediaMetaData),
            _ => None,
        }
    }

    fn handle_message(&mut self, message: &Message, decoded: Inbound, commands: &mut Commands) -> (handled:
        Result<Outcome, Error>) {
        assert(commands@.take(commands@.len() as int) =~= commands@);
        assert(commands@.skip(commands@.len() as int) =~= Seq::<CommandView>::empty());
        match self.schema_for(message) {
            Some(Schema::MediaPlaybackStatus) => self.handle_media_start_request(decoded),
            Some(schema) => {
                if schema.accepts(decoded) {
                    Ok(Outcome::Delegated)
                } else {
                    Err(Error::SchemaError)
                }
            },
            None => Ok(Outcome::Ignored),
        }
    }
}

impl Service for MediaPlayBackService {
    open spec fn serves(&self, channel_id: u8) -> bool {
        true
    }

    open spec fn descriptor(&self, channel_id: u8) -> ServiceDescriptorView {
        playback_descriptor(channel_id)
    }

    fn protobuf_descriptor(&self, channel_id: u8) -> (descriptor: ServiceDescriptor) {
        ServiceDescriptor { id: channel_id as u32, kind: ServiceKind::MediaPlaybackStatus }
    }
}

} // verus!
