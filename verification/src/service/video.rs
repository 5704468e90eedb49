use crate::commands::{reply, Command, CommandView, Commands};
use crate::error::Error;
use crate::frame::copy_range;
use crate::message::{MediaMessageType, Message, MessageView};
use crate::schema::{
    AudioStreamType, Body, BodyView, ConfigStatus, Inbound, MediaCodecType, Schema,
    ServiceDescriptor, ServiceDescriptorView, ServiceKind, ServiceKindView, VideoConfiguration,
    VideoFocusMode,
};
use crate::service::{handled_view, misread, Outcome, OutcomeView, Service, ServiceHandler};
use vstd::prelude::*;

verus! {

/// The channel on which media acknowledgements of the video sink travel.
pub const VIDEO_CHANNEL: u8 = 2;

/// The number of bytes in front of the media data that hold its time stamp.
pub const TIMESTAMP_LEN: usize = 8;

/// The video sink: it keeps the session of the running stream and the codec
/// configuration that goes in front of every picture.
#[derive(Debug)]
pub struct VideoService {
    pub session_id: Option<i32>,
    pub infos: Vec<u8>,
}

/// The one video mode of the sink.
pub open spec fn video_mode() -> VideoConfiguration {
    VideoConfiguration {
        width: 1280,
        height: 720,
        frame_rate: 30,
        density: 216,
        margin_width: 0,
        margin_height: 0,
    }
}

/// What the video sink publishes of itself.
pub open spec fn video_descriptor(channel_id: u8) -> ServiceDescriptorView {
    ServiceDescriptorView {
        id: channel_id as u32,
        kind: ServiceKindView::VideoSink {
            codec: MediaCodecType::MediaCodecVideoH264BP,
            audio_type: AudioStreamType::Unspecified,
            available_while_in_call: true,
            video_config: video_mode(),
        },
    }
}

/// The configuration response of a media sink: the head unit decides, one
/// message may be under way unacknowledged, the first configuration is taken.
pub open spec fn config_response(channel: u8) -> CommandView {
    reply(
        channel,
        MediaMessageType::ConfigResponse.spec_to_u16(),
        BodyView::MediaConfig {
            config_status: ConfigStatus::HeadUnit,
            max_unacked: 1,
            configuration_index: 0,
        },
    )
}

/// The notification that the projection has the screen.
pub open spec fn focus_notification(channel: u8) -> CommandView {
    reply(
        channel,
        MediaMessageType::VideoFocusNotification.spec_to_u16(),
        BodyView::VideoFocusNotification { mode: VideoFocusMode::Focused, unsolicited: false },
    )
}

/// The acknowledgement of one media message, if a session runs.
pub open spec fn media_acks(session_id: Option<i32>) -> Seq<CommandView> {
    match session_id {
        Some(id) => seq![
            reply(
                VIDEO_CHANNEL,
                MediaMessageType::Ack.spec_to_u16(),
                BodyView::MediaAck { session_id: id, ack: 1 },
            ),
        ],
        None => Seq::<CommandView>::empty(),
    }
}

impl VideoService {
    /// Whether two states of the service are the same.
    pub open spec fn same(self, other: Self) -> bool {
        self.session_id == other.session_id && self.infos@ == other.infos@
    }

    pub fn new() -> (service: Self)
        ensures
            service.session_id.is_none(),
            service.infos@ == Seq::<u8>::empty(),
    {
        VideoService { session_id: None, infos: Vec::new() }
    }

    /// Takes in a setup request with the reading of its payload. A request
    /// that decoded is answered with the configuration response and then the
    /// notification that the projection has the screen. A request that did
    /// not decode is dropped: nothing is queued.
    pub fn handle_media_setup_request(
        &mut self,
        message: &Message,
        decoded: Inbound,
        commands: &mut Commands,
    ) -> (handled: Result<Outcome, Error>)
        ensures
            final(self).same(*old(self)),
            Schema::MediaSetupRequest.spec_accepts(decoded) ==> final(commands)@ == old(
                commands,
            )@ + seq![config_response(message.channel), focus_notification(message.channel)]
                && handled_view(handled) == Ok::<OutcomeView, Error>(OutcomeView::Handled),
            !Schema::MediaSetupRequest.spec_accepts(decoded) ==> final(commands)@ == old(
                commands,
            )@ && handled_view(handled) == Err::<OutcomeView, Error>(Error::SchemaError),
    {
        if !Schema::MediaSetupRequest.accepts(decoded) {
            return Err(Error::SchemaError);
        }
        commands.send(
            Command {
                channel: message.channel,
                is_control: false,
                msg_type: MediaMessageType::ConfigResponse.to_u16(),
                body: Body::MediaConfig {
                    config_status: ConfigStatus::HeadUnit,
                    max_unacked: 1,
                    configuration_index: 0,
                },
                encrypted: true,
            },
        );
        commands.send(
            Command {
                channel: message.channel,
                is_control: false,
                msg_type: MediaMessageType::VideoFocusNotification.to_u16(),
                body: Body::VideoFocusNotification {
                    mode: VideoFocusMode::Focused,
                    unsolicited: false,
                },
                encrypted: true,
            },
        );
        assert(commands@ =~= old(commands)@ + seq![
            config_response(message.channel),
            focus_notification(message.channel),
        ]);
        Ok(Outcome::Handled)
    }

    /// Takes in a request for the screen with the reading of its payload. A
    /// request that decoded is answered: the projection has the screen. A
    /// request that did not decode is dropped: nothing is queued.
    pub fn handle_video_focus_request(
        &mut self,
        message: &Message,
        decoded: Inbound,
        commands: &mut Commands,
    ) -> (handled: Result<Outcome, Error>)
        ensures
            final(self).same(*old(self)),
            Schema::VideoFocusRequestNotification.spec_accepts(decoded) ==> final(commands)@
                == old(commands)@ + seq![focus_notification(message.channel)] && handled_view(
                handled,
            ) == Ok::<OutcomeView, Error>(OutcomeView::Handled),
            !Schema::VideoFocusRequestNotification.spec_accepts(decoded) ==> final(commands)@
                == old(commands)@ && handled_view(handled) == Err::<OutcomeView, Error>(
                Error::SchemaError,
            ),
    {
        if !Schema::VideoFocusRequestNotification.accepts(decoded) {
            return Err(Error::SchemaError);
        }
        commands.send(
            Command {
                channel: message.channel,
                is_control: false,
                msg_type: MediaMessageType::VideoFocusNotification.to_u16(),
                body: Body::VideoFocusNotification {
                    mode: VideoFocusMode::Focused,
                    unsolicited: false,
                },
                encrypted: true,
            },
        );
        assert(commands@ =~= old(commands)@ + seq![focus_notification(message.channel)]);
        Ok(Outcome::Handled)
    }

    /// Takes in the reading of a start request. One that decoded names the
    /// session of the stream, or none, and the service keeps what it names.
    /// One that did not decode is dropped: the session stays as it was.
    pub fn handle_media_start_request(&mut self, decoded: Inbound) -> (handled: Result<
        Outcome,
        Error,
    >)
        ensures
            final(self).infos@ == old(self).infos@,
            match decoded {
                Inbound::MediaStart { session_id } => final(self).session_id == session_id
                    && handled_view(handled) == Ok::<OutcomeView, Error>(OutcomeView::Handled),
                _ => final(self).session_id == old(self).session_id && handled_view(handled)
                    == Err::<OutcomeView, Error>(Error::SchemaError),
            },
    {
        match decoded {
            Inbound::MediaStart { session_id } => {
                self.session_id = session_id;
                Ok(Outcome::Handled)
            },
            _ => Err(Error::SchemaError),
        }
    }

    /// Acknowledges one media message, if a session runs.
    pub fn send_media_ack(&mut self, commands: &mut Commands)
        ensures
            final(self).same(*old(self)),
            final(commands)@ == old(commands)@ + media_acks(old(self).session_id),
    {
        match self.session_id {
            Some(session_id) => {
                commands.send(
                    Command {
                        channel: VIDEO_CHANNEL,
                        is_control: false,
                        msg_type: MediaMessageType::Ack.to_u16(),
                        body: Body::MediaAck { session_id, ack: 1 },
                        encrypted: true,
                    },
                );
            },
            None => {},
        }
        assert(commands@ =~= old(commands)@ + media_acks(old(self).session_id));
    }

    /// Takes in media data. The first eight bytes are a time stamp. Data
    /// that holds one is acknowledged, and the bytes for the decoder are
    /// given: the codec configuration followed by the data without its time
    /// stamp. Data too short to hold a time stamp is dropped: nothing is
    /// queued, nothing is given, and the service stays as it was.
    pub fn handel_data_request(&mut self, message: &Message, commands: &mut Commands) -> (handled:
        Result<Outcome, Error>)
        ensures
            final(self).same(*old(self)),
            message.data@.len() >= TIMESTAMP_LEN ==> final(commands)@ == old(commands)@
                + media_acks(old(self).session_id) && handled_view(handled) == Ok::<
                OutcomeView,
                Error,
            >(OutcomeView::Media(old(self).infos@ + message.data@.skip(TIMESTAMP_LEN as int))),
            message.data@.len() < TIMESTAMP_LEN ==> final(commands)@ == old(commands)@
                && handled_view(handled) == Err::<OutcomeView, Error>(Error::SchemaError),
    {
        if message.data.len() < TIMESTAMP_LEN {
            return Err(Error::SchemaError);
        }
        self.send_media_ack(commands);
        let mut buffer = copy_range(self.infos.as_slice(), 0, self.infos.len());
        assert(buffer@ =~= self.infos@);
        let picture = copy_range(message.data.as_slice(), TIMESTAMP_LEN, message.data.len());
        assert(picture@ =~= message.data@.skip(TIMESTAMP_LEN as int));
        buffer.extend_from_slice(picture.as_slice());
        assert(buffer@ =~= old(self).infos@ + message.data@.skip(TIMESTAMP_LEN as int));
        Ok(Outcome::Media(buffer))
    }

    /// Takes in the codec configuration: acknowledges it and keeps all of
    /// its payload for the pictures that follow.
    pub fn handle_codec_config_request(&mut self, message: &Message, commands: &mut Commands)
        ensures
            final(self).session_id == old(self).session_id,
            final(self).infos@ == message.data@,
            final(commands)@ == old(commands)@ + media_acks(old(self).session_id),
    {
        self.send_media_ack(commands);
        let infos = copy_range(message.data.as_slice(), 0, message.data.len());
        assert(infos@ =~= message.data@);
        self.infos = infos;
    }
}

impl ServiceHandler for VideoService {
    open spec fn expects(message: MessageView) -> Option<Schema> {
        if message.msg_type == MediaMessageType::SetupRequest.spec_to_u16() {
            Some(Schema::MediaSetupRequest)
        } else if message.msg_type == MediaMessageType::VideoFocusRequest.spec_to_u16() {
            Some(Schema::VideoFocusRequestNotification)
        } else if message.msg_type == MediaMessageType::StartRequest.spec_to_u16() {
            Some(Schema::MediaStart)
        } else {
            None
        }
    }

    open spec fn reacts(
        before: Self,
        after: Self,
        message: MessageView,
        decoded: Inbound,
        sent: Seq<CommandView>,
        handled: Result<OutcomeView, Error>,
    ) -> bool {
        let nothing = Seq::<CommandView>::empty();
        let done = Ok::<OutcomeView, Error>(OutcomeView::Handled);
        let dropped = Err::<OutcomeView, Error>(Error::SchemaError);
        if misread(Self::expects(message), decoded) {
            after.same(before) && sent == nothing && handled == dropped
        } else if message.msg_type == MediaMessageType::SetupRequest.spec_to_u16() {
            &&& after.same(before)
            &&& sent == seq![config_response(message.channel), focus_notification(message.channel)]
            &&& handled == done
        } else if message.msg_type == MediaMessageType::VideoFocusRequest.spec_to_u16() {
            &&& after.same(before)
            &&& sent == seq![focus_notification(message.channel)]
            &&& handled == done
        } else if message.msg_type == MediaMessageType::StartRequest.spec_to_u16() {
            &&& decoded is MediaStart
            &&& after.session_id == decoded->session_id
            &&& after.infos@ == before.infos@
            &&& sent == nothing
            &&& handled == done
        } else if message.msg_type == MediaMessageType::MediaData.spec_to_u16() {
            if message.data.len() < TIMESTAMP_LEN {
                after.same(before) && sent == nothing && handled == dropped
            } else {
                &&& after.same(before)
                &&& sent == media_acks(before.session_id)
                &&& handled == Ok::<OutcomeView, Error>(
                    OutcomeView::Media(before.infos@ + message.data.skip(TIMESTAMP_LEN as int)),
                )
            }
        } else if message.msg_type == MediaMessageType::CodecData.spec_to_u16() {
            &&& after.session_id == before.session_id
            &&& after.infos@ == message.data
            &&& sent == media_acks(before.session_id)
            &&& handled == done
        } else {
            &&& after.same(before)
            &&& sent == nothing
            &&& handled == Ok::<OutcomeView, Error>(OutcomeView::Ignored)
        }
    }

    fn schema_for(&self, message: &Message) -> (schema: Option<Schema>) {
        match MediaMessageType::from_u16(message.msg_type) {
            Some(MediaMessageType::SetupRequest) => Some(Schema::MediaSetupRequest),
            Some(MediaMessageType::VideoFocusRequest) => Some(Schema::VideoFocusRequestNotification),
            Some(MediaMessageType::StartRequest) => Some(Schema::MediaStart),
            _ => None,
        }
    }

    fn handle_message(&mut self, message: &Message, decoded: Inbound, commands: &mut Commands) -> (handled:
        Result<Outcome, Error>) {
        let ghost waiting = commands@;
        assert(commands@.take(waiting.len() as int) =~= waiting);
        assert(commands@.skip(waiting.len() as int) =~= Seq::<CommandView>::empty());
        let handled = match MediaMessageType::from_u16(message.msg_type) {
            Some(MediaMessageType::SetupRequest) => self.handle_media_setup_request(
                message,
                decoded,
                commands,
            ),
            Some(MediaMessageType::VideoFocusRequest) => self.handle_video_focus_request(
                message,
                decoded,
                commands,
            ),
            Some(MediaMessageType::StartRequest) => self.handle_media_start_request(decoded),
            Some(MediaMessageType::MediaData) => self.handel_data_request(message, commands),
            Some(MediaMessageType::CodecData) => {
                self.handle_codec_config_request(message, commands);
                Ok(Outcome::Handled)
            },
            _ => Ok(Outcome::Ignored),
        };
        assert(commands@.take(waiting.len() as int) =~= waiting);
        assert(commands@.skip(waiting.len() as int) =~= commands@.subrange(
            waiting.len() as int,
            commands@.len() as int,
        ));
        proof {
            let sent = commands@.skip(waiting.len() as int);
            if commands@ == waiting + media_acks(old(self).session_id) {
                assert(sent =~= media_acks(old(self).session_id));
            }
            if commands@ == waiting + seq![focus_notification(message.channel)] {
                assert(sent =~= seq![focus_notification(message.channel)]);
            }
            if commands@ == waiting + seq![
                config_response(message.channel),
                focus_notification(message.channel),
            ] {
                assert(sent =~= seq![
                    config_response(message.channel),
                    focus_notification(message.channel),
                ]);
            }
        }
        handled
    }
}

impl Service for VideoService {
    open spec fn serves(&self, channel_id: u8) -> bool {
        true
    }

    open spec fn descriptor(&self, channel_id: u8) -> ServiceDescriptorView {
        video_descriptor(channel_id)
    }

    fn protobuf_descriptor(&self, channel_id: u8) -> (descriptor: ServiceDescriptor) {
        ServiceDescriptor {
            id: channel_id as u32,
            kind: ServiceKind::VideoSink {
                codec: MediaCodecType::MediaCodecVideoH264BP,
                audio_type: AudioStreamType::Unspecified,
                available_while_in_call: true,
                video_config: VideoConfiguration {
                    width: 1280,
                    height: 720,
                    frame_rate: 30,
                    density: 216,
                    margin_width: 0,
                    margin_height: 0,
                },
            },
        }
    }
}

} // verus!
