use crate::commands::{CommandView, Commands};
use crate::error::Error;
use crate::message::{Message, MessageView};
use crate::schema::{
    AudioConfiguration, Inbound, MediaCodecType, Schema, ServiceDescriptor, ServiceDescriptorView,
    ServiceKind, ServiceKindView,
};
use crate::service::{handled_view, Outcome, OutcomeView, Service, ServiceHandler};
use vstd::prelude::*;

verus! {

/// The channel of the microphone.
pub const MICROPHONE_CHANNEL: u8 = 7;

/// The microphone source. It is published and takes no message yet.
#[derive(Debug)]
pub struct MicrophoneService {}

/// What the microphone publishes of itself: PCM in mono at 16 kHz, in 16 bits.
pub open spec fn microphone_descriptor(channel_id: u8) -> ServiceDescriptorView {
    ServiceDescriptorView {
        id: channel_id as u32,
        kind: ServiceKindView::MediaSource {
            codec: MediaCodecType::MediaCodecAudioPCM,
            config: AudioConfiguration {
                sample_rate: 16000,
                number_of_bits: 16,
                number_of_channels: 1,
            },
        },
    }
}

impl MicrophoneService {
    pub fn new() -> (service: Self) {
        MicrophoneService {  }
    }
}

impl ServiceHandler for MicrophoneService {
    open spec fn expects(message: MessageView) -> Option<Schema> {
        None
    }

    open spec fn reacts(
        before: Self,
        after: Self,
        message: MessageView,
        decoded: Inbound,
        sent: Seq<CommandView>,
        handled: Result<OutcomeView, Error>,
    ) -> bool {
        sent == Seq::<CommandView>::empty() && handled == Ok::<OutcomeView, Error>(
            OutcomeView::Ignored,
        )
    }

    fn schema_for(&self, message: &Message) -> (schema: Option<Schema>) {
        None
    }

    fn handle_message(&mut self, message: &Message, decoded: Inbound, commands: &mut Commands) -> (handled:
        Result<Outcome, Error>) {
        assert(commands@.take(commands@.len() as int) =~= commands@);
        assert(commands@.skip(commands@.len() as int) =~= Seq::<CommandView>::empty());
        Ok(Outcome::Ignored)
    }
}

impl Service for MicrophoneService {
    open spec fn serves(&self, channel_id: u8) -> bool {
        true
    }

    open spec fn descriptor(&self, channel_id: u8) -> ServiceDescriptorView {
        microphone_descriptor(channel_id)
    }

    fn protobuf_descriptor(&self, channel_id: u8) -> (descriptor: ServiceDescriptor) {
        ServiceDescriptor {
            id: channel_id as u32,
            kind: ServiceKind::MediaSource {
                codec: MediaCodecType::MediaCodecAudioPCM,
                config: AudioConfiguration {
                    sample_rate: 16000,
                    number_of_bits: 16,
                    number_of_channels: 1,
                },
            },
        }
    }
}

} // verus!
