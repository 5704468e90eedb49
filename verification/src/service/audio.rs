use crate::commands::{Command, CommandView, Commands};
use crate::error::Error;
use crate::message::{MediaMessageType, Message, MessageView};
use crate::schema::{
    AudioConfiguration, AudioStreamType, Body, ConfigStatus, Inbound, MediaCodecType, Schema,
    ServiceDescriptor, ServiceDescriptorView, ServiceKind, ServiceKindView,
};
use crate::service::video::config_response;
use crate::service::{handled_view, misread, Outcome, OutcomeView, Service, ServiceHandler};
use vstd::prelude::*;

verus! {

/// The channel of the speech audio sink.
pub const SPEECH_CHANNEL: u8 = 4;

/// The channel of the system audio sink.
pub const SYSTEM_CHANNEL: u8 = 5;

/// The channel of the media audio sink.
pub const MEDIA_CHANNEL: u8 = 6;

/// An audio sink. The three sinks differ in what they publish only.
#[derive(Debug)]
pub struct AudioService {}

/// The stream that the audio sink of a channel plays.
pub open spec fn audio_stream(channel_id: u8) -> AudioStreamType {
    if channel_id == SPEECH_CHANNEL {
        AudioStreamType::Speech
    } else if channel_id == SYSTEM_CHANNEL {
        AudioStreamType::System
    } else {
        AudioStreamType::Media
    }
}

/// The PCM format of the audio sink of a channel: media in stereo at
/// 48 kHz, speech and system sounds in mono at 16 kHz, all in 16 bits.
pub open spec fn audio_format(channel_id: u8) -> AudioConfiguration {
    if channel_id == MEDIA_CHANNEL {
        AudioConfiguration { sample_rate: 48000, number_of_bits: 16, number_of_channels: 2 }
    } else {
        AudioConfiguration { sample_rate: 16000, number_of_bits: 16, number_of_channels: 1 }
    }
}

/// What the audio sink of a channel publishes of itself.
pub open spec fn audio_descriptor(channel_id: u8) -> ServiceDescriptorView {
    ServiceDescriptorView {
        id: channel_id as u32,
        kind: ServiceKindView::AudioSink {
            codec: MediaCodecType::MediaCodecAudioPCM,
            audio_type: audio_stream(channel_id),
            config: audio_format(channel_id),
        },
    }
}

/// Whether a message is a setup request for an audio sink.
pub open spec fn is_audio_setup(message: MessageView) -> bool {
    !message.is_control && message.msg_type == MediaMessageType::SetupRequest.spec_to_u16()
}

/// Whether a message is one that the application's audio sink takes care
/// of: audio data, or the start of a stream.
pub open spec fn is_for_audio_sink(message: MessageView) -> bool {
    !message.is_control && (message.msg_type == MediaMessageType::MediaData.spec_to_u16()
        || message.msg_type == MediaMessageType::StartRequest.spec_to_u16())
}

impl AudioService {
    pub fn new() -> (service: Self) {
        AudioService {  }
    }

    /// Takes in a setup request with the reading of its payload. A request
    /// that decoded is answered with the configuration response. A request
    /// that did not decode is dropped: nothing is queued.
    pub fn handle_media_setup_request(
        &mut self,
        message: &Message,
        decoded: Inbound,
        commands: &mut Commands,
    ) -> (handled: Result<Outcome, Error>)
        ensures
            Schema::MediaSetupRequest.spec_accepts(decoded) ==> final(commands)@ == old(
                commands,
            )@.push(config_response(message.channel)) && handled_view(handled) == Ok::<
                OutcomeView,
                Error,
            >(OutcomeView::Handled),
            !Schema::MediaSetupRequest.spec_accepts(decoded) ==> final(commands)@ == old(
                commands,
            )@ && handled_view(handled) == Err::<OutcomeView, Error>(Error::SchemaError),
    {
        if !Schema::MediaSetupRequest.accepts(decoded) {
            return Err(Error::SchemaError);
        }
        commands.send(
            Command {
                channel: message.channel,
                is_control: false,
                msg_type: MediaMessageType::ConfigResponse.to_u16(),
                body: Body::MediaConfig {
                    config_status: ConfigStatus::HeadUnit,
                    max_unacked: 1,
                    configuration_index: 0,
                },
                encrypted: true,
            },
        );
        Ok(Outcome::Handled)
    }
}

impl ServiceHandler for AudioService {
    open spec fn expects(message: MessageView) -> Option<Schema> {
        if is_audio_setup(message) {
            Some(Schema::MediaSetupRequest)
        } else {
            None
        }
    }

    open spec fn reacts(
        before: Self,
        after: Self,
        message: MessageView,
        decoded: Inbound,
        sent: Seq<CommandView>,
        handled: Result<OutcomeView, Error>,
    ) -> bool {
        if misread(Self::expects(message), decoded) {
            sent == Seq::<CommandView>::empty() && handled == Err::<OutcomeView, Error>(
                Error::SchemaError,
            )
        } else if is_audio_setup(message) {
            sent == seq![config_response(message.channel)] && handled == Ok::<OutcomeView, Error>(
                OutcomeView::Handled,
            )
        } else if is_for_audio_sink(message) {
            sent == Seq::<CommandView>::empty() && handled == Ok::<OutcomeView, Error>(
                OutcomeView::Delegated,
            )
        } else {
            sent == Seq::<CommandView>::empty() && handled == Ok::<OutcomeView, Error>(
                OutcomeView::Ignored,
            )
        }
    }

    fn schema_for(&self, message: &Message) -> (schema: Option<Schema>) {
        if !message.is_control && message.msg_type == MediaMessageType::SetupRequest.to_u16() {
            Some(Schema::MediaSetupRequest)
        } else {
            None
        }
    }

    fn handle_message(&mut self, message: &Message, decoded: Inbound, commands: &mut Commands) -> (handled:
        Result<Outcome, Error>) {
        let ghost waiting = commands@;
        assert(commands@.take(waiting.len() as int) =~= waiting);
        assert(commands@.skip(waiting.len() as int) =~= Seq::<CommandView>::empty());
        match self.schema_for(message) {
            Some(_) => {
                let handled = self.handle_media_setup_request(message, decoded, commands);
                assert(commands@.take(waiting.len() as int) =~= waiting);
                proof {
                    if Schema::MediaSetupRequest.spec_accepts(decoded) {
                        assert(commands@.skip(waiting.len() as int) =~= seq![
                            config_response(message.channel),
                        ]);
                    }
                }
                handled
            },
            None => {
                if !message.is_control && (message.msg_type == MediaMessageType::MediaData.to_u16()
                    || message.msg_type == MediaMessageType::StartRequest.to_u16()) {
                    Ok(Outcome::Delegated)
                } else {
                    Ok(Outcome::Ignored)
                }
            },
        }
    }
}

impl Service for AudioService {
    open spec fn serves(&self, channel_id: u8) -> bool {
        channel_id == SPEECH_CHANNEL || channel_id == SYSTEM_CHANNEL || channel_id == MEDIA_CHANNEL
    }

    open spec fn descriptor(&self, channel_id: u8) -> ServiceDescriptorView {
        audio_descriptor(channel_id)
    }

    fn protobuf_descriptor(&self, channel_id: u8) -> (descriptor: ServiceDescriptor) {
        let audio_type = if channel_id == SPEECH_CHANNEL {
            AudioStreamType::Speech
        } else if channel_id == SYSTEM_CHANNEL {
            AudioStreamType::System
        } else {
            AudioStreamType::Media
        };
        let config = if channel_id == MEDIA_CHANNEL {
            AudioConfiguration { sample_rate: 48000, number_of_bits: 16, number_of_channels: 2 }
        } else {
            AudioConfiguration { sample_rate: 16000, number_of_bits: 16, number_of_channels: 1 }
        };
        ServiceDescriptor {
            id: channel_id as u32,
            kind: ServiceKind::AudioSink {
                codec: MediaCodecType::MediaCodecAudioPCM,
                audio_type,
                config,
            },
        }
    }
}

} // verus!
