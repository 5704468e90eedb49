use crate::commands::{reply, Command, CommandView, Commands, INPUT_CHANNEL};
use crate::error::Error;
use crate::message::{ControlMessageType, Message, MessageView};
use crate::schema::{
    descriptor_views, AudioFocusRequestType, AudioFocusStateType, Body, BodyView, HeadUnitInfo,
    HeadUnitInfoView, Inbound, Schema, ServiceDescriptor, ServiceDescriptorView,
    ServiceDiscoveryResponse, ServiceDiscoveryResponseView,
};
use crate::service::audio::{
    audio_descriptor, AudioService, MEDIA_CHANNEL, SPEECH_CHANNEL, SYSTEM_CHANNEL,
};
use crate::service::input::{input_descriptor, InputService};
use crate::service::media_play_back::{
    playback_descriptor, MediaPlayBackService, PLAYBACK_CHANNEL,
};
use crate::service::microphone::{
    microphone_descriptor, MicrophoneService, MICROPHONE_CHANNEL,
};
use crate::service::sensor::{sensor_descriptor, SensorService, SENSOR_CHANNEL};
use crate::service::video::{video_descriptor, VideoService, VIDEO_CHANNEL};
use crate::service::{handled_view, misread, Outcome, OutcomeView, Service, ServiceHandler};
use vstd::prelude::*;

verus! {

/// The control channel.
pub const CONTROL_CHANNEL: u8 = 0;

/// What the service of a channel publishes during discovery. The control
/// channel and channels without a service publish nothing.
pub open spec fn channel_descriptor(channel_id: u8) -> Option<ServiceDescriptorView> {
    if channel_id == SENSOR_CHANNEL {
        Some(sensor_descriptor(channel_id))
    } else if channel_id == VIDEO_CHANNEL {
        Some(video_descriptor(channel_id))
    } else if channel_id == INPUT_CHANNEL {
        Some(input_descriptor(channel_id))
    } else if channel_id == SPEECH_CHANNEL || channel_id == SYSTEM_CHANNEL || channel_id
        == MEDIA_CHANNEL {
        Some(audio_descriptor(channel_id))
    } else if channel_id == MICROPHONE_CHANNEL {
        Some(microphone_descriptor(channel_id))
    } else if channel_id == PLAYBACK_CHANNEL {
        Some(playback_descriptor(channel_id))
    } else {
        None
    }
}

/// The channels in the order in which discovery lists them.
pub open spec fn discovery_order() -> Seq<u8> {
    seq![
        SENSOR_CHANNEL,
        VIDEO_CHANNEL,
        INPUT_CHANNEL,
        MEDIA_CHANNEL,
        SPEECH_CHANNEL,
        SYSTEM_CHANNEL,
        MICROPHONE_CHANNEL,
        PLAYBACK_CHANNEL,
    ]
}

/// The services that discovery lists: one entry for each of the channels 1
/// to 8.
pub open spec fn canonical_catalogue() -> Seq<ServiceDescriptorView> {
    Seq::new(8, |i: int| channel_descriptor(discovery_order()[i]).unwrap())
}

/// Discovery lists each of the channels 1 to 8 exactly once, under its own
/// number, with what the service of that channel publishes.
pub proof fn lemma_catalogue_covers_channels()
    ensures
        canonical_catalogue().len() == 8,
        forall|i: int|
            0 <= i < 8 ==> 1 <= (#[trigger] canonical_catalogue()[i]).id <= 8
                && channel_descriptor(canonical_catalogue()[i].id as u8) == Some(
                canonical_catalogue()[i],
            ),
        forall|i: int, j: int|
            0 <= i < j < 8 ==> (#[trigger] canonical_catalogue()[i]).id != (
            #[trigger] canonical_catalogue()[j]).id,
{
    let order = discovery_order();
    let catalogue = canonical_catalogue();
    assert forall|i: int| 0 <= i < 8 implies 1 <= (#[trigger] catalogue[i]).id <= 8
        && channel_descriptor(catalogue[i].id as u8) == Some(catalogue[i]) by {
        assert(catalogue[i].id == order[i]);
    }
    assert forall|i: int, j: int| 0 <= i < j < 8 implies (#[trigger] catalogue[i]).id != (
    #[trigger] catalogue[j]).id by {
        assert(catalogue[i].id == order[i]);
        assert(catalogue[j].id == order[j]);
    }
}

/// Where discovery lists a channel.
pub open spec fn catalogue_position(channel_id: u8) -> int {
    if channel_id == MEDIA_CHANNEL {
        3
    } else if channel_id == SPEECH_CHANNEL || channel_id == SYSTEM_CHANNEL {
        channel_id as int
    } else {
        channel_id as int - 1
    }
}

/// Discovery lists every channel from 1 to 8 with what its service
/// publishes.
pub proof fn lemma_catalogue_lists(channel_id: u8)
    requires
        1 <= channel_id <= 8,
    ensures
        0 <= catalogue_position(channel_id) < 8,
        Some(canonical_catalogue()[catalogue_position(channel_id)]) == channel_descriptor(
            channel_id,
        ),
{
    assert(discovery_order()[catalogue_position(channel_id)] == channel_id);
}

/// Builds the list of services that discovery publishes.
pub fn catalogue() -> (services: Vec<ServiceDescriptor>)
    ensures
        descriptor_views(services@) == canonical_catalogue(),
{
    let audio = AudioService::new();
    let mut services: Vec<ServiceDescriptor> = Vec::new();
    services.push(SensorService::new().protobuf_descriptor(SENSOR_CHANNEL));
    services.push(VideoService::new().protobuf_descriptor(VIDEO_CHANNEL));
    services.push(InputService::new().protobuf_descriptor(INPUT_CHANNEL));
    services.push(audio.protobuf_descriptor(MEDIA_CHANNEL));
    services.push(audio.protobuf_descriptor(SPEECH_CHANNEL));
    services.push(audio.protobuf_descriptor(SYSTEM_CHANNEL));
    services.push(MicrophoneService::new().protobuf_descriptor(MICROPHONE_CHANNEL));
    services.push(MediaPlayBackService::new().protobuf_descriptor(PLAYBACK_CHANNEL));
    assert(descriptor_views(services@) =~= canonical_catalogue());
    services
}

/// The focus that the head unit grants on a request, and nothing where the
/// request asks for nothing.
pub open spec fn spec_focus_state(request: AudioFocusRequestType) -> Option<AudioFocusStateType> {
    match request {
        AudioFocusRequestType::Unspecified => None,
        AudioFocusRequestType::Gain => Some(AudioFocusStateType::StateGain),
        AudioFocusRequestType::GainTransient => Some(AudioFocusStateType::StateGainTransient),
        AudioFocusRequestType::GainTransientMayDuck => Some(
            AudioFocusStateType::StateLossTransientCanDuck,
        ),
        AudioFocusRequestType::Release => Some(AudioFocusStateType::StateLoss),
    }
}

#[verifier::when_used_as_spec(spec_focus_state)]
pub fn focus_state(request: AudioFocusRequestType) -> (state: Option<AudioFocusStateType>)
    ensures
        state == spec_focus_state(request),
{
    match request {
        AudioFocusRequestType::Unspecified => None,
        AudioFocusRequestType::Gain => Some(AudioFocusStateType::StateGain),
        AudioFocusRequestType::GainTransient => Some(AudioFocusStateType::StateGainTransient),
        AudioFocusRequestType::GainTransientMayDuck => Some(
            AudioFocusStateType::StateLossTransientCanDuck,
        ),
        AudioFocusRequestType::Release => Some(AudioFocusStateType::StateLoss),
    }
}

/// The answer to a discovery request.
pub open spec fn discovery_response(info: HeadUnitInfoView) -> CommandView {
    reply(
        CONTROL_CHANNEL,
        ControlMessageType::ServiceDiscoveryResponse.spec_to_u16(),
        BodyView::ServiceDiscoveryResponse(
            ServiceDiscoveryResponseView {
                services: canonical_catalogue(),
                info,
                left_hand_traffic: false,
                can_play_native_media_during_vr: false,
                hide_projected_clock: false,
            },
        ),
    )
}

/// The notification that grants an audio focus.
pub open spec fn focus_granted(focus_state: AudioFocusStateType) -> CommandView {
    reply(
        CONTROL_CHANNEL,
        ControlMessageType::AudioFocusNotification.spec_to_u16(),
        BodyView::AudioFocusNotification { focus_state },
    )
}

/// The service of the control channel once the session runs: it answers
/// discovery and requests for the audio focus.
#[derive(Debug)]
pub struct ControlService {
    pub info: HeadUnitInfo,
}

impl ControlService {
    pub fn new(info: HeadUnitInfo) -> (service: Self)
        ensures
            service.info == info,
    {
        ControlService { info }
    }

    /// Answers a discovery request with the services of the channels 1 to 8
    /// and the names of the head unit.
    pub fn handle_service_discovery_request(&mut self, commands: &mut Commands)
        ensures
            final(self).info@ == old(self).info@,
            final(commands)@ == old(commands)@.push(discovery_response(old(self).info@)),
    {
        let response = ServiceDiscoveryResponse {
            services: catalogue(),
            info: self.info.clone(),
            left_hand_traffic: false,
            can_play_native_media_during_vr: false,
            hide_projected_clock: false,
        };
        commands.send(
            Command {
                channel: CONTROL_CHANNEL,
                is_control: false,
                msg_type: ControlMessageType::ServiceDiscoveryResponse.to_u16(),
                body: Body::ServiceDiscoveryResponse(response),
                encrypted: true,
            },
        );
    }

    /// Answers a request for the audio focus: grants what the request asks
    /// for. A request that asks for nothing is a schema error and gets no
    /// answer.
    pub fn handle_audio_focus_request_notification(
        &mut self,
        request: AudioFocusRequestType,
        commands: &mut Commands,
    ) -> (handled: Result<Outcome, Error>)
        ensures
            final(self).info@ == old(self).info@,
            match spec_focus_state(request) {
                Some(state) => final(commands)@ == old(commands)@.push(focus_granted(state))
                    && handled_view(handled) == Ok::<OutcomeView, Error>(OutcomeView::Handled),
                None => final(commands)@ == old(commands)@ && handled_view(handled) == Err::<
                    OutcomeView,
                    Error,
                >(Error::SchemaError),
            },
    {
        match focus_state(request) {
            Some(focus_state) => {
                commands.send(
                    Command {
                        channel: CONTROL_CHANNEL,
                        is_control: false,
                        msg_type: ControlMessageType::AudioFocusNotification.to_u16(),
                        body: Body::AudioFocusNotification { focus_state },
                        encrypted: true,
                    },
                );
                Ok(Outcome::Handled)
            },
            None => Err(Error::SchemaError),
        }
    }
}

impl ServiceHandler for ControlService {
    open spec fn expects(message: MessageView) -> Option<Schema> {
        if message.msg_type == ControlMessageType::AudioFocusRequestNotification.spec_to_u16() {
            Some(Schema::AudioFocusRequestNotification)
        } else {
            None
        }
    }

    open spec fn reacts(
        before: Self,
        after: Self,
        message: MessageView,
        decoded: Inbound,
        sent: Seq<CommandView>,
        handled: Result<OutcomeView, Error>,
    ) -> bool {
        let nothing = Seq::<CommandView>::empty();
        let dropped = Err::<OutcomeView, Error>(Error::SchemaError);
        let done = Ok::<OutcomeView, Error>(OutcomeView::Handled);
        &&& after.info@ == before.info@
        &&& if misread(Self::expects(message), decoded) {
            sent == nothing && handled == dropped
        } else if message.msg_type == ControlMessageType::ServiceDiscoveryRequest.spec_to_u16() {
            sent == seq![discovery_response(before.info@)] && handled == done
        } else if message.msg_type
            == ControlMessageType::AudioFocusRequestNotification.spec_to_u16() {
            &&& decoded is AudioFocusRequest
            &&& match spec_focus_state(decoded->request) {
                Some(state) => sent == seq![focus_granted(state)] && handled == done,
                None => sent == nothing && handled == dropped,
            }
        } else {
            sent == nothing && handled == Ok::<OutcomeView, Error>(OutcomeView::Ignored)
        }
    }

    fn schema_for(&self, message: &Message) -> (schema: Option<Schema>) {
        match ControlMessageType::from_u16(message.msg_type) {
            Some(ControlMessageType::AudioFocusRequestNotification) => Some(
                Schema::AudioFocusRequestNotification,
            ),
            _ => None,
        }
    }

    fn handle_message(&mut self, message: &Message, decoded: Inbound, commands: &mut Commands) -> (handled:
        Result<Outcome, Error>) {
        let ghost waiting = commands@;
        assert(commands@.take(waiting.len() as int) =~= waiting);
        assert(commands@.skip(waiting.len() as int) =~= Seq::<CommandView>::empty());
        let handled = match ControlMessageType::from_u16(message.msg_type) {
            Some(ControlMessageType::ServiceDiscoveryRequest) => {
                self.handle_service_discovery_request(commands);
                assert(commands@.skip(waiting.len() as int) =~= seq![
                    discovery_response(old(self).info@),
                ]);
                Ok(Outcome::Handled)
            },
            Some(ControlMessageType::AudioFocusRequestNotification) => {
                match decoded {
                    Inbound::AudioFocusRequest { request } => {
                        let handled = self.handle_audio_focus_request_notification(
                            request,
                            commands,
                        );
                        proof {
                            match spec_focus_state(request) {
                                Some(state) => {
                                    assert(commands@.skip(waiting.len() as int) =~= seq![
                                        focus_granted(state),
                                    ]);
                                },
                                None => {},
                            }
                        }
                        handled
                    },
                    _ => Err(Error::SchemaError),
                }
            },
            _ => Ok(Outcome::Ignored),
        };
        assert(commands@.take(waiting.len() as int) =~= waiting);
        handled
    }
}

} // verus!
