use vstd::prelude::*;

verus! {

/// Status that a response carries.
#[derive(Debug, Clone, Copy, PartialEq, Eq, Structural)]
pub enum MessageStatus {
    StatusOk,
}

/// Who decides on the configuration of a media stream.
#[derive(Debug, Clone, Copy, PartialEq, Eq, Structural)]
pub enum ConfigStatus {
    HeadUnit,
}

/// Whether the projected video has the screen.
#[derive(Debug, Clone, Copy, PartialEq, Eq, Structural)]
pub enum VideoFocusMode {
    Focused,
}

/// What the peer asks for when it requests audio focus.
#[derive(Debug, Clone, Copy, PartialEq, Eq, Structural)]
pub enum AudioFocusRequestType {
    /// The schema's zero value: no request at all.
    Unspecified,
    Gain,
    GainTransient,
    GainTransientMayDuck,
    Release,
}

/// The audio focus that the head unit grants.
#[derive(Debug, Clone, Copy, PartialEq, Eq, Structural)]
pub enum AudioFocusStateType {
    StateGain,
    StateGainTransient,
    StateLossTransientCanDuck,
    StateLoss,
}

/// Codec of a media stream.
#[derive(Debug, Clone, Copy, PartialEq, Eq, Structural)]
pub enum MediaCodecType {
    MediaCodecAudioPCM,
    MediaCodecVideoH264BP,
}

/// Purpose of an audio stream.
#[derive(Debug, Clone, Copy, PartialEq, Eq, Structural)]
pub enum AudioStreamType {
    /// The schema's zero value: the stream carries no audio.
    Unspecified,
    Speech,
    System,
    Media,
}

/// A sensor that the head unit offers.
#[derive(Debug, Clone, Copy, PartialEq, Eq, Structural)]
pub enum SensorType {
    DrivingStatus,
}

/// What the driver may do at the moment.
#[derive(Debug, Clone, Copy, PartialEq, Eq, Structural)]
pub enum DrivingStatus {
    Unrestricted,
}

/// A key that the head unit can report.
#[derive(Debug, Clone, Copy, PartialEq, Eq, Structural)]
pub enum KeyCode {
    KeycodeDPadUp,
    KeycodeDPadDown,
    KeycodeDPadLeft,
    KeycodeDPadRight,
    KeycodeDPadCenter,
    KeycodeRotaryController,
    KeycodeHome,
    KeycodeBack,
}

/// One video mode that the sink accepts.
#[derive(Debug, Clone, Copy, PartialEq, Eq, Structural)]
pub struct VideoConfiguration {
    pub width: u32,
    pub height: u32,
    pub frame_rate: u32,
    pub density: u32,
    pub margin_width: u32,
    pub margin_height: u32,
}

/// One PCM format.
#[derive(Debug, Clone, Copy, PartialEq, Eq, Structural)]
pub struct AudioConfiguration {
    pub sample_rate: u32,
    pub number_of_bits: u32,
    pub number_of_channels: u32,
}

/// What a channel offers, as published during discovery.
#[derive(Debug, PartialEq, Eq)]
pub enum ServiceKind {
    SensorSource { sensor: SensorType },
    VideoSink {
        codec: MediaCodecType,
        audio_type: AudioStreamType,
        available_while_in_call: bool,
        video_config: VideoConfiguration,
    },
    InputSource { keycodes_supported: Vec<KeyCode> },
    AudioSink { codec: MediaCodecType, audio_type: AudioStreamType, config: AudioConfiguration },
    MediaSource { codec: MediaCodecType, config: AudioConfiguration },
    MediaPlaybackStatus,
}

/// A service kind as a mathematical value.
pub enum ServiceKindView {
    SensorSource { sensor: SensorType },
    VideoSink {
        codec: MediaCodecType,
        audio_type: AudioStreamType,
        available_while_in_call: bool,
        video_config: VideoConfiguration,
    },
    InputSource { keycodes_supported: Seq<KeyCode> },
    AudioSink { codec: MediaCodecType, audio_type: AudioStreamType, config: AudioConfiguration },
    MediaSource { codec: MediaCodecType, config: AudioConfiguration },
    MediaPlaybackStatus,
}

impl View for ServiceKind {
    type V = ServiceKindView;

    open spec fn view(&self) -> ServiceKindView {
        match *self {
            ServiceKind::SensorSource { sensor } => ServiceKindView::SensorSource { sensor },
            ServiceKind::VideoSink {
                codec,
                audio_type,
                available_while_in_call,
                video_config,
            } => ServiceKindView::VideoSink {
                codec,
                audio_type,
                available_while_in_call,
                video_config,
            },
            ServiceKind::InputSource { keycodes_supported } => ServiceKindView::InputSource {
                keycodes_supported: keycodes_supported@,
            },
            ServiceKind::AudioSink { codec, audio_type, config } => ServiceKindView::AudioSink {
                codec,
                audio_type,
                config,
            },
            ServiceKind::MediaSource { codec, config } => ServiceKindView::MediaSource {
                codec,
                config,
            },
            ServiceKind::MediaPlaybackStatus => ServiceKindView::MediaPlaybackStatus,
        }
    }
}

/// The entry of one channel in the discovery response.
#[derive(Debug, PartialEq, Eq)]
pub struct ServiceDescriptor {
    pub id: u32,
    pub kind: ServiceKind,
}

/// A descriptor as a mathematical value.
pub struct ServiceDescriptorView {
    pub id: u32,
    pub kind: ServiceKindView,
}

impl View for ServiceDescriptor {
    type V = ServiceDescriptorView;

    open spec fn view(&self) -> ServiceDescriptorView {
        ServiceDescriptorView { id: self.id, kind: self.kind@ }
    }
}

/// The descriptors of a vector as mathematical values.
pub open spec fn descriptor_views(descriptors: Seq<ServiceDescriptor>) -> Seq<ServiceDescriptorView> {
    descriptors.map_values(|descriptor: ServiceDescriptor| descriptor@)
}

/// How the head unit names itself and the vehicle during discovery.
#[derive(Debug, PartialEq, Eq)]
pub struct HeadUnitInfo {
    pub make: String,
    pub model: String,
    pub year: String,
    pub vehicle_id: String,
    pub head_unit_make: String,
    pub head_unit_model: String,
    pub head_unit_software_build: String,
    pub head_unit_software_version: String,
}

/// The names as mathematical values.
pub struct HeadUnitInfoView {
    pub make: Seq<char>,
    pub model: Seq<char>,
    pub year: Seq<char>,
    pub vehicle_id: Seq<char>,
    pub head_unit_make: Seq<char>,
    pub head_unit_model: Seq<char>,
    pub head_unit_software_build: Seq<char>,
    pub head_unit_software_version: Seq<char>,
}

impl View for HeadUnitInfo {
    type V = HeadUnitInfoView;

    open spec fn view(&self) -> HeadUnitInfoView {
        HeadUnitInfoView {
            make: self.make@,
            model: self.model@,
            year: self.year@,
            vehicle_id: self.vehicle_id@,
            head_unit_make: self.head_unit_make@,
            head_unit_model: self.head_unit_model@,
            head_unit_software_build: self.head_unit_software_build@,
            head_unit_software_version: self.head_unit_software_version@,
        }
    }
}

impl Clone for HeadUnitInfo {
    fn clone(&self) -> (copy: Self)
        ensures
            copy@ == self@,
    {
        HeadUnitInfo {
            make: self.make.clone(),
            model: self.model.clone(),
            year: self.year.clone(),
            vehicle_id: self.vehicle_id.clone(),
            head_unit_make: self.head_unit_make.clone(),
            head_unit_model: self.head_unit_model.clone(),
            head_unit_software_build: self.head_unit_software_build.clone(),
            head_unit_software_version: self.head_unit_software_version.clone(),
        }
    }
}

/// The answer to a discovery request.
#[derive(Debug, PartialEq, Eq)]
pub struct ServiceDiscoveryResponse {
    pub services: Vec<ServiceDescriptor>,
    pub info: HeadUnitInfo,
    pub left_hand_traffic: bool,
    pub can_play_native_media_during_vr: bool,
    pub hide_projected_clock: bool,
}

/// A discovery response as a mathematical value.
pub struct ServiceDiscoveryResponseView {
    pub services: Seq<ServiceDescriptorView>,
    pub info: HeadUnitInfoView,
    pub left_hand_traffic: bool,
    pub can_play_native_media_during_vr: bool,
    pub hide_projected_clock: bool,
}

impl View for ServiceDiscoveryResponse {
    type V = ServiceDiscoveryResponseView;

    open spec fn view(&self) -> ServiceDiscoveryResponseView {
        ServiceDiscoveryResponseView {
            services: descriptor_views(self.services@),
            info: self.info@,
            left_hand_traffic: self.left_hand_traffic,
            can_play_native_media_during_vr: self.can_play_native_media_during_vr,
            hide_projected_clock: self.hide_projected_clock,
        }
    }
}

/// One key of a key event.
#[derive(Debug, Clone, Copy, PartialEq, Eq, Structural)]
pub struct Key {
    pub keycode: u32,
    pub down: bool,
    pub metastate: u32,
    pub long_press: bool,
}

/// What an input report tells: one key, or one turn of the rotary controller.
#[derive(Debug, Clone, Copy, PartialEq, Eq, Structural)]
pub enum InputEvent {
    Key(Key),
    Relative { keycode: KeyCode, delta: i32 },
}

/// What a message of the head unit says, before the schema turns it into
/// bytes.
#[derive(Debug, PartialEq, Eq)]
pub enum Body {
    /// Bytes that are sent as they are.
    Raw(Vec<u8>),
    ChannelOpenResponse { status: MessageStatus },
    ServiceDiscoveryResponse(ServiceDiscoveryResponse),
    AudioFocusNotification { focus_state: AudioFocusStateType },
    SensorStartResponse { status: MessageStatus },
    SensorBatch { driving_status: DrivingStatus },
    MediaConfig { config_status: ConfigStatus, max_unacked: u32, configuration_index: u32 },
    VideoFocusNotification { mode: VideoFocusMode, unsolicited: bool },
    MediaAck { session_id: i32, ack: u32 },
    BindingResponse { status: MessageStatus },
    InputReport { timestamp: u64, event: InputEvent },
}

/// A body as a mathematical value.
pub enum BodyView {
    Raw(Seq<u8>),
    ChannelOpenResponse { status: MessageStatus },
    ServiceDiscoveryResponse(ServiceDiscoveryResponseView),
    AudioFocusNotification { focus_state: AudioFocusStateType },
    SensorStartResponse { status: MessageStatus },
    SensorBatch { driving_status: DrivingStatus },
    MediaConfig { config_status: ConfigStatus, max_unacked: u32, configuration_index: u32 },
    VideoFocusNotification { mode: VideoFocusMode, unsolicited: bool },
    MediaAck { session_id: i32, ack: u32 },
    BindingResponse { status: MessageStatus },
    InputReport { timestamp: u64, event: InputEvent },
}

impl View for Body {
    type V = BodyView;

    open spec fn view(&self) -> BodyView {
        match *self {
            Body::Raw(bytes) => BodyView::Raw(bytes@),
            Body::ChannelOpenResponse { status } => BodyView::ChannelOpenResponse { status },
            Body::ServiceDiscoveryResponse(response) => BodyView::ServiceDiscoveryResponse(
                response@,
            ),
            Body::AudioFocusNotification { focus_state } => BodyView::AudioFocusNotification {
                focus_state,
            },
            Body::SensorStartResponse { status } => BodyView::SensorStartResponse { status },
            Body::SensorBatch { driving_status } => BodyView::SensorBatch { driving_status },
            Body::MediaConfig {
                config_status,
                max_unacked,
                configuration_index,
            } => BodyView::MediaConfig { config_status, max_unacked, configuration_index },
            Body::VideoFocusNotification { mode, unsolicited } => BodyView::VideoFocusNotification {
                mode,
                unsolicited,
            },
            Body::MediaAck { session_id, ack } => BodyView::MediaAck { session_id, ack },
            Body::BindingResponse { status } => BodyView::BindingResponse { status },
            Body::InputReport { timestamp, event } => BodyView::InputReport { timestamp, event },
        }
    }
}

/// The schema message that the payload of an inbound message holds.
#[derive(Debug, Clone, Copy, PartialEq, Eq, Structural)]
pub enum Schema {
    ChannelOpenRequest,
    AudioFocusRequestNotification,
    MediaSetupRequest,
    VideoFocusRequestNotification,
    MediaStart,
    SensorRequest,
    KeyBindingRequest,
    MediaPlaybackStatus,
    MediaMetaData,
}

/// What the payload of an inbound message decoded to, as far as the head
/// unit reads it.
#[derive(Debug, Clone, Copy, PartialEq, Eq, Structural)]
pub enum Inbound {
    /// The payload is not read through a schema.
    Opaque,
    /// The payload does not decode against the schema of its tag.
    Malformed,
    /// The payload decodes, and nothing in it is read.
    Decoded,
    /// An audio focus request and what it asks for.
    AudioFocusRequest { request: AudioFocusRequestType },
    /// The start of a media stream and the session that it names.
    MediaStart { session_id: Option<i32> },
}

impl Schema {
    /// Whether `decoded` is a reading of a payload of this schema.
    pub open spec fn spec_accepts(self, decoded: Inbound) -> bool {
        match self {
            Schema::AudioFocusRequestNotification => decoded is AudioFocusRequest,
            Schema::MediaStart => decoded is MediaStart,
            _ => decoded is Decoded,
        }
    }

    #[verifier::when_used_as_spec(spec_accepts)]
    pub fn accepts(self, decoded: Inbound) -> (fits: bool)
        ensures
            fits == self.spec_accepts(decoded),
    {
        match self {
            Schema::AudioFocusRequestNotification => match decoded {
                Inbound::AudioFocusRequest { .. } => true,
                _ => false,
            },
            Schema::MediaStart => match decoded {
                Inbound::MediaStart { .. } => true,
                _ => false,
            },
            _ => match decoded {
                Inbound::Decoded => true,
                _ => false,
            },
        }
    }
}

} // verus!
