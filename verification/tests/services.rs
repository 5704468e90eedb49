use anauuno::commands::{Command, Commands};
use anauuno::error::Error;
use anauuno::message::Message;
use anauuno::schema::{
    AudioConfiguration, AudioFocusRequestType, AudioFocusStateType, AudioStreamType, Body,
    ConfigStatus, DrivingStatus, HeadUnitInfo, Inbound, KeyCode, MediaCodecType, MessageStatus,
    Schema, SensorType, ServiceDescriptor, ServiceKind, VideoConfiguration, VideoFocusMode,
};
use anauuno::service::audio::AudioService;
use anauuno::service::control::{catalogue, focus_state, ControlService};
use anauuno::service::input::InputService;
use anauuno::service::media_play_back::MediaPlayBackService;
use anauuno::service::microphone::MicrophoneService;
use anauuno::service::sensor::SensorService;
use anauuno::service::video::VideoService;
use anauuno::service::{Outcome, Service, ServiceHandler};

fn service_test_info() -> HeadUnitInfo {
    HeadUnitInfo {
        make: "RustAndroidAuto".to_owned(),
        model: "x".to_owned(),
        year: "2025".to_owned(),
        vehicle_id: "x".to_owned(),
        head_unit_make: "x".to_owned(),
        head_unit_model: "rust_aoa".to_owned(),
        head_unit_software_build: "1.0".to_owned(),
        head_unit_software_version: "1.0".to_owned(),
    }
}

fn service_test_reply(channel: u8, msg_type: u16, body: Body) -> Command {
    Command { channel, is_control: false, msg_type, body, encrypted: true }
}

fn service_test_config(channel: u8) -> Command {
    service_test_reply(
        channel,
        0x8003,
        Body::MediaConfig {
            config_status: ConfigStatus::HeadUnit,
            max_unacked: 1,
            configuration_index: 0,
        },
    )
}

fn service_test_focus(channel: u8) -> Command {
    service_test_reply(
        channel,
        0x8008,
        Body::VideoFocusNotification { mode: VideoFocusMode::Focused, unsolicited: false },
    )
}

#[test]
fn video_ack_follows_start_and_data() {
    let mut video = VideoService::new();
    let mut commands = Commands::new();
    let start = Message::new(2, false, 0x8001, vec![0x08, 0x2A]);
    assert_eq!(
        video.handle_message(&start, Inbound::MediaStart { session_id: Some(42) }, &mut commands),
        Ok(Outcome::Handled)
    );
    assert_eq!(video.session_id, Some(42));
    assert!(commands.is_empty());

    let config = Message::new(2, false, 1, vec![0, 0, 0, 1, 0x67, 0x42]);
    assert_eq!(video.handle_message(&config, Inbound::Opaque, &mut commands), Ok(Outcome::Handled));
    assert_eq!(video.infos, vec![0, 0, 0, 1, 0x67, 0x42]);
    let ack = || service_test_reply(2, 0x8004, Body::MediaAck { session_id: 42, ack: 1 });
    assert_eq!(commands.drain(), vec![ack()]);

    let data = Message::new(2, false, 0, vec![1, 2, 3, 4, 5, 6, 7, 8, 0xAA, 0xBB]);
    assert_eq!(
        video.handle_message(&data, Inbound::Opaque, &mut commands),
        Ok(Outcome::Media(vec![0, 0, 0, 1, 0x67, 0x42, 0xAA, 0xBB]))
    );
    assert_eq!(commands.drain(), vec![ack()]);
    assert_eq!(video.session_id, Some(42));
    assert_eq!(video.infos, vec![0, 0, 0, 1, 0x67, 0x42]);
}

#[test]
fn video_data_without_codec_config_is_the_bare_picture() {
    let mut video = VideoService::new();
    let mut commands = Commands::new();
    assert_eq!(
        video.handle_media_start_request(Inbound::MediaStart { session_id: Some(7) }),
        Ok(Outcome::Handled)
    );
    let data = Message::new(2, false, 0, vec![9, 9, 9, 9, 9, 9, 9, 9, 0xAA, 0xBB]);
    assert_eq!(
        video.handel_data_request(&data, &mut commands),
        Ok(Outcome::Media(vec![0xAA, 0xBB]))
    );
    assert_eq!(commands.len(), 1);
}

#[test]
fn video_data_of_eight_bytes_is_an_empty_picture() {
    let mut video = VideoService::new();
    let mut commands = Commands::new();
    let data = Message::new(2, false, 0, vec![0; 8]);
    assert_eq!(
        video.handle_message(&data, Inbound::Opaque, &mut commands),
        Ok(Outcome::Media(vec![]))
    );
}

#[test]
fn video_data_without_session_is_not_acknowledged() {
    let mut video = VideoService::new();
    let mut commands = Commands::new();
    let data = Message::new(2, false, 0, vec![0, 0, 0, 0, 0, 0, 0, 0, 1]);
    assert_eq!(
        video.handle_message(&data, Inbound::Opaque, &mut commands),
        Ok(Outcome::Media(vec![1]))
    );
    assert!(commands.is_empty());
    video.send_media_ack(&mut commands);
    assert!(commands.is_empty());
}

#[test]
fn video_data_shorter_than_its_time_stamp_is_dropped() {
    let mut video = VideoService::new();
    let mut commands = Commands::new();
    assert_eq!(
        video.handle_media_start_request(Inbound::MediaStart { session_id: Some(1) }),
        Ok(Outcome::Handled)
    );
    let data = Message::new(2, false, 0, vec![1, 2, 3, 4, 5, 6, 7]);
    assert_eq!(
        video.handle_message(&data, Inbound::Opaque, &mut commands),
        Err(Error::SchemaError)
    );
    assert!(commands.is_empty());
}

#[test]
fn video_setup_is_answered_with_config_and_focus() {
    let mut video = VideoService::new();
    let mut commands = Commands::new();
    let setup = Message::new(2, false, 0x8000, vec![0x08, 0x03]);
    assert_eq!(video.schema_for(&setup), Some(Schema::MediaSetupRequest));
    assert_eq!(video.handle_message(&setup, Inbound::Decoded, &mut commands), Ok(Outcome::Handled));
    assert_eq!(commands.drain(), vec![service_test_config(2), service_test_focus(2)]);
}

#[test]
fn video_focus_request_is_answered_with_focus() {
    let mut video = VideoService::new();
    let mut commands = Commands::new();
    let request = Message::new(2, false, 0x8007, vec![]);
    assert_eq!(video.schema_for(&request), Some(Schema::VideoFocusRequestNotification));
    assert_eq!(
        video.handle_message(&request, Inbound::Decoded, &mut commands),
        Ok(Outcome::Handled)
    );
    assert_eq!(commands.drain(), vec![service_test_focus(2)]);
}

#[test]
fn video_start_without_session_clears_the_session() {
    let mut video = VideoService::new();
    let mut commands = Commands::new();
    assert_eq!(
        video.handle_media_start_request(Inbound::MediaStart { session_id: Some(3) }),
        Ok(Outcome::Handled)
    );
    let start = Message::new(2, false, 0x8001, vec![]);
    assert_eq!(video.schema_for(&start), Some(Schema::MediaStart));
    assert_eq!(
        video.handle_message(&start, Inbound::MediaStart { session_id: None }, &mut commands),
        Ok(Outcome::Handled)
    );
    assert_eq!(video.session_id, None);
}

#[test]
fn video_malformed_payloads_are_schema_errors() {
    let mut video = VideoService::new();
    let mut commands = Commands::new();
    assert_eq!(
        video.handle_media_start_request(Inbound::MediaStart { session_id: Some(3) }),
        Ok(Outcome::Handled)
    );
    for tag in [0x8000u16, 0x8001, 0x8007] {
        let message = Message::new(2, false, tag, vec![0xFF]);
        assert_eq!(
            video.handle_message(&message, Inbound::Malformed, &mut commands),
            Err(Error::SchemaError)
        );
    }
    let start = Message::new(2, false, 0x8001, vec![]);
    assert_eq!(
        video.handle_message(&start, Inbound::Decoded, &mut commands),
        Err(Error::SchemaError)
    );
    assert!(commands.is_empty());
    assert_eq!(video.session_id, Some(3));
}

#[test]
fn video_ignores_other_tags() {
    let mut video = VideoService::new();
    let mut commands = Commands::new();
    let stop = Message::new(2, false, 0x8002, vec![]);
    assert_eq!(video.schema_for(&stop), None);
    assert_eq!(video.handle_message(&stop, Inbound::Opaque, &mut commands), Ok(Outcome::Ignored));
    assert!(commands.is_empty());
}

#[test]
fn sensor_start_is_answered_with_response_and_driving_status() {
    let mut sensor = SensorService::new();
    let mut commands = Commands::new();
    commands.send_key_event(1, true, 0);
    let request = Message::new(1, false, 0x8001, vec![0x08, 0x0D]);
    assert_eq!(sensor.schema_for(&request), Some(Schema::SensorRequest));
    assert_eq!(
        sensor.handle_message(&request, Inbound::Decoded, &mut commands),
        Ok(Outcome::Handled)
    );
    let batch = commands.drain();
    assert_eq!(batch.len(), 3);
    assert_eq!(batch[0].channel, 3);
    assert_eq!(
        batch[1],
        service_test_reply(
            1,
            0x8002,
            Body::SensorStartResponse { status: MessageStatus::StatusOk }
        )
    );
    assert_eq!(
        batch[2],
        service_test_reply(
            1,
            0x8003,
            Body::SensorBatch { driving_status: DrivingStatus::Unrestricted }
        )
    );
}

#[test]
fn sensor_drops_malformed_and_ignores_the_rest() {
    let mut sensor = SensorService::new();
    let mut commands = Commands::new();
    let request = Message::new(1, false, 0x8001, vec![0xFF]);
    assert_eq!(
        sensor.handle_message(&request, Inbound::Malformed, &mut commands),
        Err(Error::SchemaError)
    );
    let control = Message::new(1, true, 0x8001, vec![]);
    assert_eq!(sensor.schema_for(&control), None);
    assert_eq!(
        sensor.handle_message(&control, Inbound::Opaque, &mut commands),
        Ok(Outcome::Ignored)
    );
    let other = Message::new(1, false, 0x8003, vec![]);
    assert_eq!(sensor.handle_message(&other, Inbound::Opaque, &mut commands), Ok(Outcome::Ignored));
    assert!(commands.is_empty());
}

#[test]
fn sensor_start_request_helper_answers_on_the_request_channel() {
    let mut sensor = SensorService::new();
    let mut commands = Commands::new();
    assert_eq!(
        sensor.handle_sensor_start_request(
            &Message::new(9, false, 0x8001, vec![]),
            Inbound::Decoded,
            &mut commands
        ),
        Ok(Outcome::Handled)
    );
    let batch = commands.drain();
    assert_eq!(batch.len(), 2);
    assert!(batch.iter().all(|c| c.channel == 9 && c.encrypted && !c.is_control));
}

#[test]
fn input_binding_request_is_accepted() {
    let mut input = InputService::new();
    let mut commands = Commands::new();
    let request = Message::new(3, false, 0x8002, vec![0x08, 0x13]);
    assert_eq!(input.schema_for(&request), Some(Schema::KeyBindingRequest));
    assert_eq!(
        input.handle_message(&request, Inbound::Decoded, &mut commands),
        Ok(Outcome::Handled)
    );
    assert_eq!(
        commands.drain(),
        vec![service_test_reply(
            3,
            0x8003,
            Body::BindingResponse { status: MessageStatus::StatusOk }
        )]
    );
    assert_eq!(
        input.handle_message(&request, Inbound::Malformed, &mut commands),
        Err(Error::SchemaError)
    );
    let report = Message::new(3, false, 0x8001, vec![]);
    assert_eq!(input.handle_message(&report, Inbound::Opaque, &mut commands), Ok(Outcome::Ignored));
    assert!(commands.is_empty());
}

#[test]
fn audio_setup_is_answered_with_config() {
    for channel in [4u8, 5, 6] {
        let mut audio = AudioService::new();
        let mut commands = Commands::new();
        let setup = Message::new(channel, false, 0x8000, vec![0x08, 0x01]);
        assert_eq!(audio.schema_for(&setup), Some(Schema::MediaSetupRequest));
        assert_eq!(
            audio.handle_message(&setup, Inbound::Decoded, &mut commands),
            Ok(Outcome::Handled)
        );
        assert_eq!(commands.drain(), vec![service_test_config(channel)]);
        assert_eq!(
            audio.handle_message(&setup, Inbound::Malformed, &mut commands),
            Err(Error::SchemaError)
        );
        assert!(commands.is_empty());
    }
}

#[test]
fn audio_data_and_start_are_for_the_sink() {
    let mut audio = AudioService::new();
    let mut commands = Commands::new();
    let data = Message::new(6, false, 0, vec![1, 2, 3]);
    assert_eq!(audio.handle_message(&data, Inbound::Opaque, &mut commands), Ok(Outcome::Delegated));
    let start = Message::new(6, false, 0x8001, vec![]);
    assert_eq!(
        audio.handle_message(&start, Inbound::Opaque, &mut commands),
        Ok(Outcome::Delegated)
    );
    let stop = Message::new(6, false, 0x8002, vec![]);
    assert_eq!(audio.handle_message(&stop, Inbound::Opaque, &mut commands), Ok(Outcome::Ignored));
    let control = Message::new(6, true, 0x8000, vec![]);
    assert_eq!(audio.handle_message(&control, Inbound::Opaque, &mut commands), Ok(Outcome::Ignored));
    assert!(commands.is_empty());
}

#[test]
fn microphone_ignores_everything() {
    let mut microphone = MicrophoneService::new();
    let mut commands = Commands::new();
    for tag in [0u16, 1, 0x8000, 0x8001, 0x8005] {
        let message = Message::new(7, false, tag, vec![1]);
        assert_eq!(microphone.schema_for(&message), None);
        assert_eq!(
            microphone.handle_message(&message, Inbound::Opaque, &mut commands),
            Ok(Outcome::Ignored)
        );
    }
    assert!(commands.is_empty());
}

#[test]
fn playback_status_and_metadata_are_for_the_application() {
    let mut playback = MediaPlayBackService::new();
    let mut commands = Commands::new();
    let status = Message::new(8, false, 0x8001, vec![0x08, 0x01]);
    assert_eq!(playback.schema_for(&status), Some(Schema::MediaPlaybackStatus));
    assert_eq!(
        playback.handle_message(&status, Inbound::Decoded, &mut commands),
        Ok(Outcome::Delegated)
    );
    assert_eq!(
        playback.handle_message(&status, Inbound::Malformed, &mut commands),
        Err(Error::SchemaError)
    );
    let meta = Message::new(8, false, 0x8003, vec![]);
    assert_eq!(playback.schema_for(&meta), Some(Schema::MediaMetaData));
    assert_eq!(
        playback.handle_message(&meta, Inbound::Decoded, &mut commands),
        Ok(Outcome::Delegated)
    );
    assert_eq!(
        playback.handle_message(&meta, Inbound::Malformed, &mut commands),
        Err(Error::SchemaError)
    );
    let other = Message::new(8, false, 0x8002, vec![]);
    assert_eq!(
        playback.handle_message(&other, Inbound::Opaque, &mut commands),
        Ok(Outcome::Ignored)
    );
    assert!(commands.is_empty());
    assert_eq!(playback.handle_media_start_request(Inbound::Decoded), Ok(Outcome::Delegated));
    assert_eq!(playback.handle_media_start_request(Inbound::Opaque), Err(Error::SchemaError));
}

#[test]
fn audio_focus_requests_are_granted() {
    assert_eq!(focus_state(AudioFocusRequestType::Gain), Some(AudioFocusStateType::StateGain));
    assert_eq!(
        focus_state(AudioFocusRequestType::GainTransient),
        Some(AudioFocusStateType::StateGainTransient)
    );
    assert_eq!(
        focus_state(AudioFocusRequestType::GainTransientMayDuck),
        Some(AudioFocusStateType::StateLossTransientCanDuck)
    );
    assert_eq!(focus_state(AudioFocusRequestType::Release), Some(AudioFocusStateType::StateLoss));
    assert_eq!(focus_state(AudioFocusRequestType::Unspecified), None);

    let mut control = ControlService::new(service_test_info());
    let mut commands = Commands::new();
    let request = Message::new(0, false, 0x12, vec![0x08, 0x01]);
    assert_eq!(control.schema_for(&request), Some(Schema::AudioFocusRequestNotification));
    assert_eq!(
        control.handle_message(
            &request,
            Inbound::AudioFocusRequest { request: AudioFocusRequestType::Release },
            &mut commands
        ),
        Ok(Outcome::Handled)
    );
    assert_eq!(
        commands.drain(),
        vec![service_test_reply(
            0,
            0x13,
            Body::AudioFocusNotification { focus_state: AudioFocusStateType::StateLoss }
        )]
    );
}

#[test]
fn audio_focus_request_for_nothing_is_a_schema_error() {
    let mut control = ControlService::new(service_test_info());
    let mut commands = Commands::new();
    let request = Message::new(0, false, 0x12, vec![0x08, 0x00]);
    assert_eq!(
        control.handle_message(
            &request,
            Inbound::AudioFocusRequest { request: AudioFocusRequestType::Unspecified },
            &mut commands
        ),
        Err(Error::SchemaError)
    );
    assert_eq!(
        control.handle_message(&request, Inbound::Malformed, &mut commands),
        Err(Error::SchemaError)
    );
    assert_eq!(
        control.handle_message(&request, Inbound::Decoded, &mut commands),
        Err(Error::SchemaError)
    );
    assert!(commands.is_empty());
}

#[test]
fn control_ignores_other_tags() {
    let mut control = ControlService::new(service_test_info());
    let mut commands = Commands::new();
    for tag in [0x0Bu16, 0x0F, 0x0D, 0x4242] {
        let message = Message::new(0, false, tag, vec![]);
        assert_eq!(control.schema_for(&message), None);
        assert_eq!(
            control.handle_message(&message, Inbound::Opaque, &mut commands),
            Ok(Outcome::Ignored)
        );
    }
    assert!(commands.is_empty());
}

#[test]
fn discovery_lists_channels_one_to_eight() {
    let mut control = ControlService::new(service_test_info());
    let mut commands = Commands::new();
    let request = Message::new(0, false, 0x05, vec![]);
    assert_eq!(control.handle_message(&request, Inbound::Opaque, &mut commands), Ok(Outcome::Handled));
    let batch = commands.drain();
    assert_eq!(batch.len(), 1);
    assert_eq!(batch[0].channel, 0);
    assert_eq!(batch[0].msg_type, 0x06);
    assert!(batch[0].encrypted);
    let response = match &batch[0].body {
        Body::ServiceDiscoveryResponse(response) => response,
        other => panic!("not a discovery response: {:?}", other),
    };
    let mut ids: Vec<u32> = response.services.iter().map(|s| s.id).collect();
    ids.sort();
    assert_eq!(ids, vec![1, 2, 3, 4, 5, 6, 7, 8]);
    assert_eq!(response.info, service_test_info());
    assert!(!response.left_hand_traffic);
    assert!(!response.can_play_native_media_during_vr);
    assert!(!response.hide_projected_clock);
    assert_eq!(response.services, catalogue());
}

#[test]
fn discovery_entries_match_the_table() {
    let pcm = |rate: u32, channels: u32| AudioConfiguration {
        sample_rate: rate,
        number_of_bits: 16,
        number_of_channels: channels,
    };
    let audio = |id: u32, stream: AudioStreamType, config: AudioConfiguration| ServiceDescriptor {
        id,
        kind: ServiceKind::AudioSink {
            codec: MediaCodecType::MediaCodecAudioPCM,
            audio_type: stream,
            config,
        },
    };
    let mut services = catalogue();
    services.sort_by_key(|s| s.id);
    assert_eq!(
        services,
        vec![
            ServiceDescriptor {
                id: 1,
                kind: ServiceKind::SensorSource { sensor: SensorType::DrivingStatus },
            },
            ServiceDescriptor {
                id: 2,
                kind: ServiceKind::VideoSink {
                    codec: MediaCodecType::MediaCodecVideoH264BP,
                    audio_type: AudioStreamType::Unspecified,
                    available_while_in_call: true,
                    video_config: VideoConfiguration {
                        width: 1280,
                        height: 720,
                        frame_rate: 30,
                        density: 216,
                        margin_width: 0,
                        margin_height: 0,
                    },
                },
            },
            ServiceDescriptor {
                id: 3,
                kind: ServiceKind::InputSource {
                    keycodes_supported: vec![
                        KeyCode::KeycodeDPadUp,
                        KeyCode::KeycodeDPadDown,
                        KeyCode::KeycodeDPadLeft,
                        KeyCode::KeycodeDPadRight,
                        KeyCode::KeycodeRotaryController,
                        KeyCode::KeycodeDPadCenter,
                        KeyCode::KeycodeHome,
                        KeyCode::KeycodeBack,
                    ],
                },
            },
            audio(4, AudioStreamType::Speech, pcm(16000, 1)),
            audio(5, AudioStreamType::System, pcm(16000, 1)),
            audio(6, AudioStreamType::Media, pcm(48000, 2)),
            ServiceDescriptor {
                id: 7,
                kind: ServiceKind::MediaSource {
                    codec: MediaCodecType::MediaCodecAudioPCM,
                    config: pcm(16000, 1),
                },
            },
            ServiceDescriptor { id: 8, kind: ServiceKind::MediaPlaybackStatus },
        ]
    );
}

#[test]
fn services_describe_themselves_under_the_given_channel() {
    assert_eq!(SensorService::new().protobuf_descriptor(11).id, 11);
    assert_eq!(VideoService::new().protobuf_descriptor(12).id, 12);
    assert_eq!(InputService::new().protobuf_descriptor(13).id, 13);
    assert_eq!(MicrophoneService::new().protobuf_descriptor(17).id, 17);
    assert_eq!(MediaPlayBackService::new().protobuf_descriptor(18).id, 18);
    assert_eq!(AudioService::new().protobuf_descriptor(5).id, 5);
}

#[test]
fn schema_accepts_only_its_own_reading() {
    let start = Inbound::MediaStart { session_id: Some(1) };
    let focus = Inbound::AudioFocusRequest { request: AudioFocusRequestType::Gain };
    assert!(Schema::MediaStart.accepts(start));
    assert!(!Schema::MediaStart.accepts(Inbound::Decoded));
    assert!(!Schema::MediaStart.accepts(Inbound::Malformed));
    assert!(Schema::AudioFocusRequestNotification.accepts(focus));
    assert!(!Schema::AudioFocusRequestNotification.accepts(start));
    for schema in [
        Schema::ChannelOpenRequest,
        Schema::MediaSetupRequest,
        Schema::VideoFocusRequestNotification,
        Schema::SensorRequest,
        Schema::KeyBindingRequest,
        Schema::MediaPlaybackStatus,
        Schema::MediaMetaData,
    ] {
        assert!(schema.accepts(Inbound::Decoded));
        assert!(!schema.accepts(Inbound::Malformed));
        assert!(!schema.accepts(Inbound::Opaque));
        assert!(!schema.accepts(start));
    }
}

#[test]
fn sensor_start_request_that_does_not_decode_is_dropped() {
    let mut sensor = SensorService::new();
    let mut commands = Commands::new();
    commands.send_key_event(1, true, 0);
    let request = Message::new(1, false, 0x8001, vec![0xFF]);
    for reading in [
        Inbound::Malformed,
        Inbound::Opaque,
        Inbound::MediaStart { session_id: Some(1) },
    ] {
        assert_eq!(
            sensor.handle_sensor_start_request(&request, reading, &mut commands),
            Err(Error::SchemaError)
        );
        assert_eq!(commands.len(), 1);
    }
    assert_eq!(
        sensor.handle_sensor_start_request(&request, Inbound::Decoded, &mut commands),
        Ok(Outcome::Handled)
    );
    assert_eq!(commands.len(), 3);
}

#[test]
fn video_data_request_too_short_for_a_time_stamp_is_dropped() {
    let mut video = VideoService::new();
    let mut commands = Commands::new();
    video.handle_media_start_request(Inbound::MediaStart { session_id: Some(9) }).unwrap();
    video.handle_codec_config_request(&Message::new(2, false, 1, vec![5, 5]), &mut commands);
    assert_eq!(commands.drain().len(), 1);
    for len in 0..8usize {
        let data = Message::new(2, false, 0, vec![0xEE; len]);
        assert_eq!(video.handel_data_request(&data, &mut commands), Err(Error::SchemaError));
        assert!(commands.is_empty());
        assert_eq!(video.session_id, Some(9));
        assert_eq!(video.infos, vec![5, 5]);
    }
    let data = Message::new(2, false, 0, vec![0, 0, 0, 0, 0, 0, 0, 0, 1]);
    assert_eq!(
        video.handel_data_request(&data, &mut commands),
        Ok(Outcome::Media(vec![5, 5, 1]))
    );
    assert_eq!(commands.len(), 1);
}

#[test]
fn video_requests_that_do_not_decode_are_dropped() {
    let mut video = VideoService::new();
    let mut commands = Commands::new();
    video.handle_media_start_request(Inbound::MediaStart { session_id: Some(4) }).unwrap();
    let setup = Message::new(2, false, 0x8000, vec![0xFF]);
    let focus = Message::new(2, false, 0x8007, vec![0xFF]);
    for reading in [Inbound::Malformed, Inbound::Opaque] {
        assert_eq!(
            video.handle_media_setup_request(&setup, reading, &mut commands),
            Err(Error::SchemaError)
        );
        assert_eq!(
            video.handle_video_focus_request(&focus, reading, &mut commands),
            Err(Error::SchemaError)
        );
        assert_eq!(video.handle_media_start_request(reading), Err(Error::SchemaError));
    }
    assert_eq!(video.handle_media_start_request(Inbound::Decoded), Err(Error::SchemaError));
    assert!(commands.is_empty());
    assert_eq!(video.session_id, Some(4));
    assert_eq!(
        video.handle_media_setup_request(&setup, Inbound::Decoded, &mut commands),
        Ok(Outcome::Handled)
    );
    assert_eq!(
        video.handle_video_focus_request(&focus, Inbound::Decoded, &mut commands),
        Ok(Outcome::Handled)
    );
    assert_eq!(
        commands.drain(),
        vec![service_test_config(2), service_test_focus(2), service_test_focus(2)]
    );
}

#[test]
fn input_and_audio_requests_that_do_not_decode_are_dropped() {
    let mut input = InputService::new();
    let mut audio = AudioService::new();
    let mut commands = Commands::new();
    let binding = Message::new(3, false, 0x8002, vec![0xFF]);
    let setup = Message::new(5, false, 0x8000, vec![0xFF]);
    for reading in [Inbound::Malformed, Inbound::Opaque] {
        assert_eq!(
            input.handle_binding_request(&binding, reading, &mut commands),
            Err(Error::SchemaError)
        );
        assert_eq!(
            audio.handle_media_setup_request(&setup, reading, &mut commands),
            Err(Error::SchemaError)
        );
    }
    assert!(commands.is_empty());
    assert_eq!(
        input.handle_binding_request(&binding, Inbound::Decoded, &mut commands),
        Ok(Outcome::Handled)
    );
    assert_eq!(
        audio.handle_media_setup_request(&setup, Inbound::Decoded, &mut commands),
        Ok(Outcome::Handled)
    );
    assert_eq!(
        commands.drain(),
        vec![
            service_test_reply(
                3,
                0x8003,
                Body::BindingResponse { status: MessageStatus::StatusOk }
            ),
            service_test_config(5),
        ]
    );
}
