use crate::error::Error;
use crate::frame::{copy_range, Frame, FrameHeader, FrameType, FrameView};
use vstd::prelude::*;

verus! {

/// A 16-bit number in big-endian order.
pub open spec fn be16(value: u16) -> Seq<u8> {
    seq![(value / 256) as u8, (value % 256) as u8]
}

/// The 16-bit number that two bytes spell in big-endian order.
pub open spec fn from_be16(bytes: Seq<u8>) -> u16
    recommends
        bytes.len() >= 2,
{
    (bytes[0] * 256 + bytes[1]) as u16
}

/// One logical message of a channel: what the session hands to a service and
/// takes back from it.
#[derive(Debug, PartialEq, Eq)]
pub struct Message {
    pub channel: u8,
    pub is_control: bool,
    pub msg_type: u16,
    pub data: Vec<u8>,
}

/// A message as a mathematical value.
pub struct MessageView {
    pub channel: u8,
    pub is_control: bool,
    pub msg_type: u16,
    pub data: Seq<u8>,
}

impl View for Message {
    type V = MessageView;

    open spec fn view(&self) -> MessageView {
        MessageView {
            channel: self.channel,
            is_control: self.is_control,
            msg_type: self.msg_type,
            data: self.data@,
        }
    }
}

impl Clone for Message {
    fn clone(&self) -> (copy: Self)
        ensures
            copy@ == self@,
    {
        let data = copy_range(self.data.as_slice(), 0, self.data.len());
        assert(data@ =~= self.data@);
        Message { channel: self.channel, is_control: self.is_control, msg_type: self.msg_type, data }
    }
}

impl MessageView {
    /// What a message puts into its frames: the tag in big-endian order, then
    /// the data.
    pub open spec fn wire_payload(self) -> Seq<u8> {
        be16(self.msg_type) + self.data
    }

    /// The message that a payload of at least two bytes spells.
    pub open spec fn from_wire_payload(channel: u8, is_control: bool, payload: Seq<u8>) -> MessageView
        recommends
            payload.len() >= 2,
    {
        MessageView {
            channel,
            is_control,
            msg_type: from_be16(payload),
            data: payload.subrange(2, payload.len() as int),
        }
    }

    /// The header of the one frame that carries this message in the clear.
    pub open spec fn single_header(self) -> FrameHeader
        recommends
            self.data.len() + 2 <= 0xFFFF,
    {
        FrameHeader {
            channel: self.channel,
            length: (self.data.len() + 2) as u16,
            frame_type: FrameType::Single,
            is_control_message: self.is_control,
            encrypted: false,
        }
    }

    /// The bytes of the one frame that carries this message in the clear.
    pub open spec fn single_frame(self) -> Seq<u8>
        recommends
            self.data.len() + 2 <= 0xFFFF,
    {
        self.single_header().spec_to_bytes() + self.wire_payload()
    }

    /// What reading one message sent in the clear gives from a buffer.
    /// Nothing while the frame is not complete; a violation of the protocol
    /// for an encrypted frame; a framing error for a frame that is part of a
    /// longer message or too short to hold a tag; else the message and the
    /// number of bytes read.
    pub open spec fn read_single(bytes: Seq<u8>) -> Result<Option<(MessageView, nat)>, Error> {
        match FrameView::decode(bytes) {
            None => Ok(None),
            Some((frame, used)) => {
                if frame.header.encrypted {
                    Err(Error::ProtocolViolation)
                } else if frame.header.frame_type != FrameType::Single || frame.payload.len() < 2 {
                    Err(Error::FramingError)
                } else {
                    Ok(
                        Some(
                            (
                                MessageView::from_wire_payload(
                                    frame.header.channel,
                                    frame.header.is_control_message,
                                    frame.payload,
                                ),
                                used,
                            ),
                        ),
                    )
                }
            },
        }
    }
}

/// A tag and data put into a payload are found again in it.
pub proof fn lemma_wire_payload_round_trip(message: MessageView)
    ensures
        MessageView::from_wire_payload(message.channel, message.is_control, message.wire_payload())
            == message,
        message.wire_payload().len() == message.data.len() + 2,
{
    let payload = message.wire_payload();
    assert(payload[0] == (message.msg_type / 256) as u8);
    assert(payload[1] == (message.msg_type % 256) as u8);
    assert(payload.subrange(2, payload.len() as int) =~= message.data);
}

/// A message sent in the clear as one frame is read back unchanged, and the
/// reader takes exactly the bytes of that frame.
pub proof fn lemma_single_frame_round_trip(message: MessageView, rest: Seq<u8>)
    requires
        message.data.len() + 2 <= 0xFFFF,
    ensures
        MessageView::read_single(message.single_frame() + rest) == Ok::<
            Option<(MessageView, nat)>,
            Error,
        >(Some((message, message.single_frame().len()))),
{
    let frame = FrameView {
        header: message.single_header(),
        total_length: None,
        payload: message.wire_payload(),
    };
    lemma_wire_payload_round_trip(message);
    assert(frame.encode() =~= message.single_frame());
    crate::frame::lemma_frame_round_trip(frame, rest);
}

impl Message {
    pub fn new(channel: u8, is_control: bool, msg_type: u16, data: Vec<u8>) -> (message: Self)
        ensures
            message.channel == channel,
            message.is_control == is_control,
            message.msg_type == msg_type,
            message.data == data,
    {
        Message { channel, is_control, msg_type, data }
    }

    /// The payload of this message: its tag, then its data. This is what the
    /// TLS engine encrypts, or what goes into frames as it is.
    pub fn wire_payload(&self) -> (payload: Vec<u8>)
        ensures
            payload@ == self@.wire_payload(),
    {
        let msg_type = self.msg_type;
        let high: u8 = (msg_type >> 8) as u8;
        let low: u8 = (msg_type & 0xFF) as u8;
        assert((msg_type >> 8) as u8 == msg_type / 256) by (bit_vector);
        assert((msg_type & 0xFF) as u8 == msg_type % 256) by (bit_vector);
        let mut payload: Vec<u8> = Vec::new();
        payload.push(high);
        payload.push(low);
        assert(payload@ =~= be16(msg_type));
        payload.extend_from_slice(self.data.as_slice());
        payload
    }

    /// Reads tag and data out of a payload. A payload too short to hold a
    /// tag is a framing error.
    pub fn from_wire_payload(channel: u8, is_control: bool, payload: &[u8]) -> (message: Result<
        Message,
        Error,
    >)
        ensures
            match message {
                Ok(m) => payload@.len() >= 2 && m@ == MessageView::from_wire_payload(
                    channel,
                    is_control,
                    payload@,
                ),
                Err(e) => payload@.len() < 2 && e == Error::FramingError,
            },
    {
        if payload.len() < 2 {
            return Err(Error::FramingError);
        }
        let high: u8 = payload[0];
        let low: u8 = payload[1];
        let msg_type: u16 = ((high as u16) << 8) | (low as u16);
        assert(((high as u16) << 8) | (low as u16) == high * 256 + low) by (bit_vector);
        let data = copy_range(payload, 2, payload.len());
        Ok(Message { channel, is_control, msg_type, data })
    }

    /// The bytes of the single frame that carries this message in the clear.
    pub fn write_unencrypted(&self) -> (bytes: Vec<u8>)
        requires
            self.data@.len() + 2 <= 0xFFFF,
        ensures
            bytes@ == self@.single_frame(),
    {
        let length: u16 = (self.data.len() + 2) as u16;
        let header = FrameHeader {
            channel: self.channel,
            length,
            frame_type: FrameType::Single,
            encrypted: false,
            is_control_message: self.is_control,
        };
        let mut bytes = header.to_bytes();
        let payload = self.wire_payload();
        bytes.extend_from_slice(payload.as_slice());
        bytes
    }

    /// Reads one message sent in the clear off the start of a buffer.
    pub fn read_unencrypted(bytes: &[u8]) -> (read: Result<Option<(Message, usize)>, Error>)
        ensures
            match read {
                Ok(Some((message, used))) => MessageView::read_single(bytes@) == Ok::<
                    Option<(MessageView, nat)>,
                    Error,
                >(Some((message@, used as nat))),
                Ok(None) => MessageView::read_single(bytes@) == Ok::<
                    Option<(MessageView, nat)>,
                    Error,
                >(None),
                Err(e) => MessageView::read_single(bytes@) == Err::<
                    Option<(MessageView, nat)>,
                    Error,
                >(e),
            },
    {
        match Frame::decode(bytes) {
            None => Ok(None),
            Some((frame, used)) => {
                if frame.header.encrypted {
                    return Err(Error::ProtocolViolation);
                }
                match frame.header.frame_type {
                    FrameType::Single => {},
                    _ => {
                        return Err(Error::FramingError);
                    },
                }
                match Message::from_wire_payload(
                    frame.header.channel,
                    frame.header.is_control_message,
                    frame.payload.as_slice(),
                ) {
                    Ok(message) => Ok(Some((message, used))),
                    Err(e) => Err(e),
                }
            },
        }
    }
}

/// Tags of the control channel.
#[derive(Debug, Clone, Copy, PartialEq, Eq, Structural)]
pub enum ControlMessageType {
    VersionRequest,
    VersionResponse,
    Handshake,
    HandshakeOk,
    ServiceDiscoveryRequest,
    ServiceDiscoveryResponse,
    ChannelOpenRequest,
    ChannelOpenResponse,
    ChannelCloseNotification,
    PingRequest,
    PingResponse,
    NavFocusRequestNotification,
    NavFocusNotification,
    ByeByeRequest,
    ByeByeResponse,
    VoiceSessionNotification,
    AudioFocusRequestNotification,
    AudioFocusNotification,
    CarConnectedDevicesRequest,
    CarConnectedDevicesResponse,
    UserSwitchRequest,
    BatteryStatusNotification,
    CallAvailabilityStatus,
    UserSwitchResponse,
    ServiceDiscoveryUpdate,
    UnexpectedMessage,
    FramingError,
}

impl ControlMessageType {
    /// The tag's number on the wire.
    pub open spec fn spec_to_u16(self) -> u16 {
        match self {
            ControlMessageType::VersionRequest => 0x01,
            ControlMessageType::VersionResponse => 0x02,
            ControlMessageType::Handshake => 0x03,
            ControlMessageType::HandshakeOk => 0x04,
            ControlMessageType::ServiceDiscoveryRequest => 0x05,
            ControlMessageType::ServiceDiscoveryResponse => 0x06,
            ControlMessageType::ChannelOpenRequest => 0x07,
            ControlMessageType::ChannelOpenResponse => 0x08,
            ControlMessageType::ChannelCloseNotification => 0x09,
            ControlMessageType::PingRequest => 0x0B,
            ControlMessageType::PingResponse => 0x0C,
            ControlMessageType::NavFocusRequestNotification => 0x0D,
            ControlMessageType::NavFocusNotification => 0x0E,
            ControlMessageType::ByeByeRequest => 0x0F,
            ControlMessageType::ByeByeResponse => 0x10,
            ControlMessageType::VoiceSessionNotification => 0x11,
            ControlMessageType::AudioFocusRequestNotification => 0x12,
            ControlMessageType::AudioFocusNotification => 0x13,
            ControlMessageType::CarConnectedDevicesRequest => 0x20,
            ControlMessageType::CarConnectedDevicesResponse => 0x21,
            ControlMessageType::UserSwitchRequest => 0x22,
            ControlMessageType::BatteryStatusNotification => 0x23,
            ControlMessageType::CallAvailabilityStatus => 0x24,
            ControlMessageType::UserSwitchResponse => 0x25,
            ControlMessageType::ServiceDiscoveryUpdate => 0x26,
            ControlMessageType::UnexpectedMessage => 0xFF,
            ControlMessageType::FramingError => 0xFFFF,
        }
    }

    #[verifier::when_used_as_spec(spec_to_u16)]
    pub fn to_u16(self) -> (value: u16)
        ensures
            value == self.spec_to_u16(),
    {
        match self {
            ControlMessageType::VersionRequest => 0x01,
            ControlMessageType::VersionResponse => 0x02,
            ControlMessageType::Handshake => 0x03,
            ControlMessageType::HandshakeOk => 0x04,
            ControlMessageType::ServiceDiscoveryRequest => 0x05,
            ControlMessageType::ServiceDiscoveryResponse => 0x06,
            ControlMessageType::ChannelOpenRequest => 0x07,
            ControlMessageType::ChannelOpenResponse => 0x08,
            ControlMessageType::ChannelCloseNotification => 0x09,
            ControlMessageType::PingRequest => 0x0B,
            ControlMessageType::PingResponse => 0x0C,
            ControlMessageType::NavFocusRequestNotification => 0x0D,
            ControlMessageType::NavFocusNotification => 0x0E,
            ControlMessageType::ByeByeRequest => 0x0F,
            ControlMessageType::ByeByeResponse => 0x10,
            ControlMessageType::VoiceSessionNotification => 0x11,
            ControlMessageType::AudioFocusRequestNotification => 0x12,
            ControlMessageType::AudioFocusNotification => 0x13,
            ControlMessageType::CarConnectedDevicesRequest => 0x20,
            ControlMessageType::CarConnectedDevicesResponse => 0x21,
            ControlMessageType::UserSwitchRequest => 0x22,
            ControlMessageType::BatteryStatusNotification => 0x23,
            ControlMessageType::CallAvailabilityStatus => 0x24,
            ControlMessageType::UserSwitchResponse => 0x25,
            ControlMessageType::ServiceDiscoveryUpdate => 0x26,
            ControlMessageType::UnexpectedMessage => 0xFF,
            ControlMessageType::FramingError => 0xFFFF,
        }
    }

    /// The tag that a number names on this channel, if it names one.
    pub open spec fn spec_from_u16(value: u16) -> Option<Self> {
        if value == 0x01 {
            Some(ControlMessageType::VersionRequest)
        } else if value == 0x02 {
            Some(ControlMessageType::VersionResponse)
        } else if value == 0x03 {
            Some(ControlMessageType::Handshake)
        } else if value == 0x04 {
            Some(ControlMessageType::HandshakeOk)
        } else if value == 0x05 {
            Some(ControlMessageType::ServiceDiscoveryRequest)
        } else if value == 0x06 {
            Some(ControlMessageType::ServiceDiscoveryResponse)
        } else if value == 0x07 {
            Some(ControlMessageType::ChannelOpenRequest)
        } else if value == 0x08 {
            Some(ControlMessageType::ChannelOpenResponse)
        } else if value == 0x09 {
            Some(ControlMessageType::ChannelCloseNotification)
        } else if value == 0x0B {
            Some(ControlMessageType::PingRequest)
        } else if value == 0x0C {
            Some(ControlMessageType::PingResponse)
        } else if value == 0x0D {
            Some(ControlMessageType::NavFocusRequestNotification)
        } else if value == 0x0E {
            Some(ControlMessageType::NavFocusNotification)
        } else if value == 0x0F {
            Some(ControlMessageType::ByeByeRequest)
        } else if value == 0x10 {
            Some(ControlMessageType::ByeByeResponse)
        } else if value == 0x11 {
            Some(ControlMessageType::VoiceSessionNotification)
        } else if value == 0x12 {
            Some(ControlMessageType::AudioFocusRequestNotification)
        } else if value == 0x13 {
            Some(ControlMessageType::AudioFocusNotification)
        } else if value == 0x20 {
            Some(ControlMessageType::CarConnectedDevicesRequest)
        } else if value == 0x21 {
            Some(ControlMessageType::CarConnectedDevicesResponse)
        } else if value == 0x22 {
            Some(ControlMessageType::UserSwitchRequest)
        } else if value == 0x23 {
            Some(ControlMessageType::BatteryStatusNotification)
        } else if value == 0x24 {
            Some(ControlMessageType::CallAvailabilityStatus)
        } else if value == 0x25 {
            Some(ControlMessageType::UserSwitchResponse)
        } else if value == 0x26 {
            Some(ControlMessageType::ServiceDiscoveryUpdate)
        } else if value == 0xFF {
            Some(ControlMessageType::UnexpectedMessage)
        } else if value == 0xFFFF {
            Some(ControlMessageType::FramingError)
        } else {
            None
        }
    }

    #[verifier::when_used_as_spec(spec_from_u16)]
    pub fn from_u16(value: u16) -> (tag: Option<Self>)
        ensures
            tag == Self::spec_from_u16(value),
    {
        match value {
            0x01 => Some(ControlMessageType::VersionRequest),
            0x02 => Some(ControlMessageType::VersionResponse),
            0x03 => Some(ControlMessageType::Handshake),
            0x04 => Some(ControlMessageType::HandshakeOk),
            0x05 => Some(ControlMessageType::ServiceDiscoveryRequest),
            0x06 => Some(ControlMessageType::ServiceDiscoveryResponse),
            0x07 => Some(ControlMessageType::ChannelOpenRequest),
            0x08 => Some(ControlMessageType::ChannelOpenResponse),
            0x09 => Some(ControlMessageType::ChannelCloseNotification),
            0x0B => Some(ControlMessageType::PingRequest),
            0x0C => Some(ControlMessageType::PingResponse),
            0x0D => Some(ControlMessageType::NavFocusRequestNotification),
            0x0E => Some(ControlMessageType::NavFocusNotification),
            0x0F => Some(ControlMessageType::ByeByeRequest),
            0x10 => Some(ControlMessageType::ByeByeResponse),
            0x11 => Some(ControlMessageType::VoiceSessionNotification),
            0x12 => Some(ControlMessageType::AudioFocusRequestNotification),
            0x13 => Some(ControlMessageType::AudioFocusNotification),
            0x20 => Some(ControlMessageType::CarConnectedDevicesRequest),
            0x21 => Some(ControlMessageType::CarConnectedDevicesResponse),
            0x22 => Some(ControlMessageType::UserSwitchRequest),
            0x23 => Some(ControlMessageType::BatteryStatusNotification),
            0x24 => Some(ControlMessageType::CallAvailabilityStatus),
            0x25 => Some(ControlMessageType::UserSwitchResponse),
            0x26 => Some(ControlMessageType::ServiceDiscoveryUpdate),
            0xFF => Some(ControlMessageType::UnexpectedMessage),
            0xFFFF => Some(ControlMessageType::FramingError),
            _ => None,
        }
    }

    /// Every tag is found again from its number, and a number that names a
    /// tag is the number of that tag.
    pub proof fn lemma_number_round_trip(tag: ControlMessageType, value: u16)
        ensures
            Self::spec_from_u16(tag.spec_to_u16()) == Some(tag),
            Self::spec_from_u16(value) == Some(tag) <==> tag.spec_to_u16() == value,
    {
    }
}

/// Tags of the video and audio channels.
#[derive(Debug, Clone, Copy, PartialEq, Eq, Structural)]
pub enum MediaMessageType {
    MediaData,
    CodecData,
    SetupRequest,
    StartRequest,
    StopRequest,
    ConfigResponse,
    Ack,
    MicRequest,
    MicResponse,
    VideoFocusRequest,
    VideoFocusNotification,
}

impl MediaMessageType {
    /// The tag's number on the wire.
    pub open spec fn spec_to_u16(self) -> u16 {
        match self {
            MediaMessageType::MediaData => 0x00,
            MediaMessageType::CodecData => 0x01,
            MediaMessageType::SetupRequest => 0x8000,
            MediaMessageType::StartRequest => 0x8001,
            MediaMessageType::StopRequest => 0x8002,
            MediaMessageType::ConfigResponse => 0x8003,
            MediaMessageType::Ack => 0x8004,
            MediaMessageType::MicRequest => 0x8005,
            MediaMessageType::MicResponse => 0x8006,
            MediaMessageType::VideoFocusRequest => 0x8007,
            MediaMessageType::VideoFocusNotification => 0x8008,
        }
    }

    #[verifier::when_used_as_spec(spec_to_u16)]
    pub fn to_u16(self) -> (value: u16)
        ensures
            value == self.spec_to_u16(),
    {
        match self {
            MediaMessageType::MediaData => 0x00,
            MediaMessageType::CodecData => 0x01,
            MediaMessageType::SetupRequest => 0x8000,
            MediaMessageType::StartRequest => 0x8001,
            MediaMessageType::StopRequest => 0x8002,
            MediaMessageType::ConfigResponse => 0x8003,
            MediaMessageType::Ack => 0x8004,
            MediaMessageType::MicRequest => 0x8005,
            MediaMessageType::MicResponse => 0x8006,
            MediaMessageType::VideoFocusRequest => 0x8007,
            MediaMessageType::VideoFocusNotification => 0x8008,
        }
    }

    /// The tag that a number names on this channel, if it names one.
    pub open spec fn spec_from_u16(value: u16) -> Option<Self> {
        if value == 0x00 {
            Some(MediaMessageType::MediaData)
        } else if value == 0x01 {
            Some(MediaMessageType::CodecData)
        } else if value == 0x8000 {
            Some(MediaMessageType::SetupRequest)
        } else if value == 0x8001 {
            Some(MediaMessageType::StartRequest)
        } else if value == 0x8002 {
            Some(MediaMessageType::StopRequest)
        } else if value == 0x8003 {
            Some(MediaMessageType::ConfigResponse)
        } else if value == 0x8004 {
            Some(MediaMessageType::Ack)
        } else if value == 0x8005 {
            Some(MediaMessageType::MicRequest)
        } else if value == 0x8006 {
            Some(MediaMessageType::MicResponse)
        } else if value == 0x8007 {
            Some(MediaMessageType::VideoFocusRequest)
        } else if value == 0x8008 {
            Some(MediaMessageType::VideoFocusNotification)
        } else {
            None
        }
    }

    #[verifier::when_used_as_spec(spec_from_u16)]
    pub fn from_u16(value: u16) -> (tag: Option<Self>)
        ensures
            tag == Self::spec_from_u16(value),
    {
        match value {
            0x00 => Some(MediaMessageType::MediaData),
            0x01 => Some(MediaMessageType::CodecData),
            0x8000 => Some(MediaMessageType::SetupRequest),
            0x8001 => Some(MediaMessageType::StartRequest),
            0x8002 => Some(MediaMessageType::StopRequest),
            0x8003 => Some(MediaMessageType::ConfigResponse),
            0x8004 => Some(MediaMessageType::Ack),
            0x8005 => Some(MediaMessageType::MicRequest),
            0x8006 => Some(MediaMessageType::MicResponse),
            0x8007 => Some(MediaMessageType::VideoFocusRequest),
            0x8008 => Some(MediaMessageType::VideoFocusNotification),
            _ => None,
        }
    }

    /// Every tag is found again from its number, and a number that names a
    /// tag is the number of that tag.
    pub proof fn lemma_number_round_trip(tag: MediaMessageType, value: u16)
        ensures
            Self::spec_from_u16(tag.spec_to_u16()) == Some(tag),
            Self::spec_from_u16(value) == Some(tag) <==> tag.spec_to_u16() == value,
    {
    }
}

/// Tags of the input channel.
#[derive(Debug, Clone, Copy, PartialEq, Eq, Structural)]
pub enum InputMessageType {
    InputReport,
    BindingRequest,
    BindingResponse,
}

impl InputMessageType {
    /// The tag's number on the wire.
    pub open spec fn spec_to_u16(self) -> u16 {
        match self {
            InputMessageType::InputReport => 0x8001,
            InputMessageType::BindingRequest => 0x8002,
            InputMessageType::BindingResponse => 0x8003,
        }
    }

    #[verifier::when_used_as_spec(spec_to_u16)]
    pub fn to_u16(self) -> (value: u16)
        ensures
            value == self.spec_to_u16(),
    {
        match self {
            InputMessageType::InputReport => 0x8001,
            InputMessageType::BindingRequest => 0x8002,
            InputMessageType::BindingResponse => 0x8003,
        }
    }

    /// The tag that a number names on this channel, if it names one.
    pub open spec fn spec_from_u16(value: u16) -> Option<Self> {
        if value == 0x8001 {
            Some(InputMessageType::InputReport)
        } else if value == 0x8002 {
            Some(InputMessageType::BindingRequest)
        } else if value == 0x8003 {
            Some(InputMessageType::BindingResponse)
        } else {
            None
        }
    }

    #[verifier::when_used_as_spec(spec_from_u16)]
    pub fn from_u16(value: u16) -> (tag: Option<Self>)
        ensures
            tag == Self::spec_from_u16(value),
    {
        match value {
            0x8001 => Some(InputMessageType::InputReport),
            0x8002 => Some(InputMessageType::BindingRequest),
            0x8003 => Some(InputMessageType::BindingResponse),
            _ => None,
        }
    }

    /// Every tag is found again from its number, and a number that names a
    /// tag is the number of that tag.
    pub proof fn lemma_number_round_trip(tag: InputMessageType, value: u16)
        ensures
            Self::spec_from_u16(tag.spec_to_u16()) == Some(tag),
            Self::spec_from_u16(value) == Some(tag) <==> tag.spec_to_u16() == value,
    {
    }
}

/// Tags of the navigation status messages.
#[derive(Debug, Clone, Copy, PartialEq, Eq, Structural)]
pub enum NavigationMessageType {
    NextTurnDetails,
    NextTurnDistanceAndTime,
}

impl NavigationMessageType {
    /// The tag's number on the wire.
    pub open spec fn spec_to_u16(self) -> u16 {
        match self {
            NavigationMessageType::NextTurnDetails => 0x8004,
            NavigationMessageType::NextTurnDistanceAndTime => 0x8005,
        }
    }

    #[verifier::when_used_as_spec(spec_to_u16)]
    pub fn to_u16(self) -> (value: u16)
        ensures
            value == self.spec_to_u16(),
    {
        match self {
            NavigationMessageType::NextTurnDetails => 0x8004,
            NavigationMessageType::NextTurnDistanceAndTime => 0x8005,
        }
    }

}

/// Tags of the media playback status channel.
#[derive(Debug, Clone, Copy, PartialEq, Eq, Structural)]
pub enum PlaybackMessageType {
    MediaPlaybackStatus,
    MediaPlaybackStartResponse,
    MediaPlaybackMetaData,
}

impl PlaybackMessageType {
    /// The tag's number on the wire.
    pub open spec fn spec_to_u16(self) -> u16 {
        match self {
            PlaybackMessageType::MediaPlaybackStatus => 0x8001,
            PlaybackMessageType::MediaPlaybackStartResponse => 0x8002,
            PlaybackMessageType::MediaPlaybackMetaData => 0x8003,
        }
    }

    #[verifier::when_used_as_spec(spec_to_u16)]
    pub fn to_u16(self) -> (value: u16)
        ensures
            value == self.spec_to_u16(),
    {
        match self {
            PlaybackMessageType::MediaPlaybackStatus => 0x8001,
            PlaybackMessageType::MediaPlaybackStartResponse => 0x8002,
            PlaybackMessageType::MediaPlaybackMetaData => 0x8003,
        }
    }

    /// The tag that a number names on this channel, if it names one.
    pub open spec fn spec_from_u16(value: u16) -> Option<Self> {
        if value == 0x8001 {
            Some(PlaybackMessageType::MediaPlaybackStatus)
        } else if value == 0x8002 {
            Some(PlaybackMessageType::MediaPlaybackStartResponse)
        } else if value == 0x8003 {
            Some(PlaybackMessageType::MediaPlaybackMetaData)
        } else {
            None
        }
    }

    #[verifier::when_used_as_spec(spec_from_u16)]
    pub fn from_u16(value: u16) -> (tag: Option<Self>)
        ensures
            tag == Self::spec_from_u16(value),
    {
        match value {
            0x8001 => Some(PlaybackMessageType::MediaPlaybackStatus),
            0x8002 => Some(PlaybackMessageType::MediaPlaybackStartResponse),
            0x8003 => Some(PlaybackMessageType::MediaPlaybackMetaData),
            _ => None,
        }
    }

    /// Every tag is found again from its number, and a number that names a
    /// tag is the number of that tag.
    pub proof fn lemma_number_round_trip(tag: PlaybackMessageType, value: u16)
        ensures
            Self::spec_from_u16(tag.spec_to_u16()) == Some(tag),
            Self::spec_from_u16(value) == Some(tag) <==> tag.spec_to_u16() == value,
    {
    }
}

/// Tags of the sensor channel.
#[derive(Debug, Clone, Copy, PartialEq, Eq, Structural)]
pub enum SensorsMessageType {
    StartRequest,
    StartResponse,
    Event,
}

impl SensorsMessageType {
    /// The tag's number on the wire.
    pub open spec fn spec_to_u16(self) -> u16 {
        match self {
            SensorsMessageType::StartRequest => 0x8001,
            SensorsMessageType::StartResponse => 0x8002,
            SensorsMessageType::Event => 0x8003,
        }
    }

    #[verifier::when_used_as_spec(spec_to_u16)]
    pub fn to_u16(self) -> (value: u16)
        ensures
            value == self.spec_to_u16(),
    {
        match self {
            SensorsMessageType::StartRequest => 0x8001,
            SensorsMessageType::StartResponse => 0x8002,
            SensorsMessageType::Event => 0x8003,
        }
    }

    /// The tag that a number names on this channel, if it names one.
    pub open spec fn spec_from_u16(value: u16) -> Option<Self> {
        if value == 0x8001 {
            Some(SensorsMessageType::StartRequest)
        } else if value == 0x8002 {
            Some(SensorsMessageType::StartResponse)
        } else if value == 0x8003 {
            Some(SensorsMessageType::Event)
        } else {
            None
        }
    }

    #[verifier::when_used_as_spec(spec_from_u16)]
    pub fn from_u16(value: u16) -> (tag: Option<Self>)
        ensures
            tag == Self::spec_from_u16(value),
    {
        match value {
            0x8001 => Some(SensorsMessageType::StartRequest),
            0x8002 => Some(SensorsMessageType::StartResponse),
            0x8003 => Some(SensorsMessageType::Event),
            _ => None,
        }
    }

    /// Every tag is found again from its number, and a number that names a
    /// tag is the number of that tag.
    pub proof fn lemma_number_round_trip(tag: SensorsMessageType, value: u16)
        ensures
            Self::spec_from_u16(tag.spec_to_u16()) == Some(tag),
            Self::spec_from_u16(value) == Some(tag) <==> tag.spec_to_u16() == value,
    {
    }
}

} // verus!
