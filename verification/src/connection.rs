use crate::channel::thread::ThreadChannel;
use crate::commands::Commands;
use crate::error::Error;
use crate::fragment::{read_view, spec_step, Partial, Reassembler, DEFAULT_CHUNK_LIMIT};
use crate::frame::FrameHeader;
use crate::message::{ControlMessageType, Message, MessageView};
use crate::schema::HeadUnitInfo;
use crate::service::audio::AudioService;
use crate::service::control::{ControlService, CONTROL_CHANNEL};
use crate::service::input::InputService;
use crate::service::media_play_back::MediaPlayBackService;
use crate::service::microphone::MicrophoneService;
use crate::service::sensor::SensorService;
use crate::service::video::VideoService;
use vstd::prelude::*;

verus! {

/// Where a session stands.
#[derive(Debug, Clone, Copy, PartialEq, Eq, Structural)]
pub enum Phase {
    /// Nothing was sent yet.
    Init,
    /// The version request is out and the response is awaited.
    VersionSent,
    /// TLS records travel inside handshake messages.
    TlsHandshaking,
    /// The channels run.
    Running,
    /// The session ended. Nothing is sent or accepted any more.
    Terminated,
}

/// What the application shares with the session: the queue of outbound
/// commands.
#[derive(Debug)]
pub struct ConnectionContext {
    pub commands: Commands,
}

impl ConnectionContext {
    pub fn new() -> (context: Self)
        ensures
            context.commands@.len() == 0,
    {
        ConnectionContext { commands: Commands::new() }
    }
}

/// The session of one connection: its phase, the messages under way on each
/// channel, the channels with their services, and the outbound queue.
#[derive(Debug)]
pub struct AapConnection {
    pub phase: Phase,
    pub chunk_limit: usize,
    /// One reassembler for each channel number.
    pub reassembly: Vec<Reassembler>,
    pub control_channel: ThreadChannel<ControlService>,
    pub sensor_channel: ThreadChannel<SensorService>,
    pub video_channel: ThreadChannel<VideoService>,
    pub input_channel: ThreadChannel<InputService>,
    pub speech_channel: ThreadChannel<AudioService>,
    pub system_channel: ThreadChannel<AudioService>,
    pub media_channel: ThreadChannel<AudioService>,
    pub microphone_channel: ThreadChannel<MicrophoneService>,
    pub media_play_back_channel: ThreadChannel<MediaPlayBackService>,
    pub context: ConnectionContext,
}

/// The payload of the version request: version 1.7.
pub open spec fn version_request_data() -> Seq<u8> {
    seq![0u8, 1u8, 0u8, 7u8]
}

/// The payload of the message that ends the handshake.
pub open spec fn handshake_ok_data() -> Seq<u8> {
    seq![8u8, 0u8]
}

/// The version request.
pub open spec fn version_request() -> MessageView {
    MessageView {
        channel: CONTROL_CHANNEL,
        is_control: false,
        msg_type: ControlMessageType::VersionRequest.spec_to_u16(),
        data: version_request_data(),
    }
}

/// The message that ends the handshake.
pub open spec fn handshake_ok() -> MessageView {
    MessageView {
        channel: CONTROL_CHANNEL,
        is_control: false,
        msg_type: ControlMessageType::HandshakeOk.spec_to_u16(),
        data: handshake_ok_data(),
    }
}

/// Whether a tag of the control channel belongs to the time before the
/// channels run.
pub open spec fn spec_is_handshake_tag(msg_type: u16) -> bool {
    ||| msg_type == ControlMessageType::VersionRequest.spec_to_u16()
    ||| msg_type == ControlMessageType::VersionResponse.spec_to_u16()
    ||| msg_type == ControlMessageType::Handshake.spec_to_u16()
    ||| msg_type == ControlMessageType::HandshakeOk.spec_to_u16()
}

#[verifier::when_used_as_spec(spec_is_handshake_tag)]
pub fn is_handshake_tag(msg_type: u16) -> (yes: bool)
    ensures
        yes == spec_is_handshake_tag(msg_type),
{
    msg_type == ControlMessageType::VersionRequest.to_u16() || msg_type
        == ControlMessageType::VersionResponse.to_u16() || msg_type
        == ControlMessageType::Handshake.to_u16() || msg_type
        == ControlMessageType::HandshakeOk.to_u16()
}

/// Whether the caller may send a message in a phase. While TLS shakes hands
/// only handshake messages travel, in the clear, on the control channel.
/// Once the channels run anything may be sent encrypted, and in the clear
/// anything but the control messages of the handshake. In every other phase
/// the session itself sends what is to be sent.
pub open spec fn spec_may_send(phase: Phase, channel: u8, msg_type: u16, encrypted: bool) -> bool {
    match phase {
        Phase::TlsHandshaking => !encrypted && channel == CONTROL_CHANNEL && msg_type
            == ControlMessageType::Handshake.spec_to_u16(),
        Phase::Running => encrypted || !(channel == CONTROL_CHANNEL && spec_is_handshake_tag(
            msg_type,
        )),
        _ => false,
    }
}

#[verifier::when_used_as_spec(spec_may_send)]
pub fn may_send(phase: Phase, channel: u8, msg_type: u16, encrypted: bool) -> (allowed: bool)
    ensures
        allowed == spec_may_send(phase, channel, msg_type, encrypted),
{
    match phase {
        Phase::TlsHandshaking => !encrypted && channel == CONTROL_CHANNEL && msg_type
            == ControlMessageType::Handshake.to_u16(),
        Phase::Running => encrypted || !(channel == CONTROL_CHANNEL && is_handshake_tag(msg_type)),
        _ => false,
    }
}

/// Whether a frame may arrive in a phase: frames in the clear from the
/// version request on, encrypted frames only once the channels run.
pub open spec fn spec_may_accept(phase: Phase, encrypted: bool) -> bool {
    match phase {
        Phase::VersionSent => !encrypted,
        Phase::TlsHandshaking => !encrypted,
        Phase::Running => true,
        _ => false,
    }
}

#[verifier::when_used_as_spec(spec_may_accept)]
pub fn may_accept(phase: Phase, encrypted: bool) -> (allowed: bool)
    ensures
        allowed == spec_may_accept(phase, encrypted),
{
    match phase {
        Phase::VersionSent => !encrypted,
        Phase::TlsHandshaking => !encrypted,
        Phase::Running => true,
        _ => false,
    }
}

/// Whether a complete message is what a phase waits for: the version
/// response after the version request, handshake messages while TLS shakes
/// hands, anything once the channels run.
pub open spec fn spec_admits(phase: Phase, message: MessageView) -> bool {
    match phase {
        Phase::VersionSent => message.channel == CONTROL_CHANNEL && message.msg_type
            == ControlMessageType::VersionResponse.spec_to_u16(),
        Phase::TlsHandshaking => message.channel == CONTROL_CHANNEL && message.msg_type
            == ControlMessageType::Handshake.spec_to_u16(),
        Phase::Running => true,
        _ => false,
    }
}

/// The phase after a message that the phase admits: the version response
/// leads on to the handshake.
pub open spec fn phase_after(phase: Phase) -> Phase {
    match phase {
        Phase::VersionSent => Phase::TlsHandshaking,
        other => other,
    }
}

/// What reading one frame does to a session: the phase afterwards, the
/// message under way on the frame's channel afterwards, and what the reader
/// gets. A frame that the phase does not allow, a frame out of place and a
/// message that the phase does not wait for end the session.
pub open spec fn spec_read(
    phase: Phase,
    partial: Option<Partial>,
    header: FrameHeader,
    total_length: Option<u32>,
    chunk: Seq<u8>,
) -> (Phase, Option<Partial>, Result<Option<MessageView>, Error>) {
    if !spec_may_accept(phase, header.encrypted) {
        (Phase::Terminated, partial, Err(Error::ProtocolViolation))
    } else {
        let step = spec_step(partial, header, total_length, chunk);
        match step.1 {
            Err(e) => (Phase::Terminated, step.0, Err(e)),
            Ok(None) => (phase, step.0, Ok(None)),
            Ok(Some(message)) => {
                if spec_admits(phase, message) {
                    (phase_after(phase), step.0, Ok(Some(message)))
                } else {
                    (Phase::Terminated, step.0, Err(Error::ProtocolViolation))
                }
            },
        }
    }
}

/// Phase gating. Nothing encrypted is sent or accepted before the channels
/// run, and once they run no control message of the handshake is sent in the
/// clear: a session gives bytes for an encrypted message only while its
/// channels run, it gives none for such a control message in the clear while
/// they run, and a frame marked as encrypted is read only while they run.
pub proof fn lemma_phase_gating(
    connection: &AapConnection,
    message: MessageView,
    sealed: Seq<u8>,
    partial: Option<Partial>,
    header: FrameHeader,
    total_length: Option<u32>,
    chunk: Seq<u8>,
)
    ensures
        spec_may_send(connection.phase, message.channel, message.msg_type, true)
            ==> connection.phase == Phase::Running,
        connection.spec_write_encrypted(message, sealed).is_ok() ==> connection.phase
            == Phase::Running,
        connection.phase == Phase::Running && message.channel == CONTROL_CHANNEL
            && spec_is_handshake_tag(message.msg_type) ==> connection.spec_write_unencrypted(
            message,
        ) == Err::<Seq<u8>, Error>(Error::ProtocolViolation),
        spec_may_accept(connection.phase, true) ==> connection.phase == Phase::Running,
        header.encrypted && spec_read(
            connection.phase,
            partial,
            header,
            total_length,
            chunk,
        ).2.is_ok() ==> connection.phase == Phase::Running,
        connection.phase != Phase::Running && header.encrypted ==> spec_read(
            connection.phase,
            partial,
            header,
            total_length,
            chunk,
        ) == (
            Phase::Terminated,
            partial,
            Err::<Option<MessageView>, Error>(Error::ProtocolViolation),
        ),
{
}

/// The place of a phase in the life of a session.
pub open spec fn phase_rank(phase: Phase) -> nat {
    match phase {
        Phase::Init => 0,
        Phase::VersionSent => 1,
        Phase::TlsHandshaking => 2,
        Phase::Running => 3,
        Phase::Terminated => 4,
    }
}

/// A session only moves on. Reading a frame never leads back to an earlier
/// phase; from the running phase it leads nowhere but to the end; and a
/// session that has ended stays ended, reads nothing, sends nothing and
/// delivers nothing.
pub proof fn lemma_session_moves_on(
    connection: &AapConnection,
    message: MessageView,
    sealed: Seq<u8>,
    partial: Option<Partial>,
    header: FrameHeader,
    total_length: Option<u32>,
    chunk: Seq<u8>,
)
    ensures
        phase_rank(spec_read(connection.phase, partial, header, total_length, chunk).0)
            >= phase_rank(connection.phase),
        connection.phase == Phase::Running ==> {
            let next = spec_read(connection.phase, partial, header, total_length, chunk).0;
            next == Phase::Running || next == Phase::Terminated
        },
        connection.phase == Phase::Terminated ==> {
            &&& spec_read(connection.phase, partial, header, total_length, chunk) == (
                Phase::Terminated,
                partial,
                Err::<Option<MessageView>, Error>(Error::ProtocolViolation),
            )
            &&& connection.spec_write_unencrypted(message) == Err::<Seq<u8>, Error>(
                Error::ProtocolViolation,
            )
            &&& connection.spec_write_encrypted(message, sealed) == Err::<Seq<u8>, Error>(
                Error::ProtocolViolation,
            )
        },
{
}

/// Handshake tunnelling. While TLS shakes hands the session gives bytes for
/// nothing but handshake messages on the control channel, and these bytes
/// are one frame in the clear that holds the message's data unchanged behind
/// the tag.
pub proof fn lemma_handshake_tunnel(connection: &AapConnection, message: MessageView)
    requires
        connection.phase == Phase::TlsHandshaking,
        connection.spec_write_unencrypted(message).is_ok(),
    ensures
        message.channel == CONTROL_CHANNEL,
        message.msg_type == ControlMessageType::Handshake.spec_to_u16(),
        connection.spec_write_unencrypted(message).unwrap() == message.single_frame(),
        MessageView::read_single(message.single_frame()) == Ok::<
            Option<(MessageView, nat)>,
            Error,
        >(Some((message, message.single_frame().len()))),
        forall|sealed: Seq<u8>| #[trigger] connection.spec_write_encrypted(message, sealed).is_err(),
{
    crate::message::lemma_single_frame_round_trip(message, Seq::<u8>::empty());
    assert(message.single_frame() + Seq::<u8>::empty() =~= message.single_frame());
}

impl AapConnection {
    /// What holds of every session: there is a reassembler for each channel
    /// number, and the chunk limit fits the length field of a frame.
    pub open spec fn wf(&self) -> bool {
        &&& self.reassembly@.len() == 256
        &&& 1 <= self.chunk_limit <= 0xFFFF
    }

    /// The messages under way, by channel number.
    pub open spec fn partials(&self) -> Seq<Option<Partial>> {
        self.reassembly@.map_values(|state: Reassembler| state@)
    }

    /// A session before its start, with nothing under way, no channel open
    /// and nothing to send.
    pub fn new(info: HeadUnitInfo) -> (connection: Self)
        ensures
            connection.wf(),
            connection.phase == Phase::Init,
            connection.chunk_limit == DEFAULT_CHUNK_LIMIT,
            connection.control_channel.service.info == info,
            forall|i: int| 0 <= i < 256 ==> (#[trigger] connection.partials()[i]).is_none(),
            connection.context.commands@.len() == 0,
            connection.no_channel_busy(),
            connection.video_channel.service.session_id.is_none(),
            connection.video_channel.service.infos@.len() == 0,
    {
        let mut reassembly: Vec<Reassembler> = Vec::with_capacity(256);
        let mut i: usize = 0;
        while i < 256
            invariant
                i <= 256,
                reassembly@.len() == i,
                forall|k: int| 0 <= k < i ==> (#[trigger] reassembly@[k])@.is_none(),
            decreases 256 - i,
        {
            reassembly.push(Reassembler::new());
            i += 1;
        }
        AapConnection {
            phase: Phase::Init,
            chunk_limit: DEFAULT_CHUNK_LIMIT,
            reassembly,
            control_channel: ThreadChannel::new(ControlService::new(info)),
            sensor_channel: ThreadChannel::new(SensorService::new()),
            video_channel: ThreadChannel::new(VideoService::new()),
            input_channel: ThreadChannel::new(InputService::new()),
            speech_channel: ThreadChannel::new(AudioService::new()),
            system_channel: ThreadChannel::new(AudioService::new()),
            media_channel: ThreadChannel::new(AudioService::new()),
            microphone_channel: ThreadChannel::new(MicrophoneService::new()),
            media_play_back_channel: ThreadChannel::new(MediaPlayBackService::new()),
            context: ConnectionContext::new(),
        }
    }

    /// Whether no channel runs or holds a message.
    pub open spec fn no_channel_busy(&self) -> bool {
        &&& !self.control_channel.running && self.control_channel.inbox@.len() == 0
        &&& !self.sensor_channel.running && self.sensor_channel.inbox@.len() == 0
        &&& !self.video_channel.running && self.video_channel.inbox@.len() == 0
        &&& !self.input_channel.running && self.input_channel.inbox@.len() == 0
        &&& !self.speech_channel.running && self.speech_channel.inbox@.len() == 0
        &&& !self.system_channel.running && self.system_channel.inbox@.len() == 0
        &&& !self.media_channel.running && self.media_channel.inbox@.len() == 0
        &&& !self.microphone_channel.running && self.microphone_channel.inbox@.len() == 0
        &&& !self.media_play_back_channel.running && self.media_play_back_channel.inbox@.len()
            == 0
    }

    /// Whether two sessions have the same channels, queue and messages under
    /// way: they differ in the phase at most.
    pub open spec fn same_but_phase(&self, other: &Self) -> bool {
        &&& self.chunk_limit == other.chunk_limit
        &&& self.reassembly == other.reassembly
        &&& self.same_channels(other)
        &&& self.context == other.context
    }

    /// Whether two sessions have the same channels.
    pub open spec fn same_channels(&self, other: &Self) -> bool {
        &&& self.control_channel == other.control_channel
        &&& self.sensor_channel == other.sensor_channel
        &&& self.video_channel == other.video_channel
        &&& self.input_channel == other.input_channel
        &&& self.speech_channel == other.speech_channel
        &&& self.system_channel == other.system_channel
        &&& self.media_channel == other.media_channel
        &&& self.microphone_channel == other.microphone_channel
        &&& self.media_play_back_channel == other.media_play_back_channel
    }

    /// Sets the largest payload of one frame. A limit that the length field
    /// of a frame cannot hold is refused, and the old one stays.
    pub fn set_chunk_limit(&mut self, limit: usize) -> (taken: bool)
        ensures
            taken == (1 <= limit <= 0xFFFF),
            final(self).chunk_limit == if taken {
                limit
            } else {
                old(self).chunk_limit
            },
            final(self).phase == old(self).phase,
            final(self).reassembly == old(self).reassembly,
            final(self).same_channels(old(self)),
            final(self).context == old(self).context,
    {
        if 1 <= limit && limit <= 0xFFFF {
            self.chunk_limit = limit;
            true
        } else {
            false
        }
    }

    /// Begins the session: gives the bytes of the version request and waits
    /// for the response from then on. A session that has begun cannot begin
    /// again.
    pub fn start(&mut self) -> (sent: Result<Vec<u8>, Error>)
        ensures
            final(self).same_but_phase(old(self)),
            match sent {
                Ok(bytes) => {
                    &&& old(self).phase == Phase::Init
                    &&& final(self).phase == Phase::VersionSent
                    &&& bytes@ == version_request().single_frame()
                },
                Err(e) => {
                    &&& old(self).phase != Phase::Init
                    &&& final(self).phase == old(self).phase
                    &&& e == Error::ProtocolViolation
                },
            },
    {
        match self.phase {
            Phase::Init => {},
            _ => {
                return Err(Error::ProtocolViolation);
            },
        }
        let mut data: Vec<u8> = Vec::new();
        data.push(0);
        data.push(1);
        data.push(0);
        data.push(7);
        assert(data@ =~= version_request_data());
        let message = Message::new(
            CONTROL_CHANNEL,
            false,
            ControlMessageType::VersionRequest.to_u16(),
            data,
        );
        self.phase = Phase::VersionSent;
        Ok(message.write_unencrypted())
    }

    /// Ends the TLS handshake: gives the bytes of the message that says so,
    /// opens the control channel, and lets the channels run.
    pub fn finish_handshake(&mut self) -> (sent: Result<Vec<u8>, Error>)
        ensures
            final(self).chunk_limit == old(self).chunk_limit,
            final(self).reassembly == old(self).reassembly,
            final(self).context == old(self).context,
            match sent {
                Ok(bytes) => {
                    &&& old(self).phase == Phase::TlsHandshaking
                    &&& final(self).phase == Phase::Running
                    &&& bytes@ == handshake_ok().single_frame()
                    &&& final(self).control_channel.running
                    &&& final(self).control_channel.service == old(self).control_channel.service
                    &&& final(self).control_channel.inbox@ == old(self).control_channel.inbox@
                    &&& final(self).same_workers(old(self))
                },
                Err(e) => {
                    &&& old(self).phase != Phase::TlsHandshaking
                    &&& final(self).phase == old(self).phase
                    &&& final(self).same_channels(old(self))
                    &&& e == Error::ProtocolViolation
                },
            },
    {
        match self.phase {
            Phase::TlsHandshaking => {},
            _ => {
                return Err(Error::ProtocolViolation);
            },
        }
        let mut data: Vec<u8> = Vec::new();
        data.push(8);
        data.push(0);
        assert(data@ =~= handshake_ok_data());
        let message = Message::new(
            CONTROL_CHANNEL,
            false,
            ControlMessageType::HandshakeOk.to_u16(),
            data,
        );
        self.control_channel.open();
        self.phase = Phase::Running;
        Ok(message.write_unencrypted())
    }

    /// Whether two sessions have the same channels but for the control
    /// channel.
    pub open spec fn same_workers(&self, other: &Self) -> bool {
        &&& self.sensor_channel == other.sensor_channel
        &&& self.video_channel == other.video_channel
        &&& self.input_channel == other.input_channel
        &&& self.speech_channel == other.speech_channel
        &&& self.system_channel == other.system_channel
        &&& self.media_channel == other.media_channel
        &&& self.microphone_channel == other.microphone_channel
        &&& self.media_play_back_channel == other.media_play_back_channel
    }

    /// Tells the session of an error of the transport or of TLS. An error
    /// that ends the session does so; a timeout or a dropped message does
    /// not.
    pub fn fail(&mut self, error: Error) -> (ended: bool)
        ensures
            final(self).same_but_phase(old(self)),
            ended == error.spec_is_fatal(),
            final(self).phase == if ended {
                Phase::Terminated
            } else {
                old(self).phase
            },
    {
        if error.is_fatal() {
            self.phase = Phase::Terminated;
            true
        } else {
            false
        }
    }

    /// What sending a message in the clear gives: the bytes for the
    /// transport, or why there are none. A message that the phase does not
    /// allow is a violation of the protocol. While TLS shakes hands a
    /// message travels in one frame, and one that does not fit into a frame
    /// is a framing error; so is, once the channels run, a message too long
    /// for the length that a first frame announces.
    pub open spec fn spec_write_unencrypted(&self, message: MessageView) -> Result<Seq<u8>, Error> {
        if !spec_may_send(self.phase, message.channel, message.msg_type, false) {
            Err(Error::ProtocolViolation)
        } else if self.phase == Phase::TlsHandshaking {
            if message.data.len() + 2 > 0xFFFF {
                Err(Error::FramingError)
            } else {
                Ok(message.single_frame())
            }
        } else if message.data.len() + 2 > u32::MAX {
            Err(Error::FramingError)
        } else {
            Ok(message.spec_write(false, Seq::<u8>::empty(), self.chunk_limit as nat))
        }
    }

    /// The bytes that carry a message in the clear, if the phase allows it.
    /// The session stays as it is.
    pub fn write_unencrypted_message(&self, message: &Message) -> (sent: Result<Vec<u8>, Error>)
        requires
            self.wf(),
        ensures
            match sent {
                Ok(bytes) => self.spec_write_unencrypted(message@) == Ok::<Seq<u8>, Error>(bytes@),
                Err(e) => self.spec_write_unencrypted(message@) == Err::<Seq<u8>, Error>(e),
            },
    {
        if !may_send(self.phase, message.channel, message.msg_type, false) {
            return Err(Error::ProtocolViolation);
        }
        match self.phase {
            Phase::TlsHandshaking => {
                if message.data.len() > 0xFFFF - 2 {
                    Err(Error::FramingError)
                } else {
                    Ok(message.write_unencrypted())
                }
            },
            _ => {
                if message.data.len() > 0xFFFF_FFFF - 2 {
                    Err(Error::FramingError)
                } else {
                    let nothing: Vec<u8> = Vec::new();
                    Ok(message.write(false, nothing.as_slice(), self.chunk_limit))
                }
            },
        }
    }

    /// What sending a message encrypted gives: the bytes for the transport,
    /// or why there are none. Before the channels run this is a violation of
    /// the protocol; a ciphertext too long for the length that a first frame
    /// announces is a framing error.
    pub open spec fn spec_write_encrypted(&self, message: MessageView, sealed: Seq<u8>) -> Result<
        Seq<u8>,
        Error,
    > {
        if !spec_may_send(self.phase, message.channel, message.msg_type, true) {
            Err(Error::ProtocolViolation)
        } else if sealed.len() > u32::MAX {
            Err(Error::FramingError)
        } else {
            Ok(message.spec_write(true, sealed, self.chunk_limit as nat))
        }
    }

    /// The bytes that carry a message encrypted, if the channels run.
    /// `sealed` is what the TLS engine made of the message's payload. The
    /// session stays as it is.
    pub fn write_encrypted_message(&self, message: &Message, sealed: &[u8]) -> (sent: Result<
        Vec<u8>,
        Error,
    >)
        requires
            self.wf(),
        ensures
            match sent {
                Ok(bytes) => self.spec_write_encrypted(message@, sealed@) == Ok::<Seq<u8>, Error>(
                    bytes@,
                ),
                Err(e) => self.spec_write_encrypted(message@, sealed@) == Err::<Seq<u8>, Error>(e),
            },
    {
        if !may_send(self.phase, message.channel, message.msg_type, true) {
            return Err(Error::ProtocolViolation);
        }
        if sealed.len() > 0xFFFF_FFFF {
            return Err(Error::FramingError);
        }
        Ok(message.write(true, sealed, self.chunk_limit))
    }

    /// Takes in one frame: its header, the total that a first frame
    /// announced, and its payload in the clear. Gives the message that the
    /// frame completes, if the phase waits for it.
    pub fn read_message(
        &mut self,
        header: &FrameHeader,
        total_length: Option<u32>,
        chunk: &[u8],
    ) -> (read: Result<Option<Message>, Error>)
        requires
            old(self).wf(),
        ensures
            final(self).wf(),
            final(self).chunk_limit == old(self).chunk_limit,
            final(self).same_channels(old(self)),
            final(self).context == old(self).context,
            ({
                let channel = header.channel as int;
                let expected = spec_read(
                    old(self).phase,
                    old(self).partials()[channel],
                    *header,
                    total_length,
                    chunk@,
                );
                &&& final(self).phase == expected.0
                &&& final(self).partials()[channel] == expected.1
                &&& read_view(read) == expected.2
                &&& forall|other: int|
                    0 <= other < 256 && other != channel ==> #[trigger] final(self).partials()[other]
                        == old(self).partials()[other]
            }),
    {
        let ghost before = self.partials();
        if !may_accept(self.phase, header.encrypted) {
            self.phase = Phase::Terminated;
            return Err(Error::ProtocolViolation);
        }
        let index: usize = header.channel as usize;
        let mut state = Reassembler::new();
        std::mem::swap(&mut state, &mut self.reassembly[index]);
        let read = Message::try_read(&mut state, header, total_length, chunk);
        std::mem::swap(&mut state, &mut self.reassembly[index]);
        match read {
            Err(e) => {
                self.phase = Phase::Terminated;
                Err(e)
            },
            Ok(None) => Ok(None),
            Ok(Some(message)) => {
                let admitted = match self.phase {
                    Phase::VersionSent => message.channel == CONTROL_CHANNEL && message.msg_type
                        == ControlMessageType::VersionResponse.to_u16(),
                    Phase::TlsHandshaking => message.channel == CONTROL_CHANNEL && message.msg_type
                        == ControlMessageType::Handshake.to_u16(),
                    Phase::Running => true,
                    _ => false,
                };
                if admitted {
                    match self.phase {
                        Phase::VersionSent => {
                            self.phase = Phase::TlsHandshaking;
                        },
                        _ => {},
                    }
                    Ok(Some(message))
                } else {
                    self.phase = Phase::Terminated;
                    Err(Error::ProtocolViolation)
                }
            },
        }
    }
}

} // verus!
