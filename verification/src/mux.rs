use crate::channel::thread::{stepped, turn_view, Pending, Turn};
use crate::commands::{reply, Command, CommandView, INPUT_CHANNEL};
use crate::connection::{AapConnection, Phase};
use crate::error::Error;
use crate::message::{ControlMessageType, Message, MessageView};
use crate::schema::{
    descriptor_views, Body, BodyView, Inbound, MessageStatus, Schema, ServiceDescriptor,
};
use crate::service::audio::{AudioService, MEDIA_CHANNEL, SPEECH_CHANNEL, SYSTEM_CHANNEL};
use crate::service::control::{canonical_catalogue, ControlService, CONTROL_CHANNEL};
use crate::service::input::InputService;
use crate::service::media_play_back::{MediaPlayBackService, PLAYBACK_CHANNEL};
use crate::service::microphone::{MicrophoneService, MICROPHONE_CHANNEL};
use crate::service::sensor::{SensorService, SENSOR_CHANNEL};
use crate::service::video::{VideoService, VIDEO_CHANNEL};
use crate::service::{handled_view, OutcomeView, Service, ServiceHandler};
use vstd::prelude::*;

verus! {

/// Where an inbound message went.
#[derive(Debug, Clone, Copy, PartialEq, Eq, Structural)]
pub enum Delivery {
    /// The message asked to open a channel that has a service: its worker
    /// runs, and the request is answered.
    Opened,
    /// The message asked to open a channel without a service. The request is
    /// answered all the same.
    OpenedUnknown,
    /// The message waits in the queue of its channel.
    Queued,
    /// The message is for a channel without a service and was dropped.
    UnknownChannel,
}

/// Whether a channel number has a service.
pub open spec fn spec_is_known_channel(channel: u8) -> bool {
    channel <= PLAYBACK_CHANNEL
}

#[verifier::when_used_as_spec(spec_is_known_channel)]
pub fn is_known_channel(channel: u8) -> (known: bool)
    ensures
        known == spec_is_known_channel(channel),
{
    channel <= PLAYBACK_CHANNEL
}

/// Whether a message asks to open its channel.
pub open spec fn spec_is_open_request(message: MessageView) -> bool {
    message.msg_type == ControlMessageType::ChannelOpenRequest.spec_to_u16()
}

/// The answer to a request to open a channel.
pub open spec fn open_response() -> CommandView {
    reply(
        CONTROL_CHANNEL,
        ControlMessageType::ChannelOpenResponse.spec_to_u16(),
        BodyView::ChannelOpenResponse { status: MessageStatus::StatusOk },
    )
}

/// The schema against which the payload of an inbound message is decoded
/// before the message is delivered, if any: that of an open request, else
/// what the service of the message's channel expects.
pub open spec fn expected_schema(message: MessageView) -> Option<Schema> {
    if spec_is_open_request(message) {
        Some(Schema::ChannelOpenRequest)
    } else if message.channel == 0 {
        ControlService::expects(message)
    } else if message.channel == 1 {
        SensorService::expects(message)
    } else if message.channel == 2 {
        VideoService::expects(message)
    } else if message.channel == 3 {
        InputService::expects(message)
    } else if 4 <= message.channel <= 6 {
        AudioService::expects(message)
    } else if message.channel == 7 {
        MicrophoneService::expects(message)
    } else if message.channel == 8 {
        MediaPlayBackService::expects(message)
    } else {
        None
    }
}

/// What delivering a message gives. Before the channels run and after the
/// session ended, nothing is delivered. An open request whose payload did not
/// decode is dropped as a schema error.
pub open spec fn spec_delivery(phase: Phase, message: MessageView, decoded: Inbound) -> Result<
    Delivery,
    Error,
> {
    if phase != Phase::Running {
        Err(Error::ProtocolViolation)
    } else if spec_is_open_request(message) {
        if !Schema::ChannelOpenRequest.spec_accepts(decoded) {
            Err(Error::SchemaError)
        } else if spec_is_known_channel(message.channel) {
            Ok(Delivery::Opened)
        } else {
            Ok(Delivery::OpenedUnknown)
        }
    } else if spec_is_known_channel(message.channel) {
        Ok(Delivery::Queued)
    } else {
        Ok(Delivery::UnknownChannel)
    }
}

/// One message with all that sending it takes: whether it travels
/// encrypted, and if so what the TLS engine made of its payload.
#[derive(Debug, PartialEq, Eq)]
pub struct Outgoing {
    pub message: Message,
    pub encrypted: bool,
    pub sealed: Vec<u8>,
}

impl AapConnection {
    /// Whether the worker of a channel runs.
    pub open spec fn running_of(&self, channel: u8) -> bool {
        if channel == 0 {
            self.control_channel.running
        } else if channel == 1 {
            self.sensor_channel.running
        } else if channel == 2 {
            self.video_channel.running
        } else if channel == 3 {
            self.input_channel.running
        } else if channel == 4 {
            self.speech_channel.running
        } else if channel == 5 {
            self.system_channel.running
        } else if channel == 6 {
            self.media_channel.running
        } else if channel == 7 {
            self.microphone_channel.running
        } else if channel == 8 {
            self.media_play_back_channel.running
        } else {
            false
        }
    }

    /// The messages that wait in a channel, oldest first.
    pub open spec fn inbox_of(&self, channel: u8) -> Seq<Pending> {
        if channel == 0 {
            self.control_channel.inbox@
        } else if channel == 1 {
            self.sensor_channel.inbox@
        } else if channel == 2 {
            self.video_channel.inbox@
        } else if channel == 3 {
            self.input_channel.inbox@
        } else if channel == 4 {
            self.speech_channel.inbox@
        } else if channel == 5 {
            self.system_channel.inbox@
        } else if channel == 6 {
            self.media_channel.inbox@
        } else if channel == 7 {
            self.microphone_channel.inbox@
        } else if channel == 8 {
            self.media_play_back_channel.inbox@
        } else {
            Seq::<Pending>::empty()
        }
    }

    /// Whether the service of a channel is in the same state in two sessions.
    pub open spec fn same_service(&self, other: &Self, channel: u8) -> bool {
        if channel == 0 {
            self.control_channel.service == other.control_channel.service
        } else if channel == 1 {
            self.sensor_channel.service == other.sensor_channel.service
        } else if channel == 2 {
            self.video_channel.service == other.video_channel.service
        } else if channel == 3 {
            self.input_channel.service == other.input_channel.service
        } else if channel == 4 {
            self.speech_channel.service == other.speech_channel.service
        } else if channel == 5 {
            self.system_channel.service == other.system_channel.service
        } else if channel == 6 {
            self.media_channel.service == other.media_channel.service
        } else if channel == 7 {
            self.microphone_channel.service == other.microphone_channel.service
        } else if channel == 8 {
            self.media_play_back_channel.service == other.media_play_back_channel.service
        } else {
            true
        }
    }

    /// Whether a channel is the same in two sessions: its service, its queue
    /// and whether its worker runs.
    pub open spec fn same_channel(&self, other: &Self, channel: u8) -> bool {
        if channel == 0 {
            self.control_channel == other.control_channel
        } else if channel == 1 {
            self.sensor_channel == other.sensor_channel
        } else if channel == 2 {
            self.video_channel == other.video_channel
        } else if channel == 3 {
            self.input_channel == other.input_channel
        } else if channel == 4 {
            self.speech_channel == other.speech_channel
        } else if channel == 5 {
            self.system_channel == other.system_channel
        } else if channel == 6 {
            self.media_channel == other.media_channel
        } else if channel == 7 {
            self.microphone_channel == other.microphone_channel
        } else if channel == 8 {
            self.media_play_back_channel == other.media_play_back_channel
        } else {
            true
        }
    }

    /// Whether a turn of the worker of a channel led from `before` to this
    /// session. A channel without a service has no worker and no turn.
    #[verifier::opaque]
    pub open spec fn stepped_on(
        &self,
        before: &Self,
        channel: u8,
        turn: Option<Result<OutcomeView, Error>>,
    ) -> bool {
        let waiting = before.context.commands@;
        let queued = self.context.commands@;
        if channel == 0 {
            stepped(before.control_channel, self.control_channel, waiting, queued, turn)
        } else if channel == 1 {
            stepped(before.sensor_channel, self.sensor_channel, waiting, queued, turn)
        } else if channel == 2 {
            stepped(before.video_channel, self.video_channel, waiting, queued, turn)
        } else if channel == 3 {
            stepped(before.input_channel, self.input_channel, waiting, queued, turn)
        } else if channel == 4 {
            stepped(before.speech_channel, self.speech_channel, waiting, queued, turn)
        } else if channel == 5 {
            stepped(before.system_channel, self.system_channel, waiting, queued, turn)
        } else if channel == 6 {
            stepped(before.media_channel, self.media_channel, waiting, queued, turn)
        } else if channel == 7 {
            stepped(before.microphone_channel, self.microphone_channel, waiting, queued, turn)
        } else if channel == 8 {
            stepped(
                before.media_play_back_channel,
                self.media_play_back_channel,
                waiting,
                queued,
                turn,
            )
        } else {
            turn.is_none() && queued == waiting
        }
    }

    /// Asks every channel but the control channel what its service publishes,
    /// in the order in which discovery lists the channels.
    pub fn descriptors(&self) -> (services: Vec<ServiceDescriptor>)
        ensures
            descriptor_views(services@) == canonical_catalogue(),
    {
        let mut services: Vec<ServiceDescriptor> = Vec::new();
        services.push(self.sensor_channel.service.protobuf_descriptor(SENSOR_CHANNEL));
        services.push(self.video_channel.service.protobuf_descriptor(VIDEO_CHANNEL));
        services.push(self.input_channel.service.protobuf_descriptor(INPUT_CHANNEL));
        services.push(self.media_channel.service.protobuf_descriptor(MEDIA_CHANNEL));
        services.push(self.speech_channel.service.protobuf_descriptor(SPEECH_CHANNEL));
        services.push(self.system_channel.service.protobuf_descriptor(SYSTEM_CHANNEL));
        services.push(self.microphone_channel.service.protobuf_descriptor(MICROPHONE_CHANNEL));
        services.push(self.media_play_back_channel.service.protobuf_descriptor(PLAYBACK_CHANNEL));
        assert(descriptor_views(services@) =~= canonical_catalogue());
        services
    }

    /// Says against which schema the payload of an inbound message is to be
    /// decoded before the message is delivered.
    pub fn schema_for(&self, message: &Message) -> (schema: Option<Schema>)
        ensures
            schema == expected_schema(message@),
    {
        if message.msg_type == ControlMessageType::ChannelOpenRequest.to_u16() {
            return Some(Schema::ChannelOpenRequest);
        }
        match message.channel {
            0 => self.control_channel.service.schema_for(message),
            1 => self.sensor_channel.service.schema_for(message),
            2 => self.video_channel.service.schema_for(message),
            3 => self.input_channel.service.schema_for(message),
            4 => self.speech_channel.service.schema_for(message),
            5 => self.system_channel.service.schema_for(message),
            6 => self.media_channel.service.schema_for(message),
            7 => self.microphone_channel.service.schema_for(message),
            8 => self.media_play_back_channel.service.schema_for(message),
            _ => None,
        }
    }

    /// Starts the worker of a channel, if the channel has a service. A
    /// worker that runs keeps running.
    pub fn open_channel(&mut self, channel: u8) -> (known: bool)
        ensures
            known == spec_is_known_channel(channel),
            final(self).phase == old(self).phase,
            final(self).chunk_limit == old(self).chunk_limit,
            final(self).reassembly == old(self).reassembly,
            final(self).context == old(self).context,
            final(self).same_service(old(self), channel),
            final(self).inbox_of(channel) == old(self).inbox_of(channel),
            final(self).running_of(channel) == known,
            forall|other: u8| other != channel ==> final(self).same_channel(old(self), other),
    {
        match channel {
            0 => self.control_channel.open(),
            1 => self.sensor_channel.open(),
            2 => self.video_channel.open(),
            3 => self.input_channel.open(),
            4 => self.speech_channel.open(),
            5 => self.system_channel.open(),
            6 => self.media_channel.open(),
            7 => self.microphone_channel.open(),
            8 => self.media_play_back_channel.open(),
            _ => {
                return false;
            },
        }
        true
    }

    /// Delivers one inbound message of a running session. A request to open
    /// a channel starts the worker of the message's channel and is answered
    /// on the control channel, also where the channel has no service. Every
    /// other message goes to the end of the queue of its channel, or is
    /// dropped where the channel has no service.
    pub fn deliver(&mut self, message: Message, decoded: Inbound) -> (delivered: Result<
        Delivery,
        Error,
    >)
        ensures
            delivered == spec_delivery(old(self).phase, message@, decoded),
            final(self).phase == old(self).phase,
            final(self).chunk_limit == old(self).chunk_limit,
            final(self).reassembly == old(self).reassembly,
            final(self).same_service(old(self), message.channel),
            forall|other: u8|
                other != message.channel ==> final(self).same_channel(old(self), other),
            match delivered {
                Ok(Delivery::Opened) | Ok(Delivery::OpenedUnknown) => {
                    &&& final(self).context.commands@ == old(self).context.commands@.push(
                        open_response(),
                    )
                    &&& final(self).running_of(message.channel) == spec_is_known_channel(
                        message.channel,
                    )
                    &&& final(self).inbox_of(message.channel) == old(self).inbox_of(
                        message.channel,
                    )
                },
                Ok(Delivery::Queued) => {
                    &&& final(self).context == old(self).context
                    &&& final(self).running_of(message.channel) == old(self).running_of(
                        message.channel,
                    )
                    &&& final(self).inbox_of(message.channel) == old(self).inbox_of(
                        message.channel,
                    ).push(Pending { message, decoded })
                },
                _ => {
                    &&& final(self).context == old(self).context
                    &&& final(self).same_channel(old(self), message.channel)
                },
            },
    {
        match self.phase {
            Phase::Running => {},
            _ => {
                return Err(Error::ProtocolViolation);
            },
        }
        if message.msg_type == ControlMessageType::ChannelOpenRequest.to_u16() {
            if !Schema::ChannelOpenRequest.accepts(decoded) {
                return Err(Error::SchemaError);
            }
            let known = self.open_channel(message.channel);
            let ghost opened = *self;
            self.context.commands.send(
                Command {
                    channel: CONTROL_CHANNEL,
                    is_control: false,
                    msg_type: ControlMessageType::ChannelOpenResponse.to_u16(),
                    body: Body::ChannelOpenResponse { status: MessageStatus::StatusOk },
                    encrypted: true,
                },
            );
            proof {
                assert forall|other: u8| other != message.channel implies self.same_channel(
                    old(self),
                    other,
                ) by {
                    assert(opened.same_channel(old(self), other));
                }
            }
            return Ok(
                if known {
                    Delivery::Opened
                } else {
                    Delivery::OpenedUnknown
                },
            );
        }
        match message.channel {
            0 => self.control_channel.send_message_to_channel(message, decoded),
            1 => self.sensor_channel.send_message_to_channel(message, decoded),
            2 => self.video_channel.send_message_to_channel(message, decoded),
            3 => self.input_channel.send_message_to_channel(message, decoded),
            4 => self.speech_channel.send_message_to_channel(message, decoded),
            5 => self.system_channel.send_message_to_channel(message, decoded),
            6 => self.media_channel.send_message_to_channel(message, decoded),
            7 => self.microphone_channel.send_message_to_channel(message, decoded),
            8 => self.media_play_back_channel.send_message_to_channel(message, decoded),
            _ => {
                return Ok(Delivery::UnknownChannel);
            },
        }
        Ok(Delivery::Queued)
    }

    /// One turn of the worker of a channel. While the channels run, the
    /// service of the channel handles the oldest message that waits there,
    /// if its worker runs and a message waits. No other channel is touched,
    /// and a message that is dropped for an error sends nothing.
    pub fn poll(&mut self, channel: u8) -> (turn: Option<Turn>)
        ensures
            turn.is_some() ==> turn.unwrap().message == old(self).inbox_of(channel)[0].message,
            final(self).phase == old(self).phase,
            final(self).chunk_limit == old(self).chunk_limit,
            final(self).reassembly == old(self).reassembly,
            forall|other: u8| other != channel ==> final(self).same_channel(old(self), other),
            old(self).phase == Phase::Running ==> final(self).stepped_on(
                old(self),
                channel,
                turn_view(turn),
            ),
            old(self).phase != Phase::Running ==> turn.is_none() && final(self).same_channel(
                old(self),
                channel,
            ) && final(self).context == old(self).context,
            turn.is_some() && turn.unwrap().handled.is_err() ==> final(self).context.commands@
                == old(self).context.commands@,
            final(self).running_of(channel) == old(self).running_of(channel),
            turn.is_some() == old(self).ready_on(channel),
            final(self).inbox_of(channel) == if turn.is_some() {
                old(self).inbox_of(channel).subrange(1, old(self).inbox_of(channel).len() as int)
            } else {
                old(self).inbox_of(channel)
            },
            turn.is_none() ==> final(self).same_service(old(self), channel),
            turn.is_none() ==> final(self).context.commands@ == old(self).context.commands@,
    {
        match self.phase {
            Phase::Running => {},
            _ => {
                return None;
            },
        }
        let ghost waiting = self.context.commands@;
        let turn = match channel {
            0 => self.control_channel.step(&mut self.context.commands),
            1 => self.sensor_channel.step(&mut self.context.commands),
            2 => self.video_channel.step(&mut self.context.commands),
            3 => self.input_channel.step(&mut self.context.commands),
            4 => self.speech_channel.step(&mut self.context.commands),
            5 => self.system_channel.step(&mut self.context.commands),
            6 => self.media_channel.step(&mut self.context.commands),
            7 => self.microphone_channel.step(&mut self.context.commands),
            8 => self.media_play_back_channel.step(&mut self.context.commands),
            _ => None,
        };
        proof {
            reveal(AapConnection::stepped_on);
            let queued = self.context.commands@;
            if turn.is_some() && turn.unwrap().handled.is_err() {
                assert(queued.skip(waiting.len() as int) =~= Seq::<CommandView>::empty());
                assert(queued =~= queued.take(waiting.len() as int));
            }
        }
        turn
    }

    /// Whether the worker of a channel has something to do: the channels
    /// run, the worker was started, and a message waits for it.
    pub open spec fn ready_on(&self, channel: u8) -> bool {
        self.phase == Phase::Running && self.running_of(channel) && self.inbox_of(channel).len()
            > 0
    }

    /// Whether `turns` are turns of the worker of a channel, one after the
    /// other, that lead from this session through `states`: each state comes
    /// from the one before by one turn, which took the oldest message that
    /// waited there.
    pub open spec fn ran_through(
        &self,
        channel: u8,
        states: Seq<AapConnection>,
        turns: Seq<Turn>,
    ) -> bool {
        &&& states.len() == turns.len() + 1
        &&& states[0] == *self
        &&& forall|i: int|
            1 <= i < states.len() ==> {
                &&& (#[trigger] states[i]).stepped_on(
                    &states[i - 1],
                    channel,
                    Some(handled_view(turns[i - 1].handled)),
                )
                &&& turns[i - 1].message == states[i - 1].inbox_of(channel)[0].message
            }
    }

    /// Whether every channel but one is the same in two sessions.
    pub open spec fn same_others(&self, other: &Self, channel: u8) -> bool {
        forall|id: u8| id != channel ==> #[trigger] self.same_channel(other, id)
    }

    /// Lets the worker of a channel take turns until nothing is left for it
    /// to do, and gives the turns in the order in which they were taken. The
    /// worker takes the messages in the order in which they arrived; when it
    /// runs, it leaves none behind. No other channel is touched.
    #[verifier::spinoff_prover]
    pub fn run_channel(&mut self, channel: u8) -> (turns: Vec<Turn>)
        ensures
            final(self).phase == old(self).phase,
            final(self).chunk_limit == old(self).chunk_limit,
            final(self).reassembly == old(self).reassembly,
            forall|other: u8| other != channel ==> final(self).same_channel(old(self), other),
            !final(self).ready_on(channel),
            turns@.len() == if old(self).ready_on(channel) {
                old(self).inbox_of(channel).len()
            } else {
                0
            },
            forall|i: int|
                0 <= i < turns@.len() ==> (#[trigger] turns@[i]).message == old(self).inbox_of(
                    channel,
                )[i].message,
            final(self).inbox_of(channel) == old(self).inbox_of(channel).skip(turns@.len() as int),
            exists|states: Seq<AapConnection>|
                {
                    &&& #[trigger] old(self).ran_through(channel, states, turns@)
                    &&& final(self).running_of(channel) == states.last().running_of(channel)
                    &&& final(self).same_service(&states.last(), channel)
                    &&& final(self).context.commands@ == states.last().context.commands@
                },
    {
        let mut turns: Vec<Turn> = Vec::new();
        let ghost mut states: Seq<AapConnection> = seq![*self];
        let mut more = true;
        assert(self.inbox_of(channel).skip(0) =~= self.inbox_of(channel));
        while more
            invariant
                self.phase == old(self).phase,
                self.chunk_limit == old(self).chunk_limit,
                self.reassembly == old(self).reassembly,
                self.same_others(old(self), channel),
                self.running_of(channel) == old(self).running_of(channel),
                !more ==> !self.ready_on(channel),
                turns@.len() <= old(self).inbox_of(channel).len(),
                turns@.len() > 0 ==> old(self).ready_on(channel),
                self.inbox_of(channel) == old(self).inbox_of(channel).skip(turns@.len() as int),
                forall|i: int|
                    0 <= i < turns@.len() ==> (#[trigger] turns@[i]).message == old(
                        self,
                    ).inbox_of(channel)[i].message,
                old(self).ran_through(channel, states, turns@),
                more ==> states.last() == *self,
                self.running_of(channel) == states.last().running_of(channel),
                self.same_service(&states.last(), channel),
                self.context.commands@ == states.last().context.commands@,
            decreases
                    (if more {
                        1int
                    } else {
                        0int
                    }) + self.inbox_of(channel).len(),
        {
            let ghost before = *self;
            let ghost taken = turns@;
            let ghost passed = states;
            let turn = self.poll(channel);
            proof {
                assert(self.same_others(&before, channel));
                lemma_others_stay(self, &before, old(self), channel);
            }
            match turn {
                Some(turn) => {
                    proof {
                        lemma_oldest_leaves(old(self).inbox_of(channel), taken.len() as int);
                        lemma_ran_through_extends(
                            old(self),
                            channel,
                            passed,
                            taken,
                            *self,
                            turn,
                        );
                        states = passed.push(*self);
                    }
                    turns.push(turn);
                },
                None => {
                    more = false;
                },
            }
        }
        turns
    }

    /// Takes everything out of the outbound queue, oldest first.
    pub fn take_commands(&mut self) -> (batch: Vec<Command>)
        ensures
            crate::commands::command_views(batch@) == old(self).context.commands@,
            final(self).context.commands@ == Seq::<CommandView>::empty(),
            final(self).phase == old(self).phase,
            final(self).chunk_limit == old(self).chunk_limit,
            final(self).reassembly == old(self).reassembly,
            final(self).same_channels(old(self)),
    {
        self.context.commands.drain()
    }

    /// What sending one message gives: the bytes for the transport, or why
    /// there are none.
    pub open spec fn spec_write_one(&self, outgoing: Outgoing) -> Result<Seq<u8>, Error> {
        if outgoing.encrypted {
            self.spec_write_encrypted(outgoing.message@, outgoing.sealed@)
        } else {
            self.spec_write_unencrypted(outgoing.message@)
        }
    }

    /// What sending a batch of messages gives: the bytes of each message in
    /// the order of the batch, or the error of the first message that cannot
    /// be sent.
    pub open spec fn spec_write_batch(&self, batch: Seq<Outgoing>) -> Result<Seq<u8>, Error>
        decreases batch.len(),
    {
        if batch.len() == 0 {
            Ok(Seq::<u8>::empty())
        } else {
            match self.spec_write_batch(batch.drop_last()) {
                Err(e) => Err(e),
                Ok(bytes) => match self.spec_write_one(batch.last()) {
                    Err(e) => Err(e),
                    Ok(more) => Ok(bytes + more),
                },
            }
        }
    }

    /// The bytes that carry one message, in the clear or encrypted.
    pub fn write_one(&self, outgoing: &Outgoing) -> (sent: Result<Vec<u8>, Error>)
        requires
            self.wf(),
        ensures
            match sent {
                Ok(bytes) => self.spec_write_one(*outgoing) == Ok::<Seq<u8>, Error>(bytes@),
                Err(e) => self.spec_write_one(*outgoing) == Err::<Seq<u8>, Error>(e),
            },
    {
        if outgoing.encrypted {
            self.write_encrypted_message(&outgoing.message, outgoing.sealed.as_slice())
        } else {
            self.write_unencrypted_message(&outgoing.message)
        }
    }

    /// The bytes that carry a batch of messages, each message whole and in
    /// the order of the batch. Where one message cannot be sent nothing is.
    pub fn write_batch(&self, batch: &Vec<Outgoing>) -> (sent: Result<Vec<u8>, Error>)
        requires
            self.wf(),
        ensures
            match sent {
                Ok(bytes) => self.spec_write_batch(batch@) == Ok::<Seq<u8>, Error>(bytes@),
                Err(e) => self.spec_write_batch(batch@) == Err::<Seq<u8>, Error>(e),
            },
    {
        let mut bytes: Vec<u8> = Vec::new();
        let mut i: usize = 0;
        assert(batch@.take(0) =~= Seq::<Outgoing>::empty());
        while i < batch.len()
            invariant
                self.wf(),
                i <= batch@.len(),
                self.spec_write_batch(batch@.take(i as int)) == Ok::<Seq<u8>, Error>(bytes@),
            decreases batch@.len() - i,
        {
            let ghost done = batch@.take(i as int);
            let ghost next = batch@.take(i + 1);
            assert(next.drop_last() =~= done);
            assert(next.last() == batch@[i as int]);
            match self.write_one(&batch[i]) {
                Ok(more) => {
                    let ghost sofar = bytes@;
                    bytes.extend_from_slice(more.as_slice());
                    assert(bytes@ =~= sofar + more@);
                    assert(self.spec_write_batch(next) == Ok::<Seq<u8>, Error>(bytes@));
                },
                Err(e) => {
                    proof {
                        assert(self.spec_write_batch(next) == Err::<Seq<u8>, Error>(e));
                        lemma_batch_fails_on(self, next, batch@);
                    }
                    return Err(e);
                },
            }
            i += 1;
        }
        assert(batch@.take(i as int) =~= batch@);
        Ok(bytes)
    }
}

/// What holds of all channels but one from a first session to a second, and
/// from the second to a third, holds from the first to the third.
pub proof fn lemma_others_stay(
    last: &AapConnection,
    middle: &AapConnection,
    first: &AapConnection,
    channel: u8,
)
    requires
        last.same_others(middle, channel),
        middle.same_others(first, channel),
    ensures
        last.same_others(first, channel),
{
    assert forall|id: u8| id != channel implies #[trigger] last.same_channel(first, id) by {
        assert(last.same_channel(middle, id));
        assert(middle.same_channel(first, id));
    }
}

/// A queue from which the `taken` oldest messages are gone and then the
/// oldest of the rest is the queue from which `taken + 1` are gone, and the
/// message that left last stood at place `taken`.
pub proof fn lemma_oldest_leaves(inbox: Seq<Pending>, taken: int)
    requires
        0 <= taken < inbox.len(),
    ensures
        inbox.skip(taken).subrange(1, inbox.skip(taken).len() as int) == inbox.skip(taken + 1),
        inbox.skip(taken)[0] == inbox[taken],
{
    assert(inbox.skip(taken).subrange(1, inbox.skip(taken).len() as int) =~= inbox.skip(
        taken + 1,
    ));
}

/// Turns that lead through some states, and one more turn from the last of
/// these states, are turns that lead through these states and the new one.
pub proof fn lemma_ran_through_extends(
    start: &AapConnection,
    channel: u8,
    states: Seq<AapConnection>,
    turns: Seq<Turn>,
    after: AapConnection,
    turn: Turn,
)
    requires
        start.ran_through(channel, states, turns),
        after.stepped_on(&states.last(), channel, Some(handled_view(turn.handled))),
        turn.message == states.last().inbox_of(channel)[0].message,
    ensures
        start.ran_through(channel, states.push(after), turns.push(turn)),
{
    let longer = states.push(after);
    let more = turns.push(turn);
    assert forall|i: int| 1 <= i < longer.len() implies {
        &&& (#[trigger] longer[i]).stepped_on(
            &longer[i - 1],
            channel,
            Some(handled_view(more[i - 1].handled)),
        )
        &&& more[i - 1].message == longer[i - 1].inbox_of(channel)[0].message
    } by {
        if i < states.len() {
            assert(longer[i] == states[i]);
            assert(longer[i - 1] == states[i - 1]);
            assert(more[i - 1] == turns[i - 1]);
        } else {
            assert(longer[i] == after);
            assert(longer[i - 1] == states.last());
            assert(more[i - 1] == turn);
        }
    }
}

/// A batch whose beginning cannot be sent cannot be sent, and fails with
/// the same error.
pub proof fn lemma_batch_fails_on(
    connection: &AapConnection,
    beginning: Seq<Outgoing>,
    batch: Seq<Outgoing>,
)
    requires
        beginning.len() <= batch.len(),
        beginning == batch.take(beginning.len() as int),
        connection.spec_write_batch(beginning).is_err(),
    ensures
        connection.spec_write_batch(batch) == connection.spec_write_batch(beginning),
    decreases batch.len(),
{
    if beginning.len() == batch.len() {
        assert(beginning =~= batch);
    } else {
        assert(batch.drop_last().take(beginning.len() as int) =~= beginning);
        lemma_batch_fails_on(connection, beginning, batch.drop_last());
    }
}

/// Mux ordering. Of two messages sent one after the other, all bytes of the
/// first stand on the wire before all bytes of the second, and the bytes of
/// each message stand together: nothing of another message comes between
/// its frames.
pub proof fn lemma_mux_ordering(
    connection: &AapConnection,
    waiting: Seq<Outgoing>,
    first: Outgoing,
    second: Outgoing,
)
    requires
        connection.spec_write_batch(waiting.push(first).push(second)).is_ok(),
    ensures
        connection.spec_write_batch(waiting).is_ok(),
        connection.spec_write_one(first).is_ok(),
        connection.spec_write_one(second).is_ok(),
        connection.spec_write_batch(waiting.push(first).push(second)).unwrap()
            == connection.spec_write_batch(waiting).unwrap() + connection.spec_write_one(
            first,
        ).unwrap() + connection.spec_write_one(second).unwrap(),
{
    let one = waiting.push(first);
    let two = one.push(second);
    assert(two.drop_last() =~= one);
    assert(one.drop_last() =~= waiting);
    assert(two.last() == second);
    assert(one.last() == first);
    assert(connection.spec_write_batch(one).is_ok());
    assert(connection.spec_write_batch(waiting).is_ok());
}

} // verus!
