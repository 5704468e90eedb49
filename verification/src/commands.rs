use crate::frame::copy_range;
use crate::message::{InputMessageType, Message, MessageView};
use crate::schema::{Body, BodyView, InputEvent, Key, KeyCode};
use vstd::prelude::*;

verus! {

/// The channel of the input source.
pub const INPUT_CHANNEL: u8 = 3;

/// One outbound message as a service or the application hands it to the
/// session: where it goes, what it says, and whether it is sent encrypted.
#[derive(Debug, PartialEq, Eq)]
pub struct Command {
    pub channel: u8,
    pub is_control: bool,
    pub msg_type: u16,
    pub body: Body,
    pub encrypted: bool,
}

/// A command as a mathematical value.
pub struct CommandView {
    pub channel: u8,
    pub is_control: bool,
    pub msg_type: u16,
    pub body: BodyView,
    pub encrypted: bool,
}

impl View for Command {
    type V = CommandView;

    open spec fn view(&self) -> CommandView {
        CommandView {
            channel: self.channel,
            is_control: self.is_control,
            msg_type: self.msg_type,
            body: self.body@,
            encrypted: self.encrypted,
        }
    }
}

impl CommandView {
    /// The message that carries this command: bytes that are sent as they
    /// are make up its data; for every other body the data is what the
    /// schema made of the body.
    pub open spec fn message(self, encoded: Seq<u8>) -> MessageView {
        MessageView {
            channel: self.channel,
            is_control: self.is_control,
            msg_type: self.msg_type,
            data: match self.body {
                BodyView::Raw(bytes) => bytes,
                _ => encoded,
            },
        }
    }
}

impl Command {
    /// Whether the body of the command is bytes already, so that no schema
    /// has to encode it.
    pub fn is_raw(&self) -> (raw: bool)
        ensures
            raw == (self@.body is Raw),
    {
        match self.body {
            Body::Raw(_) => true,
            _ => false,
        }
    }

    /// The message that carries this command. `encoded` is what the schema
    /// made of the body; it is not read where the body is bytes already.
    pub fn to_message(&self, encoded: &[u8]) -> (message: Message)
        ensures
            message@ == self@.message(encoded@),
    {
        let data = match &self.body {
            Body::Raw(bytes) => {
                let data = copy_range(bytes.as_slice(), 0, bytes.len());
                assert(data@ =~= bytes@);
                data
            },
            _ => {
                let data = copy_range(encoded, 0, encoded.len());
                assert(data@ =~= encoded@);
                data
            },
        };
        Message::new(self.channel, self.is_control, self.msg_type, data)
    }
}

/// The commands of a vector as mathematical values.
pub open spec fn command_views(commands: Seq<Command>) -> Seq<CommandView> {
    commands.map_values(|command: Command| command@)
}

/// The command that sends a message whose payload is already bytes.
pub open spec fn raw_command(message: MessageView, encrypted: bool) -> CommandView {
    CommandView {
        channel: message.channel,
        is_control: message.is_control,
        msg_type: message.msg_type,
        body: BodyView::Raw(message.data),
        encrypted,
    }
}

/// The encrypted reply of a service on a channel.
pub open spec fn reply(channel: u8, msg_type: u16, body: BodyView) -> CommandView {
    CommandView { channel, is_control: false, msg_type, body, encrypted: true }
}

/// The input report that tells of one key at a given time.
pub open spec fn key_report(keycode: u32, down: bool, timestamp: u64) -> CommandView {
    reply(
        INPUT_CHANNEL,
        InputMessageType::InputReport.spec_to_u16(),
        BodyView::InputReport {
            timestamp,
            event: InputEvent::Key(Key { keycode, down, metastate: 0, long_press: false }),
        },
    )
}

/// The input report that tells of one turn of the rotary controller.
pub open spec fn rotary_report(delta: i32, timestamp: u64) -> CommandView {
    reply(
        INPUT_CHANNEL,
        InputMessageType::InputReport.spec_to_u16(),
        BodyView::InputReport {
            timestamp,
            event: InputEvent::Relative { keycode: KeyCode::KeycodeRotaryController, delta },
        },
    )
}

/// The outbound queue that services and the application fill and the
/// session empties: first in, first out, never full.
#[derive(Debug)]
pub struct Commands {
    pub queue: Vec<Command>,
}

impl View for Commands {
    type V = Seq<CommandView>;

    open spec fn view(&self) -> Seq<CommandView> {
        command_views(self.queue@)
    }
}

impl Commands {
    pub fn new() -> (commands: Self)
        ensures
            commands@ == Seq::<CommandView>::empty(),
    {
        let commands = Commands { queue: Vec::new() };
        assert(commands@ =~= Seq::<CommandView>::empty());
        commands
    }

    /// The number of commands that wait.
    pub fn len(&self) -> (n: usize)
        ensures
            n == self@.len(),
    {
        self.queue.len()
    }

    pub fn is_empty(&self) -> (empty: bool)
        ensures
            empty == (self@.len() == 0),
    {
        self.queue.len() == 0
    }

    /// Puts a command at the end of the queue.
    pub fn send(&mut self, command: Command)
        ensures
            final(self)@ == old(self)@.push(command@),
    {
        self.queue.push(command);
        assert(self@ =~= old(self)@.push(command@));
    }

    /// Puts a message at the end of the queue whose payload is sent as it is.
    pub fn send_message(&mut self, message: Message, encrypted: bool)
        ensures
            final(self)@ == old(self)@.push(raw_command(message@, encrypted)),
    {
        let command = Command {
            channel: message.channel,
            is_control: message.is_control,
            msg_type: message.msg_type,
            body: Body::Raw(message.data),
            encrypted,
        };
        self.send(command);
    }

    /// Reports that a key went down or up at the given time, in nanoseconds.
    pub fn send_key_event(&mut self, keycode: u32, down: bool, timestamp: u64)
        ensures
            final(self)@ == old(self)@.push(key_report(keycode, down, timestamp)),
    {
        let command = Command {
            channel: INPUT_CHANNEL,
            is_control: false,
            msg_type: InputMessageType::InputReport.to_u16(),
            body: Body::InputReport {
                timestamp,
                event: InputEvent::Key(Key { keycode, down, metastate: 0, long_press: false }),
            },
            encrypted: true,
        };
        self.send(command);
    }

    /// Reports a turn of the rotary controller at the given time, in
    /// nanoseconds.
    pub fn send_rotary_event(&mut self, delta: i32, timestamp: u64)
        ensures
            final(self)@ == old(self)@.push(rotary_report(delta, timestamp)),
    {
        let command = Command {
            channel: INPUT_CHANNEL,
            is_control: false,
            msg_type: InputMessageType::InputReport.to_u16(),
            body: Body::InputReport {
                timestamp,
                event: InputEvent::Relative { keycode: KeyCode::KeycodeRotaryController, delta },
            },
            encrypted: true,
        };
        self.send(command);
    }

    /// Takes everything out of the queue, oldest first.
    pub fn drain(&mut self) -> (batch: Vec<Command>)
        ensures
            command_views(batch@) == old(self)@,
            final(self)@ == Seq::<CommandView>::empty(),
    {
        let mut batch: Vec<Command> = Vec::new();
        batch.append(&mut self.queue);
        assert(batch@ =~= old(self).queue@);
        assert(self@ =~= Seq::<CommandView>::empty());
        batch
    }
}

/// The queue keeps the order of its producers: what is sent first is taken
/// out first, and what waited before stays in front of both.
pub proof fn lemma_queue_order(waiting: Seq<CommandView>, first: CommandView, second: CommandView)
    ensures
        waiting.push(first).push(second) == waiting + seq![first, second],
        waiting.push(first).push(second)[waiting.len() as int] == first,
        waiting.push(first).push(second)[waiting.len() as int + 1] == second,
{
    assert(waiting.push(first).push(second) =~= waiting + seq![first, second]);
}

} // verus!
