




pub mod audio;
pub mod control;
pub mod input;
pub mod media_play_back;
pub mod microphone;
pub mod sensor;
pub mod video;


use crate::commands::{CommandView, Commands};
use crate::error::Error;
use crate::message::{Message, MessageView};
use crate::schema::{Inbound, Schema, ServiceDescriptor, ServiceDescriptorView};
use vstd::prelude::*;

verus! {

/// What became of a message that a service took in.
#[derive(Debug, PartialEq, Eq)]
pub enum Outcome {
    /// The service acted on the message.
    Handled,
    /// The service has no use for a message with this tag.
    Ignored,
    /// The message is for the application's own sink, which gets it as it is.
    Delegated,
    /// The message carried media; these are the bytes for the decoder.
    Media(Vec<u8>),
}

/// An outcome as a mathematical value.
pub enum OutcomeView {
    Handled,
    Ignored,
    Delegated,
    Media(Seq<u8>),
}

impl View for Outcome {
    type V = OutcomeView;

    open spec fn view(&self) -> OutcomeView {
        match *self {
            Outcome::Handled => OutcomeView::Handled,
            Outcome::Ignored => OutcomeView::Ignored,
            Outcome::Delegated => OutcomeView::Delegated,
            Outcome::Media(bytes) => OutcomeView::Media(bytes@),
        }
    }
}

/// The result of handling a message as a mathematical value.
pub open spec fn handled_view(handled: Result<Outcome, Error>) -> Result<OutcomeView, Error> {
    match handled {
        Ok(outcome) => Ok(outcome@),
        Err(e) => Err(e),
    }
}

/// Whether `decoded` cannot be a reading of the payload that the schema
/// `expected` describes. Such a message is dropped.
pub open spec fn misread(expected: Option<Schema>, decoded: Inbound) -> bool {
    match expected {
        Some(schema) => !schema.spec_accepts(decoded),
        None => false,
    }
}

/// The part of a service that takes in the messages of its channel.
pub trait ServiceHandler: Sized {
    /// The schema that the payload of a message must decode against before
    /// the service can handle it, if it is read through a schema at all.
    spec fn expects(message: MessageView) -> Option<Schema>;

    /// How the service handles a message: its state before and after, the
    /// message and what its payload decoded to, the commands that the
    /// service sent, and what became of the message.
    spec fn reacts(
        before: Self,
        after: Self,
        message: MessageView,
        decoded: Inbound,
        sent: Seq<CommandView>,
        handled: Result<OutcomeView, Error>,
    ) -> bool;

    /// Says against which schema the payload of a message is to be decoded.
    fn schema_for(&self, message: &Message) -> (schema: Option<Schema>)
        ensures
            schema == Self::expects(message@),
    ;

    /// Takes in one message of the channel. What the service answers goes to
    /// the end of `commands`; what waited there stays in front.
    fn handle_message(&mut self, message: &Message, decoded: Inbound, commands: &mut Commands) -> (handled:
        Result<Outcome, Error>)
        ensures
            old(commands)@.len() <= final(commands)@.len(),
            final(commands)@.take(old(commands)@.len() as int) == old(commands)@,
            Self::reacts(
                *old(self),
                *final(self),
                message@,
                decoded,
                final(commands)@.skip(old(commands)@.len() as int),
                handled_view(handled),
            ),
    ;
}

/// A service that is published during discovery.
pub trait Service: ServiceHandler {
    /// Whether the service can stand on the channel.
    spec fn serves(&self, channel_id: u8) -> bool;

    /// What the service publishes of itself on the channel.
    spec fn descriptor(&self, channel_id: u8) -> ServiceDescriptorView;

    fn protobuf_descriptor(&self, channel_id: u8) -> (descriptor: ServiceDescriptor)
        requires
            self.serves(channel_id),
        ensures
            descriptor@ == self.descriptor(channel_id),
    ;
}

} // verus!
