use crate::commands::Commands;
use crate::error::Error;
use crate::message::Message;
use crate::schema::{Inbound, ServiceDescriptor};
use crate::service::{handled_view, Outcome, Service, ServiceHandler};
use vstd::prelude::*;

verus! {

/// A channel whose service handles each message at once, in the caller's
/// own thread of control.
#[derive(Debug)]
pub struct BlockingCannel<S: Service> {
    pub service: S,
    pub opened: bool,
}

impl<S: Service> BlockingCannel<S> {
    pub fn new(service: S) -> (channel: Self)
        ensures
            channel.service == service,
            !channel.opened,
    {
        Self { service, opened: false }
    }

    /// Hands a message to the service, which handles it before this returns.
    pub fn send_message_to_channel(
        &mut self,
        message: &Message,
        decoded: Inbound,
        commands: &mut Commands,
    ) -> (handled: Result<Outcome, Error>)
        ensures
            final(self).opened == old(self).opened,
            old(commands)@.len() <= final(commands)@.len(),
            final(commands)@.take(old(commands)@.len() as int) == old(commands)@,
            S::reacts(
                old(self).service,
                final(self).service,
                message@,
                decoded,
                final(commands)@.skip(old(commands)@.len() as int),
                handled_view(handled),
            ),
    {
        self.service.handle_message(message, decoded, commands)
    }

    /// Marks the channel as opened by the peer.
    pub fn open(&mut self)
        ensures
            final(self).opened,
            final(self).service == old(self).service,
    {
        self.opened = true;
    }

    pub fn protobuf_descriptor(&self, channel_id: u8) -> (descriptor: ServiceDescriptor)
        requires
            self.service.serves(channel_id),
        ensures
            descriptor@ == self.service.descriptor(channel_id),
    {
        self.service.protobuf_descriptor(channel_id)
    }
}

} // verus!
