use crate::commands::{CommandView, Commands};
use crate::error::Error;
use crate::message::Message;
use crate::schema::Inbound;
use crate::service::{handled_view, Outcome, OutcomeView, ServiceHandler};
use std::collections::VecDeque;
use vstd::prelude::*;

verus! {

/// A message that waits in a channel, with what its payload decoded to.
#[derive(Debug, PartialEq, Eq)]
pub struct Pending {
    pub message: Message,
    pub decoded: Inbound,
}

/// A channel with a worker of its own: messages wait in arrival order until
/// the worker, once started, takes them one by one.
#[derive(Debug)]
pub struct ThreadChannel<S: ServiceHandler> {
    pub service: S,
    pub inbox: VecDeque<Pending>,
    pub running: bool,
}

/// One turn of a worker: the message that it took and what became of it.
#[derive(Debug, PartialEq, Eq)]
pub struct Turn {
    pub message: Message,
    pub handled: Result<Outcome, Error>,
}

/// What became of the message of a turn, as a mathematical value.
pub open spec fn turn_view(turn: Option<Turn>) -> Option<Result<OutcomeView, Error>> {
    match turn {
        Some(taken) => Some(handled_view(taken.handled)),
        None => None,
    }
}

/// What one turn of a worker does to its channel and to the outbound queue.
/// If the worker runs and a message waits, the service handles the oldest
/// message, which leaves the channel's queue; what the service sends goes
/// behind what waited in the outbound queue. Else nothing changes.
pub open spec fn stepped<S: ServiceHandler>(
    before: ThreadChannel<S>,
    after: ThreadChannel<S>,
    waiting: Seq<CommandView>,
    queued: Seq<CommandView>,
    turn: Option<Result<OutcomeView, Error>>,
) -> bool {
    &&& after.running == before.running
    &&& waiting.len() <= queued.len()
    &&& queued.take(waiting.len() as int) == waiting
    &&& match turn {
        Some(handled) => {
            &&& before.ready()
            &&& after.inbox@ == before.inbox@.subrange(1, before.inbox@.len() as int)
            &&& S::reacts(
                before.service,
                after.service,
                before.inbox@[0].message@,
                before.inbox@[0].decoded,
                queued.skip(waiting.len() as int),
                handled,
            )
        },
        None => {
            &&& !before.ready()
            &&& after.inbox@ == before.inbox@
            &&& after.service == before.service
            &&& queued == waiting
        },
    }
}

impl<S: ServiceHandler> ThreadChannel<S> {
    pub fn new(service: S) -> (channel: Self)
        ensures
            channel.service == service,
            channel.inbox@ == Seq::<Pending>::empty(),
            !channel.running,
    {
        Self { service, inbox: VecDeque::new(), running: false }
    }

    /// Puts a message at the end of the channel's queue.
    pub fn send_message_to_channel(&mut self, message: Message, decoded: Inbound)
        ensures
            final(self).inbox@ == old(self).inbox@.push(Pending { message, decoded }),
            final(self).service == old(self).service,
            final(self).running == old(self).running,
    {
        self.inbox.push_back(Pending { message, decoded });
    }

    /// Starts the worker. A worker that runs keeps running.
    pub fn open(&mut self)
        ensures
            final(self).running,
            final(self).service == old(self).service,
            final(self).inbox@ == old(self).inbox@,
    {
        self.running = true;
    }

    /// The number of messages that wait.
    pub fn waiting(&self) -> (n: usize)
        ensures
            n == self.inbox@.len(),
    {
        self.inbox.len()
    }

    /// Whether the worker has something to do: it runs and a message waits.
    pub open spec fn ready(&self) -> bool {
        self.running && self.inbox@.len() > 0
    }

    /// One turn of the worker. If it runs and a message waits, the service
    /// handles the oldest one, which leaves the queue. Else nothing changes.
    pub fn step(&mut self, commands: &mut Commands) -> (turn: Option<Turn>)
        ensures
            stepped(*old(self), *final(self), old(commands)@, final(commands)@, turn_view(turn)),
            turn.is_some() ==> turn.unwrap().message == old(self).inbox@[0].message,
    {
        if !self.running {
            assert(commands@.take(commands@.len() as int) =~= commands@);
            return None;
        }
        match self.inbox.pop_front() {
            Some(pending) => {
                let handled = self.service.handle_message(&pending.message, pending.decoded, commands);
                Some(Turn { message: pending.message, handled })
            },
            None => {
                assert(commands@.take(commands@.len() as int) =~= commands@);
                None
            },
        }
    }
}

} // verus!
