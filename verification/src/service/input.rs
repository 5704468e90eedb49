use crate::commands::{reply, Command, CommandView, Commands};
use crate::error::Error;
use crate::message::{InputMessageType, Message, MessageView};
use crate::schema::{
    Body, BodyView, Inbound, KeyCode, MessageStatus, Schema, ServiceDescriptor,
    ServiceDescriptorView, ServiceKind, ServiceKindView,
};
use crate::service::{handled_view, misread, Outcome, OutcomeView, Service, ServiceHandler};
use vstd::prelude::*;

verus! {

/// The input source: it reports keys and the rotary controller.
#[derive(Debug)]
pub struct InputService {}

/// The keys that the head unit can report, in the order in which it
/// publishes them.
pub open spec fn supported_keys() -> Seq<KeyCode> {
    seq![
        KeyCode::KeycodeDPadUp,
        KeyCode::KeycodeDPadDown,
        KeyCode::KeycodeDPadLeft,
        KeyCode::KeycodeDPadRight,
        KeyCode::KeycodeRotaryController,
        KeyCode::KeycodeDPadCenter,
        KeyCode::KeycodeHome,
        KeyCode::KeycodeBack,
    ]
}

/// What the input source publishes of itself.
pub open spec fn input_descriptor(channel_id: u8) -> ServiceDescriptorView {
    ServiceDescriptorView {
        id: channel_id as u32,
        kind: ServiceKindView::InputSource { keycodes_supported: supported_keys() },
    }
}

/// The answer to a binding request.
pub open spec fn binding_response(channel: u8) -> CommandView {
    reply(
        channel,
        InputMessageType::BindingResponse.spec_to_u16(),
        BodyView::BindingResponse { status: MessageStatus::StatusOk },
    )
}

/// Whether a message is a binding request for the input source.
pub open spec fn is_binding_request(message: MessageView) -> bool {
    !message.is_control && message.msg_type == InputMessageType::BindingRequest.spec_to_u16()
}

impl InputService {
    pub fn new() -> (service: Self) {
        InputService {  }
    }

    /// Takes in a binding request with the reading of its payload. A
    /// request that decoded is accepted, whatever keys it names. A request
    /// that did not decode is dropped: nothing is queued.
    pub fn handle_binding_request(
        &mut self,
        message: &Message,
        decoded: Inbound,
        commands: &mut Commands,
    ) -> (handled: Result<Outcome, Error>)
        ensures
            Schema::KeyBindingRequest.spec_accepts(decoded) ==> final(commands)@ == old(
                commands,
            )@.push(binding_response(message.channel)) && handled_view(handled) == Ok::<
                OutcomeView,
                Error,
            >(OutcomeView::Handled),
            !Schema::KeyBindingRequest.spec_accepts(decoded) ==> final(commands)@ == old(
                commands,
            )@ && handled_view(handled) == Err::<OutcomeView, Error>(Error::SchemaError),
    {
        if !Schema::KeyBindingRequest.accepts(decoded) {
            return Err(Error::SchemaError);
        }
        commands.send(
            Command {
                channel: message.channel,
                is_control: false,
                msg_type: InputMessageType::BindingResponse.to_u16(),
                body: Body::BindingResponse { status: MessageStatus::StatusOk },
                encrypted: true,
            },
        );
        Ok(Outcome::Handled)
    }
}

impl ServiceHandler for InputService {
    open spec fn expects(message: MessageView) -> Option<Schema> {
        if is_binding_request(message) {
            Some(Schema::KeyBindingRequest)
        } else {
            None
        }
    }

    open spec fn reacts(
        before: Self,
        after: Self,
        message: MessageView,
        decoded: Inbound,
        sent: Seq<CommandView>,
        handled: Result<OutcomeView, Error>,
    ) -> bool {
        if misread(Self::expects(message), decoded) {
            sent == Seq::<CommandView>::empty() && handled == Err::<OutcomeView, Error>(
                Error::SchemaError,
            )
        } else if is_binding_request(message) {
            sent == seq![binding_response(message.channel)] && handled == Ok::<OutcomeView, Error>(
                OutcomeView::Handled,
            )
        } else {
            sent == Seq::<CommandView>::empty() && handled == Ok::<OutcomeView, Error>(
                OutcomeView::Ignored,
            )
        }
    }

    fn schema_for(&self, message: &Message) -> (schema: Option<Schema>) {
        if !message.is_control && message.msg_type == InputMessageType::BindingRequest.to_u16() {
            Some(Schema::KeyBindingRequest)
        } else {
            None
        }
    }

    fn handle_message(&mut self, message: &Message, decoded: Inbound, commands: &mut Commands) -> (handled:
        Result<Outcome, Error>) {
        let ghost waiting = commands@;
        assert(commands@.take(waiting.len() as int) =~= waiting);
        assert(commands@.skip(waiting.len() as int) =~= Seq::<CommandView>::empty());
        match self.schema_for(message) {
            Some(_) => {
                let handled = self.handle_binding_request(message, decoded, commands);
                assert(commands@.take(waiting.len() as int) =~= waiting);
                proof {
                    if Schema::KeyBindingRequest.spec_accepts(decoded) {
                        assert(commands@.skip(waiting.len() as int) =~= seq![
                            binding_response(message.channel),
                        ]);
                    }
                }
                handled
            },
            None => Ok(Outcome::Ignored),
        }
    }
}

impl Service for InputService {
    open spec fn serves(&self, channel_id: u8) -> bool {
        true
    }

    open spec fn descriptor(&self, channel_id: u8) -> ServiceDescriptorView {
        input_descriptor(channel_id)
    }

    fn protobuf_descriptor(&self, channel_id: u8) -> (descriptor: ServiceDescriptor) {
        let mut keycodes_supported: Vec<KeyCode> = Vec::new();
        keycodes_supported.push(KeyCode::KeycodeDPadUp);
        keycodes_supported.push(KeyCode::KeycodeDPadDown);
        keycodes_supported.push(KeyCode::KeycodeDPadLeft);
        keycodes_supported.push(KeyCode::KeycodeDPadRight);
        keycodes_supported.push(KeyCode::KeycodeRotaryController);
        keycodes_supported.push(KeyCode::KeycodeDPadCenter);
        keycodes_supported.push(KeyCode::KeycodeHome);
        keycodes_supported.push(KeyCode::KeycodeBack);
        assert(keycodes_supported@ =~= supported_keys());
        ServiceDescriptor {
            id: channel_id as u32,
            kind: ServiceKind::InputSource { keycodes_supported },
        }
    }
}

} // verus!
