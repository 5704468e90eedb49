use crate::commands::{reply, Command, CommandView, Commands};
use crate::error::Error;
use crate::message::{Message, MessageView, SensorsMessageType};
use crate::schema::{
    Body, BodyView, DrivingStatus, Inbound, MessageStatus, Schema, SensorType, ServiceDescriptor,
    ServiceDescriptorView, ServiceKind, ServiceKindView,
};
use crate::service::{handled_view, misread, Outcome, OutcomeView, Service, ServiceHandler};
use vstd::prelude::*;

verus! {

/// The channel of the sensor source.
pub const SENSOR_CHANNEL: u8 = 1;

/// The sensor source: it offers the driving status.
#[derive(Debug)]
pub struct SensorService {}

/// What the sensor source publishes of itself.
pub open spec fn sensor_descriptor(channel_id: u8) -> ServiceDescriptorView {
    ServiceDescriptorView {
        id: channel_id as u32,
        kind: ServiceKindView::SensorSource { sensor: SensorType::DrivingStatus },
    }
}

/// The answers to a start request: the response, then at once one batch that
/// tells that the driver is not restricted.
pub open spec fn sensor_start_replies(channel: u8) -> Seq<CommandView> {
    seq![
        reply(
            channel,
            SensorsMessageType::StartResponse.spec_to_u16(),
            BodyView::SensorStartResponse { status: MessageStatus::StatusOk },
        ),
        reply(
            channel,
            SensorsMessageType::Event.spec_to_u16(),
            BodyView::SensorBatch { driving_status: DrivingStatus::Unrestricted },
        ),
    ]
}

/// Whether a message is a start request for the sensor source.
pub open spec fn is_sensor_start(message: MessageView) -> bool {
    !message.is_control && message.msg_type == SensorsMessageType::StartRequest.spec_to_u16()
}

impl SensorService {
    pub fn new() -> (service: Self) {
        SensorService {  }
    }

    /// Takes in a start request with the reading of its payload. A request
    /// that decoded is answered with two commands for its channel: the
    /// response, then one batch of sensor data. A request that did not decode
    /// is dropped: nothing is queued.
    pub fn handle_sensor_start_request(
        &mut self,
        message: &Message,
        decoded: Inbound,
        commands: &mut Commands,
    ) -> (handled: Result<Outcome, Error>)
        ensures
            Schema::SensorRequest.spec_accepts(decoded) ==> final(commands)@ == old(commands)@
                + sensor_start_replies(message.channel) && handled_view(handled) == Ok::<
                OutcomeView,
                Error,
            >(OutcomeView::Handled),
            !Schema::SensorRequest.spec_accepts(decoded) ==> final(commands)@ == old(commands)@
                && handled_view(handled) == Err::<OutcomeView, Error>(Error::SchemaError),
    {
        if !Schema::SensorRequest.accepts(decoded) {
            return Err(Error::SchemaError);
        }
        commands.send(
            Command {
                channel: message.channel,
                is_control: false,
                msg_type: SensorsMessageType::StartResponse.to_u16(),
                body: Body::SensorStartResponse { status: MessageStatus::StatusOk },
                encrypted: true,
            },
        );
        commands.send(
            Command {
                channel: message.channel,
                is_control: false,
                msg_type: SensorsMessageType::Event.to_u16(),
                body: Body::SensorBatch { driving_status: DrivingStatus::Unrestricted },
                encrypted: true,
            },
        );
        assert(commands@ =~= old(commands)@ + sensor_start_replies(message.channel));
        Ok(Outcome::Handled)
    }
}

impl ServiceHandler for SensorService {
    open spec fn expects(message: MessageView) -> Option<Schema> {
        if is_sensor_start(message) {
            Some(Schema::SensorRequest)
        } else {
            None
        }
    }

    open spec fn reacts(
        before: Self,
        after: Self,
        message: MessageView,
        decoded: Inbound,
        sent: Seq<CommandView>,
        handled: Result<OutcomeView, Error>,
    ) -> bool {
        if misread(Self::expects(message), decoded) {
            sent == Seq::<CommandView>::empty() && handled == Err::<OutcomeView, Error>(
                Error::SchemaError,
            )
        } else if is_sensor_start(message) {
            sent == sensor_start_replies(message.channel) && handled == Ok::<OutcomeView, Error>(
                OutcomeView::Handled,
            )
        } else {
            sent == Seq::<CommandView>::empty() && handled == Ok::<OutcomeView, Error>(
                OutcomeView::Ignored,
            )
        }
    }

    fn schema_for(&self, message: &Message) -> (schema: Option<Schema>) {
        if !message.is_control && message.msg_type == SensorsMessageType::StartRequest.to_u16() {
            Some(Schema::SensorRequest)
        } else {
            None
        }
    }

    fn handle_message(&mut self, message: &Message, decoded: Inbound, commands: &mut Commands) -> (handled:
        Result<Outcome, Error>) {
        let ghost waiting = commands@;
        assert(commands@.take(waiting.len() as int) =~= waiting);
        assert(commands@.skip(waiting.len() as int) =~= Seq::<CommandView>::empty());
        match self.schema_for(message) {
            Some(_) => {
                let handled = self.handle_sensor_start_request(message, decoded, commands);
                assert(commands@.take(waiting.len() as int) =~= waiting);
                proof {
                    if Schema::SensorRequest.spec_accepts(decoded) {
                        assert(commands@.skip(waiting.len() as int) =~= sensor_start_replies(
                            message.channel,
                        ));
                    }
                }
                handled
            },
            None => Ok(Outcome::Ignored),
        }
    }
}

impl Service for SensorService {
    open spec fn serves(&self, channel_id: u8) -> bool {
        true
    }

    open spec fn descriptor(&self, channel_id: u8) -> ServiceDescriptorView {
        sensor_descriptor(channel_id)
    }

    fn protobuf_descriptor(&self, channel_id: u8) -> (descriptor: ServiceDescriptor) {
        ServiceDescriptor {
            id: channel_id as u32,
            kind: ServiceKind::SensorSource { sensor: SensorType::DrivingStatus },
        }
    }
}

} // verus!
