use vstd::prelude::*;
use crate::config::Config;
use crate::delivery::{CloudEventRoutingArgs, ProcessingResult};

verus! {

/// The name of one running component; its mailbox address.
pub type InternalServerId = String;

/// The local identifier of one event's journey.
pub type CloudEventMessageRoutingId = String;

/// An event that an input port received, on its way to the router.
pub struct IncomingCloudEvent {
    pub incoming_id: InternalServerId,
    pub routing_id: CloudEventMessageRoutingId,
    pub cloud_event: cloudevents::Event,
    pub args: CloudEventRoutingArgs,
}

/// An event that a router addressed to one output port.
pub struct OutgoingCloudEvent {
    pub routing_id: CloudEventMessageRoutingId,
    pub incoming_id: InternalServerId,
    pub destination_id: InternalServerId,
    pub cloud_event: cloudevents::Event,
    pub args: CloudEventRoutingArgs,
}

/// The outcome of an incoming event, addressed back to the port it came from.
pub struct IncomingCloudEventProcessed {
    pub incoming_id: InternalServerId,
    pub routing_id: CloudEventMessageRoutingId,
    pub result: ProcessingResult,
}

/// The outcome of an outgoing event, reported by the output port that sent it.
pub struct OutgoingCloudEventProcessed {
    pub sender_id: InternalServerId,
    pub routing_id: CloudEventMessageRoutingId,
    pub result: ProcessingResult,
}

/// The messages exchanged over the mailboxes of the kernel and its components.
pub enum BrokerEvent {
    Init,
    ConfigUpdated(Config),
    IncomingCloudEvent(IncomingCloudEvent),
    IncomingCloudEventProcessed(IncomingCloudEventProcessed),
    OutgoingCloudEvent(OutgoingCloudEvent),
    OutgoingCloudEventProcessed(OutgoingCloudEventProcessed),
}

} // verus!
