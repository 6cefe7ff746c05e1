use vstd::prelude::*;
use crate::broker_event::{IncomingCloudEvent, InternalServerId};
use crate::delivery::{
    CloudEventRoutingArgs, DeliveryGuarantee, ProcessingResult, spec_requires_acknowledgment,
};
use crate::event::{event_key, get_event_id};
use crate::pending::{PendingDeliveries, PendingDelivery};

verus! {

/// What the transport is told to do with a settled delivery.
#[derive(Clone, Copy, Debug, PartialEq, Eq, Structural)]
pub enum Disposition {
    /// Mark the message consumed for good.
    Acknowledge,
    /// Make the message available for redelivery.
    Requeue,
    /// Reject the message without redelivery.
    Discard,
}

/// The transport action for an outcome: success acknowledges, a transient error
/// requeues, a permanent error discards.
pub open spec fn disposition_of(result: ProcessingResult) -> Disposition {
    match result {
        ProcessingResult::Successful => Disposition::Acknowledge,
        ProcessingResult::TransientError => Disposition::Requeue,
        ProcessingResult::PermanentError => Disposition::Discard,
    }
}

pub fn disposition_for(result: ProcessingResult) -> (r: Disposition)
    ensures
        r == disposition_of(result),
{
    match result {
        ProcessingResult::Successful => Disposition::Acknowledge,
        ProcessingResult::TransientError => Disposition::Requeue,
        ProcessingResult::PermanentError => Disposition::Discard,
    }
}

/// The pending table after admitting a delivery under `key`: only a guarantee
/// that needs acknowledgment records it, and a key already pending is kept.
pub open spec fn admitted(
    before: Map<Seq<char>, PendingDelivery>,
    key: Seq<char>,
    channel: String,
    delivery_tag: u64,
    guarantee: DeliveryGuarantee,
) -> Map<Seq<char>, PendingDelivery> {
    if spec_requires_acknowledgment(guarantee) && !before.contains_key(key) {
        before.insert(key, PendingDelivery { consume_channel_id: channel, delivery_tag })
    } else {
        before
    }
}

/// An admitted delivery: the message for the kernel, and whether its identifier
/// was already pending, which points to a fault upstream.
pub struct Admission {
    pub event: IncomingCloudEvent,
    pub collision: bool,
}

/// Admits one decoded delivery: derives its identifier from the event's own id
/// and the transport's tag, records it as pending when the guarantee needs
/// acknowledgment, and builds the message for the kernel.
pub fn admit_event(
    pending: &mut PendingDeliveries,
    port_id: &InternalServerId,
    channel_name: &String,
    external_id: &String,
    delivery_tag: u64,
    guarantee: DeliveryGuarantee,
    cloud_event: cloudevents::Event,
) -> (r: Admission)
    requires
        old(pending).wf(),
    ensures
        final(pending).wf(),
        r.event.routing_id@ == event_key(external_id@, delivery_tag),
        final(pending)@ == admitted(old(pending)@, r.event.routing_id@, *channel_name, delivery_tag, guarantee),
        r.collision == (spec_requires_acknowledgment(guarantee) && old(pending)@.contains_key(r.event.routing_id@)),
        r.event.incoming_id == *port_id,
        r.event.cloud_event == cloud_event,
        r.event.args == (CloudEventRoutingArgs { delivery_guarantee: guarantee }),
{
    let routing_id = get_event_id(external_id.as_str(), delivery_tag);
    let collision = if guarantee.requires_acknowledgment() {
        pending.insert(
            routing_id.clone(),
            PendingDelivery { consume_channel_id: channel_name.clone(), delivery_tag },
        )
    } else {
        false
    };
    let event = IncomingCloudEvent {
        incoming_id: port_id.clone(),
        routing_id,
        cloud_event,
        args: CloudEventRoutingArgs { delivery_guarantee: guarantee },
    };
    Admission { event, collision }
}

/// Settles the delivery pending under `routing_id`: takes it out of the table
/// and says what the transport must do with it. An identifier with no pending
/// delivery settles nothing.
pub fn settle(pending: &mut PendingDeliveries, routing_id: &String, result: ProcessingResult) -> (r:
    Option<(PendingDelivery, Disposition)>)
    requires
        old(pending).wf(),
    ensures
        final(pending).wf(),
        final(pending)@ == old(pending)@.remove(routing_id@),
        old(pending)@.contains_key(routing_id@) ==> r == Some(
            (old(pending)@[routing_id@], disposition_of(result)),
        ),
        !old(pending)@.contains_key(routing_id@) ==> r is None,
{
    match pending.remove(routing_id) {
        Some(d) => Some((d, disposition_for(result))),
        None => None,
    }
}

} // verus!
