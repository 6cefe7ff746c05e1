use vstd::prelude::*;
use crate::broker_event::{BrokerEvent, InternalServerId};
use crate::config::Config;

verus! {

/// The component a message is forwarded to: incoming events and outgoing
/// outcomes go to the router, outgoing events to their destination, incoming
/// outcomes back to the port the event came from. Lifecycle messages are not
/// forwarded.
pub open spec fn destination_of(router_id: InternalServerId, e: BrokerEvent) -> Option<InternalServerId> {
    match e {
        BrokerEvent::IncomingCloudEvent(_) => Some(router_id),
        BrokerEvent::OutgoingCloudEvent(m) => Some(m.destination_id),
        BrokerEvent::IncomingCloudEventProcessed(m) => Some(m.incoming_id),
        BrokerEvent::OutgoingCloudEventProcessed(_) => Some(router_id),
        _ => None,
    }
}

/// Addresses a message that a component sent to the kernel.
pub fn route_message(router_id: &InternalServerId, event: BrokerEvent) -> (r: Option<(InternalServerId, BrokerEvent)>)
    ensures
        match destination_of(*router_id, event) {
            Some(d) => r == Some((d, event)),
            None => r is None,
        },
{
    let destination = match &event {
        BrokerEvent::IncomingCloudEvent(_) => router_id.clone(),
        BrokerEvent::OutgoingCloudEvent(m) => m.destination_id.clone(),
        BrokerEvent::IncomingCloudEventProcessed(m) => m.incoming_id.clone(),
        BrokerEvent::OutgoingCloudEventProcessed(_) => router_id.clone(),
        _ => return None,
    };
    Some((destination, event))
}

/// The handshake the kernel sends at startup: to each component in turn, `Init`
/// and then its own configuration.
pub open spec fn startup(components: Seq<(InternalServerId, Config)>) -> Seq<(InternalServerId, BrokerEvent)>
    decreases components.len(),
{
    if components.len() == 0 {
        seq![]
    } else {
        let (id, config) = components.last();
        startup(components.drop_last()).push((id, BrokerEvent::Init)).push(
            (id, BrokerEvent::ConfigUpdated(config)),
        )
    }
}

/// Builds the startup handshake for the configured components.
pub fn startup_messages(components: Vec<(InternalServerId, Config)>) -> (r: Vec<(InternalServerId, BrokerEvent)>)
    ensures
        r@ == startup(components@),
{
    let ghost all = components@;
    let n: usize = components.len();
    let mut rest = components;
    let mut out: Vec<(InternalServerId, BrokerEvent)> = Vec::new();
    let mut i: usize = 0;
    while rest.len() > 0
        invariant
            0 <= i <= all.len(),
            all.len() == n,
            rest@ == all.skip(i as int),
            out@ == startup(all.take(i as int)),
        decreases rest@.len(),
    {
        assert(i < all.len());
        let (id, config) = rest.remove(0);
        assert(all.take(i + 1).drop_last() =~= all.take(i as int));
        assert(all.take(i + 1).last() == all[i as int]);
        out.push((id.clone(), BrokerEvent::Init));
        out.push((id, BrokerEvent::ConfigUpdated(config)));
        assert(rest@ =~= all.skip(i + 1));
        i = i + 1;
    }
    assert(all.take(i as int) =~= all);
    out
}

} // verus!
