use vstd::prelude::*;
use crate::amqp::{AmqpConsumeOptions, AmqpPublishOptions, amqp_options_of, config_updated};
use crate::broker_event::{BrokerEvent, IncomingCloudEvent};
use crate::config::Config;
use crate::delivery::{DeliveryGuarantee, ProcessingResult, spec_requires_acknowledgment};
use crate::engine::{Disposition, admitted, disposition_of};
use crate::pending::PendingDelivery;
use crate::router::{fan_out, outputs_of, routed, router_step};

verus! {

/// The pending table after admitting each delivery of a sequence in turn; a
/// delivery is its identifier, its channel and its transport tag.
pub open spec fn admit_all(
    before: Map<Seq<char>, PendingDelivery>,
    deliveries: Seq<(Seq<char>, String, u64)>,
    guarantee: DeliveryGuarantee,
) -> Map<Seq<char>, PendingDelivery>
    decreases deliveries.len(),
{
    if deliveries.len() == 0 {
        before
    } else {
        let (key, channel, tag) = deliveries.last();
        admitted(admit_all(before, deliveries.drop_last(), guarantee), key, channel, tag, guarantee)
    }
}

/// The pending table after settling each identifier of a sequence in turn.
pub open spec fn settle_all(before: Map<Seq<char>, PendingDelivery>, keys: Seq<Seq<char>>) -> Map<Seq<char>, PendingDelivery>
    decreases keys.len(),
{
    if keys.len() == 0 {
        before
    } else {
        settle_all(before, keys.drop_last()).remove(keys.last())
    }
}

pub open spec fn keys_of(deliveries: Seq<(Seq<char>, String, u64)>) -> Seq<Seq<char>> {
    deliveries.map_values(|d: (Seq<char>, String, u64)| d.0)
}

proof fn lemma_admit_all_dom(deliveries: Seq<(Seq<char>, String, u64)>, guarantee: DeliveryGuarantee)
    requires
        spec_requires_acknowledgment(guarantee),
        keys_of(deliveries).no_duplicates(),
    ensures
        admit_all(Map::empty(), deliveries, guarantee).dom() == keys_of(deliveries).to_set(),
        admit_all(Map::empty(), deliveries, guarantee).dom().finite(),
        admit_all(Map::empty(), deliveries, guarantee).len() == deliveries.len(),
    decreases deliveries.len(),
{
    let keys = keys_of(deliveries);
    if deliveries.len() == 0 {
        assert(keys.to_set() =~= Set::empty());
    } else {
        let init = deliveries.drop_last();
        assert(keys_of(init) =~= keys.drop_last());
        assert(keys_of(init).no_duplicates());
        lemma_admit_all_dom(init, guarantee);
        let prev = admit_all(Map::empty(), init, guarantee);
        let k = deliveries.last().0;
        assert(keys.last() == k);
        assert(!keys_of(init).contains(k)) by {
            if keys_of(init).contains(k) {
                let j = choose|j: int| 0 <= j < keys_of(init).len() && keys_of(init)[j] == k;
                assert(keys[j] == keys[keys.len() - 1]);
            }
        }
        assert(!prev.contains_key(k));
        assert(keys.to_set() =~= keys_of(init).to_set().insert(k)) by {
            assert(keys =~= keys_of(init).push(k));
            keys_of(init).lemma_push_to_set_commute(k);
        }
    }
}

proof fn lemma_settle_all_dom(before: Map<Seq<char>, PendingDelivery>, keys: Seq<Seq<char>>)
    ensures
        settle_all(before, keys).dom() == before.dom().difference(keys.to_set()),
    decreases keys.len(),
{
    if keys.len() == 0 {
        assert(before.dom().difference(keys.to_set()) =~= before.dom());
    } else {
        lemma_settle_all_dom(before, keys.drop_last());
        assert(keys =~= keys.drop_last().push(keys.last()));
        keys.drop_last().lemma_push_to_set_commute(keys.last());
        assert(settle_all(before, keys).dom() =~= before.dom().difference(keys.to_set()));
    }
}

/// Admitting `n` deliveries with distinct identifiers under a guarantee that
/// needs acknowledgment leaves exactly `n` pending entries, and settling each
/// identifier once leaves none.
pub proof fn lemma_admission_then_settlement(deliveries: Seq<(Seq<char>, String, u64)>, guarantee: DeliveryGuarantee)
    requires
        spec_requires_acknowledgment(guarantee),
        keys_of(deliveries).no_duplicates(),
    ensures
        admit_all(Map::empty(), deliveries, guarantee).len() == deliveries.len(),
        settle_all(admit_all(Map::empty(), deliveries, guarantee), keys_of(deliveries)).len() == 0,
{
    lemma_admit_all_dom(deliveries, guarantee);
    let full = admit_all(Map::empty(), deliveries, guarantee);
    lemma_settle_all_dom(full, keys_of(deliveries));
    assert(settle_all(full, keys_of(deliveries)).dom() =~= Set::empty());
}

/// Once an identifier is settled nothing is pending under it, so settling it
/// again finds nothing and changes nothing.
pub proof fn lemma_no_double_resolution(pending: Map<Seq<char>, PendingDelivery>, key: Seq<char>)
    ensures
        !pending.remove(key).contains_key(key),
        pending.remove(key).remove(key) == pending.remove(key),
{
    assert(pending.remove(key).remove(key) =~= pending.remove(key));
}

/// A delivery admitted under a guarantee that needs no acknowledgment leaves
/// the pending table as it was.
pub proof fn lemma_no_acknowledgment_no_entry(
    pending: Map<Seq<char>, PendingDelivery>,
    key: Seq<char>,
    channel: String,
    delivery_tag: u64,
    guarantee: DeliveryGuarantee,
)
    requires
        !spec_requires_acknowledgment(guarantee),
    ensures
        admitted(pending, key, channel, delivery_tag, guarantee) == pending,
{
}

/// A transient error requeues the delivery and never acknowledges it.
pub proof fn lemma_transient_error_requeues()
    ensures
        disposition_of(ProcessingResult::TransientError) == Disposition::Requeue,
        disposition_of(ProcessingResult::TransientError) != Disposition::Acknowledge,
{
}

/// A broadcast router configured with some outputs emits, for the next
/// incoming event, exactly one outgoing event per output, addressed to it and
/// carrying the incoming event's routing arguments.
pub proof fn lemma_broadcast_fan_out(config: Config, m: IncomingCloudEvent)
    requires
        outputs_of(config) is Some,
    ensures
        ({
            let outputs = outputs_of(config)->Some_0;
            let out = routed(Seq::empty(), seq![BrokerEvent::ConfigUpdated(config), BrokerEvent::IncomingCloudEvent(m)]);
            &&& out == fan_out(m, outputs)
            &&& out.len() == outputs.len()
            &&& forall|i: int| 0 <= i < outputs.len() ==> (#[trigger] out[i] matches BrokerEvent::OutgoingCloudEvent(o)
                && o.destination_id == outputs[i] && o.args == m.args && o.routing_id == m.routing_id)
        }),
{
    let outputs = outputs_of(config)->Some_0;
    let events = seq![BrokerEvent::ConfigUpdated(config), BrokerEvent::IncomingCloudEvent(m)];
    assert(events.drop_first() =~= seq![BrokerEvent::IncomingCloudEvent(m)]);
    assert(events.drop_first().drop_first() =~= Seq::<BrokerEvent>::empty());
    assert(router_step(Seq::empty(), events[0]) == (outputs, Seq::<BrokerEvent>::empty()));
    let rest = events.drop_first();
    assert(routed(outputs, rest.drop_first()) == Seq::<BrokerEvent>::empty());
    assert(router_step(outputs, rest[0]) == (outputs, fan_out(m, outputs)));
    assert(routed(outputs, rest) == fan_out(m, outputs) + routed(outputs, rest.drop_first()));
    assert(routed(outputs, rest) =~= fan_out(m, outputs));
    assert(routed(Seq::empty(), events) =~= fan_out(m, outputs));
}

/// Two configuration updates with valid options leave the port exactly as the
/// second one alone would: its options active and no delivery of the earlier
/// connection pending.
pub proof fn lemma_config_replace(
    options: Option<(String, Seq<AmqpConsumeOptions>, Seq<AmqpPublishOptions>)>,
    pending: Map<Seq<char>, PendingDelivery>,
    first: Config,
    second: Config,
)
    requires
        amqp_options_of(second) is Ok,
    ensures
        ({
            let (o1, p1) = config_updated(options, pending, first);
            config_updated(o1, p1, second) == config_updated(options, pending, second)
        }),
        config_updated(options, pending, second) == (
            Some(amqp_options_of(second)->Ok_0),
            Map::<Seq<char>, PendingDelivery>::empty(),
        ),
{
}

} // verus!
