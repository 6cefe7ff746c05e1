use vstd::prelude::*;
use crate::broker_event::{BrokerEvent, IncomingCloudEvent, InternalServerId, OutgoingCloudEvent};
use crate::config::Config;
use crate::event::clone_event;
use crate::mailbox::Mailbox;

verus! {

/// The outputs a broadcast router's configuration names: a list of component
/// ids, each a string.
pub open spec fn outputs_of(c: Config) -> Option<Seq<String>> {
    match c {
        Config::Vec(v) => if forall|i: int| 0 <= i < v@.len() ==> #[trigger] v@[i] is String {
            Some(Seq::new(v@.len(), |i: int| v@[i]->String_0))
        } else {
            None
        },
        _ => None,
    }
}

/// Reads the outputs of a broadcast router from its configuration.
pub fn read_outputs(config: &Config) -> (r: Option<Vec<InternalServerId>>)
    ensures
        match (r, outputs_of(*config)) {
            (Some(v), Some(s)) => v@ == s,
            (None, None) => true,
            _ => false,
        },
{
    match config {
        Config::Vec(v) => {
            let mut out: Vec<InternalServerId> = Vec::new();
            let mut i: usize = 0;
            while i < v.len()
                invariant
                    *config == Config::Vec(*v),
                    0 <= i <= v@.len(),
                    out@.len() == i,
                    forall|k: int| 0 <= k < i ==> #[trigger] v@[k] is String && out@[k] == v@[k]->String_0,
                decreases v@.len() - i,
            {
                match &v[i] {
                    Config::String(s) => out.push(s.clone()),
                    _ => {
                        assert(!(v@[i as int] is String));
                        return None;
                    },
                }
                i = i + 1;
            }
            assert(out@ =~= Seq::new(v@.len(), |k: int| v@[k]->String_0));
            Some(out)
        },
        _ => None,
    }
}

/// The messages a broadcast router emits for one incoming event: one outgoing
/// event per output, in the order of the outputs, each with the incoming
/// event's identifier, origin, payload and routing arguments.
pub open spec fn fan_out(m: IncomingCloudEvent, outputs: Seq<String>) -> Seq<BrokerEvent> {
    Seq::new(
        outputs.len(),
        |i: int|
            BrokerEvent::OutgoingCloudEvent(
                OutgoingCloudEvent {
                    routing_id: m.routing_id,
                    incoming_id: m.incoming_id,
                    destination_id: outputs[i],
                    cloud_event: m.cloud_event,
                    args: m.args,
                },
            ),
    )
}

/// One step of a broadcast router: the outputs it keeps and the messages it emits.
/// A valid configuration replaces the outputs; an incoming event is fanned out;
/// anything else is ignored.
pub open spec fn router_step(outputs: Seq<String>, e: BrokerEvent) -> (Seq<String>, Seq<BrokerEvent>) {
    match e {
        BrokerEvent::ConfigUpdated(c) => match outputs_of(c) {
            Some(o) => (o, seq![]),
            None => (outputs, seq![]),
        },
        BrokerEvent::IncomingCloudEvent(m) => (outputs, fan_out(m, outputs)),
        _ => (outputs, seq![]),
    }
}

/// Everything a broadcast router emits for a sequence of messages.
pub open spec fn routed(outputs: Seq<String>, events: Seq<BrokerEvent>) -> Seq<BrokerEvent>
    decreases events.len(),
{
    if events.len() == 0 {
        seq![]
    } else {
        let (next, out) = router_step(outputs, events[0]);
        out + routed(next, events.drop_first())
    }
}

fn broadcast(m: &IncomingCloudEvent, outputs: &Vec<InternalServerId>, sender_to_kernel: &mut Mailbox<BrokerEvent>)
    ensures
        final(sender_to_kernel)@ == old(sender_to_kernel)@ + fan_out(*m, outputs@),
{
    let mut i: usize = 0;
    while i < outputs.len()
        invariant
            0 <= i <= outputs@.len(),
            sender_to_kernel@ == old(sender_to_kernel)@ + fan_out(*m, outputs@.take(i as int)),
        decreases outputs@.len() - i,
    {
        let out = OutgoingCloudEvent {
            routing_id: m.routing_id.clone(),
            incoming_id: m.incoming_id.clone(),
            destination_id: outputs[i].clone(),
            cloud_event: clone_event(&m.cloud_event),
            args: m.args,
        };
        let ghost before = sender_to_kernel@;
        sender_to_kernel.send(BrokerEvent::OutgoingCloudEvent(out));
        assert(fan_out(*m, outputs@.take(i + 1)) =~= fan_out(*m, outputs@.take(i as int)).push(
            BrokerEvent::OutgoingCloudEvent(out),
        ));
        assert(sender_to_kernel@ =~= old(sender_to_kernel)@ + fan_out(*m, outputs@.take(i + 1)));
        i = i + 1;
    }
    assert(outputs@.take(i as int) =~= outputs@);
}

/// Handles one message in a broadcast router whose outputs are `outputs`.
pub fn route_event(outputs: &mut Vec<InternalServerId>, event: BrokerEvent, sender_to_kernel: &mut Mailbox<BrokerEvent>)
    ensures
        (final(outputs)@, final(sender_to_kernel)@.skip(old(sender_to_kernel)@.len() as int)) == router_step(old(outputs)@, event),
        final(sender_to_kernel)@.take(old(sender_to_kernel)@.len() as int) == old(sender_to_kernel)@,
        final(sender_to_kernel)@.len() >= old(sender_to_kernel)@.len(),
{
    let ghost before = sender_to_kernel@;
    match event {
        BrokerEvent::ConfigUpdated(c) => {
            if let Some(o) = read_outputs(&c) {
                *outputs = o;
            }
        },
        BrokerEvent::IncomingCloudEvent(m) => {
            broadcast(&m, outputs, sender_to_kernel);
        },
        _ => {},
    }
    assert(sender_to_kernel@.take(before.len() as int) =~= before);
    assert(sender_to_kernel@.skip(before.len() as int) =~= router_step(old(outputs)@, event).1);
}

/// Runs a broadcast router over the messages in its inbox, in order, starting
/// with no outputs, and sends what it emits toward the kernel.
pub fn start_routing(id: InternalServerId, inbox: Mailbox<BrokerEvent>, sender_to_kernel: &mut Mailbox<BrokerEvent>)
    ensures
        final(sender_to_kernel)@ == old(sender_to_kernel)@ + routed(Seq::empty(), inbox@),
{
    let mut inbox = inbox;
    let ghost all = inbox@;
    let mut outputs: Vec<InternalServerId> = Vec::new();
    while !inbox.is_empty()
        invariant
            old(sender_to_kernel)@ + routed(Seq::empty(), all) == sender_to_kernel@ + routed(outputs@, inbox@),
        decreases inbox@.len(),
    {
        let ghost rest = inbox@;
        let ghost o = outputs@;
        let ghost s = sender_to_kernel@;
        match inbox.receive() {
            Some(event) => {
                route_event(&mut outputs, event, sender_to_kernel);
                let ghost step = router_step(o, event);
                assert(sender_to_kernel@ =~= s + step.1) by {
                    assert(sender_to_kernel@ =~= sender_to_kernel@.take(s.len() as int) + sender_to_kernel@.skip(s.len() as int));
                }
                assert(routed(o, rest) == step.1 + routed(step.0, rest.drop_first()));
                assert(s + routed(o, rest) =~= sender_to_kernel@ + routed(outputs@, inbox@));
            },
            None => {},
        }
    }
    assert(routed(outputs@, inbox@) =~= Seq::<BrokerEvent>::empty());
    assert(sender_to_kernel@ + Seq::<BrokerEvent>::empty() =~= sender_to_kernel@);
}

} // verus!
