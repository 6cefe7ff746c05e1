use vstd::prelude::*;
use cloudevents::AttributesReader;

verus! {

#[verifier::external_type_specification]
#[verifier::external_body]
pub struct ExEvent(cloudevents::Event);

/// Whether a payload is a JSON document that decodes to a CloudEvent.
pub uninterp spec fn is_cloud_event_json(payload: Seq<u8>) -> bool;

/// Relies on `serde_json::from_slice::<cloudevents::Event>`: decoding succeeds on
/// exactly the payloads that are a CloudEvent in the JSON format, the same on every call.
#[verifier::external_body]
pub(crate) fn decode_event(payload: &[u8]) -> (r: Option<cloudevents::Event>)
    ensures
        r is Some == is_cloud_event_json(payload@),
{
    serde_json::from_slice::<cloudevents::Event>(payload).ok()
}

/// Relies on `AttributesReader::id` of `cloudevents::Event`: a copy of the event's `id` attribute.
#[verifier::external_body]
pub(crate) fn external_event_id(event: &cloudevents::Event) -> (r: String) {
    event.id().to_string()
}

/// Relies on the derived `Clone` of `cloudevents::Event`, which copies every field.
#[verifier::external_body]
pub(crate) fn clone_event(event: &cloudevents::Event) -> (r: cloudevents::Event)
    ensures
        r == *event,
{
    event.clone()
}

pub open spec fn digit_char(d: nat) -> char {
    if d == 0 { '0' }
    else if d == 1 { '1' }
    else if d == 2 { '2' }
    else if d == 3 { '3' }
    else if d == 4 { '4' }
    else if d == 5 { '5' }
    else if d == 6 { '6' }
    else if d == 7 { '7' }
    else if d == 8 { '8' }
    else { '9' }
}

/// The decimal notation of `n`, without leading zeros.
pub open spec fn decimal(n: nat) -> Seq<char>
    decreases n,
{
    if n < 10 {
        seq![digit_char(n)]
    } else {
        decimal(n / 10).push(digit_char(n % 10))
    }
}

/// The local identifier of a delivery: the event's own id, two dashes, and the
/// transport's sequence number of the delivery.
pub open spec fn event_key(external_id: Seq<char>, sequence: u64) -> Seq<char> {
    external_id + "--"@ + decimal(sequence as nat)
}

fn digit_str(d: u64) -> (r: &'static str)
    requires
        d < 10,
    ensures
        r@ == seq![digit_char(d as nat)],
{
    proof {
        reveal_strlit("0");
        reveal_strlit("1");
        reveal_strlit("2");
        reveal_strlit("3");
        reveal_strlit("4");
        reveal_strlit("5");
        reveal_strlit("6");
        reveal_strlit("7");
        reveal_strlit("8");
        reveal_strlit("9");
    }
    match d {
        0 => "0",
        1 => "1",
        2 => "2",
        3 => "3",
        4 => "4",
        5 => "5",
        6 => "6",
        7 => "7",
        8 => "8",
        _ => "9",
    }
}

/// Appends the decimal notation of `n` to `out`.
pub fn push_decimal(out: &mut String, n: u64)
    ensures
        final(out)@ == old(out)@ + decimal(n as nat),
    decreases n,
{
    if n < 10 {
        out.append(digit_str(n));
    } else {
        push_decimal(out, n / 10);
        out.append(digit_str(n % 10));
        assert(decimal(n as nat) == decimal((n / 10) as nat).push(digit_char((n % 10) as nat)));
        assert(final(out)@ =~= old(out)@ + decimal(n as nat));
    }
}

/// Derives the local identifier of a delivery from the event's own id and the
/// transport's sequence number, so that two deliveries of events that share an
/// id do not collide.
pub fn get_event_id(external_id: &str, delivery_tag: u64) -> (r: String)
    ensures
        r@ == event_key(external_id@, delivery_tag),
{
    let mut out = String::from_str(external_id);
    out.append("--");
    push_decimal(&mut out, delivery_tag);
    out
}

} // verus!
