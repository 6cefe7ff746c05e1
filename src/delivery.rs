use vstd::prelude::*;
use crate::config::Config;

verus! {

/// The reliability requested for one event's journey.
#[derive(Clone, Copy, Debug, PartialEq, Eq, Structural)]
pub enum DeliveryGuarantee {
    Unspecified,
    BestEffort,
    AtLeastOnce,
    AtMostOnce,
    ExactlyOnce,
}

/// The terminal outcome assigned to a processed event.
#[derive(Clone, Copy, Debug, PartialEq, Eq, Structural)]
pub enum ProcessingResult {
    Successful,
    TransientError,
    PermanentError,
}

/// Routing arguments carried with an event from input port to output port.
#[derive(Clone, Copy, Debug, PartialEq, Eq, Structural)]
pub struct CloudEventRoutingArgs {
    pub delivery_guarantee: DeliveryGuarantee,
}

/// A configuration value that does not name a delivery guarantee.
#[derive(Clone, Copy, Debug, PartialEq, Eq, Structural)]
pub struct UnknownDeliveryGuarantee;

pub open spec fn spec_requires_acknowledgment(g: DeliveryGuarantee) -> bool {
    g is AtLeastOnce || g is ExactlyOnce
}

/// The guarantee that a token names, if any.
pub open spec fn guarantee_named(s: Seq<char>) -> Option<DeliveryGuarantee> {
    if s == "Unspecified"@ {
        Some(DeliveryGuarantee::Unspecified)
    } else if s == "BestEffort"@ {
        Some(DeliveryGuarantee::BestEffort)
    } else if s == "AtLeastOnce"@ {
        Some(DeliveryGuarantee::AtLeastOnce)
    } else if s == "AtMostOnce"@ {
        Some(DeliveryGuarantee::AtMostOnce)
    } else if s == "ExactlyOnce"@ {
        Some(DeliveryGuarantee::ExactlyOnce)
    } else {
        None
    }
}

/// The guarantee that a configuration value names: only a string naming one of them does.
pub open spec fn guarantee_of_config(c: Config) -> Result<DeliveryGuarantee, UnknownDeliveryGuarantee> {
    match c {
        Config::String(s) => match guarantee_named(s@) {
            Some(g) => Ok(g),
            None => Err(UnknownDeliveryGuarantee),
        },
        _ => Err(UnknownDeliveryGuarantee),
    }
}

impl DeliveryGuarantee {
    /// Whether the journey needs acknowledgment bookkeeping: at-least-once and
    /// exactly-once do, the others are fire-and-forget.
    pub fn requires_acknowledgment(&self) -> (r: bool)
        ensures
            r == spec_requires_acknowledgment(*self),
    {
        match self {
            DeliveryGuarantee::AtLeastOnce | DeliveryGuarantee::ExactlyOnce => true,
            _ => false,
        }
    }

    /// Reads a guarantee from a configuration string.
    pub fn try_from_config(config: &Config) -> (r: Result<DeliveryGuarantee, UnknownDeliveryGuarantee>)
        ensures
            r == guarantee_of_config(*config),
    {
        match config {
            Config::String(s) => {
                proof {
                    reveal_strlit("Unspecified");
                    reveal_strlit("BestEffort");
                    reveal_strlit("AtLeastOnce");
                    reveal_strlit("AtMostOnce");
                    reveal_strlit("ExactlyOnce");
                }
                if str_eq(s.as_str(), "Unspecified") {
                    Ok(DeliveryGuarantee::Unspecified)
                } else if str_eq(s.as_str(), "BestEffort") {
                    Ok(DeliveryGuarantee::BestEffort)
                } else if str_eq(s.as_str(), "AtLeastOnce") {
                    Ok(DeliveryGuarantee::AtLeastOnce)
                } else if str_eq(s.as_str(), "AtMostOnce") {
                    Ok(DeliveryGuarantee::AtMostOnce)
                } else if str_eq(s.as_str(), "ExactlyOnce") {
                    Ok(DeliveryGuarantee::ExactlyOnce)
                } else {
                    Err(UnknownDeliveryGuarantee)
                }
            },
            _ => Err(UnknownDeliveryGuarantee),
        }
    }
}

impl CloudEventRoutingArgs {
    /// Routing arguments that request no particular guarantee.
    pub fn unspecified() -> (r: CloudEventRoutingArgs)
        ensures
            r.delivery_guarantee == DeliveryGuarantee::Unspecified,
    {
        CloudEventRoutingArgs { delivery_guarantee: DeliveryGuarantee::Unspecified }
    }
}

/// Character-by-character equality of two strings.
pub fn str_eq(a: &str, b: &str) -> (r: bool)
    ensures
        r == (a@ == b@),
{
    let n = a.unicode_len();
    if n != b.unicode_len() {
        return false;
    }
    let mut i: usize = 0;
    while i < n
        invariant
            n == a@.len(),
            n == b@.len(),
            0 <= i <= n,
            forall|k: int| 0 <= k < i ==> a@[k] == b@[k],
        decreases n - i,
    {
        if a.get_char(i) != b.get_char(i) {
            return false;
        }
        i = i + 1;
    }
    assert(a@ =~= b@);
    true
}

} // verus!
