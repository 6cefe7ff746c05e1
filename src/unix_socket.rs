use vstd::prelude::*;
use crate::broker_event::{IncomingCloudEvent, InternalServerId};
use crate::config::Config;
use crate::delivery::{CloudEventRoutingArgs, DeliveryGuarantee};
use crate::event::{decode_event, event_key, external_event_id, get_event_id, is_cloud_event_json};

verus! {

/// The socket path in a socket port's configuration, which is a single string.
pub fn socket_path_of(config: &Config) -> (r: Option<String>)
    ensures
        match *config {
            Config::String(p) => r == Some(p),
            _ => r is None,
        },
{
    match config {
        Config::String(p) => Some(p.clone()),
        _ => None,
    }
}

/// Handles one line read from the socket: a line that holds a CloudEvent in
/// the JSON format becomes an incoming event without delivery guarantee, whose
/// identifier combines the event's id with the line's number on the
/// connection; any other line is dropped.
pub fn decode_line(id: &InternalServerId, line: &[u8], line_number: u64) -> (r: Option<IncomingCloudEvent>)
    ensures
        r is Some == is_cloud_event_json(line@),
        r matches Some(m) ==> {
            &&& exists|external_id: Seq<char>| m.routing_id@ == event_key(external_id, line_number)
            &&& m.incoming_id == *id
            &&& m.args == (CloudEventRoutingArgs { delivery_guarantee: DeliveryGuarantee::Unspecified })
        },
{
    match decode_event(line) {
        Some(cloud_event) => {
            let external_id = external_event_id(&cloud_event);
            let routing_id = get_event_id(external_id.as_str(), line_number);
            Some(
                IncomingCloudEvent {
                    incoming_id: id.clone(),
                    routing_id,
                    cloud_event,
                    args: CloudEventRoutingArgs::unspecified(),
                },
            )
        },
        None => None,
    }
}

} // verus!
