use vstd::prelude::*;
use crate::config::{Config, config_get, lookup};
use crate::broker_event::{
    BrokerEvent, InternalServerId, OutgoingCloudEvent,
    OutgoingCloudEventProcessed,
};
use crate::delivery::{
    CloudEventRoutingArgs, DeliveryGuarantee, ProcessingResult, guarantee_of_config,
    spec_requires_acknowledgment,
};
use crate::engine::{Admission, Disposition, admit_event, admitted, disposition_of, settle};
use crate::event::{decode_event, event_key, external_event_id, is_cloud_event_json};
use crate::pending::{PendingDeliveries, PendingDelivery};

verus! {

/// One queue that the port consumes from.
#[derive(Debug)]
pub struct AmqpConsumeOptions {
    pub name: String,
    pub ensure_queue: bool,
    pub bind_to_exchange: Option<String>,
    pub delivery_guarantee: DeliveryGuarantee,
}

/// One exchange that the port publishes to.
#[derive(Debug)]
pub struct AmqpPublishOptions {
    pub name: String,
    pub ensure_exchange: bool,
    pub delivery_guarantee: DeliveryGuarantee,
}

/// The port's options: the broker's address and its channels, in the order
/// the configuration lists them.
#[derive(Debug)]
pub struct AmqpOptions {
    pub uri: String,
    pub consume_channels: Vec<AmqpConsumeOptions>,
    pub publish_channels: Vec<AmqpPublishOptions>,
}

impl View for AmqpOptions {
    type V = (String, Seq<AmqpConsumeOptions>, Seq<AmqpPublishOptions>);

    open spec fn view(&self) -> (String, Seq<AmqpConsumeOptions>, Seq<AmqpPublishOptions>) {
        (self.uri, self.consume_channels@, self.publish_channels@)
    }
}

/// Why a configuration does not describe the port's options.
#[derive(Clone, Copy, Debug, PartialEq, Eq, Structural)]
pub enum ConfigError {
    NotAMap,
    MissingUri,
    ConsumeEntryNotAMap,
    ConsumeNameMissing,
    PublishEntryNotAMap,
    PublishNameMissing,
    UnknownDeliveryGuarantee,
}

/// A boolean setting; an absent or non-boolean one is off.
pub open spec fn flag_of(entries: Seq<(String, Config)>, key: Seq<char>) -> bool {
    match lookup(entries, key) {
        Some(Config::Bool(b)) => b,
        _ => false,
    }
}

/// A string setting, if the key holds a string.
pub open spec fn text_of(entries: Seq<(String, Config)>, key: Seq<char>) -> Option<String> {
    match lookup(entries, key) {
        Some(Config::String(s)) => Some(s),
        _ => None,
    }
}

/// The `delivery_guarantee` of a channel's settings; unspecified when absent.
pub open spec fn delivery_option(entries: Seq<(String, Config)>) -> Result<DeliveryGuarantee, ConfigError> {
    match lookup(entries, "delivery_guarantee"@) {
        Some(c) => match guarantee_of_config(c) {
            Ok(g) => Ok(g),
            Err(_) => Err(ConfigError::UnknownDeliveryGuarantee),
        },
        None => Ok(DeliveryGuarantee::Unspecified),
    }
}

pub open spec fn consume_entry(c: Config) -> Result<AmqpConsumeOptions, ConfigError> {
    match c {
        Config::HashMap(e) => match delivery_option(e@) {
            Err(x) => Err(x),
            Ok(g) => match text_of(e@, "name"@) {
                Some(n) => Ok(
                    (AmqpConsumeOptions {
                        name: n,
                        ensure_queue: flag_of(e@, "ensure_queue"@),
                        bind_to_exchange: text_of(e@, "bind_to_exchange"@),
                        delivery_guarantee: g,
                    }),
                ),
                None => Err(ConfigError::ConsumeNameMissing),
            },
        },
        _ => Err(ConfigError::ConsumeEntryNotAMap),
    }
}

pub open spec fn publish_entry(c: Config) -> Result<AmqpPublishOptions, ConfigError> {
    match c {
        Config::HashMap(e) => match delivery_option(e@) {
            Err(x) => Err(x),
            Ok(g) => match text_of(e@, "name"@) {
                Some(n) => Ok(
                    (AmqpPublishOptions {
                        name: n,
                        ensure_exchange: flag_of(e@, "ensure_exchange"@),
                        delivery_guarantee: g,
                    }),
                ),
                None => Err(ConfigError::PublishNameMissing),
            },
        },
        _ => Err(ConfigError::PublishEntryNotAMap),
    }
}

/// Every entry of a `consume_channels` list, or the first entry's error.
pub open spec fn consume_list(s: Seq<Config>) -> Result<Seq<AmqpConsumeOptions>, ConfigError>
    decreases s.len(),
{
    if s.len() == 0 {
        Ok(seq![])
    } else {
        match consume_entry(s[0]) {
            Err(x) => Err(x),
            Ok(o) => match consume_list(s.drop_first()) {
                Err(x) => Err(x),
                Ok(rest) => Ok(seq![o] + rest),
            },
        }
    }
}

/// Every entry of a `publish_channels` list, or the first entry's error.
pub open spec fn publish_list(s: Seq<Config>) -> Result<Seq<AmqpPublishOptions>, ConfigError>
    decreases s.len(),
{
    if s.len() == 0 {
        Ok(seq![])
    } else {
        match publish_entry(s[0]) {
            Err(x) => Err(x),
            Ok(o) => match publish_list(s.drop_first()) {
                Err(x) => Err(x),
                Ok(rest) => Ok(seq![o] + rest),
            },
        }
    }
}

pub open spec fn consume_channels_of(e: Seq<(String, Config)>) -> Result<Seq<AmqpConsumeOptions>, ConfigError> {
    match lookup(e, "consume_channels"@) {
        Some(Config::Vec(v)) => consume_list(v@),
        _ => Ok(seq![]),
    }
}

pub open spec fn publish_channels_of(e: Seq<(String, Config)>) -> Result<Seq<AmqpPublishOptions>, ConfigError> {
    match lookup(e, "publish_channels"@) {
        Some(Config::Vec(v)) => publish_list(v@),
        _ => Ok(seq![]),
    }
}

/// The options a configuration describes: a map with a string `uri` and
/// optional lists of consume and publish channels.
pub open spec fn amqp_options_of(c: Config) -> Result<(String, Seq<AmqpConsumeOptions>, Seq<AmqpPublishOptions>), ConfigError> {
    match c {
        Config::HashMap(e) => match text_of(e@, "uri"@) {
            None => Err(ConfigError::MissingUri),
            Some(uri) => match consume_channels_of(e@) {
                Err(x) => Err(x),
                Ok(cs) => match publish_channels_of(e@) {
                    Err(x) => Err(x),
                    Ok(ps) => Ok((uri, cs, ps)),
                },
            },
        },
        _ => Err(ConfigError::NotAMap),
    }
}

fn get_flag(entries: &Vec<(String, Config)>, key: &str) -> (r: bool)
    ensures
        r == flag_of(entries@, key@),
{
    match config_get(entries, &String::from_str(key)) {
        Some(Config::Bool(b)) => *b,
        _ => false,
    }
}

fn get_text(entries: &Vec<(String, Config)>, key: &str) -> (r: Option<String>)
    ensures
        r == text_of(entries@, key@),
{
    match config_get(entries, &String::from_str(key)) {
        Some(Config::String(s)) => Some(s.clone()),
        _ => None,
    }
}

/// Reads the `delivery_guarantee` of one channel's settings.
pub fn try_get_delivery_option(config: &Vec<(String, Config)>) -> (r: Result<DeliveryGuarantee, ConfigError>)
    ensures
        r == delivery_option(config@),
{
    match config_get(config, &String::from_str("delivery_guarantee")) {
        Some(c) => match DeliveryGuarantee::try_from_config(c) {
            Ok(g) => Ok(g),
            Err(_) => Err(ConfigError::UnknownDeliveryGuarantee),
        },
        None => Ok(DeliveryGuarantee::Unspecified),
    }
}

fn build_consume_entry(c: &Config) -> (r: Result<AmqpConsumeOptions, ConfigError>)
    ensures
        r == consume_entry(*c),
{
    match c {
        Config::HashMap(e) => {
            let g = match try_get_delivery_option(e) {
                Ok(g) => g,
                Err(x) => return Err(x),
            };
            match get_text(e, "name") {
                Some(name) => Ok(
                    AmqpConsumeOptions {
                        name,
                        ensure_queue: get_flag(e, "ensure_queue"),
                        bind_to_exchange: get_text(e, "bind_to_exchange"),
                        delivery_guarantee: g,
                    },
                ),
                None => Err(ConfigError::ConsumeNameMissing),
            }
        },
        _ => Err(ConfigError::ConsumeEntryNotAMap),
    }
}

fn build_publish_entry(c: &Config) -> (r: Result<AmqpPublishOptions, ConfigError>)
    ensures
        r == publish_entry(*c),
{
    match c {
        Config::HashMap(e) => {
            let g = match try_get_delivery_option(e) {
                Ok(g) => g,
                Err(x) => return Err(x),
            };
            match get_text(e, "name") {
                Some(name) => Ok(
                    AmqpPublishOptions {
                        name,
                        ensure_exchange: get_flag(e, "ensure_exchange"),
                        delivery_guarantee: g,
                    },
                ),
                None => Err(ConfigError::PublishNameMissing),
            }
        },
        _ => Err(ConfigError::PublishEntryNotAMap),
    }
}

fn build_consume_channels(list: &Vec<Config>) -> (r: Result<Vec<AmqpConsumeOptions>, ConfigError>)
    ensures
        match (r, consume_list(list@)) {
            (Ok(v), Ok(s)) => v@ == s,
            (Err(a), Err(b)) => a == b,
            _ => false,
        },
{
    let mut out: Vec<AmqpConsumeOptions> = Vec::new();
    let mut i: usize = 0;
    assert(list@.subrange(0, list@.len() as int) =~= list@);
    while i < list.len()
        invariant
            0 <= i <= list@.len(),
            consume_list(list@) == match consume_list(list@.subrange(i as int, list@.len() as int)) {
                Ok(rest) => Ok(out@ + rest),
                Err(x) => Err::<Seq<AmqpConsumeOptions>, ConfigError>(x),
            },
        decreases list@.len() - i,
    {
        let ghost rest = list@.subrange(i as int, list@.len() as int);
        assert(rest.drop_first() =~= list@.subrange(i + 1, list@.len() as int));
        let o = match build_consume_entry(&list[i]) {
            Ok(o) => o,
            Err(x) => return Err(x),
        };
        let ghost before = out@;
        out.push(o);
        proof {
            match consume_list(rest.drop_first()) {
                Ok(tail) => assert(before + (seq![o] + tail) =~= out@ + tail),
                Err(_) => {},
            }
        }
        i = i + 1;
    }
    assert(list@.subrange(i as int, list@.len() as int) =~= Seq::<Config>::empty());
    assert(out@ + Seq::<AmqpConsumeOptions>::empty() =~= out@);
    Ok(out)
}

fn build_publish_channels(list: &Vec<Config>) -> (r: Result<Vec<AmqpPublishOptions>, ConfigError>)
    ensures
        match (r, publish_list(list@)) {
            (Ok(v), Ok(s)) => v@ == s,
            (Err(a), Err(b)) => a == b,
            _ => false,
        },
{
    let mut out: Vec<AmqpPublishOptions> = Vec::new();
    let mut i: usize = 0;
    assert(list@.subrange(0, list@.len() as int) =~= list@);
    while i < list.len()
        invariant
            0 <= i <= list@.len(),
            publish_list(list@) == match publish_list(list@.subrange(i as int, list@.len() as int)) {
                Ok(rest) => Ok(out@ + rest),
                Err(x) => Err::<Seq<AmqpPublishOptions>, ConfigError>(x),
            },
        decreases list@.len() - i,
    {
        let ghost rest = list@.subrange(i as int, list@.len() as int);
        assert(rest.drop_first() =~= list@.subrange(i + 1, list@.len() as int));
        let o = match build_publish_entry(&list[i]) {
            Ok(o) => o,
            Err(x) => return Err(x),
        };
        let ghost before = out@;
        out.push(o);
        proof {
            match publish_list(rest.drop_first()) {
                Ok(tail) => assert(before + (seq![o] + tail) =~= out@ + tail),
                Err(_) => {},
            }
        }
        i = i + 1;
    }
    assert(list@.subrange(i as int, list@.len() as int) =~= Seq::<Config>::empty());
    assert(out@ + Seq::<AmqpPublishOptions>::empty() =~= out@);
    Ok(out)
}

/// Reads the port's options from its configuration.
pub fn build_config(config: &Config) -> (r: Result<AmqpOptions, ConfigError>)
    ensures
        match (r, amqp_options_of(*config)) {
            (Ok(o), Ok(m)) => o@ == m,
            (Err(a), Err(b)) => a == b,
            _ => false,
        },
{
    match config {
        Config::HashMap(e) => {
            let uri = match get_text(e, "uri") {
                Some(u) => u,
                None => return Err(ConfigError::MissingUri),
            };
            let consume_channels = match config_get(e, &String::from_str("consume_channels")) {
                Some(Config::Vec(v)) => match build_consume_channels(v) {
                    Ok(cs) => cs,
                    Err(x) => return Err(x),
                },
                _ => Vec::new(),
            };
            let publish_channels = match config_get(e, &String::from_str("publish_channels")) {
                Some(Config::Vec(v)) => match build_publish_channels(v) {
                    Ok(ps) => ps,
                    Err(x) => return Err(x),
                },
                _ => Vec::new(),
            };
            Ok(AmqpOptions { uri, consume_channels, publish_channels })
        },
        _ => Err(ConfigError::NotAMap),
    }
}

/// A payload that is not a CloudEvent in the JSON format; it is dropped.
#[derive(Clone, Copy, Debug, PartialEq, Eq, Structural)]
pub struct MalformedPayload;

/// Handles one message consumed from the queue `name`: decodes the payload,
/// admits it under the queue's guarantee and builds the message for the kernel.
/// A malformed payload leaves the pending table as it was.
pub fn receive_message(
    name: &String,
    id: &InternalServerId,
    pending: &mut PendingDeliveries,
    payload: &[u8],
    delivery_tag: u64,
    delivery_guarantee: DeliveryGuarantee,
) -> (r: Result<Admission, MalformedPayload>)
    requires
        old(pending).wf(),
    ensures
        final(pending).wf(),
        r is Ok == is_cloud_event_json(payload@),
        r is Err ==> final(pending)@ == old(pending)@,
        r matches Ok(a) ==> a.collision == (spec_requires_acknowledgment(delivery_guarantee)
            && old(pending)@.contains_key(a.event.routing_id@)),
        r matches Ok(a) ==> {
            let m = a.event;
            &&& exists|external_id: Seq<char>| m.routing_id@ == event_key(external_id, delivery_tag)
            &&& final(pending)@ == admitted(old(pending)@, m.routing_id@, *name, delivery_tag, delivery_guarantee)
            &&& m.incoming_id == *id
            &&& m.args == (CloudEventRoutingArgs { delivery_guarantee })
        },
{
    match decode_event(payload) {
        Some(cloud_event) => {
            let external_id = external_event_id(&cloud_event);
            Ok(admit_event(pending, id, name, &external_id, delivery_tag, delivery_guarantee, cloud_event))
        },
        None => Err(MalformedPayload),
    }
}

/// The broker operation that settles one consumed message.
#[derive(Debug)]
pub struct TransportAction {
    pub consume_channel_id: String,
    pub delivery_tag: u64,
    pub disposition: Disposition,
}

/// Why an outcome could not be turned into a broker operation.
#[derive(Clone, Copy, Debug, PartialEq, Eq, Structural)]
pub enum SettleError {
    /// No delivery is pending under the identifier: it was settled already or
    /// dropped by a reconnect.
    UnknownDelivery,
    /// The port has no active connection.
    NotConfigured,
    /// The delivery's queue is not among the active consume channels.
    UnknownChannel,
}

pub open spec fn consumes_from(consume: Seq<AmqpConsumeOptions>, name: Seq<char>) -> bool {
    exists|i: int| 0 <= i < consume.len() && consume[i].name@ == name
}

fn has_consume_channel(options: &AmqpOptions, name: &String) -> (r: bool)
    ensures
        r == consumes_from(options.consume_channels@, name@),
{
    let mut i: usize = 0;
    while i < options.consume_channels.len()
        invariant
            0 <= i <= options.consume_channels@.len(),
            forall|k: int| 0 <= k < i ==> options.consume_channels@[k].name@ != name@,
        decreases options.consume_channels@.len() - i,
    {
        if options.consume_channels[i].name == *name {
            return true;
        }
        i = i + 1;
    }
    false
}

/// Handles an outcome for an event that this port admitted. The pending
/// delivery is taken out of the table whatever follows, so an identifier is
/// acted on at most once; the broker operation names its queue and tag, and
/// acknowledges, requeues or discards as the outcome says.
pub fn ack_nack_pending_event(
    configuration_option: &Option<AmqpOptions>,
    pending_deliveries: &mut PendingDeliveries,
    event_id: &String,
    result: ProcessingResult,
) -> (r: Result<TransportAction, SettleError>)
    requires
        old(pending_deliveries).wf(),
    ensures
        final(pending_deliveries).wf(),
        final(pending_deliveries)@ == old(pending_deliveries)@.remove(event_id@),
        !old(pending_deliveries)@.contains_key(event_id@) ==> r == Err::<TransportAction, SettleError>(
            SettleError::UnknownDelivery,
        ),
        old(pending_deliveries)@.contains_key(event_id@) ==> {
            let d = old(pending_deliveries)@[event_id@];
            match configuration_option {
                None => r == Err::<TransportAction, SettleError>(SettleError::NotConfigured),
                Some(o) => if consumes_from(o.consume_channels@, d.consume_channel_id@) {
                    r matches Ok(a) && a.consume_channel_id == d.consume_channel_id
                        && a.delivery_tag == d.delivery_tag && a.disposition == disposition_of(result)
                } else {
                    r == Err::<TransportAction, SettleError>(SettleError::UnknownChannel)
                },
            }
        },
{
    let (delivery, disposition) = match settle(pending_deliveries, event_id, result) {
        Some(s) => s,
        None => return Err(SettleError::UnknownDelivery),
    };
    let options = match configuration_option {
        Some(o) => o,
        None => return Err(SettleError::NotConfigured),
    };
    if !has_consume_channel(options, &delivery.consume_channel_id) {
        return Err(SettleError::UnknownChannel);
    }
    Ok(TransportAction {
        consume_channel_id: delivery.consume_channel_id,
        delivery_tag: delivery.delivery_tag,
        disposition,
    })
}

/// What became of publishing an event on one exchange.
#[derive(Clone, Copy, Debug, PartialEq, Eq, Structural)]
pub enum PublishReport {
    /// The exchange's channel is not open.
    ChannelClosed,
    /// The broker did not accept the message.
    NotSent,
    /// The broker accepted the message; `acked` tells whether it confirmed it.
    Sent { acked: bool },
}

pub open spec fn spec_publish_confirmed(guarantee: DeliveryGuarantee, report: PublishReport) -> bool {
    match report {
        PublishReport::Sent { acked } => !spec_requires_acknowledgment(guarantee) || acked,
        _ => false,
    }
}

/// Whether a publish on an exchange counts as delivered: the message was sent,
/// and confirmed by the broker where the exchange's guarantee needs acknowledgment.
pub fn publish_confirmed(options: &AmqpPublishOptions, report: PublishReport) -> (r: bool)
    ensures
        r == spec_publish_confirmed(options.delivery_guarantee, report),
{
    match report {
        PublishReport::Sent { acked } => !options.delivery_guarantee.requires_acknowledgment() || acked,
        _ => false,
    }
}

/// The report to the kernel on an outgoing event: sent only where the event's
/// guarantee needs acknowledgment, successful only if every exchange confirmed.
pub fn send_cloud_event_result(
    id: &InternalServerId,
    event: &OutgoingCloudEvent,
    all_confirmed: bool,
) -> (r: Option<BrokerEvent>)
    ensures
        r is Some == spec_requires_acknowledgment(event.args.delivery_guarantee),
        r matches Some(m) ==> m == BrokerEvent::OutgoingCloudEventProcessed(
            OutgoingCloudEventProcessed {
                sender_id: *id,
                routing_id: event.routing_id,
                result: if all_confirmed {
                    ProcessingResult::Successful
                } else {
                    ProcessingResult::TransientError
                },
            },
        ),
{
    if event.args.delivery_guarantee.requires_acknowledgment() {
        let result = if all_confirmed {
            ProcessingResult::Successful
        } else {
            ProcessingResult::TransientError
        };
        Some(
            BrokerEvent::OutgoingCloudEventProcessed(
                OutgoingCloudEventProcessed {
                    sender_id: id.clone(),
                    routing_id: event.routing_id.clone(),
                    result,
                },
            ),
        )
    } else {
        None
    }
}

pub open spec fn options_view(o: Option<AmqpOptions>) -> Option<(String, Seq<AmqpConsumeOptions>, Seq<AmqpPublishOptions>)> {
    match o {
        Some(x) => Some(x@),
        None => None,
    }
}

/// The port's active options and pending table after a configuration update:
/// valid options replace the active ones and drop every pending delivery,
/// whose handles belonged to the connection being replaced; an invalid
/// configuration changes nothing.
pub open spec fn config_updated(
    options: Option<(String, Seq<AmqpConsumeOptions>, Seq<AmqpPublishOptions>)>,
    pending: Map<Seq<char>, PendingDelivery>,
    config: Config,
) -> (Option<(String, Seq<AmqpConsumeOptions>, Seq<AmqpPublishOptions>)>, Map<Seq<char>, PendingDelivery>) {
    match amqp_options_of(config) {
        Ok(o) => (Some(o), Map::empty()),
        Err(_) => (options, pending),
    }
}

/// Applies a configuration update to the port's state.
pub fn apply_config_update(
    options: &mut Option<AmqpOptions>,
    pending: &mut PendingDeliveries,
    config: &Config,
) -> (r: Result<(), ConfigError>)
    requires
        old(pending).wf(),
    ensures
        final(pending).wf(),
        (options_view(*final(options)), final(pending)@) == config_updated(
            options_view(*old(options)),
            old(pending)@,
            *config,
        ),
        r is Ok == amqp_options_of(*config) is Ok,
        r matches Err(e) ==> amqp_options_of(*config) == Err::<(String, Seq<AmqpConsumeOptions>, Seq<AmqpPublishOptions>), ConfigError>(e),
{
    match build_config(config) {
        Ok(o) => {
            *options = Some(o);
            pending.clear();
            Ok(())
        },
        Err(e) => Err(e),
    }
}

/// Marks the port as not connected: the active options and every pending
/// delivery are dropped.
pub fn connection_lost(options: &mut Option<AmqpOptions>, pending: &mut PendingDeliveries)
    ensures
        final(pending).wf(),
        *final(options) is None,
        final(pending)@ == Map::<Seq<char>, PendingDelivery>::empty(),
{
    *options = None;
    pending.clear();
}

/// The exchange a declared queue is bound to: only a queue that the port
/// declares itself is bound.
pub fn queue_binding(options: &AmqpConsumeOptions) -> (r: Option<String>)
    ensures
        r == (if options.ensure_queue { options.bind_to_exchange } else { None::<String> }),
{
    if options.ensure_queue {
        match &options.bind_to_exchange {
            Some(e) => Some(e.clone()),
            None => None,
        }
    } else {
        None
    }
}

} // verus!
