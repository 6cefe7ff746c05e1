use cerk::amqp::{
    ack_nack_pending_event, apply_config_update, build_config, publish_confirmed, queue_binding,
    receive_message, send_cloud_event_result, try_get_delivery_option, AmqpOptions,
    AmqpPublishOptions, ConfigError, PublishReport, SettleError,
};
use cerk::broker_event::{BrokerEvent, OutgoingCloudEvent};
use cerk::config::{config_get, Config};
use cerk::delivery::{CloudEventRoutingArgs, DeliveryGuarantee, ProcessingResult};
use cerk::engine::Disposition;
use cerk::event::get_event_id;
use cerk::pending::{PendingDeliveries, PendingDelivery};
use cloudevents::{EventBuilder, EventBuilderV10};

fn s(x: &str) -> String {
    x.to_string()
}

fn payload(id: &str) -> Vec<u8> {
    format!(
        "{{\"specversion\":\"1.0\",\"id\":\"{}\",\"source\":\"http://example.com\",\"type\":\"example.test\"}}",
        id
    )
    .into_bytes()
}

fn channel(name: &str, guarantee: &str, extra: Vec<(String, Config)>) -> Config {
    let mut entries = vec![
        (s("name"), Config::String(s(name))),
        (s("delivery_guarantee"), Config::String(s(guarantee))),
    ];
    entries.extend(extra);
    Config::HashMap(entries)
}

fn amqp_config(consume: Vec<Config>, publish: Vec<Config>) -> Config {
    Config::HashMap(vec![
        (s("uri"), Config::String(s("amqp://127.0.0.1:5672/%2f"))),
        (s("consume_channels"), Config::Vec(consume)),
        (s("publish_channels"), Config::Vec(publish)),
    ])
}

fn options_with_queue(name: &str) -> Option<AmqpOptions> {
    Some(build_config(&amqp_config(vec![channel(name, "AtLeastOnce", vec![])], vec![])).unwrap())
}

fn sample_event(id: &str) -> cloudevents::Event {
    EventBuilderV10::new()
        .id(id)
        .source("http://example.com")
        .ty("example.test")
        .build()
        .unwrap()
}

#[test]
fn event_id_joins_external_id_and_sequence() {
    assert_eq!(get_event_id("abc", 42), "abc--42");
    assert_eq!(get_event_id("x", 0), "x--0");
    assert_eq!(get_event_id("", 1234567890), "--1234567890");
    assert_eq!(get_event_id("e", u64::MAX), "e--18446744073709551615");
}

#[test]
fn guarantee_tokens_parse() {
    let cases = [
        ("Unspecified", DeliveryGuarantee::Unspecified),
        ("BestEffort", DeliveryGuarantee::BestEffort),
        ("AtLeastOnce", DeliveryGuarantee::AtLeastOnce),
        ("AtMostOnce", DeliveryGuarantee::AtMostOnce),
        ("ExactlyOnce", DeliveryGuarantee::ExactlyOnce),
    ];
    for (token, g) in cases {
        assert_eq!(DeliveryGuarantee::try_from_config(&Config::String(s(token))), Ok(g));
    }
    assert!(DeliveryGuarantee::try_from_config(&Config::String(s("atleastonce"))).is_err());
    assert!(DeliveryGuarantee::try_from_config(&Config::Bool(true)).is_err());
}

#[test]
fn only_at_least_once_and_exactly_once_require_acknowledgment() {
    assert!(DeliveryGuarantee::AtLeastOnce.requires_acknowledgment());
    assert!(DeliveryGuarantee::ExactlyOnce.requires_acknowledgment());
    assert!(!DeliveryGuarantee::Unspecified.requires_acknowledgment());
    assert!(!DeliveryGuarantee::BestEffort.requires_acknowledgment());
    assert!(!DeliveryGuarantee::AtMostOnce.requires_acknowledgment());
}

#[test]
fn config_get_finds_first_entry() {
    let entries = vec![
        (s("a"), Config::Int(1)),
        (s("b"), Config::Int(2)),
        (s("a"), Config::Int(3)),
    ];
    assert!(matches!(config_get(&entries, &s("a")), Some(Config::Int(1))));
    assert!(matches!(config_get(&entries, &s("b")), Some(Config::Int(2))));
    assert!(config_get(&entries, &s("c")).is_none());
}

#[test]
fn delivery_option_defaults_to_unspecified() {
    assert_eq!(try_get_delivery_option(&vec![]), Ok(DeliveryGuarantee::Unspecified));
    let bad = vec![(s("delivery_guarantee"), Config::String(s("Never")))];
    assert_eq!(try_get_delivery_option(&bad), Err(ConfigError::UnknownDeliveryGuarantee));
}

#[test]
fn build_config_reads_all_channels() {
    let config = amqp_config(
        vec![
            channel(
                "q1",
                "AtLeastOnce",
                vec![
                    (s("ensure_queue"), Config::Bool(true)),
                    (s("bind_to_exchange"), Config::String(s("ex"))),
                ],
            ),
            channel("q2", "BestEffort", vec![]),
        ],
        vec![channel("ex", "ExactlyOnce", vec![(s("ensure_exchange"), Config::Bool(true))])],
    );
    let o = build_config(&config).unwrap();
    assert_eq!(o.uri, "amqp://127.0.0.1:5672/%2f");
    assert_eq!(o.consume_channels.len(), 2);
    assert_eq!(o.consume_channels[0].name, "q1");
    assert!(o.consume_channels[0].ensure_queue);
    assert_eq!(o.consume_channels[0].bind_to_exchange, Some(s("ex")));
    assert_eq!(o.consume_channels[0].delivery_guarantee, DeliveryGuarantee::AtLeastOnce);
    assert_eq!(o.consume_channels[1].name, "q2");
    assert!(!o.consume_channels[1].ensure_queue);
    assert_eq!(o.consume_channels[1].bind_to_exchange, None);
    assert_eq!(queue_binding(&o.consume_channels[0]), Some(s("ex")));
    assert_eq!(queue_binding(&o.consume_channels[1]), None);
    assert_eq!(o.publish_channels.len(), 1);
    assert_eq!(o.publish_channels[0].name, "ex");
    assert!(o.publish_channels[0].ensure_exchange);
    assert_eq!(o.publish_channels[0].delivery_guarantee, DeliveryGuarantee::ExactlyOnce);
}

#[test]
fn build_config_errors() {
    assert_eq!(build_config(&Config::String(s("x"))).unwrap_err(), ConfigError::NotAMap);
    assert_eq!(build_config(&Config::HashMap(vec![])).unwrap_err(), ConfigError::MissingUri);
    let uri_only = Config::HashMap(vec![(s("uri"), Config::String(s("amqp://h")))]);
    let o = build_config(&uri_only).unwrap();
    assert!(o.consume_channels.is_empty() && o.publish_channels.is_empty());
    assert_eq!(
        build_config(&amqp_config(vec![Config::Int(1)], vec![])).unwrap_err(),
        ConfigError::ConsumeEntryNotAMap
    );
    assert_eq!(
        build_config(&amqp_config(vec![], vec![Config::Bool(false)])).unwrap_err(),
        ConfigError::PublishEntryNotAMap
    );
    let unnamed = Config::HashMap(vec![(s("ensure_queue"), Config::Bool(true))]);
    assert_eq!(
        build_config(&amqp_config(vec![unnamed], vec![])).unwrap_err(),
        ConfigError::ConsumeNameMissing
    );
    let unnamed = Config::HashMap(vec![]);
    assert_eq!(
        build_config(&amqp_config(vec![], vec![unnamed])).unwrap_err(),
        ConfigError::PublishNameMissing
    );
    assert_eq!(
        build_config(&amqp_config(vec![channel("q", "Sometimes", vec![])], vec![])).unwrap_err(),
        ConfigError::UnknownDeliveryGuarantee
    );
}

#[test]
fn pending_table_insert_and_remove() {
    let mut t = PendingDeliveries::new();
    assert_eq!(t.len(), 0);
    let first = PendingDelivery { consume_channel_id: s("q"), delivery_tag: 1 };
    assert!(!t.insert(s("k"), first));
    let second = PendingDelivery { consume_channel_id: s("q"), delivery_tag: 2 };
    assert!(t.insert(s("k"), second));
    assert_eq!(t.len(), 1);
    assert!(t.contains(&s("k")));
    let d = t.remove(&s("k")).unwrap();
    assert_eq!(d.delivery_tag, 1);
    assert!(t.remove(&s("k")).is_none());
    assert_eq!(t.len(), 0);
}

#[test]
fn admitted_event_is_pending_under_derived_key_and_discarded_once() {
    let options = options_with_queue("q");
    let mut pending = PendingDeliveries::new();
    let m = receive_message(&s("port"), &s("port"), &mut pending, &payload("abc"), 42, DeliveryGuarantee::AtLeastOnce)
        .unwrap().event;
    assert_eq!(m.routing_id, "abc--42");
    assert_eq!(m.incoming_id, "port");
    assert_eq!(m.args, CloudEventRoutingArgs { delivery_guarantee: DeliveryGuarantee::AtLeastOnce });
    assert!(pending.contains(&s("abc--42")));
    let mut pending2 = PendingDeliveries::new();
    let m2 = receive_message(&s("q"), &s("port"), &mut pending2, &payload("abc"), 42, DeliveryGuarantee::AtLeastOnce)
        .unwrap().event;
    let action = ack_nack_pending_event(&options, &mut pending2, &m2.routing_id, ProcessingResult::PermanentError)
        .unwrap();
    assert_eq!(action.consume_channel_id, "q");
    assert_eq!(action.delivery_tag, 42);
    assert_eq!(action.disposition, Disposition::Discard);
    assert!(!pending2.contains(&s("abc--42")));
    assert_eq!(
        ack_nack_pending_event(&options, &mut pending2, &s("abc--42"), ProcessingResult::PermanentError).unwrap_err(),
        SettleError::UnknownDelivery
    );
}

#[test]
fn distinct_deliveries_fill_and_drain_the_table() {
    let options = options_with_queue("q");
    let mut pending = PendingDeliveries::new();
    let mut ids = Vec::new();
    for (tag, id) in [(1u64, "a"), (2, "a"), (3, "b")] {
        let m = receive_message(&s("q"), &s("p"), &mut pending, &payload(id), tag, DeliveryGuarantee::ExactlyOnce).unwrap().event;
        ids.push(m.routing_id);
    }
    assert_eq!(ids, vec![s("a--1"), s("a--2"), s("b--3")]);
    assert_eq!(pending.len(), 3);
    for id in &ids {
        assert!(ack_nack_pending_event(&options, &mut pending, id, ProcessingResult::Successful).is_ok());
    }
    assert_eq!(pending.len(), 0);
}

#[test]
fn repeated_identifier_is_reported_and_first_delivery_kept() {
    let mut pending = PendingDeliveries::new();
    let a = receive_message(&s("q"), &s("p"), &mut pending, &payload("d"), 1, DeliveryGuarantee::AtLeastOnce).unwrap();
    assert!(!a.collision);
    let b = receive_message(&s("r"), &s("p"), &mut pending, &payload("d"), 1, DeliveryGuarantee::AtLeastOnce).unwrap();
    assert!(b.collision);
    assert_eq!(pending.len(), 1);
    assert_eq!(pending.remove(&s("d--1")).unwrap().consume_channel_id, "q");
}

#[test]
fn second_resolution_is_a_no_op() {
    let options = options_with_queue("q");
    let mut pending = PendingDeliveries::new();
    receive_message(&s("q"), &s("p"), &mut pending, &payload("x"), 7, DeliveryGuarantee::AtLeastOnce).unwrap().event;
    let a = ack_nack_pending_event(&options, &mut pending, &s("x--7"), ProcessingResult::Successful).unwrap();
    assert_eq!(a.disposition, Disposition::Acknowledge);
    let again = ack_nack_pending_event(&options, &mut pending, &s("x--7"), ProcessingResult::Successful);
    assert_eq!(again.unwrap_err(), SettleError::UnknownDelivery);
    assert_eq!(pending.len(), 0);
}

#[test]
fn fire_and_forget_guarantee_creates_no_entry() {
    let mut pending = PendingDeliveries::new();
    for g in [DeliveryGuarantee::BestEffort, DeliveryGuarantee::Unspecified, DeliveryGuarantee::AtMostOnce] {
        let m = receive_message(&s("q"), &s("p"), &mut pending, &payload("e"), 5, g).unwrap().event;
        assert_eq!(m.routing_id, "e--5");
    }
    assert_eq!(pending.len(), 0);
    let options = options_with_queue("q");
    assert_eq!(
        ack_nack_pending_event(&options, &mut pending, &s("e--5"), ProcessingResult::Successful).unwrap_err(),
        SettleError::UnknownDelivery
    );
}

#[test]
fn transient_error_requeues_and_removes() {
    let options = options_with_queue("q");
    let mut pending = PendingDeliveries::new();
    receive_message(&s("q"), &s("p"), &mut pending, &payload("t"), 9, DeliveryGuarantee::AtLeastOnce).unwrap().event;
    let a = ack_nack_pending_event(&options, &mut pending, &s("t--9"), ProcessingResult::TransientError).unwrap();
    assert_eq!(a.disposition, Disposition::Requeue);
    assert_ne!(a.disposition, Disposition::Acknowledge);
    assert_eq!(pending.len(), 0);
}

#[test]
fn settlement_without_connection_or_channel_fails_and_purges() {
    let mut pending = PendingDeliveries::new();
    receive_message(&s("q"), &s("p"), &mut pending, &payload("n"), 1, DeliveryGuarantee::AtLeastOnce).unwrap().event;
    assert_eq!(
        ack_nack_pending_event(&None, &mut pending, &s("n--1"), ProcessingResult::Successful).unwrap_err(),
        SettleError::NotConfigured
    );
    assert_eq!(pending.len(), 0);
    receive_message(&s("gone"), &s("p"), &mut pending, &payload("n"), 2, DeliveryGuarantee::AtLeastOnce).unwrap().event;
    let options = options_with_queue("q");
    assert_eq!(
        ack_nack_pending_event(&options, &mut pending, &s("n--2"), ProcessingResult::Successful).unwrap_err(),
        SettleError::UnknownChannel
    );
    assert_eq!(pending.len(), 0);
}

#[test]
fn malformed_payload_is_isolated() {
    let mut pending = PendingDeliveries::new();
    assert!(receive_message(&s("q"), &s("p"), &mut pending, b"not json", 1, DeliveryGuarantee::AtLeastOnce).is_err());
    assert!(receive_message(&s("q"), &s("p"), &mut pending, b"{\"id\":\"x\"}", 2, DeliveryGuarantee::AtLeastOnce).is_err());
    assert_eq!(pending.len(), 0);
    let m = receive_message(&s("q"), &s("p"), &mut pending, &payload("ok"), 3, DeliveryGuarantee::AtLeastOnce).unwrap().event;
    assert_eq!(m.routing_id, "ok--3");
    let m = receive_message(&s("r"), &s("p"), &mut pending, &payload("ok2"), 4, DeliveryGuarantee::AtLeastOnce).unwrap().event;
    assert_eq!(m.routing_id, "ok2--4");
    assert_eq!(pending.len(), 2);
}

#[test]
fn config_update_replaces_options_and_purges_pending() {
    let mut options: Option<AmqpOptions> = None;
    let mut pending = PendingDeliveries::new();
    let first = amqp_config(vec![channel("old", "AtLeastOnce", vec![])], vec![]);
    assert!(apply_config_update(&mut options, &mut pending, &first).is_ok());
    receive_message(&s("old"), &s("p"), &mut pending, &payload("a"), 1, DeliveryGuarantee::AtLeastOnce).unwrap().event;
    assert_eq!(pending.len(), 1);
    let second = amqp_config(vec![channel("new", "AtLeastOnce", vec![])], vec![]);
    assert!(apply_config_update(&mut options, &mut pending, &second).is_ok());
    let o = options.as_ref().unwrap();
    assert_eq!(o.consume_channels.len(), 1);
    assert_eq!(o.consume_channels[0].name, "new");
    assert_eq!(pending.len(), 0);
    assert_eq!(
        apply_config_update(&mut options, &mut pending, &Config::Bool(true)).unwrap_err(),
        ConfigError::NotAMap
    );
    assert_eq!(options.as_ref().unwrap().consume_channels[0].name, "new");
}

#[test]
fn publish_confirmation_rules() {
    let acked = AmqpPublishOptions { name: s("ex"), ensure_exchange: false, delivery_guarantee: DeliveryGuarantee::AtLeastOnce };
    let loose = AmqpPublishOptions { name: s("ex"), ensure_exchange: false, delivery_guarantee: DeliveryGuarantee::BestEffort };
    assert!(publish_confirmed(&acked, PublishReport::Sent { acked: true }));
    assert!(!publish_confirmed(&acked, PublishReport::Sent { acked: false }));
    assert!(publish_confirmed(&loose, PublishReport::Sent { acked: false }));
    assert!(!publish_confirmed(&loose, PublishReport::NotSent));
    assert!(!publish_confirmed(&loose, PublishReport::ChannelClosed));
}

#[test]
fn outgoing_outcome_reported_only_when_acknowledged() {
    let event = |g| OutgoingCloudEvent {
        routing_id: s("r1"),
        incoming_id: s("in"),
        destination_id: s("out"),
        cloud_event: sample_event("e"),
        args: CloudEventRoutingArgs { delivery_guarantee: g },
    };
    assert!(send_cloud_event_result(&s("out"), &event(DeliveryGuarantee::BestEffort), true).is_none());
    match send_cloud_event_result(&s("out"), &event(DeliveryGuarantee::AtLeastOnce), false) {
        Some(BrokerEvent::OutgoingCloudEventProcessed(p)) => {
            assert_eq!(p.sender_id, "out");
            assert_eq!(p.routing_id, "r1");
            assert_eq!(p.result, ProcessingResult::TransientError);
        }
        _ => panic!("expected an outcome"),
    }
    match send_cloud_event_result(&s("out"), &event(DeliveryGuarantee::ExactlyOnce), true) {
        Some(BrokerEvent::OutgoingCloudEventProcessed(p)) => assert_eq!(p.result, ProcessingResult::Successful),
        _ => panic!("expected an outcome"),
    }
}
