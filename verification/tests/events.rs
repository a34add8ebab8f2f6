//! The inbound queue and the event-trigger bus.

use webview_bridge::envelope::{classify_inbound, EventMessage, InboundMessage};
use webview_bridge::plugins::AllLogPlugins;
use webview_bridge::queue::MessageQueue;
use webview_bridge::trigger::EventRegistry;

fn event_queue_with(message: EventMessage) -> MessageQueue<EventMessage> {
    let mut queue = MessageQueue::new();
    queue.push(message);
    queue
}

#[test]
fn test_send_ipc_message() {
    let mut bus = EventRegistry::new();
    assert!(bus.register("test_message".to_string()));
    let mut queue = event_queue_with(EventMessage {
        target: None,
        event_id: "test_message".to_string(),
        payload: "{\"id\":\"test\"}".to_string(),
    });
    let batch = queue.drain_and_clear();
    let deliveries = bus.drain(&batch);
    let mut observed = false;
    for delivery in &deliveries.point {
        if delivery.event_id == "test_message" {
            let id = delivery.value.get("id").and_then(|v| v.as_str());
            assert_eq!(id, Some("test"));
            observed = true;
        }
    }
    assert!(observed);
}

#[test]
fn test_cleanup_ipc_trigger_sender() {
    let mut queue = event_queue_with(EventMessage {
        target: None,
        event_id: "test_message".to_string(),
        payload: "{\"id\":\"test2\"}".to_string(),
    });
    let _ = queue.drain_and_clear();
    assert!(queue.is_empty());
}

#[test]
fn drain_empties_the_queue_for_zero_one_many() {
    let mut queue: MessageQueue<u64> = MessageQueue::new();
    assert_eq!(queue.drain_and_clear(), Vec::<u64>::new());
    assert!(queue.is_empty());
    queue.push(1);
    assert_eq!(queue.drain_and_clear(), vec![1]);
    assert!(queue.is_empty());
    for n in 0..100u64 {
        queue.push(n);
    }
    assert_eq!(queue.len(), 100);
    let drained = queue.drain_and_clear();
    assert_eq!(drained.len(), 100);
    assert_eq!(drained[99], 99);
    assert!(queue.is_empty());
}

/// An event envelope followed by a frame tick notifies both the broadcast
/// stream and the global point-addressed path with the same decoded body,
/// and leaves the underlying raw queue empty.
#[test]
fn event_envelope_reaches_both_paths_and_queue_is_empty() {
    let raw = "{\"event_id\":\"test_message\",\"payload\":\"{\\\"id\\\":\\\"test\\\"}\",\"target\":null}";
    let message = match classify_inbound(4, raw) {
        Some(InboundMessage::Event(e)) => e,
        _ => panic!("an event envelope must classify as an event"),
    };
    assert_eq!(message.event_id, "test_message");
    assert_eq!(message.target, None);

    let mut queue = MessageQueue::new();
    queue.push(message);
    let mut bus = EventRegistry::new();
    assert!(bus.register("test_message".to_string()));

    let batch = queue.drain_and_clear();
    let deliveries = bus.drain(&batch);
    assert!(queue.is_empty());

    assert_eq!(deliveries.stream.len(), 1);
    let stream_id = deliveries.stream[0].value.get("id").and_then(|v| v.as_str());
    assert_eq!(stream_id, Some("test"));

    assert_eq!(deliveries.point.len(), 1);
    assert_eq!(deliveries.point[0].target, None);
    let point_id = deliveries.point[0].value.get("id").and_then(|v| v.as_str());
    assert_eq!(point_id, Some("test"));
}

#[test]
fn targeted_event_envelope_carries_its_session() {
    let raw = "{\"event_id\":\"ping\",\"payload\":\"1\",\"target\":12}";
    match classify_inbound(4, raw) {
        Some(InboundMessage::Event(e)) => assert_eq!(e.target, Some(12)),
        _ => panic!("an event envelope must classify as an event"),
    }
}

#[test]
fn unregistered_or_unparsable_events_are_dropped_independently() {
    let mut bus = EventRegistry::new();
    assert!(bus.register("known".to_string()));
    let batch = vec![
        EventMessage {
            target: None,
            event_id: "unknown".to_string(),
            payload: "{}".to_string(),
        },
        EventMessage {
            target: None,
            event_id: "known".to_string(),
            payload: "{not json".to_string(),
        },
        EventMessage {
            target: Some(2),
            event_id: "known".to_string(),
            payload: "{\"n\":5}".to_string(),
        },
    ];
    let deliveries = bus.drain(&batch);
    assert_eq!(deliveries.stream.len(), 1);
    assert_eq!(deliveries.point.len(), 1);
    assert_eq!(deliveries.point[0].target, Some(2));
    let n = deliveries.point[0].value.get("n").and_then(|v| v.as_u64());
    assert_eq!(n, Some(5));
}

#[test]
fn duplicate_event_registration_is_rejected() {
    let mut bus = EventRegistry::new();
    assert!(bus.register("e".to_string()));
    assert!(!bus.register("e".to_string()));
}

#[test]
fn malformed_envelope_is_rejected_at_classification() {
    assert!(classify_inbound(1, "not json at all").is_none());
    assert!(classify_inbound(1, "{\"neither\":1}").is_none());
    assert!(classify_inbound(1, "{\"event_id\":\"e\",\"payload\":\"1\",\"target\":\"x\"}").is_none());
    assert!(classify_inbound(1, "{\"event_id\":\"e\",\"payload\":\"1\",\"target\":-1}").is_none());
    assert!(classify_inbound(1, "{\"event_id\":\"e\",\"payload\":\"1\",\"target\":1.5}").is_none());
    assert!(classify_inbound(1, "{\"command_id\":\"c\",\"args\":{}}").is_none());
}

#[test]
fn log_requests_decode_from_their_payloads() {
    let mut bus = EventRegistry::new();
    AllLogPlugins.register(&mut bus);
    assert!(bus.is_registered("FLURX|log::println"));
    assert!(bus.is_registered("FLURX|log::log"));

    let println_payload: serde_json::Value =
        serde_json::from_str("{\"message\":\"hi\"}").unwrap();
    assert_eq!(
        webview_bridge::log::decode_println_request(&println_payload),
        Some("hi".to_string())
    );

    let log_payload: serde_json::Value =
        serde_json::from_str("{\"message\":\"m\",\"level\":\"warn\"}").unwrap();
    let request = webview_bridge::log::decode_log_request(&log_payload).unwrap();
    assert_eq!(request.message, "m");
    assert_eq!(request.level, webview_bridge::log::LogLevel::Warn);

    let bad_level: serde_json::Value =
        serde_json::from_str("{\"message\":\"m\",\"level\":\"loud\"}").unwrap();
    assert!(webview_bridge::log::decode_log_request(&bad_level).is_none());
}
