//! The outbound event emitter and the session registry.

use webview_bridge::emitter::{EmitEventToWebview, EventPayload, Sessions};

fn three_sessions() -> Sessions {
    let mut sessions = Sessions::new();
    assert!(sessions.add_session(1, "alpha".to_string()));
    assert!(sessions.add_session(2, "beta".to_string()));
    assert!(sessions.add_session(3, "gamma".to_string()));
    sessions
}

/// Broadcasting to `N` live sessions yields exactly `N` script calls, one
/// per session, each containing that session's own display name.
#[test]
fn broadcast_emits_one_script_per_live_session() {
    let sessions = three_sessions();
    let payload = EventPayload::new("{\"k\":1}".to_string());
    let calls = sessions.emit(None, "tick", &payload);
    assert_eq!(calls.len(), 3);
    let names = ["alpha", "beta", "gamma"];
    for (i, call) in calls.iter().enumerate() {
        assert_eq!(call.session, (i + 1) as u64);
        assert!(call.script.contains(names[i]));
        assert_eq!(
            call.script,
            format!(
                "window.__FLURX__.__emitEvent('{}', 'tick', {{\"k\":1}});",
                names[i]
            )
        );
    }
}

#[test]
fn addressed_emission_reaches_only_its_session() {
    let sessions = three_sessions();
    let payload = EventPayload::new("null".to_string());
    let calls = sessions.emit(Some(2), "ping", &payload);
    assert_eq!(calls.len(), 1);
    assert_eq!(calls[0].session, 2);
    assert_eq!(
        calls[0].script,
        "window.__FLURX__.__emitEvent('beta', 'ping', null);"
    );
}

#[test]
fn emission_to_a_dead_session_is_a_silent_no_op() {
    let mut sessions = three_sessions();
    let payload = EventPayload::new("null".to_string());
    assert!(sessions.emit(Some(9), "ping", &payload).is_empty());
    sessions.remove_session(2);
    assert!(sessions.emit(Some(2), "ping", &payload).is_empty());
    // The remaining sessions still receive broadcasts.
    assert_eq!(sessions.emit(None, "ping", &payload).len(), 2);
}

#[test]
fn emitted_events_carry_their_id_and_payload() {
    let sessions = three_sessions();
    let event = EmitEventToWebview {
        id: "saved".to_string(),
        payload: EventPayload::new("{\"ok\":true}".to_string()),
    };
    let calls = sessions.emit_event(Some(3), &event);
    assert_eq!(calls.len(), 1);
    assert_eq!(
        calls[0].script,
        "window.__FLURX__.__emitEvent('gamma', 'saved', {\"ok\":true});"
    );
}

#[test]
fn duplicate_session_handles_are_rejected() {
    let mut sessions = Sessions::new();
    assert!(sessions.add_session(1, "a".to_string()));
    assert!(!sessions.add_session(1, "b".to_string()));
    assert_eq!(sessions.len(), 1);
}
