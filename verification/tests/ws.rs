use nitram::messages::NitramServerMessage;
use nitram::nitram::Tunables;
use nitram::ws::{keep_reading, on_frame, on_tick, push_frame, Frame, InboundAction, OutboundAction};
use serde_json::Value;

fn tunables(spacing: Option<u64>) -> Tunables {
    Tunables {
        ping_interval_in_seconds: 5,
        server_messages_interval_in_millis: spacing,
        timeout_in_seconds: 10,
        max_frame_size: 131072,
    }
}

const SECOND: u128 = 1_000_000_000;

#[test]
fn ping_is_answered_with_its_payload() {
    match on_frame(Frame::Ping(vec![1, 2, 3])) {
        InboundAction::Pong(payload) => assert_eq!(payload, vec![1, 2, 3]),
        _ => panic!("a ping is answered with a pong"),
    }
}

#[test]
fn each_frame_has_its_action() {
    assert!(matches!(on_frame(Frame::Pong(vec![9])), InboundAction::Touch));
    assert!(matches!(on_frame(Frame::Close), InboundAction::Close));
    assert!(matches!(on_frame(Frame::Other), InboundAction::Ignore));
    match on_frame(Frame::Text("request".to_string())) {
        InboundAction::Dispatch(text) => assert_eq!(text, "request"),
        _ => panic!("a text is dispatched"),
    }
}

#[test]
fn reading_stops_on_close_and_on_failed_writes() {
    assert!(!keep_reading(&InboundAction::Close, true));
    assert!(!keep_reading(&InboundAction::Close, false));
    assert!(keep_reading(&InboundAction::Pong(vec![]), true));
    assert!(!keep_reading(&InboundAction::Pong(vec![]), false));
    assert!(keep_reading(&InboundAction::Dispatch(String::new()), true));
    assert!(!keep_reading(&InboundAction::Dispatch(String::new()), false));
    assert!(keep_reading(&InboundAction::Touch, false));
    assert!(keep_reading(&InboundAction::Ignore, false));
}

#[test]
fn a_failed_ping_stops_the_loop() {
    assert_eq!(on_tick(&tunables(None), false, 0, None), OutboundAction::Stop);
    assert_eq!(on_tick(&tunables(None), false, 100 * SECOND, None), OutboundAction::Stop);
}

#[test]
fn silence_beyond_the_timeout_closes() {
    let t = tunables(None);
    assert_eq!(on_tick(&t, true, 0, None), OutboundAction::Drain);
    assert_eq!(on_tick(&t, true, 10 * SECOND, None), OutboundAction::Drain);
    assert_eq!(on_tick(&t, true, 10 * SECOND + 1, None), OutboundAction::CloseAndStop);
    assert_eq!(on_tick(&t, true, u128::MAX, None), OutboundAction::CloseAndStop);
}

#[test]
fn the_largest_timeout_does_not_overflow() {
    let t = Tunables {
        ping_interval_in_seconds: u64::MAX,
        server_messages_interval_in_millis: Some(u64::MAX),
        timeout_in_seconds: u64::MAX,
        max_frame_size: 0,
    };
    assert_eq!(on_tick(&t, true, u64::MAX as u128 * SECOND, Some(0)), OutboundAction::Wait);
    assert_eq!(
        on_tick(&t, true, u64::MAX as u128 * SECOND + 1, Some(0)),
        OutboundAction::CloseAndStop
    );
    assert_eq!(
        on_tick(&t, true, 0, Some(u64::MAX as u128 * 1_000_000)),
        OutboundAction::Drain
    );
}

#[test]
fn drains_keep_their_spacing() {
    let t = tunables(Some(2000));
    assert_eq!(on_tick(&t, true, SECOND, None), OutboundAction::Drain);
    assert_eq!(on_tick(&t, true, SECOND, Some(2 * SECOND - 1)), OutboundAction::Wait);
    assert_eq!(on_tick(&t, true, SECOND, Some(2 * SECOND)), OutboundAction::Drain);
    assert_eq!(on_tick(&tunables(None), true, SECOND, Some(0)), OutboundAction::Drain);
    assert_eq!(on_tick(&t, true, 11 * SECOND, Some(0)), OutboundAction::CloseAndStop);
}

#[test]
fn a_timed_out_peer_is_closed_at_the_first_tick_after_the_timeout() {
    let t = tunables(None);
    let last_pong = 3 * SECOND;
    let mut closed_at = None;
    for tick in 0..10u128 {
        let now = tick * 5 * SECOND;
        let silence = now.saturating_sub(last_pong);
        if on_tick(&t, true, silence, None) == OutboundAction::CloseAndStop {
            closed_at = Some(now);
            break;
        }
    }
    assert_eq!(closed_at, Some(15 * SECOND));
    assert!(closed_at.unwrap() - last_pong <= (10 + 5) * SECOND);
}

#[test]
fn empty_batches_are_not_pushed() {
    let mut batch = Vec::new();
    assert_eq!(push_frame(&batch), None);
    batch.push(NitramServerMessage { topic: "A".to_string(), payload: Value::from(1) });
    assert_eq!(push_frame(&batch), Some(r#"[{"topic":"A","payload":1}]"#.to_string()));
}
