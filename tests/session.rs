use serde_json::Value;
use sse_listener::config::ServerConfig;
use sse_listener::listener::{Action, Event, ListenError, Listener, Phase};
use std::collections::BTreeMap;

fn config_with(key: &str, value: Value) -> ServerConfig {
    let mut settings = BTreeMap::new();
    settings.insert(key.to_string(), value);
    ServerConfig { settings }
}

fn streaming(max_retries: u32) -> Listener {
    let mut l = Listener::new(max_retries, false);
    assert_eq!(l.step(Event::Start), Action::Connect(1));
    assert_eq!(l.step(Event::Connected), Action::Read);
    l
}

#[test]
fn scenario_all_connects_fail() {
    let mut l = Listener::new(3, false);
    let mut actions = Vec::new();
    let mut event = Event::Start;
    loop {
        assert!(l.is_expected(&event));
        let a = l.step(event);
        event = match &a {
            Action::Connect(_) => Event::ConnectFailed,
            Action::Sleep(_) => Event::Slept,
            _ => {
                actions.push(a);
                break;
            },
        };
        actions.push(a);
    }
    assert_eq!(
        actions,
        vec![
            Action::Connect(1),
            Action::Sleep(2),
            Action::Connect(2),
            Action::Sleep(4),
            Action::Connect(3),
            Action::Finish(Err(ListenError::RetriesExhausted)),
        ]
    );
    assert_eq!(l.phase, Phase::Failed);
    assert!(l.is_finished());
    assert_eq!(l.attempt, 3);
}

#[test]
fn scenario_one_update_then_end() {
    let mut l = streaming(3);
    let chunk = b"data: {\"settings\":{\"timeout\":30}}".to_vec();
    assert_eq!(
        l.step(Event::Chunk(chunk)),
        Action::Decode("{\"settings\":{\"timeout\":30}}".to_string())
    );
    assert_eq!(l.phase, Phase::Decoding);
    let cfg = config_with("timeout", Value::from(30));
    assert_eq!(l.step(Event::Decoded(cfg.clone())), Action::Deliver(cfg));
    assert_eq!(l.step(Event::StreamEnded), Action::Finish(Ok(())));
    assert_eq!(l.phase, Phase::Done);
}

#[test]
fn scenario_malformed_then_valid() {
    let mut l = streaming(3);
    assert_eq!(
        l.step(Event::Chunk(b"data: not-json".to_vec())),
        Action::Decode("not-json".to_string())
    );
    assert_eq!(l.step(Event::DecodeFailed), Action::Read);
    assert_eq!(l.phase, Phase::Streaming);
    assert_eq!(
        l.step(Event::Chunk(b"data: {\"settings\":{}}".to_vec())),
        Action::Decode("{\"settings\":{}}".to_string())
    );
    let empty = ServerConfig { settings: BTreeMap::new() };
    assert_eq!(l.step(Event::Decoded(empty.clone())), Action::Deliver(empty));
    assert_eq!(l.step(Event::StreamEnded), Action::Finish(Ok(())));
}

#[test]
fn deliveries_keep_wire_order() {
    let mut l = streaming(1);
    let mut delivered = Vec::new();
    for i in 0..4u64 {
        let a = l.step(Event::Chunk(format!("data: {{\"settings\":{{\"n\":{}}}}}", i).into_bytes()));
        assert!(matches!(a, Action::Decode(_)));
        match l.step(Event::Decoded(config_with("n", Value::from(i)))) {
            Action::Deliver(c) => delivered.push(c),
            other => panic!("unexpected {:?}", other),
        }
    }
    let expected: Vec<ServerConfig> = (0..4u64).map(|i| config_with("n", Value::from(i))).collect();
    assert_eq!(delivered, expected);
    assert_eq!(l.phase, Phase::Streaming);
}

#[test]
fn chunk_without_payload_reads_on() {
    let mut l = streaming(2);
    assert_eq!(l.step(Event::Chunk(b": ping".to_vec())), Action::Read);
    assert_eq!(l.step(Event::Chunk(vec![0xff, 0x00])), Action::Read);
    assert_eq!(l.phase, Phase::Streaming);
}

#[test]
fn read_error_is_final() {
    let mut l = streaming(5);
    assert_eq!(l.step(Event::ReadFailed), Action::Finish(Err(ListenError::Stream)));
    assert_eq!(l.phase, Phase::Failed);
    assert_eq!(l.attempt, 1);
    assert!(!l.is_expected(&Event::Start));
    assert!(!l.is_expected(&Event::Slept));
    assert!(!l.is_expected(&Event::Connected));
}

#[test]
fn read_error_retried_when_asked() {
    let mut l = Listener::new(2, true);
    assert_eq!(l.step(Event::Start), Action::Connect(1));
    assert_eq!(l.step(Event::Connected), Action::Read);
    assert_eq!(l.step(Event::ReadFailed), Action::Sleep(2));
    assert_eq!(l.step(Event::Slept), Action::Connect(2));
    assert_eq!(l.step(Event::Connected), Action::Read);
    assert_eq!(l.step(Event::ReadFailed), Action::Finish(Err(ListenError::RetriesExhausted)));
}

#[test]
fn zero_retries_gives_up_after_first_attempt() {
    let mut l = Listener::new(0, false);
    assert_eq!(l.step(Event::Start), Action::Connect(1));
    assert_eq!(l.step(Event::ConnectFailed), Action::Finish(Err(ListenError::RetriesExhausted)));
}

#[test]
fn reconnect_after_failures_then_stream() {
    let mut l = Listener::new(4, false);
    assert_eq!(l.step(Event::Start), Action::Connect(1));
    assert_eq!(l.step(Event::ConnectFailed), Action::Sleep(2));
    assert_eq!(l.step(Event::Slept), Action::Connect(2));
    assert_eq!(l.step(Event::ConnectFailed), Action::Sleep(4));
    assert_eq!(l.step(Event::Slept), Action::Connect(3));
    assert_eq!(l.step(Event::ConnectFailed), Action::Sleep(8));
    assert_eq!(l.step(Event::Slept), Action::Connect(4));
    assert_eq!(l.step(Event::Connected), Action::Read);
    assert_eq!(l.step(Event::StreamEnded), Action::Finish(Ok(())));
}

#[test]
fn expected_events_follow_phase() {
    let mut l = Listener::new(2, false);
    assert!(l.is_expected(&Event::Start));
    assert!(!l.is_expected(&Event::Connected));
    l.step(Event::Start);
    assert!(l.is_expected(&Event::Connected));
    assert!(l.is_expected(&Event::ConnectFailed));
    assert!(!l.is_expected(&Event::ReadFailed));
    l.step(Event::Connected);
    assert!(l.is_expected(&Event::Chunk(Vec::new())));
    assert!(!l.is_expected(&Event::DecodeFailed));
    assert!(!l.is_finished());
}
