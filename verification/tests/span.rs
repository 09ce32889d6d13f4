use proxy_agent::span::{ElapsedMessage, SimpleSpan};
use std::time::{Duration, Instant};

fn sleep(duration: Duration) {
    let start = Instant::now();
    while start.elapsed() <= duration {}
}

fn read_json(json: &str) -> (u64, String) {
    let value: serde_json::Value = serde_json::from_str(json).unwrap();
    (
        value["elapsed"].as_u64().unwrap(),
        value["message"].as_str().unwrap().to_string(),
    )
}

#[test]
fn span_test() {
    let mut span = SimpleSpan::new();
    sleep(Duration::from_millis(1));
    let elapsed = span.get_elapsed_time_in_millisec();
    assert!(elapsed > 0);
    let duration = Duration::from_millis(100);
    sleep(duration);
    let message: String = span.get_elapsed_json_message("test");
    let (elapsed_in_message, text) = read_json(&message);
    assert_eq!(text, "test");
    assert!(elapsed_in_message as u128 > duration.as_millis());

    span.start_new();
    sleep(Duration::from_millis(1));
    let elapsed = span.get_elapsed_time_in_millisec();
    assert!(elapsed > 0);
    assert!(elapsed < duration.as_millis());
}

#[test]
fn elapsed_message_texts() {
    let message = ElapsedMessage::new(1234567890123456789012, "done".to_string());
    assert_eq!(
        message.to_json_string(),
        "{\"elapsed\":1234567890123456789012, \"message\":\"done\"}"
    );
    assert_eq!(message.to_string(), "done - 1234567890123456789012");
}

#[test]
fn elapsed_message_of_nothing() {
    let message = ElapsedMessage::new(0, String::new());
    assert_eq!(message.to_json_string(), "{\"elapsed\":0, \"message\":\"\"}");
    assert_eq!(message.to_string(), " - 0");
}

#[test]
fn plain_message_reads_back_from_json() {
    let message = ElapsedMessage::new(42, "all, is well: \u{e9}".to_string());
    assert_eq!(
        read_json(&message.to_json_string()),
        (42, "all, is well: \u{e9}".to_string())
    );
}

#[test]
fn message_with_quote_is_no_json() {
    let message = ElapsedMessage::new(42, "say \"hi\"".to_string());
    assert!(serde_json::from_str::<serde_json::Value>(&message.to_json_string()).is_err());
}

#[test]
fn different_messages_have_different_texts() {
    let one = ElapsedMessage::new(1, "a - 2".to_string());
    let other = ElapsedMessage::new(2, "a".to_string());
    assert_ne!(one.to_string(), other.to_string());
    assert_ne!(one.to_json_string(), other.to_json_string());
}

#[test]
fn event_ends_with_elapsed_time() {
    let span = SimpleSpan::default();
    sleep(Duration::from_millis(20));
    let event = span.write_event("started", "method", "module", "key");
    assert!(event.starts_with("started - "));
    let elapsed: u128 = event["started - ".len()..].parse().unwrap();
    assert!(elapsed >= 20);
    assert!(elapsed <= span.get_elapsed_time_in_millisec());
}
