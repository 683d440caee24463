use pingbot::dispatch::dispatch;
use pingbot::event::{Action, Event};
use pingbot::startup::{validate_token, StartupError};
use pingbot::text::{connected_notice, u64_to_decimal};

#[test]
fn ping_gets_pong() {
    let event = Event::MessageCreate { channel_id: 5, content: "!ping".to_string() };
    let action = dispatch(0, &event);
    assert_eq!(action, Action::Reply { channel_id: 5, content: "Pong!".to_string() });
}

#[test]
fn uppercase_ping_ignored() {
    let event = Event::MessageCreate { channel_id: 5, content: "!PING".to_string() };
    assert_eq!(dispatch(0, &event), Action::Ignore);
}

#[test]
fn trailing_space_ignored() {
    let event = Event::MessageCreate { channel_id: 5, content: "!ping ".to_string() };
    assert_eq!(dispatch(0, &event), Action::Ignore);
}

#[test]
fn missing_prefix_ignored() {
    let event = Event::MessageCreate { channel_id: 5, content: "ping".to_string() };
    assert_eq!(dispatch(0, &event), Action::Ignore);
}

#[test]
fn empty_content_ignored() {
    let event = Event::MessageCreate { channel_id: 5, content: String::new() };
    assert_eq!(dispatch(0, &event), Action::Ignore);
}

#[test]
fn shard_connected_gives_notice() {
    let action = dispatch(7, &Event::ShardConnected);
    assert_eq!(action, Action::Notice { message: "Connected on shard 7".to_string() });
}

#[test]
fn other_event_ignored() {
    assert_eq!(dispatch(3, &Event::Other), Action::Ignore);
}

#[test]
fn two_pings_get_two_independent_replies() {
    let first = Event::MessageCreate { channel_id: 10, content: "!ping".to_string() };
    let second = Event::MessageCreate { channel_id: 11, content: "!ping".to_string() };
    let a = dispatch(0, &first);
    let b = dispatch(1, &second);
    assert_eq!(a, Action::Reply { channel_id: 10, content: "Pong!".to_string() });
    assert_eq!(b, Action::Reply { channel_id: 11, content: "Pong!".to_string() });
}

#[test]
fn missing_token_is_rejected() {
    assert_eq!(validate_token(None), Err(StartupError::MissingToken));
}

#[test]
fn present_token_is_passed_through() {
    assert_eq!(validate_token(Some("abc123".to_string())), Ok("abc123".to_string()));
}

#[test]
fn decimal_of_zero() {
    assert_eq!(u64_to_decimal(0), "0".to_string());
}

#[test]
fn decimal_of_small_number() {
    assert_eq!(u64_to_decimal(42), "42".to_string());
}

#[test]
fn decimal_of_largest_u64() {
    assert_eq!(u64_to_decimal(u64::MAX), "18446744073709551615".to_string());
}

#[test]
fn notice_names_the_shard() {
    assert_eq!(connected_notice(0), "Connected on shard 0".to_string());
    assert_eq!(connected_notice(120), "Connected on shard 120".to_string());
}
