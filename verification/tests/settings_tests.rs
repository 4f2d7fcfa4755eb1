use piper::errors::ErrorKind;
use piper::settings::{from_entries, TransportSettings, DEFAULT_BUFFER_CAP, MAX_IDLE_SECONDS, VARINT_MAX};

fn entry(key: &str, value: i64) -> (String, i64) {
    (key.to_string(), value)
}

#[test]
fn empty_config_yields_defaults_twice() {
    let first = from_entries(&Vec::new()).unwrap();
    let second = from_entries(&Vec::new()).unwrap();
    assert_eq!(first.stream_receive_window, None);
    assert_eq!(first.receive_window, None);
    assert_eq!(first.send_window, None);
    assert_eq!(first.datagram_receive_buffer_size, None);
    assert_eq!(first.datagram_send_buffer_size, None);
    assert_eq!(first.max_idle_timeout_seconds, None);
    assert_eq!(first.keep_alive_interval_seconds, None);
    assert_eq!(first.chunk_size_bytes, None);
    assert_eq!(first.stream_receive_window, second.stream_receive_window);
    assert_eq!(first.receive_window, second.receive_window);
    assert_eq!(first.send_window, second.send_window);
    assert_eq!(first.datagram_receive_buffer_size, second.datagram_receive_buffer_size);
    assert_eq!(first.datagram_send_buffer_size, second.datagram_send_buffer_size);
    assert_eq!(first.max_idle_timeout_seconds, second.max_idle_timeout_seconds);
    assert_eq!(first.keep_alive_interval_seconds, second.keep_alive_interval_seconds);
    assert_eq!(first.chunk_size_bytes, second.chunk_size_bytes);
    assert_eq!(first.chunk_cap(), DEFAULT_BUFFER_CAP);
    assert_eq!(second.chunk_cap(), DEFAULT_BUFFER_CAP);
}

#[test]
fn unknown_keys_are_ignored() {
    let entries = vec![
        entry("not_a_setting", 5),
        entry("receive_window", 4096),
        entry("another_future_key", -3),
        entry("", 0),
    ];
    let s = from_entries(&entries).unwrap();
    assert_eq!(s.receive_window, Some(4096));
    assert_eq!(s.stream_receive_window, None);
    assert_eq!(s.send_window, None);
    assert_eq!(s.chunk_size_bytes, None);
}

#[test]
fn every_recognized_key_is_applied() {
    let entries = vec![
        entry("stream_receive_window", 1),
        entry("receive_window", 2),
        entry("send_window", 3),
        entry("datagram_receive_buffer_size", 4),
        entry("datagram_send_buffer_size", 5),
        entry("max_idle_timeout_seconds", 6),
        entry("keep_alive_interval_seconds", 7),
        entry("chunk_size_bytes", 8),
    ];
    let s = from_entries(&entries).unwrap();
    assert_eq!(s.stream_receive_window, Some(1));
    assert_eq!(s.receive_window, Some(2));
    assert_eq!(s.send_window, Some(3));
    assert_eq!(s.datagram_receive_buffer_size, Some(4));
    assert_eq!(s.datagram_send_buffer_size, Some(5));
    assert_eq!(s.max_idle_timeout_seconds, Some(6));
    assert_eq!(s.keep_alive_interval_seconds, Some(7));
    assert_eq!(s.chunk_size_bytes, Some(8));
    assert_eq!(s.chunk_cap(), 8);
}

#[test]
fn later_entry_for_same_key_wins() {
    let entries = vec![entry("send_window", 10), entry("send_window", 20)];
    let s = from_entries(&entries).unwrap();
    assert_eq!(s.send_window, Some(20));
}

#[test]
fn negative_value_for_recognized_key_is_config_error() {
    let entries = vec![entry("receive_window", -1)];
    assert_eq!(from_entries(&entries), Err(ErrorKind::Config));
    let entries = vec![entry("max_idle_timeout_seconds", -7)];
    assert_eq!(from_entries(&entries), Err(ErrorKind::Config));
}

#[test]
fn window_value_beyond_varint_range_is_config_error() {
    let too_big = (VARINT_MAX as i64) + 1;
    assert_eq!(from_entries(&vec![entry("stream_receive_window", too_big)]), Err(ErrorKind::Config));
    assert_eq!(from_entries(&vec![entry("receive_window", too_big)]), Err(ErrorKind::Config));
    let s = from_entries(&vec![entry("stream_receive_window", VARINT_MAX as i64)]).unwrap();
    assert_eq!(s.stream_receive_window, Some(VARINT_MAX));
}

#[test]
fn idle_timeout_bound_respects_millisecond_conversion() {
    let s = from_entries(&vec![entry("max_idle_timeout_seconds", MAX_IDLE_SECONDS as i64)]).unwrap();
    assert_eq!(s.max_idle_timeout_seconds, Some(MAX_IDLE_SECONDS));
    let entries = vec![entry("max_idle_timeout_seconds", MAX_IDLE_SECONDS as i64 + 1)];
    assert_eq!(from_entries(&entries), Err(ErrorKind::Config));
}

#[test]
fn zero_chunk_size_is_config_error() {
    assert_eq!(from_entries(&vec![entry("chunk_size_bytes", 0)]), Err(ErrorKind::Config));
    let s = from_entries(&vec![entry("chunk_size_bytes", 1)]).unwrap();
    assert_eq!(s.chunk_cap(), 1);
}

#[test]
fn first_invalid_entry_decides() {
    let entries = vec![
        entry("send_window", 10),
        entry("receive_window", -1),
        entry("unrecognized", 1),
    ];
    assert_eq!(from_entries(&entries), Err(ErrorKind::Config));
}

#[test]
fn default_settings_are_well_formed() {
    let s = TransportSettings::new();
    assert!(s.is_wf());
    assert!(s.chunk_cap() >= 1);
}

#[test]
fn exit_codes_follow_outcome() {
    assert_eq!(piper::errors::exit_code(&Ok(())), 0);
    assert_eq!(piper::errors::exit_code(&Err(ErrorKind::Transport)), 1);
    assert_eq!(piper::errors::exit_code(&Err(ErrorKind::Config)), 1);
}
