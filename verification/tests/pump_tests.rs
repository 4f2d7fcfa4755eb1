use piper::pump::{concat_chunks, pump_transfer, split_chunks, RecvPump, SendPump};
use piper::session::{ChannelState, PiperMode, SessionLifecycle, SessionState};

#[test]
fn round_trip_hello() {
    let input: Vec<u8> = b"hello, piper!".to_vec();
    for cap in [1usize, 2, 4, 13, 128] {
        let out = pump_transfer(&input, cap);
        assert_eq!(out, input);
    }
}

#[test]
fn round_trip_binary_bytes() {
    let input: Vec<u8> = (0u8..=255).cycle().take(1000).collect();
    for cap in [1usize, 3, 7, 256, 999, 1000, 4096] {
        let out = pump_transfer(&input, cap);
        assert_eq!(out, input);
    }
}

#[test]
fn empty_input_gives_empty_output() {
    let input: Vec<u8> = Vec::new();
    let out = pump_transfer(&input, 8);
    assert_eq!(out.len(), 0);
    let chunks = split_chunks(&input, 8);
    assert_eq!(chunks.len(), 0);
}

#[test]
fn chunk_count_is_exact_at_boundaries() {
    let cap = 4usize;
    for n in 1usize..=5 {
        let input: Vec<u8> = vec![7u8; n * cap];
        let chunks = split_chunks(&input, cap);
        assert_eq!(chunks.len(), n);
        for c in &chunks {
            assert_eq!(c.len(), cap);
        }
        let out = concat_chunks(&chunks);
        assert_eq!(out, input);
    }
}

#[test]
fn partial_last_chunk() {
    let input: Vec<u8> = (0u8..10).collect();
    let chunks = split_chunks(&input, 4);
    assert_eq!(chunks.len(), 3);
    assert_eq!(chunks[0], vec![0, 1, 2, 3]);
    assert_eq!(chunks[1], vec![4, 5, 6, 7]);
    assert_eq!(chunks[2], vec![8, 9]);
    assert_eq!(concat_chunks(&chunks), input);
}

#[test]
fn input_of_exactly_one_chunk() {
    let input: Vec<u8> = vec![1, 2, 3, 4];
    let chunks = split_chunks(&input, 4);
    assert_eq!(chunks.len(), 1);
    assert_eq!(chunks[0], input);
    assert_eq!(pump_transfer(&input, 4), input);
}

#[test]
fn send_pump_finishes_on_empty_read() {
    let mut pump = SendPump::new();
    assert!(!pump.finished);
    assert!(!pump.push_chunk(&vec![1, 2, 3]));
    assert!(!pump.push_chunk(&vec![4]));
    assert!(pump.push_chunk(&Vec::new()));
    assert!(pump.finished);
}

#[test]
fn recv_pump_finishes_on_end_of_stream() {
    let mut pump = RecvPump::new();
    assert!(!pump.done);
    assert!(!pump.take_chunk(&Some(vec![1, 2])));
    assert!(!pump.take_chunk(&Some(vec![3])));
    assert!(pump.take_chunk(&None));
    assert!(pump.done);
}

#[test]
fn lifecycle_follows_the_shutdown_order() {
    let mut life = SessionLifecycle::new();
    assert_eq!(life.state, SessionState::Connecting);
    assert_eq!(life.channel, None);
    life.establish();
    assert_eq!(life.state, SessionState::Established);
    life.open_channel();
    assert_eq!(life.channel, Some(ChannelState::Open));
    assert!(life.may_write());
    life.finish_channel();
    assert_eq!(life.channel, Some(ChannelState::Finished));
    assert!(!life.may_write());
    life.begin_drain();
    assert_eq!(life.state, SessionState::Draining);
    life.close();
    assert_eq!(life.state, SessionState::Closed);
    assert_eq!(life.channel, Some(ChannelState::Closed));
}

#[test]
fn receiver_lifecycle_can_close_without_draining() {
    let mut life = SessionLifecycle::new();
    life.establish();
    life.open_channel();
    life.finish_channel();
    life.close();
    assert_eq!(life.state, SessionState::Closed);
}

#[test]
fn roles_map_to_directions() {
    assert!(PiperMode::Client.sends());
    assert!(!PiperMode::Server.sends());
    assert_eq!(PiperMode::Client, PiperMode::Client);
    assert_ne!(PiperMode::Client, PiperMode::Server);
}
