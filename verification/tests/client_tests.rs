use telnet_provider::config::LinkConfig;
use telnet_provider::filter::FilterState;
use telnet_provider::telnet::{Action, Event, Phase, TelnetClient};

fn config(max_attempts: u32, initial_ms: u64, max_ms: u64, max_size: usize) -> LinkConfig {
    LinkConfig {
        telnet_host: "example.com".to_string(),
        telnet_port: 23,
        max_reconnect_attempts: max_attempts,
        initial_reconnect_delay_ms: initial_ms,
        max_reconnect_delay_ms: max_ms,
        max_message_size: max_size,
    }
}

#[test]
fn capped_run_grants_exactly_the_budget() {
    // Three retries are granted after the first failure, with doubling
    // delays capped at the maximum; the failure after the last retry ends
    // the run.
    let client = TelnetClient::new(config(3, 100, 350, 1024));
    let mut st = client.initial_state();
    let mut waits = Vec::new();
    loop {
        match client.step(&mut st, Event::ConnectFailed) {
            Action::Wait(ms) => {
                waits.push(ms);
                assert_eq!(client.step(&mut st, Event::BackoffElapsed), Action::Connect);
            }
            Action::GiveUp => break,
            other => panic!("unexpected action {:?}", other),
        }
        assert!(waits.len() <= 3);
    }
    assert_eq!(waits, vec![100, 200, 350]);
    assert_eq!(st.phase, Phase::GivenUp);
}

#[test]
fn unlimited_run_never_gives_up() {
    let client = TelnetClient::new(config(0, 10, 40, 1024));
    let mut st = client.initial_state();
    let mut waits = Vec::new();
    for _ in 0..8 {
        match client.step(&mut st, Event::ConnectFailed) {
            Action::Wait(ms) => waits.push(ms),
            other => panic!("unexpected action {:?}", other),
        }
        assert_eq!(client.step(&mut st, Event::BackoffElapsed), Action::Connect);
    }
    assert_eq!(waits, vec![10, 20, 40, 40, 40, 40, 40, 40]);
}

#[test]
fn initial_delay_above_cap_saturates() {
    let client = TelnetClient::new(config(0, 500, 100, 1024));
    let mut st = client.initial_state();
    assert_eq!(client.step(&mut st, Event::ConnectFailed), Action::Wait(500));
    assert_eq!(client.step(&mut st, Event::BackoffElapsed), Action::Connect);
    assert_eq!(client.step(&mut st, Event::ConnectFailed), Action::Wait(100));
}

#[test]
fn oversized_message_is_dropped_and_streaming_continues() {
    let client = TelnetClient::new(config(3, 100, 1000, 4));
    let mut st = client.initial_state();
    assert_eq!(client.step(&mut st, Event::ConnectSucceeded), Action::Read);
    // Five payload bytes exceed the four-byte limit: dropped, keep reading.
    let a = client.step(&mut st, Event::ChunkRead(vec![1, 2, 3, 4, 5]));
    assert_eq!(a, Action::Read);
    assert_eq!(st.phase, Phase::Streaming);
    // The next, smaller message is delivered normally.
    let b = client.step(&mut st, Event::ChunkRead(vec![6, 7]));
    assert_eq!(b, Action::Deliver(vec![6, 7]));
}

#[test]
fn size_check_applies_to_filtered_length() {
    let client = TelnetClient::new(config(3, 100, 1000, 2));
    let mut st = client.initial_state();
    assert_eq!(client.step(&mut st, Event::ConnectSucceeded), Action::Read);
    // Six raw bytes, but only two of payload once the negotiation and the
    // literal escape are stripped: within the limit.
    let a = client.step(&mut st, Event::ChunkRead(vec![255, 251, 1, 65, 255, 255]));
    assert_eq!(a, Action::Deliver(vec![65, 255]));
}

#[test]
fn pure_control_chunk_is_not_delivered() {
    let client = TelnetClient::new(config(3, 100, 1000, 1024));
    let mut st = client.initial_state();
    assert_eq!(client.step(&mut st, Event::ConnectSucceeded), Action::Read);
    let a = client.step(&mut st, Event::ChunkRead(vec![255, 251, 1]));
    assert_eq!(a, Action::Read);
}

#[test]
fn control_sequence_spans_two_reads_of_one_connection() {
    let client = TelnetClient::new(config(3, 100, 1000, 1024));
    let mut st = client.initial_state();
    assert_eq!(client.step(&mut st, Event::ConnectSucceeded), Action::Read);
    assert_eq!(client.step(&mut st, Event::ChunkRead(vec![65, 255])), Action::Deliver(vec![65]));
    assert_eq!(client.step(&mut st, Event::ChunkRead(vec![251, 1, 66])), Action::Deliver(vec![66]));
}

#[test]
fn reconnect_starts_with_a_fresh_filter() {
    let client = TelnetClient::new(config(0, 100, 1000, 1024));
    let mut st = client.initial_state();
    assert_eq!(client.step(&mut st, Event::ConnectSucceeded), Action::Read);
    // The connection dies in the middle of a sub-negotiation.
    assert_eq!(client.step(&mut st, Event::ChunkRead(vec![65, 255, 250])), Action::Deliver(vec![65]));
    assert_ne!(st.filter, FilterState::Normal);
    assert!(matches!(client.step(&mut st, Event::ReadFailed), Action::Wait(_)));
    assert_eq!(client.step(&mut st, Event::BackoffElapsed), Action::Connect);
    // The fresh connection must not inherit the skip mode.
    assert_eq!(client.step(&mut st, Event::ConnectSucceeded), Action::Read);
    assert_eq!(st.filter, FilterState::Normal);
    assert_eq!(client.step(&mut st, Event::ChunkRead(vec![66])), Action::Deliver(vec![66]));
}

#[test]
fn backoff_restarts_after_traffic() {
    let client = TelnetClient::new(config(10, 100, 10000, 1024));
    let mut st = client.initial_state();
    // Two failures drive the delay up.
    assert_eq!(client.step(&mut st, Event::ConnectFailed), Action::Wait(100));
    assert_eq!(client.step(&mut st, Event::BackoffElapsed), Action::Connect);
    assert_eq!(client.step(&mut st, Event::ConnectFailed), Action::Wait(200));
    assert_eq!(client.step(&mut st, Event::BackoffElapsed), Action::Connect);
    // A reconnect with traffic restores the budget and the initial pause.
    assert_eq!(client.step(&mut st, Event::ConnectSucceeded), Action::Read);
    assert_eq!(client.step(&mut st, Event::ChunkRead(vec![65])), Action::Deliver(vec![65]));
    assert_eq!(st.attempts, 0);
    assert_eq!(client.step(&mut st, Event::RemoteClosed), Action::Wait(100));
}

#[test]
fn remote_close_counts_as_a_failure() {
    let client = TelnetClient::new(config(1, 100, 1000, 1024));
    let mut st = client.initial_state();
    assert_eq!(client.step(&mut st, Event::ConnectSucceeded), Action::Read);
    assert_eq!(client.step(&mut st, Event::RemoteClosed), Action::Wait(100));
    assert_eq!(client.step(&mut st, Event::BackoffElapsed), Action::Connect);
    assert_eq!(client.step(&mut st, Event::ConnectSucceeded), Action::Read);
    assert_eq!(client.step(&mut st, Event::RemoteClosed), Action::GiveUp);
    assert_eq!(st.phase, Phase::GivenUp);
}

#[test]
fn fresh_state_has_full_budget() {
    let client = TelnetClient::new(config(3, 100, 350, 1024));
    let st = client.initial_state();
    assert_eq!(st.phase, Phase::Connecting);
    assert_eq!(st.attempts, 0);
    assert_eq!(st.delay_ms, 100);
    assert_eq!(st.filter, FilterState::Normal);
}
