use std::time::Duration;

use polymarket_rs::error::Error;
use polymarket_rs::stream::{
    Directive, ExponentialBackoff, ReconnectConfig, ReconnectingStream, StreamEvent, StreamState,
};

fn config(max_attempts: Option<u32>) -> ReconnectConfig {
    ReconnectConfig { initial_delay_ms: 1000, max_delay_ms: 60000, multiplier: 2, max_attempts }
}

fn ws_error() -> Error {
    Error::WebSocket("reset".to_string())
}

#[test]
fn test_backoff() {
    let mut backoff = ExponentialBackoff::new(1000, 60000, 2);

    assert_eq!(Duration::from_millis(backoff.next_delay()), Duration::from_secs(1));
    assert_eq!(Duration::from_millis(backoff.next_delay()), Duration::from_secs(2));
    assert_eq!(Duration::from_millis(backoff.next_delay()), Duration::from_secs(4));
    assert_eq!(Duration::from_millis(backoff.next_delay()), Duration::from_secs(8));
}

#[test]
fn test_backoff_max() {
    let mut backoff = ExponentialBackoff::new(1000, 5000, 2);

    assert_eq!(Duration::from_millis(backoff.next_delay()), Duration::from_secs(1));
    assert_eq!(Duration::from_millis(backoff.next_delay()), Duration::from_secs(2));
    assert_eq!(Duration::from_millis(backoff.next_delay()), Duration::from_secs(4));
    assert_eq!(Duration::from_millis(backoff.next_delay()), Duration::from_secs(5)); // capped
    assert_eq!(Duration::from_millis(backoff.next_delay()), Duration::from_secs(5)); // still capped
}

#[test]
fn test_backoff_reset() {
    let mut backoff = ExponentialBackoff::new(1000, 60000, 2);

    assert_eq!(Duration::from_millis(backoff.next_delay()), Duration::from_secs(1));
    assert_eq!(Duration::from_millis(backoff.next_delay()), Duration::from_secs(2));

    backoff.reset();

    assert_eq!(Duration::from_millis(backoff.next_delay()), Duration::from_secs(1));
}

#[test]
fn backoff_sequence_up_to_the_cap() {
    let mut backoff = ExponentialBackoff::new(1000, 60000, 2);
    let delays: Vec<u64> = (0..9).map(|_| backoff.next_delay()).collect();
    assert_eq!(delays, vec![1000, 2000, 4000, 8000, 16000, 32000, 60000, 60000, 60000]);
}

#[test]
fn backoff_initial_above_cap_is_capped() {
    let mut backoff = ExponentialBackoff::new(9000, 5000, 3);
    assert_eq!(backoff.next_delay(), 5000);
    assert_eq!(backoff.next_delay(), 5000);
}

#[test]
fn repeated_connect_failures_back_off() {
    let mut s = ReconnectingStream::new(config(None));
    let mut delays = Vec::new();
    for _ in 0..8 {
        let step = s.on_event(StreamEvent::<u32>::ConnectFailed(ws_error()));
        assert_eq!(step.emit, Some(Err(ws_error())));
        match step.next {
            Directive::Sleep(d) => delays.push(d),
            other => panic!("expected a sleep, got {:?}", other),
        }
        let step = s.on_event(StreamEvent::<u32>::DelayElapsed);
        assert_eq!(step.next, Directive::Connect);
    }
    assert_eq!(delays, vec![1000, 2000, 4000, 8000, 16000, 32000, 60000, 60000]);
}

#[test]
fn an_item_resets_the_backoff() {
    let mut s = ReconnectingStream::new(config(None));
    s.on_event(StreamEvent::<u32>::ConnectFailed(ws_error()));
    s.on_event(StreamEvent::<u32>::DelayElapsed);
    s.on_event(StreamEvent::<u32>::ConnectFailed(ws_error()));
    s.on_event(StreamEvent::<u32>::DelayElapsed);
    assert_eq!(s.on_event(StreamEvent::<u32>::ConnectSucceeded).next, Directive::Pull);
    let step = s.on_event(StreamEvent::Item(7u32));
    assert_eq!(step.emit, Some(Ok(7)));
    assert_eq!(step.next, Directive::Pull);
    let step = s.on_event(StreamEvent::<u32>::ItemError(ws_error()));
    assert_eq!(step.emit, Some(Err(ws_error())));
    assert_eq!(step.next, Directive::Sleep(1000));
}

#[test]
fn items_pass_through_in_order() {
    let mut s = ReconnectingStream::new(config(None));
    s.on_event(StreamEvent::<u32>::ConnectSucceeded);
    let got: Vec<_> = (1..=5u32).map(|i| s.on_event(StreamEvent::Item(i)).emit).collect();
    assert_eq!(got, (1..=5u32).map(|i| Some(Ok(i))).collect::<Vec<_>>());
}

#[test]
fn parse_failure_keeps_the_connection() {
    let mut s = ReconnectingStream::new(config(Some(1)));
    s.on_event(StreamEvent::<u32>::ConnectSucceeded);
    let step = s.on_event(StreamEvent::<u32>::ItemError(Error::Json("bad".to_string())));
    assert_eq!(step.emit, Some(Err(Error::Json("bad".to_string()))));
    assert_eq!(step.next, Directive::Pull);
    assert_eq!(s.state, StreamState::Connected);
}

#[test]
fn closed_connection_is_surfaced_then_reconnects() {
    let mut s = ReconnectingStream::new(config(None));
    s.on_event(StreamEvent::<u32>::ConnectSucceeded);
    let step = s.on_event(StreamEvent::<u32>::ItemError(Error::ConnectionClosed));
    assert_eq!(step.emit, Some(Err(Error::ConnectionClosed)));
    assert_eq!(step.gave_up, None);
    assert_eq!(step.next, Directive::Sleep(1000));
    assert_eq!(s.state, StreamState::Reconnecting { attempts: 1, delay_ms: 1000 });
    assert_eq!(s.on_event(StreamEvent::<u32>::DelayElapsed).next, Directive::Connect);
    assert_eq!(s.on_event(StreamEvent::<u32>::ConnectSucceeded).next, Directive::Pull);
    let step = s.on_event(StreamEvent::<u32>::Ended);
    assert_eq!(step.emit, None);
    assert_eq!(step.next, Directive::Sleep(2000));
}

#[test]
fn budget_of_three_ends_with_one_reconnect_failed() {
    let mut s = ReconnectingStream::new(config(Some(3)));
    let mut emitted = Vec::new();
    let mut connects = 0;
    let mut next = s.directive();
    let mut rounds = 0;
    while next != Directive::Finish && rounds < 20 {
        let event = match next {
            Directive::Connect => {
                connects += 1;
                StreamEvent::<u32>::ConnectFailed(ws_error())
            }
            Directive::Sleep(_) => StreamEvent::DelayElapsed,
            _ => StreamEvent::Ended,
        };
        let step = s.on_event(event);
        if let Some(e) = step.emit {
            emitted.push(e);
        }
        if let Some(e) = step.gave_up {
            emitted.push(Err(e));
        }
        next = step.next;
        rounds += 1;
    }
    assert_eq!(next, Directive::Finish);
    assert_eq!(connects, 3);
    assert_eq!(emitted.len(), 4);
    assert_eq!(&emitted[..3], &[Err(ws_error()), Err(ws_error()), Err(ws_error())]);
    let gave_up: Vec<_> = emitted.iter().filter(|e| matches!(e, Err(Error::ReconnectFailed { .. }))).collect();
    assert_eq!(gave_up.len(), 1);
    assert!(matches!(emitted.last(), Some(Err(Error::ReconnectFailed { attempts: 3, .. }))));
    for _ in 0..3 {
        let step = s.on_event(StreamEvent::<u32>::ConnectFailed(ws_error()));
        assert_eq!(step.emit, None);
        assert_eq!(step.gave_up, None);
        assert_eq!(step.next, Directive::Finish);
    }
}

#[test]
fn spent_budget_still_surfaces_the_stream_error() {
    let mut s = ReconnectingStream::new(config(Some(1)));
    s.on_event(StreamEvent::<u32>::ConnectSucceeded);
    let step = s.on_event(StreamEvent::<u32>::ItemError(ws_error()));
    assert_eq!(step.emit, Some(Err(ws_error())));
    assert!(matches!(step.gave_up, Some(Error::ReconnectFailed { attempts: 1, .. })));
    assert_eq!(step.next, Directive::Finish);
}

#[test]
fn spent_budget_on_clean_end_gives_up_only() {
    let mut s = ReconnectingStream::new(config(Some(1)));
    s.on_event(StreamEvent::<u32>::ConnectSucceeded);
    let step = s.on_event(StreamEvent::<u32>::Ended);
    assert_eq!(step.emit, None);
    assert!(matches!(step.gave_up, Some(Error::ReconnectFailed { attempts: 1, .. })));
    assert_eq!(step.next, Directive::Finish);
}

#[test]
fn dropping_a_connected_stream_yields_nothing_more() {
    let mut s = ReconnectingStream::new(config(None));
    s.on_event(StreamEvent::<u32>::ConnectSucceeded);
    s.close();
    assert_eq!(s.state, StreamState::Terminated);
    assert_eq!(s.directive(), Directive::Finish);
    let step = s.on_event(StreamEvent::Item(1u32));
    assert_eq!(step.emit, None);
    assert_eq!(step.next, Directive::Finish);
}

#[test]
fn default_config() {
    let c = ReconnectConfig::new();
    assert_eq!((c.initial_delay_ms, c.max_delay_ms, c.multiplier, c.max_attempts), (1000, 60000, 2, None));
}
