use ex_sctp::adapter::Adapter;
use ex_sctp::engine::Routed;
use ex_sctp::event::{Event, Inbound, StreamError};
use std::time::Instant;

/// Polls `from` until it is idle: datagrams go to `to`, everything else is
/// collected. Returns whether a datagram was moved.
fn drain(from: &mut Adapter, to: &mut Adapter, seen: &mut Vec<Event>) -> bool {
    let mut moved = false;
    for _ in 0..10_000 {
        match from.poll() {
            Event::Idle => return moved,
            Event::Transmit(datagrams) => {
                for d in datagrams {
                    to.handle_data(&d);
                    moved = true;
                }
            }
            other => seen.push(other),
        }
    }
    panic!("poll never became idle");
}

/// Moves datagrams both ways until neither side has any left.
fn exchange(a: &mut Adapter, b: &mut Adapter, a_seen: &mut Vec<Event>, b_seen: &mut Vec<Event>) {
    for _ in 0..1_000 {
        let a_moved = drain(a, b, a_seen);
        let b_moved = drain(b, a, b_seen);
        if !a_moved && !b_moved {
            return;
        }
    }
    panic!("the two sides never came to rest");
}

fn connected_pair() -> (Adapter, Adapter) {
    let mut a = Adapter::new();
    let mut b = Adapter::new();
    assert_eq!(a.connect(), Ok(()));
    let mut a_seen = Vec::new();
    let mut b_seen = Vec::new();
    exchange(&mut a, &mut b, &mut a_seen, &mut b_seen);
    assert!(a_seen.contains(&Event::Connected), "a saw {:?}", a_seen);
    assert!(b_seen.contains(&Event::Connected), "b saw {:?}", b_seen);
    (a, b)
}

fn drain_alone(a: &mut Adapter) -> Vec<Event> {
    let mut seen = Vec::new();
    for _ in 0..10_000 {
        match a.poll() {
            Event::Idle => return seen,
            other => seen.push(other),
        }
    }
    panic!("poll never became idle");
}

#[test]
fn new_adapter_has_nothing_pending() {
    let mut a = Adapter::new();
    assert!(!a.is_connected());
    assert_eq!(a.stream_ids(), Vec::<u16>::new());
    assert_eq!(a.poll(), Event::Idle);
    assert_eq!(a.poll(), Event::Idle);
}

#[test]
fn operations_without_an_association_are_refused() {
    let mut a = Adapter::new();
    assert_eq!(a.open_stream(1), Err(StreamError::NotConnected));
    assert_eq!(a.close_stream(1), Err(StreamError::NotConnected));
    assert_eq!(a.send(1, 53, b"hello"), Err(StreamError::NotConnected));
    assert_eq!(a.handle_timeout(), Err(StreamError::NotConnected));
    assert!(!a.is_connected());
    assert_eq!(a.stream_ids(), Vec::<u16>::new());
    assert_eq!(a.poll(), Event::Idle);
}

#[test]
fn malformed_datagram_is_ignored() {
    let mut a = Adapter::new();
    assert_eq!(a.handle_data(b"xx"), Inbound::Ignored);
    assert_eq!(a.handle_data(b""), Inbound::Ignored);
    assert!(!a.is_connected());
    assert_eq!(a.poll(), Event::Idle);
}

#[test]
fn connect_yields_datagrams_before_any_connected_event() {
    let mut a = Adapter::new();
    assert_eq!(a.connect(), Ok(()));
    assert!(a.is_connected());
    let seen = drain_alone(&mut a);
    assert!(matches!(seen.first(), Some(Event::Transmit(_))), "saw {:?}", seen);
    assert!(!seen.contains(&Event::Connected));
    for ev in &seen {
        assert!(matches!(ev, Event::Transmit(_) | Event::Timeout(_)), "saw {:?}", seen);
    }
}

#[test]
fn open_stream_during_the_handshake_is_refused() {
    let mut a = Adapter::new();
    assert_eq!(a.connect(), Ok(()));
    assert_eq!(a.open_stream(1), Err(StreamError::NotConnected));
    assert_eq!(a.stream_ids(), Vec::<u16>::new());
}

#[test]
fn first_datagram_starts_the_association_of_the_other_side() {
    let mut a = Adapter::new();
    let mut b = Adapter::new();
    assert_eq!(a.connect(), Ok(()));
    let Event::Transmit(datagrams) = a.poll() else {
        panic!("no datagram after connect");
    };
    assert!(!datagrams.is_empty());
    assert_eq!(b.handle_data(&datagrams[0]), Inbound::Accepted);
    assert!(b.is_connected());
}

#[test]
fn both_sides_report_connected_after_the_exchange() {
    let mut a = Adapter::new();
    let mut b = Adapter::new();
    assert_eq!(a.connect(), Ok(()));
    let mut a_seen = Vec::new();
    let mut b_seen = Vec::new();
    exchange(&mut a, &mut b, &mut a_seen, &mut b_seen);
    assert_eq!(a_seen.iter().filter(|e| **e == Event::Connected).count(), 1);
    assert_eq!(b_seen.iter().filter(|e| **e == Event::Connected).count(), 1);
    assert!(a.is_connected());
    assert!(b.is_connected());
}

#[test]
fn datagram_for_a_second_association_is_rejected() {
    let (mut a, _b) = connected_pair();
    let mut c = Adapter::new();
    assert_eq!(c.connect(), Ok(()));
    let Event::Transmit(datagrams) = c.poll() else {
        panic!("no datagram after connect");
    };
    let before = a.stream_ids();
    assert_eq!(a.handle_data(&datagrams[0]), Inbound::Rejected);
    assert!(a.is_connected());
    assert_eq!(a.stream_ids(), before);
}

#[test]
fn open_stream_registers_the_id_once() {
    let (mut a, _b) = connected_pair();
    assert_eq!(a.open_stream(1), Ok(()));
    assert_eq!(a.stream_ids(), vec![1]);
    assert_eq!(a.open_stream(1), Err(StreamError::AlreadyExists));
    assert_eq!(a.stream_ids(), vec![1]);
    assert_eq!(a.open_stream(2), Ok(()));
    assert_eq!(a.open_stream(1), Err(StreamError::AlreadyExists));
    assert_eq!(a.open_stream(2), Err(StreamError::AlreadyExists));
    assert_eq!(a.stream_ids(), vec![1, 2]);
}

#[test]
fn close_stream_of_an_unknown_id_is_refused() {
    let (mut a, _b) = connected_pair();
    assert_eq!(a.close_stream(1), Err(StreamError::InvalidId));
    assert_eq!(a.open_stream(1), Ok(()));
    assert_eq!(a.close_stream(2), Err(StreamError::InvalidId));
    assert_eq!(a.stream_ids(), vec![1]);
    assert_eq!(drain_alone(&mut a), Vec::<Event>::new());
}

#[test]
fn close_stream_takes_the_id_out() {
    let (mut a, _b) = connected_pair();
    assert_eq!(a.open_stream(1), Ok(()));
    assert_eq!(a.open_stream(2), Ok(()));
    assert_eq!(a.close_stream(1), Ok(()));
    assert_eq!(a.stream_ids(), vec![2]);
    assert_eq!(a.close_stream(1), Err(StreamError::InvalidId));
    assert_eq!(a.stream_ids(), vec![2]);
}

#[test]
fn send_on_a_stream_that_the_engine_lacks_is_refused() {
    let (mut a, _b) = connected_pair();
    assert_eq!(a.send(9, 53, b"hello"), Err(StreamError::InvalidId));
    assert_eq!(a.stream_ids(), Vec::<u16>::new());
}

#[test]
fn sent_message_arrives_exactly_once() {
    let (mut a, mut b) = connected_pair();
    assert_eq!(a.open_stream(1), Ok(()));
    assert_eq!(a.send(1, 53, b"hello"), Ok(()));
    let mut a_seen = Vec::new();
    let mut b_seen = Vec::new();
    exchange(&mut a, &mut b, &mut a_seen, &mut b_seen);
    let hello = Event::Data(1, 53, b"hello".to_vec());
    assert_eq!(b_seen.iter().filter(|e| **e == hello).count(), 1, "b saw {:?}", b_seen);
    assert_eq!(b_seen.iter().filter(|e| matches!(e, Event::Data(..))).count(), 1);
    assert!(!a_seen.iter().any(|e| matches!(e, Event::Data(..))));
    exchange(&mut a, &mut b, &mut a_seen, &mut b_seen);
    assert_eq!(b_seen.iter().filter(|e| matches!(e, Event::Data(..))).count(), 1);
}

#[test]
fn stream_opened_is_reported_before_its_data() {
    let (mut a, mut b) = connected_pair();
    assert_eq!(a.open_stream(1), Ok(()));
    assert_eq!(a.send(1, 51, b"hi"), Ok(()));
    let mut a_seen = Vec::new();
    let mut b_seen = Vec::new();
    exchange(&mut a, &mut b, &mut a_seen, &mut b_seen);
    let opened = b_seen.iter().position(|e| *e == Event::StreamOpened(1));
    let data = b_seen.iter().position(|e| matches!(e, Event::Data(1, 51, _)));
    assert!(opened.is_some(), "b saw {:?}", b_seen);
    assert!(data.is_some(), "b saw {:?}", b_seen);
    assert!(opened < data);
    assert_eq!(b.stream_ids(), vec![1]);
    assert_eq!(b.open_stream(1), Err(StreamError::AlreadyExists));
    assert_eq!(b.stream_ids(), vec![1]);
}

#[test]
fn both_directions_carry_data_on_one_stream() {
    let (mut a, mut b) = connected_pair();
    assert_eq!(a.open_stream(1), Ok(()));
    assert_eq!(a.send(1, 53, b"ping"), Ok(()));
    let mut a_seen = Vec::new();
    let mut b_seen = Vec::new();
    exchange(&mut a, &mut b, &mut a_seen, &mut b_seen);
    assert_eq!(b.send(1, 53, b"pong"), Ok(()));
    exchange(&mut a, &mut b, &mut a_seen, &mut b_seen);
    assert!(a_seen.contains(&Event::Data(1, 53, b"pong".to_vec())), "a saw {:?}", a_seen);
    assert!(a_seen.contains(&Event::StreamOpened(1)), "a saw {:?}", a_seen);
    assert_eq!(a.stream_ids(), vec![1]);
}

#[test]
fn idle_poll_stays_idle() {
    let (mut a, mut b) = connected_pair();
    assert_eq!(a.poll(), Event::Idle);
    assert_eq!(a.poll(), Event::Idle);
    assert_eq!(b.poll(), Event::Idle);
    assert_eq!(b.poll(), Event::Idle);
}

#[test]
fn unchanged_deadline_is_reported_once() {
    let mut a = Adapter::new();
    assert_eq!(a.connect(), Ok(()));
    let seen = drain_alone(&mut a);
    let timeouts = seen.iter().filter(|e| matches!(e, Event::Timeout(_))).count();
    assert_eq!(timeouts, 1, "saw {:?}", seen);
    assert!(matches!(seen.last(), Some(Event::Timeout(Some(_)))));
    assert_eq!(a.poll(), Event::Idle);
}

#[test]
fn handle_timeout_before_any_deadline_brings_no_event() {
    let (mut a, _b) = connected_pair();
    assert_eq!(a.handle_timeout(), Ok(()));
    assert_eq!(a.poll(), Event::Idle);
    assert!(a.is_connected());
}

#[test]
fn handle_timeout_right_after_connect_changes_nothing_observable() {
    let mut a = Adapter::new();
    assert_eq!(a.connect(), Ok(()));
    assert_eq!(a.handle_timeout(), Ok(()));
    assert!(matches!(a.poll(), Event::Transmit(_)));
    assert_eq!(a.stream_ids(), Vec::<u16>::new());
}

#[test]
fn closed_stream_is_reported_on_both_sides_and_can_be_reopened() {
    let (mut a, mut b) = connected_pair();
    assert_eq!(a.open_stream(1), Ok(()));
    assert_eq!(a.send(1, 53, b"hello"), Ok(()));
    let mut a_seen = Vec::new();
    let mut b_seen = Vec::new();
    exchange(&mut a, &mut b, &mut a_seen, &mut b_seen);
    assert_eq!(b.stream_ids(), vec![1]);
    assert_eq!(a.close_stream(1), Ok(()));
    assert_eq!(a.stream_ids(), Vec::<u16>::new());
    exchange(&mut a, &mut b, &mut a_seen, &mut b_seen);
    assert!(b_seen.contains(&Event::StreamClosed(1)), "b saw {:?}", b_seen);
    assert_eq!(b.stream_ids(), Vec::<u16>::new());
    assert_eq!(a.stream_ids(), Vec::<u16>::new());
    assert_eq!(a.open_stream(1), Ok(()));
    assert_eq!(a.stream_ids(), vec![1]);
    assert_eq!(a.open_stream(1), Err(StreamError::AlreadyExists));
}

#[test]
fn opened_stream_is_reported_to_the_opener_after_the_round_trip() {
    let (mut a, mut b) = connected_pair();
    assert_eq!(a.open_stream(1), Ok(()));
    assert_eq!(a.send(1, 53, b"hello"), Ok(()));
    let mut a_seen = Vec::new();
    let mut b_seen = Vec::new();
    exchange(&mut a, &mut b, &mut a_seen, &mut b_seen);
    assert!(b_seen.contains(&Event::StreamOpened(1)), "b saw {:?}", b_seen);
    assert_eq!(b.send(1, 53, b"world"), Ok(()));
    exchange(&mut a, &mut b, &mut a_seen, &mut b_seen);
    assert_eq!(a_seen.iter().filter(|e| **e == Event::StreamOpened(1)).count(), 1, "a saw {:?}", a_seen);
    assert_eq!(a.stream_ids(), vec![1]);
}

#[test]
fn relative_deadline_is_reported_in_milliseconds() {
    let mut a = Adapter::new();
    assert_eq!(a.connect(), Ok(()));
    let seen = drain_alone(&mut a);
    let Some(Event::Timeout(Some(ms))) = seen.last() else {
        panic!("no deadline after connect: {:?}", seen);
    };
    assert!(*ms > 0 && *ms <= 60_000, "deadline of {} ms", ms);
}

#[test]
fn send_on_a_stream_that_was_just_closed_fails() {
    let (mut a, _b) = connected_pair();
    assert_eq!(a.open_stream(1), Ok(()));
    assert_eq!(a.close_stream(1), Ok(()));
    assert_eq!(a.send(1, 53, b"late"), Err(StreamError::UnableToSend));
    assert_eq!(a.stream_ids(), Vec::<u16>::new());
}

#[test]
fn send_does_not_need_the_registry() {
    let (mut a, mut b) = connected_pair();
    assert_eq!(a.open_stream(3), Ok(()));
    assert_eq!(a.send(3, 51, b"one"), Ok(()));
    let mut a_seen = Vec::new();
    let mut b_seen = Vec::new();
    exchange(&mut a, &mut b, &mut a_seen, &mut b_seen);
    assert_eq!(
        b_seen.iter().filter(|e| matches!(e, Event::Data(..))).collect::<Vec<_>>(),
        vec![&Event::Data(3, 51, b"one".to_vec())]
    );
    assert_eq!(b.send(3, 51, b"two"), Ok(()));
}

#[test]
fn data_of_two_streams_comes_in_registration_order() {
    let (mut a, mut b) = connected_pair();
    assert_eq!(a.open_stream(2), Ok(()));
    assert_eq!(a.open_stream(1), Ok(()));
    assert_eq!(a.send(2, 53, b"first"), Ok(()));
    let mut a_seen = Vec::new();
    let mut b_seen = Vec::new();
    exchange(&mut a, &mut b, &mut a_seen, &mut b_seen);
    assert_eq!(a.send(1, 53, b"second"), Ok(()));
    exchange(&mut a, &mut b, &mut a_seen, &mut b_seen);
    assert_eq!(b.stream_ids(), vec![2, 1]);
    let data: Vec<&Event> = b_seen.iter().filter(|e| matches!(e, Event::Data(..))).collect();
    assert_eq!(
        data,
        vec![&Event::Data(2, 53, b"first".to_vec()), &Event::Data(1, 53, b"second".to_vec())]
    );
}

#[test]
fn reply_to_the_held_association_is_forwarded() {
    let mut a = Adapter::new();
    let mut b = Adapter::new();
    assert_eq!(a.connect(), Ok(()));
    let Event::Transmit(datagrams) = a.poll() else {
        panic!("no datagram after connect");
    };
    assert_eq!(b.handle_data(&datagrams[0]), Inbound::Accepted);
    let Event::Transmit(replies) = b.poll() else {
        panic!("no reply to the first datagram");
    };
    assert_eq!(a.handle_data(&replies[0]), Inbound::Forwarded);
    assert!(a.is_connected());
    assert_eq!(a.stream_ids(), Vec::<u16>::new());
}

#[test]
fn datagram_routed_nowhere_is_ignored() {
    let mut a = Adapter::new();
    assert_eq!(a.take_routed(Routed::Nowhere), Inbound::Ignored);
    assert!(!a.is_connected());
    let (mut c, _d) = connected_pair();
    assert_eq!(c.take_routed(Routed::Nowhere), Inbound::Ignored);
    assert!(c.is_connected());
    assert_eq!(c.poll(), Event::Idle);
}

#[test]
fn connect_on_a_fresh_endpoint_succeeds_and_may_be_repeated() {
    let mut a = Adapter::new();
    assert_eq!(a.connect(), Ok(()));
    assert!(a.is_connected());
    assert_eq!(a.connect(), Ok(()));
    assert!(a.is_connected());
    assert_eq!(a.stream_ids(), Vec::<u16>::new());
}

#[test]
fn classes_of_a_poll_on_a_fresh_adapter_return_nothing() {
    let mut a = Adapter::new();
    let now = Instant::now();
    assert_eq!(a.poll_endpoint(), None);
    assert_eq!(a.poll_outbound(&now), None);
    assert_eq!(a.poll_events(), None);
    assert_eq!(a.poll_data(), None);
    assert_eq!(a.poll_deadline(&now), None);
    assert!(!a.is_connected());
}

#[test]
fn classes_of_a_poll_are_served_in_their_order() {
    let mut a = Adapter::new();
    assert_eq!(a.connect(), Ok(()));
    let now = Instant::now();
    assert_eq!(a.poll_endpoint(), None);
    assert!(matches!(a.poll_outbound(&now), Some(Event::Transmit(_))));
    assert_eq!(a.poll_outbound(&now), None);
    assert_eq!(a.poll_events(), None);
    assert_eq!(a.poll_data(), None);
    assert!(matches!(a.poll_deadline(&now), Some(Event::Timeout(Some(_)))));
    assert_eq!(a.poll_deadline(&now), None);
    assert_eq!(a.poll(), Event::Idle);
}

#[test]
fn data_class_reads_the_first_registered_stream_first() {
    let (mut a, mut b) = connected_pair();
    assert_eq!(a.open_stream(5), Ok(()));
    assert_eq!(a.open_stream(4), Ok(()));
    assert_eq!(a.send(5, 53, b"five"), Ok(()));
    let mut a_seen = Vec::new();
    let mut b_seen = Vec::new();
    for _ in 0..100 {
        match a.poll() {
            Event::Transmit(datagrams) => {
                for d in datagrams {
                    b.handle_data(&d);
                }
            }
            Event::Idle => break,
            other => a_seen.push(other),
        }
    }
    assert_eq!(b.poll_events(), Some(Event::StreamOpened(5)));
    assert_eq!(a.send(4, 53, b"four"), Ok(()));
    for _ in 0..100 {
        match a.poll() {
            Event::Transmit(datagrams) => {
                for d in datagrams {
                    b.handle_data(&d);
                }
            }
            Event::Idle => break,
            other => a_seen.push(other),
        }
    }
    assert_eq!(b.poll_events(), Some(Event::StreamOpened(4)));
    assert_eq!(b.stream_ids(), vec![5, 4]);
    assert_eq!(b.poll_data(), Some(Event::Data(5, 53, b"five".to_vec())));
    assert_eq!(b.poll_data(), Some(Event::Data(4, 53, b"four".to_vec())));
    assert_eq!(b.poll_data(), None);
    exchange(&mut a, &mut b, &mut a_seen, &mut b_seen);
}
