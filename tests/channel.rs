use pollable::channel::{push_result, wake_write_error, WakeWrite};
use pollable::{pollable_channel, poll_fd_of, poll_for_read, AsPollFd, ChannelError, PollFd, TryRecvError};
use pollable::{WaitOutcome, POLLERR, POLLHUP, POLLIN, POLLNVAL};

#[test]
fn fifo_three_items_then_would_block() {
    let (mut tx, mut rx) = pollable_channel::<i32>().unwrap();
    tx.send(1).unwrap();
    tx.send(2).unwrap();
    tx.send(3).unwrap();
    assert_eq!(rx.try_recv(), Ok(1));
    assert_eq!(rx.try_recv(), Ok(2));
    assert_eq!(rx.try_recv(), Ok(3));
    assert_eq!(rx.try_recv(), Err(TryRecvError::WouldBlock));
}

#[test]
fn fifo_long_run_keeps_order() {
    let (mut tx, mut rx) = pollable_channel::<u64>().unwrap();
    for i in 0..200u64 {
        tx.send(i * 7).unwrap();
    }
    for i in 0..200u64 {
        assert_eq!(rx.try_recv(), Ok(i * 7));
    }
    assert_eq!(rx.try_recv(), Err(TryRecvError::WouldBlock));
}

#[test]
fn two_producer_threads_deliver_everything_once() {
    let (tx, mut rx) = pollable_channel::<u32>().unwrap();
    let mut a = tx.try_clone().unwrap();
    let mut b = tx.try_clone().unwrap();
    drop(tx);
    // Interleave the two producers unevenly: a few items from A, then from B.
    let mut next_a: u32 = 0;
    let mut next_b: u32 = 100;
    let mut round: u32 = 0;
    while next_a < 100 || next_b < 200 {
        for _ in 0..(round % 3 + 1) {
            if next_a < 100 {
                a.send(next_a).unwrap();
                next_a += 1;
            }
        }
        for _ in 0..(round % 5 + 1) {
            if next_b < 200 {
                b.send(next_b).unwrap();
                next_b += 1;
            }
        }
        round += 1;
    }
    drop(a);
    drop(b);
    let mut got = Vec::new();
    loop {
        match rx.try_recv() {
            Ok(v) => got.push(v),
            Err(TryRecvError::WouldBlock) => panic!("senders are gone: expected Disconnected"),
            Err(TryRecvError::Disconnected) => break,
        }
    }
    let from_a: Vec<u32> = got.iter().copied().filter(|v| *v < 100).collect();
    let from_b: Vec<u32> = got.iter().copied().filter(|v| *v >= 100).collect();
    assert_eq!(from_a, (0..100u32).collect::<Vec<u32>>());
    assert_eq!(from_b, (100..200u32).collect::<Vec<u32>>());
    let mut all = got.clone();
    all.sort();
    all.dedup();
    assert_eq!(all.len(), 200);
    assert_eq!(all, (0..200u32).collect::<Vec<u32>>());
}

#[test]
fn send_after_receiver_dropped_is_disconnected() {
    let (mut tx, rx) = pollable_channel::<i32>().unwrap();
    drop(rx);
    assert_eq!(tx.send(7), Err(ChannelError::Disconnected));
}

#[test]
fn clone_send_after_receiver_dropped_is_disconnected() {
    let (tx, rx) = pollable_channel::<i32>().unwrap();
    let mut other = tx.try_clone().unwrap();
    drop(rx);
    assert_eq!(other.send(7), Err(ChannelError::Disconnected));
}

#[test]
fn receive_after_all_senders_dropped_is_disconnected() {
    let (mut tx, mut rx) = pollable_channel::<i32>().unwrap();
    let clone = tx.try_clone().unwrap();
    tx.send(5).unwrap();
    drop(tx);
    drop(clone);
    assert_eq!(rx.try_recv(), Ok(5));
    assert_eq!(rx.try_recv(), Err(TryRecvError::Disconnected));
}

#[test]
fn empty_connected_channel_would_block() {
    let (_tx, mut rx) = pollable_channel::<i32>().unwrap();
    assert_eq!(rx.try_recv(), Err(TryRecvError::WouldBlock));
}

#[test]
fn repeated_receive_after_drain_is_stable() {
    let (mut tx, mut rx) = pollable_channel::<i32>().unwrap();
    tx.send(9).unwrap();
    assert_eq!(rx.try_recv(), Ok(9));
    for _ in 0..10 {
        assert_eq!(rx.try_recv(), Err(TryRecvError::WouldBlock));
    }
    drop(tx);
    for _ in 0..10 {
        assert_eq!(rx.try_recv(), Err(TryRecvError::Disconnected));
    }
}

#[test]
fn send_then_wait_returns_readable() {
    let (mut tx, rx) = pollable_channel::<i32>().unwrap();
    tx.send(1).unwrap();
    let mut records = vec![rx.as_poll_fd()];
    assert_eq!(poll_for_read(&mut records), WaitOutcome::Ready);
    assert_eq!(records.len(), 1);
    assert!(records[0].observed().0);
    assert!(!records[0].observed().1);
    assert_eq!(records[0].fd, rx.as_poll_fd().fd);
}

#[test]
fn drained_channel_is_not_readable_again() {
    let (mut tx, mut rx) = pollable_channel::<i32>().unwrap();
    tx.send(1).unwrap();
    tx.send(2).unwrap();
    assert_eq!(rx.try_recv(), Ok(1));
    let mut records = vec![rx.as_poll_fd()];
    assert_eq!(poll_for_read(&mut records), WaitOutcome::Ready);
    assert!(records[0].observed().0);
    assert_eq!(rx.try_recv(), Ok(2));
    tx.send(3).unwrap();
    let mut again = vec![rx.as_poll_fd()];
    assert_eq!(poll_for_read(&mut again), WaitOutcome::Ready);
    assert!(again[0].observed().0);
    assert_eq!(rx.try_recv(), Ok(3));
}

#[test]
fn record_of_raw_descriptor() {
    let r = poll_fd_of(42);
    assert_eq!(r, PollFd { fd: 42, events: 9, revents: 0 });
    let s = 17i32.as_poll_fd();
    assert_eq!(s, PollFd { fd: 17, events: POLLIN | POLLERR, revents: 0 });
}

#[test]
fn receiver_record_watches_read_end() {
    let (mut tx, mut rx) = pollable_channel::<i32>().unwrap();
    let r = rx.as_poll_fd();
    assert!(r.fd >= 0);
    assert_eq!(r.events, POLLIN | POLLERR);
    assert_eq!(r.revents, 0);
    assert_eq!(r.observed(), (false, false));
    tx.send(4).unwrap();
    assert_eq!(rx.try_recv(), Ok(4));
    assert_eq!(rx.as_poll_fd().fd, r.fd);
}

#[test]
fn wait_marks_only_the_ready_record() {
    let (mut tx1, rx1) = pollable_channel::<i32>().unwrap();
    let (_tx2, rx2) = pollable_channel::<i32>().unwrap();
    tx1.send(1).unwrap();
    let mut records = vec![rx2.as_poll_fd(), rx1.as_poll_fd()];
    assert_eq!(poll_for_read(&mut records), WaitOutcome::Ready);
    assert!(!records[0].observed().0);
    assert!(records[1].observed().0);
    assert_eq!(records[0].fd, rx2.as_poll_fd().fd);
    assert_eq!(records[1].fd, rx1.as_poll_fd().fd);
}

#[test]
fn wait_observes_hang_up_of_closed_peer() {
    let (tx, rx) = pollable_channel::<i32>().unwrap();
    drop(tx);
    let mut records = vec![rx.as_poll_fd()];
    assert_eq!(poll_for_read(&mut records), WaitOutcome::Ready);
    assert!(records[0].observed().0 || records[0].observed().1);
}

#[test]
fn wake_write_outcomes_map_to_errors() {
    assert_eq!(wake_write_error(&WakeWrite::Written(1)), None);
    assert_eq!(wake_write_error(&WakeWrite::Written(0)), Some(ChannelError::IoFailure));
    assert_eq!(wake_write_error(&WakeWrite::PeerGone), Some(ChannelError::Disconnected));
    assert_eq!(wake_write_error(&WakeWrite::Failed), Some(ChannelError::IoFailure));
}

#[test]
fn push_outcomes_map_to_results() {
    assert_eq!(push_result(true), Ok(()));
    assert_eq!(push_result(false), Err(ChannelError::Disconnected));
}

#[test]
fn cloned_sender_feeds_same_receiver() {
    let (mut tx, mut rx) = pollable_channel::<&'static str>().unwrap();
    let mut other = tx.try_clone().unwrap();
    tx.send("a").unwrap();
    other.send("b").unwrap();
    tx.send("c").unwrap();
    assert_eq!(rx.try_recv(), Ok("a"));
    assert_eq!(rx.try_recv(), Ok("b"));
    assert_eq!(rx.try_recv(), Ok("c"));
    drop(tx);
    assert_eq!(rx.try_recv(), Err(TryRecvError::WouldBlock));
    drop(other);
    assert_eq!(rx.try_recv(), Err(TryRecvError::Disconnected));
}

#[test]
fn full_wake_socket_fails_send_without_queueing() {
    let (mut tx, mut rx) = pollable_channel::<u32>().unwrap();
    let mut accepted: u32 = 0;
    let outcome = loop {
        match tx.send(accepted) {
            Ok(()) => accepted += 1,
            Err(e) => break e,
        }
        assert!(accepted < 10_000_000);
    };
    assert_eq!(outcome, ChannelError::IoFailure);
    assert!(accepted > 0);
    for i in 0..accepted {
        assert_eq!(rx.try_recv(), Ok(i));
    }
    assert_eq!(rx.try_recv(), Err(TryRecvError::WouldBlock));
    tx.send(77).unwrap();
    assert_eq!(rx.try_recv(), Ok(77));
}

#[test]
fn observed_flags_follow_event_bits() {
    let mut r = poll_fd_of(3);
    assert_eq!(r.observed(), (false, false));
    r.revents = POLLIN;
    assert_eq!(r.observed(), (true, false));
    r.revents = POLLERR;
    assert_eq!(r.observed(), (false, true));
    r.revents = POLLHUP;
    assert_eq!(r.observed(), (false, true));
    r.revents = POLLNVAL | POLLIN;
    assert_eq!(r.observed(), (true, true));
    r.revents = 0x4;
    assert_eq!(r.observed(), (false, false));
}

#[test]
fn cloned_sender_outlives_original() {
    let (tx, mut rx) = pollable_channel::<i32>().unwrap();
    let mut other = tx.try_clone().unwrap();
    drop(tx);
    other.send(11).unwrap();
    assert_eq!(rx.try_recv(), Ok(11));
    assert_eq!(rx.try_recv(), Err(TryRecvError::WouldBlock));
}
