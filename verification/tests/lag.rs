//! The single-slot most-recent-wins channel.

use recap::lag::{LagChannel, RecvPoll};

#[test]
fn last_of_many_sends_wins() {
    let mut ch: LagChannel<u32> = LagChannel::new();
    for v in 1..=5u32 {
        assert!(ch.send(v).is_ok());
    }
    assert_eq!(ch.try_recv(), Some(5));
    assert_eq!(ch.try_recv(), None);
}

#[test]
fn receive_after_close_reports_closed() {
    let mut ch: LagChannel<u32> = LagChannel::new();
    ch.close();
    assert!(matches!(ch.poll_recv(), RecvPoll::Closed));
}

#[test]
fn receive_before_any_send_suspends() {
    let mut ch: LagChannel<u32> = LagChannel::new();
    assert!(matches!(ch.poll_recv(), RecvPoll::Pending));
    assert!(ch.send(9).is_ok());
    assert!(matches!(ch.poll_recv(), RecvPoll::Ready(9)));
    assert!(matches!(ch.poll_recv(), RecvPoll::Pending));
}

#[test]
fn send_on_closed_channel_hands_the_value_back() {
    let mut ch: LagChannel<u32> = LagChannel::new();
    ch.close();
    assert_eq!(ch.send(7), Err(7));
}

#[test]
fn dropping_the_last_sender_closes() {
    let mut ch: LagChannel<u32> = LagChannel::new();
    ch.clone_sender();
    ch.drop_sender();
    assert!(!ch.closed);
    ch.drop_sender();
    assert!(ch.closed);
}
