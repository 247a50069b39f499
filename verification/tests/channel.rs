use worker_pool::channel::{Channel, RecvOutcome};
use worker_pool::outcome::Failure;

#[test]
fn channel_delivers_in_send_order() {
    let mut ch = Channel::new();
    for msg in ["Hello", "from", "Rust", "Thread!"] {
        assert_eq!(ch.send(msg.to_string()), Ok(()));
    }
    ch.drop_sender();
    let received = ch.drain();
    assert_eq!(received, vec!["Hello", "from", "Rust", "Thread!"]);
}

#[test]
fn channel_iteration_terminates_once_senders_are_gone() {
    let mut ch = Channel::new();
    assert_eq!(ch.send("only".to_string()), Ok(()));
    ch.drop_sender();
    // The queued message still comes out, then iteration ends at once
    // instead of waiting for a message that can never arrive.
    match ch.try_recv() {
        RecvOutcome::Message(m) => assert_eq!(m, "only"),
        _ => panic!("expected the queued message"),
    }
    assert!(matches!(ch.try_recv(), RecvOutcome::Disconnected));
    assert!(matches!(ch.try_recv(), RecvOutcome::Disconnected));
}

#[test]
fn channel_empty_but_open_asks_consumer_to_wait() {
    let mut ch = Channel::new();
    assert!(matches!(ch.try_recv(), RecvOutcome::Empty));
    assert_eq!(ch.send("late".to_string()), Ok(()));
    match ch.try_recv() {
        RecvOutcome::Message(m) => assert_eq!(m, "late"),
        _ => panic!("expected the late message"),
    }
}

#[test]
fn channel_send_after_receiver_dropped_fails() {
    let mut ch = Channel::new();
    ch.drop_receiver();
    assert_eq!(ch.send("lost".to_string()), Err(Failure::ChannelClosed));
}

#[test]
fn channel_cloned_senders_keep_it_open() {
    let mut ch = Channel::new();
    ch.clone_sender();
    ch.drop_sender();
    // One sender endpoint is still alive, so the channel stays open.
    assert!(matches!(ch.try_recv(), RecvOutcome::Empty));
    assert_eq!(ch.send("still open".to_string()), Ok(()));
    ch.drop_sender();
    let received = ch.drain();
    assert_eq!(received, vec!["still open"]);
}

#[test]
fn channel_drain_of_empty_channel_is_empty() {
    let mut ch = Channel::new();
    ch.drop_sender();
    assert_eq!(ch.drain(), Vec::<String>::new());
}
