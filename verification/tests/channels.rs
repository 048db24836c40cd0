use crossbeam_channel::bounded;
use pony_renderer::thread_utils::custom_beams::{
    loose, loose_step, LooseStep, SendTimeoutError, TrySendError,
};

#[test]
fn a_full_loose_channel_drops_its_oldest_message() {
    let (mut sender, receiver) = loose::<u32>(1);
    assert!(sender.loosely_send(1).is_ok());
    assert!(sender.is_full());
    assert!(sender.loosely_send(2).is_ok());
    assert_eq!(sender.len(), 1);
    assert_eq!(receiver.try_recv(), Ok(2));
    assert!(sender.is_empty());
    assert_eq!(sender.capacity(), Some(1));
}

#[test]
fn plain_sends_give_the_message_back() {
    let (mut sender, receiver) = loose::<u32>(1);
    assert!(sender.try_send(5).is_ok());
    assert!(matches!(sender.try_send(6), Err(TrySendError::Full(6))));
    assert!(matches!(sender.send_timeout(7, std::time::Duration::from_millis(1)), Err(_)));
    assert_eq!(receiver.recv(), Ok(5));
    assert!(sender.send(8).is_ok());
    assert!(sender.send_deadline(9, std::time::Instant::now()).is_err());
    let (other, _) = bounded::<u32>(1);
    assert!(!sender.same_channel(&other));
}

#[test]
fn loose_steps() {
    assert!(matches!(loose_step::<u8>(Ok(())), LooseStep::Done(Ok(()))));
    assert!(matches!(loose_step(Err(TrySendError::Full(4u8))), LooseStep::Retry(4)));
    assert!(matches!(loose_step(Err(TrySendError::Disconnected(4u8))), LooseStep::Done(Err(TrySendError::Disconnected(4)))));
}

#[test]
fn refused_messages_come_back_unchanged() {
    let (mut sender, receiver) = loose::<u32>(1);
    assert!(sender.try_send(1).is_ok());
    assert!(matches!(sender.send_timeout(7, std::time::Duration::from_millis(1)), Err(SendTimeoutError::Timeout(7))));
    assert!(matches!(sender.send_deadline(9, std::time::Instant::now()), Err(SendTimeoutError::Timeout(9))));
    drop(receiver);
    // The loose sender keeps a receiving end of its own, so dropping the
    // caller's end does not disconnect the channel: a full channel makes
    // room for the newest message instead.
    assert!(sender.loosely_send(3).is_ok());
    assert!(matches!(sender.try_send(4), Err(TrySendError::Full(4))));
}

