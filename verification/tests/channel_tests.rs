use minisync::channel::blocking_reply;
use minisync::channel::channel;
use minisync::channel::ChannelState;
use minisync::channel::RecvError;
use minisync::channel::SendError;
use minisync::channel::TryRecvError;

#[test]
fn state_keeps_arrival_order() {
    let mut state = ChannelState::new();
    assert!(state.push(1u32).is_ok());
    assert!(state.push(2u32).is_ok());
    assert_eq!(state.len(), 2);
    assert_eq!(state.take().unwrap(), 1);
    assert_eq!(state.take().unwrap(), 2);
    assert!(matches!(state.take(), Err(TryRecvError::Empty)));
    assert_eq!(state.len(), 0);
}

#[test]
fn closed_state_refuses_and_drains() {
    let mut state = ChannelState::new();
    state.push(10u8).unwrap();
    assert!(!state.is_closed());
    state.close();
    assert!(state.is_closed());
    match state.push(11u8) {
        Err(SendError(item)) => assert_eq!(item, 11),
        Ok(()) => panic!("a closed channel took an item"),
    }
    assert_eq!(state.len(), 1);
    assert_eq!(state.take().unwrap(), 10);
    assert!(matches!(state.take(), Err(TryRecvError::Disconnected)));
    state.close();
    assert!(state.is_closed());
}

#[test]
fn poll_reports_whether_to_wait() {
    let mut state = ChannelState::new();
    let mut found = Err(TryRecvError::Disconnected);
    assert!(state.poll(&mut found));
    assert!(matches!(found, Err(TryRecvError::Empty)));
    state.push(3i32).unwrap();
    assert!(!state.poll(&mut found));
    assert_eq!(found.unwrap(), 3);
    state.close();
    let mut found = Err(TryRecvError::Empty);
    assert!(!state.poll(&mut found));
    assert!(matches!(found, Err(TryRecvError::Disconnected)));
}

#[test]
fn blocking_reply_maps_both_cases() {
    assert_eq!(blocking_reply(Ok::<u8, TryRecvError>(4)).unwrap(), 4);
    assert!(matches!(
        blocking_reply(Err::<u8, TryRecvError>(TryRecvError::Disconnected)),
        Err(RecvError)
    ));
}

#[test]
fn recv_returns_items_in_order_sent() {
    let (tx, rx) = channel::<&str>();
    tx.send("a").unwrap();
    tx.send("b").unwrap();
    assert_eq!(rx.recv().unwrap(), "a");
    assert_eq!(rx.recv().unwrap(), "b");
}

#[test]
fn every_producer_is_heard_once() {
    let (tx, rx) = channel::<u32>();
    let producers: Vec<_> = (0..5).map(|_| tx.clone()).collect();
    drop(tx);
    for (id, producer) in producers.iter().enumerate() {
        producer.send(id as u32 * 10).unwrap();
        producer.send(id as u32 * 10 + 1).unwrap();
    }
    drop(producers);
    let mut got = Vec::new();
    while let Ok(item) = rx.recv() {
        got.push(item);
    }
    assert_eq!(got, vec![0, 1, 10, 11, 20, 21, 30, 31, 40, 41]);
}

#[test]
fn recv_fails_once_all_senders_are_gone() {
    let (tx, rx) = channel::<u8>();
    let other = tx.clone();
    drop(tx);
    assert!(matches!(rx.try_recv(), Err(TryRecvError::Empty)));
    drop(other);
    assert!(matches!(rx.recv(), Err(RecvError)));
    assert!(matches!(rx.try_recv(), Err(TryRecvError::Disconnected)));
}

#[test]
fn queued_items_outlive_the_senders() {
    let (tx, rx) = channel::<u8>();
    tx.send(1).unwrap();
    tx.send(2).unwrap();
    drop(tx);
    assert_eq!(rx.recv().unwrap(), 1);
    assert_eq!(rx.try_recv().unwrap(), 2);
    assert!(rx.recv().is_err());
}

#[test]
fn send_after_receiver_is_gone_returns_item() {
    let (tx, rx) = channel::<String>();
    drop(rx);
    match tx.send(String::from("kept")) {
        Err(SendError(item)) => assert_eq!(item, "kept"),
        Ok(()) => panic!("sent into a channel without a receiver"),
    }
    let clone = tx.clone();
    assert!(clone.send(String::from("again")).is_err());
}

#[test]
fn try_recv_tells_empty_from_disconnected() {
    let (tx, rx) = channel::<i64>();
    assert!(matches!(rx.try_recv(), Err(TryRecvError::Empty)));
    tx.send(-1).unwrap();
    assert_eq!(rx.try_recv().unwrap(), -1);
    assert!(matches!(rx.try_recv(), Err(TryRecvError::Empty)));
    drop(tx);
    assert!(matches!(rx.try_recv(), Err(TryRecvError::Disconnected)));
}
