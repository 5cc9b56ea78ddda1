use tdtp::channel::channel;
use tdtp::channel::client_channel;
use tdtp::channel::peer_alive;
use tdtp::channel::recv_on;
use tdtp::channel::send_on;
use tdtp::channel::TryRecvError;
use tdtp::channel::TrySendError;
use tdtp::client::IncomingDataPacket;
use tdtp::fifo::Fifo;

#[test]
fn consumer_reads_what_the_producer_sent_then_sees_the_disconnect() {
    let (tx, rx) = channel::<u64>(4);
    assert!(tx.try_send(1000).is_ok());
    assert!(tx.try_send(2000).is_ok());
    assert!(tx.try_send(3000).is_ok());
    drop(tx);
    assert_eq!(rx.try_recv(), Ok(1000));
    assert_eq!(rx.try_recv(), Ok(2000));
    assert_eq!(rx.try_recv(), Ok(3000));
    assert_eq!(rx.try_recv(), Err(TryRecvError::Disconnected));
    assert_eq!(rx.try_recv(), Err(TryRecvError::Disconnected));
}

#[test]
fn empty_is_not_disconnected() {
    let (tx, rx) = channel::<u64>(2);
    assert_eq!(rx.try_recv(), Err(TryRecvError::Empty));
    assert!(tx.try_send(1).is_ok());
    assert_eq!(rx.try_recv(), Ok(1));
    assert_eq!(rx.try_recv(), Err(TryRecvError::Empty));
    drop(tx);
    assert_eq!(rx.try_recv(), Err(TryRecvError::Disconnected));
}

#[test]
fn full_queue_hands_the_value_back() {
    let (tx, rx) = channel::<u64>(1);
    assert!(tx.try_send(7).is_ok());
    assert!(matches!(tx.try_send(8), Err(TrySendError::Full(8))));
    assert_eq!(rx.try_recv(), Ok(7));
    assert!(tx.try_send(8).is_ok());
    assert_eq!(rx.try_recv(), Ok(8));
    assert_eq!(rx.try_recv(), Err(TryRecvError::Empty));
}

#[test]
fn sender_learns_that_the_receiver_is_gone() {
    let (tx, rx) = channel::<u64>(2);
    assert!(tx.has_receiver());
    assert!(tx.try_send(4).is_ok());
    assert!(tx.has_receiver());
    drop(rx);
    assert!(!tx.has_receiver());
    assert!(!tx.has_receiver());
    assert!(matches!(tx.try_send(5), Err(TrySendError::Disconnected(5))));
}

#[test]
fn interleaved_sends_and_receives_keep_the_order() {
    let (tx, rx) = channel::<u64>(2);
    let mut got = Vec::new();
    let mut next = 0u64;
    for round in 0..50u64 {
        while next < 100 && tx.try_send(next).is_ok() {
            next += 1;
        }
        let take = 1 + round % 2;
        for _ in 0..take {
            if let Ok(v) = rx.try_recv() {
                got.push(v);
            }
        }
    }
    drop(tx);
    while let Ok(v) = rx.try_recv() {
        got.push(v);
    }
    let want: Vec<u64> = (0..next).collect();
    assert_eq!(got, want);
    assert!(next > 50);
}

#[test]
fn client_channel_carries_packets() {
    let (tx, rx) = client_channel(8);
    assert!(tx.has_receiver());
    assert!(tx.try_send(IncomingDataPacket { time: 1000 }).is_ok());
    assert!(tx.try_send(IncomingDataPacket { time: 2000 }).is_ok());
    assert_eq!(rx.try_recv(), Ok(IncomingDataPacket { time: 1000 }));
    assert_eq!(rx.try_recv(), Ok(IncomingDataPacket { time: 2000 }));
    assert_eq!(rx.try_recv(), Err(TryRecvError::Empty));
    drop(rx);
    assert!(!tx.has_receiver());
    assert!(matches!(
        tx.try_send(IncomingDataPacket { time: 3000 }),
        Err(TrySendError::Disconnected(IncomingDataPacket { time: 3000 }))
    ));
}

#[test]
fn client_receiver_sees_the_sender_leave() {
    let (tx, rx) = client_channel(1);
    assert!(tx.try_send(IncomingDataPacket { time: 9 }).is_ok());
    assert!(matches!(tx.try_send(IncomingDataPacket { time: 10 }), Err(TrySendError::Full(_))));
    drop(tx);
    assert_eq!(rx.try_recv(), Ok(IncomingDataPacket { time: 9 }));
    assert_eq!(rx.try_recv(), Err(TryRecvError::Disconnected));
}

#[test]
fn queue_is_bounded_and_first_in_first_out() {
    let mut q: Fifo<u64> = Fifo::new(3);
    assert!(q.is_empty());
    assert_eq!(q.len(), 0);
    assert_eq!(q.pop(), None);
    assert_eq!(q.push(10), Ok(()));
    assert_eq!(q.push(20), Ok(()));
    assert!(!q.is_full());
    assert_eq!(q.push(30), Ok(()));
    assert!(q.is_full());
    assert_eq!(q.len(), 3);
    assert_eq!(q.push(40), Err(40));
    assert_eq!(q.len(), 3);
    assert_eq!(q.pop(), Some(10));
    assert_eq!(q.push(40), Ok(()));
    assert_eq!(q.pop(), Some(20));
    assert_eq!(q.pop(), Some(30));
    assert_eq!(q.pop(), Some(40));
    assert_eq!(q.pop(), None);
    assert!(q.is_empty());
}

#[test]
fn a_raised_flag_means_that_the_peer_is_gone() {
    assert!(peer_alive(false));
    assert!(!peer_alive(true));
}

#[test]
fn send_and_receive_rules_on_a_queue() {
    let mut q: Fifo<u64> = Fifo::new(1);
    assert_eq!(recv_on(&mut q, false), Err(TryRecvError::Empty));
    assert_eq!(recv_on(&mut q, true), Err(TryRecvError::Disconnected));
    assert!(matches!(send_on(&mut q, true, 1), Err(TrySendError::Disconnected(1))));
    assert_eq!(q.len(), 0);
    assert!(send_on(&mut q, false, 2).is_ok());
    assert!(matches!(send_on(&mut q, false, 3), Err(TrySendError::Full(3))));
    assert_eq!(q.len(), 1);
    // A value that was sent before the sender left is still delivered.
    assert_eq!(recv_on(&mut q, true), Ok(2));
    assert_eq!(recv_on(&mut q, true), Err(TryRecvError::Disconnected));
}
