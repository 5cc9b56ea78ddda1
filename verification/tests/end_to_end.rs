use std::collections::VecDeque;

use tdtp::channel::channel;
use tdtp::channel::client_channel;
use tdtp::channel::ClientReceiver;
use tdtp::channel::ClientSender;
use tdtp::channel::Receiver;
use tdtp::channel::TryRecvError;
use tdtp::channel::TrySendError;
use tdtp::client::data::DataAction;
use tdtp::client::data::DataClient;
use tdtp::client::data::DataEvent;
use tdtp::client::ClientError;
use tdtp::error::IoError;
use tdtp::error::IoErrorKind;
use tdtp::server::session::ServerAction;
use tdtp::server::session::ServerEvent;
use tdtp::server::session::ServerSession;
use tdtp::server::session::SessionOutcome;
use tdtp::server::OutgoingDataPacket;

/// A server and a client joined by two byte queues that stand for the socket.
struct Link {
    session: ServerSession,
    server_next: Option<ServerAction>,
    server_outcome: Option<SessionOutcome>,
    client: DataClient,
    client_next: Option<DataAction>,
    client_result: Option<Result<(), ClientError>>,
    to_server: VecDeque<u8>,
    to_client: VecDeque<u8>,
    sent_to_client: Vec<u8>,
    sent_to_server: Vec<u8>,
    heartbeats_seen: usize,
    packets_seen: usize,
}

fn take(queue: &mut VecDeque<u8>, n: usize) -> Vec<u8> {
    let n = n.min(queue.len());
    queue.drain(..n).collect()
}

impl Link {
    fn new() -> Link {
        let (session, first) = ServerSession::accept([127, 0, 0, 1], 1_000_000_000);
        let (client, hello) = DataClient::connect();
        Link {
            session,
            server_next: Some(first),
            server_outcome: None,
            client,
            client_next: Some(hello),
            client_result: None,
            to_server: VecDeque::new(),
            to_client: VecDeque::new(),
            sent_to_client: Vec::new(),
            sent_to_server: Vec::new(),
            heartbeats_seen: 0,
            packets_seen: 0,
        }
    }

    /// Lets the server perform its pending action, if it can without blocking.
    fn server_turn(&mut self, supplier: &Receiver<OutgoingDataPacket>) -> bool {
        let action = match self.server_next.take() {
            Some(action) => action,
            None => return false,
        };
        let client_gone = self.client_result.is_some();
        let event = match action {
            ServerAction::Read(n) => {
                if self.to_server.is_empty() && !client_gone {
                    self.server_next = Some(ServerAction::Read(n));
                    return false;
                }
                ServerEvent::Received(take(&mut self.to_server, n))
            }
            ServerAction::Probe(n) => {
                if self.to_server.is_empty() && !client_gone {
                    ServerEvent::Failed(IoError { kind: IoErrorKind::WouldBlock, code: None })
                } else {
                    ServerEvent::Received(take(&mut self.to_server, n))
                }
            }
            ServerAction::Poll => ServerEvent::Supplied(supplier.try_recv()),
            ServerAction::Write(bytes) => {
                self.sent_to_client.extend_from_slice(&bytes);
                self.to_client.extend(bytes);
                ServerEvent::Written
            }
            ServerAction::Shutdown(outcome) => {
                self.server_outcome = Some(outcome);
                return true;
            }
        };
        self.server_next = Some(self.session.step(event));
        true
    }

    /// Lets the client perform its pending action, if it can without blocking.
    fn client_turn(&mut self, sender: &ClientSender) -> bool {
        let action = match self.client_next.take() {
            Some(action) => action,
            None => return false,
        };
        let server_gone = self.server_outcome.is_some();
        let event = match action {
            DataAction::Write(bytes) => {
                self.sent_to_server.extend_from_slice(&bytes);
                self.to_server.extend(bytes);
                DataEvent::Written
            }
            DataAction::CheckConsumer => DataEvent::Consumer(sender.has_receiver()),
            DataAction::Read(n) => {
                if self.to_client.len() < n && !server_gone {
                    self.client_next = Some(DataAction::Read(n));
                    return false;
                }
                let bytes = take(&mut self.to_client, n);
                if n == 1 && bytes == [0x00] {
                    self.heartbeats_seen += 1;
                }
                if n == 1 && bytes == [0xFF] {
                    self.packets_seen += 1;
                }
                DataEvent::Received(bytes)
            }
            DataAction::Deliver(packet) => match sender.try_send(packet) {
                Ok(()) => DataEvent::Delivered(true),
                Err(TrySendError::Full(back)) => {
                    self.client_next = Some(DataAction::Deliver(back));
                    return false;
                }
                Err(TrySendError::Disconnected(_)) => DataEvent::Delivered(false),
            },
            DataAction::Shutdown(result) => {
                self.client_result = Some(result);
                return true;
            }
        };
        self.client_next = Some(self.client.step(event));
        true
    }

    fn finished(&self) -> bool {
        self.server_outcome.is_some() && self.client_result.is_some()
    }
}

fn drain(consumer: &ClientReceiver, into: &mut Vec<u64>) -> Option<TryRecvError> {
    loop {
        match consumer.try_recv() {
            Ok(packet) => into.push(packet.time),
            Err(e) => return Some(e),
        }
    }
}

#[test]
fn three_packets_cross_the_wire_in_order() {
    let (producer, supplier) = channel::<OutgoingDataPacket>(8);
    let (sender, consumer) = client_channel(8);
    for time in [1000u64, 2000, 3000] {
        assert!(producer.try_send(OutgoingDataPacket { time }).is_ok());
    }
    drop(producer);

    let mut link = Link::new();
    let mut got = Vec::new();
    for _ in 0..200 {
        link.server_turn(&supplier);
        link.client_turn(&sender);
        drain(&consumer, &mut got);
        if link.finished() {
            break;
        }
    }
    assert!(link.finished());
    assert_eq!(got, vec![1000, 2000, 3000]);
    assert_eq!(link.sent_to_server, vec![0x01]);
    let mut wire = Vec::new();
    for time in [1000u64, 2000, 3000] {
        wire.push(0xFF);
        wire.extend_from_slice(&time.to_le_bytes());
    }
    wire.extend_from_slice(&[0x11, 0x19]);
    assert_eq!(link.sent_to_client, wire);
    assert_eq!(link.server_outcome, Some(SessionOutcome::ChannelTermination));
    assert_eq!(link.client_result, Some(Ok(())));
    // The network loop is done with its sender: the consumer observes the disconnect.
    drop(sender);
    assert_eq!(drain(&consumer, &mut got), Some(TryRecvError::Disconnected));
    assert_eq!(got, vec![1000, 2000, 3000]);
}

#[test]
fn client_observes_heartbeats_while_the_producer_is_silent() {
    let (producer, supplier) = channel::<OutgoingDataPacket>(8);
    let (sender, consumer) = client_channel(8);
    let mut link = Link::new();
    let mut got = Vec::new();
    for _ in 0..100 {
        link.server_turn(&supplier);
        link.client_turn(&sender);
        drain(&consumer, &mut got);
    }
    assert!(link.heartbeats_seen >= 5);
    assert_eq!(link.packets_seen, 0);
    assert!(got.is_empty());
    assert!(!link.finished());
    assert!(link.sent_to_client.iter().all(|b| *b == 0x00));
    drop(producer);
}

#[test]
fn largest_timestamp_crosses_the_wire() {
    let (producer, supplier) = channel::<OutgoingDataPacket>(1);
    let (sender, consumer) = client_channel(1);
    assert!(producer.try_send(OutgoingDataPacket { time: u64::MAX }).is_ok());
    drop(producer);
    let mut link = Link::new();
    let mut got = Vec::new();
    for _ in 0..100 {
        link.server_turn(&supplier);
        link.client_turn(&sender);
        drain(&consumer, &mut got);
        if link.finished() {
            break;
        }
    }
    assert_eq!(got, vec![u64::MAX]);
    assert_eq!(&link.sent_to_client[..9], &[0xFF; 9]);
    assert_eq!(&link.sent_to_client[1..9], &[0xFF; 8]);
}

#[test]
fn consumer_that_leaves_ends_both_sides() {
    let (producer, supplier) = channel::<OutgoingDataPacket>(8);
    let (sender, consumer) = client_channel(8);
    assert!(producer.try_send(OutgoingDataPacket { time: 42 }).is_ok());
    let mut link = Link::new();
    let mut got = Vec::new();
    let mut consumer = Some(consumer);
    for _ in 0..400 {
        link.server_turn(&supplier);
        link.client_turn(&sender);
        if let Some(rx) = &consumer {
            drain(rx, &mut got);
        }
        if got.len() == 1 {
            // One packet was exchanged: the consumer destroys its receiver.
            consumer = None;
        }
        if link.finished() {
            break;
        }
    }
    assert!(link.finished());
    assert_eq!(got, vec![42]);
    assert_eq!(link.sent_to_server, vec![0x01, 0x11, 0x19]);
    assert_eq!(link.client_result, Some(Ok(())));
    assert_eq!(link.server_outcome, Some(SessionOutcome::Completed));
    let n = link.sent_to_client.len();
    assert_eq!(&link.sent_to_client[n - 2..], &[0x11, 0x19]);
    assert!(producer.has_receiver());
}

#[test]
fn full_consumer_channel_holds_the_client_back_without_losing_packets() {
    let (producer, supplier) = channel::<OutgoingDataPacket>(16);
    let (sender, consumer) = client_channel(1);
    for time in 1..=10u64 {
        assert!(producer.try_send(OutgoingDataPacket { time }).is_ok());
    }
    drop(producer);
    let mut link = Link::new();
    let mut got = Vec::new();
    for round in 0..2000 {
        link.server_turn(&supplier);
        link.client_turn(&sender);
        if round % 7 == 0 {
            if let Ok(packet) = consumer.try_recv() {
                got.push(packet.time);
            }
        }
        if link.finished() {
            break;
        }
    }
    drain(&consumer, &mut got);
    assert!(link.finished());
    assert_eq!(got, (1..=10).collect::<Vec<u64>>());
}

#[test]
fn first_byte_that_names_no_connection_type() {
    let (_producer, supplier) = channel::<OutgoingDataPacket>(1);
    let mut link = Link::new();
    // The client's greeting is replaced by a byte that names no connection type.
    link.client_next = None;
    link.to_server.push_back(0x7F);
    for _ in 0..10 {
        link.server_turn(&supplier);
    }
    assert_eq!(link.sent_to_client, vec![0x11, 0x18, 0x02, 0x11, 0x19]);
    assert!(link.server_outcome.is_some());
}
