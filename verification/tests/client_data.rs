use tdtp::client::data::DataAction;
use tdtp::client::data::DataClient;
use tdtp::client::data::DataEvent;
use tdtp::client::data::DataState;
use tdtp::client::ClientError;
use tdtp::client::IncomingDataPacket;
use tdtp::consts::ProtoError;
use tdtp::error::IoError;
use tdtp::error::IoErrorKind;

fn eof() -> ClientError {
    ClientError::IoError(IoError { kind: IoErrorKind::UnexpectedEof, code: None })
}

/// A client that has greeted the server and waits for its first signal.
fn waiting_client() -> DataClient {
    let (mut client, hello) = DataClient::connect();
    assert_eq!(hello, DataAction::Write(vec![0x01]));
    assert_eq!(client.state(), DataState::Greeting);
    assert_eq!(client.step(DataEvent::Written), DataAction::CheckConsumer);
    assert_eq!(client.step(DataEvent::Consumer(true)), DataAction::Read(1));
    assert_eq!(client.state(), DataState::AwaitingSignal);
    client
}

#[test]
fn client_announces_a_data_connection() {
    let (client, hello) = DataClient::connect();
    assert_eq!(hello, DataAction::Write(vec![0x01]));
    assert!(!client.is_closed());
}

#[test]
fn client_sees_heartbeats_and_no_packets_while_the_supplier_is_silent() {
    let mut client = waiting_client();
    let mut heartbeats = 0;
    for _ in 0..5 {
        let action = client.step(DataEvent::Received(vec![0x00]));
        assert_eq!(action, DataAction::CheckConsumer);
        heartbeats += 1;
        assert_eq!(client.step(DataEvent::Consumer(true)), DataAction::Read(1));
    }
    assert_eq!(heartbeats, 5);
    assert_eq!(client.state(), DataState::AwaitingSignal);
}

#[test]
fn client_decodes_the_largest_payload() {
    let mut client = waiting_client();
    assert_eq!(client.step(DataEvent::Received(vec![0xFF])), DataAction::Read(8));
    assert_eq!(
        client.step(DataEvent::Received(vec![0xFF; 8])),
        DataAction::Deliver(IncomingDataPacket { time: u64::MAX })
    );
    assert_eq!(client.state(), DataState::Delivering);
    assert_eq!(client.step(DataEvent::Delivered(true)), DataAction::CheckConsumer);
}

#[test]
fn client_delivers_packets_in_order() {
    let mut client = waiting_client();
    let mut delivered = Vec::new();
    for v in [1000u64, 2000, 3000] {
        assert_eq!(client.step(DataEvent::Received(vec![0xFF])), DataAction::Read(8));
        match client.step(DataEvent::Received(v.to_le_bytes().to_vec())) {
            DataAction::Deliver(p) => delivered.push(p.time),
            other => panic!("unexpected action {:?}", other),
        }
        assert_eq!(client.step(DataEvent::Delivered(true)), DataAction::CheckConsumer);
        assert_eq!(client.step(DataEvent::Consumer(true)), DataAction::Read(1));
    }
    assert_eq!(delivered, vec![1000, 2000, 3000]);
}

#[test]
fn client_says_goodbye_when_the_consumer_is_gone_at_the_top_of_a_round() {
    let (mut client, _) = DataClient::connect();
    assert_eq!(client.step(DataEvent::Written), DataAction::CheckConsumer);
    assert_eq!(client.step(DataEvent::Consumer(false)), DataAction::Write(vec![0x11, 0x19]));
    assert_eq!(client.state(), DataState::Closing(Ok(())));
    assert_eq!(client.step(DataEvent::Written), DataAction::Shutdown(Ok(())));
    assert!(client.is_closed());
}

#[test]
fn client_leaves_within_one_heartbeat_after_the_consumer_is_gone() {
    let mut client = waiting_client();
    assert_eq!(client.step(DataEvent::Received(vec![0x00])), DataAction::CheckConsumer);
    assert_eq!(client.step(DataEvent::Consumer(false)), DataAction::Write(vec![0x11, 0x19]));
    assert_eq!(client.step(DataEvent::Written), DataAction::Shutdown(Ok(())));
}

#[test]
fn client_leaves_when_delivery_fails_after_one_packet_was_exchanged() {
    let mut client = waiting_client();
    assert_eq!(client.step(DataEvent::Received(vec![0xFF])), DataAction::Read(8));
    assert_eq!(
        client.step(DataEvent::Received(1000u64.to_le_bytes().to_vec())),
        DataAction::Deliver(IncomingDataPacket { time: 1000 })
    );
    assert_eq!(client.step(DataEvent::Delivered(true)), DataAction::CheckConsumer);
    assert_eq!(client.step(DataEvent::Consumer(true)), DataAction::Read(1));
    // The consumer vanishes while the client waits for the next signal.
    assert_eq!(client.step(DataEvent::Received(vec![0xFF])), DataAction::Read(8));
    assert_eq!(
        client.step(DataEvent::Received(2000u64.to_le_bytes().to_vec())),
        DataAction::Deliver(IncomingDataPacket { time: 2000 })
    );
    assert_eq!(client.step(DataEvent::Delivered(false)), DataAction::Write(vec![0x11, 0x19]));
    assert_eq!(client.step(DataEvent::Written), DataAction::Shutdown(Ok(())));
    assert_eq!(client.state(), DataState::Closed(Ok(())));
}

#[test]
fn client_farewell_is_best_effort() {
    let mut client = waiting_client();
    assert_eq!(client.step(DataEvent::Received(vec![0x00])), DataAction::CheckConsumer);
    assert_eq!(client.step(DataEvent::Consumer(false)), DataAction::Write(vec![0x11, 0x19]));
    let broken = IoError { kind: IoErrorKind::Other, code: Some(32) };
    assert_eq!(client.step(DataEvent::Failed(broken)), DataAction::Shutdown(Ok(())));
}

#[test]
fn client_ends_when_the_server_says_exit() {
    let mut client = waiting_client();
    assert_eq!(client.step(DataEvent::Received(vec![0x11])), DataAction::Read(1));
    assert_eq!(client.state(), DataState::AwaitingCtrlOp);
    assert_eq!(client.step(DataEvent::Received(vec![0x19])), DataAction::Shutdown(Ok(())));
    assert_eq!(client.state(), DataState::Closed(Ok(())));
}

#[test]
fn client_reports_the_error_that_the_server_sent() {
    for (kind, want) in [
        (0x01u8, ProtoError::Invalid),
        (0x02, ProtoError::UnknownConnection),
        (0x03, ProtoError::Eof),
        (0x55, ProtoError::Invalid),
    ] {
        let mut client = waiting_client();
        assert_eq!(client.step(DataEvent::Received(vec![0x11])), DataAction::Read(1));
        assert_eq!(client.step(DataEvent::Received(vec![0x18])), DataAction::Read(1));
        assert_eq!(client.state(), DataState::AwaitingErrKind);
        assert_eq!(
            client.step(DataEvent::Received(vec![kind])),
            DataAction::Shutdown(Err(ClientError::ProtoError(want)))
        );
    }
}

#[test]
fn client_ends_with_success_on_a_clean_end_of_stream() {
    let mut client = waiting_client();
    assert_eq!(client.step(DataEvent::Received(vec![])), DataAction::Shutdown(Ok(())));
}

#[test]
fn client_fails_when_the_stream_ends_inside_a_frame() {
    let mut client = waiting_client();
    assert_eq!(client.step(DataEvent::Received(vec![0xFF])), DataAction::Read(8));
    assert_eq!(
        client.step(DataEvent::Received(vec![1, 2, 3])),
        DataAction::Shutdown(Err(eof()))
    );
    let mut client = waiting_client();
    assert_eq!(client.step(DataEvent::Received(vec![0x11])), DataAction::Read(1));
    assert_eq!(client.step(DataEvent::Received(vec![])), DataAction::Shutdown(Err(eof())));
    let mut client = waiting_client();
    assert_eq!(client.step(DataEvent::Received(vec![0x11])), DataAction::Read(1));
    assert_eq!(client.step(DataEvent::Received(vec![0x18])), DataAction::Read(1));
    assert_eq!(client.step(DataEvent::Received(vec![])), DataAction::Shutdown(Err(eof())));
}

#[test]
fn client_rejects_an_unknown_signal() {
    let invalid = Err(ClientError::ProtoError(ProtoError::Invalid));
    for byte in [0x01u8, 0x19, 0x7F, 0xFE] {
        let mut client = waiting_client();
        assert_eq!(
            client.step(DataEvent::Received(vec![byte])),
            DataAction::Write(vec![0x11, 0x18, 0x01, 0x11, 0x19])
        );
        assert_eq!(client.state(), DataState::Closing(invalid));
        assert_eq!(client.step(DataEvent::Written), DataAction::Shutdown(invalid));
    }
}

#[test]
fn client_rejects_an_unknown_control_operation() {
    let invalid = Err(ClientError::ProtoError(ProtoError::Invalid));
    for op in [0x17u8, 0x00, 0x11, 0xFF] {
        let mut client = waiting_client();
        assert_eq!(client.step(DataEvent::Received(vec![0x11])), DataAction::Read(1));
        assert_eq!(
            client.step(DataEvent::Received(vec![op])),
            DataAction::Write(vec![0x11, 0x18, 0x01, 0x11, 0x19])
        );
        assert_eq!(client.step(DataEvent::Written), DataAction::Shutdown(invalid));
    }
}

#[test]
fn client_gives_up_when_the_transport_fails() {
    let reset = IoError { kind: IoErrorKind::Other, code: Some(104) };
    let failed = Err(ClientError::IoError(reset));
    let (mut client, _) = DataClient::connect();
    assert_eq!(client.step(DataEvent::Failed(reset)), DataAction::Shutdown(failed));
    let mut client = waiting_client();
    assert_eq!(client.step(DataEvent::Failed(reset)), DataAction::Shutdown(failed));
    let mut client = waiting_client();
    assert_eq!(client.step(DataEvent::Received(vec![0xFF])), DataAction::Read(8));
    assert_eq!(client.step(DataEvent::Failed(reset)), DataAction::Shutdown(failed));
    assert_eq!(client.state(), DataState::Closed(failed));
}

#[test]
fn client_stays_closed() {
    let mut client = waiting_client();
    assert_eq!(client.step(DataEvent::Received(vec![])), DataAction::Shutdown(Ok(())));
    assert_eq!(client.step(DataEvent::Received(vec![0xFF])), DataAction::Shutdown(Ok(())));
    assert_eq!(client.step(DataEvent::Consumer(true)), DataAction::Shutdown(Ok(())));
    assert!(client.is_closed());
}

#[test]
fn client_rejects_an_event_that_cannot_follow_its_action() {
    let invalid = Err(ClientError::ProtoError(ProtoError::Invalid));
    let mut client = waiting_client();
    assert_eq!(
        client.step(DataEvent::Delivered(true)),
        DataAction::Write(vec![0x11, 0x18, 0x01, 0x11, 0x19])
    );
    assert_eq!(client.step(DataEvent::Written), DataAction::Shutdown(invalid));
    let mut client = waiting_client();
    assert_eq!(
        client.step(DataEvent::Received(vec![0x00, 0x00])),
        DataAction::Write(vec![0x11, 0x18, 0x01, 0x11, 0x19])
    );
}
