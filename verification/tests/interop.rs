use tdtp::channel::TryRecvError;
use tdtp::client::ClientError;
use tdtp::client::IncomingDataPacket;
use tdtp::consts::ProtoError;
use tdtp::error::IoError;
use tdtp::error::IoErrorKind;
use tdtp::interop::data_exit_code;
use tdtp::interop::server_exit_code;
use tdtp::interop::try_recv_exit_code;
use tdtp::server::OutgoingDataPacket;
use tdtp::server::ServerError;
use tdtp::server::ServiceError;

#[test]
fn client_return_codes() {
    assert_eq!(data_exit_code(Ok(())), 0);
    let refused = IoError { kind: IoErrorKind::Other, code: Some(111) };
    assert_eq!(data_exit_code(Err(ClientError::IoError(refused))), 111);
    assert_eq!(data_exit_code(Err(ClientError::IoError(IoError::unexpected_eof()))), -1);
    assert_eq!(data_exit_code(Err(ClientError::ProtoError(ProtoError::Invalid))), -1);
}

#[test]
fn server_return_codes() {
    assert_eq!(server_exit_code(Ok(())), 0);
    assert_eq!(server_exit_code(Err(ServerError::ChannelTermination)), -2);
    let in_use = IoError { kind: IoErrorKind::Other, code: Some(98) };
    assert_eq!(server_exit_code(Err(ServerError::IoError(in_use))), 98);
    let plain = IoError { kind: IoErrorKind::Other, code: None };
    assert_eq!(server_exit_code(Err(ServerError::IoError(plain))), -1);
}

#[test]
fn try_recv_return_codes() {
    let p = IncomingDataPacket { time: 77 };
    assert_eq!(try_recv_exit_code(Ok(p)), (0, Some(p)));
    assert_eq!(try_recv_exit_code(Err(TryRecvError::Disconnected)), (1, None));
    assert_eq!(try_recv_exit_code(Err(TryRecvError::Empty)), (2, None));
}

#[test]
fn errors_convert_into_the_wider_errors() {
    let io = IoError { kind: IoErrorKind::WouldBlock, code: Some(11) };
    assert_eq!(ServerError::from(io), ServerError::IoError(io));
    assert_eq!(ServiceError::from(io), ServiceError::IoError(io));
    assert_eq!(ServiceError::from(ProtoError::Eof), ServiceError::ProtoError(ProtoError::Eof));
    assert_eq!(ClientError::from(io), ClientError::IoError(io));
    assert_eq!(
        ClientError::from(ProtoError::UnknownConnection),
        ClientError::ProtoError(ProtoError::UnknownConnection)
    );
}

#[test]
fn server_errors_describe_themselves() {
    assert_eq!(ServerError::ChannelTermination.message(), "Channel disconnected");
    let eof = IoError::unexpected_eof();
    assert_eq!(ServerError::IoError(eof).message(), "unexpected end of file");
    let wb = IoError { kind: IoErrorKind::WouldBlock, code: None };
    assert!(wb.is_would_block());
    assert!(!eof.is_would_block());
    assert_eq!(ServerError::IoError(wb).message(), "operation would block");
    assert_eq!(IoErrorKind::Other.describe(), "other error");
}

#[test]
fn outgoing_packet_is_eight_little_endian_bytes() {
    assert_eq!(OutgoingDataPacket { time: 1000 }.as_bytes(), 1000u64.to_le_bytes());
    assert_eq!(OutgoingDataPacket { time: u64::MAX }.as_bytes(), [0xFF; 8]);
    assert_eq!(OutgoingDataPacket { time: 0 }.as_bytes(), [0; 8]);
    assert_eq!(
        OutgoingDataPacket { time: 0x1122_3344_5566_7788 }.as_bytes(),
        [0x88, 0x77, 0x66, 0x55, 0x44, 0x33, 0x22, 0x11]
    );
}
