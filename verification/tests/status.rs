use tdtp::client::status::parse_status_response;
use tdtp::client::status::status_request;
use tdtp::client::status::status_response_complete;
use tdtp::client::status::StatusResponse;
use tdtp::client::ClientError;
use tdtp::consts::ProtoError;
use tdtp::consts::StatusData;
use tdtp::consts::StatusDataFlag;
use tdtp::error::IoError;
use tdtp::error::IoErrorKind;
use tdtp::field::field_len;
use tdtp::field::is_nul_free;
use tdtp::server::status::status_handler;
use tdtp::server::status::status_request_complete;
use tdtp::version::Version;

fn eof() -> ClientError {
    ClientError::IoError(IoError { kind: IoErrorKind::UnexpectedEof, code: None })
}

#[test]
fn status_request_with_all_flags_and_echo_hello() {
    let request = status_request(StatusData::all(), Some(b"Hello"));
    assert_eq!(request, vec![0x02, 0xF0, b'H', b'e', b'l', b'l', b'o', 0x00, 0x11, 0x17]);
}

#[test]
fn status_request_without_echo_has_no_echo_segment() {
    let flags = StatusData::all().without(StatusDataFlag::Echo);
    assert_eq!(status_request(flags, None), vec![0x02, 0xD0, 0x11, 0x17]);
    assert_eq!(status_request(flags, Some(b"ignored")), vec![0x02, 0xD0, 0x11, 0x17]);
    assert_eq!(status_request(StatusData::empty(), None), vec![0x02, 0x00, 0x11, 0x17]);
}

#[test]
fn status_request_with_empty_echo() {
    let flags = StatusData::empty().with(StatusDataFlag::Echo);
    assert_eq!(status_request(flags, Some(b"")), vec![0x02, 0x20, 0x00, 0x11, 0x17]);
}

#[test]
fn status_exchange_with_all_flags_and_echo_hello() {
    let flags = StatusData::all();
    let request = status_request(flags, Some(b"Hello"));
    let now: u128 = 1_761_690_000_123_456_789;
    let fields = status_handler(&request[1..], [192, 168, 1, 7], now, Version::get()).unwrap();
    let mut wire = fields;
    wire.extend_from_slice(&[0x11, 0x17, 0x11, 0x19]);
    let response = parse_status_response(flags, &wire).unwrap();
    assert_eq!(response.ip.unwrap().len(), 4);
    assert_eq!(response.ver.unwrap().len(), 3);
    assert!(response.time.unwrap() != 0);
    assert_eq!(response.echo.as_deref(), Some(&b"Hello"[..]));
    assert_eq!(
        response,
        StatusResponse {
            ip: Some([192, 168, 1, 7]),
            time: Some(now),
            ver: Some([0, 1, 0]),
            echo: Some(b"Hello".to_vec()),
        }
    );
}

#[test]
fn status_fields_are_in_wire_order() {
    let now: u128 = 0x0102_0304_0506_0708_090A_0B0C_0D0E_0F10;
    let request = [0xF0, b'h', b'i', 0x00, 0x11, 0x17];
    let fields = status_handler(&request, [10, 0, 0, 1], now, Version::new(1, 2, 3)).unwrap();
    let mut want = vec![10, 0, 0, 1];
    want.extend_from_slice(&now.to_le_bytes());
    want.extend_from_slice(&[1, 2, 3]);
    want.extend_from_slice(&[b'h', b'i', 0x00]);
    assert_eq!(fields, want);
}

#[test]
fn status_fields_follow_the_flags() {
    let v = Version::new(4, 5, 6);
    assert_eq!(status_handler(&[0x00, 0x11, 0x17], [1, 2, 3, 4], 9, v), Ok(vec![]));
    assert_eq!(status_handler(&[0x80, 0x11, 0x17], [1, 2, 3, 4], 9, v), Ok(vec![1, 2, 3, 4]));
    assert_eq!(status_handler(&[0x10, 0x11, 0x17], [1, 2, 3, 4], 9, v), Ok(vec![4, 5, 6]));
    let mut time = vec![9];
    time.extend_from_slice(&[0; 15]);
    assert_eq!(status_handler(&[0x40, 0x11, 0x17], [1, 2, 3, 4], 9, v), Ok(time));
    assert_eq!(status_handler(&[0x20, 0x00, 0x11, 0x17], [1, 2, 3, 4], 9, v), Ok(vec![0x00]));
    assert_eq!(
        status_handler(&[0x90, 0x11, 0x17], [1, 2, 3, 4], 9, v),
        Ok(vec![1, 2, 3, 4, 4, 5, 6])
    );
    // Reserved bits ask for nothing.
    assert_eq!(status_handler(&[0x0F, 0x11, 0x17], [1, 2, 3, 4], 9, v), Ok(vec![]));
}

#[test]
fn status_handler_rejects_a_request_that_ends_early() {
    let v = Version::get();
    assert_eq!(status_handler(&[], [1, 2, 3, 4], 9, v), Err(ProtoError::Eof));
    assert_eq!(status_handler(&[0xF0], [1, 2, 3, 4], 9, v), Err(ProtoError::Eof));
    assert_eq!(status_handler(&[0x00, 0x11], [1, 2, 3, 4], 9, v), Err(ProtoError::Eof));
    assert_eq!(status_handler(&[0x20, b'a', b'b'], [1, 2, 3, 4], 9, v), Err(ProtoError::Eof));
    assert_eq!(status_handler(&[0x20, b'a', 0x00, 0x11], [1, 2, 3, 4], 9, v), Err(ProtoError::Eof));
}

#[test]
fn status_handler_rejects_a_bad_trailer() {
    let v = Version::get();
    assert_eq!(status_handler(&[0x00, 0x11, 0x19], [1, 2, 3, 4], 9, v), Err(ProtoError::Invalid));
    assert_eq!(status_handler(&[0x00, 0x17, 0x11], [1, 2, 3, 4], 9, v), Err(ProtoError::Invalid));
    assert_eq!(
        status_handler(&[0x20, b'a', 0x00, b'b', 0x00, 0x11, 0x17], [1, 2, 3, 4], 9, v),
        Err(ProtoError::Invalid)
    );
    // Without the echo flag the bytes after the flag byte are the trailer.
    assert_eq!(
        status_handler(&[0x00, b'a', 0x00, 0x11, 0x17], [1, 2, 3, 4], 9, v),
        Err(ProtoError::Invalid)
    );
}

#[test]
fn status_request_is_whole_after_its_trailer() {
    assert!(!status_request_complete(&[]));
    assert!(!status_request_complete(&[0x00]));
    assert!(!status_request_complete(&[0x00, 0x11]));
    assert!(status_request_complete(&[0x00, 0x11, 0x17]));
    assert!(status_request_complete(&[0x00, 0x12, 0x34]));
    assert!(!status_request_complete(&[0x20, b'a', b'b', b'c']));
    assert!(!status_request_complete(&[0x20, b'a', 0x00]));
    assert!(!status_request_complete(&[0x20, b'a', 0x00, 0x11]));
    assert!(status_request_complete(&[0x20, b'a', 0x00, 0x11, 0x17]));
    let request = status_request(StatusData::all(), Some(b"Hello"));
    for n in 0..request.len() - 1 {
        assert!(!status_request_complete(&request[1..1 + n]));
    }
    assert!(status_request_complete(&request[1..]));
}

#[test]
fn response_without_fields_is_the_trailer() {
    let flags = StatusData::empty();
    assert_eq!(
        parse_status_response(flags, &[0x11, 0x17, 0x11, 0x19]),
        Ok(StatusResponse { ip: None, time: None, ver: None, echo: None })
    );
}

#[test]
fn response_with_empty_echo() {
    let flags = StatusData::empty().with(StatusDataFlag::Echo);
    assert_eq!(
        parse_status_response(flags, &[0x00, 0x11, 0x17, 0x11, 0x19]),
        Ok(StatusResponse { ip: None, time: None, ver: None, echo: Some(vec![]) })
    );
}

#[test]
fn response_with_a_bad_trailer_is_a_violation() {
    let flags = StatusData::empty().with(StatusDataFlag::Version);
    let invalid = Err(ClientError::ProtoError(ProtoError::Invalid));
    assert_eq!(parse_status_response(flags, &[1, 2, 3, 0x11, 0x17, 0x11, 0x18]), invalid);
    assert_eq!(parse_status_response(flags, &[1, 2, 3, 0x11, 0x18, 0x02, 0x11, 0x19]), invalid);
    assert_eq!(parse_status_response(flags, &[1, 2, 3, 0x00, 0x17, 0x11, 0x19]), invalid);
    assert_eq!(
        parse_status_response(flags, &[1, 2, 3, 0x11, 0x17, 0x11, 0x19]),
        Ok(StatusResponse { ip: None, time: None, ver: Some([1, 2, 3]), echo: None })
    );
}

#[test]
fn response_that_ends_early_is_a_transport_failure() {
    let flags = StatusData::all();
    assert_eq!(parse_status_response(flags, &[]), Err(eof()));
    assert_eq!(parse_status_response(flags, &[1, 2, 3]), Err(eof()));
    assert_eq!(parse_status_response(flags, &[0; 22]), Err(eof()));
    let mut wire = vec![1, 2, 3, 4];
    wire.extend_from_slice(&[7; 16]);
    wire.extend_from_slice(&[0, 1, 0]);
    wire.extend_from_slice(b"Hello");
    assert_eq!(parse_status_response(flags, &wire), Err(eof()));
    wire.push(0x00);
    wire.extend_from_slice(&[0x11, 0x17, 0x11]);
    assert_eq!(parse_status_response(flags, &wire), Err(eof()));
    assert!(!status_response_complete(flags, &wire));
    wire.push(0x19);
    assert!(status_response_complete(flags, &wire));
    assert!(parse_status_response(flags, &wire).is_ok());
    let only_trailer = StatusData::empty();
    assert_eq!(parse_status_response(only_trailer, &[0x11, 0x17, 0x11]), Err(eof()));
}

#[test]
fn response_fields_follow_the_flags() {
    let flags = StatusData::empty().with(StatusDataFlag::Time).with(StatusDataFlag::ConnectionIp);
    let now: u128 = 42;
    let mut wire = vec![127, 0, 0, 1];
    wire.extend_from_slice(&now.to_le_bytes());
    wire.extend_from_slice(&[0x11, 0x17, 0x11, 0x19]);
    assert_eq!(
        parse_status_response(flags, &wire),
        Ok(StatusResponse { ip: Some([127, 0, 0, 1]), time: Some(42), ver: None, echo: None })
    );
}

#[test]
fn status_round_trip_for_every_choice_of_flags() {
    let now: u128 = 1_700_000_000_000_000_000;
    let ip = [172, 16, 254, 3];
    for bits in 0..16u8 {
        let flags = StatusData::from_u8(bits << 4);
        let echo: &[u8] = b"ping \xFF\x11\x17";
        let request = status_request(flags, Some(echo));
        assert!(status_request_complete(&request[1..]));
        let mut wire = status_handler(&request[1..], ip, now, Version::get()).unwrap();
        wire.extend_from_slice(&[0x11, 0x17, 0x11, 0x19]);
        let response = parse_status_response(flags, &wire).unwrap();
        assert_eq!(response.ip.is_some(), flags.has_flag(StatusDataFlag::ConnectionIp));
        assert_eq!(response.time.is_some(), flags.has_flag(StatusDataFlag::Time));
        assert_eq!(response.ver.is_some(), flags.has_flag(StatusDataFlag::Version));
        assert_eq!(response.echo.is_some(), flags.has_flag(StatusDataFlag::Echo));
        if let Some(got) = response.ip {
            assert_eq!(got, ip);
        }
        if let Some(got) = response.time {
            assert_eq!(got, now);
        }
        if let Some(got) = response.ver {
            assert_eq!(got, Version::get().as_bytes());
        }
        if let Some(got) = response.echo {
            assert_eq!(got, echo);
        }
    }
}

#[test]
fn fields_end_with_the_first_nul() {
    assert_eq!(field_len(&[b'a', b'b', 0, b'c', 0], 0), 3);
    assert_eq!(field_len(&[b'a', b'b', 0, b'c', 0], 1), 2);
    assert_eq!(field_len(&[b'a', b'b', 0, b'c', 0], 2), 1);
    assert_eq!(field_len(&[b'a', b'b', 0, b'c', 0], 3), 2);
    assert_eq!(field_len(&[b'a', b'b', 0, b'c', 0], 5), 0);
    assert_eq!(field_len(&[b'a', b'b'], 0), 2);
    assert_eq!(field_len(&[], 0), 0);
    assert!(is_nul_free(b"Hello"));
    assert!(is_nul_free(b""));
    assert!(!is_nul_free(b"Hel\0lo"));
    assert!(!is_nul_free(b"\0"));
}

#[test]
fn version_is_three_bytes() {
    assert_eq!(Version::get().as_bytes(), [0, 1, 0]);
    assert_eq!(Version::new(9, 8, 7).as_bytes(), [9, 8, 7]);
    assert_eq!(Version::get(), Version::new(0, 1, 0));
}
