use firefly_hal::errors::NetworkError;
use firefly_hal::proto::{
    build_frame, decode_response, expect_advertised, expect_sent, expect_started, expect_stopped,
    frame_log_record, incoming_from_response, input_from_response, local_addr_from_response,
    response_len, Request, Response,
};
use firefly_types::Encode;

#[test]
fn frame_length_byte_equals_payload_length() {
    let frame = build_frame(&Request::NetStart).unwrap();
    assert_eq!(frame[0] as usize, frame.len() - 1);
    let wire = firefly_types::spi::Request::NetStart.encode_vec().unwrap();
    assert_eq!(&frame[1..], &wire[..]);

    let data = vec![9u8; 40];
    let frame = build_frame(&Request::NetSend([1, 2, 3, 4, 5, 6], data.clone())).unwrap();
    assert_eq!(frame[0] as usize, frame.len() - 1);
    let wire = firefly_types::spi::Request::NetSend([1, 2, 3, 4, 5, 6], &data)
        .encode_vec()
        .unwrap();
    assert_eq!(&frame[1..], &wire[..]);
}

#[test]
fn oversized_request_is_refused_not_truncated() {
    let data = vec![0u8; 300];
    let r = build_frame(&Request::NetSend([0; 6], data));
    assert_eq!(r, Err(NetworkError::Error("request payload is too big")));
}

#[test]
fn zero_length_byte_is_a_protocol_error() {
    assert_eq!(
        response_len(0),
        Err(NetworkError::Error("received zero-sized message"))
    );
    assert_eq!(response_len(1), Ok(1));
    assert_eq!(response_len(255), Ok(255));
}

#[test]
fn decode_of_empty_input_fails() {
    assert_eq!(
        decode_response(&[]),
        Err(NetworkError::Error("buffer is empty, cannot decode"))
    );
}

#[test]
fn decode_of_garbage_fails() {
    // 0xFF is no valid discriminant of the response enum.
    assert_eq!(decode_response(&[0xFF, 0xFF]), Err(NetworkError::DecodeError));
}

#[test]
fn error_response_surfaces_as_wrapped_error() {
    let wire = firefly_types::spi::Response::Error("radio gave up")
        .encode_vec()
        .unwrap();
    assert_eq!(
        decode_response(&wire),
        Err(NetworkError::OwnedError("radio gave up".to_string()))
    );
}

#[test]
fn plain_responses_decode_to_their_variants() {
    let wire = firefly_types::spi::Response::NetStarted.encode_vec().unwrap();
    let resp = decode_response(&wire).unwrap();
    assert!(expect_started(&resp).is_ok());
    assert_eq!(
        expect_stopped(&resp),
        Err(NetworkError::UnexpectedResp)
    );

    let wire = firefly_types::spi::Response::NetStopped.encode_vec().unwrap();
    assert!(expect_stopped(&decode_response(&wire).unwrap()).is_ok());

    let wire = firefly_types::spi::Response::NetAdvertised.encode_vec().unwrap();
    assert!(expect_advertised(&decode_response(&wire).unwrap()).is_ok());

    let wire = firefly_types::spi::Response::NetSent.encode_vec().unwrap();
    assert!(expect_sent(&decode_response(&wire).unwrap()).is_ok());
}

#[test]
fn local_addr_comes_out_of_its_response() {
    let wire = firefly_types::spi::Response::NetLocalAddr([9, 8, 7, 6, 5, 4])
        .encode_vec()
        .unwrap();
    let resp = decode_response(&wire).unwrap();
    assert_eq!(local_addr_from_response(&resp), Ok([9, 8, 7, 6, 5, 4]));
    let other = decode_response(
        &firefly_types::spi::Response::NetStarted.encode_vec().unwrap(),
    )
    .unwrap();
    assert_eq!(
        local_addr_from_response(&other),
        Err(NetworkError::UnexpectedResp)
    );
}

#[test]
fn incoming_message_and_no_message() {
    let wire = firefly_types::spi::Response::NetIncoming([1, 1, 2, 2, 3, 3], &[10, 20, 30])
        .encode_vec()
        .unwrap();
    let r = incoming_from_response(decode_response(&wire).unwrap()).unwrap();
    assert_eq!(r, Some(([1, 1, 2, 2, 3, 3], vec![10, 20, 30])));

    let wire = firefly_types::spi::Response::NetNoIncoming.encode_vec().unwrap();
    let r = incoming_from_response(decode_response(&wire).unwrap()).unwrap();
    assert_eq!(r, None);
}

#[test]
fn input_response_flips_active_low_buttons() {
    let wire = firefly_types::spi::Response::Input(Some((120, 340)), 0b1111_0000)
        .encode_vec()
        .unwrap();
    let raw = input_from_response(&decode_response(&wire).unwrap()).unwrap();
    assert_eq!(raw.pad, Some((120, 340)));
    assert_eq!(raw.buttons, 0b0000_1111);

    let wire = firefly_types::spi::Response::NetStarted.encode_vec().unwrap();
    let r = input_from_response(&decode_response(&wire).unwrap());
    assert!(r.is_err());
}

#[test]
fn unused_protocol_messages_are_a_desync() {
    let wire = firefly_types::spi::Response::WifiStatus(3).encode_vec().unwrap();
    let resp = decode_response(&wire).unwrap();
    assert!(matches!(resp, Response::Other));
    assert_eq!(expect_started(&resp), Err(NetworkError::UnexpectedResp));
}

#[test]
fn log_frame_is_cobs_encoded_and_zero_terminated() {
    let framed = frame_log_record("frame 7 took 19ms");
    assert_eq!(*framed.last().unwrap(), 0);
    assert!(framed[..framed.len() - 1].iter().all(|&b| b != 0));
    // A reader splitting on the zero delimiter recovers the log record.
    let decoded = cobs::decode_vec(&framed[..framed.len() - 1]).unwrap();
    let expected = firefly_types::serial::Response::Log("frame 7 took 19ms".to_string())
        .encode_vec()
        .unwrap();
    assert_eq!(decoded, expected);
}

#[test]
fn log_frame_hides_zero_bytes_of_the_record() {
    // The encoded record contains zero bytes (the Log discriminant is 0);
    // the frame must contain none before its terminator.
    let record = firefly_types::serial::Response::Log("a\u{0}b".to_string());
    assert!(record.encode_vec().unwrap().contains(&0));
    let framed = frame_log_record("a\u{0}b");
    assert!(framed[..framed.len() - 1].iter().all(|&b| b != 0));
    assert_eq!(*framed.last().unwrap(), 0);
}
