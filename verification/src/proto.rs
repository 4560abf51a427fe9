//! The framed request/response protocol spoken to the companion chip.
//!
//! The main processor talks to its radio/storage co-processor over a
//! half-duplex byte link. Every exchange is one frame each way:
//! `[1-byte length][length bytes of encoded payload]`. The length byte is
//! the hard ceiling — a payload over 255 bytes cannot be framed — and a
//! declared length of zero is a protocol error, never an empty success.
//!
//! This module holds everything about the exchange that is not I/O:
//! building the outgoing frame, reading the response length, decoding the
//! response, and checking that the response answers the request that was
//! sent. The backend only moves bytes.
//!
//! Log lines ride a separate best-effort serial link: COBS-encoded, so
//! the encoded bytes contain no zero, then terminated with a single zero
//! delimiter.

use vstd::prelude::*;
use crate::errors::NetworkError;
use firefly_types::spi::Response as WireResponse;
use firefly_types::Encode;

verus! {

/// Network address of a peer: the MAC address of its radio chip.
pub type Addr = [u8; 6];

/// Largest payload one frame can carry: the length must fit in one byte.
pub const MAX_PAYLOAD: usize = 255;

/// Request that the main chip sends to the companion chip.
#[derive(Debug, Clone, PartialEq, Eq)]
pub enum Request {
    /// Start listening for messages.
    NetStart,
    /// Stop accepting new messages and connections.
    NetStop,
    /// Get the address of this device's companion chip.
    NetLocalAddr,
    /// Broadcast an advertisement message.
    NetAdvertise,
    /// Read an incoming message (if any) from the companion chip.
    NetRecv,
    /// Send an outgoing message to the given peer.
    NetSend(Addr, Vec<u8>),
    /// Get the latest touchpad and button input.
    ReadInput,
}

/// The ghost shape of a [`Request`].
pub enum ReqV {
    NetStart,
    NetStop,
    NetLocalAddr,
    NetAdvertise,
    NetRecv,
    NetSend(Seq<u8>, Seq<u8>),
    ReadInput,
}

impl View for Request {
    type V = ReqV;

    open spec fn view(&self) -> ReqV {
        match self {
            Request::NetStart => ReqV::NetStart,
            Request::NetStop => ReqV::NetStop,
            Request::NetLocalAddr => ReqV::NetLocalAddr,
            Request::NetAdvertise => ReqV::NetAdvertise,
            Request::NetRecv => ReqV::NetRecv,
            Request::NetSend(addr, data) => ReqV::NetSend(addr@, data@),
            Request::ReadInput => ReqV::ReadInput,
        }
    }
}

/// Response that the companion chip sends back, reduced to the messages
/// this runtime exchanges. Anything else decodes to [`Response::Other`]
/// and is treated as a protocol desync by every checker below.
#[derive(Debug, Clone, PartialEq, Eq)]
pub enum Response {
    /// The terminal error variant, carrying the peer's own words.
    Error(String),
    NetStarted,
    NetStopped,
    NetLocalAddr(Addr),
    NetAdvertised,
    NetIncoming(Addr, Vec<u8>),
    NetNoIncoming,
    NetSent,
    /// Raw touch coordinates (if the pad is touched) and active-low
    /// button bits, exactly as the companion chip reports them.
    Input(Option<(u16, u16)>, u8),
    /// A protocol message this runtime never asks for.
    Other,
}

/// The ghost shape of a [`Response`].
pub enum RespV {
    Error(Seq<char>),
    NetStarted,
    NetStopped,
    NetLocalAddr(Seq<u8>),
    NetAdvertised,
    NetIncoming(Seq<u8>, Seq<u8>),
    NetNoIncoming,
    NetSent,
    Input(Option<(u16, u16)>, u8),
    Other,
}

impl View for Response {
    type V = RespV;

    open spec fn view(&self) -> RespV {
        match self {
            Response::Error(msg) => RespV::Error(msg@),
            Response::NetStarted => RespV::NetStarted,
            Response::NetStopped => RespV::NetStopped,
            Response::NetLocalAddr(addr) => RespV::NetLocalAddr(addr@),
            Response::NetAdvertised => RespV::NetAdvertised,
            Response::NetIncoming(addr, data) => RespV::NetIncoming(addr@, data@),
            Response::NetNoIncoming => RespV::NetNoIncoming,
            Response::NetSent => RespV::NetSent,
            Response::Input(pad, buttons) => RespV::Input(*pad, *buttons),
            Response::Other => RespV::Other,
        }
    }
}

/// The wire encoding of a request. It depends on the request alone.
pub uninterp spec fn spi_request_bytes(r: ReqV) -> Seq<u8>;

/// What a byte string decodes to: `None` where it is not a valid
/// response encoding. It depends on the bytes alone.
pub uninterp spec fn spi_response_of(bytes: Seq<u8>) -> Option<RespV>;

/// The wire encoding of a log record. It depends on the message alone.
pub uninterp spec fn serial_log_bytes(msg: Seq<char>) -> Seq<u8>;

/// The COBS encoding of a byte string. It depends on the bytes alone.
pub uninterp spec fn cobs_bytes(data: Seq<u8>) -> Seq<u8>;

/// Relies on `firefly_types::spi::Request::encode_vec`: postcard
/// serialization is deterministic, so the bytes are a function of the
/// request alone; and its alloc-vec flavour cannot run out of buffer,
/// while unit variants, fixed byte arrays and borrowed byte strings have
/// no fallible serialize case, so encoding always succeeds.
#[verifier::external_body]
fn encode_request(req: &Request) -> (r: Result<Vec<u8>, NetworkError>)
    ensures
        r is Ok,
        r matches Ok(v) ==> v@ == spi_request_bytes(req@),
{
    let q = match req {
        Request::NetStart => firefly_types::spi::Request::NetStart,
        Request::NetStop => firefly_types::spi::Request::NetStop,
        Request::NetLocalAddr => firefly_types::spi::Request::NetLocalAddr,
        Request::NetAdvertise => firefly_types::spi::Request::NetAdvertise,
        Request::NetRecv => firefly_types::spi::Request::NetRecv,
        Request::NetSend(addr, data) => firefly_types::spi::Request::NetSend(*addr, data),
        Request::ReadInput => firefly_types::spi::Request::ReadInput,
    };
    q.encode_vec().map_err(|_| NetworkError::SendError)
}

/// Relies on `firefly_types::spi::Response::decode`: postcard
/// deserialization is deterministic, so whether the bytes parse, and to
/// what, is a function of the bytes alone.
#[verifier::external_body]
fn decode_response_bytes(raw: &[u8]) -> (r: Option<Response>)
    ensures
        r matches Some(resp) ==> spi_response_of(raw@) == Some(resp@),
        r is None ==> spi_response_of(raw@) is None,
{
    let Ok(wire) = WireResponse::decode(raw) else { return None };
    Some(match wire {
        WireResponse::Error(msg) => Response::Error(msg.to_string()),
        WireResponse::NetStarted => Response::NetStarted,
        WireResponse::NetStopped => Response::NetStopped,
        WireResponse::NetLocalAddr(a) => Response::NetLocalAddr(a),
        WireResponse::NetAdvertised => Response::NetAdvertised,
        WireResponse::NetIncoming(a, d) => Response::NetIncoming(a, d.to_vec()),
        WireResponse::NetNoIncoming => Response::NetNoIncoming,
        WireResponse::NetSent => Response::NetSent,
        WireResponse::Input(p, b) => Response::Input(p, b),
        _ => Response::Other,
    })
}

/// Relies on `cobs::encode_vec`: the encoding is a function of the input
/// alone, and the encoded bytes never contain the zero sentinel.
#[verifier::external_body]
fn cobs_encode(data: &[u8]) -> (r: Vec<u8>)
    ensures
        r@ == cobs_bytes(data@),
        forall|i: int| 0 <= i < r@.len() ==> r@[i] != 0,
{
    cobs::encode_vec(data)
}

/// Relies on `firefly_types::serial::Response::encode_vec` (postcard):
/// the bytes are a function of the message alone, and a log record — one
/// enum variant around one string — has no fallible serialize case under
/// the alloc-vec flavour, so encoding always succeeds.
#[verifier::external_body]
fn encode_log_record(msg: &str) -> (r: Result<Vec<u8>, NetworkError>)
    ensures
        r is Ok,
        r matches Ok(v) ==> v@ == serial_log_bytes(msg@),
{
    let record = firefly_types::serial::Response::Log(msg.to_string());
    record.encode_vec().map_err(|_| NetworkError::SendError)
}

/// Build the request frame: the length byte, then the encoded request.
///
/// The length byte always equals the encoded payload's length. The one
/// error is an encoding over [`MAX_PAYLOAD`] bytes, which is refused
/// before anything touches the wire — never truncated.
pub fn build_frame(req: &Request) -> (r: Result<Vec<u8>, NetworkError>)
    ensures
        r matches Ok(frame) ==> ({
            let body = spi_request_bytes(req@);
            &&& body.len() <= MAX_PAYLOAD
            &&& frame@.len() == body.len() + 1
            &&& frame@[0] == body.len() as u8
            &&& frame@.skip(1) == body
        }),
        r is Err <==> spi_request_bytes(req@).len() > MAX_PAYLOAD,
        r is Err ==> (r matches Err(NetworkError::Error(m)) && m@
            == "request payload is too big"@),
{
    let mut body = encode_request(req).unwrap();
    if body.len() > MAX_PAYLOAD {
        return Err(NetworkError::Error("request payload is too big"));
    }
    let len: u8 = body.len() as u8;
    let mut frame: Vec<u8> = Vec::new();
    frame.push(len);
    frame.append(&mut body);
    Ok(frame)
}

/// Read the response's declared length out of its first byte.
///
/// A declared length of zero is a protocol error, not an empty success.
pub fn response_len(len_byte: u8) -> (r: Result<usize, NetworkError>)
    ensures
        len_byte == 0 ==> (r matches Err(NetworkError::Error(m)) && m@
            == "received zero-sized message"@),
        len_byte > 0 ==> r == Ok::<usize, NetworkError>(len_byte as usize),
{
    if len_byte == 0 {
        return Err(NetworkError::Error("received zero-sized message"));
    }
    Ok(len_byte as usize)
}

/// Decode a response payload.
///
/// Empty input fails immediately. A payload that decodes to the terminal
/// `Error` variant fails the call with the peer's words wrapped in
/// [`NetworkError::OwnedError`]; it is never handed back as a value.
pub fn decode_response(raw: &[u8]) -> (r: Result<Response, NetworkError>)
    ensures
        raw@.len() == 0 ==> (r matches Err(NetworkError::Error(m)) && m@
            == "buffer is empty, cannot decode"@),
        raw@.len() > 0 ==> match spi_response_of(raw@) {
            None => r == Err::<Response, NetworkError>(NetworkError::DecodeError),
            Some(v) => match v {
                RespV::Error(msg) => (r matches Err(NetworkError::OwnedError(m)) && m@ == msg),
                _ => (r matches Ok(resp) && resp@ == v),
            },
        },
{
    if raw.len() == 0 {
        return Err(NetworkError::Error("buffer is empty, cannot decode"));
    }
    match decode_response_bytes(raw) {
        None => Err(NetworkError::DecodeError),
        Some(Response::Error(msg)) => Err(NetworkError::OwnedError(msg)),
        Some(resp) => Ok(resp),
    }
}

/// The answer a start request calls for, and nothing else.
pub fn expect_started(resp: &Response) -> (r: Result<(), NetworkError>)
    ensures
        r is Ok <==> resp is NetStarted,
        r is Err ==> r == Err::<(), NetworkError>(NetworkError::UnexpectedResp),
{
    match resp {
        Response::NetStarted => Ok(()),
        _ => Err(NetworkError::UnexpectedResp),
    }
}

/// The answer a stop request calls for, and nothing else.
pub fn expect_stopped(resp: &Response) -> (r: Result<(), NetworkError>)
    ensures
        r is Ok <==> resp is NetStopped,
        r is Err ==> r == Err::<(), NetworkError>(NetworkError::UnexpectedResp),
{
    match resp {
        Response::NetStopped => Ok(()),
        _ => Err(NetworkError::UnexpectedResp),
    }
}

/// The answer an advertise request calls for, and nothing else.
pub fn expect_advertised(resp: &Response) -> (r: Result<(), NetworkError>)
    ensures
        r is Ok <==> resp is NetAdvertised,
        r is Err ==> r == Err::<(), NetworkError>(NetworkError::UnexpectedResp),
{
    match resp {
        Response::NetAdvertised => Ok(()),
        _ => Err(NetworkError::UnexpectedResp),
    }
}

/// The answer a send request calls for, and nothing else.
pub fn expect_sent(resp: &Response) -> (r: Result<(), NetworkError>)
    ensures
        r is Ok <==> resp is NetSent,
        r is Err ==> r == Err::<(), NetworkError>(NetworkError::UnexpectedResp),
{
    match resp {
        Response::NetSent => Ok(()),
        _ => Err(NetworkError::UnexpectedResp),
    }
}

/// The pending message a receive request calls for: a peer's message, or
/// word that none is pending. Anything else is a protocol desync.
pub fn incoming_from_response(resp: Response) -> (r: Result<
    Option<(Addr, Vec<u8>)>,
    NetworkError,
>)
    ensures
        resp matches Response::NetIncoming(addr, data) ==> r == Ok::<_, NetworkError>(
            Some((addr, data)),
        ),
        resp is NetNoIncoming ==> r == Ok::<Option<(Addr, Vec<u8>)>, NetworkError>(None),
        !(resp is NetIncoming) && !(resp is NetNoIncoming) ==> r == Err::<
            Option<(Addr, Vec<u8>)>,
            NetworkError,
        >(NetworkError::UnexpectedResp),
{
    match resp {
        Response::NetIncoming(addr, data) => Ok(Some((addr, data))),
        Response::NetNoIncoming => Ok(None),
        _ => Err(NetworkError::UnexpectedResp),
    }
}

/// The address the companion chip answers a local-address request with.
pub fn local_addr_from_response(resp: &Response) -> (r: Result<Addr, NetworkError>)
    ensures
        resp matches Response::NetLocalAddr(addr) ==> r == Ok::<Addr, NetworkError>(*addr),
        !(resp is NetLocalAddr) ==> r == Err::<Addr, NetworkError>(NetworkError::UnexpectedResp),
{
    match resp {
        Response::NetLocalAddr(addr) => Ok(*addr),
        _ => Err(NetworkError::UnexpectedResp),
    }
}

/// One tick of raw controller state as the companion chip reports it,
/// with the button bits already flipped to active-high.
///
/// The touch coordinates stay raw: projecting them onto the console's
/// `[-1000, 1000]` pointer square is the backend's floating-point remap.
#[derive(Debug, Clone, PartialEq, Eq)]
pub struct RawInput {
    /// Raw touch coordinates, present while the pad is touched.
    pub pad: Option<(u16, u16)>,
    /// Pressed buttons, one bit each, active-high.
    pub buttons: u8,
}

/// The input reading a read-input request calls for.
///
/// The companion chip reports button bits active-low, so the byte is
/// inverted here: a set bit in the result means pressed.
pub fn input_from_response(resp: &Response) -> (r: Result<RawInput, NetworkError>)
    ensures
        resp matches Response::Input(pad, buttons) ==> (r matches Ok(raw) && raw.pad == pad
            && raw.buttons == (buttons ^ 0xffu8)),
        !(resp is Input) ==> r == Err::<RawInput, NetworkError>(NetworkError::UnexpectedResp),
{
    match resp {
        Response::Input(pad, buttons) => Ok(RawInput { pad: *pad, buttons: *buttons ^ 0xff }),
        _ => Err(NetworkError::UnexpectedResp),
    }
}

/// Frame one log record for the best-effort serial link: the encoded
/// record is COBS-encoded — no zero byte survives — and one zero byte
/// terminates the frame, so a reader can split frames on zeroes alone.
pub fn frame_log_record(msg: &str) -> (r: Vec<u8>)
    ensures
        r@.len() > 0,
        r@ == cobs_bytes(serial_log_bytes(msg@)).push(0u8),
        r@[r@.len() - 1] == 0,
        forall|i: int| 0 <= i < r@.len() - 1 ==> r@[i] != 0,
{
    let record = encode_log_record(msg).unwrap();
    let mut framed = cobs_encode(record.as_slice());
    framed.push(0);
    framed
}

} // verus!
