//! Length-prefixed framing of JSON-RPC messages exchanged with the game mod.

use vstd::prelude::*;
use crate::json::{empty_object, is_string_of, value_get, value_get_field, JsonValue};
use crate::models::{Request, Response};
use crate::text::str_equal;

verus! {

/// Largest payload, in bytes, that a frame may carry.
pub const MAX_MESSAGE_SIZE_BYTES: usize = 10 * 1024 * 1024;

/// The four little-endian bytes of `n` (taken modulo 2^32).
pub open spec fn le_u32_bytes(n: nat) -> Seq<u8> {
    seq![(n % 256) as u8, ((n / 256) % 256) as u8, ((n / 65536) % 256) as u8, ((n / 16777216) % 256) as u8]
}

/// The number that four little-endian bytes stand for.
pub open spec fn le_u32_value(b: Seq<u8>) -> nat {
    (b[0] + b[1] * 256 + b[2] * 65536 + b[3] * 16777216) as nat
}

/// The frame that carries `payload`: its length as four little-endian bytes, then the payload.
pub open spec fn frame_of(payload: Seq<u8>) -> Seq<u8> {
    le_u32_bytes(payload.len()) + payload
}

#[verifier::external_type_specification]
#[verifier::external_body]
pub struct ExIoError(std::io::Error);

#[verifier::external_type_specification]
#[verifier::external_body]
pub struct ExFromUtf8Error(std::string::FromUtf8Error);

#[verifier::external_type_specification]
#[verifier::external_body]
pub struct ExJsonError(serde_json::Error);

/// Why a frame could not be built, read or decoded.
#[derive(Debug)]
pub enum ProtocolError {
    /// Fewer than four bytes: the length prefix is missing.
    MessageTooShort { actual: usize },
    /// The prefix announces more payload than the buffer holds.
    MessageIncomplete { expected: usize, actual: usize },
    /// The payload is longer than `MAX_MESSAGE_SIZE_BYTES`.
    MessageTooLarge { length: usize, max: usize },
    /// The payload is not UTF-8.
    InvalidUtf8(std::string::FromUtf8Error),
    /// The payload is not the JSON that was expected.
    Json(serde_json::Error),
    /// Reading from or writing to the stream failed.
    Io(std::io::Error),
}

/// What `decode_length_prefixed_json` answers for `data`, the payload's bytes when it succeeds.
pub open spec fn decode_outcome(data: Seq<u8>) -> Result<Seq<u8>, ProtocolError> {
    if data.len() < 4 {
        Err(ProtocolError::MessageTooShort { actual: data.len() as usize })
    } else if le_u32_value(data) > MAX_MESSAGE_SIZE_BYTES {
        Err(ProtocolError::MessageTooLarge { length: le_u32_value(data) as usize, max: MAX_MESSAGE_SIZE_BYTES })
    } else if data.len() < 4 + le_u32_value(data) {
        Err(ProtocolError::MessageIncomplete { expected: (4 + le_u32_value(data)) as usize, actual: data.len() as usize })
    } else {
        Ok(data.subrange(4, 4 + le_u32_value(data) as int))
    }
}

/// Frames an already-encoded JSON payload: a 4-byte little-endian length, then the bytes.
pub fn encode_length_prefixed_json(json_bytes: &[u8]) -> (r: Result<Vec<u8>, ProtocolError>)
    ensures
        json_bytes@.len() > MAX_MESSAGE_SIZE_BYTES ==> r == Err::<Vec<u8>, ProtocolError>(
            ProtocolError::MessageTooLarge { length: json_bytes@.len() as usize, max: MAX_MESSAGE_SIZE_BYTES },
        ),
        json_bytes@.len() <= MAX_MESSAGE_SIZE_BYTES ==> (r matches Ok(frame) && frame@ == frame_of(json_bytes@)),
{
    let payload_len = json_bytes.len();
    if payload_len > MAX_MESSAGE_SIZE_BYTES {
        return Err(ProtocolError::MessageTooLarge { length: payload_len, max: MAX_MESSAGE_SIZE_BYTES });
    }
    let mut message: Vec<u8> = Vec::new();
    message.push((payload_len % 256) as u8);
    message.push(((payload_len / 256) % 256) as u8);
    message.push(((payload_len / 65536) % 256) as u8);
    message.push(((payload_len / 16777216) % 256) as u8);
    let mut i: usize = 0;
    while i < payload_len
        invariant
            payload_len == json_bytes@.len(),
            i <= payload_len,
            message@ == le_u32_bytes(payload_len as nat) + json_bytes@.subrange(0, i as int),
        decreases payload_len - i,
    {
        message.push(json_bytes[i]);
        i += 1;
    }
    assert(json_bytes@.subrange(0, payload_len as int) == json_bytes@);
    Ok(message)
}

/// Takes the payload out of a frame: checks the 4-byte little-endian length prefix
/// against the size limit and against the bytes that follow it. Bytes after the
/// announced payload are ignored.
pub fn decode_length_prefixed_json(data: &[u8]) -> (r: Result<Vec<u8>, ProtocolError>)
    ensures
        match (r, decode_outcome(data@)) {
            (Ok(payload), Ok(expected)) => payload@ == expected,
            (Err(ProtocolError::MessageTooShort { actual }), Err(ProtocolError::MessageTooShort { actual: a })) => actual == a,
            (Err(ProtocolError::MessageTooLarge { length, max }), Err(ProtocolError::MessageTooLarge { length: l, max: m })) => length == l && max == m,
            (Err(ProtocolError::MessageIncomplete { expected, actual }), Err(ProtocolError::MessageIncomplete { expected: e, actual: a })) => expected == e && actual == a,
            _ => false,
        },
{
    if data.len() < 4 {
        return Err(ProtocolError::MessageTooShort { actual: data.len() });
    }
    let length = prefix_length(data[0], data[1], data[2], data[3]);
    if length > MAX_MESSAGE_SIZE_BYTES as u64 {
        return Err(ProtocolError::MessageTooLarge { length: length as usize, max: MAX_MESSAGE_SIZE_BYTES });
    }
    let length = length as usize;
    let expected_len = 4 + length;
    if data.len() < expected_len {
        return Err(ProtocolError::MessageIncomplete { expected: expected_len, actual: data.len() });
    }
    let mut payload: Vec<u8> = Vec::new();
    let mut i: usize = 4;
    while i < expected_len
        invariant
            4 <= i <= expected_len <= data@.len(),
            payload@ == data@.subrange(4, i as int),
        decreases expected_len - i,
    {
        payload.push(data[i]);
        i += 1;
    }
    Ok(payload)
}

/// The number that a 4-byte little-endian prefix stands for.
fn prefix_length(b0: u8, b1: u8, b2: u8, b3: u8) -> (n: u64)
    ensures
        n == le_u32_value(seq![b0, b1, b2, b3]),
        n < 4294967296,
{
    b0 as u64 + (b1 as u64) * 256 + (b2 as u64) * 65536 + (b3 as u64) * 16777216
}

/// Every length below 2^32 is read back from its own little-endian bytes.
pub proof fn lemma_le_u32_roundtrip(n: nat)
    requires
        n < 4294967296,
    ensures
        le_u32_value(le_u32_bytes(n)) == n,
{
    let x = n as u32;
    assert(((x % 256) as u8) as int + ((x / 256) % 256) as u8 as int * 256
        + ((x / 65536) % 256) as u8 as int * 65536 + ((x / 16777216) % 256) as u8 as int * 16777216 == x as int)
        by (bit_vector);
}

/// A framed payload decodes to itself: whatever `encode_length_prefixed_json`
/// accepts, `decode_length_prefixed_json` gives back unchanged, also when more
/// bytes follow the frame.
pub proof fn lemma_frame_roundtrip(payload: Seq<u8>, rest: Seq<u8>)
    requires
        payload.len() <= MAX_MESSAGE_SIZE_BYTES,
    ensures
        decode_outcome(frame_of(payload) + rest) == Ok::<Seq<u8>, ProtocolError>(payload),
{
    lemma_le_u32_roundtrip(payload.len());
    let f = frame_of(payload) + rest;
    assert(f.subrange(0, 4) =~= le_u32_bytes(payload.len()));
    assert(le_u32_value(f) == le_u32_value(f.subrange(0, 4)));
    assert(f.subrange(4, 4 + payload.len() as int) =~= payload);
}

/// Reads exactly `n` bytes (`std::io::Read::read_exact`); on success they are `n` bytes long.
#[verifier::external_body]
fn read_exact_bytes<R: std::io::Read>(reader: &mut R, n: usize) -> (r: Result<Vec<u8>, std::io::Error>)
    ensures
        r matches Ok(v) ==> v@.len() == n,
{
    let mut buf = vec![0u8; n];
    match reader.read_exact(&mut buf) {
        Ok(()) => Ok(buf),
        Err(e) => Err(e),
    }
}

/// Writes every byte of `bytes` (`std::io::Write::write_all`).
#[verifier::external_body]
fn write_all_bytes<W: std::io::Write>(writer: &mut W, bytes: &[u8]) -> (r: Result<(), std::io::Error>)
{
    writer.write_all(bytes)
}

/// Flushes the writer (`std::io::Write::flush`).
#[verifier::external_body]
fn flush_writer<W: std::io::Write>(writer: &mut W) -> (r: Result<(), std::io::Error>)
{
    writer.flush()
}

/// Whether `frame` is a well-formed frame: a 4-byte prefix that announces exactly
/// the bytes that follow it, within the size limit.
pub open spec fn is_whole_frame(frame: Seq<u8>) -> bool {
    &&& frame.len() >= 4
    &&& le_u32_value(frame) <= MAX_MESSAGE_SIZE_BYTES
    &&& frame.len() == 4 + le_u32_value(frame)
}

/// Reads one frame from the stream: the 4-byte prefix, then the payload it
/// announces. Refuses a prefix over the size limit before reading the payload.
/// The stream's bytes are not known here, so the contract says what holds of
/// every outcome.
pub fn read_frame<R: std::io::Read>(reader: &mut R) -> (r: Result<Vec<u8>, ProtocolError>)
    ensures
        r matches Ok(frame) ==> is_whole_frame(frame@),
        r matches Err(e) ==> (e is Io || (e matches ProtocolError::MessageTooLarge { length, max }
            && max == MAX_MESSAGE_SIZE_BYTES && length > MAX_MESSAGE_SIZE_BYTES)),
{
    let prefix = match read_exact_bytes(reader, 4) {
        Ok(p) => p,
        Err(e) => return Err(ProtocolError::Io(e)),
    };
    let length = frame_payload_length(prefix.as_slice())?;
    let payload = match read_exact_bytes(reader, length) {
        Ok(p) => p,
        Err(e) => return Err(ProtocolError::Io(e)),
    };
    let frame = concat_frame(prefix.as_slice(), payload.as_slice());
    assert(frame@.subrange(0, 4) =~= prefix@);
    assert(le_u32_value(frame@) == le_u32_value(prefix@));
    Ok(frame)
}

/// The payload length that a 4-byte little-endian prefix announces, refused
/// when it is over the size limit.
pub fn frame_payload_length(prefix: &[u8]) -> (r: Result<usize, ProtocolError>)
    requires
        prefix@.len() == 4,
    ensures
        le_u32_value(prefix@) <= MAX_MESSAGE_SIZE_BYTES ==> r == Ok::<usize, ProtocolError>(le_u32_value(prefix@) as usize),
        le_u32_value(prefix@) > MAX_MESSAGE_SIZE_BYTES ==> (r matches Err(ProtocolError::MessageTooLarge { length, max })
            && length == le_u32_value(prefix@) as usize && max == MAX_MESSAGE_SIZE_BYTES),
{
    let length = prefix_length(prefix[0], prefix[1], prefix[2], prefix[3]);
    assert(seq![prefix@[0], prefix@[1], prefix@[2], prefix@[3]] =~= prefix@);
    if length > MAX_MESSAGE_SIZE_BYTES as u64 {
        return Err(ProtocolError::MessageTooLarge { length: length as usize, max: MAX_MESSAGE_SIZE_BYTES });
    }
    Ok(length as usize)
}

/// The frame made of a prefix and the payload read after it.
pub fn concat_frame(prefix: &[u8], payload: &[u8]) -> (r: Vec<u8>)
    ensures
        r@ == prefix@ + payload@,
{
    let mut frame: Vec<u8> = Vec::new();
    let mut i: usize = 0;
    while i < prefix.len()
        invariant
            i <= prefix@.len(),
            frame@ == prefix@.subrange(0, i as int),
        decreases prefix.len() - i,
    {
        frame.push(prefix[i]);
        i += 1;
    }
    assert(prefix@.subrange(0, prefix@.len() as int) =~= prefix@);
    let mut j: usize = 0;
    while j < payload.len()
        invariant
            j <= payload@.len(),
            frame@ == prefix@ + payload@.subrange(0, j as int),
        decreases payload.len() - j,
    {
        frame.push(payload[j]);
        j += 1;
    }
    assert(payload@.subrange(0, payload@.len() as int) =~= payload@);
    frame
}

/// Writes a frame to the stream and flushes it. Whether that succeeds rests on
/// the stream alone, so no input is promised success; a failure of the write or
/// of the flush comes back as `ProtocolError::Io`.
pub fn write_frame<W: std::io::Write>(writer: &mut W, frame: &[u8]) -> (r: Result<(), ProtocolError>)
    ensures
        r matches Err(e) ==> e is Io,
{
    match write_all_bytes(writer, frame) {
        Ok(()) => {},
        Err(e) => return Err(ProtocolError::Io(e)),
    }
    match flush_writer(writer) {
        Ok(()) => Ok(()),
        Err(e) => Err(ProtocolError::Io(e)),
    }
}

/// Four bytes are the little-endian bytes of the number they stand for.
pub proof fn lemma_le_u32_bytes_of_value(b: Seq<u8>)
    requires
        b.len() == 4,
    ensures
        le_u32_bytes(le_u32_value(b)) == b,
{
    let (b0, b1, b2, b3) = (b[0], b[1], b[2], b[3]);
    assert((b0 as int + b1 as int * 256 + b2 as int * 65536 + b3 as int * 16777216) % 256 == b0 as int
        && ((b0 as int + b1 as int * 256 + b2 as int * 65536 + b3 as int * 16777216) / 256) % 256 == b1 as int
        && ((b0 as int + b1 as int * 256 + b2 as int * 65536 + b3 as int * 16777216) / 65536) % 256 == b2 as int
        && ((b0 as int + b1 as int * 256 + b2 as int * 65536 + b3 as int * 16777216) / 16777216) % 256 == b3 as int)
        by (nonlinear_arith)
        requires
            0 <= b0 < 256, 0 <= b1 < 256, 0 <= b2 < 256, 0 <= b3 < 256;
    assert(le_u32_bytes(le_u32_value(b)) =~= b);
}

/// A frame that `read_frame` returns is exactly what `encode_length_prefixed_json`
/// makes of its payload, and `decode_length_prefixed_json` gives that payload back.
pub proof fn lemma_read_frame_decodes(frame: Seq<u8>)
    requires
        is_whole_frame(frame),
    ensures
        decode_outcome(frame) == Ok::<Seq<u8>, ProtocolError>(frame.subrange(4, frame.len() as int)),
        frame == frame_of(frame.subrange(4, frame.len() as int)),
{
    lemma_le_u32_bytes_of_value(frame.subrange(0, 4));
    assert(le_u32_value(frame.subrange(0, 4)) == le_u32_value(frame));
    assert(frame =~= frame_of(frame.subrange(4, frame.len() as int)));
}

/// The error codes that pass through unchanged: the JSON-RPC standard codes and
/// the range reserved for server-defined errors.
pub open spec fn is_known_error_code(code: i32) -> bool {
    code == -32700 || code == -32600 || code == -32601 || code == -32602 || code == -32603
        || (-32099 <= code && code <= -32000)
}

/// The code that `map_error_code` gives for `code`.
pub open spec fn mapped_error_code(code: i32) -> i32 {
    if is_known_error_code(code) { code } else { -32603i32 }
}

/// Maps an error code reported by the mod onto JSON-RPC: known codes pass
/// through, every other code becomes the internal error -32603.
pub fn map_error_code(mod_error_code: i32) -> (r: i32)
    ensures
        r == mapped_error_code(mod_error_code),
{
    if mod_error_code == -32700 || mod_error_code == -32600 || mod_error_code == -32601
        || mod_error_code == -32602 || mod_error_code == -32603 {
        mod_error_code
    } else if -32099 <= mod_error_code && mod_error_code <= -32000 {
        mod_error_code
    } else {
        -32603
    }
}

/// `map_error_code` always gives a known code, and mapping twice is mapping once.
pub proof fn lemma_map_error_code_idempotent(code: i32)
    ensures
        is_known_error_code(mapped_error_code(code)),
        mapped_error_code(mapped_error_code(code)) == mapped_error_code(code),
{
}

/// Whether a response is the server's heartbeat: its result is an object whose
/// `type` is the string `server_heartbeat`.
pub open spec fn heartbeat(response: Response) -> bool {
    response.result matches Some(result) && is_string_of(value_get(result, "type"@), "server_heartbeat"@)
}

/// Tells the server's heartbeat apart from an answer to a request.
pub fn is_server_heartbeat(response: &Response) -> (r: bool)
    ensures
        r == heartbeat(*response),
{
    match &response.result {
        None => false,
        Some(result) => match value_get_field(result, "type") {
            Some(JsonValue::String(kind)) => str_equal(kind.as_str(), "server_heartbeat"),
            _ => false,
        },
    }
}

/// Builds a request; absent params become an empty object.
pub fn create_request(id: u64, method: &str, params: Option<JsonValue>) -> (r: Request)
    ensures
        r.id == id,
        r.method@ == method@,
        match params {
            Some(p) => r.params == p,
            None => r.params matches JsonValue::Object(e) && e@.len() == 0,
        },
{
    let params = match params {
        Some(p) => p,
        None => empty_object(),
    };
    Request { id, method: method.to_owned(), params }
}

} // verus!
