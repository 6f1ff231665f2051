//! Wire protocol: length-prefixed JSON-RPC frames.
//!
//! A frame is a 4-byte big-endian length prefix followed by exactly that
//! many payload bytes. The payload carries one JSON-RPC 2.0 object; this
//! module models the frame layer on byte buffers and the message shapes on
//! plain values. Streaming the bytes over a socket is the caller's business.

use vstd::prelude::*;

verus! {

/// Upper bound on a frame's payload length in bytes (10 MiB).
pub const MAX_FRAME_LEN: u32 = 10 * 1024 * 1024;

/// Failure to read one frame out of a byte buffer.
#[derive(Clone, Copy, Debug, PartialEq, Eq, Structural)]
pub enum FrameError {
    /// The buffer ends before the 4-byte length prefix is complete.
    MalformedLength,
    /// The declared payload length exceeds `MAX_FRAME_LEN`.
    TooLarge,
    /// The buffer ends before the declared payload is complete.
    Truncated,
}

/// The value of a 4-byte big-endian word.
pub open spec fn be32(b0: u8, b1: u8, b2: u8, b3: u8) -> int {
    b0 * 0x100_0000 + b1 * 0x1_0000 + b2 * 0x100 + b3
}

/// The 4-byte big-endian encoding of `n`.
pub open spec fn be_bytes_of(n: int) -> Seq<u8> {
    seq![
        (n / 0x100_0000 % 256) as u8,
        (n / 0x1_0000 % 256) as u8,
        (n / 0x100 % 256) as u8,
        (n % 256) as u8,
    ]
}

/// The bytes of one whole frame: length prefix, then payload.
pub open spec fn frame_of(payload: Seq<u8>) -> Seq<u8> {
    be_bytes_of(payload.len() as int) + payload
}

/// The payload length a frame starting at `start` declares.
pub open spec fn declared_len(buf: Seq<u8>, start: int) -> int
    recommends
        0 <= start,
        start + 4 <= buf.len(),
{
    be32(buf[start], buf[start + 1], buf[start + 2], buf[start + 3])
}

/// Reading one frame from `buf` at `start`: either the payload together
/// with the position just past the frame, or the reason it is refused.
/// The size limit is enforced on the declared length alone, before the
/// body is looked at.
pub open spec fn parse_frame(buf: Seq<u8>, start: int) -> Result<(Seq<u8>, int), FrameError> {
    if start + 4 > buf.len() {
        Err(FrameError::MalformedLength)
    } else if declared_len(buf, start) > MAX_FRAME_LEN {
        Err(FrameError::TooLarge)
    } else if start + 4 + declared_len(buf, start) > buf.len() {
        Err(FrameError::Truncated)
    } else {
        Ok((buf.subrange(start + 4, start + 4 + declared_len(buf, start)), start + 4 + declared_len(buf, start)))
    }
}

/// Append one whole frame for `payload` to `out`.
///
/// The caller is in charge of atomicity: two writers appending to the same
/// stream must be serialized so frames do not interleave.
pub fn write_frame(out: &mut Vec<u8>, payload: &Vec<u8>)
    requires
        payload@.len() <= MAX_FRAME_LEN,
    ensures
        final(out)@ == old(out)@ + frame_of(payload@),
{
    let n: u32 = payload.len() as u32;
    out.push((n / 0x100_0000 % 256) as u8);
    out.push((n / 0x1_0000 % 256) as u8);
    out.push((n / 0x100 % 256) as u8);
    out.push((n % 256) as u8);
    assert(out@ =~= old(out)@ + be_bytes_of(payload@.len() as int));
    let end = payload.len();
    let mut i: usize = 0;
    while i < end
        invariant
            i <= end,
            end == payload@.len(),
            out@ == old(out)@ + be_bytes_of(payload@.len() as int) + payload@.subrange(0, i as int),
        decreases end - i,
    {
        out.push(payload[i]);
        assert(out@ =~= old(out)@ + be_bytes_of(payload@.len() as int) + payload@.subrange(0, i + 1));
        i = i + 1;
    }
    assert(payload@.subrange(0, end as int) =~= payload@);
    assert(out@ =~= old(out)@ + frame_of(payload@));
}

/// Read one frame out of `buf` at position `start`.
///
/// Returns the payload and the position just past the frame, or the exact
/// refusal that `parse_frame` gives. An oversized declared length is
/// refused before the body is read.
pub fn read_frame(buf: &Vec<u8>, start: usize) -> (r: Result<(Vec<u8>, usize), FrameError>)
    ensures
        match r {
            Ok(p) => parse_frame(buf@, start as int) == Ok::<(Seq<u8>, int), FrameError>((p.0@, p.1 as int)),
            Err(e) => parse_frame(buf@, start as int) == Err::<(Seq<u8>, int), FrameError>(e),
        },
{
    if start > buf.len() || buf.len() - start < 4 {
        return Err(FrameError::MalformedLength);
    }
    let b0 = buf[start];
    let b1 = buf[start + 1];
    let b2 = buf[start + 2];
    let b3 = buf[start + 3];
    let n: u32 = (b0 as u32) * 0x100_0000 + (b1 as u32) * 0x1_0000 + (b2 as u32) * 0x100 + (b3 as u32);
    assert(n == declared_len(buf@, start as int));
    if n > MAX_FRAME_LEN {
        return Err(FrameError::TooLarge);
    }
    let len = n as usize;
    if buf.len() - (start + 4) < len {
        return Err(FrameError::Truncated);
    }
    let mut payload: Vec<u8> = Vec::new();
    let mut i: usize = 0;
    while i < len
        invariant
            i <= len,
            start + 4 + len <= usize::MAX,
            start + 4 + len <= buf@.len(),
            payload@ == buf@.subrange(start + 4, start + 4 + i),
        decreases len - i,
    {
        payload.push(buf[start + 4 + i]);
        assert(payload@ =~= buf@.subrange(start + 4, start + 4 + i + 1));
        i = i + 1;
    }
    Ok((payload, start + 4 + len))
}

/// A frame of `payload` decodes back to `payload`, and reading stops just
/// past the frame.
pub proof fn lemma_frame_round_trip(payload: Seq<u8>)
    requires
        payload.len() <= MAX_FRAME_LEN,
    ensures
        parse_frame(frame_of(payload), 0) == Ok::<(Seq<u8>, int), FrameError>((payload, 4 + payload.len() as int)),
{
    let n = payload.len() as int;
    lemma_be32_of_be_bytes(n);
    let buf = frame_of(payload);
    assert(buf[0] == be_bytes_of(n)[0]);
    assert(buf[1] == be_bytes_of(n)[1]);
    assert(buf[2] == be_bytes_of(n)[2]);
    assert(buf[3] == be_bytes_of(n)[3]);
    assert(declared_len(buf, 0) == n);
    assert(buf.subrange(4, 4 + n) =~= payload);
}

/// A frame whose declared length exceeds the limit is refused as soon as
/// the prefix is read: the refusal holds whatever follows the prefix, so
/// no part of the body is consulted.
pub proof fn lemma_oversized_rejected(buf: Seq<u8>, start: int)
    requires
        0 <= start,
        start + 4 <= buf.len(),
        declared_len(buf, start) > MAX_FRAME_LEN,
    ensures
        parse_frame(buf, start) == Err::<(Seq<u8>, int), FrameError>(FrameError::TooLarge),
{
}

/// A JSON-RPC id: a number or a string. Device-bound requests always carry
/// a number drawn from the connection's counter; operator requests carry
/// whatever scalar the operator chose, echoed back untouched.
#[derive(Debug, PartialEq, Eq)]
pub enum RpcId {
    Num(u64),
    Text(String),
}

/// A JSON-RPC error object.
#[derive(Debug, PartialEq, Eq)]
pub struct RpcError {
    pub code: i32,
    pub message: String,
    /// Extra structured detail, carried as JSON text.
    pub data: Option<String>,
}

/// A JSON-RPC request. `params` is the parameter value as JSON text; the
/// bridge passes it through without interpreting it.
#[derive(Debug, PartialEq, Eq)]
pub struct RpcRequest {
    pub jsonrpc: String,
    pub method: String,
    pub params: String,
    pub id: RpcId,
}

/// A JSON-RPC response. Exactly one of `result` and `error` is present on
/// a well-formed response; `result` is the result value as JSON text.
#[derive(Debug, PartialEq, Eq)]
pub struct RpcResponse {
    pub jsonrpc: String,
    pub result: Option<String>,
    pub error: Option<RpcError>,
    pub id: RpcId,
}

/// A JSON-RPC notification: a request shape without an id, fire-and-forget;
/// used only for progress events.
#[derive(Debug, PartialEq, Eq)]
pub struct RpcNotification {
    pub jsonrpc: String,
    pub method: String,
    pub params: String,
}

/// One decoded frame arriving from the device while a call waits for its
/// reply: a progress notification, the terminal response, or a payload
/// that did not decode (carrying the decoder's description).
#[derive(Debug, PartialEq, Eq)]
pub enum DeviceFrame {
    Note(RpcNotification),
    Reply(RpcResponse),
    Bad(String),
}

impl DeviceFrame {
    /// Whether this frame is a progress notification; a caller keeps
    /// reading frames for a progress-bearing call exactly while this
    /// holds.
    pub fn is_note(&self) -> (r: bool)
        ensures
            r == (self is Note),
    {
        matches!(self, DeviceFrame::Note(_))
    }
}

/// The fixed protocol-version string every message carries.
pub open spec fn version_seq() -> Seq<char> {
    "2.0"@
}

/// A well-formed response: right version, exactly one of result and error.
pub open spec fn wf_response(r: RpcResponse) -> bool {
    &&& r.jsonrpc@ == version_seq()
    &&& (r.result is Some <==> r.error is None)
}

/// A well-formed request: right version.
pub open spec fn wf_request(r: RpcRequest) -> bool {
    r.jsonrpc@ == version_seq()
}

impl RpcResponse {
    /// The successful response carrying `result` under `id`.
    pub fn success(id: RpcId, result: String) -> (r: RpcResponse)
        ensures
            r.jsonrpc@ == version_seq(),
            r.result == Some(result),
            r.error is None,
            r.id == id,
            wf_response(r),
    {
        RpcResponse { jsonrpc: "2.0".to_owned(), result: Some(result), error: None, id }
    }

    /// The error response carrying `code` and `message` under `id`.
    pub fn error(id: RpcId, code: i32, message: String) -> (r: RpcResponse)
        ensures
            r.jsonrpc@ == version_seq(),
            r.result is None,
            r.error == Some((RpcError { code, message, data: None })),
            r.id == id,
            wf_response(r),
    {
        RpcResponse {
            jsonrpc: "2.0".to_owned(),
            result: None,
            error: Some(RpcError { code, message, data: None }),
            id,
        }
    }
}

/// Composing the big-endian encoding and its value gives the number back.
pub proof fn lemma_be32_of_be_bytes(n: int)
    requires
        0 <= n < 0x1_0000_0000,
    ensures
        be32(be_bytes_of(n)[0], be_bytes_of(n)[1], be_bytes_of(n)[2], be_bytes_of(n)[3]) == n,
{
    let m = n as u32;
    assert((m / 0x100_0000 % 256) * 0x100_0000 + (m / 0x1_0000 % 256) * 0x1_0000 + (m / 0x100 % 256)
        * 0x100 + m % 256 == m) by (bit_vector);
}

} // verus!
