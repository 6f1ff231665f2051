//! The device side of the bridge: a single connection's call protocol and
//! the one-slot manager that owns the current connection.
//!
//! A connection's transport lives outside this crate; here a connection is
//! its request-id counter, and a call is modelled over the decoded frames
//! the device sends back. Responses are not matched against the sent id:
//! the bridge trusts strict request/response ordering on the transport.

use vstd::prelude::*;

use crate::protocol::{DeviceFrame, RpcId, RpcNotification, RpcRequest, RpcResponse, wf_request};
use crate::text::{append_str, dec_int_seq, i32_to_dec};

verus! {

/// Why a call through the bridge failed.
#[derive(Debug, PartialEq, Eq)]
pub enum CallError {
    /// No device connection is current.
    NotConnected,
    /// The device answered with an error object.
    Device { code: i32, message: String },
    /// The device's response carried neither result nor error.
    NoResult,
    /// The transport failed or closed before a response arrived.
    Transport(String),
    /// A frame's payload did not decode as the expected JSON-RPC shape.
    Decode(String),
}

/// The text reported when the device stream ends before the reply.
pub open spec fn closed_text() -> Seq<char> {
    "connection closed before response"@
}

/// The text reported when a notification arrives where a response is due.
pub open spec fn stray_note_text() -> Seq<char> {
    "response frame has no id"@
}

/// The operator-facing description of each failure.
pub open spec fn error_text_seq(e: CallError) -> Seq<char> {
    match e {
        CallError::NotConnected => "Bitwig not connected"@,
        CallError::Device { code, message } => "RPC error "@ + dec_int_seq(code as int) + ": "@
            + message@,
        CallError::NoResult => "No result in response"@,
        CallError::Transport(m) => m@,
        CallError::Decode(m) => m@,
    }
}

impl CallError {
    /// The operator-facing description of this failure.
    pub fn message(self) -> (s: String)
        ensures
            s@ == error_text_seq(self),
    {
        match self {
            CallError::NotConnected => "Bitwig not connected".to_owned(),
            CallError::Device { code, message } => relay_error_text(code, message),
            CallError::NoResult => "No result in response".to_owned(),
            CallError::Transport(m) => m,
            CallError::Decode(m) => m,
        }
    }
}

/// The text describing an error object the device reported.
pub fn relay_error_text(code: i32, message: String) -> (s: String)
    ensures
        s@ == "RPC error "@ + dec_int_seq(code as int) + ": "@ + message@,
{
    let mut s = "RPC error ".to_owned();
    let digits = i32_to_dec(code);
    append_str(&mut s, digits.as_str());
    append_str(&mut s, ": ");
    append_str(&mut s, message.as_str());
    s
}

/// What interpreting a decoded response yields: its result value, the
/// error it reports, or the refusal of a response carrying neither.
pub open spec fn spec_finish(resp: RpcResponse) -> Result<String, CallError> {
    match resp.error {
        Some(e) => Err(CallError::Device { code: e.code, message: e.message }),
        None => match resp.result {
            Some(v) => Ok(v),
            None => Err(CallError::NoResult),
        },
    }
}

/// Interpret the device's response to one call.
pub fn finish_call(resp: RpcResponse) -> (r: Result<String, CallError>)
    ensures
        r == spec_finish(resp),
{
    match resp.error {
        Some(e) => Err(CallError::Device { code: e.code, message: e.message }),
        None => match resp.result {
            Some(v) => Ok(v),
            None => Err(CallError::NoResult),
        },
    }
}

/// What a plain call returns, given the frames the device sent back: the
/// first frame must be the reply, and is interpreted by `spec_finish`.
pub open spec fn plain_call_post(frames: Seq<DeviceFrame>, r: Result<String, CallError>) -> bool {
    if frames.len() == 0 {
        r matches Err(CallError::Transport(m)) && m@ == closed_text()
    } else {
        match frames[0] {
            DeviceFrame::Reply(resp) => r == spec_finish(resp),
            DeviceFrame::Note(_) => r matches Err(CallError::Decode(m)) && m@ == stray_note_text(),
            DeviceFrame::Bad(m0) => r matches Err(CallError::Decode(m)) && m == m0,
        }
    }
}

/// The notification frames before the first non-notification frame.
pub open spec fn leading_notes(frames: Seq<DeviceFrame>) -> Seq<RpcNotification>
    decreases frames.len(),
{
    if frames.len() == 0 {
        Seq::empty()
    } else {
        match frames[0] {
            DeviceFrame::Note(n) => seq![n] + leading_notes(frames.drop_first()),
            DeviceFrame::Reply(_) => Seq::empty(),
            DeviceFrame::Bad(_) => Seq::empty(),
        }
    }
}

/// The frames from the first non-notification frame on.
pub open spec fn after_notes(frames: Seq<DeviceFrame>) -> Seq<DeviceFrame>
    decreases frames.len(),
{
    if frames.len() == 0 {
        frames
    } else {
        match frames[0] {
            DeviceFrame::Note(_) => after_notes(frames.drop_first()),
            DeviceFrame::Reply(_) => frames,
            DeviceFrame::Bad(_) => frames,
        }
    }
}

/// What a progress-bearing call returns: every notification before the
/// reply, in arrival order, together with the interpreted reply.
pub open spec fn progress_call_post(
    frames: Seq<DeviceFrame>,
    r: Result<(Vec<RpcNotification>, String), CallError>,
) -> bool {
    let rest = after_notes(frames);
    if rest.len() == 0 {
        r matches Err(CallError::Transport(m)) && m@ == closed_text()
    } else {
        match rest[0] {
            DeviceFrame::Reply(resp) => match spec_finish(resp) {
                Ok(v) => r matches Ok(p) && p.0@ == leading_notes(frames) && p.1 == v,
                Err(e) => r == Err::<(Vec<RpcNotification>, String), CallError>(e),
            },
            DeviceFrame::Bad(m0) => r matches Err(CallError::Decode(m)) && m == m0,
            DeviceFrame::Note(_) => false,
        }
    }
}

/// One call's effect on the connection's id counter.
pub open spec fn next_id_rel(pre: BitwigConnection, post: BitwigConnection, id: u64) -> bool {
    &&& post.request_id == pre.request_id + 1
    &&& id == post.request_id
}

/// One device connection's verified state: the per-connection request-id
/// counter. The split transport halves it serializes live with the caller.
pub struct BitwigConnection {
    pub request_id: u64,
}

impl BitwigConnection {
    /// A fresh connection; the first call will carry id 1.
    pub fn new() -> (c: BitwigConnection)
        ensures
            c.request_id == 0,
    {
        BitwigConnection { request_id: 0 }
    }

    /// Draw the next request id.
    pub fn next_id(&mut self) -> (id: u64)
        requires
            old(self).request_id < u64::MAX,
        ensures
            next_id_rel(*old(self), *final(self), id),
    {
        self.request_id = self.request_id + 1;
        self.request_id
    }

    /// Build the device-bound request for one call, drawing the next id.
    pub fn begin_call(&mut self, method: String, params: String) -> (req: RpcRequest)
        requires
            old(self).request_id < u64::MAX,
        ensures
            next_id_rel(*old(self), *final(self), final(self).request_id),
            req.method == method,
            req.params == params,
            req.id == RpcId::Num(final(self).request_id),
            wf_request(req),
    {
        let id = self.next_id();
        RpcRequest { jsonrpc: "2.0".to_owned(), method, params, id: RpcId::Num(id) }
    }

    /// One plain call: the request is built (advancing the counter) and
    /// written first; `frames` holds what the device then sent back, and
    /// the first of them is read as the reply. The counter advances
    /// whatever the outcome.
    pub fn call(&mut self, method: String, params: String, frames: Vec<DeviceFrame>) -> (r: Result<
        String,
        CallError,
    >)
        requires
            old(self).request_id < u64::MAX,
        ensures
            final(self).request_id == old(self).request_id + 1,
            plain_call_post(frames@, r),
    {
        // The request is drawn as on a live call — advancing the counter —
        // but goes nowhere here: `frames` already holds the device's side
        // of the exchange. A caller driving a real transport uses
        // `begin_call` and the outcome functions directly.
        let _req = self.begin_call(method, params);
        read_reply_outcome(frames)
    }

    /// One progress-bearing call: the request is written first; then each
    /// incoming frame is classified, notifications accumulating in arrival
    /// order until the terminal response. The counter advances whatever
    /// the outcome.
    pub fn call_with_progress(
        &mut self,
        method: String,
        params: String,
        frames: Vec<DeviceFrame>,
    ) -> (r: Result<(Vec<RpcNotification>, String), CallError>)
        requires
            old(self).request_id < u64::MAX,
        ensures
            final(self).request_id == old(self).request_id + 1,
            progress_call_post(frames@, r),
    {
        // As in `call`: the counter advances as on a live call, and the
        // given frames stand for what the device sent back.
        let _req = self.begin_call(method, params);
        collect_progress_outcome(frames)
    }
}

/// Interpret what the device sent back for a plain call: the first frame
/// must be the reply.
pub fn read_reply_outcome(frames: Vec<DeviceFrame>) -> (r: Result<String, CallError>)
    ensures
        plain_call_post(frames@, r),
{
    let mut frames = frames;
    if frames.len() == 0 {
        return Err(CallError::Transport("connection closed before response".to_owned()));
    }
    let first = frames.remove(0);
    match first {
        DeviceFrame::Reply(resp) => finish_call(resp),
        DeviceFrame::Note(_) => Err(CallError::Decode("response frame has no id".to_owned())),
        DeviceFrame::Bad(m) => Err(CallError::Decode(m)),
    }
}

/// Interpret what the device sent back for a progress-bearing call:
/// notifications accumulate in arrival order until the terminal response.
#[verifier::loop_isolation(false)]
pub fn collect_progress_outcome(frames: Vec<DeviceFrame>) -> (r: Result<
    (Vec<RpcNotification>, String),
    CallError,
>)
    ensures
        progress_call_post(frames@, r),
{
    let ghost all_frames = frames@;
    let mut frames = frames;
    let mut notes: Vec<RpcNotification> = Vec::new();
    loop
        invariant
            leading_notes(all_frames) == notes@ + leading_notes(frames@),
            after_notes(all_frames) == after_notes(frames@),
        decreases frames@.len(),
    {
        if frames.len() == 0 {
            return Err(CallError::Transport("connection closed before response".to_owned()));
        }
        let ghost pre = frames@;
        let first = frames.remove(0);
        proof {
            assert(frames@ =~= pre.drop_first());
        }
        match first {
            DeviceFrame::Note(n) => {
                notes.push(n);
                proof {
                    assert(notes@ + leading_notes(frames@) =~= leading_notes(all_frames));
                }
            },
            DeviceFrame::Reply(resp) => {
                proof {
                    assert(after_notes(pre) == pre);
                    assert(leading_notes(pre) =~= Seq::<RpcNotification>::empty());
                    assert(leading_notes(all_frames) =~= notes@);
                }
                match finish_call(resp) {
                    Ok(v) => {
                        return Ok((notes, v));
                    },
                    Err(e) => {
                        return Err(e);
                    },
                }
            },
            DeviceFrame::Bad(m) => {
                proof {
                    assert(after_notes(pre) == pre);
                }
                return Err(CallError::Decode(m));
            },
        }
    }
}

/// The slot is occupied.
pub open spec fn spec_is_connected(m: BitwigManager) -> bool {
    m.connection is Some
}

/// The one-slot owner of the current device connection. Setting a new
/// connection replaces the old one unconditionally; calls go to whatever
/// connection is current when they start.
pub struct BitwigManager {
    pub connection: Option<BitwigConnection>,
}

impl BitwigManager {
    /// A manager with an empty slot.
    pub fn new() -> (m: BitwigManager)
        ensures
            m.connection is None,
    {
        BitwigManager { connection: None }
    }

    /// Replace the current connection, unconditionally.
    pub fn set_connection(&mut self, conn: BitwigConnection)
        ensures
            final(self).connection == Some(conn),
    {
        self.connection = Some(conn);
    }

    /// Empty the slot.
    pub fn clear_connection(&mut self)
        ensures
            final(self).connection is None,
    {
        self.connection = None;
    }

    /// Whether a device connection is current.
    pub fn is_connected(&self) -> (r: bool)
        ensures
            r == spec_is_connected(*self),
    {
        self.connection.is_some()
    }

    /// One plain call through the current connection; `NotConnected` when
    /// the slot is empty, in which case nothing changes.
    pub fn call(&mut self, method: String, params: String, frames: Vec<DeviceFrame>) -> (r: Result<
        String,
        CallError,
    >)
        requires
            old(self).connection matches Some(c) ==> c.request_id < u64::MAX,
        ensures
            old(self).connection is None ==> *final(self) == *old(self) && r matches Err(
                CallError::NotConnected,
            ),
            old(self).connection matches Some(c) ==> (final(self).connection matches Some(c2)
                && c2.request_id == c.request_id + 1) && plain_call_post(frames@, r),
    {
        match &mut self.connection {
            Some(conn) => conn.call(method, params, frames),
            None => Err(CallError::NotConnected),
        }
    }

    /// One progress-bearing call through the current connection;
    /// `NotConnected` when the slot is empty, in which case nothing
    /// changes.
    pub fn call_with_progress(
        &mut self,
        method: String,
        params: String,
        frames: Vec<DeviceFrame>,
    ) -> (r: Result<(Vec<RpcNotification>, String), CallError>)
        requires
            old(self).connection matches Some(c) ==> c.request_id < u64::MAX,
        ensures
            old(self).connection is None ==> *final(self) == *old(self) && r matches Err(
                CallError::NotConnected,
            ),
            old(self).connection matches Some(c) ==> (final(self).connection matches Some(c2)
                && c2.request_id == c.request_id + 1) && progress_call_post(frames@, r),
    {
        match &mut self.connection {
            Some(conn) => conn.call_with_progress(method, params, frames),
            None => Err(CallError::NotConnected),
        }
    }
}

/// In a chain of calls on one connection starting from a fresh counter,
/// the counter after `k` calls is `k`.
proof fn lemma_counter_chain(conns: Seq<BitwigConnection>, ids: Seq<u64>, k: int)
    requires
        conns.len() == ids.len() + 1,
        conns[0].request_id == 0,
        forall|j: int| 0 <= j < ids.len() ==> next_id_rel(conns[j], conns[j + 1], ids[j]),
        0 <= k <= ids.len(),
    ensures
        conns[k].request_id == k,
    decreases k,
{
    if k > 0 {
        lemma_counter_chain(conns, ids, k - 1);
        assert(next_id_rel(conns[k - 1], conns[k], ids[k - 1]));
    }
}

/// Consecutive calls on one device connection draw ids 1, 2, 3, ... —
/// strictly increasing and starting at 1 — whatever each call returns,
/// since the counter advances on every call.
pub proof fn lemma_id_monotonicity(conns: Seq<BitwigConnection>, ids: Seq<u64>)
    requires
        conns.len() == ids.len() + 1,
        conns[0].request_id == 0,
        forall|j: int| 0 <= j < ids.len() ==> next_id_rel(conns[j], conns[j + 1], ids[j]),
    ensures
        forall|j: int| 0 <= j < ids.len() ==> ids[j] == j + 1,
        forall|i: int, j: int| 0 <= i < j < ids.len() ==> ids[i] < ids[j],
{
    assert forall|j: int| 0 <= j < ids.len() implies ids[j] == j + 1 by {
        lemma_counter_chain(conns, ids, j + 1);
        assert(next_id_rel(conns[j], conns[j + 1], ids[j]));
    }
}

/// After two connections are set in sequence, the manager's state is
/// exactly the one holding the second: the slot reports connected, and no
/// trace of the first connection remains, so later calls consult only the
/// second.
pub proof fn lemma_single_slot_replacement(
    m1: BitwigManager,
    m2: BitwigManager,
    c1: BitwigConnection,
    c2: BitwigConnection,
)
    requires
        m1.connection == Some(c1),
        m2.connection == Some(c2),
    ensures
        spec_is_connected(m2),
        m2 == (BitwigManager { connection: Some(c2) }),
{
}

} // verus!
