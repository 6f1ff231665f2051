//! Operator-facing dispatch: serving one decoded operator request through
//! the connection manager and building the framed messages the operator is
//! owed in return.
//!
//! Reading requests off the socket and writing these messages back is the
//! caller's business; every decision in between is made here.

use vstd::prelude::*;

use crate::bitwig::{
    after_notes, closed_text, error_text_seq, leading_notes, spec_finish, stray_note_text,
    BitwigManager, CallError,
};
use crate::protocol::{version_seq, DeviceFrame, RpcId, RpcNotification, RpcRequest, RpcResponse};

verus! {

/// The code under which every relay failure is reported to the operator.
pub const RELAY_ERROR_CODE: i32 = -32603;

/// One framed message the listener sends back to an operator: a forwarded
/// progress notification, or the response closing the exchange.
#[derive(Debug, PartialEq, Eq)]
pub enum OperatorMessage {
    Note(RpcNotification),
    Reply(RpcResponse),
}

/// `m` is a success reply under `id` carrying `result`.
pub open spec fn is_success_reply(m: OperatorMessage, id: RpcId, result: Seq<char>) -> bool {
    &&& m matches OperatorMessage::Reply(r)
    &&& r.jsonrpc@ == version_seq()
    &&& r.id == id
    &&& r.error is None
    &&& r.result matches Some(v) && v@ == result
}

/// `m` is a relay-failure reply under `id`: code `RELAY_ERROR_CODE`, with
/// `message` as its description.
pub open spec fn is_error_reply(m: OperatorMessage, id: RpcId, message: Seq<char>) -> bool {
    &&& m matches OperatorMessage::Reply(r)
    &&& r.jsonrpc@ == version_seq()
    &&& r.id == id
    &&& r.result is None
    &&& r.error matches Some(e) && e.code == RELAY_ERROR_CODE && e.message@ == message
        && e.data is None
}

/// What the listener sends for one request, given the call's outcome:
/// every accumulated notification in arrival order, then one success
/// reply; or one error reply describing the failure.
pub open spec fn respond_post(
    id: RpcId,
    outcome: Result<(Vec<RpcNotification>, String), CallError>,
    msgs: Seq<OperatorMessage>,
) -> bool {
    match outcome {
        Ok(p) => {
            &&& msgs.len() == p.0@.len() + 1
            &&& forall|k: int| 0 <= k < p.0@.len() ==> msgs[k] == OperatorMessage::Note(p.0@[k])
            &&& is_success_reply(msgs[p.0@.len() as int], id, p.1@)
        },
        Err(e) => {
            &&& msgs.len() == 1
            &&& is_error_reply(msgs[0], id, error_text_seq(e))
        },
    }
}

/// Build the messages answering one request under the operator's original
/// id `id`.
#[verifier::loop_isolation(false)]
pub fn respond(id: RpcId, outcome: Result<(Vec<RpcNotification>, String), CallError>) -> (msgs:
    Vec<OperatorMessage>)
    ensures
        respond_post(id, outcome, msgs@),
{
    match outcome {
        Ok((notes, result)) => {
            let ghost all_notes = notes@;
            let mut notes = notes;
            let mut msgs: Vec<OperatorMessage> = Vec::new();
            while notes.len() > 0
                invariant
                    msgs@.len() + notes@.len() == all_notes.len(),
                    notes@ == all_notes.subrange(msgs@.len() as int, all_notes.len() as int),
                    forall|k: int|
                        0 <= k < msgs@.len() ==> msgs@[k] == OperatorMessage::Note(all_notes[k]),
                decreases notes@.len(),
            {
                let n = notes.remove(0);
                proof {
                    assert(notes@ =~= all_notes.subrange(
                        msgs@.len() as int + 1,
                        all_notes.len() as int,
                    ));
                }
                msgs.push(OperatorMessage::Note(n));
            }
            msgs.push(OperatorMessage::Reply(RpcResponse::success(id, result)));
            msgs
        },
        Err(e) => {
            let text = e.message();
            let mut msgs: Vec<OperatorMessage> = Vec::new();
            msgs.push(OperatorMessage::Reply(RpcResponse::error(id, RELAY_ERROR_CODE, text)));
            msgs
        },
    }
}

/// The messages a successfully read reply leads to, with `notes` the
/// notifications to forward first.
pub open spec fn reply_msgs_post(
    resp: RpcResponse,
    id: RpcId,
    notes: Seq<RpcNotification>,
    msgs: Seq<OperatorMessage>,
) -> bool {
    match spec_finish(resp) {
        Ok(v) => {
            &&& msgs.len() == notes.len() + 1
            &&& forall|k: int| 0 <= k < notes.len() ==> msgs[k] == OperatorMessage::Note(notes[k])
            &&& is_success_reply(msgs[notes.len() as int], id, v@)
        },
        Err(e) => msgs.len() == 1 && is_error_reply(msgs[0], id, error_text_seq(e)),
    }
}

/// The operator messages a plain call leads to: the first device frame is
/// read as the reply.
pub open spec fn plain_msgs_post(
    frames: Seq<DeviceFrame>,
    id: RpcId,
    msgs: Seq<OperatorMessage>,
) -> bool {
    if frames.len() == 0 {
        msgs.len() == 1 && is_error_reply(msgs[0], id, closed_text())
    } else {
        match frames[0] {
            DeviceFrame::Reply(resp) => reply_msgs_post(resp, id, Seq::empty(), msgs),
            DeviceFrame::Note(_) => msgs.len() == 1 && is_error_reply(msgs[0], id, stray_note_text()),
            DeviceFrame::Bad(m0) => msgs.len() == 1 && is_error_reply(msgs[0], id, m0@),
        }
    }
}

/// The operator messages a progress-bearing call leads to: notifications
/// accumulate until the terminal response, and are forwarded in arrival
/// order before it.
pub open spec fn progress_msgs_post(
    frames: Seq<DeviceFrame>,
    id: RpcId,
    msgs: Seq<OperatorMessage>,
) -> bool {
    let rest = after_notes(frames);
    if rest.len() == 0 {
        msgs.len() == 1 && is_error_reply(msgs[0], id, closed_text())
    } else {
        match rest[0] {
            DeviceFrame::Reply(resp) => reply_msgs_post(resp, id, leading_notes(frames), msgs),
            DeviceFrame::Bad(m0) => msgs.len() == 1 && is_error_reply(msgs[0], id, m0@),
            DeviceFrame::Note(_) => false,
        }
    }
}

/// Serving one operator request: how the manager moves and exactly which
/// messages go back to the operator, in every case.
pub open spec fn handle_post(
    pre: BitwigManager,
    post: BitwigManager,
    request: RpcRequest,
    frames: Seq<DeviceFrame>,
    progress_method: Seq<char>,
    msgs: Seq<OperatorMessage>,
) -> bool {
    match pre.connection {
        None => {
            &&& post == pre
            &&& msgs.len() == 1
            &&& is_error_reply(msgs[0], request.id, error_text_seq(CallError::NotConnected))
        },
        Some(c) => {
            &&& post.connection matches Some(c2) && c2.request_id == c.request_id + 1
            &&& if request.method@ == progress_method {
                progress_msgs_post(frames, request.id, msgs)
            } else {
                plain_msgs_post(frames, request.id, msgs)
            }
        },
    }
}

/// Serve one decoded operator request: dispatch it through the manager —
/// the progress-bearing variant exactly when the method name matches
/// `progress_method` — and build the messages the operator is owed, the
/// operator's own id echoed on the closing response. `frames` holds what
/// the device sent back for this call, in arrival order.
pub fn handle_request(
    bitwig: &mut BitwigManager,
    request: RpcRequest,
    frames: Vec<DeviceFrame>,
    progress_method: &String,
) -> (msgs: Vec<OperatorMessage>)
    requires
        old(bitwig).connection matches Some(c) ==> c.request_id < u64::MAX,
    ensures
        handle_post(*old(bitwig), *final(bitwig), request, frames@, progress_method@, msgs@),
{
    let RpcRequest { jsonrpc: _, method, params, id } = request;
    let is_progress = method == *progress_method;
    if is_progress {
        let outcome = bitwig.call_with_progress(method, params, frames);
        respond(id, outcome)
    } else {
        match bitwig.call(method, params, frames) {
            Ok(v) => respond(id, Ok((Vec::new(), v))),
            Err(e) => respond(id, Err(e)),
        }
    }
}

/// A per-connection listener's state: waiting for the next request, or
/// torn down.
#[derive(Clone, Copy, Debug, PartialEq, Eq, Structural)]
pub enum ListenerState {
    AwaitRequest,
    Closed,
}

/// What happened during one turn of a listener, as its transport reports
/// it.
#[derive(Clone, Copy, Debug, PartialEq, Eq, Structural)]
pub enum ListenerEvent {
    /// Reading the next request failed or the stream closed: no reply is
    /// possible, since there is no request id to reply to.
    ReadFailed,
    /// The request frame arrived but did not decode: torn down silently,
    /// for the same reason.
    DecodeFailed,
    /// Writing a forwarded notification failed: logged, not fatal.
    NoteWriteFailed,
    /// The closing response went out: the exchange is complete.
    ResponseWritten,
    /// Writing the closing response failed.
    ResponseWriteFailed,
}

/// Where one turn's event takes the listener.
pub open spec fn spec_listener_step(s: ListenerState, e: ListenerEvent) -> ListenerState {
    match s {
        ListenerState::Closed => ListenerState::Closed,
        ListenerState::AwaitRequest => match e {
            ListenerEvent::ReadFailed => ListenerState::Closed,
            ListenerEvent::DecodeFailed => ListenerState::Closed,
            ListenerEvent::NoteWriteFailed => ListenerState::AwaitRequest,
            ListenerEvent::ResponseWritten => ListenerState::AwaitRequest,
            ListenerEvent::ResponseWriteFailed => ListenerState::Closed,
        },
    }
}

/// Advance a listener by one turn. A failure on the read or decode side,
/// or on the closing response, tears the connection down; a notification
/// write failure and a completed exchange leave it serving.
pub fn listener_step(s: ListenerState, e: ListenerEvent) -> (next: ListenerState)
    ensures
        next == spec_listener_step(s, e),
{
    match s {
        ListenerState::Closed => ListenerState::Closed,
        ListenerState::AwaitRequest => match e {
            ListenerEvent::ReadFailed => ListenerState::Closed,
            ListenerEvent::DecodeFailed => ListenerState::Closed,
            ListenerEvent::NoteWriteFailed => ListenerState::AwaitRequest,
            ListenerEvent::ResponseWritten => ListenerState::AwaitRequest,
            ListenerEvent::ResponseWriteFailed => ListenerState::Closed,
        },
    }
}

/// Once closed, a listener stays closed, whatever else its transport
/// reports.
pub proof fn lemma_closed_is_terminal(e: ListenerEvent)
    ensures
        spec_listener_step(ListenerState::Closed, e) == ListenerState::Closed,
{
}

/// The device frames for `notes` forwarded as notifications.
pub open spec fn notes_frames(notes: Seq<RpcNotification>) -> Seq<DeviceFrame> {
    notes.map_values(|n: RpcNotification| DeviceFrame::Note(n))
}

/// Splitting a frame sequence at its first non-notification frame: the
/// notifications before `tail` are exactly `notes`, and what follows them
/// is exactly `tail`.
pub proof fn lemma_leading_after(notes: Seq<RpcNotification>, tail: Seq<DeviceFrame>)
    requires
        tail.len() > 0,
        !(tail[0] is Note),
    ensures
        leading_notes(notes_frames(notes) + tail) == notes,
        after_notes(notes_frames(notes) + tail) == tail,
    decreases notes.len(),
{
    let frames = notes_frames(notes) + tail;
    if notes.len() == 0 {
        assert(frames =~= tail);
        assert(leading_notes(frames) =~= notes);
    } else {
        lemma_leading_after(notes.drop_first(), tail);
        assert(frames[0] == DeviceFrame::Note(notes[0]));
        assert(frames.drop_first() =~= notes_frames(notes.drop_first()) + tail);
        assert(leading_notes(frames) =~= seq![notes[0]] + notes.drop_first());
        assert(seq![notes[0]] + notes.drop_first() =~= notes);
    }
}

/// Error translation: when the device's reply to a plain call carries an
/// error object, the operator receives exactly one error reply, under the
/// original request id, with code `RELAY_ERROR_CODE` and a description
/// that ends with the device's own message.
pub proof fn lemma_error_translation(
    pre: BitwigManager,
    post: BitwigManager,
    request: RpcRequest,
    frames: Seq<DeviceFrame>,
    progress_method: Seq<char>,
    msgs: Seq<OperatorMessage>,
    resp: RpcResponse,
    err: crate::protocol::RpcError,
)
    requires
        handle_post(pre, post, request, frames, progress_method, msgs),
        pre.connection is Some,
        request.method@ != progress_method,
        frames.len() > 0,
        frames[0] == DeviceFrame::Reply(resp),
        resp.error == Some(err),
    ensures
        msgs.len() == 1,
        is_error_reply(
            msgs[0],
            request.id,
            error_text_seq(CallError::Device { code: err.code, message: err.message }),
        ),
        ({
            let t = error_text_seq(CallError::Device { code: err.code, message: err.message });
            t.subrange(t.len() - err.message@.len(), t.len() as int) == err.message@
        }),
{
    let t = error_text_seq(CallError::Device { code: err.code, message: err.message });
    assert(t.subrange(t.len() - err.message@.len(), t.len() as int) =~= err.message@);
}

/// Progress ordering: for the progress-bearing method, when the device
/// emits the notifications `notes` and then a successful reply carrying
/// `v`, the operator receives exactly those notifications, in arrival
/// order, followed by one success reply under the original request id.
pub proof fn lemma_progress_ordering(
    pre: BitwigManager,
    post: BitwigManager,
    request: RpcRequest,
    notes: Seq<RpcNotification>,
    resp: RpcResponse,
    v: String,
    progress_method: Seq<char>,
    msgs: Seq<OperatorMessage>,
)
    requires
        handle_post(
            pre,
            post,
            request,
            notes_frames(notes) + seq![DeviceFrame::Reply(resp)],
            progress_method,
            msgs,
        ),
        pre.connection is Some,
        request.method@ == progress_method,
        resp.error is None,
        resp.result == Some(v),
    ensures
        msgs.len() == notes.len() + 1,
        forall|k: int| 0 <= k < notes.len() ==> msgs[k] == OperatorMessage::Note(notes[k]),
        is_success_reply(msgs[notes.len() as int], request.id, v@),
{
    lemma_leading_after(notes, seq![DeviceFrame::Reply(resp)]);
}

} // verus!
