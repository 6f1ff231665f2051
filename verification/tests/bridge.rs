use groove_bridge::bitwig::{BitwigConnection, BitwigManager, CallError};
use groove_bridge::protocol::{
    read_frame, write_frame, DeviceFrame, FrameError, RpcError, RpcId, RpcNotification,
    RpcRequest, RpcResponse,
};
use groove_bridge::server::{
    handle_request, listener_step, respond, ListenerEvent, ListenerState, OperatorMessage,
};
use groove_bridge::text::{i32_to_dec, u64_to_dec};

fn request(method: &str, params: &str, id: RpcId) -> RpcRequest {
    RpcRequest {
        jsonrpc: "2.0".to_string(),
        method: method.to_string(),
        params: params.to_string(),
        id,
    }
}

fn note(method: &str, params: &str) -> RpcNotification {
    RpcNotification {
        jsonrpc: "2.0".to_string(),
        method: method.to_string(),
        params: params.to_string(),
    }
}

const PROGRESS: &str = "play.render";

#[test]
fn frame_round_trip() {
    let payload: Vec<u8> = vec![1, 2, 3, 255, 0, 42];
    let mut buf: Vec<u8> = Vec::new();
    write_frame(&mut buf, &payload);
    assert_eq!(&buf[..4], &[0, 0, 0, 6]);
    let (decoded, next) = read_frame(&buf, 0).unwrap();
    assert_eq!(decoded, payload);
    assert_eq!(next, buf.len());
}

#[test]
fn frame_round_trip_empty_and_largest() {
    let empty: Vec<u8> = Vec::new();
    let mut buf: Vec<u8> = Vec::new();
    write_frame(&mut buf, &empty);
    assert_eq!(buf, vec![0, 0, 0, 0]);
    let (decoded, next) = read_frame(&buf, 0).unwrap();
    assert_eq!(decoded, empty);
    assert_eq!(next, 4);

    let largest: Vec<u8> = vec![7u8; 10 * 1024 * 1024];
    let mut buf2: Vec<u8> = Vec::new();
    write_frame(&mut buf2, &largest);
    let (decoded2, next2) = read_frame(&buf2, 0).unwrap();
    assert_eq!(decoded2.len(), largest.len());
    assert_eq!(decoded2, largest);
    assert_eq!(next2, buf2.len());
}

#[test]
fn two_frames_in_sequence() {
    let mut buf: Vec<u8> = Vec::new();
    write_frame(&mut buf, &vec![9, 9]);
    write_frame(&mut buf, &vec![1]);
    let (first, mid) = read_frame(&buf, 0).unwrap();
    assert_eq!(first, vec![9, 9]);
    let (second, end) = read_frame(&buf, mid).unwrap();
    assert_eq!(second, vec![1]);
    assert_eq!(end, buf.len());
}

#[test]
fn oversized_frame_rejected_without_body() {
    // Declares 10 MiB + 1 and carries no body at all: the declared length
    // alone must cause the refusal.
    let buf: Vec<u8> = vec![0x00, 0xA0, 0x00, 0x01];
    assert_eq!(read_frame(&buf, 0), Err(FrameError::TooLarge));
}

#[test]
fn short_frames_rejected() {
    let buf: Vec<u8> = vec![0x00, 0x00];
    assert_eq!(read_frame(&buf, 0), Err(FrameError::MalformedLength));
    let buf2: Vec<u8> = vec![0, 0, 0, 5, 1, 2, 3];
    assert_eq!(read_frame(&buf2, 0), Err(FrameError::Truncated));
}

#[test]
fn ids_strictly_increasing_from_one() {
    let mut conn = BitwigConnection::new();
    assert_eq!(conn.next_id(), 1);
    assert_eq!(conn.next_id(), 2);
    let req = conn.begin_call("info.get".to_string(), "{}".to_string());
    assert_eq!(req.id, RpcId::Num(3));
    assert_eq!(req.jsonrpc, "2.0");
}

#[test]
fn counter_advances_regardless_of_outcome() {
    let mut mgr = BitwigManager::new();
    mgr.set_connection(BitwigConnection::new());
    // First call fails: the stream closes before any reply.
    let r = mgr.call("info.get".to_string(), "{}".to_string(), Vec::new());
    assert!(matches!(r, Err(CallError::Transport(_))));
    assert_eq!(mgr.connection.as_ref().unwrap().request_id, 1);
    // Second call succeeds; the counter keeps counting.
    let frames = vec![DeviceFrame::Reply(RpcResponse::success(
        RpcId::Num(2),
        "42".to_string(),
    ))];
    let r2 = mgr.call("info.get".to_string(), "{}".to_string(), frames);
    assert_eq!(r2, Ok("42".to_string()));
    assert_eq!(mgr.connection.as_ref().unwrap().request_id, 2);
}

#[test]
fn second_connection_replaces_first() {
    let mut mgr = BitwigManager::new();
    assert!(!mgr.is_connected());

    let mut first = BitwigConnection::new();
    first.next_id();
    first.next_id();
    mgr.set_connection(first);
    assert!(mgr.is_connected());
    assert_eq!(mgr.connection.as_ref().unwrap().request_id, 2);

    mgr.set_connection(BitwigConnection::new());
    assert!(mgr.is_connected());
    // Calls now draw ids from the second connection's fresh counter: the
    // first connection is never consulted again.
    let frames = vec![DeviceFrame::Reply(RpcResponse::success(
        RpcId::Num(1),
        "null".to_string(),
    ))];
    let r = mgr.call("info.get".to_string(), "{}".to_string(), frames);
    assert_eq!(r, Ok("null".to_string()));
    assert_eq!(mgr.connection.as_ref().unwrap().request_id, 1);
}

#[test]
fn clear_connection_empties_slot() {
    let mut mgr = BitwigManager::new();
    mgr.set_connection(BitwigConnection::new());
    mgr.clear_connection();
    assert!(!mgr.is_connected());
    let r = mgr.call("info.get".to_string(), "{}".to_string(), Vec::new());
    assert_eq!(r, Err(CallError::NotConnected));
}

#[test]
fn device_error_translated_to_relay_error() {
    let mut mgr = BitwigManager::new();
    mgr.set_connection(BitwigConnection::new());
    let frames = vec![DeviceFrame::Reply(RpcResponse::error(
        RpcId::Num(1),
        -32000,
        "oops".to_string(),
    ))];
    let msgs = handle_request(
        &mut mgr,
        request("info.get", "{}", RpcId::Num(4)),
        frames,
        &PROGRESS.to_string(),
    );
    assert_eq!(msgs.len(), 1);
    match &msgs[0] {
        OperatorMessage::Reply(r) => {
            assert_eq!(r.id, RpcId::Num(4));
            assert_eq!(r.result, None);
            let e = r.error.as_ref().unwrap();
            assert_eq!(e.code, -32603);
            assert_eq!(e.message, "RPC error -32000: oops");
            assert_eq!(e.data, None);
        }
        OperatorMessage::Note(_) => panic!("expected a reply"),
    }
}

#[test]
fn progress_notifications_forwarded_in_order() {
    let mut mgr = BitwigManager::new();
    mgr.set_connection(BitwigConnection::new());
    let frames = vec![
        DeviceFrame::Note(note("render.progress", "{\"pct\":10}")),
        DeviceFrame::Note(note("render.progress", "{\"pct\":60}")),
        DeviceFrame::Note(note("render.progress", "{\"pct\":100}")),
        DeviceFrame::Reply(RpcResponse::success(RpcId::Num(1), "\"done\"".to_string())),
    ];
    let msgs = handle_request(
        &mut mgr,
        request(PROGRESS, "{}", RpcId::Text("j1".to_string())),
        frames,
        &PROGRESS.to_string(),
    );
    assert_eq!(msgs.len(), 4);
    assert_eq!(
        msgs[0],
        OperatorMessage::Note(note("render.progress", "{\"pct\":10}"))
    );
    assert_eq!(
        msgs[1],
        OperatorMessage::Note(note("render.progress", "{\"pct\":60}"))
    );
    assert_eq!(
        msgs[2],
        OperatorMessage::Note(note("render.progress", "{\"pct\":100}"))
    );
    match &msgs[3] {
        OperatorMessage::Reply(r) => {
            assert_eq!(r.id, RpcId::Text("j1".to_string()));
            assert_eq!(r.result, Some("\"done\"".to_string()));
            assert_eq!(r.error, None);
        }
        OperatorMessage::Note(_) => panic!("expected the closing reply"),
    }
}

#[test]
fn progress_method_error_reply_discards_notes() {
    let mut mgr = BitwigManager::new();
    mgr.set_connection(BitwigConnection::new());
    let frames = vec![
        DeviceFrame::Note(note("render.progress", "{\"pct\":10}")),
        DeviceFrame::Reply(RpcResponse::error(RpcId::Num(1), 5, "render failed".to_string())),
    ];
    let msgs = handle_request(
        &mut mgr,
        request(PROGRESS, "{}", RpcId::Num(2)),
        frames,
        &PROGRESS.to_string(),
    );
    assert_eq!(msgs.len(), 1);
    match &msgs[0] {
        OperatorMessage::Reply(r) => {
            assert_eq!(r.error.as_ref().unwrap().message, "RPC error 5: render failed");
            assert_eq!(r.error.as_ref().unwrap().code, -32603);
        }
        OperatorMessage::Note(_) => panic!("expected a reply"),
    }
}

#[test]
fn scenario_no_device_connected() {
    // Operator sends {method:"info.get", params:{}, id:1} with no device
    // connected: it receives {error:{code:-32603, message:"Bitwig not
    // connected"}, id:1}.
    let mut mgr = BitwigManager::new();
    let msgs = handle_request(
        &mut mgr,
        request("info.get", "{}", RpcId::Num(1)),
        Vec::new(),
        &PROGRESS.to_string(),
    );
    assert_eq!(msgs.len(), 1);
    assert_eq!(
        msgs[0],
        OperatorMessage::Reply(RpcResponse {
            jsonrpc: "2.0".to_string(),
            result: None,
            error: Some(RpcError {
                code: -32603,
                message: "Bitwig not connected".to_string(),
                data: None,
            }),
            id: RpcId::Num(1),
        })
    );
    assert!(!mgr.is_connected());
}

#[test]
fn scenario_operator_id_preserved() {
    // Device connects; operator sends {method:"list.tracks", params:{},
    // id:7}; the device replies under its own id 1; the operator receives
    // the result under its original id 7.
    let mut mgr = BitwigManager::new();
    mgr.set_connection(BitwigConnection::new());
    let frames = vec![DeviceFrame::Reply(RpcResponse::success(
        RpcId::Num(1),
        "[\"Track 1\",\"Track 2\"]".to_string(),
    ))];
    let msgs = handle_request(
        &mut mgr,
        request("list.tracks", "{}", RpcId::Num(7)),
        frames,
        &PROGRESS.to_string(),
    );
    assert_eq!(msgs.len(), 1);
    assert_eq!(
        msgs[0],
        OperatorMessage::Reply(RpcResponse {
            jsonrpc: "2.0".to_string(),
            result: Some("[\"Track 1\",\"Track 2\"]".to_string()),
            error: None,
            id: RpcId::Num(7),
        })
    );
}

#[test]
fn stream_end_and_stray_frames_reported() {
    let mut mgr = BitwigManager::new();
    mgr.set_connection(BitwigConnection::new());
    let msgs = handle_request(
        &mut mgr,
        request("info.get", "{}", RpcId::Num(1)),
        Vec::new(),
        &PROGRESS.to_string(),
    );
    match &msgs[0] {
        OperatorMessage::Reply(r) => assert_eq!(
            r.error.as_ref().unwrap().message,
            "connection closed before response"
        ),
        OperatorMessage::Note(_) => panic!("expected a reply"),
    }

    let frames = vec![DeviceFrame::Note(note("render.progress", "{}"))];
    let msgs2 = handle_request(
        &mut mgr,
        request("info.get", "{}", RpcId::Num(2)),
        frames,
        &PROGRESS.to_string(),
    );
    match &msgs2[0] {
        OperatorMessage::Reply(r) => {
            assert_eq!(r.error.as_ref().unwrap().message, "response frame has no id")
        }
        OperatorMessage::Note(_) => panic!("expected a reply"),
    }

    let frames3 = vec![DeviceFrame::Bad("expected value at line 1".to_string())];
    let msgs3 = handle_request(
        &mut mgr,
        request("info.get", "{}", RpcId::Num(3)),
        frames3,
        &PROGRESS.to_string(),
    );
    match &msgs3[0] {
        OperatorMessage::Reply(r) => {
            assert_eq!(r.error.as_ref().unwrap().message, "expected value at line 1")
        }
        OperatorMessage::Note(_) => panic!("expected a reply"),
    }
}

#[test]
fn response_with_neither_result_nor_error() {
    let mut mgr = BitwigManager::new();
    mgr.set_connection(BitwigConnection::new());
    let empty_reply = RpcResponse {
        jsonrpc: "2.0".to_string(),
        result: None,
        error: None,
        id: RpcId::Num(1),
    };
    let r = mgr.call(
        "info.get".to_string(),
        "{}".to_string(),
        vec![DeviceFrame::Reply(empty_reply)],
    );
    assert_eq!(r, Err(CallError::NoResult));
    assert_eq!(
        CallError::NoResult.message(),
        "No result in response"
    );
}

#[test]
fn error_messages_by_variant() {
    assert_eq!(CallError::NotConnected.message(), "Bitwig not connected");
    assert_eq!(
        CallError::Device { code: -3, message: "x".to_string() }.message(),
        "RPC error -3: x"
    );
    assert_eq!(
        CallError::Transport("broken pipe".to_string()).message(),
        "broken pipe"
    );
    assert_eq!(CallError::Decode("bad json".to_string()).message(), "bad json");
}

#[test]
fn decimal_rendering_exact() {
    assert_eq!(u64_to_dec(0), "0");
    assert_eq!(u64_to_dec(7), "7");
    assert_eq!(u64_to_dec(1234567890), "1234567890");
    assert_eq!(u64_to_dec(u64::MAX), "18446744073709551615");
    assert_eq!(i32_to_dec(-32603), "-32603");
    assert_eq!(i32_to_dec(0), "0");
    assert_eq!(i32_to_dec(i32::MIN), "-2147483648");
    assert_eq!(i32_to_dec(i32::MAX), "2147483647");
}

#[test]
fn listener_transitions() {
    let s = ListenerState::AwaitRequest;
    assert_eq!(
        listener_step(s, ListenerEvent::ResponseWritten),
        ListenerState::AwaitRequest
    );
    assert_eq!(
        listener_step(s, ListenerEvent::NoteWriteFailed),
        ListenerState::AwaitRequest
    );
    assert_eq!(listener_step(s, ListenerEvent::ReadFailed), ListenerState::Closed);
    assert_eq!(listener_step(s, ListenerEvent::DecodeFailed), ListenerState::Closed);
    assert_eq!(
        listener_step(s, ListenerEvent::ResponseWriteFailed),
        ListenerState::Closed
    );
    assert_eq!(
        listener_step(ListenerState::Closed, ListenerEvent::ResponseWritten),
        ListenerState::Closed
    );
}

#[test]
fn respond_builds_notes_then_reply() {
    let notes = vec![note("a", "{}"), note("b", "{}")];
    let msgs = respond(RpcId::Num(9), Ok((notes, "1".to_string())));
    assert_eq!(msgs.len(), 3);
    assert_eq!(msgs[0], OperatorMessage::Note(note("a", "{}")));
    assert_eq!(msgs[1], OperatorMessage::Note(note("b", "{}")));
    match &msgs[2] {
        OperatorMessage::Reply(r) => {
            assert_eq!(r.id, RpcId::Num(9));
            assert_eq!(r.result, Some("1".to_string()));
        }
        OperatorMessage::Note(_) => panic!("expected the closing reply"),
    }
}
