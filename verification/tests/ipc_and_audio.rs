use base64::Engine;
use chatterbox_desktop::audio::{audio_data_url, decode_audio, encode_audio, read_error_message};
use chatterbox_desktop::invoke::{parse_error_message, unwrap_reply, Command, InvokeReply};
use chatterbox_desktop::rpc::{
    exited_message, failure_message, no_session_message, request_for, request_line,
    response_id, response_outcome, IdAllocator, IpcCall, PendingRequests, RequestFailure, RpcId,
    RpcResponse, QUIT_GRACE_SECS, REQUEST_TIMEOUT_SECS,
};

fn strs(v: &[(String, String)]) -> Vec<(&str, &str)> {
    v.iter().map(|(a, b)| (a.as_str(), b.as_str())).collect()
}

#[test]
fn ipc_methods_and_params() {
    assert_eq!(IpcCall::StartSession.method(), "start_session");
    assert!(IpcCall::StartSession.params().is_empty());
    assert_eq!(IpcCall::GetGreeting.method(), "get_greeting");
    assert_eq!(IpcCall::Quit.method(), "quit");
    let m = IpcCall::AddMessage { text: "hi Luna".to_string() };
    assert_eq!(m.method(), "add_message");
    assert_eq!(strs(&m.params()), vec![("text", "hi Luna")]);
    let t = IpcCall::TranscribeAndReply {
        audio_file: "/tmp/a.webm".to_string(),
        mime_type: "audio/webm".to_string(),
    };
    assert_eq!(t.method(), "transcribe_and_reply");
    assert_eq!(strs(&t.params()), vec![("audio_file", "/tmp/a.webm"), ("mime_type", "audio/webm")]);
}

#[test]
fn requests_and_lines() {
    let r = request_for(&IpcCall::Quit, 7);
    assert_eq!(r.method, "quit");
    assert!(r.params.is_empty());
    assert_eq!(r.id, 7);
    assert_eq!(request_line("{\"id\":7}"), "{\"id\":7}\n");
}

#[test]
fn ids_start_at_one_and_count_up() {
    let mut ids = IdAllocator::new();
    assert_eq!(ids.allocate(), 1);
    assert_eq!(ids.allocate(), 2);
    assert_eq!(ids.allocate(), 3);
}

#[test]
fn routing_ids() {
    assert_eq!(response_id(&RpcId::Integer(42)), 42);
    assert_eq!(response_id(&RpcId::Integer(-5)), -5);
    assert_eq!(response_id(&RpcId::OtherNumber("1.5".to_string())), 0);
    assert_eq!(response_id(&RpcId::NotNumber), 0);
}

#[test]
fn response_outcomes() {
    let (id, out) = response_outcome(RpcResponse {
        id: RpcId::Integer(3),
        result: Some(10),
        error: Some("{\"code\":1}".to_string()),
    });
    assert_eq!(id, 3);
    assert_eq!(out, Err("Python error: {\"code\":1}".to_string()));
    let (_, out) = response_outcome(RpcResponse { id: RpcId::Integer(3), result: Some(10), error: None });
    assert_eq!(out, Ok(10));
    let (id, out) =
        response_outcome::<i32>(RpcResponse { id: RpcId::NotNumber, result: None, error: None });
    assert_eq!(id, 0);
    assert_eq!(out, Err("No result".to_string()));
}

#[test]
fn pending_requests_answered_once() {
    let mut p: PendingRequests<&str> = PendingRequests::new();
    assert_eq!(p.register(1, "first"), None);
    assert_eq!(p.register(2, "second"), None);
    assert!(p.is_waiting(1));
    let resp = RpcResponse { id: RpcId::Integer(1), result: Some("ok"), error: None };
    assert_eq!(p.deliver(resp), Some(("first", Ok("ok"))));
    assert!(!p.is_waiting(1));
    let again = RpcResponse { id: RpcId::Integer(1), result: Some("ok"), error: None };
    assert_eq!(p.deliver(again), None);
    assert_eq!(p.abandon(2, &RequestFailure::TimedOut), "Request timed out (60s)");
    assert!(!p.is_waiting(2));
    let late = RpcResponse::<&str> { id: RpcId::Integer(2), result: None, error: None };
    assert_eq!(p.deliver(late), None);
}

#[test]
fn pending_requests_replace_and_close() {
    let mut p: PendingRequests<u8> = PendingRequests::new();
    assert_eq!(p.register(5, 1), None);
    assert_eq!(p.register(5, 2), Some(1));
    p.register(6, 3);
    assert_eq!(p.take(6), Some(3));
    assert_eq!(p.take(6), None);
    p.register(7, 4);
    let mut all = p.close();
    all.sort();
    assert_eq!(all, vec![(5, 2), (7, 4)]);
    assert!(!p.is_waiting(5) && !p.is_waiting(7));
    assert!(p.close().is_empty());
}

#[test]
fn failure_and_session_messages() {
    assert_eq!(failure_message(&RequestFailure::ChannelClosed), "Response channel dropped");
    assert_eq!(failure_message(&RequestFailure::TimedOut), "Request timed out (60s)");
    assert_eq!(no_session_message(), "No active session");
    assert_eq!(exited_message(), "Python exited");
    assert_eq!(REQUEST_TIMEOUT_SECS, 60);
    assert_eq!(QUIT_GRACE_SECS, 5);
    let mut p: PendingRequests<()> = PendingRequests::new();
    p.register(9, ());
    assert_eq!(p.abandon(9, &RequestFailure::ChannelClosed), "Response channel dropped");
    assert!(!p.is_waiting(9));
}

#[test]
fn base64_encoding() {
    assert_eq!(encode_audio(b"hello world~"), "aGVsbG8gd29ybGR+");
    assert_eq!(encode_audio(b"hello world~\n"), "aGVsbG8gd29ybGR+Cg==");
    assert_eq!(encode_audio(b""), "");
    assert_eq!(encode_audio(&[0xff, 0xfe]), "//4=");
    assert_eq!(encode_audio(&[0xfb]), "+w==");
}

#[test]
fn base64_decoding() {
    assert_eq!(decode_audio("aGVsbG8gd29ybGR+Cg==").unwrap(), b"hello world~\n".to_vec());
    assert_eq!(decode_audio("").unwrap(), Vec::<u8>::new());
    assert!(decode_audio("QR==").is_err());
    assert!(decode_audio("QQ").is_err());
    assert!(decode_audio("QQ=").is_err());
    assert!(decode_audio("not base64!").is_err());
    assert!(decode_audio("QQ==\n").is_err());
    assert!(!decode_audio("@@@@").unwrap_err().is_empty());
}

#[test]
fn base64_round_trip() {
    let mut data: Vec<u8> = Vec::new();
    for n in 0..40u32 {
        let bytes: Vec<u8> = (0..n).map(|i| (i * 37 + n * 11) as u8).collect();
        assert_eq!(decode_audio(&encode_audio(&bytes)).unwrap(), bytes);
        data.push(n as u8);
    }
    assert_eq!(decode_audio(&encode_audio(&data)).unwrap(), data);
}

#[test]
fn audio_messages() {
    assert_eq!(audio_data_url("UklGRg=="), "data:audio/wav;base64,UklGRg==");
    assert_eq!(
        read_error_message("/tmp/x.wav", "No such file or directory (os error 2)"),
        "Read /tmp/x.wav: No such file or directory (os error 2)"
    );
}

#[test]
fn commands_and_arguments() {
    assert_eq!(Command::StartSession.name(), "start_session");
    assert!(Command::StartSession.args().is_none());
    assert_eq!(Command::GetGreeting.name(), "get_greeting");
    assert!(Command::GetGreeting.args().is_none());
    let s = Command::SendMessage { text: "hello".to_string() };
    assert_eq!(s.name(), "send_message");
    assert_eq!(strs(&s.args().unwrap()), vec![("text", "hello")]);
    let r = Command::ReadAudioFile { path: "/tmp/r.wav".to_string() };
    assert_eq!(r.name(), "read_audio_file");
    assert_eq!(strs(&r.args().unwrap()), vec![("path", "/tmp/r.wav")]);
    let t = Command::TranscribeAndReply { audio_b64: "QQ==".to_string(), mime_type: "audio/ogg".to_string() };
    assert_eq!(t.name(), "transcribe_and_reply");
    assert_eq!(strs(&t.args().unwrap()), vec![("audioB64", "QQ=="), ("mimeType", "audio/ogg")]);
}

#[test]
fn invoke_replies() {
    let ok = InvokeReply { ok: Some(true), value: Some(5), error: Some("ignored".to_string()) };
    assert_eq!(unwrap_reply(ok), Ok(Some(5)));
    let null = InvokeReply::<i32> { ok: Some(true), value: None, error: None };
    assert_eq!(unwrap_reply(null), Ok(None));
    let failed = InvokeReply { ok: Some(false), value: Some(5), error: Some("boom".to_string()) };
    assert_eq!(unwrap_reply(failed), Err("boom".to_string()));
    let odd = InvokeReply::<i32> { ok: None, value: None, error: None };
    assert_eq!(unwrap_reply(odd), Err("Unknown error".to_string()));
    assert_eq!(parse_error_message("invalid type"), "Parse error: invalid type");
}

#[test]
fn base64_decoder_accepts_exactly_encoder_output() {
    let symbols = ['A', 'B', 'Q', 'g', 'w', '/', '+', '=', '0'];
    let mut texts: Vec<String> = vec![String::new()];
    for len in 1..=5 {
        let mut next = Vec::new();
        for t in texts.iter().filter(|t| t.len() == len - 1) {
            for c in symbols {
                next.push(format!("{}{}", t, c));
            }
        }
        texts.extend(next);
    }
    let mut accepted = 0;
    for t in &texts {
        match decode_audio(t) {
            Ok(bytes) => {
                accepted += 1;
                assert_eq!(&encode_audio(&bytes), t);
            }
            Err(_) => {}
        }
    }
    assert!(accepted > 100);
    // every encoder output of one to three bytes is accepted
    for a in 0..=255u8 {
        for b in [0u8, 1, 0x7f, 0xff] {
            for bytes in [vec![a], vec![a, b], vec![a, b, a ^ b]] {
                assert_eq!(decode_audio(&encode_audio(&bytes)).unwrap(), bytes);
            }
        }
    }
}

#[test]
fn base64_decode_error_is_the_decoders_message() {
    for text in ["!!!", "QR==", "QQ", "QQ==QQ==", "@@@@"] {
        let expected = base64::engine::general_purpose::STANDARD.decode(text).unwrap_err().to_string();
        assert_eq!(decode_audio(text), Err(expected));
    }
}

#[test]
fn ids_distinct_across_many_allocations() {
    let mut ids = IdAllocator::new();
    let drawn: Vec<i64> = (0..10_000).map(|_| ids.allocate()).collect();
    let mut sorted = drawn.clone();
    sorted.dedup();
    assert_eq!(sorted.len(), drawn.len());
    assert_eq!(drawn[0], 1);
    assert_eq!(drawn[9_999], 10_000);
}

#[test]
fn audio_file_bytes_come_back() {
    assert_eq!(encode_audio(b"hi"), "aGk=");
    assert_eq!(decode_audio(&encode_audio(b"hi")), Ok(b"hi".to_vec()));
}
