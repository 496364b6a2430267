use websocket::commands::{forward_outcome, forwarded_reply, ClientCommand, handle_inbound, unknown_command, Dispatch, ServerCommand};
use websocket::envelope::{decode_frame, encode_frame, DecodeError};
use websocket::state::State;

#[test]
fn encode_frame_is_base64_of_text() {
    assert_eq!(encode_frame("hello"), b"aGVsbG8=".to_vec());
    assert_eq!(encode_frame(""), Vec::<u8>::new());
    assert_eq!(encode_frame("{\"ListServers\":null}"), b"eyJMaXN0U2VydmVycyI6bnVsbH0=".to_vec());
}

#[test]
fn decode_frame_reads_text() {
    assert_eq!(decode_frame(b"aGVsbG8="), Ok("hello".to_string()));
    assert_eq!(decode_frame(b""), Ok(String::new()));
}

#[test]
fn frame_round_trips() {
    for t in ["\"ListServers\"", "{\"Print\":\"h\u{e9}\"}", "x"] {
        let f = encode_frame(t);
        assert_eq!(decode_frame(&f), Ok(t.to_string()));
        assert_eq!(encode_frame(&decode_frame(&f).unwrap()), f);
    }
}

#[test]
fn decode_frame_rejects_bad_base64() {
    assert_eq!(decode_frame(b"!!!"), Err(DecodeError::NotBase64));
    assert_eq!(decode_frame(&[0xff, 0xfe]), Err(DecodeError::NotBase64));
}

#[test]
fn decode_frame_rejects_bad_utf8() {
    // "/w==" is the single byte 0xff
    assert_eq!(decode_frame(b"/w=="), Err(DecodeError::NotUtf8));
}

#[test]
fn malformed_frame_gets_unknown_command_notice() {
    let st: State<()> = State::new();
    let text = decode_frame(&encode_frame("not json")).unwrap();
    assert!(serde_json::from_str::<serde_json::Value>(&text).is_err());
    let cmd: Option<ClientCommand> = None;
    match handle_inbound(cmd, 3, &st) {
        Dispatch::Reply(ServerCommand::Print(t)) => assert_eq!(t, "Unknown command"),
        other => panic!("unexpected {:?}", other),
    }
    match unknown_command() {
        ServerCommand::Print(t) => assert_eq!(t, "Unknown command"),
        other => panic!("unexpected {:?}", other),
    }
}

#[test]
fn forwarded_reply_prints_response() {
    match forwarded_reply("pong".to_string()) {
        ServerCommand::Print(t) => assert_eq!(t, "pong"),
        other => panic!("unexpected {:?}", other),
    }
}

#[test]
fn unknown_server_notice_text() {
    match websocket::commands::unknown_server() {
        ServerCommand::Print(t) => assert_eq!(t, "Unknown server"),
        other => panic!("unexpected {:?}", other),
    }
}

#[test]
fn forward_outcome_prints_response_or_notice() {
    match forward_outcome(Some("pong".to_string())) {
        ServerCommand::Print(t) => assert_eq!(t, "pong"),
        other => panic!("unexpected {:?}", other),
    }
    match forward_outcome(None) {
        ServerCommand::Print(t) => assert_eq!(t, "Unknown server"),
        other => panic!("unexpected {:?}", other),
    }
}

#[test]
fn frame_length_is_four_per_started_triple() {
    assert_eq!(encode_frame("a").len(), 4);
    assert_eq!(encode_frame("abc").len(), 4);
    assert_eq!(encode_frame("abcd").len(), 8);
    assert_eq!(encode_frame("ab"), b"YWI=".to_vec());
}
