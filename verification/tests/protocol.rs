use server::command::Command;
use server::resp::RespType;
use server::text::{is_whitespace, trim_end};

fn content(res: Result<RespType, String>) -> String {
    match res {
        Ok(RespType::SimpleString(s)) => s,
        Err(e) => panic!("unexpected error {}", e),
    }
}

#[test]
fn simple_string_is_parsed_without_line_end() {
    let res = RespType::from_vec(b"+hello world\r\n".to_vec());
    assert_eq!(content(res), "hello world");
}

#[test]
fn ping_line_is_parsed() {
    assert_eq!(content(RespType::from_vec(b"+PING\r\n".to_vec())), "PING");
}

#[test]
fn empty_input_is_refused() {
    let res = RespType::from_vec(Vec::new());
    assert_eq!(res.unwrap_err(), "Empty input");
}

#[test]
fn unknown_prefix_is_refused() {
    let res = RespType::from_vec(b"-ERR oops\r\n".to_vec());
    assert_eq!(res.unwrap_err(), "Unknown RESP prefix -");
    let res = RespType::from_vec(b"PING".to_vec());
    assert_eq!(res.unwrap_err(), "Unknown RESP prefix P");
}

#[test]
fn prefix_alone_gives_empty_string() {
    assert_eq!(content(RespType::from_vec(b"+".to_vec())), "");
    assert_eq!(content(RespType::from_vec(b"+\r\n".to_vec())), "");
}

#[test]
fn only_trailing_white_space_is_removed() {
    let res = RespType::from_vec("+  a b \t\u{3000}\r\n".as_bytes().to_vec());
    assert_eq!(content(res), "  a b");
}

#[test]
fn invalid_utf8_is_replaced() {
    let res = RespType::from_vec(vec![b'+', 0xff, b'a', b'\n']);
    assert_eq!(content(res), "\u{FFFD}a");
}

#[test]
fn non_ascii_content_is_kept() {
    let res = RespType::from_vec("+héllo\r\n".as_bytes().to_vec());
    assert_eq!(content(res), "héllo");
}

#[test]
fn from_line_parses_a_decoded_line() {
    assert_eq!(content(RespType::from_line("+ok  ")), "ok");
    assert_eq!(RespType::from_line("").unwrap_err(), "Empty input");
    assert_eq!(RespType::from_line(":1").unwrap_err(), "Unknown RESP prefix :");
}

#[test]
fn resp_value_is_shown_with_its_kind() {
    let value = RespType::SimpleString("hello world".to_string());
    assert_eq!(value.to_string(), "SimpleString: hello world");
}

#[test]
fn ping_is_recognised() {
    let value = RespType::from_vec(b"+PING\r\n".to_vec()).unwrap();
    assert_eq!(Command::from_resp_type(value), Some(Command::Ping));
}

#[test]
fn other_strings_are_no_command() {
    assert_eq!(Command::from_resp_type(RespType::SimpleString("ping".to_string())), None);
    assert_eq!(Command::from_resp_type(RespType::SimpleString("PING!".to_string())), None);
    assert_eq!(Command::from_resp_type(RespType::SimpleString(String::new())), None);
}

#[test]
fn ping_is_answered_with_pong() {
    assert_eq!(Command::Ping.handle(), "PONG");
}

#[test]
fn white_space_matches_std() {
    for code in 0u32..=0x10FFFF {
        if let Some(c) = char::from_u32(code) {
            assert_eq!(is_whitespace(c), c.is_whitespace(), "at {:#x}", code);
        }
    }
}

#[test]
fn trim_end_matches_std() {
    for s in ["", "   ", "a", "a \t\n", " a b ", "x\u{2028}\u{A0}", "é\u{85}", "\u{3000}y"] {
        assert_eq!(trim_end(s), s.trim_end());
    }
}

#[test]
fn pong_reply_parses_to_the_ping_answer() {
    let value = RespType::from_vec(server::event_loop::pong_reply()).unwrap();
    assert_eq!(value.to_string(), format!("SimpleString: {}", Command::Ping.handle()));
}

#[test]
fn simple_string_line_round_trips() {
    for text in ["hello", "a b", "", "  x"] {
        let line = format!("+{}\r\n", text);
        assert_eq!(content(RespType::from_line(&line)), text);
    }
    assert_eq!(content(RespType::from_line("+tail \t\r\n")), "tail");
}

#[test]
fn first_byte_decides_the_outcome() {
    assert_eq!(RespType::from_vec(b"*2\r\n".to_vec()).unwrap_err(), "Unknown RESP prefix *");
    assert_eq!(content(RespType::from_vec(vec![b'+', b'x', 0xC3])), "x\u{FFFD}");
}

#[test]
fn framed_strings_round_trip_through_bytes() {
    for text in ["hi", "PONG", "a b", "héllo", "  x"] {
        let bytes = format!("+{}\r\n", text).into_bytes();
        assert_eq!(content(RespType::from_vec(bytes)), text);
    }
    let reply = Command::Ping.handle();
    assert!(!reply.contains('\r') && !reply.contains('\n'));
    assert_eq!(content(RespType::from_vec(format!("+{}\r\n", reply).into_bytes())), reply);
}
