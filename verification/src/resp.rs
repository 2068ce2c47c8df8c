//! Values of the RESP wire protocol and their parsing from a received line.
use crate::text::{push_char, trim_end, trimmed_end};
use vstd::prelude::*;

verus! {

/// A value of the RESP protocol.
#[derive(Debug)]
pub enum RespType {
    /// A simple string, sent as `+` followed by the text, such as `"+hello world\r\n"`.
    SimpleString(String),
}

/// What `String::from_utf8_lossy` makes of `bytes`.
pub uninterp spec fn utf8_lossy(bytes: Seq<u8>) -> Seq<char>;

/// Decodes `bytes` as UTF-8 (`String::from_utf8_lossy`), each invalid sequence
/// becoming U+FFFD. The contract gives the result a name and states what the
/// documentation of UTF-8 decoding plainly gives: valid input decodes as
/// UTF-8, only empty input gives an empty string, and a leading ASCII byte is
/// the first character. How invalid sequences are replaced is left unstated.
#[verifier::external_body]
fn decode_lossy(bytes: &[u8]) -> (line: String)
    ensures
        line@ == utf8_lossy(bytes@),
        vstd::utf8::valid_utf8(bytes@) ==> line@ == vstd::utf8::decode_utf8(bytes@),
        line@.len() == 0 <==> bytes@.len() == 0,
        bytes@.len() > 0 && bytes@[0] < 0x80 ==> line@[0] == bytes@[0] as char,
{
    String::from_utf8_lossy(bytes).into_owned()
}

/// The outcome of parsing `line`: the content of the simple string it
/// carries, or the error message.
pub open spec fn parse_line(line: Seq<char>) -> Result<Seq<char>, Seq<char>> {
    if line.len() == 0 {
        Err("Empty input"@)
    } else if line[0] == '+' {
        Ok(trimmed_end(line.drop_first()))
    } else {
        Err("Unknown RESP prefix "@.push(line[0]))
    }
}

/// A parse result seen as content or error message.
pub open spec fn parsed(res: Result<RespType, String>) -> Result<Seq<char>, Seq<char>> {
    match res {
        Ok(value) => Ok(value.content()),
        Err(message) => Err(message@),
    }
}

impl RespType {
    /// The text that the value carries.
    pub open spec fn content(self) -> Seq<char> {
        match self {
            RespType::SimpleString(value) => value@,
        }
    }

    /// Parses one received line: a leading `+` makes a simple string of the
    /// rest without its trailing white space; an empty line and any other
    /// prefix are errors. The first character must be ASCII.
    pub fn from_line(line: &str) -> (res: Result<RespType, String>)
        requires
            line@.len() > 0 ==> line@[0] <= '\u{7F}',
        ensures
            parsed(res) == parse_line(line@),
    {
        let len = line.unicode_len();
        if len == 0 {
            return Err("Empty input".to_string());
        }
        let prefix = line.get_char(0);
        let content = trim_end(line.substring_char(1, len));
        assert(line@.subrange(1, len as int) =~= line@.drop_first());
        if prefix == '+' {
            Ok(RespType::SimpleString(content.to_string()))
        } else {
            let mut message = "Unknown RESP prefix ".to_string();
            push_char(&mut message, prefix);
            Err(message)
        }
    }

    /// Parses received bytes: they are decoded as UTF-8, invalid sequences
    /// replaced, and the line is parsed as by `from_line`. The first byte, if
    /// any, must be ASCII.
    pub fn from_vec(bytes: Vec<u8>) -> (res: Result<RespType, String>)
        requires
            bytes@.len() > 0 ==> bytes@[0] < 0x80,
        ensures
            parsed(res) == parse_line(utf8_lossy(bytes@)),
            vstd::utf8::valid_utf8(bytes@) ==> parsed(res) == parse_line(
                vstd::utf8::decode_utf8(bytes@),
            ),
            bytes@.len() > 0 ==> utf8_lossy(bytes@).len() > 0 && utf8_lossy(bytes@)[0]
                == bytes@[0] as char,
            bytes@.len() == 0 ==> (res matches Err(message) && message@ == "Empty input"@),
            bytes@.len() > 0 && bytes@[0] == 0x2B ==> (res matches Ok(value) && value.content()
                == trimmed_end(utf8_lossy(bytes@).drop_first())),
            bytes@.len() > 0 && bytes@[0] != 0x2B ==> (res matches Err(message) && message@
                == "Unknown RESP prefix "@.push(bytes@[0] as char)),
    {
        let line = decode_lossy(bytes.as_slice());
        RespType::from_line(line.as_str())
    }

    /// The value as shown to a person: `SimpleString: ` and the text.
    pub fn to_string(&self) -> (shown: String)
        ensures
            shown@ == "SimpleString: "@ + self.content(),
    {
        match self {
            RespType::SimpleString(value) => {
                let mut shown = "SimpleString: ".to_string();
                shown.append(value.as_str());
                shown
            },
        }
    }
}

/// A simple string sent as a line, `+`, the text and `\r\n`, parses back to
/// the text without its trailing white space, and to the text itself when it
/// does not end in white space.
pub proof fn lemma_simple_string_line(text: Seq<char>)
    ensures
        parse_line(seq!['+'] + text + seq!['\r', '\n']) == Ok::<Seq<char>, Seq<char>>(
            trimmed_end(text),
        ),
        text.len() == 0 || !crate::text::is_white_space(text.last()) ==> parse_line(
            seq!['+'] + text + seq!['\r', '\n'],
        ) == Ok::<Seq<char>, Seq<char>>(text),
{
    let line = seq!['+'] + text + seq!['\r', '\n'];
    let rest = text + seq!['\r', '\n'];
    assert(line.drop_first() =~= rest);
    assert(rest.drop_last() =~= text.push('\r'));
    assert(text.push('\r').drop_last() =~= text);
    assert(trimmed_end(rest) == trimmed_end(text.push('\r')));
    if text.len() == 0 || !crate::text::is_white_space(text.last()) {
        assert(trimmed_end(text) == text);
    }
}

/// The UTF-8 bytes of a simple-string line are valid and decode back to the
/// line, so `from_vec` parses them as `from_line` parses the line.
pub proof fn lemma_simple_string_bytes(text: Seq<char>)
    ensures
        vstd::utf8::valid_utf8(vstd::utf8::encode_utf8(seq!['+'] + text + seq!['\r', '\n'])),
        vstd::utf8::decode_utf8(vstd::utf8::encode_utf8(seq!['+'] + text + seq!['\r', '\n']))
            == seq!['+'] + text + seq!['\r', '\n'],
{
    let line = seq!['+'] + text + seq!['\r', '\n'];
    vstd::utf8::encode_utf8_valid_utf8(line);
    vstd::utf8::encode_utf8_decode_utf8(line);
}

} // verus!
