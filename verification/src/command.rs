//! The commands that the server understands and their replies.
use crate::resp::{lemma_simple_string_line, parse_line, RespType};
use vstd::prelude::*;

verus! {

/// A command sent by a client.
#[derive(Debug, PartialEq, Eq, Structural)]
pub enum Command {
    /// Asks the server whether it is alive.
    Ping,
}

impl Command {
    /// The command that a RESP value stands for: the simple string `PING` is
    /// `Ping`; every other value is no command.
    pub fn from_resp_type(resp_type: RespType) -> (command: Option<Command>)
        ensures
            command == (if resp_type.content() == "PING"@ {
                Some(Command::Ping)
            } else {
                None
            }),
    {
        match resp_type {
            RespType::SimpleString(val) => {
                let ping = "PING".to_string();
                if val == ping {
                    Some(Command::Ping)
                } else {
                    None
                }
            },
        }
    }

    /// The reply to the command: `PONG` to `Ping`.
    pub fn handle(&self) -> (reply: String)
        ensures
            reply@ == "PONG"@,
    {
        match self {
            Command::Ping => "PONG".to_string(),
        }
    }
}

/// The reply to `Ping`, framed as a RESP simple string, `+PONG\r\n`, parses
/// back to the reply.
pub proof fn lemma_reply_frames()
    ensures
        parse_line(seq!['+'] + "PONG"@ + seq!['\r', '\n']) == Ok::<Seq<char>, Seq<char>>(
            "PONG"@,
        ),
{
    reveal_strlit("PONG");
    lemma_simple_string_line("PONG"@);
}

} // verus!
