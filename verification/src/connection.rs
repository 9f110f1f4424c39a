//! Framing on the connection between client and server: each message is
//! a single JSON value followed by a newline (`\n`).

use vstd::prelude::*;

verus! {

/// Why no message could be read.
#[derive(Debug, Clone, Copy, PartialEq, Eq, Structural)]
pub enum RecvError {
    /// The peer closed the connection: the read gave an empty line.
    Closed,
}

/// The text of a receive error.
pub open spec fn recv_error_text(e: RecvError) -> Seq<char> {
    match e {
        RecvError::Closed => "connection closed"@,
    }
}

impl RecvError {
    /// The text of the error.
    pub fn message(&self) -> (m: String)
        ensures
            m@ == recv_error_text(*self),
    {
        match self {
            RecvError::Closed => String::from_str("connection closed"),
        }
    }
}

/// The line that carries a message: its JSON text and a newline.
pub fn frame(json: String) -> (line: String)
    ensures
        line@ == json@.push('\n'),
{
    let mut line = json;
    line.push('\n');
    line
}

/// A line read from the connection: an empty line means the peer closed
/// it; any other line carries a message.
pub fn received_line(line: String) -> (r: Result<String, RecvError>)
    ensures
        line@.len() == 0 ==> r == Err::<String, RecvError>(RecvError::Closed),
        line@.len() != 0 ==> r == Ok::<String, RecvError>(line),
{
    if line.as_str().is_empty() {
        Err(RecvError::Closed)
    } else {
        Ok(line)
    }
}

/// A framed message is never read as the peer closing the connection:
/// its line is the message's text and newline, handed on unchanged.
pub proof fn law_frame_is_received(json: Seq<char>)
    ensures
        json.push('\n').len() != 0,
        json.push('\n').last() == '\n',
        json.push('\n').drop_last() == json,
{
    assert(json.push('\n').drop_last() =~= json);
}

} // verus!
