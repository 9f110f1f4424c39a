//! The text of a client message as its derived `Debug` writes it, used
//! when the server names a message it did not expect.

use vstd::prelude::*;
use vstd::std_specs::iter::IteratorSpec;

use crate::ipc::{ClientMessage, MoveDirection, NavigateDirection};
use crate::text::{decimal, push_decimal};

verus! {

/// What std's `char::escape_debug` writes for a character.
pub uninterp spec fn char_escape(c: char) -> Seq<char>;

/// Calls std's `char::escape_debug` and collects what it yields. The
/// result is named, not stated: which characters it escapes rests on
/// Unicode tables.
#[verifier::external_body]
fn escape_char(c: char) -> (r: String)
    ensures
        r@ == char_escape(c),
{
    c.escape_debug().to_string()
}

/// A character that `Debug` writes inside a string as it is.
pub open spec fn plain_char(c: char) -> bool {
    0x20 <= (c as u32) <= 0x7e && c != '"' && c != '\\'
}

/// How `Debug` writes one character inside a string: a quote and a
/// backslash behind a backslash, printable ASCII as it is, and any other
/// character as `char::escape_debug` writes it.
pub open spec fn char_in_string(c: char) -> Seq<char> {
    if c == '"' || c == '\\' {
        seq!['\\', c]
    } else if plain_char(c) {
        seq![c]
    } else {
        char_escape(c)
    }
}

/// The characters of `s`, each as `char_in_string` writes it.
pub open spec fn escaped(s: Seq<char>) -> Seq<char>
    decreases s.len(),
{
    if s.len() == 0 {
        Seq::empty()
    } else {
        escaped(s.drop_last()) + char_in_string(s.last())
    }
}

/// How `Debug` writes a string: in double quotes, escaped.
pub open spec fn string_debug(s: Seq<char>) -> Seq<char> {
    seq!['"'] + escaped(s) + seq!['"']
}

/// The bytes in decimal, separated by `, `.
pub open spec fn byte_list(d: Seq<u8>) -> Seq<char>
    decreases d.len(),
{
    if d.len() == 0 {
        Seq::empty()
    } else if d.len() == 1 {
        decimal(d[0] as nat)
    } else {
        byte_list(d.drop_last()) + ", "@ + decimal(d.last() as nat)
    }
}

/// How `Debug` writes a list of bytes: `[1, 2, 3]`.
pub open spec fn bytes_debug(d: Seq<u8>) -> Seq<char> {
    seq!['['] + byte_list(d) + seq![']']
}

/// How `Debug` writes an optional string.
pub open spec fn option_debug(s: Option<Seq<char>>) -> Seq<char> {
    match s {
        Some(t) => "Some("@ + string_debug(t) + ")"@,
        None => "None"@,
    }
}

pub open spec fn move_direction_name(d: MoveDirection) -> Seq<char> {
    match d {
        MoveDirection::Up => "Up"@,
        MoveDirection::Down => "Down"@,
        MoveDirection::Left => "Left"@,
        MoveDirection::Right => "Right"@,
    }
}

pub open spec fn navigate_direction_name(d: NavigateDirection) -> Seq<char> {
    match d {
        NavigateDirection::Up => "Up"@,
        NavigateDirection::Down => "Down"@,
        NavigateDirection::Left => "Left"@,
        NavigateDirection::Right => "Right"@,
    }
}

/// How the derived `Debug` writes a client message: the variant's name,
/// then its fields by name in braces.
pub open spec fn client_message_debug(m: ClientMessage) -> Seq<char> {
    match m {
        ClientMessage::Attach { session_name } => "Attach { session_name: "@ + string_debug(session_name@) + " }"@,
        ClientMessage::CreatePane { window_id, command } => "CreatePane { window_id: "@ + decimal(window_id as nat)
            + ", command: "@ + option_debug(
            match command {
                Some(c) => Some(c@),
                None => None,
            },
        ) + " }"@,
        ClientMessage::MovePane { pane_id, direction } => "MovePane { pane_id: "@ + decimal(pane_id as nat)
            + ", direction: "@ + move_direction_name(direction) + " }"@,
        ClientMessage::Navigate { session_name, direction } => "Navigate { session_name: "@ + string_debug(
            session_name@,
        ) + ", direction: "@ + navigate_direction_name(direction) + " }"@,
        ClientMessage::SendInput { pane_id, data } => "SendInput { pane_id: "@ + decimal(pane_id as nat)
            + ", data: "@ + bytes_debug(data@) + " }"@,
        ClientMessage::ResizePane { pane_id, cols, rows } => "ResizePane { pane_id: "@ + decimal(pane_id as nat)
            + ", cols: "@ + decimal(cols as nat) + ", rows: "@ + decimal(rows as nat) + " }"@,
        ClientMessage::Detach => "Detach"@,
    }
}

/// Appends `s` as `Debug` writes a string.
fn push_string_debug(out: &mut String, s: &String)
    ensures
        final(out)@ == old(out)@ + string_debug(s@),
{
    let ghost start = out@;
    out.push('"');
    let mut chars = s.as_str().chars();
    let ghost mut done: Seq<char> = Seq::empty();
    loop
        invariant
            s@ == done + chars.remaining(),
            out@ == start + seq!['"'] + escaped(done),
            chars.decrease() is Some,
            start == old(out)@,
        decreases chars.decrease()->0,
    {
        match chars.next() {
            Some(c) => {
                if c == '"' || c == '\\' {
                    out.push('\\');
                    out.push(c);
                } else if 0x20 <= (c as u32) && (c as u32) <= 0x7e {
                    out.push(c);
                } else {
                    let e = escape_char(c);
                    out.append(e.as_str());
                }
                proof {
                    assert(done.push(c).drop_last() =~= done);
                    assert(s@ =~= done.push(c) + chars.remaining());
                    done = done.push(c);
                }
            },
            None => {
                assert(done =~= s@);
                out.push('"');
                assert(out@ =~= start + string_debug(s@));
                return;
            },
        }
    }
}

/// Appends `d` as `Debug` writes a list of bytes.
fn push_bytes_debug(out: &mut String, d: &Vec<u8>)
    ensures
        final(out)@ == old(out)@ + bytes_debug(d@),
{
    let ghost start = out@;
    out.push('[');
    let mut i: usize = 0;
    while i < d.len()
        invariant
            i <= d@.len(),
            start == old(out)@,
            out@ == start + seq!['['] + byte_list(d@.take(i as int)),
        decreases d@.len() - i,
    {
        if i > 0 {
            out.append(", ");
        }
        push_decimal(out, d[i] as u128);
        assert(d@.take(i + 1).drop_last() =~= d@.take(i as int));
        i += 1;
    }
    out.push(']');
    assert(d@.take(d@.len() as int) =~= d@);
    assert(out@ =~= start + bytes_debug(d@));
}

fn move_direction_str(d: MoveDirection) -> (r: &'static str)
    ensures
        r@ == move_direction_name(d),
{
    match d {
        MoveDirection::Up => "Up",
        MoveDirection::Down => "Down",
        MoveDirection::Left => "Left",
        MoveDirection::Right => "Right",
    }
}

fn navigate_direction_str(d: NavigateDirection) -> (r: &'static str)
    ensures
        r@ == navigate_direction_name(d),
{
    match d {
        NavigateDirection::Up => "Up",
        NavigateDirection::Down => "Down",
        NavigateDirection::Left => "Left",
        NavigateDirection::Right => "Right",
    }
}

/// The text of a client message as its derived `Debug` writes it.
pub fn client_message_text(m: &ClientMessage) -> (s: String)
    ensures
        s@ == client_message_debug(*m),
{
    match m {
        ClientMessage::Attach { session_name } => {
            let mut s = String::from_str("Attach { session_name: ");
            push_string_debug(&mut s, session_name);
            s.append(" }");
            s
        },
        ClientMessage::CreatePane { window_id, command } => {
            let mut s = String::from_str("CreatePane { window_id: ");
            push_decimal(&mut s, *window_id as u128);
            s.append(", command: ");
            let ghost before = s@;
            match command {
                Some(c) => {
                    s.append("Some(");
                    push_string_debug(&mut s, c);
                    s.append(")");
                },
                None => {
                    s.append("None");
                },
            }
            assert(s@ =~= before + option_debug(
                match command {
                    Some(c) => Some(c@),
                    None => None,
                },
            ));
            s.append(" }");
            s
        },
        ClientMessage::MovePane { pane_id, direction } => {
            let mut s = String::from_str("MovePane { pane_id: ");
            push_decimal(&mut s, *pane_id as u128);
            s.append(", direction: ");
            s.append(move_direction_str(*direction));
            s.append(" }");
            s
        },
        ClientMessage::Navigate { session_name, direction } => {
            let mut s = String::from_str("Navigate { session_name: ");
            push_string_debug(&mut s, session_name);
            s.append(", direction: ");
            s.append(navigate_direction_str(*direction));
            s.append(" }");
            s
        },
        ClientMessage::SendInput { pane_id, data } => {
            let mut s = String::from_str("SendInput { pane_id: ");
            push_decimal(&mut s, *pane_id as u128);
            s.append(", data: ");
            push_bytes_debug(&mut s, data);
            s.append(" }");
            s
        },
        ClientMessage::ResizePane { pane_id, cols, rows } => {
            let mut s = String::from_str("ResizePane { pane_id: ");
            push_decimal(&mut s, *pane_id as u128);
            s.append(", cols: ");
            push_decimal(&mut s, *cols as u128);
            s.append(", rows: ");
            push_decimal(&mut s, *rows as u128);
            s.append(" }");
            s
        },
        ClientMessage::Detach => String::from_str("Detach"),
    }
}

} // verus!
