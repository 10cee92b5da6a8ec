//! Text of the console: cleaning a log line and joining the lines.

use vstd::prelude::*;
use vstd::utf8::{decode_utf8, encode_utf8, valid_utf8};
use crate::launcher::texts;

verus! {

/// What `strip_ansi_escapes::strip` returns for these bytes: the input
/// without its terminal escape sequences.
pub uninterp spec fn stripped(data: Seq<u8>) -> Seq<u8>;

/// The text of a raw log line once its escape sequences are taken out.
pub open spec fn clean_text(raw: Seq<char>) -> Seq<char> {
    decode_utf8(stripped(encode_utf8(raw)))
}

/// The lines joined into one text, with a newline between two neighbours and
/// none at either end.
pub open spec fn joined(lines: Seq<Seq<char>>) -> Seq<char>
    decreases lines.len(),
{
    if lines.len() == 0 {
        seq![]
    } else if lines.len() == 1 {
        lines[0]
    } else {
        joined(lines.drop_last()) + seq!['\n'] + lines.last()
    }
}

/// Calls `strip_ansi_escapes::strip`. The result is named `stripped` of the
/// input. It is valid UTF-8 whatever the input was: the crate writes out
/// whole characters and newlines only.
#[verifier::external_body]
pub(crate) fn strip_ansi(data: &[u8]) -> (out: Vec<u8>)
    ensures
        out@ == stripped(data@),
        valid_utf8(out@),
{
    strip_ansi_escapes::strip(data)
}

/// Calls `String::from_utf8`. It gives a string exactly where the bytes are
/// valid UTF-8, and the string then encodes to those bytes.
#[verifier::external_body]
pub(crate) fn string_from_utf8(bytes: Vec<u8>) -> (text: Option<String>)
    ensures
        text is Some <==> valid_utf8(bytes@),
        text matches Some(t) ==> encode_utf8(t@) == bytes@,
{
    match String::from_utf8(bytes) {
        Ok(t) => Some(t),
        Err(_) => None,
    }
}

/// Decodes cleaned bytes into a line of text; nothing where they are not
/// valid UTF-8.
pub fn decode_line(cleaned: Vec<u8>) -> (line: Option<String>)
    ensures
        line is Some <==> valid_utf8(cleaned@),
        line matches Some(t) ==> t@ == decode_utf8(cleaned@),
{
    let line = string_from_utf8(cleaned);
    proof {
        if line is Some {
            vstd::utf8::encode_utf8_decode_utf8(line->Some_0@);
        }
    }
    line
}

/// Takes the terminal escape sequences out of a raw log line.
pub fn clean_line(raw: &str) -> (line: String)
    ensures
        line@ == clean_text(raw@),
{
    let cleaned = strip_ansi(raw.as_bytes());
    match decode_line(cleaned) {
        Some(line) => line,
        None => String::new(),
    }
}

/// Joins the lines with newlines between them.
pub fn join_lines(lines: &Vec<String>) -> (text: String)
    ensures
        text@ == joined(texts(lines@)),
{
    let mut text = String::new();
    let n: usize = lines.len();
    let mut i: usize = 0;
    while i < n
        invariant
            i <= n,
            n == lines@.len(),
            text@ == joined(texts(lines@).take(i as int)),
        decreases n - i,
    {
        if i > 0 {
            text.append("\n");
        }
        text.append(lines[i].as_str());
        proof {
            reveal_strlit("\n");
            let all = texts(lines@);
            let upto = all.take(i + 1);
            assert(upto.drop_last() =~= all.take(i as int));
        }
        i += 1;
    }
    proof {
        assert(texts(lines@).take(n as int) =~= texts(lines@));
    }
    text
}

} // verus!
