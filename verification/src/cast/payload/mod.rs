//! JSON payloads of the cast channels. The cast protocol splits messages
//! across namespaces, which act like distinct communication channels; each
//! channel defines its own request messages, written here as compact JSON
//! objects whose `type` field names the request.
pub mod connection;
pub mod heartbeat;
pub mod media;
pub mod receiver;

use vstd::prelude::*;

verus! {

/// Decimal digit `d` (0 to 9), or lower-case hex digit (10 to 15).
pub open spec fn digit(d: nat) -> char {
    if d == 0 { '0' }
    else if d == 1 { '1' }
    else if d == 2 { '2' }
    else if d == 3 { '3' }
    else if d == 4 { '4' }
    else if d == 5 { '5' }
    else if d == 6 { '6' }
    else if d == 7 { '7' }
    else if d == 8 { '8' }
    else if d == 9 { '9' }
    else if d == 10 { 'a' }
    else if d == 11 { 'b' }
    else if d == 12 { 'c' }
    else if d == 13 { 'd' }
    else if d == 14 { 'e' }
    else { 'f' }
}

/// Decimal digits of `n`, most significant first, without leading zeros.
pub open spec fn decimal(n: nat) -> Seq<char>
    decreases n,
{
    if n < 10 {
        seq![digit(n)]
    } else {
        decimal(n / 10).push(digit(n % 10))
    }
}

/// JSON text of an integer: its decimal digits, preceded by `-` when
/// negative.
pub open spec fn int_text(i: int) -> Seq<char> {
    if i < 0 {
        seq!['-'] + decimal((-i) as nat)
    } else {
        decimal(i as nat)
    }
}

/// How a character is written inside a JSON string: quote and backslash are
/// escaped with a backslash, control characters use their short escape or
/// `\u00XX` with lower-case hex digits, and every other character stands as
/// it is.
pub open spec fn escape_char(c: char) -> Seq<char> {
    if c == '"' {
        seq!['\\', '"']
    } else if c == '\\' {
        seq!['\\', '\\']
    } else if c == '\u{8}' {
        seq!['\\', 'b']
    } else if c == '\t' {
        seq!['\\', 't']
    } else if c == '\n' {
        seq!['\\', 'n']
    } else if c == '\u{c}' {
        seq!['\\', 'f']
    } else if c == '\r' {
        seq!['\\', 'r']
    } else if (c as u32) < 0x20 {
        seq!['\\', 'u', '0', '0', digit((c as u32) as nat / 16), digit((c as u32) as nat % 16)]
    } else {
        seq![c]
    }
}

/// The characters of `s`, each escaped for a JSON string.
pub open spec fn escape_chars(s: Seq<char>) -> Seq<char>
    decreases s.len(),
{
    if s.len() == 0 {
        Seq::empty()
    } else {
        escape_chars(s.drop_last()) + escape_char(s.last())
    }
}

/// A JSON string literal holding `s`.
pub open spec fn json_quoted(s: Seq<char>) -> Seq<char> {
    seq!['"'] + escape_chars(s) + seq!['"']
}

/// The JSON string literal holding `s`.
///
/// Calls `serde_json::to_string` on the string, which writes it between
/// double quotes, escaping `"` and `\` with a backslash and the characters
/// below U+0020 as `\b`, `\t`, `\n`, `\f`, `\r` or `\u00XX`; serialising a
/// string does not fail.
#[verifier::external_body]
pub(crate) fn json_string(s: &str) -> (r: String)
    ensures
        r@ == json_quoted(s@),
{
    match serde_json::to_string(s) {
        Ok(text) => text,
        Err(_) => String::new(),
    }
}

/// The JSON text of an integer.
///
/// Calls `serde_json::to_string` on the integer, which writes its decimal
/// digits, preceded by `-` when negative; serialising an integer does not
/// fail.
#[verifier::external_body]
pub(crate) fn json_int(i: i64) -> (r: String)
    ensures
        r@ == int_text(i as int),
{
    match serde_json::to_string(&i) {
        Ok(text) => text,
        Err(_) => String::new(),
    }
}

/// Appends `t` to `s`.
///
/// Calls `String::push_str`, which appends the characters of `t`.
#[verifier::external_body]
pub(crate) fn push_str(s: &mut String, t: &str)
    ensures
        final(s)@ == old(s)@ + t@,
{
    s.push_str(t)
}

} // verus!
