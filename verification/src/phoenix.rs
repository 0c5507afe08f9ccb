//! Text framing of Phoenix channel messages.
//!
//! A Phoenix message travels as a JSON array of five members:
//! `[join_ref, msg_ref, topic, event, payload]`, where both references are
//! UUIDs written as JSON strings in their hyphenated lower-case form.
use vstd::prelude::*;
use vstd::arithmetic::power::pow;
use vstd::string::*;

verus! {

/// The lower-case hexadecimal digit for `n` (`0 <= n < 16`).
pub open spec fn hex_digit(n: int) -> char {
    if n < 10 {
        (48 + n) as char
    } else {
        (87 + n) as char
    }
}

/// The `d`-th hexadecimal digit of `v`, counting from the most significant
/// one (`0 <= d < 32`).
pub open spec fn nibble(v: u128, d: int) -> int {
    (v as int / pow(16, (31 - d) as nat)) % 16
}

/// Which of the 32 digits stands at position `i` of the hyphenated form.
pub open spec fn uuid_digit_index(i: int) -> int {
    if i < 8 {
        i
    } else if i < 13 {
        i - 1
    } else if i < 18 {
        i - 2
    } else if i < 23 {
        i - 3
    } else {
        i - 4
    }
}

/// The hyphenated lower-case text of the UUID whose 128 bits are `v`
/// (most significant first): `xxxxxxxx-xxxx-xxxx-xxxx-xxxxxxxxxxxx`.
pub open spec fn uuid_hyphenated(v: u128) -> Seq<char> {
    Seq::new(
        36,
        |i: int|
            if i == 8 || i == 13 || i == 18 || i == 23 {
                '-'
            } else {
                hex_digit(nibble(v, uuid_digit_index(i)))
            },
    )
}

/// How one character is written inside a JSON string literal.
pub open spec fn json_char(c: char) -> Seq<char> {
    if c == '"' {
        seq!['\\', '"']
    } else if c == '\\' {
        seq!['\\', '\\']
    } else if c == '\u{8}' {
        seq!['\\', 'b']
    } else if c == '\t' {
        seq!['\\', 't']
    } else if c == '\n' {
        seq!['\\', 'n']
    } else if c == '\u{c}' {
        seq!['\\', 'f']
    } else if c == '\r' {
        seq!['\\', 'r']
    } else if (c as u32) < 0x20 {
        seq!['\\', 'u', '0', '0', hex_digit((c as int) / 16), hex_digit((c as int) % 16)]
    } else {
        seq![c]
    }
}

/// The escaped characters of `s`, without the surrounding quotes.
pub open spec fn json_chars(s: Seq<char>) -> Seq<char>
    decreases s.len(),
{
    if s.len() == 0 {
        Seq::empty()
    } else {
        json_chars(s.drop_last()) + json_char(s.last())
    }
}

/// The JSON string literal that stands for `s`.
pub open spec fn json_string(s: Seq<char>) -> Seq<char> {
    seq!['"'] + json_chars(s) + seq!['"']
}

/// The text of a Phoenix message: a JSON array of the join reference, the
/// message reference, the topic, the event and the payload (already JSON).
pub open spec fn frame_text(
    join_ref: u128,
    msg_ref: u128,
    topic: Seq<char>,
    event: Seq<char>,
    payload: Seq<char>,
) -> Seq<char> {
    seq!['['] + json_string(uuid_hyphenated(join_ref)) + seq![',']
        + json_string(uuid_hyphenated(msg_ref)) + seq![','] + json_string(topic) + seq![',']
        + json_string(event) + seq![','] + payload + seq![']']
}

/// Text of the UUID with the given 128 bits, through `uuid::Uuid`'s
/// `Display` (hyphenated, lower case, as the `uuid` documentation states).
#[verifier::external_body]
fn uuid_text(v: u128) -> (s: String)
    ensures
        s@ == uuid_hyphenated(v),
{
    uuid::Uuid::from_u128(v).to_string()
}

/// A fresh random (version 4) UUID from `uuid::Uuid::new_v4`, as its 128 bits.
/// Nothing is stated of the value: it is random.
#[verifier::external_body]
pub fn new_message_ref() -> (r: u128) {
    uuid::Uuid::new_v4().as_u128()
}

/// `serde_json::to_string` on a `str`: the JSON string literal for `s`. The
/// source of `serde_json` (`format_escaped_str`) escapes `"`, `\` and the
/// control characters below 0x20 and nothing else, and writing into a
/// `Vec<u8>` cannot fail.
#[verifier::external_body]
fn json_string_text(s: &str) -> (r: Result<String, serde_json::Error>)
    ensures
        r is Ok,
        r matches Ok(t) ==> t@ == json_string(s@),
{
    serde_json::to_string(s)
}

#[verifier::external_type_specification]
#[verifier::external_body]
pub struct ExJsonError(serde_json::Error);

/// Appends the JSON string literal for `s` to `out`.
pub fn push_json_string(out: &mut String, s: &str)
    ensures
        final(out)@ == old(out)@ + json_string(s@),
{
    let r = json_string_text(s);
    match r {
        Ok(t) => out.append(t.as_str()),
        Err(_) => {},
    }
}

/// Builds the text of a Phoenix message; `payload` is already JSON text.
pub fn frame_message(join_ref: u128, msg_ref: u128, topic: &str, event: &str, payload: &str) -> (r: String)
    ensures
        r@ == frame_text(join_ref, msg_ref, topic@, event@, payload@),
{
    let mut out = String::from_str("[");
    let j = uuid_text(join_ref);
    push_json_string(&mut out, j.as_str());
    out.append(",");
    let m = uuid_text(msg_ref);
    push_json_string(&mut out, m.as_str());
    out.append(",");
    push_json_string(&mut out, topic);
    out.append(",");
    push_json_string(&mut out, event);
    out.append(",");
    out.append(payload);
    out.append("]");
    proof {
        reveal_strlit("[");
        reveal_strlit(",");
        reveal_strlit("]");
    }
    out
}

} // verus!
