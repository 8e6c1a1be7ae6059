//! Texts and numbers as JSON.

use vstd::prelude::*;

verus! {

/// A hexadecimal digit in lower case.
pub open spec fn hex_digit(value: int) -> char {
    if value < 10 {
        (('0' as int) + value) as char
    } else {
        (('a' as int) + value - 10) as char
    }
}

/// A character inside a JSON string.
pub open spec fn escaped_char(c: char) -> Seq<char> {
    if c == '"' || c == '\\' {
        seq!['\\', c]
    } else if c == '\u{8}' {
        seq!['\\', 'b']
    } else if c == '\t' {
        seq!['\\', 't']
    } else if c == '\n' {
        seq!['\\', 'n']
    } else if c == '\u{c}' {
        seq!['\\', 'f']
    } else if c == '\r' {
        seq!['\\', 'r']
    } else if (c as int) < 32 {
        seq!['\\', 'u', '0', '0', hex_digit(c as int / 16), hex_digit(c as int % 16)]
    } else {
        seq![c]
    }
}

/// The characters of a JSON string.
pub open spec fn escaped(text: Seq<char>) -> Seq<char>
    decreases text.len(),
{
    if text.len() == 0 {
        Seq::empty()
    } else {
        escaped(text.drop_last()) + escaped_char(text.last())
    }
}

/// A text as a JSON string.
pub open spec fn quoted(text: Seq<char>) -> Seq<char> {
    seq!['"'] + escaped(text) + seq!['"']
}

/// `serde_json::Value::to_string` writes a text between quotes. Quotes,
/// backslashes and control characters are escaped; everything else is written
/// as it is.
#[verifier::external_body]
pub(crate) fn json_string(text: &str) -> (written: String)
    ensures
        written@ == quoted(text@),
{
    serde_json::Value::from(text).to_string()
}

/// The text has no line break.
pub open spec fn one_line(text: Seq<char>) -> bool {
    forall|i: int| 0 <= i < text.len() ==> #[trigger] text[i] != '\n'
}

pub proof fn lemma_joined_lines(a: Seq<char>, b: Seq<char>)
    requires
        one_line(a),
        one_line(b),
    ensures
        one_line(a + b),
{
}

/// A JSON string stands on one line, whatever the text.
pub proof fn law_json_string_is_one_line(text: Seq<char>)
    ensures
        one_line(quoted(text)),
    decreases text.len(),
{
    lemma_escaped_line(text);
}

proof fn lemma_escaped_char_line(c: char)
    ensures
        one_line(escaped_char(c)),
{
    let code = c as int;
    if code < 32 {
        assert(hex_digit(code / 16) != '\n');
        assert(hex_digit(code % 16) != '\n');
    }
}

proof fn lemma_escaped_line(text: Seq<char>)
    ensures
        one_line(escaped(text)),
    decreases text.len(),
{
    if text.len() > 0 {
        lemma_escaped_line(text.drop_last());
        let c = text.last();
        lemma_escaped_char_line(c);
        lemma_joined_lines(escaped(text.drop_last()), escaped_char(c));
    }
}

/// A truth value in JSON.
pub open spec fn truth(value: bool) -> Seq<char> {
    if value {
        "true"@
    } else {
        "false"@
    }
}

pub fn json_truth(value: bool) -> (written: &'static str)
    ensures
        written@ == truth(value),
{
    if value {
        "true"
    } else {
        "false"
    }
}

} // verus!
