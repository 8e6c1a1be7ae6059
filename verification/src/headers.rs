//! HTTP header maps, held in `http::HeaderMap`.

use http::{HeaderMap, HeaderName, HeaderValue};
use vstd::prelude::*;

use crate::text::to_lower;

verus! {

/// The header map of the `http` crate.
#[verifier::external_type_specification]
#[verifier::external_body]
#[verifier::reject_recursive_types(T)]
pub struct ExHeaderMap<T>(http::HeaderMap<T>);

/// One header value of the `http` crate.
#[verifier::external_type_specification]
#[verifier::external_body]
pub struct ExHeaderValue(http::HeaderValue);

/// A header name of the `http` crate, in lower case.
#[verifier::external_type_specification]
#[verifier::external_body]
pub struct ExHeaderName(http::HeaderName);

/// The text of a header name, as `HeaderName::as_str` gives it.
pub uninterp spec fn header_name_text(name: http::HeaderName) -> Seq<char>;

/// The texts of header names.
pub open spec fn name_texts(names: Seq<http::HeaderName>) -> Seq<Seq<char>> {
    names.map_values(|name: http::HeaderName| header_name_text(name))
}

/// What a header map holds: for each name, in lower case, its values in the
/// order in which they were added.
pub uninterp spec fn header_contents(headers: http::HeaderMap<http::HeaderValue>) -> Map<Seq<char>, Seq<Seq<u8>>>;

/// Header values by name.
pub type HeaderContents = Map<Seq<char>, Seq<Seq<u8>>>;

/// The bytes of a vector of values.
pub open spec fn value_bytes(values: Seq<Vec<u8>>) -> Seq<Seq<u8>> {
    values.map_values(|value: Vec<u8>| value@)
}

/// The bytes that a header value may hold.
pub open spec fn value_byte(b: u8) -> bool {
    b >= 32 && b != 127 || b == 9
}

pub open spec fn valid_value(value: Seq<u8>) -> bool {
    forall|i: int| 0 <= i < value.len() ==> value_byte(#[trigger] value[i])
}

/// The characters of a header name that is written as text, in lower case.
pub open spec fn name_char(c: char) -> bool {
    ||| 'a' <= c <= 'z'
    ||| '0' <= c <= '9'
    ||| c == '!' || c == '#' || c == '$' || c == '%' || c == '&' || c == '\'' || c == '*' || c == '+'
    ||| c == '-' || c == '.' || c == '^' || c == '_' || c == '`' || c == '|' || c == '~'
}

/// A header name that is written as text, in lower case. A map may hold names
/// of other characters too: those of HTTP/2 may hold a double quote.
pub open spec fn valid_name(name: Seq<char>) -> bool {
    &&& 0 < name.len() <= 65535
    &&& forall|i: int| 0 <= i < name.len() ==> name_char(#[trigger] name[i])
}

/// Whether the text, in any case, can be looked up as a header name.
pub fn is_valid_name(name: &str) -> (valid: bool)
    ensures
        valid == valid_name(crate::text::lower(name@)),
{
    let low = to_lower(name);
    let chars = crate::text::chars_of(low.as_str());
    if chars.len() == 0 || chars.len() > 65535 {
        return false;
    }
    let mut i: usize = 0;
    while i < chars.len()
        invariant
            i <= chars.len(),
            chars@ == crate::text::lower(name@),
            forall|j: int| 0 <= j < i ==> name_char(#[trigger] chars[j]),
        decreases chars.len() - i,
    {
        let c: char = chars[i];
        let plain = ('a' <= c && c <= 'z') || ('0' <= c && c <= '9') || c == '!' || c == '#' || c == '$' || c == '%'
            || c == '&' || c == '\'' || c == '*' || c == '+' || c == '-' || c == '.' || c == '^' || c == '_' || c == '`'
            || c == '|' || c == '~';
        if !plain {
            assert(!name_char(chars@[i as int]));
            return false;
        }
        i += 1;
    }
    true
}

/// So many names a header map can always take.
pub const HEADER_ROOM: usize = 6553;

/// The contents once a value has been added under a name.
pub open spec fn appended(
    contents: HeaderContents,
    name: Seq<char>,
    value: Seq<u8>,
) -> HeaderContents {
    if contents.contains_key(name) {
        contents.insert(name, contents[name].push(value))
    } else {
        contents.insert(name, seq![value])
    }
}

/// `HeaderMap::new` makes a map without headers.
#[verifier::external_body]
pub(crate) fn new_headers() -> (headers: HeaderMap<HeaderValue>)
    ensures
        header_contents(headers) == HeaderContents::empty(),
{
    HeaderMap::new()
}

/// `HeaderName::from_static` makes a name of a text in lower case. It panics
/// where a character of the text may not stand in a name.
#[verifier::external_body]
pub(crate) fn static_name(text: &'static str) -> (name: HeaderName)
    requires
        valid_name(text@),
    ensures
        header_name_text(name) == text@,
{
    HeaderName::from_static(text)
}

/// `HeaderName::as_str` gives the text of a name, which is in lower case.
#[verifier::external_body]
pub(crate) fn name_text(name: &HeaderName) -> (text: String)
    ensures
        text@ == header_name_text(*name),
        crate::text::lower(text@) == text@,
{
    name.as_str().to_string()
}

/// `HeaderMap::get` gives the first value of a name, which it looks up in
/// lower case. A map holds no name without a value.
#[verifier::external_body]
pub(crate) fn header_value(headers: &HeaderMap<HeaderValue>, name: &str) -> (value: Option<Vec<u8>>)
    requires
        valid_name(crate::text::lower(name@)),
    ensures
        match value {
            Some(value) => {
                &&& header_contents(*headers).contains_key(crate::text::lower(name@))
                &&& header_contents(*headers)[crate::text::lower(name@)].len() > 0
                &&& value@ == header_contents(*headers)[crate::text::lower(name@)][0]
            },
            None => !header_contents(*headers).contains_key(crate::text::lower(name@)),
        },
{
    headers.get(name).map(|value| value.as_bytes().to_vec())
}

/// `HeaderMap::keys` gives every name of the map once, in an order of the
/// map's own.
#[verifier::external_body]
pub(crate) fn header_names(headers: &HeaderMap<HeaderValue>) -> (names: Vec<HeaderName>)
    ensures
        name_texts(names@).no_duplicates(),
        name_texts(names@).to_set() == header_contents(*headers).dom(),
{
    headers.keys().cloned().collect()
}

/// `HeaderMap::get_all` gives the values of a name in the order in which they
/// were added. A name of the map has a value, and every value is made of bytes
/// that a header value may hold.
#[verifier::external_body]
pub(crate) fn header_values(headers: &HeaderMap<HeaderValue>, name: &HeaderName) -> (values: Vec<Vec<u8>>)
    ensures
        value_bytes(values@) == (if header_contents(*headers).contains_key(header_name_text(*name)) {
            header_contents(*headers)[header_name_text(*name)]
        } else {
            Seq::empty()
        }),
        header_contents(*headers).contains_key(header_name_text(*name)) ==> values.len() > 0,
        forall|i: int| 0 <= i < values.len() ==> valid_value(#[trigger] values[i]@),
{
    headers.get_all(name).iter().map(|value| value.as_bytes().to_vec()).collect()
}

/// `HeaderMap::try_append` adds a value after those that the name has. It
/// refuses where the map would grow past its limit, and `HeaderValue::from_bytes`
/// refuses a value that is not valid; the map then stays as it is. The map can
/// take a value as long as it holds at most `HEADER_ROOM` names; whether it
/// takes one beyond that is left unsaid, as it rests on how the names hash.
#[verifier::external_body]
pub(crate) fn append_header(headers: &mut HeaderMap<HeaderValue>, name: &HeaderName, value: &[u8]) -> (added: bool)
    ensures
        header_contents(*final(headers)) == (if added {
            appended(header_contents(*old(headers)), header_name_text(*name), value@)
        } else {
            header_contents(*old(headers))
        }),
        added ==> valid_value(value@),
        valid_value(value@) && header_contents(*old(headers)).len() <= HEADER_ROOM ==> added,
{
    match HeaderValue::from_bytes(value) {
        Ok(value) => headers.try_append(name, value).is_ok(),
        _ => false,
    }
}

/// `HeaderMap::try_insert` makes a value the only one of the name. It refuses
/// as `try_append` does, and `HeaderName::from_bytes` refuses a text that is no
/// name.
#[verifier::external_body]
pub(crate) fn insert_header(headers: &mut HeaderMap<HeaderValue>, name: &str, value: &[u8]) -> (set: bool)
    ensures
        header_contents(*final(headers)) == (if set {
            header_contents(*old(headers)).insert(crate::text::lower(name@), seq![value@])
        } else {
            header_contents(*old(headers))
        }),
        set ==> valid_name(crate::text::lower(name@)) && valid_value(value@),
        valid_name(crate::text::lower(name@)) && valid_value(value@) && header_contents(*old(headers)).len()
            <= HEADER_ROOM ==> set,
{
    match (HeaderName::from_bytes(name.as_bytes()), HeaderValue::from_bytes(value)) {
        (Ok(name), Ok(value)) => headers.try_insert(name, value).is_ok(),
        _ => false,
    }
}

/// `HeaderMap::remove` takes a name and all its values out of the map.
#[verifier::external_body]
pub(crate) fn remove_header(headers: &mut HeaderMap<HeaderValue>, name: &str)
    requires
        valid_name(crate::text::lower(name@)),
    ensures
        header_contents(*final(headers)) == header_contents(*old(headers)).remove(crate::text::lower(name@)),
{
    headers.remove(name);
}

/// The number of names in the map.
pub fn header_count(headers: &HeaderMap<HeaderValue>) -> (count: usize)
    ensures
        header_contents(*headers).dom().finite(),
        count == header_contents(*headers).len(),
{
    let names = header_names(headers);
    proof {
        name_texts(names@).unique_seq_to_set();
    }
    names.len()
}

/// The bytes of printable ASCII, with the tab.
pub open spec fn visible(b: u8) -> bool {
    32 <= b < 127 || b == 9
}

/// A header value as text, where it is printable ASCII throughout.
pub open spec fn value_text(value: Seq<u8>) -> Option<Seq<char>> {
    if forall|i: int| 0 <= i < value.len() ==> visible(#[trigger] value[i]) {
        Some(value.map_values(|b: u8| b as char))
    } else {
        None
    }
}

/// Reads a header value as text.
pub fn text_value(value: &[u8]) -> (text: Option<String>)
    ensures
        match (text, value_text(value@)) {
            (Some(text), Some(expected)) => text@ == expected,
            (None, None) => true,
            _ => false,
        },
{
    let mut text = String::new();
    let mut i: usize = 0;
    while i < value.len()
        invariant
            i <= value.len(),
            forall|j: int| 0 <= j < i ==> visible(#[trigger] value[j]),
            text@ == value@.take(i as int).map_values(|b: u8| b as char),
        decreases value.len() - i,
    {
        let b: u8 = value[i];
        if !(32 <= b && b < 127 || b == 9) {
            assert(!visible(value[i as int]));
            return None;
        }
        text.push(b as char);
        proof {
            assert(value@.take(i + 1).map_values(|b: u8| b as char) =~= value@.take(i as int).map_values(
                |b: u8| b as char,
            ).push(b as char));
        }
        i += 1;
    }
    proof {
        assert(value@.take(i as int) =~= value@);
    }
    Some(text)
}

/// The first value of a name that can be written as text, as text.
pub open spec fn first_text(contents: HeaderContents, name: Seq<char>) -> Option<Seq<char>> {
    if valid_name(name) && contents.contains_key(name) {
        value_text(contents[name][0])
    } else {
        None
    }
}

/// The first value of a name, where there is one and it is printable. A text
/// that is no header name has none.
pub fn header_text(headers: &HeaderMap<HeaderValue>, name: &str) -> (text: Option<String>)
    ensures
        match (text, first_text(header_contents(*headers), crate::text::lower(name@))) {
            (Some(text), Some(expected)) => text@ == expected,
            (None, None) => true,
            _ => false,
        },
{
    if !is_valid_name(name) {
        return None;
    }
    match header_value(headers, name) {
        Some(value) => text_value(value.as_slice()),
        None => None,
    }
}

/// The bytes of an ASCII text.
pub open spec fn ascii_bytes(text: Seq<char>) -> Seq<u8> {
    text.map_values(|c: char| c as u8)
}

/// The text is printable ASCII.
pub open spec fn printable(text: Seq<char>) -> bool {
    forall|i: int| 0 <= i < text.len() ==> ' ' <= #[trigger] text[i] <= '~'
}

/// The bytes of a printable text.
pub fn bytes_of_text(text: &str) -> (bytes: Vec<u8>)
    requires
        printable(text@),
    ensures
        bytes@ == ascii_bytes(text@),
        valid_value(bytes@),
{
    let chars = crate::text::chars_of(text);
    let mut bytes: Vec<u8> = Vec::new();
    let mut i: usize = 0;
    while i < chars.len()
        invariant
            i <= chars.len(),
            chars@ == text@,
            printable(text@),
            bytes.len() == i,
            forall|j: int| 0 <= j < i ==> #[trigger] bytes[j] == chars[j] as u8,
            forall|j: int| 0 <= j < i ==> 32 <= #[trigger] bytes[j] <= 126,
        decreases chars.len() - i,
    {
        let c: char = chars[i];
        assert(' ' <= chars[i as int] <= '~');
        let code: u32 = c as u32;
        bytes.push(code as u8);
        i += 1;
    }
    assert(bytes@ =~= ascii_bytes(text@));
    bytes
}

} // verus!
