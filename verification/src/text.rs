//! Text as sequences of characters: ordering, trimming, splitting and decimal
//! numbers.

use vstd::prelude::*;

verus! {

/// How one value stands to another in a total order.
#[derive(Clone, Copy, Debug, PartialEq, Eq)]
pub enum Rank {
    Before,
    Same,
    After,
}

/// `String::push` appends one character to the end of the string.
pub assume_specification[ String::push ](text: &mut String, c: char)
    ensures
        final(text)@ == old(text)@.push(c),
;

/// The characters of a text, in order.
pub fn chars_of(text: &str) -> (chars: Vec<char>)
    ensures
        chars@ == text@,
{
    let mut chars: Vec<char> = Vec::new();
    for c in it: text.chars()
        invariant
            it.seq() == text@,
            chars@ == text@.take(it.index() as int),
    {
        chars.push(c);
    }
    chars
}

/// The text made of the given characters.
pub fn text_of(chars: &[char]) -> (text: String)
    ensures
        text@ == chars@,
{
    let mut text = String::new();
    let mut i: usize = 0;
    while i < chars.len()
        invariant
            i <= chars.len(),
            text@ == chars@.take(i as int),
        decreases chars.len() - i,
    {
        text.push(chars[i]);
        i += 1;
    }
    text
}

/// `a` and `b` agree before position `i`, and there `a` has ended or has the
/// smaller character.
pub open spec fn parts_at(a: Seq<char>, b: Seq<char>, i: int) -> bool {
    &&& 0 <= i <= a.len()
    &&& i < b.len()
    &&& forall|j: int| 0 <= j < i ==> a[j] == b[j]
    &&& i < a.len() ==> a[i] < b[i]
}

/// Lexicographic order by code point, which is also the order of the UTF-8
/// encodings.
pub open spec fn text_before(a: Seq<char>, b: Seq<char>) -> bool {
    exists|i: int| parts_at(a, b, i)
}

pub proof fn lemma_text_before_irreflexive(a: Seq<char>)
    ensures
        !text_before(a, a),
{
}

pub proof fn lemma_text_before_transitive(a: Seq<char>, b: Seq<char>, c: Seq<char>)
    requires
        text_before(a, b),
        text_before(b, c),
    ensures
        text_before(a, c),
{
    let i = choose|i: int| parts_at(a, b, i);
    let j = choose|j: int| parts_at(b, c, j);
    let k = if i < j { i } else { j };
    assert(parts_at(a, c, k));
}

/// Where `text` stands to `other` in lexicographic order.
pub fn text_rank(text: &str, other: &str) -> (rank: Rank)
    ensures
        match rank {
            Rank::Before => text_before(text@, other@),
            Rank::Same => text@ == other@,
            Rank::After => text_before(other@, text@),
        },
{
    let a = chars_of(text);
    let b = chars_of(other);
    let mut i: usize = 0;
    while i < a.len() && i < b.len()
        invariant
            i <= a.len(),
            i <= b.len(),
            a@ == text@,
            b@ == other@,
            forall|j: int| 0 <= j < i ==> a[j] == b[j],
        decreases a.len() - i,
    {
        if a[i] != b[i] {
            if a[i] < b[i] {
                proof {
                    assert(parts_at(a@, b@, i as int));
                }
                return Rank::Before;
            }
            proof {
                assert(parts_at(b@, a@, i as int));
            }
            return Rank::After;
        }
        i += 1;
    }
    if a.len() < b.len() {
        proof {
            assert(parts_at(a@, b@, i as int));
        }
        Rank::Before
    } else if b.len() < a.len() {
        proof {
            assert(parts_at(b@, a@, i as int));
        }
        Rank::After
    } else {
        assert(a@ =~= b@);
        Rank::Same
    }
}

/// Whether two texts are equal.
pub fn same_text(a: &str, b: &str) -> (same: bool)
    ensures
        same == (a@ == b@),
{
    proof {
        if text_before(a@, b@) && a@ == b@ {
            lemma_text_before_irreflexive(a@);
        }
        if text_before(b@, a@) && a@ == b@ {
            lemma_text_before_irreflexive(a@);
        }
    }
    match text_rank(a, b) {
        Rank::Same => true,
        _ => false,
    }
}

/// The characters with the Unicode property `White_Space`.
pub open spec fn white_space(c: char) -> bool {
    ||| 0x9 <= c as int <= 0xD
    ||| c as int == 0x20
    ||| c as int == 0x85
    ||| c as int == 0xA0
    ||| c as int == 0x1680
    ||| 0x2000 <= c as int <= 0x200A
    ||| c as int == 0x2028
    ||| c as int == 0x2029
    ||| c as int == 0x202F
    ||| c as int == 0x205F
    ||| c as int == 0x3000
}

fn is_white_space(c: char) -> (white: bool)
    ensures
        white == white_space(c),
{
    ('\u{9}' <= c && c <= '\u{D}') || c == ' ' || c == '\u{85}' || c == '\u{A0}' || c == '\u{1680}' || ('\u{2000}' <= c
        && c <= '\u{200A}') || c == '\u{2028}' || c == '\u{2029}' || c == '\u{202F}' || c == '\u{205F}' || c
        == '\u{3000}'
}

/// The text from its first character that is not white space.
pub open spec fn trimmed_start(text: Seq<char>) -> Seq<char>
    decreases text.len(),
{
    if text.len() > 0 && white_space(text[0]) {
        trimmed_start(text.drop_first())
    } else {
        text
    }
}

/// The text up to its last character that is not white space.
pub open spec fn trimmed_end(text: Seq<char>) -> Seq<char>
    decreases text.len(),
{
    if text.len() > 0 && white_space(text.last()) {
        trimmed_end(text.drop_last())
    } else {
        text
    }
}

/// The text without white space at either end.
pub open spec fn trimmed(text: Seq<char>) -> Seq<char> {
    trimmed_end(trimmed_start(text))
}

/// A part of a vector of characters.
fn part(chars: &Vec<char>, from: usize, to: usize) -> (piece: Vec<char>)
    requires
        from <= to <= chars.len(),
    ensures
        piece@ == chars@.subrange(from as int, to as int),
{
    let mut piece: Vec<char> = Vec::new();
    let mut i: usize = from;
    while i < to
        invariant
            from <= i <= to <= chars.len(),
            piece@ == chars@.subrange(from as int, i as int),
        decreases to - i,
    {
        piece.push(chars[i]);
        i += 1;
    }
    piece
}

fn trimmed_chars(chars: &Vec<char>) -> (piece: Vec<char>)
    ensures
        piece@ == trimmed(chars@),
{
    let mut from: usize = 0;
    proof {
        assert(chars@.skip(0) =~= chars@);
    }
    while from < chars.len() && is_white_space(chars[from])
        invariant
            from <= chars.len(),
            trimmed_start(chars@) == trimmed_start(chars@.skip(from as int)),
        decreases chars.len() - from,
    {
        proof {
            assert(chars@.skip(from as int).drop_first() =~= chars@.skip(from + 1));
        }
        from += 1;
    }
    let ghost start = chars@.skip(from as int);
    assert(trimmed_start(chars@) == start);
    let mut to: usize = chars.len();
    proof {
        assert(chars@.subrange(from as int, to as int) =~= start);
    }
    while from < to && is_white_space(chars[to - 1])
        invariant
            from <= to <= chars.len(),
            trimmed_end(start) == trimmed_end(chars@.subrange(from as int, to as int)),
        decreases to,
    {
        proof {
            let now = chars@.subrange(from as int, to as int);
            assert(now.last() == chars@[to - 1]);
            assert(now.drop_last() =~= chars@.subrange(from as int, to - 1));
        }
        to -= 1;
    }
    proof {
        let now = chars@.subrange(from as int, to as int);
        assert(now.len() > 0 ==> now.last() == chars@[to - 1]);
    }
    part(chars, from, to)
}

/// The text without white space at either end.
pub fn trim(text: &str) -> (piece: String)
    ensures
        piece@ == trimmed(text@),
{
    text_of(&trimmed_chars(&chars_of(text)))
}

/// The value of a decimal digit.
pub open spec fn digit_value(c: char) -> Option<nat> {
    if '0' <= c <= '9' {
        Some((c as int - '0' as int) as nat)
    } else {
        None
    }
}

fn digit(c: char) -> (value: Option<u64>)
    ensures
        match (value, digit_value(c)) {
            (Some(value), Some(expected)) => value == expected,
            (None, None) => true,
            _ => false,
        },
{
    match c {
        '0' => Some(0),
        '1' => Some(1),
        '2' => Some(2),
        '3' => Some(3),
        '4' => Some(4),
        '5' => Some(5),
        '6' => Some(6),
        '7' => Some(7),
        '8' => Some(8),
        '9' => Some(9),
        _ => None,
    }
}

/// The number that a run of digits writes, most significant first.
pub open spec fn digits_value(digits: Seq<char>) -> Option<nat>
    decreases digits.len(),
{
    if digits.len() == 0 {
        Some(0)
    } else {
        match (digits_value(digits.drop_last()), digit_value(digits.last())) {
            (Some(high), Some(low)) => Some(10 * high + low),
            _ => None,
        }
    }
}

/// The unsigned decimal number that a text writes: one or more digits, after
/// an optional plus sign.
pub open spec fn decimal_value(text: Seq<char>) -> Option<nat> {
    let digits = if text.len() > 0 && text[0] == '+' {
        text.drop_first()
    } else {
        text
    };
    if digits.len() == 0 {
        None
    } else {
        digits_value(digits)
    }
}

/// The unsigned decimal number that a text writes, where it is at most `max`.
pub open spec fn decimal_at_most(text: Seq<char>, max: nat) -> Option<nat> {
    match decimal_value(text) {
        Some(value) => if value <= max {
            Some(value)
        } else {
            None
        },
        None => None,
    }
}

proof fn lemma_digits_prefix(digits: Seq<char>, len: int)
    requires
        0 <= len <= digits.len(),
        digits_value(digits) is Some,
    ensures
        digits_value(digits.take(len)) is Some,
        digits_value(digits.take(len))->0 <= digits_value(digits)->0,
    decreases digits.len(),
{
    if len == digits.len() {
        assert(digits.take(len) =~= digits);
    } else {
        lemma_digits_prefix(digits.drop_last(), len);
        assert(digits.drop_last().take(len) =~= digits.take(len));
    }
}

fn parse_chars(chars: &Vec<char>, max: u64) -> (number: Option<u64>)
    ensures
        match (number, decimal_at_most(chars@, max as nat)) {
            (Some(number), Some(value)) => number == value,
            (None, None) => true,
            _ => false,
        },
{
    let start: usize = if chars.len() > 0 && chars[0] == '+' {
        1
    } else {
        0
    };
    let ghost digits = chars@.skip(start as int);
    proof {
        if start == 0 {
            assert(digits =~= chars@);
        } else {
            assert(digits =~= chars@.drop_first());
        }
    }
    if start == chars.len() {
        return None;
    }
    let mut number: u64 = 0;
    let mut i: usize = start;
    while i < chars.len()
        invariant
            start <= i <= chars.len(),
            start <= 1,
            start < chars.len(),
            digits == chars@.skip(start as int),
            decimal_value(chars@) == digits_value(digits),
            digits_value(digits.take(i - start)) == Some(number as nat),
            number <= max,
        decreases chars.len() - i,
    {
        let ghost before = digits.take(i - start);
        let ghost after = digits.take(i - start + 1);
        proof {
            assert(after.drop_last() =~= before);
            assert(after.last() == chars@[i as int]);
            if digits_value(digits) is Some {
                lemma_digits_prefix(digits, i - start + 1);
            }
        }
        let value: u64 = match digit(chars[i]) {
            Some(value) => value,
            None => {
                return None;
            },
        };
        let wide: u128 = 10 * (number as u128) + value as u128;
        if wide > max as u128 {
            return None;
        }
        number = wide as u64;
        i += 1;
    }
    proof {
        assert(digits.take(i - start) =~= digits);
    }
    Some(number)
}

/// Reads an unsigned decimal number of at most `max`.
pub fn parse_decimal(text: &str, max: u64) -> (number: Option<u64>)
    ensures
        match (number, decimal_at_most(text@, max as nat)) {
            (Some(number), Some(value)) => number == value,
            (None, None) => true,
            _ => false,
        },
{
    parse_chars(&chars_of(text), max)
}

/// Reads an unsigned decimal number of at most `max`, with white space
/// around it.
pub fn parse_trimmed_decimal(text: &str, max: u64) -> (number: Option<u64>)
    ensures
        match (number, decimal_at_most(trimmed(text@), max as nat)) {
            (Some(number), Some(value)) => number == value,
            (None, None) => true,
            _ => false,
        },
{
    parse_chars(&trimmed_chars(&chars_of(text)), max)
}

pub open spec fn digit_char(value: nat) -> char {
    (('0' as int) + value) as char
}

/// The shortest decimal writing of a number.
pub open spec fn decimal_text(number: nat) -> Seq<char>
    decreases number,
{
    if number < 10 {
        seq![digit_char(number)]
    } else {
        decimal_text(number / 10).push(digit_char(number % 10))
    }
}

fn digit_of(value: u64) -> (c: char)
    requires
        value < 10,
    ensures
        c == digit_char(value as nat),
        digit_value(c) == Some(value as nat),
{
    match value {
        0 => '0',
        1 => '1',
        2 => '2',
        3 => '3',
        4 => '4',
        5 => '5',
        6 => '6',
        7 => '7',
        8 => '8',
        _ => '9',
    }
}

/// The decimal writing of a number.
pub fn decimal(number: u64) -> (text: String)
    ensures
        text@ == decimal_text(number as nat),
    decreases number,
{
    if number < 10 {
        let mut text = String::new();
        text.push(digit_of(number));
        assert(text@ =~= decimal_text(number as nat));
        text
    } else {
        let mut text = decimal(number / 10);
        text.push(digit_of(number % 10));
        text
    }
}

/// Reading a written number gives it back.
pub proof fn lemma_decimal_round_trip(number: nat)
    ensures
        decimal_value(decimal_text(number)) == Some(number),
        digits_value(decimal_text(number)) == Some(number),
        decimal_text(number).len() > 0,
        forall|i: int| 0 <= i < decimal_text(number).len() ==> '0' <= #[trigger] decimal_text(number)[i] <= '9',
    decreases number,
{
    let text = decimal_text(number);
    if number < 10 {
        assert(text.drop_last() =~= Seq::<char>::empty());
        assert(digits_value(Seq::<char>::empty()) == Some(0nat));
        assert(digit_value(text.last()) == Some(number));
    } else {
        lemma_decimal_round_trip(number / 10);
        assert(text.drop_last() =~= decimal_text(number / 10));
        assert(digit_value(text.last()) == Some(number % 10));
        assert forall|i: int| 0 <= i < text.len() implies '0' <= #[trigger] text[i] <= '9' by {
            if i < text.len() - 1 {
                assert(text[i] == decimal_text(number / 10)[i]);
            }
        }
    }
    assert('0' <= text[0] <= '9');
}

/// The ASCII lower-case form of a character.
pub open spec fn lower_char(c: char) -> char {
    if 'A' <= c <= 'Z' {
        ((c as int) + 32) as char
    } else {
        c
    }
}

/// The text with its ASCII letters in lower case.
pub open spec fn lower(text: Seq<char>) -> Seq<char> {
    text.map_values(|c: char| lower_char(c))
}

fn lower_of(c: char) -> (low: char)
    ensures
        low == lower_char(c),
{
    match c {
        'A' => 'a',
        'B' => 'b',
        'C' => 'c',
        'D' => 'd',
        'E' => 'e',
        'F' => 'f',
        'G' => 'g',
        'H' => 'h',
        'I' => 'i',
        'J' => 'j',
        'K' => 'k',
        'L' => 'l',
        'M' => 'm',
        'N' => 'n',
        'O' => 'o',
        'P' => 'p',
        'Q' => 'q',
        'R' => 'r',
        'S' => 's',
        'T' => 't',
        'U' => 'u',
        'V' => 'v',
        'W' => 'w',
        'X' => 'x',
        'Y' => 'y',
        'Z' => 'z',
        _ => c,
    }
}

/// The text with its ASCII letters in lower case.
pub fn to_lower(text: &str) -> (low: String)
    ensures
        low@ == lower(text@),
{
    let chars = chars_of(text);
    let mut low = String::new();
    let mut i: usize = 0;
    while i < chars.len()
        invariant
            i <= chars.len(),
            chars@ == text@,
            low@.len() == i,
            forall|j: int| 0 <= j < i ==> #[trigger] low@[j] == lower_char(chars[j]),
        decreases chars.len() - i,
    {
        low.push(lower_of(chars[i]));
        i += 1;
    }
    assert(low@ =~= lower(text@));
    low
}

/// `needle` stands in `text` from position `at` on.
pub open spec fn occurs_at(text: Seq<char>, needle: Seq<char>, at: int) -> bool {
    &&& 0 <= at
    &&& at + needle.len() <= text.len()
    &&& text.subrange(at, at + needle.len()) == needle
}

/// `needle` stands somewhere in `text`.
pub open spec fn occurs(text: Seq<char>, needle: Seq<char>) -> bool {
    exists|at: int| occurs_at(text, needle, at)
}

fn stands_at(chars: &Vec<char>, needle: &Vec<char>, at: usize) -> (stands: bool)
    requires
        at <= chars.len(),
    ensures
        stands == occurs_at(chars@, needle@, at as int),
{
    if needle.len() > chars.len() - at {
        return false;
    }
    let mut i: usize = 0;
    while i < needle.len()
        invariant
            i <= needle.len(),
            at + needle.len() <= chars.len(),
            forall|j: int| 0 <= j < i ==> chars[at + j] == needle[j],
        decreases needle.len() - i,
    {
        if chars[at + i] != needle[i] {
            proof {
                assert(chars@.subrange(at as int, at + needle.len())[i as int] == chars[at + i]);
            }
            return false;
        }
        i += 1;
    }
    assert(chars@.subrange(at as int, at + needle.len()) =~= needle@);
    true
}

/// Whether `needle` stands somewhere in `text`.
pub fn contains_text(text: &str, needle: &str) -> (found: bool)
    ensures
        found == occurs(text@, needle@),
{
    let chars = chars_of(text);
    let wanted = chars_of(needle);
    let mut at: usize = 0;
    loop
        invariant
            at <= chars.len(),
            chars@ == text@,
            wanted@ == needle@,
            forall|i: int| 0 <= i < at ==> !#[trigger] occurs_at(text@, needle@, i),
        decreases chars.len() - at,
    {
        if stands_at(&chars, &wanted, at) {
            assert(occurs_at(text@, needle@, at as int));
            return true;
        }
        if at == chars.len() {
            assert forall|i: int| !#[trigger] occurs_at(text@, needle@, i) by {
                if i > at {
                }
            }
            return false;
        }
        at += 1;
    }
}

/// Whether `text` begins with `prefix`.
pub fn starts_with_text(text: &str, prefix: &str) -> (starts: bool)
    ensures
        starts == occurs_at(text@, prefix@, 0),
{
    stands_at(&chars_of(text), &chars_of(prefix), 0)
}

/// What follows `prefix`, where the text begins with it.
pub fn strip_text_prefix(text: &str, prefix: &str) -> (rest: Option<String>)
    ensures
        match rest {
            Some(rest) => occurs_at(text@, prefix@, 0) && rest@ == text@.skip(prefix@.len() as int),
            None => !occurs_at(text@, prefix@, 0),
        },
{
    let chars = chars_of(text);
    let head = chars_of(prefix);
    if !stands_at(&chars, &head, 0) {
        return None;
    }
    let rest = part(&chars, head.len(), chars.len());
    assert(rest@ =~= text@.skip(prefix@.len() as int));
    Some(text_of(rest.as_slice()))
}

/// `at` is the first place at which `mark` stands.
pub open spec fn first_place(text: Seq<char>, mark: char, at: int) -> bool {
    &&& 0 <= at < text.len()
    &&& text[at] == mark
    &&& forall|i: int| 0 <= i < at ==> text[i] != mark
}

/// `at` is the last place at which `mark` stands.
pub open spec fn last_place(text: Seq<char>, mark: char, at: int) -> bool {
    &&& 0 <= at < text.len()
    &&& text[at] == mark
    &&& forall|i: int| at < i < text.len() ==> text[i] != mark
}

/// The text in two at the first `mark`, where there is one.
pub open spec fn split_first(text: Seq<char>, mark: char) -> Option<(Seq<char>, Seq<char>)> {
    if exists|at: int| first_place(text, mark, at) {
        let at = choose|at: int| first_place(text, mark, at);
        Some((text.take(at), text.skip(at + 1)))
    } else {
        None
    }
}

/// The text in two at the last `mark`, where there is one.
pub open spec fn split_last(text: Seq<char>, mark: char) -> Option<(Seq<char>, Seq<char>)> {
    if exists|at: int| last_place(text, mark, at) {
        let at = choose|at: int| last_place(text, mark, at);
        Some((text.take(at), text.skip(at + 1)))
    } else {
        None
    }
}

pub proof fn lemma_split_first(text: Seq<char>, mark: char, at: int)
    requires
        first_place(text, mark, at),
    ensures
        split_first(text, mark) == Some((text.take(at), text.skip(at + 1))),
{
    let other = choose|other: int| first_place(text, mark, other);
    assert(other == at);
}

pub proof fn lemma_split_last(text: Seq<char>, mark: char, at: int)
    requires
        last_place(text, mark, at),
    ensures
        split_last(text, mark) == Some((text.take(at), text.skip(at + 1))),
{
    let other = choose|other: int| last_place(text, mark, other);
    assert(other == at);
}

/// Where a mark stands first.
fn find_first(chars: &Vec<char>, mark: char) -> (at: Option<usize>)
    ensures
        match at {
            Some(at) => first_place(chars@, mark, at as int),
            None => forall|i: int| 0 <= i < chars.len() ==> chars[i] != mark,
        },
{
    let mut i: usize = 0;
    while i < chars.len()
        invariant
            i <= chars.len(),
            forall|j: int| 0 <= j < i ==> chars[j] != mark,
        decreases chars.len() - i,
    {
        if chars[i] == mark {
            return Some(i);
        }
        i += 1;
    }
    None
}

/// Where a mark stands last.
fn find_last(chars: &Vec<char>, mark: char) -> (at: Option<usize>)
    ensures
        match at {
            Some(at) => last_place(chars@, mark, at as int),
            None => forall|i: int| 0 <= i < chars.len() ==> chars[i] != mark,
        },
{
    let mut i: usize = chars.len();
    while i > 0
        invariant
            i <= chars.len(),
            forall|j: int| i <= j < chars.len() ==> chars[j] != mark,
        decreases i,
    {
        if chars[i - 1] == mark {
            return Some(i - 1);
        }
        i -= 1;
    }
    None
}

pub open spec fn same_parts(parts: Option<(String, String)>, expected: Option<(Seq<char>, Seq<char>)>) -> bool {
    match (parts, expected) {
        (Some(parts), Some(expected)) => parts.0@ == expected.0 && parts.1@ == expected.1,
        (None, None) => true,
        _ => false,
    }
}

fn halves(chars: &Vec<char>, at: usize) -> (parts: (String, String))
    requires
        at < chars.len(),
    ensures
        parts.0@ == chars@.take(at as int),
        parts.1@ == chars@.skip(at + 1),
{
    let head = part(chars, 0, at);
    let tail = part(chars, at + 1, chars.len());
    assert(head@ =~= chars@.take(at as int));
    assert(tail@ =~= chars@.skip(at + 1));
    (text_of(head.as_slice()), text_of(tail.as_slice()))
}

/// Splits a text at the first mark.
pub fn split_once(text: &str, mark: char) -> (parts: Option<(String, String)>)
    ensures
        same_parts(parts, split_first(text@, mark)),
{
    let chars = chars_of(text);
    match find_first(&chars, mark) {
        Some(at) => {
            proof {
                lemma_split_first(text@, mark, at as int);
            }
            Some(halves(&chars, at))
        },
        None => None,
    }
}

/// Splits a text at the last mark.
pub fn rsplit_once(text: &str, mark: char) -> (parts: Option<(String, String)>)
    ensures
        same_parts(parts, split_last(text@, mark)),
{
    let chars = chars_of(text);
    match find_last(&chars, mark) {
        Some(at) => {
            proof {
                lemma_split_last(text@, mark, at as int);
            }
            Some(halves(&chars, at))
        },
        None => None,
    }
}

/// What stands before the first mark: all of a text without one.
pub open spec fn before_first(text: Seq<char>, mark: char) -> Seq<char> {
    match split_first(text, mark) {
        Some(parts) => parts.0,
        None => text,
    }
}

/// What stands before the first mark.
pub fn text_before_first(text: &str, mark: char) -> (head: String)
    ensures
        head@ == before_first(text@, mark),
{
    match split_once(text, mark) {
        Some((head, _)) => head,
        None => text.to_string(),
    }
}

/// The two texts in a row.
pub fn join_texts(head: &str, tail: &str) -> (text: String)
    ensures
        text@ == head@ + tail@,
{
    let mut text = head.to_string();
    let chars = chars_of(tail);
    let mut i: usize = 0;
    assert(text@ =~= head@ + tail@.take(0));
    while i < chars.len()
        invariant
            i <= chars.len(),
            chars@ == tail@,
            text@ == head@ + tail@.take(i as int),
        decreases chars.len() - i,
    {
        text.push(chars[i]);
        proof {
            assert(head@ + tail@.take(i + 1) =~= (head@ + tail@.take(i as int)).push(chars[i as int]));
        }
        i += 1;
    }
    assert(tail@.take(i as int) =~= tail@);
    text
}

/// `at` is the last place at which `needle` stands.
pub open spec fn last_occurrence(text: Seq<char>, needle: Seq<char>, at: int) -> bool {
    &&& occurs_at(text, needle, at)
    &&& forall|i: int| at < i ==> !#[trigger] occurs_at(text, needle, i)
}

/// The text in two at the last `needle`, where there is one.
pub open spec fn split_last_text(text: Seq<char>, needle: Seq<char>) -> Option<(Seq<char>, Seq<char>)> {
    if exists|at: int| last_occurrence(text, needle, at) {
        let at = choose|at: int| last_occurrence(text, needle, at);
        Some((text.take(at), text.skip(at + needle.len())))
    } else {
        None
    }
}

pub proof fn lemma_split_last_text(text: Seq<char>, needle: Seq<char>, at: int)
    requires
        last_occurrence(text, needle, at),
    ensures
        split_last_text(text, needle) == Some((text.take(at), text.skip(at + needle.len()))),
{
    let other = choose|other: int| last_occurrence(text, needle, other);
    assert(last_occurrence(text, needle, other));
    assert(occurs_at(text, needle, other) && occurs_at(text, needle, at));
    assert(other == at);
}

/// Splits a text at the last place at which another stands.
pub fn rsplit_text(text: &str, needle: &str) -> (parts: Option<(String, String)>)
    ensures
        same_parts(parts, split_last_text(text@, needle@)),
{
    let chars = chars_of(text);
    let mark = chars_of(needle);
    let mut i: usize = chars.len();
    loop
        invariant
            i <= chars.len(),
            chars@ == text@,
            mark@ == needle@,
            forall|j: int| i < j ==> !#[trigger] occurs_at(text@, needle@, j),
        decreases i,
    {
        if stands_at(&chars, &mark, i) {
            let head = part(&chars, 0, i);
            let tail = part(&chars, i + mark.len(), chars.len());
            proof {
                assert(last_occurrence(text@, needle@, i as int));
                lemma_split_last_text(text@, needle@, i as int);
                assert(head@ =~= text@.take(i as int));
                assert(tail@ =~= text@.skip(i + needle@.len()));
            }
            return Some((text_of(head.as_slice()), text_of(tail.as_slice())));
        }
        if i == 0 {
            proof {
                assert forall|at: int| !#[trigger] last_occurrence(text@, needle@, at) by {
                    if last_occurrence(text@, needle@, at) {
                        assert(occurs_at(text@, needle@, at));
                        assert(at == 0 || at > 0);
                    }
                }
            }
            return None;
        }
        i -= 1;
    }
}

} // verus!
