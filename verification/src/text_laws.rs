//! What holds of the operations on texts and of the numbers written in them.

use vstd::prelude::*;

use crate::text::{
    decimal, join_texts, parse_decimal, parse_trimmed_decimal, rsplit_once, rsplit_text, same_text, split_once,
    starts_with_text, strip_text_prefix, text_before_first, text_rank, to_lower, trim, Rank,
};

verus! {

/// Trimming takes white space off both ends and nothing else: what is left is a
/// stretch of the text that neither begins nor ends with white space.
pub proof fn law_trim_takes_only_the_ends(text: &str, piece: String)
    requires
        call_ensures(trim, (text,), piece),
    ensures
        exists|from: int, to: int| #![auto]
            {
                &&& 0 <= from <= to <= text@.len()
                &&& piece@ == text@.subrange(from, to)
                &&& forall|i: int| 0 <= i < from || to <= i < text@.len() ==> crate::text::white_space(#[trigger] text@[i])
            },
        piece@.len() > 0 ==> !crate::text::white_space(piece@[0]) && !crate::text::white_space(
            piece@[piece@.len() - 1],
        ),
{
    lemma_trimmed_start(text@);
    let start = crate::text::trimmed_start(text@);
    let from = text@.len() - start.len();
    lemma_trimmed_end(start);
    let to = from + piece@.len();
    assert(piece@ =~= text@.subrange(from, to));
    assert forall|i: int| 0 <= i < from || to <= i < text@.len() implies crate::text::white_space(#[trigger] text@[i]) by {
        if to <= i {
            assert(start[i - from] == text@[i]);
        }
    }
}

proof fn lemma_trimmed_start(text: Seq<char>)
    ensures
        ({
            let start = crate::text::trimmed_start(text);
            let from = text.len() - start.len();
            &&& 0 <= from
            &&& start == text.skip(from)
            &&& forall|i: int| 0 <= i < from ==> crate::text::white_space(#[trigger] text[i])
            &&& start.len() > 0 ==> !crate::text::white_space(start[0])
        }),
    decreases text.len(),
{
    if text.len() > 0 && crate::text::white_space(text[0]) {
        let rest = text.drop_first();
        lemma_trimmed_start(rest);
        let start = crate::text::trimmed_start(text);
        let from = text.len() - start.len();
        assert(start =~= text.skip(from));
        assert forall|i: int| 0 <= i < from implies crate::text::white_space(#[trigger] text[i]) by {
            if i > 0 {
                assert(rest[i - 1] == text[i]);
            }
        }
    } else {
        assert(text =~= text.skip(0));
    }
}

proof fn lemma_trimmed_end(text: Seq<char>)
    ensures
        ({
            let end = crate::text::trimmed_end(text);
            &&& end.len() <= text.len()
            &&& end == text.take(end.len() as int)
            &&& forall|i: int| end.len() <= i < text.len() ==> crate::text::white_space(#[trigger] text[i])
            &&& end.len() > 0 ==> !crate::text::white_space(end[end.len() - 1])
        }),
    decreases text.len(),
{
    if text.len() > 0 && crate::text::white_space(text[text.len() - 1]) {
        let rest = text.drop_last();
        lemma_trimmed_end(rest);
        let end = crate::text::trimmed_end(text);
        assert(end =~= text.take(end.len() as int));
        assert forall|i: int| end.len() <= i < text.len() implies crate::text::white_space(#[trigger] text[i]) by {
            if i < rest.len() {
                assert(rest[i] == text[i]);
            }
        }
    } else {
        assert(text =~= text.take(text.len() as int));
    }
}

/// The space, the five controls from the tab to the carriage return and the other
/// white space of Unicode are trimmed, and no other character is. A text without
/// white space at its ends is left as it is.
pub proof fn law_trim_knows_white_space(text: &str, piece: String)
    requires
        call_ensures(trim, (text,), piece),
        text@.len() > 0,
    ensures
        '!' <= text@[0] <= '~' && '!' <= text@[text@.len() - 1] <= '~' ==> piece@ == text@,
        text@.len() == 1 && text@[0] <= '~' ==> (piece@.len() == 0 <==> text@[0] == ' ' || '\t' <= text@[0] <= '\r'),
        text@.len() == 1 ==> (piece@.len() == 0 <==> {
            let c = text@[0] as int;
            ||| 0x09 <= c <= 0x0D
            ||| c == 0x20 || c == 0x85 || c == 0xA0 || c == 0x1680
            ||| 0x2000 <= c <= 0x200A
            ||| c == 0x2028 || c == 0x2029 || c == 0x202F || c == 0x205F || c == 0x3000
        }),
{
    lemma_trimmed_start(text@);
    lemma_trimmed_end(crate::text::trimmed_start(text@));
    reveal_with_fuel(crate::text::trimmed_start, 3);
    reveal_with_fuel(crate::text::trimmed_end, 3);
}

/// Lowering a text changes its capital ASCII letters to the small letters of
/// the same place in the alphabet, and nothing else.
pub proof fn law_lower_changes_capitals_alone(text: &str, low: String, i: int)
    requires
        call_ensures(to_lower, (text,), low),
        0 <= i < text@.len(),
    ensures
        low@.len() == text@.len(),
        !('A' <= text@[i] <= 'Z') ==> low@[i] == text@[i],
        'A' <= text@[i] <= 'Z' ==> {
            &&& 'a' <= low@[i] <= 'z'
            &&& low@[i] as int - 'a' as int == text@[i] as int - 'A' as int
        },
{
}

/// Two texts that differ in the case of their letters alone are lowered alike,
/// and a lowered text stays as it is.
pub proof fn law_lower_forgets_case(text: Seq<char>, other: Seq<char>)
    requires
        text.len() == other.len(),
        forall|i: int| 0 <= i < text.len() ==> {
            ||| #[trigger] text[i] == other[i]
            ||| 'A' <= text[i] <= 'Z' && other[i] as int == text[i] as int + 32
            ||| 'A' <= other[i] <= 'Z' && text[i] as int == other[i] as int + 32
        },
    ensures
        crate::text::lower(text) == crate::text::lower(other),
        crate::text::lower(crate::text::lower(text)) == crate::text::lower(text),
{
    assert(crate::text::lower(text) =~= crate::text::lower(other));
    assert(crate::text::lower(crate::text::lower(text)) =~= crate::text::lower(text));
}

/// A written number is read back as it was where it is in range, and refused
/// where it is not.
pub proof fn law_numbers_round_trip(number: u64, written: String, text: &str, max: u64, read: Option<u64>)
    requires
        call_ensures(decimal, (number,), written),
        text@ == written@,
        call_ensures(parse_decimal, (text, max), read),
    ensures
        number <= max ==> read == Some(number),
        number > max ==> read is None,
{
    crate::text::lemma_decimal_round_trip(number as nat);
}

/// A number below ten is written with its one digit; one more digit behind a
/// written number makes ten times as much of it and adds the digit.
pub proof fn law_numbers_are_written_digit_by_digit(number: u64, written: String, tens: u64, head: String)
    requires
        call_ensures(decimal, (number,), written),
        call_ensures(decimal, (tens,), head),
        tens == number / 10,
    ensures
        number < 10 ==> written@.len() == 1,
        number >= 10 ==> written@.len() == head@.len() + 1 && written@.drop_last() == head@,
        written@.len() > 0,
        '0' <= written@.last() <= '9',
        written@.last() as int - '0' as int == number % 10,
{
    if number >= 10 {
        assert(written@.drop_last() =~= head@);
    }
}

/// A number is one or more digits, behind a plus sign or not. One digit more
/// makes ten times as much and adds the digit, as far as that is in range.
pub proof fn law_reading_goes_digit_by_digit(
    text: &str,
    read: Option<u64>,
    longer: &str,
    digit: char,
    more: Option<u64>,
)
    requires
        call_ensures(parse_decimal, (text, u64::MAX), read),
        call_ensures(parse_decimal, (longer, u64::MAX), more),
        longer@ == text@.push(digit),
    ensures
        !('0' <= digit <= '9') ==> more is None,
        '0' <= digit <= '9' && (text@.len() == 0 || text@ == seq!['+']) ==> more == Some(
            (digit as int - '0' as int) as u64,
        ),
        read matches Some(value) ==> {
            &&& text@.len() > 0
            &&& '0' <= text@.last() <= '9'
            &&& forall|i: int| 1 <= i < text@.len() ==> '0' <= #[trigger] text@[i] <= '9'
            &&& '0' <= text@[0] <= '9' || text@[0] == '+'
            &&& '0' <= digit <= '9' && 10 * value + (digit as int - '0' as int) <= u64::MAX ==> more == Some(
                (10 * value + (digit as int - '0' as int)) as u64,
            )
            &&& '0' <= digit <= '9' && 10 * value + (digit as int - '0' as int) > u64::MAX ==> more is None
        },
        read is None && more is Some ==> text@.len() == 0 || text@ == seq!['+'],
{
    let digits = if text@.len() > 0 && text@[0] == '+' {
        text@.drop_first()
    } else {
        text@
    };
    let all = if longer@.len() > 0 && longer@[0] == '+' {
        longer@.drop_first()
    } else {
        longer@
    };
    reveal_with_fuel(crate::text::digits_value, 2);
    if text@.len() == 0 && digit == '+' {
    } else {
        assert(all =~= digits.push(digit));
        assert(all.drop_last() =~= digits);
    }
    if text@.len() == 1 && text@[0] == '+' {
        assert(text@ =~= seq!['+']);
        assert(digits.len() == 0);
    }
    if let Some(value) = read {
        lemma_digits_only(digits);
        assert forall|i: int| 1 <= i < text@.len() implies '0' <= #[trigger] text@[i] <= '9' by {
            if text@[0] == '+' {
                assert(digits[i - 1] == text@[i]);
            } else {
                assert(digits[i] == text@[i]);
            }
        }
        assert('0' <= digits[digits.len() - 1] <= '9');
        assert(digits[digits.len() - 1] == text@[text@.len() - 1]);
        if text@[0] != '+' {
            assert(digits[0] == text@[0]);
        }
    } else if more is Some {
        if digits.len() == 0 {
            assert(text@.len() == 0 || text@ =~= seq!['+']);
        } else {
            assert(crate::text::digits_value(digits) is Some);
        }
    }
}

proof fn lemma_digits_only(digits: Seq<char>)
    requires
        crate::text::digits_value(digits) is Some,
    ensures
        forall|i: int| 0 <= i < digits.len() ==> '0' <= #[trigger] digits[i] <= '9',
    decreases digits.len(),
{
    if digits.len() > 0 {
        lemma_digits_only(digits.drop_last());
        assert forall|i: int| 0 <= i < digits.len() implies '0' <= #[trigger] digits[i] <= '9' by {
            if i < digits.len() - 1 {
                assert(digits.drop_last()[i] == digits[i]);
            }
        }
    }
}

/// White space around a number has no part in it.
pub proof fn law_space_around_numbers_does_not_count(
    text: &str,
    max: u64,
    read: Option<u64>,
    piece: String,
    bare: &str,
    plain: Option<u64>,
)
    requires
        call_ensures(trim, (text,), piece),
        bare@ == piece@,
        call_ensures(parse_trimmed_decimal, (text, max), read),
        call_ensures(parse_decimal, (bare, max), plain),
    ensures
        read == plain,
{
}

/// Texts are told apart by their first difference: the one that has ended or has
/// the smaller character there comes first, and exactly one of three answers is
/// given.
pub proof fn law_texts_are_ordered_by_first_difference(
    text: &str,
    other: &str,
    rank: Rank,
    shared: int,
)
    requires
        call_ensures(text_rank, (text, other), rank),
        0 <= shared <= text@.len(),
        shared <= other@.len(),
        forall|i: int| 0 <= i < shared ==> text@[i] == other@[i],
        shared < text@.len() && shared < other@.len() ==> text@[shared] != other@[shared],
    ensures
        rank is Before <==> shared < other@.len() && (shared == text@.len() || text@[shared] < other@[shared]),
        rank is After <==> shared < text@.len() && (shared == other@.len() || other@[shared] < text@[shared]),
        rank is Same <==> shared == text@.len() && shared == other@.len(),
{
    assert(shared == text@.len() && shared == other@.len() ==> text@ =~= other@);
    if rank is Before {
        let i = choose|i: int| crate::text::parts_at(text@, other@, i);
        assert(i == shared) by {
            if i < shared {
                assert(text@[i] == other@[i]);
            } else if shared < i {
                assert(text@[shared] == other@[shared]);
            }
        }
    } else if rank is After {
        let i = choose|i: int| crate::text::parts_at(other@, text@, i);
        assert(i == shared) by {
            if i < shared {
                assert(text@[i] == other@[i]);
            } else if shared < i {
                assert(text@[shared] == other@[shared]);
            }
        }
    }
}

/// Two texts are the same where they have the same characters in a row.
pub proof fn law_same_texts_agree_everywhere(a: &str, b: &str, same: bool)
    requires
        call_ensures(same_text, (a, b), same),
    ensures
        same <==> a@.len() == b@.len() && forall|i: int| 0 <= i < a@.len() ==> #[trigger] a@[i] == b@[i],
{
    if a@.len() == b@.len() && forall|i: int| 0 <= i < a@.len() ==> #[trigger] a@[i] == b@[i] {
        assert(a@ =~= b@);
    }
}

/// The parts of a text that was split at the first mark make it up again, and the
/// first of them is free of the mark; only a text without the mark is not split.
pub proof fn law_split_parts_make_up_the_text(text: &str, mark: char, parts: Option<(String, String)>, head: String)
    requires
        call_ensures(split_once, (text, mark), parts),
        call_ensures(text_before_first, (text, mark), head),
    ensures
        parts matches Some(parts) ==> {
            &&& text@ == parts.0@.push(mark) + parts.1@
            &&& !parts.0@.contains(mark)
            &&& head@ == parts.0@
        },
        parts is None ==> !text@.contains(mark) && head@ == text@,
{
    if exists|at: int| crate::text::first_place(text@, mark, at) {
        let at = choose|at: int| crate::text::first_place(text@, mark, at);
        crate::text::lemma_split_first(text@, mark, at);
        assert(text@ =~= text@.take(at).push(mark) + text@.skip(at + 1));
    } else if text@.contains(mark) {
        lemma_first_exists(text@, mark, text@.index_of(mark));
    }
}

proof fn lemma_first_exists(text: Seq<char>, mark: char, at: int)
    requires
        0 <= at < text.len(),
        text[at] == mark,
    ensures
        exists|first: int| crate::text::first_place(text, mark, first),
    decreases at,
{
    if forall|i: int| 0 <= i < at ==> text[i] != mark {
        assert(crate::text::first_place(text, mark, at));
    } else {
        let earlier = choose|i: int| 0 <= i < at && text[i] == mark;
        lemma_first_exists(text, mark, earlier);
    }
}

proof fn lemma_last_exists(text: Seq<char>, mark: char, at: int)
    requires
        0 <= at < text.len(),
        text[at] == mark,
    ensures
        exists|last: int| crate::text::last_place(text, mark, last),
    decreases text.len() - at,
{
    if forall|i: int| at < i < text.len() ==> text[i] != mark {
        assert(crate::text::last_place(text, mark, at));
    } else {
        let later = choose|i: int| at < i < text.len() && text[i] == mark;
        lemma_last_exists(text, mark, later);
    }
}

/// The parts of a text that was split at the last mark make it up again, and the
/// second of them is free of the mark.
pub proof fn law_last_split_parts_make_up_the_text(text: &str, mark: char, parts: Option<(String, String)>)
    requires
        call_ensures(rsplit_once, (text, mark), parts),
    ensures
        parts matches Some(parts) ==> {
            &&& text@ == parts.0@.push(mark) + parts.1@
            &&& !parts.1@.contains(mark)
        },
        parts is None ==> !text@.contains(mark),
{
    if exists|at: int| crate::text::last_place(text@, mark, at) {
        let at = choose|at: int| crate::text::last_place(text@, mark, at);
        crate::text::lemma_split_last(text@, mark, at);
        assert(text@ =~= text@.take(at).push(mark) + text@.skip(at + 1));
    } else if text@.contains(mark) {
        lemma_last_exists(text@, mark, text@.index_of(mark));
    }
}

/// The parts of a text that was split at the last place of another make it up
/// again, and no later place begins behind the split.
pub proof fn law_text_split_parts_make_up_the_text(text: &str, needle: &str, parts: Option<(String, String)>)
    requires
        call_ensures(rsplit_text, (text, needle), parts),
    ensures
        parts matches Some(parts) ==> {
            &&& text@ == parts.0@ + needle@ + parts.1@
            &&& forall|at: int|
                parts.0@.len() < at <= text@.len() - needle@.len() ==> #[trigger] text@.subrange(at, at + needle@.len())
                    != needle@
        },
        parts is None ==> forall|at: int|
            0 <= at <= text@.len() - needle@.len() ==> #[trigger] text@.subrange(at, at + needle@.len()) != needle@,
{
    if exists|at: int| crate::text::last_occurrence(text@, needle@, at) {
        let at = choose|at: int| crate::text::last_occurrence(text@, needle@, at);
        crate::text::lemma_split_last_text(text@, needle@, at);
        assert(text@ =~= text@.take(at) + text@.subrange(at, at + needle@.len()) + text@.skip(at + needle@.len()));
        assert forall|later: int| at < later <= text@.len() - needle@.len() implies #[trigger] text@.subrange(
            later,
            later + needle@.len(),
        ) != needle@ by {
            assert(!crate::text::occurs_at(text@, needle@, later));
        }
    } else {
        assert forall|at: int| 0 <= at <= text@.len() - needle@.len() implies #[trigger] text@.subrange(
            at,
            at + needle@.len(),
        ) != needle@ by {
            if text@.subrange(at, at + needle@.len()) == needle@ {
                lemma_last_occurrence_exists(text@, needle@, at);
            }
        }
    }
}

proof fn lemma_last_occurrence_exists(text: Seq<char>, needle: Seq<char>, at: int)
    requires
        crate::text::occurs_at(text, needle, at),
    ensures
        exists|last: int| crate::text::last_occurrence(text, needle, last),
    decreases text.len() - at,
{
    if forall|i: int| at < i ==> !#[trigger] crate::text::occurs_at(text, needle, i) {
        assert(crate::text::last_occurrence(text, needle, at));
    } else {
        let later = choose|i: int| at < i && #[trigger] crate::text::occurs_at(text, needle, i);
        lemma_last_occurrence_exists(text, needle, later);
    }
}

/// A text begins with a prefix exactly where the prefix and some rest make it
/// up, and stripping the prefix gives that rest.
pub proof fn law_prefix_and_rest_make_up_the_text(text: &str, prefix: &str, starts: bool, rest: Option<String>)
    requires
        call_ensures(starts_with_text, (text, prefix), starts),
        call_ensures(strip_text_prefix, (text, prefix), rest),
    ensures
        starts <==> rest is Some,
        rest matches Some(rest) ==> text@ == prefix@ + rest@,
        rest is None ==> forall|tail: Seq<char>| text@ != #[trigger] (prefix@ + tail),
{
    if let Some(tail) = rest {
        assert(text@ =~= prefix@ + tail@);
    } else {
        assert forall|tail: Seq<char>| text@ != #[trigger] (prefix@ + tail) by {
            if text@ == prefix@ + tail {
                assert(text@.subrange(0, prefix@.len() as int) =~= prefix@);
            }
        }
    }
}

/// Joined texts stand in a row.
pub proof fn law_joined_texts_stand_in_a_row(head: &str, tail: &str, text: String)
    requires
        call_ensures(join_texts, (head, tail), text),
    ensures
        text@.len() == head@.len() + tail@.len(),
        text@.take(head@.len() as int) == head@,
        text@.skip(head@.len() as int) == tail@,
{
    assert(text@.take(head@.len() as int) =~= head@);
    assert(text@.skip(head@.len() as int) =~= tail@);
}

} // verus!
