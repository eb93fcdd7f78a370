//! Decimal text and searches in byte strings.

use vstd::prelude::*;
use vstd::string::*;

verus! {

/// The character of a decimal digit.
pub open spec fn digit_char(digit: nat) -> char {
    ('0' as u32 + digit) as char
}

/// A number in decimal.
pub open spec fn decimal_text(number: nat) -> Seq<char>
    decreases number,
{
    if number < 10 {
        seq![digit_char(number)]
    } else {
        decimal_text(number / 10).push(digit_char(number % 10))
    }
}

/// A possibly negative number in decimal.
pub open spec fn signed_text(number: int) -> Seq<char> {
    if number < 0 {
        "-"@ + decimal_text((-number) as nat)
    } else {
        decimal_text(number as nat)
    }
}

fn digit(value: u64) -> (text: &'static str)
    requires
        value < 10,
    ensures
        text@ == seq![digit_char(value as nat)],
{
    proof {
        reveal_strlit("0");
        reveal_strlit("1");
        reveal_strlit("2");
        reveal_strlit("3");
        reveal_strlit("4");
        reveal_strlit("5");
        reveal_strlit("6");
        reveal_strlit("7");
        reveal_strlit("8");
        reveal_strlit("9");
    }
    match value {
        0 => "0",
        1 => "1",
        2 => "2",
        3 => "3",
        4 => "4",
        5 => "5",
        6 => "6",
        7 => "7",
        8 => "8",
        _ => "9",
    }
}

/// Writes a number in decimal.
pub fn decimal(number: u64) -> (text: String)
    ensures
        text@ == decimal_text(number as nat),
    decreases number,
{
    if number < 10 {
        digit(number).to_owned()
    } else {
        let mut text = decimal(number / 10);
        text.append(digit(number % 10));
        text
    }
}

/// Writes a possibly negative number in decimal.
pub fn signed(number: i32) -> (text: String)
    ensures
        text@ == signed_text(number as int),
{
    let wide: i64 = number as i64;
    if wide < 0 {
        let magnitude: u64 = (-wide) as u64;
        let mut text = "-".to_owned();
        text.append(decimal(magnitude).as_str());
        text
    } else {
        decimal(wide as u64)
    }
}

/// Whether `pattern` stands in `text` at position `at`.
pub open spec fn occurs_at(text: Seq<u8>, pattern: Seq<u8>, at: int) -> bool {
    &&& 0 <= at
    &&& at + pattern.len() <= text.len()
    &&& text.subrange(at, at + pattern.len()) == pattern
}

/// The first position from `from` on at which `pattern` stands in `text`.
pub open spec fn position_from(text: Seq<u8>, pattern: Seq<u8>, from: int) -> Option<int>
    decreases text.len() + 1 - from,
{
    if from < 0 || from + pattern.len() > text.len() {
        None
    } else if occurs_at(text, pattern, from) {
        Some(from)
    } else {
        position_from(text, pattern, from + 1)
    }
}

/// The first position at which `pattern` stands in `text`.
pub open spec fn position(text: Seq<u8>, pattern: Seq<u8>) -> Option<int> {
    position_from(text, pattern, 0)
}

/// Whether the text begins with `prefix`.
pub open spec fn has_prefix(text: Seq<u8>, prefix: Seq<u8>) -> bool {
    occurs_at(text, prefix, 0)
}

/// Whether the text ends with `suffix`.
pub open spec fn has_suffix(text: Seq<u8>, suffix: Seq<u8>) -> bool {
    occurs_at(text, suffix, text.len() - suffix.len())
}

pub fn matches_at(text: &[u8], pattern: &[u8], at: usize) -> (matches: bool)
    ensures
        matches == occurs_at(text@, pattern@, at as int),
{
    if at > text.len() || pattern.len() > text.len() - at {
        return false;
    }
    let mut index: usize = 0;
    while index < pattern.len()
        invariant
            index <= pattern.len(),
            at + pattern.len() <= text.len(),
            forall|i: int| 0 <= i < index ==> text@[at + i] == #[trigger] pattern@[i],
        decreases pattern.len() - index,
    {
        if text[at + index] != pattern[index] {
            assert(text@.subrange(at as int, at + pattern.len())[index as int] != pattern@[
                index as int
            ]);
            return false;
        }
        index += 1;
    }
    assert(text@.subrange(at as int, at + pattern.len()) =~= pattern@);
    true
}

/// Finds the first occurrence of a pattern.
pub fn find(text: &[u8], pattern: &[u8]) -> (found: Option<usize>)
    ensures
        match found {
            Some(at) => position(text@, pattern@) == Some(at as int) && at + pattern.len()
                <= text.len() && occurs_at(text@, pattern@, at as int),
            None => position(text@, pattern@) is None,
        },
{
    if pattern.len() > text.len() {
        return None;
    }
    let last: usize = text.len() - pattern.len();
    let mut at: usize = 0;
    loop
        invariant
            at <= last,
            last + pattern.len() == text.len(),
            position(text@, pattern@) == position_from(text@, pattern@, at as int),
        decreases last - at,
    {
        if matches_at(text, pattern, at) {
            return Some(at);
        }
        if at == last {
            assert(position_from(text@, pattern@, at + 1) is None);
            return None;
        }
        at += 1;
    }
}

/// A part of a byte string.
pub fn part(text: &[u8], from: usize, to: usize) -> (piece: &[u8])
    requires
        from <= to <= text.len(),
    ensures
        piece@ == text@.subrange(from as int, to as int),
{
    vstd::slice::slice_subrange(text, from, to)
}

/// Whether two byte strings are the same.
pub fn same(left: &[u8], right: &[u8]) -> (equal: bool)
    ensures
        equal == (left@ == right@),
{
    let equal = left.len() == right.len() && matches_at(left, right, 0);
    assert(left@.subrange(0, left.len() as int) =~= left@);
    equal
}

pub proof fn lemma_position_from(text: Seq<u8>, pattern: Seq<u8>, from: int, at: int)
    requires
        0 <= from <= at,
        at + pattern.len() <= text.len(),
        text.subrange(at, at + pattern.len()) == pattern,
        forall|i: int| from <= i < at ==> #[trigger] text.subrange(i, i + pattern.len()) != pattern,
    ensures
        position_from(text, pattern, from) == Some(at),
    decreases at - from,
{
    if from < at {
        assert(text.subrange(from, from + pattern.len()) != pattern);
        lemma_position_from(text, pattern, from + 1, at);
    }
}

pub proof fn lemma_no_position_from(text: Seq<u8>, pattern: Seq<u8>, from: int)
    requires
        0 <= from,
        forall|i: int|
            from <= i && i + pattern.len() <= text.len() ==> #[trigger] text.subrange(
                i,
                i + pattern.len(),
            ) != pattern,
    ensures
        position_from(text, pattern, from) is None,
    decreases text.len() + 1 - from,
{
    if from + pattern.len() <= text.len() {
        assert(text.subrange(from, from + pattern.len()) != pattern);
        lemma_no_position_from(text, pattern, from + 1);
    }
}

/// A pattern is found where it stands and does not stand earlier.
pub proof fn law_first_occurrence_is_found(
    text: &[u8],
    pattern: &[u8],
    at: int,
    found: Option<usize>,
)
    requires
        call_ensures(crate::text::find, (text, pattern), found),
        0 <= at,
        at + pattern@.len() <= text@.len(),
        text@.subrange(at, at + pattern@.len()) == pattern@,
        forall|i: int|
            0 <= i < at ==> #[trigger] text@.subrange(i, i + pattern@.len()) != pattern@,
    ensures
        found matches Some(position) && position == at,
        position(text@, pattern@) == Some(at),
{
    lemma_position_from(text@, pattern@, 0, at);
}

/// A pattern that stands nowhere is not found.
pub proof fn law_absent_patterns_are_not_found(
    text: &[u8],
    pattern: &[u8],
    found: Option<usize>,
)
    requires
        call_ensures(crate::text::find, (text, pattern), found),
        forall|i: int|
            0 <= i && i + pattern@.len() <= text@.len() ==> #[trigger] text@.subrange(
                i,
                i + pattern@.len(),
            ) != pattern@,
    ensures
        found is None,
        position(text@, pattern@) is None,
{
    lemma_no_position_from(text@, pattern@, 0);
}

/// Where a pattern is found it stands, and it stands nowhere before.
pub proof fn law_found_patterns_are_there(text: Seq<u8>, pattern: Seq<u8>, from: int)
    requires
        0 <= from,
    ensures
        position_from(text, pattern, from) matches Some(at) ==> {
            &&& from <= at
            &&& at + pattern.len() <= text.len()
            &&& text.subrange(at, at + pattern.len()) == pattern
            &&& forall|i: int|
                from <= i < at ==> #[trigger] text.subrange(i, i + pattern.len()) != pattern
        },
    decreases text.len() + 1 - from,
{
    if from + pattern.len() <= text.len() && !occurs_at(text, pattern, from) {
        law_found_patterns_are_there(text, pattern, from + 1);
    }
}

/// A number in decimal, as bytes.
pub open spec fn decimal_bytes(number: nat) -> Seq<u8> {
    decimal_text(number).map_values(|digit: char| digit as u8)
}

/// The decimal text of a number is made of digits, reads back as that number, and has no leading
/// zero but for zero itself.
pub proof fn law_decimal_text_reads_back(number: nat)
    ensures
        decimal_text(number).len() > 0,
        forall|i: int|
            0 <= i < decimal_text(number).len() ==> '0' <= #[trigger] decimal_text(number)[i]
                <= '9',
        crate::numeral::value_of(decimal_bytes(number)) == number,
        number > 0 ==> decimal_text(number)[0] != '0',
        number == 0 ==> decimal_text(number) == seq!['0'],
    decreases number,
{
    let text = decimal_text(number);
    let bytes = decimal_bytes(number);
    if number < 10 {
        assert(bytes.drop_last() =~= Seq::empty());
        assert(bytes.last() == text[0] as u8);
        assert(crate::numeral::value_of(Seq::empty()) == 0);
    } else {
        law_decimal_text_reads_back(number / 10);
        let shorter = decimal_text(number / 10);
        assert(bytes.drop_last() =~= decimal_bytes(number / 10));
        assert(bytes.last() == digit_char(number % 10) as u8);
        assert(text[0] == shorter[0]);
        assert forall|i: int| 0 <= i < text.len() implies '0' <= #[trigger] text[i] <= '9' by {
            if i < shorter.len() {
                assert(text[i] == shorter[i]);
            }
        }
    }
}

/// The text of a number of either sign is that of its magnitude, behind a minus for a negative one.
pub proof fn law_signed_text_shows_the_sign(number: int)
    ensures
        number >= 0 ==> signed_text(number) == decimal_text(number as nat),
        number < 0 ==> {
            &&& signed_text(number).len() == decimal_text((-number) as nat).len() + 1
            &&& signed_text(number)[0] == '-'
            &&& signed_text(number).skip(1) == decimal_text((-number) as nat)
        },
{
    reveal_strlit("-");
    if number < 0 {
        assert(signed_text(number).skip(1) =~= decimal_text((-number) as nat));
    }
}

} // verus!
