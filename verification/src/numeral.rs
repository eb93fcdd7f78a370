//! Numerals: decimal whole numbers, and which texts denote a finite double-precision number.

use vstd::arithmetic::power::*;
use vstd::arithmetic::power2::*;
use vstd::prelude::*;
use vstd::string::*;

use crate::text::part;

verus! {

/// What a text denotes when read as a floating-point number.
#[derive(Clone, Copy, Debug, PartialEq, Eq, Structural)]
pub enum NumeralKind {
    NotNumeric,
    /// An infinity, not a number, or a decimal that rounds to an infinity.
    NotFinite,
    Finite,
}

/// A decimal: its digits, and the power of ten that the last of them counts.
#[verifier::ext_equal]
pub struct DecimalView {
    pub digits: Seq<u8>,
    pub exponent: int,
}

pub open spec fn is_digit(byte: u8) -> bool {
    48 <= byte <= 57
}

pub open spec fn all_digits(text: Seq<u8>) -> bool {
    forall|i: int| 0 <= i < text.len() ==> is_digit(#[trigger] text[i])
}

/// How many digits stand in a row from a position on.
pub open spec fn digit_run(text: Seq<u8>, from: int) -> int
    decreases text.len() - from,
{
    if 0 <= from < text.len() && is_digit(text[from]) {
        1 + digit_run(text, from + 1)
    } else {
        0
    }
}

/// The number that a row of digits denotes.
pub open spec fn value_of(digits: Seq<u8>) -> int
    decreases digits.len(),
{
    if digits.len() == 0 {
        0
    } else {
        value_of(digits.drop_last()) * 10 + (digits.last() - 48)
    }
}

pub open spec fn is_sign(byte: u8) -> bool {
    byte == 43 || byte == 45
}

/// The text without its leading sign, if it has one.
pub open spec fn unsigned(text: Seq<u8>) -> Seq<u8> {
    if text.len() > 0 && is_sign(text[0]) {
        text.skip(1)
    } else {
        text
    }
}

pub open spec fn lower_case(byte: u8) -> u8 {
    if 65 <= byte <= 90 {
        (byte + 32) as u8
    } else {
        byte
    }
}

/// Whether the text is a word, in upper or lower case.
pub open spec fn is_word(text: Seq<u8>, word: Seq<u8>) -> bool {
    text.map_values(|byte: u8| lower_case(byte)) == word
}

/// The exponent that the rest of a numeral after its digits denotes.
pub open spec fn exponent_of(rest: Seq<u8>) -> Option<int> {
    if rest.len() == 0 {
        Some(0)
    } else {
        let digits = unsigned(rest.skip(1));
        if lower_case(rest[0]) == 101 && digits.len() > 0 && all_digits(digits) {
            Some(
                if rest[1] == 45 {
                    -value_of(digits)
                } else {
                    value_of(digits)
                },
            )
        } else {
            None
        }
    }
}

/// The decimal that an unsigned numeral denotes: digits with at most one point among or around
/// them, and optionally an exponent.
pub open spec fn decimal_of(text: Seq<u8>) -> Option<DecimalView> {
    let whole = digit_run(text, 0);
    let pointed = whole < text.len() && text[whole] == 46;
    let fraction = if pointed {
        digit_run(text, whole + 1)
    } else {
        0
    };
    let start = if pointed {
        whole + 1
    } else {
        whole
    };
    if whole + fraction == 0 {
        None
    } else {
        match exponent_of(text.skip(start + fraction)) {
            Some(exponent) => Some(
                DecimalView {
                    digits: text.take(whole) + text.subrange(start, start + fraction),
                    exponent: exponent - fraction,
                },
            ),
            None => None,
        }
    }
}

/// The least number that rounds to an infinity: half a step above the largest double.
pub open spec fn double_limit() -> int {
    pow2(1024) - pow2(970)
}

/// Whether a decimal rounds to an infinity.
pub open spec fn too_large(decimal: DecimalView) -> bool {
    if decimal.exponent >= 0 {
        value_of(decimal.digits) * pow(10, decimal.exponent as nat) >= double_limit()
    } else {
        value_of(decimal.digits) >= double_limit() * pow(10, (-decimal.exponent) as nat)
    }
}

/// What a text denotes when read as a floating-point number.
pub open spec fn kind_of(text: Seq<u8>) -> NumeralKind {
    let body = unsigned(text);
    if is_word(body, "inf".spec_bytes()) || is_word(body, "infinity".spec_bytes()) || is_word(
        body,
        "nan".spec_bytes(),
    ) {
        NumeralKind::NotFinite
    } else {
        match decimal_of(body) {
            None => NumeralKind::NotNumeric,
            Some(decimal) => if too_large(decimal) {
                NumeralKind::NotFinite
            } else {
                NumeralKind::Finite
            },
        }
    }
}

/// The number that limbs of 64 bits denote, the least significant first.
pub open spec fn limbs_value(limbs: Seq<u64>) -> int
    decreases limbs.len(),
{
    if limbs.len() == 0 {
        0
    } else {
        limbs_value(limbs.drop_last()) + limbs.last() * pow2((64 * (limbs.len() - 1)) as nat)
    }
}

proof fn lemma_digit_run(text: Seq<u8>, from: int)
    requires
        0 <= from <= text.len(),
    ensures
        0 <= digit_run(text, from) <= text.len() - from,
        forall|i: int| from <= i < from + digit_run(text, from) ==> is_digit(#[trigger] text[i]),
        from + digit_run(text, from) < text.len() ==> !is_digit(
            text[from + digit_run(text, from)],
        ),
    decreases text.len() - from,
{
    if from < text.len() && is_digit(text[from]) {
        lemma_digit_run(text, from + 1);
    }
}

pub proof fn lemma_value_bounds(digits: Seq<u8>)
    requires
        all_digits(digits),
    ensures
        0 <= value_of(digits) < pow(10, digits.len()),
        digits.len() > 0 && digits[0] != 48 ==> value_of(digits) >= pow(
            10,
            (digits.len() - 1) as nat,
        ),
    decreases digits.len(),
{
    lemma_pow0(10);
    if digits.len() > 0 {
        let front = digits.drop_last();
        assert forall|i: int| 0 <= i < front.len() implies is_digit(#[trigger] front[i]) by {
            assert(front[i] == digits[i]);
        }
        lemma_value_bounds(front);
        assert(is_digit(digits[digits.len() - 1]));
        lemma_pow_adds(10, front.len(), 1);
        lemma_pow1(10);
        if front.len() > 0 && digits[0] != 48 {
            assert(front[0] == digits[0]);
            lemma_pow_adds(10, (front.len() - 1) as nat, 1);
        }
    }
}

proof fn lemma_value_concat(high: Seq<u8>, low: Seq<u8>)
    ensures
        value_of(high + low) == value_of(high) * pow(10, low.len()) + value_of(low),
    decreases low.len(),
{
    lemma_pow0(10);
    if low.len() == 0 {
        assert(high + low =~= high);
    } else {
        let front = low.drop_last();
        lemma_value_concat(high, front);
        assert((high + low).drop_last() =~= high + front);
        assert((high + low).last() == low.last());
        lemma_pow_adds(10, front.len(), 1);
        lemma_pow1(10);
        let scale = pow(10, front.len());
        assert((value_of(high) * scale + value_of(front)) * 10 == value_of(high) * (scale * 10)
            + value_of(front) * 10) by (nonlinear_arith);
    }
}

proof fn lemma_zeros(digits: Seq<u8>)
    requires
        forall|i: int| 0 <= i < digits.len() ==> #[trigger] digits[i] == 48,
    ensures
        value_of(digits) == 0,
    decreases digits.len(),
{
    if digits.len() > 0 {
        let front = digits.drop_last();
        assert forall|i: int| 0 <= i < front.len() implies #[trigger] front[i] == 48 by {
            assert(front[i] == digits[i]);
        }
        lemma_zeros(front);
        assert(digits[digits.len() - 1] == 48);
    }
}

proof fn lemma_pow_of_larger_base(low: int, high: int, exponent: nat)
    requires
        0 <= low <= high,
    ensures
        0 <= pow(low, exponent) <= pow(high, exponent),
    decreases exponent,
{
    if exponent == 0 {
        lemma_pow0(low);
        lemma_pow0(high);
    } else {
        let less = (exponent - 1) as nat;
        lemma_pow_of_larger_base(low, high, less);
        lemma_pow_adds(low, 1, less);
        lemma_pow_adds(high, 1, less);
        lemma_pow1(low);
        lemma_pow1(high);
        let x = pow(low, less);
        let y = pow(high, less);
        assert(0 <= low * x <= high * y) by (nonlinear_arith)
            requires
                0 <= low <= high,
                0 <= x <= y,
        ;
    }
}

/// 309 decimal digits reach past the largest double and fit into 17 limbs.
proof fn lemma_limits()
    ensures
        0 < double_limit() < pow(10, 309) < pow2(1088),
        double_limit() == 0x3f_ffff_ffff_ffff * pow2(970),
{
    lemma2_to64();
    lemma2_to64_rest();
    lemma_pow2_adds(54, 970);
    lemma_pow2_pos(970);
    assert(pow2(54) == 0x40_0000_0000_0000);
    let step = pow2(970) as int;
    assert(0x40_0000_0000_0000 * step - step == 0x3f_ffff_ffff_ffff * step);
    // 2^1023 < 10^308
    assert(pow(10, 7) == 10_000_000) by {
        reveal_with_fuel(pow, 8);
    }
    lemma_pow_adds(10, 7, 7);
    lemma_pow_adds(10, 14, 14);
    let p7 = pow(10, 7);
    let p14 = pow(10, 14);
    assert(p7 * p7 == 100_000_000_000_000) by (nonlinear_arith)
        requires
            p7 == 10_000_000,
    ;
    assert(p14 * p14 == 10_000_000_000_000_000_000_000_000_000) by (nonlinear_arith)
        requires
            p14 == 100_000_000_000_000,
    ;
    assert(pow(10, 28) == 10_000_000_000_000_000_000_000_000_000);
    lemma_pow2_adds(31, 62);
    assert(pow2(93) == 0x8000_0000 * 0x4000_0000_0000_0000);
    lemma_pow_of_larger_base(pow2(93) as int, pow(10, 28), 11);
    lemma_pow_multiplies(10, 28, 11);
    lemma_pow2(93);
    lemma_pow_multiplies(2, 93, 11);
    lemma_pow2(1023);
    lemma_pow2_adds(1023, 1);
    lemma_pow_adds(10, 308, 1);
    lemma_pow1(10);
    lemma_pow_positive(10, 308);
    // 10^309 < 2^1030
    lemma_pow_adds(10, 3, 4);
    assert(pow(10, 3) == 1000) by {
        reveal_with_fuel(pow, 4);
    }
    lemma_pow_of_larger_base(pow(10, 3), pow2(10) as int, 103);
    lemma_pow_multiplies(10, 3, 103);
    lemma_pow2(10);
    lemma_pow_multiplies(2, 10, 103);
    lemma_pow2(1030);
    lemma_pow2_strictly_increases(1030, 1088);
}

proof fn lemma_limbs_bound(limbs: Seq<u64>)
    ensures
        0 <= limbs_value(limbs) < pow2((64 * limbs.len()) as nat),
    decreases limbs.len(),
{
    lemma2_to64();
    if limbs.len() > 0 {
        lemma_limbs_bound(limbs.drop_last());
        let scale = pow2((64 * (limbs.len() - 1)) as nat) as int;
        lemma_pow2_adds((64 * (limbs.len() - 1)) as nat, 64);
        lemma2_to64_rest();
        let top = limbs.last() as int;
        let below = limbs_value(limbs.drop_last());
        assert(0 <= below + top * scale < scale * 0x1_0000_0000_0000_0000) by (nonlinear_arith)
            requires
                0 <= below < scale,
                0 <= top <= 0xffff_ffff_ffff_ffff,
        ;
    }
}

/// Appends a decimal digit to the number that 17 limbs denote.
fn append_digit(limbs: &mut Vec<u64>, digit: u64)
    requires
        old(limbs).len() == 17,
        digit < 10,
        10 * limbs_value(old(limbs)@) + digit < pow2(1088),
    ensures
        final(limbs).len() == 17,
        limbs_value(final(limbs)@) == 10 * limbs_value(old(limbs)@) + digit,
{
    let ghost before = limbs@;
    let mut carry: u64 = digit;
    let mut index: usize = 0;
    proof {
        lemma2_to64();
        let unit = pow2(0) as int;
        assert(carry * unit == carry) by (nonlinear_arith)
            requires
                unit == 1,
        ;
        assert(limbs_value(limbs@.take(0)) == 0);
        assert(limbs_value(before.take(0)) == 0);
    }
    while index < 17
        invariant
            index <= 17,
            limbs.len() == 17,
            before.len() == 17,
            carry < 10,
            forall|i: int| index <= i < 17 ==> limbs@[i] == before[i],
            limbs_value(limbs@.take(index as int)) + carry * pow2((64 * index) as nat) == 10
                * limbs_value(before.take(index as int)) + digit,
        decreases 17 - index,
    {
        let ghost done = limbs@;
        let limb: u64 = limbs[index];
        let product: u128 = (limb as u128) * 10 + carry as u128;
        let low: u64 = (product % 0x1_0000_0000_0000_0000) as u64;
        let next: u64 = (product / 0x1_0000_0000_0000_0000) as u64;
        limbs[index] = low;
        proof {
            let at = index as int;
            let scale = pow2((64 * index) as nat) as int;
            lemma2_to64_rest();
            lemma_pow2_adds((64 * index) as nat, 64);
            assert(limbs@.take(at + 1).drop_last() =~= done.take(at));
            assert(before.take(at + 1).drop_last() =~= before.take(at));
            assert(low + next * 0x1_0000_0000_0000_0000 == limb * 10 + carry);
            assert((low + next * 0x1_0000_0000_0000_0000) * scale == low * scale + next * (scale
                * 0x1_0000_0000_0000_0000)) by (nonlinear_arith);
            assert((limb * 10 + carry) * scale == 10 * (limb * scale) + carry * scale)
                by (nonlinear_arith);
        }
        carry = next;
        index += 1;
    }
    proof {
        assert(limbs@.take(17) =~= limbs@);
        assert(before.take(17) =~= before);
        lemma_limbs_bound(limbs@);
        lemma_pow2_pos(1088);
        let scale = pow2(1088) as int;
        assert(carry == 0) by (nonlinear_arith)
            requires
                0 <= carry,
                scale > 0,
                carry * scale < scale,
        ;
    }
}

/// Whether the number that 17 limbs denote rounds to an infinity.
fn reaches_limit(limbs: &Vec<u64>) -> (reached: bool)
    requires
        limbs.len() == 17,
    ensures
        reached == (limbs_value(limbs@) >= double_limit()),
{
    let top: u128 = (limbs[16] as u128) * 0x1_0000_0000_0000_0000 + limbs[15] as u128;
    proof {
        lemma_limits();
        lemma2_to64();
        lemma2_to64_rest();
        lemma_pow2_adds(960, 64);
        lemma_pow2_adds(960, 10);
        lemma_pow2_pos(960);
        let low = limbs@.take(15);
        let scale = pow2(960) as int;
        lemma_limbs_bound(low);
        assert(limbs@.drop_last().drop_last() =~= low);
        assert(limbs@.drop_last().last() == limbs@[15]);
        let rest = limbs_value(low);
        let l15 = limbs@[15] as int;
        let l16 = limbs@[16] as int;
        reveal_with_fuel(limbs_value, 3);
        assert(limbs_value(limbs@) == rest + l15 * scale + l16 * (scale * 0x1_0000_0000_0000_0000));
        assert(l15 * scale + l16 * (scale * 0x1_0000_0000_0000_0000) == (l16
            * 0x1_0000_0000_0000_0000 + l15) * scale) by (nonlinear_arith);
        let goal: int = 0x3f_ffff_ffff_ffffint * 0x400int;
        let upper = top as int;
        assert(double_limit() == goal * scale);
        assert((rest + upper * scale >= goal * scale) == (upper >= goal)) by (nonlinear_arith)
            requires
                0 <= rest < scale,
        ;
    }
    top >= 0x3f_ffff_ffff_ffff * 0x400
}

/// The digits that count whole units when a decimal begins with `digits` and has `whole` places
/// before its point.
spec fn whole_digits(digits: Seq<u8>, whole: nat) -> Seq<u8> {
    Seq::new(
        whole,
        |i: int|
            if i < digits.len() {
                digits[i]
            } else {
                48
            },
    )
}

/// A decimal with at most 309 places before its point rounds to an infinity exactly if its whole
/// part reaches the limit; with more places it always does, unless it is zero.
proof fn lemma_too_large(digits: Seq<u8>, exponent: int)
    requires
        digits.len() > 0,
        all_digits(digits),
        digits[0] != 48,
    ensures
        ({
            let places = digits.len() + exponent;
            &&& places > 309 ==> too_large(DecimalView { digits, exponent })
            &&& places <= 0 ==> !too_large(DecimalView { digits, exponent })
            &&& 0 < places <= 309 ==> (too_large(DecimalView { digits, exponent }) <==> value_of(
                whole_digits(digits, places as nat),
            ) >= double_limit())
        }),
{
    lemma_limits();
    lemma_value_bounds(digits);
    let places = digits.len() + exponent;
    let value = value_of(digits);
    let limit = double_limit();
    if exponent >= 0 {
        let scale = pow(10, exponent as nat);
        lemma_pow_positive(10, exponent as nat);
        if places > 309 {
            let least = pow(10, (digits.len() - 1) as nat);
            lemma_pow_adds(10, (digits.len() - 1) as nat, exponent as nat);
            lemma_pow_increases(10, 309, (places - 1) as nat);
            assert(value * scale >= least * scale) by (nonlinear_arith)
                requires
                    value >= least,
                    scale > 0,
            ;
        } else {
            let zeros = Seq::new(exponent as nat, |i: int| 48u8);
            lemma_zeros(zeros);
            lemma_value_concat(digits, zeros);
            assert(whole_digits(digits, places as nat) =~= digits + zeros);
        }
    } else {
        let cut = (-exponent) as nat;
        let scale = pow(10, cut);
        lemma_pow_positive(10, cut);
        if places > 309 {
            lemma_pow_adds(10, (places - 1) as nat, cut);
            lemma_pow_increases(10, 309, (places - 1) as nat);
            let most = pow(10, (places - 1) as nat);
            assert(most * scale >= limit * scale) by (nonlinear_arith)
                requires
                    most >= limit,
                    scale > 0,
            ;
        } else if places <= 0 {
            lemma_pow_increases(10, digits.len(), cut);
            assert(limit * scale >= scale) by (nonlinear_arith)
                requires
                    limit >= 1,
                    scale > 0,
            ;
        } else {
            let high = digits.take(places);
            let low = digits.skip(places);
            assert(high + low =~= digits);
            assert(whole_digits(digits, places as nat) =~= high);
            assert forall|i: int| 0 <= i < low.len() implies is_digit(#[trigger] low[i]) by {
                assert(low[i] == digits[places + i]);
            }
            lemma_value_concat(high, low);
            lemma_value_bounds(low);
            let whole = value_of(high);
            let rest = value_of(low);
            assert((whole * scale + rest >= limit * scale) == (whole >= limit))
                by (nonlinear_arith)
                requires
                    0 <= rest < scale,
            ;
        }
    }
}

/// Whether the decimal rounds to an infinity.
fn exceeds(digits: &Vec<u8>, exponent: i128) -> (exceeded: bool)
    requires
        all_digits(digits@),
        -0x1000_0000_0000_0000_0000_0000_0000 < exponent < 0x1000_0000_0000_0000_0000_0000_0000,
    ensures
        exceeded == too_large(DecimalView { digits: digits@, exponent: exponent as int }),
{
    let mut first: usize = 0;
    while first < digits.len() && digits[first] == 48
        invariant
            first <= digits.len(),
            forall|i: int| 0 <= i < first ==> #[trigger] digits@[i] == 48,
        decreases digits.len() - first,
    {
        first += 1;
    }
    let ghost significant = digits@.skip(first as int);
    proof {
        lemma_zeros(digits@.take(first as int));
        lemma_value_concat(digits@.take(first as int), significant);
        assert(digits@.take(first as int) + significant =~= digits@);
        lemma_limits();
    }
    if first == digits.len() {
        proof {
            lemma_zeros(significant);
            lemma_zero_is_small(digits@, exponent as int);
        }
        return false;
    }
    let count: usize = digits.len() - first;
    let places: i128 = count as i128 + exponent;
    proof {
        assert forall|i: int| 0 <= i < significant.len() implies is_digit(
            #[trigger] significant[i],
        ) by {
            assert(significant[i] == digits@[first + i]);
        }
        lemma_too_large(significant, exponent as int);
        assert(value_of(digits@) == value_of(significant));
    }
    if places > 309 {
        return true;
    }
    if places <= 0 {
        return false;
    }
    let wanted: usize = places as usize;
    let ghost kept = whole_digits(significant, places as nat);
    let mut limbs: Vec<u64> = Vec::new();
    while limbs.len() < 17
        invariant
            limbs.len() <= 17,
            limbs_value(limbs@) == 0,
        decreases 17 - limbs.len(),
    {
        let ghost before = limbs@;
        limbs.push(0);
        proof {
            assert(limbs@.drop_last() =~= before);
            assert(0 * pow2((64 * (limbs@.len() - 1)) as nat) == 0);
        }
    }
    let mut index: usize = 0;
    assert(kept.take(0) =~= Seq::empty());
    while index < wanted
        invariant
            index <= wanted <= 309,
            first + count == digits.len(),
            count == significant.len(),
            significant == digits@.skip(first as int),
            all_digits(digits@),
            kept == whole_digits(significant, wanted as nat),
            all_digits(kept),
            limbs.len() == 17,
            limbs_value(limbs@) == value_of(kept.take(index as int)),
            pow(10, 309) < pow2(1088),
        decreases wanted - index,
    {
        let digit: u64 = if index < count {
            assert(is_digit(digits@[first + index]));
            (digits[first + index] - 48) as u64
        } else {
            0
        };
        proof {
            let next = kept.take(index + 1);
            assert(next.drop_last() =~= kept.take(index as int));
            assert(next.last() == digit + 48);
            assert forall|i: int| 0 <= i < next.len() implies is_digit(#[trigger] next[i]) by {
                assert(next[i] == kept[i]);
            }
            lemma_value_bounds(next);
            lemma_pow_increases(10, next.len(), 309);
        }
        append_digit(&mut limbs, digit);
        index += 1;
    }
    assert(kept.take(wanted as int) =~= kept);
    reaches_limit(&limbs)
}

fn is_digit_byte(byte: u8) -> (digit: bool)
    ensures
        digit == is_digit(byte),
{
    48 <= byte && byte <= 57
}

fn is_sign_byte(byte: u8) -> (sign: bool)
    ensures
        sign == is_sign(byte),
{
    byte == 43 || byte == 45
}

fn lower(byte: u8) -> (lowered: u8)
    ensures
        lowered == lower_case(byte),
{
    if 65 <= byte && byte <= 90 {
        byte + 32
    } else {
        byte
    }
}

fn spells(text: &[u8], word: &[u8]) -> (spelled: bool)
    ensures
        spelled == is_word(text@, word@),
{
    let ghost lowered = text@.map_values(|byte: u8| lower_case(byte));
    if text.len() != word.len() {
        return false;
    }
    let mut index: usize = 0;
    while index < text.len()
        invariant
            index <= text.len(),
            text.len() == word.len(),
            lowered == text@.map_values(|byte: u8| lower_case(byte)),
            forall|i: int| 0 <= i < index ==> lowered[i] == #[trigger] word@[i],
        decreases text.len() - index,
    {
        if lower(text[index]) != word[index] {
            assert(lowered[index as int] != word@[index as int]);
            return false;
        }
        index += 1;
    }
    assert(lowered =~= word@);
    true
}

/// The end of the row of digits that begins at a position.
fn digits_end(text: &[u8], from: usize) -> (end: usize)
    requires
        from <= text.len(),
    ensures
        end == from + digit_run(text@, from as int),
        from <= end <= text.len(),
{
    let mut end: usize = from;
    while end < text.len() && is_digit_byte(text[end])
        invariant
            from <= end <= text.len(),
            from + digit_run(text@, from as int) == end + digit_run(text@, end as int),
        decreases text.len() - end,
    {
        end += 1;
    }
    end
}

/// Reads the exponent of a numeral. One that is too large to be told apart from others as large is
/// given as some number of that size.
fn exponent(rest: &[u8]) -> (found: Option<i128>)
    ensures
        match (found, exponent_of(rest@)) {
            (None, None) => true,
            (Some(exact), Some(wanted)) => {
                &&& -10_000_000_000_000_000_000_000_000_000_000 < exact
                    < 10_000_000_000_000_000_000_000_000_000_000
                &&& exact == wanted || 1_000_000_000_000_000_000_000_000_000_000 <= exact <= wanted
                    || wanted <= exact <= -1_000_000_000_000_000_000_000_000_000_000
            },
            _ => false,
        },
{
    if rest.len() == 0 {
        return Some(0);
    }
    let signed = rest.len() > 1 && is_sign_byte(rest[1]);
    let start: usize = if signed {
        2
    } else {
        1
    };
    let ghost digits = unsigned(rest@.skip(1));
    assert(digits =~= rest@.skip(start as int));
    if lower(rest[0]) != 101 || rest.len() == start {
        return None;
    }
    let mut magnitude: i128 = 0;
    let mut index: usize = start;
    assert(digits.take(0) =~= Seq::empty());
    while index < rest.len()
        invariant
            start <= index <= rest.len(),
            1 <= start <= 2,
            digits == rest@.skip(start as int),
            digits == unsigned(rest@.skip(1)),
            forall|i: int| 0 <= i < index - start ==> is_digit(#[trigger] digits[i]),
            0 <= magnitude < 10_000_000_000_000_000_000_000_000_000_000,
            magnitude == value_of(digits.take(index - start))
                || 1_000_000_000_000_000_000_000_000_000_000 <= magnitude <= value_of(
                digits.take(index - start),
            ),
        decreases rest.len() - index,
    {
        let byte = rest[index];
        assert(byte == digits[index - start]);
        if !is_digit_byte(byte) {
            assert(!all_digits(digits));
            return None;
        }
        proof {
            let next = digits.take(index + 1 - start);
            assert(next.drop_last() =~= digits.take(index - start));
            assert(next.last() == byte);
        }
        if magnitude < 1_000_000_000_000_000_000_000_000_000_000 {
            magnitude = magnitude * 10 + (byte - 48) as i128;
        }
        index += 1;
    }
    assert(digits.take(digits.len() as int) =~= digits);
    if rest[1] == 45 {
        Some(-magnitude)
    } else {
        Some(magnitude)
    }
}

/// A decimal with an exponent beyond any length of text rounds as with any other such exponent.
proof fn lemma_huge_exponent(digits: Seq<u8>, one: int, other: int)
    requires
        all_digits(digits),
        digits.len() <= 0xffff_ffff_ffff_ffff,
        one >= 0x1_0000_0000_0000_0000 && other >= 0x1_0000_0000_0000_0000 || one
            <= -0x1_0000_0000_0000_0000 && other <= -0x1_0000_0000_0000_0000,
    ensures
        too_large(DecimalView { digits, exponent: one }) == too_large(
            DecimalView { digits, exponent: other },
        ),
    decreases digits.len(),
{
    lemma_limits();
    if digits.len() == 0 || digits[0] == 48 {
        if digits.len() == 0 {
            lemma_zero_is_small(digits, one);
            lemma_zero_is_small(digits, other);
        } else {
            let rest = digits.skip(1);
            assert(digits.take(1) + rest =~= digits);
            lemma_zeros(digits.take(1));
            lemma_value_concat(digits.take(1), rest);
            assert forall|i: int| 0 <= i < rest.len() implies is_digit(#[trigger] rest[i]) by {
                assert(rest[i] == digits[i + 1]);
            }
            lemma_huge_exponent(rest, one, other);
            assert(value_of(digits) == value_of(rest));
        }
    } else {
        lemma_too_large(digits, one);
        lemma_too_large(digits, other);
    }
}

proof fn lemma_zero_is_small(digits: Seq<u8>, exponent: int)
    requires
        value_of(digits) == 0,
    ensures
        !too_large(DecimalView { digits, exponent }),
{
    lemma_limits();
    if exponent >= 0 {
        assert(0 * pow(10, exponent as nat) == 0);
    } else {
        let scale = pow(10, (-exponent) as nat);
        lemma_pow_positive(10, (-exponent) as nat);
        let limit = double_limit();
        assert(limit * scale > 0) by (nonlinear_arith)
            requires
                limit > 0,
                scale > 0,
        ;
    }
}

/// The digits of a numeral, without the point among them.
fn digits_of(body: &[u8], whole: usize, start: usize, end: usize) -> (digits: Vec<u8>)
    requires
        whole <= start <= end <= body.len(),
    ensures
        digits@ == body@.take(whole as int) + body@.subrange(start as int, end as int),
{
    let mut digits: Vec<u8> = Vec::new();
    digits.extend_from_slice(part(body, 0, whole));
    digits.extend_from_slice(part(body, start, end));
    assert(digits@ =~= body@.take(whole as int) + body@.subrange(start as int, end as int));
    digits
}

/// Whether a decimal rounds to an infinity, given an exponent as it was read.
fn rounds_to_infinity(digits: &Vec<u8>, shift: i128, fraction: usize, wanted: Ghost<int>) -> (too:
    bool)
    requires
        all_digits(digits@),
        -10_000_000_000_000_000_000_000_000_000_000 < shift
            < 10_000_000_000_000_000_000_000_000_000_000,
        shift == wanted@ || 1_000_000_000_000_000_000_000_000_000_000 <= shift <= wanted@
            || wanted@ <= shift <= -1_000_000_000_000_000_000_000_000_000_000,
    ensures
        too == too_large(DecimalView { digits: digits@, exponent: wanted@ - fraction }),
{
    let scale: i128 = shift - fraction as i128;
    proof {
        if shift != wanted@ {
            assert(digits.len() <= usize::MAX);
            lemma_huge_exponent(digits@, scale as int, wanted@ - fraction);
        }
    }
    exceeds(digits, scale)
}

fn unsigned_kind(body: &[u8]) -> (kind: NumeralKind)
    ensures
        kind == match decimal_of(body@) {
            None => NumeralKind::NotNumeric,
            Some(decimal) => if too_large(decimal) {
                NumeralKind::NotFinite
            } else {
                NumeralKind::Finite
            },
        },
{
    proof {
        lemma_digit_run(body@, 0);
    }
    let whole: usize = digits_end(body, 0);
    let pointed = whole < body.len() && body[whole] == 46;
    let start: usize = if pointed {
        whole + 1
    } else {
        whole
    };
    let end: usize = if pointed {
        digits_end(body, start)
    } else {
        start
    };
    let fraction: usize = end - start;
    if whole == 0 && fraction == 0 {
        return NumeralKind::NotNumeric;
    }
    let rest: &[u8] = part(body, end, body.len());
    assert(rest@ =~= body@.skip(end as int));
    match exponent(rest) {
        None => NumeralKind::NotNumeric,
        Some(shift) => {
            let digits = digits_of(body, whole, start, end);
            proof {
                if pointed {
                    lemma_digit_run(body@, start as int);
                }
                assert forall|i: int| 0 <= i < digits@.len() implies is_digit(
                    #[trigger] digits@[i],
                ) by {
                    if i < whole {
                        assert(digits@[i] == body@[i]);
                    } else {
                        assert(digits@[i] == body@[start + (i - whole)]);
                    }
                }
            }
            if rounds_to_infinity(&digits, shift, fraction, Ghost(exponent_of(rest@)->0)) {
                NumeralKind::NotFinite
            } else {
                NumeralKind::Finite
            }
        },
    }
}

/// Tells what a text denotes when read as a floating-point number.
pub fn numeral_kind(text: &[u8]) -> (kind: NumeralKind)
    ensures
        kind == kind_of(text@),
{
    let signed = text.len() > 0 && is_sign_byte(text[0]);
    let body: &[u8] = if signed {
        part(text, 1, text.len())
    } else {
        text
    };
    assert(body@ =~= unsigned(text@));
    if spells(body, "inf".as_bytes()) || spells(body, "infinity".as_bytes()) || spells(
        body,
        "nan".as_bytes(),
    ) {
        return NumeralKind::NotFinite;
    }
    unsigned_kind(body)
}

/// A text that denotes a finite number is made of digits, signs, points and exponent marks alone.
pub proof fn law_finite_numerals_are_plain(text: Seq<u8>)
    requires
        kind_of(text) == NumeralKind::Finite,
    ensures
        text.len() > 0,
        forall|i: int|
            0 <= i < text.len() ==> {
                let byte = #[trigger] text[i];
                48 <= byte <= 57 || byte == 43 || byte == 45 || byte == 46 || byte == 69 || byte
                    == 101
            },
{
    let body = unsigned(text);
    let whole = digit_run(body, 0);
    lemma_digit_run(body, 0);
    let pointed = whole < body.len() && body[whole] == 46;
    let start = if pointed {
        whole + 1
    } else {
        whole
    };
    let fraction = if pointed {
        digit_run(body, whole + 1)
    } else {
        0
    };
    if pointed {
        lemma_digit_run(body, whole + 1);
    }
    let rest = body.skip(start + fraction);
    let exponent_digits = unsigned(rest.skip(1));
    let signed = rest.len() > 1 && is_sign(rest[1]);
    assert forall|i: int| 0 <= i < body.len() implies {
        let byte = #[trigger] body[i];
        is_digit(byte) || is_sign(byte) || byte == 46 || byte == 69 || byte == 101
    } by {
        let at = i - (start + fraction);
        if at >= 0 {
            assert(body[i] == rest[at]);
            if at >= 2 || at == 1 && !signed {
                let digit = at - 1 - (if signed {
                    1int
                } else {
                    0int
                });
                assert(exponent_digits[digit] == rest[at]);
                assert(is_digit(exponent_digits[digit]));
            }
        }
    }
    assert forall|i: int| 0 <= i < text.len() implies {
        let byte = #[trigger] text[i];
        48 <= byte <= 57 || byte == 43 || byte == 45 || byte == 46 || byte == 69 || byte == 101
    } by {
        if text.len() > 0 && is_sign(text[0]) {
            if i > 0 {
                assert(text[i] == body[i - 1]);
            }
        } else {
            assert(text[i] == body[i]);
        }
    }
}

/// The run of digits at the beginning of a text is as long as the digits reach.
proof fn lemma_run_of(text: Seq<u8>, from: int, to: int)
    requires
        0 <= from <= to <= text.len(),
        forall|i: int| from <= i < to ==> 48 <= #[trigger] text[i] <= 57,
        to < text.len() ==> !(48 <= text[to] <= 57),
    ensures
        digit_run(text, from) == to - from,
    decreases to - from,
{
    if from < to {
        assert(48 <= text[from] <= 57);
        lemma_run_of(text, from + 1, to);
    }
}

proof fn lemma_limit_is_large()
    ensures
        pow(10, 300) <= double_limit(),
{
    lemma_limits();
    lemma2_to64();
    assert(pow(10, 3) == 1000) by {
        reveal_with_fuel(pow, 4);
    }
    lemma_pow_of_larger_base(pow(10, 3), pow2(10) as int, 100);
    lemma_pow_multiplies(10, 3, 100);
    lemma_pow2(10);
    lemma_pow_multiplies(2, 10, 100);
    lemma_pow2(1000);
    lemma_pow2_adds(30, 970);
    lemma_pow2_pos(970);
    assert(pow2(30) == 0x4000_0000);
    let step = pow2(970) as int;
    assert(0x4000_0000 * step <= 0x3f_ffff_ffff_ffff * step) by (nonlinear_arith)
        requires
            step > 0,
    ;
}

/// Which decimal an unsigned text of digits, a point and digits denotes.
proof fn lemma_plain_decimal(whole: Seq<u8>, fraction: Seq<u8>, pointed: bool)
    requires
        forall|i: int| 0 <= i < whole.len() ==> 48 <= #[trigger] whole[i] <= 57,
        forall|i: int| 0 <= i < fraction.len() ==> 48 <= #[trigger] fraction[i] <= 57,
        whole.len() + fraction.len() > 0,
        !pointed ==> fraction.len() == 0,
    ensures
        ({
            let text = whole + (if pointed {
                seq![46u8] + fraction
            } else {
                Seq::empty()
            });
            &&& unsigned(text) == text
            &&& !is_word(text, "inf".spec_bytes())
            &&& !is_word(text, "infinity".spec_bytes())
            &&& !is_word(text, "nan".spec_bytes())
            &&& decimal_of(text) == Some(
                DecimalView { digits: whole + fraction, exponent: -fraction.len() },
            )
        }),
{
    let text = whole + (if pointed {
        seq![46u8] + fraction
    } else {
        Seq::empty()
    });
    if whole.len() > 0 {
        assert(text[0] == whole[0]);
    }
    lemma_words();
    let lowered = text.map_values(|byte: u8| lower_case(byte));
    assert(lowered[0] == lower_case(text[0]));
    lemma_run_of(text, 0, whole.len() as int);
    if pointed {
        assert(text[whole.len() as int] == 46);
        assert forall|i: int| whole.len() + 1 <= i < text.len() implies 48 <= #[trigger] text[i]
            <= 57 by {
            assert(text[i] == fraction[i - whole.len() - 1]);
        }
        lemma_run_of(text, whole.len() as int + 1, text.len() as int);
        assert(text.subrange(whole.len() as int + 1, text.len() as int) =~= fraction);
    } else {
        assert(text.subrange(whole.len() as int, whole.len() as int) =~= fraction);
    }
    assert(text.take(whole.len() as int) =~= whole);
    assert(text.skip(text.len() as int) =~= Seq::empty());
}

proof fn lemma_words()
    ensures
        "inf".spec_bytes() == seq![105u8, 110, 102],
        "infinity".spec_bytes() == seq![105u8, 110, 102, 105, 110, 105, 116, 121],
        "nan".spec_bytes() == seq![110u8, 97, 110],
{
    reveal_strlit("inf");
    reveal_strlit("infinity");
    reveal_strlit("nan");
    is_ascii_spec_bytes("inf");
    is_ascii_spec_bytes("infinity");
    is_ascii_spec_bytes("nan");
    assert("inf".spec_bytes() =~= seq![105u8, 110, 102]);
    assert("infinity".spec_bytes() =~= seq![105u8, 110, 102, 105, 110, 105, 116, 121]);
    assert("nan".spec_bytes() =~= seq![110u8, 97, 110]);
}

/// Digits, optionally with a point among or around them, are a finite number, unless more than
/// three hundred of them stand before the point.
pub proof fn law_plain_decimals_are_finite(whole: Seq<u8>, fraction: Seq<u8>, pointed: bool)
    requires
        forall|i: int| 0 <= i < whole.len() ==> 48 <= #[trigger] whole[i] <= 57,
        forall|i: int| 0 <= i < fraction.len() ==> 48 <= #[trigger] fraction[i] <= 57,
        0 < whole.len() + fraction.len(),
        whole.len() <= 300,
        !pointed ==> fraction.len() == 0,
    ensures
        kind_of(
            whole + (if pointed {
                seq![46u8] + fraction
            } else {
                Seq::empty()
            }),
        ) == NumeralKind::Finite,
{
    lemma_plain_decimal(whole, fraction, pointed);
    lemma_limit_is_large();
    let digits = whole + fraction;
    assert(all_digits(digits)) by {
        assert forall|i: int| 0 <= i < digits.len() implies is_digit(#[trigger] digits[i]) by {
            if i < whole.len() {
                assert(digits[i] == whole[i]);
            } else {
                assert(digits[i] == fraction[i - whole.len()]);
            }
        }
    }
    lemma_value_bounds(digits);
    lemma_pow_adds(10, whole.len(), fraction.len());
    lemma_pow_increases(10, whole.len(), 300);
    lemma_pow_positive(10, fraction.len());
    lemma_pow0(10);
    let scale = pow(10, fraction.len());
    let high = pow(10, whole.len());
    let limit = double_limit();
    assert(high * scale <= limit * scale) by (nonlinear_arith)
        requires
            high <= limit,
            scale > 0,
    ;
    let decimal = DecimalView { digits, exponent: -(fraction.len() as int) };
    assert(value_of(digits) < limit * scale);
    assert(!too_large(decimal)) by {
        if fraction.len() == 0 {
            let value = value_of(digits);
            assert(scale == 1);
            assert(value * 1 == value && limit * 1 == limit);
        }
    }
}

/// Digits without a leading zero, more than three hundred and nine of them, are past every finite
/// number.
pub proof fn law_long_numbers_are_not_finite(whole: Seq<u8>)
    requires
        forall|i: int| 0 <= i < whole.len() ==> 48 <= #[trigger] whole[i] <= 57,
        whole.len() > 309,
        whole[0] != 48,
    ensures
        kind_of(whole) == NumeralKind::NotFinite,
{
    lemma_plain_decimal(whole, Seq::empty(), false);
    assert(whole + Seq::<u8>::empty() =~= whole);
    lemma_limits();
    assert(all_digits(whole));
    lemma_value_bounds(whole);
    lemma_pow_increases(10, 309, (whole.len() - 1) as nat);
    lemma_pow0(10);
}

/// A sign in front does not change what kind of number a text denotes.
pub proof fn law_sign_does_not_matter(text: Seq<u8>, sign: u8)
    requires
        sign == 43 || sign == 45,
        text.len() > 0 ==> text[0] != 43 && text[0] != 45,
    ensures
        kind_of(seq![sign] + text) == kind_of(text),
{
    assert(unsigned(seq![sign] + text) =~= text);
}

/// Digits with an exponent are a finite number exactly if the digits with that many zeros behind
/// them are.
pub proof fn law_exponents_append_zeros(
    digits: Seq<u8>,
    mark: u8,
    exponent: Seq<u8>,
    zeros: Seq<u8>,
)
    requires
        forall|i: int| 0 <= i < digits.len() ==> 48 <= #[trigger] digits[i] <= 57,
        forall|i: int| 0 <= i < exponent.len() ==> 48 <= #[trigger] exponent[i] <= 57,
        forall|i: int| 0 <= i < zeros.len() ==> #[trigger] zeros[i] == 48,
        digits.len() > 0,
        exponent.len() > 0,
        mark == 69 || mark == 101,
        value_of(exponent) == zeros.len(),
    ensures
        kind_of(digits + seq![mark] + exponent) == kind_of(digits + zeros),
{
    let text = digits + seq![mark] + exponent;
    let long = digits + zeros;
    lemma_plain_decimal(long, Seq::empty(), false);
    assert(long + Seq::<u8>::empty() =~= long);
    lemma_words();
    assert(text[0] == digits[0]);
    assert(48 <= digits[0] <= 57);
    let lowered = text.map_values(|byte: u8| lower_case(byte));
    assert(lowered[0] == lower_case(text[0]));
    assert(unsigned(text) == text);
    assert forall|i: int| 0 <= i < digits.len() implies 48 <= #[trigger] text[i] <= 57 by {
        assert(text[i] == digits[i]);
    }
    assert(text[digits.len() as int] == mark);
    lemma_run_of(text, 0, digits.len() as int);
    let rest = text.skip(digits.len() as int);
    assert(rest =~= seq![mark] + exponent);
    assert(rest.skip(1) =~= exponent);
    assert(rest[1] == exponent[0]);
    assert(48 <= exponent[0] <= 57);
    assert(unsigned(exponent) == exponent);
    assert(all_digits(exponent));
    assert(text.take(digits.len() as int) + text.subrange(
        digits.len() as int,
        digits.len() as int,
    ) =~= digits);
    lemma_value_concat(digits, zeros);
    lemma_zeros(zeros);
    lemma_pow0(10);
}

/// The words for infinities and for what is no number, in upper or lower case, are numeric and not
/// finite.
pub proof fn law_words_are_not_finite(text: Seq<u8>, word: Seq<u8>)
    requires
        word == "inf".spec_bytes() || word == "infinity".spec_bytes() || word == "nan".spec_bytes(),
        text.len() == word.len(),
        forall|i: int|
            0 <= i < text.len() ==> #[trigger] text[i] == word[i] || text[i] == word[i] - 32,
    ensures
        kind_of(text) == NumeralKind::NotFinite,
{
    lemma_words();
    let lowered = text.map_values(|byte: u8| lower_case(byte));
    assert forall|i: int| 0 <= i < text.len() implies #[trigger] lowered[i] == word[i] by {
        assert(text[i] == word[i] || text[i] == word[i] - 32);
    }
    assert(lowered =~= word);
    assert(text[0] == word[0] || text[0] == word[0] - 32);
    assert(unsigned(text) == text);
}

/// A text without a digit is a number only if it is one of the words, with or without a sign.
pub proof fn law_numbers_have_digits(text: Seq<u8>)
    requires
        forall|i: int| 0 <= i < text.len() ==> !(48 <= #[trigger] text[i] <= 57),
        kind_of(text) != NumeralKind::NotNumeric,
    ensures
        ({
            let body = if text.len() > 0 && (text[0] == 43 || text[0] == 45) {
                text.skip(1)
            } else {
                text
            };
            (body.len() == 3 || body.len() == 8) && kind_of(text) == NumeralKind::NotFinite
        }),
{
    lemma_words();
    let body = unsigned(text);
    assert forall|i: int| 0 <= i < body.len() implies !(48 <= #[trigger] body[i] <= 57) by {
        if text.len() > 0 && is_sign(text[0]) {
            assert(body[i] == text[i + 1]);
        } else {
            assert(body[i] == text[i]);
        }
    }
    assert(body.map_values(|byte: u8| lower_case(byte)).len() == body.len());
    lemma_run_of(body, 0, 0);
    if body.len() > 0 {
        lemma_run_of(body, 1, 1);
    }
}

/// Digits count in tens: one more digit makes ten times the number and the digit.
pub proof fn law_digits_count_in_tens(digits: Seq<u8>, digit: u8)
    requires
        48 <= digit <= 57,
    ensures
        value_of(digits.push(digit)) == 10 * value_of(digits) + (digit - 48),
        value_of(Seq::empty()) == 0,
{
    assert(digits.push(digit).drop_last() =~= digits);
}

/// A whole number is finite exactly if it lies below the middle between the largest finite double
/// and the next power of two.
pub proof fn law_whole_numbers_are_finite_below_the_limit(whole: Seq<u8>)
    requires
        whole.len() > 0,
        forall|i: int| 0 <= i < whole.len() ==> 48 <= #[trigger] whole[i] <= 57,
    ensures
        kind_of(whole) == NumeralKind::Finite <==> value_of(whole) < pow2(1024) - pow2(970),
        kind_of(whole) != NumeralKind::NotNumeric,
{
    lemma_plain_decimal(whole, Seq::empty(), false);
    assert(whole + Seq::<u8>::empty() =~= whole);
    lemma_pow0(10);
    let value = value_of(whole);
    assert(value * 1 == value);
}

/// The mark, the sign and the digits of an exponent.
pub open spec fn exponent_text(mark: u8, sign: Option<u8>, digits: Seq<u8>) -> Seq<u8> {
    seq![mark] + (match sign {
        Some(sign) => seq![sign],
        None => Seq::empty(),
    }) + digits
}

/// Digits, optionally with a point among or around them, and with an exponent are a finite number if
/// the exponent is negative, or small, and not too many digits stand before the point.
pub proof fn law_scaled_decimals_are_finite(
    whole: Seq<u8>,
    fraction: Seq<u8>,
    pointed: bool,
    mark: u8,
    sign: Option<u8>,
    exponent: Seq<u8>,
)
    requires
        forall|i: int| 0 <= i < whole.len() ==> 48 <= #[trigger] whole[i] <= 57,
        forall|i: int| 0 <= i < fraction.len() ==> 48 <= #[trigger] fraction[i] <= 57,
        forall|i: int| 0 <= i < exponent.len() ==> 48 <= #[trigger] exponent[i] <= 57,
        0 < whole.len() + fraction.len(),
        !pointed ==> fraction.len() == 0,
        exponent.len() > 0,
        mark == 69 || mark == 101,
        sign is Some ==> sign->0 == 43 || sign->0 == 45,
        sign == Some(45u8) ==> whole.len() <= 300,
        sign != Some(45u8) ==> whole.len() + value_of(exponent) <= 300,
    ensures
        kind_of(
            whole + (if pointed {
                seq![46u8] + fraction
            } else {
                Seq::empty()
            }) + exponent_text(mark, sign, exponent),
        ) == NumeralKind::Finite,
{
    let rest = exponent_text(mark, sign, exponent);
    let size = value_of(exponent);
    let shift = if sign == Some(45u8) {
        -size
    } else {
        size
    };
    assert(rest[0] == mark);
    lemma_exponent(mark, sign, exponent);
    lemma_decimal_prefix(whole, fraction, pointed, rest);
    let digits = whole + fraction;
    assert forall|i: int| 0 <= i < digits.len() implies is_digit(#[trigger] digits[i]) by {
        if i < whole.len() {
            assert(digits[i] == whole[i]);
        } else {
            assert(digits[i] == fraction[i - whole.len()]);
        }
    }
    lemma_small_decimal(digits, shift - fraction.len(), whole.len() as int + shift);
}

proof fn lemma_exponent(mark: u8, sign: Option<u8>, exponent: Seq<u8>)
    requires
        forall|i: int| 0 <= i < exponent.len() ==> 48 <= #[trigger] exponent[i] <= 57,
        exponent.len() > 0,
        mark == 69 || mark == 101,
        sign is Some ==> sign->0 == 43 || sign->0 == 45,
    ensures
        exponent_of(exponent_text(mark, sign, exponent)) == Some(
            if sign == Some(45u8) {
                -value_of(exponent)
            } else {
                value_of(exponent)
            },
        ),
        value_of(exponent) >= 0,
{
    let rest = exponent_text(mark, sign, exponent);
    let behind = rest.skip(1);
    assert(rest[0] == mark);
    assert(48 <= exponent[0] <= 57);
    if sign is Some {
        assert(behind[0] == sign->0);
        assert(behind.skip(1) =~= exponent);
        assert(rest[1] == sign->0);
    } else {
        assert(behind =~= exponent);
        assert(rest[1] == exponent[0]);
    }
    assert(unsigned(behind) =~= exponent);
    assert(all_digits(exponent));
    lemma_value_bounds(exponent);
}

/// Which decimal digits, a point and digits in front of something else denote.
proof fn lemma_decimal_prefix(whole: Seq<u8>, fraction: Seq<u8>, pointed: bool, rest: Seq<u8>)
    requires
        forall|i: int| 0 <= i < whole.len() ==> 48 <= #[trigger] whole[i] <= 57,
        forall|i: int| 0 <= i < fraction.len() ==> 48 <= #[trigger] fraction[i] <= 57,
        whole.len() + fraction.len() > 0,
        !pointed ==> fraction.len() == 0,
        rest.len() > 0,
        rest[0] == 69 || rest[0] == 101,
        exponent_of(rest) is Some,
    ensures
        ({
            let text = whole + (if pointed {
                seq![46u8] + fraction
            } else {
                Seq::empty()
            }) + rest;
            &&& unsigned(text) == text
            &&& !is_word(text, "inf".spec_bytes())
            &&& !is_word(text, "infinity".spec_bytes())
            &&& !is_word(text, "nan".spec_bytes())
            &&& decimal_of(text) == Some(
                DecimalView {
                    digits: whole + fraction,
                    exponent: exponent_of(rest)->0 - fraction.len(),
                },
            )
        }),
{
    let plain = whole + (if pointed {
        seq![46u8] + fraction
    } else {
        Seq::empty()
    });
    let text = plain + rest;
    let run = whole.len() as int;
    let end = plain.len() as int;
    assert(text[end] == rest[0]);
    if run > 0 {
        assert(text[0] == whole[0]);
    } else {
        assert(text[0] == 46);
    }
    lemma_words();
    let lowered = text.map_values(|byte: u8| lower_case(byte));
    assert(lowered[0] == lower_case(text[0]));
    assert forall|i: int| 0 <= i < run implies 48 <= #[trigger] text[i] <= 57 by {
        assert(text[i] == whole[i]);
    }
    if pointed {
        assert(text[run] == 46);
        assert forall|i: int| run + 1 <= i < end implies 48 <= #[trigger] text[i] <= 57 by {
            assert(text[i] == fraction[i - run - 1]);
        }
        lemma_run_of(text, run + 1, end);
        assert(text.subrange(run + 1, end) =~= fraction);
    } else {
        assert(text.subrange(run, run) =~= fraction);
    }
    lemma_run_of(text, 0, run);
    assert(text.take(run) =~= whole);
    assert(text.skip(end) =~= rest);
}

proof fn lemma_small_decimal(digits: Seq<u8>, exponent: int, places: int)
    requires
        all_digits(digits),
        digits.len() + exponent == places,
        places <= 300,
    ensures
        !too_large(DecimalView { digits, exponent }),
{
    lemma_limit_is_large();
    lemma_limits();
    lemma_value_bounds(digits);
    let value = value_of(digits);
    let limit = double_limit();
    let size = pow(10, digits.len());
    if exponent >= 0 {
        let scale = pow(10, exponent as nat);
        lemma_pow_adds(10, digits.len(), exponent as nat);
        lemma_pow_increases(10, places as nat, 300);
        lemma_pow_positive(10, exponent as nat);
        assert(value * scale < size * scale) by (nonlinear_arith)
            requires
                value < size,
                scale > 0,
        ;
    } else {
        let scale = pow(10, (-exponent) as nat);
        lemma_pow_positive(10, (-exponent) as nat);
        lemma_pow_adds(10, 300, (-exponent) as nat);
        lemma_pow_increases(10, digits.len(), (300 - exponent) as nat);
        let most = pow(10, 300);
        assert(most * scale <= limit * scale) by (nonlinear_arith)
            requires
                most <= limit,
                scale > 0,
        ;
    }
}

/// Whether a text is digits, optionally with a point among or around them, and what follows.
pub open spec fn is_spelled(
    text: Seq<u8>,
    whole: Seq<u8>,
    pointed: bool,
    fraction: Seq<u8>,
    rest: Seq<u8>,
) -> bool {
    &&& forall|i: int| 0 <= i < whole.len() ==> 48 <= #[trigger] whole[i] <= 57
    &&& forall|i: int| 0 <= i < fraction.len() ==> 48 <= #[trigger] fraction[i] <= 57
    &&& whole.len() + fraction.len() > 0
    &&& !pointed ==> fraction.len() == 0
    &&& text == whole + (if pointed {
        seq![46u8] + fraction
    } else {
        Seq::empty()
    }) + rest
}

/// Whether a text is an exponent: a mark, optionally a sign, and digits.
pub open spec fn is_exponent(text: Seq<u8>) -> bool {
    let digits = if text.len() > 1 && (text[1] == 43 || text[1] == 45) {
        text.skip(2)
    } else {
        text.skip(1)
    };
    &&& text.len() > 0
    &&& text[0] == 69 || text[0] == 101
    &&& digits.len() > 0
    &&& forall|i: int| 0 <= i < digits.len() ==> 48 <= #[trigger] digits[i] <= 57
}

/// A finite number is spelled as an optional sign, digits with at most one point, and nothing else
/// but an exponent.
pub proof fn law_finite_numbers_are_spelled_as_decimals(text: Seq<u8>, body: Seq<u8>)
    requires
        kind_of(text) == NumeralKind::Finite,
        body == if text.len() > 0 && (text[0] == 43 || text[0] == 45) {
            text.skip(1)
        } else {
            text
        },
    ensures
        exists|whole: Seq<u8>, pointed: bool, fraction: Seq<u8>, rest: Seq<u8>|
            {
                &&& #[trigger] is_spelled(body, whole, pointed, fraction, rest)
                &&& rest.len() == 0 || is_exponent(rest)
            },
{
    assert(body == unsigned(text));
    let run = digit_run(body, 0);
    lemma_digit_run(body, 0);
    let pointed = run < body.len() && body[run] == 46;
    let start = if pointed {
        run + 1
    } else {
        run
    };
    let length = if pointed {
        digit_run(body, run + 1)
    } else {
        0
    };
    if pointed {
        lemma_digit_run(body, run + 1);
    }
    let whole = body.take(run);
    let fraction = body.subrange(start, start + length);
    let rest = body.skip(start + length);
    assert forall|i: int| 0 <= i < whole.len() implies 48 <= #[trigger] whole[i] <= 57 by {
        assert(is_digit(body[i]));
    }
    assert forall|i: int| 0 <= i < fraction.len() implies 48 <= #[trigger] fraction[i] <= 57 by {
        assert(is_digit(body[start + i]));
    }
    assert(body =~= whole + (if pointed {
        seq![46u8] + fraction
    } else {
        Seq::empty()
    }) + rest);
    assert(is_spelled(body, whole, pointed, fraction, rest));
    assert(exponent_of(rest) is Some);
    if rest.len() > 0 {
        let behind = rest.skip(1);
        let digits = if rest.len() > 1 && (rest[1] == 43 || rest[1] == 45) {
            rest.skip(2)
        } else {
            rest.skip(1)
        };
        if rest.len() > 1 {
            assert(behind[0] == rest[1]);
            assert(behind.skip(1) =~= rest.skip(2));
        }
        assert(unsigned(behind) =~= digits);
        assert forall|i: int| 0 <= i < digits.len() implies 48 <= #[trigger] digits[i] <= 57 by {
            assert(is_digit(digits[i]));
        }
        assert(is_exponent(rest));
    }
}

/// What is told of a text is what it denotes.
pub proof fn law_kinds_are_told(text: &[u8], kind: NumeralKind)
    requires
        call_ensures(numeral_kind, (text,), kind),
    ensures
        kind == kind_of(text@),
{
}

} // verus!
