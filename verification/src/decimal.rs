//! Decimal notation for natural numbers, as sequences of characters.
//!
//! Two functions are inverse to each other here: [`digits_value`] reads a
//! sequence of digits as a number, [`decimal`] writes a number with as few
//! digits as possible. The lemmas of this module say exactly how they relate.

use vstd::prelude::*;

verus! {

/// `c` is one of the ten ASCII digits `0` to `9`.
pub open spec fn is_digit(c: char) -> bool {
    '0' <= c && c <= '9'
}

/// The number that the digit `c` stands for.
pub open spec fn digit_value(c: char) -> nat
    recommends
        is_digit(c),
{
    (c as int - '0' as int) as nat
}

/// The digit that stands for `d`.
pub open spec fn digit_char(d: nat) -> char
    recommends
        d < 10,
{
    ('0' as int + d) as char
}

/// Every character of `s` is a digit.
pub open spec fn all_digits(s: Seq<char>) -> bool {
    forall|i: int| 0 <= i < s.len() ==> is_digit(#[trigger] s[i])
}

/// The number that `s` denotes when read as decimal digits, most significant
/// first. The empty sequence denotes zero.
pub open spec fn digits_value(s: Seq<char>) -> nat
    decreases s.len(),
{
    if s.len() == 0 {
        0
    } else {
        digits_value(s.drop_last()) * 10 + digit_value(s.last())
    }
}

/// The decimal rendering of `n`: its digits, most significant first, with no
/// leading zero. Zero is rendered as the single digit `0`.
pub open spec fn decimal(n: nat) -> Seq<char>
    decreases n,
{
    if n < 10 {
        seq![digit_char(n)]
    } else {
        decimal(n / 10).push(digit_char(n % 10))
    }
}

/// `s` is a digit sequence in shortest form: at least one digit, and no
/// leading zero unless it is the single digit `0`.
pub open spec fn is_canonical(s: Seq<char>) -> bool {
    &&& s.len() >= 1
    &&& all_digits(s)
    &&& s.len() > 1 ==> s[0] != '0'
}

/// The rendering of a number is in shortest form.
pub proof fn lemma_decimal_is_canonical(n: nat)
    ensures
        is_canonical(decimal(n)),
        n == 0 ==> decimal(n) == seq!['0'],
        n > 0 ==> decimal(n)[0] != '0',
    decreases n,
{
    if n >= 10 {
        lemma_decimal_is_canonical(n / 10);
        let head = decimal(n / 10);
        assert(decimal(n)[0] == head[0]);
        assert forall|i: int| 0 <= i < decimal(n).len() implies is_digit(
            #[trigger] decimal(n)[i],
        ) by {
            if i < head.len() {
                assert(decimal(n)[i] == head[i]);
            }
        }
    }
}

/// Reading the rendering of a number gives the number back.
pub proof fn lemma_value_of_decimal(n: nat)
    ensures
        digits_value(decimal(n)) == n,
    decreases n,
{
    if n < 10 {
        let s = decimal(n);
        assert(s.drop_last() =~= Seq::<char>::empty());
        assert(digits_value(s.drop_last()) == 0);
    } else {
        lemma_value_of_decimal(n / 10);
        let s = decimal(n);
        assert(s.drop_last() =~= decimal(n / 10));
        assert(s.last() == digit_char(n % 10));
    }
}

/// A digit sequence in shortest form is the rendering of the number it
/// denotes: each number has exactly one such sequence.
pub proof fn lemma_decimal_of_value(s: Seq<char>)
    requires
        is_canonical(s),
    ensures
        decimal(digits_value(s)) == s,
    decreases s.len(),
{
    let n = digits_value(s);
    let front = s.drop_last();
    if s.len() == 1 {
        assert(front =~= Seq::<char>::empty());
        assert(digits_value(front) == 0);
        assert(decimal(n) =~= s);
    } else {
        assert(front[0] == s[0]);
        assert(is_canonical(front)) by {
            assert forall|i: int| 0 <= i < front.len() implies is_digit(#[trigger] front[i]) by {
                assert(front[i] == s[i]);
            }
        }
        lemma_decimal_of_value(front);
        lemma_value_is_positive(front);
        assert(is_digit(s.last()));
        assert(n / 10 == digits_value(front));
        assert(n % 10 == digit_value(s.last()));
        assert(decimal(n) =~= s);
    }
}

/// A digit sequence that does not start with `0` denotes a positive number.
pub proof fn lemma_value_is_positive(s: Seq<char>)
    requires
        s.len() >= 1,
        all_digits(s),
        s[0] != '0',
    ensures
        digits_value(s) >= 1,
    decreases s.len(),
{
    let front = s.drop_last();
    if s.len() == 1 {
        assert(front =~= Seq::<char>::empty());
        assert(digits_value(front) == 0);
        assert(s.last() == s[0]);
    } else {
        assert(front[0] == s[0]);
        assert forall|i: int| 0 <= i < front.len() implies is_digit(#[trigger] front[i]) by {
            assert(front[i] == s[i]);
        }
        lemma_value_is_positive(front);
    }
}

/// The rendering of an unsigned 16-bit number has one to five digits.
pub proof fn lemma_decimal_len(n: u16)
    ensures
        1 <= decimal(n as nat).len() <= 5,
{
    reveal_with_fuel(decimal, 5);
}

} // verus!
