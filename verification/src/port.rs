//! Choosing the port of the API server.
//!
//! The port may be overridden by a text, which the application reads from the
//! environment variable named by [`API_PORT_VARIABLE`]. A text counts when it
//! is the decimal notation of an unsigned 16-bit number; any other text, and
//! the absence of a text, select [`DEFAULT_API_PORT`].

use vstd::prelude::*;
use crate::decimal::{
    all_digits, decimal, digits_value, is_digit, lemma_decimal_is_canonical, lemma_value_of_decimal,
};

verus! {

/// The port that is used when no valid override is given.
pub const DEFAULT_API_PORT: u16 = 3001;

/// The name of the environment variable that may hold the override.
pub const API_PORT_VARIABLE: &'static str = "API_PORT";

/// The byte of the character `+`.
const ASCII_PLUS: u8 = 43;

/// The byte of the digit `0`.
const ASCII_ZERO: u8 = 48;

/// The byte of the digit `9`.
const ASCII_NINE: u8 = 57;

/// The digits of an override text: the text itself, without the one `+` sign
/// that may precede them.
pub open spec fn port_digits(text: Seq<char>) -> Seq<char> {
    if text.len() > 0 && text[0] == '+' {
        text.drop_first()
    } else {
        text
    }
}

/// `text` is the decimal notation of an unsigned 16-bit number: an optional
/// `+`, then one or more digits and nothing else, denoting at most 65535.
/// Leading zeros are allowed; spaces, a `-` sign and separators are not.
pub open spec fn is_port_text(text: Seq<char>) -> bool {
    let digits = port_digits(text);
    &&& digits.len() > 0
    &&& all_digits(digits)
    &&& digits_value(digits) <= u16::MAX
}

/// What an override text selects: the number it denotes, if it denotes one.
pub open spec fn parse_port_spec(text: Seq<char>) -> Option<u16> {
    if is_port_text(text) {
        Some(digits_value(port_digits(text)) as u16)
    } else {
        None
    }
}

/// The port that the application uses, given the override if there is one.
pub open spec fn resolve_port(value: Option<Seq<char>>) -> u16 {
    match value {
        Some(text) => match parse_port_spec(text) {
            Some(port) => port,
            None => DEFAULT_API_PORT,
        },
        None => DEFAULT_API_PORT,
    }
}

/// The view of an optional text.
pub open spec fn text_view(value: Option<&str>) -> Option<Seq<char>> {
    match value {
        Some(text) => Some(text@),
        None => None,
    }
}

/// A digit sequence denotes at least as much as each of its prefixes.
pub proof fn lemma_prefix_value(s: Seq<char>, k: int)
    requires
        0 <= k <= s.len(),
    ensures
        digits_value(s.subrange(0, k)) <= digits_value(s),
    decreases s.len() - k,
{
    if k == s.len() {
        assert(s.subrange(0, k) =~= s);
    } else {
        lemma_prefix_value(s.drop_last(), k);
        assert(s.drop_last().subrange(0, k) =~= s.subrange(0, k));
    }
}

/// A valid override is used: where `text` is the decimal notation of an
/// unsigned 16-bit number, the port is that number.
pub proof fn law_valid_override_is_used(text: Seq<char>)
    requires
        is_port_text(text),
    ensures
        resolve_port(Some(text)) == digits_value(port_digits(text)),
{
}

/// Every port can be selected: the decimal rendering of a port is a valid
/// override text, with or without a `+` before it, and selects that port.
pub proof fn law_rendered_port_is_selected(port: u16)
    ensures
        is_port_text(decimal(port as nat)),
        resolve_port(Some(decimal(port as nat))) == port,
        is_port_text(seq!['+'] + decimal(port as nat)),
        resolve_port(Some(seq!['+'] + decimal(port as nat))) == port,
{
    let digits = decimal(port as nat);
    let signed = seq!['+'] + digits;
    lemma_decimal_is_canonical(port as nat);
    lemma_value_of_decimal(port as nat);
    assert(is_digit(digits[0]));
    assert(port_digits(digits) == digits);
    assert(signed[0] == '+');
    assert(port_digits(signed) =~= digits);
}

/// Without a valid override the port is the default: where no text is given,
/// or the text is not the decimal notation of an unsigned 16-bit number.
pub proof fn law_invalid_override_selects_default(value: Option<Seq<char>>)
    requires
        value matches Some(text) ==> !is_port_text(text),
    ensures
        resolve_port(value) == DEFAULT_API_PORT,
{
}

/// The texts that are no valid override: the empty text; a text with a
/// character that is neither a digit nor a `+` in first place; a text with a
/// `-` sign; a `+` alone; digits that denote more than 65535.
pub proof fn law_malformed_texts_are_invalid(text: Seq<char>, i: int)
    ensures
        text.len() == 0 ==> !is_port_text(text),
        0 <= i < text.len() && !is_digit(text[i]) && !(i == 0 && text[0] == '+') ==> !is_port_text(
            text,
        ),
        text.len() > 0 && text[0] == '-' ==> !is_port_text(text),
        text == seq!['+'] ==> !is_port_text(text),
        digits_value(port_digits(text)) > u16::MAX ==> !is_port_text(text),
{
    let digits = port_digits(text);
    if 0 <= i < text.len() && !is_digit(text[i]) && !(i == 0 && text[0] == '+') {
        if text[0] == '+' {
            assert(digits[i - 1] == text[i]);
        } else {
            assert(digits[i] == text[i]);
        }
    }
    if text.len() > 0 && text[0] == '-' {
        assert(digits[0] == '-');
    }
}

/// The port is always either the default or the number that a valid override
/// denotes; it is never anything else.
pub proof fn law_port_is_default_or_override(value: Option<Seq<char>>)
    ensures
        resolve_port(value) == DEFAULT_API_PORT || (value matches Some(text) && is_port_text(text)
            && resolve_port(value) == digits_value(port_digits(text))),
{
}

/// Reads `text` as a port number.
///
/// Returns the number where `text` is the decimal notation of an unsigned
/// 16-bit number, and `None` for every other text: the empty one, one with a
/// character that is no digit, one that denotes more than 65535.
pub fn parse_port(text: &str) -> (port: Option<u16>)
    ensures
        port == parse_port_spec(text@),
{
    let ghost digits = port_digits(text@);
    if !text.is_ascii() {
        proof {
            let i = choose|i: int| 0 <= i < text@.len() && !('\0' <= #[trigger] text@[i] <= '\u{7f}');
            if text@[0] == '+' {
                assert(digits[i - 1] == text@[i]);
            }
        }
        return None;
    }
    let bytes = text.as_bytes();
    proof {
        vstd::string::is_ascii_spec_bytes(text);
    }
    let len = bytes.len();
    let start: usize = if len > 0 && bytes[0] == ASCII_PLUS {
        1
    } else {
        0
    };
    if start == len {
        return None;
    }
    let mut value: u32 = 0;
    let mut i: usize = start;
    while i < len
        invariant
            text.is_ascii(),
            len == text@.len(),
            len == bytes@.len(),
            forall|j: int| 0 <= j < len ==> #[trigger] bytes@[j] == text@[j] as u8,
            digits == port_digits(text@),
            digits.len() == len - start,
            forall|j: int| 0 <= j < digits.len() ==> digits[j] == #[trigger] text@[j + start],
            start <= i <= len,
            all_digits(digits.subrange(0, i - start)),
            value == digits_value(digits.subrange(0, i - start)),
            value <= u16::MAX,
        decreases len - i,
    {
        let byte = bytes[i];
        let ghost k = i - start;
        assert(digits[k] == text@[i as int]);
        if byte < ASCII_ZERO || byte > ASCII_NINE {
            assert(!is_digit(digits[k]));
            return None;
        }
        let ghost longer = digits.subrange(0, k + 1);
        assert(longer.drop_last() =~= digits.subrange(0, k));
        assert(longer.last() == digits[k]);
        assert(all_digits(longer)) by {
            assert forall|j: int| 0 <= j < longer.len() implies is_digit(#[trigger] longer[j]) by {
                if j < k {
                    assert(digits.subrange(0, k)[j] == longer[j]);
                }
            }
        }
        value = value * 10 + (byte - ASCII_ZERO) as u32;
        assert(value == digits_value(longer));
        if value > u16::MAX as u32 {
            proof {
                lemma_prefix_value(digits, k + 1);
            }
            return None;
        }
        i += 1;
    }
    assert(digits.subrange(0, i - start) =~= digits);
    Some(value as u16)
}

/// Chooses the port of the API server.
///
/// `value` is the override, as the application found it in the environment:
/// `None` where the variable is not set. A valid override is used; without
/// one the port is [`DEFAULT_API_PORT`]. This never fails.
pub fn get_api_port(value: Option<&str>) -> (port: u16)
    ensures
        port == resolve_port(text_view(value)),
{
    match value {
        Some(text) => match parse_port(text) {
            Some(port) => port,
            None => DEFAULT_API_PORT,
        },
        None => DEFAULT_API_PORT,
    }
}

} // verus!
