//! The address under which the front end reaches the API server.

use vstd::prelude::*;
use crate::decimal::{
    decimal, digit_char, digits_value, is_canonical, lemma_decimal_is_canonical, lemma_decimal_len,
    lemma_decimal_of_value, lemma_value_of_decimal,
};

verus! {

/// What every address starts with: scheme, host and the colon before the port.
pub const API_URL_PREFIX: &'static str = "http://localhost:";

/// The address of the API server that listens on `port`: the prefix, then the
/// port in decimal notation without leading zeros.
pub open spec fn api_url(port: u16) -> Seq<char> {
    API_URL_PREFIX@ + decimal(port as nat)
}

/// The shape of an address: the prefix, then nothing but the digits of the
/// port in shortest form, so one to five of them and no leading zero.
pub proof fn law_api_url_pattern(port: u16)
    ensures
        api_url(port).len() == API_URL_PREFIX@.len() + decimal(port as nat).len(),
        api_url(port).subrange(0, API_URL_PREFIX@.len() as int) == API_URL_PREFIX@,
        api_url(port).skip(API_URL_PREFIX@.len() as int) == decimal(port as nat),
        is_canonical(decimal(port as nat)),
        digits_value(decimal(port as nat)) == port,
        1 <= decimal(port as nat).len() <= 5,
{
    lemma_decimal_is_canonical(port as nat);
    lemma_value_of_decimal(port as nat);
    lemma_decimal_len(port);
    assert(api_url(port).subrange(0, API_URL_PREFIX@.len() as int) =~= API_URL_PREFIX@);
    assert(api_url(port).skip(API_URL_PREFIX@.len() as int) =~= decimal(port as nat));
}

/// The shape pins the address down: the prefix followed by digits in shortest
/// form that denote `port` is the address of `port`, and no other text of
/// that shape is.
pub proof fn law_pattern_is_api_url(port: u16, digits: Seq<char>)
    requires
        is_canonical(digits),
        digits_value(digits) == port,
    ensures
        API_URL_PREFIX@ + digits == api_url(port),
{
    lemma_decimal_of_value(digits);
}

/// Different ports have different addresses.
pub proof fn law_api_url_determines_port(first: u16, second: u16)
    requires
        api_url(first) == api_url(second),
    ensures
        first == second,
{
    law_api_url_pattern(first);
    law_api_url_pattern(second);
}

/// The one-character text of the digit that stands for `d`.
fn digit_text(d: u16) -> (text: &'static str)
    requires
        d < 10,
    ensures
        text@ == seq![digit_char(d as nat)],
{
    proof {
        reveal_strlit("0");
        reveal_strlit("1");
        reveal_strlit("2");
        reveal_strlit("3");
        reveal_strlit("4");
        reveal_strlit("5");
        reveal_strlit("6");
        reveal_strlit("7");
        reveal_strlit("8");
        reveal_strlit("9");
    }
    let text = match d {
        0 => "0",
        1 => "1",
        2 => "2",
        3 => "3",
        4 => "4",
        5 => "5",
        6 => "6",
        7 => "7",
        8 => "8",
        _ => "9",
    };
    assert(text@ =~= seq![digit_char(d as nat)]);
    text
}

/// Appends the decimal rendering of `n` to `out`.
pub fn push_decimal(out: &mut String, n: u16)
    ensures
        final(out)@ == old(out)@ + decimal(n as nat),
    decreases n,
{
    if n < 10 {
        out.append(digit_text(n));
    } else {
        push_decimal(out, n / 10);
        out.append(digit_text(n % 10));
        assert(final(out)@ =~= old(out)@ + decimal(n as nat));
    }
}

/// Renders the address of the API server that listens on `port`.
pub fn format_api_url(port: u16) -> (url: String)
    ensures
        url@ == api_url(port),
{
    let mut url = String::from_str(API_URL_PREFIX);
    push_decimal(&mut url, port);
    url
}

} // verus!
