use vstd::prelude::*;
use vstd::string::StringExecFns;

verus! {

pub open spec fn digit_char(d: int) -> char {
    if d == 0 {
        '0'
    } else if d == 1 {
        '1'
    } else if d == 2 {
        '2'
    } else if d == 3 {
        '3'
    } else if d == 4 {
        '4'
    } else if d == 5 {
        '5'
    } else if d == 6 {
        '6'
    } else if d == 7 {
        '7'
    } else if d == 8 {
        '8'
    } else {
        '9'
    }
}

/// The decimal numeral of `n`, without leading zeros.
pub open spec fn decimal(n: nat) -> Seq<char>
    decreases n,
{
    if n < 10 {
        seq![digit_char(n as int)]
    } else {
        decimal(n / 10).push(digit_char((n % 10) as int))
    }
}

/// The decimal numeral of `n`, with a minus sign when negative.
pub open spec fn signed_decimal(n: int) -> Seq<char> {
    if n < 0 {
        "-"@ + decimal((-n) as nat)
    } else {
        decimal(n as nat)
    }
}

/// Relies on `ToString::to_string` for `i64`, which writes the integer in
/// decimal, with a leading `-` when negative.
#[verifier::external_body]
pub(crate) fn decimal_string(n: i64) -> (r: String)
    ensures
        r@ == signed_decimal(n as int),
{
    n.to_string()
}

/// Three digits, padded with leading zeros.
pub open spec fn padded3(n: nat) -> Seq<char> {
    if n < 10 {
        "00"@ + decimal(n)
    } else if n < 100 {
        "0"@ + decimal(n)
    } else {
        decimal(n)
    }
}

/// The digits of `n` grouped in threes by commas.
pub open spec fn grouped(n: nat) -> Seq<char>
    decreases n,
{
    if n < 1000 {
        decimal(n)
    } else {
        grouped(n / 1000) + ","@ + padded3(n % 1000)
    }
}

/// `n` written with thousands separators: `-1,234,567`.
pub open spec fn formatted(n: int) -> Seq<char> {
    if n < 0 {
        "-"@ + grouped((-n) as nat)
    } else {
        grouped(n as nat)
    }
}

/// The digits of `n` (at least 0) grouped in threes.
fn grouped_string(n: i64) -> (r: String)
    requires
        n >= 0,
    ensures
        r@ == grouped(n as nat),
    decreases n,
{
    if n < 1000 {
        decimal_string(n)
    } else {
        let head = grouped_string(n / 1000);
        let tail = padded_string(n % 1000);
        let r = head.concat(",").concat(tail.as_str());
        r
    }
}

fn padded_string(n: i64) -> (r: String)
    requires
        0 <= n < 1000,
    ensures
        r@ == padded3(n as nat),
{
    let digits = decimal_string(n);
    if n < 10 {
        String::from_str("00").concat(digits.as_str())
    } else if n < 100 {
        String::from_str("0").concat(digits.as_str())
    } else {
        digits
    }
}

/// Writes `n` with thousands separators.
pub fn format_num(n: i64) -> (r: String)
    ensures
        r@ == formatted(n as int),
{
    if n >= 0 {
        return grouped_string(n);
    }
    if n > -1000 {
        return String::from_str("-").concat(decimal_string(-n).as_str());
    }
    let q = n / 1000;
    let rem = n % 1000;
    assert(q * 1000 + rem == n && -1000 < rem <= 0);
    let ghost m: int = -(n as int);
    assert(m / 1000 == -q && m % 1000 == -rem) by {
        vstd::arithmetic::div_mod::lemma_fundamental_div_mod_converse(m, 1000, -q as int, -rem as int);
    }
    let head = grouped_string(-q);
    let tail = padded_string(-rem);
    String::from_str("-").concat(head.concat(",").concat(tail.as_str()).as_str())
}

} // verus!
