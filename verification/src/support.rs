//! Identifiers, clock readings and decimal rendering.

use vstd::prelude::*;

verus! {

/// A fresh random identifier.
///
/// Trusted: calls `uuid::Uuid::new_v4` and renders it with its `Display` impl, which
/// writes the hyphenated form of 36 characters. Nothing else is claimed of the text (it
/// is random).
#[verifier::external_body]
pub(crate) fn new_uuid_string() -> (s: String)
    ensures
        s@.len() == 36,
{
    uuid::Uuid::new_v4().to_string()
}

/// The current wall-clock time in whole seconds since the Unix epoch.
///
/// Trusted: reads `std::time::SystemTime::now` (a clock before the epoch reads as 0).
/// Nothing is claimed of the value: it depends on the clock.
#[verifier::external_body]
pub(crate) fn unix_now_secs() -> (t: u64) {
    std::time::SystemTime::now().duration_since(std::time::UNIX_EPOCH).unwrap_or_default().as_secs()
}

/// The current wall-clock time in milliseconds since the Unix epoch.
///
/// Trusted: reads `std::time::SystemTime::now` (a clock before the epoch reads as 0; a
/// reading beyond the `u64` range saturates). Nothing is claimed of the value.
#[verifier::external_body]
pub(crate) fn unix_now_millis() -> (t: u64) {
    let ms = std::time::SystemTime::now().duration_since(std::time::UNIX_EPOCH).unwrap_or_default().as_millis();
    u64::try_from(ms).unwrap_or(u64::MAX)
}

/// The current wall-clock time in microseconds since the Unix epoch.
///
/// Trusted: reads `std::time::SystemTime::now` (a clock before the epoch reads as 0; a
/// reading beyond the `u64` range saturates). Nothing is claimed of the value.
#[verifier::external_body]
pub(crate) fn unix_now_micros() -> (t: u64) {
    let us = std::time::SystemTime::now().duration_since(std::time::UNIX_EPOCH).unwrap_or_default().as_micros();
    u64::try_from(us).unwrap_or(u64::MAX)
}

/// The decimal digit character for `d < 10`.
pub open spec fn digit_char(d: nat) -> char {
    if d == 0 {
        '0'
    } else if d == 1 {
        '1'
    } else if d == 2 {
        '2'
    } else if d == 3 {
        '3'
    } else if d == 4 {
        '4'
    } else if d == 5 {
        '5'
    } else if d == 6 {
        '6'
    } else if d == 7 {
        '7'
    } else if d == 8 {
        '8'
    } else {
        '9'
    }
}

/// The decimal rendering of `n`, without sign or leading zeros (`0` renders as `"0"`).
pub open spec fn decimal(n: nat) -> Seq<char>
    decreases n,
{
    if n < 10 {
        seq![digit_char(n)]
    } else {
        decimal(n / 10).push(digit_char(n % 10))
    }
}

fn digit_str(d: u64) -> (s: &'static str)
    requires
        d < 10,
    ensures
        s@ == seq![digit_char(d as nat)],
{
    proof {
        reveal_strlit("0");
        reveal_strlit("1");
        reveal_strlit("2");
        reveal_strlit("3");
        reveal_strlit("4");
        reveal_strlit("5");
        reveal_strlit("6");
        reveal_strlit("7");
        reveal_strlit("8");
        reveal_strlit("9");
    }
    let s = if d == 0 {
        "0"
    } else if d == 1 {
        "1"
    } else if d == 2 {
        "2"
    } else if d == 3 {
        "3"
    } else if d == 4 {
        "4"
    } else if d == 5 {
        "5"
    } else if d == 6 {
        "6"
    } else if d == 7 {
        "7"
    } else if d == 8 {
        "8"
    } else {
        "9"
    };
    assert(s@ =~= seq![digit_char(d as nat)]);
    s
}

/// Renders `n` in decimal.
pub fn decimal_string(n: u64) -> (s: String)
    ensures
        s@ == decimal(n as nat),
    decreases n,
{
    if n < 10 {
        String::from_str(digit_str(n))
    } else {
        let head = decimal_string(n / 10);
        let s = head.concat(digit_str(n % 10));
        assert(s@ =~= decimal((n / 10) as nat).push(digit_char((n % 10) as nat)));
        s
    }
}

/// The decimal rendering of a signed number, with a leading `-` when negative.
pub open spec fn decimal_i32(n: i32) -> Seq<char> {
    if n < 0 {
        seq!['-'] + decimal((-n) as nat)
    } else {
        decimal(n as nat)
    }
}

/// Renders `n` in decimal.
pub fn decimal_i32_string(n: i32) -> (s: String)
    ensures
        s@ == decimal_i32(n),
{
    if n < 0 {
        let m: i64 = n as i64;
        let abs: u64 = (0 - m) as u64;
        let digits = decimal_string(abs);
        proof {
            reveal_strlit("-");
        }
        let s = String::from_str("-").concat(digits.as_str());
        assert(s@ =~= decimal_i32(n));
        s
    } else {
        decimal_string(n as u64)
    }
}

} // verus!
