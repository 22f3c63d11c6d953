//! The settings the server starts with.
//!
//! Each setting is read once from the environment by the caller, which
//! hands over what it found. A setting that is not there has its default,
//! where it has one. The server does not start on a setting that is missing
//! without a default or that is malformed: such a value is not handed over.

use vstd::prelude::*;
use vstd::string::*;
use crate::upload::{decimal, digit, digits, DEFAULT_MAX_FILE_SIZE};

verus! {

/// The port the server listens on unless configured otherwise.
pub const DEFAULT_PORT: u16 = 8080;

/// The value of a decimal digit, where `c` is one.
pub open spec fn digit_value(c: char) -> Option<nat> {
    if c == '0' {
        Some(0)
    } else if c == '1' {
        Some(1)
    } else if c == '2' {
        Some(2)
    } else if c == '3' {
        Some(3)
    } else if c == '4' {
        Some(4)
    } else if c == '5' {
        Some(5)
    } else if c == '6' {
        Some(6)
    } else if c == '7' {
        Some(7)
    } else if c == '8' {
        Some(8)
    } else if c == '9' {
        Some(9)
    } else {
        None
    }
}

/// The number that `digits` spells in decimal, where all of them are
/// digits; no digits spell zero.
pub open spec fn value(digits: Seq<char>) -> Option<nat>
    decreases digits.len(),
{
    if digits.len() == 0 {
        Some(0)
    } else {
        match (value(digits.drop_last()), digit_value(digits.last())) {
            (Some(front), Some(last)) => Some(10 * front + last),
            _ => None,
        }
    }
}

/// `text` without a plus sign in front of it.
pub open spec fn unsigned(text: Seq<char>) -> Seq<char> {
    if text.len() > 0 && text[0] == '+' {
        text.subrange(1, text.len() as int)
    } else {
        text
    }
}

/// The number that `text` stands for: one or more decimal digits, after an
/// optional plus sign, that spell a number up to `max`. Anything else
/// stands for no number.
pub open spec fn number(text: Seq<char>, max: u64) -> Option<u64> {
    let digits = unsigned(text);
    if digits.len() == 0 {
        None
    } else {
        match value(digits) {
            Some(n) if n <= max => Some(n as u64),
            _ => None,
        }
    }
}

/// Digits that spell a number have beginnings that spell numbers too, and
/// none of these is larger.
proof fn lemma_value_of_beginning(digits: Seq<char>, k: int)
    requires
        0 <= k <= digits.len(),
        value(digits) is Some,
    ensures
        value(digits.take(k)) is Some,
        value(digits.take(k))->0 <= value(digits)->0,
    decreases digits.len(),
{
    if k == digits.len() {
        assert(digits.take(k) =~= digits);
    } else {
        assert(digits.drop_last().take(k) =~= digits.take(k));
        lemma_value_of_beginning(digits.drop_last(), k);
    }
}

/// The digits written for `n` spell `n`, and hold no sign.
pub proof fn lemma_value_of_digits(n: nat)
    ensures
        value(digits(n)) == Some(n),
        digits(n).len() > 0,
        forall|i: int| 0 <= i < digits(n).len() ==> digit_value(#[trigger] digits(n)[i]) is Some,
    decreases n,
{
    assert(digit_value(digit(n % 10)) == Some(n % 10));
    if n < 10 {
        let written = seq![digit(n)];
        assert(written.drop_last() =~= Seq::<char>::empty());
        assert(value(written.drop_last()) == Some(0nat));
        assert(written.last() == digit(n));
    } else {
        lemma_value_of_digits(n / 10);
        let written = digits(n / 10).push(digit(n % 10));
        assert(written.drop_last() =~= digits(n / 10));
        assert(written.last() == digit(n % 10));
        assert(10 * (n / 10) + n % 10 == n);
    }
}

/// What is written in decimal is read back as the same number: a number
/// up to the bound, written without a sign, stands for itself.
pub proof fn law_number_reads_decimal(n: u64, max: u64)
    requires
        n <= max,
    ensures
        number(decimal(n as int), max) == Some(n),
{
    lemma_value_of_digits(n as nat);
    let written = digits(n as nat);
    assert(digit_value(written[0]) is Some);
    assert(unsigned(written) == written);
}

/// The value of the digit `c`.
fn digit_of(c: char) -> (found: Option<u64>)
    ensures
        match digit_value(c) {
            Some(d) => found == Some(d as u64) && d < 10,
            None => found is None,
        },
{
    if c == '0' {
        Some(0)
    } else if c == '1' {
        Some(1)
    } else if c == '2' {
        Some(2)
    } else if c == '3' {
        Some(3)
    } else if c == '4' {
        Some(4)
    } else if c == '5' {
        Some(5)
    } else if c == '6' {
        Some(6)
    } else if c == '7' {
        Some(7)
    } else if c == '8' {
        Some(8)
    } else if c == '9' {
        Some(9)
    } else {
        None
    }
}

/// Reads the number that `text` stands for.
pub fn parse_number(text: &str, max: u64) -> (found: Option<u64>)
    ensures
        found == number(text@, max),
{
    let length = text.unicode_len();
    let start: usize = if length > 0 && text.get_char(0) == '+' {
        1
    } else {
        0
    };
    if start == length {
        return None;
    }
    let digits = text.substring_char(start, length);
    let count = length - start;
    assert(digits@ == unsigned(text@));
    let mut seen: usize = 0;
    let mut sum: u64 = 0;
    assert(digits@.take(0) =~= Seq::<char>::empty());
    while seen < count
        invariant
            seen <= count,
            0 < count == digits@.len(),
            digits@ == unsigned(text@),
            value(digits@.take(seen as int)) == Some(sum as nat),
            sum <= max,
        decreases count - seen,
    {
        let ghost longer = digits@.take(seen + 1);
        assert(longer.drop_last() =~= digits@.take(seen as int));
        assert(longer.last() == digits@[seen as int]);
        let digit = match digit_of(digits.get_char(seen)) {
            Some(digit) => digit,
            None => {
                proof {
                    if value(digits@) is Some {
                        lemma_value_of_beginning(digits@, seen + 1);
                    }
                }
                return None;
            },
        };
        if sum > max / 10 || digit > max - sum * 10 {
            proof {
                assert(value(longer) == Some((10 * sum + digit) as nat));
                if value(digits@) is Some {
                    lemma_value_of_beginning(digits@, seen + 1);
                }
            }
            return None;
        }
        sum = sum * 10 + digit;
        seen = seen + 1;
    }
    assert(digits@.take(seen as int) =~= digits@);
    Some(sum)
}

/// The address the server binds to: the one configured, or the local host.
pub fn set_address(raw: Option<String>) -> (address: String)
    ensures
        address@ == match raw {
            Some(text) => text@,
            None => "127.0.0.1"@,
        },
{
    match raw {
        Some(text) => text,
        None => String::from_str("127.0.0.1"),
    }
}

/// Whether `raw` can be the port: it is not set, or it stands for a
/// number up to 65535.
pub open spec fn port_is_usable(raw: Option<String>) -> bool {
    raw matches Some(text) ==> number(text@, 65535) is Some
}

/// Whether `raw` can be the upload limit: it is not set, or it stands for a
/// number that fits 64 bits.
pub open spec fn limit_is_usable(raw: Option<String>) -> bool {
    raw matches Some(text) ==> number(text@, u64::MAX) is Some
}

/// The port the server listens on: the one configured, or 8080. The server
/// does not start with a port that is no number: the caller stops before it
/// asks.
pub fn set_port(raw: Option<String>) -> (port: u16)
    requires
        port_is_usable(raw),
    ensures
        port == match raw {
            Some(text) => number(text@, 65535)->0 as u16,
            None => DEFAULT_PORT,
        },
{
    match raw {
        Some(text) => parse_number(text.as_str(), 65535).unwrap() as u16,
        None => DEFAULT_PORT,
    }
}

/// The address of the database. The server does not start without one: the
/// caller stops before it asks.
pub fn set_db_url(raw: Option<String>) -> (url: String)
    requires
        raw is Some,
    ensures
        Some(url) == raw,
{
    raw.unwrap()
}

/// The secret that tokens are signed with. The server does not start
/// without one, and none is made up: the caller stops before it asks.
pub fn set_jwt_secret(raw: Option<String>) -> (secret: String)
    requires
        raw is Some,
    ensures
        Some(secret) == raw,
{
    raw.unwrap()
}

/// The largest accepted upload in bytes: the one configured, or 5 MiB. The
/// server does not start with a limit that is no number: the caller stops
/// before it asks.
pub fn set_max_file_size(raw: Option<String>) -> (limit: u64)
    requires
        limit_is_usable(raw),
    ensures
        limit == match raw {
            Some(text) => number(text@, u64::MAX)->0,
            None => DEFAULT_MAX_FILE_SIZE,
        },
{
    match raw {
        Some(text) => parse_number(text.as_str(), u64::MAX).unwrap(),
        None => DEFAULT_MAX_FILE_SIZE,
    }
}

} // verus!
