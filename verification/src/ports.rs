//! Parsing of the server port from the text of an environment variable.
//!
//! A port text is a non-empty run of decimal digits whose value fits in a
//! `u16`. `parse_port` follows the usual left-to-right scan: it reports a
//! non-digit as soon as it meets one and reports overflow as soon as the
//! accumulated value leaves the `u16` range, so the cause it returns matches
//! what a standard integer parse would say.

use vstd::prelude::*;
use vstd::string::*;

verus! {

pub open spec fn is_decimal_digit(c: char) -> bool {
    ('0' as u32) <= (c as u32) && (c as u32) <= ('9' as u32)
}

pub open spec fn digit_value(c: char) -> int {
    c as u32 - '0' as u32
}

/// Every character from position `i` on is a decimal digit.
pub open spec fn digits_from(s: Seq<char>, i: int) -> bool {
    forall|j: int| i <= j < s.len() ==> is_decimal_digit(#[trigger] s[j])
}

pub open spec fn all_decimal_digits(s: Seq<char>) -> bool {
    digits_from(s, 0)
}

/// The numeric value of a digit string, by its positional notation.
pub open spec fn decimal_value(s: Seq<char>) -> int
    decreases s.len(),
{
    if s.len() == 0 {
        0
    } else {
        decimal_value(s.drop_last()) * 10 + digit_value(s.last())
    }
}

/// The texts accepted as a port: non-empty, digits only, value at most 65535.
pub open spec fn is_port_text(s: Seq<char>) -> bool {
    s.len() > 0 && all_decimal_digits(s) && decimal_value(s) <= 65535
}

pub open spec fn empty_input_msg() -> Seq<char> {
    "cannot parse integer from empty string"@
}

pub open spec fn invalid_digit_msg() -> Seq<char> {
    "invalid digit found in string"@
}

pub open spec fn too_large_msg() -> Seq<char> {
    "number too large to fit in target type"@
}

/// One left-to-right scan step of the parse, carrying the accumulated value.
pub open spec fn scan_port(s: Seq<char>, i: int, value: int) -> Result<int, Seq<char>>
    decreases s.len() - i,
{
    if i >= s.len() {
        Ok(value)
    } else if !is_decimal_digit(s[i]) {
        Err(invalid_digit_msg())
    } else if value * 10 + digit_value(s[i]) > 65535 {
        Err(too_large_msg())
    } else {
        scan_port(s, i + 1, value * 10 + digit_value(s[i]))
    }
}

/// What parsing a port text returns: the value, or the cause of the failure.
pub open spec fn spec_parse_port(s: Seq<char>) -> Result<int, Seq<char>> {
    if s.len() == 0 {
        Err(empty_input_msg())
    } else {
        scan_port(s, 0, 0)
    }
}

/// The cause reported for a text that is not a valid port.
pub open spec fn port_parse_cause(s: Seq<char>) -> Seq<char> {
    match spec_parse_port(s) {
        Ok(_) => Seq::empty(),
        Err(cause) => cause,
    }
}

/// The value the scan reaches from position `i` when no check stops it.
pub open spec fn scan_value(s: Seq<char>, i: int, value: int) -> int
    decreases s.len() - i,
{
    if i >= s.len() {
        value
    } else {
        scan_value(s, i + 1, value * 10 + digit_value(s[i]))
    }
}

proof fn lemma_scan_value_grows(s: Seq<char>, i: int, value: int)
    requires
        0 <= i <= s.len(),
        0 <= value,
        digits_from(s, i),
    ensures
        scan_value(s, i, value) >= value,
    decreases s.len() - i,
{
    if i < s.len() {
        lemma_scan_value_grows(s, i + 1, value * 10 + digit_value(s[i]));
    }
}

proof fn lemma_scan_port_spec(s: Seq<char>, i: int, value: int)
    requires
        0 <= i <= s.len(),
        0 <= value <= 65535,
    ensures
        scan_port(s, i, value) is Ok <==> (digits_from(s, i) && scan_value(s, i, value)
            <= 65535),
        scan_port(s, i, value) is Ok ==> scan_port(s, i, value) == Ok::<int, Seq<char>>(
            scan_value(s, i, value),
        ),
    decreases s.len() - i,
{
    if i < s.len() {
        if is_decimal_digit(s[i]) {
            let next = value * 10 + digit_value(s[i]);
            if next <= 65535 {
                lemma_scan_port_spec(s, i + 1, next);
            } else {
                if digits_from(s, i + 1) {
                    lemma_scan_value_grows(s, i + 1, next);
                }
            }
        }
    }
}

proof fn lemma_scan_value_decimal(s: Seq<char>, i: int, value: int)
    requires
        0 <= i <= s.len(),
        value == decimal_value(s.take(i)),
    ensures
        scan_value(s, i, value) == decimal_value(s),
    decreases s.len() - i,
{
    if i == s.len() {
        assert(s.take(i) =~= s);
    } else {
        assert(s.take(i + 1).drop_last() =~= s.take(i));
        assert(s.take(i + 1).last() == s[i]);
        lemma_scan_value_decimal(s, i + 1, value * 10 + digit_value(s[i]));
    }
}

/// The scan agrees with the positional reading of the text: it succeeds on
/// exactly the valid port texts, and then returns their value.
pub proof fn lemma_parse_port_correct(s: Seq<char>)
    ensures
        spec_parse_port(s) is Ok <==> is_port_text(s),
        is_port_text(s) ==> spec_parse_port(s) == Ok::<int, Seq<char>>(decimal_value(s)),
{
    if s.len() > 0 {
        lemma_scan_port_spec(s, 0, 0);
        assert(s.take(0) =~= Seq::<char>::empty());
        lemma_scan_value_decimal(s, 0, 0);
    }
}

/// Reads a port number from the text of the port environment variable:
/// the value for a valid port text, the cause of the failure otherwise.
pub fn parse_port(s: &str) -> (r: Result<u16, String>)
    ensures
        is_port_text(s@) ==> r == Ok::<u16, String>(decimal_value(s@) as u16),
        !is_port_text(s@) ==> (r matches Err(cause) && cause@ == port_parse_cause(s@)),
{
    proof {
        lemma_parse_port_correct(s@);
    }
    let n = s.unicode_len();
    if n == 0 {
        return Err(String::from_str("cannot parse integer from empty string"));
    }
    let mut value: u32 = 0;
    let mut i: usize = 0;
    while i < n
        invariant
            0 <= i <= n,
            n == s@.len(),
            value <= 65535,
            scan_port(s@, 0, 0) == scan_port(s@, i as int, value as int),
        decreases n - i,
    {
        let c = s.get_char(i);
        if (c as u32) < ('0' as u32) || (c as u32) > ('9' as u32) {
            proof {
                lemma_parse_port_correct(s@);
                assert(scan_port(s@, i as int, value as int) == Err::<int, Seq<char>>(
                    invalid_digit_msg(),
                ));
            }
            return Err(String::from_str("invalid digit found in string"));
        }
        let d: u32 = c as u32 - '0' as u32;
        let next: u32 = value * 10 + d;
        if next > 65535 {
            proof {
                lemma_parse_port_correct(s@);
                assert(digit_value(s@[i as int]) == d as int);
                assert(scan_port(s@, i as int, value as int) == Err::<int, Seq<char>>(
                    too_large_msg(),
                ));
            }
            return Err(String::from_str("number too large to fit in target type"));
        }
        value = next;
        i = i + 1;
    }
    Ok(value as u16)
}

} // verus!
