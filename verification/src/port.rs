//! The port of the local server.
//!
//! A port can be fixed from outside, when the application is built or when
//! it is run; the choice made at build time comes first. Where neither
//! names a usable port, the operating system is asked for a free one.

use crate::text::chars_of;
use vstd::prelude::*;

verus! {

/// The value of a decimal digit.
pub open spec fn digit_value(c: char) -> Option<nat> {
    if '0' <= c && c <= '9' {
        Some((c as u32 - '0' as u32) as nat)
    } else {
        None
    }
}

/// The number that a text of decimal digits stands for; `None` where a
/// character is no digit. The empty text stands for zero.
pub open spec fn number(digits: Seq<char>) -> Option<nat>
    decreases digits.len(),
{
    if digits.len() == 0 {
        Some(0)
    } else {
        match (number(digits.drop_last()), digit_value(digits.last())) {
            (Some(high), Some(low)) => Some(high * 10 + low),
            _ => None,
        }
    }
}

/// The port that a text stands for: an optional plus sign and then one or
/// more decimal digits, for a number that fits into 16 bits. Anything
/// else is no port.
pub open spec fn parsed_port(text: Seq<char>) -> Option<u16> {
    let digits = if text.len() > 0 && text[0] == '+' {
        text.skip(1)
    } else {
        text
    };
    if digits.len() == 0 {
        None
    } else {
        match number(digits) {
            Some(n) if n <= u16::MAX => Some(n as u16),
            _ => None,
        }
    }
}

/// The port that the overrides fix: that of the build-time text if there
/// is one, else that of the run-time text. A build-time text that is no
/// port fixes none, whatever the run-time text says.
pub open spec fn overridden_port(
    build_time: Option<Seq<char>>,
    run_time: Option<Seq<char>>,
) -> Option<u32> {
    let text = match build_time {
        Some(t) => Some(t),
        None => run_time,
    };
    match text {
        Some(t) => match parsed_port(t) {
            Some(port) => Some(port as u32),
            None => None,
        },
        None => None,
    }
}

/// Reads a port number.
pub fn parse_port(text: &str) -> (port: Option<u16>)
    ensures
        port == parsed_port(text@),
{
    let chars = chars_of(text);
    let n = chars.len();
    let first: usize = if n > 0 && chars[0] == '+' {
        1
    } else {
        0
    };
    if first == n {
        return None;
    }
    let ghost digits = text@.skip(first as int);
    assert(text@.skip(0) =~= text@);
    let mut capped: u32 = 0;
    let mut i: usize = first;
    assert(digits.take(0) =~= Seq::<char>::empty());
    while i < n
        invariant
            first <= i <= n,
            chars@ == text@,
            n == text@.len(),
            digits == text@.skip(first as int),
            first == (if text@.len() > 0 && text@[0] == '+' {
                1int
            } else {
                0int
            }),
            text@.skip(0) == text@,
            capped <= 65536,
            match number(digits.take(i - first)) {
                Some(v) => capped == if v > 65535 {
                    65536
                } else {
                    v
                },
                None => false,
            },
        decreases n - i,
    {
        let c = chars[i];
        proof {
            let upto = digits.take(i - first + 1);
            assert(upto.drop_last() =~= digits.take(i - first));
            assert(upto.last() == c);
            assert(digits[i - first] == c);
            if !('0' <= c && c <= '9') {
                lemma_number_needs_digits(digits, i - first);
            }
        }
        if !('0' <= c && c <= '9') {
            return None;
        }
        let d: u32 = c as u32 - '0' as u32;
        capped = if capped >= 65536 {
            65536
        } else if capped * 10 + d > 65535 {
            65536
        } else {
            capped * 10 + d
        };
        i += 1;
    }
    assert(digits.take(n - first) =~= digits);
    if capped > 65535 {
        None
    } else {
        Some(capped as u16)
    }
}

/// A text with a character that is no digit stands for no number.
pub proof fn lemma_number_needs_digits(digits: Seq<char>, k: int)
    requires
        0 <= k < digits.len(),
        digit_value(digits[k]) is None,
    ensures
        number(digits) is None,
    decreases digits.len(),
{
    if k < digits.len() - 1 {
        lemma_number_needs_digits(digits.drop_last(), k);
    }
}

/// The port that the overrides fix, if they fix one. `build_time` is the
/// override that was set when the application was built, `run_time` the
/// one in the environment; where the result is `None`, a free port is to
/// be had from the operating system.
pub fn get_sidecar_port(build_time: Option<&str>, run_time: Option<&str>) -> (port: Option<u32>)
    ensures
        port == overridden_port(
            match build_time {
                Some(t) => Some(t@),
                None => None,
            },
            match run_time {
                Some(t) => Some(t@),
                None => None,
            },
        ),
{
    let text = match build_time {
        Some(t) => Some(t),
        None => run_time,
    };
    match text {
        Some(t) => match parse_port(t) {
            Some(port) => Some(port as u32),
            None => None,
        },
        None => None,
    }
}

} // verus!
