//! Token classification: a target token is a port reference (`:` followed
//! by digits), a PID reference (all digits), or a process-name reference
//! (anything else). A port marker followed by anything but an in-range
//! port number is a parse error.

use vstd::prelude::*;
use vstd::string::*;
use crate::numbers::{is_digit, is_digits, dec_value, lemma_dec_value_prefix};

verus! {

/// How a target token reads.
#[derive(Clone, Copy, Debug, PartialEq, Eq, Structural)]
pub enum Target {
    /// `:` followed by a decimal number that fits a port.
    PortRef(u16),
    /// `:` followed by anything else: rejected before any lookup.
    PortParseError,
    /// A decimal number without the marker: tried as a process identifier.
    PidRef(u64),
    /// Any other token: tried as an exact process name.
    NameRef,
}

/// The classification of a token, character for character.
pub open spec fn spec_classify(t: Seq<char>) -> Target {
    if t.len() > 0 && t[0] == ':' {
        let rest = t.subrange(1, t.len() as int);
        if rest.len() > 0 && is_digits(rest) && dec_value(rest) <= 65535 {
            Target::PortRef(dec_value(rest) as u16)
        } else {
            Target::PortParseError
        }
    } else if t.len() > 0 && is_digits(t) && dec_value(t) <= u64::MAX as nat {
        Target::PidRef(dec_value(t) as u64)
    } else {
        Target::NameRef
    }
}

/// Parse the characters of `s` from position `from` to the end as a
/// decimal number. `None` exactly when that range is empty, contains a
/// non-digit, or denotes a value beyond `u64`.
pub fn parse_decimal_from(s: &str, from: usize) -> (r: Option<u64>)
    requires
        from <= s@.len(),
    ensures
        (match r {
            Some(v) => {
                let rest = s@.subrange(from as int, s@.len() as int);
                rest.len() > 0 && is_digits(rest) && v as nat == dec_value(rest)
            },
            None => {
                let rest = s@.subrange(from as int, s@.len() as int);
                !(rest.len() > 0 && is_digits(rest) && dec_value(rest) <= u64::MAX as nat)
            },
        }),
{
    let n: usize = s.unicode_len();
    if from == n {
        return None;
    }
    let mut acc: u64 = 0;
    let mut i: usize = from;
    while i < n
        invariant
            from <= i <= n,
            n == s@.len(),
            is_digits(s@.subrange(from as int, i as int)),
            acc as nat == dec_value(s@.subrange(from as int, i as int)),
        decreases n - i,
    {
        let c = s.get_char(i);
        let cv: u32 = c as u32;
        if cv < 48 || cv > 57 {
            proof {
                let rest = s@.subrange(from as int, n as int);
                assert(rest[i - from] == s@[i as int]);
            }
            return None;
        }
        let d: u64 = (cv - 48) as u64;
        if acc <= (u64::MAX - d) / 10 {
            proof {
                assert((acc as nat) * 10 + (d as nat) <= u64::MAX as nat) by (nonlinear_arith)
                    requires
                        acc <= (u64::MAX - d) / 10,
                        d <= 9,
                ;
                assert(s@.subrange(from as int, i as int + 1).drop_last() =~= s@.subrange(
                    from as int,
                    i as int,
                ));
                assert(s@.subrange(from as int, i as int + 1).last() == s@[i as int]);
            }
            acc = acc * 10 + d;
            i = i + 1;
        } else {
            proof {
                assert((acc as nat) * 10 + (d as nat) > u64::MAX as nat) by (nonlinear_arith)
                    requires
                        acc > (u64::MAX - d) / 10,
                        d <= 9,
                ;
                let rest = s@.subrange(from as int, n as int);
                if is_digits(rest) {
                    assert(s@.subrange(from as int, i as int + 1).drop_last() =~= s@.subrange(
                        from as int,
                        i as int,
                    ));
                    assert(s@.subrange(from as int, i as int + 1).last() == s@[i as int]);
                    lemma_dec_value_prefix(rest, i - from + 1);
                    assert(rest.subrange(0, i - from + 1) =~= s@.subrange(
                        from as int,
                        i as int + 1,
                    ));
                }
            }
            return None;
        }
    }
    proof {
        assert(s@.subrange(from as int, i as int) =~= s@.subrange(from as int, n as int));
    }
    Some(acc)
}

/// Classify one target token.
pub fn classify(token: &str) -> (c: Target)
    ensures
        c == spec_classify(token@),
{
    let n: usize = token.unicode_len();
    if n > 0 && token.get_char(0) == ':' {
        match parse_decimal_from(token, 1) {
            Some(v) => {
                if v <= 65535 {
                    Target::PortRef(v as u16)
                } else {
                    Target::PortParseError
                }
            },
            None => Target::PortParseError,
        }
    } else if n > 0 {
        proof {
            assert(token@.subrange(0, n as int) =~= token@);
        }
        match parse_decimal_from(token, 0) {
            Some(v) => Target::PidRef(v),
            None => Target::NameRef,
        }
    } else {
        Target::NameRef
    }
}

/// A token of the port marker followed by a digit string whose value fits
/// a port classifies as exactly that port.
pub proof fn lemma_classify_port_numeric(t: Seq<char>)
    requires
        t.len() > 1,
        t[0] == ':',
        is_digits(t.subrange(1, t.len() as int)),
        dec_value(t.subrange(1, t.len() as int)) <= 65535,
    ensures
        spec_classify(t) == Target::PortRef(dec_value(t.subrange(1, t.len() as int)) as u16),
{
}

/// A token of the port marker followed by anything that is not an in-range
/// digit string classifies as a parse error.
pub proof fn lemma_classify_port_malformed(t: Seq<char>)
    requires
        t.len() >= 1,
        t[0] == ':',
        !(t.len() > 1 && is_digits(t.subrange(1, t.len() as int)) && dec_value(
            t.subrange(1, t.len() as int),
        ) <= 65535),
    ensures
        spec_classify(t) == Target::PortParseError,
{
}

/// A pure digit token whose value fits a process identifier classifies as
/// that identifier, never as a name.
pub proof fn lemma_classify_digits_is_pid(t: Seq<char>)
    requires
        t.len() > 0,
        is_digits(t),
        dec_value(t) <= u64::MAX as nat,
    ensures
        spec_classify(t) == Target::PidRef(dec_value(t) as u64),
{
    assert(!is_digit(':'));
}

} // verus!
