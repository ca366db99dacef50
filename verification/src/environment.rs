//! Reading configuration out of the process environment.
//!
//! The environment itself is outside the library: a trusted wrapper hands
//! its variables over as plain key/value pairs, and everything after that
//! — picking keys out, parsing integers — is verified here.

use vstd::prelude::*;
use vstd::utf8::is_ascii_chars;

verus! {

/// Relies on the `config` crate's `Environment` source: the variables of
/// this process's environment whose names start with `prefix` plus `_`,
/// keys lowercased with the prefix kept (`APP_REDIS_URL` comes back as
/// `"app_redis_url"`).
#[verifier::external_body]
pub(crate) fn environment_pairs(prefix: &str) -> (r: Vec<(String, String)>) {
    let source = ::config::Environment::with_prefix(prefix).keep_prefix(true);
    match ::config::Config::builder().add_source(source).build() {
        Ok(c) => match c.try_deserialize::<std::collections::HashMap<String, String>>() {
            Ok(m) => m.into_iter().collect(),
            Err(_) => Vec::new(),
        },
        Err(_) => Vec::new(),
    }
}

/// The value of the first pair whose key reads `upper` or `lower` — the
/// canonical spelling of one variable in either case.
pub open spec fn spec_env_value(
    pairs: Seq<(String, String)>,
    upper: Seq<char>,
    lower: Seq<char>,
) -> Option<Seq<char>>
    decreases pairs.len(),
{
    if pairs.len() == 0 {
        None
    } else if pairs[0].0@ == upper || pairs[0].0@ == lower {
        Some(pairs[0].1@)
    } else {
        spec_env_value(pairs.drop_first(), upper, lower)
    }
}

/// Find a variable under its canonical upper-case name or its lowercased
/// form.
pub fn lookup(pairs: &Vec<(String, String)>, upper: &str, lower: &str) -> (r: Option<String>)
    ensures
        match r {
            Some(v) => spec_env_value(pairs@, upper@, lower@) == Some(v@),
            None => spec_env_value(pairs@, upper@, lower@) is None,
        },
{
    let upper_key: String = upper.to_owned();
    let lower_key: String = lower.to_owned();
    let n = pairs.len();
    let mut i: usize = 0;
    proof {
        assert(pairs@.skip(0) =~= pairs@);
    }
    while i < n
        invariant
            0 <= i <= n,
            n == pairs@.len(),
            upper_key@ == upper@,
            lower_key@ == lower@,
            spec_env_value(pairs@.skip(i as int), upper@, lower@) == spec_env_value(
                pairs@,
                upper@,
                lower@,
            ),
        decreases n - i,
    {
        proof {
            assert(pairs@.skip(i as int)[0] == pairs@[i as int]);
            assert(pairs@.skip(i as int).drop_first() =~= pairs@.skip(i as int + 1));
        }
        let p = &pairs[i];
        if p.0 == upper_key || p.0 == lower_key {
            return Some(p.1.clone());
        }
        i += 1;
    }
    None
}

/// A decimal digit, by code point.
pub open spec fn spec_is_digit(c: char) -> bool {
    48 <= c as int && c as int <= 57
}

/// A non-empty string of decimal digits.
pub open spec fn spec_is_digits(s: Seq<char>) -> bool {
    s.len() > 0 && forall|i: int| 0 <= i < s.len() ==> spec_is_digit(#[trigger] s[i])
}

/// The numeric value of a digit string, most significant first.
pub open spec fn spec_digits_value(s: Seq<char>) -> int
    decreases s.len(),
{
    if s.len() == 0 {
        0
    } else {
        spec_digits_value(s.drop_last()) * 10 + (s.last() as int - 48)
    }
}

/// What `parse_u64` accepts: digits only, and a value that fits.
pub open spec fn spec_parse_u64(s: Seq<char>) -> Option<u64> {
    if spec_is_digits(s) && spec_digits_value(s) <= u64::MAX {
        Some(spec_digits_value(s) as u64)
    } else {
        None
    }
}

proof fn lemma_digits_value_nonneg(s: Seq<char>)
    requires
        forall|i: int| 0 <= i < s.len() ==> spec_is_digit(#[trigger] s[i]),
    ensures
        spec_digits_value(s) >= 0,
    decreases s.len(),
{
    if s.len() > 0 {
        lemma_digits_value_nonneg(s.drop_last());
    }
}

/// Extending a digit prefix never decreases its value.
proof fn lemma_digits_value_prefix_le(s: Seq<char>, k: int)
    requires
        forall|i: int| 0 <= i < s.len() ==> spec_is_digit(#[trigger] s[i]),
        0 <= k <= s.len(),
    ensures
        spec_digits_value(s.take(k)) <= spec_digits_value(s),
    decreases s.len() - k,
{
    if k == s.len() {
        assert(s.take(k) =~= s);
    } else {
        let t = s.take(k + 1);
        assert(t.drop_last() =~= s.take(k));
        assert(t.last() == s[k]);
        lemma_digits_value_nonneg(s.take(k));
        assert(spec_digits_value(s.take(k)) <= spec_digits_value(t));
        lemma_digits_value_prefix_le(s, k + 1);
    }
}

/// Parse a non-negative decimal integer, exactly as `spec_parse_u64`
/// reads it: every character a digit, and the value within `u64`.
pub fn parse_u64(s: &str) -> (r: Option<u64>)
    ensures
        r == spec_parse_u64(s@),
{
    if !s.is_ascii() {
        proof {
            let i = choose|i: int| !(0 <= i < s@.len() ==> '\0' <= #[trigger] s@[i] <= '\u{7f}');
            assert(!spec_is_digit(s@[i]));
        }
        return None;
    }
    proof {
        vstd::string::is_ascii_spec_bytes(s);
    }
    let b = s.as_bytes();
    let n = b.len();
    if n == 0 {
        return None;
    }
    let mut i: usize = 0;
    let mut acc: u64 = 0;
    while i < n
        invariant
            0 <= i <= n,
            n == s@.len(),
            b@.len() == s@.len(),
            forall|k: int| 0 <= k < s@.len() ==> b@[k] == #[trigger] s@[k] as u8,
            is_ascii_chars(s@),
            forall|k: int| 0 <= k < i ==> spec_is_digit(#[trigger] s@[k]),
            acc as int == spec_digits_value(s@.take(i as int)),
        decreases n - i,
    {
        proof {
            assert(s@.take(i as int + 1).drop_last() =~= s@.take(i as int));
            assert(s@.take(i as int + 1).last() == s@[i as int]);
            assert('\0' <= s@[i as int] <= '\u{7f}');
            assert(s@[i as int] as u8 as int == s@[i as int] as int);
        }
        let c = b[i];
        if c < 48 || c > 57 {
            proof {
                assert(!spec_is_digit(s@[i as int]));
            }
            return None;
        }
        let d: u64 = (c - 48) as u64;
        if acc > (u64::MAX - d) / 10 {
            proof {
                assert(acc as int * 10 + d as int > u64::MAX as int) by (nonlinear_arith)
                    requires
                        acc as int > ((u64::MAX - d) as int) / 10,
                        0 <= d as int <= 9,
                ;
                assert(spec_digits_value(s@.take(i as int + 1)) > u64::MAX as int);
                if spec_is_digits(s@) {
                    lemma_digits_value_prefix_le(s@, i as int + 1);
                }
            }
            return None;
        }
        acc = acc * 10 + d;
        i += 1;
    }
    proof {
        assert(s@.take(n as int) =~= s@);
    }
    Some(acc)
}

} // verus!
