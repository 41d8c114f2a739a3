use vstd::prelude::*;

use crate::text::{chars_of, lower_spec, str_eq, to_lower, trim, trim_spec};

verus! {

// ---------------------------------------------------------------------------
// Reading settings from environment variable values.
// ---------------------------------------------------------------------------

/// The values of the environment variables the configuration reads.
#[derive(Debug, Clone)]
pub struct EnvSnapshot {
    /// `TERMINAL_WIDTH`.
    pub terminal_width: Option<String>,
    /// `FORCE_COLOR`.
    pub force_color: Option<String>,
    /// `PY_COLORS`.
    pub py_colors: Option<String>,
    /// `GITHUB_ACTIONS`.
    pub github_actions: Option<String>,
    /// `RICH_CLICK_THEME`.
    pub theme: Option<String>,
}

/// A yes/no value: `1`, `true`, `yes`, `on` and `0`, `false`, `no`, `off`,
/// in any case and surrounded by any white space.
pub open spec fn truthy_spec(v: Seq<char>) -> Option<bool> {
    let l = lower_spec(trim_spec(v));
    if l == "1"@ || l == "true"@ || l == "yes"@ || l == "on"@ {
        Some(true)
    } else if l == "0"@ || l == "false"@ || l == "no"@ || l == "off"@ {
        Some(false)
    } else {
        None
    }
}

/// Reads a yes/no value.
pub fn parse_truthy(value: &str) -> (r: Option<bool>)
    ensures
        r == truthy_spec(value@),
{
    let t = trim(value);
    let l = to_lower(t.as_str());
    let s = l.as_str();
    if str_eq(s, "1") || str_eq(s, "true") || str_eq(s, "yes") || str_eq(s, "on") {
        Some(true)
    } else if str_eq(s, "0") || str_eq(s, "false") || str_eq(s, "no") || str_eq(s, "off") {
        Some(false)
    } else {
        None
    }
}

pub open spec fn is_digit(c: char) -> bool {
    '0' <= c && c <= '9'
}

pub open spec fn all_digits(d: Seq<char>) -> bool {
    forall|i: int| 0 <= i < d.len() ==> is_digit(#[trigger] d[i])
}

/// The value of a sequence of decimal digits.
pub open spec fn decimal_value(ds: Seq<char>) -> nat
    decreases ds.len(),
{
    if ds.len() == 0 {
        0
    } else {
        decimal_value(ds.drop_last()) * 10 + ((ds.last() as u32) - ('0' as u32)) as nat
    }
}

/// What `usize::from_str` accepts: an optional `+`, then at least one
/// decimal digit, for a value that fits.
pub open spec fn usize_spec(s: Seq<char>) -> Option<usize> {
    let d = if s.len() > 0 && s[0] == '+' {
        s.skip(1)
    } else {
        s
    };
    if d.len() == 0 || !all_digits(d) {
        None
    } else if decimal_value(d) <= usize::MAX {
        Some(decimal_value(d) as usize)
    } else {
        None
    }
}

proof fn lemma_decimal_mono(ds: Seq<char>, i: int)
    requires
        0 <= i <= ds.len(),
        forall|k: int| 0 <= k < ds.len() ==> is_digit(#[trigger] ds[k]),
    ensures
        decimal_value(ds.take(i)) <= decimal_value(ds),
    decreases ds.len() - i,
{
    if i < ds.len() {
        lemma_decimal_mono(ds, i + 1);
        assert(ds.take(i + 1).drop_last() =~= ds.take(i));
    } else {
        assert(ds.take(i) =~= ds);
    }
}

/// Reads a non-negative integer as `usize::from_str` does.
#[verifier::loop_isolation(false)]
pub fn parse_usize(s: &str) -> (r: Option<usize>)
    ensures
        r == usize_spec(s@),
{
    let chars = chars_of(s);
    let start: usize = if chars.len() > 0 && chars[0] == '+' {
        1
    } else {
        0
    };
    let ghost d = if s@.len() > 0 && s@[0] == '+' {
        s@.skip(1)
    } else {
        s@
    };
    assert(d =~= chars@.skip(start as int));
    if start == chars.len() {
        return None;
    }
    let mut value: usize = 0;
    let mut i: usize = start;
    while i < chars.len()
        invariant
            start <= i <= chars@.len(),
            d == chars@.skip(start as int),
            forall|k: int| start <= k < i ==> is_digit(#[trigger] chars@[k]),
            value == decimal_value(d.take(i - start)),
        decreases chars.len() - i,
    {
        let c = chars[i];
        assert(d.take(i + 1 - start).drop_last() =~= d.take(i - start));
        assert(d.take(i + 1 - start).last() == c);
        if c < '0' || c > '9' {
            assert(!is_digit(d[i - start]));
            assert(!all_digits(d));
            return None;
        }
        let digit = (c as u32 - '0' as u32) as usize;
        let next = match value.checked_mul(10) {
            Some(m) => m.checked_add(digit),
            None => None,
        };
        match next {
            Some(v) => {
                value = v;
            },
            None => {
                proof {
                    assert(decimal_value(d.take(i + 1 - start)) > usize::MAX);
                    if all_digits(d) {
                        lemma_decimal_mono(d, i + 1 - start);
                    }
                }
                return None;
            },
        }
        i = i + 1;
    }
    assert(d.take(i - start) =~= d);
    Some(value)
}

} // verus!
