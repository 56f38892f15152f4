//! Small verified helpers on strings: equality, locating a `=` separator,
//! and reading a decimal numeral.

use vstd::prelude::*;
use vstd::string::StrSliceExecFns;

verus! {

/// A decimal digit.
pub open spec fn is_digit(c: char) -> bool {
    48 <= c as u32 <= 57
}

/// The numeric value of a decimal digit.
pub open spec fn digit_val(c: char) -> nat {
    (c as u32 - 48) as nat
}

/// A non-empty run of decimal digits.
pub open spec fn is_dec(s: Seq<char>) -> bool {
    s.len() > 0 && forall|i: int| 0 <= i < s.len() ==> is_digit(#[trigger] s[i])
}

/// The value of a run of decimal digits, most significant first.
pub open spec fn dec_val(s: Seq<char>) -> nat
    decreases s.len(),
{
    if s.len() == 0 {
        0
    } else {
        dec_val(s.drop_last()) * 10 + digit_val(s.last())
    }
}

/// The position of the first `=` in `t` at or after `i`, if any.
pub open spec fn eq_pos(t: Seq<char>, i: int) -> Option<int>
    decreases t.len() - i,
{
    if i < 0 || i >= t.len() {
        None
    } else if t[i] == '=' {
        Some(i)
    } else {
        eq_pos(t, i + 1)
    }
}

pub proof fn lemma_eq_pos_bounds(t: Seq<char>, i: int, p: int)
    requires
        eq_pos(t, i) == Some(p),
    ensures
        i <= p < t.len(),
        t[p] == '=',
    decreases t.len() - i,
{
    if !(i < 0 || i >= t.len()) && t[i] != '=' {
        lemma_eq_pos_bounds(t, i + 1, p);
    }
}

/// Character-for-character string equality, decided without assuming the
/// strings are ASCII.
pub fn str_eq(a: &str, b: &str) -> (r: bool)
    ensures
        r == (a@ == b@),
{
    let la = a.unicode_len();
    let lb = b.unicode_len();
    if la != lb {
        return false;
    }
    let mut i: usize = 0;
    while i < la
        invariant
            i <= la,
            la == a@.len(),
            lb == b@.len(),
            la == lb,
            forall|j: int| 0 <= j < i ==> a@[j] == b@[j],
        decreases la - i,
    {
        let ca = a.get_char(i);
        let cb = b.get_char(i);
        if ca != cb {
            return false;
        }
        i += 1;
    }
    proof {
        assert(a@ =~= b@);
    }
    true
}

/// The position of the first `=` in `s`, if any.
pub fn find_eq(s: &str) -> (r: Option<usize>)
    ensures
        match r {
            Some(p) => eq_pos(s@, 0) == Some(p as int),
            None => eq_pos(s@, 0) == None::<int>,
        },
{
    let n = s.unicode_len();
    let mut i: usize = 0;
    while i < n
        invariant
            i <= n,
            n == s@.len(),
            eq_pos(s@, 0) == eq_pos(s@, i as int),
        decreases n - i,
    {
        let c = s.get_char(i);
        if c == '=' {
            return Some(i);
        }
        i += 1;
    }
    None
}

/// Reads `s` as a decimal numeral. Returns `None` when `s` is not a
/// non-empty run of digits; otherwise the value, exact whenever it is small
/// enough to matter and in any case above 65535 whenever the numeral's value
/// is.
pub fn scan_value(s: &str) -> (r: Option<u64>)
    ensures
        match r {
            Some(v) => {
                &&& is_dec(s@)
                &&& dec_val(s@) <= 65535 ==> v == dec_val(s@)
                &&& dec_val(s@) > 65535 ==> v > 65535
            },
            None => !is_dec(s@),
        },
{
    let n = s.unicode_len();
    if n == 0 {
        return None;
    }
    let mut i: usize = 0;
    let mut val: u64 = 0;
    while i < n
        invariant
            i <= n,
            n == s@.len(),
            n > 0,
            forall|j: int| 0 <= j < i ==> is_digit(#[trigger] s@[j]),
            val <= 655359,
            dec_val(s@.subrange(0, i as int)) <= 65535 ==> val == dec_val(s@.subrange(0, i as int)),
            dec_val(s@.subrange(0, i as int)) > 65535 ==> val > 65535,
        decreases n - i,
    {
        let c = s.get_char(i);
        let cu = c as u32;
        if cu < 48 || cu > 57 {
            proof {
                assert(!is_digit(s@[i as int]));
            }
            return None;
        }
        proof {
            let p = s@.subrange(0, i as int);
            let q = s@.subrange(0, i + 1);
            assert(q.drop_last() =~= p);
            assert(q.last() == s@[i as int]);
        }
        if val <= 65535 {
            val = val * 10 + (cu - 48) as u64;
        }
        i += 1;
    }
    proof {
        assert(s@.subrange(0, n as int) =~= s@);
    }
    Some(val)
}

} // verus!
