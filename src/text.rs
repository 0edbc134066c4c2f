//! String helpers shared by the resolver: comparison, concatenation,
//! lower-casing of attribute names and decimal parsing.

use vstd::prelude::*;

verus! {

/// What `str::to_lowercase` returns for a string.
pub uninterp spec fn lower_of(s: Seq<char>) -> Seq<char>;

/// Relies on `str::to_lowercase`: the result depends on the characters alone,
/// and the empty string stays empty.
#[verifier::external_body]
pub(crate) fn lowercase(s: &str) -> (r: String)
    ensures
        r@ == lower_of(s@),
        s@.len() == 0 ==> r@.len() == 0,
{
    s.to_lowercase()
}

/// Character-wise equality of two strings.
pub fn str_eq(a: &str, b: &str) -> (r: bool)
    ensures
        r == (a@ == b@),
{
    let n = a.unicode_len();
    if n != b.unicode_len() {
        return false;
    }
    let mut i: usize = 0;
    while i < n
        invariant
            n == a@.len(),
            n == b@.len(),
            0 <= i <= n,
            forall|j: int| 0 <= j < i ==> a@[j] == b@[j],
        decreases n - i,
    {
        if a.get_char(i) != b.get_char(i) {
            return false;
        }
        i += 1;
    }
    assert(a@ =~= b@);
    true
}

/// A fresh string holding `a` followed by `b` and `c`.
pub fn concat3(a: &str, b: &str, c: &str) -> (r: String)
    ensures
        r@ == a@ + b@ + c@,
{
    let mut r = String::from_str(a);
    r.append(b);
    r.append(c);
    r
}

/// Why a string of decimal digits was not read as a count.
#[derive(Clone, Copy, Debug, PartialEq, Eq, Structural)]
pub enum CountError {
    Empty,
    InvalidDigit,
    TooLarge,
}

pub open spec fn is_digit(c: char) -> bool {
    '0' <= c && c <= '9'
}

pub open spec fn digit_value(c: char) -> nat {
    (c as u32 - '0' as u32) as nat
}

/// Reads the first `n` characters of `s` left to right; the first character
/// that is no digit, or the first digit after which the value no longer fits
/// in a `usize`, decides the error.
pub open spec fn decimal_prefix(s: Seq<char>, n: nat) -> Result<nat, CountError>
    decreases n,
{
    if n == 0 {
        Ok(0)
    } else {
        match decimal_prefix(s, (n - 1) as nat) {
            Err(e) => Err(e),
            Ok(v) => {
                let c = s[n - 1];
                if !is_digit(c) {
                    Err(CountError::InvalidDigit)
                } else if v * 10 + digit_value(c) > usize::MAX {
                    Err(CountError::TooLarge)
                } else {
                    Ok(v * 10 + digit_value(c))
                }
            },
        }
    }
}

/// Once reading a prefix has failed, every longer prefix fails the same way.
pub proof fn lemma_decimal_error_persists(s: Seq<char>, k: nat, n: nat)
    requires
        k <= n,
        decimal_prefix(s, k) is Err,
    ensures
        decimal_prefix(s, n) == decimal_prefix(s, k),
    decreases n - k,
{
    if k < n {
        lemma_decimal_error_persists(s, k, (n - 1) as nat);
    }
}

/// The count that a string of decimal digits denotes.
pub open spec fn decimal_value(s: Seq<char>) -> Result<nat, CountError> {
    if s.len() == 0 {
        Err(CountError::Empty)
    } else {
        decimal_prefix(s, s.len())
    }
}

/// Reads a string of ASCII decimal digits as a `usize`.
pub fn parse_decimal(s: &str) -> (r: Result<usize, CountError>)
    ensures
        match decimal_value(s@) {
            Ok(v) => r == Ok::<usize, CountError>(v as usize),
            Err(e) => r == Err::<usize, CountError>(e),
        },
{
    let n = s.unicode_len();
    if n == 0 {
        return Err(CountError::Empty);
    }
    let mut v: usize = 0;
    let mut i: usize = 0;
    while i < n
        invariant
            n == s@.len(),
            0 <= i <= n,
            decimal_prefix(s@, i as nat) == Ok::<nat, CountError>(v as nat),
        decreases n - i,
    {
        let c = s.get_char(i);
        if !('0' <= c && c <= '9') {
            proof {
                lemma_decimal_error_persists(s@, (i + 1) as nat, n as nat);
            }
            return Err(CountError::InvalidDigit);
        }
        let d = (c as u32 - '0' as u32) as usize;
        if v > (usize::MAX - d) / 10 {
            assert(v * 10 + d > usize::MAX) by (nonlinear_arith)
                requires
                    v > (usize::MAX - d) / 10,
                    d <= 9,
            ;
            proof {
                lemma_decimal_error_persists(s@, (i + 1) as nat, n as nat);
            }
            return Err(CountError::TooLarge);
        }
        assert(v * 10 + d <= usize::MAX) by (nonlinear_arith)
            requires
                v <= (usize::MAX - d) / 10,
                d <= 9,
        ;
        v = v * 10 + d;
        i += 1;
    }
    Ok(v)
}

} // verus!
