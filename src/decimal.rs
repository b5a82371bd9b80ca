//! The textual form of decimal numbers carried by the float fields of a kline.
use vstd::prelude::*;

verus! {

pub open spec fn is_digit(c: char) -> bool {
    '0' <= c && c <= '9'
}

pub open spec fn is_sign(c: char) -> bool {
    c == '+' || c == '-'
}

pub open spec fn is_exp_marker(c: char) -> bool {
    c == 'e' || c == 'E'
}

/// Digits with at most one decimal point, and at least one digit.
pub open spec fn is_mantissa(m: Seq<char>) -> bool {
    &&& forall|i: int| 0 <= i < m.len() ==> is_digit(#[trigger] m[i]) || m[i] == '.'
    &&& forall|i: int, j: int|
        0 <= i < m.len() && 0 <= j < m.len() && #[trigger] m[i] == '.' && #[trigger] m[j] == '.'
            ==> i == j
    &&& exists|i: int| 0 <= i < m.len() && is_digit(#[trigger] m[i])
}

/// One or more digits.
pub open spec fn is_digits(d: Seq<char>) -> bool {
    d.len() > 0 && forall|i: int| 0 <= i < d.len() ==> is_digit(#[trigger] d[i])
}

/// The text without its leading sign, if it has one.
pub open spec fn strip_sign(s: Seq<char>) -> Seq<char> {
    if s.len() > 0 && is_sign(s[0]) {
        s.drop_first()
    } else {
        s
    }
}

/// Decimal notation: an optional sign, a mantissa, and an optional exponent
/// made of `e` or `E`, an optional sign and digits.
pub open spec fn is_decimal_text(s: Seq<char>) -> bool {
    ||| is_mantissa(strip_sign(s))
    ||| exists|k: int|
        0 <= k < s.len() && is_exp_marker(#[trigger] s[k]) && is_mantissa(
            strip_sign(s.subrange(0, k)),
        ) && is_digits(strip_sign(s.subrange(k + 1, s.len() as int)))
}

fn is_digit_char(c: char) -> (r: bool)
    ensures
        r == is_digit(c),
{
    '0' <= c && c <= '9'
}

/// The start of `s[lo..hi]` once a leading sign is skipped.
fn skip_sign(s: &str, lo: usize, hi: usize) -> (r: usize)
    requires
        lo <= hi <= s@.len(),
    ensures
        lo <= r <= hi,
        strip_sign(s@.subrange(lo as int, hi as int)) == s@.subrange(r as int, hi as int),
{
    if lo < hi {
        let c = s.get_char(lo);
        if c == '+' || c == '-' {
            assert(s@.subrange(lo as int, hi as int).drop_first() =~= s@.subrange(
                lo + 1,
                hi as int,
            ));
            return lo + 1;
        }
    }
    lo
}

/// Whether `s[lo..hi]` is a mantissa.
fn check_mantissa(s: &str, lo: usize, hi: usize) -> (r: bool)
    requires
        lo <= hi <= s@.len(),
    ensures
        r == is_mantissa(s@.subrange(lo as int, hi as int)),
{
    let ghost m = s@.subrange(lo as int, hi as int);
    let mut seen_dot = false;
    let mut dot: usize = lo;
    let mut seen_digit = false;
    let mut digit: usize = lo;
    let mut i: usize = lo;
    while i < hi
        invariant
            lo <= i <= hi <= s@.len(),
            m == s@.subrange(lo as int, hi as int),
            forall|j: int| lo <= j < i ==> is_digit(#[trigger] s@[j]) || s@[j] == '.',
            seen_dot ==> lo <= dot < i && s@[dot as int] == '.',
            forall|j: int| lo <= j < i && #[trigger] s@[j] == '.' ==> seen_dot && j == dot,
            seen_digit ==> lo <= digit < i && is_digit(s@[digit as int]),
            !seen_digit ==> forall|j: int| lo <= j < i ==> !is_digit(#[trigger] s@[j]),
        decreases hi - i,
    {
        let c = s.get_char(i);
        assert(m[i - lo] == s@[i as int]);
        if is_digit_char(c) {
            seen_digit = true;
            digit = i;
        } else if c == '.' {
            if seen_dot {
                assert(m[dot - lo] == s@[dot as int]);
                return false;
            }
            seen_dot = true;
            dot = i;
        } else {
            return false;
        }
        i = i + 1;
    }
    if seen_digit {
        assert(m[digit - lo] == s@[digit as int]);
        assert forall|a: int| 0 <= a < m.len() implies is_digit(#[trigger] m[a]) || m[a] == '.' by {
            assert(m[a] == s@[a + lo]);
        }
        assert forall|a: int, b: int|
            0 <= a < m.len() && 0 <= b < m.len() && #[trigger] m[a] == '.' && #[trigger] m[b]
                == '.' implies a == b by {
            assert(m[a] == s@[a + lo]);
            assert(m[b] == s@[b + lo]);
        }
        true
    } else {
        assert forall|a: int| 0 <= a < m.len() implies !is_digit(#[trigger] m[a]) by {
            assert(m[a] == s@[a + lo]);
        }
        false
    }
}

/// Whether `s[lo..hi]` is one or more digits.
fn check_digits(s: &str, lo: usize, hi: usize) -> (r: bool)
    requires
        lo <= hi <= s@.len(),
    ensures
        r == is_digits(s@.subrange(lo as int, hi as int)),
{
    let ghost d = s@.subrange(lo as int, hi as int);
    if lo == hi {
        return false;
    }
    let mut i: usize = lo;
    while i < hi
        invariant
            lo <= i <= hi <= s@.len(),
            d == s@.subrange(lo as int, hi as int),
            forall|j: int| lo <= j < i ==> is_digit(#[trigger] s@[j]),
        decreases hi - i,
    {
        let c = s.get_char(i);
        assert(d[i - lo] == s@[i as int]);
        if !is_digit_char(c) {
            return false;
        }
        i = i + 1;
    }
    assert forall|a: int| 0 <= a < d.len() implies is_digit(#[trigger] d[a]) by {
        assert(d[a] == s@[a + lo]);
    }
    true
}

/// Whether `s` is in decimal notation.
pub fn is_decimal(s: &str) -> (r: bool)
    ensures
        r == is_decimal_text(s@),
{
    let n = s.unicode_len();
    let mut k: usize = 0;
    while k < n
        invariant
            k <= n == s@.len(),
            forall|j: int| 0 <= j < k ==> !is_exp_marker(#[trigger] s@[j]),
        ensures
            k <= n,
            forall|j: int| 0 <= j < k ==> !is_exp_marker(#[trigger] s@[j]),
            k < n ==> is_exp_marker(s@[k as int]),
        decreases n - k,
    {
        let c = s.get_char(k);
        if c == 'e' || c == 'E' {
            break;
        }
        k = k + 1;
    }
    assert(s@.subrange(0, n as int) =~= s@);
    let m_start = skip_sign(s, 0, k);
    let mantissa_ok = check_mantissa(s, m_start, k);
    if k == n {
        if !mantissa_ok {
            assert forall|j: int|
                0 <= j < s@.len() && is_exp_marker(#[trigger] s@[j]) implies !is_mantissa(
                strip_sign(s@.subrange(0, j)),
            ) || !is_digits(strip_sign(s@.subrange(j + 1, s@.len() as int))) by {}
        }
        return mantissa_ok;
    }
    assert(is_exp_marker(s@[k as int]));
    let e_start = skip_sign(s, k + 1, n);
    let exp_ok = check_digits(s, e_start, n);
    let r = mantissa_ok && exp_ok;
    let ghost whole = strip_sign(s@);
    if !r {
        assert forall|j: int|
            0 <= j < s@.len() && is_exp_marker(#[trigger] s@[j]) implies !is_mantissa(
            strip_sign(s@.subrange(0, j)),
        ) || !is_digits(strip_sign(s@.subrange(j + 1, s@.len() as int))) by {
            if j > k {
                let pre = s@.subrange(0, j);
                let body = strip_sign(pre);
                let off: int = if pre.len() > 0 && is_sign(pre[0]) { 1 } else { 0 };
                assert(body[k - off] == s@[k as int]);
            }
        }
        // the whole text holds an exponent marker, which no mantissa holds
        proof {
            let off: int = if s@.len() > 0 && is_sign(s@[0]) { 1 } else { 0 };
            assert(whole[k - off] == s@[k as int]);
        }
    }
    r
}

} // verus!
