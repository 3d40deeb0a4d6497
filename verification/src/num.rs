//! Numeric tokens.
//!
//! Atoms carry their text; a numeric field of the model is the exact decimal
//! written in the file, kept as an integer mantissa and a count of fraction
//! digits. Nothing in this crate computes with these values, so the decimal
//! is preserved exactly as written.

use vstd::prelude::*;
use vstd::string::StrSliceExecFns;

verus! {

/// An exact decimal: the value is `mantissa / 10^scale`.
///
/// `(at -2.575 ...)` stores x as `mantissa == -2575, scale == 3`; a token
/// without a fraction part has `scale == 0`.
#[derive(Clone, Copy, Debug, PartialEq, Eq, Structural)]
pub struct Real {
    pub mantissa: i64,
    pub scale: usize,
}

impl View for Real {
    type V = Real;

    open spec fn view(&self) -> Real {
        *self
    }
}

impl Real {
    /// The default value of an omitted numeric field.
    pub fn zero() -> (r: Real)
        ensures
            r == (Real { mantissa: 0, scale: 0 }),
    {
        Real { mantissa: 0, scale: 0 }
    }
}

/// One decimal digit.
pub open spec fn is_digit(c: char) -> bool {
    48 <= c as u32 <= 57
}

/// The value of one digit character.
pub open spec fn digit_val(c: char) -> int {
    c as u32 - 48
}

/// Every character of `s` is a decimal digit.
pub open spec fn all_digits(s: Seq<char>) -> bool {
    forall|i: int| 0 <= i < s.len() ==> is_digit(#[trigger] s[i])
}

/// The number a digit run denotes, most significant digit first.
pub open spec fn digits_val(s: Seq<char>) -> int
    decreases s.len(),
{
    if s.len() == 0 {
        0
    } else {
        10 * digits_val(s.drop_last()) + digit_val(s.last())
    }
}

/// Index of the first `'.'` in `s`, if any.
pub open spec fn first_dot(s: Seq<char>) -> Option<int>
    decreases s.len(),
{
    if s.len() == 0 {
        None
    } else if s[0] == '.' {
        Some(0)
    } else {
        match first_dot(s.drop_first()) {
            Some(i) => Some(i + 1),
            None => None,
        }
    }
}

/// What `first_dot` finds: a dot with none before it, or no dot at all.
pub proof fn lemma_first_dot(s: Seq<char>)
    ensures
        match first_dot(s) {
            Some(i) => 0 <= i < s.len() && s[i] == '.' && (forall|k: int|
                0 <= k < i ==> s[k] != '.'),
            None => forall|k: int| 0 <= k < s.len() ==> s[k] != '.',
        },
    decreases s.len(),
{
    if s.len() > 0 && s[0] != '.' {
        lemma_first_dot(s.drop_first());
        match first_dot(s.drop_first()) {
            Some(i) => {
                assert(s[i + 1] == s.drop_first()[i]);
                assert forall|k: int| 0 <= k < i + 1 implies s[k] != '.' by {
                    if k >= 1 {
                        assert(s[k] == s.drop_first()[k - 1]);
                    }
                }
            },
            None => {
                assert forall|k: int| 0 <= k < s.len() implies s[k] != '.' by {
                    if k >= 1 {
                        assert(s[k] == s.drop_first()[k - 1]);
                    }
                }
            },
        }
    }
}

/// The signed mantissa of a digit run.
pub open spec fn signed_val(neg: bool, v: int) -> int {
    if neg {
        -v
    } else {
        v
    }
}

/// The decimal denoted by a sign and an integer part and fraction part,
/// if both parts are non-empty digit runs and the mantissa fits the machine
/// integer that holds it.
pub open spec fn real_of_parts(neg: bool, ip: Seq<char>, fp: Seq<char>) -> Option<Real> {
    if ip.len() >= 1 && fp.len() >= 1 && all_digits(ip) && all_digits(fp) && digits_val(ip + fp)
        <= i64::MAX && fp.len() <= usize::MAX {
        Some(
            Real {
                mantissa: signed_val(neg, digits_val(ip + fp)) as i64,
                scale: fp.len() as usize,
            },
        )
    } else {
        None
    }
}

/// The decimal denoted by a sign and a dot-free body, if the body is a
/// non-empty digit run whose value fits the machine integer that holds it.
pub open spec fn real_no_dot(neg: bool, body: Seq<char>) -> Option<Real> {
    if body.len() >= 1 && all_digits(body) && digits_val(body) <= i64::MAX {
        Some(Real { mantissa: signed_val(neg, digits_val(body)) as i64, scale: 0 })
    } else {
        None
    }
}

/// The decimal a token denotes, if it is written as an optional `-`,
/// a non-empty integer part, and optionally a `.` with a non-empty fraction
/// part, and its mantissa fits the machine integer that holds it.
pub open spec fn spec_parse_real(t: Seq<char>) -> Option<Real> {
    let neg = t.len() > 0 && t[0] == '-';
    let body = if neg {
        t.drop_first()
    } else {
        t
    };
    match first_dot(body) {
        Some(i) => real_of_parts(neg, body.take(i), body.skip(i + 1)),
        None => real_no_dot(neg, body),
    }
}

/// The integer a token denotes, if it is an optional `-` followed by a
/// non-empty digit run whose value fits the machine integer.
pub open spec fn spec_parse_int(t: Seq<char>) -> Option<i64> {
    let neg = t.len() > 0 && t[0] == '-';
    let body = if neg {
        t.drop_first()
    } else {
        t
    };
    if body.len() >= 1 && all_digits(body) && digits_val(body) <= i64::MAX {
        Some(signed_val(neg, digits_val(body)) as i64)
    } else {
        None
    }
}

/// A joined run is all digits exactly when both halves are.
proof fn lemma_all_digits_split(a: Seq<char>, b: Seq<char>)
    ensures
        all_digits(a + b) <==> (all_digits(a) && all_digits(b)),
{
    if all_digits(a + b) {
        assert forall|i: int| 0 <= i < a.len() implies is_digit(a[i]) by {
            assert(a[i] == (a + b)[i]);
        }
        assert forall|i: int| 0 <= i < b.len() implies is_digit(b[i]) by {
            assert(b[i] == (a + b)[a.len() + i]);
        }
    }
    if all_digits(a) && all_digits(b) {
        assert forall|i: int| 0 <= i < (a + b).len() implies is_digit((a + b)[i]) by {
            if i < a.len() {
                assert((a + b)[i] == a[i]);
            } else {
                assert((a + b)[i] == b[i - a.len()]);
            }
        }
    }
}

proof fn lemma_digits_val_nonneg(s: Seq<char>)
    requires
        all_digits(s),
    ensures
        digits_val(s) >= 0,
    decreases s.len(),
{
    if s.len() > 0 {
        assert(forall|i: int| 0 <= i < s.len() - 1 ==> s.drop_last()[i] == s[i]);
        lemma_digits_val_nonneg(s.drop_last());
    }
}

/// A digit run is worth at least any of its prefixes.
proof fn lemma_digits_val_take_le(s: Seq<char>, j: int)
    requires
        all_digits(s),
        0 <= j <= s.len(),
    ensures
        digits_val(s.take(j)) <= digits_val(s),
    decreases s.len() - j,
{
    if j < s.len() {
        lemma_digits_val_take_le(s, j + 1);
        let p1 = s.take(j);
        let p2 = s.take(j + 1);
        assert(p2.drop_last() =~= p1);
        assert(p2.last() == s[j]);
        assert(forall|i: int| 0 <= i < p1.len() ==> p1[i] == s[i]);
        lemma_digits_val_nonneg(p1);
    } else {
        assert(s.take(j) =~= s);
    }
}

/// Folds the digits of `v[lo..hi]` onto an accumulator that already holds the
/// value of the digit run `pre`.
fn accum_digits(v: &Vec<char>, lo: usize, hi: usize, acc0: u64, Ghost(pre): Ghost<Seq<char>>) -> (r:
    Option<u64>)
    requires
        lo <= hi <= v@.len(),
        all_digits(pre),
        acc0 as int == digits_val(pre),
        acc0 <= i64::MAX as u64,
    ensures
        ({
            let w = pre + v@.subrange(lo as int, hi as int);
            match r {
                Some(a) => all_digits(w) && digits_val(w) <= i64::MAX && a as int == digits_val(w)
                    && a <= i64::MAX as u64,
                None => !(all_digits(w) && digits_val(w) <= i64::MAX),
            }
        }),
{
    let ghost w = pre + v@.subrange(lo as int, hi as int);
    proof {
        assert(pre + v@.subrange(lo as int, lo as int) =~= pre);
    }
    let mut acc: u64 = acc0;
    let mut j: usize = lo;
    while j < hi
        invariant
            lo <= j <= hi <= v@.len(),
            all_digits(pre),
            all_digits(pre + v@.subrange(lo as int, j as int)),
            acc as int == digits_val(pre + v@.subrange(lo as int, j as int)),
            acc <= i64::MAX as u64,
            w == pre + v@.subrange(lo as int, hi as int),
        decreases hi - j,
    {
        let c = v[j];
        let ghost p1 = pre + v@.subrange(lo as int, j as int);
        let ghost p2 = pre + v@.subrange(lo as int, j as int + 1);
        proof {
            assert(p2.drop_last() =~= p1);
            assert(p2.last() == c);
            assert(w.take(p2.len() as int) =~= p2);
        }
        let d: u32 = c as u32;
        if d < 48 || d > 57 {
            proof {
                assert(w[p2.len() - 1] == c);
            }
            return None;
        }
        let mut over: bool = false;
        let mut acc2: u64 = 0;
        match acc.checked_mul(10) {
            Some(m) => {
                match m.checked_add((d - 48) as u64) {
                    Some(s2) => {
                        if s2 > i64::MAX as u64 {
                            over = true;
                        } else {
                            acc2 = s2;
                        }
                    },
                    None => {
                        over = true;
                    },
                }
            },
            None => {
                over = true;
            },
        }
        if over {
            proof {
                assert(digits_val(p2) == 10 * digits_val(p1) + digit_val(c));
                assert(digits_val(p2) > i64::MAX);
                if all_digits(w) && digits_val(w) <= i64::MAX {
                    lemma_digits_val_take_le(w, p2.len() as int);
                    assert(false);
                }
            }
            return None;
        }
        proof {
            assert(forall|i: int| 0 <= i < p1.len() ==> p2[i] == p1[i]);
            assert(digits_val(p2) == 10 * digits_val(p1) + digit_val(c));
        }
        acc = acc2;
        j = j + 1;
    }
    proof {
        assert(pre + v@.subrange(lo as int, j as int) =~= w);
    }
    Some(acc)
}

/// Collects the characters of a token.
pub(crate) fn chars_of(t: &str) -> (v: Vec<char>)
    ensures
        v@ == t@,
{
    let n = t.unicode_len();
    let mut v: Vec<char> = Vec::new();
    let mut i: usize = 0;
    while i < n
        invariant
            i <= n,
            n == t@.len(),
            v@ == t@.take(i as int),
        decreases n - i,
    {
        let c = t.get_char(i);
        proof {
            assert(t@.take(i as int + 1) =~= t@.take(i as int).push(t@[i as int]));
        }
        v.push(c);
        i = i + 1;
    }
    proof {
        assert(v@ =~= t@);
    }
    v
}

/// Finds the first `'.'` at or after `start`, as `first_dot` sees the
/// characters from `start` on.
pub(crate) fn find_dot_in(v: &Vec<char>, start: usize) -> (dot: Option<usize>)
    requires
        start <= v@.len(),
    ensures
        ({
            let sub = v@.subrange(start as int, v@.len() as int);
            match dot {
                Some(dj) => start <= dj < v@.len() && first_dot(sub) == Some(dj - start),
                None => first_dot(sub) is None,
            }
        }),
{
    let ghost sub = v@.subrange(start as int, v@.len() as int);
    let n = v.len();
    let mut dot: Option<usize> = None;
    let mut j: usize = start;
    while j < n
        invariant_except_break
            dot is None,
        invariant
            start <= j <= n,
            n == v@.len(),
            forall|k: int| start <= k < j ==> v@[k] != '.',
        ensures
            match dot {
                Some(dj) => start <= dj < n && v@[dj as int] == '.' && (forall|k: int|
                    start <= k < dj ==> v@[k] != '.'),
                None => forall|k: int| start <= k < n ==> v@[k] != '.',
            },
        decreases n - j,
    {
        if v[j] == '.' {
            dot = Some(j);
            break ;
        }
        j = j + 1;
    }
    proof {
        lemma_first_dot(sub);
        assert(forall|k: int| 0 <= k < sub.len() ==> sub[k] == v@[start + k]);
        match dot {
            Some(dj) => {
                assert(sub[dj - start] == '.');
                match first_dot(sub) {
                    Some(fd) => {
                        if fd < dj - start {
                            assert(v@[start + fd] == '.');
                        }
                        if fd > dj - start {
                            assert(sub[dj - start] != '.');
                        }
                    },
                    None => {
                        assert(sub[dj - start] != '.');
                    },
                }
            },
            None => {
                if first_dot(sub) is Some {
                    let fd = first_dot(sub)->Some_0;
                    assert(sub[fd] == '.');
                }
            },
        }
    }
    dot
}

/// Applies the written sign to a magnitude that fits the mantissa.
fn apply_sign(neg: bool, a: u64) -> (m: i64)
    requires
        a <= i64::MAX as u64,
    ensures
        m as int == signed_val(neg, a as int),
{
    if neg {
        -(a as i64)
    } else {
        a as i64
    }
}

/// Reads the digits of a dot-free body.
fn parse_body_no_dot(v: &Vec<char>, start: usize, neg: bool) -> (r: Option<Real>)
    requires
        start < v@.len(),
    ensures
        r == real_no_dot(neg, v@.subrange(start as int, v@.len() as int)),
{
    let n = v.len();
    let ghost body = v@.subrange(start as int, n as int);
    match accum_digits(v, start, n, 0, Ghost(Seq::empty())) {
        Some(a) => {
            proof {
                assert(Seq::empty() + v@.subrange(start as int, n as int) =~= body);
            }
            Some(Real { mantissa: apply_sign(neg, a), scale: 0 })
        },
        None => {
            proof {
                assert(Seq::empty() + v@.subrange(start as int, n as int) =~= body);
            }
            None
        },
    }
}

/// Reads the digits on both sides of the dot at `dj`.
fn parse_body_dotted(v: &Vec<char>, start: usize, dj: usize, neg: bool) -> (r: Option<Real>)
    requires
        start < dj < v@.len(),
    ensures
        r == real_of_parts(
            neg,
            v@.subrange(start as int, dj as int),
            v@.subrange(dj as int + 1, v@.len() as int),
        ),
{
    let n = v.len();
    let ghost ip = v@.subrange(start as int, dj as int);
    let ghost fp = v@.subrange(dj as int + 1, n as int);
    if dj + 1 == n {
        return None;
    }
    match accum_digits(v, start, dj, 0, Ghost(Seq::empty())) {
        Some(a1) => {
            proof {
                assert(Seq::empty() + v@.subrange(start as int, dj as int) =~= ip);
            }
            match accum_digits(v, dj + 1, n, a1, Ghost(ip)) {
                Some(a2) => {
                    proof {
                        lemma_all_digits_split(ip, fp);
                    }
                    Some(Real { mantissa: apply_sign(neg, a2), scale: n - dj - 1 })
                },
                None => {
                    proof {
                        lemma_all_digits_split(ip, fp);
                    }
                    None
                },
            }
        },
        None => {
            proof {
                assert(Seq::empty() + v@.subrange(start as int, dj as int) =~= ip);
                if all_digits(ip) && all_digits(fp) && digits_val(ip + fp) <= i64::MAX {
                    assert((ip + fp).take(ip.len() as int) =~= ip);
                    lemma_digits_val_take_le(ip + fp, ip.len() as int);
                    assert(digits_val(ip) <= i64::MAX);
                }
            }
            None
        },
    }
}

/// Reads a decimal token. Returns the exact decimal written, or nothing when
/// the token is not a plain decimal or its mantissa does not fit.
pub fn parse_real(t: &str) -> (r: Option<Real>)
    ensures
        r == spec_parse_real(t@),
{
    let v = chars_of(t);
    let n = v.len();
    let neg: bool = n > 0 && v[0] == '-';
    let start: usize = if neg {
        1
    } else {
        0
    };
    let ghost body = if neg {
        t@.drop_first()
    } else {
        t@
    };
    proof {
        assert(body =~= v@.subrange(start as int, n as int));
    }
    if start >= n {
        return None;
    }
    let dot = find_dot_in(&v, start);
    match dot {
        None => {
            let r = parse_body_no_dot(&v, start, neg);
            proof {
                assert(spec_parse_real(t@) == real_no_dot(neg, body));
            }
            r
        },
        Some(dj) => {
            proof {
                assert(body.take(dj - start) =~= v@.subrange(start as int, dj as int));
                assert(body.skip(dj - start + 1) =~= v@.subrange(dj as int + 1, n as int));
                assert(spec_parse_real(t@) == real_of_parts(
                    neg,
                    v@.subrange(start as int, dj as int),
                    v@.subrange(dj as int + 1, n as int),
                ));
            }
            if dj == start {
                return None;
            }
            parse_body_dotted(&v, start, dj, neg)
        },
    }
}

/// Reads an integer token. Returns the value written, or nothing when the
/// token is not a plain integer or does not fit.
pub fn parse_int(t: &str) -> (r: Option<i64>)
    ensures
        r == spec_parse_int(t@),
{
    let v = chars_of(t);
    let n = v.len();
    let neg: bool = n > 0 && v[0] == '-';
    let start: usize = if neg {
        1
    } else {
        0
    };
    let ghost body = if neg {
        t@.drop_first()
    } else {
        t@
    };
    proof {
        assert(body =~= v@.subrange(start as int, n as int));
    }
    if start >= n {
        return None;
    }
    match accum_digits(&v, start, n, 0, Ghost(Seq::empty())) {
        Some(a) => {
            proof {
                assert(Seq::empty() + v@.subrange(start as int, n as int) =~= body);
            }
            Some(apply_sign(neg, a))
        },
        None => {
            proof {
                assert(Seq::empty() + v@.subrange(start as int, n as int) =~= body);
            }
            None
        },
    }
}

} // verus!
