use vstd::prelude::*;
use vstd::string::StrSliceExecFns;

verus! {

/// Whether `s` begins with `p`.
pub open spec fn starts_with(s: Seq<char>, p: Seq<char>) -> bool {
    p.len() <= s.len() && s.subrange(0, p.len() as int) == p
}

/// Whether `s` ends with `p`.
pub open spec fn ends_with(s: Seq<char>, p: Seq<char>) -> bool {
    p.len() <= s.len() && s.subrange(s.len() - p.len(), s.len() as int) == p
}

pub open spec fn is_digit(c: char) -> bool {
    '0' <= c && c <= '9'
}

/// Decimal value of a string of ASCII digits.
pub open spec fn digits_value(s: Seq<char>) -> nat
    decreases s.len(),
{
    if s.len() == 0 {
        0
    } else {
        digits_value(s.drop_last()) * 10 + ((s.last() as nat) - ('0' as nat)) as nat
    }
}

/// Length of the run of digits that starts at `from`.
pub open spec fn digit_run(s: Seq<char>, from: int) -> nat
    decreases s.len() - from,
{
    if 0 <= from < s.len() && is_digit(s[from]) {
        1 + digit_run(s, from + 1)
    } else {
        0
    }
}

/// The characters of a string, as a vector.
pub fn chars_of(s: &str) -> (r: Vec<char>)
    ensures
        r@ == s@,
{
    let n = s.unicode_len();
    let mut out: Vec<char> = Vec::new();
    let mut i: usize = 0;
    while i < n
        invariant
            n == s@.len(),
            i <= n,
            out@ == s@.subrange(0, i as int),
        decreases n - i,
    {
        out.push(s.get_char(i));
        i = i + 1;
        assert(out@ =~= s@.subrange(0, i as int));
    }
    assert(out@ =~= s@);
    out
}

/// Whether the characters from `at` on begin with `p`.
pub fn has_at(s: &Vec<char>, at: usize, p: &str) -> (r: bool)
    requires
        at <= s@.len(),
    ensures
        r == starts_with(s@.subrange(at as int, s@.len() as int), p@),
{
    let pn = p.unicode_len();
    let n = s.len();
    if pn > n - at {
        return false;
    }
    let mut i: usize = 0;
    while i < pn
        invariant
            pn == p@.len(),
            n == s@.len(),
            at + pn <= n,
            i <= pn,
            forall|k: int| 0 <= k < i ==> s@[at + k] == p@[k],
        decreases pn - i,
    {
        if s[at + i] != p.get_char(i) {
            assert(s@.subrange(at as int, n as int).subrange(0, pn as int)[i as int] != p@[i as int]);
            return false;
        }
        i = i + 1;
    }
    assert(s@.subrange(at as int, n as int).subrange(0, pn as int) =~= p@);
    true
}

/// Whether two strings hold the same characters.
pub fn text_is(s: &str, p: &str) -> (r: bool)
    ensures
        r == (s@ == p@),
{
    let n = s.unicode_len();
    if n != p.unicode_len() {
        return false;
    }
    let mut i: usize = 0;
    while i < n
        invariant
            n == s@.len(),
            n == p@.len(),
            i <= n,
            forall|k: int| 0 <= k < i ==> s@[k] == p@[k],
        decreases n - i,
    {
        if s.get_char(i) != p.get_char(i) {
            return false;
        }
        i = i + 1;
    }
    assert(s@ =~= p@);
    true
}

/// Whether `s` begins with `p`.
pub fn text_starts_with(s: &str, p: &str) -> (r: bool)
    ensures
        r == starts_with(s@, p@),
{
    let v = chars_of(s);
    assert(v@.subrange(0, v@.len() as int) =~= v@);
    has_at(&v, 0, p)
}

/// Whether `s` ends with `p`.
pub fn text_ends_with(s: &str, p: &str) -> (r: bool)
    ensures
        r == ends_with(s@, p@),
{
    let v = chars_of(s);
    let n = v.len();
    let pn = p.unicode_len();
    if pn > n {
        return false;
    }
    let r = has_at(&v, n - pn, p);
    assert(v@.subrange((n - pn) as int, n as int).subrange(0, pn as int)
        =~= v@.subrange((n - pn) as int, n as int));
    r
}

/// Reads the run of digits that starts at `from`: its length, and its value
/// where that fits in a `usize`.
pub fn read_number(s: &Vec<char>, from: usize) -> (r: (usize, Option<usize>))
    requires
        from <= s@.len(),
    ensures
        r.0 == digit_run(s@, from as int),
        from + r.0 <= s@.len(),
        digits_value(s@.subrange(from as int, from + r.0)) <= usize::MAX ==> r.1 == Some(
            digits_value(s@.subrange(from as int, from + r.0)) as usize,
        ),
        digits_value(s@.subrange(from as int, from + r.0)) > usize::MAX ==> r.1 is None,
{
    let n = s.len();
    let mut j: usize = from;
    let mut value: Option<usize> = Some(0);
    while j < n && '0' <= s[j] && s[j] <= '9'
        invariant
            n == s@.len(),
            from <= j <= n,
            forall|k: int| from <= k < j ==> is_digit(#[trigger] s@[k]),
            digits_value(s@.subrange(from as int, j as int)) <= usize::MAX ==> value == Some(
                digits_value(s@.subrange(from as int, j as int)) as usize,
            ),
            digits_value(s@.subrange(from as int, j as int)) > usize::MAX ==> value is None,
        decreases n - j,
    {
        let d = (s[j] as u32 - '0' as u32) as usize;
        let ghost before = s@.subrange(from as int, j as int);
        let ghost after = s@.subrange(from as int, j + 1);
        assert(after.drop_last() =~= before);
        value = match value {
            Some(v) => {
                if v > (usize::MAX - d) / 10 {
                    proof {
                        assert(digits_value(after) == v * 10 + d);
                        assert(v * 10 + d > usize::MAX) by (nonlinear_arith)
                            requires
                                v > (usize::MAX - d) / 10,
                                d <= 9,
                        ;
                    }
                    None
                } else {
                    proof {
                        assert(v * 10 + d <= usize::MAX) by (nonlinear_arith)
                            requires
                                v <= (usize::MAX - d) / 10,
                                d <= 9,
                        ;
                    }
                    Some(v * 10 + d)
                }
            },
            None => {
                proof {
                    assert(digits_value(after) >= digits_value(before)) by (nonlinear_arith)
                        requires
                            digits_value(after) == digits_value(before) * 10 + d,
                    ;
                }
                None
            },
        };
        j = j + 1;
    }
    proof {
        lemma_digit_run_exact(s@, from as int, j as int);
    }
    (j - from, value)
}

proof fn lemma_digit_run_exact(s: Seq<char>, from: int, to: int)
    requires
        0 <= from <= to <= s.len(),
        forall|k: int| from <= k < to ==> is_digit(#[trigger] s[k]),
        to == s.len() || !is_digit(s[to]),
    ensures
        digit_run(s, from) == to - from,
    decreases to - from,
{
    if from < to {
        lemma_digit_run_exact(s, from + 1, to);
    }
}

} // verus!
