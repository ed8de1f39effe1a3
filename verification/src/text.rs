//! Character-level string helpers: ASCII case folding and suffix removal.
use vstd::prelude::*;
use vstd::string::StrSliceExecFns;

verus! {

/// The code of `c` with ASCII upper-case letters folded to lower case.
pub open spec fn ascii_fold(c: char) -> int {
    if 65 <= (c as int) && (c as int) <= 90 {
        (c as int) + 32
    } else {
        c as int
    }
}

/// Whether `a` and `b` are equal once ASCII letters are folded to one case.
pub open spec fn eq_ignore_ascii_case(a: Seq<char>, b: Seq<char>) -> bool {
    a.len() == b.len() && forall|i: int| 0 <= i < a.len() ==> #[trigger] ascii_fold(a[i]) == ascii_fold(b[i])
}

/// `s` without the trailing `suffix`, if `s` ends with it.
pub open spec fn strip_suffix(s: Seq<char>, suffix: Seq<char>) -> Option<Seq<char>> {
    if suffix.len() <= s.len() && s.subrange(s.len() - suffix.len(), s.len() as int) == suffix {
        Some(s.subrange(0, s.len() - suffix.len()))
    } else {
        None
    }
}

/// Whether `e` spells the word given by `lower` and `upper` letter by
/// letter, each letter in either of its two cases.
pub open spec fn spells_either_case(e: Seq<char>, lower: Seq<char>, upper: Seq<char>) -> bool {
    &&& e.len() == lower.len()
    &&& lower.len() == upper.len()
    &&& forall|i: int| 0 <= i < e.len() ==> #[trigger] e[i] == lower[i] || e[i] == upper[i]
}

/// Comparing with a lower-case ASCII word while ignoring ASCII case accepts
/// exactly the spellings of the word with each letter in either case.
pub proof fn lemma_ignore_case_is_either_case(e: Seq<char>, lower: Seq<char>, upper: Seq<char>)
    requires
        lower.len() == upper.len(),
        forall|i: int|
            0 <= i < lower.len() ==> 97 <= #[trigger] (lower[i] as int) <= 122 && upper[i] as int
                == lower[i] as int - 32,
    ensures
        eq_ignore_ascii_case(e, lower) <==> spells_either_case(e, lower, upper),
{
    if e.len() == lower.len() {
        assert forall|i: int| 0 <= i < e.len() implies (#[trigger] ascii_fold(e[i]) == ascii_fold(
            lower[i],
        )) == (e[i] == lower[i] || e[i] == upper[i]) by {
            assert(97 <= lower[i] as int <= 122);
            if e[i] as int == lower[i] as int {
                assert(e[i] == lower[i]);
            }
            if e[i] as int == upper[i] as int {
                assert(e[i] == upper[i]);
            }
        }
        if eq_ignore_ascii_case(e, lower) {
            assert forall|i: int| 0 <= i < e.len() implies #[trigger] e[i] == lower[i] || e[i]
                == upper[i] by {
                assert(ascii_fold(e[i]) == ascii_fold(lower[i]));
            }
        }
        if spells_either_case(e, lower, upper) {
            assert forall|i: int| 0 <= i < e.len() implies #[trigger] ascii_fold(e[i]) == ascii_fold(
                lower[i],
            ) by {
                assert(e[i] == lower[i] || e[i] == upper[i]);
            }
        }
    }
}

/// The code of `c` with ASCII upper-case letters folded to lower case.
fn fold_char(c: char) -> (r: u32)
    ensures
        r == ascii_fold(c),
{
    let code = c as u32;
    if 65 <= code && code <= 90 {
        code + 32
    } else {
        code
    }
}

/// Compares two strings, ignoring the case of ASCII letters.
pub fn str_eq_ignore_ascii_case(a: &str, b: &str) -> (r: bool)
    ensures
        r == eq_ignore_ascii_case(a@, b@),
{
    let n = a.unicode_len();
    if n != b.unicode_len() {
        return false;
    }
    let mut i: usize = 0;
    while i < n
        invariant
            n == a@.len(),
            n == b@.len(),
            i <= n,
            forall|j: int| 0 <= j < i ==> #[trigger] ascii_fold(a@[j]) == ascii_fold(b@[j]),
        decreases n - i,
    {
        if fold_char(a.get_char(i)) != fold_char(b.get_char(i)) {
            return false;
        }
        i = i + 1;
    }
    true
}

/// Removes `suffix` from the end of `s`, if `s` ends with it.
pub fn str_strip_suffix<'a>(s: &'a str, suffix: &str) -> (r: Option<&'a str>)
    ensures
        match strip_suffix(s@, suffix@) {
            Some(t) => r matches Some(x) && x@ == t,
            None => r is None,
        },
{
    let n = s.unicode_len();
    let m = suffix.unicode_len();
    if m > n {
        return None;
    }
    let start = n - m;
    let mut i: usize = 0;
    while i < m
        invariant
            n == s@.len(),
            m == suffix@.len(),
            start == n - m,
            i <= m,
            forall|j: int| 0 <= j < i ==> #[trigger] suffix@[j] == s@[start + j],
        decreases m - i,
    {
        if s.get_char(start + i) != suffix.get_char(i) {
            proof {
                assert(s@.subrange(start as int, n as int)[i as int] != suffix@[i as int]);
            }
            return None;
        }
        i = i + 1;
    }
    proof {
        assert(s@.subrange(start as int, n as int) =~= suffix@);
    }
    Some(s.substring_char(0, start))
}

} // verus!
