use vstd::prelude::*;
use vstd::string::StrSliceExecFns;

verus! {

/// Character-for-character equality of two string slices.
pub fn str_eq(a: &str, b: &str) -> (r: bool)
    ensures
        r == (a@ == b@),
{
    let n = a.unicode_len();
    let m = b.unicode_len();
    if n != m {
        return false;
    }
    let mut i: usize = 0;
    while i < n
        invariant
            i <= n,
            n == a@.len(),
            n == b@.len(),
            forall|j: int| 0 <= j < i ==> a@[j] == b@[j],
        decreases n - i,
    {
        if a.get_char(i) != b.get_char(i) {
            return false;
        }
        i = i + 1;
    }
    proof {
        assert(a@ =~= b@);
    }
    true
}

/// `sub` occurs contiguously somewhere inside `s`.
pub open spec fn contains_seq(s: Seq<char>, sub: Seq<char>) -> bool {
    exists|i: int|
        0 <= i && i + sub.len() <= s.len() && #[trigger] s.subrange(i, i + sub.len()) == sub
}

/// Whether `sub` occurs in `s` starting exactly at position `at`.
fn matches_at(s: &str, sub: &str, at: usize) -> (r: bool)
    requires
        at + sub@.len() <= s@.len(),
    ensures
        r == (s@.subrange(at as int, at + sub@.len()) == sub@),
{
    let n = s.unicode_len();
    let m = sub.unicode_len();
    let mut j: usize = 0;
    while j < m
        invariant
            j <= m,
            n == s@.len(),
            m == sub@.len(),
            at + m <= n,
            forall|k: int| 0 <= k < j ==> s@[at + k] == sub@[k],
        decreases m - j,
    {
        if s.get_char(at + j) != sub.get_char(j) {
            proof {
                assert(s@.subrange(at as int, at + sub@.len())[j as int] != sub@[j as int]);
            }
            return false;
        }
        j = j + 1;
    }
    proof {
        assert(s@.subrange(at as int, at + sub@.len()) =~= sub@);
    }
    true
}

/// Substring search: whether `sub` occurs anywhere in `s`.
pub fn str_contains(s: &str, sub: &str) -> (r: bool)
    ensures
        r == contains_seq(s@, sub@),
{
    let n = s.unicode_len();
    let m = sub.unicode_len();
    if m > n {
        return false;
    }
    if m == 0 {
        proof {
            assert(s@.subrange(0, 0 + sub@.len() as int) =~= sub@);
        }
        return true;
    }
    let mut i: usize = 0;
    while i <= n - m
        invariant
            1 <= m <= n,
            n == s@.len(),
            m == sub@.len(),
            i <= n - m + 1,
            forall|k: int|
                0 <= k < i ==> #[trigger] s@.subrange(k, k + sub@.len()) != sub@,
        decreases n - i,
    {
        if matches_at(s, sub, i) {
            return true;
        }
        i = i + 1;
    }
    false
}

/// The position of the first occurrence of `sep` in `s`, or -1 when `s`
/// holds no occurrence.
pub open spec fn first_sep(s: Seq<char>, sep: char) -> int
    decreases s.len(),
{
    if s.len() == 0 {
        -1
    } else if s[0] == sep {
        0
    } else {
        let r = first_sep(s.drop_first(), sep);
        if r < 0 {
            -1
        } else {
            r + 1
        }
    }
}

/// What the position of the first occurrence means: it is in range, it
/// carries the separator, and nothing before it does.
pub proof fn lemma_first_sep(s: Seq<char>, sep: char)
    ensures
        first_sep(s, sep) == -1 ==> forall|i: int| 0 <= i < s.len() ==> #[trigger] s[i] != sep,
        first_sep(s, sep) >= 0 ==> first_sep(s, sep) < s.len() && s[first_sep(s, sep)] == sep
            && forall|i: int| 0 <= i < first_sep(s, sep) ==> #[trigger] s[i] != sep,
    decreases s.len(),
{
    if s.len() > 0 && s[0] != sep {
        let t = s.drop_first();
        lemma_first_sep(t, sep);
        let r = first_sep(t, sep);
        if r < 0 {
            assert forall|i: int| 0 <= i < s.len() implies #[trigger] s[i] != sep by {
                if i > 0 {
                    assert(t[i - 1] == s[i]);
                }
            }
        } else {
            assert(s[r + 1] == t[r]);
            assert forall|i: int| 0 <= i < r + 1 implies #[trigger] s[i] != sep by {
                if i > 0 {
                    assert(t[i - 1] == s[i]);
                }
            }
        }
    }
}

/// The pieces of `s` between occurrences of `sep`: one piece more than
/// there are separators, each possibly empty, in order.
pub open spec fn split_seq(s: Seq<char>, sep: char) -> Seq<Seq<char>>
    decreases s.len(),
    via split_seq_decreases
{
    let k = first_sep(s, sep);
    if k < 0 {
        seq![s]
    } else {
        seq![s.take(k)] + split_seq(s.skip(k + 1), sep)
    }
}

#[via_fn]
proof fn split_seq_decreases(s: Seq<char>, sep: char) {
    lemma_first_sep(s, sep);
}

/// The views of a sequence of owned strings.
pub open spec fn views_of(ss: Seq<String>) -> Seq<Seq<char>> {
    ss.map_values(|t: String| t@)
}

/// Splits a string at every occurrence of a separator character.
pub fn split_str(s: &str, sep: char) -> (parts: Vec<String>)
    ensures
        views_of(parts@) == split_seq(s@, sep),
        parts@.len() >= 1,
{
    let n = s.unicode_len();
    let mut parts: Vec<String> = Vec::new();
    let mut start: usize = 0;
    let mut i: usize = 0;
    proof {
        assert(views_of(parts@) =~= Seq::<Seq<char>>::empty());
        assert(s@.skip(0) =~= s@);
        assert(views_of(parts@) + split_seq(s@.skip(0), sep) =~= split_seq(s@, sep));
    }
    while i < n
        invariant
            start <= i <= n,
            n == s@.len(),
            forall|j: int| start <= j < i ==> #[trigger] s@[j] != sep,
            split_seq(s@, sep) == views_of(parts@) + split_seq(s@.skip(start as int), sep),
        decreases n - i,
    {
        let c = s.get_char(i);
        if c == sep {
            let piece = String::from_str(s.substring_char(start, i));
            proof {
                let tail = s@.skip(start as int);
                lemma_first_sep(tail, sep);
                assert forall|j: int| 0 <= j < i - start implies #[trigger] tail[j] != sep by {
                    assert(tail[j] == s@[start + j]);
                }
                assert(tail[i - start] == sep);
                if first_sep(tail, sep) == -1 {
                    assert(tail[i - start] != sep);
                }
                assert(first_sep(tail, sep) == i - start);
                assert(tail.take(i - start) =~= s@.subrange(start as int, i as int));
                assert(tail.skip(i - start + 1) =~= s@.skip(i + 1));
                assert(views_of(parts@.push(piece)) =~= views_of(parts@) + seq![piece@]);
                assert(split_seq(s@, sep) == views_of(parts@.push(piece)) + split_seq(
                    s@.skip(i + 1),
                    sep,
                ));
            }
            parts.push(piece);
            start = i + 1;
        }
        i = i + 1;
    }
    let piece = String::from_str(s.substring_char(start, n));
    proof {
        let tail = s@.skip(start as int);
        lemma_first_sep(tail, sep);
        assert forall|j: int| 0 <= j < tail.len() implies #[trigger] tail[j] != sep by {
            assert(tail[j] == s@[start + j]);
        }
        if first_sep(tail, sep) >= 0 {
            assert(tail[first_sep(tail, sep)] != sep);
        }
        assert(first_sep(tail, sep) == -1);
        assert(tail =~= s@.subrange(start as int, n as int));
        assert(views_of(parts@.push(piece)) =~= views_of(parts@) + seq![piece@]);
        assert(views_of(parts@.push(piece)) =~= split_seq(s@, sep));
    }
    parts.push(piece);
    parts
}

/// What `str::to_lowercase` returns: a function of the characters alone.
pub uninterp spec fn lower_of(s: Seq<char>) -> Seq<char>;

/// Relies on `str::to_lowercase`: the lowercased form depends only on the
/// characters of the input, and an empty input stays empty.
#[verifier::external_body]
pub(crate) fn lowercase(s: &str) -> (r: String)
    ensures
        r@ == lower_of(s@),
        s@.len() == 0 ==> r@.len() == 0,
{
    s.to_lowercase()
}

/// Case-insensitive substring containment: whether the lowercased form of
/// `pat` occurs inside the lowercased form of `s`.
pub open spec fn contains_lower(s: Seq<char>, pat: Seq<char>) -> bool {
    contains_seq(lower_of(s), lower_of(pat))
}

/// Runs the case-insensitive containment test on string slices.
pub fn str_contains_lower(s: &str, pat: &str) -> (r: bool)
    ensures
        r == contains_lower(s@, pat@),
{
    let ls = lowercase(s);
    let lp = lowercase(pat);
    str_contains(ls.as_str(), lp.as_str())
}

} // verus!
