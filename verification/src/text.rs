//! Verified text utilities over the character view of strings.
//!
//! Device paths are modelled as plain strings. A path's *segments* are its
//! maximal runs of non-`'/'` characters, and its *file name* is its final
//! segment once trailing slashes are stripped; a path whose final segment
//! is empty, `.` or `..` has no file name.

use vstd::prelude::*;

verus! {

/// `p` is a prefix of `s`.
pub open spec fn has_prefix(s: Seq<char>, p: Seq<char>) -> bool {
    p.len() <= s.len() && s.subrange(0, p.len() as int) == p
}

/// `p` occurs somewhere inside `s`.
pub open spec fn has_substring(s: Seq<char>, p: Seq<char>) -> bool {
    exists|i: int| 0 <= i <= s.len() - p.len() && #[trigger] s.subrange(i, i + p.len() as int)
        == p
}

/// `s` without its trailing `'/'` characters.
pub open spec fn strip_trailing_slashes(s: Seq<char>) -> Seq<char>
    decreases s.len(),
{
    if s.len() > 0 && s.last() == '/' {
        strip_trailing_slashes(s.drop_last())
    } else {
        s
    }
}

/// The characters of `s` after its last `'/'` (all of `s` if it has none).
pub open spec fn after_last_slash(s: Seq<char>) -> Seq<char>
    decreases s.len(),
{
    if s.len() == 0 || s.last() == '/' {
        Seq::empty()
    } else {
        after_last_slash(s.drop_last()).push(s.last())
    }
}

/// The file name of the path `s`: its final segment, with trailing slashes
/// ignored; none if that segment is empty, `.` or `..`.
pub open spec fn file_name_spec(s: Seq<char>) -> Option<Seq<char>> {
    let n = after_last_slash(strip_trailing_slashes(s));
    if n.len() == 0 || n == "."@ || n == ".."@ {
        None
    } else {
        Some(n)
    }
}

/// The index of the first `'/'` in `s`, or `s.len()` if there is none.
pub open spec fn first_slash(s: Seq<char>) -> int
    decreases s.len(),
{
    if s.len() == 0 {
        0
    } else if s[0] == '/' {
        0
    } else {
        1 + first_slash(s.drop_first())
    }
}

/// The first-slash index always lies within the sequence.
pub proof fn lemma_first_slash_le(s: Seq<char>)
    ensures
        0 <= first_slash(s) <= s.len(),
    decreases s.len(),
{
    if s.len() > 0 && s[0] != '/' {
        lemma_first_slash_le(s.drop_first());
    }
}

/// The maximal runs of non-`'/'` characters of `s`, in order.
pub open spec fn path_segments(s: Seq<char>) -> Seq<Seq<char>>
    decreases s.len(),
    via path_segments_decreases
{
    if s.len() == 0 {
        Seq::empty()
    } else if s[0] == '/' {
        path_segments(s.drop_first())
    } else {
        seq![s.subrange(0, first_slash(s))] + path_segments(
            s.subrange(first_slash(s), s.len() as int),
        )
    }
}

#[via_fn]
proof fn path_segments_decreases(s: Seq<char>) {
    lemma_first_slash_le(s);
    if s.len() > 0 && s[0] != '/' {
        assert(first_slash(s) == 1 + first_slash(s.drop_first()));
        lemma_first_slash_le(s.drop_first());
    }
}

/// What the first-slash index means: no slash lies before it, and a
/// slash sits at it unless the sequence has none.
pub proof fn lemma_first_slash_props(s: Seq<char>)
    ensures
        0 <= first_slash(s) <= s.len(),
        forall|j: int| 0 <= j < first_slash(s) ==> s[j] != '/',
        first_slash(s) < s.len() ==> s[first_slash(s)] == '/',
    decreases s.len(),
{
    if s.len() > 0 && s[0] != '/' {
        lemma_first_slash_props(s.drop_first());
        assert(forall|j: int| 1 <= j < first_slash(s) ==> s[j] == s.drop_first()[j - 1]);
    }
}

/// Characterizes `first_slash` by its defining properties.
pub proof fn lemma_first_slash_is(s: Seq<char>, i: int)
    requires
        0 <= i <= s.len(),
        forall|j: int| 0 <= j < i ==> s[j] != '/',
        i < s.len() ==> s[i] == '/',
    ensures
        first_slash(s) == i,
    decreases s.len(),
{
    if s.len() > 0 && s[0] != '/' {
        lemma_first_slash_is(s.drop_first(), i - 1);
    }
}

/// Characterizes `strip_trailing_slashes` as a cut at index `e`.
pub proof fn lemma_strip_trailing_is(s: Seq<char>, e: int)
    requires
        0 <= e <= s.len(),
        forall|j: int| e <= j < s.len() ==> s[j] == '/',
        e > 0 ==> s[e - 1] != '/',
    ensures
        strip_trailing_slashes(s) == s.subrange(0, e),
    decreases s.len(),
{
    if e < s.len() {
        assert(s.last() == '/');
        lemma_strip_trailing_is(s.drop_last(), e);
        assert(s.drop_last().subrange(0, e) =~= s.subrange(0, e));
    } else {
        if s.len() > 0 {
            assert(s.last() != '/');
        }
        assert(s.subrange(0, e) =~= s);
    }
}

/// Characterizes `after_last_slash` as the tail from index `k`.
pub proof fn lemma_after_last_is(s: Seq<char>, k: int)
    requires
        0 <= k <= s.len(),
        forall|j: int| k <= j < s.len() ==> s[j] != '/',
        k > 0 ==> s[k - 1] == '/',
    ensures
        after_last_slash(s) == s.subrange(k, s.len() as int),
    decreases s.len(),
{
    if s.len() == 0 {
        assert(s.subrange(0, 0) =~= Seq::<char>::empty());
    } else if k == s.len() {
        assert(s.last() == '/');
        assert(s.subrange(k, s.len() as int) =~= Seq::<char>::empty());
    } else {
        assert(s.last() != '/');
        lemma_after_last_is(s.drop_last(), k);
        assert(s.drop_last().subrange(k, s.len() - 1) =~= s.subrange(k, s.len() - 1));
        assert(s.subrange(k, s.len() - 1).push(s.last()) =~= s.subrange(k, s.len() as int));
    }
}

/// Splitting distributes over a separating slash: the segments of
/// `a / c` are the segments of `a` followed by those of `c`.
pub proof fn lemma_segments_slash_concat(a: Seq<char>, c: Seq<char>)
    ensures
        path_segments(a + seq!['/'] + c) == path_segments(a) + path_segments(c),
    decreases a.len(),
{
    let t = a + seq!['/'] + c;
    if a.len() == 0 {
        assert(t[0] == '/');
        assert(t.drop_first() =~= c);
        assert(path_segments(a) + path_segments(c) =~= path_segments(c));
    } else if a[0] == '/' {
        assert(t[0] == '/');
        assert(t.drop_first() =~= a.drop_first() + seq!['/'] + c);
        lemma_segments_slash_concat(a.drop_first(), c);
        assert(path_segments(a) == path_segments(a.drop_first()));
    } else {
        let i = first_slash(a);
        lemma_first_slash_props(a);
        assert(t[0] != '/');
        assert(forall|j: int| 0 <= j < i ==> t[j] == a[j]);
        assert(t[i] == '/');
        lemma_first_slash_is(t, i);
        assert(t.subrange(0, i) =~= a.subrange(0, i));
        assert(t.subrange(i, t.len() as int) =~= a.subrange(i, a.len() as int) + seq!['/']
            + c);
        lemma_segments_slash_concat(a.subrange(i, a.len() as int), c);
        assert(path_segments(t) == seq![a.subrange(0, i)] + (path_segments(
            a.subrange(i, a.len() as int),
        ) + path_segments(c)));
        assert(path_segments(a) == seq![a.subrange(0, i)] + path_segments(
            a.subrange(i, a.len() as int),
        ));
        assert(seq![a.subrange(0, i)] + (path_segments(a.subrange(i, a.len() as int))
            + path_segments(c)) =~= path_segments(a) + path_segments(c));
    }
}

/// A nonempty run of non-slash characters is its own single segment.
pub proof fn lemma_segments_single(s: Seq<char>)
    requires
        s.len() > 0,
        forall|j: int| 0 <= j < s.len() ==> s[j] != '/',
    ensures
        path_segments(s) == seq![s],
{
    lemma_first_slash_is(s, s.len() as int);
    assert(s.subrange(0, s.len() as int) =~= s);
    assert(path_segments(s.subrange(s.len() as int, s.len() as int)) =~= Seq::<
        Seq<char>,
    >::empty());
    assert(seq![s] + Seq::<Seq<char>>::empty() =~= seq![s]);
}

/// A trailing slash adds no segment.
pub proof fn lemma_segments_trailing_slash(a: Seq<char>)
    ensures
        path_segments(a + seq!['/']) == path_segments(a),
{
    lemma_segments_slash_concat(a, Seq::empty());
    assert(a + seq!['/'] + Seq::<char>::empty() =~= a + seq!['/']);
    assert(path_segments(a) + path_segments(Seq::<char>::empty()) =~= path_segments(a));
}

/// Lexicographic order on character sequences, comparing characters by
/// scalar value.
pub open spec fn chars_le(a: Seq<char>, b: Seq<char>) -> bool
    decreases a.len(),
{
    if a.len() == 0 {
        true
    } else if b.len() == 0 {
        false
    } else if a[0] == b[0] {
        chars_le(a.drop_first(), b.drop_first())
    } else {
        (a[0] as u32) < (b[0] as u32)
    }
}

/// The lexicographic order is reflexive.
pub proof fn lemma_chars_le_refl(a: Seq<char>)
    ensures
        chars_le(a, a),
    decreases a.len(),
{
    if a.len() > 0 {
        lemma_chars_le_refl(a.drop_first());
    }
}

/// The lexicographic order is total.
pub proof fn lemma_chars_le_total(a: Seq<char>, b: Seq<char>)
    ensures
        chars_le(a, b) || chars_le(b, a),
    decreases a.len(),
{
    if a.len() > 0 && b.len() > 0 {
        if a[0] == b[0] {
            lemma_chars_le_total(a.drop_first(), b.drop_first());
        } else if (a[0] as u32) == (b[0] as u32) {
            vstd::utf8::char_u32_cast(a[0], a[0] as u32);
            vstd::utf8::char_u32_cast(b[0], b[0] as u32);
        }
    }
}

/// The lexicographic order is antisymmetric.
pub proof fn lemma_chars_le_antisym(a: Seq<char>, b: Seq<char>)
    requires
        chars_le(a, b),
        chars_le(b, a),
    ensures
        a == b,
    decreases a.len(),
{
    if a.len() == 0 {
        assert(b.len() == 0);
        assert(a =~= b);
    } else {
        assert(b.len() > 0);
        assert(a[0] == b[0]);
        lemma_chars_le_antisym(a.drop_first(), b.drop_first());
        assert(a =~= b) by {
            assert(forall|i: int|
                1 <= i < a.len() ==> a[i] == a.drop_first()[i - 1] && b[i] == b.drop_first()[i
                    - 1]);
        }
    }
}

/// The lexicographic order is transitive.
pub proof fn lemma_chars_le_trans(a: Seq<char>, b: Seq<char>, c: Seq<char>)
    requires
        chars_le(a, b),
        chars_le(b, c),
    ensures
        chars_le(a, c),
    decreases a.len(),
{
    if a.len() > 0 {
        assert(b.len() > 0);
        assert(c.len() > 0);
        if a[0] == b[0] && b[0] == c[0] {
            lemma_chars_le_trans(a.drop_first(), b.drop_first(), c.drop_first());
        } else {
            if a[0] == c[0] {
                if (a[0] as u32) != (b[0] as u32) || (b[0] as u32) != (c[0] as u32) {
                } else {
                    vstd::utf8::char_u32_cast(a[0], a[0] as u32);
                    vstd::utf8::char_u32_cast(b[0], b[0] as u32);
                }
            }
        }
    }
}

/// Compares two strings in lexicographic order.
pub fn str_le(a: &str, b: &str) -> (r: bool)
    ensures
        r == chars_le(a@, b@),
{
    let n = a.unicode_len();
    let m = b.unicode_len();
    proof {
        assert(a@.skip(0) =~= a@);
        assert(b@.skip(0) =~= b@);
    }
    let mut i: usize = 0;
    while i < n && i < m
        invariant
            n == a@.len(),
            m == b@.len(),
            0 <= i <= n,
            i <= m,
            chars_le(a@, b@) == chars_le(a@.skip(i as int), b@.skip(i as int)),
        decreases n - i,
    {
        let ghost resta = a@.skip(i as int);
        let ghost restb = b@.skip(i as int);
        proof {
            assert(resta[0] == a@[i as int]);
            assert(restb[0] == b@[i as int]);
        }
        let ca = a.get_char(i);
        let cb = b.get_char(i);
        if ca != cb {
            return (ca as u32) < (cb as u32);
        }
        proof {
            assert(resta.drop_first() =~= a@.skip(i + 1));
            assert(restb.drop_first() =~= b@.skip(i + 1));
        }
        i = i + 1;
    }
    if i == n {
        proof {
            assert(a@.skip(i as int).len() == 0);
        }
        true
    } else {
        proof {
            assert(b@.skip(i as int).len() == 0);
            assert(a@.skip(i as int).len() > 0);
        }
        false
    }
}

/// Compares two strings character by character.
pub fn str_eq(a: &str, b: &str) -> (r: bool)
    ensures
        r == (a@ == b@),
{
    let n = a.unicode_len();
    let m = b.unicode_len();
    if n != m {
        proof {
            if a@ == b@ {
                assert(a@.len() == b@.len());
            }
        }
        return false;
    }
    let mut i: usize = 0;
    while i < n
        invariant
            n == a@.len(),
            n == b@.len(),
            0 <= i <= n,
            forall|j: int| 0 <= j < i ==> a@[j] == b@[j],
        decreases n - i,
    {
        let ca = a.get_char(i);
        let cb = b.get_char(i);
        if ca != cb {
            proof {
                if a@ == b@ {
                    assert(a@[i as int] == b@[i as int]);
                }
            }
            return false;
        }
        i = i + 1;
    }
    proof {
        assert(a@ =~= b@);
    }
    true
}

/// Tests whether `p` is a prefix of `s`.
pub fn str_has_prefix(s: &str, p: &str) -> (r: bool)
    ensures
        r == has_prefix(s@, p@),
{
    let n = s.unicode_len();
    let m = p.unicode_len();
    if m > n {
        return false;
    }
    let sub = s.substring_char(0, m);
    str_eq(sub, p)
}

/// Tests whether `p` occurs anywhere inside `s`.
pub fn str_has_substring(s: &str, p: &str) -> (r: bool)
    ensures
        r == has_substring(s@, p@),
{
    let n = s.unicode_len();
    let m = p.unicode_len();
    if m > n {
        return false;
    }
    if m == 0 {
        proof {
            assert(s@.subrange(0, 0 + p@.len() as int) =~= p@);
        }
        return true;
    }
    let mut i: usize = 0;
    while n - i >= m
        invariant
            0 < m <= n,
            n == s@.len(),
            m == p@.len(),
            0 <= i <= n - m + 1,
            forall|j: int| 0 <= j < i ==> #[trigger] s@.subrange(j, j + p@.len() as int) != p@,
        decreases n - i,
    {
        let sub = s.substring_char(i, i + m);
        if str_eq(sub, p) {
            return true;
        }
        i = i + 1;
    }
    false
}

/// Extracts the file name of a path, if it has one.
pub fn file_name_of(s: &str) -> (r: Option<String>)
    ensures
        r is Some <==> file_name_spec(s@) is Some,
        r matches Some(n) ==> Some(n@) == file_name_spec(s@),
{
    let len = s.unicode_len();
    let mut e = len;
    while e > 0 && s.get_char(e - 1) == '/'
        invariant
            0 <= e <= len,
            len == s@.len(),
            forall|j: int| e <= j < len ==> s@[j] == '/',
        decreases e,
    {
        e = e - 1;
    }
    proof {
        lemma_strip_trailing_is(s@, e as int);
    }
    let ghost t = s@.subrange(0, e as int);
    if e == 0 {
        proof {
            assert(after_last_slash(t) =~= Seq::<char>::empty());
        }
        return None;
    }
    let mut k = e;
    while k > 0 && s.get_char(k - 1) != '/'
        invariant
            0 <= k <= e,
            e <= len,
            len == s@.len(),
            forall|j: int| k <= j < e ==> s@[j] != '/',
        decreases k,
    {
        k = k - 1;
    }
    proof {
        assert(forall|j: int| k <= j < e ==> t[j] != '/');
        lemma_after_last_is(t, k as int);
        assert(t.subrange(k as int, e as int) =~= s@.subrange(k as int, e as int));
    }
    let name = s.substring_char(k, e);
    if str_eq(name, ".") || str_eq(name, "..") {
        return None;
    }
    Some(name.to_owned())
}

/// Splits a path into its segments.
pub fn split_path_segments(s: &str) -> (r: Vec<String>)
    ensures
        r.deep_view() == path_segments(s@),
{
    let len = s.unicode_len();
    let mut out: Vec<String> = Vec::new();
    proof {
        assert(out.deep_view() =~= Seq::<Seq<char>>::empty());
        assert(s@.subrange(0, len as int) =~= s@);
        assert(out.deep_view() + path_segments(s@.subrange(0, len as int)) =~= path_segments(
            s@,
        ));
    }
    let mut i: usize = 0;
    while i < len
        invariant
            0 <= i <= len,
            len == s@.len(),
            path_segments(s@) == out.deep_view() + path_segments(
                s@.subrange(i as int, len as int),
            ),
        decreases len - i,
    {
        let ghost rest = s@.subrange(i as int, len as int);
        if s.get_char(i) == '/' {
            proof {
                assert(rest.drop_first() =~= s@.subrange(i + 1, len as int));
            }
            i = i + 1;
        } else {
            let mut j = i;
            while j < len && s.get_char(j) != '/'
                invariant
                    i <= j <= len,
                    len == s@.len(),
                    forall|q: int| i <= q < j ==> s@[q] != '/',
                decreases len - j,
            {
                j = j + 1;
            }
            proof {
                lemma_first_slash_is(rest, j - i);
                assert(rest.subrange(0, j - i) =~= s@.subrange(i as int, j as int));
                assert(rest.subrange(j - i, rest.len() as int) =~= s@.subrange(
                    j as int,
                    len as int,
                ));
            }
            let seg = s.substring_char(i, j);
            let ghost old_dv = out.deep_view();
            out.push(seg.to_owned());
            proof {
                assert(out.deep_view() =~= old_dv + seq![rest.subrange(0, j - i)]);
                assert(out.deep_view() + path_segments(
                    s@.subrange(j as int, len as int),
                ) =~= old_dv + path_segments(rest));
            }
            i = j;
        }
    }
    proof {
        assert(s@.subrange(len as int, len as int) =~= Seq::<char>::empty());
        assert(out.deep_view() =~= out.deep_view() + path_segments(Seq::<char>::empty()));
    }
    out
}

} // verus!
