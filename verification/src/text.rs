//! Character-level text operations: Unicode whitespace trimming, stripping a
//! trailing character, prefix tests and left-to-right substring replacement.
use vstd::prelude::*;

verus! {

/// The Unicode `White_Space` property, the set that `char::is_whitespace`
/// tests for.
pub open spec fn is_unicode_whitespace(c: char) -> bool {
    ||| ('\u{9}' <= c && c <= '\u{d}')
    ||| c == ' '
    ||| c == '\u{85}'
    ||| c == '\u{a0}'
    ||| c == '\u{1680}'
    ||| ('\u{2000}' <= c && c <= '\u{200a}')
    ||| c == '\u{2028}'
    ||| c == '\u{2029}'
    ||| c == '\u{202f}'
    ||| c == '\u{205f}'
    ||| c == '\u{3000}'
}

/// `s` without its leading whitespace.
pub open spec fn trim_start_ws(s: Seq<char>) -> Seq<char>
    decreases s.len(),
{
    if s.len() > 0 && is_unicode_whitespace(s[0]) {
        trim_start_ws(s.drop_first())
    } else {
        s
    }
}

/// `s` without its trailing whitespace.
pub open spec fn trim_end_ws(s: Seq<char>) -> Seq<char>
    decreases s.len(),
{
    if s.len() > 0 && is_unicode_whitespace(s.last()) {
        trim_end_ws(s.drop_last())
    } else {
        s
    }
}

/// `s` without leading and trailing whitespace (what `str::trim` gives).
pub open spec fn trim_ws(s: Seq<char>) -> Seq<char> {
    trim_end_ws(trim_start_ws(s))
}

/// `s` without any trailing occurrences of `c` (what `str::trim_end_matches(c)` gives).
pub open spec fn trim_end_char(s: Seq<char>, c: char) -> Seq<char>
    decreases s.len(),
{
    if s.len() > 0 && s.last() == c {
        trim_end_char(s.drop_last(), c)
    } else {
        s
    }
}

/// `p` occurs in `s` at index `i`.
pub open spec fn occurs_at(s: Seq<char>, p: Seq<char>, i: int) -> bool {
    0 <= i && i + p.len() <= s.len() && s.subrange(i, i + p.len()) == p
}

/// `p` occurs somewhere in `s`.
pub open spec fn contains_seq(s: Seq<char>, p: Seq<char>) -> bool {
    exists|i: int| occurs_at(s, p, i)
}

/// Every non-overlapping occurrence of the non-empty pattern `p` in `s`,
/// found from left to right, replaced by `r` (what `str::replace` gives).
pub open spec fn replace_all(s: Seq<char>, p: Seq<char>, r: Seq<char>) -> Seq<char>
    decreases s.len(),
{
    if p.len() == 0 || s.len() < p.len() {
        s
    } else if s.take(p.len() as int) == p {
        r + replace_all(s.skip(p.len() as int), p, r)
    } else {
        seq![s[0]] + replace_all(s.skip(1), p, r)
    }
}

/// Tests one character for the Unicode `White_Space` property.
pub fn is_whitespace_char(c: char) -> (res: bool)
    ensures
        res == is_unicode_whitespace(c),
{
    ('\u{9}' <= c && c <= '\u{d}') || c == ' ' || c == '\u{85}' || c == '\u{a0}' || c
        == '\u{1680}' || ('\u{2000}' <= c && c <= '\u{200a}') || c == '\u{2028}' || c
        == '\u{2029}' || c == '\u{202f}' || c == '\u{205f}' || c == '\u{3000}'
}

proof fn lemma_trim_end_ws_prefix(s: Seq<char>, k: int)
    requires
        0 <= k <= s.len(),
        forall|j: int| k <= j < s.len() ==> is_unicode_whitespace(#[trigger] s[j]),
        k == 0 || !is_unicode_whitespace(s[k - 1]),
    ensures
        trim_end_ws(s) == s.take(k),
    decreases s.len(),
{
    if s.len() > k {
        assert(s.drop_last().take(k) =~= s.take(k));
        lemma_trim_end_ws_prefix(s.drop_last(), k);
    } else {
        assert(s.take(k) =~= s);
    }
}

proof fn lemma_trim_end_char_prefix(s: Seq<char>, c: char, k: int)
    requires
        0 <= k <= s.len(),
        forall|j: int| k <= j < s.len() ==> #[trigger] s[j] == c,
        k == 0 || s[k - 1] != c,
    ensures
        trim_end_char(s, c) == s.take(k),
    decreases s.len(),
{
    if s.len() > k {
        assert(s.drop_last().take(k) =~= s.take(k));
        lemma_trim_end_char_prefix(s.drop_last(), c, k);
    } else {
        assert(s.take(k) =~= s);
    }
}

/// `s` without leading and trailing Unicode whitespace.
pub fn trim_whitespace(s: &str) -> (res: &str)
    ensures
        res@ == trim_ws(s@),
{
    let len = s.unicode_len();
    let mut start: usize = 0;
    assert(s@.skip(0) =~= s@);
    while start < len && is_whitespace_char(s.get_char(start))
        invariant
            len == s@.len(),
            start <= len,
            trim_start_ws(s@) == trim_start_ws(s@.skip(start as int)),
        decreases len - start,
    {
        assert(s@.skip(start as int).drop_first() =~= s@.skip(start + 1));
        start = start + 1;
    }
    let ghost rest = s@.skip(start as int);
    assert(trim_start_ws(rest) == rest);
    let mut end: usize = len;
    while end > start && is_whitespace_char(s.get_char(end - 1))
        invariant
            len == s@.len(),
            start <= end <= len,
            rest == s@.skip(start as int),
            forall|j: int| end <= j < len ==> is_unicode_whitespace(#[trigger] s@[j]),
        decreases end - start,
    {
        end = end - 1;
    }
    proof {
        let k = end - start;
        assert forall|j: int| k <= j < rest.len() implies is_unicode_whitespace(
            #[trigger] rest[j],
        ) by {
            assert(rest[j] == s@[start + j]);
        }
        if k > 0 {
            assert(rest[k - 1] == s@[end - 1]);
        }
        lemma_trim_end_ws_prefix(rest, k);
        assert(rest.take(k) =~= s@.subrange(start as int, end as int));
    }
    s.substring_char(start, end)
}

/// `s` without any trailing occurrences of `c`.
pub fn strip_trailing_char(s: &str, c: char) -> (res: &str)
    ensures
        res@ == trim_end_char(s@, c),
{
    let len = s.unicode_len();
    let mut end: usize = len;
    while end > 0 && s.get_char(end - 1) == c
        invariant
            len == s@.len(),
            end <= len,
            forall|j: int| end <= j < len ==> #[trigger] s@[j] == c,
        decreases end,
    {
        end = end - 1;
    }
    proof {
        lemma_trim_end_char_prefix(s@, c, end as int);
        assert(s@.take(end as int) =~= s@.subrange(0, end as int));
    }
    s.substring_char(0, end)
}

/// Whether `s` begins with the character `c`.
pub fn starts_with_char(s: &str, c: char) -> (res: bool)
    ensures
        res == (s@.len() > 0 && s@[0] == c),
{
    let len = s.unicode_len();
    len > 0 && s.get_char(0) == c
}

/// Whether `p` occurs in `s` at index `i`.
pub fn matches_at(s: &str, p: &str, i: usize) -> (res: bool)
    ensures
        res == occurs_at(s@, p@, i as int),
{
    let slen = s.unicode_len();
    let plen = p.unicode_len();
    if i > slen || plen > slen - i {
        return false;
    }
    let mut j: usize = 0;
    while j < plen
        invariant
            slen == s@.len(),
            plen == p@.len(),
            i + plen <= slen,
            j <= plen,
            forall|k: int| 0 <= k < j ==> s@[i + k] == p@[k],
        decreases plen - j,
    {
        if s.get_char(i + j) != p.get_char(j) {
            assert(s@.subrange(i as int, i + plen)[j as int] != p@[j as int]);
            return false;
        }
        j = j + 1;
    }
    assert(s@.subrange(i as int, i + plen) =~= p@);
    true
}

/// `s` with every non-overlapping occurrence of the non-empty pattern `p`,
/// taken from left to right, replaced by `r`.
pub fn replace_occurrences(s: &str, p: &str, r: &str) -> (res: String)
    requires
        p@.len() > 0,
    ensures
        res@ == replace_all(s@, p@, r@),
{
    let slen = s.unicode_len();
    let plen = p.unicode_len();
    let mut out = String::new();
    let mut i: usize = 0;
    assert(s@.skip(0) =~= s@);
    assert(out@ + replace_all(s@, p@, r@) =~= replace_all(s@, p@, r@));
    while i < slen
        invariant
            slen == s@.len(),
            plen == p@.len(),
            plen > 0,
            i <= slen,
            out@ + replace_all(s@.skip(i as int), p@, r@) == replace_all(s@, p@, r@),
        decreases slen - i,
    {
        let ghost rest = s@.skip(i as int);
        if plen > slen - i {
            assert(replace_all(rest, p@, r@) == rest);
            out.append(s.substring_char(i, slen));
            assert(s@.subrange(i as int, slen as int) =~= rest);
            i = slen;
        } else if matches_at(s, p, i) {
            assert(rest.take(plen as int) =~= s@.subrange(i as int, i + plen));
            assert(rest.skip(plen as int) =~= s@.skip(i + plen));
            let ghost old_out = out@;
            let ghost tail = replace_all(rest.skip(plen as int), p@, r@);
            assert(replace_all(rest, p@, r@) == r@ + tail);
            out.append(r);
            assert(old_out + (r@ + tail) =~= out@ + tail);
            i = i + plen;
        } else {
            assert(rest.take(plen as int) =~= s@.subrange(i as int, i + plen));
            assert(rest.skip(1) =~= s@.skip(i + 1));
            let ghost old_out = out@;
            let ghost tail = replace_all(rest.skip(1), p@, r@);
            assert(replace_all(rest, p@, r@) == seq![rest[0]] + tail);
            let piece = s.substring_char(i, i + 1);
            assert(piece@ =~= seq![rest[0]]);
            out.append(piece);
            assert(old_out + (seq![rest[0]] + tail) =~= out@ + tail);
            i = i + 1;
        }
    }
    assert(s@.skip(slen as int) =~= Seq::<char>::empty());
    assert(replace_all(Seq::<char>::empty(), p@, r@) == Seq::<char>::empty());
    assert(out@ + Seq::<char>::empty() =~= out@);
    out
}

/// Replacing a pattern that does not occur leaves the text unchanged.
pub proof fn lemma_replace_absent(s: Seq<char>, p: Seq<char>, r: Seq<char>)
    requires
        p.len() > 0,
        !contains_seq(s, p),
    ensures
        replace_all(s, p, r) == s,
    decreases s.len(),
{
    if s.len() >= p.len() {
        if s.take(p.len() as int) == p {
            assert(s.subrange(0, p.len() as int) =~= s.take(p.len() as int));
            assert(occurs_at(s, p, 0));
        }
        assert forall|i: int| !occurs_at(s.skip(1), p, i) by {
            if occurs_at(s.skip(1), p, i) {
                assert(s.subrange(i + 1, i + 1 + p.len()) =~= s.skip(1).subrange(i, i + p.len()));
                assert(occurs_at(s, p, i + 1));
            }
        }
        lemma_replace_absent(s.skip(1), p, r);
        assert(seq![s[0]] + s.skip(1) =~= s);
    }
}

/// Replacing works from the left: the text before the first occurrence of
/// the pattern is kept, that occurrence is replaced, and the rest is
/// replaced in turn.
pub proof fn lemma_replace_first_occurrence(a: Seq<char>, p: Seq<char>, b: Seq<char>, r: Seq<char>)
    requires
        p.len() > 0,
        forall|i: int| 0 <= i < a.len() ==> !occurs_at(#[trigger] (a + p + b), p, i),
    ensures
        replace_all(a + p + b, p, r) == a + r + replace_all(b, p, r),
    decreases a.len(),
{
    let m = a + p + b;
    if a.len() == 0 {
        assert(m.take(p.len() as int) =~= p);
        assert(m.skip(p.len() as int) =~= b);
        assert(a + r + replace_all(b, p, r) =~= r + replace_all(b, p, r));
    } else {
        assert(!occurs_at(m, p, 0));
        assert(m.subrange(0, p.len() as int) =~= m.take(p.len() as int));
        let a1 = a.skip(1);
        assert(m.skip(1) =~= a1 + p + b);
        assert forall|i: int| 0 <= i < a1.len() implies !occurs_at(#[trigger] (a1 + p + b), p, i) by {
            if occurs_at(a1 + p + b, p, i) {
                assert(m.subrange(i + 1, i + 1 + p.len()) =~= (a1 + p + b).subrange(i, i + p.len()));
                assert(occurs_at(m, p, i + 1));
            }
        }
        lemma_replace_first_occurrence(a1, p, b, r);
        assert(m[0] == a[0]);
        assert(seq![a[0]] + (a1 + r + replace_all(b, p, r)) =~= a + r + replace_all(b, p, r));
    }
}

/// Up to the first character that comes from the replacement, a replaced
/// text agrees with the original text.
proof fn lemma_replace_prefix(t: Seq<char>, p: Seq<char>, r: Seq<char>, k: int)
    requires
        p.len() > 0,
        r.len() > 0,
        0 <= k <= replace_all(t, p, r).len(),
        forall|j: int| 0 <= j < k ==> !r.contains(#[trigger] replace_all(t, p, r)[j]),
    ensures
        k <= t.len(),
        replace_all(t, p, r).take(k) == t.take(k),
    decreases t.len(),
{
    let u = replace_all(t, p, r);
    if t.len() < p.len() {
    } else if t.take(p.len() as int) == p {
        if k > 0 {
            assert(u[0] == r[0]);
            assert(r.contains(r[0]));
        }
        assert(u.take(k) =~= t.take(k));
    } else if k > 0 {
        let u1 = replace_all(t.skip(1), p, r);
        assert(u == seq![t[0]] + u1);
        assert forall|j: int| 0 <= j < k - 1 implies !r.contains(#[trigger] u1[j]) by {
            assert(u[j + 1] == u1[j]);
        }
        lemma_replace_prefix(t.skip(1), p, r, k - 1);
        assert(u.take(k) =~= seq![t[0]] + u1.take(k - 1));
        assert(t.take(k) =~= seq![t[0]] + t.skip(1).take(k - 1));
    } else {
        assert(u.take(k) =~= t.take(k));
    }
}

/// When the pattern shares no character with the replacement, no occurrence
/// of the pattern is left after replacing.
pub proof fn lemma_replace_leaves_no_occurrence(s: Seq<char>, p: Seq<char>, r: Seq<char>)
    requires
        p.len() > 0,
        r.len() > 0,
        forall|i: int| 0 <= i < p.len() ==> !r.contains(#[trigger] p[i]),
    ensures
        !contains_seq(replace_all(s, p, r), p),
    decreases s.len(),
{
    let u = replace_all(s, p, r);
    if s.len() < p.len() {
        assert(u == s);
    } else if s.take(p.len() as int) == p {
        let u1 = replace_all(s.skip(p.len() as int), p, r);
        lemma_replace_leaves_no_occurrence(s.skip(p.len() as int), p, r);
        assert(u == r + u1);
        assert forall|i: int| !occurs_at(u, p, i) by {
            if occurs_at(u, p, i) {
                if i < r.len() {
                    assert(u.subrange(i, i + p.len())[0] == p[0]);
                    assert(u[i] == r[i]);
                    assert(r.contains(r[i]));
                } else {
                    assert(u1.subrange(i - r.len(), i - r.len() + p.len()) =~= u.subrange(
                        i,
                        i + p.len(),
                    ));
                    assert(occurs_at(u1, p, i - r.len()));
                }
            }
        }
    } else {
        let u1 = replace_all(s.skip(1), p, r);
        lemma_replace_leaves_no_occurrence(s.skip(1), p, r);
        assert(u == seq![s[0]] + u1);
        assert forall|i: int| !occurs_at(u, p, i) by {
            if occurs_at(u, p, i) {
                if i >= 1 {
                    assert(u1.subrange(i - 1, i - 1 + p.len()) =~= u.subrange(i, i + p.len()));
                    assert(occurs_at(u1, p, i - 1));
                } else {
                    let k = p.len() - 1;
                    assert forall|j: int| 0 <= j < k implies !r.contains(#[trigger] u1[j]) by {
                        assert(u1[j] == u[j + 1]);
                        assert(u.subrange(0, p.len() as int)[j + 1] == p[j + 1]);
                    }
                    lemma_replace_prefix(s.skip(1), p, r, k);
                    assert(s.take(p.len() as int) =~= seq![s[0]] + s.skip(1).take(k));
                    assert(u.subrange(0, p.len() as int) =~= seq![s[0]] + u1.take(k));
                }
            }
        }
    }
}

} // verus!
