//! Character-level helpers shared by the text-processing modules:
//! Unicode whitespace, trimming, prefix tests and conversions between
//! `&str`, `Vec<char>` and `String`.

use vstd::prelude::*;

verus! {

/// The Unicode `White_Space` property, which `char::is_whitespace` and
/// `str::trim` use.
pub open spec fn is_unicode_whitespace(c: char) -> bool {
    ||| ('\u{9}' <= c && c <= '\u{d}')
    ||| c == ' '
    ||| c == '\u{85}'
    ||| c == '\u{a0}'
    ||| c == '\u{1680}'
    ||| ('\u{2000}' <= c && c <= '\u{200a}')
    ||| c == '\u{2028}'
    ||| c == '\u{2029}'
    ||| c == '\u{202f}'
    ||| c == '\u{205f}'
    ||| c == '\u{3000}'
}

/// Executable `White_Space` test.
pub fn is_whitespace(c: char) -> (b: bool)
    ensures
        b == is_unicode_whitespace(c),
{
    ('\u{9}' <= c && c <= '\u{d}') || c == ' ' || c == '\u{85}' || c == '\u{a0}' || c
        == '\u{1680}' || ('\u{2000}' <= c && c <= '\u{200a}') || c == '\u{2028}' || c
        == '\u{2029}' || c == '\u{202f}' || c == '\u{205f}' || c == '\u{3000}'
}

/// `s` without leading whitespace.
pub open spec fn trim_start(s: Seq<char>) -> Seq<char>
    decreases s.len(),
{
    if s.len() > 0 && is_unicode_whitespace(s[0]) {
        trim_start(s.drop_first())
    } else {
        s
    }
}

/// `s` without trailing whitespace.
pub open spec fn trim_end(s: Seq<char>) -> Seq<char>
    decreases s.len(),
{
    if s.len() > 0 && is_unicode_whitespace(s.last()) {
        trim_end(s.drop_last())
    } else {
        s
    }
}

/// `s` without leading and trailing whitespace (`str::trim`).
pub open spec fn trim(s: Seq<char>) -> Seq<char> {
    trim_end(trim_start(s))
}

/// Whether `s` begins with `p`.
pub open spec fn has_prefix(s: Seq<char>, p: Seq<char>) -> bool {
    p.len() <= s.len() && s.take(p.len() as int) == p
}

proof fn lemma_trim_start_skip(s: Seq<char>, i: int)
    requires
        0 <= i <= s.len(),
        forall|k: int| 0 <= k < i ==> is_unicode_whitespace(#[trigger] s[k]),
    ensures
        trim_start(s) == trim_start(s.skip(i)),
    decreases i,
{
    if i > 0 {
        assert(s.skip(1) == s.drop_first());
        lemma_trim_start_skip(s.drop_first(), i - 1);
        assert(s.drop_first().skip(i - 1) =~= s.skip(i));
    } else {
        assert(s.skip(0) =~= s);
    }
}

proof fn lemma_trim_end_take(s: Seq<char>, j: int)
    requires
        0 <= j <= s.len(),
        forall|k: int| j <= k < s.len() ==> is_unicode_whitespace(#[trigger] s[k]),
    ensures
        trim_end(s) == trim_end(s.take(j)),
    decreases s.len() - j,
{
    if j < s.len() {
        assert(s.take(s.len() - 1) == s.drop_last());
        lemma_trim_end_take(s.drop_last(), j);
        assert(s.drop_last().take(j) =~= s.take(j));
    } else {
        assert(s.take(j) =~= s);
    }
}

/// The characters of `s[from..to]` with surrounding whitespace removed.
pub fn trim_range(s: &Vec<char>, from: usize, to: usize) -> (r: Vec<char>)
    requires
        from <= to <= s@.len(),
    ensures
        r@ == trim(s@.subrange(from as int, to as int)),
{
    let ghost sub = s@.subrange(from as int, to as int);
    let mut a = from;
    while a < to && is_whitespace(s[a])
        invariant
            from <= a <= to <= s@.len(),
            sub == s@.subrange(from as int, to as int),
            forall|k: int| from <= k < a ==> is_unicode_whitespace(#[trigger] s@[k]),
        decreases to - a,
    {
        a = a + 1;
    }
    proof {
        assert forall|k: int| 0 <= k < a - from implies is_unicode_whitespace(#[trigger] sub[k]) by {
            assert(sub[k] == s@[from + k]);
        }
        lemma_trim_start_skip(sub, a - from);
        assert(sub.skip(a - from) =~= s@.subrange(a as int, to as int));
        if a < to {
            assert(trim_start(s@.subrange(a as int, to as int)) == s@.subrange(a as int, to as int));
        } else {
            assert(s@.subrange(a as int, to as int) =~= Seq::<char>::empty());
        }
    }
    let mut b = to;
    while b > a && is_whitespace(s[b - 1])
        invariant
            from <= a <= b <= to <= s@.len(),
            forall|k: int| b <= k < to ==> is_unicode_whitespace(#[trigger] s@[k]),
        decreases b - a,
    {
        b = b - 1;
    }
    let ghost mid = s@.subrange(a as int, to as int);
    proof {
        assert forall|k: int| b - a <= k < mid.len() implies is_unicode_whitespace(#[trigger] mid[k]) by {
            assert(mid[k] == s@[a + k]);
        }
        lemma_trim_end_take(mid, b - a);
        assert(mid.take(b - a) =~= s@.subrange(a as int, b as int));
        if b > a {
            assert(trim_end(s@.subrange(a as int, b as int)) == s@.subrange(a as int, b as int));
        } else {
            assert(s@.subrange(a as int, b as int) =~= Seq::<char>::empty());
        }
    }
    let mut r: Vec<char> = Vec::new();
    let mut k = a;
    while k < b
        invariant
            a <= k <= b <= s@.len(),
            r@ == s@.subrange(a as int, k as int),
        decreases b - k,
    {
        r.push(s[k]);
        proof {
            assert(s@.subrange(a as int, k + 1) =~= s@.subrange(a as int, k as int).push(s@[k as int]));
        }
        k = k + 1;
    }
    r
}

/// Whether `s[at..]` begins with `p`.
pub fn has_prefix_at(s: &Vec<char>, at: usize, p: &Vec<char>) -> (b: bool)
    requires
        at <= s@.len(),
    ensures
        b == has_prefix(s@.skip(at as int), p@),
{
    if p.len() > s.len() - at {
        return false;
    }
    let mut k: usize = 0;
    while k < p.len()
        invariant
            at + p@.len() <= s@.len(),
            s@.len() == s.len(),
            0 <= k <= p@.len(),
            forall|m: int| 0 <= m < k ==> s@[at + m] == p@[m],
        decreases p@.len() - k,
    {
        if s[at + k] != p[k] {
            proof {
                assert(s@.skip(at as int).take(p@.len() as int)[k as int] != p@[k as int]);
            }
            return false;
        }
        k = k + 1;
    }
    proof {
        assert(s@.skip(at as int).take(p@.len() as int) =~= p@);
    }
    true
}

/// The characters of `s`, in order.
pub fn chars_of(s: &str) -> (v: Vec<char>)
    ensures
        v@ == s@,
{
    let mut v: Vec<char> = Vec::new();
    for c in it: s.chars()
        invariant
            it.seq() == s@,
            v@ == s@.take(it.index()),
    {
        v.push(c);
    }
    v
}

/// A `String` holding exactly the characters of `v`.
///
/// Trusted: calls `Iterator::collect` into `String`; std documents that
/// collecting characters concatenates them in order.
#[verifier::external_body]
pub(crate) fn string_from_chars(v: &Vec<char>) -> (s: String)
    ensures
        s@ == v@,
{
    v.iter().collect::<String>()
}

} // verus!

verus! {

/// Appends the characters of `s` to `v`.
pub fn push_chars(v: &mut Vec<char>, s: &str)
    ensures
        final(v)@ == old(v)@ + s@,
{
    let c = chars_of(s);
    let mut k: usize = 0;
    while k < c.len()
        invariant
            0 <= k <= c@.len(),
            v@ == old(v)@ + c@.take(k as int),
        decreases c@.len() - k,
    {
        v.push(c[k]);
        proof {
            assert(c@.take(k + 1) =~= c@.take(k as int).push(c@[k as int]));
        }
        k = k + 1;
    }
    proof {
        assert(c@.take(c@.len() as int) =~= c@);
    }
}

} // verus!

verus! {

/// Whether `s` begins with `p`.
pub fn starts_with(s: &str, p: &str) -> (b: bool)
    ensures
        b == has_prefix(s@, p@),
{
    let sv = chars_of(s);
    let pv = chars_of(p);
    let r = has_prefix_at(&sv, 0, &pv);
    proof {
        assert(sv@.skip(0) =~= sv@);
    }
    r
}

/// Whether `a` and `b` hold the same characters.
pub fn str_eq(a: &str, b: &str) -> (r: bool)
    ensures
        r == (a@ == b@),
{
    let av = chars_of(a);
    let bv = chars_of(b);
    if av.len() != bv.len() {
        return false;
    }
    let r = has_prefix_at(&av, 0, &bv);
    proof {
        assert(av@.skip(0) =~= av@);
        if r {
            assert(av@.take(bv@.len() as int) =~= av@);
        }
    }
    r
}

} // verus!
