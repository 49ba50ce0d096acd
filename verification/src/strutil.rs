//! Verified helpers for character-level work on strings: equality, prefix
//! tests, suffix extraction, concatenation and a lexicographic order.

use vstd::prelude::*;

verus! {

/// True when `p` is a prefix of `t`.
pub open spec fn is_prefix_of(p: Seq<char>, t: Seq<char>) -> bool {
    p.len() <= t.len() && forall|i: int| 0 <= i < p.len() ==> t[i] == p[i]
}

/// The characters of `t` after the first `n`.
pub open spec fn suffix_from(t: Seq<char>, n: int) -> Seq<char> {
    t.subrange(n, t.len() as int)
}

/// Character-by-character string equality.
pub fn str_eq(a: &str, b: &str) -> (r: bool)
    ensures
        r == (a@ == b@),
{
    let alen = a.unicode_len();
    let blen = b.unicode_len();
    if alen != blen {
        proof {
            assert(a@ != b@);
        }
        return false;
    }
    let mut i: usize = 0;
    while i < alen
        invariant
            alen == a@.len(),
            blen == b@.len(),
            alen == blen,
            i <= alen,
            forall|j: int| 0 <= j < i ==> a@[j] == b@[j],
        decreases alen - i,
    {
        if a.get_char(i) != b.get_char(i) {
            proof {
                assert(a@[i as int] != b@[i as int]);
            }
            return false;
        }
        i = i + 1;
    }
    proof {
        assert(a@ =~= b@);
    }
    true
}

/// Whether `t` begins with `p`.
pub fn str_starts_with(t: &str, p: &str) -> (r: bool)
    ensures
        r == is_prefix_of(p@, t@),
{
    let tlen = t.unicode_len();
    let plen = p.unicode_len();
    if plen > tlen {
        return false;
    }
    let mut i: usize = 0;
    while i < plen
        invariant
            tlen == t@.len(),
            plen == p@.len(),
            plen <= tlen,
            i <= plen,
            forall|j: int| 0 <= j < i ==> t@[j] == p@[j],
        decreases plen - i,
    {
        if t.get_char(i) != p.get_char(i) {
            proof {
                assert(t@[i as int] != p@[i as int]);
            }
            return false;
        }
        i = i + 1;
    }
    true
}

/// The substring of `t` from character `from` to the end, as an owned string.
pub fn str_suffix(t: &str, from: usize) -> (r: String)
    requires
        from <= t@.len(),
    ensures
        r@ == suffix_from(t@, from as int),
{
    let len = t.unicode_len();
    let sub = t.substring_char(from, len);
    String::from_str(sub)
}

/// The concatenation of two string slices, as an owned string.
pub fn str_concat(a: &str, b: &str) -> (r: String)
    ensures
        r@ == a@ + b@,
{
    let mut s = String::from_str(a);
    s.append(b);
    s
}

/// Two character sequences of different lengths are different.
pub proof fn lemma_neq_by_len(a: Seq<char>, b: Seq<char>)
    requires
        a.len() != b.len(),
    ensures
        a != b,
{
    if a == b {
        assert(a.len() == b.len());
    }
}

/// Two character sequences that differ at some index are different.
pub proof fn lemma_neq_by_char(a: Seq<char>, b: Seq<char>, i: int)
    requires
        0 <= i < a.len(),
        0 <= i < b.len(),
        a[i] != b[i],
    ensures
        a != b,
{
    if a == b {
        assert(a[i] == b[i]);
    }
}

/// A sequence that differs from `p` at an index inside `p` does not have
/// `p` as a prefix.
pub proof fn lemma_not_prefix_by_char(p: Seq<char>, t: Seq<char>, i: int)
    requires
        0 <= i < p.len(),
        i < t.len(),
        t[i] != p[i],
    ensures
        !is_prefix_of(p, t),
{
    if is_prefix_of(p, t) {
        assert(t[i] == p[i]);
    }
}

/// A concatenation starts with its first part, and the rest is its second.
pub proof fn lemma_prefix_concat(p: Seq<char>, v: Seq<char>)
    ensures
        is_prefix_of(p, p + v),
        suffix_from(p + v, p.len() as int) == v,
{
    assert(suffix_from(p + v, p.len() as int) =~= v);
}

/// Strict lexicographic order on character sequences, by code point.
pub open spec fn lex_lt(a: Seq<char>, b: Seq<char>) -> bool
    decreases a.len(),
{
    if b.len() == 0 {
        false
    } else if a.len() == 0 {
        true
    } else if a[0] != b[0] {
        (a[0] as u32) < (b[0] as u32)
    } else {
        lex_lt(a.skip(1), b.skip(1))
    }
}

/// One unfolding step of `lex_lt` below a common prefix: dropping equal heads
/// keeps the order.
proof fn lemma_lex_lt_skip(a: Seq<char>, b: Seq<char>, i: int)
    requires
        0 <= i,
        i < a.len() || i < b.len(),
        forall|j: int| 0 <= j < i ==> a[j] == b[j],
        i <= a.len(),
        i <= b.len(),
    ensures
        lex_lt(a, b) == lex_lt(a.skip(i), b.skip(i)),
    decreases i,
{
    if i > 0 {
        assert(a.len() > 0 && b.len() > 0);
        assert(a[0] == b[0]);
        assert(lex_lt(a, b) == lex_lt(a.skip(1), b.skip(1)));
        assert(a.skip(1).skip(i - 1) =~= a.skip(i));
        assert(b.skip(1).skip(i - 1) =~= b.skip(i));
        lemma_lex_lt_skip(a.skip(1), b.skip(1), i - 1);
    } else {
        assert(a.skip(0) =~= a);
        assert(b.skip(0) =~= b);
    }
}

/// `lex_lt` is irreflexive.
pub proof fn lemma_lex_irreflexive(a: Seq<char>)
    ensures
        !lex_lt(a, a),
    decreases a.len(),
{
    if a.len() > 0 {
        lemma_lex_irreflexive(a.skip(1));
    }
}

/// Two sequences are equal, or one is lexicographically below the other.
pub proof fn lemma_lex_connected(a: Seq<char>, b: Seq<char>)
    ensures
        lex_lt(a, b) || lex_lt(b, a) || a == b,
    decreases a.len(),
{
    if a.len() == 0 && b.len() == 0 {
        assert(a =~= b);
    } else if a.len() == 0 || b.len() == 0 {
    } else if a[0] != b[0] {
        assert((a[0] as u32) != (b[0] as u32)) by {
            vstd::utf8::char_u32_cast(a[0], a[0] as u32);
            vstd::utf8::char_u32_cast(b[0], b[0] as u32);
        }
    } else {
        lemma_lex_connected(a.skip(1), b.skip(1));
        if a.skip(1) == b.skip(1) {
            assert(a.skip(1).len() == a.len() - 1);
            assert(b.skip(1).len() == b.len() - 1);
            assert(a.len() == b.len());
            assert forall|i: int| 0 <= i < a.len() implies a[i] == b[i] by {
                if i >= 1 {
                    assert(a.skip(1)[i - 1] == a[i]);
                    assert(b.skip(1)[i - 1] == b[i]);
                }
            }
            assert(a =~= b);
        }
    }
}

/// `lex_lt` is asymmetric.
pub proof fn lemma_lex_asymmetric(a: Seq<char>, b: Seq<char>)
    requires
        lex_lt(a, b),
    ensures
        !lex_lt(b, a),
    decreases a.len(),
{
    if b.len() == 0 {
    } else if a.len() == 0 {
    } else if a[0] != b[0] {
    } else {
        lemma_lex_asymmetric(a.skip(1), b.skip(1));
    }
}

/// `lex_lt` is transitive.
pub proof fn lemma_lex_transitive(a: Seq<char>, b: Seq<char>, c: Seq<char>)
    requires
        lex_lt(a, b),
        lex_lt(b, c),
    ensures
        lex_lt(a, c),
    decreases a.len() + b.len() + c.len(),
{
    if b.len() == 0 {
    } else if c.len() == 0 {
    } else if a.len() == 0 {
    } else {
        if a[0] == b[0] && b[0] == c[0] {
            lemma_lex_transitive(a.skip(1), b.skip(1), c.skip(1));
        } else if a[0] == b[0] {
        } else if b[0] == c[0] {
        } else {
        }
    }
}

/// Lexicographic comparison of two string slices.
pub fn str_lt(a: &str, b: &str) -> (r: bool)
    ensures
        r == lex_lt(a@, b@),
{
    let alen = a.unicode_len();
    let blen = b.unicode_len();
    let mut i: usize = 0;
    loop
        invariant
            alen == a@.len(),
            blen == b@.len(),
            i <= alen,
            i <= blen,
            forall|j: int| 0 <= j < i ==> a@[j] == b@[j],
        decreases alen - i,
    {
        if i == blen {
            proof {
                if i < a@.len() || i < b@.len() {
                    lemma_lex_lt_skip(a@, b@, i as int);
                } else {
                    assert(a@ =~= b@);
                    lemma_lex_irreflexive(a@);
                }
            }
            return false;
        }
        if i == alen {
            proof {
                lemma_lex_lt_skip(a@, b@, i as int);
            }
            return true;
        }
        let ca = a.get_char(i);
        let cb = b.get_char(i);
        if ca != cb {
            proof {
                lemma_lex_lt_skip(a@, b@, i as int);
                assert(a@.skip(i as int)[0] == a@[i as int]);
                assert(b@.skip(i as int)[0] == b@[i as int]);
            }
            return (ca as u32) < (cb as u32);
        }
        i = i + 1;
    }
}

} // verus!
