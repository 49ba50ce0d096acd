//! The project registry: resolves the fuzz workspace root from an explicit
//! override or the conventional location, and enumerates declared targets
//! in a stable order — sorted lexicographically with duplicates collapsed —
//! independent of the order in which the surrounding binary read the
//! directory.

use vstd::prelude::*;

use crate::commands::OrchestrationError;
use crate::plan::lemma_deep_push;
use crate::strutil::{
    lex_lt, lemma_lex_asymmetric, lemma_lex_connected, lemma_lex_irreflexive,
    lemma_lex_transitive, str_eq, str_lt,
};

verus! {

/// Strictly sorted in lexicographic order; strictness makes the entries
/// pairwise distinct.
pub open spec fn sorted_lex(s: Seq<Seq<char>>) -> bool {
    forall|i: int, j: int| 0 <= i < j < s.len() ==> lex_lt(s[i], s[j])
}

/// Resolves the workspace root: the explicit override when given, else the
/// conventional root when the surrounding binary found one, else failure.
pub fn locate(explicit_override: Option<String>, conventional: Option<String>) -> (r: Result<
    String,
    OrchestrationError,
>)
    ensures
        explicit_override matches Option::Some(p) ==> (r matches Result::Ok(q) && q@ == p@),
        explicit_override is None ==> (conventional matches Option::Some(c) ==> (
        r matches Result::Ok(q) && q@ == c@)),
        explicit_override is None && conventional is None ==> r == Result::Err::<
            String,
            OrchestrationError,
        >(OrchestrationError::WorkspaceNotFound),
{
    match explicit_override {
        Option::Some(p) => Result::Ok(p),
        Option::None => match conventional {
            Option::Some(c) => Result::Ok(c),
            Option::None => Result::Err(OrchestrationError::WorkspaceNotFound),
        },
    }
}

/// Inserts a name into a sorted listing, keeping it sorted and dropping a
/// duplicate.
fn insert_sorted(v: &Vec<String>, x: &String) -> (r: Vec<String>)
    requires
        sorted_lex(v.deep_view()),
    ensures
        sorted_lex(r.deep_view()),
        forall|s: Seq<char>|
            #[trigger] r.deep_view().contains(s) <==> (v.deep_view().contains(s) || s == x@),
{
    let ghost vd = v.deep_view();
    let mut r: Vec<String> = Vec::new();
    let mut i: usize = 0;
    while i < v.len() && str_lt(v[i].as_str(), x.as_str())
        invariant
            sorted_lex(v.deep_view()),
            vd == v.deep_view(),
            i <= v.len(),
            r.deep_view() =~= vd.take(i as int),
            forall|j: int| 0 <= j < i ==> lex_lt(vd[j], x@),
        decreases v.len() - i,
    {
        let ghost before = r@;
        let ghost beforedeep = r.deep_view();
        r.push(v[i].clone());
        proof {
            lemma_deep_push(r, before, beforedeep, r@[before.len() as int]);
            assert(r.deep_view() =~= vd.take(i + 1));
        }
        i = i + 1;
    }
    // Here every earlier entry is below `x`, and either the listing is
    // exhausted or the entry at `i` is not below `x`.
    if i < v.len() && str_eq(v[i].as_str(), x.as_str()) {
        // `x` is already listed: copy the remainder unchanged.
        let ghost mid = i as int;
        while i < v.len()
            invariant
                vd == v.deep_view(),
                0 <= mid <= i <= v.len(),
                vd[mid] == x@,
                r.deep_view() =~= vd.take(i as int),
            decreases v.len() - i,
        {
            let ghost before = r@;
            let ghost beforedeep = r.deep_view();
            r.push(v[i].clone());
            proof {
                lemma_deep_push(r, before, beforedeep, r@[before.len() as int]);
                assert(r.deep_view() =~= vd.take(i + 1));
            }
            i = i + 1;
        }
        proof {
            assert(vd.take(vd.len() as int) =~= vd);
            assert(r.deep_view() =~= vd);
            assert(vd.contains(x@)) by {
                assert(vd[mid] == x@);
            }
        }
        r
    } else {
        proof {
            if i < v.len() {
                assert(!lex_lt(vd[i as int], x@));
                assert(vd[i as int] != x@);
                lemma_lex_connected(vd[i as int], x@);
                assert(lex_lt(x@, vd[i as int]));
            }
        }
        let ghost pos = i as int;
        let ghost before = r@;
        let ghost beforedeep = r.deep_view();
        r.push(x.clone());
        proof {
            lemma_deep_push(r, before, beforedeep, r@[before.len() as int]);
            assert(r.deep_view() =~= vd.take(pos).push(x@));
        }
        while i < v.len()
            invariant
                vd == v.deep_view(),
                sorted_lex(vd),
                0 <= pos <= i <= v.len(),
                forall|j: int| 0 <= j < pos ==> lex_lt(vd[j], x@),
                pos < vd.len() ==> lex_lt(x@, vd[pos]),
                r.deep_view() =~= vd.take(pos).push(x@) + vd.subrange(pos, i as int),
            decreases v.len() - i,
        {
            let ghost before2 = r@;
            let ghost beforedeep2 = r.deep_view();
            r.push(v[i].clone());
            proof {
                lemma_deep_push(r, before2, beforedeep2, r@[before2.len() as int]);
                assert(r.deep_view() =~= vd.take(pos).push(x@) + vd.subrange(pos, i + 1));
            }
            i = i + 1;
        }
        proof {
            let rd = r.deep_view();
            assert(rd =~= vd.take(pos).push(x@) + vd.subrange(pos, vd.len() as int));
            // Entry layout: vd[0..pos], then x, then vd[pos..].
            assert(rd.len() == vd.len() + 1);
            assert(forall|j: int| 0 <= j < pos ==> rd[j] == vd[j]);
            assert(rd[pos] == x@);
            assert(forall|j: int| pos < j < rd.len() ==> rd[j] == vd[j - 1]);
            assert forall|a: int, b: int| 0 <= a < b < rd.len() implies lex_lt(rd[a], rd[b]) by {
                if b < pos {
                } else if b == pos {
                    assert(lex_lt(vd[a], x@));
                } else if a == pos {
                    assert(rd[b] == vd[b - 1]);
                    if b - 1 == pos {
                        assert(lex_lt(x@, vd[pos]));
                    } else {
                        assert(lex_lt(x@, vd[pos]));
                        assert(lex_lt(vd[pos], vd[b - 1]));
                        lemma_lex_transitive(x@, vd[pos], vd[b - 1]);
                    }
                } else if a < pos {
                    if b - 1 == a {
                        assert(lex_lt(vd[a], x@));
                        assert(lex_lt(x@, vd[pos]));
                        assert(a == pos - 1 || a < pos - 1);
                        assert(lex_lt(vd[a], vd[b - 1]) || b - 1 == a);
                    }
                    if a < b - 1 {
                        assert(lex_lt(vd[a], vd[b - 1]));
                    } else {
                        // b - 1 == a < pos: then rd[b] == vd[a]; but b > pos > a
                        // forces b - 1 >= pos > a, impossible here.
                        assert(false);
                    }
                } else {
                    assert(lex_lt(vd[a - 1], vd[b - 1]));
                }
            }
            assert forall|s: Seq<char>|
                #[trigger] rd.contains(s) <==> (vd.contains(s) || s == x@) by {
                if rd.contains(s) {
                    let j = choose|j: int| 0 <= j < rd.len() && rd[j] == s;
                    if j < pos {
                        assert(vd[j] == s);
                        assert(vd.contains(s));
                    } else if j == pos {
                    } else {
                        assert(vd[j - 1] == s);
                        assert(vd.contains(s));
                    }
                }
                if vd.contains(s) {
                    let j = choose|j: int| 0 <= j < vd.len() && vd[j] == s;
                    if j < pos {
                        assert(rd[j] == s);
                    } else {
                        assert(rd[j + 1] == s);
                    }
                    assert(rd.contains(s));
                }
                if s == x@ {
                    assert(rd[pos] == s);
                    assert(rd.contains(s));
                }
            }
        }
        r
    }
}

/// The declared target names: one entry per distinct name, in sorted order
/// regardless of the enumeration order of the input.
pub fn list_targets(names: &Vec<String>) -> (r: Vec<String>)
    ensures
        sorted_lex(r.deep_view()),
        forall|s: Seq<char>|
            #[trigger] r.deep_view().contains(s) <==> names.deep_view().contains(s),
{
    let ghost nd = names.deep_view();
    let mut r: Vec<String> = Vec::new();
    let mut i: usize = 0;
    while i < names.len()
        invariant
            nd == names.deep_view(),
            i <= names.len(),
            sorted_lex(r.deep_view()),
            forall|s: Seq<char>|
                #[trigger] r.deep_view().contains(s) <==> nd.take(i as int).contains(s),
        decreases names.len() - i,
    {
        let ghost prev = r.deep_view();
        r = insert_sorted(&r, &names[i]);
        proof {
            assert(nd[i as int] == names[i as int]@);
            assert forall|s: Seq<char>|
                #[trigger] r.deep_view().contains(s) <==> nd.take(i + 1).contains(s) by {
                if r.deep_view().contains(s) {
                    if prev.contains(s) {
                        let j = choose|j: int| 0 <= j < prev.len() && prev[j] == s;
                        assert(nd.take(i as int).contains(s));
                        let k = choose|k: int|
                            0 <= k < nd.take(i as int).len() && nd.take(i as int)[k] == s;
                        assert(nd.take(i + 1)[k] == s);
                        assert(nd.take(i + 1).contains(s));
                    } else {
                        assert(s == nd[i as int]);
                        assert(nd.take(i + 1)[i as int] == s);
                        assert(nd.take(i + 1).contains(s));
                    }
                }
                if nd.take(i + 1).contains(s) {
                    let k = choose|k: int| 0 <= k < i + 1 && #[trigger] nd.take(i + 1)[k] == s;
                    if k < i {
                        assert(nd.take(i as int)[k] == s);
                        assert(nd.take(i as int).contains(s));
                        assert(prev.contains(s));
                    } else {
                        assert(s == nd[i as int]);
                    }
                    assert(r.deep_view().contains(s));
                }
            }
        }
        i = i + 1;
    }
    proof {
        assert(nd.take(nd.len() as int) =~= nd);
    }
    r
}

/// Whether a target of this name is declared: true exactly when the name
/// is among the registered ones.
pub fn exists_target(names: &Vec<String>, name: &str) -> (r: bool)
    ensures
        r == names.deep_view().contains(name@),
{
    let mut i: usize = 0;
    while i < names.len()
        invariant
            i <= names.len(),
            forall|j: int| 0 <= j < i ==> names.deep_view()[j] != name@,
        decreases names.len() - i,
    {
        if str_eq(names[i].as_str(), name) {
            proof {
                assert(names.deep_view()[i as int] == name@);
                assert(names.deep_view().contains(name@));
            }
            return true;
        }
        i = i + 1;
    }
    proof {
        if names.deep_view().contains(name@) {
            let j = choose|j: int|
                0 <= j < names.deep_view().len() && names.deep_view()[j] == name@;
            assert(names.deep_view()[j] != name@);
        }
    }
    false
}

/// The listing is canonical: two strictly sorted listings with the same
/// members are the same listing. Together with [`list_targets`]'s
/// contract, the listed targets do not depend on the order in which the
/// file names were enumerated.
pub proof fn lemma_listing_canonical(s1: Seq<Seq<char>>, s2: Seq<Seq<char>>)
    requires
        sorted_lex(s1),
        sorted_lex(s2),
        forall|s: Seq<char>| #[trigger] s1.contains(s) == #[trigger] s2.contains(s),
    ensures
        s1 == s2,
    decreases s1.len(),
{
    if s1.len() == 0 {
        if s2.len() > 0 {
            assert(s2.contains(s2[0]));
            assert(s1.contains(s2[0]));
        }
        assert(s1 =~= s2);
    } else if s2.len() == 0 {
        assert(s1.contains(s1[0]));
        assert(s2.contains(s1[0]));
        assert(s1 =~= s2);
    } else {
        // The heads are each other's minimum, so they are equal.
        assert(s1.contains(s1[0]));
        assert(s2.contains(s1[0]));
        let j = choose|j: int| 0 <= j < s2.len() && s2[j] == s1[0];
        assert(s2.contains(s2[0]));
        assert(s1.contains(s2[0]));
        let k = choose|k: int| 0 <= k < s1.len() && s1[k] == s2[0];
        if s1[0] != s2[0] {
            lemma_lex_connected(s1[0], s2[0]);
            if lex_lt(s1[0], s2[0]) {
                assert(j != 0);
                assert(lex_lt(s2[0], s2[j]));
                lemma_lex_asymmetric(s1[0], s2[0]);
            } else {
                assert(k != 0);
                assert(lex_lt(s1[0], s1[k]));
                lemma_lex_asymmetric(s2[0], s1[0]);
            }
        }
        let t1 = s1.skip(1);
        let t2 = s2.skip(1);
        assert forall|a: int, b: int| 0 <= a < b < t1.len() implies lex_lt(t1[a], t1[b]) by {
            assert(t1[a] == s1[a + 1]);
            assert(t1[b] == s1[b + 1]);
        }
        assert forall|a: int, b: int| 0 <= a < b < t2.len() implies lex_lt(t2[a], t2[b]) by {
            assert(t2[a] == s2[a + 1]);
            assert(t2[b] == s2[b + 1]);
        }
        assert forall|s: Seq<char>| #[trigger] t1.contains(s) == #[trigger] t2.contains(s) by {
            if t1.contains(s) {
                let m = choose|m: int| 0 <= m < t1.len() && t1[m] == s;
                assert(s1[m + 1] == s);
                assert(s1.contains(s));
                assert(s2.contains(s));
                let n = choose|n: int| 0 <= n < s2.len() && s2[n] == s;
                assert(lex_lt(s1[0], s1[m + 1]));
                if n == 0 {
                    lemma_lex_irreflexive(s);
                }
                assert(t2[n - 1] == s);
                assert(t2.contains(s));
            }
            if t2.contains(s) {
                let m = choose|m: int| 0 <= m < t2.len() && t2[m] == s;
                assert(s2[m + 1] == s);
                assert(s2.contains(s));
                assert(s1.contains(s));
                let n = choose|n: int| 0 <= n < s1.len() && s1[n] == s;
                assert(lex_lt(s2[0], s2[m + 1]));
                if n == 0 {
                    lemma_lex_irreflexive(s);
                }
                assert(t1[n - 1] == s);
                assert(t1.contains(s));
            }
        }
        lemma_listing_canonical(t1, t2);
        assert forall|i: int| 0 <= i < s1.len() implies s1[i] == s2[i] by {
            if i >= 1 {
                assert(t1[i - 1] == s1[i]);
                assert(t2[i - 1] == s2[i]);
            }
        }
        assert(s1 =~= s2);
    }
}

} // verus!
