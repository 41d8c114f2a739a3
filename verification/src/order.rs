use vstd::prelude::*;

use crate::text::{chars_of, views};

verus! {

// ---------------------------------------------------------------------------
// The order of strings: lexicographic by Unicode scalar value, which is the
// order of their UTF-8 bytes.
// ---------------------------------------------------------------------------

/// `a` comes strictly before `b`.
pub open spec fn lex_lt(a: Seq<char>, b: Seq<char>) -> bool
    decreases a.len(),
{
    if a.len() == 0 {
        b.len() > 0
    } else if b.len() == 0 {
        false
    } else if a[0] != b[0] {
        a[0] < b[0]
    } else {
        lex_lt(a.skip(1), b.skip(1))
    }
}

/// No string comes before itself.
pub proof fn lemma_lex_irreflexive(a: Seq<char>)
    ensures
        !lex_lt(a, a),
    decreases a.len(),
{
    if a.len() > 0 {
        lemma_lex_irreflexive(a.skip(1));
    }
}

/// Of two different strings, exactly one comes before the other.
pub proof fn lemma_lex_total(a: Seq<char>, b: Seq<char>)
    requires
        a != b,
    ensures
        lex_lt(a, b) != lex_lt(b, a),
    decreases a.len(),
{
    if a.len() > 0 && b.len() > 0 {
        if a[0] == b[0] {
            if a.skip(1) == b.skip(1) {
                assert(a =~= seq![a[0]] + a.skip(1));
                assert(b =~= seq![b[0]] + b.skip(1));
            }
            lemma_lex_total(a.skip(1), b.skip(1));
        }
    } else if a.len() == 0 && b.len() == 0 {
        assert(a =~= b);
    }
}

/// The order is transitive.
pub proof fn lemma_lex_transitive(a: Seq<char>, b: Seq<char>, c: Seq<char>)
    requires
        lex_lt(a, b),
        lex_lt(b, c),
    ensures
        lex_lt(a, c),
    decreases a.len(),
{
    if a.len() > 0 && b.len() > 0 && c.len() > 0 {
        if a[0] == b[0] && b[0] == c[0] {
            lemma_lex_transitive(a.skip(1), b.skip(1), c.skip(1));
        }
    }
}

/// Whether `a` comes strictly before `b`.
pub fn lex_less(a: &str, b: &str) -> (r: bool)
    ensures
        r == lex_lt(a@, b@),
{
    let x = chars_of(a);
    let y = chars_of(b);
    let mut i: usize = 0;
    assert(x@.skip(0) =~= x@);
    assert(y@.skip(0) =~= y@);
    while i < x.len() && i < y.len() && x[i] == y[i]
        invariant
            i <= x@.len(),
            i <= y@.len(),
            x@ == a@,
            y@ == b@,
            lex_lt(x@.skip(i as int), y@.skip(i as int)) == lex_lt(a@, b@),
        decreases x.len() - i,
    {
        assert(x@.skip(i as int).skip(1) =~= x@.skip(i + 1));
        assert(y@.skip(i as int).skip(1) =~= y@.skip(i + 1));
        i = i + 1;
    }
    if i == x.len() {
        i < y.len()
    } else if i == y.len() {
        false
    } else {
        x[i] < y[i]
    }
}

/// `s` is strictly increasing.
pub open spec fn strictly_sorted(s: Seq<Seq<char>>) -> bool {
    forall|i: int, j: int| #![trigger s[i], s[j]] 0 <= i < j < s.len() ==> lex_lt(s[i], s[j])
}

/// `r` holds, in increasing order and once each, the strings of `items`
/// other than `skip`.
pub open spec fn sorted_distinct_without(r: Seq<Seq<char>>, items: Seq<Seq<char>>, skip: Seq<char>) -> bool {
    &&& strictly_sorted(r)
    &&& forall|x: Seq<char>| #[trigger] r.contains(x) <==> (items.contains(x) && x != skip)
}

/// The sorted, duplicate-free list of `items` other than `skip`.
pub fn sort_dedup_without(items: &Vec<String>, skip: &str) -> (r: Vec<String>)
    ensures
        sorted_distinct_without(views(r@), views(items@), skip@),
{
    let mut out: Vec<String> = Vec::new();
    let mut i: usize = 0;
    while i < items.len()
        invariant
            i <= items@.len(),
            strictly_sorted(views(out@)),
            forall|x: Seq<char>| #[trigger] views(out@).contains(x) <==> (views(items@).take(i as int).contains(x) && x != skip@),
        decreases items.len() - i,
    {
        let ghost before = views(out@);
        let ghost seen = views(items@).take(i as int);
        let ghost x = items@[i as int]@;
        proof {
            assert(views(items@).take(i + 1) =~= seen.push(x));
        }
        if !crate::text::str_eq(items[i].as_str(), skip) {
            // The first position whose string does not come before `x`.
            let mut p: usize = 0;
            while p < out.len() && lex_less(out[p].as_str(), items[i].as_str())
                invariant
                    p <= out@.len(),
                    i < items@.len(),
                    views(out@) == before,
                    x == items@[i as int]@,
                    forall|k: int| 0 <= k < p ==> lex_lt(#[trigger] before[k], x),
                decreases out.len() - p,
            {
                p = p + 1;
            }
            if p < out.len() && crate::text::str_eq(out[p].as_str(), items[i].as_str()) {
                proof {
                    assert(before[p as int] == x);
                    assert forall|y: Seq<char>| #[trigger] views(out@).contains(y) <==> (views(items@).take(i + 1).contains(y) && y != skip@) by {
                        if y == x {
                            assert(before.contains(x));
                        }
                        if views(items@).take(i + 1).contains(y) && y != x {
                            let k = choose|k: int| 0 <= k < i + 1 && #[trigger] views(items@).take(i + 1)[k] == y;
                            assert(seen[k] == y);
                        }
                    }
                }
            } else {
                proof {
                    if p < out@.len() {
                        lemma_lex_total(before[p as int], x);
                    }
                    assert forall|k: int| p <= k < before.len() implies lex_lt(x, #[trigger] before[k]) by {
                        if k > p {
                            lemma_lex_transitive(x, before[p as int], before[k]);
                        }
                    }
                }
                out.insert(p, items[i].clone());
                proof {
                    let now = views(out@);
                    assert(now =~= before.insert(p as int, x));
                    before.insert_ensures(p as int, x);
                    assert forall|a: int, b: int| 0 <= a < b < now.len() implies #[trigger] lex_lt(now[a], now[b]) by {
                        if b < p {
                        } else if b == p {
                        } else if a < p {
                            assert(now[b] == before[b - 1]);
                            lemma_lex_transitive(now[a], x, now[b]);
                        } else if a == p {
                            assert(now[b] == before[b - 1]);
                        } else {
                            assert(now[a] == before[a - 1]);
                            assert(now[b] == before[b - 1]);
                        }
                    }
                    assert forall|y: Seq<char>| #[trigger] now.contains(y) <==> (views(items@).take(i + 1).contains(y) && y != skip@) by {
                        if now.contains(y) {
                            let k = choose|k: int| 0 <= k < now.len() && #[trigger] now[k] == y;
                            if k < p {
                                assert(before[k] == y);
                            } else if k > p {
                                assert(before[k - 1] == y);
                            }
                        }
                        if before.contains(y) {
                            let k = choose|k: int| 0 <= k < before.len() && #[trigger] before[k] == y;
                            if k < p {
                                assert(now[k] == y);
                            } else {
                                assert(now[k + 1] == y);
                            }
                        }
                        if y == x {
                            assert(now[p as int] == y);
                            assert(views(items@).take(i + 1)[i as int] == y);
                        }
                        if views(items@).take(i + 1).contains(y) && y != x {
                            let k = choose|k: int| 0 <= k < i + 1 && #[trigger] views(items@).take(i + 1)[k] == y;
                            assert(seen[k] == y);
                        }
                        if seen.contains(y) {
                            let k = choose|k: int| 0 <= k < i && #[trigger] seen[k] == y;
                            assert(views(items@).take(i + 1)[k] == y);
                            if y != skip@ {
                                assert(before.contains(y));
                            }
                        }
                    }
                }
            }
        } else {
            proof {
                assert forall|y: Seq<char>| #[trigger] views(out@).contains(y) <==> (views(items@).take(i + 1).contains(y) && y != skip@) by {
                    if views(items@).take(i + 1).contains(y) && y != skip@ {
                        let k = choose|k: int| 0 <= k < i + 1 && #[trigger] views(items@).take(i + 1)[k] == y;
                        assert(seen[k] == y);
                    }
                    if seen.contains(y) {
                        let k = choose|k: int| 0 <= k < i && #[trigger] seen[k] == y;
                        assert(views(items@).take(i + 1)[k] == y);
                    }
                }
            }
        }
        i = i + 1;
    }
    assert(views(items@).take(i as int) =~= views(items@));
    out
}

/// Two strictly increasing lists with the same strings are equal: the
/// sorted form is unique.
pub proof fn lemma_sorted_unique(a: Seq<Seq<char>>, b: Seq<Seq<char>>)
    requires
        strictly_sorted(a),
        strictly_sorted(b),
        forall|x: Seq<char>| #![trigger a.contains(x)] #![trigger b.contains(x)] a.contains(x) <==> b.contains(x),
    ensures
        a == b,
    decreases a.len() + b.len(),
{
    if a.len() == 0 {
        if b.len() > 0 {
            assert(b.contains(b[0]));
        }
        assert(a =~= b);
    } else if b.len() == 0 {
        assert(a.contains(a[0]));
    } else {
        // Both first elements are the least of the same set.
        assert(a.contains(a[0]));
        assert(b.contains(b[0]));
        let ka = choose|k: int| 0 <= k < b.len() && #[trigger] b[k] == a[0];
        let kb = choose|k: int| 0 <= k < a.len() && #[trigger] a[k] == b[0];
        lemma_lex_irreflexive(a[0]);
        lemma_lex_irreflexive(b[0]);
        if a[0] != b[0] {
            assert(ka != 0);
            assert(kb != 0);
            assert(lex_lt(b[0], b[ka]));
            assert(lex_lt(a[0], a[kb]));
            lemma_lex_total(a[0], b[0]);
        }
        assert(a[0] == b[0]);
        let a1 = a.skip(1);
        let b1 = b.skip(1);
        assert forall|x: Seq<char>| #![trigger a1.contains(x)] #![trigger b1.contains(x)] a1.contains(x) <==> b1.contains(x) by {
            if a1.contains(x) {
                let k = choose|k: int| 0 <= k < a1.len() && #[trigger] a1[k] == x;
                assert(a[k + 1] == x);
                assert(a.contains(x));
                let m = choose|m: int| 0 <= m < b.len() && #[trigger] b[m] == x;
                assert(lex_lt(a[0], a[k + 1]));
                if m == 0 {
                    lemma_lex_irreflexive(x);
                }
                assert(b1[m - 1] == x);
            }
            if b1.contains(x) {
                let k = choose|k: int| 0 <= k < b1.len() && #[trigger] b1[k] == x;
                assert(b[k + 1] == x);
                assert(b.contains(x));
                let m = choose|m: int| 0 <= m < a.len() && #[trigger] a[m] == x;
                assert(lex_lt(b[0], b[k + 1]));
                if m == 0 {
                    lemma_lex_irreflexive(x);
                }
                assert(a1[m - 1] == x);
            }
        }
        lemma_sorted_unique(a1, b1);
        assert(a =~= seq![a[0]] + a1);
        assert(b =~= seq![b[0]] + b1);
    }
}

} // verus!
