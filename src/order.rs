//! The canonical order of dependency names: lexicographic by character, and
//! the sorted sequence, without repetitions, that a set of names determines.
use vstd::prelude::*;

use crate::model::str_views;

verus! {

/// `a` comes before `b`, comparing character by character; a proper prefix
/// comes first.
pub open spec fn str_lt(a: Seq<char>, b: Seq<char>) -> bool
    decreases a.len(),
{
    if a.len() == 0 {
        b.len() > 0
    } else if b.len() == 0 {
        false
    } else if a[0] != b[0] {
        a[0] < b[0]
    } else {
        str_lt(a.drop_first(), b.drop_first())
    }
}

pub proof fn lemma_str_lt_irreflexive(a: Seq<char>)
    ensures
        !str_lt(a, a),
    decreases a.len(),
{
    if a.len() > 0 {
        lemma_str_lt_irreflexive(a.drop_first());
    }
}

pub proof fn lemma_str_lt_transitive(a: Seq<char>, b: Seq<char>, c: Seq<char>)
    requires
        str_lt(a, b),
        str_lt(b, c),
    ensures
        str_lt(a, c),
    decreases a.len(),
{
    if a.len() > 0 && b.len() > 0 && c.len() > 0 && a[0] == b[0] && b[0] == c[0] {
        lemma_str_lt_transitive(a.drop_first(), b.drop_first(), c.drop_first());
    }
}

/// Two different names are ordered one way or the other.
pub proof fn lemma_str_lt_total(a: Seq<char>, b: Seq<char>)
    requires
        a != b,
    ensures
        str_lt(a, b) || str_lt(b, a),
    decreases a.len(),
{
    if a.len() > 0 && b.len() > 0 && a[0] == b[0] {
        if a.drop_first() == b.drop_first() {
            assert(a =~= seq![a[0]] + a.drop_first());
            assert(b =~= seq![b[0]] + b.drop_first());
        }
        lemma_str_lt_total(a.drop_first(), b.drop_first());
    } else if a.len() == 0 && b.len() == 0 {
        assert(a =~= b);
    }
}

/// `q` is in increasing order, so without repetitions.
pub open spec fn strictly_sorted(q: Seq<Seq<char>>) -> bool {
    forall|i: int, j: int| 0 <= i < j < q.len() ==> str_lt(#[trigger] q[i], #[trigger] q[j])
}

/// Two increasing sequences of the same names are the same sequence.
pub proof fn lemma_sorted_unique(p: Seq<Seq<char>>, q: Seq<Seq<char>>)
    requires
        strictly_sorted(p),
        strictly_sorted(q),
        p.to_set() == q.to_set(),
    ensures
        p == q,
    decreases p.len(),
{
    if p.len() == 0 {
        if q.len() > 0 {
            assert(q.to_set().contains(q[0]));
        }
        assert(p =~= q);
    } else {
        assert(p.to_set().contains(p[0]));
        assert(q.to_set().contains(p[0]));
        assert(q.len() > 0);
        assert(q.to_set().contains(q[0]));
        assert(p.to_set().contains(q[0]));
        let i = choose|i: int| 0 <= i < p.len() && p[i] == q[0];
        let j = choose|j: int| 0 <= j < q.len() && q[j] == p[0];
        if p[0] != q[0] {
            assert(i > 0 && j > 0);
            assert(str_lt(p[0], p[i]));
            assert(str_lt(q[0], q[j]));
            lemma_str_lt_transitive(p[0], q[0], p[0]);
            lemma_str_lt_irreflexive(p[0]);
        }
        let p1 = p.drop_first();
        let q1 = q.drop_first();
        assert forall|x: Seq<char>| p1.to_set().contains(x) implies q1.to_set().contains(x) by {
            let k = choose|k: int| 0 <= k < p1.len() && p1[k] == x;
            assert(p[k + 1] == x);
            assert(str_lt(p[0], x));
            lemma_str_lt_irreflexive(x);
            assert(q.to_set().contains(x));
            let m = choose|m: int| 0 <= m < q.len() && q[m] == x;
            assert(m != 0);
            assert(q1[m - 1] == x);
        }
        assert forall|x: Seq<char>| q1.to_set().contains(x) implies p1.to_set().contains(x) by {
            let k = choose|k: int| 0 <= k < q1.len() && q1[k] == x;
            assert(q[k + 1] == x);
            assert(str_lt(q[0], x));
            lemma_str_lt_irreflexive(x);
            assert(p.to_set().contains(x));
            let m = choose|m: int| 0 <= m < p.len() && p[m] == x;
            assert(m != 0);
            assert(p1[m - 1] == x);
        }
        assert(p1.to_set() =~= q1.to_set());
        lemma_sorted_unique(p1, q1);
        assert(p =~= seq![p[0]] + p1);
        assert(q =~= seq![q[0]] + q1);
    }
}

/// The names of `s` in canonical order: increasing, each once.
pub open spec fn canonical(s: Set<Seq<char>>) -> Seq<Seq<char>> {
    choose|q: Seq<Seq<char>>| strictly_sorted(q) && q.to_set() == s
}

/// An increasing sequence is the canonical order of its names.
pub proof fn lemma_canonical(q: Seq<Seq<char>>)
    requires
        strictly_sorted(q),
    ensures
        canonical(q.to_set()) == q,
{
    let c = canonical(q.to_set());
    assert(strictly_sorted(c) && c.to_set() == q.to_set());
    lemma_sorted_unique(c, q);
}

/// Whether `a` comes before `b` in the canonical order.
pub fn str_less(a: &String, b: &String) -> (r: bool)
    ensures
        r == str_lt(a@, b@),
{
    let sa = a.as_str();
    let sb = b.as_str();
    let la = sa.unicode_len();
    let lb = sb.unicode_len();
    let mut i: usize = 0;
    assert(a@.skip(0) =~= a@);
    assert(b@.skip(0) =~= b@);
    while i < la && i < lb
        invariant
            sa@ == a@,
            sb@ == b@,
            la == a@.len(),
            lb == b@.len(),
            i <= la,
            i <= lb,
            str_lt(a@, b@) == str_lt(a@.skip(i as int), b@.skip(i as int)),
        decreases la - i,
    {
        let ca = sa.get_char(i);
        let cb = sb.get_char(i);
        assert(a@.skip(i as int)[0] == ca);
        assert(b@.skip(i as int)[0] == cb);
        if ca != cb {
            return ca < cb;
        }
        assert(a@.skip(i as int).drop_first() =~= a@.skip(i + 1));
        assert(b@.skip(i as int).drop_first() =~= b@.skip(i + 1));
        i = i + 1;
    }
    i == la && i < lb
}

/// The names of `names`, in canonical order.
pub fn sorted_names(names: &Vec<String>) -> (r: Vec<String>)
    ensures
        str_views(r@) == canonical(str_views(names@).to_set()),
{
    let mut r: Vec<String> = Vec::new();
    let mut i: usize = 0;
    assert(str_views(r@).to_set() =~= str_views(names@.take(0)).to_set());
    while i < names.len()
        invariant
            i <= names@.len(),
            strictly_sorted(str_views(r@)),
            str_views(r@).to_set() == str_views(names@.take(i as int)).to_set(),
        decreases names@.len() - i,
    {
        let x = &names[i];
        let ghost before = str_views(r@);
        let mut k: usize = 0;
        while k < r.len() && str_less(&r[k], x)
            invariant
                k <= r@.len(),
                str_views(r@) == before,
                forall|m: int| 0 <= m < k ==> str_lt(#[trigger] before[m], x@),
            decreases r@.len() - k,
        {
            k = k + 1;
        }
        let present = k < r.len() && r[k] == *x;
        if !present {
            proof {
                if k < before.len() {
                    lemma_str_lt_total(before[k as int], x@);
                }
            }
            r.insert(k, x.clone());
            let ghost after = str_views(r@);
            assert(after =~= before.insert(k as int, x@));
            assert forall|p: int, q: int| 0 <= p < q < after.len() implies str_lt(#[trigger] after[p], #[trigger] after[q]) by {
                if q < k {
                } else if q == k {
                } else if p < k {
                    if q - 1 > k {
                        assert(str_lt(before[k as int], before[q - 1]));
                        lemma_str_lt_transitive(x@, before[k as int], before[q - 1]);
                    }
                    lemma_str_lt_transitive(before[p], x@, before[q - 1]);
                } else if p == k {
                    if q - 1 > k {
                        assert(str_lt(before[k as int], before[q - 1]));
                        lemma_str_lt_transitive(x@, before[k as int], before[q - 1]);
                    }
                } else {
                }
            }
            assert(after.to_set() =~= before.to_set().insert(x@)) by {
                assert forall|y: Seq<char>| after.to_set().contains(y) implies before.to_set().insert(x@).contains(y) by {
                    let m = choose|m: int| 0 <= m < after.len() && after[m] == y;
                    if m < k {
                        assert(before[m] == y);
                    } else if m > k {
                        assert(before[m - 1] == y);
                    }
                }
                assert forall|y: Seq<char>| before.to_set().insert(x@).contains(y) implies after.to_set().contains(y) by {
                    if y == x@ {
                        assert(after[k as int] == y);
                    } else {
                        let m = choose|m: int| 0 <= m < before.len() && before[m] == y;
                        if m < k {
                            assert(after[m] == y);
                        } else {
                            assert(after[m + 1] == y);
                        }
                    }
                }
            }
        } else {
            assert(before[k as int] == x@);
            assert(before.to_set() =~= before.to_set().insert(x@));
        }
        assert(str_views(names@.take(i + 1)) =~= str_views(names@.take(i as int)).push(x@));
        assert(str_views(names@.take(i + 1)).to_set() =~= str_views(names@.take(i as int)).to_set().insert(x@)) by {
            let s0 = str_views(names@.take(i as int));
            let s1 = str_views(names@.take(i + 1));
            assert forall|y: Seq<char>| s1.to_set().contains(y) implies s0.to_set().insert(x@).contains(y) by {
                let m = choose|m: int| 0 <= m < s1.len() && s1[m] == y;
                if m < i {
                    assert(s0[m] == y);
                }
            }
            assert forall|y: Seq<char>| s0.to_set().insert(x@).contains(y) implies s1.to_set().contains(y) by {
                if y == x@ {
                    assert(s1[i as int] == y);
                } else {
                    let m = choose|m: int| 0 <= m < s0.len() && s0[m] == y;
                    assert(s1[m] == y);
                }
            }
        }
        i = i + 1;
    }
    assert(names@.take(i as int) =~= names@);
    proof {
        lemma_canonical(str_views(r@));
    }
    r
}

} // verus!
