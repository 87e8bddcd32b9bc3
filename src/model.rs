//! Mathematical views of the string collections that the library works with,
//! and the executable operations on them.
//!
//! A list of strings stands for the set of its elements. A list of key/value
//! pairs stands for the map obtained by inserting its pairs in order, so that
//! the last pair with a given key wins.
use vstd::prelude::*;

verus! {

/// The set of the strings held by `s`.
pub open spec fn str_set(s: Seq<String>) -> Set<Seq<char>> {
    Set::new(|x: Seq<char>| exists|i: int| 0 <= i < s.len() && s[i]@ == x)
}

/// The strings of `s`, as sequences of characters.
pub open spec fn str_views(s: Seq<String>) -> Seq<Seq<char>> {
    s.map_values(|x: String| x@)
}

/// The map built by inserting the pairs of `s` in order.
pub open spec fn str_map(s: Seq<(String, String)>) -> Map<Seq<char>, Seq<char>>
    decreases s.len(),
{
    if s.len() == 0 {
        Map::empty()
    } else {
        str_map(s.drop_last()).insert(s.last().0@, s.last().1@)
    }
}

/// The value paired with key `k` by the last pair of `s` that has that key.
pub open spec fn lookup<V>(s: Seq<(String, V)>, k: Seq<char>) -> Option<V>
    decreases s.len(),
{
    if s.len() == 0 {
        None
    } else if s.last().0@ == k {
        Some(s.last().1)
    } else {
        lookup(s.drop_last(), k)
    }
}

/// No two elements of `s` are the same string.
pub open spec fn distinct_strs(s: Seq<String>) -> bool {
    forall|i: int, j: int| 0 <= i < s.len() && 0 <= j < s.len() && i != j ==> s[i]@ != s[j]@
}

/// No two pairs of `s` have the same key.
pub open spec fn distinct_keys<V>(s: Seq<(String, V)>) -> bool {
    forall|i: int, j: int| 0 <= i < s.len() && 0 <= j < s.len() && i != j ==> s[i].0@ != s[j].0@
}

pub proof fn lemma_str_map_push(s: Seq<(String, String)>, p: (String, String))
    ensures
        str_map(s.push(p)) == str_map(s).insert(p.0@, p.1@),
{
    assert(s.push(p).drop_last() =~= s);
}

pub proof fn lemma_str_map_dom(s: Seq<(String, String)>, k: Seq<char>)
    ensures
        str_map(s).dom().contains(k) <==> exists|i: int| 0 <= i < s.len() && s[i].0@ == k,
    decreases s.len(),
{
    if s.len() > 0 {
        lemma_str_map_dom(s.drop_last(), k);
        if str_map(s).dom().contains(k) && s.last().0@ != k {
            let i = choose|i: int| 0 <= i < s.drop_last().len() && s.drop_last()[i].0@ == k;
            assert(s[i].0@ == k);
        }
        if exists|i: int| 0 <= i < s.len() && s[i].0@ == k {
            let i = choose|i: int| 0 <= i < s.len() && s[i].0@ == k;
            if i < s.len() - 1 {
                assert(s.drop_last()[i].0@ == k);
            }
        }
    }
}

/// Replacing the value of a key that occurs once keeps the other entries.
pub proof fn lemma_str_map_update(s: Seq<(String, String)>, i: int, p: (String, String))
    requires
        distinct_keys(s),
        0 <= i < s.len(),
        s[i].0@ == p.0@,
    ensures
        str_map(s.update(i, p)) == str_map(s).insert(p.0@, p.1@),
        distinct_keys(s.update(i, p)),
    decreases s.len(),
{
    let u = s.update(i, p);
    assert(u.drop_last() =~= if i == s.len() - 1 { s.drop_last() } else { s.drop_last().update(i, p) });
    if i == s.len() - 1 {
        assert(str_map(u) =~= str_map(s).insert(p.0@, p.1@));
    } else {
        lemma_str_map_update(s.drop_last(), i, p);
        assert(s.last().0@ != p.0@);
        assert(str_map(u) =~= str_map(s).insert(p.0@, p.1@));
    }
}

/// With distinct keys, each pair is what its key looks up.
pub proof fn lemma_lookup_distinct<V>(s: Seq<(String, V)>, i: int)
    requires
        distinct_keys(s),
        0 <= i < s.len(),
    ensures
        lookup(s, s[i].0@) == Some(s[i].1),
    decreases s.len(),
{
    if i < s.len() - 1 {
        assert(s.drop_last()[i] == s[i]);
        assert(s.last().0@ != s[i].0@);
        lemma_lookup_distinct(s.drop_last(), i);
    }
}

/// The index of the last pair of `s` whose key is `k`, if any.
pub fn find_key<V>(s: &Vec<(String, V)>, k: &String) -> (r: Option<usize>)
    ensures
        match r {
            Some(i) => i < s@.len() && s@[i as int].0@ == k@ && lookup(s@, k@) == Some(s@[i as int].1),
            None => lookup(s@, k@) is None && forall|j: int| 0 <= j < s@.len() ==> s@[j].0@ != k@,
        },
{
    let mut i: usize = s.len();
    assert(s@.take(i as int) =~= s@);
    while i > 0
        invariant
            i <= s@.len(),
            forall|j: int| i <= j < s@.len() ==> s@[j].0@ != k@,
            lookup(s@, k@) == lookup(s@.take(i as int), k@),
        decreases i,
    {
        if s[i - 1].0 == *k {
            assert(s@.take(i as int).last() == s@[i - 1]);
            return Some(i - 1);
        }
        assert(s@.take(i as int).drop_last() =~= s@.take(i - 1));
        i = i - 1;
    }
    None
}

pub proof fn lemma_str_set_push(s: Seq<String>, x: String)
    ensures
        str_set(s.push(x)) == str_set(s).insert(x@),
{
    let t = s.push(x);
    assert(t[s.len() as int] == x);
    assert forall|y: Seq<char>| str_set(s).contains(y) implies #[trigger] str_set(t).contains(y) by {
        let i = choose|i: int| 0 <= i < s.len() && s[i]@ == y;
        assert(t[i] == s[i]);
    }
    assert forall|y: Seq<char>| str_set(t).contains(y) && y != x@ implies #[trigger] str_set(s).contains(y) by {
        let i = choose|i: int| 0 <= i < t.len() && t[i]@ == y;
        assert(s[i] == t[i]);
    }
    assert(str_set(t) =~= str_set(s).insert(x@));
}

/// Whether `s` holds the string `x`.
pub fn contains_str(s: &Vec<String>, x: &String) -> (r: bool)
    ensures
        r == str_set(s@).contains(x@),
{
    let mut i: usize = 0;
    while i < s.len()
        invariant
            i <= s@.len(),
            forall|j: int| 0 <= j < i ==> s@[j]@ != x@,
        decreases s@.len() - i,
    {
        if s[i] == *x {
            return true;
        }
        i = i + 1;
    }
    false
}

/// Adds `x` to the set that `s` stands for, keeping its elements distinct.
pub fn insert_str(s: &mut Vec<String>, x: &String)
    requires
        distinct_strs(old(s)@),
    ensures
        distinct_strs(final(s)@),
        str_set(final(s)@) == str_set(old(s)@).insert(x@),
{
    if !contains_str(s, x) {
        let ghost before = s@;
        s.push(x.clone());
        proof {
            lemma_str_set_push(before, s@.last());
            assert(s@ =~= before.push(s@.last()));
        }
    } else {
        assert(str_set(s@) =~= str_set(old(s)@).insert(x@));
    }
}

/// Adds every string of `src` to the set that `s` stands for.
pub fn union_strs(s: &mut Vec<String>, src: &Vec<String>)
    requires
        distinct_strs(old(s)@),
    ensures
        distinct_strs(final(s)@),
        str_set(final(s)@) == str_set(old(s)@).union(str_set(src@)),
{
    let mut i: usize = 0;
    while i < src.len()
        invariant
            i <= src@.len(),
            distinct_strs(s@),
            str_set(s@) == str_set(old(s)@).union(str_set(src@.take(i as int))),
        decreases src@.len() - i,
    {
        insert_str(s, &src[i]);
        proof {
            assert(src@.take(i + 1) =~= src@.take(i as int).push(src@[i as int]));
            lemma_str_set_push(src@.take(i as int), src@[i as int]);
        }
        i = i + 1;
    }
    assert(src@.take(src@.len() as int) =~= src@);
}

/// Sets key `k` to `v` in the map that `s` stands for, keeping its keys
/// distinct; returns the value that `k` had before, if any.
pub fn insert_env(s: &mut Vec<(String, String)>, k: &String, v: &String) -> (r: Option<String>)
    requires
        distinct_keys(old(s)@),
    ensures
        distinct_keys(final(s)@),
        str_map(final(s)@) == str_map(old(s)@).insert(k@, v@),
        match r {
            Some(prev) => str_map(old(s)@).contains_key(k@) && prev@ == str_map(old(s)@)[k@],
            None => !str_map(old(s)@).contains_key(k@),
        },
{
    proof {
        lemma_str_map_dom(s@, k@);
    }
    match find_key(s, k) {
        Some(i) => {
            let prev = s[i].1.clone();
            let ghost before = s@;
            proof {
                lemma_str_map_value(before, i as int);
            }
            s.set(i, (k.clone(), v.clone()));
            proof {
                lemma_str_map_update(before, i as int, s@[i as int]);
                assert(s@ =~= before.update(i as int, s@[i as int]));
            }
            Some(prev)
        },
        None => {
            let ghost before = s@;
            s.push((k.clone(), v.clone()));
            proof {
                lemma_str_map_push(before, s@.last());
                assert(s@ =~= before.push(s@.last()));
                assert(distinct_keys(s@)) by {
                    assert forall|a: int, b: int| 0 <= a < s@.len() && 0 <= b < s@.len() && a != b
                        implies s@[a].0@ != s@[b].0@ by {
                        if a < before.len() && b < before.len() {
                            assert(before[a] == s@[a] && before[b] == s@[b]);
                        } else if a < before.len() {
                            assert(before[a] == s@[a]);
                        } else {
                            assert(before[b] == s@[b]);
                        }
                    }
                }
            }
            None
        },
    }
}

/// With distinct keys, each pair gives the value of its key.
pub proof fn lemma_str_map_value(s: Seq<(String, String)>, i: int)
    requires
        distinct_keys(s),
        0 <= i < s.len(),
    ensures
        str_map(s).contains_key(s[i].0@),
        str_map(s)[s[i].0@] == s[i].1@,
    decreases s.len(),
{
    if i < s.len() - 1 {
        assert(s.drop_last()[i] == s[i]);
        lemma_str_map_value(s.drop_last(), i);
    }
}

/// Sets every pair of `src`, in order, in the map that `s` stands for.
pub fn union_env(s: &mut Vec<(String, String)>, src: &Vec<(String, String)>)
    requires
        distinct_keys(old(s)@),
    ensures
        distinct_keys(final(s)@),
        str_map(final(s)@) == str_map(old(s)@).union_prefer_right(str_map(src@)),
{
    let mut i: usize = 0;
    while i < src.len()
        invariant
            i <= src@.len(),
            distinct_keys(s@),
            str_map(s@) == str_map(old(s)@).union_prefer_right(str_map(src@.take(i as int))),
        decreases src@.len() - i,
    {
        let _ = insert_env(s, &src[i].0, &src[i].1);
        assert(src@.take(i + 1).drop_last() =~= src@.take(i as int));
        assert(str_map(s@) =~= str_map(old(s)@).union_prefer_right(str_map(src@.take(i + 1))));
        i = i + 1;
    }
    assert(src@.take(src@.len() as int) =~= src@);
}

} // verus!
