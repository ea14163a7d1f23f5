//! Sets of ids held in vectors without repetitions.

use vstd::prelude::*;

verus! {

/// Appending `e` adds exactly `e` to what a sequence contains.
pub proof fn lemma_push_contains<A>(s: Seq<A>, e: A)
    ensures
        forall|y: A| s.push(e).contains(y) <==> (s.contains(y) || y == e),
{
    assert forall|y: A| s.push(e).contains(y) <==> (s.contains(y) || y == e) by {
        if y == e {
            assert(s.push(e)[s.len() as int] == e);
        }
        if s.contains(y) {
            let j = choose|j: int| 0 <= j < s.len() && s[j] == y;
            assert(s.push(e)[j] == y);
        }
        if s.push(e).contains(y) && y != e {
            let j = choose|j: int| 0 <= j < s.push(e).len() && s.push(e)[j] == y;
            assert(s[j] == y);
        }
    }
}

/// Whether `x` occurs in `v`.
pub fn contains_id(v: &Vec<i32>, x: i32) -> (r: bool)
    ensures
        r == v@.contains(x),
{
    let mut i: usize = 0;
    while i < v.len()
        invariant
            i <= v@.len(),
            forall|j: int| 0 <= j < i ==> v@[j] != x,
        decreases v.len() - i,
    {
        if v[i] == x {
            return true;
        }
        i = i + 1;
    }
    false
}

/// Whether some element of `a` occurs in `b`.
pub fn shares_id(a: &Vec<i32>, b: &Vec<i32>) -> (r: bool)
    ensures
        r == exists|i: int| 0 <= i < a@.len() && b@.contains(#[trigger] a@[i]),
{
    let mut i: usize = 0;
    while i < a.len()
        invariant
            i <= a@.len(),
            forall|j: int| 0 <= j < i ==> !b@.contains(#[trigger] a@[j]),
        decreases a.len() - i,
    {
        if contains_id(b, a[i]) {
            return true;
        }
        i = i + 1;
    }
    false
}

/// Adds `x` to the set `v`.
pub fn insert_id(v: &mut Vec<i32>, x: i32)
    requires
        old(v)@.no_duplicates(),
    ensures
        final(v)@.no_duplicates(),
        forall|y: i32| final(v)@.contains(y) <==> (old(v)@.contains(y) || y == x),
{
    if !contains_id(v, x) {
        v.push(x);
        proof {
            assert forall|y: i32| final(v)@.contains(y) <==> (old(v)@.contains(y) || y == x) by {
                if y == x {
                    assert(final(v)@[final(v)@.len() - 1] == x);
                }
                if old(v)@.contains(y) {
                    let j = choose|j: int| 0 <= j < old(v)@.len() && old(v)@[j] == y;
                    assert(final(v)@[j] == y);
                }
                if final(v)@.contains(y) && y != x {
                    let j = choose|j: int| 0 <= j < final(v)@.len() && final(v)@[j] == y;
                    assert(old(v)@[j] == y);
                }
            }
        }
    }
}

/// Takes `x` out of the set `v`.
pub fn remove_id(v: &mut Vec<i32>, x: i32)
    requires
        old(v)@.no_duplicates(),
    ensures
        final(v)@.no_duplicates(),
        forall|y: i32| final(v)@.contains(y) <==> (old(v)@.contains(y) && y != x),
{
    let mut kept: Vec<i32> = Vec::new();
    let mut i: usize = 0;
    while i < v.len()
        invariant
            i <= v@.len(),
            v@.no_duplicates(),
            kept@.no_duplicates(),
            forall|y: i32| kept@.contains(y) <==> (v@.take(i as int).contains(y) && y != x),
        decreases v.len() - i,
    {
        let y = v[i];
        let ghost before = kept@;
        proof {
            assert(v@.take(i + 1) =~= v@.take(i as int).push(y));
            lemma_push_contains(v@.take(i as int), y);
            lemma_push_contains(before, y);
        }
        if y != x {
            proof {
                if before.contains(y) {
                    let j = choose|j: int| 0 <= j < i && v@.take(i as int)[j] == y;
                    assert(v@[j] == v@[i as int]);
                }
            }
            kept.push(y);
            assert(kept@ == before.push(y));
        } else {
            assert(kept@ == before);
        }
        assert forall|z: i32| kept@.contains(z) implies (v@.take(i + 1).contains(z) && z != x) by {
            assert(before.push(y).contains(z) <==> (before.contains(z) || z == y));
        }
        assert forall|z: i32| (v@.take(i + 1).contains(z) && z != x) implies kept@.contains(z) by {
            assert(v@.take(i as int).push(y).contains(z) <==> (v@.take(i as int).contains(z) || z == y));
            if v@.take(i as int).contains(z) {
                assert(before.contains(z));
                assert(before.push(y).contains(z) <==> (before.contains(z) || z == y));
            } else {
                assert(z == y);
                assert(before.push(y).contains(z) <==> (before.contains(z) || z == y));
            }
        }
        i = i + 1;
    }
    assert(v@.take(v@.len() as int) =~= v@);
    *v = kept;
}

/// The distinct elements of `v`, in order of first occurrence.
pub fn unique_ids(v: &Vec<i32>) -> (r: Vec<i32>)
    ensures
        r@.no_duplicates(),
        forall|y: i32| r@.contains(y) <==> v@.contains(y),
{
    let mut r: Vec<i32> = Vec::new();
    let mut i: usize = 0;
    while i < v.len()
        invariant
            i <= v@.len(),
            r@.no_duplicates(),
            forall|y: i32| r@.contains(y) <==> v@.take(i as int).contains(y),
        decreases v.len() - i,
    {
        proof {
            assert(v@.take(i + 1) =~= v@.take(i as int).push(v@[i as int]));
            lemma_push_contains(v@.take(i as int), v@[i as int]);
        }
        insert_id(&mut r, v[i]);
        i = i + 1;
    }
    assert(v@.take(v@.len() as int) =~= v@);
    r
}

/// The elements of `a` that also occur in `b`.
pub fn intersect_ids(a: &Vec<i32>, b: &Vec<i32>) -> (r: Vec<i32>)
    requires
        a@.no_duplicates(),
    ensures
        r@.no_duplicates(),
        forall|y: i32| r@.contains(y) <==> (a@.contains(y) && b@.contains(y)),
{
    let mut r: Vec<i32> = Vec::new();
    let mut i: usize = 0;
    while i < a.len()
        invariant
            i <= a@.len(),
            r@.no_duplicates(),
            forall|y: i32| r@.contains(y) <==> (a@.take(i as int).contains(y) && b@.contains(y)),
        decreases a.len() - i,
    {
        proof {
            assert(a@.take(i + 1) =~= a@.take(i as int).push(a@[i as int]));
            lemma_push_contains(a@.take(i as int), a@[i as int]);
        }
        if contains_id(b, a[i]) {
            insert_id(&mut r, a[i]);
        }
        i = i + 1;
    }
    assert(a@.take(a@.len() as int) =~= a@);
    r
}

/// The elements of `a` together with those of `b`.
pub fn union_ids(a: &Vec<i32>, b: &Vec<i32>) -> (r: Vec<i32>)
    requires
        a@.no_duplicates(),
    ensures
        r@.no_duplicates(),
        forall|y: i32| r@.contains(y) <==> (a@.contains(y) || b@.contains(y)),
{
    let mut r: Vec<i32> = a.clone();
    let mut i: usize = 0;
    while i < b.len()
        invariant
            i <= b@.len(),
            r@.no_duplicates(),
            forall|y: i32| r@.contains(y) <==> (a@.contains(y) || b@.take(i as int).contains(y)),
        decreases b.len() - i,
    {
        proof {
            assert(b@.take(i + 1) =~= b@.take(i as int).push(b@[i as int]));
            lemma_push_contains(b@.take(i as int), b@[i as int]);
        }
        insert_id(&mut r, b[i]);
        i = i + 1;
    }
    assert(b@.take(b@.len() as int) =~= b@);
    r
}

} // verus!
