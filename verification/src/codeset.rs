//! Duplicate-free vectors of numeric input codes.
//!
//! Pressed-key and pressed-button sets are kept as `Vec<u32>` without
//! duplicates; the spec view of such a vector is the set of codes it holds.

use vstd::prelude::*;

verus! {

broadcast use vstd::seq_lib::lemma_seq_contains_after_push;

/// The set of codes a vector holds.
pub open spec fn code_set(s: Seq<u32>) -> Set<u32> {
    s.to_set()
}

/// Removing the element at `idx` from a sequence whose keys are unique
/// keeps the keys unique and drops exactly the elements carrying that key.
pub(crate) proof fn lemma_remove_keyed<T, K>(s: Seq<T>, idx: int, key: spec_fn(T) -> K)
    requires
        0 <= idx < s.len(),
        s.map_values(key).no_duplicates(),
    ensures
        s.remove(idx).map_values(key).no_duplicates(),
        forall|x: T|
            s.remove(idx).contains(x) <==> (s.contains(x) && key(x) != key(s[idx])),
        forall|k: K|
            s.remove(idx).map_values(key).contains(k) <==> (s.map_values(key).contains(k) && k
                != key(s[idx])),
{
    let t = s.remove(idx);
    assert forall|j: int| 0 <= j < t.len() implies t[j] == if j < idx {
        s[j]
    } else {
        s[j + 1]
    } by {}
    assert forall|i: int, j: int|
        0 <= i < t.len() && 0 <= j < t.len() && i != j implies t.map_values(key)[i]
        != t.map_values(key)[j] by {
        let oi = if i < idx { i } else { i + 1 };
        let oj = if j < idx { j } else { j + 1 };
        assert(t.map_values(key)[i] == s.map_values(key)[oi]);
        assert(t.map_values(key)[j] == s.map_values(key)[oj]);
    }
    assert forall|x: T| t.contains(x) implies s.contains(x) && key(x) != key(s[idx]) by {
        let j = choose|j: int| 0 <= j < t.len() && t[j] == x;
        let oj = if j < idx { j } else { j + 1 };
        assert(s[oj] == x);
        if key(x) == key(s[idx]) {
            assert(s.map_values(key)[oj] == s.map_values(key)[idx]);
        }
    }
    assert forall|x: T| s.contains(x) && key(x) != key(s[idx]) implies t.contains(x) by {
        let j = choose|j: int| 0 <= j < s.len() && s[j] == x;
        assert(j != idx);
        if j < idx {
            assert(t[j] == x);
        } else {
            assert(t[j - 1] == x);
        }
    }
    assert forall|k: K|
        t.map_values(key).contains(k) implies s.map_values(key).contains(k) && k != key(
        s[idx],
    ) by {
        let j = choose|j: int| 0 <= j < t.len() && t.map_values(key)[j] == k;
        let oj = if j < idx { j } else { j + 1 };
        assert(s.map_values(key)[oj] == k);
        if k == key(s[idx]) {
            assert(s.map_values(key)[oj] == s.map_values(key)[idx]);
        }
    }
    assert forall|k: K|
        s.map_values(key).contains(k) && k != key(s[idx]) implies t.map_values(key).contains(
        k,
    ) by {
        let j = choose|j: int| 0 <= j < s.len() && s.map_values(key)[j] == k;
        assert(j != idx);
        if j < idx {
            assert(t.map_values(key)[j] == k);
        } else {
            assert(t.map_values(key)[j - 1] == k);
        }
    }
}

/// Whether `v` holds `code`.
pub fn contains_code(v: &Vec<u32>, code: u32) -> (r: bool)
    ensures
        r == v@.contains(code),
{
    let n = v.len();
    for i in 0..n
        invariant
            n == v@.len(),
            forall|j: int| 0 <= j < i ==> v@[j] != code,
    {
        if v[i] == code {
            return true;
        }
    }
    false
}

/// Add `code` unless it is already present; the set view gains `code` and
/// freedom from duplicates is preserved.
pub fn insert_code(v: &mut Vec<u32>, code: u32)
    requires
        old(v)@.no_duplicates(),
    ensures
        final(v)@.no_duplicates(),
        code_set(final(v)@) == code_set(old(v)@).insert(code),
        final(v)@.len() <= old(v)@.len() + 1,
        forall|c: u32| final(v)@.contains(c) <==> (old(v)@.contains(c) || c == code),
{
    if !contains_code(v, code) {
        v.push(code);
        proof {
            assert forall|c: u32| final(v)@.contains(c) implies (old(v)@.contains(c) || c
                == code) by {
                let i = choose|i: int| 0 <= i < final(v)@.len() && final(v)@[i] == c;
                if i < old(v)@.len() {
                    assert(old(v)@[i] == c);
                }
            }
            assert(old(v)@.contains(code) ==> final(v)@.contains(code));
            assert(final(v)@.contains(code)) by {
                assert(final(v)@[old(v)@.len() as int] == code);
            }
            assert forall|c: u32| old(v)@.contains(c) implies final(v)@.contains(c) by {
                let i = choose|i: int| 0 <= i < old(v)@.len() && old(v)@[i] == c;
                assert(final(v)@[i] == c);
            }
            assert(code_set(final(v)@) =~= code_set(old(v)@).insert(code));
        }
    } else {
        proof {
            assert(code_set(final(v)@) =~= code_set(old(v)@).insert(code));
        }
    }
}

/// Remove `code` if present; the set view loses `code` and freedom from
/// duplicates is preserved.
pub fn remove_code(v: &mut Vec<u32>, code: u32)
    requires
        old(v)@.no_duplicates(),
    ensures
        final(v)@.no_duplicates(),
        code_set(final(v)@) == code_set(old(v)@).remove(code),
        final(v)@.len() <= old(v)@.len(),
        forall|c: u32| final(v)@.contains(c) <==> (old(v)@.contains(c) && c != code),
{
    let ghost orig = v@;
    let n = v.len();
    let mut idx: usize = 0;
    let mut found: bool = false;
    for i in 0..n
        invariant
            n == v@.len(),
            v@ == orig,
            found ==> idx < n && v@[idx as int] == code,
            !found ==> forall|j: int| 0 <= j < i ==> v@[j] != code,
    {
        if !found && v[i] == code {
            idx = i;
            found = true;
        }
    }
    if found {
        v.remove(idx);
        proof {
            let cid = |c: u32| c;
            assert(orig.map_values(cid) =~= orig);
            lemma_remove_keyed(orig, idx as int, cid);
            let s = orig.remove(idx as int);
            assert(s.map_values(cid) =~= s);
            assert(code_set(final(v)@) =~= code_set(orig).remove(code));
        }
    } else {
        proof {
            assert(!orig.contains(code));
            assert(code_set(final(v)@) =~= code_set(orig).remove(code));
        }
    }
}

/// An element-for-element copy of a code vector.
pub fn copy_codes(v: &Vec<u32>) -> (r: Vec<u32>)
    ensures
        r@ == v@,
{
    let mut r: Vec<u32> = Vec::new();
    let n = v.len();
    for i in 0..n
        invariant
            n == v@.len(),
            r@ == v@.take(i as int),
    {
        r.push(v[i]);
        proof {
            assert(r@ =~= v@.take(i as int + 1));
        }
    }
    proof {
        assert(v@.take(n as int) =~= v@);
    }
    r
}

/// Whether two duplicate-free code vectors hold the same set of codes.
pub fn same_code_set(a: &Vec<u32>, b: &Vec<u32>) -> (r: bool)
    ensures
        r == (code_set(a@) == code_set(b@)),
{
    let na = a.len();
    for i in 0..na
        invariant
            na == a@.len(),
            forall|j: int| 0 <= j < i ==> b@.contains(#[trigger] a@[j]),
    {
        if !contains_code(b, a[i]) {
            proof {
                assert(code_set(a@).contains(a@[i as int]));
                assert(!code_set(b@).contains(a@[i as int]));
            }
            return false;
        }
    }
    let nb = b.len();
    for i in 0..nb
        invariant
            nb == b@.len(),
            forall|j: int| 0 <= j < a@.len() ==> b@.contains(#[trigger] a@[j]),
            forall|j: int| 0 <= j < i ==> a@.contains(#[trigger] b@[j]),
    {
        if !contains_code(a, b[i]) {
            proof {
                assert(code_set(b@).contains(b@[i as int]));
                assert(!code_set(a@).contains(b@[i as int]));
            }
            return false;
        }
    }
    proof {
        assert(code_set(a@) =~= code_set(b@));
    }
    true
}

/// Copy `v` while dropping every code that occurs in `excluded`; the result is
/// duplicate-free and holds exactly the non-excluded codes.
pub fn filter_codes(v: &Vec<u32>, excluded: &Vec<u32>) -> (r: Vec<u32>)
    requires
        v@.no_duplicates(),
    ensures
        r@.no_duplicates(),
        code_set(r@) == code_set(v@).difference(code_set(excluded@)),
        forall|c: u32| r@.contains(c) <==> (v@.contains(c) && !excluded@.contains(c)),
        r@.len() <= v@.len(),
{
    let mut r: Vec<u32> = Vec::new();
    let n = v.len();
    for i in 0..n
        invariant
            n == v@.len(),
            v@.no_duplicates(),
            r@.no_duplicates(),
            r@.len() <= i,
            forall|c: u32|
                r@.contains(c) <==> (v@.take(i as int).contains(c) && !excluded@.contains(c)),
    {
        let ghost prev = r@;
        proof {
            assert(v@.take(i as int + 1) =~= v@.take(i as int).push(v@[i as int]));
        }
        if !contains_code(excluded, v[i]) {
            r.push(v[i]);
            proof {
                assert(r@ == prev.push(v@[i as int]));
            }
        }
    }
    proof {
        assert(v@.take(n as int) =~= v@);
        assert(code_set(r@) =~= code_set(v@).difference(code_set(excluded@)));
    }
    r
}

} // verus!
