//! Name-keyed tables kept as lists of entries, the way the configuration
//! files list them. A lookup finds the first entry with the given name.

use vstd::prelude::*;

use crate::text::str_eq;

verus! {

/// The index of the first entry named `k`, or -1 when there is none.
pub open spec fn first_key_index<V>(s: Seq<(String, V)>, k: Seq<char>) -> int
    decreases s.len(),
{
    if s.len() == 0 {
        -1
    } else {
        let r = first_key_index(s.drop_last(), k);
        if r >= 0 {
            r
        } else if s.last().0@ == k {
            s.len() - 1
        } else {
            -1
        }
    }
}

/// Whether some entry is named `k`.
pub open spec fn has_key<V>(s: Seq<(String, V)>, k: Seq<char>) -> bool {
    exists|i: int| 0 <= i < s.len() && (#[trigger] s[i]).0@ == k
}

/// The value of the first entry named `k`.
pub open spec fn lookup<V>(s: Seq<(String, V)>, k: Seq<char>) -> Option<V> {
    let i = first_key_index(s, k);
    if i < 0 {
        None
    } else {
        Some(s[i].1)
    }
}

/// `first_key_index` is -1 exactly when no entry has the name, and otherwise
/// the least index of an entry that has it.
pub proof fn lemma_first_key_index<V>(s: Seq<(String, V)>, k: Seq<char>)
    ensures
        first_key_index(s, k) < 0 <==> !has_key(s, k),
        first_key_index(s, k) < 0 ==> first_key_index(s, k) == -1,
        first_key_index(s, k) >= 0 ==> {
            let i = first_key_index(s, k);
            &&& i < s.len()
            &&& s[i].0@ == k
            &&& forall|j: int| 0 <= j < i ==> (#[trigger] s[j]).0@ != k
        },
    decreases s.len(),
{
    if s.len() > 0 {
        let p = s.drop_last();
        lemma_first_key_index(p, k);
        if has_key(p, k) {
            let j = choose|j: int| 0 <= j < p.len() && (#[trigger] p[j]).0@ == k;
            assert(s[j] == p[j]);
        }
        if has_key(s, k) && !has_key(p, k) {
            let j = choose|j: int| 0 <= j < s.len() && (#[trigger] s[j]).0@ == k;
            if j < p.len() {
                assert(p[j] == s[j]);
            }
        }
        assert forall|j: int| 0 <= j < p.len() implies (#[trigger] s[j]) == p[j] by {}
    }
}

/// The first index of an entry whose names is `key`.
pub fn find_key<V>(entries: &Vec<(String, V)>, key: &str) -> (r: Option<usize>)
    ensures
        r is None <==> first_key_index(entries@, key@) < 0,
        r matches Some(i) ==> i as int == first_key_index(entries@, key@),
{
    proof {
        lemma_first_key_index(entries@, key@);
    }
    let mut i: usize = 0;
    while i < entries.len()
        invariant
            i <= entries@.len(),
            forall|j: int| 0 <= j < i ==> (#[trigger] entries@[j]).0@ != key@,
            first_key_index(entries@, key@) < 0 <==> !has_key(entries@, key@),
            first_key_index(entries@, key@) >= 0 ==> {
                let f = first_key_index(entries@, key@);
                &&& f < entries@.len()
                &&& entries@[f].0@ == key@
                &&& forall|j: int| 0 <= j < f ==> (#[trigger] entries@[j]).0@ != key@
            },
        decreases entries@.len() - i,
    {
        if str_eq(entries[i].0.as_str(), key) {
            return Some(i);
        }
        i = i + 1;
    }
    None
}

/// Sets the value for `key`: the first entry with that name gets the new
/// value, and when there is none a new entry is added at the end. Every other
/// name keeps the value it had.
pub fn insert_entry<V>(entries: &mut Vec<(String, V)>, key: String, value: V)
    ensures
        lookup(final(entries)@, key@) == Some(value),
        forall|k: Seq<char>| k != key@ ==> lookup(final(entries)@, k) == lookup(old(entries)@, k),
        first_key_index(old(entries)@, key@) >= 0 ==> final(entries)@.len() == old(entries)@.len(),
        first_key_index(old(entries)@, key@) < 0 ==> final(entries)@.len() == old(entries)@.len() + 1,
{
    let ghost k0 = key@;
    let ghost old_s = entries@;
    proof {
        lemma_first_key_index(old_s, k0);
    }
    match find_key(entries, key.as_str()) {
        Some(i) => {
            entries.set(i, (key, value));
        },
        None => {
            entries.push((key, value));
        },
    }
    proof {
        let new_s = entries@;
        lemma_first_key_index(new_s, k0);
        assert forall|j: int| 0 <= j < new_s.len() implies (#[trigger] new_s[j]).0@ == (if j
            < old_s.len() { old_s[j].0@ } else { k0 }) by {}
        let f = first_key_index(old_s, k0);
        let a = first_key_index(new_s, k0);
        if f >= 0 {
            assert(new_s[f].0@ == k0);
            if a < f {
                assert(new_s[a].0@ == old_s[a].0@);
            }
            assert(a == f);
            assert(new_s[f].1 == value);
        } else {
            assert(new_s[old_s.len() as int].0@ == k0);
            assert(a == old_s.len());
        }
        assert forall|k: Seq<char>| k != k0 implies lookup(new_s, k) == lookup(old_s, k) by {
            lemma_first_key_index(new_s, k);
            lemma_first_key_index(old_s, k);
            let a = first_key_index(new_s, k);
            let b = first_key_index(old_s, k);
            if a >= 0 {
                assert(a < old_s.len());
                if b >= 0 {
                    if b < a {
                        assert(new_s[b].0@ == old_s[b].0@);
                    }
                    if a < b {
                        assert(new_s[a].0@ == old_s[a].0@);
                    }
                    assert(a == b);
                    assert(new_s[a] == old_s[a]);
                } else {
                    assert(old_s[a].0@ == k);
                }
            } else if b >= 0 {
                assert(new_s[b].0@ == old_s[b].0@);
            }
        }
    }
}

} // verus!
