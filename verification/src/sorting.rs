//! Keeping lists of named things in name order: the order of `String`'s
//! `Ord`, and insertion into a sorted list.

use vstd::prelude::*;

use crate::text::to_chars;

verus! {

broadcast use vstd::seq_lib::to_multiset_insert;

/// `a` comes before or equals `b` in the order of `String`'s `Ord`: their
/// characters compared one by one, a proper prefix first.
pub open spec fn name_le(a: Seq<char>, b: Seq<char>) -> bool
    decreases a.len(),
{
    if a.len() == 0 {
        true
    } else if b.len() == 0 {
        false
    } else if a[0] != b[0] {
        a[0] < b[0]
    } else {
        name_le(a.drop_first(), b.drop_first())
    }
}

/// Of two names, one comes first.
pub proof fn lemma_name_le_total(a: Seq<char>, b: Seq<char>)
    ensures
        name_le(a, b) || name_le(b, a),
    decreases a.len(),
{
    if a.len() > 0 && b.len() > 0 && a[0] == b[0] {
        lemma_name_le_total(a.drop_first(), b.drop_first());
    }
}

/// The order of names is transitive.
pub proof fn lemma_name_le_trans(a: Seq<char>, b: Seq<char>, c: Seq<char>)
    requires
        name_le(a, b),
        name_le(b, c),
    ensures
        name_le(a, c),
    decreases a.len(),
{
    if a.len() > 0 && b.len() > 0 && c.len() > 0 && a[0] == b[0] && b[0] == c[0] {
        lemma_name_le_trans(a.drop_first(), b.drop_first(), c.drop_first());
    }
}

/// Whether `a` comes before or equals `b`.
pub(crate) fn str_le(a: &str, b: &str) -> (r: bool)
    ensures
        r == name_le(a@, b@),
{
    let x = to_chars(a);
    let y = to_chars(b);
    let mut i: usize = 0;
    assert(a@.skip(0) =~= a@);
    assert(b@.skip(0) =~= b@);
    while i < x.len() && i < y.len() && x[i] == y[i]
        invariant
            i <= x.len(),
            i <= y.len(),
            x@ == a@,
            y@ == b@,
            name_le(a@, b@) == name_le(a@.skip(i as int), b@.skip(i as int)),
        decreases x.len() - i,
    {
        assert(a@.skip(i as int).drop_first() =~= a@.skip(i + 1));
        assert(b@.skip(i as int).drop_first() =~= b@.skip(i + 1));
        i = i + 1;
    }
    if i == x.len() {
        true
    } else if i == y.len() {
        false
    } else {
        x[i] < y[i]
    }
}

/// Something with a name to sort by.
pub trait Named {
    /// The name.
    spec fn name_view(&self) -> Seq<char>;

    /// The name, as a string.
    fn name_str(&self) -> (r: &str)
        ensures
            r@ == self.name_view();
}

/// The list is in name order.
pub open spec fn sorted_by_name<T: Named>(s: Seq<T>) -> bool {
    forall|i: int, j: int| 0 <= i < j < s.len() ==> name_le(#[trigger] s[i].name_view(), #[trigger] s[j].name_view())
}

/// Inserts `f` into `out`, which is in name order, after every item whose
/// name does not come after `f`'s.
pub fn insert_sorted<T: Named>(out: &mut Vec<T>, f: T)
    requires
        sorted_by_name(old(out)@),
    ensures
        sorted_by_name(final(out)@),
        final(out)@.to_multiset() == old(out)@.to_multiset().insert(f),
{
    let mut p: usize = 0;
    while p < out.len() && str_le(out[p].name_str(), f.name_str())
        invariant
            p <= out@.len(),
            out@ == old(out)@,
            sorted_by_name(out@),
            forall|k: int| 0 <= k < p ==> name_le(#[trigger] out@[k].name_view(), f.name_view()),
        decreases out@.len() - p,
    {
        p = p + 1;
    }
    let ghost before = out@;
    proof {
        if p < before.len() {
            lemma_name_le_total(before[p as int].name_view(), f.name_view());
        }
    }
    out.insert(p, f);
    proof {
        let s = out@;
        assert(s == before.insert(p as int, f));
        assert forall|i: int, j: int| 0 <= i < j < s.len() implies name_le(
            #[trigger] s[i].name_view(),
            #[trigger] s[j].name_view(),
        ) by {
            if j < p {
                assert(s[i] == before[i] && s[j] == before[j]);
            } else if j == p {
                assert(s[i] == before[i]);
            } else if i == p {
                assert(s[j] == before[j - 1]);
                if j - 1 > p {
                    assert(name_le(before[p as int].name_view(), before[j - 1].name_view()));
                    lemma_name_le_trans(f.name_view(), before[p as int].name_view(), before[j - 1].name_view());
                }
            } else if i < p {
                assert(s[i] == before[i] && s[j] == before[j - 1]);
            } else {
                assert(s[i] == before[i - 1] && s[j] == before[j - 1]);
            }
        }
    }
}

} // verus!
