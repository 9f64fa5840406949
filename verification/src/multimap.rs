//! The shared theory of the two list-valued indexes (principal and
//! following): a map from keys to duplicate-free id lists, grown and
//! shrunk one membership at a time, with the frame, commutation and
//! round-trip lemmas the library's laws rest on.

use vstd::prelude::*;
use crate::codec::{lemma_remove_first_unique, remove_first, seq_diff, unique_ids};

verus! {

/// The id list recorded for a key, or the empty list where none is.
pub open spec fn ids_of<K, V>(m: Map<K, Seq<V>>, k: K) -> Seq<V> {
    if m.contains_key(k) {
        m[k]
    } else {
        Seq::empty()
    }
}

/// Every entry holds a non-empty list.
pub open spec fn lists_wf<K, V>(m: Map<K, Seq<V>>) -> bool {
    forall|k: K| #[trigger] m.contains_key(k) ==> m[k].len() > 0
}

/// No key occurs twice.
pub open spec fn unique_keys<K>(ks: Seq<K>) -> bool {
    forall|i: int, j: int| 0 <= i < j < ks.len() ==> ks[i] != ks[j]
}

/// One membership recorded: appends the id to the key's list unless it is
/// already there.
pub open spec fn list_add1<K, V>(m: Map<K, Seq<V>>, k: K, id: V) -> Map<K, Seq<V>> {
    if ids_of(m, k).contains(id) {
        m
    } else {
        m.insert(k, ids_of(m, k).push(id))
    }
}

/// One membership deleted: drops the id from the key's list, and the whole
/// entry once the list is empty.
pub open spec fn list_remove1<K, V>(m: Map<K, Seq<V>>, k: K, id: V) -> Map<K, Seq<V>> {
    if ids_of(m, k).contains(id) {
        if remove_first(ids_of(m, k), id).len() == 0 {
            m.remove(k)
        } else {
            m.insert(k, remove_first(ids_of(m, k), id))
        }
    } else {
        m
    }
}

/// Records the id under every key in the list, in order.
pub open spec fn list_add_all<K, V>(m: Map<K, Seq<V>>, ks: Seq<K>, id: V) -> Map<K, Seq<V>>
    decreases ks.len(),
{
    if ks.len() == 0 {
        m
    } else {
        list_add_all(list_add1(m, ks[0], id), ks.drop_first(), id)
    }
}

/// The keys that already carried the id when recording the list in order.
pub open spec fn list_add_already<K, V>(m: Map<K, Seq<V>>, ks: Seq<K>, id: V) -> Seq<K>
    decreases ks.len(),
{
    if ks.len() == 0 {
        Seq::empty()
    } else {
        (if ids_of(m, ks[0]).contains(id) {
            seq![ks[0]]
        } else {
            Seq::empty()
        }) + list_add_already(list_add1(m, ks[0], id), ks.drop_first(), id)
    }
}

/// Deletes the id under every key in the list, in order.
pub open spec fn list_remove_all<K, V>(m: Map<K, Seq<V>>, ks: Seq<K>, id: V) -> Map<K, Seq<V>>
    decreases ks.len(),
{
    if ks.len() == 0 {
        m
    } else {
        list_remove_all(list_remove1(m, ks[0], id), ks.drop_first(), id)
    }
}

/// The keys that did not carry the id when deleting the list in order.
pub open spec fn list_remove_absent<K, V>(m: Map<K, Seq<V>>, ks: Seq<K>, id: V) -> Seq<K>
    decreases ks.len(),
{
    if ks.len() == 0 {
        Seq::empty()
    } else {
        (if ids_of(m, ks[0]).contains(id) {
            Seq::empty()
        } else {
            seq![ks[0]]
        }) + list_remove_absent(list_remove1(m, ks[0], id), ks.drop_first(), id)
    }
}

/// The id is recorded under the key.
pub open spec fn member<K, V>(m: Map<K, Seq<V>>, k: K, id: V) -> bool {
    ids_of(m, k).contains(id)
}

/// Appending to a list adds exactly the appended member.
pub proof fn lemma_push_contains<T>(s: Seq<T>, x: T, y: T)
    ensures
        s.push(x).contains(y) <==> (s.contains(y) || y == x),
{
    if s.push(x).contains(y) {
        let i = choose|i: int| 0 <= i < s.push(x).len() && s.push(x)[i] == y;
        if i < s.len() {
            assert(s[i] == y);
        }
    }
    if s.contains(y) {
        let i = choose|i: int| 0 <= i < s.len() && s[i] == y;
        assert(s.push(x)[i] == y);
    }
    if y == x {
        assert(s.push(x)[s.len() as int] == y);
    }
}

/// Recording one membership adds exactly that membership.
pub proof fn lemma_member_add1<K, V>(m: Map<K, Seq<V>>, k: K, id: V, k2: K, id2: V)
    ensures
        member(list_add1(m, k, id), k2, id2) <==> (member(m, k2, id2) || (k2 == k && id2 == id)),
{
    if k2 == k {
        if !ids_of(m, k).contains(id) {
            lemma_push_contains(ids_of(m, k), id, id2);
        }
    } else {
        assert(ids_of(list_add1(m, k, id), k2) == ids_of(m, k2));
    }
}

/// Deleting one membership from a duplicate-free list removes exactly that
/// membership.
pub proof fn lemma_member_remove1<K, V>(m: Map<K, Seq<V>>, k: K, id: V, k2: K, id2: V)
    requires
        unique_ids(ids_of(m, k)),
    ensures
        member(list_remove1(m, k, id), k2, id2) <==> (member(m, k2, id2) && !(k2 == k && id2
            == id)),
{
    if k2 == k {
        if ids_of(m, k).contains(id) {
            lemma_remove_first_unique(ids_of(m, k), id);
            if remove_first(ids_of(m, k), id).len() == 0 {
                assert(!member(list_remove1(m, k, id), k2, id2));
                if member(m, k, id2) && id2 != id {
                    assert(remove_first(ids_of(m, k), id).contains(id2));
                }
            }
        }
    } else {
        assert(ids_of(list_remove1(m, k, id), k2) == ids_of(m, k2));
    }
}

/// Adding never touches a key outside the list.
pub proof fn lemma_add_all_frame<K, V>(m: Map<K, Seq<V>>, ks: Seq<K>, id: V, k: K)
    requires
        !ks.contains(k),
    ensures
        ids_of(list_add_all(m, ks, id), k) == ids_of(m, k),
        list_add_all(m, ks, id).contains_key(k) == m.contains_key(k),
    decreases ks.len(),
{
    if ks.len() == 0 {
    } else {
        assert(ks[0] != k);
        assert(!ks.drop_first().contains(k)) by {
            if ks.drop_first().contains(k) {
                let i = choose|i: int| 0 <= i < ks.drop_first().len() && ks.drop_first()[i] == k;
                assert(ks[i + 1] == k);
            }
        }
        lemma_add_all_frame(list_add1(m, ks[0], id), ks.drop_first(), id, k);
    }
}

/// Removing never touches a key outside the list.
pub proof fn lemma_remove_all_frame<K, V>(m: Map<K, Seq<V>>, ks: Seq<K>, id: V, k: K)
    requires
        !ks.contains(k),
    ensures
        ids_of(list_remove_all(m, ks, id), k) == ids_of(m, k),
        list_remove_all(m, ks, id).contains_key(k) == m.contains_key(k),
    decreases ks.len(),
{
    if ks.len() == 0 {
    } else {
        assert(ks[0] != k);
        assert(!ks.drop_first().contains(k)) by {
            if ks.drop_first().contains(k) {
                let i = choose|i: int| 0 <= i < ks.drop_first().len() && ks.drop_first()[i] == k;
                assert(ks[i + 1] == k);
            }
        }
        lemma_remove_all_frame(list_remove1(m, ks[0], id), ks.drop_first(), id, k);
    }
}

/// Deleting under two distinct keys commutes.
pub proof fn lemma_remove1_commute<K, V>(m: Map<K, Seq<V>>, p: K, q: K, id: V)
    requires
        p != q,
    ensures
        list_remove1(list_remove1(m, p, id), q, id) == list_remove1(list_remove1(m, q, id), p, id),
{
    assert(ids_of(list_remove1(m, p, id), q) == ids_of(m, q));
    assert(ids_of(list_remove1(m, q, id), p) == ids_of(m, p));
    assert(list_remove1(list_remove1(m, p, id), q, id) =~= list_remove1(
        list_remove1(m, q, id),
        p,
        id,
    ));
}

/// Deleting under a key outside a list commutes with deleting the list.
pub proof fn lemma_remove1_remove_all_commute<K, V>(m: Map<K, Seq<V>>, ks: Seq<K>, p: K, id: V)
    requires
        !ks.contains(p),
    ensures
        list_remove_all(list_remove1(m, p, id), ks, id) == list_remove1(
            list_remove_all(m, ks, id),
            p,
            id,
        ),
    decreases ks.len(),
{
    if ks.len() == 0 {
    } else {
        assert(ks[0] != p);
        assert(!ks.drop_first().contains(p)) by {
            if ks.drop_first().contains(p) {
                let i = choose|i: int| 0 <= i < ks.drop_first().len() && ks.drop_first()[i] == p;
                assert(ks[i + 1] == p);
            }
        }
        lemma_remove1_commute(m, p, ks[0], id);
        lemma_remove1_remove_all_commute(list_remove1(m, ks[0], id), ks.drop_first(), p, id);
    }
}

/// Two maps that agree on every key of a list report the same absences
/// when the list is deleted.
pub proof fn lemma_remove_absent_agree<K, V>(
    m: Map<K, Seq<V>>,
    m2: Map<K, Seq<V>>,
    ks: Seq<K>,
    id: V,
)
    requires
        forall|k: K| ks.contains(k) ==> ids_of(m, k) == ids_of(m2, k),
    ensures
        list_remove_absent(m, ks, id) == list_remove_absent(m2, ks, id),
    decreases ks.len(),
{
    if ks.len() == 0 {
    } else {
        let k0 = ks[0];
        assert(ks.contains(k0));
        let m_1 = list_remove1(m, k0, id);
        let m2_1 = list_remove1(m2, k0, id);
        assert forall|k: K| ks.drop_first().contains(k) implies ids_of(m_1, k) == ids_of(
            m2_1,
            k,
        ) by {
            let i = choose|i: int| 0 <= i < ks.drop_first().len() && ks.drop_first()[i] == k;
            assert(ks[i + 1] == k);
            assert(ks.contains(k));
            if k != k0 {
                assert(ids_of(m_1, k) == ids_of(m, k));
                assert(ids_of(m2_1, k) == ids_of(m2, k));
            }
        }
        lemma_remove_absent_agree(m_1, m2_1, ks.drop_first(), id);
    }
}

/// Recording a fresh membership and deleting it restores the map.
pub proof fn lemma_add1_remove1_roundtrip<K, V>(m: Map<K, Seq<V>>, k: K, id: V)
    requires
        !ids_of(m, k).contains(id),
        lists_wf(m),
    ensures
        list_remove1(list_add1(m, k, id), k, id) == m,
{
    let grown = ids_of(m, k).push(id);
    assert(grown.contains(id)) by {
        assert(grown[grown.len() - 1] == id);
    }
    crate::codec::lemma_remove_first_push(ids_of(m, k), id);
    if m.contains_key(k) {
        assert(m[k].len() > 0);
        assert(list_remove1(list_add1(m, k, id), k, id) =~= m);
    } else {
        assert(list_remove1(list_add1(m, k, id), k, id) =~= m);
    }
}

/// Recording a list of fresh memberships and deleting the same list
/// restores the map, with nothing reported absent.
pub proof fn lemma_list_round_trip<K, V>(m: Map<K, Seq<V>>, ks: Seq<K>, id: V)
    requires
        unique_keys(ks),
        list_add_already(m, ks, id).len() == 0,
        lists_wf(m),
    ensures
        list_remove_all(list_add_all(m, ks, id), ks, id) == m,
        list_remove_absent(list_add_all(m, ks, id), ks, id).len() == 0,
    decreases ks.len(),
{
    if ks.len() == 0 {
    } else {
        let k0 = ks[0];
        let rest = ks.drop_first();
        assert(!ids_of(m, k0).contains(id));
        let m1 = list_add1(m, k0, id);
        assert(lists_wf(m1)) by {
            assert(forall|k: K| #[trigger] m1.contains_key(k) && k != k0 ==> m1[k] == m[k]
                && m.contains_key(k));
            assert(m1.contains_key(k0) && m1[k0].len() > 0);
        }
        assert(unique_keys(rest)) by {
            assert(forall|i: int, j: int|
                0 <= i < j < rest.len() ==> rest[i] == ks[i + 1] && rest[j] == ks[j + 1]);
        }
        assert(!rest.contains(k0)) by {
            if rest.contains(k0) {
                let i = choose|i: int| 0 <= i < rest.len() && rest[i] == k0;
                assert(ks[i + 1] == k0 && ks[0] == k0);
            }
        }
        lemma_list_round_trip(m1, rest, id);
        let grown = list_add_all(m1, rest, id);
        // The head key is untouched by the rest of the additions, so its
        // list still ends with the freshly recorded id.
        lemma_add_all_frame(m1, rest, id, k0);
        assert(ids_of(grown, k0) == ids_of(m, k0).push(id));
        assert(ids_of(grown, k0).contains(id)) by {
            assert(ids_of(grown, k0)[ids_of(grown, k0).len() - 1] == id);
        }
        // Deleting the head key commutes past deleting the rest; what
        // remains is the single-key round trip.
        lemma_remove1_remove_all_commute(grown, rest, k0, id);
        assert(list_remove_all(grown, ks, id) == list_remove1(
            list_remove_all(grown, rest, id),
            k0,
            id,
        ));
        assert(list_remove_all(grown, rest, id) == m1);
        lemma_add1_remove1_roundtrip(m, k0, id);
        // The removal reports nothing absent: the head is present, and the
        // rest behaves as in the induction hypothesis because the two maps
        // agree on every remaining key.
        assert forall|k: K| rest.contains(k) implies ids_of(list_remove1(grown, k0, id), k)
            == ids_of(grown, k) by {
            assert(k != k0);
        }
        lemma_remove_absent_agree(list_remove1(grown, k0, id), grown, rest, id);
        assert(list_remove_absent(grown, ks, id) =~= list_remove_absent(
            list_remove1(grown, k0, id),
            rest,
            id,
        ));
    }
}

/// Growing the map never loses a recorded membership.
pub proof fn lemma_add_all_preserves_member<K, V>(m: Map<K, Seq<V>>, ks: Seq<K>, id: V, k: K)
    requires
        ids_of(m, k).contains(id),
    ensures
        ids_of(list_add_all(m, ks, id), k).contains(id),
    decreases ks.len(),
{
    if ks.len() == 0 {
    } else {
        let m1 = list_add1(m, ks[0], id);
        assert(ids_of(m1, k).contains(id)) by {
            if ks[0] == k {
            } else {
                assert(ids_of(m1, k) == ids_of(m, k));
            }
        }
        lemma_add_all_preserves_member(m1, ks.drop_first(), id, k);
    }
}

/// After recording a list of memberships, every key of the list carries
/// the id.
pub proof fn lemma_add_all_makes_present<K, V>(m: Map<K, Seq<V>>, ks: Seq<K>, id: V)
    ensures
        forall|k: K| ks.contains(k) ==> ids_of(list_add_all(m, ks, id), k).contains(id),
    decreases ks.len(),
{
    if ks.len() == 0 {
    } else {
        let k0 = ks[0];
        let m1 = list_add1(m, k0, id);
        lemma_add_all_makes_present(m1, ks.drop_first(), id);
        assert(ids_of(m1, k0).contains(id)) by {
            if !ids_of(m, k0).contains(id) {
                let grown = ids_of(m, k0).push(id);
                assert(grown[grown.len() - 1] == id);
            }
        }
        lemma_add_all_preserves_member(m1, ks.drop_first(), id, k0);
        assert forall|k: K| ks.contains(k) implies ids_of(
            list_add_all(m, ks, id),
            k,
        ).contains(id) by {
            let i = choose|i: int| 0 <= i < ks.len() && ks[i] == k;
            if i == 0 {
            } else {
                assert(ks.drop_first()[i - 1] == k);
                assert(ks.drop_first().contains(k));
            }
        }
    }
}

/// Recording memberships that are all already present changes nothing and
/// reports every key.
pub proof fn lemma_add_all_present_identity<K, V>(m: Map<K, Seq<V>>, ks: Seq<K>, id: V)
    requires
        forall|k: K| ks.contains(k) ==> ids_of(m, k).contains(id),
    ensures
        list_add_all(m, ks, id) == m,
        list_add_already(m, ks, id) == ks,
    decreases ks.len(),
{
    if ks.len() == 0 {
        assert(list_add_already(m, ks, id) =~= ks);
    } else {
        let k0 = ks[0];
        assert(ks.contains(k0));
        assert(list_add1(m, k0, id) == m);
        assert forall|k: K| ks.drop_first().contains(k) implies ids_of(m, k).contains(id) by {
            let i = choose|i: int| 0 <= i < ks.drop_first().len() && ks.drop_first()[i] == k;
            assert(ks[i + 1] == k);
            assert(ks.contains(k));
        }
        lemma_add_all_present_identity(m, ks.drop_first(), id);
        assert(list_add_already(m, ks, id) =~= ks);
    }
}

/// Keys contained in the other list contribute nothing to the difference.
pub proof fn lemma_seq_diff_subset<T>(a: Seq<T>, b: Seq<T>)
    requires
        forall|x: T| a.contains(x) ==> b.contains(x),
    ensures
        seq_diff(a, b) == Seq::<T>::empty(),
    decreases a.len(),
{
    if a.len() == 0 {
    } else {
        assert(a.contains(a[0]));
        assert(forall|x: T| a.drop_first().contains(x) ==> a.contains(x)) by {
            assert forall|x: T| a.drop_first().contains(x) implies a.contains(x) by {
                let i = choose|i: int| 0 <= i < a.drop_first().len() && a.drop_first()[i] == x;
                assert(a[i + 1] == x);
            }
        }
        lemma_seq_diff_subset(a.drop_first(), b);
        assert(seq_diff(a, b) =~= Seq::<T>::empty());
    }
}

} // verus!
