//! The laws the index engine obeys, proved over the same view transitions
//! the orchestrator's contracts are stated in.

use vstd::prelude::*;
use crate::codec::seq_diff;
use crate::following_index::{follows_add, follows_remove};
use crate::multimap::{ids_of, lemma_add_all_frame, lemma_add_all_makes_present,
    lemma_add_all_present_identity, lemma_list_round_trip, lemma_remove_all_frame,
    lemma_seq_diff_subset, lists_wf, unique_keys};
use crate::neuron::Neuron;
use crate::neuron_indexes::{add_any_fails, index_ready, known_add_map, known_remove_map,
    known_update_map, remove_any_fails, sub_add_map, sub_remove_map, update_any_fails};
use crate::principal_index::{principals_add, principals_remove};

verus! {

/// A member of one list that also occurs in the other contributes nothing
/// to their difference.
proof fn lemma_seq_diff_excludes<T>(a: Seq<T>, b: Seq<T>, x: T)
    requires
        b.contains(x),
    ensures
        !seq_diff(a, b).contains(x),
    decreases a.len(),
{
    if a.len() == 0 {
    } else {
        lemma_seq_diff_excludes(a.drop_first(), b, x);
        if seq_diff(a, b).contains(x) {
            let i = choose|i: int| 0 <= i < seq_diff(a, b).len() && seq_diff(a, b)[i] == x;
            if b.contains(a[0]) {
                assert(seq_diff(a.drop_first(), b)[i] == x);
            } else {
                if i > 0 {
                    assert(seq_diff(a.drop_first(), b)[i - 1] == x);
                }
            }
        }
    }
}

/// Round trip: adding a valid neuron whose add reported no defect and then
/// removing it leaves every index's queryable state exactly as it was, and
/// the removal reports no defect either.
pub proof fn lemma_add_remove_round_trip(
    sub: Map<Seq<u8>, u64>,
    prin: Map<Seq<u8>, Seq<u64>>,
    fol: Map<(i32, u64), Seq<u64>>,
    known: Map<Seq<char>, u64>,
    n: Neuron,
)
    requires
        index_ready(n),
        lists_wf(prin),
        lists_wf(fol),
        !add_any_fails(sub, prin, fol, known, n),
    ensures
        !remove_any_fails(
            sub_add_map(sub, n),
            principals_add(prin, n.spec_principals(), n.spec_id()),
            follows_add(fol, n.spec_pairs(), n.spec_id()),
            known_add_map(known, n),
            n,
        ),
        sub_remove_map(sub_add_map(sub, n), n) == sub,
        principals_remove(
            principals_add(prin, n.spec_principals(), n.spec_id()),
            n.spec_principals(),
            n.spec_id(),
        ) == prin,
        follows_remove(
            follows_add(fol, n.spec_pairs(), n.spec_id()),
            n.spec_pairs(),
            n.spec_id(),
        ) == fol,
        known_remove_map(known_add_map(known, n), n) == known,
{
    let id = n.spec_id();
    let ps = n.spec_principals();
    let pairs = n.spec_pairs();
    assert(unique_keys(ps));
    assert(unique_keys(pairs));
    lemma_list_round_trip(prin, ps, id);
    lemma_list_round_trip(fol, pairs, id);
    assert(sub_remove_map(sub_add_map(sub, n), n) =~= sub);
    match n.spec_name() {
        None => {},
        Some(nm) => {
            assert(known_remove_map(known_add_map(known, n), n) =~= known);
        },
    }
}

/// No-op update: updating a valid neuron to an identical version reports
/// no defect and leaves every index's queryable state unchanged.
pub proof fn lemma_noop_update(
    prin: Map<Seq<u8>, Seq<u64>>,
    fol: Map<(i32, u64), Seq<u64>>,
    known: Map<Seq<char>, u64>,
    n: Neuron,
)
    requires
        index_ready(n),
    ensures
        !update_any_fails(prin, fol, known, n, n),
        principals_add(
            principals_remove(prin, seq_diff(n.spec_principals(), n.spec_principals()), n.spec_id()),
            seq_diff(n.spec_principals(), n.spec_principals()),
            n.spec_id(),
        ) == prin,
        follows_add(
            follows_remove(fol, seq_diff(n.spec_pairs(), n.spec_pairs()), n.spec_id()),
            seq_diff(n.spec_pairs(), n.spec_pairs()),
            n.spec_id(),
        ) == fol,
        known_update_map(known, n, n) == known,
{
    lemma_seq_diff_subset(n.spec_principals(), n.spec_principals());
    lemma_seq_diff_subset(n.spec_pairs(), n.spec_pairs());
}

/// Minimal diff: a principal carried by both the old and the new version
/// of the record keeps exactly the neuron list it had — the update never
/// touches its entry.
pub proof fn lemma_update_keeps_shared_principal(
    prin: Map<Seq<u8>, Seq<u64>>,
    old_n: Neuron,
    new_n: Neuron,
    p: Seq<u8>,
)
    requires
        old_n.spec_principals().contains(p),
        new_n.spec_principals().contains(p),
        old_n.spec_id() == new_n.spec_id(),
    ensures
        ids_of(
            principals_add(
                principals_remove(
                    prin,
                    seq_diff(old_n.spec_principals(), new_n.spec_principals()),
                    old_n.spec_id(),
                ),
                seq_diff(new_n.spec_principals(), old_n.spec_principals()),
                old_n.spec_id(),
            ),
            p,
        ) == ids_of(prin, p),
{
    let id = old_n.spec_id();
    let rm = seq_diff(old_n.spec_principals(), new_n.spec_principals());
    let ad = seq_diff(new_n.spec_principals(), old_n.spec_principals());
    lemma_seq_diff_excludes(old_n.spec_principals(), new_n.spec_principals(), p);
    lemma_seq_diff_excludes(new_n.spec_principals(), old_n.spec_principals(), p);
    lemma_remove_all_frame(prin, rm, id, p);
    lemma_add_all_frame(principals_remove(prin, rm, id), ad, id, p);
}

/// Idempotent add: adding the same valid neuron a second time reports a
/// defect — at least the subaccount collision — while every index's
/// content stays exactly what the single add produced.
pub proof fn lemma_idempotent_add(
    sub: Map<Seq<u8>, u64>,
    prin: Map<Seq<u8>, Seq<u64>>,
    fol: Map<(i32, u64), Seq<u64>>,
    known: Map<Seq<char>, u64>,
    n: Neuron,
)
    requires
        index_ready(n),
        !add_any_fails(sub, prin, fol, known, n),
    ensures
        add_any_fails(
            sub_add_map(sub, n),
            principals_add(prin, n.spec_principals(), n.spec_id()),
            follows_add(fol, n.spec_pairs(), n.spec_id()),
            known_add_map(known, n),
            n,
        ),
        sub_add_map(sub_add_map(sub, n), n) == sub_add_map(sub, n),
        principals_add(
            principals_add(prin, n.spec_principals(), n.spec_id()),
            n.spec_principals(),
            n.spec_id(),
        ) == principals_add(prin, n.spec_principals(), n.spec_id()),
        follows_add(
            follows_add(fol, n.spec_pairs(), n.spec_id()),
            n.spec_pairs(),
            n.spec_id(),
        ) == follows_add(fol, n.spec_pairs(), n.spec_id()),
        known_add_map(known_add_map(known, n), n) == known_add_map(known, n),
{
    let id = n.spec_id();
    let ps = n.spec_principals();
    let pairs = n.spec_pairs();
    lemma_add_all_makes_present(prin, ps, id);
    lemma_add_all_present_identity(principals_add(prin, ps, id), ps, id);
    lemma_add_all_makes_present(fol, pairs, id);
    lemma_add_all_present_identity(follows_add(fol, pairs, id), pairs, id);
}

} // verus!
