//! The aggregate orchestrator: one instance of each concrete index, an
//! entity-level validation gate, fan-out of every operation to all four
//! indexes, and aggregation of partial failures into a single corruption
//! report.

use vstd::prelude::*;
use ic_stable_structures::VectorMemory;
use crate::codec::{bytes_eq, seq_diff};
use crate::defects::{combine_index_defects, is_following_defect, is_known_neuron_defect,
    is_principal_defect, is_subaccount_defect, known_name_absent_defect, known_name_absent_reason,
    subaccount_absent_reason, subaccount_exists_reason, subaccount_mismatch_reason,
    known_name_exists_defect, known_name_exists_reason, known_name_mismatch_defect,
    known_name_mismatch_reason, known_name_too_long_defect, known_name_too_long_reason,
    pairs_absent_defect, pairs_absent_reason, pairs_present_defect, pairs_present_reason,
    principals_absent_defect, principals_absent_reason, principals_present_defect,
    principals_present_reason, CorruptedNeuronIndexes, NeuronIndexDefect, NeuronStoreError};
use crate::following_index::{follows_add, follows_add_already, follows_remove,
    follows_remove_absent, add_neuron_followees, remove_neuron_followees, HeapNeuronFollowingIndex,
    NeuronFollowingIndex, StableNeuronFollowingIndex};
use crate::known_neuron_index::{name_byte_len, AddKnownNeuronError, KnownNeuronIndex,
    RemoveKnownNeuronError, MAX_KNOWN_NEURON_NAME_SIZE};
use crate::neuron::{Neuron, NeuronId, NeuronIdU64, PrincipalId, Subaccount, TopicSigned32};
use crate::principal_index::{principals_add, principals_add_already, principals_remove,
    principals_remove_absent, add_neuron_id_principal_ids, remove_neuron_id_principal_ids,
    StableNeuronPrincipalIndex};
use crate::subaccount_index::NeuronSubaccountIndex;

verus! {

/// Whether the record carries an id.
pub open spec fn has_id(n: Neuron) -> bool {
    match n.id {
        Some(_) => true,
        None => false,
    }
}

/// The display name's byte length fits the machine word the length checks
/// run in.
pub open spec fn name_fits(n: Neuron) -> bool {
    match n.spec_name() {
        Some(nm) => name_byte_len(nm) <= usize::MAX,
        None => true,
    }
}

/// A neuron the indexes can be handed: validated, with set-shaped fields.
pub open spec fn index_ready(n: Neuron) -> bool {
    &&& n.wf()
    &&& has_id(n)
    &&& n.has_valid_subaccount()
    &&& name_fits(n)
}

/// One where a boolean counts one defect.
pub open spec fn opt_count(b: bool) -> int {
    if b {
        1
    } else {
        0
    }
}

// ---------------------------------------------------------------------
// The effect of each operation on each index's view, as map transformers
// and failure predicates. The orchestrator's contracts are stated over
// these.
// ---------------------------------------------------------------------

/// Adding fails on the subaccount index when the subaccount is taken.
pub open spec fn sub_add_fails(m: Map<Seq<u8>, u64>, n: Neuron) -> bool {
    m.contains_key(n.spec_subaccount())
}

/// The subaccount map after adding the neuron.
pub open spec fn sub_add_map(m: Map<Seq<u8>, u64>, n: Neuron) -> Map<Seq<u8>, u64> {
    if sub_add_fails(m, n) {
        m
    } else {
        m.insert(n.spec_subaccount(), n.spec_id())
    }
}

/// Removing fails on the subaccount index when the subaccount is absent or
/// recorded for a different neuron.
pub open spec fn sub_remove_fails(m: Map<Seq<u8>, u64>, n: Neuron) -> bool {
    !m.contains_key(n.spec_subaccount()) || m[n.spec_subaccount()] != n.spec_id()
}

/// The subaccount map after removing the neuron.
pub open spec fn sub_remove_map(m: Map<Seq<u8>, u64>, n: Neuron) -> Map<Seq<u8>, u64> {
    if sub_remove_fails(m, n) {
        m
    } else {
        m.remove(n.spec_subaccount())
    }
}

/// The defect the subaccount index reports for a failed removal.
pub open spec fn sub_remove_defect(m: Map<Seq<u8>, u64>, n: Neuron, d: NeuronIndexDefect) -> bool {
    if !m.contains_key(n.spec_subaccount()) {
        is_subaccount_defect(d, subaccount_absent_reason(n.spec_subaccount()))
    } else {
        is_subaccount_defect(d, subaccount_mismatch_reason(n.spec_subaccount()))
    }
}

/// Adding fails on the principal index when some principal already carried
/// the neuron.
pub open spec fn prin_add_fails(m: Map<Seq<u8>, Seq<u64>>, n: Neuron) -> bool {
    principals_add_already(m, n.spec_principals(), n.spec_id()).len() > 0
}

/// Removing fails on the principal index when some principal did not carry
/// the neuron.
pub open spec fn prin_remove_fails(m: Map<Seq<u8>, Seq<u64>>, n: Neuron) -> bool {
    principals_remove_absent(m, n.spec_principals(), n.spec_id()).len() > 0
}

/// Adding fails on the following index when some pair already carried the
/// neuron.
pub open spec fn fol_add_fails(m: Map<(i32, u64), Seq<u64>>, n: Neuron) -> bool {
    follows_add_already(m, n.spec_pairs(), n.spec_id()).len() > 0
}

/// Removing fails on the following index when some pair did not carry the
/// neuron.
pub open spec fn fol_remove_fails(m: Map<(i32, u64), Seq<u64>>, n: Neuron) -> bool {
    follows_remove_absent(m, n.spec_pairs(), n.spec_id()).len() > 0
}

/// Adding fails on the known-name index when the neuron is named and the
/// name is over the limit or taken.
pub open spec fn known_add_fails(m: Map<Seq<char>, u64>, n: Neuron) -> bool {
    match n.spec_name() {
        None => false,
        Some(nm) => name_byte_len(nm) > MAX_KNOWN_NEURON_NAME_SIZE || m.contains_key(nm),
    }
}

/// The known-name map after adding the neuron.
pub open spec fn known_add_map(m: Map<Seq<char>, u64>, n: Neuron) -> Map<Seq<char>, u64> {
    match n.spec_name() {
        None => m,
        Some(nm) => if known_add_fails(m, n) {
            m
        } else {
            m.insert(nm, n.spec_id())
        },
    }
}

/// The defect the known-name index reports for a failed addition.
pub open spec fn known_add_defect(m: Map<Seq<char>, u64>, n: Neuron, d: NeuronIndexDefect) -> bool {
    match n.spec_name() {
        None => false,
        Some(nm) => if name_byte_len(nm) > MAX_KNOWN_NEURON_NAME_SIZE {
            is_known_neuron_defect(d, known_name_too_long_reason(n.spec_id(), nm))
        } else {
            is_known_neuron_defect(d, known_name_exists_reason(n.spec_id(), nm))
        },
    }
}

/// Removing fails on the known-name index when the neuron is named and the
/// name is absent or held by a different neuron.
pub open spec fn known_remove_fails(m: Map<Seq<char>, u64>, n: Neuron) -> bool {
    match n.spec_name() {
        None => false,
        Some(nm) => !m.contains_key(nm) || m[nm] != n.spec_id(),
    }
}

/// The known-name map after removing the neuron.
pub open spec fn known_remove_map(m: Map<Seq<char>, u64>, n: Neuron) -> Map<Seq<char>, u64> {
    match n.spec_name() {
        None => m,
        Some(nm) => if known_remove_fails(m, n) {
            m
        } else {
            m.remove(nm)
        },
    }
}

/// The defect the known-name index reports for a failed removal.
pub open spec fn known_remove_defect(
    m: Map<Seq<char>, u64>,
    n: Neuron,
    d: NeuronIndexDefect,
) -> bool {
    match n.spec_name() {
        None => false,
        Some(nm) => if !m.contains_key(nm) {
            is_known_neuron_defect(d, known_name_absent_reason(nm))
        } else {
            is_known_neuron_defect(d, known_name_mismatch_reason(nm, m[nm]))
        },
    }
}

/// The known-name map after an update from one record version to another.
pub open spec fn known_update_map(
    m: Map<Seq<char>, u64>,
    old_n: Neuron,
    new_n: Neuron,
) -> Map<Seq<char>, u64> {
    if old_n.spec_name() == new_n.spec_name() {
        m
    } else {
        known_add_map(known_remove_map(m, old_n), new_n)
    }
}

// ---------------------------------------------------------------------
// The capability every concrete index implements.
// ---------------------------------------------------------------------

/// A common interface for the neuron indexes, for updating them in a
/// unified way. Each implementation pins its exact effect down through its
/// `add_ens` / `remove_ens` / `update_ens` specification functions.
pub trait NeuronIndex: Sized {
    /// The implementation's internal invariant.
    spec fn index_inv(&self) -> bool;

    /// What `add_neuron` did, over the states before and after.
    spec fn add_ens(pre: Self, post: Self, new_neuron: Neuron, r: Result<
        (),
        NeuronIndexDefect,
    >) -> bool;

    /// What `remove_neuron` did, over the states before and after.
    spec fn remove_ens(pre: Self, post: Self, existing_neuron: Neuron, r: Result<
        (),
        NeuronIndexDefect,
    >) -> bool;

    /// What `update_neuron` did, over the states before and after.
    spec fn update_ens(pre: Self, post: Self, old_neuron: Neuron, new_neuron: Neuron, r: Result<
        (),
        Vec<NeuronIndexDefect>,
    >) -> bool;

    /// Adds a neuron into the index. A defect signals something might be
    /// wrong with the index; adding the exact same neuron a second time has
    /// no effect on storage other than reporting one.
    fn add_neuron(&mut self, new_neuron: &Neuron) -> (r: Result<(), NeuronIndexDefect>)
        requires
            old(self).index_inv(),
            index_ready(*new_neuron),
        ensures
            final(self).index_inv(),
            Self::add_ens(*old(self), *final(self), *new_neuron, r),
    ;

    /// Removes a neuron from the index. A defect signals something might be
    /// wrong with the index; removing the exact same neuron a second time
    /// has no effect on storage other than reporting one.
    fn remove_neuron(&mut self, existing_neuron: &Neuron) -> (r: Result<(), NeuronIndexDefect>)
        requires
            old(self).index_inv(),
            index_ready(*existing_neuron),
        ensures
            final(self).index_inv(),
            Self::remove_ens(*old(self), *final(self), *existing_neuron, r),
    ;

    /// Updates a neuron between two versions with equal ids and equal
    /// subaccounts; the caller checks both. Up to two defects can come
    /// back — one for the removal half, one for the addition half — and
    /// encountering one does not stop the other half.
    fn update_neuron(&mut self, old_neuron: &Neuron, new_neuron: &Neuron) -> (r: Result<
        (),
        Vec<NeuronIndexDefect>,
    >)
        requires
            old(self).index_inv(),
            index_ready(*old_neuron),
            index_ready(*new_neuron),
            old_neuron.spec_id() == new_neuron.spec_id(),
            old_neuron.account@ == new_neuron.account@,
        ensures
            final(self).index_inv(),
            Self::update_ens(*old(self), *final(self), *old_neuron, *new_neuron, r),
    ;
}

// ---------------------------------------------------------------------
// Helpers shared by the implementations.
// ---------------------------------------------------------------------

/// The id a validated neuron carries.
fn neuron_id_of(neuron: &Neuron) -> (nid: NeuronId)
    ensures
        nid.id == neuron.spec_id(),
{
    match neuron.id {
        Some(x) => x,
        None => NeuronId { id: 0 },
    }
}

/// The subaccount a validated neuron carries.
fn subaccount_of(neuron: &Neuron) -> (sub: Subaccount)
    requires
        neuron.has_valid_subaccount(),
    ensures
        sub@ == neuron.spec_subaccount(),
        sub.wf(),
{
    match neuron.subaccount() {
        Ok(s) => s,
        Err(_) => Subaccount { bytes: Vec::new() },
    }
}

/// Turns the list of principals that were already present into the
/// operation's result: success exactly when the list is empty.
pub fn already_present_principal_ids_to_result(
    already_present_principal_ids: Vec<PrincipalId>,
    neuron_id: NeuronIdU64,
) -> (r: Result<(), NeuronIndexDefect>)
    ensures
        match r {
            Ok(_) => already_present_principal_ids@.len() == 0,
            Err(d) => already_present_principal_ids@.len() > 0 && is_principal_defect(
                d,
                principals_present_reason(
                    principal_views(already_present_principal_ids@),
                    neuron_id,
                ),
            ),
        },
{
    if already_present_principal_ids.len() == 0 {
        Ok(())
    } else {
        Err(principals_present_defect(&already_present_principal_ids, neuron_id))
    }
}

/// Turns the list of principals that were already absent into the
/// operation's result: success exactly when the list is empty.
pub fn already_absent_principal_ids_to_result(
    already_absent_principal_ids: Vec<PrincipalId>,
    neuron_id: NeuronIdU64,
) -> (r: Result<(), NeuronIndexDefect>)
    ensures
        match r {
            Ok(_) => already_absent_principal_ids@.len() == 0,
            Err(d) => already_absent_principal_ids@.len() > 0 && is_principal_defect(
                d,
                principals_absent_reason(
                    principal_views(already_absent_principal_ids@),
                    neuron_id,
                ),
            ),
        },
{
    if already_absent_principal_ids.len() == 0 {
        Ok(())
    } else {
        Err(principals_absent_defect(&already_absent_principal_ids, neuron_id))
    }
}

/// Turns the list of delegation pairs that were already present into the
/// operation's result: success exactly when the list is empty.
pub fn already_present_topic_followee_pairs_to_result(
    already_present_topic_followee_pairs: Vec<(TopicSigned32, NeuronIdU64)>,
    neuron_id: NeuronIdU64,
) -> (r: Result<(), NeuronIndexDefect>)
    ensures
        match r {
            Ok(_) => already_present_topic_followee_pairs@.len() == 0,
            Err(d) => already_present_topic_followee_pairs@.len() > 0 && is_following_defect(
                d,
                pairs_present_reason(already_present_topic_followee_pairs@, neuron_id),
            ),
        },
{
    if already_present_topic_followee_pairs.len() == 0 {
        Ok(())
    } else {
        Err(pairs_present_defect(&already_present_topic_followee_pairs, neuron_id))
    }
}

/// Turns the list of delegation pairs that were already absent into the
/// operation's result: success exactly when the list is empty.
pub fn already_absent_topic_followee_pairs_to_result(
    already_absent_topic_followee_pairs: Vec<(TopicSigned32, NeuronIdU64)>,
    neuron_id: NeuronIdU64,
) -> (r: Result<(), NeuronIndexDefect>)
    ensures
        match r {
            Ok(_) => already_absent_topic_followee_pairs@.len() == 0,
            Err(d) => already_absent_topic_followee_pairs@.len() > 0 && is_following_defect(
                d,
                pairs_absent_reason(already_absent_topic_followee_pairs@, neuron_id),
            ),
        },
{
    if already_absent_topic_followee_pairs.len() == 0 {
        Ok(())
    } else {
        Err(pairs_absent_defect(&already_absent_topic_followee_pairs, neuron_id))
    }
}

/// The views of both principal lists.
pub open spec fn principal_views(ps: Seq<PrincipalId>) -> Seq<Seq<u8>> {
    ps.map_values(|p: PrincipalId| p@)
}

/// Whether the list holds a principal with these bytes.
fn contains_principal(v: &Vec<PrincipalId>, p: &PrincipalId) -> (r: bool)
    ensures
        r == principal_views(v@).contains(p@),
{
    let mut i: usize = 0;
    while i < v.len()
        invariant
            i <= v@.len(),
            forall|j: int| 0 <= j < i ==> principal_views(v@)[j] != p@,
        decreases v@.len() - i,
    {
        if bytes_eq(&v[i].bytes, &p.bytes) {
            proof {
                assert(principal_views(v@)[i as int] == p@);
            }
            return true;
        }
        i = i + 1;
    }
    proof {
        if principal_views(v@).contains(p@) {
            let k = choose|k: int|
                0 <= k < principal_views(v@).len() && principal_views(v@)[k] == p@;
        }
    }
    false
}

/// The principals of `a` that do not occur in `b`, in order.
fn principal_diff(a: &Vec<PrincipalId>, b: &Vec<PrincipalId>) -> (r: Vec<PrincipalId>)
    ensures
        principal_views(r@) == seq_diff(principal_views(a@), principal_views(b@)),
{
    let ghost va = principal_views(a@);
    let ghost vb = principal_views(b@);
    let mut r: Vec<PrincipalId> = Vec::new();
    let mut i: usize = 0;
    proof {
        assert(va.subrange(0, va.len() as int) =~= va);
    }
    while i < a.len()
        invariant
            i <= a@.len(),
            va == principal_views(a@),
            vb == principal_views(b@),
            principal_views(r@) + seq_diff(va.subrange(i as int, va.len() as int), vb) == seq_diff(
                va,
                vb,
            ),
        decreases a@.len() - i,
    {
        let ghost rest = va.subrange(i as int, va.len() as int);
        proof {
            assert(rest[0] == va[i as int]);
            assert(rest.drop_first() =~= va.subrange(i as int + 1, va.len() as int));
        }
        if !contains_principal(b, &a[i]) {
            r.push(PrincipalId { bytes: a[i].bytes.clone() });
        }
        i = i + 1;
        proof {
            assert(principal_views(r@) + seq_diff(
                va.subrange(i as int, va.len() as int),
                vb,
            ) =~= seq_diff(va, vb));
        }
    }
    proof {
        assert(va.subrange(va.len() as int, va.len() as int) =~= Seq::<Seq<u8>>::empty());
        assert(principal_views(r@) + Seq::<Seq<u8>>::empty() =~= principal_views(r@));
    }
    r
}

/// Whether the list holds the delegation pair.
fn contains_pair(v: &Vec<(TopicSigned32, NeuronIdU64)>, x: (TopicSigned32, NeuronIdU64)) -> (r:
    bool)
    ensures
        r == v@.contains(x),
{
    let mut i: usize = 0;
    while i < v.len()
        invariant
            i <= v@.len(),
            forall|j: int| 0 <= j < i ==> v@[j] != x,
        decreases v@.len() - i,
    {
        let e = v[i];
        if e.0 == x.0 && e.1 == x.1 {
            proof {
                assert(v@[i as int] == x);
            }
            return true;
        }
        i = i + 1;
    }
    false
}

/// The pairs of `a` that do not occur in `b`, in order.
fn pair_diff(
    a: &Vec<(TopicSigned32, NeuronIdU64)>,
    b: &Vec<(TopicSigned32, NeuronIdU64)>,
) -> (r: Vec<(TopicSigned32, NeuronIdU64)>)
    ensures
        r@ == seq_diff(a@, b@),
{
    let mut r: Vec<(TopicSigned32, NeuronIdU64)> = Vec::new();
    let mut i: usize = 0;
    proof {
        assert(a@.subrange(0, a@.len() as int) =~= a@);
    }
    while i < a.len()
        invariant
            i <= a@.len(),
            r@ + seq_diff(a@.subrange(i as int, a@.len() as int), b@) == seq_diff(a@, b@),
        decreases a@.len() - i,
    {
        let ghost rest = a@.subrange(i as int, a@.len() as int);
        proof {
            assert(rest[0] == a@[i as int]);
            assert(rest.drop_first() =~= a@.subrange(i as int + 1, a@.len() as int));
        }
        if !contains_pair(b, a[i]) {
            r.push(a[i]);
        }
        i = i + 1;
        proof {
            assert(r@ + seq_diff(a@.subrange(i as int, a@.len() as int), b@) =~= seq_diff(a@, b@));
        }
    }
    proof {
        assert(a@.subrange(a@.len() as int, a@.len() as int) =~= Seq::<(i32, u64)>::empty());
        assert(r@ + Seq::<(i32, u64)>::empty() =~= r@);
    }
    r
}

// ---------------------------------------------------------------------
// The four implementations of the capability.
// ---------------------------------------------------------------------

impl NeuronIndex for NeuronSubaccountIndex {
    open spec fn index_inv(&self) -> bool {
        self.wf()
    }

    open spec fn add_ens(pre: Self, post: Self, new_neuron: Neuron, r: Result<
        (),
        NeuronIndexDefect,
    >) -> bool {
        &&& post.entries() == sub_add_map(pre.entries(), new_neuron)
        &&& match r {
            Ok(_) => !sub_add_fails(pre.entries(), new_neuron),
            Err(d) => sub_add_fails(pre.entries(), new_neuron) && is_subaccount_defect(
                d,
                subaccount_exists_reason(new_neuron.spec_subaccount()),
            ),
        }
    }

    open spec fn remove_ens(pre: Self, post: Self, existing_neuron: Neuron, r: Result<
        (),
        NeuronIndexDefect,
    >) -> bool {
        &&& post.entries() == sub_remove_map(pre.entries(), existing_neuron)
        &&& match r {
            Ok(_) => !sub_remove_fails(pre.entries(), existing_neuron),
            Err(d) => sub_remove_fails(pre.entries(), existing_neuron) && sub_remove_defect(
                pre.entries(),
                existing_neuron,
                d,
            ),
        }
    }

    open spec fn update_ens(pre: Self, post: Self, old_neuron: Neuron, new_neuron: Neuron, r:
        Result<(), Vec<NeuronIndexDefect>>) -> bool {
        &&& post.entries() == pre.entries()
        &&& r is Ok
    }

    fn add_neuron(&mut self, new_neuron: &Neuron) -> (r: Result<(), NeuronIndexDefect>) {
        let neuron_id = neuron_id_of(new_neuron);
        let subaccount = subaccount_of(new_neuron);
        match self.add_neuron_subaccount(neuron_id, &subaccount) {
            Ok(_) => Ok(()),
            Err(reason) => Err(NeuronIndexDefect::Subaccount { reason }),
        }
    }

    fn remove_neuron(&mut self, existing_neuron: &Neuron) -> (r: Result<(), NeuronIndexDefect>) {
        let neuron_id = neuron_id_of(existing_neuron);
        let subaccount = subaccount_of(existing_neuron);
        match self.remove_neuron_subaccount(neuron_id, &subaccount) {
            Ok(_) => Ok(()),
            Err(reason) => Err(NeuronIndexDefect::Subaccount { reason }),
        }
    }

    fn update_neuron(&mut self, old_neuron: &Neuron, new_neuron: &Neuron) -> (r: Result<
        (),
        Vec<NeuronIndexDefect>,
    >) {
        // The orchestrator has already checked that the subaccount did not
        // change, so there is nothing to transition.
        Ok(())
    }
}

impl NeuronIndex for StableNeuronPrincipalIndex {
    open spec fn index_inv(&self) -> bool {
        self.wf()
    }

    open spec fn add_ens(pre: Self, post: Self, new_neuron: Neuron, r: Result<
        (),
        NeuronIndexDefect,
    >) -> bool {
        &&& post.entries() == principals_add(
            pre.entries(),
            new_neuron.spec_principals(),
            new_neuron.spec_id(),
        )
        &&& match r {
            Ok(_) => !prin_add_fails(pre.entries(), new_neuron),
            Err(d) => prin_add_fails(pre.entries(), new_neuron) && is_principal_defect(
                d,
                principals_present_reason(
                    principals_add_already(
                        pre.entries(),
                        new_neuron.spec_principals(),
                        new_neuron.spec_id(),
                    ),
                    new_neuron.spec_id(),
                ),
            ),
        }
    }

    open spec fn remove_ens(pre: Self, post: Self, existing_neuron: Neuron, r: Result<
        (),
        NeuronIndexDefect,
    >) -> bool {
        &&& post.entries() == principals_remove(
            pre.entries(),
            existing_neuron.spec_principals(),
            existing_neuron.spec_id(),
        )
        &&& match r {
            Ok(_) => !prin_remove_fails(pre.entries(), existing_neuron),
            Err(d) => prin_remove_fails(pre.entries(), existing_neuron) && is_principal_defect(
                d,
                principals_absent_reason(
                    principals_remove_absent(
                        pre.entries(),
                        existing_neuron.spec_principals(),
                        existing_neuron.spec_id(),
                    ),
                    existing_neuron.spec_id(),
                ),
            ),
        }
    }

    open spec fn update_ens(pre: Self, post: Self, old_neuron: Neuron, new_neuron: Neuron, r:
        Result<(), Vec<NeuronIndexDefect>>) -> bool {
        let id = old_neuron.spec_id();
        let to_remove = seq_diff(old_neuron.spec_principals(), new_neuron.spec_principals());
        let to_add = seq_diff(new_neuron.spec_principals(), old_neuron.spec_principals());
        let mid = principals_remove(pre.entries(), to_remove, id);
        let rm_bad = principals_remove_absent(pre.entries(), to_remove, id).len() > 0;
        let ad_bad = principals_add_already(mid, to_add, id).len() > 0;
        &&& post.entries() == principals_add(mid, to_add, id)
        &&& match r {
            Ok(_) => !rm_bad && !ad_bad,
            Err(ds) => {
                &&& (rm_bad || ad_bad)
                &&& ds@.len() == opt_count(rm_bad) + opt_count(ad_bad)
                &&& (rm_bad ==> is_principal_defect(
                    ds@[0],
                    principals_absent_reason(
                        principals_remove_absent(pre.entries(), to_remove, id),
                        id,
                    ),
                ))
                &&& (ad_bad ==> is_principal_defect(
                    ds@[opt_count(rm_bad)],
                    principals_present_reason(principals_add_already(mid, to_add, id), id),
                ))
            },
        }
    }

    fn add_neuron(&mut self, new_neuron: &Neuron) -> (r: Result<(), NeuronIndexDefect>) {
        let neuron_id = neuron_id_of(new_neuron);
        let already_present = add_neuron_id_principal_ids(
            self,
            neuron_id.id,
            &new_neuron.principal_ids_with_special_permissions,
        );
        already_present_principal_ids_to_result(already_present, neuron_id.id)
    }

    fn remove_neuron(&mut self, existing_neuron: &Neuron) -> (r: Result<(), NeuronIndexDefect>) {
        let neuron_id = neuron_id_of(existing_neuron);
        let already_absent = remove_neuron_id_principal_ids(
            self,
            neuron_id.id,
            &existing_neuron.principal_ids_with_special_permissions,
        );
        already_absent_principal_ids_to_result(already_absent, neuron_id.id)
    }

    fn update_neuron(&mut self, old_neuron: &Neuron, new_neuron: &Neuron) -> (r: Result<
        (),
        Vec<NeuronIndexDefect>,
    >) {
        let neuron_id = neuron_id_of(old_neuron);
        // Set differences keep writes to the persistent segment minimal:
        // principals carried by both versions are never touched.
        let principal_ids_to_remove = principal_diff(
            &old_neuron.principal_ids_with_special_permissions,
            &new_neuron.principal_ids_with_special_permissions,
        );
        let already_absent = remove_neuron_id_principal_ids(
            self,
            neuron_id.id,
            &principal_ids_to_remove,
        );
        let principal_ids_to_add = principal_diff(
            &new_neuron.principal_ids_with_special_permissions,
            &old_neuron.principal_ids_with_special_permissions,
        );
        let already_present = add_neuron_id_principal_ids(self, neuron_id.id, &principal_ids_to_add);
        let defect_remove = already_absent_principal_ids_to_result(already_absent, neuron_id.id);
        let defect_add = already_present_principal_ids_to_result(already_present, neuron_id.id);
        combine_index_defects(defect_remove, defect_add)
    }
}

/// What adding a neuron means for either following-index variant.
pub open spec fn following_add_ens(
    pre: Map<(i32, u64), Seq<u64>>,
    post: Map<(i32, u64), Seq<u64>>,
    n: Neuron,
    r: Result<(), NeuronIndexDefect>,
) -> bool {
    &&& post == follows_add(pre, n.spec_pairs(), n.spec_id())
    &&& match r {
        Ok(_) => !fol_add_fails(pre, n),
        Err(d) => fol_add_fails(pre, n) && is_following_defect(
            d,
            pairs_present_reason(follows_add_already(pre, n.spec_pairs(), n.spec_id()), n.spec_id()),
        ),
    }
}

/// What removing a neuron means for either following-index variant.
pub open spec fn following_remove_ens(
    pre: Map<(i32, u64), Seq<u64>>,
    post: Map<(i32, u64), Seq<u64>>,
    n: Neuron,
    r: Result<(), NeuronIndexDefect>,
) -> bool {
    &&& post == follows_remove(pre, n.spec_pairs(), n.spec_id())
    &&& match r {
        Ok(_) => !fol_remove_fails(pre, n),
        Err(d) => fol_remove_fails(pre, n) && is_following_defect(
            d,
            pairs_absent_reason(
                follows_remove_absent(pre, n.spec_pairs(), n.spec_id()),
                n.spec_id(),
            ),
        ),
    }
}

/// What updating a neuron means for either following-index variant.
pub open spec fn following_update_ens(
    pre: Map<(i32, u64), Seq<u64>>,
    post: Map<(i32, u64), Seq<u64>>,
    old_n: Neuron,
    new_n: Neuron,
    r: Result<(), Vec<NeuronIndexDefect>>,
) -> bool {
    let id = old_n.spec_id();
    let to_remove = seq_diff(old_n.spec_pairs(), new_n.spec_pairs());
    let to_add = seq_diff(new_n.spec_pairs(), old_n.spec_pairs());
    let mid = follows_remove(pre, to_remove, id);
    let rm_bad = follows_remove_absent(pre, to_remove, id).len() > 0;
    let ad_bad = follows_add_already(mid, to_add, id).len() > 0;
    &&& post == follows_add(mid, to_add, id)
    &&& match r {
        Ok(_) => !rm_bad && !ad_bad,
        Err(ds) => {
            &&& (rm_bad || ad_bad)
            &&& ds@.len() == opt_count(rm_bad) + opt_count(ad_bad)
            &&& (rm_bad ==> is_following_defect(
                ds@[0],
                pairs_absent_reason(follows_remove_absent(pre, to_remove, id), id),
            ))
            &&& (ad_bad ==> is_following_defect(
                ds@[opt_count(rm_bad)],
                pairs_present_reason(follows_add_already(mid, to_add, id), id),
            ))
        },
    }
}

/// Adds the neuron's delegation pairs into either following-index variant.
pub fn following_index_add_neuron<I: NeuronFollowingIndex>(index: &mut I, new_neuron: &Neuron) -> (r:
    Result<(), NeuronIndexDefect>)
    requires
        old(index).inv(),
        index_ready(*new_neuron),
    ensures
        final(index).inv(),
        following_add_ens(
            old(index).pairs_view(),
            final(index).pairs_view(),
            *new_neuron,
            r,
        ),
{
    let neuron_id = neuron_id_of(new_neuron);
    let already_present = add_neuron_followees(
        index,
        neuron_id.id,
        &new_neuron.topic_followee_pairs,
    );
    already_present_topic_followee_pairs_to_result(already_present, neuron_id.id)
}

/// Removes the neuron's delegation pairs from either following-index
/// variant.
pub fn following_index_remove_neuron<I: NeuronFollowingIndex>(
    index: &mut I,
    existing_neuron: &Neuron,
) -> (r: Result<(), NeuronIndexDefect>)
    requires
        old(index).inv(),
        index_ready(*existing_neuron),
    ensures
        final(index).inv(),
        following_remove_ens(
            old(index).pairs_view(),
            final(index).pairs_view(),
            *existing_neuron,
            r,
        ),
{
    let neuron_id = neuron_id_of(existing_neuron);
    let already_absent = remove_neuron_followees(
        index,
        neuron_id.id,
        &existing_neuron.topic_followee_pairs,
    );
    already_absent_topic_followee_pairs_to_result(already_absent, neuron_id.id)
}

/// Transitions either following-index variant between two record versions,
/// removing the pairs only the old one carries and adding the pairs only
/// the new one carries.
pub fn following_index_update_neuron<I: NeuronFollowingIndex>(
    index: &mut I,
    old_neuron: &Neuron,
    new_neuron: &Neuron,
) -> (r: Result<(), Vec<NeuronIndexDefect>>)
    requires
        old(index).inv(),
        index_ready(*old_neuron),
        index_ready(*new_neuron),
        old_neuron.spec_id() == new_neuron.spec_id(),
    ensures
        final(index).inv(),
        following_update_ens(
            old(index).pairs_view(),
            final(index).pairs_view(),
            *old_neuron,
            *new_neuron,
            r,
        ),
{
    let neuron_id = neuron_id_of(old_neuron);
    // Set differences keep writes to the persistent segment minimal: pairs
    // carried by both versions are never touched.
    let topic_followee_pairs_to_remove = pair_diff(
        &old_neuron.topic_followee_pairs,
        &new_neuron.topic_followee_pairs,
    );
    let already_absent = remove_neuron_followees(
        index,
        neuron_id.id,
        &topic_followee_pairs_to_remove,
    );
    let topic_followee_pairs_to_add = pair_diff(
        &new_neuron.topic_followee_pairs,
        &old_neuron.topic_followee_pairs,
    );
    let already_present = add_neuron_followees(index, neuron_id.id, &topic_followee_pairs_to_add);
    let defect_remove = already_absent_topic_followee_pairs_to_result(already_absent, neuron_id.id);
    let defect_add = already_present_topic_followee_pairs_to_result(already_present, neuron_id.id);
    combine_index_defects(defect_remove, defect_add)
}

impl NeuronIndex for StableNeuronFollowingIndex {
    open spec fn index_inv(&self) -> bool {
        self.inv()
    }

    open spec fn add_ens(pre: Self, post: Self, new_neuron: Neuron, r: Result<
        (),
        NeuronIndexDefect,
    >) -> bool {
        following_add_ens(pre.pairs_view(), post.pairs_view(), new_neuron, r)
    }

    open spec fn remove_ens(pre: Self, post: Self, existing_neuron: Neuron, r: Result<
        (),
        NeuronIndexDefect,
    >) -> bool {
        following_remove_ens(pre.pairs_view(), post.pairs_view(), existing_neuron, r)
    }

    open spec fn update_ens(pre: Self, post: Self, old_neuron: Neuron, new_neuron: Neuron, r:
        Result<(), Vec<NeuronIndexDefect>>) -> bool {
        following_update_ens(pre.pairs_view(), post.pairs_view(), old_neuron, new_neuron, r)
    }

    fn add_neuron(&mut self, new_neuron: &Neuron) -> (r: Result<(), NeuronIndexDefect>) {
        following_index_add_neuron(self, new_neuron)
    }

    fn remove_neuron(&mut self, existing_neuron: &Neuron) -> (r: Result<(), NeuronIndexDefect>) {
        following_index_remove_neuron(self, existing_neuron)
    }

    fn update_neuron(&mut self, old_neuron: &Neuron, new_neuron: &Neuron) -> (r: Result<
        (),
        Vec<NeuronIndexDefect>,
    >) {
        following_index_update_neuron(self, old_neuron, new_neuron)
    }
}

impl NeuronIndex for HeapNeuronFollowingIndex {
    open spec fn index_inv(&self) -> bool {
        self.inv()
    }

    open spec fn add_ens(pre: Self, post: Self, new_neuron: Neuron, r: Result<
        (),
        NeuronIndexDefect,
    >) -> bool {
        following_add_ens(pre.pairs_view(), post.pairs_view(), new_neuron, r)
    }

    open spec fn remove_ens(pre: Self, post: Self, existing_neuron: Neuron, r: Result<
        (),
        NeuronIndexDefect,
    >) -> bool {
        following_remove_ens(pre.pairs_view(), post.pairs_view(), existing_neuron, r)
    }

    open spec fn update_ens(pre: Self, post: Self, old_neuron: Neuron, new_neuron: Neuron, r:
        Result<(), Vec<NeuronIndexDefect>>) -> bool {
        following_update_ens(pre.pairs_view(), post.pairs_view(), old_neuron, new_neuron, r)
    }

    fn add_neuron(&mut self, new_neuron: &Neuron) -> (r: Result<(), NeuronIndexDefect>) {
        following_index_add_neuron(self, new_neuron)
    }

    fn remove_neuron(&mut self, existing_neuron: &Neuron) -> (r: Result<(), NeuronIndexDefect>) {
        following_index_remove_neuron(self, existing_neuron)
    }

    fn update_neuron(&mut self, old_neuron: &Neuron, new_neuron: &Neuron) -> (r: Result<
        (),
        Vec<NeuronIndexDefect>,
    >) {
        following_index_update_neuron(self, old_neuron, new_neuron)
    }
}

impl NeuronIndex for KnownNeuronIndex {
    open spec fn index_inv(&self) -> bool {
        self.wf()
    }

    open spec fn add_ens(pre: Self, post: Self, new_neuron: Neuron, r: Result<
        (),
        NeuronIndexDefect,
    >) -> bool {
        &&& post.entries() == known_add_map(pre.entries(), new_neuron)
        &&& match r {
            Ok(_) => !known_add_fails(pre.entries(), new_neuron),
            Err(d) => known_add_fails(pre.entries(), new_neuron) && known_add_defect(
                pre.entries(),
                new_neuron,
                d,
            ),
        }
    }

    open spec fn remove_ens(pre: Self, post: Self, existing_neuron: Neuron, r: Result<
        (),
        NeuronIndexDefect,
    >) -> bool {
        &&& post.entries() == known_remove_map(pre.entries(), existing_neuron)
        &&& match r {
            Ok(_) => !known_remove_fails(pre.entries(), existing_neuron),
            Err(d) => known_remove_fails(pre.entries(), existing_neuron) && known_remove_defect(
                pre.entries(),
                existing_neuron,
                d,
            ),
        }
    }

    open spec fn update_ens(pre: Self, post: Self, old_neuron: Neuron, new_neuron: Neuron, r:
        Result<(), Vec<NeuronIndexDefect>>) -> bool {
        if old_neuron.spec_name() == new_neuron.spec_name() {
            &&& post.entries() == pre.entries()
            &&& r is Ok
        } else {
            let mid = known_remove_map(pre.entries(), old_neuron);
            let rm_bad = known_remove_fails(pre.entries(), old_neuron);
            let ad_bad = known_add_fails(mid, new_neuron);
            &&& post.entries() == known_add_map(mid, new_neuron)
            &&& match r {
                Ok(_) => !rm_bad && !ad_bad,
                Err(ds) => {
                    &&& (rm_bad || ad_bad)
                    &&& ds@.len() == opt_count(rm_bad) + opt_count(ad_bad)
                    &&& (rm_bad ==> known_remove_defect(pre.entries(), old_neuron, ds@[0]))
                    &&& (ad_bad ==> known_add_defect(mid, new_neuron, ds@[opt_count(rm_bad)]))
                },
            }
        }
    }

    fn add_neuron(&mut self, new_neuron: &Neuron) -> (r: Result<(), NeuronIndexDefect>) {
        let neuron_id = neuron_id_of(new_neuron);
        match &new_neuron.known_neuron_data {
            // This is fine. Only some (a small number) of neurons are
            // known.
            None => Ok(()),
            Some(known_neuron_data) => {
                match self.add_known_neuron(known_neuron_data.name.as_str(), neuron_id) {
                    Ok(_) => Ok(()),
                    Err(AddKnownNeuronError::AlreadyExists) => Err(
                        known_name_exists_defect(neuron_id.id, known_neuron_data.name.as_str()),
                    ),
                    Err(AddKnownNeuronError::ExceedsSizeLimit) => Err(
                        known_name_too_long_defect(neuron_id.id, known_neuron_data.name.as_str()),
                    ),
                }
            },
        }
    }

    fn remove_neuron(&mut self, existing_neuron: &Neuron) -> (r: Result<(), NeuronIndexDefect>) {
        let neuron_id = neuron_id_of(existing_neuron);
        match &existing_neuron.known_neuron_data {
            // This is fine. Only some (a small number) of neurons are
            // known.
            None => Ok(()),
            Some(known_neuron_data) => {
                match self.remove_known_neuron(known_neuron_data.name.as_str(), neuron_id) {
                    Ok(_) => Ok(()),
                    Err(RemoveKnownNeuronError::AlreadyAbsent) => Err(
                        known_name_absent_defect(known_neuron_data.name.as_str()),
                    ),
                    Err(RemoveKnownNeuronError::NameExistsWithDifferentNeuronId(other)) => Err(
                        known_name_mismatch_defect(known_neuron_data.name.as_str(), other.id),
                    ),
                }
            },
        }
    }

    fn update_neuron(&mut self, old_neuron: &Neuron, new_neuron: &Neuron) -> (r: Result<
        (),
        Vec<NeuronIndexDefect>,
    >) {
        let names_equal = match (&old_neuron.known_neuron_data, &new_neuron.known_neuron_data) {
            (None, None) => true,
            (Some(a), Some(b)) => a.name == b.name,
            _ => false,
        };
        // The comparison catches adding, removing and renaming a known
        // neuron alike.
        if names_equal {
            return Ok(());
        }
        // When any change is needed, removing and re-adding suffices.
        let defect_remove = self.remove_neuron(old_neuron);
        let defect_add = self.add_neuron(new_neuron);
        combine_index_defects(defect_remove, defect_add)
    }
}

// ---------------------------------------------------------------------
// The aggregate orchestrator.
// ---------------------------------------------------------------------

/// Whether adding the neuron produces a defect in any of the four indexes.
pub open spec fn add_any_fails(
    sub: Map<Seq<u8>, u64>,
    prin: Map<Seq<u8>, Seq<u64>>,
    fol: Map<(i32, u64), Seq<u64>>,
    known: Map<Seq<char>, u64>,
    n: Neuron,
) -> bool {
    ||| sub_add_fails(sub, n)
    ||| prin_add_fails(prin, n)
    ||| fol_add_fails(fol, n)
    ||| known_add_fails(known, n)
}

/// The defect list an add with defects reports: one defect per failing
/// index, in the fixed index order.
pub open spec fn add_defects_match(
    ds: Seq<NeuronIndexDefect>,
    sub: Map<Seq<u8>, u64>,
    prin: Map<Seq<u8>, Seq<u64>>,
    fol: Map<(i32, u64), Seq<u64>>,
    known: Map<Seq<char>, u64>,
    n: Neuron,
) -> bool {
    let s_bad = sub_add_fails(sub, n);
    let p_bad = prin_add_fails(prin, n);
    let f_bad = fol_add_fails(fol, n);
    let k_bad = known_add_fails(known, n);
    &&& ds.len() == opt_count(s_bad) + opt_count(p_bad) + opt_count(f_bad) + opt_count(k_bad)
    &&& (s_bad ==> is_subaccount_defect(ds[0], subaccount_exists_reason(n.spec_subaccount())))
    &&& (p_bad ==> is_principal_defect(
        ds[opt_count(s_bad)],
        principals_present_reason(
            principals_add_already(prin, n.spec_principals(), n.spec_id()),
            n.spec_id(),
        ),
    ))
    &&& (f_bad ==> is_following_defect(
        ds[opt_count(s_bad) + opt_count(p_bad)],
        pairs_present_reason(
            follows_add_already(fol, n.spec_pairs(), n.spec_id()),
            n.spec_id(),
        ),
    ))
    &&& (k_bad ==> known_add_defect(
        known,
        n,
        ds[opt_count(s_bad) + opt_count(p_bad) + opt_count(f_bad)],
    ))
}

/// Whether removing the neuron produces a defect in any of the four
/// indexes.
pub open spec fn remove_any_fails(
    sub: Map<Seq<u8>, u64>,
    prin: Map<Seq<u8>, Seq<u64>>,
    fol: Map<(i32, u64), Seq<u64>>,
    known: Map<Seq<char>, u64>,
    n: Neuron,
) -> bool {
    ||| sub_remove_fails(sub, n)
    ||| prin_remove_fails(prin, n)
    ||| fol_remove_fails(fol, n)
    ||| known_remove_fails(known, n)
}

/// The defect list a removal with defects reports: one defect per failing
/// index, in the fixed index order.
pub open spec fn remove_defects_match(
    ds: Seq<NeuronIndexDefect>,
    sub: Map<Seq<u8>, u64>,
    prin: Map<Seq<u8>, Seq<u64>>,
    fol: Map<(i32, u64), Seq<u64>>,
    known: Map<Seq<char>, u64>,
    n: Neuron,
) -> bool {
    let s_bad = sub_remove_fails(sub, n);
    let p_bad = prin_remove_fails(prin, n);
    let f_bad = fol_remove_fails(fol, n);
    let k_bad = known_remove_fails(known, n);
    &&& ds.len() == opt_count(s_bad) + opt_count(p_bad) + opt_count(f_bad) + opt_count(k_bad)
    &&& (s_bad ==> sub_remove_defect(sub, n, ds[0]))
    &&& (p_bad ==> is_principal_defect(
        ds[opt_count(s_bad)],
        principals_absent_reason(
            principals_remove_absent(prin, n.spec_principals(), n.spec_id()),
            n.spec_id(),
        ),
    ))
    &&& (f_bad ==> is_following_defect(
        ds[opt_count(s_bad) + opt_count(p_bad)],
        pairs_absent_reason(
            follows_remove_absent(fol, n.spec_pairs(), n.spec_id()),
            n.spec_id(),
        ),
    ))
    &&& (k_bad ==> known_remove_defect(
        known,
        n,
        ds[opt_count(s_bad) + opt_count(p_bad) + opt_count(f_bad)],
    ))
}

/// Whether updating between the two versions produces a defect in any of
/// the four indexes.
pub open spec fn update_any_fails(
    prin: Map<Seq<u8>, Seq<u64>>,
    fol: Map<(i32, u64), Seq<u64>>,
    known: Map<Seq<char>, u64>,
    old_n: Neuron,
    new_n: Neuron,
) -> bool {
    let id = old_n.spec_id();
    let p_rm = seq_diff(old_n.spec_principals(), new_n.spec_principals());
    let p_ad = seq_diff(new_n.spec_principals(), old_n.spec_principals());
    let f_rm = seq_diff(old_n.spec_pairs(), new_n.spec_pairs());
    let f_ad = seq_diff(new_n.spec_pairs(), old_n.spec_pairs());
    let names_differ = old_n.spec_name() != new_n.spec_name();
    ||| principals_remove_absent(prin, p_rm, id).len() > 0
    ||| principals_add_already(principals_remove(prin, p_rm, id), p_ad, id).len() > 0
    ||| follows_remove_absent(fol, f_rm, id).len() > 0
    ||| follows_add_already(follows_remove(fol, f_rm, id), f_ad, id).len() > 0
    ||| (names_differ && known_remove_fails(known, old_n))
    ||| (names_differ && known_add_fails(known_remove_map(known, old_n), new_n))
}

/// The defect list an update with defects reports: up to two defects per
/// index — the removal half first, then the addition half — in the fixed
/// index order. The subaccount index never contributes: the orchestrator
/// has already checked that the subaccount is unchanged.
pub open spec fn update_defects_match(
    ds: Seq<NeuronIndexDefect>,
    prin: Map<Seq<u8>, Seq<u64>>,
    fol: Map<(i32, u64), Seq<u64>>,
    known: Map<Seq<char>, u64>,
    old_n: Neuron,
    new_n: Neuron,
) -> bool {
    let id = old_n.spec_id();
    let p_rm = seq_diff(old_n.spec_principals(), new_n.spec_principals());
    let p_ad = seq_diff(new_n.spec_principals(), old_n.spec_principals());
    let p_rm_bad = principals_remove_absent(prin, p_rm, id).len() > 0;
    let p_ad_bad = principals_add_already(principals_remove(prin, p_rm, id), p_ad, id).len() > 0;
    let f_rm = seq_diff(old_n.spec_pairs(), new_n.spec_pairs());
    let f_ad = seq_diff(new_n.spec_pairs(), old_n.spec_pairs());
    let f_rm_bad = follows_remove_absent(fol, f_rm, id).len() > 0;
    let f_ad_bad = follows_add_already(follows_remove(fol, f_rm, id), f_ad, id).len() > 0;
    let names_differ = old_n.spec_name() != new_n.spec_name();
    let k_mid = known_remove_map(known, old_n);
    let k_rm_bad = names_differ && known_remove_fails(known, old_n);
    let k_ad_bad = names_differ && known_add_fails(k_mid, new_n);
    let f_off = opt_count(p_rm_bad) + opt_count(p_ad_bad);
    let k_off = f_off + opt_count(f_rm_bad) + opt_count(f_ad_bad);
    &&& ds.len() == k_off + opt_count(k_rm_bad) + opt_count(k_ad_bad)
    &&& (p_rm_bad ==> is_principal_defect(
        ds[0],
        principals_absent_reason(principals_remove_absent(prin, p_rm, id), id),
    ))
    &&& (p_ad_bad ==> is_principal_defect(
        ds[opt_count(p_rm_bad)],
        principals_present_reason(
            principals_add_already(principals_remove(prin, p_rm, id), p_ad, id),
            id,
        ),
    ))
    &&& (f_rm_bad ==> is_following_defect(
        ds[f_off],
        pairs_absent_reason(follows_remove_absent(fol, f_rm, id), id),
    ))
    &&& (f_ad_bad ==> is_following_defect(
        ds[f_off + opt_count(f_rm_bad)],
        pairs_present_reason(
            follows_add_already(follows_remove(fol, f_rm, id), f_ad, id),
            id,
        ),
    ))
    &&& (k_rm_bad ==> known_remove_defect(known, old_n, ds[k_off]))
    &&& (k_ad_bad ==> known_add_defect(k_mid, new_n, ds[k_off + opt_count(k_rm_bad)]))
}

/// Neuron indexes based on stable storage, with the orchestrator's
/// validation gate and fan-out.
pub struct StableNeuronIndexes {
    subaccount: NeuronSubaccountIndex,
    principal: StableNeuronPrincipalIndex,
    following: StableNeuronFollowingIndex,
    known_neuron: KnownNeuronIndex,
}

// Because many segments are needed to construct a StableNeuronIndexes,
// there is no natural argument order a constructor could follow; naming
// each segment prevents wiring one to the wrong index.
pub struct StableNeuronIndexesBuilder {
    pub subaccount: VectorMemory,
    pub principal: VectorMemory,
    pub following: VectorMemory,
    pub known_neuron: VectorMemory,
}

impl StableNeuronIndexesBuilder {
    /// Assembles an orchestrator whose four indexes start empty, each on
    /// its own segment.
    pub fn build(self) -> (indexes: StableNeuronIndexes)
        ensures
            indexes.inv(),
            indexes.subaccount_view() == Map::<Seq<u8>, u64>::empty(),
            indexes.principal_view() == Map::<Seq<u8>, Seq<u64>>::empty(),
            indexes.following_view() == Map::<(i32, u64), Seq<u64>>::empty(),
            indexes.known_neuron_view() == Map::<Seq<char>, u64>::empty(),
    {
        let StableNeuronIndexesBuilder { subaccount, principal, following, known_neuron } = self;
        StableNeuronIndexes {
            subaccount: NeuronSubaccountIndex::new(subaccount),
            principal: StableNeuronPrincipalIndex::new(principal),
            following: StableNeuronFollowingIndex::new(following),
            known_neuron: KnownNeuronIndex::new(known_neuron),
        }
    }
}

/// Builds an orchestrator over ephemeral in-memory segments, for tests and
/// non-persistent deployments.
pub fn new_heap_based() -> (indexes: StableNeuronIndexes)
    ensures
        indexes.inv(),
        indexes.subaccount_view() == Map::<Seq<u8>, u64>::empty(),
        indexes.principal_view() == Map::<Seq<u8>, Seq<u64>>::empty(),
        indexes.following_view() == Map::<(i32, u64), Seq<u64>>::empty(),
        indexes.known_neuron_view() == Map::<Seq<char>, u64>::empty(),
{
    StableNeuronIndexesBuilder {
        subaccount: crate::storage::new_vector_memory(),
        principal: crate::storage::new_vector_memory(),
        following: crate::storage::new_vector_memory(),
        known_neuron: crate::storage::new_vector_memory(),
    }.build()
}

/// Checks that the neuron has an id and a derivable subaccount; index
/// updates assume both.
pub fn validate_neuron(neuron: &Neuron) -> (r: Result<(), NeuronStoreError>)
    ensures
        match r {
            Ok(_) => has_id(*neuron) && neuron.has_valid_subaccount(),
            Err(e) => match e {
                NeuronStoreError::NeuronIdIsNone => !has_id(*neuron),
                NeuronStoreError::InvalidSubaccount { neuron_id, subaccount_bytes } => has_id(
                    *neuron,
                ) && !neuron.has_valid_subaccount() && neuron_id.id == neuron.spec_id()
                    && subaccount_bytes@ == neuron.account@,
                _ => false,
            },
        },
{
    let neuron_id = match neuron.id {
        Some(x) => x,
        None => {
            return Err(NeuronStoreError::NeuronIdIsNone);
        },
    };
    match neuron.subaccount() {
        Ok(_) => Ok(()),
        Err(_) => Err(NeuronStoreError::invalid_subaccount(neuron_id, neuron.account.clone())),
    }
}

impl StableNeuronIndexes {
    /// What the subaccount index holds.
    pub closed spec fn subaccount_view(self) -> Map<Seq<u8>, u64> {
        self.subaccount.entries()
    }

    /// What the principal index holds.
    pub closed spec fn principal_view(self) -> Map<Seq<u8>, Seq<u64>> {
        self.principal.entries()
    }

    /// What the following index holds.
    pub closed spec fn following_view(self) -> Map<(i32, u64), Seq<u64>> {
        self.following.pairs_view()
    }

    /// What the known-name index holds.
    pub closed spec fn known_neuron_view(self) -> Map<Seq<char>, u64> {
        self.known_neuron.entries()
    }

    /// All four indexes are internally consistent.
    pub closed spec fn inv(self) -> bool {
        &&& self.subaccount.wf()
        &&& self.principal.wf()
        &&& self.following.inv()
        &&& self.known_neuron.wf()
    }

    /// Whether nothing changed between two states.
    pub open spec fn unchanged(self, other: Self) -> bool {
        &&& other.subaccount_view() == self.subaccount_view()
        &&& other.principal_view() == self.principal_view()
        &&& other.following_view() == self.following_view()
        &&& other.known_neuron_view() == self.known_neuron_view()
    }

    /// Adds a neuron into all four indexes, in the fixed order. A defect
    /// from an earlier index never skips a later one; defects are bundled
    /// into one corruption report, since there is no good way to recover
    /// and accuracy is best served by attempting every index.
    pub fn add_neuron(&mut self, new_neuron: &Neuron) -> (r: Result<(), NeuronStoreError>)
        requires
            old(self).inv(),
            new_neuron.wf(),
            name_fits(*new_neuron),
        ensures
            final(self).inv(),
            ({
                let n = *new_neuron;
                if !has_id(n) {
                    &&& old(self).unchanged(*final(self))
                    &&& r == Err::<(), NeuronStoreError>(NeuronStoreError::NeuronIdIsNone)
                } else if !n.has_valid_subaccount() {
                    &&& old(self).unchanged(*final(self))
                    &&& match r {
                        Err(NeuronStoreError::InvalidSubaccount { neuron_id, subaccount_bytes }) => {
                            neuron_id.id == n.spec_id() && subaccount_bytes@ == n.account@
                        },
                        _ => false,
                    }
                } else {
                    &&& final(self).subaccount_view() == sub_add_map(old(self).subaccount_view(), n)
                    &&& final(self).principal_view() == principals_add(
                        old(self).principal_view(),
                        n.spec_principals(),
                        n.spec_id(),
                    )
                    &&& final(self).following_view() == follows_add(
                        old(self).following_view(),
                        n.spec_pairs(),
                        n.spec_id(),
                    )
                    &&& final(self).known_neuron_view() == known_add_map(
                        old(self).known_neuron_view(),
                        n,
                    )
                    &&& match r {
                        Ok(_) => !add_any_fails(
                            old(self).subaccount_view(),
                            old(self).principal_view(),
                            old(self).following_view(),
                            old(self).known_neuron_view(),
                            n,
                        ),
                        Err(NeuronStoreError::CorruptedNeuronIndexes(c)) => {
                            &&& add_any_fails(
                                old(self).subaccount_view(),
                                old(self).principal_view(),
                                old(self).following_view(),
                                old(self).known_neuron_view(),
                                n,
                            )
                            &&& c.neuron_id == n.spec_id()
                            &&& add_defects_match(
                                c.indexes@,
                                old(self).subaccount_view(),
                                old(self).principal_view(),
                                old(self).following_view(),
                                old(self).known_neuron_view(),
                                n,
                            )
                        },
                        _ => false,
                    }
                }
            }),
    {
        match validate_neuron(new_neuron) {
            Err(e) => {
                return Err(e);
            },
            Ok(_) => {},
        }
        let mut defects: Vec<NeuronIndexDefect> = Vec::new();
        match self.subaccount.add_neuron(new_neuron) {
            Ok(_) => {},
            Err(defect) => defects.push(defect),
        }
        match self.principal.add_neuron(new_neuron) {
            Ok(_) => {},
            Err(defect) => defects.push(defect),
        }
        match self.following.add_neuron(new_neuron) {
            Ok(_) => {},
            Err(defect) => defects.push(defect),
        }
        match self.known_neuron.add_neuron(new_neuron) {
            Ok(_) => {},
            Err(defect) => defects.push(defect),
        }
        let neuron_id = neuron_id_of(new_neuron);
        if defects.len() == 0 {
            Ok(())
        } else {
            Err(
                NeuronStoreError::CorruptedNeuronIndexes(
                    CorruptedNeuronIndexes { neuron_id: neuron_id.id, indexes: defects },
                ),
            )
        }
    }

    /// Removes a neuron from all four indexes, in the fixed order, with
    /// the same best-effort policy as `add_neuron`.
    pub fn remove_neuron(&mut self, existing_neuron: &Neuron) -> (r: Result<(), NeuronStoreError>)
        requires
            old(self).inv(),
            existing_neuron.wf(),
            name_fits(*existing_neuron),
        ensures
            final(self).inv(),
            ({
                let n = *existing_neuron;
                if !has_id(n) {
                    &&& old(self).unchanged(*final(self))
                    &&& r == Err::<(), NeuronStoreError>(NeuronStoreError::NeuronIdIsNone)
                } else if !n.has_valid_subaccount() {
                    &&& old(self).unchanged(*final(self))
                    &&& match r {
                        Err(NeuronStoreError::InvalidSubaccount { neuron_id, subaccount_bytes }) => {
                            neuron_id.id == n.spec_id() && subaccount_bytes@ == n.account@
                        },
                        _ => false,
                    }
                } else {
                    &&& final(self).subaccount_view() == sub_remove_map(
                        old(self).subaccount_view(),
                        n,
                    )
                    &&& final(self).principal_view() == principals_remove(
                        old(self).principal_view(),
                        n.spec_principals(),
                        n.spec_id(),
                    )
                    &&& final(self).following_view() == follows_remove(
                        old(self).following_view(),
                        n.spec_pairs(),
                        n.spec_id(),
                    )
                    &&& final(self).known_neuron_view() == known_remove_map(
                        old(self).known_neuron_view(),
                        n,
                    )
                    &&& match r {
                        Ok(_) => !remove_any_fails(
                            old(self).subaccount_view(),
                            old(self).principal_view(),
                            old(self).following_view(),
                            old(self).known_neuron_view(),
                            n,
                        ),
                        Err(NeuronStoreError::CorruptedNeuronIndexes(c)) => {
                            &&& remove_any_fails(
                                old(self).subaccount_view(),
                                old(self).principal_view(),
                                old(self).following_view(),
                                old(self).known_neuron_view(),
                                n,
                            )
                            &&& c.neuron_id == n.spec_id()
                            &&& remove_defects_match(
                                c.indexes@,
                                old(self).subaccount_view(),
                                old(self).principal_view(),
                                old(self).following_view(),
                                old(self).known_neuron_view(),
                                n,
                            )
                        },
                        _ => false,
                    }
                }
            }),
    {
        match validate_neuron(existing_neuron) {
            Err(e) => {
                return Err(e);
            },
            Ok(_) => {},
        }
        let mut defects: Vec<NeuronIndexDefect> = Vec::new();
        match self.subaccount.remove_neuron(existing_neuron) {
            Ok(_) => {},
            Err(defect) => defects.push(defect),
        }
        match self.principal.remove_neuron(existing_neuron) {
            Ok(_) => {},
            Err(defect) => defects.push(defect),
        }
        match self.following.remove_neuron(existing_neuron) {
            Ok(_) => {},
            Err(defect) => defects.push(defect),
        }
        match self.known_neuron.remove_neuron(existing_neuron) {
            Ok(_) => {},
            Err(defect) => defects.push(defect),
        }
        let neuron_id = neuron_id_of(existing_neuron);
        if defects.len() == 0 {
            Ok(())
        } else {
            Err(
                NeuronStoreError::CorruptedNeuronIndexes(
                    CorruptedNeuronIndexes { neuron_id: neuron_id.id, indexes: defects },
                ),
            )
        }
    }

    /// Updates a neuron between two versions. Both must validate, carry
    /// the same id and the same subaccount; any violation returns before
    /// any index is touched, because proceeding would corrupt every index
    /// at once. Afterwards all four indexes are attempted regardless of
    /// defects.
    pub fn update_neuron(&mut self, old_neuron: &Neuron, new_neuron: &Neuron) -> (r: Result<
        (),
        NeuronStoreError,
    >)
        requires
            old(self).inv(),
            old_neuron.wf(),
            new_neuron.wf(),
            name_fits(*old_neuron),
            name_fits(*new_neuron),
        ensures
            final(self).inv(),
            ({
                let o = *old_neuron;
                let n = *new_neuron;
                if !has_id(o) {
                    &&& old(self).unchanged(*final(self))
                    &&& r == Err::<(), NeuronStoreError>(NeuronStoreError::NeuronIdIsNone)
                } else if !o.has_valid_subaccount() {
                    &&& old(self).unchanged(*final(self))
                    &&& match r {
                        Err(NeuronStoreError::InvalidSubaccount { neuron_id, subaccount_bytes }) => {
                            neuron_id.id == o.spec_id() && subaccount_bytes@ == o.account@
                        },
                        _ => false,
                    }
                } else if !has_id(n) {
                    &&& old(self).unchanged(*final(self))
                    &&& r == Err::<(), NeuronStoreError>(NeuronStoreError::NeuronIdIsNone)
                } else if !n.has_valid_subaccount() {
                    &&& old(self).unchanged(*final(self))
                    &&& match r {
                        Err(NeuronStoreError::InvalidSubaccount { neuron_id, subaccount_bytes }) => {
                            neuron_id.id == n.spec_id() && subaccount_bytes@ == n.account@
                        },
                        _ => false,
                    }
                } else if o.spec_id() != n.spec_id() {
                    &&& old(self).unchanged(*final(self))
                    &&& match r {
                        Err(NeuronStoreError::NeuronIdModified { old_neuron_id, new_neuron_id }) => {
                            old_neuron_id.id == o.spec_id() && new_neuron_id.id == n.spec_id()
                        },
                        _ => false,
                    }
                } else if o.spec_subaccount() != n.spec_subaccount() {
                    &&& old(self).unchanged(*final(self))
                    &&& match r {
                        Err(NeuronStoreError::SubaccountModified { old_subaccount, new_subaccount }) => {
                            old_subaccount@ == o.spec_subaccount() && new_subaccount@
                                == n.spec_subaccount()
                        },
                        _ => false,
                    }
                } else {
                    let id = o.spec_id();
                    let p_rm = seq_diff(o.spec_principals(), n.spec_principals());
                    let p_ad = seq_diff(n.spec_principals(), o.spec_principals());
                    let f_rm = seq_diff(o.spec_pairs(), n.spec_pairs());
                    let f_ad = seq_diff(n.spec_pairs(), o.spec_pairs());
                    &&& final(self).subaccount_view() == old(self).subaccount_view()
                    &&& final(self).principal_view() == principals_add(
                        principals_remove(old(self).principal_view(), p_rm, id),
                        p_ad,
                        id,
                    )
                    &&& final(self).following_view() == follows_add(
                        follows_remove(old(self).following_view(), f_rm, id),
                        f_ad,
                        id,
                    )
                    &&& final(self).known_neuron_view() == known_update_map(
                        old(self).known_neuron_view(),
                        o,
                        n,
                    )
                    &&& match r {
                        Ok(_) => !update_any_fails(
                            old(self).principal_view(),
                            old(self).following_view(),
                            old(self).known_neuron_view(),
                            o,
                            n,
                        ),
                        Err(NeuronStoreError::CorruptedNeuronIndexes(c)) => {
                            &&& update_any_fails(
                                old(self).principal_view(),
                                old(self).following_view(),
                                old(self).known_neuron_view(),
                                o,
                                n,
                            )
                            &&& c.neuron_id == o.spec_id()
                            &&& update_defects_match(
                                c.indexes@,
                                old(self).principal_view(),
                                old(self).following_view(),
                                old(self).known_neuron_view(),
                                o,
                                n,
                            )
                        },
                        _ => false,
                    }
                }
            }),
    {
        match validate_neuron(old_neuron) {
            Err(e) => {
                return Err(e);
            },
            Ok(_) => {},
        }
        match validate_neuron(new_neuron) {
            Err(e) => {
                return Err(e);
            },
            Ok(_) => {},
        }
        let old_neuron_id = neuron_id_of(old_neuron);
        let new_neuron_id = neuron_id_of(new_neuron);
        if old_neuron_id != new_neuron_id {
            return Err(NeuronStoreError::neuron_id_modified(old_neuron_id, new_neuron_id));
        }
        let old_subaccount = subaccount_of(old_neuron);
        let new_subaccount = subaccount_of(new_neuron);
        // Although only the subaccount index cares, an invalid account
        // change must stop every index update before any one happens.
        if !bytes_eq(&old_subaccount.bytes, &new_subaccount.bytes) {
            return Err(NeuronStoreError::subaccount_modified(old_subaccount, new_subaccount));
        }
        let mut defects: Vec<NeuronIndexDefect> = Vec::new();
        match self.subaccount.update_neuron(old_neuron, new_neuron) {
            Ok(_) => {},
            Err(mut ds) => defects.append(&mut ds),
        }
        match self.principal.update_neuron(old_neuron, new_neuron) {
            Ok(_) => {},
            Err(mut ds) => defects.append(&mut ds),
        }
        match self.following.update_neuron(old_neuron, new_neuron) {
            Ok(_) => {},
            Err(mut ds) => defects.append(&mut ds),
        }
        match self.known_neuron.update_neuron(old_neuron, new_neuron) {
            Ok(_) => {},
            Err(mut ds) => defects.append(&mut ds),
        }
        if defects.len() == 0 {
            Ok(())
        } else {
            Err(
                NeuronStoreError::CorruptedNeuronIndexes(
                    CorruptedNeuronIndexes { neuron_id: old_neuron_id.id, indexes: defects },
                ),
            )
        }
    }

    /// A consistent orchestrator's principal and following views store no
    /// empty list — the hypothesis under which the library's round-trip
    /// law applies to its states.
    pub proof fn lemma_views_lists_wf(self)
        requires
            self.inv(),
        ensures
            crate::multimap::lists_wf(self.principal_view()),
            crate::multimap::lists_wf(self.following_view()),
    {
        crate::principal_index::lemma_wf_implies_lists_wf(self.principal);
        crate::following_index::lemma_stable_inv_implies_lists_wf(self.following);
    }

    // It is fine to expose read-only access to each index.

    /// The subaccount index, for queries.
    pub fn subaccount(&self) -> (index: &NeuronSubaccountIndex)
        requires
            self.inv(),
        ensures
            index.wf(),
            index.entries() == self.subaccount_view(),
    {
        &self.subaccount
    }

    /// The principal index, for queries.
    pub fn principal(&self) -> (index: &StableNeuronPrincipalIndex)
        requires
            self.inv(),
        ensures
            index.wf(),
            index.entries() == self.principal_view(),
    {
        &self.principal
    }

    /// The following index, for queries.
    pub fn following(&self) -> (index: &StableNeuronFollowingIndex)
        requires
            self.inv(),
        ensures
            index.inv(),
            index.pairs_view() == self.following_view(),
    {
        &self.following
    }

    /// The known-name index, for queries.
    pub fn known_neuron(&self) -> (index: &KnownNeuronIndex)
        requires
            self.inv(),
        ensures
            index.wf(),
            index.entries() == self.known_neuron_view(),
    {
        &self.known_neuron
    }
}

} // verus!
