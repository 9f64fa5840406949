//! The principal index: a many-to-many mapping from a principal to the
//! neurons that grant it special permissions.

use vstd::prelude::*;
use ic_stable_structures::VectorMemory;
use crate::codec::{contains_u64, decode_id_vec, decode_ids, encode_id_vec,
    lemma_remove_first_unique, remove_first_u64, unique_ids};
use crate::neuron::PrincipalId;
use crate::storage::{byte_map_get, byte_map_insert, byte_map_new, byte_map_remove, byte_map_view,
    ByteMap};

verus! {

/// The id list recorded for a key, or the empty list where none is.
pub open spec fn ids_of(m: Map<Seq<u8>, Seq<u64>>, k: Seq<u8>) -> Seq<u64> {
    crate::multimap::ids_of(m, k)
}

/// One principal granted to one neuron: appends the id to the principal's
/// list unless it is already there.
pub open spec fn principal_add1(m: Map<Seq<u8>, Seq<u64>>, p: Seq<u8>, id: u64) -> Map<
    Seq<u8>,
    Seq<u64>,
> {
    crate::multimap::list_add1(m, p, id)
}

/// One principal revoked from one neuron: drops the id from the principal's
/// list, and the whole entry once the list is empty.
pub open spec fn principal_remove1(m: Map<Seq<u8>, Seq<u64>>, p: Seq<u8>, id: u64) -> Map<
    Seq<u8>,
    Seq<u64>,
> {
    crate::multimap::list_remove1(m, p, id)
}

/// Grants every principal in the list to the neuron, in order.
pub open spec fn principals_add(m: Map<Seq<u8>, Seq<u64>>, ps: Seq<Seq<u8>>, id: u64) -> Map<
    Seq<u8>,
    Seq<u64>,
>
{
    crate::multimap::list_add_all(m, ps, id)
}

/// The principals that already carried the neuron when granting the list in
/// order.
pub open spec fn principals_add_already(m: Map<Seq<u8>, Seq<u64>>, ps: Seq<Seq<u8>>, id: u64) -> Seq<
    Seq<u8>,
>
{
    crate::multimap::list_add_already(m, ps, id)
}

/// Revokes every principal in the list from the neuron, in order.
pub open spec fn principals_remove(m: Map<Seq<u8>, Seq<u64>>, ps: Seq<Seq<u8>>, id: u64) -> Map<
    Seq<u8>,
    Seq<u64>,
>
{
    crate::multimap::list_remove_all(m, ps, id)
}

/// The principals that did not carry the neuron when revoking the list in
/// order.
pub open spec fn principals_remove_absent(
    m: Map<Seq<u8>, Seq<u64>>,
    ps: Seq<Seq<u8>>,
    id: u64,
) -> Seq<Seq<u8>> {
    crate::multimap::list_remove_absent(m, ps, id)
}

/// Maps each principal to the list of neuron ids that grant it special
/// permissions.
pub struct StableNeuronPrincipalIndex {
    map: ByteMap,
}

impl StableNeuronPrincipalIndex {
    /// The mapping this index answers queries from: principal bytes to the
    /// ids of the neurons granting it permissions, in insertion order.
    pub closed spec fn entries(self) -> Map<Seq<u8>, Seq<u64>> {
        byte_map_view(self.map).map_values(|v: Seq<u8>| decode_ids(v))
    }

    /// Every stored list is a non-empty, duplicate-free, eight-byte-aligned
    /// id list.
    pub closed spec fn wf(self) -> bool {
        forall|k: Seq<u8>| #[trigger]
            byte_map_view(self.map).contains_key(k) ==> byte_map_view(self.map)[k].len() % 8 == 0
                && decode_ids(byte_map_view(self.map)[k]).len() > 0 && unique_ids(
                decode_ids(byte_map_view(self.map)[k]),
            )
    }

    /// Creates an empty index on the given segment.
    pub fn new(memory: VectorMemory) -> (index: Self)
        ensures
            index.wf(),
            index.entries() == Map::<Seq<u8>, Seq<u64>>::empty(),
    {
        let index = StableNeuronPrincipalIndex { map: byte_map_new(memory) };
        proof {
            assert(index.entries() =~= Map::<Seq<u8>, Seq<u64>>::empty());
        }
        index
    }

    /// Records that the principal has special permissions on the neuron.
    /// Returns false, and changes nothing, when that was already recorded.
    pub fn add_neuron_id_principal_id(&mut self, neuron_id: u64, principal: &PrincipalId) -> (added:
        bool)
        requires
            old(self).wf(),
        ensures
            final(self).wf(),
            final(self).entries() == principal_add1(old(self).entries(), principal@, neuron_id),
            added == !ids_of(old(self).entries(), principal@).contains(neuron_id),
    {
        let key = principal.bytes.clone();
        match byte_map_get(&self.map, &key) {
            None => {
                let mut ids: Vec<u64> = Vec::new();
                ids.push(neuron_id);
                let value = encode_id_vec(&ids);
                byte_map_insert(&mut self.map, key, value);
                proof {
                    assert(ids@ =~= Seq::<u64>::empty().push(neuron_id));
                    assert(self.entries() =~= principal_add1(
                        old(self).entries(),
                        principal@,
                        neuron_id,
                    ));
                }
                true
            },
            Some(value) => {
                let mut ids = decode_id_vec(&value);
                if contains_u64(&ids, neuron_id) {
                    false
                } else {
                    ids.push(neuron_id);
                    let value2 = encode_id_vec(&ids);
                    byte_map_insert(&mut self.map, key, value2);
                    proof {
                        assert(self.entries() =~= principal_add1(
                            old(self).entries(),
                            principal@,
                            neuron_id,
                        ));
                    }
                    true
                }
            },
        }
    }

    /// Deletes the record that the principal has special permissions on the
    /// neuron. Returns false, and changes nothing, when no such record
    /// exists.
    pub fn remove_neuron_id_principal_id(
        &mut self,
        neuron_id: u64,
        principal: &PrincipalId,
    ) -> (removed: bool)
        requires
            old(self).wf(),
        ensures
            final(self).wf(),
            final(self).entries() == principal_remove1(old(self).entries(), principal@, neuron_id),
            removed == ids_of(old(self).entries(), principal@).contains(neuron_id),
    {
        let key = principal.bytes.clone();
        match byte_map_get(&self.map, &key) {
            None => false,
            Some(value) => {
                let mut ids = decode_id_vec(&value);
                let removed = remove_first_u64(&mut ids, neuron_id);
                if !removed {
                    false
                } else {
                    proof {
                        lemma_remove_first_unique(
                            decode_ids(value@),
                            neuron_id,
                        );
                    }
                    if ids.len() == 0 {
                        byte_map_remove(&mut self.map, &key);
                        proof {
                            assert(self.entries() =~= principal_remove1(
                                old(self).entries(),
                                principal@,
                                neuron_id,
                            ));
                        }
                    } else {
                        let value2 = encode_id_vec(&ids);
                        byte_map_insert(&mut self.map, key, value2);
                        proof {
                            assert(self.entries() =~= principal_remove1(
                                old(self).entries(),
                                principal@,
                                neuron_id,
                            ));
                        }
                    }
                    true
                }
            },
        }
    }

    /// The ids of the neurons granting the principal special permissions,
    /// in insertion order.
    pub fn get_neuron_ids(&self, principal: &PrincipalId) -> (ids: Vec<u64>)
        requires
            self.wf(),
        ensures
            ids@ == ids_of(self.entries(), principal@),
    {
        let key = principal.bytes.clone();
        match byte_map_get(&self.map, &key) {
            Some(value) => decode_id_vec(&value),
            None => Vec::new(),
        }
    }
}

/// A well-formed principal index never stores an empty neuron list; this
/// is the shape the library's round-trip law assumes of its views.
pub proof fn lemma_wf_implies_lists_wf(index: StableNeuronPrincipalIndex)
    requires
        index.wf(),
    ensures
        crate::multimap::lists_wf(index.entries()),
{
    assert forall|k: Seq<u8>| #[trigger] index.entries().contains_key(k) implies index.entries()[
        k
    ].len() > 0 by {
        assert(byte_map_view(index.map).contains_key(k));
    }
}

/// Grants every principal in the list to the neuron and returns the
/// principals that were already recorded, in order.
pub fn add_neuron_id_principal_ids(
    index: &mut StableNeuronPrincipalIndex,
    neuron_id: u64,
    principals: &Vec<PrincipalId>,
) -> (already_present: Vec<PrincipalId>)
    requires
        old(index).wf(),
    ensures
        final(index).wf(),
        final(index).entries() == principals_add(
            old(index).entries(),
            principals@.map_values(|p: PrincipalId| p@),
            neuron_id,
        ),
        already_present@.map_values(|p: PrincipalId| p@) == principals_add_already(
            old(index).entries(),
            principals@.map_values(|p: PrincipalId| p@),
            neuron_id,
        ),
{
    let ghost m0 = old(index).entries();
    let ghost ps = principals@.map_values(|p: PrincipalId| p@);
    let mut already_present: Vec<PrincipalId> = Vec::new();
    let mut i: usize = 0;
    proof {
        assert(ps.subrange(0, ps.len() as int) =~= ps);
    }
    while i < principals.len()
        invariant
            i <= principals@.len(),
            ps == principals@.map_values(|p: PrincipalId| p@),
            index.wf(),
            principals_add(index.entries(), ps.subrange(i as int, ps.len() as int), neuron_id)
                == principals_add(m0, ps, neuron_id),
            already_present@.map_values(|p: PrincipalId| p@) + principals_add_already(
                index.entries(),
                ps.subrange(i as int, ps.len() as int),
                neuron_id,
            ) == principals_add_already(m0, ps, neuron_id),
        decreases principals@.len() - i,
    {
        let ghost entries_before = index.entries();
        let ghost rest = ps.subrange(i as int, ps.len() as int);
        let p = &principals[i];
        let added = index.add_neuron_id_principal_id(neuron_id, p);
        if !added {
            already_present.push(PrincipalId { bytes: p.bytes.clone() });
        }
        i = i + 1;
        proof {
            assert(rest[0] == ps[i - 1]);
            assert(rest.drop_first() =~= ps.subrange(i as int, ps.len() as int));
            assert(already_present@.map_values(|q: PrincipalId| q@) + principals_add_already(
                index.entries(),
                ps.subrange(i as int, ps.len() as int),
                neuron_id,
            ) =~= principals_add_already(m0, ps, neuron_id));
        }
    }
    proof {
        assert(ps.subrange(ps.len() as int, ps.len() as int) =~= Seq::<Seq<u8>>::empty());
        assert(already_present@.map_values(|p: PrincipalId| p@) + Seq::<Seq<u8>>::empty()
            =~= already_present@.map_values(|p: PrincipalId| p@));
    }
    already_present
}

/// Revokes every principal in the list from the neuron and returns the
/// principals that were not recorded, in order.
pub fn remove_neuron_id_principal_ids(
    index: &mut StableNeuronPrincipalIndex,
    neuron_id: u64,
    principals: &Vec<PrincipalId>,
) -> (already_absent: Vec<PrincipalId>)
    requires
        old(index).wf(),
    ensures
        final(index).wf(),
        final(index).entries() == principals_remove(
            old(index).entries(),
            principals@.map_values(|p: PrincipalId| p@),
            neuron_id,
        ),
        already_absent@.map_values(|p: PrincipalId| p@) == principals_remove_absent(
            old(index).entries(),
            principals@.map_values(|p: PrincipalId| p@),
            neuron_id,
        ),
{
    let ghost m0 = old(index).entries();
    let ghost ps = principals@.map_values(|p: PrincipalId| p@);
    let mut already_absent: Vec<PrincipalId> = Vec::new();
    let mut i: usize = 0;
    proof {
        assert(ps.subrange(0, ps.len() as int) =~= ps);
    }
    while i < principals.len()
        invariant
            i <= principals@.len(),
            ps == principals@.map_values(|p: PrincipalId| p@),
            index.wf(),
            principals_remove(index.entries(), ps.subrange(i as int, ps.len() as int), neuron_id)
                == principals_remove(m0, ps, neuron_id),
            already_absent@.map_values(|p: PrincipalId| p@) + principals_remove_absent(
                index.entries(),
                ps.subrange(i as int, ps.len() as int),
                neuron_id,
            ) == principals_remove_absent(m0, ps, neuron_id),
        decreases principals@.len() - i,
    {
        let ghost rest = ps.subrange(i as int, ps.len() as int);
        let p = &principals[i];
        let removed = index.remove_neuron_id_principal_id(neuron_id, p);
        if !removed {
            already_absent.push(PrincipalId { bytes: p.bytes.clone() });
        }
        i = i + 1;
        proof {
            assert(rest[0] == ps[i - 1]);
            assert(rest.drop_first() =~= ps.subrange(i as int, ps.len() as int));
            assert(already_absent@.map_values(|q: PrincipalId| q@) + principals_remove_absent(
                index.entries(),
                ps.subrange(i as int, ps.len() as int),
                neuron_id,
            ) =~= principals_remove_absent(m0, ps, neuron_id));
        }
    }
    proof {
        assert(ps.subrange(ps.len() as int, ps.len() as int) =~= Seq::<Seq<u8>>::empty());
        assert(already_absent@.map_values(|p: PrincipalId| p@) + Seq::<Seq<u8>>::empty()
            =~= already_absent@.map_values(|p: PrincipalId| p@));
    }
    already_absent
}

} // verus!
