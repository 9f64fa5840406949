//! The subaccount index: a bijective mapping from a 32-byte subaccount to
//! the id of the neuron it belongs to.

use vstd::prelude::*;
use ic_stable_structures::VectorMemory;
use vstd::string::*;
use crate::codec::{append_u64_le, le_value, lemma_le_roundtrip, lemma_pow256_8, read_u64_le};
use crate::defects::{subaccount_absent_reason, subaccount_exists_reason,
    subaccount_mismatch_reason};
use crate::neuron::{NeuronId, Subaccount};
use crate::text::bytes_to_dec;
use crate::storage::{byte_map_get, byte_map_insert, byte_map_new, byte_map_remove, byte_map_view,
    ByteMap};

verus! {

/// Maps each indexed subaccount to the id of its neuron.
pub struct NeuronSubaccountIndex {
    map: ByteMap,
}

impl NeuronSubaccountIndex {
    /// The mapping this index answers queries from: subaccount bytes to
    /// neuron id.
    pub closed spec fn entries(self) -> Map<Seq<u8>, u64> {
        byte_map_view(self.map).map_values(|v: Seq<u8>| le_value(v) as u64)
    }

    /// Every key is a 32-byte subaccount and every stored value an
    /// eight-byte id.
    pub closed spec fn wf(self) -> bool {
        forall|k: Seq<u8>| #[trigger]
            byte_map_view(self.map).contains_key(k) ==> k.len() == 32 && byte_map_view(
                self.map,
            )[k].len() == 8
    }

    /// Creates an empty index on the given segment.
    pub fn new(memory: VectorMemory) -> (index: Self)
        ensures
            index.wf(),
            index.entries() == Map::<Seq<u8>, u64>::empty(),
    {
        let index = NeuronSubaccountIndex { map: byte_map_new(memory) };
        proof {
            assert(index.entries() =~= Map::<Seq<u8>, u64>::empty());
        }
        index
    }

    /// Records that the subaccount belongs to the neuron. Reports an error,
    /// and changes nothing, when the subaccount is already indexed.
    pub fn add_neuron_subaccount(
        &mut self,
        neuron_id: NeuronId,
        subaccount: &Subaccount,
    ) -> (r: Result<(), String>)
        requires
            old(self).wf(),
            subaccount.wf(),
        ensures
            final(self).wf(),
            match r {
                Ok(_) => !old(self).entries().contains_key(subaccount@) && final(self).entries()
                    == old(self).entries().insert(subaccount@, neuron_id.id),
                Err(e) => old(self).entries().contains_key(subaccount@) && final(self).entries()
                    == old(self).entries() && e@ == subaccount_exists_reason(subaccount@),
            },
    {
        let key = subaccount.bytes.clone();
        match byte_map_get(&self.map, &key) {
            Some(_) => {
                let mut reason = String::from_str("Subaccount ");
                let rendered = bytes_to_dec(&subaccount.bytes);
                reason.append(rendered.as_str());
                reason.append(" already exists in the index");
                proof {
                    reveal_strlit("Subaccount ");
                    reveal_strlit(" already exists in the index");
                    assert(reason@ =~= subaccount_exists_reason(subaccount@));
                }
                Err(reason)
            },
            None => {
                let mut value: Vec<u8> = Vec::new();
                append_u64_le(&mut value, neuron_id.id);
                proof {
                    lemma_pow256_8();
                    lemma_le_roundtrip(neuron_id.id as int, 8);
                }
                byte_map_insert(&mut self.map, key, value);
                proof {
                    assert(self.entries() =~= old(self).entries().insert(
                        subaccount@,
                        neuron_id.id,
                    ));
                }
                Ok(())
            },
        }
    }

    /// Deletes the subaccount's entry. Reports an error, and changes
    /// nothing, when the subaccount is absent or recorded for a different
    /// neuron.
    pub fn remove_neuron_subaccount(
        &mut self,
        neuron_id: NeuronId,
        subaccount: &Subaccount,
    ) -> (r: Result<(), String>)
        requires
            old(self).wf(),
            subaccount.wf(),
        ensures
            final(self).wf(),
            match r {
                Ok(_) => old(self).entries().contains_key(subaccount@) && old(self).entries()[
                    subaccount@
                ] == neuron_id.id && final(self).entries() == old(self).entries().remove(
                    subaccount@,
                ),
                Err(e) => final(self).entries() == old(self).entries() && (if !old(
                    self,
                ).entries().contains_key(subaccount@) {
                    e@ == subaccount_absent_reason(subaccount@)
                } else {
                    old(self).entries()[subaccount@] != neuron_id.id && e@
                        == subaccount_mismatch_reason(subaccount@)
                }),
            },
    {
        let key = subaccount.bytes.clone();
        match byte_map_get(&self.map, &key) {
            None => {
                let mut reason = String::from_str("Subaccount ");
                let rendered = bytes_to_dec(&subaccount.bytes);
                reason.append(rendered.as_str());
                reason.append(" to remove does not exist in the index");
                proof {
                    reveal_strlit("Subaccount ");
                    reveal_strlit(" to remove does not exist in the index");
                    assert(reason@ =~= subaccount_absent_reason(subaccount@));
                }
                Err(reason)
            },
            Some(value) => {
                let stored = read_u64_le(&value, 0);
                proof {
                    assert(value@.subrange(0, 8) =~= value@);
                }
                if stored == neuron_id.id {
                    byte_map_remove(&mut self.map, &key);
                    proof {
                        assert(self.entries() =~= old(self).entries().remove(subaccount@));
                    }
                    Ok(())
                } else {
                    let mut reason = String::from_str("Subaccount ");
                    let rendered = bytes_to_dec(&subaccount.bytes);
                    reason.append(rendered.as_str());
                    reason.append(" to remove maps to a different neuron");
                    proof {
                        reveal_strlit("Subaccount ");
                        reveal_strlit(" to remove maps to a different neuron");
                        assert(reason@ =~= subaccount_mismatch_reason(subaccount@));
                    }
                    Err(reason)
                }
            },
        }
    }

    /// Looks the subaccount up.
    pub fn get_neuron_id_by_subaccount(&self, subaccount: &Subaccount) -> (r: Option<NeuronId>)
        requires
            self.wf(),
        ensures
            match r {
                Some(found) => self.entries().contains_key(subaccount@) && found.id
                    == self.entries()[subaccount@],
                None => !self.entries().contains_key(subaccount@),
            },
    {
        let key = subaccount.bytes.clone();
        match byte_map_get(&self.map, &key) {
            Some(value) => {
                let stored = read_u64_le(&value, 0);
                proof {
                    assert(value@.subrange(0, 8) =~= value@);
                }
                Some(NeuronId { id: stored })
            },
            None => None,
        }
    }
}

} // verus!
