//! The known-name index: a mapping from a unique, size-bounded display name
//! to the id of the neuron that carries it.

use vstd::prelude::*;
use ic_stable_structures::VectorMemory;
use crate::codec::{append_u64_le, le_value, lemma_le_roundtrip, lemma_pow256_8, read_u64_le};
use crate::neuron::NeuronId;
use crate::storage::{name_map_get, name_map_insert, name_map_new, name_map_remove, name_map_view,
    NameMap};

verus! {

/// The longest display name the index accepts, in bytes. Callers are
/// expected to enforce the limit themselves; the index reports a violation
/// rather than truncating.
pub const MAX_KNOWN_NEURON_NAME_SIZE: usize = 200;

/// The length of a display name in bytes.
pub open spec fn name_byte_len(name: Seq<char>) -> nat {
    vstd::utf8::encode_utf8(name).len()
}

/// Why a name could not be added.
#[derive(Clone, Copy, Debug, PartialEq, Eq, Structural)]
pub enum AddKnownNeuronError {
    AlreadyExists,
    ExceedsSizeLimit,
}

/// Why a name could not be removed.
#[derive(Clone, Copy, Debug, PartialEq, Eq, Structural)]
pub enum RemoveKnownNeuronError {
    AlreadyAbsent,
    NameExistsWithDifferentNeuronId(NeuronId),
}

/// Maps each known display name to the id of its neuron.
pub struct KnownNeuronIndex {
    map: NameMap,
}

impl KnownNeuronIndex {
    /// The mapping this index answers queries from: display name to neuron
    /// id.
    pub closed spec fn entries(self) -> Map<Seq<char>, u64> {
        name_map_view(self.map).map_values(|v: Seq<u8>| le_value(v) as u64)
    }

    /// Every stored value is an eight-byte id.
    pub closed spec fn wf(self) -> bool {
        forall|k: Seq<char>| #[trigger]
            name_map_view(self.map).contains_key(k) ==> name_map_view(self.map)[k].len() == 8
    }

    /// Creates an empty index on the given segment.
    pub fn new(memory: VectorMemory) -> (index: Self)
        ensures
            index.wf(),
            index.entries() == Map::<Seq<char>, u64>::empty(),
    {
        let index = KnownNeuronIndex { map: name_map_new(memory) };
        proof {
            assert(index.entries() =~= Map::<Seq<char>, u64>::empty());
        }
        index
    }

    /// Records the name for the neuron. Reports an error, and changes
    /// nothing, when the name is longer than the limit or already taken —
    /// also by the same neuron: a repeated add is a diagnostic defect.
    pub fn add_known_neuron(&mut self, name: &str, neuron_id: NeuronId) -> (r: Result<
        (),
        AddKnownNeuronError,
    >)
        requires
            old(self).wf(),
            name_byte_len(name@) <= usize::MAX,
        ensures
            final(self).wf(),
            match r {
                Ok(_) => name_byte_len(name@) <= MAX_KNOWN_NEURON_NAME_SIZE && !old(
                    self,
                ).entries().contains_key(name@) && final(self).entries() == old(
                    self,
                ).entries().insert(name@, neuron_id.id),
                Err(e) => final(self).entries() == old(self).entries() && (if name_byte_len(name@)
                    > MAX_KNOWN_NEURON_NAME_SIZE {
                    e == AddKnownNeuronError::ExceedsSizeLimit
                } else {
                    old(self).entries().contains_key(name@) && e
                        == AddKnownNeuronError::AlreadyExists
                }),
            },
    {
        if name.len() > MAX_KNOWN_NEURON_NAME_SIZE {
            return Err(AddKnownNeuronError::ExceedsSizeLimit);
        }
        let key = name.to_owned();
        match name_map_get(&self.map, &key) {
            Some(_) => Err(AddKnownNeuronError::AlreadyExists),
            None => {
                let mut value: Vec<u8> = Vec::new();
                append_u64_le(&mut value, neuron_id.id);
                proof {
                    lemma_pow256_8();
                    lemma_le_roundtrip(neuron_id.id as int, 8);
                }
                name_map_insert(&mut self.map, key, value);
                proof {
                    assert(self.entries() =~= old(self).entries().insert(name@, neuron_id.id));
                }
                Ok(())
            },
        }
    }

    /// Deletes the name's entry. Reports an error, and changes nothing,
    /// when the name is absent or recorded for a different neuron — a sign
    /// of prior corruption that is never silently repaired.
    pub fn remove_known_neuron(&mut self, name: &str, neuron_id: NeuronId) -> (r: Result<
        (),
        RemoveKnownNeuronError,
    >)
        requires
            old(self).wf(),
        ensures
            final(self).wf(),
            match r {
                Ok(_) => old(self).entries().contains_key(name@) && old(self).entries()[name@]
                    == neuron_id.id && final(self).entries() == old(self).entries().remove(name@),
                Err(e) => final(self).entries() == old(self).entries() && (if !old(
                    self,
                ).entries().contains_key(name@) {
                    e == RemoveKnownNeuronError::AlreadyAbsent
                } else {
                    old(self).entries()[name@] != neuron_id.id && e
                        == RemoveKnownNeuronError::NameExistsWithDifferentNeuronId(
                        NeuronId { id: old(self).entries()[name@] },
                    )
                }),
            },
    {
        let key = name.to_owned();
        match name_map_get(&self.map, &key) {
            None => Err(RemoveKnownNeuronError::AlreadyAbsent),
            Some(value) => {
                let stored = read_u64_le(&value, 0);
                proof {
                    assert(value@.subrange(0, 8) =~= value@);
                }
                if stored == neuron_id.id {
                    name_map_remove(&mut self.map, &key);
                    proof {
                        assert(self.entries() =~= old(self).entries().remove(name@));
                    }
                    Ok(())
                } else {
                    Err(RemoveKnownNeuronError::NameExistsWithDifferentNeuronId(
                        NeuronId { id: stored },
                    ))
                }
            },
        }
    }

    /// Looks the name up.
    pub fn get_known_neuron_id(&self, name: &str) -> (r: Option<NeuronId>)
        requires
            self.wf(),
        ensures
            match r {
                Some(found) => self.entries().contains_key(name@) && found.id == self.entries()[
                    name@
                ],
                None => !self.entries().contains_key(name@),
            },
    {
        let key = name.to_owned();
        match name_map_get(&self.map, &key) {
            Some(value) => {
                let stored = read_u64_le(&value, 0);
                proof {
                    assert(value@.subrange(0, 8) =~= value@);
                }
                Some(NeuronId { id: stored })
            },
            None => None,
        }
    }

    /// Whether the name is taken.
    pub fn contains_known_neuron_name(&self, name: &str) -> (r: bool)
        requires
            self.wf(),
        ensures
            r == self.entries().contains_key(name@),
    {
        let key = name.to_owned();
        match name_map_get(&self.map, &key) {
            Some(_) => true,
            None => false,
        }
    }
}

} // verus!
