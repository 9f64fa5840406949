//! The neuron record as the indexes see it: its id, its account bytes, the
//! principals with special permissions, its delegation pairs, and its
//! optional known name.

use vstd::prelude::*;
use crate::codec::bytes_eq;

verus! {

/// A neuron id as the indexes store it.
pub type NeuronIdU64 = u64;

/// A topic as the indexes store it.
pub type TopicSigned32 = i32;

/// The identifier of a neuron record.
#[derive(Clone, Copy, Debug, PartialEq, Eq, Hash, Structural)]
pub struct NeuronId {
    pub id: u64,
}

/// A principal with special permissions on a neuron (a controller or a hot
/// key), carried as its raw bytes.
#[derive(Clone, Debug, Eq, Hash)]
pub struct PrincipalId {
    pub bytes: Vec<u8>,
}

impl View for PrincipalId {
    type V = Seq<u8>;

    open spec fn view(&self) -> Seq<u8> {
        self.bytes@
    }
}

impl PartialEq for PrincipalId {
    fn eq(&self, other: &Self) -> bool {
        bytes_eq(&self.bytes, &other.bytes)
    }
}

impl vstd::std_specs::cmp::PartialEqSpecImpl for PrincipalId {
    open spec fn obeys_eq_spec() -> bool {
        true
    }

    open spec fn eq_spec(&self, other: &Self) -> bool {
        self.bytes@ == other.bytes@
    }
}

/// The 32-byte account identifier derived from a neuron's account bytes.
#[derive(Clone, Debug, Eq, Hash)]
pub struct Subaccount {
    pub bytes: Vec<u8>,
}

impl View for Subaccount {
    type V = Seq<u8>;

    open spec fn view(&self) -> Seq<u8> {
        self.bytes@
    }
}

impl PartialEq for Subaccount {
    fn eq(&self, other: &Self) -> bool {
        bytes_eq(&self.bytes, &other.bytes)
    }
}

impl vstd::std_specs::cmp::PartialEqSpecImpl for Subaccount {
    open spec fn obeys_eq_spec() -> bool {
        true
    }

    open spec fn eq_spec(&self, other: &Self) -> bool {
        self.bytes@ == other.bytes@
    }
}

impl Subaccount {
    /// A subaccount is exactly 32 bytes long.
    pub open spec fn wf(self) -> bool {
        self.bytes@.len() == 32
    }
}

/// The account bytes of a neuron do not form a subaccount.
#[derive(Clone, Copy, Debug, PartialEq, Eq, Structural)]
pub struct InvalidSubaccount;

/// The data carried by a publicly named neuron.
#[derive(Clone, Debug, PartialEq, Eq, Hash)]
pub struct KnownNeuronData {
    pub name: String,
}

/// The neuron record, as far as the indexes read it.
#[derive(Clone, Debug)]
pub struct Neuron {
    /// The record's identifier; its absence is a validation failure.
    pub id: Option<NeuronId>,
    /// The account bytes the subaccount is derived from.
    pub account: Vec<u8>,
    /// The set of principals with special permissions, without duplicates.
    pub principal_ids_with_special_permissions: Vec<PrincipalId>,
    /// The set of (topic, followee) delegation pairs, without duplicates.
    pub topic_followee_pairs: Vec<(TopicSigned32, NeuronIdU64)>,
    /// The display name, for the few neurons that are publicly named.
    pub known_neuron_data: Option<KnownNeuronData>,
}

impl Neuron {
    /// The id this record carries, where it carries one.
    pub open spec fn spec_id(self) -> u64 {
        match self.id {
            Some(n) => n.id,
            None => 0,
        }
    }

    /// The subaccount bytes this record carries.
    pub open spec fn spec_subaccount(self) -> Seq<u8> {
        self.account@
    }

    /// Whether the account bytes form a subaccount.
    pub open spec fn has_valid_subaccount(self) -> bool {
        self.account@.len() == 32
    }

    /// The principals with special permissions, as byte strings.
    pub open spec fn spec_principals(self) -> Seq<Seq<u8>> {
        self.principal_ids_with_special_permissions@.map_values(|p: PrincipalId| p@)
    }

    /// The delegation pairs.
    pub open spec fn spec_pairs(self) -> Seq<(i32, u64)> {
        self.topic_followee_pairs@
    }

    /// The display name this record carries, where it carries one.
    pub open spec fn spec_name(self) -> Option<Seq<char>> {
        match self.known_neuron_data {
            Some(d) => Some(d.name@),
            None => None,
        }
    }

    /// The record's fields form sets: no principal and no delegation pair
    /// occurs twice.
    pub open spec fn wf(self) -> bool {
        &&& (forall|i: int, j: int|
            0 <= i < j < self.spec_principals().len() ==> self.spec_principals()[i]
                != self.spec_principals()[j])
        &&& (forall|i: int, j: int|
            0 <= i < j < self.spec_pairs().len() ==> self.spec_pairs()[i] != self.spec_pairs()[j])
    }

    /// Derives the subaccount from the account bytes; the bytes are invalid
    /// unless they are exactly 32 bytes long.
    pub fn subaccount(&self) -> (r: Result<Subaccount, InvalidSubaccount>)
        ensures
            match r {
                Ok(s) => self.has_valid_subaccount() && s@ == self.account@,
                Err(_) => !self.has_valid_subaccount(),
            },
    {
        if self.account.len() == 32 {
            Ok(Subaccount { bytes: self.account.clone() })
        } else {
            Err(InvalidSubaccount)
        }
    }
}

} // verus!
