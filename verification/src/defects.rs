//! The error taxonomy: per-index defects, the aggregated corruption report,
//! and the fatal validation errors of the entity store boundary.

use vstd::prelude::*;
use vstd::string::*;
use crate::neuron::{NeuronId, NeuronIdU64, PrincipalId, Subaccount};
use crate::text::{byte_list_items, byte_lists_rendered, bytes_rendered, bytes_to_dec, dec_seq,
    pairs_rendered, pairs_to_dec, u64_to_dec};

verus! {

/// A local, non-fatal inconsistency one index detected during an operation;
/// recorded, never corrected.
#[derive(Debug, PartialEq, Eq)]
pub enum NeuronIndexDefect {
    Subaccount { reason: String },
    Principal { reason: String },
    Following { reason: String },
    KnownNeuron { reason: String },
}

/// Whether the defect is a subaccount defect with exactly this reason.
pub open spec fn is_subaccount_defect(d: NeuronIndexDefect, reason: Seq<char>) -> bool {
    match d {
        NeuronIndexDefect::Subaccount { reason: s } => s@ == reason,
        _ => false,
    }
}

/// Whether the defect is a principal defect with exactly this reason.
pub open spec fn is_principal_defect(d: NeuronIndexDefect, reason: Seq<char>) -> bool {
    match d {
        NeuronIndexDefect::Principal { reason: s } => s@ == reason,
        _ => false,
    }
}

/// Whether the defect is a following defect with exactly this reason.
pub open spec fn is_following_defect(d: NeuronIndexDefect, reason: Seq<char>) -> bool {
    match d {
        NeuronIndexDefect::Following { reason: s } => s@ == reason,
        _ => false,
    }
}

/// Whether the defect is a known-neuron defect with exactly this reason.
pub open spec fn is_known_neuron_defect(d: NeuronIndexDefect, reason: Seq<char>) -> bool {
    match d {
        NeuronIndexDefect::KnownNeuron { reason: s } => s@ == reason,
        _ => false,
    }
}

/// The aggregate of all defects from one call, tagged by the neuron id.
#[derive(Debug, PartialEq, Eq)]
pub struct CorruptedNeuronIndexes {
    pub neuron_id: NeuronIdU64,
    pub indexes: Vec<NeuronIndexDefect>,
}

/// A fatal error of an index operation: either the entity failed
/// validation, so no index was touched, or at least one index reported a
/// defect.
#[derive(Debug, PartialEq, Eq)]
pub enum NeuronStoreError {
    NeuronIdIsNone,
    InvalidSubaccount { neuron_id: NeuronId, subaccount_bytes: Vec<u8> },
    NeuronIdModified { old_neuron_id: NeuronId, new_neuron_id: NeuronId },
    SubaccountModified { old_subaccount: Subaccount, new_subaccount: Subaccount },
    CorruptedNeuronIndexes(CorruptedNeuronIndexes),
}

impl NeuronStoreError {
    /// The error for account bytes that do not form a subaccount.
    pub fn invalid_subaccount(neuron_id: NeuronId, subaccount_bytes: Vec<u8>) -> (r:
        NeuronStoreError)
        ensures
            r == (NeuronStoreError::InvalidSubaccount { neuron_id, subaccount_bytes }),
    {
        NeuronStoreError::InvalidSubaccount { neuron_id, subaccount_bytes }
    }

    /// The error for an update whose two versions carry different ids.
    pub fn neuron_id_modified(old_neuron_id: NeuronId, new_neuron_id: NeuronId) -> (r:
        NeuronStoreError)
        ensures
            r == (NeuronStoreError::NeuronIdModified { old_neuron_id, new_neuron_id }),
    {
        NeuronStoreError::NeuronIdModified { old_neuron_id, new_neuron_id }
    }

    /// The error for an update whose two versions carry different
    /// subaccounts.
    pub fn subaccount_modified(old_subaccount: Subaccount, new_subaccount: Subaccount) -> (r:
        NeuronStoreError)
        ensures
            r == (NeuronStoreError::SubaccountModified { old_subaccount, new_subaccount }),
    {
        NeuronStoreError::SubaccountModified { old_subaccount, new_subaccount }
    }
}

/// The reason reported when a subaccount to add is already indexed.
pub open spec fn subaccount_exists_reason(subaccount: Seq<u8>) -> Seq<char> {
    "Subaccount "@ + bytes_rendered(subaccount) + " already exists in the index"@
}

/// The reason reported when a subaccount to remove is absent.
pub open spec fn subaccount_absent_reason(subaccount: Seq<u8>) -> Seq<char> {
    "Subaccount "@ + bytes_rendered(subaccount) + " to remove does not exist in the index"@
}

/// The reason reported when a subaccount to remove is recorded for a
/// different neuron.
pub open spec fn subaccount_mismatch_reason(subaccount: Seq<u8>) -> Seq<char> {
    "Subaccount "@ + bytes_rendered(subaccount) + " to remove maps to a different neuron"@
}

/// The reason reported when some of a neuron's principals were already
/// indexed, naming them.
pub open spec fn principals_present_reason(principals: Seq<Seq<u8>>, neuron_id: u64) -> Seq<char> {
    "Principals "@ + byte_lists_rendered(principals) + " already present for neuron "@ + dec_seq(
        neuron_id as int,
    )
}

/// The reason reported when some of a neuron's principals were not indexed,
/// naming them.
pub open spec fn principals_absent_reason(principals: Seq<Seq<u8>>, neuron_id: u64) -> Seq<char> {
    "Principals "@ + byte_lists_rendered(principals) + " already absent for neuron "@ + dec_seq(
        neuron_id as int,
    )
}

/// The reason reported when some of a neuron's delegation pairs were
/// already indexed, naming them.
pub open spec fn pairs_present_reason(pairs: Seq<(i32, u64)>, neuron_id: u64) -> Seq<char> {
    "Topic-followee pairs "@ + pairs_rendered(pairs) + " already present for neuron "@ + dec_seq(
        neuron_id as int,
    )
}

/// The reason reported when some of a neuron's delegation pairs were not
/// indexed, naming them.
pub open spec fn pairs_absent_reason(pairs: Seq<(i32, u64)>, neuron_id: u64) -> Seq<char> {
    "Topic-followee pairs "@ + pairs_rendered(pairs) + " already absent for neuron "@ + dec_seq(
        neuron_id as int,
    )
}

/// The reason reported when a known name to add is already taken.
pub open spec fn known_name_exists_reason(neuron_id: u64, name: Seq<char>) -> Seq<char> {
    "Failed to add neuron "@ + dec_seq(neuron_id as int)
        + " to known neuron index because the known neuron name "@ + name + " already exists"@
}

/// The reason reported when a known name to add is over the size limit.
pub open spec fn known_name_too_long_reason(neuron_id: u64, name: Seq<char>) -> Seq<char> {
    "Failed to add neuron "@ + dec_seq(neuron_id as int)
        + " to known neuron index because the known neuron name "@ + name
        + " exceeds size limit"@
}

/// The reason reported when a known name to remove is absent.
pub open spec fn known_name_absent_reason(name: Seq<char>) -> Seq<char> {
    "Known neuron name "@ + name + " cannot be removed as it does not exist"@
}

/// The reason reported when a known name to remove belongs to another
/// neuron.
pub open spec fn known_name_mismatch_reason(name: Seq<char>, other_id: u64) -> Seq<char> {
    "Known neuron name "@ + name + " exists for a different neuron id "@ + dec_seq(other_id as int)
}

fn decimal_tagged(prefix: &'static str, neuron_id: u64) -> (s: String)
    ensures
        s@ == prefix@ + dec_seq(neuron_id as int),
{
    let mut s = String::from_str(prefix);
    let digits = u64_to_dec(neuron_id);
    s.append(digits.as_str());
    s
}

fn principal_items_from(v: &Vec<PrincipalId>, start: usize) -> (s: String)
    requires
        start <= v@.len(),
    ensures
        s@ == byte_list_items(
            v@.map_values(|p: PrincipalId| p@).subrange(start as int, v@.len() as int),
        ),
    decreases v@.len() - start,
{
    let ghost views = v@.map_values(|p: PrincipalId| p@);
    let ghost sub = views.subrange(start as int, views.len() as int);
    if start >= v.len() {
        proof {
            assert(sub =~= Seq::<Seq<u8>>::empty());
        }
        String::new()
    } else if start + 1 == v.len() {
        let s = bytes_to_dec(&v[start].bytes);
        proof {
            assert(sub[0] == views[start as int]);
        }
        s
    } else {
        let mut s = bytes_to_dec(&v[start].bytes);
        s.append(", ");
        let rest = principal_items_from(v, start + 1);
        s.append(rest.as_str());
        proof {
            reveal_strlit(", ");
            assert(sub[0] == views[start as int]);
            assert(sub.drop_first() =~= views.subrange(start as int + 1, views.len() as int));
            assert(s@ =~= byte_list_items(sub));
        }
        s
    }
}

/// Renders a list of principals as a bracketed list of their byte lists.
fn principals_to_dec(v: &Vec<PrincipalId>) -> (s: String)
    ensures
        s@ == byte_lists_rendered(v@.map_values(|p: PrincipalId| p@)),
{
    let ghost views = v@.map_values(|p: PrincipalId| p@);
    let mut s = String::from_str("[");
    let items = principal_items_from(v, 0);
    s.append(items.as_str());
    s.append("]");
    proof {
        reveal_strlit("[");
        reveal_strlit("]");
        assert(views.subrange(0, views.len() as int) =~= views);
        assert(s@ =~= byte_lists_rendered(views));
    }
    s
}

/// Builds the principal defect for already-present principals, naming
/// them.
pub fn principals_present_defect(already_present: &Vec<PrincipalId>, neuron_id: u64) -> (d:
    NeuronIndexDefect)
    ensures
        is_principal_defect(
            d,
            principals_present_reason(
                already_present@.map_values(|p: PrincipalId| p@),
                neuron_id,
            ),
        ),
{
    let mut s = String::from_str("Principals ");
    let rendered = principals_to_dec(already_present);
    s.append(rendered.as_str());
    let tail = decimal_tagged(" already present for neuron ", neuron_id);
    s.append(tail.as_str());
    proof {
        reveal_strlit("Principals ");
        reveal_strlit(" already present for neuron ");
        assert(s@ =~= principals_present_reason(
            already_present@.map_values(|p: PrincipalId| p@),
            neuron_id,
        ));
    }
    NeuronIndexDefect::Principal { reason: s }
}

/// Builds the principal defect for already-absent principals, naming them.
pub fn principals_absent_defect(already_absent: &Vec<PrincipalId>, neuron_id: u64) -> (d:
    NeuronIndexDefect)
    ensures
        is_principal_defect(
            d,
            principals_absent_reason(already_absent@.map_values(|p: PrincipalId| p@), neuron_id),
        ),
{
    let mut s = String::from_str("Principals ");
    let rendered = principals_to_dec(already_absent);
    s.append(rendered.as_str());
    let tail = decimal_tagged(" already absent for neuron ", neuron_id);
    s.append(tail.as_str());
    proof {
        reveal_strlit("Principals ");
        reveal_strlit(" already absent for neuron ");
        assert(s@ =~= principals_absent_reason(
            already_absent@.map_values(|p: PrincipalId| p@),
            neuron_id,
        ));
    }
    NeuronIndexDefect::Principal { reason: s }
}

/// Builds the following defect for already-present pairs, naming them.
pub fn pairs_present_defect(already_present: &Vec<(i32, u64)>, neuron_id: u64) -> (d:
    NeuronIndexDefect)
    ensures
        is_following_defect(d, pairs_present_reason(already_present@, neuron_id)),
{
    let mut s = String::from_str("Topic-followee pairs ");
    let rendered = pairs_to_dec(already_present);
    s.append(rendered.as_str());
    let tail = decimal_tagged(" already present for neuron ", neuron_id);
    s.append(tail.as_str());
    proof {
        reveal_strlit("Topic-followee pairs ");
        reveal_strlit(" already present for neuron ");
        assert(s@ =~= pairs_present_reason(already_present@, neuron_id));
    }
    NeuronIndexDefect::Following { reason: s }
}

/// Builds the following defect for already-absent pairs, naming them.
pub fn pairs_absent_defect(already_absent: &Vec<(i32, u64)>, neuron_id: u64) -> (d:
    NeuronIndexDefect)
    ensures
        is_following_defect(d, pairs_absent_reason(already_absent@, neuron_id)),
{
    let mut s = String::from_str("Topic-followee pairs ");
    let rendered = pairs_to_dec(already_absent);
    s.append(rendered.as_str());
    let tail = decimal_tagged(" already absent for neuron ", neuron_id);
    s.append(tail.as_str());
    proof {
        reveal_strlit("Topic-followee pairs ");
        reveal_strlit(" already absent for neuron ");
        assert(s@ =~= pairs_absent_reason(already_absent@, neuron_id));
    }
    NeuronIndexDefect::Following { reason: s }
}

/// Builds the known-neuron defect for a taken name.
pub fn known_name_exists_defect(neuron_id: u64, name: &str) -> (d: NeuronIndexDefect)
    ensures
        is_known_neuron_defect(d, known_name_exists_reason(neuron_id, name@)),
{
    let mut s = decimal_tagged("Failed to add neuron ", neuron_id);
    s.append(" to known neuron index because the known neuron name ");
    s.append(name);
    s.append(" already exists");
    NeuronIndexDefect::KnownNeuron { reason: s }
}

/// Builds the known-neuron defect for a name over the size limit.
pub fn known_name_too_long_defect(neuron_id: u64, name: &str) -> (d: NeuronIndexDefect)
    ensures
        is_known_neuron_defect(d, known_name_too_long_reason(neuron_id, name@)),
{
    let mut s = decimal_tagged("Failed to add neuron ", neuron_id);
    s.append(" to known neuron index because the known neuron name ");
    s.append(name);
    s.append(" exceeds size limit");
    NeuronIndexDefect::KnownNeuron { reason: s }
}

/// Builds the known-neuron defect for removing an absent name.
pub fn known_name_absent_defect(name: &str) -> (d: NeuronIndexDefect)
    ensures
        is_known_neuron_defect(d, known_name_absent_reason(name@)),
{
    let mut s = String::from_str("Known neuron name ");
    s.append(name);
    s.append(" cannot be removed as it does not exist");
    NeuronIndexDefect::KnownNeuron { reason: s }
}

/// Builds the known-neuron defect for removing a name held by another
/// neuron.
pub fn known_name_mismatch_defect(name: &str, other_id: u64) -> (d: NeuronIndexDefect)
    ensures
        is_known_neuron_defect(d, known_name_mismatch_reason(name@, other_id)),
{
    let mut s = String::from_str("Known neuron name ");
    s.append(name);
    s.append(" exists for a different neuron id ");
    let digits = u64_to_dec(other_id);
    s.append(digits.as_str());
    NeuronIndexDefect::KnownNeuron { reason: s }
}

/// Combines the defects of an update's removal half and addition half.
/// Returns success exactly when both halves succeeded.
pub fn combine_index_defects(
    defect1: Result<(), NeuronIndexDefect>,
    defect2: Result<(), NeuronIndexDefect>,
) -> (r: Result<(), Vec<NeuronIndexDefect>>)
    ensures
        match r {
            Ok(_) => defect1 is Ok && defect2 is Ok,
            Err(ds) => (defect1 is Err || defect2 is Err) && ds@ == (match (defect1, defect2) {
                (Err(a), Err(b)) => seq![a, b],
                (Err(a), Ok(_)) => seq![a],
                (Ok(_), Err(b)) => seq![b],
                (Ok(_), Ok(_)) => Seq::empty(),
            }),
        },
{
    match (defect1, defect2) {
        (Ok(_), Ok(_)) => Ok(()),
        (Err(a), Ok(_)) => {
            let mut ds: Vec<NeuronIndexDefect> = Vec::new();
            ds.push(a);
            proof {
                assert(ds@ =~= seq![ds@[0]]);
            }
            Err(ds)
        },
        (Ok(_), Err(b)) => {
            let mut ds: Vec<NeuronIndexDefect> = Vec::new();
            ds.push(b);
            proof {
                assert(ds@ =~= seq![ds@[0]]);
            }
            Err(ds)
        },
        (Err(a), Err(b)) => {
            let mut ds: Vec<NeuronIndexDefect> = Vec::new();
            ds.push(a);
            ds.push(b);
            proof {
                assert(ds@ =~= seq![ds@[0], ds@[1]]);
            }
            Err(ds)
        },
    }
}

} // verus!
