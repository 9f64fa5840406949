//! The persistent segments the indexes are built on, and the ordered maps
//! kept in them.
//!
//! Each index owns one `StableBTreeMap` of `ic_stable_structures`, running on
//! an in-memory segment (`VectorMemory`). The map types carry trait bounds
//! the verifier cannot follow, so each is held in a holder struct whose
//! contents the verifier does not see; what a holder holds is named by
//! `byte_map_view` / `name_map_view`, and the trusted wrappers below state,
//! over those names, exactly what the crate's source shows of `new`, `get`,
//! `insert` and `remove`.

use vstd::prelude::*;
use std::cell::RefCell;
use ic_stable_structures::StableBTreeMap;
use ic_stable_structures::VectorMemory;

verus! {

/// An in-memory segment is `Rc<RefCell<Vec<u8>>>`; vstd gives `RefCell` no
/// specification, so it is declared here and its values are carried through
/// opaquely.
#[verifier::external_type_specification]
#[verifier::external_body]
#[verifier::reject_recursive_types(T)]
pub struct ExRefCell<T: ?Sized>(RefCell<T>);

/// An ordered map from byte-string keys to byte-string values, kept in a
/// persistent segment.
#[verifier::external_body]
pub struct ByteMap {
    map: StableBTreeMap<Vec<u8>, Vec<u8>, VectorMemory>,
}

/// An ordered map from display-name keys to byte-string values, kept in a
/// persistent segment.
#[verifier::external_body]
pub struct NameMap {
    map: StableBTreeMap<String, Vec<u8>, VectorMemory>,
}

/// An empty byte-keyed view.
pub open spec fn empty_byte_view() -> Map<Seq<u8>, Seq<u8>> {
    Map::empty()
}

/// An empty name-keyed view.
pub open spec fn empty_name_view() -> Map<Seq<char>, Seq<u8>> {
    Map::empty()
}

/// What a byte-keyed map holds, as a map from key bytes to value bytes.
pub uninterp spec fn byte_map_view(m: ByteMap) -> Map<Seq<u8>, Seq<u8>>;

/// What a name-keyed map holds, as a map from name characters to value bytes.
pub uninterp spec fn name_map_view(m: NameMap) -> Map<Seq<char>, Seq<u8>>;

/// A fresh in-memory segment.
///
/// Relies on std's `Default` for `Rc<RefCell<Vec<u8>>>`: the region starts
/// out empty and is exclusively owned by its caller.
#[verifier::external_body]
pub fn new_vector_memory() -> VectorMemory {
    VectorMemory::default()
}

/// Relies on `ic_stable_structures::BTreeMap::new`: it writes a fresh header
/// into the given segment, so the resulting map holds no entry.
#[verifier::external_body]
pub fn byte_map_new(segment: VectorMemory) -> (m: ByteMap)
    ensures
        byte_map_view(m) == empty_byte_view(),
{
    ByteMap { map: StableBTreeMap::new(segment) }
}

/// Relies on `ic_stable_structures::BTreeMap::get`: it returns the value
/// stored under the key, if one exists.
#[verifier::external_body]
pub fn byte_map_get(m: &ByteMap, key: &Vec<u8>) -> (r: Option<Vec<u8>>)
    ensures
        match r {
            Some(v) => byte_map_view(*m).contains_key(key@) && v@ == byte_map_view(*m)[key@],
            None => !byte_map_view(*m).contains_key(key@),
        },
{
    m.map.get(key)
}

/// Relies on `ic_stable_structures::BTreeMap::insert`: it stores the value
/// under the key and returns the value previously stored there, if any.
#[verifier::external_body]
pub fn byte_map_insert(m: &mut ByteMap, key: Vec<u8>, value: Vec<u8>) -> (prev: Option<Vec<u8>>)
    ensures
        byte_map_view(*final(m)) == byte_map_view(*old(m)).insert(key@, value@),
        match prev {
            Some(v) => byte_map_view(*old(m)).contains_key(key@) && v@ == byte_map_view(
                *old(m),
            )[key@],
            None => !byte_map_view(*old(m)).contains_key(key@),
        },
{
    m.map.insert(key, value)
}

/// Relies on `ic_stable_structures::BTreeMap::remove`: it deletes the entry
/// under the key and returns the value that was stored there, if any.
#[verifier::external_body]
pub fn byte_map_remove(m: &mut ByteMap, key: &Vec<u8>) -> (prev: Option<Vec<u8>>)
    ensures
        byte_map_view(*final(m)) == byte_map_view(*old(m)).remove(key@),
        match prev {
            Some(v) => byte_map_view(*old(m)).contains_key(key@) && v@ == byte_map_view(
                *old(m),
            )[key@],
            None => !byte_map_view(*old(m)).contains_key(key@),
        },
{
    m.map.remove(key)
}

/// Relies on `ic_stable_structures::BTreeMap::new`: it writes a fresh header
/// into the given segment, so the resulting map holds no entry.
#[verifier::external_body]
pub fn name_map_new(segment: VectorMemory) -> (m: NameMap)
    ensures
        name_map_view(m) == empty_name_view(),
{
    NameMap { map: StableBTreeMap::new(segment) }
}

/// Relies on `ic_stable_structures::BTreeMap::get`: it returns the value
/// stored under the key, if one exists.
#[verifier::external_body]
pub fn name_map_get(m: &NameMap, key: &String) -> (r: Option<Vec<u8>>)
    ensures
        match r {
            Some(v) => name_map_view(*m).contains_key(key@) && v@ == name_map_view(*m)[key@],
            None => !name_map_view(*m).contains_key(key@),
        },
{
    m.map.get(key)
}

/// Relies on `ic_stable_structures::BTreeMap::insert`: it stores the value
/// under the key and returns the value previously stored there, if any.
#[verifier::external_body]
pub fn name_map_insert(m: &mut NameMap, key: String, value: Vec<u8>) -> (prev: Option<Vec<u8>>)
    ensures
        name_map_view(*final(m)) == name_map_view(*old(m)).insert(key@, value@),
        match prev {
            Some(v) => name_map_view(*old(m)).contains_key(key@) && v@ == name_map_view(
                *old(m),
            )[key@],
            None => !name_map_view(*old(m)).contains_key(key@),
        },
{
    m.map.insert(key, value)
}

/// Relies on `ic_stable_structures::BTreeMap::remove`: it deletes the entry
/// under the key and returns the value that was stored there, if any.
#[verifier::external_body]
pub fn name_map_remove(m: &mut NameMap, key: &String) -> (prev: Option<Vec<u8>>)
    ensures
        name_map_view(*final(m)) == name_map_view(*old(m)).remove(key@),
        match prev {
            Some(v) => name_map_view(*old(m)).contains_key(key@) && v@ == name_map_view(
                *old(m),
            )[key@],
            None => !name_map_view(*old(m)).contains_key(key@),
        },
{
    m.map.remove(key)
}

} // verus!
