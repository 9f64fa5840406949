//! The following index: a many-to-many mapping from a (topic, followee)
//! delegation pair to the set of follower neurons, with a segment-backed
//! variant and an in-memory variant behind one capability.

use vstd::prelude::*;
use std::collections::BTreeMap;
use ic_stable_structures::VectorMemory;
use crate::codec::{append_u32_le, append_u64_le, contains_u64, decode_id_vec, decode_ids,
    encode_id_vec, le_bytes, lemma_le_roundtrip, lemma_pow256_8, lemma_remove_first_absent,
    lemma_remove_first_at, lemma_remove_first_unique, pow256, remove_first, remove_first_u64,
    unique_ids};
use crate::neuron::{NeuronIdU64, TopicSigned32};
use crate::storage::{byte_map_get, byte_map_insert, byte_map_new, byte_map_remove, byte_map_view,
    ByteMap};

verus! {

broadcast use vstd::laws_cmp::group_laws_cmp;

/// The follower list recorded for a delegation pair, or the empty list
/// where none is.
pub open spec fn followers_of(m: Map<(i32, u64), Seq<u64>>, pair: (i32, u64)) -> Seq<u64> {
    crate::multimap::ids_of(m, pair)
}

/// One delegation recorded: appends the follower to the pair's list unless
/// it is already there.
pub open spec fn follow_add1(m: Map<(i32, u64), Seq<u64>>, pair: (i32, u64), follower: u64) -> Map<
    (i32, u64),
    Seq<u64>,
> {
    crate::multimap::list_add1(m, pair, follower)
}

/// One delegation deleted: drops the follower from the pair's list, and the
/// whole entry once the list is empty.
pub open spec fn follow_remove1(
    m: Map<(i32, u64), Seq<u64>>,
    pair: (i32, u64),
    follower: u64,
) -> Map<(i32, u64), Seq<u64>> {
    crate::multimap::list_remove1(m, pair, follower)
}

/// Records every delegation pair in the list for the follower, in order.
pub open spec fn follows_add(
    m: Map<(i32, u64), Seq<u64>>,
    pairs: Seq<(i32, u64)>,
    follower: u64,
) -> Map<(i32, u64), Seq<u64>> {
    crate::multimap::list_add_all(m, pairs, follower)
}

/// The pairs that already carried the follower when recording the list in
/// order.
pub open spec fn follows_add_already(
    m: Map<(i32, u64), Seq<u64>>,
    pairs: Seq<(i32, u64)>,
    follower: u64,
) -> Seq<(i32, u64)> {
    crate::multimap::list_add_already(m, pairs, follower)
}

/// Deletes every delegation pair in the list for the follower, in order.
pub open spec fn follows_remove(
    m: Map<(i32, u64), Seq<u64>>,
    pairs: Seq<(i32, u64)>,
    follower: u64,
) -> Map<(i32, u64), Seq<u64>> {
    crate::multimap::list_remove_all(m, pairs, follower)
}

/// The pairs that did not carry the follower when deleting the list in
/// order.
pub open spec fn follows_remove_absent(
    m: Map<(i32, u64), Seq<u64>>,
    pairs: Seq<(i32, u64)>,
    follower: u64,
) -> Seq<(i32, u64)> {
    crate::multimap::list_remove_absent(m, pairs, follower)
}

/// The capability shared by the two following-index variants: queries and
/// updates against one mathematical view of the delegation relation.
pub trait NeuronFollowingIndex {
    /// The mapping from delegation pair to its followers, in insertion
    /// order.
    spec fn pairs_view(&self) -> Map<(i32, u64), Seq<u64>>;

    /// The variant's internal invariant.
    spec fn inv(&self) -> bool;

    /// Records that the follower delegates on the pair. Returns false, and
    /// changes nothing, when that was already recorded.
    fn add_neuron_followee(&mut self, pair: (TopicSigned32, NeuronIdU64), follower: NeuronIdU64) -> (
        added: bool)
        requires
            old(self).inv(),
        ensures
            final(self).inv(),
            final(self).pairs_view() == follow_add1(old(self).pairs_view(), pair, follower),
            added == !followers_of(old(self).pairs_view(), pair).contains(follower),
    ;

    /// Deletes the record that the follower delegates on the pair. Returns
    /// false, and changes nothing, when no such record exists.
    fn remove_neuron_followee(
        &mut self,
        pair: (TopicSigned32, NeuronIdU64),
        follower: NeuronIdU64,
    ) -> (removed: bool)
        requires
            old(self).inv(),
        ensures
            final(self).inv(),
            final(self).pairs_view() == follow_remove1(old(self).pairs_view(), pair, follower),
            removed == followers_of(old(self).pairs_view(), pair).contains(follower),
    ;

    /// The followers recorded for the pair, in insertion order.
    fn get_followers(&self, pair: (TopicSigned32, NeuronIdU64)) -> (followers: Vec<NeuronIdU64>)
        requires
            self.inv(),
        ensures
            followers@ == followers_of(self.pairs_view(), pair),
    ;
}

/// The twelve segment bytes a delegation pair is keyed under.
pub open spec fn pair_key(pair: (i32, u64)) -> Seq<u8> {
    le_bytes((pair.0 as u32) as int, 4) + le_bytes(pair.1 as int, 8)
}

/// Distinct pairs are keyed under distinct bytes.
pub proof fn lemma_pair_key_injective(a: (i32, u64), b: (i32, u64))
    requires
        pair_key(a) == pair_key(b),
    ensures
        a == b,
{
    reveal_with_fuel(pow256, 5);
    lemma_pow256_8();
    lemma_le_roundtrip((a.0 as u32) as int, 4);
    lemma_le_roundtrip((b.0 as u32) as int, 4);
    lemma_le_roundtrip(a.1 as int, 8);
    lemma_le_roundtrip(b.1 as int, 8);
    assert(le_bytes((a.0 as u32) as int, 4) =~= pair_key(a).subrange(0, 4));
    assert(le_bytes((b.0 as u32) as int, 4) =~= pair_key(b).subrange(0, 4));
    assert(le_bytes(a.1 as int, 8) =~= pair_key(a).subrange(4, 12));
    assert(le_bytes(b.1 as int, 8) =~= pair_key(b).subrange(4, 12));
    let a0: i32 = a.0;
    let b0: i32 = b.0;
    assert(a0 == b0) by (bit_vector)
        requires
            a0 as u32 == b0 as u32,
    {
    }
}

/// Encodes a delegation pair as its twelve key bytes.
pub fn encode_pair_key(pair: (TopicSigned32, NeuronIdU64)) -> (key: Vec<u8>)
    ensures
        key@ == pair_key(pair),
{
    let mut key: Vec<u8> = Vec::new();
    append_u32_le(&mut key, pair.0 as u32);
    append_u64_le(&mut key, pair.1);
    proof {
        assert(key@ =~= pair_key(pair));
    }
    key
}

/// The segment-backed following index; it holds only the forward direction,
/// from delegation pair to followers.
pub struct StableNeuronFollowingIndex {
    map: ByteMap,
}

impl StableNeuronFollowingIndex {
    /// Creates an empty index on the given segment.
    pub fn new(memory: VectorMemory) -> (index: Self)
        ensures
            index.inv(),
            index.pairs_view() == Map::<(i32, u64), Seq<u64>>::empty(),
    {
        let index = StableNeuronFollowingIndex { map: byte_map_new(memory) };
        proof {
            assert(index.pairs_view() =~= Map::<(i32, u64), Seq<u64>>::empty());
        }
        index
    }
}

impl NeuronFollowingIndex for StableNeuronFollowingIndex {
    closed spec fn pairs_view(&self) -> Map<(i32, u64), Seq<u64>> {
        Map::new(
            |p: (i32, u64)| byte_map_view(self.map).contains_key(pair_key(p)),
            |p: (i32, u64)| decode_ids(byte_map_view(self.map)[pair_key(p)]),
        )
    }

    closed spec fn inv(&self) -> bool {
        forall|k: Seq<u8>| #[trigger]
            byte_map_view(self.map).contains_key(k) ==> byte_map_view(self.map)[k].len() % 8 == 0
                && decode_ids(byte_map_view(self.map)[k]).len() > 0 && unique_ids(
                decode_ids(byte_map_view(self.map)[k]),
            )
    }

    fn add_neuron_followee(&mut self, pair: (TopicSigned32, NeuronIdU64), follower: NeuronIdU64) -> (
        added: bool) {
        let key = encode_pair_key(pair);
        let r = match byte_map_get(&self.map, &key) {
            None => {
                let mut ids: Vec<u64> = Vec::new();
                ids.push(follower);
                let value = encode_id_vec(&ids);
                byte_map_insert(&mut self.map, key, value);
                proof {
                    assert(ids@ =~= Seq::<u64>::empty().push(follower));
                }
                true
            },
            Some(value) => {
                let mut ids = decode_id_vec(&value);
                if contains_u64(&ids, follower) {
                    false
                } else {
                    ids.push(follower);
                    let value2 = encode_id_vec(&ids);
                    byte_map_insert(&mut self.map, key, value2);
                    true
                }
            },
        };
        proof {
            assert forall|p: (i32, u64)| p != pair implies pair_key(p) != pair_key(pair) by {
                if pair_key(p) == pair_key(pair) {
                    lemma_pair_key_injective(p, pair);
                }
            }
            assert(self.pairs_view() =~= follow_add1(old(self).pairs_view(), pair, follower));
        }
        r
    }

    fn remove_neuron_followee(
        &mut self,
        pair: (TopicSigned32, NeuronIdU64),
        follower: NeuronIdU64,
    ) -> (removed: bool) {
        let key = encode_pair_key(pair);
        let r = match byte_map_get(&self.map, &key) {
            None => false,
            Some(value) => {
                let mut ids = decode_id_vec(&value);
                let found = remove_first_u64(&mut ids, follower);
                if !found {
                    false
                } else {
                    proof {
                        lemma_remove_first_unique(decode_ids(value@), follower);
                    }
                    if ids.len() == 0 {
                        byte_map_remove(&mut self.map, &key);
                    } else {
                        let value2 = encode_id_vec(&ids);
                        byte_map_insert(&mut self.map, key, value2);
                    }
                    true
                }
            },
        };
        proof {
            assert forall|p: (i32, u64)| p != pair implies pair_key(p) != pair_key(pair) by {
                if pair_key(p) == pair_key(pair) {
                    lemma_pair_key_injective(p, pair);
                }
            }
            assert(self.pairs_view() =~= follow_remove1(old(self).pairs_view(), pair, follower));
        }
        r
    }

    fn get_followers(&self, pair: (TopicSigned32, NeuronIdU64)) -> (followers: Vec<NeuronIdU64>) {
        let key = encode_pair_key(pair);
        match byte_map_get(&self.map, &key) {
            Some(value) => decode_id_vec(&value),
            None => Vec::new(),
        }
    }
}

/// Drops the first occurrence of the pair, reporting whether one was
/// found.
fn remove_first_pair(v: &mut Vec<(TopicSigned32, NeuronIdU64)>, x: (TopicSigned32, NeuronIdU64)) -> (
    removed: bool)
    ensures
        final(v)@ == remove_first(old(v)@, x),
        removed == old(v)@.contains(x),
{
    let mut i: usize = 0;
    while i < v.len()
        invariant
            i <= v@.len(),
            v@ == old(v)@,
            forall|j: int| 0 <= j < i ==> v@[j] != x,
        decreases v@.len() - i,
    {
        let e = v[i];
        if e.0 == x.0 && e.1 == x.1 {
            proof {
                assert(v@[i as int] == x);
                lemma_remove_first_at(old(v)@, x, i as int);
            }
            v.remove(i);
            proof {
                assert(v@ =~= old(v)@.subrange(0, i as int) + old(v)@.subrange(
                    i as int + 1,
                    old(v)@.len() as int,
                ));
            }
            return true;
        }
        i = i + 1;
    }
    proof {
        assert(forall|j: int| 0 <= j < v@.len() ==> v@[j] != x);
        lemma_remove_first_absent(v@, x);
    }
    false
}

/// Rebuilds a pair list; the elements are plain copies.
fn copy_pairs(v: &Vec<(TopicSigned32, NeuronIdU64)>) -> (r: Vec<(TopicSigned32, NeuronIdU64)>)
    ensures
        r@ == v@,
{
    let mut r: Vec<(TopicSigned32, NeuronIdU64)> = Vec::new();
    let mut i: usize = 0;
    while i < v.len()
        invariant
            i <= v@.len(),
            r@ == v@.subrange(0, i as int),
        decreases v@.len() - i,
    {
        r.push(v[i]);
        proof {
            assert(r@ =~= v@.subrange(0, i as int + 1));
        }
        i = i + 1;
    }
    proof {
        assert(v@.subrange(0, v@.len() as int) =~= v@);
    }
    r
}

/// The in-memory following index, for the non-persistent deployment. It
/// holds both directions: the delegation pairs keyed by pair, and the
/// followee pairs keyed by follower.
pub struct HeapNeuronFollowingIndex {
    topic_followee_to_followers: BTreeMap<(i32, u64), Vec<u64>>,
    followee_pairs_by_follower: BTreeMap<u64, Vec<(i32, u64)>>,
}

impl HeapNeuronFollowingIndex {
    /// The reverse direction: the delegation pairs recorded for each
    /// follower, in insertion order.
    pub closed spec fn followee_view(&self) -> Map<u64, Seq<(i32, u64)>> {
        self.followee_pairs_by_follower@.map_values(|v: Vec<(i32, u64)>| v@)
    }

    /// The two directions record exactly the same delegations.
    pub open spec fn directions_agree(&self) -> bool {
        forall|p: (i32, u64), f: u64|
            #![trigger crate::multimap::member(self.pairs_view(), p, f)]
            #![trigger crate::multimap::member(self.followee_view(), f, p)]
            crate::multimap::member(self.pairs_view(), p, f) == crate::multimap::member(
                self.followee_view(),
                f,
                p,
            )
    }

    /// Creates an empty in-memory index.
    pub fn new() -> (index: Self)
        ensures
            index.inv(),
            index.pairs_view() == Map::<(i32, u64), Seq<u64>>::empty(),
            index.followee_view() == Map::<u64, Seq<(i32, u64)>>::empty(),
    {
        let index = HeapNeuronFollowingIndex {
            topic_followee_to_followers: BTreeMap::new(),
            followee_pairs_by_follower: BTreeMap::new(),
        };
        proof {
            assert(index.pairs_view() =~= Map::<(i32, u64), Seq<u64>>::empty());
            assert(index.followee_view() =~= Map::<u64, Seq<(i32, u64)>>::empty());
        }
        index
    }

    /// The delegation pairs the follower is recorded on, in insertion
    /// order.
    pub fn get_followee_pairs(&self, follower: NeuronIdU64) -> (pairs: Vec<
        (TopicSigned32, NeuronIdU64),
    >)
        requires
            self.inv(),
        ensures
            pairs@ == crate::multimap::ids_of(self.followee_view(), follower),
    {
        match self.followee_pairs_by_follower.get(&follower) {
            Some(existing) => copy_pairs(existing),
            None => Vec::new(),
        }
    }
}

impl NeuronFollowingIndex for HeapNeuronFollowingIndex {
    closed spec fn pairs_view(&self) -> Map<(i32, u64), Seq<u64>> {
        self.topic_followee_to_followers@.map_values(|v: Vec<u64>| v@)
    }

    closed spec fn inv(&self) -> bool {
        &&& (forall|p: (i32, u64)| #[trigger]
            self.topic_followee_to_followers@.contains_key(p)
                ==> self.topic_followee_to_followers@[p]@.len() > 0 && unique_ids(
                self.topic_followee_to_followers@[p]@,
            ))
        &&& (forall|f: u64| #[trigger]
            self.followee_pairs_by_follower@.contains_key(f)
                ==> self.followee_pairs_by_follower@[f]@.len() > 0 && unique_ids(
                self.followee_pairs_by_follower@[f]@,
            ))
        &&& self.directions_agree()
    }

    fn add_neuron_followee(&mut self, pair: (TopicSigned32, NeuronIdU64), follower: NeuronIdU64) -> (
        added: bool) {
        let mut forward: Vec<u64> = match self.topic_followee_to_followers.get(&pair) {
            Some(existing) => existing.clone(),
            None => Vec::new(),
        };
        if contains_u64(&forward, follower) {
            proof {
                assert(self.pairs_view() =~= follow_add1(old(self).pairs_view(), pair, follower));
            }
            return false;
        }
        proof {
            // The reverse direction cannot hold the delegation either.
            assert(!crate::multimap::member(self.pairs_view(), pair, follower));
            assert(!crate::multimap::member(self.followee_view(), follower, pair));
        }
        forward.push(follower);
        self.topic_followee_to_followers.insert(pair, forward);
        let mut reverse: Vec<(i32, u64)> = match self.followee_pairs_by_follower.get(&follower) {
            Some(existing) => copy_pairs(existing),
            None => Vec::new(),
        };
        reverse.push(pair);
        self.followee_pairs_by_follower.insert(follower, reverse);
        proof {
            let pre = old(self).pairs_view();
            let pre_rev = old(self).followee_view();
            assert(self.pairs_view() =~= follow_add1(pre, pair, follower));
            assert(self.followee_view() =~= crate::multimap::list_add1(pre_rev, follower, pair));
            assert forall|p2: (i32, u64), f2: u64|
                crate::multimap::member(self.pairs_view(), p2, f2) == crate::multimap::member(
                    self.followee_view(),
                    f2,
                    p2,
                ) by {
                crate::multimap::lemma_member_add1(pre, pair, follower, p2, f2);
                crate::multimap::lemma_member_add1(pre_rev, follower, pair, f2, p2);
            }
        }
        true
    }

    fn remove_neuron_followee(
        &mut self,
        pair: (TopicSigned32, NeuronIdU64),
        follower: NeuronIdU64,
    ) -> (removed: bool) {
        let mut forward: Vec<u64> = match self.topic_followee_to_followers.get(&pair) {
            Some(existing) => existing.clone(),
            None => Vec::new(),
        };
        let found = remove_first_u64(&mut forward, follower);
        if !found {
            proof {
                assert(self.pairs_view() =~= follow_remove1(
                    old(self).pairs_view(),
                    pair,
                    follower,
                ));
            }
            return false;
        }
        proof {
            lemma_remove_first_unique(old(self).topic_followee_to_followers@[pair]@, follower);
            // The reverse direction holds the delegation as well.
            assert(crate::multimap::member(self.pairs_view(), pair, follower));
            assert(crate::multimap::member(self.followee_view(), follower, pair));
        }
        if forward.len() == 0 {
            self.topic_followee_to_followers.remove(&pair);
        } else {
            self.topic_followee_to_followers.insert(pair, forward);
        }
        let mut reverse: Vec<(i32, u64)> = match self.followee_pairs_by_follower.get(&follower) {
            Some(existing) => copy_pairs(existing),
            None => Vec::new(),
        };
        remove_first_pair(&mut reverse, pair);
        proof {
            lemma_remove_first_unique(old(self).followee_pairs_by_follower@[follower]@, pair);
        }
        if reverse.len() == 0 {
            self.followee_pairs_by_follower.remove(&follower);
        } else {
            self.followee_pairs_by_follower.insert(follower, reverse);
        }
        proof {
            let pre = old(self).pairs_view();
            let pre_rev = old(self).followee_view();
            assert(self.pairs_view() =~= follow_remove1(pre, pair, follower));
            assert(self.followee_view() =~= crate::multimap::list_remove1(pre_rev, follower, pair));
            assert forall|p2: (i32, u64), f2: u64|
                crate::multimap::member(self.pairs_view(), p2, f2) == crate::multimap::member(
                    self.followee_view(),
                    f2,
                    p2,
                ) by {
                crate::multimap::lemma_member_remove1(pre, pair, follower, p2, f2);
                crate::multimap::lemma_member_remove1(pre_rev, follower, pair, f2, p2);
            }
        }
        true
    }

    fn get_followers(&self, pair: (TopicSigned32, NeuronIdU64)) -> (followers: Vec<NeuronIdU64>) {
        match self.topic_followee_to_followers.get(&pair) {
            Some(existing) => existing.clone(),
            None => Vec::new(),
        }
    }
}

/// A consistent segment-backed following index never stores an empty
/// follower list; this is the shape the library's round-trip law assumes
/// of its views.
pub proof fn lemma_stable_inv_implies_lists_wf(index: StableNeuronFollowingIndex)
    requires
        index.inv(),
    ensures
        crate::multimap::lists_wf(index.pairs_view()),
{
    assert forall|p: (i32, u64)| #[trigger]
        index.pairs_view().contains_key(p) implies index.pairs_view()[p].len() > 0 by {
        assert(byte_map_view(index.map).contains_key(pair_key(p)));
    }
}

/// A consistent in-memory following index never stores an empty follower
/// list either.
pub proof fn lemma_heap_inv_implies_lists_wf(index: HeapNeuronFollowingIndex)
    requires
        index.inv(),
    ensures
        crate::multimap::lists_wf(index.pairs_view()),
{
    assert forall|p: (i32, u64)| #[trigger]
        index.pairs_view().contains_key(p) implies index.pairs_view()[p].len() > 0 by {
        assert(index.topic_followee_to_followers@.contains_key(p));
    }
}

/// Records every delegation pair in the list for the follower and returns
/// the pairs that were already recorded, in order.
pub fn add_neuron_followees<I: NeuronFollowingIndex>(
    index: &mut I,
    follower: NeuronIdU64,
    followees: &Vec<(TopicSigned32, NeuronIdU64)>,
) -> (already_present: Vec<(TopicSigned32, NeuronIdU64)>)
    requires
        old(index).inv(),
    ensures
        final(index).inv(),
        final(index).pairs_view() == follows_add(old(index).pairs_view(), followees@, follower),
        already_present@ == follows_add_already(old(index).pairs_view(), followees@, follower),
{
    let ghost m0 = old(index).pairs_view();
    let ghost ps = followees@;
    let mut already_present: Vec<(TopicSigned32, NeuronIdU64)> = Vec::new();
    let mut i: usize = 0;
    proof {
        assert(ps.subrange(0, ps.len() as int) =~= ps);
    }
    while i < followees.len()
        invariant
            i <= ps.len(),
            ps == followees@,
            index.inv(),
            follows_add(index.pairs_view(), ps.subrange(i as int, ps.len() as int), follower)
                == follows_add(m0, ps, follower),
            already_present@ + follows_add_already(
                index.pairs_view(),
                ps.subrange(i as int, ps.len() as int),
                follower,
            ) == follows_add_already(m0, ps, follower),
        decreases ps.len() - i,
    {
        let ghost rest = ps.subrange(i as int, ps.len() as int);
        let pair = followees[i];
        let added = index.add_neuron_followee(pair, follower);
        if !added {
            already_present.push(pair);
        }
        i = i + 1;
        proof {
            assert(rest[0] == ps[i - 1]);
            assert(rest.drop_first() =~= ps.subrange(i as int, ps.len() as int));
            assert(already_present@ + follows_add_already(
                index.pairs_view(),
                ps.subrange(i as int, ps.len() as int),
                follower,
            ) =~= follows_add_already(m0, ps, follower));
        }
    }
    proof {
        assert(ps.subrange(ps.len() as int, ps.len() as int) =~= Seq::<(i32, u64)>::empty());
        assert(already_present@ + Seq::<(i32, u64)>::empty() =~= already_present@);
    }
    already_present
}

/// Deletes every delegation pair in the list for the follower and returns
/// the pairs that were not recorded, in order.
pub fn remove_neuron_followees<I: NeuronFollowingIndex>(
    index: &mut I,
    follower: NeuronIdU64,
    followees: &Vec<(TopicSigned32, NeuronIdU64)>,
) -> (already_absent: Vec<(TopicSigned32, NeuronIdU64)>)
    requires
        old(index).inv(),
    ensures
        final(index).inv(),
        final(index).pairs_view() == follows_remove(old(index).pairs_view(), followees@, follower),
        already_absent@ == follows_remove_absent(old(index).pairs_view(), followees@, follower),
{
    let ghost m0 = old(index).pairs_view();
    let ghost ps = followees@;
    let mut already_absent: Vec<(TopicSigned32, NeuronIdU64)> = Vec::new();
    let mut i: usize = 0;
    proof {
        assert(ps.subrange(0, ps.len() as int) =~= ps);
    }
    while i < followees.len()
        invariant
            i <= ps.len(),
            ps == followees@,
            index.inv(),
            follows_remove(index.pairs_view(), ps.subrange(i as int, ps.len() as int), follower)
                == follows_remove(m0, ps, follower),
            already_absent@ + follows_remove_absent(
                index.pairs_view(),
                ps.subrange(i as int, ps.len() as int),
                follower,
            ) == follows_remove_absent(m0, ps, follower),
        decreases ps.len() - i,
    {
        let ghost rest = ps.subrange(i as int, ps.len() as int);
        let pair = followees[i];
        let removed = index.remove_neuron_followee(pair, follower);
        if !removed {
            already_absent.push(pair);
        }
        i = i + 1;
        proof {
            assert(rest[0] == ps[i - 1]);
            assert(rest.drop_first() =~= ps.subrange(i as int, ps.len() as int));
            assert(already_absent@ + follows_remove_absent(
                index.pairs_view(),
                ps.subrange(i as int, ps.len() as int),
                follower,
            ) =~= follows_remove_absent(m0, ps, follower));
        }
    }
    proof {
        assert(ps.subrange(ps.len() as int, ps.len() as int) =~= Seq::<(i32, u64)>::empty());
        assert(already_absent@ + Seq::<(i32, u64)>::empty() =~= already_absent@);
    }
    already_absent
}

} // verus!
