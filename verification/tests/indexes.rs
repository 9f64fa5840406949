//! End-to-end tests of the index engine: the orchestrator's validation
//! gate, the fan-out to all four indexes, and the queryable state after
//! adds, updates and removals.

use neuron_indexes::codec::{decode_id_vec, encode_id_vec, read_u64_le};
use neuron_indexes::defects::{NeuronIndexDefect, NeuronStoreError};
use neuron_indexes::following_index::{HeapNeuronFollowingIndex, NeuronFollowingIndex};
use neuron_indexes::known_neuron_index::MAX_KNOWN_NEURON_NAME_SIZE;
use neuron_indexes::neuron::{KnownNeuronData, Neuron, NeuronId, PrincipalId, Subaccount};
use neuron_indexes::neuron_indexes::{new_heap_based, validate_neuron, NeuronIndex};
use neuron_indexes::text::u64_to_dec;

fn principal(tag: u8) -> PrincipalId {
    PrincipalId { bytes: vec![tag, tag, tag] }
}

fn subaccount(tag: u8) -> Subaccount {
    Subaccount { bytes: vec![tag; 32] }
}

fn neuron(id: u64, sub_tag: u8, principals: Vec<u8>, pairs: Vec<(i32, u64)>, name: Option<&str>) -> Neuron {
    Neuron {
        id: Some(NeuronId { id }),
        account: vec![sub_tag; 32],
        principal_ids_with_special_permissions: principals.into_iter().map(principal).collect(),
        topic_followee_pairs: pairs,
        known_neuron_data: name.map(|n| KnownNeuronData { name: n.to_string() }),
    }
}

#[test]
fn add_remove_round_trip_restores_queryable_state() {
    let mut indexes = new_heap_based();
    let e = neuron(1, 9, vec![1, 2], vec![(4, 2), (5, 3)], Some("alpha"));

    assert_eq!(indexes.add_neuron(&e), Ok(()));
    assert_eq!(indexes.remove_neuron(&e), Ok(()));

    assert_eq!(indexes.subaccount().get_neuron_id_by_subaccount(&subaccount(9)), None);
    assert_eq!(indexes.principal().get_neuron_ids(&principal(1)), Vec::<u64>::new());
    assert_eq!(indexes.principal().get_neuron_ids(&principal(2)), Vec::<u64>::new());
    assert_eq!(indexes.following().get_followers((4, 2)), Vec::<u64>::new());
    assert_eq!(indexes.following().get_followers((5, 3)), Vec::<u64>::new());
    assert_eq!(indexes.known_neuron().get_known_neuron_id("alpha"), None);
}

#[test]
fn round_trip_leaves_other_entries_alone() {
    let mut indexes = new_heap_based();
    let resident = neuron(7, 3, vec![1], vec![(4, 2)], Some("resident"));
    let visitor = neuron(8, 5, vec![1], vec![(4, 2)], Some("visitor"));

    assert_eq!(indexes.add_neuron(&resident), Ok(()));
    assert_eq!(indexes.add_neuron(&visitor), Ok(()));
    assert_eq!(indexes.remove_neuron(&visitor), Ok(()));

    assert_eq!(
        indexes.subaccount().get_neuron_id_by_subaccount(&subaccount(3)),
        Some(NeuronId { id: 7 })
    );
    assert_eq!(indexes.principal().get_neuron_ids(&principal(1)), vec![7]);
    assert_eq!(indexes.following().get_followers((4, 2)), vec![7]);
    assert_eq!(
        indexes.known_neuron().get_known_neuron_id("resident"),
        Some(NeuronId { id: 7 })
    );
    assert_eq!(indexes.known_neuron().get_known_neuron_id("visitor"), None);
}

#[test]
fn noop_update_succeeds_and_changes_nothing() {
    let mut indexes = new_heap_based();
    let e = neuron(2, 4, vec![1], vec![(4, 9)], Some("beta"));

    assert_eq!(indexes.add_neuron(&e), Ok(()));
    assert_eq!(indexes.update_neuron(&e, &e), Ok(()));

    assert_eq!(
        indexes.subaccount().get_neuron_id_by_subaccount(&subaccount(4)),
        Some(NeuronId { id: 2 })
    );
    assert_eq!(indexes.principal().get_neuron_ids(&principal(1)), vec![2]);
    assert_eq!(indexes.following().get_followers((4, 9)), vec![2]);
    assert_eq!(indexes.known_neuron().get_known_neuron_id("beta"), Some(NeuronId { id: 2 }));
}

#[test]
fn update_applies_minimal_principal_diff() {
    let mut indexes = new_heap_based();
    // Another neuron shares the untouched principal, pinning its list.
    let other = neuron(9, 8, vec![2], vec![], None);
    let old = neuron(3, 6, vec![1, 2], vec![], None);
    let new = neuron(3, 6, vec![2, 3], vec![], None);

    assert_eq!(indexes.add_neuron(&other), Ok(()));
    assert_eq!(indexes.add_neuron(&old), Ok(()));
    assert_eq!(indexes.update_neuron(&old, &new), Ok(()));

    // Exactly the first principal was removed and exactly the third added;
    // the shared second principal kept its list, order included.
    assert_eq!(indexes.principal().get_neuron_ids(&principal(1)), Vec::<u64>::new());
    assert_eq!(indexes.principal().get_neuron_ids(&principal(2)), vec![9, 3]);
    assert_eq!(indexes.principal().get_neuron_ids(&principal(3)), vec![3]);
}

#[test]
fn second_add_reports_defects_and_keeps_single_add_content() {
    let mut indexes = new_heap_based();
    let e = neuron(4, 2, vec![1], vec![(4, 2)], Some("gamma"));

    assert_eq!(indexes.add_neuron(&e), Ok(()));
    let result = indexes.add_neuron(&e);

    let expected = NeuronStoreError::CorruptedNeuronIndexes(
        neuron_indexes::defects::CorruptedNeuronIndexes {
            neuron_id: 4,
            indexes: vec![
                NeuronIndexDefect::Subaccount {
                    reason: format!("Subaccount {:?} already exists in the index", vec![2u8; 32]),
                },
                NeuronIndexDefect::Principal {
                    reason: format!(
                        "Principals {:?} already present for neuron 4",
                        vec![vec![1u8, 1, 1]]
                    ),
                },
                NeuronIndexDefect::Following {
                    reason: format!(
                        "Topic-followee pairs {:?} already present for neuron 4",
                        vec![(4, 2)]
                    ),
                },
                NeuronIndexDefect::KnownNeuron {
                    reason: "Failed to add neuron 4 to known neuron index because the known \
                             neuron name gamma already exists"
                        .to_string(),
                },
            ],
        },
    );
    assert_eq!(result, Err(expected));

    // The content still equals what a single add produced.
    assert_eq!(
        indexes.subaccount().get_neuron_id_by_subaccount(&subaccount(2)),
        Some(NeuronId { id: 4 })
    );
    assert_eq!(indexes.principal().get_neuron_ids(&principal(1)), vec![4]);
    assert_eq!(indexes.following().get_followers((4, 2)), vec![4]);
    assert_eq!(indexes.known_neuron().get_known_neuron_id("gamma"), Some(NeuronId { id: 4 }));
}

#[test]
fn update_with_different_ids_touches_no_index() {
    let mut indexes = new_heap_based();
    let old = neuron(5, 7, vec![1], vec![(4, 2)], None);
    assert_eq!(indexes.add_neuron(&old), Ok(()));

    let renamed = neuron(6, 7, vec![2], vec![(4, 3)], None);
    let result = indexes.update_neuron(&old, &renamed);
    assert_eq!(
        result,
        Err(NeuronStoreError::NeuronIdModified {
            old_neuron_id: NeuronId { id: 5 },
            new_neuron_id: NeuronId { id: 6 },
        })
    );

    // Nothing moved: the old entries stand, the new ones do not exist.
    assert_eq!(indexes.principal().get_neuron_ids(&principal(1)), vec![5]);
    assert_eq!(indexes.principal().get_neuron_ids(&principal(2)), Vec::<u64>::new());
    assert_eq!(indexes.following().get_followers((4, 2)), vec![5]);
    assert_eq!(indexes.following().get_followers((4, 3)), Vec::<u64>::new());
}

#[test]
fn update_with_different_subaccounts_touches_no_index() {
    let mut indexes = new_heap_based();
    let old = neuron(5, 7, vec![1], vec![], None);
    assert_eq!(indexes.add_neuron(&old), Ok(()));

    let moved = neuron(5, 8, vec![2], vec![], None);
    let result = indexes.update_neuron(&old, &moved);
    assert_eq!(
        result,
        Err(NeuronStoreError::SubaccountModified {
            old_subaccount: subaccount(7),
            new_subaccount: subaccount(8),
        })
    );
    assert_eq!(indexes.principal().get_neuron_ids(&principal(1)), vec![5]);
    assert_eq!(indexes.principal().get_neuron_ids(&principal(2)), Vec::<u64>::new());
}

#[test]
fn name_collision_reports_only_known_neuron_defect() {
    let mut indexes = new_heap_based();
    let first = neuron(1, 1, vec![1], vec![(4, 2)], Some("shared"));
    let second = neuron(2, 2, vec![2], vec![(4, 3)], Some("shared"));

    assert_eq!(indexes.add_neuron(&first), Ok(()));
    let result = indexes.add_neuron(&second);

    let expected = NeuronStoreError::CorruptedNeuronIndexes(
        neuron_indexes::defects::CorruptedNeuronIndexes {
            neuron_id: 2,
            indexes: vec![NeuronIndexDefect::KnownNeuron {
                reason: "Failed to add neuron 2 to known neuron index because the known \
                         neuron name shared already exists"
                    .to_string(),
            }],
        },
    );
    assert_eq!(result, Err(expected));

    // The other three indexes reflect the new neuron regardless.
    assert_eq!(
        indexes.subaccount().get_neuron_id_by_subaccount(&subaccount(2)),
        Some(NeuronId { id: 2 })
    );
    assert_eq!(indexes.principal().get_neuron_ids(&principal(2)), vec![2]);
    assert_eq!(indexes.following().get_followers((4, 3)), vec![2]);
    // The name still belongs to the first neuron.
    assert_eq!(indexes.known_neuron().get_known_neuron_id("shared"), Some(NeuronId { id: 1 }));
}

#[test]
fn full_lifecycle_scenario() {
    let mut indexes = new_heap_based();
    let topic_x = 4;
    let a = neuron(1, 11, vec![1], vec![(topic_x, 2)], None);

    assert_eq!(indexes.add_neuron(&a), Ok(()));
    assert_eq!(
        indexes.subaccount().get_neuron_id_by_subaccount(&subaccount(11)),
        Some(NeuronId { id: 1 })
    );
    assert_eq!(indexes.principal().get_neuron_ids(&principal(1)), vec![1]);
    assert_eq!(indexes.following().get_followers((topic_x, 2)), vec![1]);

    let b = neuron(1, 11, vec![1, 2], vec![(topic_x, 3)], None);
    assert_eq!(indexes.update_neuron(&a, &b), Ok(()));
    assert_eq!(indexes.principal().get_neuron_ids(&principal(1)), vec![1]);
    assert_eq!(indexes.principal().get_neuron_ids(&principal(2)), vec![1]);
    assert_eq!(indexes.following().get_followers((topic_x, 2)), Vec::<u64>::new());
    assert_eq!(indexes.following().get_followers((topic_x, 3)), vec![1]);

    assert_eq!(indexes.remove_neuron(&b), Ok(()));
    assert_eq!(indexes.subaccount().get_neuron_id_by_subaccount(&subaccount(11)), None);
    assert_eq!(indexes.principal().get_neuron_ids(&principal(1)), Vec::<u64>::new());
    assert_eq!(indexes.principal().get_neuron_ids(&principal(2)), Vec::<u64>::new());
    assert_eq!(indexes.following().get_followers((topic_x, 3)), Vec::<u64>::new());
}

#[test]
fn validation_rejects_missing_id_and_bad_account() {
    let mut no_id = neuron(1, 1, vec![], vec![], None);
    no_id.id = None;
    assert_eq!(validate_neuron(&no_id), Err(NeuronStoreError::NeuronIdIsNone));

    let mut bad_account = neuron(1, 1, vec![], vec![], None);
    bad_account.account = vec![1, 2, 3];
    assert_eq!(
        validate_neuron(&bad_account),
        Err(NeuronStoreError::InvalidSubaccount {
            neuron_id: NeuronId { id: 1 },
            subaccount_bytes: vec![1, 2, 3],
        })
    );

    let mut indexes = new_heap_based();
    assert_eq!(indexes.add_neuron(&no_id), Err(NeuronStoreError::NeuronIdIsNone));
    assert!(matches!(
        indexes.remove_neuron(&bad_account),
        Err(NeuronStoreError::InvalidSubaccount { .. })
    ));
}

#[test]
fn removing_an_absent_neuron_reports_each_index() {
    let mut indexes = new_heap_based();
    let e = neuron(5, 1, vec![1], vec![(4, 2)], Some("ghostly"));

    let result = indexes.remove_neuron(&e);
    let expected = NeuronStoreError::CorruptedNeuronIndexes(
        neuron_indexes::defects::CorruptedNeuronIndexes {
            neuron_id: 5,
            indexes: vec![
                NeuronIndexDefect::Subaccount {
                    reason: format!(
                        "Subaccount {:?} to remove does not exist in the index",
                        vec![1u8; 32]
                    ),
                },
                NeuronIndexDefect::Principal {
                    reason: format!(
                        "Principals {:?} already absent for neuron 5",
                        vec![vec![1u8, 1, 1]]
                    ),
                },
                NeuronIndexDefect::Following {
                    reason: format!(
                        "Topic-followee pairs {:?} already absent for neuron 5",
                        vec![(4, 2)]
                    ),
                },
                NeuronIndexDefect::KnownNeuron {
                    reason: "Known neuron name ghostly cannot be removed as it does not exist"
                        .to_string(),
                },
            ],
        },
    );
    assert_eq!(result, Err(expected));
}

#[test]
fn oversized_known_name_is_reported_not_truncated() {
    let mut indexes = new_heap_based();
    let long_name: String = "n".repeat(MAX_KNOWN_NEURON_NAME_SIZE + 1);
    let e = neuron(7, 1, vec![], vec![], Some(&long_name));

    let result = indexes.add_neuron(&e);
    let expected_reason = format!(
        "Failed to add neuron 7 to known neuron index because the known neuron name {} \
         exceeds size limit",
        long_name
    );
    let expected = NeuronStoreError::CorruptedNeuronIndexes(
        neuron_indexes::defects::CorruptedNeuronIndexes {
            neuron_id: 7,
            indexes: vec![NeuronIndexDefect::KnownNeuron { reason: expected_reason }],
        },
    );
    assert_eq!(result, Err(expected));
    assert_eq!(indexes.known_neuron().get_known_neuron_id(&long_name), None);
}

#[test]
fn renaming_a_known_neuron_moves_the_name() {
    let mut indexes = new_heap_based();
    let old = neuron(3, 3, vec![], vec![], Some("before"));
    let new = neuron(3, 3, vec![], vec![], Some("after"));

    assert_eq!(indexes.add_neuron(&old), Ok(()));
    assert_eq!(indexes.update_neuron(&old, &new), Ok(()));
    assert_eq!(indexes.known_neuron().get_known_neuron_id("before"), None);
    assert_eq!(indexes.known_neuron().get_known_neuron_id("after"), Some(NeuronId { id: 3 }));
    assert!(indexes.known_neuron().contains_known_neuron_name("after"));
}

#[test]
fn renaming_onto_a_taken_name_reports_the_collision() {
    let mut indexes = new_heap_based();
    let holder = neuron(1, 1, vec![], vec![], Some("taken"));
    let old = neuron(2, 2, vec![], vec![], Some("free"));
    let renamed = neuron(2, 2, vec![], vec![], Some("taken"));

    assert_eq!(indexes.add_neuron(&holder), Ok(()));
    assert_eq!(indexes.add_neuron(&old), Ok(()));
    let result = indexes.update_neuron(&old, &renamed);

    let expected = NeuronStoreError::CorruptedNeuronIndexes(
        neuron_indexes::defects::CorruptedNeuronIndexes {
            neuron_id: 2,
            indexes: vec![NeuronIndexDefect::KnownNeuron {
                reason: "Failed to add neuron 2 to known neuron index because the known \
                         neuron name taken already exists"
                    .to_string(),
            }],
        },
    );
    assert_eq!(result, Err(expected));
    // The removal half went through: the old name is gone, the taken name
    // still belongs to its holder.
    assert_eq!(indexes.known_neuron().get_known_neuron_id("free"), None);
    assert_eq!(indexes.known_neuron().get_known_neuron_id("taken"), Some(NeuronId { id: 1 }));
}

#[test]
fn update_reports_absent_entries_it_was_asked_to_remove() {
    let mut indexes = new_heap_based();
    let indexed = neuron(6, 6, vec![1], vec![(4, 2)], None);
    assert_eq!(indexes.add_neuron(&indexed), Ok(()));

    // The old version claims entries that were never indexed; the update
    // reports them absent but still applies the rest.
    let old = neuron(6, 6, vec![1, 9], vec![(4, 2), (4, 9), (-3, 7)], None);
    let new = neuron(6, 6, vec![1], vec![(4, 2)], None);
    let result = indexes.update_neuron(&old, &new);

    let expected = NeuronStoreError::CorruptedNeuronIndexes(
        neuron_indexes::defects::CorruptedNeuronIndexes {
            neuron_id: 6,
            indexes: vec![
                NeuronIndexDefect::Principal {
                    reason: format!(
                        "Principals {:?} already absent for neuron 6",
                        vec![vec![9u8, 9, 9]]
                    ),
                },
                NeuronIndexDefect::Following {
                    reason: format!(
                        "Topic-followee pairs {:?} already absent for neuron 6",
                        vec![(4, 9), (-3, 7)]
                    ),
                },
            ],
        },
    );
    assert_eq!(result, Err(expected));
    assert_eq!(indexes.principal().get_neuron_ids(&principal(1)), vec![6]);
    assert_eq!(indexes.following().get_followers((4, 2)), vec![6]);
}

#[test]
fn heap_following_index_mirrors_the_stable_one() {
    let mut heap = HeapNeuronFollowingIndex::new();
    assert!(heap.add_neuron_followee((4, 2), 1));
    assert!(!heap.add_neuron_followee((4, 2), 1));
    assert!(heap.add_neuron_followee((4, 2), 6));
    assert_eq!(heap.get_followers((4, 2)), vec![1, 6]);
    assert!(heap.remove_neuron_followee((4, 2), 1));
    assert!(!heap.remove_neuron_followee((4, 2), 1));
    assert_eq!(heap.get_followers((4, 2)), vec![6]);

    let mut heap_as_index: HeapNeuronFollowingIndex = HeapNeuronFollowingIndex::new();
    let e = neuron(2, 1, vec![], vec![(4, 2), (5, 3)], None);
    assert_eq!(heap_as_index.add_neuron(&e), Ok(()));
    assert_eq!(heap_as_index.get_followers((5, 3)), vec![2]);
    assert_eq!(heap_as_index.remove_neuron(&e), Ok(()));
    assert_eq!(heap_as_index.get_followers((5, 3)), Vec::<u64>::new());
}

#[test]
fn heap_following_index_answers_by_follower_too() {
    let mut heap = HeapNeuronFollowingIndex::new();
    assert!(heap.add_neuron_followee((4, 2), 1));
    assert!(heap.add_neuron_followee((5, 3), 1));
    assert!(heap.add_neuron_followee((4, 2), 6));
    assert_eq!(heap.get_followee_pairs(1), vec![(4, 2), (5, 3)]);
    assert_eq!(heap.get_followee_pairs(6), vec![(4, 2)]);
    assert_eq!(heap.get_followee_pairs(9), Vec::<(i32, u64)>::new());

    assert!(heap.remove_neuron_followee((4, 2), 1));
    assert_eq!(heap.get_followee_pairs(1), vec![(5, 3)]);
    assert_eq!(heap.get_followers((4, 2)), vec![6]);
}

#[test]
fn id_codec_round_trips_and_uses_little_endian_words() {
    let ids: Vec<u64> = vec![0, 1, 0x0123_4567_89ab_cdef, u64::MAX];
    let bytes = encode_id_vec(&ids);
    assert_eq!(bytes.len(), 32);
    assert_eq!(bytes[16..24], [0xef, 0xcd, 0xab, 0x89, 0x67, 0x45, 0x23, 0x01]);
    assert_eq!(decode_id_vec(&bytes), ids);
    assert_eq!(read_u64_le(&bytes, 16), 0x0123_4567_89ab_cdef);
}

#[test]
fn decimal_rendering_matches_formatting() {
    assert_eq!(u64_to_dec(0), "0");
    assert_eq!(u64_to_dec(7), "7");
    assert_eq!(u64_to_dec(1234567890), "1234567890");
    assert_eq!(u64_to_dec(u64::MAX), format!("{}", u64::MAX));
}
