//! Tests of the metrics vocabulary: snake-case labels and key counts.

use neuron_indexes::metrics::{BooleanOperation, BooleanResult, KeyCounts, KeyRotationResult,
    KeyType, MessageType, MetricsDomain, MetricsResult, MetricsScope, ServiceType};

#[test]
fn labels_are_snake_cased_variant_names() {
    assert_eq!(KeyType::PublicRegistry.metric_label(), "public_registry");
    assert_eq!(KeyType::IdkgDealingEncryptionLocal.metric_label(), "idkg_dealing_encryption_local");
    assert_eq!(MetricsDomain::BasicSignature.metric_label(), "basic_signature");
    assert_eq!(MetricsDomain::ThresholdEcdsa.metric_label(), "threshold_ecdsa");
    assert_eq!(MetricsScope::Full.metric_label(), "full");
    assert_eq!(MetricsResult::Okay.metric_label(), "ok");
    assert_eq!(MetricsResult::Error.metric_label(), "err");
    assert_eq!(
        KeyRotationResult::LatestLocalRotationTooRecent.metric_label(),
        "latest_local_rotation_too_recent"
    );
    assert_eq!(ServiceType::Client.metric_label(), "client");
    assert_eq!(MessageType::Response.metric_label(), "response");
    assert_eq!(BooleanResult::True.metric_label(), "true");
    assert_eq!(
        BooleanOperation::KeyInRegistryMissingLocally.metric_label(),
        "key_in_registry_missing_locally"
    );
}

#[test]
fn result_tags_follow_the_result() {
    let ok: Result<u32, ()> = Ok(5);
    let err: Result<u32, ()> = Err(());
    assert_eq!(MetricsResult::of_result(&ok), MetricsResult::Okay);
    assert_eq!(MetricsResult::of_result(&err), MetricsResult::Error);
}

#[test]
fn key_counts_keep_their_four_numbers() {
    let counts = KeyCounts::new(1, 2, 3, 4);
    assert_eq!(counts.get_pk_registry(), 1);
    assert_eq!(counts.get_pk_local(), 2);
    assert_eq!(counts.get_sk_local(), 3);
    assert_eq!(counts.get_idkg_pks_local(), 4);
}
