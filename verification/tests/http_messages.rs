//! Tests of the boundary message types: canonical field maps,
//! authentication, envelope parsing and delegations.

use neuron_indexes::http::{Authentication, Blob, CanisterId, Delegation, HttpCallContent,
    HttpCanisterUpdate, HttpQueryContent, HttpReadState, HttpRequest, HttpRequestEnvelope,
    HttpRequestError, HttpUserQuery, Path, RawHttpRequestVal, SignedDelegation, Time, UserQuery};
use neuron_indexes::neuron::PrincipalId;

fn update(nonce: Option<Vec<u8>>) -> HttpCanisterUpdate {
    HttpCanisterUpdate {
        canister_id: Blob(vec![0, 0, 0, 0, 0, 0, 0, 4, 1, 1]),
        method_name: "greet".to_string(),
        arg: Blob(vec![68, 73, 68, 76]),
        sender: Blob(vec![4]),
        ingress_expiry: 1_700_000_000,
        nonce: nonce.map(Blob),
    }
}

fn keys(fields: &[(String, RawHttpRequestVal)]) -> Vec<&str> {
    fields.iter().map(|(k, _)| k.as_str()).collect()
}

#[test]
fn update_fields_are_in_key_order_without_nonce() {
    let fields = update(None).representation_independent_fields();
    assert_eq!(
        keys(&fields),
        vec!["arg", "canister_id", "ingress_expiry", "method_name", "request_type", "sender"]
    );
    assert_eq!(fields[0].1, RawHttpRequestVal::Bytes(vec![68, 73, 68, 76]));
    assert_eq!(fields[2].1, RawHttpRequestVal::U64(1_700_000_000));
    assert_eq!(fields[3].1, RawHttpRequestVal::Text("greet".to_string()));
    assert_eq!(fields[4].1, RawHttpRequestVal::Text("call".to_string()));
    assert_eq!(fields[5].1, RawHttpRequestVal::Bytes(vec![4]));
}

#[test]
fn update_fields_include_nonce_in_key_order() {
    let fields = update(Some(vec![9, 9])).representation_independent_fields();
    assert_eq!(
        keys(&fields),
        vec![
            "arg",
            "canister_id",
            "ingress_expiry",
            "method_name",
            "nonce",
            "request_type",
            "sender"
        ]
    );
    assert_eq!(fields[4].1, RawHttpRequestVal::Bytes(vec![9, 9]));
}

#[test]
fn call_content_delegates_to_its_update() {
    let content = HttpCallContent::Call { update: update(None) };
    assert_eq!(content.ingress_expiry(), 1_700_000_000);
    let fields = content.representation_independent_fields();
    assert_eq!(fields.len(), 6);
}

#[test]
fn query_fields_use_the_query_request_type() {
    let query = HttpUserQuery {
        canister_id: Blob(vec![1]),
        method_name: "status".to_string(),
        arg: Blob(vec![]),
        sender: Blob(vec![4]),
        ingress_expiry: 5,
        nonce: None,
    };
    let fields = HttpQueryContent::Query { query }.representation_independent_fields();
    assert_eq!(fields[4].1, RawHttpRequestVal::Text("query".to_string()));
}

#[test]
fn read_state_fields_nest_paths_as_arrays() {
    let read_state = HttpReadState {
        sender: Blob(vec![4]),
        paths: vec![Path(vec![b"time".to_vec()]), Path(vec![b"subnet".to_vec(), vec![7]])],
        nonce: None,
        ingress_expiry: 9,
    };
    let fields = read_state.representation_independent_fields();
    assert_eq!(keys(&fields), vec!["ingress_expiry", "paths", "request_type", "sender"]);
    assert_eq!(
        fields[1].1,
        RawHttpRequestVal::Array(vec![
            RawHttpRequestVal::Array(vec![RawHttpRequestVal::Bytes(b"time".to_vec())]),
            RawHttpRequestVal::Array(vec![
                RawHttpRequestVal::Bytes(b"subnet".to_vec()),
                RawHttpRequestVal::Bytes(vec![7]),
            ]),
        ])
    );
    assert_eq!(fields[2].1, RawHttpRequestVal::Text("read_state".to_string()));
}

fn query_envelope(
    pubkey: Option<Blob>,
    sig: Option<Blob>,
) -> HttpRequestEnvelope<HttpQueryContent> {
    HttpRequestEnvelope {
        content: HttpQueryContent::Query {
            query: HttpUserQuery {
                canister_id: Blob(vec![1]),
                method_name: "status".to_string(),
                arg: Blob(vec![2, 3]),
                sender: Blob(vec![4, 5]),
                ingress_expiry: 77,
                nonce: Some(Blob(vec![8])),
            },
        },
        sender_pubkey: pubkey,
        sender_sig: sig,
        sender_delegation: None,
    }
}

#[test]
fn authentication_reads_the_envelope() {
    let auth = Authentication::try_from(&query_envelope(None, None)).unwrap();
    assert_eq!(auth, Authentication::Anonymous);

    let auth =
        Authentication::try_from(&query_envelope(Some(Blob(vec![1])), Some(Blob(vec![2]))))
            .unwrap();
    match auth {
        Authentication::Authenticated(us) => {
            assert_eq!(us.signer_pubkey, vec![1]);
            assert_eq!(us.signature, vec![2]);
            assert_eq!(us.sender_delegation, None);
        },
        Authentication::Anonymous => panic!("expected an authenticated request"),
    }

    let err = Authentication::try_from(&query_envelope(Some(Blob(vec![1])), None));
    assert!(matches!(err, Err(HttpRequestError::MissingPubkeyOrSignature(_))));
}

#[test]
fn query_envelope_parses_into_a_request() {
    let request = HttpRequest::<UserQuery>::try_from(query_envelope(None, None)).unwrap();
    assert_eq!(request.sender().0, PrincipalId { bytes: vec![4, 5] });
    assert_eq!(request.ingress_expiry(), 77);
    assert_eq!(request.nonce(), Some(vec![8]));
    assert_eq!(request.authentication(), &Authentication::Anonymous);
    let content = request.take_content();
    assert_eq!(content.method_name, "status");
    assert_eq!(content.method_payload, vec![2, 3]);
}

#[test]
fn oversized_sender_principal_is_rejected() {
    let mut envelope = query_envelope(None, None);
    let HttpQueryContent::Query { query } = &mut envelope.content;
    query.sender = Blob(vec![0; 30]);
    let result = HttpRequest::<UserQuery>::try_from(envelope);
    assert!(matches!(result, Err(HttpRequestError::InvalidPrincipalId(_))));
}

#[test]
fn delegation_getters_and_targets() {
    let expiration = Time::from_nanos_since_unix_epoch(42);
    assert_eq!(expiration.as_nanos_since_unix_epoch(), 42);

    let plain = Delegation::new(vec![1, 2], expiration);
    assert_eq!(plain.pubkey(), &vec![1, 2]);
    assert_eq!(plain.expiration(), expiration);
    assert_eq!(plain.targets(), Ok(None));

    let c1 = CanisterId::new(PrincipalId { bytes: vec![1] }).unwrap();
    let c2 = CanisterId::new(PrincipalId { bytes: vec![2] }).unwrap();
    let restricted =
        Delegation::new_with_targets(vec![1, 2], expiration, vec![c1.clone(), c2.clone(), c1.clone()]);
    // Duplicates collapse; the first occurrence of each target stays.
    assert_eq!(restricted.targets(), Ok(Some(vec![c1, c2])));
}

#[test]
fn oversized_delegation_target_is_rejected() {
    let big = CanisterId::new(PrincipalId { bytes: vec![0; 30] }).unwrap();
    let restricted =
        Delegation::new_with_targets(vec![1], Time::from_nanos_since_unix_epoch(0), vec![big]);
    assert_eq!(
        restricted.targets(),
        Err("Error parsing canister ID: too many bytes".to_string())
    );
}

#[test]
fn delegation_fields_are_in_key_order() {
    let c1 = CanisterId::new(PrincipalId { bytes: vec![5, 6] }).unwrap();
    let restricted =
        Delegation::new_with_targets(vec![1, 2], Time::from_nanos_since_unix_epoch(31), vec![c1]);
    let fields = restricted.representation_independent_fields();
    assert_eq!(keys(&fields), vec!["expiration", "pubkey", "targets"]);
    assert_eq!(fields[0].1, RawHttpRequestVal::U64(31));
    assert_eq!(fields[1].1, RawHttpRequestVal::Bytes(vec![1, 2]));
    assert_eq!(
        fields[2].1,
        RawHttpRequestVal::Array(vec![RawHttpRequestVal::Bytes(vec![5, 6])])
    );

    let plain = Delegation::new(vec![1, 2], Time::from_nanos_since_unix_epoch(0));
    assert_eq!(keys(&plain.representation_independent_fields()), vec!["expiration", "pubkey"]);
}

#[test]
fn signed_delegation_carries_its_parts() {
    let delegation = Delegation::new(vec![7], Time::from_nanos_since_unix_epoch(1));
    let signed = SignedDelegation::new(delegation.clone(), vec![9, 9]);
    assert_eq!(signed.delegation(), &delegation);
    assert_eq!(signed.signature(), &Blob(vec![9, 9]));
    assert_eq!(signed.take_delegation(), delegation);
}
