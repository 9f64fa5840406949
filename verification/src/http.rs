//! HTTP requests that the replica boundary is prepared to handle: request
//! contents, envelopes, authentication, delegations and responses, modeled
//! over plain byte strings.
//!
//! Serialization of these types and the digest behind message ids belong to
//! the process-wiring and crypto layers outside this library; what is kept
//! here is the data, its validation, and the canonical field maps the
//! representation-independent hash is computed over.

use vstd::prelude::*;
use vstd::string::*;
use crate::codec::bytes_eq;
use crate::neuron::PrincipalId;

verus! {

/// The longest principal the boundary accepts, in bytes.
pub const PRINCIPAL_MAX_LENGTH_IN_BYTES: usize = 29;

/// An opaque byte string carried through a request.
#[derive(Clone, Debug, PartialEq, Eq, Hash)]
pub struct Blob(pub Vec<u8>);

impl View for Blob {
    type V = Seq<u8>;

    open spec fn view(&self) -> Seq<u8> {
        self.0@
    }
}

/// A point in time, in nanoseconds since the UNIX epoch.
#[derive(Clone, Copy, Debug, PartialEq, Eq, Hash, Structural)]
pub struct Time {
    nanos: u64,
}

impl Time {
    /// The time this many nanoseconds after the UNIX epoch.
    pub fn from_nanos_since_unix_epoch(nanos: u64) -> (r: Time)
        ensures
            r.spec_nanos() == nanos,
    {
        Time { nanos }
    }

    /// The nanoseconds since the UNIX epoch.
    pub closed spec fn spec_nanos(self) -> u64 {
        self.nanos
    }

    /// The nanoseconds since the UNIX epoch.
    pub fn as_nanos_since_unix_epoch(&self) -> (r: u64)
        ensures
            r == self.spec_nanos(),
    {
        self.nanos
    }
}

/// A block height.
#[derive(Clone, Copy, Debug, PartialEq, Eq, Hash, Structural)]
pub struct Height(pub u64);

/// The principal a request came from.
#[derive(Clone, Debug, PartialEq, Eq, Hash)]
pub struct UserId(pub PrincipalId);

impl View for UserId {
    type V = Seq<u8>;

    open spec fn view(&self) -> Seq<u8> {
        self.0@
    }
}

/// Why a principal could not be parsed.
#[derive(Clone, Copy, Debug, PartialEq, Eq, Structural)]
pub struct PrincipalIdParseError;

impl PrincipalId {
    /// Parses a principal from raw bytes; at most 29 bytes are accepted.
    pub fn try_from_bytes(bytes: &Vec<u8>) -> (r: Result<PrincipalId, PrincipalIdParseError>)
        ensures
            match r {
                Ok(p) => bytes@.len() <= PRINCIPAL_MAX_LENGTH_IN_BYTES && p@ == bytes@,
                Err(_) => bytes@.len() > PRINCIPAL_MAX_LENGTH_IN_BYTES,
            },
    {
        if bytes.len() > PRINCIPAL_MAX_LENGTH_IN_BYTES {
            Err(PrincipalIdParseError)
        } else {
            Ok(PrincipalId { bytes: bytes.clone() })
        }
    }
}

/// Why a principal could not name a canister.
#[derive(Clone, Copy, Debug, PartialEq, Eq, Structural)]
pub enum CanisterIdError {
    InvalidPrincipalId,
}

/// The principal of a canister.
#[derive(Clone, Debug, PartialEq, Eq, Hash)]
pub struct CanisterId(PrincipalId);

impl View for CanisterId {
    type V = Seq<u8>;

    closed spec fn view(&self) -> Seq<u8> {
        self.0@
    }
}

impl CanisterId {
    /// Wraps a principal as a canister id; every principal may name a
    /// canister.
    pub fn new(principal_id: PrincipalId) -> (r: Result<CanisterId, CanisterIdError>)
        ensures
            match r {
                Ok(c) => c@ == principal_id@,
                Err(_) => false,
            },
    {
        Ok(CanisterId(principal_id))
    }

    /// The canister's principal.
    pub fn get(&self) -> (r: PrincipalId)
        ensures
            r@ == self@,
    {
        PrincipalId { bytes: self.0.bytes.clone() }
    }
}

/// A user's signature over a request, with the key and any delegation
/// chain that authorizes it.
#[derive(Clone, Debug, PartialEq, Eq, Hash)]
pub struct UserSignature {
    pub signature: Vec<u8>,
    pub signer_pubkey: Vec<u8>,
    pub sender_delegation: Option<Vec<SignedDelegation>>,
}

/// The different types of values a canonical request field can hold.
#[derive(Debug, PartialEq, Eq, Hash)]
pub enum RawHttpRequestVal {
    Bytes(Vec<u8>),
    Text(String),
    U64(u64),
    Array(Vec<RawHttpRequestVal>),
}

/// The field holds these bytes under this key.
pub open spec fn is_bytes_field(f: (String, RawHttpRequestVal), key: Seq<char>, bytes: Seq<u8>) -> bool {
    f.0@ == key && match f.1 {
        RawHttpRequestVal::Bytes(b) => b@ == bytes,
        _ => false,
    }
}

/// The field holds this text under this key.
pub open spec fn is_text_field(f: (String, RawHttpRequestVal), key: Seq<char>, text: Seq<char>) -> bool {
    f.0@ == key && match f.1 {
        RawHttpRequestVal::Text(s) => s@ == text,
        _ => false,
    }
}

/// The field holds this word under this key.
pub open spec fn is_u64_field(f: (String, RawHttpRequestVal), key: Seq<char>, n: u64) -> bool {
    f.0@ == key && match f.1 {
        RawHttpRequestVal::U64(m) => m == n,
        _ => false,
    }
}

/// Describes the fields of a canister update call.
#[derive(Clone, Debug, PartialEq, Eq, Hash)]
pub struct HttpCanisterUpdate {
    pub canister_id: Blob,
    pub method_name: String,
    pub arg: Blob,
    pub sender: Blob,
    /// When the message expires, in nanoseconds since the UNIX epoch.
    pub ingress_expiry: u64,
    /// Omitted fields take no part in the message id.
    pub nonce: Option<Blob>,
}

impl HttpCanisterUpdate {
    /// The canonical key–value map the representation-independent hash of
    /// the update is computed over, in key order. Digesting it belongs to
    /// the crypto layer.
    pub fn representation_independent_fields(&self) -> (r: Vec<(String, RawHttpRequestVal)>)
        ensures
            r@.len() == (if self.nonce is Some {
                7int
            } else {
                6int
            }),
            is_bytes_field(r@[0], "arg"@, self.arg@),
            is_bytes_field(r@[1], "canister_id"@, self.canister_id@),
            is_u64_field(r@[2], "ingress_expiry"@, self.ingress_expiry),
            is_text_field(r@[3], "method_name"@, self.method_name@),
            (match self.nonce {
                Some(nonce) => is_bytes_field(r@[4], "nonce"@, nonce@) && is_text_field(
                    r@[5],
                    "request_type"@,
                    "call"@,
                ) && is_bytes_field(r@[6], "sender"@, self.sender@),
                None => is_text_field(r@[4], "request_type"@, "call"@) && is_bytes_field(
                    r@[5],
                    "sender"@,
                    self.sender@,
                ),
            }),
    {
        let mut r: Vec<(String, RawHttpRequestVal)> = Vec::new();
        r.push((String::from_str("arg"), RawHttpRequestVal::Bytes(self.arg.0.clone())));
        r.push(
            (String::from_str("canister_id"), RawHttpRequestVal::Bytes(self.canister_id.0.clone())),
        );
        r.push((String::from_str("ingress_expiry"), RawHttpRequestVal::U64(self.ingress_expiry)));
        r.push(
            (
                String::from_str("method_name"),
                RawHttpRequestVal::Text(self.method_name.clone()),
            ),
        );
        match &self.nonce {
            Some(nonce) => {
                r.push((String::from_str("nonce"), RawHttpRequestVal::Bytes(nonce.0.clone())));
            },
            None => {},
        }
        r.push(
            (String::from_str("request_type"), RawHttpRequestVal::Text(String::from_str("call"))),
        );
        r.push((String::from_str("sender"), RawHttpRequestVal::Bytes(self.sender.0.clone())));
        r
    }
}

/// Describes the contents of a call request.
#[derive(Clone, Debug, PartialEq, Eq)]
pub enum HttpCallContent {
    Call { update: HttpCanisterUpdate },
}

impl HttpCallContent {
    /// The canonical key–value map the representation-independent hash is
    /// computed over.
    pub fn representation_independent_fields(&self) -> (r: Vec<(String, RawHttpRequestVal)>)
        ensures
            ({
                let HttpCallContent::Call { update } = *self;
                {
                    &&& r@.len() == (if update.nonce is Some {
                        7int
                    } else {
                        6int
                    })
                    &&& is_bytes_field(r@[0], "arg"@, update.arg@)
                    &&& is_bytes_field(r@[1], "canister_id"@, update.canister_id@)
                    &&& is_u64_field(r@[2], "ingress_expiry"@, update.ingress_expiry)
                    &&& is_text_field(r@[3], "method_name"@, update.method_name@)
                    &&& (match update.nonce {
                        Some(nonce) => is_bytes_field(r@[4], "nonce"@, nonce@) && is_text_field(
                            r@[5],
                            "request_type"@,
                            "call"@,
                        ) && is_bytes_field(r@[6], "sender"@, update.sender@),
                        None => is_text_field(r@[4], "request_type"@, "call"@) && is_bytes_field(
                            r@[5],
                            "sender"@,
                            update.sender@,
                        ),
                    })
                }
            }),
    {
        let HttpCallContent::Call { update } = self;
        update.representation_independent_fields()
    }

    /// When the message expires.
    pub fn ingress_expiry(&self) -> (r: u64)
        ensures
            ({
                let HttpCallContent::Call { update } = *self;
                r == update.ingress_expiry
            }),
    {
        match self {
            HttpCallContent::Call { update } => update.ingress_expiry,
        }
    }
}

/// Describes the fields of a canister query call.
#[derive(Debug, Clone, PartialEq, Eq)]
pub struct HttpUserQuery {
    pub canister_id: Blob,
    pub method_name: String,
    pub arg: Blob,
    pub sender: Blob,
    /// When the message expires, in nanoseconds since the UNIX epoch.
    pub ingress_expiry: u64,
    /// Omitted fields take no part in the message id.
    pub nonce: Option<Blob>,
}

impl HttpUserQuery {
    /// The canonical key–value map the representation-independent hash of
    /// the query is computed over, in key order. Digesting it belongs to
    /// the crypto layer.
    pub fn representation_independent_fields(&self) -> (r: Vec<(String, RawHttpRequestVal)>)
        ensures
            r@.len() == (if self.nonce is Some {
                7int
            } else {
                6int
            }),
            is_bytes_field(r@[0], "arg"@, self.arg@),
            is_bytes_field(r@[1], "canister_id"@, self.canister_id@),
            is_u64_field(r@[2], "ingress_expiry"@, self.ingress_expiry),
            is_text_field(r@[3], "method_name"@, self.method_name@),
            (match self.nonce {
                Some(nonce) => is_bytes_field(r@[4], "nonce"@, nonce@) && is_text_field(
                    r@[5],
                    "request_type"@,
                    "query"@,
                ) && is_bytes_field(r@[6], "sender"@, self.sender@),
                None => is_text_field(r@[4], "request_type"@, "query"@) && is_bytes_field(
                    r@[5],
                    "sender"@,
                    self.sender@,
                ),
            }),
    {
        let mut r: Vec<(String, RawHttpRequestVal)> = Vec::new();
        r.push((String::from_str("arg"), RawHttpRequestVal::Bytes(self.arg.0.clone())));
        r.push(
            (String::from_str("canister_id"), RawHttpRequestVal::Bytes(self.canister_id.0.clone())),
        );
        r.push((String::from_str("ingress_expiry"), RawHttpRequestVal::U64(self.ingress_expiry)));
        r.push(
            (
                String::from_str("method_name"),
                RawHttpRequestVal::Text(self.method_name.clone()),
            ),
        );
        match &self.nonce {
            Some(nonce) => {
                r.push((String::from_str("nonce"), RawHttpRequestVal::Bytes(nonce.0.clone())));
            },
            None => {},
        }
        r.push(
            (String::from_str("request_type"), RawHttpRequestVal::Text(String::from_str("query"))),
        );
        r.push((String::from_str("sender"), RawHttpRequestVal::Bytes(self.sender.0.clone())));
        r
    }
}

/// Describes the contents of a query request.
#[derive(Debug, Clone, PartialEq, Eq)]
pub enum HttpQueryContent {
    Query { query: HttpUserQuery },
}

impl HttpQueryContent {
    /// The canonical key–value map the representation-independent hash is
    /// computed over.
    pub fn representation_independent_fields(&self) -> (r: Vec<(String, RawHttpRequestVal)>)
        ensures
            ({
                let HttpQueryContent::Query { query } = *self;
                {
                    &&& r@.len() == (if query.nonce is Some {
                        7int
                    } else {
                        6int
                    })
                    &&& is_bytes_field(r@[0], "arg"@, query.arg@)
                    &&& is_bytes_field(r@[1], "canister_id"@, query.canister_id@)
                    &&& is_u64_field(r@[2], "ingress_expiry"@, query.ingress_expiry)
                    &&& is_text_field(r@[3], "method_name"@, query.method_name@)
                    &&& (match query.nonce {
                        Some(nonce) => is_bytes_field(r@[4], "nonce"@, nonce@) && is_text_field(
                            r@[5],
                            "request_type"@,
                            "query"@,
                        ) && is_bytes_field(r@[6], "sender"@, query.sender@),
                        None => is_text_field(r@[4], "request_type"@, "query"@) && is_bytes_field(
                            r@[5],
                            "sender"@,
                            query.sender@,
                        ),
                    })
                }
            }),
    {
        match self {
            HttpQueryContent::Query { query } => query.representation_independent_fields(),
        }
    }
}

/// A sequence of labels naming a state subtree.
#[derive(Debug, Clone, PartialEq, Eq)]
pub struct Path(pub Vec<Vec<u8>>);

impl View for Path {
    type V = Seq<Seq<u8>>;

    open spec fn view(&self) -> Seq<Seq<u8>> {
        self.0@.map_values(|label: Vec<u8>| label@)
    }
}

/// One path rendered as a canonical array of label byte strings.
pub open spec fn path_matches(v: RawHttpRequestVal, path: Seq<Seq<u8>>) -> bool {
    match v {
        RawHttpRequestVal::Array(labels) => labels@.len() == path.len() && (forall|j: int|
            0 <= j < path.len() ==> match #[trigger] labels@[j] {
                RawHttpRequestVal::Bytes(b) => b@ == path[j],
                _ => false,
            }),
        _ => false,
    }
}

/// The field holds these paths under this key.
pub open spec fn is_paths_field(
    f: (String, RawHttpRequestVal),
    key: Seq<char>,
    paths: Seq<Seq<Seq<u8>>>,
) -> bool {
    f.0@ == key && match f.1 {
        RawHttpRequestVal::Array(items) => items@.len() == paths.len() && (forall|i: int|
            0 <= i < paths.len() ==> path_matches(#[trigger] items@[i], paths[i])),
        _ => false,
    }
}

/// A read-state request.
#[derive(Debug, Clone, PartialEq, Eq)]
pub struct HttpReadState {
    pub sender: Blob,
    /// A list of paths, where a path is itself a sequence of labels.
    pub paths: Vec<Path>,
    pub nonce: Option<Blob>,
    pub ingress_expiry: u64,
}

impl HttpReadState {
    /// The canonical key–value map the representation-independent hash of
    /// the read-state request is computed over, in key order. Digesting it
    /// belongs to the crypto layer.
    pub fn representation_independent_fields(&self) -> (r: Vec<(String, RawHttpRequestVal)>)
        ensures
            r@.len() == (if self.nonce is Some {
                5int
            } else {
                4int
            }),
            is_u64_field(r@[0], "ingress_expiry"@, self.ingress_expiry),
            (match self.nonce {
                Some(nonce) => is_bytes_field(r@[1], "nonce"@, nonce@) && is_paths_field(
                    r@[2],
                    "paths"@,
                    self.paths@.map_values(|p: Path| p@),
                ) && is_text_field(r@[3], "request_type"@, "read_state"@) && is_bytes_field(
                    r@[4],
                    "sender"@,
                    self.sender@,
                ),
                None => is_paths_field(
                    r@[1],
                    "paths"@,
                    self.paths@.map_values(|p: Path| p@),
                ) && is_text_field(r@[2], "request_type"@, "read_state"@) && is_bytes_field(
                    r@[3],
                    "sender"@,
                    self.sender@,
                ),
            }),
    {
        let mut r: Vec<(String, RawHttpRequestVal)> = Vec::new();
        r.push((String::from_str("ingress_expiry"), RawHttpRequestVal::U64(self.ingress_expiry)));
        match &self.nonce {
            Some(nonce) => {
                r.push((String::from_str("nonce"), RawHttpRequestVal::Bytes(nonce.0.clone())));
            },
            None => {},
        }
        let ghost path_views = self.paths@.map_values(|p: Path| p@);
        let mut items: Vec<RawHttpRequestVal> = Vec::new();
        let mut i: usize = 0;
        while i < self.paths.len()
            invariant
                i <= self.paths@.len(),
                path_views == self.paths@.map_values(|p: Path| p@),
                items@.len() == i,
                forall|k: int| 0 <= k < i ==> path_matches(#[trigger] items@[k], path_views[k]),
            decreases self.paths@.len() - i,
        {
            let path = &self.paths[i];
            let mut labels: Vec<RawHttpRequestVal> = Vec::new();
            let mut j: usize = 0;
            while j < path.0.len()
                invariant
                    j <= path.0@.len(),
                    *path == self.paths@[i as int],
                    i < self.paths@.len(),
                    path_views == self.paths@.map_values(|p: Path| p@),
                    labels@.len() == j,
                    forall|k: int|
                        0 <= k < j ==> match #[trigger] labels@[k] {
                            RawHttpRequestVal::Bytes(b) => b@ == path.0@[k]@,
                            _ => false,
                        },
                decreases path.0@.len() - j,
            {
                labels.push(RawHttpRequestVal::Bytes(path.0[j].clone()));
                j = j + 1;
            }
            items.push(RawHttpRequestVal::Array(labels));
            i = i + 1;
        }
        r.push((String::from_str("paths"), RawHttpRequestVal::Array(items)));
        r.push(
            (
                String::from_str("request_type"),
                RawHttpRequestVal::Text(String::from_str("read_state")),
            ),
        );
        r.push((String::from_str("sender"), RawHttpRequestVal::Bytes(self.sender.0.clone())));
        r
    }
}

/// Describes the contents of a read-state request.
#[derive(Debug, Clone, PartialEq, Eq)]
pub enum HttpReadStateContent {
    ReadState { read_state: HttpReadState },
}

impl HttpReadStateContent {
    /// The canonical key–value map the representation-independent hash is
    /// computed over.
    pub fn representation_independent_fields(&self) -> (r: Vec<(String, RawHttpRequestVal)>)
        ensures
            ({
                let HttpReadStateContent::ReadState { read_state } = *self;
                {
                    &&& r@.len() == (if read_state.nonce is Some {
                        5int
                    } else {
                        4int
                    })
                    &&& is_u64_field(r@[0], "ingress_expiry"@, read_state.ingress_expiry)
                    &&& (match read_state.nonce {
                        Some(nonce) => is_bytes_field(r@[1], "nonce"@, nonce@) && is_paths_field(
                            r@[2],
                            "paths"@,
                            read_state.paths@.map_values(|p: Path| p@),
                        ) && is_text_field(r@[3], "request_type"@, "read_state"@)
                            && is_bytes_field(r@[4], "sender"@, read_state.sender@),
                        None => is_paths_field(
                            r@[1],
                            "paths"@,
                            read_state.paths@.map_values(|p: Path| p@),
                        ) && is_text_field(r@[2], "request_type"@, "read_state"@)
                            && is_bytes_field(r@[3], "sender"@, read_state.sender@),
                    })
                }
            }),
    {
        match self {
            HttpReadStateContent::ReadState { read_state } => (
            read_state.representation_independent_fields()),
        }
    }
}

/// A request envelope: the content and what authenticates it.
#[derive(Debug, Clone, PartialEq, Eq)]
pub struct HttpRequestEnvelope<C> {
    pub content: C,
    pub sender_pubkey: Option<Blob>,
    pub sender_sig: Option<Blob>,
    pub sender_delegation: Option<Vec<SignedDelegation>>,
}

/// The authentication associated with a request.
#[derive(Debug, Clone, PartialEq, Eq, Hash)]
pub enum Authentication {
    Authenticated(UserSignature),
    Anonymous,
}

/// Two delegations carry the same key, expiration and targets.
pub open spec fn delegation_eq(a: Delegation, b: Delegation) -> bool {
    &&& a.spec_pubkey() == b.spec_pubkey()
    &&& a.spec_expiration() == b.spec_expiration()
    &&& a.spec_targets() == b.spec_targets()
}

/// Two signed delegations carry the same delegation and signature.
pub open spec fn signed_delegation_eq(a: SignedDelegation, b: SignedDelegation) -> bool {
    &&& delegation_eq(a.spec_delegation(), b.spec_delegation())
    &&& a.spec_signature() == b.spec_signature()
}

/// Two optional delegation chains carry the same delegations, in order.
pub open spec fn delegations_eq(
    a: Option<Vec<SignedDelegation>>,
    b: Option<Vec<SignedDelegation>>,
) -> bool {
    match (a, b) {
        (None, None) => true,
        (Some(x), Some(y)) => x@.len() == y@.len() && (forall|i: int|
            0 <= i < x@.len() ==> signed_delegation_eq(#[trigger] x@[i], y@[i])),
        _ => false,
    }
}

/// The authentication read out of these envelope fields: a key and a
/// signature make it authenticated with exactly those bytes and that
/// delegation chain; none of the three fields makes it anonymous.
pub open spec fn auth_matches(
    auth: Authentication,
    sender_pubkey: Option<Blob>,
    sender_sig: Option<Blob>,
    sender_delegation: Option<Vec<SignedDelegation>>,
) -> bool {
    match auth {
        Authentication::Authenticated(us) => {
            &&& (sender_pubkey matches Some(pk) && us.signer_pubkey@ == pk@)
            &&& (sender_sig matches Some(sig) && us.signature@ == sig@)
            &&& delegations_eq(us.sender_delegation, sender_delegation)
        },
        Authentication::Anonymous => sender_pubkey is None && sender_sig is None
            && sender_delegation is None,
    }
}

fn copy_delegation(d: &Delegation) -> (r: Delegation)
    ensures
        delegation_eq(r, *d),
{
    let targets = match &d.targets {
        None => None,
        Some(blobs) => {
            let mut copied: Vec<Blob> = Vec::new();
            let mut i: usize = 0;
            while i < blobs.len()
                invariant
                    i <= blobs@.len(),
                    copied@.len() == i,
                    forall|k: int| 0 <= k < i ==> #[trigger] copied@[k]@ == blobs@[k]@,
                decreases blobs@.len() - i,
            {
                copied.push(Blob(blobs[i].0.clone()));
                i = i + 1;
            }
            proof {
                assert(blob_views(copied@) =~= blob_views(blobs@));
            }
            Some(copied)
        },
    };
    Delegation { pubkey: Blob(d.pubkey.0.clone()), expiration: d.expiration, targets }
}

fn copy_signed_delegations(v: &Vec<SignedDelegation>) -> (r: Vec<SignedDelegation>)
    ensures
        r@.len() == v@.len(),
        forall|i: int| 0 <= i < v@.len() ==> signed_delegation_eq(#[trigger] r@[i], v@[i]),
{
    let mut r: Vec<SignedDelegation> = Vec::new();
    let mut i: usize = 0;
    while i < v.len()
        invariant
            i <= v@.len(),
            r@.len() == i,
            forall|k: int| 0 <= k < i ==> signed_delegation_eq(#[trigger] r@[k], v@[k]),
        decreases v@.len() - i,
    {
        let original = &v[i];
        let copied = SignedDelegation {
            delegation: copy_delegation(&original.delegation),
            signature: Blob(original.signature.0.clone()),
        };
        r.push(copied);
        i = i + 1;
    }
    r
}

impl Authentication {
    /// Reads the authentication out of an envelope: a key and a signature
    /// make it authenticated, none of the three fields makes it anonymous,
    /// and anything in between is rejected.
    pub fn try_from<C>(env: &HttpRequestEnvelope<C>) -> (r: Result<
        Authentication,
        HttpRequestError,
    >)
        ensures
            match r {
                Ok(auth) => auth_matches(
                    auth,
                    env.sender_pubkey,
                    env.sender_sig,
                    env.sender_delegation,
                ),
                Err(e) => match e {
                    HttpRequestError::MissingPubkeyOrSignature(_) => !(env.sender_pubkey is Some
                        && env.sender_sig is Some) && !(env.sender_pubkey is None
                        && env.sender_sig is None && env.sender_delegation is None),
                    _ => false,
                },
            },
    {
        match (&env.sender_pubkey, &env.sender_sig, &env.sender_delegation) {
            (Some(pubkey), Some(signature), delegation) => {
                let sender_delegation = match delegation {
                    None => None,
                    Some(chain) => Some(copy_signed_delegations(chain)),
                };
                Ok(
                    Authentication::Authenticated(
                        UserSignature {
                            signature: signature.0.clone(),
                            signer_pubkey: pubkey.0.clone(),
                            sender_delegation,
                        },
                    ),
                )
            },
            (None, None, None) => Ok(Authentication::Anonymous),
            _ => {
                proof {
                    reveal_strlit("the sender public key and the sender signature must come together");
                }
                Err(
                    HttpRequestError::MissingPubkeyOrSignature(
                        String::from_str(
                            "the sender public key and the sender signature must come together",
                        ),
                    ),
                )
            },
        }
    }
}

/// A strongly typed request: the parsed content and its authentication.
#[derive(Debug, Clone, PartialEq, Eq, Hash)]
pub struct HttpRequest<C> {
    content: C,
    auth: Authentication,
}

impl<C> HttpRequest<C> {
    /// The content this request carries.
    pub closed spec fn spec_content(self) -> C {
        self.content
    }

    /// The authentication this request carries.
    pub closed spec fn spec_authentication(self) -> Authentication {
        self.auth
    }
}

/// Common attributes all request contents carry.
pub trait HttpRequestContent {
    /// The bytes of the sending principal.
    spec fn spec_sender(&self) -> Seq<u8>;

    /// When the message expires.
    spec fn spec_ingress_expiry(&self) -> u64;

    /// The nonce bytes, where the request carries one.
    spec fn spec_nonce(&self) -> Option<Seq<u8>>;

    /// The sending principal.
    fn sender(&self) -> (r: UserId)
        ensures
            r@ == self.spec_sender(),
    ;

    /// When the message expires.
    fn ingress_expiry(&self) -> (r: u64)
        ensures
            r == self.spec_ingress_expiry(),
    ;

    /// The nonce, where the request carries one.
    fn nonce(&self) -> (r: Option<Vec<u8>>)
        ensures
            match r {
                Some(n) => self.spec_nonce() matches Some(v) && n@ == v,
                None => self.spec_nonce() is None,
            },
    ;
}

impl<C: HttpRequestContent> HttpRequest<C> {
    /// The sending principal.
    pub fn sender(&self) -> (r: UserId)
        ensures
            r@ == self.spec_content().spec_sender(),
    {
        self.content.sender()
    }

    /// When the message expires.
    pub fn ingress_expiry(&self) -> (r: u64)
        ensures
            r == self.spec_content().spec_ingress_expiry(),
    {
        self.content.ingress_expiry()
    }

    /// The nonce, where the request carries one.
    pub fn nonce(&self) -> (r: Option<Vec<u8>>)
        ensures
            match r {
                Some(n) => self.spec_content().spec_nonce() matches Some(v) && n@ == v,
                None => self.spec_content().spec_nonce() is None,
            },
    {
        self.content.nonce()
    }
}

impl<C> HttpRequest<C> {
    /// The parsed content.
    pub fn content(&self) -> (r: &C)
        ensures
            r == self.spec_content(),
    {
        &self.content
    }

    /// Takes the parsed content out.
    pub fn take_content(self) -> (r: C)
        ensures
            r == self.spec_content(),
    {
        self.content
    }

    /// The request's authentication.
    pub fn authentication(&self) -> (r: &Authentication)
        ensures
            r == self.spec_authentication(),
    {
        &self.auth
    }
}

/// Errors raised while parsing ingress messages at the boundary.
#[derive(Debug, Clone, PartialEq, Eq)]
pub enum HttpRequestError {
    InvalidMessageId(String),
    InvalidIngressExpiry(String),
    InvalidDelegationExpiry(String),
    InvalidPrincipalId(String),
    MissingPubkeyOrSignature(String),
    InvalidEncoding(String),
}

/// A parsed query, as the execution layer reads it.
#[derive(Debug, Clone, PartialEq, Eq)]
pub struct UserQuery {
    pub source: UserId,
    pub receiver: CanisterId,
    pub method_name: String,
    pub method_payload: Vec<u8>,
    pub ingress_expiry: u64,
    pub nonce: Option<Vec<u8>>,
}

impl HttpRequestContent for UserQuery {
    open spec fn spec_sender(&self) -> Seq<u8> {
        self.source@
    }

    open spec fn spec_ingress_expiry(&self) -> u64 {
        self.ingress_expiry
    }

    open spec fn spec_nonce(&self) -> Option<Seq<u8>> {
        match self.nonce {
            Some(n) => Some(n@),
            None => None,
        }
    }

    fn sender(&self) -> (r: UserId) {
        UserId(PrincipalId { bytes: self.source.0.bytes.clone() })
    }

    fn ingress_expiry(&self) -> (r: u64) {
        self.ingress_expiry
    }

    fn nonce(&self) -> (r: Option<Vec<u8>>) {
        match &self.nonce {
            Some(n) => Some(n.clone()),
            None => None,
        }
    }
}

impl UserQuery {
    /// Parses the boundary representation of a query, validating both
    /// principals.
    pub fn try_from(query: HttpUserQuery) -> (r: Result<UserQuery, HttpRequestError>)
        ensures
            match r {
                Ok(q) => query.sender@.len() <= PRINCIPAL_MAX_LENGTH_IN_BYTES
                    && query.canister_id@.len() <= PRINCIPAL_MAX_LENGTH_IN_BYTES && q.source@
                    == query.sender@ && q.receiver@ == query.canister_id@ && q.method_name@
                    == query.method_name@ && q.method_payload@ == query.arg@ && q.ingress_expiry
                    == query.ingress_expiry && (match q.nonce {
                    Some(n) => query.nonce matches Some(b) && n@ == b@,
                    None => query.nonce is None,
                }),
                Err(e) => match e {
                    HttpRequestError::InvalidPrincipalId(_) => query.sender@.len()
                        > PRINCIPAL_MAX_LENGTH_IN_BYTES || query.canister_id@.len()
                        > PRINCIPAL_MAX_LENGTH_IN_BYTES,
                    _ => false,
                },
            },
    {
        proof {
            reveal_strlit("the sender is not a valid principal");
            reveal_strlit("the canister id is not a valid principal");
        }
        let source = match PrincipalId::try_from_bytes(&query.sender.0) {
            Ok(p) => p,
            Err(_) => {
                return Err(
                    HttpRequestError::InvalidPrincipalId(
                        String::from_str("the sender is not a valid principal"),
                    ),
                );
            },
        };
        let receiver_principal = match PrincipalId::try_from_bytes(&query.canister_id.0) {
            Ok(p) => p,
            Err(_) => {
                return Err(
                    HttpRequestError::InvalidPrincipalId(
                        String::from_str("the canister id is not a valid principal"),
                    ),
                );
            },
        };
        let receiver = match CanisterId::new(receiver_principal) {
            Ok(c) => c,
            Err(_) => {
                return Err(
                    HttpRequestError::InvalidPrincipalId(
                        String::from_str("the canister id is not a valid principal"),
                    ),
                );
            },
        };
        let nonce = match query.nonce {
            Some(blob) => Some(blob.0),
            None => None,
        };
        Ok(
            UserQuery {
                source: UserId(source),
                receiver,
                method_name: query.method_name,
                method_payload: query.arg.0,
                ingress_expiry: query.ingress_expiry,
                nonce,
            },
        )
    }
}

/// A parsed read-state request, as the execution layer reads it.
#[derive(Debug, Clone, PartialEq, Eq)]
pub struct ReadState {
    pub source: UserId,
    pub paths: Vec<Path>,
    pub ingress_expiry: u64,
    pub nonce: Option<Vec<u8>>,
}

impl HttpRequestContent for ReadState {
    open spec fn spec_sender(&self) -> Seq<u8> {
        self.source@
    }

    open spec fn spec_ingress_expiry(&self) -> u64 {
        self.ingress_expiry
    }

    open spec fn spec_nonce(&self) -> Option<Seq<u8>> {
        match self.nonce {
            Some(n) => Some(n@),
            None => None,
        }
    }

    fn sender(&self) -> (r: UserId) {
        UserId(PrincipalId { bytes: self.source.0.bytes.clone() })
    }

    fn ingress_expiry(&self) -> (r: u64) {
        self.ingress_expiry
    }

    fn nonce(&self) -> (r: Option<Vec<u8>>) {
        match &self.nonce {
            Some(n) => Some(n.clone()),
            None => None,
        }
    }
}

impl ReadState {
    /// Parses the boundary representation of a read-state request,
    /// validating the sender.
    pub fn try_from(read_state: HttpReadState) -> (r: Result<ReadState, HttpRequestError>)
        ensures
            match r {
                Ok(q) => read_state.sender@.len() <= PRINCIPAL_MAX_LENGTH_IN_BYTES && q.source@
                    == read_state.sender@ && q.paths == read_state.paths && q.ingress_expiry
                    == read_state.ingress_expiry && (match q.nonce {
                    Some(n) => read_state.nonce matches Some(b) && n@ == b@,
                    None => read_state.nonce is None,
                }),
                Err(e) => match e {
                    HttpRequestError::InvalidPrincipalId(_) => read_state.sender@.len()
                        > PRINCIPAL_MAX_LENGTH_IN_BYTES,
                    _ => false,
                },
            },
    {
        proof {
            reveal_strlit("the sender is not a valid principal");
        }
        let source = match PrincipalId::try_from_bytes(&read_state.sender.0) {
            Ok(p) => p,
            Err(_) => {
                return Err(
                    HttpRequestError::InvalidPrincipalId(
                        String::from_str("the sender is not a valid principal"),
                    ),
                );
            },
        };
        let nonce = match read_state.nonce {
            Some(blob) => Some(blob.0),
            None => None,
        };
        Ok(
            ReadState {
                source: UserId(source),
                paths: read_state.paths,
                ingress_expiry: read_state.ingress_expiry,
                nonce,
            },
        )
    }
}

impl HttpRequest<UserQuery> {
    /// Parses a query envelope into a strongly typed request.
    pub fn try_from(envelope: HttpRequestEnvelope<HttpQueryContent>) -> (r: Result<
        HttpRequest<UserQuery>,
        HttpRequestError,
    >)
        ensures
            match r {
                Ok(request) => ({
                    let HttpQueryContent::Query { query } = envelope.content;
                    let q = request.spec_content();
                    &&& query.sender@.len() <= PRINCIPAL_MAX_LENGTH_IN_BYTES
                    &&& query.canister_id@.len() <= PRINCIPAL_MAX_LENGTH_IN_BYTES
                    &&& q.source@ == query.sender@
                    &&& q.receiver@ == query.canister_id@
                    &&& q.method_name@ == query.method_name@
                    &&& q.method_payload@ == query.arg@
                    &&& q.ingress_expiry == query.ingress_expiry
                    &&& (match q.nonce {
                        Some(n) => query.nonce matches Some(b) && n@ == b@,
                        None => query.nonce is None,
                    })
                    &&& auth_matches(
                        request.spec_authentication(),
                        envelope.sender_pubkey,
                        envelope.sender_sig,
                        envelope.sender_delegation,
                    )
                }),
                Err(e) => match e {
                    HttpRequestError::MissingPubkeyOrSignature(_) => !(envelope.sender_pubkey
                        is Some && envelope.sender_sig is Some) && !(envelope.sender_pubkey
                        is None && envelope.sender_sig is None && envelope.sender_delegation
                        is None),
                    HttpRequestError::InvalidPrincipalId(_) => ({
                        let HttpQueryContent::Query { query } = envelope.content;
                        query.sender@.len() > PRINCIPAL_MAX_LENGTH_IN_BYTES || query.canister_id@
                            .len() > PRINCIPAL_MAX_LENGTH_IN_BYTES
                    }),
                    _ => false,
                },
            },
    {
        let auth = match Authentication::try_from(&envelope) {
            Ok(a) => a,
            Err(e) => {
                return Err(e);
            },
        };
        match envelope.content {
            HttpQueryContent::Query { query } => {
                let content = match UserQuery::try_from(query) {
                    Ok(c) => c,
                    Err(e) => {
                        return Err(e);
                    },
                };
                Ok(HttpRequest { content, auth })
            },
        }
    }
}

impl HttpRequest<ReadState> {
    /// Parses a read-state envelope into a strongly typed request.
    pub fn try_from(envelope: HttpRequestEnvelope<HttpReadStateContent>) -> (r: Result<
        HttpRequest<ReadState>,
        HttpRequestError,
    >)
        ensures
            match r {
                Ok(request) => ({
                    let HttpReadStateContent::ReadState { read_state } = envelope.content;
                    let q = request.spec_content();
                    &&& read_state.sender@.len() <= PRINCIPAL_MAX_LENGTH_IN_BYTES
                    &&& q.source@ == read_state.sender@
                    &&& q.paths == read_state.paths
                    &&& q.ingress_expiry == read_state.ingress_expiry
                    &&& (match q.nonce {
                        Some(n) => read_state.nonce matches Some(b) && n@ == b@,
                        None => read_state.nonce is None,
                    })
                    &&& auth_matches(
                        request.spec_authentication(),
                        envelope.sender_pubkey,
                        envelope.sender_sig,
                        envelope.sender_delegation,
                    )
                }),
                Err(e) => match e {
                    HttpRequestError::MissingPubkeyOrSignature(_) => !(envelope.sender_pubkey
                        is Some && envelope.sender_sig is Some) && !(envelope.sender_pubkey
                        is None && envelope.sender_sig is None && envelope.sender_delegation
                        is None),
                    HttpRequestError::InvalidPrincipalId(_) => ({
                        let HttpReadStateContent::ReadState { read_state } = envelope.content;
                        read_state.sender@.len() > PRINCIPAL_MAX_LENGTH_IN_BYTES
                    }),
                    _ => false,
                },
            },
    {
        let auth = match Authentication::try_from(&envelope) {
            Ok(a) => a,
            Err(e) => {
                return Err(e);
            },
        };
        match envelope.content {
            HttpReadStateContent::ReadState { read_state } => {
                let content = match ReadState::try_from(read_state) {
                    Ok(c) => c,
                    Err(e) => {
                        return Err(e);
                    },
                };
                Ok(HttpRequest { content, auth })
            },
        }
    }
}

/// The byte strings of a list of blobs.
pub open spec fn blob_views(blobs: Seq<Blob>) -> Seq<Seq<u8>> {
    blobs.map_values(|b: Blob| b@)
}

/// Collects target canister ids from their byte blobs, keeping the first
/// occurrence of each and rejecting any blob too long to be a principal.
pub open spec fn collect_targets(acc: Seq<Seq<u8>>, ts: Seq<Seq<u8>>) -> Option<Seq<Seq<u8>>>
    decreases ts.len(),
{
    if ts.len() == 0 {
        Some(acc)
    } else if ts[0].len() > PRINCIPAL_MAX_LENGTH_IN_BYTES {
        None
    } else {
        collect_targets(
            if acc.contains(ts[0]) {
                acc
            } else {
                acc.push(ts[0])
            },
            ts.drop_first(),
        )
    }
}

/// A delegation of signing authority from one key to another, optionally
/// restricted to target canisters.
#[derive(Debug, Clone, PartialEq, Eq, Hash)]
pub struct Delegation {
    pubkey: Blob,
    expiration: Time,
    targets: Option<Vec<Blob>>,
}

impl Delegation {
    /// The delegated key's bytes.
    pub closed spec fn spec_pubkey(self) -> Seq<u8> {
        self.pubkey@
    }

    /// When the delegation expires.
    pub closed spec fn spec_expiration(self) -> Time {
        self.expiration
    }

    /// The target blobs this delegation carries, as byte strings.
    pub closed spec fn spec_targets(self) -> Option<Seq<Seq<u8>>> {
        match self.targets {
            Some(blobs) => Some(blob_views(blobs@)),
            None => None,
        }
    }

    /// A delegation without target restriction.
    pub fn new(pubkey: Vec<u8>, expiration: Time) -> (r: Delegation)
        ensures
            r.spec_pubkey() == pubkey@,
            r.spec_expiration() == expiration,
            r.spec_targets() is None,
    {
        Delegation { pubkey: Blob(pubkey), expiration, targets: None }
    }

    /// A delegation restricted to the given target canisters.
    pub fn new_with_targets(pubkey: Vec<u8>, expiration: Time, targets: Vec<CanisterId>) -> (r:
        Delegation)
        ensures
            r.spec_pubkey() == pubkey@,
            r.spec_expiration() == expiration,
            (match r.spec_targets() {
                Some(blobs) => blobs.len() == targets@.len() && (forall|i: int|
                    0 <= i < targets@.len() ==> #[trigger] blobs[i] == targets@[i]@),
                None => false,
            }),
    {
        let mut blobs: Vec<Blob> = Vec::new();
        let mut i: usize = 0;
        while i < targets.len()
            invariant
                i <= targets@.len(),
                blobs@.len() == i,
                forall|k: int| 0 <= k < i ==> #[trigger] blobs@[k]@ == targets@[k]@,
            decreases targets@.len() - i,
        {
            let principal = targets[i].get();
            blobs.push(Blob(principal.bytes));
            i = i + 1;
        }
        Delegation { pubkey: Blob(pubkey), expiration, targets: Some(blobs) }
    }

    /// The delegated key.
    pub fn pubkey(&self) -> (r: &Vec<u8>)
        ensures
            r@ == self.spec_pubkey(),
    {
        &self.pubkey.0
    }

    /// When the delegation expires.
    pub fn expiration(&self) -> (r: Time)
        ensures
            r == self.spec_expiration(),
    {
        self.expiration
    }

    /// The canonical key–value map the delegation's signed bytes are
    /// computed over, in key order. Digesting it belongs to the crypto
    /// layer.
    pub fn representation_independent_fields(&self) -> (r: Vec<(String, RawHttpRequestVal)>)
        ensures
            r@.len() == (if self.spec_targets() is Some {
                3int
            } else {
                2int
            }),
            is_u64_field(r@[0], "expiration"@, self.spec_expiration().spec_nanos()),
            is_bytes_field(r@[1], "pubkey"@, self.spec_pubkey()),
            (match self.spec_targets() {
                Some(target_views) => r@[2].0@ == "targets"@ && (match r@[2].1 {
                    RawHttpRequestVal::Array(items) => items@.len() == target_views.len() && (
                    forall|i: int|
                        0 <= i < target_views.len() ==> match #[trigger] items@[i] {
                            RawHttpRequestVal::Bytes(b) => b@ == target_views[i],
                            _ => false,
                        }),
                    _ => false,
                }),
                None => true,
            }),
    {
        let mut r: Vec<(String, RawHttpRequestVal)> = Vec::new();
        r.push(
            (
                String::from_str("expiration"),
                RawHttpRequestVal::U64(self.expiration.as_nanos_since_unix_epoch()),
            ),
        );
        r.push((String::from_str("pubkey"), RawHttpRequestVal::Bytes(self.pubkey.0.clone())));
        match &self.targets {
            None => {},
            Some(blobs) => {
                let ghost target_views = blob_views(blobs@);
                let mut items: Vec<RawHttpRequestVal> = Vec::new();
                let mut i: usize = 0;
                while i < blobs.len()
                    invariant
                        i <= blobs@.len(),
                        target_views == blob_views(blobs@),
                        items@.len() == i,
                        forall|k: int|
                            0 <= k < i ==> match #[trigger] items@[k] {
                                RawHttpRequestVal::Bytes(b) => b@ == target_views[k],
                                _ => false,
                            },
                    decreases blobs@.len() - i,
                {
                    items.push(RawHttpRequestVal::Bytes(blobs[i].0.clone()));
                    i = i + 1;
                }
                r.push((String::from_str("targets"), RawHttpRequestVal::Array(items)));
            },
        }
        r
    }

    /// The target canisters the delegation is restricted to, parsed and
    /// with duplicates dropped, or nothing where it is unrestricted.
    pub fn targets(&self) -> (r: Result<Option<Vec<CanisterId>>, String>)
        ensures
            match self.spec_targets() {
                None => r matches Ok(None),
                Some(target_views) => match collect_targets(Seq::empty(), target_views) {
                    Some(collected) => r matches Ok(Some(ids)) && ids@.map_values(
                        |c: CanisterId| c@,
                    ) == collected,
                    None => r matches Err(e) && e@ == "Error parsing canister ID: too many bytes"@,
                },
            },
    {
        match &self.targets {
            None => Ok(None),
            Some(blobs) => {
                let ghost all = blob_views(blobs@);
                let mut ids: Vec<CanisterId> = Vec::new();
                let mut i: usize = 0;
                proof {
                    assert(all.subrange(0, all.len() as int) =~= all);
                    assert(ids@.map_values(|c: CanisterId| c@) =~= Seq::<Seq<u8>>::empty());
                }
                while i < blobs.len()
                    invariant
                        i <= all.len(),
                        all == blob_views(blobs@),
                        self.spec_targets() == Some(all),
                        collect_targets(
                            ids@.map_values(|c: CanisterId| c@),
                            all.subrange(i as int, all.len() as int),
                        ) == collect_targets(Seq::empty(), all),
                    decreases all.len() - i,
                {
                    let ghost rest = all.subrange(i as int, all.len() as int);
                    proof {
                        assert(rest[0] == all[i as int]);
                        assert(rest.drop_first() =~= all.subrange(i as int + 1, all.len() as int));
                    }
                    let blob = &blobs[i];
                    proof {
                        assert(all[i as int] == blobs@[i as int]@);
                    }
                    let principal = match PrincipalId::try_from_bytes(&blob.0) {
                        Ok(p) => p,
                        Err(_) => {
                            proof {
                                reveal_strlit("Error parsing canister ID: too many bytes");
                                assert(rest[0].len() > PRINCIPAL_MAX_LENGTH_IN_BYTES);
                                assert(collect_targets(
                                    ids@.map_values(|c: CanisterId| c@),
                                    rest,
                                ) is None);
                            }
                            return Err(String::from_str("Error parsing canister ID: too many bytes"));
                        },
                    };
                    let mut seen = false;
                    let mut j: usize = 0;
                    while j < ids.len()
                        invariant
                            j <= ids@.len(),
                            principal@ == all[i as int],
                            i < all.len(),
                            seen == exists|k: int|
                                0 <= k < j && (#[trigger] ids@[k])@ == all[i as int],
                        decreases ids@.len() - j,
                    {
                        if bytes_eq(&ids[j].0.bytes, &principal.bytes) {
                            proof {
                                assert((ids@[j as int])@ == all[i as int]);
                            }
                            seen = true;
                        }
                        j = j + 1;
                    }
                    proof {
                        let acc = ids@.map_values(|c: CanisterId| c@);
                        if seen {
                            let k = choose|k: int| 0 <= k < ids@.len() && (ids@[k])@ == all[
                                i as int
                            ];
                            assert(acc[k] == all[i as int]);
                            assert(acc.contains(all[i as int]));
                        } else {
                            if acc.contains(all[i as int]) {
                                let k = choose|k: int| 0 <= k < acc.len() && acc[k] == all[
                                    i as int
                                ];
                                assert((ids@[k])@ == all[i as int]);
                            }
                        }
                        assert(seen == acc.contains(all[i as int]));
                    }
                    if !seen {
                        let ghost acc_before = ids@.map_values(|c: CanisterId| c@);
                        let id = match CanisterId::new(principal) {
                            Ok(c) => c,
                            Err(_) => {
                                proof {
                                    reveal_strlit("Error parsing canister ID: too many bytes");
                                }
                                return Err(
                                    String::from_str("Error parsing canister ID: too many bytes"),
                                );
                            },
                        };
                        ids.push(id);
                        proof {
                            assert(ids@.map_values(|c: CanisterId| c@) =~= acc_before.push(
                                all[i as int],
                            ));
                        }
                    }
                    i = i + 1;
                }
                proof {
                    assert(all.subrange(all.len() as int, all.len() as int) =~= Seq::<
                        Seq<u8>,
                    >::empty());
                }
                Ok(Some(ids))
            },
        }
    }
}

/// A delegation together with the signature that vouches for it.
#[derive(Debug, Clone, PartialEq, Eq, Hash)]
pub struct SignedDelegation {
    delegation: Delegation,
    signature: Blob,
}

impl SignedDelegation {
    /// The delegation this value carries.
    pub closed spec fn spec_delegation(self) -> Delegation {
        self.delegation
    }

    /// The signature's bytes.
    pub closed spec fn spec_signature(self) -> Seq<u8> {
        self.signature@
    }

    /// Wraps a delegation with its signature.
    pub fn new(delegation: Delegation, signature: Vec<u8>) -> (r: SignedDelegation)
        ensures
            r.spec_delegation() == delegation,
            r.spec_signature() == signature@,
    {
        SignedDelegation { delegation, signature: Blob(signature) }
    }

    /// The delegation.
    pub fn delegation(&self) -> (r: &Delegation)
        ensures
            r == self.spec_delegation(),
    {
        &self.delegation
    }

    /// Takes the delegation out.
    pub fn take_delegation(self) -> (r: Delegation)
        ensures
            r == self.spec_delegation(),
    {
        self.delegation
    }

    /// The signature.
    pub fn signature(&self) -> (r: &Blob)
        ensures
            r@ == self.spec_signature(),
    {
        &self.signature
    }
}

/// The reply to an update call.
#[derive(Debug, Clone, PartialEq, Eq)]
pub enum HttpReply {
    CodeCall { arg: Blob },
    Empty {},
}

/// The response to a query.
#[derive(Debug, Clone, PartialEq, Eq)]
pub enum HttpQueryResponse {
    Replied { reply: HttpQueryResponseReply },
    Rejected { error_code: String, reject_code: u64, reject_message: String },
}

/// The body of a replied query response.
#[derive(Debug, Clone, PartialEq, Eq)]
pub struct HttpQueryResponseReply {
    pub arg: Blob,
}

/// The response to a read-state request: an encoded certificate.
#[derive(Debug, Clone, PartialEq, Eq)]
pub struct HttpReadStateResponse {
    pub certificate: Blob,
}

/// A delegation of certification authority to a subnet.
#[derive(Debug, Clone, PartialEq, Eq)]
pub struct CertificateDelegation {
    pub subnet_id: Blob,
    pub certificate: Blob,
}

/// The stages of the boundary's initialization, in execution order.
#[derive(Debug, Copy, Clone, PartialEq, Eq, Structural)]
pub enum ReplicaHealthStatus {
    Starting,
    WaitingForCertifiedState,
    WaitingForRootDelegation,
    CertifiedStateBehind,
    Healthy,
}

/// The response to a status probe.
#[derive(Debug, Clone, PartialEq, Eq)]
pub struct HttpStatusResponse {
    pub ic_api_version: String,
    pub root_key: Option<Blob>,
    pub impl_version: Option<String>,
    pub impl_hash: Option<String>,
    pub replica_health_status: Option<ReplicaHealthStatus>,
    pub certified_height: Option<Height>,
}

} // verus!
