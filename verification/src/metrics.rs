//! The label vocabulary of the crypto component's metrics: the dimension
//! enums, their snake-case label rendering, and the node key counts.
//!
//! Emitting the metrics themselves is instrumentation and lives outside
//! this library; what is kept here is the data every emission is built
//! from.

use vstd::prelude::*;
use convert_case::Casing;

verus! {

/// What snake-casing a label yields; the result is a function of the input
/// characters alone.
pub uninterp spec fn snake_of(s: Seq<char>) -> Seq<char>;

/// Relies on convert_case's `Casing::to_case` with the snake-case target:
/// a pure recasing of the input string.
#[verifier::external_body]
fn to_snake_case(s: &str) -> (r: String)
    ensures
        r@ == snake_of(s@),
{
    s.to_case(convert_case::Case::Snake)
}

/// The kinds of node keys whose counts are tracked.
#[derive(Copy, Clone, Debug, Eq, PartialOrd, Ord, PartialEq, Structural)]
pub enum KeyType {
    PublicRegistry,
    PublicLocal,
    SecretSKS,
    IdkgDealingEncryptionLocal,
}

impl KeyType {
    /// The variant's name.
    pub open spec fn spec_name(self) -> Seq<char> {
        match self {
            KeyType::PublicRegistry => "PublicRegistry"@,
            KeyType::PublicLocal => "PublicLocal"@,
            KeyType::SecretSKS => "SecretSKS"@,
            KeyType::IdkgDealingEncryptionLocal => "IdkgDealingEncryptionLocal"@,
        }
    }

    /// The variant's name, as the label machinery reads it.
    pub fn variant_name(&self) -> (r: &'static str)
        ensures
            r@ == self.spec_name(),
    {
        match self {
            KeyType::PublicRegistry => "PublicRegistry",
            KeyType::PublicLocal => "PublicLocal",
            KeyType::SecretSKS => "SecretSKS",
            KeyType::IdkgDealingEncryptionLocal => "IdkgDealingEncryptionLocal",
        }
    }

    /// The snake-case label the dashboards key on.
    pub fn metric_label(&self) -> (r: String)
        ensures
            r@ == snake_of(self.spec_name()),
    {
        to_snake_case(self.variant_name())
    }
}

/// The functional domains metrics are partitioned into.
#[derive(Copy, Clone, Debug, Eq, PartialOrd, Ord, PartialEq, Structural)]
pub enum MetricsDomain {
    BasicSignature,
    MultiSignature,
    ThresholdSignature,
    NiDkgAlgorithm,
    TlsHandshake,
    IdkgProtocol,
    ThresholdEcdsa,
    IcCanisterSignature,
    PublicSeed,
    KeyManagement,
}

impl MetricsDomain {
    /// The variant's name.
    pub open spec fn spec_name(self) -> Seq<char> {
        match self {
            MetricsDomain::BasicSignature => "BasicSignature"@,
            MetricsDomain::MultiSignature => "MultiSignature"@,
            MetricsDomain::ThresholdSignature => "ThresholdSignature"@,
            MetricsDomain::NiDkgAlgorithm => "NiDkgAlgorithm"@,
            MetricsDomain::TlsHandshake => "TlsHandshake"@,
            MetricsDomain::IdkgProtocol => "IdkgProtocol"@,
            MetricsDomain::ThresholdEcdsa => "ThresholdEcdsa"@,
            MetricsDomain::IcCanisterSignature => "IcCanisterSignature"@,
            MetricsDomain::PublicSeed => "PublicSeed"@,
            MetricsDomain::KeyManagement => "KeyManagement"@,
        }
    }

    /// The variant's name, as the label machinery reads it.
    pub fn variant_name(&self) -> (r: &'static str)
        ensures
            r@ == self.spec_name(),
    {
        match self {
            MetricsDomain::BasicSignature => "BasicSignature",
            MetricsDomain::MultiSignature => "MultiSignature",
            MetricsDomain::ThresholdSignature => "ThresholdSignature",
            MetricsDomain::NiDkgAlgorithm => "NiDkgAlgorithm",
            MetricsDomain::TlsHandshake => "TlsHandshake",
            MetricsDomain::IdkgProtocol => "IdkgProtocol",
            MetricsDomain::ThresholdEcdsa => "ThresholdEcdsa",
            MetricsDomain::IcCanisterSignature => "IcCanisterSignature",
            MetricsDomain::PublicSeed => "PublicSeed",
            MetricsDomain::KeyManagement => "KeyManagement",
        }
    }

    /// The snake-case label the dashboards key on.
    pub fn metric_label(&self) -> (r: String)
        ensures
            r@ == snake_of(self.spec_name()),
    {
        to_snake_case(self.variant_name())
    }
}

/// Whether an observation covers the full call or only local computation.
#[derive(Copy, Clone, Debug, Eq, PartialOrd, Ord, PartialEq, Structural)]
pub enum MetricsScope {
    Full,
    Local,
}

impl MetricsScope {
    /// The variant's name.
    pub open spec fn spec_name(self) -> Seq<char> {
        match self {
            MetricsScope::Full => "Full"@,
            MetricsScope::Local => "Local"@,
        }
    }

    /// The variant's name, as the label machinery reads it.
    pub fn variant_name(&self) -> (r: &'static str)
        ensures
            r@ == self.spec_name(),
    {
        match self {
            MetricsScope::Full => "Full",
            MetricsScope::Local => "Local",
        }
    }

    /// The snake-case label the dashboards key on.
    pub fn metric_label(&self) -> (r: String)
        ensures
            r@ == snake_of(self.spec_name()),
    {
        to_snake_case(self.variant_name())
    }
}

/// Whether the observed operation succeeded. The variants render as the
/// conventional result tags.
#[derive(Copy, Clone, Debug, Eq, PartialOrd, Ord, PartialEq, Structural)]
pub enum MetricsResult {
    Okay,
    Error,
}

impl MetricsResult {
    /// The result tag of any `Result` value.
    pub fn of_result<T, E>(original: &Result<T, E>) -> (r: MetricsResult)
        ensures
            r == (match original {
                Ok(_) => MetricsResult::Okay,
                Err(_) => MetricsResult::Error,
            }),
    {
        match original {
            Ok(_) => MetricsResult::Okay,
            Err(_) => MetricsResult::Error,
        }
    }

    /// The variant's name.
    pub open spec fn spec_name(self) -> Seq<char> {
        match self {
            MetricsResult::Okay => "Ok"@,
            MetricsResult::Error => "Err"@,
        }
    }

    /// The variant's name, as the label machinery reads it.
    pub fn variant_name(&self) -> (r: &'static str)
        ensures
            r@ == self.spec_name(),
    {
        match self {
            MetricsResult::Okay => "Ok",
            MetricsResult::Error => "Err",
        }
    }

    /// The snake-case label the dashboards key on.
    pub fn metric_label(&self) -> (r: String)
        ensures
            r@ == snake_of(self.spec_name()),
    {
        to_snake_case(self.variant_name())
    }
}

/// The outcome of one key-rotation attempt.
#[derive(Copy, Clone, Debug, Eq, PartialOrd, Ord, PartialEq, Structural)]
pub enum KeyRotationResult {
    KeyRotated,
    LatestLocalRotationTooRecent,
    KeyGenerationError,
    RegistryError,
    KeyRotationNotEnabled,
    KeyNotRotated,
    RegistryKeyBadOrMissing,
    TransientInternalError,
}

impl KeyRotationResult {
    /// The variant's name.
    pub open spec fn spec_name(self) -> Seq<char> {
        match self {
            KeyRotationResult::KeyRotated => "KeyRotated"@,
            KeyRotationResult::LatestLocalRotationTooRecent => "LatestLocalRotationTooRecent"@,
            KeyRotationResult::KeyGenerationError => "KeyGenerationError"@,
            KeyRotationResult::RegistryError => "RegistryError"@,
            KeyRotationResult::KeyRotationNotEnabled => "KeyRotationNotEnabled"@,
            KeyRotationResult::KeyNotRotated => "KeyNotRotated"@,
            KeyRotationResult::RegistryKeyBadOrMissing => "RegistryKeyBadOrMissing"@,
            KeyRotationResult::TransientInternalError => "TransientInternalError"@,
        }
    }

    /// The variant's name, as the label machinery reads it.
    pub fn variant_name(&self) -> (r: &'static str)
        ensures
            r@ == self.spec_name(),
    {
        match self {
            KeyRotationResult::KeyRotated => "KeyRotated",
            KeyRotationResult::LatestLocalRotationTooRecent => "LatestLocalRotationTooRecent",
            KeyRotationResult::KeyGenerationError => "KeyGenerationError",
            KeyRotationResult::RegistryError => "RegistryError",
            KeyRotationResult::KeyRotationNotEnabled => "KeyRotationNotEnabled",
            KeyRotationResult::KeyNotRotated => "KeyNotRotated",
            KeyRotationResult::RegistryKeyBadOrMissing => "RegistryKeyBadOrMissing",
            KeyRotationResult::TransientInternalError => "TransientInternalError",
        }
    }

    /// The snake-case label the dashboards key on.
    pub fn metric_label(&self) -> (r: String)
        ensures
            r@ == snake_of(self.spec_name()),
    {
        to_snake_case(self.variant_name())
    }
}

/// Which side of the vault RPC socket made an observation.
#[derive(Copy, Clone, Debug, Eq, PartialOrd, Ord, PartialEq, Structural)]
pub enum ServiceType {
    Client,
    Server,
}

impl ServiceType {
    /// The variant's name.
    pub open spec fn spec_name(self) -> Seq<char> {
        match self {
            ServiceType::Client => "Client"@,
            ServiceType::Server => "Server"@,
        }
    }

    /// The variant's name, as the label machinery reads it.
    pub fn variant_name(&self) -> (r: &'static str)
        ensures
            r@ == self.spec_name(),
    {
        match self {
            ServiceType::Client => "Client",
            ServiceType::Server => "Server",
        }
    }

    /// The snake-case label the dashboards key on.
    pub fn metric_label(&self) -> (r: String)
        ensures
            r@ == snake_of(self.spec_name()),
    {
        to_snake_case(self.variant_name())
    }
}

/// Whether a vault message is a request or a response.
#[derive(Copy, Clone, Debug, Eq, PartialOrd, Ord, PartialEq, Structural)]
pub enum MessageType {
    Request,
    Response,
}

impl MessageType {
    /// The variant's name.
    pub open spec fn spec_name(self) -> Seq<char> {
        match self {
            MessageType::Request => "Request"@,
            MessageType::Response => "Response"@,
        }
    }

    /// The variant's name, as the label machinery reads it.
    pub fn variant_name(&self) -> (r: &'static str)
        ensures
            r@ == self.spec_name(),
    {
        match self {
            MessageType::Request => "Request",
            MessageType::Response => "Response",
        }
    }

    /// The snake-case label the dashboards key on.
    pub fn metric_label(&self) -> (r: String)
        ensures
            r@ == snake_of(self.spec_name()),
    {
        to_snake_case(self.variant_name())
    }
}

/// The number of node keys of each kind: in the registry, in the local
/// public key store, in the local secret key store, and the locally stored
/// iDKG dealing encryption keys.
#[derive(Copy, Clone, Debug, Eq, PartialEq, Structural)]
pub struct KeyCounts {
    pk_registry: u8,
    pk_local: u8,
    sk_local: u8,
    idkg_pks_local: u8,
}

impl KeyCounts {
    /// The registry count this value carries.
    pub closed spec fn spec_pk_registry(self) -> u8 {
        self.pk_registry
    }

    /// The local public-key count this value carries.
    pub closed spec fn spec_pk_local(self) -> u8 {
        self.pk_local
    }

    /// The local secret-key count this value carries.
    pub closed spec fn spec_sk_local(self) -> u8 {
        self.sk_local
    }

    /// The local iDKG key count this value carries.
    pub closed spec fn spec_idkg_pks_local(self) -> u8 {
        self.idkg_pks_local
    }

    /// Collects the four counts.
    pub fn new(pk_registry: u8, pk_local: u8, sk_local: u8, idkg_pks_local: u8) -> (r: KeyCounts)
        ensures
            r.spec_pk_registry() == pk_registry,
            r.spec_pk_local() == pk_local,
            r.spec_sk_local() == sk_local,
            r.spec_idkg_pks_local() == idkg_pks_local,
    {
        KeyCounts { pk_registry, pk_local, sk_local, idkg_pks_local }
    }

    /// The number of public keys in the registry.
    pub fn get_pk_registry(&self) -> (r: u8)
        ensures
            r == self.spec_pk_registry(),
    {
        self.pk_registry
    }

    /// The number of public keys in the local store.
    pub fn get_pk_local(&self) -> (r: u8)
        ensures
            r == self.spec_pk_local(),
    {
        self.pk_local
    }

    /// The number of secret keys in the local store.
    pub fn get_sk_local(&self) -> (r: u8)
        ensures
            r == self.spec_sk_local(),
    {
        self.sk_local
    }

    /// The number of locally stored iDKG dealing encryption keys.
    pub fn get_idkg_pks_local(&self) -> (r: u8)
        ensures
            r == self.spec_idkg_pks_local(),
    {
        self.idkg_pks_local
    }
}

/// A boolean outcome, as a named variant so the dashboards can label it.
#[derive(Copy, Clone, Debug, Eq, PartialEq, Structural)]
pub enum BooleanResult {
    True,
    False,
}

impl BooleanResult {
    /// The variant's name.
    pub open spec fn spec_name(self) -> Seq<char> {
        match self {
            BooleanResult::True => "True"@,
            BooleanResult::False => "False"@,
        }
    }

    /// The variant's name, as the label machinery reads it.
    pub fn variant_name(&self) -> (r: &'static str)
        ensures
            r@ == self.spec_name(),
    {
        match self {
            BooleanResult::True => "True",
            BooleanResult::False => "False",
        }
    }

    /// The snake-case label the dashboards key on.
    pub fn metric_label(&self) -> (r: String)
        ensures
            r@ == snake_of(self.spec_name()),
    {
        to_snake_case(self.variant_name())
    }
}

/// The boolean-valued operations whose outcomes are counted.
#[derive(Copy, Clone, Debug, Eq, PartialEq, Structural)]
pub enum BooleanOperation {
    KeyInRegistryMissingLocally,
    LatestLocalIdkgKeyExistsInRegistry,
}

impl BooleanOperation {
    /// The variant's name.
    pub open spec fn spec_name(self) -> Seq<char> {
        match self {
            BooleanOperation::KeyInRegistryMissingLocally => "KeyInRegistryMissingLocally"@,
            BooleanOperation::LatestLocalIdkgKeyExistsInRegistry => (
            "LatestLocalIdkgKeyExistsInRegistry"@),
        }
    }

    /// The variant's name, as the label machinery reads it.
    pub fn variant_name(&self) -> (r: &'static str)
        ensures
            r@ == self.spec_name(),
    {
        match self {
            BooleanOperation::KeyInRegistryMissingLocally => "KeyInRegistryMissingLocally",
            BooleanOperation::LatestLocalIdkgKeyExistsInRegistry => (
            "LatestLocalIdkgKeyExistsInRegistry"),
        }
    }

    /// The snake-case label the dashboards key on.
    pub fn metric_label(&self) -> (r: String)
        ensures
            r@ == snake_of(self.spec_name()),
    {
        to_snake_case(self.variant_name())
    }
}

} // verus!
