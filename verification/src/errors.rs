//! The closed set of failures that the workflow can report.

use vstd::prelude::*;

verus! {

/// The fields that input documents are read by. Lookups are by exact,
/// case-sensitive name.
#[derive(Clone, Copy, Debug, PartialEq, Eq, Structural)]
pub enum FieldName {
    IpInfo,
    Global,
    ArsInfos,
    PublicKeys,
    Threshold,
    IdentityObject,
    RevealedAttributes,
    CredentialNumber,
    IdCredSec,
    PrfKey,
    Randomness,
    Address,
    Proofs,
    EncryptedAmounts,
    CredentialPublicKeys,
    CredId,
    IpIdentity,
    RevocationThreshold,
    ArData,
    Policy,
}

/// Why a call failed. Each variant carries what a caller needs to branch on.
#[derive(Clone, Copy, Debug, PartialEq, Eq, Structural)]
pub enum WalletError {
    /// The input text is not a document.
    MalformedDocument,
    /// A required field is absent.
    MissingField { field: FieldName },
    /// A field is present but does not hold a value of the expected shape.
    MalformedField { field: FieldName },
    /// The key-derivation primitive rejected the seed.
    KeyDerivation,
    /// The registry of anonymity revokers is empty.
    Context,
    /// The threshold lies outside `1 ..= revokers`.
    Threshold { threshold: usize, revokers: usize },
    /// The pre-identity object could not be constructed.
    PreIdentityBuild,
    /// A tag was selected for disclosure more than once.
    DuplicateAttribute { tag: u8 },
    /// A tag selected for disclosure is not in the attribute list.
    UnknownAttribute { tag: u8 },
    /// The credential's proofs could not be constructed.
    CredentialBuild,
    /// The signature is not 128 hexadecimal digits that encode a well-formed
    /// signature.
    SignatureDecode,
    /// The discrete-logarithm search ended without a hit for the ciphertext
    /// at `position` of the batch.
    AmountOutOfRange { position: usize },
}

impl FieldName {
    /// The name as it is written in a document.
    pub open spec fn text(self) -> Seq<char> {
        match self {
            FieldName::IpInfo => "ipInfo"@,
            FieldName::Global => "global"@,
            FieldName::ArsInfos => "arsInfos"@,
            FieldName::PublicKeys => "publicKeys"@,
            FieldName::Threshold => "threshold"@,
            FieldName::IdentityObject => "identityObject"@,
            FieldName::RevealedAttributes => "revealedAttributes"@,
            FieldName::CredentialNumber => "credentialNumber"@,
            FieldName::IdCredSec => "idCredSec"@,
            FieldName::PrfKey => "prfKey"@,
            FieldName::Randomness => "randomness"@,
            FieldName::Address => "address"@,
            FieldName::Proofs => "proofs"@,
            FieldName::EncryptedAmounts => "encryptedAmounts"@,
            FieldName::CredentialPublicKeys => "credentialPublicKeys"@,
            FieldName::CredId => "credId"@,
            FieldName::IpIdentity => "ipIdentity"@,
            FieldName::RevocationThreshold => "revocationThreshold"@,
            FieldName::ArData => "arData"@,
            FieldName::Policy => "policy"@,
        }
    }

    /// The name as it is written in a document.
    pub fn name(self) -> (s: &'static str)
        ensures
            s@ == self.text(),
    {
        match self {
            FieldName::IpInfo => "ipInfo",
            FieldName::Global => "global",
            FieldName::ArsInfos => "arsInfos",
            FieldName::PublicKeys => "publicKeys",
            FieldName::Threshold => "threshold",
            FieldName::IdentityObject => "identityObject",
            FieldName::RevealedAttributes => "revealedAttributes",
            FieldName::CredentialNumber => "credentialNumber",
            FieldName::IdCredSec => "idCredSec",
            FieldName::PrfKey => "prfKey",
            FieldName::Randomness => "randomness",
            FieldName::Address => "address",
            FieldName::Proofs => "proofs",
            FieldName::EncryptedAmounts => "encryptedAmounts",
            FieldName::CredentialPublicKeys => "credentialPublicKeys",
            FieldName::CredId => "credId",
            FieldName::IpIdentity => "ipIdentity",
            FieldName::RevocationThreshold => "revocationThreshold",
            FieldName::ArData => "arData",
            FieldName::Policy => "policy",
        }
    }
}

/// Whether `r` is the failure `e`.
pub open spec fn fails_with<T>(r: Result<T, WalletError>, e: WalletError) -> bool {
    r matches Err(found) && found == e
}

/// Whether `r` is the failure to find the field `field`.
pub open spec fn misses<T>(r: Result<T, WalletError>, field: FieldName) -> bool {
    fails_with(r, WalletError::MissingField { field })
}

} // verus!
