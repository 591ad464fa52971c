//! The signing of a credential for deployment, and the details of that
//! deployment.
//!
//! The unsigned credential is read member by member: an absent member and
//! an unreadable one are named. The account's signature is decoded and filed
//! under key index 0 as the proof of account ownership. The signed
//! credential is the values of the unsigned one with the proofs of identity
//! ownership and of account ownership together. The details of its
//! deployment are derived from its canonical bytes alone.

use vstd::prelude::*;
use concordium_base::common::types::KeyIndex;
use concordium_base::common::{base16_decode_string, to_bytes};
use concordium_base::id::constants::AttributeKind;
use concordium_base::id::secret_sharing::Threshold;
use concordium_base::id::types::{
    AccountOwnershipProof, AccountOwnershipSignature, CredDeploymentProofs,
    CredentialDeploymentValues, CredentialPublicKeys, IdOwnershipProofs, IpIdentity, Policy,
};
use pairing::bls12_381::{Bls12, G1};
use std::collections::BTreeMap;
use crate::bytes::push_all;
use crate::deployment::{account_address, content_hash, package_deployment, wire_form};
use crate::document::{
    field_of, json_members, json_object_of, json_print, json_string_value, json_text,
    json_with_member, parsed_json, try_get, Document,
};
use crate::errors::{fails_with, FieldName, WalletError};
use crate::hexcode::{bytes_of_hex, hex_of_bytes, to_hex};
use crate::signature::{is_signature_text, AccountSignature, SIGNER_KEY_INDEX};

verus! {

/// The values of a credential, as the identity layer reads them from a
/// document: the document that describes them and nothing else, their
/// canonical bytes, and the encoding of the identity commitment.
#[derive(Debug)]
pub struct CredentialValues {
    pub document: Document,
    pub bytes: Vec<u8>,
    pub cred_id: Vec<u8>,
}

/// A credential with the signature of its account: the document that
/// describes it, its canonical bytes, and the encoding of its identity
/// commitment.
#[derive(Debug)]
pub struct SignedCredential {
    pub document: Document,
    pub bytes: Vec<u8>,
    pub cred_id: Vec<u8>,
}

/// A credential, signed or not, as a value: the JSON value that describes
/// it, its canonical bytes, and the encoding of its identity commitment.
pub struct CredentialView {
    pub document: serde_json::Value,
    pub bytes: Seq<u8>,
    pub cred_id: Seq<u8>,
}

impl View for CredentialValues {
    type V = CredentialView;

    open spec fn view(&self) -> CredentialView {
        CredentialView { document: self.document@, bytes: self.bytes@, cred_id: self.cred_id@ }
    }
}

impl View for SignedCredential {
    type V = CredentialView;

    open spec fn view(&self) -> CredentialView {
        CredentialView { document: self.document@, bytes: self.bytes@, cred_id: self.cred_id@ }
    }
}

/// The values of the credential that a JSON value describes, if it
/// describes the values of a credential.
pub uninterp spec fn json_credential_values(value: serde_json::Value) -> Option<CredentialView>;

/// The canonical bytes of the proofs of a credential: the proofs of
/// identity ownership that a JSON value describes, with the given signature
/// under the given key index as the proof of account ownership; nothing
/// when the value does not describe such proofs.
pub uninterp spec fn signed_proofs(
    proofs: serde_json::Value,
    key_index: u8,
    signature: Seq<u8>,
) -> Option<Seq<u8>>;

/// Whether a JSON value describes the public keys of a credential with
/// their threshold.
pub uninterp spec fn describes_credential_keys(value: serde_json::Value) -> bool;

/// Whether hexadecimal text holds a point of the curve.
pub uninterp spec fn describes_point(text: Seq<char>) -> bool;

/// Whether a JSON value is the identity of an identity provider.
pub uninterp spec fn describes_ip_identity(value: serde_json::Value) -> bool;

/// Whether a JSON value is a revocation threshold.
pub uninterp spec fn describes_revocation_threshold(value: serde_json::Value) -> bool;

/// Whether a JSON value describes the policy of a credential.
pub uninterp spec fn describes_policy(value: serde_json::Value) -> bool;

/// `serde_json::from_value` for `CredentialDeploymentValues`, with
/// `serde_json::to_value` and `to_bytes` of what was read: the values as a
/// document, which is an object, as bytes, and the bytes of the identity
/// commitment; nothing when the value does not describe such values.
#[verifier::external_body]
fn credential_values_of(value: &serde_json::Value) -> (r: Option<CredentialValues>)
    ensures
        match r {
            Some(values) => json_credential_values(*value) == Some(values@) && json_members(
                values.document@,
            ) is Some,
            None => json_credential_values(*value) is None,
        },
{
    let values: CredentialDeploymentValues<G1, AttributeKind> =
        serde_json::from_value(value.clone()).ok()?;
    let document = Document::from_value(serde_json::to_value(&values).ok()?);
    Some(CredentialValues { document, bytes: to_bytes(&values), cred_id: to_bytes(&values.cred_id) })
}

/// `serde_json::from_value` for `IdOwnershipProofs`, and `to_bytes` of the
/// `CredDeploymentProofs` made of them and of the signature under the key
/// index: the bytes, which start with four bytes of length; nothing when the
/// value does not describe such proofs or the signature is not well-formed.
#[verifier::external_body]
fn signed_proofs_of(proofs: &serde_json::Value, key_index: u8, signature: &Vec<u8>) -> (r: Option<
    Vec<u8>,
>)
    ensures
        match r {
            Some(bytes) => signed_proofs(*proofs, key_index, signature@) == Some(bytes@)
                && bytes@.len() >= 4,
            None => signed_proofs(*proofs, key_index, signature@) is None,
        },
{
    let id_proofs: IdOwnershipProofs<Bls12, G1> = serde_json::from_value(proofs.clone()).ok()?;
    let signature = ed25519_dalek::Signature::from_bytes(signature).ok()?;
    let mut sigs = BTreeMap::new();
    sigs.insert(KeyIndex(key_index), AccountOwnershipSignature::from(signature));
    let proof_acc_sk = AccountOwnershipProof { sigs };
    Some(to_bytes(&CredDeploymentProofs { id_proofs, proof_acc_sk }))
}

/// `serde_json::from_value` for `CredentialPublicKeys`: whether the value
/// describes the public keys of a credential with their threshold.
#[verifier::external_body]
fn json_is_credential_keys(value: &serde_json::Value) -> (r: bool)
    ensures
        r == describes_credential_keys(*value),
{
    serde_json::from_value::<CredentialPublicKeys>(value.clone()).is_ok()
}

/// `base16_decode_string` for a point: whether the hexadecimal text holds a
/// point of the curve.
#[verifier::external_body]
fn hex_is_point(text: &str) -> (r: bool)
    ensures
        r == describes_point(text@),
{
    base16_decode_string::<G1>(text).is_ok()
}

/// `serde_json::from_value` for `IpIdentity`: whether the value is the
/// identity of an identity provider.
#[verifier::external_body]
fn json_is_ip_identity(value: &serde_json::Value) -> (r: bool)
    ensures
        r == describes_ip_identity(*value),
{
    serde_json::from_value::<IpIdentity>(value.clone()).is_ok()
}

/// `serde_json::from_value` for `Threshold`: whether the value is a
/// revocation threshold.
#[verifier::external_body]
fn json_is_revocation_threshold(value: &serde_json::Value) -> (r: bool)
    ensures
        r == describes_revocation_threshold(*value),
{
    serde_json::from_value::<Threshold>(value.clone()).is_ok()
}

/// `serde_json::from_value` for `Policy`: whether the value describes the
/// policy of a credential.
#[verifier::external_body]
fn json_is_policy(value: &serde_json::Value) -> (r: bool)
    ensures
        r == describes_policy(*value),
{
    serde_json::from_value::<Policy<G1, AttributeKind>>(value.clone()).is_ok()
}

/// Whether the identity commitment in `value` is readable: hexadecimal
/// text that holds a point of the curve.
pub open spec fn describes_cred_id(value: serde_json::Value) -> bool {
    json_text(value) matches Some(text) && describes_point(text)
}

/// The member of the values of a credential that is absent from
/// `document`, if one is: the first in the order in which they are read.
pub open spec fn absent_value(document: serde_json::Value) -> Option<FieldName> {
    if field_of(document, FieldName::CredentialPublicKeys) is None {
        Some(FieldName::CredentialPublicKeys)
    } else if field_of(document, FieldName::CredId) is None {
        Some(FieldName::CredId)
    } else if field_of(document, FieldName::IpIdentity) is None {
        Some(FieldName::IpIdentity)
    } else if field_of(document, FieldName::RevocationThreshold) is None {
        Some(FieldName::RevocationThreshold)
    } else if field_of(document, FieldName::ArData) is None {
        Some(FieldName::ArData)
    } else if field_of(document, FieldName::Policy) is None {
        Some(FieldName::Policy)
    } else {
        None
    }
}

/// The member of the values of a credential that is unreadable in
/// `document`, which has them all, if one is. The revocation data has no
/// reader of its own: it is the member at fault when every other member is
/// readable and the values as a whole are not.
pub open spec fn unreadable_value(document: serde_json::Value) -> Option<FieldName> {
    if !describes_credential_keys(field_of(document, FieldName::CredentialPublicKeys)->0) {
        Some(FieldName::CredentialPublicKeys)
    } else if !describes_cred_id(field_of(document, FieldName::CredId)->0) {
        Some(FieldName::CredId)
    } else if !describes_ip_identity(field_of(document, FieldName::IpIdentity)->0) {
        Some(FieldName::IpIdentity)
    } else if !describes_revocation_threshold(
        field_of(document, FieldName::RevocationThreshold)->0,
    ) {
        Some(FieldName::RevocationThreshold)
    } else if !describes_policy(field_of(document, FieldName::Policy)->0) {
        Some(FieldName::Policy)
    } else if json_credential_values(document) is None {
        Some(FieldName::ArData)
    } else {
        None
    }
}

/// The bytes of the signed proofs of the credential in `document`, if its
/// proofs are readable.
pub open spec fn signed_proofs_in(document: serde_json::Value, signature: Seq<char>) -> Option<
    Seq<u8>,
> {
    signed_proofs(
        field_of(document, FieldName::Proofs)->0,
        SIGNER_KEY_INDEX,
        bytes_of_hex(signature),
    )
}

/// Why the unsigned credential in `document` cannot be signed with the
/// signature text, if it cannot: the first failure in the order of the
/// steps.
pub open spec fn signing_failure(document: serde_json::Value, signature: Seq<char>) -> Option<
    WalletError,
> {
    if absent_value(document) is Some {
        Some(WalletError::MissingField { field: absent_value(document)->0 })
    } else if unreadable_value(document) is Some {
        Some(WalletError::MalformedField { field: unreadable_value(document)->0 })
    } else if field_of(document, FieldName::Proofs) is None {
        Some(WalletError::MissingField { field: FieldName::Proofs })
    } else if !is_signature_text(signature) {
        Some(WalletError::SignatureDecode)
    } else if signed_proofs_in(document, signature) is None {
        Some(WalletError::MalformedField { field: FieldName::Proofs })
    } else {
        None
    }
}

/// The document of a signed credential: the members of its values, and
/// under `proofs` its proofs in hexadecimal, without their four bytes of
/// length.
pub open spec fn signed_document(values: serde_json::Value, proofs: Seq<u8>) -> serde_json::Value {
    json_with_member(values, "proofs"@, json_string_value(hex_of_bytes(proofs.skip(4))))
}

/// The credential in `document`, signed with the signature text under key
/// index 0, where it can be signed: its bytes are those of the values
/// followed by those of the proofs.
pub open spec fn signed_credential(document: serde_json::Value, signature: Seq<char>) -> CredentialView {
    let values = json_credential_values(document)->0;
    let proofs = signed_proofs_in(document, signature)->0;
    CredentialView {
        document: signed_document(values.document, proofs),
        bytes: values.bytes + proofs,
        cred_id: values.cred_id,
    }
}

/// What signing the unsigned credential in `document` gives: the failure,
/// or the signed credential.
pub open spec fn signing_outcome(
    document: serde_json::Value,
    signature: Seq<char>,
    r: Result<SignedCredential, WalletError>,
) -> bool {
    match signing_failure(document, signature) {
        Some(e) => fails_with(r, e),
        None => r matches Ok(signed) && signed@ == signed_credential(document, signature),
    }
}

/// What the text of a signed credential is: the failure to sign, or the
/// text that the document of the signed credential is written as.
pub open spec fn signed_text_outcome(
    document: serde_json::Value,
    signature: Seq<char>,
    r: Result<String, WalletError>,
) -> bool {
    match signing_failure(document, signature) {
        Some(e) => fails_with(r, e),
        None => r matches Ok(text) && text@ == json_print(
            signed_credential(document, signature).document,
        ),
    }
}

/// The document with the details of the deployment of `credential` before
/// `expiry`: the signed credential as `credInfo`, and the wire form, the
/// hash and the address as text under `hex`, `hash` and `address`.
pub open spec fn details_value(credential: CredentialView, expiry: u64) -> serde_json::Value {
    json_with_member(
        json_with_member(
            json_with_member(
                json_object_of("credInfo"@, credential.document),
                "hex"@,
                json_string_value(hex_of_bytes(wire_form(credential.bytes, expiry))),
            ),
            "hash"@,
            json_string_value(content_hash(credential.bytes, expiry)),
        ),
        "address"@,
        json_string_value(account_address(credential.cred_id)),
    )
}

/// Whether `response` has the members of the details of a deployment, and
/// no others.
pub open spec fn is_details_document(
    response: serde_json::Value,
    credential: CredentialView,
    expiry: u64,
) -> bool {
    &&& json_members(response) matches Some(members)
    &&& members.dom() == set!["credInfo"@, "hex"@, "hash"@, "address"@]
    &&& members["credInfo"@] == credential.document
    &&& json_text(members["hex"@]) == Some(hex_of_bytes(wire_form(credential.bytes, expiry)))
    &&& json_text(members["hash"@]) == Some(content_hash(credential.bytes, expiry))
    &&& json_text(members["address"@]) == Some(account_address(credential.cred_id))
}

/// What the text of the details of a deployment is: the failure to sign,
/// or the text that the document with the details is written as.
pub open spec fn details_text_outcome(
    document: serde_json::Value,
    signature: Seq<char>,
    expiry: u64,
    r: Result<String, WalletError>,
) -> bool {
    match signing_failure(document, signature) {
        Some(e) => fails_with(r, e),
        None => {
            let credential = signed_credential(document, signature);
            &&& r matches Ok(text)
            &&& text@ == json_print(details_value(credential, expiry))
            &&& is_details_document(details_value(credential, expiry), credential, expiry)
        },
    }
}

/// Reads the values of the unsigned credential in a parsed document. Fails
/// at the first member that is absent, and else at the first that is
/// unreadable.
pub fn credential_values(document: &Document) -> (r: Result<CredentialValues, WalletError>)
    ensures
        match r {
            Ok(values) => absent_value(document@) is None && unreadable_value(document@) is None
                && json_credential_values(document@) == Some(values@) && json_members(
                values.document@,
            ) is Some,
            Err(e) => if absent_value(document@) is Some {
                e == (WalletError::MissingField { field: absent_value(document@)->0 })
            } else {
                unreadable_value(document@) is Some && e == (WalletError::MalformedField {
                    field: unreadable_value(document@)->0,
                })
            },
        },
{
    let keys = try_get(document, FieldName::CredentialPublicKeys)?;
    let cred_id = try_get(document, FieldName::CredId)?;
    let ip_identity = try_get(document, FieldName::IpIdentity)?;
    let threshold = try_get(document, FieldName::RevocationThreshold)?;
    let _ar_data = try_get(document, FieldName::ArData)?;
    let policy = try_get(document, FieldName::Policy)?;
    if !json_is_credential_keys(keys.value()) {
        return Err(WalletError::MalformedField { field: FieldName::CredentialPublicKeys });
    }
    let cred_id_readable = match cred_id.text() {
        Some(text) => hex_is_point(text.as_str()),
        None => false,
    };
    if !cred_id_readable {
        return Err(WalletError::MalformedField { field: FieldName::CredId });
    }
    if !json_is_ip_identity(ip_identity.value()) {
        return Err(WalletError::MalformedField { field: FieldName::IpIdentity });
    }
    if !json_is_revocation_threshold(threshold.value()) {
        return Err(WalletError::MalformedField { field: FieldName::RevocationThreshold });
    }
    if !json_is_policy(policy.value()) {
        return Err(WalletError::MalformedField { field: FieldName::Policy });
    }
    match credential_values_of(document.value()) {
        Some(values) => Ok(values),
        None => Err(WalletError::MalformedField { field: FieldName::ArData }),
    }
}

/// Attaches the signature to an unsigned credential, given as a parsed
/// document: the signature is decoded and filed under key index 0 as the
/// proof of account ownership, beside the proofs of identity ownership.
pub fn sign_credential(signature: &str, document: &Document) -> (r: Result<
    SignedCredential,
    WalletError,
>)
    ensures
        signing_outcome(document@, signature@, r),
{
    let values = credential_values(document)?;
    let unsigned_proofs = try_get(document, FieldName::Proofs)?;
    let signature = AccountSignature::decode(signature)?;
    let proofs = match signed_proofs_of(
        unsigned_proofs.value(),
        SIGNER_KEY_INDEX,
        signature.bytes(),
    ) {
        Some(proofs) => proofs,
        None => {
            return Err(WalletError::MalformedField { field: FieldName::Proofs });
        },
    };
    let mut body: Vec<u8> = Vec::new();
    push_all(&mut body, &proofs, 4);
    let member = Document::of_text(to_hex(&body).as_str());
    let signed_document = match values.document.with_member("proofs", member) {
        Some(signed_document) => signed_document,
        None => {
            return Err(WalletError::MalformedField { field: FieldName::ArData });
        },
    };
    let mut bytes: Vec<u8> = Vec::new();
    push_all(&mut bytes, &values.bytes, 0);
    push_all(&mut bytes, &proofs, 0);
    proof {
        assert(proofs@.subrange(4, proofs@.len() as int) == proofs@.skip(4));
        assert(values.bytes@.subrange(0, values.bytes@.len() as int) == values.bytes@);
        assert(proofs@.subrange(0, proofs@.len() as int) == proofs@);
    }
    Ok(SignedCredential { document: signed_document, bytes, cred_id: values.cred_id })
}

/// Attaches the signature to an unsigned credential, given as the text of a
/// document, and gives the signed credential as text. Text that is no
/// document fails; a document is signed as `sign_credential` signs it.
pub fn get_credential_deployment_info_aux(signature: &str, unsigned_info: &str) -> (r: Result<
    String,
    WalletError,
>)
    ensures
        match parsed_json(unsigned_info@) {
            None => fails_with(r, WalletError::MalformedDocument),
            Some(document) => signed_text_outcome(document, signature@, r),
        },
{
    let document = Document::parse(unsigned_info)?;
    let signed = sign_credential(signature, &document)?;
    Ok(signed.document.to_text())
}

/// The document with the details of the deployment of a signed credential
/// before `expiry`.
pub fn details_document(credential: SignedCredential, expiry: u64) -> (response: Document)
    ensures
        response@ == details_value(credential@, expiry),
        is_details_document(response@, credential@, expiry),
{
    let ghost empty = Map::<Seq<char>, serde_json::Value>::empty();
    let mut bytes: Vec<u8> = Vec::new();
    push_all(&mut bytes, &credential.bytes, 0);
    proof {
        assert(credential.bytes@.subrange(0, credential.bytes@.len() as int) == credential.bytes@);
    }
    let details = package_deployment(bytes, &credential.cred_id, expiry);
    let cred_info = credential.document;
    let hex = Document::of_text(details.hex.as_str());
    let hash = Document::of_text(details.hash.as_str());
    let address = Document::of_text(details.address.as_str());
    let ghost cred_info_value = cred_info@;
    let ghost hex_value = hex@;
    let ghost hash_value = hash@;
    let ghost address_value = address@;
    let response = Document::with_one_member("credInfo", cred_info);
    let response = response.with_member("hex", hex).unwrap();
    let response = response.with_member("hash", hash).unwrap();
    let response = response.with_member("address", address).unwrap();
    proof {
        reveal_strlit("credInfo");
        reveal_strlit("hex");
        reveal_strlit("hash");
        reveal_strlit("address");
        assert("credInfo"@.len() == 8 && "hex"@.len() == 3 && "hash"@.len() == 4 && "address"@.len()
            == 7);
        let members = json_members(response@)->0;
        assert(members == empty.insert("credInfo"@, cred_info_value).insert(
            "hex"@,
            hex_value,
        ).insert("hash"@, hash_value).insert("address"@, address_value));
        assert(members.dom() =~= set!["credInfo"@, "hex"@, "hash"@, "address"@]);
    }
    response
}

/// Attaches the signature to an unsigned credential, given as the text of a
/// document, and gives the details of its deployment before `expiry` as
/// text: the signed credential, the wire form, the hash, and the address of
/// the account. Text that is no document fails; a document is signed as
/// `sign_credential` signs it.
pub fn get_credential_deployment_details_aux(signature: &str, unsigned_info: &str, expiry: u64) -> (r:
    Result<String, WalletError>)
    ensures
        match parsed_json(unsigned_info@) {
            None => fails_with(r, WalletError::MalformedDocument),
            Some(document) => details_text_outcome(document, signature@, expiry, r),
        },
{
    let document = Document::parse(unsigned_info)?;
    let signed = sign_credential(signature, &document)?;
    let response = details_document(signed, expiry);
    Ok(response.to_text())
}

/// Both ways of signing fail on the same inputs, with the same failure.
/// Where they succeed, the details hold under `credInfo` the very document
/// that signing alone writes.
pub proof fn lemma_details_hold_the_signed_credential(
    document: serde_json::Value,
    signature: Seq<char>,
    expiry: u64,
    info: Result<String, WalletError>,
    details: Result<String, WalletError>,
)
    requires
        signed_text_outcome(document, signature, info),
        details_text_outcome(document, signature, expiry, details),
    ensures
        match info {
            Err(e) => details == Err::<String, _>(e),
            Ok(text) => {
                let credential = signed_credential(document, signature);
                let response = details_value(credential, expiry);
                &&& text@ == json_print(credential.document)
                &&& details matches Ok(written)
                &&& written@ == json_print(response)
                &&& json_members(response) matches Some(members)
                &&& members.contains_key("credInfo"@)
                &&& members["credInfo"@] == credential.document
            },
        },
{
    if info is Ok {
        let credential = signed_credential(document, signature);
        let members = json_members(details_value(credential, expiry))->0;
        assert(members.dom().contains("credInfo"@));
    }
}

/// Signing is a function of its inputs: two results for the same document,
/// signature and expiry are the same text or the same failure.
pub proof fn lemma_details_are_determined(
    document: serde_json::Value,
    signature: Seq<char>,
    expiry: u64,
    first: Result<String, WalletError>,
    second: Result<String, WalletError>,
)
    requires
        details_text_outcome(document, signature, expiry, first),
        details_text_outcome(document, signature, expiry, second),
    ensures
        match first {
            Ok(text) => second matches Ok(other) && other@ == text@,
            Err(e) => second == Err::<String, _>(e),
        },
{
}

} // verus!
