//! The request to build an unsigned credential, with its disclosure
//! policy.
//!
//! The request is read from the input document in the order of its fields.
//! The identity object must choose at least one anonymity revoker and a
//! threshold among those it chooses. The policy is built from the attribute
//! list of the identity object.

use vstd::prelude::*;
use concordium_base::id::constants::AttributeKind;
use concordium_base::id::types::IdentityObject;
use pairing::bls12_381::{Bls12, G1};
use crate::context::{context_failure, is_context_of, IssuanceContext};
use crate::document::{
    field_byte_failure, field_keys_failure, field_of, field_text_failure,
    field_threshold_failure, json_address, json_attribute_list, json_byte, json_members,
    json_nonzero_byte, json_tags, json_text, member_of, parsed_json, try_get, try_get_address,
    try_get_byte, try_get_public_keys, try_get_text, try_get_threshold, Document,
};
use crate::errors::{fails_with, misses, FieldName, WalletError};
use crate::group::{hex_scalar, Scalar};
use crate::hexcode::hex_of_bytes;
use crate::identity::is_id_response;
use crate::policy::{build_policy, disclosure, AttributeListView, Policy};
use crate::threshold::{threshold_in_bounds, Threshold};

verus! {

/// What the construction of an unsigned credential needs.
#[derive(Debug)]
pub struct CredentialRequest {
    pub context: IssuanceContext,
    pub identity_object: Document,
    /// The attributes that the credential reveals.
    pub policy: Policy,
    /// Which of the identity's credentials this is.
    pub credential_number: u8,
    pub public_keys: Document,
    /// How many keys of the account must sign.
    pub threshold: u8,
    /// The seed of the identity secret.
    pub id_cred_sec_seed: String,
    /// The seed of the PRF key.
    pub prf_key_seed: String,
    /// The randomness that the pre-identity request was blinded with.
    pub randomness: Scalar,
    /// The 32 bytes of the address of the account that the credential is
    /// added to; a new account is created when there is none.
    pub address: Option<Vec<u8>>,
}

/// What an identity object chooses and allows: how many anonymity revokers
/// it chooses, how many of them must cooperate, and how many accounts it
/// allows.
#[derive(Clone, Copy, Debug, PartialEq, Eq, Structural)]
pub struct IdentityChoice {
    pub revokers: usize,
    pub threshold: u8,
    pub max_accounts: u8,
}

/// What the identity object that a JSON value describes chooses and
/// allows, if the value describes an identity object: the pre-identity
/// object, the attribute list, and the signature of the identity provider.
pub uninterp spec fn json_identity_choice(value: serde_json::Value) -> Option<IdentityChoice>;

/// `serde_json::from_value` for an `IdentityObject`: the number of the
/// anonymity revokers it chooses, their threshold, and the number of
/// accounts its attribute list allows; nothing when the value does not
/// describe an identity object.
#[verifier::external_body]
fn json_choice(value: &serde_json::Value) -> (r: Option<IdentityChoice>)
    ensures
        r == json_identity_choice(*value),
{
    let object: IdentityObject<Bls12, G1, AttributeKind> =
        serde_json::from_value(value.clone()).ok()?;
    let chosen = &object.pre_identity_object.choice_ar_parameters;
    Some(IdentityChoice {
        revokers: chosen.ar_identities.len(),
        threshold: chosen.threshold.0,
        max_accounts: object.alist.max_accounts,
    })
}

/// Whether a JSON value describes an identity object.
pub open spec fn describes_identity_object(value: serde_json::Value) -> bool {
    json_identity_choice(value) is Some
}

/// Why the identity object `value` cannot be used, if it cannot: it is
/// unreadable, it chooses no anonymity revoker, or its threshold is not
/// between one and the number of revokers it chooses.
pub open spec fn identity_failure(value: serde_json::Value) -> Option<WalletError> {
    match json_identity_choice(value) {
        None => Some(WalletError::MalformedField { field: FieldName::IdentityObject }),
        Some(choice) => if choice.revokers == 0 {
            Some(WalletError::Context)
        } else if !threshold_in_bounds(choice.threshold as nat, choice.revokers as nat) {
            Some(
                WalletError::Threshold {
                    threshold: choice.threshold as usize,
                    revokers: choice.revokers,
                },
            )
        } else {
            None
        },
    }
}

/// Reads what an identity object chooses and allows. Fails when it is
/// unreadable, when it chooses no anonymity revoker, and when its threshold
/// is not between one and the number of revokers it chooses.
pub fn identity_choice(identity_object: &Document) -> (r: Result<IdentityChoice, WalletError>)
    ensures
        match r {
            Ok(choice) => identity_failure(identity_object@) is None && json_identity_choice(
                identity_object@,
            ) == Some(choice) && choice.revokers >= 1 && 1 <= choice.threshold
                <= choice.revokers,
            Err(e) => identity_failure(identity_object@) == Some(e),
        },
{
    let choice = match json_choice(identity_object.value()) {
        Some(choice) => choice,
        None => {
            return Err(WalletError::MalformedField { field: FieldName::IdentityObject });
        },
    };
    if choice.revokers == 0 {
        return Err(WalletError::Context);
    }
    match Threshold::new(choice.threshold as usize, choice.revokers) {
        Ok(_) => Ok(choice),
        Err(e) => Err(e),
    }
}

/// The attribute list of the identity object in `document`, if the identity
/// object is well-formed.
pub open spec fn attribute_list_of(document: serde_json::Value) -> Option<AttributeListView> {
    match field_of(document, FieldName::IdentityObject) {
        Some(identity_object) => if describes_identity_object(identity_object) {
            match member_of(identity_object, "attributeList"@) {
                Some(list) => json_attribute_list(list),
                None => None,
            }
        } else {
            None
        },
        None => None,
    }
}

/// The encoding of the randomness that `document` hands back, if it holds
/// one: the scalar in hexadecimal under `randomness`, inside the field of
/// that name.
pub open spec fn randomness_of(document: serde_json::Value) -> Option<Seq<u8>> {
    match field_of(document, FieldName::Randomness) {
        Some(wrapped) => match member_of(wrapped, "randomness"@) {
            Some(inner) => match json_text(inner) {
                Some(text) => hex_scalar(text),
                None => None,
            },
            None => None,
        },
        None => None,
    }
}

/// The tags that `document` asks to reveal, if it lists tags.
pub open spec fn revealed_tags_of(document: serde_json::Value) -> Option<Seq<u8>> {
    match field_of(document, FieldName::RevealedAttributes) {
        Some(tags) => json_tags(tags),
        None => None,
    }
}

/// The address of the account that `document` names: none when the field
/// is absent, and a failure when the field is there and is no address.
pub open spec fn address_of(document: serde_json::Value) -> Result<Option<Seq<u8>>, ()> {
    match field_of(document, FieldName::Address) {
        None => Ok(None),
        Some(found) => match json_address(found) {
            Some(bytes) => Ok(Some(bytes)),
            None => Err(()),
        },
    }
}

/// What reading the request for an unsigned credential from `document`
/// gives: the first failure in the order of the steps, or the request with
/// its disclosure policy.
pub open spec fn credential_request_outcome(
    document: serde_json::Value,
    r: Result<CredentialRequest, WalletError>,
) -> bool {
    if field_of(document, FieldName::IpInfo) is None {
        misses(r, FieldName::IpInfo)
    } else if field_of(document, FieldName::ArsInfos) is None {
        misses(r, FieldName::ArsInfos)
    } else if field_of(document, FieldName::Global) is None {
        misses(r, FieldName::Global)
    } else if context_failure(document) is Some {
        fails_with(r, context_failure(document)->0)
    } else if field_of(document, FieldName::IdentityObject) is None {
        misses(r, FieldName::IdentityObject)
    } else if identity_failure(field_of(document, FieldName::IdentityObject)->0) is Some {
        fails_with(r, identity_failure(field_of(document, FieldName::IdentityObject)->0)->0)
    } else if attribute_list_of(document) is None {
        fails_with(r, WalletError::MalformedField { field: FieldName::IdentityObject })
    } else if field_of(document, FieldName::RevealedAttributes) is None {
        misses(r, FieldName::RevealedAttributes)
    } else if revealed_tags_of(document) is None {
        fails_with(r, WalletError::MalformedField { field: FieldName::RevealedAttributes })
    } else if field_byte_failure(document, FieldName::CredentialNumber) is Some {
        fails_with(r, field_byte_failure(document, FieldName::CredentialNumber)->0)
    } else if field_keys_failure(document) is Some {
        fails_with(r, field_keys_failure(document)->0)
    } else if field_threshold_failure(document) is Some {
        fails_with(r, field_threshold_failure(document)->0)
    } else if field_text_failure(document, FieldName::IdCredSec) is Some {
        fails_with(r, field_text_failure(document, FieldName::IdCredSec)->0)
    } else if field_text_failure(document, FieldName::PrfKey) is Some {
        fails_with(r, field_text_failure(document, FieldName::PrfKey)->0)
    } else if field_of(document, FieldName::Randomness) is None {
        misses(r, FieldName::Randomness)
    } else if randomness_of(document) is None {
        fails_with(r, WalletError::MalformedField { field: FieldName::Randomness })
    } else {
        let list = attribute_list_of(document)->0;
        match disclosure(list.attributes, revealed_tags_of(document)->0) {
            Err(e) => fails_with(r, e),
            Ok(revealed) => if address_of(document) is Err {
                fails_with(r, WalletError::MalformedField { field: FieldName::Address })
            } else {
                &&& r matches Ok(request)
                &&& request.policy.revealed@ == revealed
                &&& request.policy.valid_to == list.valid_to
                &&& request.policy.created_at == list.created_at
                &&& is_context_of(request.context, document)
                &&& Some(request.identity_object@) == field_of(
                    document,
                    FieldName::IdentityObject,
                )
                &&& Some(request.credential_number) == json_byte(
                    field_of(document, FieldName::CredentialNumber)->0,
                )
                &&& Some(request.public_keys@) == field_of(document, FieldName::PublicKeys)
                &&& Some(request.threshold) == json_nonzero_byte(
                    field_of(document, FieldName::Threshold)->0,
                )
                &&& Some(request.id_cred_sec_seed@) == json_text(
                    field_of(document, FieldName::IdCredSec)->0,
                )
                &&& Some(request.prf_key_seed@) == json_text(
                    field_of(document, FieldName::PrfKey)->0,
                )
                &&& Some(request.randomness@) == randomness_of(document)
                &&& match request.address {
                    Some(address) => address_of(document) == Ok::<_, ()>(Some(address@)),
                    None => address_of(document) == Ok::<Option<Seq<u8>>, ()>(None),
                }
            },
        }
    }
}

/// Reads the request for an unsigned credential from a parsed document, and
/// builds its disclosure policy from the attribute list of the identity
/// object.
pub fn credential_request(document: &Document) -> (r: Result<CredentialRequest, WalletError>)
    ensures
        credential_request_outcome(document@, r),
{
    let ip_info = try_get(document, FieldName::IpInfo)?;
    let ars_infos = try_get(document, FieldName::ArsInfos)?;
    let global = try_get(document, FieldName::Global)?;
    let context = IssuanceContext::assemble(ip_info, ars_infos, global)?;
    let identity_object = try_get(document, FieldName::IdentityObject)?;
    let _choice = identity_choice(&identity_object)?;
    let list = match identity_object.member("attributeList") {
        Some(list) => list.attribute_list(),
        None => None,
    };
    let list = match list {
        Some(list) => list,
        None => {
            return Err(WalletError::MalformedField { field: FieldName::IdentityObject });
        },
    };
    let tags = match try_get(document, FieldName::RevealedAttributes)?.tags() {
        Some(tags) => tags,
        None => {
            return Err(WalletError::MalformedField { field: FieldName::RevealedAttributes });
        },
    };
    let credential_number = try_get_byte(document, FieldName::CredentialNumber)?;
    let public_keys = try_get_public_keys(document)?;
    let threshold = try_get_threshold(document)?;
    let id_cred_sec_seed = try_get_text(document, FieldName::IdCredSec)?;
    let prf_key_seed = try_get_text(document, FieldName::PrfKey)?;
    let wrapped = try_get(document, FieldName::Randomness)?;
    let randomness = match wrapped.member("randomness") {
        Some(inner) => match inner.text() {
            Some(text) => Scalar::from_hex(text.as_str()),
            None => None,
        },
        None => None,
    };
    let randomness = match randomness {
        Some(randomness) => randomness,
        None => {
            return Err(WalletError::MalformedField { field: FieldName::Randomness });
        },
    };
    let policy = build_policy(&list, &tags)?;
    let address = try_get_address(document)?;
    Ok(
        CredentialRequest {
            context,
            identity_object,
            policy,
            credential_number,
            public_keys,
            threshold,
            id_cred_sec_seed,
            prf_key_seed,
            randomness,
            address,
        },
    )
}

/// Reads the request for an unsigned credential from the text of a
/// document. Text that is no document fails; a document is read as
/// `credential_request` reads it.
pub fn generate_unsigned_credential_aux(input: &str) -> (r: Result<
    CredentialRequest,
    WalletError,
>)
    ensures
        match parsed_json(input@) {
            None => fails_with(r, WalletError::MalformedDocument),
            Some(document) => credential_request_outcome(document, r),
        },
{
    let document = Document::parse(input)?;
    credential_request(&document)
}

/// Judges the outcome of constructing the proofs of an unsigned credential:
/// what was built, or the failure to build it.
pub fn unsigned_credential<T>(built: Option<T>) -> (r: Result<T, WalletError>)
    ensures
        match built {
            Some(credential) => r == Ok::<T, WalletError>(credential),
            None => r == Err::<T, _>(WalletError::CredentialBuild),
        },
{
    match built {
        Some(credential) => Ok(credential),
        None => Err(WalletError::CredentialBuild),
    }
}

/// The randomness that the response to a request for an identity object
/// hands to the caller is read back as it was written: a document whose
/// field `randomness` is what the response holds under `randomness_wrapped`
/// gives the same scalar.
pub proof fn lemma_randomness_is_read_back(
    response: serde_json::Value,
    pio: serde_json::Value,
    randomness: Seq<u8>,
    document: serde_json::Value,
)
    requires
        is_id_response(response, pio, randomness),
        hex_scalar(hex_of_bytes(randomness)) == Some(randomness),
        field_of(document, FieldName::Randomness) == Some(
            json_members(response)->0["randomness_wrapped"@],
        ),
    ensures
        randomness_of(document) == Some(randomness),
{
    let wrapped = json_members(response)->0["randomness_wrapped"@];
    let members = json_members(wrapped)->0;
    assert(members.dom().contains("randomness"@));
}

} // verus!
