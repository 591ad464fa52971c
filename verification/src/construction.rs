//! The construction of an unsigned credential from a request.
//!
//! What the identity layer needs is put together as one list: the context,
//! the identity object, the holder's secrets with the randomness of the
//! pre-identity request, the policy, the account's keys filed under their
//! positions, their threshold, and the address of the account if the
//! credential joins one. The identity layer constructs the proofs, which
//! take fresh randomness, and the outcome is judged.

use vstd::prelude::*;
use concordium_base::contracts_common::AccountAddress;
use concordium_base::id::account_holder::create_unsigned_credential;
use concordium_base::id::constants::AttributeKind;
use concordium_base::common::types::KeyIndex;
use concordium_base::id::types as layer;
use concordium_base::id::types::{
    ArIdentity, ArInfo, AttributeTag, CredentialPublicKeys, GlobalContext, IdObjectUseData,
    IdentityObject, IpContext, IpInfo, SignatureThreshold, SystemAttributeRandomness, VerifyKey,
};
use pairing::bls12_381::{Bls12, G1};
use serde_json::{from_value, to_value};
use std::collections::BTreeMap;
use crate::credential::{
    identity_choice, identity_failure, json_identity_choice, unsigned_credential,
    CredentialRequest,
};
use crate::deployment::{address_text, address_text_of};
use crate::document::{
    document_values, json_list_items, json_list_value, json_number_value, json_object_of,
    json_string_value, json_with_member, Document, MAX_KEYS,
};
use crate::errors::{fails_with, FieldName, WalletError};
use crate::group::Scalar;
use crate::hexcode::{hex_of_bytes, to_hex};
use crate::policy::{Policy, PolicyView};
use crate::secrets::HolderSecrets;

verus! {

/// The JSON value that describes a policy to the identity layer.
pub uninterp spec fn policy_json(policy: PolicyView) -> serde_json::Value;

/// `serde_json::to_value` for a `Policy` of the identity layer with the
/// window and the attributes of the given one: the value that describes the
/// policy, which depends only on the policy.
#[verifier::external_body]
fn policy_value(policy: &Policy) -> (r: serde_json::Value)
    ensures
        r == policy_json(policy@),
{
    let revealed = policy.revealed.iter().map(|(t, v)| (AttributeTag(*t), AttributeKind(v.clone())));
    let layer = layer::Policy::<G1, AttributeKind> {
        valid_to: layer::YearMonth { year: policy.valid_to.year, month: policy.valid_to.month },
        created_at: layer::YearMonth {
            year: policy.created_at.year,
            month: policy.created_at.month,
        },
        policy_vec: revealed.collect(),
        _phantom: Default::default(),
    };
    to_value(&layer).unwrap_or(serde_json::Value::Null)
}

/// Whether the identity layer can be asked to construct the credential with
/// the number `number` from `parts`: there are nine parts, and the fourth
/// is an identity object that chooses at least one anonymity revoker, a
/// threshold of at least one, and allows at least `number` accounts.
pub open spec fn can_be_constructed(parts: serde_json::Value, number: u8) -> bool {
    &&& json_list_items(parts) matches Some(items)
    &&& items.len() == 9
    &&& json_identity_choice(items[3]) matches Some(choice)
    &&& choice.revokers >= 1
    &&& choice.threshold >= 1
    &&& number <= choice.max_accounts
}

/// `create_unsigned_credential`, on the parts that `serde_json::from_value`
/// reads from the list: the unsigned credential as a document. The proofs
/// take fresh randomness, so nothing is said of the document; there is none
/// when a part is unreadable or the construction fails. The construction
/// does not return for an identity object that chooses no anonymity
/// revoker or a threshold of zero, nor for a credential number above the
/// number of accounts that the identity object allows.
#[verifier::external_body]
fn unsigned_credential_of(parts: &serde_json::Value, number: u8) -> (r: Option<serde_json::Value>)
    requires
        can_be_constructed(*parts, number),
{
    let (ip, ars, global, object, use_data, policy, keys, threshold, address): (
        IpInfo<Bls12>, BTreeMap<ArIdentity, ArInfo<G1>>, GlobalContext<G1>,
        IdentityObject<Bls12, G1, AttributeKind>, IdObjectUseData<Bls12, G1>,
        layer::Policy<G1, AttributeKind>, Vec<(KeyIndex, VerifyKey)>, SignatureThreshold,
        Vec<AccountAddress>,
    ) = from_value(parts.clone()).ok()?;
    let keys = CredentialPublicKeys { keys: keys.into_iter().collect(), threshold };
    let context = IpContext::new(&ip, &ars, &global);
    let built = create_unsigned_credential(context, &object, &use_data, number, policy, keys, address.first(), &SystemAttributeRandomness).ok()?;
    to_value(&built.0).ok()
}

/// The key at position `position`, as it is filed: the position, then the
/// key.
pub open spec fn filed_key(keys: Seq<serde_json::Value>, position: int) -> serde_json::Value {
    json_list_value(seq![json_number_value(position as u64), keys[position]])
}

/// The keys of an account, every key filed under its position in the list.
pub open spec fn filed_keys_of(keys: Seq<serde_json::Value>) -> Seq<serde_json::Value> {
    Seq::new(keys.len(), |position: int| filed_key(keys, position))
}

/// The holder's secrets with the randomness of the pre-identity request,
/// as the identity layer reads them: each scalar in hexadecimal.
pub open spec fn use_data_value(
    id_cred_sec: Seq<u8>,
    prf_key: Seq<u8>,
    randomness: Seq<u8>,
) -> serde_json::Value {
    json_with_member(
        json_object_of(
            "aci"@,
            json_with_member(
                json_object_of(
                    "credentialHolderInformation"@,
                    json_object_of("idCredSecret"@, json_string_value(hex_of_bytes(id_cred_sec))),
                ),
                "prfKey"@,
                json_string_value(hex_of_bytes(prf_key)),
            ),
        ),
        "randomness"@,
        json_string_value(hex_of_bytes(randomness)),
    )
}

/// The address of the account that a credential joins, as a list: the text
/// of the address, or nothing.
pub open spec fn address_items(address: Option<Vec<u8>>) -> Seq<serde_json::Value> {
    match address {
        Some(bytes) => seq![json_string_value(address_text(bytes@))],
        None => Seq::empty(),
    }
}

/// Why the parts of `request` cannot be put together, if they cannot: the
/// keys are no list of at most 256 keys, or the address has not 32 bytes.
pub open spec fn parts_failure(request: CredentialRequest) -> Option<WalletError> {
    if !(json_list_items(request.public_keys@) matches Some(keys) && keys.len() <= MAX_KEYS) {
        Some(WalletError::MalformedField { field: FieldName::PublicKeys })
    } else if request.address matches Some(bytes) && bytes@.len() != 32 {
        Some(WalletError::MalformedField { field: FieldName::Address })
    } else {
        None
    }
}

/// The parts that are handed to the identity layer for `request` and the
/// holder's secrets, in their order.
pub open spec fn parts_items(request: CredentialRequest, secrets: HolderSecrets) -> Seq<
    serde_json::Value,
> {
    seq![
        request.context.ip_info_spec(),
        request.context.ars_infos_spec(),
        request.context.global_spec(),
        request.identity_object@,
        use_data_value(secrets.id_cred_sec@, secrets.prf_key@, request.randomness@),
        policy_json(request.policy@),
        json_list_value(filed_keys_of(json_list_items(request.public_keys@)->0)),
        json_number_value(request.threshold as u64),
        json_list_value(address_items(request.address)),
    ]
}

/// The list that is handed to the identity layer for `request` and the
/// holder's secrets.
pub open spec fn parts_value(request: CredentialRequest, secrets: HolderSecrets) -> serde_json::Value {
    json_list_value(parts_items(request, secrets))
}

/// Files every key under its position in the list.
pub fn file_keys(keys: Vec<Document>) -> (filed: Document)
    requires
        keys@.len() <= MAX_KEYS,
    ensures
        filed@ == json_list_value(filed_keys_of(document_values(keys@))),
{
    let ghost values = document_values(keys@);
    let count = keys.len();
    let mut keys = keys;
    let mut filed: Vec<Document> = Vec::new();
    let mut position: usize = 0;
    while position < count
        invariant
            position <= count <= MAX_KEYS,
            values.len() == count,
            keys@.len() == count - position,
            document_values(keys@) == values.skip(position as int),
            filed@.len() == position,
            document_values(filed@) == filed_keys_of(values).take(position as int),
        decreases count - position,
    {
        let ghost before = keys@;
        let ghost filed_before = filed@;
        let key = keys.remove(0);
        let mut pair: Vec<Document> = Vec::new();
        pair.push(Document::of_number(position as u64));
        pair.push(key);
        proof {
            assert(document_values(before)[0] == before[0]@);
            assert(values.skip(position as int)[0] == values[position as int]);
            assert(document_values(pair@) == seq![
                json_number_value(position as u64),
                values[position as int],
            ]);
            assert(document_values(keys@) =~= values.skip(position + 1)) by {
                assert forall|i: int| 0 <= i < keys@.len() implies document_values(keys@)[i]
                    == values.skip(position + 1)[i] by {
                    assert(keys@[i] == before[i + 1]);
                    assert(document_values(before)[i + 1] == before[i + 1]@);
                    assert(values.skip(position as int)[i + 1] == values[position + 1 + i]);
                }
            }
        }
        filed.push(Document::of_list(pair));
        proof {
            assert(document_values(filed@) =~= filed_keys_of(values).take(position + 1)) by {
                assert forall|i: int| 0 <= i < position + 1 implies document_values(filed@)[i]
                    == filed_keys_of(values).take(position + 1)[i] by {
                    if i < position {
                        assert(filed@[i] == filed_before[i]);
                        assert(document_values(filed_before)[i] == filed_before[i]@);
                        assert(filed_keys_of(values).take(position as int)[i] == filed_keys_of(
                            values,
                        )[i]);
                    }
                }
            }
        }
        position = position + 1;
    }
    proof {
        assert(filed_keys_of(values).take(count as int) == filed_keys_of(values));
    }
    Document::of_list(filed)
}

/// Files the keys that `document` lists, every key under its position.
/// Fails when the document is no list of at most 256 items.
pub fn filed_keys(document: &Document) -> (r: Result<Document, WalletError>)
    ensures
        match r {
            Ok(filed) => json_list_items(document@) matches Some(keys) && keys.len() <= MAX_KEYS
                && filed@ == json_list_value(filed_keys_of(keys)),
            Err(e) => !(json_list_items(document@) matches Some(keys) && keys.len() <= MAX_KEYS)
                && e == (WalletError::MalformedField { field: FieldName::PublicKeys }),
        },
{
    let keys = match document.items() {
        Some(keys) => keys,
        None => {
            return Err(WalletError::MalformedField { field: FieldName::PublicKeys });
        },
    };
    if keys.len() > MAX_KEYS {
        return Err(WalletError::MalformedField { field: FieldName::PublicKeys });
    }
    Ok(file_keys(keys))
}

/// The scalar in hexadecimal, as a document.
fn hex_document(scalar: &Scalar) -> (document: Document)
    ensures
        document@ == json_string_value(hex_of_bytes(scalar@)),
{
    Document::of_text(to_hex(&scalar.encoding()).as_str())
}

/// Puts together what the identity layer needs to construct the unsigned
/// credential of `request`.
pub fn construction_parts(request: CredentialRequest, secrets: &HolderSecrets) -> (r: Result<
    Document,
    WalletError,
>)
    ensures
        match parts_failure(request) {
            Some(e) => fails_with(r, e),
            None => r matches Ok(parts) && parts@ == parts_value(request, *secrets)
                && json_list_items(parts@) == Some(parts_items(request, *secrets)),
        },
{
    let filed = filed_keys(&request.public_keys)?;
    let mut address: Vec<Document> = Vec::new();
    match &request.address {
        Some(bytes) => match address_text_of(bytes) {
            Some(text) => {
                address.push(Document::of_text(text.as_str()));
            },
            None => {
                return Err(WalletError::MalformedField { field: FieldName::Address });
            },
        },
        None => {},
    }
    proof {
        assert(document_values(address@) == address_items(request.address));
    }
    let threshold = Document::of_number(request.threshold as u64);
    let holder = Document::with_one_member(
        "credentialHolderInformation",
        Document::with_one_member("idCredSecret", hex_document(&secrets.id_cred_sec)),
    ).with_member("prfKey", hex_document(&secrets.prf_key)).unwrap();
    let use_data = Document::with_one_member("aci", holder).with_member(
        "randomness",
        hex_document(&request.randomness),
    ).unwrap();
    let policy = Document::policy(&request.policy);
    let (ip_info, ars_infos, global) = request.context.into_parts();
    let mut parts: Vec<Document> = Vec::new();
    parts.push(ip_info);
    parts.push(ars_infos);
    parts.push(global);
    parts.push(request.identity_object);
    parts.push(use_data);
    parts.push(policy);
    parts.push(filed);
    parts.push(threshold);
    parts.push(Document::of_list(address));
    proof {
        assert(document_values(parts@) == parts_items(request, *secrets));
    }
    Ok(Document::of_list(parts))
}

/// Why the identity layer is not asked to construct the credential of
/// `request`, if it is not: the identity object cannot be used, it allows
/// fewer accounts than the number of the credential, or the parts cannot be
/// put together.
pub open spec fn construction_failure(request: CredentialRequest) -> Option<WalletError> {
    if identity_failure(request.identity_object@) is Some {
        identity_failure(request.identity_object@)
    } else if request.credential_number > json_identity_choice(
        request.identity_object@,
    )->0.max_accounts {
        Some(WalletError::CredentialBuild)
    } else {
        parts_failure(request)
    }
}

/// Constructs the unsigned credential of `request` with the holder's
/// secrets. Fails when the identity object cannot be used, when it allows
/// fewer accounts than the number of the credential, and when the parts
/// cannot be put together. Otherwise the identity layer constructs the
/// proofs, and the result is its document or the failure to construct them.
pub fn build_unsigned_credential(request: CredentialRequest, secrets: &HolderSecrets) -> (r:
    Result<Document, WalletError>)
    ensures
        match construction_failure(request) {
            Some(e) => fails_with(r, e),
            None => r is Ok || fails_with(r, WalletError::CredentialBuild),
        },
{
    let number = request.credential_number;
    let choice = identity_choice(&request.identity_object)?;
    if number > choice.max_accounts {
        return Err(WalletError::CredentialBuild);
    }
    let ghost items = parts_items(request, *secrets);
    let parts = construction_parts(request, secrets)?;
    proof {
        assert(items.len() == 9);
        assert(items[3] == request.identity_object@);
    }
    let built = match unsigned_credential_of(parts.value(), number) {
        Some(value) => Some(Document::from_value(value)),
        None => None,
    };
    unsigned_credential(built)
}

impl Document {
    /// The document that describes a policy to the identity layer.
    pub fn policy(policy: &Policy) -> (document: Document)
        ensures
            document@ == policy_json(policy@),
    {
        Document::from_value(policy_value(policy))
    }
}

} // verus!
