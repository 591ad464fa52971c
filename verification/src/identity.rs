//! Requests to an identity provider: the public information of the initial
//! account, and the pre-identity object.
//!
//! The functions here read the input document, settle the reconstruction
//! threshold and decode the signature. The cryptographic construction takes
//! what they return, and its outcome comes back to be judged.

use vstd::prelude::*;
use crate::context::{context_failure, is_context_of, revoker_count, IssuanceContext};
use crate::document::{
    field_keys_failure, field_of, field_threshold_failure, json_members, json_nonzero_byte,
    json_number, json_number_value, json_object_of, json_string_value, json_text,
    json_with_member, parsed_json, try_get, try_get_public_keys, try_get_threshold, Document,
};
use crate::errors::{fails_with, misses, FieldName, WalletError};
use crate::group::{hex_scalar, Scalar};
use crate::hexcode::{bytes_of_hex, hex_of_bytes, to_hex};
use crate::secrets::HolderSecrets;
use crate::signature::{is_signature_text, AccountSignature};
use crate::threshold::{requested_threshold, threshold_in_bounds, Threshold};

verus! {

/// What the construction of the public information of an initial account
/// needs.
#[derive(Debug)]
pub struct PublicInfoRequest {
    pub context: IssuanceContext,
    pub secrets: HolderSecrets,
    pub public_keys: Document,
    /// How many keys of the initial account must sign.
    pub threshold: u8,
}

/// What the construction of a pre-identity object needs.
#[derive(Debug)]
pub struct IdRequest {
    pub context: IssuanceContext,
    /// How many anonymity revokers must cooperate to reveal the identity.
    pub revocation_threshold: Threshold,
    pub secrets: HolderSecrets,
    /// The signature of the initial account on its public information.
    pub signature: AccountSignature,
    pub public_keys: Document,
    /// How many keys of the initial account must sign.
    pub threshold: u8,
}

/// What reading the request for public information from `document` gives,
/// with the outcomes of deriving the two secrets: the first failure in the
/// order of the steps, or the request.
pub open spec fn public_info_outcome(
    document: serde_json::Value,
    id_cred_sec: Option<Scalar>,
    prf_key: Option<Scalar>,
    r: Result<PublicInfoRequest, WalletError>,
) -> bool {
    if field_of(document, FieldName::IpInfo) is None {
        misses(r, FieldName::IpInfo)
    } else if field_of(document, FieldName::Global) is None {
        misses(r, FieldName::Global)
    } else if field_of(document, FieldName::ArsInfos) is None {
        misses(r, FieldName::ArsInfos)
    } else if context_failure(document) is Some {
        fails_with(r, context_failure(document)->0)
    } else if id_cred_sec is None || prf_key is None {
        fails_with(r, WalletError::KeyDerivation)
    } else if field_keys_failure(document) is Some {
        fails_with(r, field_keys_failure(document)->0)
    } else if field_threshold_failure(document) is Some {
        fails_with(r, field_threshold_failure(document)->0)
    } else {
        &&& r matches Ok(request)
        &&& is_context_of(request.context, document)
        &&& Some(request.secrets.id_cred_sec) == id_cred_sec
        &&& Some(request.secrets.prf_key) == prf_key
        &&& Some(request.public_keys@) == field_of(document, FieldName::PublicKeys)
        &&& Some(request.threshold) == json_nonzero_byte(
            field_of(document, FieldName::Threshold)->0,
        )
    }
}

/// Why the threshold that the caller names cannot be used among the
/// revokers that `document` registers, if it cannot: it is zero, or more
/// than there are revokers.
pub open spec fn threshold_failure(document: serde_json::Value, threshold: Option<usize>) -> Option<
    WalletError,
> {
    match threshold {
        Some(value) => if threshold_in_bounds(value as nat, revoker_count(document)->0) {
            None
        } else {
            Some(
                WalletError::Threshold {
                    threshold: value,
                    revokers: revoker_count(document)->0 as usize,
                },
            )
        },
        None => None,
    }
}

/// What reading the request for a pre-identity object from `document`
/// gives, with the signature text, the outcomes of deriving the two
/// secrets, and the threshold that the caller names, if any: the first
/// failure in the order of the steps, or the request.
pub open spec fn id_request_outcome(
    document: serde_json::Value,
    signature: Seq<char>,
    id_cred_sec: Option<Scalar>,
    prf_key: Option<Scalar>,
    threshold: Option<usize>,
    r: Result<IdRequest, WalletError>,
) -> bool {
    if field_of(document, FieldName::IpInfo) is None {
        misses(r, FieldName::IpInfo)
    } else if field_of(document, FieldName::Global) is None {
        misses(r, FieldName::Global)
    } else if field_of(document, FieldName::ArsInfos) is None {
        misses(r, FieldName::ArsInfos)
    } else if context_failure(document) is Some {
        fails_with(r, context_failure(document)->0)
    } else if threshold_failure(document, threshold) is Some {
        fails_with(r, threshold_failure(document, threshold)->0)
    } else if id_cred_sec is None || prf_key is None {
        fails_with(r, WalletError::KeyDerivation)
    } else if !is_signature_text(signature) {
        fails_with(r, WalletError::SignatureDecode)
    } else if field_keys_failure(document) is Some {
        fails_with(r, field_keys_failure(document)->0)
    } else if field_threshold_failure(document) is Some {
        fails_with(r, field_threshold_failure(document)->0)
    } else {
        &&& r matches Ok(request)
        &&& is_context_of(request.context, document)
        &&& Some(request.revocation_threshold.revokers_spec()) == revoker_count(document)
        &&& request.revocation_threshold.value_spec() == requested_threshold(
            threshold,
            revoker_count(document)->0,
        )
        &&& Some(request.secrets.id_cred_sec) == id_cred_sec
        &&& Some(request.secrets.prf_key) == prf_key
        &&& request.signature@ == bytes_of_hex(signature)
        &&& Some(request.public_keys@) == field_of(document, FieldName::PublicKeys)
        &&& Some(request.threshold) == json_nonzero_byte(
            field_of(document, FieldName::Threshold)->0,
        )
    }
}

/// Reads the request for the public information of an initial account from
/// a parsed document.
pub fn public_info_request(
    document: &Document,
    id_cred_sec: Option<Scalar>,
    prf_key: Option<Scalar>,
) -> (r: Result<PublicInfoRequest, WalletError>)
    ensures
        public_info_outcome(document@, id_cred_sec, prf_key, r),
{
    let ip_info = try_get(document, FieldName::IpInfo)?;
    let global = try_get(document, FieldName::Global)?;
    let ars_infos = try_get(document, FieldName::ArsInfos)?;
    let context = IssuanceContext::assemble(ip_info, ars_infos, global)?;
    let secrets = HolderSecrets::from_derivation(id_cred_sec, prf_key)?;
    let public_keys = try_get_public_keys(document)?;
    let threshold = try_get_threshold(document)?;
    Ok(PublicInfoRequest { context, secrets, public_keys, threshold })
}

/// Reads the request for the public information of an initial account from
/// the text of a document. Text that is no document fails; a document is
/// read as `public_info_request` reads it.
pub fn build_pub_info_for_ip_aux(
    input: &str,
    id_cred_sec: Option<Scalar>,
    prf_key: Option<Scalar>,
) -> (r: Result<PublicInfoRequest, WalletError>)
    ensures
        match parsed_json(input@) {
            None => fails_with(r, WalletError::MalformedDocument),
            Some(document) => public_info_outcome(document, id_cred_sec, prf_key, r),
        },
{
    let document = Document::parse(input)?;
    public_info_request(&document, id_cred_sec, prf_key)
}

/// Reads the request for a pre-identity object from a parsed document, and
/// settles its threshold: the one that the caller names, if it is at least
/// one and at most the number of registered anonymity revokers, and
/// otherwise all registered revokers but one, and at least one.
pub fn id_request(
    document: &Document,
    signature: &str,
    id_cred_sec: Option<Scalar>,
    prf_key: Option<Scalar>,
    threshold: Option<usize>,
) -> (r: Result<IdRequest, WalletError>)
    ensures
        id_request_outcome(document@, signature@, id_cred_sec, prf_key, threshold, r),
{
    let ip_info = try_get(document, FieldName::IpInfo)?;
    let global = try_get(document, FieldName::Global)?;
    let ars_infos = try_get(document, FieldName::ArsInfos)?;
    let context = IssuanceContext::assemble(ip_info, ars_infos, global)?;
    let revocation_threshold = Threshold::for_request(threshold, context.revokers())?;
    let secrets = HolderSecrets::from_derivation(id_cred_sec, prf_key)?;
    let signature = AccountSignature::decode(signature)?;
    let public_keys = try_get_public_keys(document)?;
    let account_threshold = try_get_threshold(document)?;
    Ok(
        IdRequest {
            context,
            revocation_threshold,
            secrets,
            signature,
            public_keys,
            threshold: account_threshold,
        },
    )
}

/// Reads the request for a pre-identity object from the text of a document.
/// Text that is no document fails; a document is read as `id_request` reads
/// it.
pub fn create_id_request_aux(
    input: &str,
    signature: &str,
    id_cred_sec: Option<Scalar>,
    prf_key: Option<Scalar>,
    threshold: Option<usize>,
) -> (r: Result<IdRequest, WalletError>)
    ensures
        match parsed_json(input@) {
            None => fails_with(r, WalletError::MalformedDocument),
            Some(document) => id_request_outcome(
                document,
                signature@,
                id_cred_sec,
                prf_key,
                threshold,
                r,
            ),
        },
{
    let document = Document::parse(input)?;
    id_request(&document, signature, id_cred_sec, prf_key, threshold)
}

/// Judges the outcome of constructing a pre-identity object: what was
/// built, or the failure to build it.
pub fn pre_identity_object<T>(built: Option<T>) -> (r: Result<T, WalletError>)
    ensures
        match built {
            Some(object) => r == Ok::<T, WalletError>(object),
            None => r == Err::<T, _>(WalletError::PreIdentityBuild),
        },
{
    match built {
        Some(object) => Ok(object),
        None => Err(WalletError::PreIdentityBuild),
    }
}

/// The response to a request for an identity object: the pre-identity
/// object under `idObjectRequest`, with its version 0, and under
/// `randomness_wrapped` the randomness that blinded it, in hexadecimal.
pub open spec fn id_response_value(pio: serde_json::Value, randomness: Seq<u8>) -> serde_json::Value {
    json_with_member(
        json_object_of(
            "idObjectRequest"@,
            json_with_member(json_object_of("v"@, json_number_value(0)), "value"@, pio),
        ),
        "randomness_wrapped"@,
        json_object_of("randomness"@, json_string_value(hex_of_bytes(randomness))),
    )
}

/// Whether `response` has exactly the members of the response to a request
/// for an identity object, each with exactly its own.
pub open spec fn is_id_response(
    response: serde_json::Value,
    pio: serde_json::Value,
    randomness: Seq<u8>,
) -> bool {
    &&& json_members(response) matches Some(members)
    &&& members.dom() == set!["idObjectRequest"@, "randomness_wrapped"@]
    &&& json_members(members["idObjectRequest"@]) matches Some(versioned)
    &&& versioned.dom() == set!["v"@, "value"@]
    &&& versioned["value"@] == pio
    &&& json_number(versioned["v"@]) == Some(0u64)
    &&& json_members(members["randomness_wrapped"@]) matches Some(wrapped)
    &&& wrapped.dom() == set!["randomness"@]
    &&& json_text(wrapped["randomness"@]) == Some(hex_of_bytes(randomness))
}

/// Writes the response to a request for an identity object: exactly the
/// members `idObjectRequest` and `randomness_wrapped`.
pub fn id_request_response(pio: Document, randomness: &Scalar) -> (response: Document)
    ensures
        response@ == id_response_value(pio@, randomness@),
        is_id_response(response@, pio@, randomness@),
        hex_scalar(hex_of_bytes(randomness@)) == Some(randomness@),
{
    let versioned = Document::with_one_member("v", Document::of_number(0)).with_member(
        "value",
        pio,
    ).unwrap();
    let wrapped = Document::with_one_member(
        "randomness",
        Document::of_text(to_hex(&randomness.encoding()).as_str()),
    );
    let response = Document::with_one_member("idObjectRequest", versioned).with_member(
        "randomness_wrapped",
        wrapped,
    ).unwrap();
    proof {
        reveal_strlit("v");
        reveal_strlit("value");
        reveal_strlit("idObjectRequest");
        reveal_strlit("randomness_wrapped");
        assert("v"@.len() == 1 && "value"@.len() == 5);
        assert("idObjectRequest"@.len() == 15 && "randomness_wrapped"@.len() == 18);
        let members = json_members(response@)->0;
        assert(members.dom() =~= set!["idObjectRequest"@, "randomness_wrapped"@]);
        let inner = json_members(members["idObjectRequest"@])->0;
        assert(inner.dom() =~= set!["v"@, "value"@]);
        let outer = json_members(members["randomness_wrapped"@])->0;
        assert(outer.dom() =~= set!["randomness"@]);
    }
    response
}

/// A document in which `global` is absent, and the fields read before it
/// are present, is refused for the absence of `global`, by both requests.
pub proof fn lemma_missing_global_is_named(
    document: serde_json::Value,
    signature: Seq<char>,
    id_cred_sec: Option<Scalar>,
    prf_key: Option<Scalar>,
    threshold: Option<usize>,
    info: Result<PublicInfoRequest, WalletError>,
    request: Result<IdRequest, WalletError>,
)
    requires
        field_of(document, FieldName::IpInfo) is Some,
        field_of(document, FieldName::Global) is None,
        public_info_outcome(document, id_cred_sec, prf_key, info),
        id_request_outcome(document, signature, id_cred_sec, prf_key, threshold, request),
    ensures
        info matches Err(e) && e == (WalletError::MissingField { field: FieldName::Global }),
        request matches Err(e) && e == (WalletError::MissingField { field: FieldName::Global }),
{
}

/// A request that names a threshold of zero, or one above the number of
/// registered anonymity revokers, is refused for the threshold, whatever
/// else it holds after its context. A request that names none, or one
/// within bounds, is not refused for the threshold, and what it is given
/// lies within bounds.
pub proof fn lemma_named_threshold_is_kept_within_bounds(
    document: serde_json::Value,
    signature: Seq<char>,
    id_cred_sec: Option<Scalar>,
    prf_key: Option<Scalar>,
    threshold: Option<usize>,
    request: Result<IdRequest, WalletError>,
)
    requires
        field_of(document, FieldName::IpInfo) is Some,
        field_of(document, FieldName::Global) is Some,
        field_of(document, FieldName::ArsInfos) is Some,
        context_failure(document) is None,
        id_request_outcome(document, signature, id_cred_sec, prf_key, threshold, request),
    ensures
        revoker_count(document) is Some,
        revoker_count(document)->0 >= 1,
        match threshold {
            Some(value) => (value == 0 || value > revoker_count(document)->0) ==> fails_with(
                request,
                WalletError::Threshold {
                    threshold: value,
                    revokers: revoker_count(document)->0 as usize,
                },
            ),
            None => true,
        },
        match request {
            Ok(read) => threshold_in_bounds(
                read.revocation_threshold.value_spec(),
                revoker_count(document)->0,
            ) && read.revocation_threshold.value_spec() == requested_threshold(
                threshold,
                revoker_count(document)->0,
            ),
            Err(_) => true,
        },
{
}

} // verus!
