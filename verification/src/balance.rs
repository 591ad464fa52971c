//! Decryption of the confidential amounts that an input document lists.
//!
//! The document gives the encrypted amounts, the seed of the PRF key, the
//! number of the credential, and the global parameters. The PRF key gives
//! the secret for the credential, the global parameters give the base of the
//! discrete-log table, and the batch is decrypted with one table.

use vstd::prelude::*;
use concordium_base::common::types::Amount;
use pairing::bls12_381::G1;
use crate::context::json_generators;
use crate::decrypt::{batch_result, Cipher, DecryptionKey, EncryptedAmount};
use crate::dlog::MAX_TABLE_SIZE;
use crate::document::{
    field_byte_failure, field_of, field_text_failure, json_byte, json_text, parsed_json, try_get,
    try_get_byte, try_get_text, Document,
};
use crate::errors::{fails_with, misses, FieldName, WalletError};
use crate::group::{encoded_prf_exponent, Scalar};
use crate::secrets::generate_bls;

verus! {

/// The encrypted amounts that a JSON value lists, if it lists encrypted
/// amounts.
pub uninterp spec fn json_encrypted_amounts(value: serde_json::Value) -> Option<
    Seq<EncryptedAmount>,
>;

/// The text of a list of amounts.
pub uninterp spec fn amounts_text(values: Seq<u64>) -> Seq<char>;

/// `serde_json::from_value` for a list of `EncryptedAmount`: the amounts
/// that the value lists, each as its two chunks of two points; nothing when
/// the value is not a list of encrypted amounts.
#[verifier::external_body]
fn json_amount_list(value: &serde_json::Value) -> (r: Option<Vec<EncryptedAmount>>)
    ensures
        match r {
            Some(amounts) => json_encrypted_amounts(*value) == Some(amounts@),
            None => json_encrypted_amounts(*value) is None,
        },
{
    let amounts: Vec<concordium_base::encrypted_transfers::types::EncryptedAmount<G1>> =
        serde_json::from_value(value.clone()).ok()?;
    Some(amounts.iter().map(|amount| EncryptedAmount {
        low: Cipher::new(amount.encryptions[0].0, amount.encryptions[0].1),
        high: Cipher::new(amount.encryptions[1].0, amount.encryptions[1].1),
    }).collect())
}

/// `serde_json::to_string` for a list of `Amount`: the text of the list,
/// which depends only on the amounts.
#[verifier::external_body]
fn amounts_to_text(values: &Vec<u64>) -> (text: String)
    ensures
        text@ == amounts_text(values@),
{
    let amounts: Vec<Amount> = values.iter().map(|v| Amount::from_micro_ccd(*v)).collect();
    match serde_json::to_value(&amounts) {
        Ok(list) => list.to_string(),
        Err(_) => String::new(),
    }
}

/// What decrypting the amounts that `document` lists gives, with the outcome
/// of deriving the PRF key and a table of `table_size` baby steps: the first
/// failure in the order of the steps, or the text of the decrypted amounts.
pub open spec fn decryption_outcome(
    document: serde_json::Value,
    prf_key: Option<Scalar>,
    table_size: nat,
    r: Result<String, WalletError>,
) -> bool {
    if field_of(document, FieldName::EncryptedAmounts) is None {
        misses(r, FieldName::EncryptedAmounts)
    } else if json_encrypted_amounts(field_of(document, FieldName::EncryptedAmounts)->0) is None {
        fails_with(r, WalletError::MalformedField { field: FieldName::EncryptedAmounts })
    } else if field_text_failure(document, FieldName::PrfKey) is Some {
        fails_with(r, field_text_failure(document, FieldName::PrfKey)->0)
    } else if prf_key is None {
        fails_with(r, WalletError::KeyDerivation)
    } else if field_byte_failure(document, FieldName::CredentialNumber) is Some {
        fails_with(r, field_byte_failure(document, FieldName::CredentialNumber)->0)
    } else if encoded_prf_exponent(
        prf_key->0@,
        json_byte(field_of(document, FieldName::CredentialNumber)->0)->0,
    ) is None {
        fails_with(r, WalletError::KeyDerivation)
    } else if field_of(document, FieldName::Global) is None {
        misses(r, FieldName::Global)
    } else if json_generators(field_of(document, FieldName::Global)->0) is None {
        fails_with(r, WalletError::MalformedField { field: FieldName::Global })
    } else {
        let amounts = json_encrypted_amounts(field_of(document, FieldName::EncryptedAmounts)->0)->0;
        let number = json_byte(field_of(document, FieldName::CredentialNumber)->0)->0;
        let scalar = encoded_prf_exponent(prf_key->0@, number)->0;
        let generators = json_generators(field_of(document, FieldName::Global)->0)->0;
        is_batch_text(generators.encryption@, table_size, scalar, amounts, r)
    }
}

/// Whether `r` is what decrypting the batch `amounts` gives, as text: the
/// text of the decrypted amounts, or the failure of the batch.
pub open spec fn is_batch_text(
    base: Seq<u8>,
    size: nat,
    scalar: Seq<u8>,
    amounts: Seq<EncryptedAmount>,
    r: Result<String, WalletError>,
) -> bool {
    exists|outcome: Result<Seq<u64>, WalletError>| #[trigger]
        batch_result(base, size, scalar, amounts, outcome) && match outcome {
            Ok(values) => r matches Ok(text) && text@ == amounts_text(values),
            Err(e) => fails_with(r, e),
        }
}

/// Decrypts the amounts that a parsed document lists, for the credential
/// whose number the document gives, with the PRF key that was derived from
/// the seed in the document, and with a table of `table_size` baby steps,
/// which bounds each chunk of an amount by the square of `table_size`.
pub fn decrypt_document(document: &Document, prf_key: Option<Scalar>, table_size: u64) -> (r:
    Result<String, WalletError>)
    requires
        1 <= table_size <= MAX_TABLE_SIZE,
    ensures
        decryption_outcome(document@, prf_key, table_size as nat, r),
{
    let amounts = match try_get(document, FieldName::EncryptedAmounts)?.encrypted_amounts() {
        Some(amounts) => amounts,
        None => {
            return Err(WalletError::MalformedField { field: FieldName::EncryptedAmounts });
        },
    };
    let _seed = try_get_text(document, FieldName::PrfKey)?;
    let prf_key = generate_bls(prf_key)?;
    let credential_number = try_get_byte(document, FieldName::CredentialNumber)?;
    let exponent = match prf_key.prf_exponent(credential_number) {
        Some(exponent) => exponent,
        None => {
            return Err(WalletError::KeyDerivation);
        },
    };
    let generators = match try_get(document, FieldName::Global)?.generators() {
        Some(generators) => generators,
        None => {
            return Err(WalletError::MalformedField { field: FieldName::Global });
        },
    };
    let key = DecryptionKey { generator: generators.elgamal, scalar: exponent };
    let outcome = key.decrypt_with_new_table(&generators.encryption, table_size, &amounts);
    let ghost witness: Result<Seq<u64>, WalletError> = match &outcome {
        Ok(values) => Ok(values@),
        Err(e) => Err(*e),
    };
    let r = match &outcome {
        Ok(values) => Ok(amounts_to_text(values)),
        Err(e) => Err(*e),
    };
    proof {
        assert(batch_result(
            generators.encryption@,
            table_size as nat,
            exponent@,
            amounts@,
            witness,
        ));
        assert(is_batch_text(
            generators.encryption@,
            table_size as nat,
            exponent@,
            amounts@,
            r,
        ));
    }
    r
}

/// Decrypts the amounts that the text of a document lists, with a table
/// of full size. Text that is no document fails; a document is decrypted as
/// `decrypt_document` decrypts it.
pub fn decrypt_amounts_aux(input: &str, prf_key: Option<Scalar>) -> (r: Result<
    String,
    WalletError,
>)
    ensures
        match parsed_json(input@) {
            None => fails_with(r, WalletError::MalformedDocument),
            Some(document) => decryption_outcome(document, prf_key, MAX_TABLE_SIZE as nat, r),
        },
{
    let document = Document::parse(input)?;
    decrypt_document(&document, prf_key, MAX_TABLE_SIZE)
}

/// The seed of the PRF key that the text of a document gives. Fails when
/// the text is no document, or the seed is absent or is not text.
pub fn prf_key_seed(input: &str) -> (r: Result<String, WalletError>)
    ensures
        match parsed_json(input@) {
            None => fails_with(r, WalletError::MalformedDocument),
            Some(document) => match r {
                Ok(seed) => field_of(document, FieldName::PrfKey) matches Some(found)
                    && json_text(found) == Some(seed@),
                Err(e) => field_text_failure(document, FieldName::PrfKey) == Some(e),
            },
        },
{
    let document = Document::parse(input)?;
    try_get_text(&document, FieldName::PrfKey)
}

impl Document {
    /// The encrypted amounts, if the document lists encrypted amounts.
    pub fn encrypted_amounts(&self) -> (r: Option<Vec<EncryptedAmount>>)
        ensures
            match r {
                Some(amounts) => json_encrypted_amounts(self@) == Some(amounts@),
                None => json_encrypted_amounts(self@) is None,
            },
    {
        json_amount_list(self.value())
    }
}

} // verus!
