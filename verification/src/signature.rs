//! The account-ownership signature that a caller supplies as text.

use vstd::prelude::*;
use crate::errors::WalletError;
use crate::hexcode::{bytes_of_hex, from_hex, is_hex_text};

verus! {

/// The index under which the single signer of an account signs.
pub const SIGNER_KEY_INDEX: u8 = 0;

/// Whether `bytes` is a well-formed signature: 64 bytes, with the three
/// highest bits of the last byte clear.
pub open spec fn well_formed_signature(bytes: Seq<u8>) -> bool {
    bytes.len() == 64 && bytes[63] < 32
}

/// Whether `text` is a signature in transport form: 128 hexadecimal digits
/// that encode a well-formed signature.
pub open spec fn is_signature_text(text: Seq<char>) -> bool {
    is_hex_text(text) && well_formed_signature(bytes_of_hex(text))
}

/// A well-formed signature.
#[derive(Debug, PartialEq, Eq)]
pub struct AccountSignature {
    bytes: Vec<u8>,
}

impl View for AccountSignature {
    type V = Seq<u8>;

    closed spec fn view(&self) -> Seq<u8> {
        self.bytes@
    }
}

/// `ed25519_dalek::Signature::from_bytes`: accepts exactly the slices of 64
/// bytes whose last byte has its three highest bits clear, that is, is below
/// 32.
#[verifier::external_body]
fn accepted_as_signature(bytes: &Vec<u8>) -> (ok: bool)
    ensures
        ok == well_formed_signature(bytes@),
{
    ed25519_dalek::Signature::from_bytes(bytes.as_slice()).is_ok()
}

impl AccountSignature {
    #[verifier::type_invariant]
    spec fn well_formed(self) -> bool {
        well_formed_signature(self.bytes@)
    }

    /// Reads a signature from its transport form. Fails unless `text` is 128
    /// hexadecimal digits that encode a well-formed signature.
    pub fn decode(text: &str) -> (r: Result<AccountSignature, WalletError>)
        ensures
            match r {
                Ok(signature) => is_signature_text(text@) && signature@ == bytes_of_hex(text@),
                Err(e) => !is_signature_text(text@) && e == WalletError::SignatureDecode,
            },
    {
        match from_hex(text) {
            None => Err(WalletError::SignatureDecode),
            Some(bytes) => {
                if accepted_as_signature(&bytes) {
                    Ok(AccountSignature { bytes })
                } else {
                    Err(WalletError::SignatureDecode)
                }
            },
        }
    }

    /// The 64 bytes of the signature.
    pub fn bytes(&self) -> (b: &Vec<u8>)
        ensures
            b@ == self@,
            well_formed_signature(b@),
    {
        proof {
            use_type_invariant(self);
        }
        &self.bytes
    }
}

/// A signature in transport form has 128 digits.
pub proof fn lemma_signature_text_length(text: Seq<char>)
    requires
        is_signature_text(text),
    ensures
        text.len() == 128,
{
}

} // verus!
