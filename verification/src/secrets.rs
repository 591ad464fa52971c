//! The holder's long-lived secrets: scalars derived from seeds.
//!
//! Derivation itself is the work of a key-derivation primitive outside this
//! crate. What is decided here is what becomes of its outcome.

use vstd::prelude::*;
use crate::errors::WalletError;
use crate::group::Scalar;

verus! {

/// The two secrets of an identity holder.
#[derive(Clone, Copy, Debug)]
pub struct HolderSecrets {
    /// The secret behind the holder's identity credentials.
    pub id_cred_sec: Scalar,
    /// The key that gives a pseudorandom exponent for each credential
    /// number.
    pub prf_key: Scalar,
}

/// Accepts the outcome of deriving a secret from a seed: the scalar, or the
/// failure of the derivation.
pub fn generate_bls(derived: Option<Scalar>) -> (r: Result<Scalar, WalletError>)
    ensures
        match derived {
            Some(scalar) => r == Ok::<_, WalletError>(scalar),
            None => r == Err::<Scalar, _>(WalletError::KeyDerivation),
        },
{
    match derived {
        Some(scalar) => Ok(scalar),
        None => Err(WalletError::KeyDerivation),
    }
}

impl HolderSecrets {
    /// Accepts the outcomes of deriving the two secrets, the identity secret
    /// first. Fails if either derivation failed.
    pub fn from_derivation(id_cred_sec: Option<Scalar>, prf_key: Option<Scalar>) -> (r: Result<
        HolderSecrets,
        WalletError,
    >)
        ensures
            match (id_cred_sec, prf_key) {
                (Some(id), Some(prf)) => r == Ok::<_, WalletError>(
                    HolderSecrets { id_cred_sec: id, prf_key: prf },
                ),
                _ => r == Err::<HolderSecrets, _>(WalletError::KeyDerivation),
            },
    {
        let id_cred_sec = generate_bls(id_cred_sec)?;
        let prf_key = generate_bls(prf_key)?;
        Ok(HolderSecrets { id_cred_sec, prf_key })
    }
}

} // verus!
