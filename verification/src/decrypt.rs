//! Decryption of confidential amounts.
//!
//! An amount is encrypted in two chunks of 32 bits, the low chunk and the
//! high chunk, each in the exponent of a point. Decrypting a chunk removes
//! the blinding with the secret scalar and recovers the exponent by the
//! bounded search of a discrete-log table. A chunk whose exponent the search
//! does not find makes the amount, and with it the batch, fail.

use vstd::prelude::*;
use pairing::bls12_381::G1;
use crate::dlog::{
    baby_step, is_first_hit, is_hit, lemma_first_hit_is_unique, lemma_search_finds_exponent,
    multiples_differ, multiples_subtract, search_result, DiscreteLogTable, MAX_TABLE_SIZE,
};
use crate::errors::WalletError;
use crate::group::{
    encoded_difference, encoded_prf_exponent, encoded_product, point_encoding, Point, Scalar,
};

verus! {

/// What the high chunk of an amount is multiplied by.
pub const CHUNK_RANGE: u64 = 0x1_0000_0000;

/// One chunk of an encrypted amount: a pair of points.
#[derive(Clone, Copy, Debug)]
pub struct Cipher {
    /// The randomness of the encryption, as a multiple of the generator.
    pub first: Point,
    /// The message, blinded with the public key.
    pub second: Point,
}

/// An encrypted amount: its low and its high chunk.
#[derive(Clone, Copy, Debug)]
pub struct EncryptedAmount {
    pub low: Cipher,
    pub high: Cipher,
}

/// The secret that decrypts the amounts of one credential.
#[derive(Clone, Copy, Debug)]
pub struct DecryptionKey {
    /// The generator that the matching public key is a multiple of.
    pub generator: Point,
    /// The secret scalar.
    pub scalar: Scalar,
}

/// The point that a chunk holds once the blinding is removed: the second
/// point less the first multiplied by the secret scalar.
pub open spec fn chunk_message(scalar: Seq<u8>, cipher: Cipher) -> Seq<u8> {
    encoded_difference(cipher.second@, encoded_product(cipher.first@, scalar))
}

/// What decrypting a chunk gives: the result of the search for the
/// exponent of its message.
pub open spec fn chunk_result(
    base: Seq<u8>,
    size: nat,
    scalar: Seq<u8>,
    cipher: Cipher,
    found: Option<u64>,
) -> bool {
    search_result(base, size, chunk_message(scalar, cipher), found)
}

/// What decrypting an amount gives: the low chunk plus `2^32` times the high
/// chunk, if both are found.
pub open spec fn amount_result(
    base: Seq<u8>,
    size: nat,
    scalar: Seq<u8>,
    amount: EncryptedAmount,
    found: Option<u64>,
) -> bool {
    match found {
        Some(value) => exists|low: u64, high: u64|
            #![trigger chunk_result(base, size, scalar, amount.low, Some(low)), chunk_result(base, size, scalar, amount.high, Some(high))]
            chunk_result(base, size, scalar, amount.low, Some(low)) && chunk_result(
                base,
                size,
                scalar,
                amount.high,
                Some(high),
            ) && value == low + high * CHUNK_RANGE,
        None => chunk_result(base, size, scalar, amount.low, None) || chunk_result(
            base,
            size,
            scalar,
            amount.high,
            None,
        ),
    }
}

/// Whether an amount is in range: decrypting it gives a value.
pub open spec fn is_in_range(base: Seq<u8>, size: nat, scalar: Seq<u8>, amount: EncryptedAmount) -> bool {
    exists|value: u64| amount_result(base, size, scalar, amount, Some(value))
}

/// What decrypting a batch gives: the amounts in the order of the
/// ciphertexts, or the position of the first ciphertext that is out of
/// range.
pub open spec fn batch_result(
    base: Seq<u8>,
    size: nat,
    scalar: Seq<u8>,
    amounts: Seq<EncryptedAmount>,
    outcome: Result<Seq<u64>, WalletError>,
) -> bool {
    match outcome {
        Ok(values) => values.len() == amounts.len() && forall|k: int|
            0 <= k < amounts.len() ==> amount_result(
                base,
                size,
                scalar,
                #[trigger] amounts[k],
                Some(values[k]),
            ),
        Err(e) => exists|position: usize|
            #![trigger amounts[position as int]]
            position < amounts.len() && e == (WalletError::AmountOutOfRange { position })
                && amount_result(base, size, scalar, amounts[position as int], None) && forall|
                k: int,
            |
                0 <= k < position ==> is_in_range(base, size, scalar, #[trigger] amounts[k]),
    }
}

impl DecryptionKey {
    /// The key for the credential with number `credential_number`, derived
    /// from the PRF key. Fails when the PRF key has no exponent for that
    /// number.
    pub fn derive(generator: Point, prf_key: &Scalar, credential_number: u8) -> (r: Result<
        DecryptionKey,
        WalletError,
    >)
        ensures
            match r {
                Ok(key) => encoded_prf_exponent(prf_key@, credential_number) == Some(key.scalar@)
                    && key.generator == generator,
                Err(e) => encoded_prf_exponent(prf_key@, credential_number) is None && e
                    == WalletError::KeyDerivation,
            },
    {
        match prf_key.prf_exponent(credential_number) {
            Some(scalar) => Ok(DecryptionKey { generator, scalar }),
            None => Err(WalletError::KeyDerivation),
        }
    }

    /// Decrypts one chunk: recovers the exponent of its message over the
    /// base of `table`, if the search finds it.
    pub fn decrypt_chunk(&self, table: &DiscreteLogTable, cipher: &Cipher) -> (found: Option<u64>)
        ensures
            chunk_result(table.base_spec(), table.size_spec(), self.scalar@, *cipher, found),
            found matches Some(value) ==> value < CHUNK_RANGE,
    {
        let blinding = cipher.first.times(&self.scalar);
        let message = cipher.second.minus(&blinding);
        table.discrete_log(&message)
    }

    /// Decrypts one amount: the low chunk plus `2^32` times the high chunk.
    /// Gives `None` when the search fails for either chunk.
    pub fn decrypt_amount(&self, table: &DiscreteLogTable, amount: &EncryptedAmount) -> (found:
        Option<u64>)
        ensures
            amount_result(table.base_spec(), table.size_spec(), self.scalar@, *amount, found),
    {
        let low = match self.decrypt_chunk(table, &amount.low) {
            Some(low) => low,
            None => {
                return None;
            },
        };
        let high = match self.decrypt_chunk(table, &amount.high) {
            Some(high) => high,
            None => {
                return None;
            },
        };
        Some(low + high * CHUNK_RANGE)
    }

    /// Decrypts a batch with a table of `table_size` baby steps over
    /// `base`, which is built once. An empty batch needs no table.
    pub fn decrypt_with_new_table(
        &self,
        base: &Point,
        table_size: u64,
        amounts: &Vec<EncryptedAmount>,
    ) -> (r: Result<Vec<u64>, WalletError>)
        requires
            1 <= table_size <= MAX_TABLE_SIZE,
        ensures
            batch_result(
                base@,
                table_size as nat,
                self.scalar@,
                amounts@,
                match r {
                    Ok(values) => Ok(values@),
                    Err(e) => Err(e),
                },
            ),
    {
        if amounts.len() == 0 {
            return Ok(Vec::new());
        }
        let table = DiscreteLogTable::new(base, table_size);
        self.decrypt_batch(&table, amounts)
    }

    /// Decrypts a batch with one table: as many amounts as ciphertexts, in
    /// their order. Fails as a whole at the first ciphertext whose amount is
    /// out of range.
    pub fn decrypt_batch(&self, table: &DiscreteLogTable, amounts: &Vec<EncryptedAmount>) -> (r:
        Result<Vec<u64>, WalletError>)
        ensures
            batch_result(
                table.base_spec(),
                table.size_spec(),
                self.scalar@,
                amounts@,
                match r {
                    Ok(values) => Ok(values@),
                    Err(e) => Err(e),
                },
            ),
    {
        let mut values: Vec<u64> = Vec::new();
        let mut k: usize = 0;
        while k < amounts.len()
            invariant
                k <= amounts.len(),
                values@.len() == k,
                forall|i: int|
                    0 <= i < k ==> amount_result(
                        table.base_spec(),
                        table.size_spec(),
                        self.scalar@,
                        #[trigger] amounts@[i],
                        Some(values@[i]),
                    ),
            decreases amounts.len() - k,
        {
            match self.decrypt_amount(table, &amounts[k]) {
                Some(value) => {
                    values.push(value);
                },
                None => {
                    proof {
                        assert(amount_result(
                            table.base_spec(),
                            table.size_spec(),
                            self.scalar@,
                            amounts@[k as int],
                            None,
                        ));
                        assert forall|i: int| 0 <= i < k implies is_in_range(
                            table.base_spec(),
                            table.size_spec(),
                            self.scalar@,
                            #[trigger] amounts@[i],
                        ) by {
                            assert(amount_result(
                                table.base_spec(),
                                table.size_spec(),
                                self.scalar@,
                                amounts@[i],
                                Some(values@[i]),
                            ));
                        }
                    }
                    return Err(WalletError::AmountOutOfRange { position: k });
                },
            }
            k += 1;
        }
        Ok(values)
    }
}

/// Decrypts a batch of amounts of the credential with number
/// `credential_number`: derives the decryption key from the PRF key, builds
/// the table of full size over `base` once, and decrypts every ciphertext
/// with it. An empty batch needs no table.
pub fn decrypt_amounts(
    generator: Point,
    base: &Point,
    prf_key: &Scalar,
    credential_number: u8,
    amounts: &Vec<EncryptedAmount>,
) -> (r: Result<Vec<u64>, WalletError>)
    ensures
        match encoded_prf_exponent(prf_key@, credential_number) {
            None => r == Err::<Vec<u64>, _>(WalletError::KeyDerivation),
            Some(scalar) => batch_result(
                base@,
                MAX_TABLE_SIZE as nat,
                scalar,
                amounts@,
                match r {
                    Ok(values) => Ok(values@),
                    Err(e) => Err(e),
                },
            ),
        },
{
    let key = match DecryptionKey::derive(generator, prf_key, credential_number) {
        Ok(key) => key,
        Err(e) => {
            return Err(e);
        },
    };
    key.decrypt_with_new_table(base, MAX_TABLE_SIZE, amounts)
}

impl Cipher {
    /// The chunk that the curve library holds as the points `first` and
    /// `second`.
    pub fn new(first: G1, second: G1) -> (cipher: Cipher)
        ensures
            cipher.first@ == point_encoding(first),
            cipher.second@ == point_encoding(second),
    {
        Cipher { first: Point::new(first), second: Point::new(second) }
    }
}

/// Decrypting a chunk has one result.
pub proof fn lemma_chunk_result_is_unique(
    base: Seq<u8>,
    size: nat,
    scalar: Seq<u8>,
    cipher: Cipher,
    a: Option<u64>,
    b: Option<u64>,
)
    requires
        chunk_result(base, size, scalar, cipher, a),
        chunk_result(base, size, scalar, cipher, b),
    ensures
        a == b,
{
    let message = chunk_message(scalar, cipher);
    match (a, b) {
        (Some(x), Some(y)) => {
            let (i, j) = choose|i: nat, j: nat| #[trigger]
                is_first_hit(base, size, message, i, j) && x == i * size + j;
            let (c, d) = choose|c: nat, d: nat| #[trigger]
                is_first_hit(base, size, message, c, d) && y == c * size + d;
            lemma_first_hit_is_unique(base, size, message, i, j, c, d);
        },
        (Some(x), None) => {
            let (i, j) = choose|i: nat, j: nat| #[trigger]
                is_first_hit(base, size, message, i, j) && x == i * size + j;
            assert(is_hit(base, size, message, i, j));
        },
        (None, Some(y)) => {
            let (c, d) = choose|c: nat, d: nat| #[trigger]
                is_first_hit(base, size, message, c, d) && y == c * size + d;
            assert(is_hit(base, size, message, c, d));
        },
        (None, None) => {},
    }
}

/// Decrypting an amount has one result.
pub proof fn lemma_amount_result_is_unique(
    base: Seq<u8>,
    size: nat,
    scalar: Seq<u8>,
    amount: EncryptedAmount,
    a: Option<u64>,
    b: Option<u64>,
)
    requires
        amount_result(base, size, scalar, amount, a),
        amount_result(base, size, scalar, amount, b),
    ensures
        a == b,
{
    match (a, b) {
        (Some(x), Some(y)) => {
            let (l1, h1) = choose|low: u64, high: u64|
                #![trigger chunk_result(base, size, scalar, amount.low, Some(low)), chunk_result(base, size, scalar, amount.high, Some(high))]
                chunk_result(base, size, scalar, amount.low, Some(low)) && chunk_result(
                    base,
                    size,
                    scalar,
                    amount.high,
                    Some(high),
                ) && x == low + high * CHUNK_RANGE;
            let (l2, h2) = choose|low: u64, high: u64|
                #![trigger chunk_result(base, size, scalar, amount.low, Some(low)), chunk_result(base, size, scalar, amount.high, Some(high))]
                chunk_result(base, size, scalar, amount.low, Some(low)) && chunk_result(
                    base,
                    size,
                    scalar,
                    amount.high,
                    Some(high),
                ) && y == low + high * CHUNK_RANGE;
            lemma_chunk_result_is_unique(base, size, scalar, amount.low, Some(l1), Some(l2));
            lemma_chunk_result_is_unique(base, size, scalar, amount.high, Some(h1), Some(h2));
        },
        (Some(x), None) => {
            let (l1, h1) = choose|low: u64, high: u64|
                #![trigger chunk_result(base, size, scalar, amount.low, Some(low)), chunk_result(base, size, scalar, amount.high, Some(high))]
                chunk_result(base, size, scalar, amount.low, Some(low)) && chunk_result(
                    base,
                    size,
                    scalar,
                    amount.high,
                    Some(high),
                ) && x == low + high * CHUNK_RANGE;
            lemma_chunk_result_is_unique(base, size, scalar, amount.low, Some(l1), None);
            lemma_chunk_result_is_unique(base, size, scalar, amount.high, Some(h1), None);
        },
        (None, Some(y)) => {
            let (l2, h2) = choose|low: u64, high: u64|
                #![trigger chunk_result(base, size, scalar, amount.low, Some(low)), chunk_result(base, size, scalar, amount.high, Some(high))]
                chunk_result(base, size, scalar, amount.low, Some(low)) && chunk_result(
                    base,
                    size,
                    scalar,
                    amount.high,
                    Some(high),
                ) && y == low + high * CHUNK_RANGE;
            lemma_chunk_result_is_unique(base, size, scalar, amount.low, Some(l2), None);
            lemma_chunk_result_is_unique(base, size, scalar, amount.high, Some(h2), None);
        },
        (None, None) => {},
    }
}

/// Whether `cipher` encrypts `value` for the secret scalar: with the blinding
/// removed, it holds `value` times the base.
pub open spec fn encrypts(base: Seq<u8>, scalar: Seq<u8>, cipher: Cipher, value: nat) -> bool {
    chunk_message(scalar, cipher) == baby_step(base, value)
}

/// Decryption gives back what was encrypted, over a base whose multiples, up
/// to `bound` times it, subtract as multiples do and are all different: an
/// amount whose chunks encrypt `low` and `high` decrypts to `low + 2^32 *
/// high` when both are below `size * size`, and fails when either is not.
pub proof fn lemma_decryption_recovers_amount(
    base: Seq<u8>,
    size: nat,
    bound: nat,
    scalar: Seq<u8>,
    amount: EncryptedAmount,
    low: nat,
    high: nat,
)
    requires
        multiples_subtract(base, bound),
        multiples_differ(base, bound),
        1 <= size <= MAX_TABLE_SIZE,
        size <= bound,
        low <= bound,
        high <= bound,
        encrypts(base, scalar, amount.low, low),
        encrypts(base, scalar, amount.high, high),
    ensures
        low < size * size && high < size * size ==> amount_result(
            base,
            size,
            scalar,
            amount,
            Some((low + high * CHUNK_RANGE) as u64),
        ),
        low >= size * size || high >= size * size ==> amount_result(
            base,
            size,
            scalar,
            amount,
            None,
        ),
{
    assert(size * size <= 0x1_0000_0000) by (nonlinear_arith)
        requires
            size <= 65536,
    ;
    lemma_search_finds_exponent(base, size, bound, low);
    lemma_search_finds_exponent(base, size, bound, high);
    if low < size * size && high < size * size {
        assert(chunk_result(base, size, scalar, amount.low, Some(low as u64)));
        assert(chunk_result(base, size, scalar, amount.high, Some(high as u64)));
    }
}

/// A batch that decrypts gives as many amounts as it has ciphertexts, and
/// the amount at each position is the one that its ciphertext decrypts to
/// alone.
pub proof fn lemma_batch_keeps_order(
    base: Seq<u8>,
    size: nat,
    scalar: Seq<u8>,
    amounts: Seq<EncryptedAmount>,
    values: Seq<u64>,
    k: int,
    alone: Option<u64>,
)
    requires
        batch_result(base, size, scalar, amounts, Ok(values)),
        0 <= k < amounts.len(),
        amount_result(base, size, scalar, amounts[k], alone),
    ensures
        values.len() == amounts.len(),
        alone == Some(values[k]),
{
    lemma_amount_result_is_unique(base, size, scalar, amounts[k], alone, Some(values[k]));
}

} // verus!
