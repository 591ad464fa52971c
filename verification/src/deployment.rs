//! Packaging of a signed credential for submission: the block item that
//! carries it, the hash of that item, and its versioned wire form.
//!
//! A credential deployment is encoded as the tag of its kind of block item,
//! the expiry as eight bytes with the highest first, the tag of a normal
//! credential, and the canonical bytes of the signed credential. The wire
//! form puts the version before that. The hash is taken over the encoding
//! without the version.

use vstd::prelude::*;
use crate::bytes::{be64_bytes, be64_value, lemma_be64_round_trip, push_all, push_be64, read_be64};
use crate::hexcode::{bytes_of_hex, from_hex, hex_of_bytes, is_hex_text, lemma_hex_round_trip, to_hex};

verus! {

/// The version of the wire form, which is encoded as this single byte.
pub const WIRE_VERSION: u8 = 0;

/// The tag of a credential deployment among the kinds of block item.
pub const DEPLOYMENT_TAG: u8 = 1;

/// The tag of a normal credential among the kinds of credential.
pub const NORMAL_CREDENTIAL_TAG: u8 = 1;

/// The number of bytes in front of the credential in the wire form.
pub const WIRE_HEADER_LENGTH: usize = 11;

/// A signed credential with the time at which its deployment expires, ready
/// for submission.
#[derive(Debug, PartialEq, Eq)]
pub struct DeploymentTransaction {
    /// The canonical bytes of the signed credential.
    pub credential: Vec<u8>,
    /// Seconds since the epoch.
    pub expiry: u64,
}

/// The SHA-256 digest of `data`.
pub uninterp spec fn sha256_digest(data: Seq<u8>) -> Seq<u8>;

/// `sha2::Sha256::digest`: the SHA-256 digest of the bytes, which has 32
/// bytes and depends on nothing but them.
#[verifier::external_body]
pub(crate) fn sha256(data: &Vec<u8>) -> (digest: Vec<u8>)
    ensures
        digest@ == sha256_digest(data@),
        digest@.len() == 32,
{
    <sha2::Sha256 as sha2::Digest>::digest(data).to_vec()
}

/// The text of the account address with the given 32 bytes.
pub uninterp spec fn address_text(bytes: Seq<u8>) -> Seq<char>;

/// The `Display` of `AccountAddress`: the address as text, which depends
/// only on its 32 bytes.
#[verifier::external_body]
fn address_to_text(bytes: &Vec<u8>) -> (text: String)
    requires
        bytes@.len() == 32,
    ensures
        text@ == address_text(bytes@),
{
    let mut address = [0u8; 32];
    address.copy_from_slice(bytes);
    concordium_base::contracts_common::AccountAddress(address).to_string()
}

/// The text of the address of the account that the credential with the
/// identity commitment `cred_id` creates: the address whose bytes are the
/// digest of the commitment.
pub open spec fn account_address(cred_id: Seq<u8>) -> Seq<char> {
    address_text(sha256_digest(cred_id))
}

/// The encoding of the block item that deploys `credential` with `expiry`.
pub open spec fn block_item(credential: Seq<u8>, expiry: u64) -> Seq<u8> {
    seq![DEPLOYMENT_TAG] + be64_bytes(expiry) + seq![NORMAL_CREDENTIAL_TAG] + credential
}

/// The versioned encoding of the block item.
pub open spec fn wire_form(credential: Seq<u8>, expiry: u64) -> Seq<u8> {
    seq![WIRE_VERSION] + block_item(credential, expiry)
}

/// The credential and expiry that `bytes` is the wire form of, if it is one.
pub open spec fn read_wire_form(bytes: Seq<u8>) -> Option<(Seq<u8>, u64)> {
    if bytes.len() >= 11 && bytes[0] == WIRE_VERSION && bytes[1] == DEPLOYMENT_TAG && bytes[10]
        == NORMAL_CREDENTIAL_TAG {
        Some((bytes.subrange(11, bytes.len() as int), be64_value(bytes.subrange(2, 10))))
    } else {
        None
    }
}

/// The hash of a deployment, as text: the digest of its block item.
pub open spec fn content_hash(credential: Seq<u8>, expiry: u64) -> Seq<char> {
    hex_of_bytes(sha256_digest(block_item(credential, expiry)))
}

/// The text of the account address with the given bytes, if they are 32.
pub fn address_text_of(bytes: &Vec<u8>) -> (r: Option<String>)
    ensures
        match r {
            Some(text) => bytes@.len() == 32 && text@ == address_text(bytes@),
            None => bytes@.len() != 32,
        },
{
    if bytes.len() == 32 {
        Some(address_to_text(bytes))
    } else {
        None
    }
}

/// The address of the account that a credential creates, as text. It is
/// derived from the credential's identity commitment, given as its encoding,
/// and from nothing else.
pub fn account_address_of(cred_id: &Vec<u8>) -> (text: String)
    ensures
        text@ == account_address(cred_id@),
{
    let digest = sha256(cred_id);
    address_to_text(&digest)
}

/// What is submitted to deploy a credential, and what identifies the
/// submission.
#[derive(Debug, PartialEq, Eq)]
pub struct DeploymentDetails {
    pub transaction: DeploymentTransaction,
    /// The versioned wire form, as hexadecimal text.
    pub hex: String,
    /// The hash of the block item, as hexadecimal text.
    pub hash: String,
    /// The address of the account that the credential creates.
    pub address: String,
}

/// Packages a signed credential, given as its canonical bytes, for
/// submission before `expiry`: the wire form, the hash, and the address of
/// the account, which is derived from the credential's identity commitment
/// `cred_id`.
pub fn package_deployment(credential: Vec<u8>, cred_id: &Vec<u8>, expiry: u64) -> (details:
    DeploymentDetails)
    ensures
        details.transaction.credential@ == credential@,
        details.transaction.expiry == expiry,
        details.hex@ == hex_of_bytes(wire_form(credential@, expiry)),
        details.hash@ == content_hash(credential@, expiry),
        details.address@ == account_address(cred_id@),
{
    let transaction = DeploymentTransaction { credential, expiry };
    let hex = transaction.wire_hex();
    let hash = transaction.content_hash();
    let address = account_address_of(cred_id);
    DeploymentDetails { transaction, hex, hash, address }
}

impl DeploymentTransaction {
    /// The encoding of the block item that deploys the credential.
    pub fn block_item(&self) -> (bytes: Vec<u8>)
        ensures
            bytes@ == block_item(self.credential@, self.expiry),
    {
        let mut out: Vec<u8> = Vec::new();
        out.push(DEPLOYMENT_TAG);
        push_be64(&mut out, self.expiry);
        out.push(NORMAL_CREDENTIAL_TAG);
        push_all(&mut out, &self.credential, 0);
        assert(self.credential@.subrange(0, self.credential@.len() as int) == self.credential@);
        assert(out@ == block_item(self.credential@, self.expiry));
        out
    }

    /// The versioned encoding of the block item, as submitted.
    pub fn wire_form(&self) -> (bytes: Vec<u8>)
        ensures
            bytes@ == wire_form(self.credential@, self.expiry),
    {
        let item = self.block_item();
        let mut out: Vec<u8> = Vec::new();
        out.push(WIRE_VERSION);
        push_all(&mut out, &item, 0);
        assert(item@.subrange(0, item@.len() as int) == item@);
        out
    }

    /// The wire form as hexadecimal text.
    pub fn wire_hex(&self) -> (text: String)
        ensures
            text@ == hex_of_bytes(wire_form(self.credential@, self.expiry)),
    {
        to_hex(&self.wire_form())
    }

    /// The hash of the deployment as hexadecimal text: the SHA-256 digest of
    /// the block item, without the version.
    pub fn content_hash(&self) -> (text: String)
        ensures
            text@ == content_hash(self.credential@, self.expiry),
            text@.len() == 64,
    {
        let digest = sha256(&self.block_item());
        to_hex(&digest)
    }

    /// Reads a deployment back from the hexadecimal text of its wire form.
    /// Gives `None` unless `text` is hexadecimal text that starts with the
    /// version, the tag of a credential deployment, eight bytes of expiry
    /// and the tag of a normal credential.
    pub fn from_wire_hex(text: &str) -> (r: Option<DeploymentTransaction>)
        ensures
            match r {
                Some(tx) => is_hex_text(text@) && read_wire_form(bytes_of_hex(text@)) == Some(
                    (tx.credential@, tx.expiry),
                ),
                None => !is_hex_text(text@) || read_wire_form(bytes_of_hex(text@)) is None,
            },
    {
        match from_hex(text) {
            None => None,
            Some(bytes) => {
                if bytes.len() < WIRE_HEADER_LENGTH || bytes[0] != WIRE_VERSION || bytes[1]
                    != DEPLOYMENT_TAG || bytes[10] != NORMAL_CREDENTIAL_TAG {
                    return None;
                }
                let expiry: u64 = read_be64(&bytes, 2);
                let mut credential: Vec<u8> = Vec::new();
                push_all(&mut credential, &bytes, WIRE_HEADER_LENGTH);
                Some(DeploymentTransaction { credential, expiry })
            },
        }
    }
}

/// Reading the wire form of a deployment gives the deployment back.
pub proof fn lemma_wire_form_round_trip(credential: Seq<u8>, expiry: u64)
    ensures
        read_wire_form(wire_form(credential, expiry)) == Some((credential, expiry)),
{
    let bytes = wire_form(credential, expiry);
    lemma_be64_round_trip(expiry);
    assert(bytes.subrange(2, 10) == be64_bytes(expiry));
    assert(bytes.subrange(11, bytes.len() as int) == credential);
}

/// Encoding a deployment as wire text and decoding that text gives the
/// deployment back, and hashing what was decoded gives the same hash.
pub proof fn lemma_wire_hex_round_trip(credential: Seq<u8>, expiry: u64)
    ensures
        is_hex_text(hex_of_bytes(wire_form(credential, expiry))),
        read_wire_form(bytes_of_hex(hex_of_bytes(wire_form(credential, expiry)))) == Some(
            (credential, expiry),
        ),
        ({
            let decoded = read_wire_form(
                bytes_of_hex(hex_of_bytes(wire_form(credential, expiry))),
            )->0;
            content_hash(decoded.0, decoded.1) == content_hash(credential, expiry)
        }),
{
    lemma_hex_round_trip(wire_form(credential, expiry));
    lemma_wire_form_round_trip(credential, expiry);
}

} // verus!
