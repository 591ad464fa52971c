use wallet_crypto::errors::WalletError;
use wallet_crypto::signature::AccountSignature;

fn signature_text(last: &str) -> String {
    format!("{}{}", "ab".repeat(63), last)
}

#[test]
fn well_formed_signature_is_decoded() {
    let signature = AccountSignature::decode(&signature_text("1f")).unwrap();
    let mut expected = vec![0xabu8; 63];
    expected.push(0x1f);
    assert_eq!(signature.bytes(), &expected);
}

#[test]
fn upper_case_signature_is_decoded() {
    let text = signature_text("0a").to_uppercase();
    let signature = AccountSignature::decode(&text).unwrap();
    assert_eq!(signature.bytes().len(), 64);
    assert_eq!(signature.bytes()[63], 0x0a);
    assert_eq!(signature.bytes()[0], 0xab);
}

#[test]
fn short_signature_is_rejected() {
    assert_eq!(
        AccountSignature::decode(&"00".repeat(63)),
        Err(WalletError::SignatureDecode)
    );
    assert_eq!(AccountSignature::decode(""), Err(WalletError::SignatureDecode));
}

#[test]
fn long_signature_is_rejected() {
    assert_eq!(
        AccountSignature::decode(&"00".repeat(65)),
        Err(WalletError::SignatureDecode)
    );
}

#[test]
fn odd_length_signature_is_rejected() {
    let mut text = "00".repeat(64);
    text.pop();
    assert_eq!(AccountSignature::decode(&text), Err(WalletError::SignatureDecode));
}

#[test]
fn signature_with_other_characters_is_rejected() {
    let text = format!("{}zz", "00".repeat(63));
    assert_eq!(AccountSignature::decode(&text), Err(WalletError::SignatureDecode));
}

#[test]
fn signature_with_high_bits_set_is_rejected() {
    assert_eq!(
        AccountSignature::decode(&signature_text("20")),
        Err(WalletError::SignatureDecode)
    );
    assert_eq!(
        AccountSignature::decode(&signature_text("ff")),
        Err(WalletError::SignatureDecode)
    );
    assert!(AccountSignature::decode(&signature_text("1f")).is_ok());
}

#[test]
fn decoded_signature_is_accepted_by_signature_library() {
    let signature = AccountSignature::decode(&signature_text("05")).unwrap();
    let parsed = ed25519_dalek::Signature::from_bytes(signature.bytes()).unwrap();
    assert_eq!(&parsed.to_bytes()[..], &signature.bytes()[..]);
}
