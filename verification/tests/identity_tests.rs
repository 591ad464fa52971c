use concordium_base::curve_arithmetic::Curve;
use concordium_base::elgamal::PublicKey;
use concordium_base::id::types::{
    ArIdentity, ArInfo, Description, GlobalContext, IpIdentity, IpInfo, VerifyKey,
};
use pairing::bls12_381::{Bls12, G1};
use std::collections::BTreeMap;
use wallet_crypto::errors::{FieldName, WalletError};
use wallet_crypto::group::Scalar;
use wallet_crypto::document::Document;
use wallet_crypto::identity::{
    build_pub_info_for_ip_aux, create_id_request_aux, id_request_response, pre_identity_object,
};
use wallet_crypto::secrets::{generate_bls, HolderSecrets};

fn scalar(n: u64) -> Option<Scalar> {
    Some(Scalar::new(G1::scalar_from_u64(n)))
}

fn signature() -> String {
    format!("{}0f", "cd".repeat(63))
}


fn registry(revokers: usize) -> String {
    let mut registry = BTreeMap::new();
    for i in 1..=revokers {
        let identity = ArIdentity::try_from(i as u32).unwrap();
        let generator = G1::one_point();
        registry.insert(identity, ArInfo::<G1> {
            ar_identity: identity,
            ar_description: Description {
                name: format!("AR{}", i),
                url: format!("ar{}.example", i),
                description: String::new(),
            },
            ar_public_key: PublicKey {
                generator,
                key: generator.mul_by_scalar(&G1::scalar_from_u64(100 + i as u64)),
            },
        });
    }
    serde_json::to_value(&registry).unwrap().to_string()
}

fn ip_info() -> String {
    let mut csprng = rand::thread_rng();
    let secret = concordium_base::ps_sig::SecretKey::<Bls12>::generate(3, &mut csprng);
    let info = IpInfo::<Bls12> {
        ip_identity: IpIdentity(7),
        ip_description: Description {
            name: "IP".to_owned(),
            url: "ip.example".to_owned(),
            description: String::new(),
        },
        ip_verify_key: concordium_base::ps_sig::PublicKey::from(&secret),
        ip_cdi_verify_key: ed25519_dalek::Keypair::generate(&mut csprng).public,
    };
    serde_json::to_value(&info).unwrap().to_string()
}

fn global() -> String {
    let global = GlobalContext::<G1>::generate_size(String::from("test"), 1);
    serde_json::to_value(&global).unwrap().to_string()
}

fn public_keys() -> String {
    let key = ed25519_dalek::PublicKey::from_bytes(&[0u8; 32]).unwrap();
    serde_json::to_value(&vec![VerifyKey::Ed25519VerifyKey(key)]).unwrap().to_string()
}

fn document(revokers: usize, without: &str) -> String {
    let fields = [
        ("ipInfo", ip_info()),
        ("global", global()),
        ("arsInfos", registry(revokers)),
        ("publicKeys", public_keys()),
        ("threshold", "1".to_string()),
    ];
    let members: Vec<String> = fields
        .iter()
        .filter(|(name, _)| *name != without)
        .map(|(name, value)| format!("\"{}\": {}", name, value))
        .collect();
    format!("{{{}}}", members.join(", "))
}

#[test]
fn derived_secret_is_accepted() {
    let derived = generate_bls(scalar(5)).unwrap();
    assert_eq!(derived.inner(), G1::scalar_from_u64(5));
}

#[test]
fn failed_derivation_is_reported() {
    assert_eq!(generate_bls(None).err(), Some(WalletError::KeyDerivation));
    assert_eq!(
        HolderSecrets::from_derivation(None, scalar(1)).err(),
        Some(WalletError::KeyDerivation)
    );
    assert_eq!(
        HolderSecrets::from_derivation(scalar(1), None).err(),
        Some(WalletError::KeyDerivation)
    );
    let secrets = HolderSecrets::from_derivation(scalar(1), scalar(2)).unwrap();
    assert_eq!(secrets.id_cred_sec.inner(), G1::scalar_from_u64(1));
    assert_eq!(secrets.prf_key.inner(), G1::scalar_from_u64(2));
}

#[test]
fn single_revoker_request_has_threshold_one() {
    let request =
        create_id_request_aux(&document(1, ""), &signature(), scalar(1), scalar(2), None).unwrap();
    assert_eq!(request.revocation_threshold.value(), 1);
    assert_eq!(request.revocation_threshold.revokers(), 1);
    assert_eq!(request.revocation_threshold.to_byte(), Some(1));
    assert_eq!(request.threshold, 1);
    assert_eq!(request.secrets.id_cred_sec.inner(), G1::scalar_from_u64(1));
    assert_eq!(request.secrets.prf_key.inner(), G1::scalar_from_u64(2));
    assert_eq!(request.context.revokers(), 1);
    assert_eq!(request.signature.bytes().len(), 64);
    assert_eq!(request.signature.bytes()[0], 0xcd);
    assert_eq!(request.signature.bytes()[63], 0x0f);
    assert_eq!(request.context.ars_infos().registry_size(), Some(1));
    assert_eq!(request.context.global().member("genesisString").unwrap().text(), Some("test".to_string()));
    assert_eq!(request.context.ip_info().member("ipIdentity").unwrap().number(), Some(7));
    assert!(request.public_keys.is_key_list());
}

#[test]
fn request_threshold_is_all_revokers_but_one() {
    for (revokers, threshold) in [(2usize, 1usize), (3, 2), (5, 4), (10, 9)] {
        let request =
            create_id_request_aux(&document(revokers, ""), &signature(), scalar(1), scalar(2), None)
                .unwrap();
        assert_eq!(request.revocation_threshold.value(), threshold);
        assert_eq!(request.revocation_threshold.revokers(), revokers);
    }
}

#[test]
fn request_without_revokers_is_rejected() {
    assert_eq!(
        create_id_request_aux(&document(0, ""), &signature(), scalar(1), scalar(2), None).err(),
        Some(WalletError::Context)
    );
}

#[test]
fn public_info_request_without_revokers_is_rejected() {
    assert_eq!(
        build_pub_info_for_ip_aux(&document(0, ""), scalar(1), scalar(2)).err(),
        Some(WalletError::Context)
    );
}

#[test]
fn request_with_registry_that_is_no_object_is_rejected() {
    for bad in ["[1, 2]", "{\"1\": {}}", "{\"0\": 1}", "\"none\""] {
        let text = document(1, "").replace(&registry(1), bad);
        assert_eq!(
            create_id_request_aux(&text, &signature(), scalar(1), scalar(2), None).err(),
            Some(WalletError::MalformedField { field: FieldName::ArsInfos })
        );
    }
}

#[test]
fn request_without_global_names_global() {
    assert_eq!(
        create_id_request_aux(&document(1, "global"), &signature(), scalar(1), scalar(2), None).err(),
        Some(WalletError::MissingField { field: FieldName::Global })
    );
    assert_eq!(
        build_pub_info_for_ip_aux(&document(1, "global"), scalar(1), scalar(2)).err(),
        Some(WalletError::MissingField { field: FieldName::Global })
    );
}

#[test]
fn request_names_each_missing_field() {
    let fields = [
        ("ipInfo", FieldName::IpInfo),
        ("global", FieldName::Global),
        ("arsInfos", FieldName::ArsInfos),
        ("publicKeys", FieldName::PublicKeys),
        ("threshold", FieldName::Threshold),
    ];
    for (name, field) in fields {
        assert_eq!(
            create_id_request_aux(&document(2, name), &signature(), scalar(1), scalar(2), None).err(),
            Some(WalletError::MissingField { field })
        );
        assert_eq!(
            build_pub_info_for_ip_aux(&document(2, name), scalar(1), scalar(2)).err(),
            Some(WalletError::MissingField { field })
        );
    }
}

#[test]
fn request_with_malformed_signature_is_rejected() {
    for text in ["", "00", &"zz".repeat(64), &"ff".repeat(64), &"00".repeat(65)] {
        assert_eq!(
            create_id_request_aux(&document(1, ""), text, scalar(1), scalar(2), None).err(),
            Some(WalletError::SignatureDecode)
        );
    }
}

#[test]
fn request_with_failed_derivation_is_rejected() {
    assert_eq!(
        create_id_request_aux(&document(1, ""), &signature(), None, scalar(2), None).err(),
        Some(WalletError::KeyDerivation)
    );
    assert_eq!(
        create_id_request_aux(&document(1, ""), &signature(), scalar(1), None, None).err(),
        Some(WalletError::KeyDerivation)
    );
    assert_eq!(
        build_pub_info_for_ip_aux(&document(1, ""), None, None).err(),
        Some(WalletError::KeyDerivation)
    );
}

#[test]
fn request_failures_come_in_order() {
    assert_eq!(
        create_id_request_aux("]", "", None, None, None).err(),
        Some(WalletError::MalformedDocument)
    );
    assert_eq!(
        create_id_request_aux(&document(0, "publicKeys"), "", None, None, None).err(),
        Some(WalletError::Context)
    );
    assert_eq!(
        create_id_request_aux(&document(1, "publicKeys"), "", None, None, None).err(),
        Some(WalletError::KeyDerivation)
    );
    assert_eq!(
        create_id_request_aux(&document(1, "publicKeys"), "", scalar(1), scalar(2), None).err(),
        Some(WalletError::SignatureDecode)
    );
    assert_eq!(
        create_id_request_aux(&document(1, "publicKeys"), &signature(), scalar(1), scalar(2), None)
            .err(),
        Some(WalletError::MissingField { field: FieldName::PublicKeys })
    );
    assert_eq!(
        build_pub_info_for_ip_aux(&document(1, "arsInfos"), None, None).err(),
        Some(WalletError::MissingField { field: FieldName::ArsInfos })
    );
    assert_eq!(
        build_pub_info_for_ip_aux("", scalar(1), scalar(2)).err(),
        Some(WalletError::MalformedDocument)
    );
}

#[test]
fn public_info_request_is_read() {
    let request = build_pub_info_for_ip_aux(&document(3, ""), scalar(8), scalar(9)).unwrap();
    assert_eq!(request.secrets.id_cred_sec.inner(), G1::scalar_from_u64(8));
    assert_eq!(request.secrets.prf_key.inner(), G1::scalar_from_u64(9));
    assert_eq!(request.context.ars_infos().registry_size(), Some(3));
    assert_eq!(request.threshold, 1);
    assert_eq!(request.context.global().member("genesisString").unwrap().text(), Some("test".to_string()));
    assert_eq!(request.context.ip_info().member_count(), Some(4));
    assert!(request.public_keys.is_key_list());
}

#[test]
fn outcome_of_construction_is_judged() {
    assert_eq!(pre_identity_object(Some(17)), Ok(17));
    assert_eq!(pre_identity_object::<u8>(None), Err(WalletError::PreIdentityBuild));
}

#[test]
fn request_with_malformed_account_threshold_is_rejected() {
    for threshold in ["0", "256", "-1", "\"1\"", "1.5", "null"] {
        let text = document(1, "").replace("\"threshold\": 1", &format!("\"threshold\": {}", threshold));
        assert_eq!(
            create_id_request_aux(&text, &signature(), scalar(1), scalar(2), None).err(),
            Some(WalletError::MalformedField { field: FieldName::Threshold })
        );
        assert_eq!(
            build_pub_info_for_ip_aux(&text, scalar(1), scalar(2)).err(),
            Some(WalletError::MalformedField { field: FieldName::Threshold })
        );
    }
    let text = document(1, "").replace("\"threshold\": 1", "\"threshold\": 255");
    assert_eq!(
        create_id_request_aux(&text, &signature(), scalar(1), scalar(2), None).unwrap().threshold,
        255
    );
}

#[test]
fn request_with_malformed_parts_is_rejected() {
    let fields = [
        (ip_info_of(&document(1, "")), FieldName::IpInfo),
        (global(), FieldName::Global),
        (public_keys(), FieldName::PublicKeys),
    ];
    for (good, field) in fields {
        for bad in ["{}", "17", "[]", "\"text\"", "[17]"] {
            if field == FieldName::PublicKeys && bad == "[]" {
                continue;
            }
            let base = document(1, "");
            let good = if field == FieldName::IpInfo { ip_info_of(&base) } else { good.clone() };
            let text = base.replace(&good, bad);
            assert_eq!(
                create_id_request_aux(&text, &signature(), scalar(1), scalar(2), None).err(),
                Some(WalletError::MalformedField { field })
            );
            assert_eq!(
                build_pub_info_for_ip_aux(&text, scalar(1), scalar(2)).err(),
                Some(WalletError::MalformedField { field })
            );
        }
    }
}

fn ip_info_of(document: &str) -> String {
    let value: serde_json::Value = serde_json::from_str(document).unwrap();
    value.get("ipInfo").unwrap().to_string()
}

#[test]
fn response_holds_the_request_and_the_randomness() {
    let pio = Document::parse("{\"pubInfoForIp\": {\"regId\": \"00\"}}").unwrap();
    let randomness = Scalar::new(G1::scalar_from_u64(258));
    let response = id_request_response(pio, &randomness);
    let expected = format!(
        "{{\"idObjectRequest\":{{\"v\":0,\"value\":{{\"pubInfoForIp\":{{\"regId\":\"00\"}}}}}},\
         \"randomness_wrapped\":{{\"randomness\":\"{}0102\"}}}}",
        "00".repeat(30)
    );
    assert_eq!(response.to_text(), expected);
    assert_eq!(response.member_count(), Some(2));
}

#[test]
fn threshold_that_the_caller_names_is_kept_within_bounds() {
    let with = |revokers: usize, threshold: usize| {
        create_id_request_aux(
            &document(revokers, ""),
            &signature(),
            scalar(1),
            scalar(2),
            Some(threshold),
        )
    };
    assert_eq!(with(3, 1).unwrap().revocation_threshold.value(), 1);
    assert_eq!(with(3, 3).unwrap().revocation_threshold.value(), 3);
    assert_eq!(with(3, 0).err(), Some(WalletError::Threshold { threshold: 0, revokers: 3 }));
    assert_eq!(with(3, 4).err(), Some(WalletError::Threshold { threshold: 4, revokers: 3 }));
    assert_eq!(with(1, 2).err(), Some(WalletError::Threshold { threshold: 2, revokers: 1 }));
    assert_eq!(with(0, 1).err(), Some(WalletError::Context));
}
