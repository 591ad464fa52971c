use concordium_base::curve_arithmetic::Curve;
use concordium_base::elgamal::PublicKey;
use concordium_base::id::types::{ArIdentity, ArInfo, Description, GlobalContext, IpInfo};
use pairing::bls12_381::{Bls12, G1};
use std::collections::BTreeMap;
use concordium_base::common::types::KeyIndex;
use concordium_base::elgamal::Cipher;
use concordium_base::id::constants::AttributeKind;
use concordium_base::id::secret_sharing::Threshold;
use concordium_base::id::types::{
    AttributeTag, ChainArData, CredentialDeploymentValues, CredentialPublicKeys, IpIdentity,
    Policy, SignatureThreshold, VerifyKey, YearMonth as LayerYearMonth,
};
use wallet_crypto::construction::{build_unsigned_credential, construction_parts, file_keys};
use wallet_crypto::credential::{
    generate_unsigned_credential_aux, identity_choice, unsigned_credential, IdentityChoice,
};
use wallet_crypto::group::Scalar;
use wallet_crypto::secrets::HolderSecrets;
use wallet_crypto::signing::{
    get_credential_deployment_details_aux, get_credential_deployment_info_aux, sign_credential,
};
use wallet_crypto::document::Document;
use wallet_crypto::identity::id_request_response;
use wallet_crypto::errors::{FieldName, WalletError};
use wallet_crypto::policy::YearMonth;


fn registry(revokers: usize) -> String {
    let mut registry = BTreeMap::new();
    for i in 1..=revokers {
        let identity = ArIdentity::try_from(i as u32).unwrap();
        let generator = G1::one_point();
        registry.insert(identity, ArInfo::<G1> {
            ar_identity: identity,
            ar_description: Description {
                name: format!("AR{}", i),
                url: format!("ar{}.example", i),
                description: String::new(),
            },
            ar_public_key: PublicKey {
                generator,
                key: generator.mul_by_scalar(&G1::scalar_from_u64(100 + i as u64)),
            },
        });
    }
    serde_json::to_value(&registry).unwrap().to_string()
}

fn ip_info() -> String {
    let mut csprng = rand::thread_rng();
    let secret = concordium_base::ps_sig::SecretKey::<Bls12>::generate(3, &mut csprng);
    let info = IpInfo::<Bls12> {
        ip_identity: IpIdentity(7),
        ip_description: Description {
            name: "IP".to_owned(),
            url: "ip.example".to_owned(),
            description: String::new(),
        },
        ip_verify_key: concordium_base::ps_sig::PublicKey::from(&secret),
        ip_cdi_verify_key: ed25519_dalek::Keypair::generate(&mut csprng).public,
    };
    serde_json::to_value(&info).unwrap().to_string()
}

fn global() -> String {
    let global = GlobalContext::<G1>::generate_size(String::from("test"), 1);
    serde_json::to_value(&global).unwrap().to_string()
}

fn public_keys() -> String {
    let key = ed25519_dalek::PublicKey::from_bytes(&[0u8; 32]).unwrap();
    serde_json::to_value(&vec![VerifyKey::Ed25519VerifyKey(key)]).unwrap().to_string()
}

fn identity_object() -> String {
    let point = hex::encode(concordium_base::common::to_bytes(&G1::one_point()));
    let mut proofs = vec![0u8; 32 * 9];
    proofs.push(1);
    proofs.push(0);
    proofs.extend_from_slice(&[0u8; 64]);
    proofs.extend_from_slice(&[0u8; 8]);
    format!(
        "{{\"preIdentityObject\": {{\"pubInfoForIp\": {{\"idCredPub\": \"{p}\", \"regId\": \
         \"{p}\", \"publicKeys\": {{\"keys\": {{\"0\": {{\"schemeId\": \"Ed25519\", \
         \"verifyKey\": \"{k}\"}}}}, \"threshold\": 1}}}}, \"ipArData\": {{}}, \
         \"choiceArData\": {{\"arIdentities\": [1], \"threshold\": 1}}, \
         \"idCredSecCommitment\": \"{p}\", \"prfKeyCommitmentWithIP\": \"{p}\", \
         \"prfKeySharingCoeffCommitments\": [], \"proofsOfKnowledge\": \"{proofs}\"}}, \
         \"signature\": \"{p}{p}\", \"attributeList\": {{\"validTo\": \"203012\", \
         \"createdAt\": \"202005\", \"maxAccounts\": 200, \"chosenAttributes\": \
         {{\"firstName\": \"John\", \"lastName\": \"Doe\", \"nationality\": \"DK\"}}}}}}",
        p = point,
        k = "00".repeat(32),
        proofs = hex::encode(&proofs),
    )
}

fn document(revealed: &str, without: &str) -> String {
    let fields = [
        ("ipInfo", ip_info()),
        ("arsInfos", registry(1)),
        ("global", global()),
        ("identityObject", identity_object()),
        ("revealedAttributes", revealed.to_string()),
        ("credentialNumber", "3".to_string()),
        ("publicKeys", public_keys()),
        ("threshold", "1".to_string()),
        ("idCredSec", "\"s1\"".to_string()),
        ("prfKey", "\"s2\"".to_string()),
        ("randomness", format!("{{\"randomness\": \"{}2a\"}}", "00".repeat(31))),
        ("address", format!("\"{}\"", address())),
    ];
    let members: Vec<String> = fields
        .iter()
        .filter(|(name, _)| *name != without)
        .map(|(name, value)| format!("\"{}\": {}", name, value))
        .collect();
    format!("{{{}}}", members.join(", "))
}

fn address() -> String {
    concordium_base::contracts_common::AccountAddress([7u8; 32]).to_string()
}

fn signature() -> String {
    format!("{}0f", "cd".repeat(63))
}

#[test]
fn credential_request_is_read() {
    let request =
        generate_unsigned_credential_aux(&document("[\"nationality\", \"firstName\"]", ""))
            .unwrap();
    let mut expected = BTreeMap::new();
    expected.insert(0u8, "John".to_string());
    expected.insert(5u8, "DK".to_string());
    assert_eq!(request.policy.revealed, expected);
    assert_eq!(request.policy.valid_to, YearMonth { year: 2030, month: 12 });
    assert_eq!(request.policy.created_at, YearMonth { year: 2020, month: 5 });
    assert_eq!(request.credential_number, 3);
    assert_eq!(request.id_cred_sec_seed, "s1");
    assert_eq!(request.prf_key_seed, "s2");
    assert_eq!(request.threshold, 1);
    assert_eq!(request.context.ars_infos().registry_size(), Some(1));
    assert_eq!(request.randomness.inner(), G1::scalar_from_u64(42));
    assert_eq!(request.address, Some(vec![7u8; 32]));
    assert_eq!(request.identity_object.member_count(), Some(3));
    assert_eq!(
        request.identity_object.into_value(),
        serde_json::from_str::<serde_json::Value>(&identity_object()).unwrap()
    );
    assert_eq!(request.context.global().member_count(), Some(3));
    assert_eq!(request.context.ip_info().member_count(), Some(4));
    assert!(request.public_keys.is_key_list());
}

#[test]
fn credential_request_without_revokers_is_rejected() {
    let text = document("[]", "").replace(&registry(1), "{}");
    assert_eq!(generate_unsigned_credential_aux(&text).err(), Some(WalletError::Context));
    let text = document("[]", "").replace(&registry(1), "[]");
    assert_eq!(
        generate_unsigned_credential_aux(&text).err(),
        Some(WalletError::MalformedField { field: FieldName::ArsInfos })
    );
}

#[test]
fn credential_for_new_account_has_no_address() {
    let request = generate_unsigned_credential_aux(&document("[]", "address")).unwrap();
    assert!(request.address.is_none());
    assert!(request.policy.revealed.is_empty());
}

#[test]
fn credential_with_repeated_tag_is_rejected() {
    assert_eq!(
        generate_unsigned_credential_aux(&document(
            "[\"firstName\", \"lastName\", \"firstName\"]",
            ""
        ))
        .err(),
        Some(WalletError::DuplicateAttribute { tag: 0 })
    );
}

#[test]
fn credential_with_unknown_tag_is_rejected() {
    assert_eq!(
        generate_unsigned_credential_aux(&document("[\"firstName\", \"dob\"]", "")).err(),
        Some(WalletError::UnknownAttribute { tag: 3 })
    );
}

#[test]
fn credential_with_unnamed_tag_is_malformed() {
    assert_eq!(
        generate_unsigned_credential_aux(&document("[\"shoeSize\"]", "")).err(),
        Some(WalletError::MalformedField { field: FieldName::RevealedAttributes })
    );
}

#[test]
fn credential_request_without_global_names_global() {
    assert_eq!(
        generate_unsigned_credential_aux(&document("[]", "global")).err(),
        Some(WalletError::MissingField { field: FieldName::Global })
    );
}

#[test]
fn credential_request_names_each_missing_field() {
    let fields = [
        ("ipInfo", FieldName::IpInfo),
        ("arsInfos", FieldName::ArsInfos),
        ("global", FieldName::Global),
        ("identityObject", FieldName::IdentityObject),
        ("revealedAttributes", FieldName::RevealedAttributes),
        ("credentialNumber", FieldName::CredentialNumber),
        ("publicKeys", FieldName::PublicKeys),
        ("threshold", FieldName::Threshold),
        ("idCredSec", FieldName::IdCredSec),
        ("prfKey", FieldName::PrfKey),
        ("randomness", FieldName::Randomness),
    ];
    for (name, field) in fields {
        assert_eq!(
            generate_unsigned_credential_aux(&document("[]", name)).err(),
            Some(WalletError::MissingField { field })
        );
    }
}

#[test]
fn credential_request_with_malformed_identity_object_is_rejected() {
    let text = document("[]", "").replace("\"maxAccounts\": 200", "\"maxAccounts\": 2000");
    assert_eq!(
        generate_unsigned_credential_aux(&text).err(),
        Some(WalletError::MalformedField { field: FieldName::IdentityObject })
    );
    let text = document("[]", "").replace("\"attributeList\"", "\"attributes\"");
    assert_eq!(
        generate_unsigned_credential_aux(&text).err(),
        Some(WalletError::MalformedField { field: FieldName::IdentityObject })
    );
    for (good, bad) in [
        ("\"signature\": \"", "\"signature\": \"zz"),
        ("\"prfKeySharingCoeffCommitments\": []", "\"prfKeySharingCoeffCommitments\": 7"),
        ("\"proofsOfKnowledge\": \"00", "\"proofsOfKnowledge\": \"0"),
        ("\"preIdentityObject\"", "\"identityObjectRequest\""),
    ] {
        let text = document("[\"firstName\", \"firstName\"]", "").replace(good, bad);
        assert_ne!(text, document("[\"firstName\", \"firstName\"]", ""));
        assert_eq!(
            generate_unsigned_credential_aux(&text).err(),
            Some(WalletError::MalformedField { field: FieldName::IdentityObject })
        );
    }
}

#[test]
fn missing_field_comes_before_policy_failure() {
    assert_eq!(
        generate_unsigned_credential_aux(&document("[\"dob\"]", "randomness")).err(),
        Some(WalletError::MissingField { field: FieldName::Randomness })
    );
    assert_eq!(
        generate_unsigned_credential_aux("").err(),
        Some(WalletError::MalformedDocument)
    );
}

#[test]
fn outcome_of_proof_construction_is_judged() {
    assert_eq!(unsigned_credential(Some("built")), Ok("built"));
    assert_eq!(unsigned_credential::<u8>(None), Err(WalletError::CredentialBuild));
}

fn credential_values() -> serde_json::Value {
    let generator = G1::one_point();
    let identity = ArIdentity::try_from(1u32).unwrap();
    let mut ar_data = BTreeMap::new();
    ar_data.insert(identity, ChainArData {
        enc_id_cred_pub_share: Cipher(
            generator.mul_by_scalar(&G1::scalar_from_u64(5)),
            generator.mul_by_scalar(&G1::scalar_from_u64(6)),
        ),
    });
    let mut policy_vec = BTreeMap::new();
    policy_vec.insert(AttributeTag(5), AttributeKind("DK".to_owned()));
    let key = ed25519_dalek::PublicKey::from_bytes(&[0u8; 32]).unwrap();
    let mut keys = BTreeMap::new();
    keys.insert(KeyIndex(0), VerifyKey::Ed25519VerifyKey(key));
    let values = CredentialDeploymentValues::<G1, AttributeKind> {
        cred_key_info: CredentialPublicKeys { keys, threshold: SignatureThreshold(1) },
        cred_id: generator.mul_by_scalar(&G1::scalar_from_u64(77)),
        ip_identity: IpIdentity(0),
        threshold: Threshold(1),
        ar_data,
        policy: Policy {
            valid_to: LayerYearMonth::new(2030, 12).unwrap(),
            created_at: LayerYearMonth::new(2020, 5).unwrap(),
            policy_vec,
            _phantom: Default::default(),
        },
    };
    serde_json::to_value(&values).unwrap()
}

fn unsigned_credential_text(proofs: Option<&str>) -> String {
    let mut members = credential_values().as_object().unwrap().clone();
    if let Some(proofs) = proofs {
        members.insert("proofs".to_owned(), serde_json::from_str(proofs).unwrap());
    }
    serde_json::Value::Object(members).to_string()
}

#[test]
fn signing_text_that_is_no_document_is_rejected() {
    assert_eq!(
        get_credential_deployment_info_aux(&signature(), "{"),
        Err(WalletError::MalformedDocument)
    );
    assert_eq!(
        get_credential_deployment_details_aux(&signature(), "not json", 5),
        Err(WalletError::MalformedDocument)
    );
}

#[test]
fn signing_a_document_without_members_names_the_first_absent_one() {
    let missing = Err(WalletError::MissingField { field: FieldName::CredentialPublicKeys });
    assert_eq!(get_credential_deployment_info_aux(&"0".repeat(128), "{}"), missing);
    assert_eq!(get_credential_deployment_details_aux(&"0".repeat(128), "{}", 5), missing);
    assert_eq!(get_credential_deployment_info_aux(&signature(), "[]"), missing);
    assert_eq!(
        get_credential_deployment_info_aux(&signature(), "{\"credId\": \"00\", \"proofs\": {}}"),
        missing
    );
}

#[test]
fn signing_names_each_absent_member_of_the_values() {
    let members = [
        ("credentialPublicKeys", FieldName::CredentialPublicKeys),
        ("credId", FieldName::CredId),
        ("ipIdentity", FieldName::IpIdentity),
        ("revocationThreshold", FieldName::RevocationThreshold),
        ("arData", FieldName::ArData),
        ("policy", FieldName::Policy),
    ];
    for (name, field) in members {
        let mut values = credential_values().as_object().unwrap().clone();
        values.remove(name);
        values.insert("proofs".to_owned(), serde_json::Value::Null);
        let text = serde_json::Value::Object(values).to_string();
        assert_eq!(
            get_credential_deployment_info_aux(&signature(), &text),
            Err(WalletError::MissingField { field })
        );
        assert_eq!(
            get_credential_deployment_details_aux(&signature(), &text, 5),
            Err(WalletError::MissingField { field })
        );
    }
}

#[test]
fn signing_names_each_unreadable_member_of_the_values() {
    let members = [
        ("credentialPublicKeys", FieldName::CredentialPublicKeys),
        ("credId", FieldName::CredId),
        ("ipIdentity", FieldName::IpIdentity),
        ("revocationThreshold", FieldName::RevocationThreshold),
        ("arData", FieldName::ArData),
        ("policy", FieldName::Policy),
    ];
    for (name, field) in members {
        for bad in ["\"zz\"", "[1, 2]", "{\"a\": 1}", "-1"] {
            let mut values = credential_values().as_object().unwrap().clone();
            values.insert(name.to_owned(), serde_json::from_str(bad).unwrap());
            let text = serde_json::Value::Object(values).to_string();
            assert_eq!(
                get_credential_deployment_info_aux(&signature(), &text),
                Err(WalletError::MalformedField { field }),
                "{} {}",
                name,
                bad
            );
        }
    }
}

#[test]
fn first_unreadable_member_is_named_before_absent_proofs() {
    let mut values = credential_values().as_object().unwrap().clone();
    values.insert("credId".to_owned(), serde_json::Value::String("00".to_owned()));
    values.insert("policy".to_owned(), serde_json::Value::Null);
    let text = serde_json::Value::Object(values).to_string();
    assert_eq!(
        get_credential_deployment_info_aux("", &text),
        Err(WalletError::MalformedField { field: FieldName::CredId })
    );
}

#[test]
fn signing_without_proofs_names_proofs() {
    assert_eq!(
        get_credential_deployment_info_aux(&signature(), &unsigned_credential_text(None)),
        Err(WalletError::MissingField { field: FieldName::Proofs })
    );
    assert_eq!(
        get_credential_deployment_details_aux(&signature(), &unsigned_credential_text(None), 5),
        Err(WalletError::MissingField { field: FieldName::Proofs })
    );
}

#[test]
fn signing_with_malformed_signature_is_rejected() {
    let unsigned = unsigned_credential_text(Some("{}"));
    for text in ["", "abc", &"0".repeat(127), &"0".repeat(129), &"e0".repeat(64), &"0g".repeat(64)]
    {
        assert_eq!(
            get_credential_deployment_info_aux(text, &unsigned),
            Err(WalletError::SignatureDecode)
        );
        assert_eq!(
            get_credential_deployment_details_aux(text, &unsigned, 5),
            Err(WalletError::SignatureDecode)
        );
    }
}

#[test]
fn signing_with_malformed_proofs_is_rejected() {
    for proofs in ["{}", "\"abcd\"", "[1, 2]", "null"] {
        assert_eq!(
            get_credential_deployment_info_aux(
                &signature(),
                &unsigned_credential_text(Some(proofs))
            ),
            Err(WalletError::MalformedField { field: FieldName::Proofs })
        );
    }
}

#[test]
fn values_of_a_credential_are_read_without_its_proofs() {
    let document = Document::parse(&unsigned_credential_text(Some("{\"x\": 1}"))).unwrap();
    let signed = sign_credential(&signature(), &document);
    assert_eq!(signed.err(), Some(WalletError::MalformedField { field: FieldName::Proofs }));
    assert_eq!(document.member("proofs").unwrap().member_count(), Some(1));
}

#[test]
fn malformed_address_is_not_taken_for_absent() {
    let text = document("[]", "").replace(&address(), "not an address");
    assert_eq!(
        generate_unsigned_credential_aux(&text).err(),
        Some(WalletError::MalformedField { field: FieldName::Address })
    );
    let text = document("[]", "").replace(&format!("\"{}\"", address()), "17");
    assert_eq!(
        generate_unsigned_credential_aux(&text).err(),
        Some(WalletError::MalformedField { field: FieldName::Address })
    );
}

#[test]
fn credential_request_with_malformed_randomness_is_rejected() {
    let good = format!("{{\"randomness\": \"{}2a\"}}", "00".repeat(31));
    for bad in [
        "{\"randomness\": \"zz\"}".to_string(),
        "{\"randomness\": \"00\"}".to_string(),
        format!("{{\"randomness\": \"{}\"}}", "ff".repeat(32)),
        "{\"randomness\": 5}".to_string(),
        "{\"other\": \"00\"}".to_string(),
        "\"00\"".to_string(),
    ] {
        let text = document("[]", "").replace(&good, &bad);
        assert_eq!(
            generate_unsigned_credential_aux(&text).err(),
            Some(WalletError::MalformedField { field: FieldName::Randomness })
        );
    }
}

#[test]
fn credential_request_with_malformed_threshold_is_rejected() {
    let mut members: serde_json::Value = serde_json::from_str(&document("[]", "")).unwrap();
    members
        .as_object_mut()
        .unwrap()
        .insert("threshold".to_owned(), serde_json::from_str("0").unwrap());
    assert_eq!(
        generate_unsigned_credential_aux(&members.to_string()).err(),
        Some(WalletError::MalformedField { field: FieldName::Threshold })
    );
}

#[test]
fn construction_on_an_identity_object_that_proves_nothing_fails() {
    let request = generate_unsigned_credential_aux(&document("[\"firstName\"]", "")).unwrap();
    let secrets = HolderSecrets::from_derivation(
        Some(Scalar::new(G1::scalar_from_u64(1))),
        Some(Scalar::new(G1::scalar_from_u64(2))),
    )
    .unwrap();
    assert_eq!(
        build_unsigned_credential(request, &secrets).err(),
        Some(WalletError::CredentialBuild)
    );
}

#[test]
fn parts_of_a_construction_are_put_together() {
    let request = generate_unsigned_credential_aux(&document("[\"firstName\"]", "")).unwrap();
    let secrets = HolderSecrets::from_derivation(
        Some(Scalar::new(G1::scalar_from_u64(1))),
        Some(Scalar::new(G1::scalar_from_u64(2))),
    )
    .unwrap();
    let parts = construction_parts(request, &secrets).unwrap().into_value();
    let parts = parts.as_array().unwrap();
    assert_eq!(parts.len(), 9);
    let input: serde_json::Value = serde_json::from_str(&document("[]", "")).unwrap();
    assert_eq!(parts[1], input["arsInfos"]);
    assert_eq!(parts[3], input["identityObject"]);
    let scalar = |n: &str| format!("{}{}", "00".repeat(31), n);
    let use_data = format!(
        "{{\"aci\": {{\"credentialHolderInformation\": {{\"idCredSecret\": \"{}\"}}, \
         \"prfKey\": \"{}\"}}, \"randomness\": \"{}\"}}",
        scalar("01"),
        scalar("02"),
        scalar("2a")
    );
    assert_eq!(parts[4], serde_json::from_str::<serde_json::Value>(&use_data).unwrap());
    assert_eq!(
        parts[5],
        serde_json::from_str::<serde_json::Value>(
            "{\"validTo\": \"203012\", \"createdAt\": \"202005\", \"revealedAttributes\": \
             {\"firstName\": \"John\"}}"
        )
        .unwrap()
    );
    let keys: serde_json::Value = serde_json::from_str(&public_keys()).unwrap();
    assert_eq!(parts[6].as_array().unwrap().len(), 1);
    assert_eq!(parts[6][0][0], serde_json::Value::from(0u64));
    assert_eq!(parts[6][0][1], keys[0]);
    assert_eq!(parts[7], serde_json::Value::from(1u64));
    assert_eq!(parts[8], serde_json::Value::Array(vec![serde_json::Value::String(address())]));
}

#[test]
fn keys_are_filed_under_their_positions() {
    let keys: Vec<Document> =
        (0..12).map(|i| Document::of_text(&format!("key{}", i))).collect();
    let filed = file_keys(keys).into_value();
    let filed = filed.as_array().unwrap();
    assert_eq!(filed.len(), 12);
    for i in 0..12 {
        assert_eq!(filed[i][0], serde_json::Value::from(i as u64));
        assert_eq!(filed[i][1], serde_json::Value::String(format!("key{}", i)));
    }
    let one = file_keys(vec![Document::of_number(7)]).into_value();
    assert_eq!(one.to_string(), "[[0,7]]");
    assert_eq!(file_keys(vec![]).into_value().to_string(), "[]");
    let most: Vec<Document> = (0..256).map(|i| Document::of_number(1000 + i)).collect();
    let filed = file_keys(most).into_value();
    assert_eq!(filed.as_array().unwrap().len(), 256);
    assert_eq!(filed[255].to_string(), "[255,1255]");
}

#[test]
fn credential_request_with_more_keys_than_indices_is_rejected() {
    let key: serde_json::Value = serde_json::from_str(&public_keys()).unwrap();
    let with_keys = |count: usize| {
        let keys = serde_json::Value::Array(vec![key[0].clone(); count]);
        let mut members: serde_json::Value = serde_json::from_str(&document("[]", "")).unwrap();
        members.as_object_mut().unwrap().insert("publicKeys".to_owned(), keys);
        members.to_string()
    };
    assert_eq!(
        generate_unsigned_credential_aux(&with_keys(257)).err(),
        Some(WalletError::MalformedField { field: FieldName::PublicKeys })
    );
    assert!(generate_unsigned_credential_aux(&with_keys(256)).is_ok());
    assert!(generate_unsigned_credential_aux(&with_keys(0)).is_ok());
}

fn with_identity(change: &[(&str, &str)], number: &str) -> String {
    let mut object = identity_object();
    for (good, bad) in change {
        assert!(object.contains(good));
        object = object.replace(good, bad);
    }
    let mut members: serde_json::Value = serde_json::from_str(&document("[]", "")).unwrap();
    let members_map = members.as_object_mut().unwrap();
    members_map.insert("identityObject".to_owned(), serde_json::from_str(&object).unwrap());
    members_map.insert("credentialNumber".to_owned(), serde_json::from_str(number).unwrap());
    members.to_string()
}

#[test]
fn identity_object_that_chooses_no_revoker_is_rejected() {
    let text = with_identity(&[("\"arIdentities\": [1]", "\"arIdentities\": []")], "3");
    assert_eq!(generate_unsigned_credential_aux(&text).err(), Some(WalletError::Context));
}

#[test]
fn identity_object_with_threshold_out_of_bounds_is_rejected() {
    let choice = "\"arIdentities\": [1], \"threshold\": 1";
    let text = with_identity(&[(choice, "\"arIdentities\": [1], \"threshold\": 0")], "3");
    assert_eq!(
        generate_unsigned_credential_aux(&text).err(),
        Some(WalletError::Threshold { threshold: 0, revokers: 1 })
    );
    let text = with_identity(&[(choice, "\"arIdentities\": [1], \"threshold\": 2")], "3");
    assert_eq!(
        generate_unsigned_credential_aux(&text).err(),
        Some(WalletError::Threshold { threshold: 2, revokers: 1 })
    );
    let text = with_identity(&[(choice, "\"arIdentities\": [1, 2, 5], \"threshold\": 3")], "3");
    assert!(generate_unsigned_credential_aux(&text).is_ok());
}

#[test]
fn choice_of_an_identity_object_is_read() {
    let choice = "\"arIdentities\": [1], \"threshold\": 1";
    let object = identity_object().replace(choice, "\"arIdentities\": [1, 2, 5], \"threshold\": 2");
    let read = identity_choice(&Document::parse(&object).unwrap()).unwrap();
    assert_eq!(read, IdentityChoice { revokers: 3, threshold: 2, max_accounts: 200 });
    assert_eq!(
        identity_choice(&Document::parse("{}").unwrap()).err(),
        Some(WalletError::MalformedField { field: FieldName::IdentityObject })
    );
}

#[test]
fn credential_beyond_the_allowed_accounts_is_not_constructed() {
    let secrets = HolderSecrets::from_derivation(
        Some(Scalar::new(G1::scalar_from_u64(1))),
        Some(Scalar::new(G1::scalar_from_u64(2))),
    )
    .unwrap();
    let request = generate_unsigned_credential_aux(&with_identity(&[], "201")).unwrap();
    assert_eq!(request.credential_number, 201);
    assert_eq!(
        build_unsigned_credential(request, &secrets).err(),
        Some(WalletError::CredentialBuild)
    );
    let request = generate_unsigned_credential_aux(&with_identity(&[], "200")).unwrap();
    assert_eq!(
        build_unsigned_credential(request, &secrets).err(),
        Some(WalletError::CredentialBuild)
    );
}

#[test]
fn construction_repeats_the_checks_on_the_identity_object() {
    let secrets = HolderSecrets::from_derivation(
        Some(Scalar::new(G1::scalar_from_u64(1))),
        Some(Scalar::new(G1::scalar_from_u64(2))),
    )
    .unwrap();
    let empty = identity_object().replace("\"arIdentities\": [1]", "\"arIdentities\": []");
    let mut request = generate_unsigned_credential_aux(&document("[]", "")).unwrap();
    request.identity_object = Document::parse(&empty).unwrap();
    assert_eq!(build_unsigned_credential(request, &secrets).err(), Some(WalletError::Context));
    let zero = identity_object().replace(
        "\"arIdentities\": [1], \"threshold\": 1",
        "\"arIdentities\": [1], \"threshold\": 0",
    );
    let mut request = generate_unsigned_credential_aux(&document("[]", "")).unwrap();
    request.identity_object = Document::parse(&zero).unwrap();
    assert_eq!(
        build_unsigned_credential(request, &secrets).err(),
        Some(WalletError::Threshold { threshold: 0, revokers: 1 })
    );
}

#[test]
fn randomness_of_a_response_is_read_back() {
    let randomness = Scalar::new(G1::scalar_from_u64(0x0123_4567_89ab_cdef));
    let response = id_request_response(Document::parse("{}").unwrap(), &randomness).into_value();
    let mut members: serde_json::Value = serde_json::from_str(&document("[]", "")).unwrap();
    members
        .as_object_mut()
        .unwrap()
        .insert("randomness".to_owned(), response["randomness_wrapped"].clone());
    let request = generate_unsigned_credential_aux(&members.to_string()).unwrap();
    assert_eq!(request.randomness.inner(), randomness.inner());
    assert_eq!(request.randomness.encoding(), randomness.encoding());
}
