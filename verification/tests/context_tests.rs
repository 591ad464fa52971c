use concordium_base::curve_arithmetic::Curve;
use concordium_base::elgamal::PublicKey;
use concordium_base::id::types::{
    ArIdentity, ArInfo, Description, GlobalContext, IpIdentity, IpInfo,
};
use pairing::bls12_381::{Bls12, G1};
use std::collections::BTreeMap;
use wallet_crypto::context::IssuanceContext;
use wallet_crypto::document::Document;
use wallet_crypto::errors::{FieldName, WalletError};


fn registry(revokers: usize) -> String {
    let mut registry = BTreeMap::new();
    for i in 1..=revokers {
        let identity = ArIdentity::try_from(i as u32).unwrap();
        let generator = G1::one_point();
        registry.insert(identity, ArInfo::<G1> {
            ar_identity: identity,
            ar_description: Description {
                name: format!("AR{}", i),
                url: format!("ar{}.example", i),
                description: String::new(),
            },
            ar_public_key: PublicKey {
                generator,
                key: generator.mul_by_scalar(&G1::scalar_from_u64(100 + i as u64)),
            },
        });
    }
    serde_json::to_value(&registry).unwrap().to_string()
}

fn ip_info() -> String {
    let mut csprng = rand::thread_rng();
    let secret = concordium_base::ps_sig::SecretKey::<Bls12>::generate(3, &mut csprng);
    let info = IpInfo::<Bls12> {
        ip_identity: IpIdentity(7),
        ip_description: Description {
            name: "IP".to_owned(),
            url: "ip.example".to_owned(),
            description: String::new(),
        },
        ip_verify_key: concordium_base::ps_sig::PublicKey::from(&secret),
        ip_cdi_verify_key: ed25519_dalek::Keypair::generate(&mut csprng).public,
    };
    serde_json::to_value(&info).unwrap().to_string()
}

fn global() -> String {
    let global = GlobalContext::<G1>::generate_size(String::from("test"), 1);
    serde_json::to_value(&global).unwrap().to_string()
}


fn document(text: &str) -> Document {
    Document::parse(text).unwrap()
}

#[test]
fn context_is_assembled_around_a_registry() {
    let global_text = global();
    let context = IssuanceContext::assemble(
        document(&ip_info()),
        document(&registry(2)),
        document(&global_text),
    )
    .unwrap();
    assert_eq!(context.revokers(), 2);
    assert_eq!(context.ip_info().member("ipIdentity").unwrap().number(), Some(7));
    assert_eq!(context.ars_infos().registry_size(), Some(2));
    assert_eq!(context.ars_infos().member_count(), Some(2));
    assert_eq!(
        context.global().member("genesisString").unwrap().text(),
        Some("test".to_string())
    );
    let parameters: GlobalContext<G1> = serde_json::from_str(&global_text).unwrap();
    assert_eq!(context.generators().elgamal.inner(), *parameters.elgamal_generator());
    assert_eq!(
        context.generators().encryption.inner(),
        *parameters.encryption_in_exponent_generator()
    );
    let (ip_info, ars_infos, global) = context.into_parts();
    assert!(ip_info.is_ip_info());
    assert_eq!(ars_infos.member_count(), Some(2));
    assert!(global.generators().is_some());
}

#[test]
fn context_without_revokers_is_rejected() {
    assert_eq!(
        IssuanceContext::assemble(document(&ip_info()), document("{}"), document(&global())).err(),
        Some(WalletError::Context)
    );
}

#[test]
fn context_around_something_that_is_no_registry_is_rejected() {
    for registry in ["[]", "[1]", "\"1\"", "1", "null", "{\"1\": {}}", "{\"0\": {}}"] {
        assert_eq!(
            IssuanceContext::assemble(
                document(&ip_info()),
                document(registry),
                document(&global())
            )
            .err(),
            Some(WalletError::MalformedField { field: FieldName::ArsInfos })
        );
    }
}

#[test]
fn context_with_malformed_parts_is_rejected() {
    assert_eq!(
        IssuanceContext::assemble(document("{}"), document("{}"), document("{}")).err(),
        Some(WalletError::MalformedField { field: FieldName::IpInfo })
    );
    assert_eq!(
        IssuanceContext::assemble(document(&ip_info()), document(&registry(1)), document("{}"))
            .err(),
        Some(WalletError::MalformedField { field: FieldName::Global })
    );
    assert_eq!(
        IssuanceContext::assemble(document(&ip_info()), document("[]"), document("{}")).err(),
        Some(WalletError::MalformedField { field: FieldName::ArsInfos })
    );
    assert!(!document("{\"ipIdentity\": 7}").is_ip_info());
    assert!(document(&ip_info()).is_ip_info());
}
