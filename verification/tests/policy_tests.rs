use std::collections::BTreeMap;
use wallet_crypto::errors::WalletError;
use wallet_crypto::policy::{build_policy, AttributeList, YearMonth};

fn sample_list() -> AttributeList {
    let mut attributes = BTreeMap::new();
    attributes.insert(0u8, "John".to_string());
    attributes.insert(1u8, "Doe".to_string());
    attributes.insert(3u8, "19800101".to_string());
    attributes.insert(5u8, "DK".to_string());
    AttributeList {
        valid_to: YearMonth { year: 2030, month: 12 },
        created_at: YearMonth { year: 2020, month: 5 },
        max_accounts: 200,
        attributes,
    }
}

#[test]
fn policy_reveals_selected_attributes() {
    let policy = build_policy(&sample_list(), &vec![5, 0]).unwrap();
    let mut expected = BTreeMap::new();
    expected.insert(0u8, "John".to_string());
    expected.insert(5u8, "DK".to_string());
    assert_eq!(policy.revealed, expected);
}

#[test]
fn policy_carries_validity_window() {
    let policy = build_policy(&sample_list(), &vec![1]).unwrap();
    assert_eq!(policy.valid_to, YearMonth { year: 2030, month: 12 });
    assert_eq!(policy.created_at, YearMonth { year: 2020, month: 5 });
}

#[test]
fn empty_selection_reveals_nothing() {
    let policy = build_policy(&sample_list(), &vec![]).unwrap();
    assert!(policy.revealed.is_empty());
}

#[test]
fn repeated_tag_is_rejected() {
    assert_eq!(
        build_policy(&sample_list(), &vec![0, 1, 0]),
        Err(WalletError::DuplicateAttribute { tag: 0 })
    );
    assert_eq!(
        build_policy(&sample_list(), &vec![3, 3]),
        Err(WalletError::DuplicateAttribute { tag: 3 })
    );
}

#[test]
fn unknown_tag_is_rejected() {
    assert_eq!(
        build_policy(&sample_list(), &vec![0, 2]),
        Err(WalletError::UnknownAttribute { tag: 2 })
    );
    assert_eq!(
        build_policy(&sample_list(), &vec![200]),
        Err(WalletError::UnknownAttribute { tag: 200 })
    );
}

#[test]
fn first_failure_wins() {
    assert_eq!(
        build_policy(&sample_list(), &vec![2, 0, 0]),
        Err(WalletError::UnknownAttribute { tag: 2 })
    );
    assert_eq!(
        build_policy(&sample_list(), &vec![0, 0, 2]),
        Err(WalletError::DuplicateAttribute { tag: 0 })
    );
    assert_eq!(
        build_policy(&sample_list(), &vec![2, 2]),
        Err(WalletError::UnknownAttribute { tag: 2 })
    );
}

#[test]
fn all_attributes_can_be_revealed() {
    let list = sample_list();
    let policy = build_policy(&list, &vec![0, 1, 3, 5]).unwrap();
    assert_eq!(policy.revealed, list.attributes);
}
