//! Input documents: self-describing key/value text, read by field name.
//!
//! A document is parsed once. Fields are then looked up by exact,
//! case-sensitive name. A field that is absent and a field that does not
//! hold a value of the expected shape are different failures.

use vstd::prelude::*;
use concordium_base::id::constants::AttributeKind;
use concordium_base::contracts_common::AccountAddress;
use concordium_base::id::types::{
    ArIdentity, ArInfo, AttributeTag, SignatureThreshold, VerifyKey,
};
use pairing::bls12_381::{Fr, G1};
use std::collections::BTreeMap;
use crate::errors::{FieldName, WalletError};
use crate::policy::{AttributeList, AttributeListView, YearMonth};

verus! {

#[verifier::external_type_specification]
#[verifier::external_body]
pub struct ExJsonValue(serde_json::Value);

/// The value that `text` is the JSON text of, if it is JSON text.
pub uninterp spec fn parsed_json(text: Seq<char>) -> Option<serde_json::Value>;

/// The members of a JSON value by name, if the value is an object.
pub uninterp spec fn json_members(value: serde_json::Value) -> Option<
    Map<Seq<char>, serde_json::Value>,
>;

/// The text of a JSON value, if the value is a string.
pub uninterp spec fn json_text(value: serde_json::Value) -> Option<Seq<char>>;

/// The number that a JSON value holds, if the value is a non-negative
/// integer of at most 64 bits.
pub uninterp spec fn json_number(value: serde_json::Value) -> Option<u64>;

/// The attribute tags that a JSON value lists by name, if the value is a
/// list of names of attribute tags.
pub uninterp spec fn json_tags(value: serde_json::Value) -> Option<Seq<u8>>;

/// The attribute list that a JSON value describes, if it describes one.
pub uninterp spec fn json_attribute_list(value: serde_json::Value) -> Option<AttributeListView>;

/// The number of anonymity revokers in the registry that a JSON value
/// describes, if it describes one.
pub uninterp spec fn json_registry_size(value: serde_json::Value) -> Option<nat>;

/// Whether a JSON value lists public keys of an account.
pub uninterp spec fn describes_public_keys(value: serde_json::Value) -> bool;

/// The 32 bytes of the account address that a JSON value holds as text, if
/// it holds one.
pub uninterp spec fn json_address(value: serde_json::Value) -> Option<Seq<u8>>;

/// The object with the members of the object `value`, but `member` under
/// the name `name`.
pub uninterp spec fn json_with_member(
    value: serde_json::Value,
    name: Seq<char>,
    member: serde_json::Value,
) -> serde_json::Value;

/// The JSON string with the text `text`.
pub uninterp spec fn json_string_value(text: Seq<char>) -> serde_json::Value;

/// The object whose one member is `member` under the name `name`.
pub uninterp spec fn json_object_of(name: Seq<char>, member: serde_json::Value) -> serde_json::Value;

/// The items of a JSON value, if the value is a list.
pub uninterp spec fn json_list_items(value: serde_json::Value) -> Option<Seq<serde_json::Value>>;

/// The JSON list with the items `items`.
pub uninterp spec fn json_list_value(items: Seq<serde_json::Value>) -> serde_json::Value;

/// The JSON number `number`.
pub uninterp spec fn json_number_value(number: u64) -> serde_json::Value;

/// The text that a JSON value is written as.
pub uninterp spec fn json_print(value: serde_json::Value) -> Seq<char>;

/// `serde_json::from_str`, for a value of any shape: the value that the text
/// describes, which depends only on the text; nothing when the text is not
/// JSON.
#[verifier::external_body]
fn json_parse(text: &str) -> (r: Option<serde_json::Value>)
    ensures
        r == parsed_json(text@),
{
    serde_json::from_str::<serde_json::Value>(text).ok()
}

/// `serde_json::Value::get` with a name: a copy of the member of that name,
/// where the value is an object that has one.
#[verifier::external_body]
fn json_member(value: &serde_json::Value, name: &str) -> (r: Option<serde_json::Value>)
    ensures
        r == member_of(*value, name@),
{
    value.get(name).cloned()
}

/// A copy of the value with `serde_json::Map::insert` applied to it: an
/// object with the members of the given object, but the given member under
/// the given name.
#[verifier::external_body]
fn json_insert(value: &serde_json::Value, name: &str, member: serde_json::Value) -> (r:
    serde_json::Value)
    requires
        json_members(*value) is Some,
    ensures
        r == json_with_member(*value, name@, member),
        json_members(r) == Some(json_members(*value)->0.insert(name@, member)),
{
    let mut object = value.clone();
    if let Some(members) = object.as_object_mut() {
        members.insert(name.to_string(), member);
    }
    object
}

/// `serde_json::Value::String`: the string with the given text, which
/// depends only on the text.
#[verifier::external_body]
fn json_of_text(text: &str) -> (r: serde_json::Value)
    ensures
        r == json_string_value(text@),
        json_text(r) == Some(text@),
{
    serde_json::Value::String(text.to_string())
}

/// `serde_json::Value::Object` around a new `serde_json::Map` after one
/// `insert`: the object whose one member is the given member under the
/// given name, which depends only on the two.
#[verifier::external_body]
fn json_singleton(name: &str, member: serde_json::Value) -> (r: serde_json::Value)
    ensures
        r == json_object_of(name@, member),
        json_members(r) == Some(
            Map::<Seq<char>, serde_json::Value>::empty().insert(name@, member),
        ),
{
    let mut members = serde_json::Map::new();
    members.insert(name.to_string(), member);
    serde_json::Value::Object(members)
}

/// `serde_json::Value::as_array`: copies of the items, where the value is a
/// list.
#[verifier::external_body]
fn json_items(value: &serde_json::Value) -> (r: Option<Vec<Document>>)
    ensures
        match r {
            Some(items) => json_list_items(*value) == Some(document_values(items@)),
            None => json_list_items(*value) is None,
        },
{
    match value.as_array() {
        Some(items) => Some(items.iter().map(|item| Document::from_value(item.clone())).collect()),
        None => None,
    }
}

/// `serde_json::Value::Array`: the list with the given items, which depends
/// only on them.
#[verifier::external_body]
fn json_list(items: Vec<Document>) -> (r: serde_json::Value)
    ensures
        r == json_list_value(document_values(items@)),
        json_list_items(r) == Some(document_values(items@)),
{
    serde_json::Value::Array(items.into_iter().map(|item| item.into_value()).collect())
}

/// `serde_json::Value::from` for a number: the number as a JSON value,
/// which depends only on the number.
#[verifier::external_body]
fn json_of_number(number: u64) -> (r: serde_json::Value)
    ensures
        r == json_number_value(number),
        json_number(r) == Some(number),
{
    serde_json::Value::from(number)
}

/// `serde_json::Value::to_string`: the text that the value is written as,
/// which depends only on the value.
#[verifier::external_body]
fn json_to_text(value: &serde_json::Value) -> (r: String)
    ensures
        r@ == json_print(*value),
{
    value.to_string()
}

/// `serde_json::Value::as_object` and the length of the map: the number of
/// members, where the value is an object.
#[verifier::external_body]
fn json_member_count(value: &serde_json::Value) -> (r: Option<usize>)
    ensures
        match r {
            Some(n) => json_members(*value) matches Some(members) && members.dom().finite() && n
                == members.len(),
            None => json_members(*value) is None,
        },
{
    match value.as_object() {
        Some(members) => Some(members.len()),
        None => None,
    }
}

/// `serde_json::Value::as_str`: a copy of the text, where the value is a
/// string.
#[verifier::external_body]
fn json_string(value: &serde_json::Value) -> (r: Option<String>)
    ensures
        match r {
            Some(text) => json_text(*value) == Some(text@),
            None => json_text(*value) is None,
        },
{
    match value.as_str() {
        Some(text) => Some(text.to_string()),
        None => None,
    }
}

/// `serde_json::Value::as_u64`: the number, where the value is a
/// non-negative integer of at most 64 bits.
#[verifier::external_body]
fn json_u64(value: &serde_json::Value) -> (r: Option<u64>)
    ensures
        r == json_number(*value),
{
    value.as_u64()
}

/// `serde_json::from_value` for a list of `AttributeTag`: the tags that the
/// value lists by name, each as its number; nothing when the value is not a
/// list of names of tags.
#[verifier::external_body]
fn json_tag_list(value: &serde_json::Value) -> (r: Option<Vec<u8>>)
    ensures
        match r {
            Some(tags) => json_tags(*value) == Some(tags@),
            None => json_tags(*value) is None,
        },
{
    let tags: Vec<AttributeTag> = serde_json::from_value(value.clone()).ok()?;
    Some(tags.iter().map(|tag| tag.0).collect())
}

/// `serde_json::from_value` for an `AttributeList`: the list that the value
/// describes, field by field, with each tag as its number and each
/// attribute as its text; nothing when the value does not describe one.
#[verifier::external_body]
fn json_attributes(value: &serde_json::Value) -> (r: Option<AttributeList>)
    ensures
        match r {
            Some(list) => json_attribute_list(*value) == Some(list@),
            None => json_attribute_list(*value) is None,
        },
{
    let list: concordium_base::id::types::AttributeList<Fr, AttributeKind> =
        serde_json::from_value(value.clone()).ok()?;
    Some(
        AttributeList {
            valid_to: YearMonth { year: list.valid_to.year, month: list.valid_to.month },
            created_at: YearMonth { year: list.created_at.year, month: list.created_at.month },
            max_accounts: list.max_accounts,
            attributes: list.alist.into_iter().map(|(tag, value)| (tag.0, value.0)).collect(),
        },
    )
}

/// `serde_json::from_value` for a map from `ArIdentity` to `ArInfo`, and the
/// length of the map: the number of anonymity revokers in the registry that
/// the value describes; nothing when it describes none.
#[verifier::external_body]
fn json_registry(value: &serde_json::Value) -> (r: Option<usize>)
    ensures
        match r {
            Some(n) => json_registry_size(*value) == Some(n as nat),
            None => json_registry_size(*value) is None,
        },
{
    match serde_json::from_value::<BTreeMap<ArIdentity, ArInfo<G1>>>(value.clone()) {
        Ok(registry) => Some(registry.len()),
        Err(_) => None,
    }
}

/// `serde_json::from_value` for a list of `VerifyKey`: whether the value
/// lists public keys of an account.
#[verifier::external_body]
fn json_is_key_list(value: &serde_json::Value) -> (r: bool)
    ensures
        r == describes_public_keys(*value),
{
    serde_json::from_value::<Vec<VerifyKey>>(value.clone()).is_ok()
}

/// `serde_json::from_value` for a `SignatureThreshold`: the number, where
/// the value is an integer from 1 to 255.
#[verifier::external_body]
fn json_signature_threshold(value: &serde_json::Value) -> (r: Option<u8>)
    ensures
        r == json_nonzero_byte(*value),
{
    match serde_json::from_value::<SignatureThreshold>(value.clone()) {
        Ok(threshold) => Some(threshold.0),
        Err(_) => None,
    }
}

/// `serde_json::from_value` for an `AccountAddress`: the 32 bytes of the
/// address, where the value is the text of one.
#[verifier::external_body]
fn json_account_address(value: &serde_json::Value) -> (r: Option<Vec<u8>>)
    ensures
        match r {
            Some(bytes) => json_address(*value) == Some(bytes@) && bytes@.len() == 32,
            None => json_address(*value) is None,
        },
{
    match serde_json::from_value::<AccountAddress>(value.clone()) {
        Ok(address) => Some(address.0.to_vec()),
        Err(_) => None,
    }
}

/// The member of `value` with the name `name`, where `value` is an object
/// that has one.
pub open spec fn member_of(value: serde_json::Value, name: Seq<char>) -> Option<
    serde_json::Value,
> {
    match json_members(value) {
        Some(members) => if members.contains_key(name) {
            Some(members[name])
        } else {
            None
        },
        None => None,
    }
}

/// The field `field` of `value`, where `value` has it.
pub open spec fn field_of(value: serde_json::Value, field: FieldName) -> Option<
    serde_json::Value,
> {
    member_of(value, field.text())
}

/// The byte that `value` holds, if it is a number below 256.
pub open spec fn json_byte(value: serde_json::Value) -> Option<u8> {
    match json_number(value) {
        Some(n) => if n <= 255 {
            Some(n as u8)
        } else {
            None
        },
        None => None,
    }
}

/// The byte that `value` holds, if it is a number from 1 to 255.
pub open spec fn json_nonzero_byte(value: serde_json::Value) -> Option<u8> {
    match json_number(value) {
        Some(n) => if 1 <= n <= 255 {
            Some(n as u8)
        } else {
            None
        },
        None => None,
    }
}

/// The values that documents hold, one for one.
pub open spec fn document_values(documents: Seq<Document>) -> Seq<serde_json::Value> {
    documents.map_values(|document: Document| document@)
}

/// A parsed document, or a value inside one.
#[derive(Debug)]
pub struct Document {
    value: serde_json::Value,
}

impl View for Document {
    type V = serde_json::Value;

    closed spec fn view(&self) -> serde_json::Value {
        self.value
    }
}

impl Document {
    /// Wraps a value that was parsed elsewhere.
    pub fn from_value(value: serde_json::Value) -> (document: Document)
        ensures
            document@ == value,
    {
        Document { value }
    }

    /// The value that the document holds.
    pub fn value(&self) -> (value: &serde_json::Value)
        ensures
            *value == self@,
    {
        &self.value
    }

    /// The value that the document holds.
    pub fn into_value(self) -> (value: serde_json::Value)
        ensures
            value == self@,
    {
        self.value
    }

    /// The document whose one member is `member` under the name `name`.
    pub fn with_one_member(name: &str, member: Document) -> (document: Document)
        ensures
            document@ == json_object_of(name@, member@),
            json_members(document@) == Some(
                Map::<Seq<char>, serde_json::Value>::empty().insert(name@, member@),
            ),
    {
        Document { value: json_singleton(name, member.value) }
    }

    /// The document that is the given number.
    pub fn of_number(number: u64) -> (document: Document)
        ensures
            document@ == json_number_value(number),
            json_number(document@) == Some(number),
    {
        Document { value: json_of_number(number) }
    }

    /// The document that lists the given documents.
    pub fn of_list(items: Vec<Document>) -> (document: Document)
        ensures
            document@ == json_list_value(document_values(items@)),
            json_list_items(document@) == Some(document_values(items@)),
    {
        Document { value: json_list(items) }
    }

    /// The items, if the document is a list.
    pub fn items(&self) -> (r: Option<Vec<Document>>)
        ensures
            match r {
                Some(items) => json_list_items(self@) == Some(document_values(items@)),
                None => json_list_items(self@) is None,
            },
    {
        json_items(&self.value)
    }

    /// The document that is the given text.
    pub fn of_text(text: &str) -> (document: Document)
        ensures
            document@ == json_string_value(text@),
            json_text(document@) == Some(text@),
    {
        Document { value: json_of_text(text) }
    }

    /// The document with the members of this one, but `member` under the
    /// name `name`. There is none when this document is no object.
    pub fn with_member(&self, name: &str, member: Document) -> (r: Option<Document>)
        ensures
            match r {
                Some(document) => json_members(self@) is Some && document@ == json_with_member(
                    self@,
                    name@,
                    member@,
                ) && json_members(document@) == Some(
                    json_members(self@)->0.insert(name@, member@),
                ),
                None => json_members(self@) is None,
            },
    {
        match self.member_count() {
            Some(_) => Some(Document { value: json_insert(&self.value, name, member.value) }),
            None => None,
        }
    }

    /// The text that the document is written as.
    pub fn to_text(&self) -> (text: String)
        ensures
            text@ == json_print(self@),
    {
        json_to_text(&self.value)
    }

    /// Parses the text of a document.
    pub fn parse(text: &str) -> (r: Result<Document, WalletError>)
        ensures
            match r {
                Ok(document) => parsed_json(text@) == Some(document@),
                Err(e) => parsed_json(text@) is None && e == WalletError::MalformedDocument,
            },
    {
        match json_parse(text) {
            Some(value) => Ok(Document { value }),
            None => Err(WalletError::MalformedDocument),
        }
    }

    /// The member with the given name, if the document is an object that
    /// has one. An absent member is no failure here.
    pub fn member(&self, name: &str) -> (r: Option<Document>)
        ensures
            match r {
                Some(document) => member_of(self@, name@) == Some(document@),
                None => member_of(self@, name@) is None,
            },
    {
        match json_member(&self.value, name) {
            Some(value) => Some(Document { value }),
            None => None,
        }
    }

    /// The field `field`, if the document has it. An absent field is no
    /// failure here.
    pub fn optional_field(&self, field: FieldName) -> (r: Option<Document>)
        ensures
            match r {
                Some(document) => field_of(self@, field) == Some(document@),
                None => field_of(self@, field) is None,
            },
    {
        self.member(field.name())
    }

    /// The number of members, if the document is an object.
    pub fn member_count(&self) -> (r: Option<usize>)
        ensures
            match r {
                Some(n) => json_members(self@) matches Some(members) && members.dom().finite()
                    && n == members.len(),
                None => json_members(self@) is None,
            },
    {
        json_member_count(&self.value)
    }

    /// The text, if the document is a string.
    pub fn text(&self) -> (r: Option<String>)
        ensures
            match r {
                Some(text) => json_text(self@) == Some(text@),
                None => json_text(self@) is None,
            },
    {
        json_string(&self.value)
    }

    /// The number, if the document is a non-negative integer of at most 64
    /// bits.
    pub fn number(&self) -> (r: Option<u64>)
        ensures
            r == json_number(self@),
    {
        json_u64(&self.value)
    }

    /// The byte, if the document is a number below 256.
    pub fn byte(&self) -> (r: Option<u8>)
        ensures
            r == json_byte(self@),
    {
        match json_u64(&self.value) {
            Some(n) => if n <= 255 {
                Some(n as u8)
            } else {
                None
            },
            None => None,
        }
    }

    /// The number of anonymity revokers, if the document describes a
    /// registry of them.
    pub fn registry_size(&self) -> (r: Option<usize>)
        ensures
            match r {
                Some(n) => json_registry_size(self@) == Some(n as nat),
                None => json_registry_size(self@) is None,
            },
    {
        json_registry(&self.value)
    }

    /// Whether the document lists public keys of an account.
    pub fn is_key_list(&self) -> (r: bool)
        ensures
            r == describes_public_keys(self@),
    {
        json_is_key_list(&self.value)
    }

    /// The signature threshold, if the document is a number from 1 to 255.
    pub fn signature_threshold(&self) -> (r: Option<u8>)
        ensures
            r == json_nonzero_byte(self@),
    {
        json_signature_threshold(&self.value)
    }

    /// The 32 bytes of the account address, if the document is the text of
    /// one.
    pub fn account_address(&self) -> (r: Option<Vec<u8>>)
        ensures
            match r {
                Some(bytes) => json_address(self@) == Some(bytes@) && bytes@.len() == 32,
                None => json_address(self@) is None,
            },
    {
        json_account_address(&self.value)
    }

    /// The attribute tags, if the document lists tags by name.
    pub fn tags(&self) -> (r: Option<Vec<u8>>)
        ensures
            match r {
                Some(tags) => json_tags(self@) == Some(tags@),
                None => json_tags(self@) is None,
            },
    {
        json_tag_list(&self.value)
    }

    /// The attribute list, if the document describes one.
    pub fn attribute_list(&self) -> (r: Option<AttributeList>)
        ensures
            match r {
                Some(list) => json_attribute_list(self@) == Some(list@),
                None => json_attribute_list(self@) is None,
            },
    {
        json_attributes(&self.value)
    }
}

/// The field `field` of `document`. Fails when the field is absent.
pub fn try_get(document: &Document, field: FieldName) -> (r: Result<Document, WalletError>)
    ensures
        match r {
            Ok(found) => field_of(document@, field) == Some(found@),
            Err(e) => field_of(document@, field) is None && e == (WalletError::MissingField {
                field,
            }),
        },
{
    match document.optional_field(field) {
        Some(found) => Ok(found),
        None => Err(WalletError::MissingField { field }),
    }
}

/// The text of the field `field` of `document`. Fails when the field is
/// absent, or is not a string.
pub fn try_get_text(document: &Document, field: FieldName) -> (r: Result<String, WalletError>)
    ensures
        match r {
            Ok(text) => field_of(document@, field) matches Some(found) && json_text(found)
                == Some(text@),
            Err(e) => e == field_text_failure(document@, field)->0 && field_text_failure(
                document@,
                field,
            ) is Some,
        },
{
    let found = try_get(document, field)?;
    match found.text() {
        Some(text) => Ok(text),
        None => Err(WalletError::MalformedField { field }),
    }
}

/// The byte in the field `field` of `document`. Fails when the field is
/// absent, or is not a number below 256.
pub fn try_get_byte(document: &Document, field: FieldName) -> (r: Result<u8, WalletError>)
    ensures
        match r {
            Ok(byte) => field_of(document@, field) matches Some(found) && json_byte(found)
                == Some(byte),
            Err(e) => e == field_byte_failure(document@, field)->0 && field_byte_failure(
                document@,
                field,
            ) is Some,
        },
{
    let found = try_get(document, field)?;
    match found.byte() {
        Some(byte) => Ok(byte),
        None => Err(WalletError::MalformedField { field }),
    }
}

/// The most keys that can be filed: each is filed under a key index of one
/// byte.
pub const MAX_KEYS: usize = 256;

/// Whether `value` lists the public keys of an account: no more keys than
/// there are key indices.
pub open spec fn lists_account_keys(value: serde_json::Value) -> bool {
    &&& describes_public_keys(value)
    &&& json_list_items(value) matches Some(items)
    &&& items.len() <= MAX_KEYS
}

/// The public keys in the field `publicKeys` of `document`. Fails when the
/// field is absent, does not list public keys, or lists more than there are
/// key indices.
pub fn try_get_public_keys(document: &Document) -> (r: Result<Document, WalletError>)
    ensures
        match r {
            Ok(keys) => field_of(document@, FieldName::PublicKeys) == Some(keys@)
                && lists_account_keys(keys@),
            Err(e) => field_keys_failure(document@) == Some(e),
        },
{
    let found = try_get(document, FieldName::PublicKeys)?;
    let listed = match found.items() {
        Some(items) => items.len() <= MAX_KEYS,
        None => false,
    };
    if found.is_key_list() && listed {
        Ok(found)
    } else {
        Err(WalletError::MalformedField { field: FieldName::PublicKeys })
    }
}

/// Why the field `publicKeys` of `value` cannot be read as public keys, if
/// it cannot.
pub open spec fn field_keys_failure(value: serde_json::Value) -> Option<WalletError> {
    match field_of(value, FieldName::PublicKeys) {
        None => Some(WalletError::MissingField { field: FieldName::PublicKeys }),
        Some(found) => if !lists_account_keys(found) {
            Some(WalletError::MalformedField { field: FieldName::PublicKeys })
        } else {
            None
        },
    }
}

/// The signature threshold in the field `threshold` of `document`. Fails
/// when the field is absent, or is not a number from 1 to 255.
pub fn try_get_threshold(document: &Document) -> (r: Result<u8, WalletError>)
    ensures
        match r {
            Ok(byte) => field_of(document@, FieldName::Threshold) matches Some(found)
                && json_nonzero_byte(found) == Some(byte),
            Err(e) => e == field_threshold_failure(document@)->0 && field_threshold_failure(
                document@,
            ) is Some,
        },
{
    let found = try_get(document, FieldName::Threshold)?;
    match found.signature_threshold() {
        Some(byte) => Ok(byte),
        None => Err(WalletError::MalformedField { field: FieldName::Threshold }),
    }
}

/// The account address in the field `address` of `document`, if the field
/// is there. An absent field is no failure; a field that is there and is not
/// an account address is one.
pub fn try_get_address(document: &Document) -> (r: Result<Option<Vec<u8>>, WalletError>)
    ensures
        match r {
            Ok(None) => field_of(document@, FieldName::Address) is None,
            Ok(Some(bytes)) => field_of(document@, FieldName::Address) matches Some(found)
                && json_address(found) == Some(bytes@) && bytes@.len() == 32,
            Err(e) => field_of(document@, FieldName::Address) matches Some(found) && json_address(
                found,
            ) is None && e == (WalletError::MalformedField { field: FieldName::Address }),
        },
{
    match document.optional_field(FieldName::Address) {
        None => Ok(None),
        Some(found) => match found.account_address() {
            Some(bytes) => Ok(Some(bytes)),
            None => Err(WalletError::MalformedField { field: FieldName::Address }),
        },
    }
}

/// Why the field `threshold` of `value` cannot be read as a signature
/// threshold, if it cannot.
pub open spec fn field_threshold_failure(value: serde_json::Value) -> Option<WalletError> {
    match field_of(value, FieldName::Threshold) {
        None => Some(WalletError::MissingField { field: FieldName::Threshold }),
        Some(found) => if json_nonzero_byte(found) is None {
            Some(WalletError::MalformedField { field: FieldName::Threshold })
        } else {
            None
        },
    }
}

/// Why the field `field` of `value` cannot be read as text, if it cannot.
pub open spec fn field_text_failure(value: serde_json::Value, field: FieldName) -> Option<
    WalletError,
> {
    match field_of(value, field) {
        None => Some(WalletError::MissingField { field }),
        Some(found) => if json_text(found) is None {
            Some(WalletError::MalformedField { field })
        } else {
            None
        },
    }
}

/// Why the field `field` of `value` cannot be read as a byte, if it cannot.
pub open spec fn field_byte_failure(value: serde_json::Value, field: FieldName) -> Option<
    WalletError,
> {
    match field_of(value, field) {
        None => Some(WalletError::MissingField { field }),
        Some(found) => if json_byte(found) is None {
            Some(WalletError::MalformedField { field })
        } else {
            None
        },
    }
}

} // verus!
