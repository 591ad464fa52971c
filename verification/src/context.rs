//! The context of issuance: the identity provider, the registry of
//! anonymity revokers, and the global parameters, assembled once and read
//! by every step after.
//!
//! A context has at least one anonymity revoker. Without one nobody could
//! ever reveal the identity behind an account, so assembly fails on an empty
//! registry. It also fails on a part that does not describe what it should.

use vstd::prelude::*;
use concordium_base::id::types::{GlobalContext, IpInfo};
use pairing::bls12_381::{Bls12, G1};
use crate::document::{field_of, json_registry_size, Document};
use crate::errors::{FieldName, WalletError};
use crate::group::Point;

verus! {

/// The two generators of the global parameters that amounts are encrypted
/// with.
#[derive(Clone, Copy, Debug)]
pub struct Generators {
    /// The generator that public keys are multiples of.
    pub elgamal: Point,
    /// The generator in whose exponent amounts are encrypted.
    pub encryption: Point,
}

/// The generators of the global parameters that a JSON value describes, if
/// it describes global parameters.
pub uninterp spec fn json_generators(value: serde_json::Value) -> Option<Generators>;

/// Whether a JSON value describes the parameters of an identity provider.
pub uninterp spec fn describes_ip_info(value: serde_json::Value) -> bool;

/// `serde_json::from_value` for a `GlobalContext`, and its two generators:
/// the generator of public keys and the generator of encryption in the
/// exponent; nothing when the value does not describe global parameters.
#[verifier::external_body]
fn json_global_generators(value: &serde_json::Value) -> (r: Option<Generators>)
    ensures
        r == json_generators(*value),
{
    let global: GlobalContext<G1> = serde_json::from_value(value.clone()).ok()?;
    Some(Generators {
        elgamal: Point::new(*global.elgamal_generator()),
        encryption: Point::new(*global.encryption_in_exponent_generator()),
    })
}

/// `serde_json::from_value` for an `IpInfo`: whether the value describes
/// the parameters of an identity provider.
#[verifier::external_body]
fn json_is_ip_info(value: &serde_json::Value) -> (r: bool)
    ensures
        r == describes_ip_info(*value),
{
    serde_json::from_value::<IpInfo<Bls12>>(value.clone()).is_ok()
}

impl Document {
    /// The generators, if the document describes global parameters.
    pub fn generators(&self) -> (r: Option<Generators>)
        ensures
            r == json_generators(self@),
    {
        json_global_generators(self.value())
    }

    /// Whether the document describes the parameters of an identity
    /// provider.
    pub fn is_ip_info(&self) -> (r: bool)
        ensures
            r == describes_ip_info(self@),
    {
        json_is_ip_info(self.value())
    }
}

/// The public information that issuance works with.
#[derive(Debug)]
pub struct IssuanceContext {
    ip_info: Document,
    ars_infos: Document,
    global: Document,
    revokers: usize,
    generators: Generators,
}

/// The number of anonymity revokers that `registry` holds, if it is a
/// registry.
pub open spec fn registered_revokers(registry: serde_json::Value) -> Option<nat> {
    json_registry_size(registry)
}

/// Why no context can be assembled of the three parts, if none can: the
/// first part, in the order identity provider, registry, global parameters,
/// that does not describe what it should, or else the emptiness of the
/// registry.
pub open spec fn assembly_failure(
    ip_info: serde_json::Value,
    ars_infos: serde_json::Value,
    global: serde_json::Value,
) -> Option<WalletError> {
    if !describes_ip_info(ip_info) {
        Some(WalletError::MalformedField { field: FieldName::IpInfo })
    } else if registered_revokers(ars_infos) is None {
        Some(WalletError::MalformedField { field: FieldName::ArsInfos })
    } else if json_generators(global) is None {
        Some(WalletError::MalformedField { field: FieldName::Global })
    } else if registered_revokers(ars_infos) == Some(0nat) {
        Some(WalletError::Context)
    } else {
        None
    }
}

/// The number of anonymity revokers that `document` registers under
/// `arsInfos`, if that field is a registry.
pub open spec fn revoker_count(document: serde_json::Value) -> Option<nat> {
    match field_of(document, FieldName::ArsInfos) {
        Some(registry) => registered_revokers(registry),
        None => None,
    }
}

/// Why no context can be assembled from `document`, which has the three
/// fields of a context, if none can.
pub open spec fn context_failure(document: serde_json::Value) -> Option<WalletError> {
    assembly_failure(
        field_of(document, FieldName::IpInfo)->0,
        field_of(document, FieldName::ArsInfos)->0,
        field_of(document, FieldName::Global)->0,
    )
}

/// Whether `context` is the context that `document` describes.
pub open spec fn is_context_of(context: IssuanceContext, document: serde_json::Value) -> bool {
    &&& Some(context.ip_info_spec()) == field_of(document, FieldName::IpInfo)
    &&& Some(context.global_spec()) == field_of(document, FieldName::Global)
    &&& Some(context.ars_infos_spec()) == field_of(document, FieldName::ArsInfos)
    &&& Some(context.revokers_spec()) == revoker_count(document)
    &&& context.revokers_spec() >= 1
}

impl IssuanceContext {
    #[verifier::type_invariant]
    spec fn well_formed(self) -> bool {
        &&& self.revokers >= 1
        &&& registered_revokers(self.ars_infos@) == Some(self.revokers as nat)
        &&& describes_ip_info(self.ip_info@)
        &&& json_generators(self.global@) == Some(self.generators)
    }

    /// The parameters of the identity provider.
    pub closed spec fn ip_info_spec(self) -> serde_json::Value {
        self.ip_info@
    }

    /// The registry of anonymity revokers.
    pub closed spec fn ars_infos_spec(self) -> serde_json::Value {
        self.ars_infos@
    }

    /// The global parameters.
    pub closed spec fn global_spec(self) -> serde_json::Value {
        self.global@
    }

    /// The number of anonymity revokers.
    pub closed spec fn revokers_spec(self) -> nat {
        self.revokers as nat
    }

    /// Assembles the context. Fails when a part does not describe what it
    /// should, or the registry has no revoker.
    pub fn assemble(ip_info: Document, ars_infos: Document, global: Document) -> (r: Result<
        IssuanceContext,
        WalletError,
    >)
        ensures
            match r {
                Ok(context) => assembly_failure(ip_info@, ars_infos@, global@) is None
                    && context.ip_info_spec() == ip_info@ && context.ars_infos_spec()
                    == ars_infos@ && context.global_spec() == global@ && Some(
                    context.revokers_spec(),
                ) == registered_revokers(ars_infos@) && context.revokers_spec() >= 1,
                Err(e) => assembly_failure(ip_info@, ars_infos@, global@) == Some(e),
            },
    {
        if !ip_info.is_ip_info() {
            return Err(WalletError::MalformedField { field: FieldName::IpInfo });
        }
        let revokers = match ars_infos.registry_size() {
            Some(revokers) => revokers,
            None => {
                return Err(WalletError::MalformedField { field: FieldName::ArsInfos });
            },
        };
        let generators = match global.generators() {
            Some(generators) => generators,
            None => {
                return Err(WalletError::MalformedField { field: FieldName::Global });
            },
        };
        if revokers == 0 {
            return Err(WalletError::Context);
        }
        Ok(IssuanceContext { ip_info, ars_infos, global, revokers, generators })
    }

    /// The generators of the global parameters.
    pub fn generators(&self) -> (generators: Generators)
        ensures
            Some(generators) == json_generators(self.global_spec()),
    {
        proof {
            use_type_invariant(self);
        }
        self.generators
    }

    /// The number of anonymity revokers, which is at least one.
    pub fn revokers(&self) -> (n: usize)
        ensures
            n == self.revokers_spec(),
            n >= 1,
            Some(n as nat) == registered_revokers(self.ars_infos_spec()),
    {
        proof {
            use_type_invariant(self);
        }
        self.revokers
    }

    /// The parameters of the identity provider.
    pub fn ip_info(&self) -> (document: &Document)
        ensures
            document@ == self.ip_info_spec(),
    {
        &self.ip_info
    }

    /// The registry of anonymity revokers.
    pub fn ars_infos(&self) -> (document: &Document)
        ensures
            document@ == self.ars_infos_spec(),
    {
        &self.ars_infos
    }

    /// The global parameters.
    pub fn global(&self) -> (document: &Document)
        ensures
            document@ == self.global_spec(),
    {
        &self.global
    }

    /// Takes the context apart: the parameters of the identity provider,
    /// the registry, and the global parameters.
    pub fn into_parts(self) -> (parts: (Document, Document, Document))
        ensures
            parts.0@ == self.ip_info_spec(),
            parts.1@ == self.ars_infos_spec(),
            parts.2@ == self.global_spec(),
    {
        (self.ip_info, self.ars_infos, self.global)
    }
}

} // verus!
