//! Client-side workflow for issuing identity credentials and for reading
//! confidential balances.
//!
//! The crate holds the decisions of that workflow: which input documents are
//! acceptable, which reconstruction threshold a request carries, which
//! attributes a credential may reveal, how a signed credential is packaged for
//! submission, and how an encrypted amount is recovered by a bounded
//! discrete-logarithm search. Every function states its behaviour in a
//! contract. Verus proves the contracts, but for those of the few private
//! functions that call into the libraries this crate is built on: these are
//! believed, and each says above its header what it claims of the call.

pub mod balance;
pub mod bytes;
pub mod construction;
pub mod context;
pub mod credential;
pub mod decrypt;
pub mod deployment;
pub mod dlog;
pub mod document;
pub mod errors;
pub mod group;
pub mod hexcode;
pub mod identity;
pub mod policy;
pub mod secrets;
pub mod signature;
pub mod signing;
pub mod threshold;
