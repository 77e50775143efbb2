//! Typed client core for the OSV (Open Source Vulnerability) database API.
//!
//! This crate holds the verified protocol and data layer of an OSV client:
//! the vulnerability schema model, its JSON wire encoding and decoding, the
//! two query request shapes, the response discriminator that tells a
//! "matches found" body from a "no result" body, and the error taxonomy.
//! The HTTP transport itself is an outside collaborator and stays outside
//! this crate.
#![allow(unused_imports)]

use vstd::prelude::*;

pub mod codec;
pub mod json;
pub mod model;
pub mod protocol;

pub use model::{
    Affected, Commit, Credit, Ecosystem, Event, Package, Range, RangeType, Reference,
    ReferenceType, Request, Severity, SeverityType, Version, Vulnerability,
};
pub use protocol::ApiError;

verus! {

} // verus!
