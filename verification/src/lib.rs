//! Client-side data-access layer for a component-metadata service.
//!
//! The library models component coordinates (with a bidirectional text
//! format), builds chunked definition-lookup request payloads, and decodes
//! the service's JSON responses tolerantly: optional sub-objects that are
//! present but structurally invalid become absent instead of failing the
//! whole record.

pub mod coordinate;
pub mod definitions;
pub mod error;
pub mod json;
pub mod requests;
pub mod text;

use vstd::prelude::*;

verus! {

/// Default root URI of the definitions service.
pub const ROOT_URI: &'static str = "https://api.clearlydefined.io";

} // verus!
