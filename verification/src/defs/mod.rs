//! Data shapes exchanged with the service.

use vstd::prelude::*;

pub mod actor;
pub mod embed;
pub mod feed;
pub mod graph;
pub mod label;
pub mod richtext;

verus! {

/// A JSON value that this library carries through without reading it.
#[verifier::external_type_specification]
#[verifier::external_body]
pub struct ExJsonValue(serde_json::Value);

/// `Clone::clone` of `serde_json::Value`: hands back a JSON value; nothing is
/// claimed of it, since this library never looks inside one.
pub assume_specification[ <serde_json::Value as Clone>::clone ](value: &serde_json::Value) -> (copy:
    serde_json::Value)
;

/// The content-hash link of an uploaded blob.
#[derive(Debug, Clone)]
pub struct BlobRef {
    pub link: String,
}

/// The descriptor that the service assigns to an uploaded blob.
#[derive(Debug, Clone)]
pub struct Blob {
    /// The wire field `$type`; the service sends `blob`.
    pub kind: String,
    pub mime_type: String,
    /// The wire field `ref`.
    pub reference: BlobRef,
    pub size: usize,
}

} // verus!
