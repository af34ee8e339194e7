//! Embedded images.

use crate::defs::embed::AspectRatio;
use crate::defs::Blob;
use vstd::prelude::*;

verus! {

/// An image as the service shows it.
#[derive(Debug, Clone)]
pub struct ViewImage {
    pub thumb: String,
    pub fullsize: String,
    pub alt: String,
    pub aspect_ratio: Option<AspectRatio>,
}

/// An image as a record carries it: a reference to an uploaded blob.
#[derive(Debug, Clone)]
pub struct Image {
    pub image: Blob,
    pub alt: String,
    pub aspect_ratio: Option<AspectRatio>,
}

} // verus!
