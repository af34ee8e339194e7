//! A quoted record together with media of the quoting post.

use crate::defs::embed::{external, images, record, video};
use vstd::prelude::*;

verus! {

#[derive(Debug, Clone)]
pub enum MediaVariant {
    Images { images: Vec<images::ViewImage> },
    Video(video::View),
    External { external: external::View },
}

#[derive(Debug)]
pub struct RecordWrapper {
    pub record: record::Variant,
}

#[derive(Debug)]
pub struct RecordWithMedia {
    pub record: RecordWrapper,
    pub media: MediaVariant,
}

#[derive(Debug, Clone)]
pub struct RecordWithMediaRaw(pub serde_json::Value);

} // verus!
