//! Media and records embedded in a post.

use vstd::prelude::*;

pub mod external;
pub mod images;
pub mod record;
pub mod record_with_media;
pub mod video;

verus! {

/// An embed, either as the service shows it in a view of a post (the first
/// five variants) or as a record carries it (the `Raw` variants).
#[derive(Debug)]
pub enum Variant {
    Images { images: Vec<images::ViewImage> },
    Video(video::View),
    External { external: external::View },
    Record { record: record::Variant },
    RecordWithMedia(record_with_media::RecordWithMedia),
    ImagesRaw { images: Vec<images::Image> },
    VideoRaw(serde_json::Value),
    ExternalRaw(serde_json::Value),
    RecordRaw(serde_json::Value),
    RecordWithMediaRaw(record_with_media::RecordWithMediaRaw),
}

#[derive(Debug, Clone, Copy, PartialEq, Eq, Structural)]
pub struct AspectRatio {
    pub width: u32,
    pub height: u32,
}

} // verus!
