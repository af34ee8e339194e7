//! An embedded video.

use crate::defs::embed::AspectRatio;
use vstd::prelude::*;

verus! {

#[derive(Debug, Clone)]
pub struct View {
    pub cid: String,
    pub playlist: String,
    pub thumbnail: Option<String>,
    pub alt: Option<String>,
    pub aspect_ratio: Option<AspectRatio>,
}

} // verus!
