//! Moderation labels. Their contents are carried, not read.

use vstd::prelude::*;

verus! {

#[derive(Debug, Clone)]
pub struct Label(pub serde_json::Value);

} // verus!
