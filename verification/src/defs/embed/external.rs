//! A link card.

use vstd::prelude::*;

verus! {

#[derive(Debug, Clone)]
pub struct View {
    pub uri: String,
    pub title: String,
    pub description: String,
    pub thumb: Option<String>,
}

} // verus!
