//! Lists and starter packs. Their contents are carried, not read.

use vstd::prelude::*;

verus! {

#[derive(Debug, Clone)]
pub struct ListViewBasic(pub serde_json::Value);

#[derive(Debug, Clone)]
pub struct ListView(pub serde_json::Value);

#[derive(Debug, Clone)]
pub struct StarterPackViewBasic(pub serde_json::Value);

} // verus!
