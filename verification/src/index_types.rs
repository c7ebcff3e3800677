//! Trimmed crate and item records for the indexing-only path.
//!
//! They hold only the parts of rustdoc's JSON `Crate` and `Item` that the
//! indexer reads; the deeply nested `ItemEnum` of an item is cut down to its
//! variant tag, as [`crate::kind_tag::kind_tag_of_inner`] reads it.

use rustdoc_types::{Id, ItemSummary, Visibility};
use std::collections::HashMap;
use vstd::prelude::*;

verus! {

/// rustdoc's identifier of an item, carried through as it is.
#[verifier::external_type_specification]
#[verifier::external_body]
pub struct ExId(Id);

/// rustdoc's summary of an item's path and kind, carried through as it is.
#[verifier::external_type_specification]
#[verifier::external_body]
pub struct ExItemSummary(ItemSummary);

/// rustdoc's visibility of an item, carried through as it is.
#[verifier::external_type_specification]
#[verifier::external_body]
pub struct ExVisibility(Visibility);

/// Trimmed crate representation for the indexing-only path: of rustdoc's
/// `Crate` it keeps only the two maps that the indexer iterates.
pub struct IndexCrate {
    pub index: HashMap<Id, IndexItem>,
    pub paths: HashMap<Id, ItemSummary>,
}

/// Lightweight stand-in for rustdoc's `Item`, with only the fields that the
/// search indexer reads.
pub struct IndexItem {
    pub name: Option<String>,
    pub docs: Option<String>,
    pub visibility: Visibility,
    /// The `ItemEnum` variant tag, mapped to its kind (e.g. `"function"`).
    pub kind_tag: String,
}

} // verus!
