//! Configuration constants for search indexing and querying.
//!
//! These constants control resource usage and performance characteristics
//! of the search functionality.

use vstd::prelude::*;

verus! {

/// Default buffer size for the index writer (50MB), split across the
/// indexing threads with a per-thread floor of about 15MB.
pub const DEFAULT_BUFFER_SIZE: usize = 50_000_000;

/// Maximum number of items to index per crate: a safety net against runaway
/// macro-generated output, with room for crates of several hundred thousand
/// items.
pub const MAX_ITEMS_PER_CRATE: usize = 1_000_000;

/// Default limit for search results.
pub const DEFAULT_SEARCH_LIMIT: usize = 50;

/// Maximum allowed limit for search results.
pub const MAX_SEARCH_LIMIT: usize = 1000;

/// Maximum allowed query length in characters.
pub const MAX_QUERY_LENGTH: usize = 1000;

/// Default fuzzy distance for typo tolerance.
pub const DEFAULT_FUZZY_DISTANCE: u8 = 1;

/// Maximum fuzzy distance allowed.
pub const MAX_FUZZY_DISTANCE: u8 = 2;

/// Whether transpositions cost 1 edit instead of 2 in fuzzy matching, so that
/// common typos like "teh" -> "the" are forgiven.
pub const FUZZY_TRANSPOSE_COST_ONE: bool = true;

/// The defaults lie within their maxima: the default search limit does not
/// exceed the maximum limit, and the default fuzzy distance does not exceed
/// the maximum distance.
pub proof fn lemma_defaults_within_limits()
    ensures
        0 < DEFAULT_SEARCH_LIMIT <= MAX_SEARCH_LIMIT,
        DEFAULT_FUZZY_DISTANCE <= MAX_FUZZY_DISTANCE,
{
}

} // verus!
