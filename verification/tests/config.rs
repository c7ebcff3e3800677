use rust_docs_mcp::config::{
    DEFAULT_BUFFER_SIZE, DEFAULT_FUZZY_DISTANCE, DEFAULT_SEARCH_LIMIT, FUZZY_TRANSPOSE_COST_ONE,
    MAX_FUZZY_DISTANCE, MAX_ITEMS_PER_CRATE, MAX_QUERY_LENGTH, MAX_SEARCH_LIMIT,
};

#[test]
fn config_values() {
    assert_eq!(DEFAULT_BUFFER_SIZE, 50_000_000);
    assert_eq!(MAX_ITEMS_PER_CRATE, 1_000_000);
    assert_eq!(DEFAULT_SEARCH_LIMIT, 50);
    assert_eq!(MAX_SEARCH_LIMIT, 1000);
    assert_eq!(MAX_QUERY_LENGTH, 1000);
    assert_eq!(DEFAULT_FUZZY_DISTANCE, 1);
    assert_eq!(MAX_FUZZY_DISTANCE, 2);
    assert!(FUZZY_TRANSPOSE_COST_ONE);
}

#[test]
fn config_defaults_within_limits() {
    assert!(DEFAULT_SEARCH_LIMIT <= MAX_SEARCH_LIMIT);
    assert!(DEFAULT_FUZZY_DISTANCE <= MAX_FUZZY_DISTANCE);
}
