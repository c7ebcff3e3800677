use rust_docs_mcp::kind_tag::tag_to_kind;

/// Every known `ItemEnum` variant tag maps to the expected kind string.
#[test]
fn tag_to_kind_covers_all_variants() {
    let cases = [
        ("module", "module"),
        ("struct", "struct"),
        ("enum", "enum"),
        ("function", "function"),
        ("trait", "trait"),
        ("impl", "impl"),
        ("type_alias", "type_alias"),
        ("constant", "constant"),
        ("static", "static"),
        ("macro", "macro"),
        ("extern_crate", "extern_crate"),
        ("use", "use"),
        ("union", "union"),
        ("struct_field", "field"),
        ("variant", "variant"),
        ("trait_alias", "trait_alias"),
        ("proc_macro", "proc_macro"),
        ("primitive", "primitive"),
        ("assoc_const", "assoc_const"),
        ("assoc_type", "assoc_type"),
        ("extern_type", "extern_type"),
    ];
    for (tag, expected) in cases {
        assert_eq!(tag_to_kind(tag), expected, "mismatch for tag '{tag}'");
    }
}

/// Unknown variant tags fall back to `"unknown"`.
#[test]
fn tag_to_kind_unknown_falls_back() {
    assert_eq!(tag_to_kind("future_variant"), "unknown");
    assert_eq!(tag_to_kind(""), "unknown");
}

/// Near misses of known tags are not known tags.
#[test]
fn tag_to_kind_near_misses_are_unknown() {
    assert_eq!(tag_to_kind("Module"), "unknown");
    assert_eq!(tag_to_kind("modules"), "unknown");
    assert_eq!(tag_to_kind("modul"), "unknown");
    assert_eq!(tag_to_kind(" struct"), "unknown");
    assert_eq!(tag_to_kind("field"), "unknown");
    assert_eq!(tag_to_kind("unknown"), "unknown");
    assert_eq!(tag_to_kind("structfield"), "unknown");
    assert_eq!(tag_to_kind("fünction"), "unknown");
}

/// Every tag gives one of the kind strings, and distinct known tags give
/// distinct kinds.
#[test]
fn tag_to_kind_results_are_item_kinds() {
    let tags = [
        "module", "struct", "enum", "function", "trait", "impl", "type_alias", "constant",
        "static", "macro", "extern_crate", "use", "union", "struct_field", "variant",
        "trait_alias", "proc_macro", "primitive", "assoc_const", "assoc_type", "extern_type",
    ];
    let mut kinds: Vec<String> = tags.iter().map(|t| tag_to_kind(t)).collect();
    assert!(kinds.iter().all(|k| k != "unknown"));
    kinds.sort();
    kinds.dedup();
    assert_eq!(kinds.len(), tags.len());
}
