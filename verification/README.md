# rust_docs_mcp (search index types)

The verified part of the search indexing pipeline of a rustdoc MCP server.

- `src/kind_tag.rs`: maps the variant tag of rustdoc's `ItemEnum` to an item
  kind (`tag_to_kind`), and reads that kind from an item's `inner` JSON value
  (`kind_tag_of_inner`), with the laws that the mapping keeps.
- `src/index_types.rs`: the trimmed `IndexCrate` and `IndexItem` records.
- `src/config.rs`: the indexing and query limits.
- `app/lib.rs`: the serde side: deserializable copies of the records and the
  `deserialize_kind_tag` function whose visitor hands its findings to the
  library.
