//! Mapping of rustdoc `ItemEnum` variant tags to item-kind strings.

use vstd::prelude::*;
use vstd::string::StringExecFns;
use vstd::utf8::{encode_utf8, encode_utf8_decode_utf8};

verus! {

/// Whether two string slices hold the same characters.
fn str_eq(a: &str, b: &str) -> (res: bool)
    ensures
        res == (a@ == b@),
{
    let ab = a.as_bytes();
    let bb = b.as_bytes();
    proof {
        encode_utf8_decode_utf8(a@);
        encode_utf8_decode_utf8(b@);
    }
    if ab.len() != bb.len() {
        return false;
    }
    let n = ab.len();
    let mut i: usize = 0;
    while i < n
        invariant
            ab@ == encode_utf8(a@),
            bb@ == encode_utf8(b@),
            n == ab@.len(),
            n == bb@.len(),
            i <= n,
            forall|j: int| 0 <= j < i ==> ab@[j] == bb@[j],
        decreases n - i,
    {
        if ab[i] != bb[i] {
            return false;
        }
        i = i + 1;
    }
    assert(ab@ =~= bb@);
    true
}

/// Whether `tag` is one of the variant tags of rustdoc's `ItemEnum`, in the
/// snake_case spelling of its serde encoding.
pub open spec fn is_known_tag(tag: Seq<char>) -> bool {
    ||| tag == "assoc_const"@
    ||| tag == "assoc_type"@
    ||| tag == "constant"@
    ||| tag == "enum"@
    ||| tag == "extern_crate"@
    ||| tag == "extern_type"@
    ||| tag == "function"@
    ||| tag == "impl"@
    ||| tag == "macro"@
    ||| tag == "module"@
    ||| tag == "primitive"@
    ||| tag == "proc_macro"@
    ||| tag == "static"@
    ||| tag == "struct"@
    ||| tag == "struct_field"@
    ||| tag == "trait"@
    ||| tag == "trait_alias"@
    ||| tag == "type_alias"@
    ||| tag == "union"@
    ||| tag == "use"@
    ||| tag == "variant"@
}

/// The item kind that a variant tag of rustdoc's `ItemEnum` stands for.
///
/// A known tag names its own kind, except `struct_field`, whose kind is
/// `field`; every other tag is `unknown`, so that variants added to rustdoc
/// later still map to a kind.
pub open spec fn spec_tag_to_kind(tag: Seq<char>) -> Seq<char> {
    if tag == "struct_field"@ {
        "field"@
    } else if is_known_tag(tag) {
        tag
    } else {
        "unknown"@
    }
}

/// Whether `kind` is one of the item-kind strings that a tag can map to.
pub open spec fn is_item_kind(kind: Seq<char>) -> bool {
    ||| kind == "field"@
    ||| kind == "unknown"@
    ||| is_known_tag(kind) && kind != "struct_field"@
}

/// Whether `tag` is a known variant tag.
fn is_known_tag_str(tag: &str) -> (known: bool)
    ensures
        known == is_known_tag(tag@),
{
    str_eq(tag, "assoc_const")
        || str_eq(tag, "assoc_type")
        || str_eq(tag, "constant")
        || str_eq(tag, "enum")
        || str_eq(tag, "extern_crate")
        || str_eq(tag, "extern_type")
        || str_eq(tag, "function")
        || str_eq(tag, "impl")
        || str_eq(tag, "macro")
        || str_eq(tag, "module")
        || str_eq(tag, "primitive")
        || str_eq(tag, "proc_macro")
        || str_eq(tag, "static")
        || str_eq(tag, "struct")
        || str_eq(tag, "struct_field")
        || str_eq(tag, "trait")
        || str_eq(tag, "trait_alias")
        || str_eq(tag, "type_alias")
        || str_eq(tag, "union")
        || str_eq(tag, "use")
        || str_eq(tag, "variant")
}

/// Maps a JSON variant-tag string of rustdoc's `ItemEnum` to its item kind.
///
/// Unknown tags give `"unknown"` rather than an error.
pub fn tag_to_kind(tag: &str) -> (kind: String)
    ensures
        kind@ == spec_tag_to_kind(tag@),
{
    if str_eq(tag, "struct_field") {
        String::from_str("field")
    } else if is_known_tag_str(tag) {
        String::from_str(tag)
    } else {
        String::from_str("unknown")
    }
}

/// The JSON value of an item's `inner` field, as far as the kind tag needs it.
///
/// rustdoc encodes `ItemEnum` with serde's externally tagged layout: a unit
/// variant is a bare string (`"extern_type"`), every other variant a map with
/// the tag as its one key (`{"function": {...}}`).
#[derive(Clone, Debug)]
pub enum InnerValue {
    /// A bare string: the tag of a unit variant.
    UnitVariant(String),
    /// A map: its first key, or `None` when the map is empty.
    MapVariant(Option<String>),
}

/// Why the kind tag could not be read from an `inner` value.
#[derive(Clone, Copy, Debug, PartialEq, Eq, Structural)]
pub enum KindTagError {
    /// The `inner` map held no key.
    EmptyMap,
}

impl KindTagError {
    /// The text of this error, as reported by the deserializer.
    pub fn message(&self) -> (msg: String)
        ensures
            msg@ == "empty map for ItemEnum inner"@,
    {
        match self {
            KindTagError::EmptyMap => String::from_str("empty map for ItemEnum inner"),
        }
    }
}

/// The kind tag that an `inner` value gives, or why it gives none.
pub open spec fn spec_kind_tag_of_inner(inner: InnerValue) -> Result<Seq<char>, KindTagError> {
    match inner {
        InnerValue::UnitVariant(tag) => Ok(spec_tag_to_kind(tag@)),
        InnerValue::MapVariant(Some(key)) => Ok(spec_tag_to_kind(key@)),
        InnerValue::MapVariant(None) => Err(KindTagError::EmptyMap),
    }
}

/// Reads the item kind from the `inner` value of a rustdoc item: the tag of a
/// unit variant, or the key of a one-entry map, mapped by [`tag_to_kind`].
/// An empty map is the one input that is refused.
pub fn kind_tag_of_inner(inner: &InnerValue) -> (res: Result<String, KindTagError>)
    ensures
        match res {
            Ok(kind) => spec_kind_tag_of_inner(*inner) == Ok::<Seq<char>, KindTagError>(kind@),
            Err(e) => spec_kind_tag_of_inner(*inner) == Err::<Seq<char>, KindTagError>(e),
        },
        match *inner {
            InnerValue::UnitVariant(tag) => res matches Ok(kind) && kind@ == spec_tag_to_kind(tag@),
            InnerValue::MapVariant(Some(key)) => res matches Ok(kind) && kind@ == spec_tag_to_kind(
                key@,
            ),
            InnerValue::MapVariant(None) => res matches Err(KindTagError::EmptyMap),
        },
{
    match inner {
        InnerValue::UnitVariant(tag) => Ok(tag_to_kind(tag.as_str())),
        InnerValue::MapVariant(Some(key)) => Ok(tag_to_kind(key.as_str())),
        InnerValue::MapVariant(None) => Err(KindTagError::EmptyMap),
    }
}

/// The facts about the literals that the laws below rest on: neither `field`
/// nor `unknown` is a variant tag, and the two differ.
proof fn lemma_tag_literals()
    ensures
        !is_known_tag("field"@),
        !is_known_tag("unknown"@),
        "field"@ != "unknown"@,
{
    reveal_strlit("field");
    reveal_strlit("unknown");
    reveal_strlit("assoc_const");
    reveal_strlit("assoc_type");
    reveal_strlit("constant");
    reveal_strlit("enum");
    reveal_strlit("extern_crate");
    reveal_strlit("extern_type");
    reveal_strlit("function");
    reveal_strlit("impl");
    reveal_strlit("macro");
    reveal_strlit("module");
    reveal_strlit("primitive");
    reveal_strlit("proc_macro");
    reveal_strlit("static");
    reveal_strlit("struct");
    reveal_strlit("struct_field");
    reveal_strlit("trait");
    reveal_strlit("trait_alias");
    reveal_strlit("type_alias");
    reveal_strlit("union");
    reveal_strlit("use");
    reveal_strlit("variant");
    // Each tag differs from `field` and `unknown` in its length or its
    // first character.
    assert forall|t: Seq<char>| is_known_tag(t) implies t.len() != 5 || t[0] != 'f' by {}
    assert forall|t: Seq<char>| is_known_tag(t) implies t.len() != 7 || t[0] != 'u' by {}
    assert("field"@.len() == 5 && "field"@[0] == 'f');
    assert("unknown"@.len() == 7 && "unknown"@[0] == 'u');
}

/// Every tag maps to one of the item-kind strings.
pub proof fn lemma_kind_is_item_kind(tag: Seq<char>)
    ensures
        is_item_kind(spec_tag_to_kind(tag)),
{
}

/// Every known tag other than `struct_field` maps to itself; `struct_field`
/// maps to `field`.
pub proof fn lemma_known_tag_kind(tag: Seq<char>)
    requires
        is_known_tag(tag),
    ensures
        tag == "struct_field"@ ==> spec_tag_to_kind(tag) == "field"@,
        tag != "struct_field"@ ==> spec_tag_to_kind(tag) == tag,
{
}

/// A tag maps to `unknown` exactly when it is not a variant tag of `ItemEnum`.
pub proof fn lemma_unknown_iff_not_known(tag: Seq<char>)
    ensures
        spec_tag_to_kind(tag) == "unknown"@ <==> !is_known_tag(tag),
{
    lemma_tag_literals();
}

/// Distinct known tags map to distinct kinds.
pub proof fn lemma_known_tags_injective(t1: Seq<char>, t2: Seq<char>)
    requires
        is_known_tag(t1),
        is_known_tag(t2),
        spec_tag_to_kind(t1) == spec_tag_to_kind(t2),
    ensures
        t1 == t2,
{
    lemma_known_tag_kind(t1);
    lemma_known_tag_kind(t2);
    lemma_tag_literals();
}

/// Reading the kind never fails on a tag, known or not: only an empty map
/// is refused.
pub proof fn lemma_only_empty_map_fails(inner: InnerValue)
    ensures
        spec_kind_tag_of_inner(inner) is Err <==> inner == InnerValue::MapVariant(None),
{
}

/// A tag gives the same kind whether it comes as a unit variant or as the
/// key of a map variant.
pub proof fn lemma_kind_independent_of_encoding(tag: String)
    ensures
        spec_kind_tag_of_inner(InnerValue::UnitVariant(tag))
            == spec_kind_tag_of_inner(InnerValue::MapVariant(Some(tag))),
{
}

/// The kind read from an `inner` value is the kind of its tag, in either
/// encoding: a known tag other than `struct_field` reads back as itself,
/// `struct_field` reads as `field`, and any other tag reads as `unknown`.
pub proof fn lemma_inner_reads_tag_kind(tag: String)
    ensures
        spec_kind_tag_of_inner(InnerValue::UnitVariant(tag)) == Ok::<Seq<char>, KindTagError>(
            spec_tag_to_kind(tag@),
        ),
        spec_kind_tag_of_inner(InnerValue::MapVariant(Some(tag))) == Ok::<Seq<char>, KindTagError>(
            spec_tag_to_kind(tag@),
        ),
        is_known_tag(tag@) && tag@ != "struct_field"@ ==> spec_kind_tag_of_inner(
            InnerValue::UnitVariant(tag),
        ) == Ok::<Seq<char>, KindTagError>(tag@) && spec_kind_tag_of_inner(
            InnerValue::MapVariant(Some(tag)),
        ) == Ok::<Seq<char>, KindTagError>(tag@),
        tag@ == "struct_field"@ ==> spec_kind_tag_of_inner(InnerValue::UnitVariant(tag))
            == Ok::<Seq<char>, KindTagError>("field"@) && spec_kind_tag_of_inner(
            InnerValue::MapVariant(Some(tag)),
        ) == Ok::<Seq<char>, KindTagError>("field"@),
        !is_known_tag(tag@) ==> spec_kind_tag_of_inner(InnerValue::UnitVariant(tag))
            == Ok::<Seq<char>, KindTagError>("unknown"@) && spec_kind_tag_of_inner(
            InnerValue::MapVariant(Some(tag)),
        ) == Ok::<Seq<char>, KindTagError>("unknown"@),
{
}

} // verus!
