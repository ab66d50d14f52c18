//! Tables keyed by text: the two that a document holds, and the lists of named entries from
//! which they are made. The tables are `BTreeMap`s of std with `String` keys; the library
//! speaks of what they hold through the two names below.

use okapi::openapi3::{PathItem, RefOr, SchemaObject};
use std::collections::BTreeMap;
use vstd::prelude::*;

verus! {

/// A schema in the form in which a document holds it: a reference or a schema object.
pub type DocumentSchema = RefOr<SchemaObject>;

/// The table of path items of a document, keyed by path.
pub type PathTable = BTreeMap<String, PathItem>;

/// The table of schemas of a document, keyed by name.
pub type SchemaTable = BTreeMap<String, DocumentSchema>;

/// What a table of path items holds, keyed by the text of the path.
pub uninterp spec fn path_table(paths: PathTable) -> Map<Seq<char>, PathItem>;

/// What a table of schemas holds, keyed by the name of the schema.
pub uninterp spec fn schema_table(schemas: SchemaTable) -> Map<Seq<char>, DocumentSchema>;

/// No two of the entries have the same name.
pub open spec fn distinct_names<V>(entries: Seq<(String, V)>) -> bool {
    forall|i: int, j: int|
        0 <= i < j < entries.len() ==> (#[trigger] entries[i]).0@ != (#[trigger] entries[j]).0@
}

/// Some entry has the name.
pub open spec fn has_name<V>(entries: Seq<(String, V)>, name: Seq<char>) -> bool {
    exists|i: int| 0 <= i < entries.len() && (#[trigger] entries[i]).0@ == name
}

/// The table holds the entries and nothing else: its keys are the names of the entries, and
/// it maps the name of each entry to the value of that entry.
pub open spec fn holds_exactly<V>(table: Map<Seq<char>, V>, entries: Seq<(String, V)>) -> bool {
    &&& forall|name: Seq<char>| #[trigger] table.contains_key(name) <==> has_name(entries, name)
    &&& forall|i: int|
        0 <= i < entries.len() ==> table[(#[trigger] entries[i]).0@] == entries[i].1
}

/// Makes the table of path items from a list of entries with distinct names
/// (`BTreeMap::from_iter`): the table then holds each entry under its name, and nothing else.
#[verifier::external_body]
pub(crate) fn collect_paths(entries: Vec<(String, PathItem)>) -> (paths: PathTable)
    requires
        distinct_names(entries@),
    ensures
        holds_exactly(path_table(paths), entries@),
{
    BTreeMap::from_iter(entries)
}

/// Makes the table of schemas from a list of entries with distinct names
/// (`BTreeMap::from_iter`): the table then holds each entry under its name, and nothing else.
#[verifier::external_body]
pub(crate) fn collect_schemas(entries: Vec<(String, DocumentSchema)>) -> (schemas: SchemaTable)
    requires
        distinct_names(entries@),
    ensures
        holds_exactly(schema_table(schemas), entries@),
{
    BTreeMap::from_iter(entries)
}

} // verus!
