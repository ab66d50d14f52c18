//! From generated schemas to what the document can hold.
//!
//! A generator may answer with `true` or `false` in place of a schema. OpenAPI 3 has no such
//! schemas, so `true` becomes the empty schema object and `false` becomes the schema object
//! `{"not": {}}`. References and schema objects pass through as they are.

use okapi::openapi3::{RefOr, SchemaObject};
use schemars::gen::SchemaGenerator;
use schemars::schema::Schema;
use schemars::JsonSchemaError;
use vstd::prelude::*;

use crate::schemars_specs::{
    definition_entries, definitions_of, unconstrained, unconstrained_beside_not,
};
use crate::tables::{
    collect_schemas, distinct_names, has_name, holds_exactly, schema_table, DocumentSchema,
    SchemaTable,
};

verus! {

/// The schema object that rejects every value: its one constraint is `not`, and what it
/// negates is the schema object that accepts every value.
pub open spec fn negated_any(object: SchemaObject) -> bool {
    &&& unconstrained_beside_not(object)
    &&& object.not matches Some(inner)
    &&& *inner matches Schema::Object(any)
    &&& unconstrained(any)
}

/// `resolved` is the form in which the document holds `schema`.
pub open spec fn resolves_to(schema: Schema, resolved: DocumentSchema) -> bool {
    match schema {
        Schema::Ref(reference) => resolved == RefOr::<SchemaObject>::Ref(reference),
        Schema::Object(object) => resolved == RefOr::Object(object),
        Schema::Bool(true) => resolved matches RefOr::Object(object) && unconstrained(object),
        Schema::Bool(false) => resolved matches RefOr::Object(object) && negated_any(object),
    }
}

/// Converts a generated schema into a reference or a schema object.
pub fn get_ref_or_object(schema: Schema) -> (resolved: DocumentSchema)
    ensures
        resolves_to(schema, resolved),
{
    match schema {
        Schema::Ref(reference) => RefOr::Ref(reference),
        Schema::Object(object) => RefOr::Object(object),
        Schema::Bool(true) => RefOr::Object(SchemaObject::default()),
        Schema::Bool(false) => {
            let mut object = SchemaObject::default();
            object.not = Some(Box::new(Schema::Object(SchemaObject::default())));
            RefOr::Object(object)
        },
    }
}

/// The generator failed to describe a type.
#[derive(Debug)]
pub struct GenerationError {
    /// What the generator reported.
    pub cause: JsonSchemaError,
}

/// `outcome` is what the caller gets for the answer `generated` of a generator: the schema
/// in the form of the document, or the generator's own error.
pub open spec fn resolves_answer(
    generated: Result<Schema, JsonSchemaError>,
    outcome: Result<DocumentSchema, GenerationError>,
) -> bool {
    match generated {
        Ok(schema) => outcome matches Ok(resolved) && resolves_to(schema, resolved),
        Err(cause) => outcome == Err::<DocumentSchema, GenerationError>(
            GenerationError { cause },
        ),
    }
}

/// Passes on the answer of a generator: a schema is converted, an error is handed to the
/// caller unchanged.
pub fn resolve_generated(
    generated: Result<Schema, JsonSchemaError>,
) -> (outcome: Result<DocumentSchema, GenerationError>)
    ensures
        resolves_answer(generated, outcome),
{
    match generated {
        Ok(schema) => Ok(get_ref_or_object(schema)),
        Err(cause) => Err(GenerationError { cause }),
    }
}

/// `schemas` holds each of the `definitions` under its name, in the form of the document,
/// and nothing else.
pub open spec fn resolves_table(
    definitions: Map<Seq<char>, Schema>,
    schemas: Map<Seq<char>, DocumentSchema>,
) -> bool {
    &&& forall|name: Seq<char>|
        #[trigger] schemas.contains_key(name) <==> definitions.contains_key(name)
    &&& forall|name: Seq<char>|
        definitions.contains_key(name) ==> resolves_to(definitions[name], #[trigger] schemas[name])
}

/// Converts every named definition, keeping names and order.
fn resolve_entries(definitions: Vec<(String, Schema)>) -> (schemas: Vec<(String, DocumentSchema)>)
    ensures
        schemas.len() == definitions.len(),
        forall|i: int|
            0 <= i < definitions.len() ==> {
                &&& (#[trigger] schemas[i]).0@ == definitions[i].0@
                &&& resolves_to(definitions[i].1, schemas[i].1)
            },
        distinct_names(definitions@) ==> distinct_names(schemas@),
{
    let mut schemas: Vec<(String, DocumentSchema)> = Vec::new();
    for entry in it: definitions.into_iter()
        invariant
            it.seq() == definitions@,
            schemas.len() == it.index(),
            forall|i: int|
                0 <= i < it.index() ==> {
                    &&& (#[trigger] schemas[i]).0@ == definitions[i].0@
                    &&& resolves_to(definitions[i].1, schemas[i].1)
                },
    {
        let (name, schema) = entry;
        schemas.push((name, get_ref_or_object(schema)));
    }
    schemas
}

/// Entries that were converted one by one make a table that resolves the table of the
/// definitions they came from.
proof fn lemma_resolved_entries(
    definitions: Seq<(String, Schema)>,
    schemas: Seq<(String, DocumentSchema)>,
    defined: Map<Seq<char>, Schema>,
    table: Map<Seq<char>, DocumentSchema>,
)
    requires
        distinct_names(definitions),
        holds_exactly(defined, definitions),
        schemas.len() == definitions.len(),
        forall|i: int|
            0 <= i < definitions.len() ==> {
                &&& (#[trigger] schemas[i]).0@ == definitions[i].0@
                &&& resolves_to(definitions[i].1, schemas[i].1)
            },
        holds_exactly(table, schemas),
    ensures
        resolves_table(defined, table),
{
    assert forall|name: Seq<char>| has_name(schemas, name) <==> has_name(definitions, name) by {
        if has_name(definitions, name) {
            let i: int = choose|i: int|
                0 <= i < definitions.len() && (#[trigger] definitions[i]).0@ == name;
            assert(schemas[i].0@ == name);
        }
    }
}

/// Takes the named definitions out of a generator and converts each for the document: the
/// table of schemas that the components of the document hold.
pub fn into_definitions(generator: SchemaGenerator) -> (schemas: SchemaTable)
    ensures
        resolves_table(definitions_of(generator), schema_table(schemas)),
{
    let defined = definition_entries(generator);
    let resolved = resolve_entries(defined);
    let ghost entries = resolved@;
    let schemas = collect_schemas(resolved);
    proof {
        lemma_resolved_entries(defined@, entries, definitions_of(generator), schema_table(schemas));
    }
    schemas
}

} // verus!
