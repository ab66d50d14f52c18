//! What the library relies on from `schemars`: the JSON Schema model, the generator's settings
//! and the generator itself.
//!
//! The schema model and the settings are declared with their fields. The generator keeps its
//! fields private; the library speaks of it through the two names below.

use schemars::gen::{BoolSchemas, SchemaGenerator, SchemaSettings};
use schemars::schema::{
    ArrayValidation, InstanceType, NumberValidation, ObjectValidation, Schema, SchemaObject,
    SingleOrVec, StringValidation,
};
use schemars::{JsonSchema, JsonSchemaError};
use vstd::prelude::*;

use crate::okapi_specs::empty_table;
use crate::tables::{distinct_names, holds_exactly};

verus! {

/// `schemars::schema::Schema`, what a generator answers. Declared with its variants.
#[verifier::external_type_specification]
pub struct ExSchema(Schema);

/// `schemars::schema::SchemaObject`, a schema written out. Declared with its fields.
#[verifier::external_type_specification]
pub struct ExSchemaObject(SchemaObject);

/// `schemars::schema::NumberValidation`, the keywords of a schema object on numbers.
/// Declared with its fields.
#[verifier::external_type_specification]
pub struct ExNumberValidation(NumberValidation);

/// `schemars::schema::StringValidation`, the keywords of a schema object on strings.
/// Declared with its fields.
#[verifier::external_type_specification]
pub struct ExStringValidation(StringValidation);

/// `schemars::schema::ArrayValidation`, the keywords of a schema object on arrays.
/// Declared with its fields.
#[verifier::external_type_specification]
pub struct ExArrayValidation(ArrayValidation);

/// `schemars::schema::ObjectValidation`, the keywords of a schema object on objects.
/// Declared with its fields.
#[verifier::external_type_specification]
pub struct ExObjectValidation(ObjectValidation);

/// `schemars::schema::InstanceType`. Opaque.
#[verifier::external_type_specification]
#[verifier::external_body]
pub struct ExInstanceType(InstanceType);

/// `schemars::schema::SingleOrVec`, one boxed value or a list. Declared with its variants.
#[verifier::external_type_specification]
pub struct ExSingleOrVec<T>(SingleOrVec<T>);

/// `schemars::gen::SchemaSettings`. Declared with its fields.
#[verifier::external_type_specification]
pub struct ExSchemaSettings(SchemaSettings);

/// `schemars::gen::BoolSchemas`. Declared with its variants.
#[verifier::external_type_specification]
pub struct ExBoolSchemas(BoolSchemas);

/// `schemars::gen::SchemaGenerator`: its settings and its table of named definitions are
/// private to the crate.
#[verifier::external_type_specification]
#[verifier::external_body]
pub struct ExSchemaGenerator(SchemaGenerator);

/// `schemars::JsonSchemaError`, carried from the generator to the caller.
#[verifier::external_type_specification]
#[verifier::external_body]
pub struct ExJsonSchemaError(JsonSchemaError);

/// The named definitions that a generator has collected so far, keyed by name.
pub uninterp spec fn definitions_of(generator: SchemaGenerator) -> Map<Seq<char>, Schema>;

/// The settings that a generator was made with, as `SchemaGenerator::settings` returns them.
pub uninterp spec fn generator_settings(generator: SchemaGenerator) -> SchemaSettings;

/// A schema object places no constraint on numbers.
pub open spec fn no_number_constraints(number: NumberValidation) -> bool {
    &&& number.multiple_of is None
    &&& number.maximum is None
    &&& number.exclusive_maximum is None
    &&& number.minimum is None
    &&& number.exclusive_minimum is None
}

/// A schema object places no constraint on strings.
pub open spec fn no_string_constraints(string: StringValidation) -> bool {
    &&& string.max_length is None
    &&& string.min_length is None
    &&& string.pattern is None
}

/// A schema object places no constraint on arrays.
pub open spec fn no_array_constraints(array: ArrayValidation) -> bool {
    &&& array.items is None
    &&& array.additional_items is None
    &&& array.max_items is None
    &&& array.min_items is None
    &&& array.unique_items is None
    &&& array.contains is None
}

/// A schema object places no constraint on objects.
pub open spec fn no_object_constraints(object: ObjectValidation) -> bool {
    &&& object.max_properties is None
    &&& object.min_properties is None
    &&& object.required@ == Set::<String>::empty()
    &&& empty_table(object.properties)
    &&& empty_table(object.pattern_properties)
    &&& object.additional_properties is None
    &&& object.property_names is None
}

/// Every field of the schema object other than `not` has the value that `Default` gives it.
pub open spec fn unconstrained_beside_not(object: SchemaObject) -> bool {
    &&& object.schema is None
    &&& object.id is None
    &&& object.title is None
    &&& object.description is None
    &&& object.instance_type is None
    &&& object.format is None
    &&& object.enum_values is None
    &&& object.const_value is None
    &&& object.all_of is None
    &&& object.any_of is None
    &&& object.one_of is None
    &&& object.if_schema is None
    &&& object.then_schema is None
    &&& object.else_schema is None
    &&& empty_table(object.definitions)
    &&& no_number_constraints(object.number)
    &&& no_string_constraints(object.string)
    &&& no_array_constraints(object.array)
    &&& no_object_constraints(object.object)
    &&& empty_table(object.extensions)
}

/// The schema object that accepts every value: no field is set.
pub open spec fn unconstrained(object: SchemaObject) -> bool {
    &&& object.not is None
    &&& unconstrained_beside_not(object)
}

/// The derived `Default` of `SchemaObject` fills every field with that field's default, down
/// through its four flattened groups of validation keywords.
/// Taken on trust from the `derive` on the five structures.
pub assume_specification[ <SchemaObject as Default>::default ]() -> (object: SchemaObject)
    ensures
        unconstrained(object),
;

/// The settings of the OpenAPI 3 dialect.
pub open spec fn openapi3_dialect(settings: SchemaSettings) -> bool {
    &&& settings.option_nullable
    &&& !settings.option_add_null_type
    &&& settings.bool_schemas == BoolSchemas::AdditionalPropertiesOnly
    &&& settings.definitions_path@ == "#/components/schemas/"@
}

/// `SchemaSettings::openapi3` returns the four values written out in its body.
pub assume_specification[ SchemaSettings::openapi3 ]() -> (settings: SchemaSettings)
    ensures
        openapi3_dialect(settings),
;

/// The derived `Clone` of `SchemaSettings` clones each of its four fields.
pub assume_specification[ <SchemaSettings as Clone>::clone ](
    settings: &SchemaSettings,
) -> (copy: SchemaSettings)
    ensures
        copy == *settings,
;

/// `SchemaSettings::into_generator` makes a generator that holds the settings and an empty
/// table of definitions (`SchemaGenerator::new`, which takes the table from `Default`).
pub assume_specification[ SchemaSettings::into_generator ](
    settings: SchemaSettings,
) -> (generator: SchemaGenerator)
    ensures
        generator_settings(generator) == settings,
        definitions_of(generator) =~= Map::empty(),
;

/// Calls `SchemaGenerator::subschema_for::<T>`. What it returns, and what it does to the
/// generator, is decided by `T`'s implementation of `JsonSchema`: nothing is claimed.
#[verifier::external_body]
pub(crate) fn subschema_for<T: ?Sized + JsonSchema>(
    generator: &mut SchemaGenerator,
) -> Result<Schema, JsonSchemaError> {
    generator.subschema_for::<T>()
}

/// Takes the named definitions out of a generator (`SchemaGenerator::into_definitions`) and
/// lists them. The generator keeps them in a map, so no name occurs twice, and the list holds
/// each definition under its name, and nothing else.
#[verifier::external_body]
pub(crate) fn definition_entries(generator: SchemaGenerator) -> (entries: Vec<(String, Schema)>)
    ensures
        distinct_names(entries@),
        holds_exactly(definitions_of(generator), entries@),
{
    generator.into_definitions().into_iter().collect()
}

} // verus!
