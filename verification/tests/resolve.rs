use okapi::openapi3::{Ref, RefOr, SchemaObject};
use rocket_okapi::resolve::{get_ref_or_object, into_definitions, resolve_generated};
use schemars::gen::{SchemaGenerator, SchemaSettings};
use schemars::schema::{InstanceType, Schema};
use schemars::{JsonSchema, JsonSchemaError};

fn string_object() -> SchemaObject {
    let mut object = SchemaObject::default();
    object.instance_type = Some(InstanceType::String.into());
    object
}

struct Item;

impl JsonSchema for Item {
    fn schema_name() -> String {
        "Item".to_owned()
    }

    fn json_schema(_gen: &mut SchemaGenerator) -> schemars::Result {
        Ok(Schema::Object(string_object()))
    }
}

struct Never;

impl JsonSchema for Never {
    fn schema_name() -> String {
        "Never".to_owned()
    }

    fn json_schema(_gen: &mut SchemaGenerator) -> schemars::Result {
        Ok(Schema::Bool(false))
    }
}

struct Anything;

impl JsonSchema for Anything {
    fn schema_name() -> String {
        "Anything".to_owned()
    }

    fn json_schema(_gen: &mut SchemaGenerator) -> schemars::Result {
        Ok(Schema::Bool(true))
    }
}

#[test]
fn reject_all_becomes_negated_any() {
    let resolved = get_ref_or_object(Schema::Bool(false));
    assert_eq!(serde_json::to_string(&resolved).unwrap(), "{\"not\":{}}");
    let mut expected = SchemaObject::default();
    expected.not = Some(Box::new(Schema::Object(SchemaObject::default())));
    assert_eq!(resolved, RefOr::Object(expected));
}

#[test]
fn accept_all_becomes_unconstrained_object() {
    let resolved = get_ref_or_object(Schema::Bool(true));
    assert_eq!(serde_json::to_string(&resolved).unwrap(), "{}");
    assert_eq!(resolved, RefOr::Object(SchemaObject::default()));
}

#[test]
fn reference_passes_through() {
    let reference = Ref { reference: "#/components/schemas/Item".to_owned() };
    let resolved = get_ref_or_object(Schema::Ref(reference.clone()));
    assert_eq!(resolved, RefOr::Ref(reference));
    assert_eq!(
        serde_json::to_string(&resolved).unwrap(),
        "{\"$ref\":\"#/components/schemas/Item\"}"
    );
}

#[test]
fn object_passes_through() {
    let resolved = get_ref_or_object(Schema::Object(string_object()));
    assert_eq!(resolved, RefOr::Object(string_object()));
    assert_eq!(serde_json::to_string(&resolved).unwrap(), "{\"type\":\"string\"}");
}

#[test]
fn generated_schema_is_converted() {
    let outcome = resolve_generated(Ok(Schema::Bool(false)));
    let mut expected = SchemaObject::default();
    expected.not = Some(Box::new(Schema::Object(SchemaObject::default())));
    assert_eq!(outcome.unwrap(), RefOr::Object(expected));
}

#[test]
fn generation_error_is_handed_on() {
    let cause = JsonSchemaError::new("cannot describe", Schema::Bool(true));
    let text = cause.to_string();
    let outcome = resolve_generated(Err(cause));
    let error = outcome.unwrap_err();
    assert_eq!(error.cause.to_string(), text);
    assert_eq!(text, "cannot describe Schema: Bool(true)");
}

#[test]
fn no_definitions_give_an_empty_table() {
    let generator = SchemaSettings::openapi3().into_generator();
    assert!(into_definitions(generator).is_empty());
}

#[test]
fn definitions_keep_their_names_and_are_converted() {
    let mut generator = SchemaSettings::openapi3().into_generator();
    generator.subschema_for::<Item>().unwrap();
    generator.subschema_for::<Never>().unwrap();
    generator.subschema_for::<Anything>().unwrap();
    let schemas = into_definitions(generator);
    let names: Vec<&String> = schemas.keys().collect();
    assert_eq!(names, vec!["Anything", "Item", "Never"]);
    assert_eq!(schemas["Item"], RefOr::Object(string_object()));
    assert_eq!(schemas["Anything"], RefOr::Object(SchemaObject::default()));
    let mut negated = SchemaObject::default();
    negated.not = Some(Box::new(Schema::Object(SchemaObject::default())));
    assert_eq!(schemas["Never"], RefOr::Object(negated));
    assert_eq!(
        serde_json::to_string(&schemas).unwrap(),
        "{\"Anything\":{},\"Item\":{\"type\":\"string\"},\"Never\":{\"not\":{}}}"
    );
}
