//! The generator of an OpenAPI 3 document: a registry of operations, a generator of schemas
//! for the types they mention, and the assembly of both into one document.

use okapi::openapi3::{Components, OpenApi, Operation};
use schemars::gen::{SchemaGenerator, SchemaSettings};
use schemars::JsonSchema;
use vstd::prelude::*;

use crate::assemble::{assemble_paths, assembles};
use crate::okapi_specs::{blank_sections, only_schemas};
use crate::registry::{registers, DuplicateOperation, OperationInfo, OperationRegistry, RouteKey};
use crate::resolve::{into_definitions, resolve_generated, resolves_table, GenerationError};
use crate::schemars_specs::{definitions_of, generator_settings, openapi3_dialect, subschema_for};
use crate::tables::{path_table, schema_table, DocumentSchema};

verus! {

/// How schemas are generated, and where the document is meant to be served.
#[derive(Debug, PartialEq, Clone)]
pub struct OpenApiSettings {
    /// The settings of the schema generator.
    pub schema_settings: SchemaSettings,
    /// The path at which the document is meant to be served.
    pub json_path: String,
}

/// The default settings: schemas in the dialect of OpenAPI 3, and the conventional path.
pub open spec fn default_settings(settings: OpenApiSettings) -> bool {
    &&& openapi3_dialect(settings.schema_settings)
    &&& settings.json_path@ == "/swagger/swagger.json"@
}

impl Default for OpenApiSettings {
    fn default() -> (settings: Self)
        ensures
            default_settings(settings),
    {
        OpenApiSettings {
            schema_settings: SchemaSettings::openapi3(),
            json_path: "/swagger/swagger.json".to_owned(),
        }
    }
}

impl OpenApiSettings {
    /// The default settings.
    pub fn new() -> (settings: Self)
        ensures
            default_settings(settings),
    {
        OpenApiSettings::default()
    }
}

/// Collects the operations of an API and the schemas of its types, and assembles them into a
/// document.
#[derive(Debug)]
pub struct OpenApiGenerator {
    // Where the document is meant to be served is for those who serve it: nothing here reads
    // the settings once the schema generator is made.
    #[allow(dead_code)]
    settings: OpenApiSettings,
    schema_generator: SchemaGenerator,
    operations: OperationRegistry,
}

/// What a generator holds.
pub struct OpenApiGeneratorView {
    /// The settings it was made with.
    pub settings: OpenApiSettings,
    /// Its generator of schemas.
    pub schema_generator: SchemaGenerator,
    /// The operations registered so far, by route.
    pub operations: Map<RouteKey, Operation>,
}

/// The document is the assembly of what a generator holds: version 3.0.0, the path table
/// that the registry describes, the definitions of the schema generator as the only
/// components, and defaults everywhere else.
pub open spec fn assembled_from(generator: OpenApiGeneratorView, document: OpenApi) -> bool {
    &&& document.openapi@ == "3.0.0"@
    &&& assembles(generator.operations, path_table(document.paths))
    &&& document.components matches Some(components)
    &&& resolves_table(
        definitions_of(generator.schema_generator),
        schema_table(components.schemas),
    )
    &&& only_schemas(components)
    &&& blank_sections(document)
}

impl View for OpenApiGenerator {
    type V = OpenApiGeneratorView;

    closed spec fn view(&self) -> OpenApiGeneratorView {
        OpenApiGeneratorView {
            settings: self.settings,
            schema_generator: self.schema_generator,
            operations: self.operations@,
        }
    }
}

impl OpenApiGenerator {
    /// A generator with the given settings, an empty registry and no definitions.
    pub fn new(settings: OpenApiSettings) -> (generator: Self)
        ensures
            generator@.settings == settings,
            generator_settings(generator@.schema_generator) == settings.schema_settings,
            definitions_of(generator@.schema_generator) =~= Map::empty(),
            generator@.operations =~= Map::empty(),
    {
        OpenApiGenerator {
            schema_generator: settings.schema_settings.clone().into_generator(),
            settings,
            operations: OperationRegistry::new(),
        }
    }

    /// Registers an operation under its route, with its identifier in normal form.
    ///
    /// A route has one operation. Where the route already has one, the registry stays as it
    /// is and the conflict is returned.
    pub fn add_operation(&mut self, op: OperationInfo) -> (outcome: Result<(), DuplicateOperation>)
        ensures
            final(self)@.settings == old(self)@.settings,
            final(self)@.schema_generator == old(self)@.schema_generator,
            match outcome {
                Ok(_) => registers(old(self)@.operations, op, final(self)@.operations),
                Err(conflict) => {
                    &&& old(self)@.operations.contains_key(op.key())
                    &&& final(self)@.operations == old(self)@.operations
                    &&& conflict.path@ == op.path@
                    &&& conflict.method == op.method
                },
            },
    {
        self.operations.register(op)
    }

    /// Generates the schema of `T` and converts it for the document.
    ///
    /// What the schema generator answers, and which definitions it adds on the way, is up to
    /// the generator and to `T`; an error of the generator is handed on. The registry and the
    /// settings stay as they are.
    pub fn json_schema<T: ?Sized + JsonSchema>(
        &mut self,
    ) -> (outcome: Result<DocumentSchema, GenerationError>)
        ensures
            final(self)@.settings == old(self)@.settings,
            final(self)@.operations == old(self)@.operations,
    {
        let generated = subschema_for::<T>(&mut self.schema_generator);
        resolve_generated(generated)
    }

    /// The generator of schemas.
    pub fn schema_generator(&self) -> (generator: &SchemaGenerator)
        ensures
            *generator == self@.schema_generator,
    {
        &self.schema_generator
    }

    /// Assembles the document from the registry and the definitions.
    pub fn into_openapi(self) -> (document: OpenApi)
        ensures
            assembled_from(self@, document),
    {
        let paths = assemble_paths(self.operations.into_entries());
        let mut components = Components::default();
        components.schemas = into_definitions(self.schema_generator);
        let mut document = OpenApi::default();
        document.openapi = "3.0.0".to_owned();
        document.paths = paths;
        document.components = Some(components);
        document
    }
}

} // verus!
