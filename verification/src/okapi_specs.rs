//! What the library relies on from `okapi`: the OpenAPI 3 document model.
//!
//! The structures that the assembly reads or fills are declared with their fields, so that
//! Verus checks every access against the crate's own definitions. The structures that are only
//! carried along are declared opaque.

use okapi::openapi3::{
    Callback, Components, Contact, Example, ExternalDocs, Header, Info, License, Link, OpenApi,
    Operation, Parameter, PathItem, Ref, RefOr, RequestBody, Response, Responses, SecurityScheme,
    Server, Tag,
};
use std::collections::BTreeMap;
use vstd::prelude::*;

verus! {

/// `okapi::openapi3::OpenApi`, the document. Declared with its fields.
#[verifier::external_type_specification]
pub struct ExOpenApi(OpenApi);

/// `okapi::openapi3::Info`, the info section of a document. Declared with its fields.
#[verifier::external_type_specification]
pub struct ExInfo(Info);

/// `okapi::openapi3::Components`, the reusable parts of a document. Declared with its
/// fields.
#[verifier::external_type_specification]
pub struct ExComponents(Components);

/// `okapi::openapi3::PathItem`, what a document holds for one path. Declared with its
/// fields.
#[verifier::external_type_specification]
pub struct ExPathItem(PathItem);

/// `okapi::openapi3::Operation`, the description of one endpoint. Declared with its
/// fields.
#[verifier::external_type_specification]
pub struct ExOperation(Operation);

/// `okapi::openapi3::RefOr`, a reference or a value. Declared with its variants.
#[verifier::external_type_specification]
pub struct ExRefOr<T>(RefOr<T>);

/// `okapi::openapi3::Ref`, a reference by name. Opaque.
#[verifier::external_type_specification]
#[verifier::external_body]
pub struct ExRef(Ref);

/// `okapi::openapi3::Contact`. Opaque.
#[verifier::external_type_specification]
#[verifier::external_body]
pub struct ExContact(Contact);

/// `okapi::openapi3::License`. Opaque.
#[verifier::external_type_specification]
#[verifier::external_body]
pub struct ExLicense(License);

/// `okapi::openapi3::Server`. Opaque.
#[verifier::external_type_specification]
#[verifier::external_body]
pub struct ExServer(Server);

/// `okapi::openapi3::Tag`. Opaque.
#[verifier::external_type_specification]
#[verifier::external_body]
pub struct ExTag(Tag);

/// `okapi::openapi3::ExternalDocs`. Opaque.
#[verifier::external_type_specification]
#[verifier::external_body]
pub struct ExExternalDocs(ExternalDocs);

/// `okapi::openapi3::Parameter`. Opaque.
#[verifier::external_type_specification]
#[verifier::external_body]
pub struct ExParameter(Parameter);

/// `okapi::openapi3::RequestBody`. Opaque.
#[verifier::external_type_specification]
#[verifier::external_body]
pub struct ExRequestBody(RequestBody);

/// `okapi::openapi3::Responses`. Opaque.
#[verifier::external_type_specification]
#[verifier::external_body]
pub struct ExResponses(Responses);

/// `okapi::openapi3::Response`. Opaque.
#[verifier::external_type_specification]
#[verifier::external_body]
pub struct ExResponse(Response);

/// `okapi::openapi3::Callback`. Opaque.
#[verifier::external_type_specification]
#[verifier::external_body]
pub struct ExCallback(Callback);

/// `okapi::openapi3::Example`. Opaque.
#[verifier::external_type_specification]
#[verifier::external_body]
pub struct ExExample(Example);

/// `okapi::openapi3::Header`. Opaque.
#[verifier::external_type_specification]
#[verifier::external_body]
pub struct ExHeader(Header);

/// `okapi::openapi3::SecurityScheme`. Opaque.
#[verifier::external_type_specification]
#[verifier::external_body]
pub struct ExSecurityScheme(SecurityScheme);

/// `okapi::openapi3::Link`. Opaque.
#[verifier::external_type_specification]
#[verifier::external_body]
pub struct ExLink(Link);

/// `serde_json::Value`, which the document model holds in its extension tables. Opaque.
#[verifier::external_type_specification]
#[verifier::external_body]
pub struct ExJsonValue(serde_json::Value);

/// A table keyed by text that holds nothing.
pub open spec fn empty_table<V>(table: BTreeMap<String, V>) -> bool {
    table@ == Map::<String, V>::empty()
}

/// A path item that carries nothing beside the operations in its slots: no reference, no
/// texts, no servers, no parameters, no extensions.
pub open spec fn carries_only_operations(item: PathItem) -> bool {
    &&& item.reference is None
    &&& item.summary is None
    &&& item.description is None
    &&& item.servers is None
    &&& item.parameters@.len() == 0
    &&& empty_table(item.extensions)
}

/// A path item in which every field has the value that `Default` gives it: no operation in
/// any of the eight slots, and nothing beside them.
pub open spec fn blank_path_item(item: PathItem) -> bool {
    &&& item.get is None
    &&& item.put is None
    &&& item.post is None
    &&& item.delete is None
    &&& item.options is None
    &&& item.head is None
    &&& item.patch is None
    &&& item.trace is None
    &&& carries_only_operations(item)
}

/// The derived `Default` of `PathItem` fills every field with that field's default.
/// Taken on trust from the `derive` on the structure.
pub assume_specification[ <PathItem as Default>::default ]() -> (item: PathItem)
    ensures
        blank_path_item(item),
;

/// The sections of a components object other than its schema table are empty.
pub open spec fn only_schemas(components: Components) -> bool {
    &&& empty_table(components.responses)
    &&& empty_table(components.parameters)
    &&& empty_table(components.examples)
    &&& empty_table(components.request_bodies)
    &&& empty_table(components.headers)
    &&& empty_table(components.security_schemes)
    &&& empty_table(components.links)
    &&& empty_table(components.callbacks)
    &&& empty_table(components.extensions)
}

/// The derived `Default` of `Components` gives empty tables throughout.
/// Taken on trust from the `derive` on the structure.
pub assume_specification[ <Components as Default>::default ]() -> (components: Components)
    ensures
        empty_table(components.schemas),
        only_schemas(components),
;

/// An info object in which every field has its default.
pub open spec fn blank_info(info: Info) -> bool {
    &&& info.title@.len() == 0
    &&& info.description is None
    &&& info.terms_of_service is None
    &&& info.contact is None
    &&& info.license is None
    &&& info.version@.len() == 0
    &&& empty_table(info.extensions)
}

/// The sections of a document other than its version, paths and components have their
/// defaults.
pub open spec fn blank_sections(document: OpenApi) -> bool {
    &&& blank_info(document.info)
    &&& document.servers@.len() == 0
    &&& document.security@.len() == 0
    &&& document.tags@.len() == 0
    &&& document.external_docs is None
    &&& empty_table(document.extensions)
}

/// The derived `Default` of `OpenApi` gives an empty version string, no paths, no components
/// and defaults in every other section.
/// Taken on trust from the `derive` on the structure and on `Info`.
pub assume_specification[ <OpenApi as Default>::default ]() -> (document: OpenApi)
    ensures
        document.openapi@.len() == 0,
        empty_table(document.paths),
        document.components is None,
        blank_sections(document),
;

} // verus!
