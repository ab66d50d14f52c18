use okapi::openapi3::Operation;
use rocket::http::Method;
use rocket_okapi::registry::{normalize_operation, DuplicateOperation, OperationRegistry};
use rocket_okapi::OperationInfo;

fn described(path: &str, method: Method, id: Option<&str>, summary: &str) -> OperationInfo {
    let mut operation = Operation::default();
    operation.operation_id = id.map(|text| text.to_owned());
    operation.summary = Some(summary.to_owned());
    OperationInfo { path: path.to_owned(), method, operation }
}

#[test]
fn registry_starts_empty() {
    let registry = OperationRegistry::new();
    assert!(!registry.contains(&"/items".to_owned(), Method::Get));
}

#[test]
fn registered_route_is_contained() {
    let mut registry = OperationRegistry::new();
    assert!(registry.register(described("/items", Method::Get, None, "list")).is_ok());
    assert!(registry.contains(&"/items".to_owned(), Method::Get));
    assert!(!registry.contains(&"/items".to_owned(), Method::Post));
    assert!(!registry.contains(&"/item".to_owned(), Method::Get));
    assert!(!registry.contains(&"/items/".to_owned(), Method::Get));
}

#[test]
fn same_path_with_other_method_is_another_route() {
    let mut registry = OperationRegistry::new();
    assert!(registry.register(described("/items", Method::Get, None, "list")).is_ok());
    assert!(registry.register(described("/items", Method::Post, None, "create")).is_ok());
    assert!(registry.register(described("/items", Method::Connect, None, "tunnel")).is_ok());
    assert!(registry.contains(&"/items".to_owned(), Method::Post));
    assert!(registry.contains(&"/items".to_owned(), Method::Connect));
}

#[test]
fn same_method_on_other_path_is_another_route() {
    let mut registry = OperationRegistry::new();
    assert!(registry.register(described("/items", Method::Get, None, "list")).is_ok());
    assert!(registry.register(described("/users", Method::Get, None, "users")).is_ok());
}

#[test]
fn second_registration_of_a_route_is_a_conflict() {
    let mut registry = OperationRegistry::new();
    assert!(registry.register(described("/items", Method::Get, Some("a"), "first")).is_ok());
    let outcome = registry.register(described("/items", Method::Get, Some("b"), "second"));
    let conflict = outcome.unwrap_err();
    assert_eq!(conflict.path, "/items");
    assert_eq!(conflict.method, Method::Get);
}

#[test]
fn conflict_does_not_depend_on_content() {
    let mut registry = OperationRegistry::new();
    assert!(registry.register(described("/items", Method::Put, Some("same"), "same")).is_ok());
    assert!(registry.register(described("/items", Method::Put, Some("same"), "same")).is_err());
}

#[test]
fn conflict_does_not_depend_on_order() {
    let mut forward = OperationRegistry::new();
    assert!(forward.register(described("/a", Method::Get, None, "one")).is_ok());
    assert!(forward.register(described("/b", Method::Get, None, "two")).is_ok());
    assert!(forward.register(described("/a", Method::Get, None, "three")).is_err());
    let mut backward = OperationRegistry::new();
    assert!(backward.register(described("/a", Method::Get, None, "three")).is_ok());
    assert!(backward.register(described("/b", Method::Get, None, "two")).is_ok());
    assert!(backward.register(described("/a", Method::Get, None, "one")).is_err());
}

#[test]
fn conflict_message_names_method_then_path() {
    let conflict = DuplicateOperation { path: "/items".to_owned(), method: Method::Get };
    assert_eq!(
        conflict.message(),
        "An OpenAPI operation has already been added for GET /items"
    );
}

#[test]
fn conflict_message_for_every_method() {
    let cases = vec![
        (Method::Get, "GET"),
        (Method::Put, "PUT"),
        (Method::Post, "POST"),
        (Method::Delete, "DELETE"),
        (Method::Options, "OPTIONS"),
        (Method::Head, "HEAD"),
        (Method::Trace, "TRACE"),
        (Method::Connect, "CONNECT"),
        (Method::Patch, "PATCH"),
    ];
    for (method, name) in cases {
        let conflict = DuplicateOperation { path: "/p/<id>".to_owned(), method };
        assert_eq!(
            conflict.message(),
            format!("An OpenAPI operation has already been added for {} /p/<id>", name)
        );
        assert_eq!(
            conflict.message(),
            format!("An OpenAPI operation has already been added for {} {}", method, "/p/<id>")
        );
    }
}

#[test]
fn normalize_operation_rewrites_the_identifier_only() {
    let mut given = Operation::default();
    given.operation_id = Some("::routes::list_items".to_owned());
    given.summary = Some("list".to_owned());
    given.tags = vec!["items".to_owned()];
    given.deprecated = true;
    let mut expected = given.clone();
    expected.operation_id = Some("routes_list_items".to_owned());
    assert_eq!(normalize_operation(given), expected);
}

#[test]
fn normalize_operation_without_identifier() {
    let mut given = Operation::default();
    given.summary = Some("list".to_owned());
    let expected = given.clone();
    assert_eq!(normalize_operation(given), expected);
}
