//! The slots of a path item: one per HTTP method that OpenAPI 3 can describe.

use okapi::openapi3::{Operation, PathItem};
use rocket::http::Method;
use vstd::prelude::*;

verus! {

/// OpenAPI 3 has a slot for every method but `CONNECT`.
pub open spec fn has_slot(method: Method) -> bool {
    method != Method::Connect
}

/// The operation that the path item holds for a method. No path item holds one for `CONNECT`.
pub open spec fn slot(item: PathItem, method: Method) -> Option<Operation> {
    match method {
        Method::Get => item.get,
        Method::Put => item.put,
        Method::Post => item.post,
        Method::Delete => item.delete,
        Method::Options => item.options,
        Method::Head => item.head,
        Method::Patch => item.patch,
        Method::Trace => item.trace,
        Method::Connect => None,
    }
}

/// The path item with the operation written to the slot of the method, and every other field
/// as it was. For `CONNECT` it is the path item itself.
pub open spec fn with_slot(item: PathItem, method: Method, operation: Operation) -> PathItem {
    match method {
        Method::Get => PathItem { get: Some(operation), ..item },
        Method::Put => PathItem { put: Some(operation), ..item },
        Method::Post => PathItem { post: Some(operation), ..item },
        Method::Delete => PathItem { delete: Some(operation), ..item },
        Method::Options => PathItem { options: Some(operation), ..item },
        Method::Head => PathItem { head: Some(operation), ..item },
        Method::Patch => PathItem { patch: Some(operation), ..item },
        Method::Trace => PathItem { trace: Some(operation), ..item },
        Method::Connect => item,
    }
}

/// Two path items agree in every field that is not a method slot.
pub open spec fn same_beside_slots(a: PathItem, b: PathItem) -> bool {
    &&& a.reference == b.reference
    &&& a.summary == b.summary
    &&& a.description == b.description
    &&& a.servers == b.servers
    &&& a.parameters == b.parameters
    &&& a.extensions == b.extensions
}

/// Writes the operation to the slot of its method. An operation for `CONNECT`, for which the
/// format has no slot, is dropped and the path item stays as it is.
///
/// The slot must be empty: a path item holds at most one operation per method, and none is
/// ever overwritten.
pub fn set_operation(path_item: &mut PathItem, method: Method, op: Operation)
    requires
        slot(*old(path_item), method) is None,
    ensures
        *final(path_item) == with_slot(*old(path_item), method, op),
{
    match method {
        Method::Get => {
            path_item.get = Some(op);
        },
        Method::Put => {
            path_item.put = Some(op);
        },
        Method::Post => {
            path_item.post = Some(op);
        },
        Method::Delete => {
            path_item.delete = Some(op);
        },
        Method::Options => {
            path_item.options = Some(op);
        },
        Method::Head => {
            path_item.head = Some(op);
        },
        Method::Patch => {
            path_item.patch = Some(op);
        },
        Method::Trace => {
            path_item.trace = Some(op);
        },
        Method::Connect => {},
    }
}

/// Writing to a slot fills that slot, leaves the seven others as they were and touches no
/// other field; writing for `CONNECT` changes nothing.
pub proof fn lemma_with_slot(item: PathItem, method: Method, operation: Operation)
    ensures
        has_slot(method) ==> slot(with_slot(item, method, operation), method) == Some(operation),
        forall|other: Method|
            other != method ==> #[trigger] slot(with_slot(item, method, operation), other) == slot(
                item,
                other,
            ),
        same_beside_slots(with_slot(item, method, operation), item),
        !has_slot(method) ==> with_slot(item, method, operation) == item,
{
}

} // verus!
