//! The registry of operations: at most one operation per route, that is per pair of a path
//! and a method.

use okapi::openapi3::Operation;
use rocket::http::Method;
use vstd::prelude::*;

use crate::operation_id::{normalize_operation_id, normalized_id};
use crate::rocket_specs::method_name;

verus! {

/// One endpoint as its author describes it: where it is served and what it does.
#[derive(Debug)]
pub struct OperationInfo {
    /// The path of the route, in the format of OpenAPI path templates.
    pub path: String,
    /// The method of the route.
    pub method: Method,
    /// The description of the endpoint.
    pub operation: Operation,
}

/// The identity of a route: the text of its path, and its method.
pub type RouteKey = (Seq<char>, Method);

impl OperationInfo {
    /// The route that the description belongs to.
    pub open spec fn key(self) -> RouteKey {
        (self.path@, self.method)
    }
}

/// The stored operation is the given one with its identifier, where it has one, brought into
/// normal form; every other field is as it was given.
pub open spec fn normalizes(given: Operation, stored: Operation) -> bool {
    match given.operation_id {
        Some(id) => {
            &&& stored.operation_id matches Some(normal)
            &&& normal@ == normalized_id(id@)
            &&& stored == Operation { operation_id: stored.operation_id, ..given }
        },
        None => stored == given,
    }
}

/// Brings the identifier of an operation, where it has one, into normal form.
pub fn normalize_operation(operation: Operation) -> (stored: Operation)
    ensures
        normalizes(operation, stored),
{
    let mut stored = operation;
    match stored.operation_id {
        Some(id) => {
            stored.operation_id = Some(normalize_operation_id(id.as_str()));
        },
        None => {},
    }
    stored
}

/// No two of the entries describe the same route.
pub open spec fn distinct_routes(entries: Seq<OperationInfo>) -> bool {
    forall|i: int, j: int|
        0 <= i < j < entries.len() ==> (#[trigger] entries[i]).key() != (
        #[trigger] entries[j]).key()
}

/// Some entry describes the route.
pub open spec fn has_route(entries: Seq<OperationInfo>, key: RouteKey) -> bool {
    exists|i: int| 0 <= i < entries.len() && (#[trigger] entries[i]).key() == key
}

/// The entries as a mapping from route to operation.
pub open spec fn routes(entries: Seq<OperationInfo>) -> Map<RouteKey, Operation> {
    Map::new(
        |key: RouteKey| has_route(entries, key),
        |key: RouteKey|
            {
                let i: int = choose|i: int|
                    0 <= i < entries.len() && (#[trigger] entries[i]).key() == key;
                entries[i].operation
            },
    )
}

/// Among entries for distinct routes, each route maps to the operation of its own entry.
pub proof fn lemma_routes_index(entries: Seq<OperationInfo>, i: int)
    requires
        distinct_routes(entries),
        0 <= i < entries.len(),
    ensures
        routes(entries).contains_key(entries[i].key()),
        routes(entries)[entries[i].key()] == entries[i].operation,
{
    let key = entries[i].key();
    let j: int = choose|j: int| 0 <= j < entries.len() && (#[trigger] entries[j]).key() == key;
    assert(j == i);
}

/// Adding an entry for a new route adds that route to the mapping and changes no other.
pub proof fn lemma_routes_push(entries: Seq<OperationInfo>, info: OperationInfo)
    requires
        distinct_routes(entries),
        !has_route(entries, info.key()),
    ensures
        distinct_routes(entries.push(info)),
        routes(entries.push(info)) == routes(entries).insert(info.key(), info.operation),
{
    let more = entries.push(info);
    let last: int = entries.len() as int;
    assert(distinct_routes(more));
    let grown = routes(entries).insert(info.key(), info.operation);
    assert forall|key: RouteKey| routes(more).contains_key(key) <==> grown.contains_key(
        key,
    ) by {
        if grown.contains_key(key) {
            let i: int = if key == info.key() {
                last
            } else {
                choose|i: int| 0 <= i < last && (#[trigger] entries[i]).key() == key
            };
            assert(more[i].key() == key);
        }
    }
    assert forall|key: RouteKey| routes(more).contains_key(key) implies routes(more)[key]
        == grown[key] by {
        let i: int = choose|i: int| 0 <= i < more.len() && (#[trigger] more[i]).key() == key;
        lemma_routes_index(more, i);
        if i < last {
            lemma_routes_index(entries, i);
        }
    }
}

/// A second description was given for a route that already has one.
#[derive(Debug)]
pub struct DuplicateOperation {
    /// The path of the route.
    pub path: String,
    /// The method of the route.
    pub method: Method,
}

impl DuplicateOperation {
    /// The text of the report: the method, then the path.
    pub open spec fn message_text(self) -> Seq<char> {
        "An OpenAPI operation has already been added for "@ + method_name(self.method) + " "@
            + self.path@
    }

    /// The report of the conflict, naming the method and the path.
    pub fn message(&self) -> (text: String)
        ensures
            text@ == self.message_text(),
    {
        let mut text = String::from_str("An OpenAPI operation has already been added for ");
        text.append(self.method.as_str());
        text.append(" ");
        text.append(self.path.as_str());
        text
    }
}

/// The registry after `info` was registered: it has the new route, which it did not have
/// before, with the operation in normal form, and every other route as before.
pub open spec fn registers(
    before: Map<RouteKey, Operation>,
    info: OperationInfo,
    after: Map<RouteKey, Operation>,
) -> bool {
    &&& !before.contains_key(info.key())
    &&& after.contains_key(info.key())
    &&& normalizes(info.operation, after[info.key()])
    &&& after == before.insert(info.key(), after[info.key()])
}

/// The operations of an API, one per route at most.
#[derive(Debug)]
pub struct OperationRegistry {
    entries: Vec<OperationInfo>,
}

impl View for OperationRegistry {
    type V = Map<RouteKey, Operation>;

    closed spec fn view(&self) -> Map<RouteKey, Operation> {
        routes(self.entries@)
    }
}

impl OperationRegistry {
    #[verifier::type_invariant]
    spec fn one_operation_per_route(self) -> bool {
        distinct_routes(self.entries@)
    }

    /// A registry without operations.
    pub fn new() -> (registry: Self)
        ensures
            registry@ =~= Map::empty(),
    {
        OperationRegistry { entries: Vec::new() }
    }

    /// Whether an operation is registered for the route.
    pub fn contains(&self, path: &String, method: Method) -> (found: bool)
        ensures
            found == self@.contains_key((path@, method)),
    {
        let mut i: usize = 0;
        while i < self.entries.len()
            invariant
                i <= self.entries.len(),
                forall|j: int| 0 <= j < i ==> (#[trigger] self.entries[j]).key() != (path@, method),
            decreases self.entries.len() - i,
        {
            if self.entries[i].method == method && self.entries[i].path == *path {
                return true;
            }
            i += 1;
        }
        false
    }

    /// Registers an operation under its route, with its identifier in normal form.
    ///
    /// A route has one operation. Where the route already has one, the registry stays as it
    /// is and the conflict is returned.
    pub fn register(&mut self, info: OperationInfo) -> (outcome: Result<(), DuplicateOperation>)
        ensures
            match outcome {
                Ok(_) => registers(old(self)@, info, final(self)@),
                Err(conflict) => {
                    &&& old(self)@.contains_key(info.key())
                    &&& final(self)@ == old(self)@
                    &&& conflict.path@ == info.path@
                    &&& conflict.method == info.method
                },
            },
    {
        proof {
            use_type_invariant(&*self);
        }
        let OperationInfo { path, method, operation } = info;
        if self.contains(&path, method) {
            return Err(DuplicateOperation { path, method });
        }
        let stored = OperationInfo { path, method, operation: normalize_operation(operation) };
        proof {
            lemma_routes_push(self.entries@, stored);
        }
        // The list leaves the registry while it grows: `push` may unwind, and a call that may
        // unwind cannot borrow from a value whose type has an invariant.
        let mut entries: Vec<OperationInfo> = Vec::new();
        core::mem::swap(&mut entries, &mut self.entries);
        entries.push(stored);
        self.entries = entries;
        Ok(())
    }

    /// Hands out the entries, one per route.
    pub(crate) fn into_entries(self) -> (entries: Vec<OperationInfo>)
        ensures
            distinct_routes(entries@),
            routes(entries@) == self@,
    {
        proof {
            use_type_invariant(&self);
        }
        self.entries
    }
}

} // verus!
