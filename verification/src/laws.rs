//! What holds of every run of registrations and of every assembly.
//!
//! The contracts of `OperationRegistry::register` and `OpenApiGenerator::into_openapi` speak
//! of one call each. The facts below follow from them for whole runs: a run is a list of
//! descriptions, registered one after another into a registry that starts empty.

use okapi::openapi3::{Operation, PathItem};
use rocket::http::Method;
use vstd::prelude::*;

use crate::assemble::{assembles, describes, path_registered, registered};
use crate::okapi_specs::blank_path_item;
use crate::path_item::{has_slot, slot};
use crate::registry::{distinct_routes, normalizes, registers, OperationInfo, RouteKey};

verus! {

/// What one call of `register` does to the registry, by its contract: it adds the new route,
/// or, where the route has an operation already, it changes nothing and reports the conflict.
pub open spec fn registration_step(
    before: Map<RouteKey, Operation>,
    info: OperationInfo,
    after: Map<RouteKey, Operation>,
) -> bool {
    if before.contains_key(info.key()) {
        after == before
    } else {
        registers(before, info, after)
    }
}

/// The states of a registry during a run: `states[i]` is the registry before the
/// registration of `infos[i]`, and the last state is the registry after the run.
pub open spec fn registration_run(
    infos: Seq<OperationInfo>,
    states: Seq<Map<RouteKey, Operation>>,
) -> bool {
    &&& states.len() == infos.len() + 1
    &&& states[0] == Map::<RouteKey, Operation>::empty()
    &&& forall|i: int|
        0 <= i < infos.len() ==> registration_step(states[i], #[trigger] infos[i], states[i + 1])
}

/// During a run, the registry has a route exactly if one of the descriptions registered so
/// far is for that route.
pub proof fn lemma_run_routes(
    infos: Seq<OperationInfo>,
    states: Seq<Map<RouteKey, Operation>>,
    k: int,
    key: RouteKey,
)
    requires
        registration_run(infos, states),
        0 <= k <= infos.len(),
    ensures
        states[k].contains_key(key) <==> exists|i: int|
            0 <= i < k && (#[trigger] infos[i]).key() == key,
    decreases k,
{
    if k > 0 {
        lemma_run_routes(infos, states, k - 1, key);
        assert(registration_step(states[k - 1], infos[k - 1], states[k]));
        if states[k - 1].contains_key(key) {
            let i: int = choose|i: int| 0 <= i < k - 1 && (#[trigger] infos[i]).key() == key;
            assert(0 <= i < k && infos[i].key() == key);
        }
    }
}

/// A description for a route that was registered before is rejected, whatever it holds and
/// whatever was registered in between: the registry has the route already, and stays as it
/// is.
pub proof fn lemma_second_registration_conflicts(
    infos: Seq<OperationInfo>,
    states: Seq<Map<RouteKey, Operation>>,
    first: int,
    second: int,
)
    requires
        registration_run(infos, states),
        0 <= first < second < infos.len(),
        infos[first].key() == infos[second].key(),
    ensures
        states[second].contains_key(infos[second].key()),
        states[second + 1] == states[second],
{
    lemma_run_routes(infos, states, second, infos[second].key());
}

/// In a run of descriptions for distinct routes, every registration succeeds.
pub proof fn lemma_distinct_registrations_succeed(
    infos: Seq<OperationInfo>,
    states: Seq<Map<RouteKey, Operation>>,
    i: int,
)
    requires
        distinct_routes(infos),
        registration_run(infos, states),
        0 <= i < infos.len(),
    ensures
        registers(states[i], infos[i], states[i + 1]),
{
    lemma_run_routes(infos, states, i, infos[i].key());
    if states[i].contains_key(infos[i].key()) {
        let j: int = choose|j: int| 0 <= j < i && (#[trigger] infos[j]).key() == infos[i].key();
        assert(infos[j].key() != infos[i].key());
    }
}

/// In a run of descriptions for distinct routes, what was registered stays: from its
/// registration on, the registry maps the route of a description to that description's
/// operation in normal form.
pub proof fn lemma_registered_operation_stays(
    infos: Seq<OperationInfo>,
    states: Seq<Map<RouteKey, Operation>>,
    i: int,
    k: int,
)
    requires
        distinct_routes(infos),
        registration_run(infos, states),
        0 <= i < k <= infos.len(),
    ensures
        states[k].contains_key(infos[i].key()),
        normalizes(infos[i].operation, states[k][infos[i].key()]),
    decreases k,
{
    lemma_distinct_registrations_succeed(infos, states, k - 1);
    if k - 1 > i {
        lemma_registered_operation_stays(infos, states, i, k - 1);
    }
}

/// In an assembled path table, a slot holds an operation exactly if one is registered for
/// the path and the method of the slot, and then it holds that operation. A path has a path
/// item exactly if some operation is registered for it.
pub proof fn lemma_assembled_slot(
    operations: Map<RouteKey, Operation>,
    paths: Map<Seq<char>, PathItem>,
    path: Seq<char>,
    method: Method,
)
    requires
        assembles(operations, paths),
    ensures
        operations.contains_key((path, method)) ==> paths.contains_key(path),
        paths.contains_key(path) && has_slot(method) ==> slot(paths[path], method) == registered(
            operations,
            path,
            method,
        ),
{
    if paths.contains_key(path) {
        assert(describes(paths[path], operations, path));
    }
}

/// The registry determines the assembled path table, whatever the order in which its
/// operations were registered: two assemblies of one registry have path items for the same
/// paths, with the same operation in every slot.
pub proof fn lemma_assembly_is_determined(
    operations: Map<RouteKey, Operation>,
    first: Map<Seq<char>, PathItem>,
    second: Map<Seq<char>, PathItem>,
)
    requires
        assembles(operations, first),
        assembles(operations, second),
    ensures
        first.dom() == second.dom(),
        forall|path: Seq<char>, method: Method|
            first.contains_key(path) ==> #[trigger] slot(first[path], method) == slot(
                second[path],
                method,
            ),
{
    assert(first.dom() =~= second.dom());
    assert forall|path: Seq<char>, method: Method| first.contains_key(path) implies #[trigger] slot(
        first[path],
        method,
    ) == slot(second[path], method) by {
        assert(describes(first[path], operations, path));
        assert(describes(second[path], operations, path));
    }
}

/// After a run of descriptions for distinct routes, the assembled path table holds the
/// operation of every description, in normal form, in the slot of its method in the path
/// item of its path. Only a description for `CONNECT` has no slot.
pub proof fn lemma_every_registration_is_assembled(
    infos: Seq<OperationInfo>,
    states: Seq<Map<RouteKey, Operation>>,
    paths: Map<Seq<char>, PathItem>,
    i: int,
)
    requires
        distinct_routes(infos),
        registration_run(infos, states),
        assembles(states.last(), paths),
        0 <= i < infos.len(),
    ensures
        paths.contains_key(infos[i].path@),
        has_slot(infos[i].method) ==> {
            &&& slot(paths[infos[i].path@], infos[i].method) matches Some(stored)
            &&& normalizes(infos[i].operation, stored)
        },
{
    lemma_registered_operation_stays(infos, states, i, infos.len() as int);
    lemma_assembled_slot(states.last(), paths, infos[i].path@, infos[i].method);
}

/// An operation for `CONNECT` leaves no trace in a path item: the path item that the
/// registry describes for a path is the same with and without such an operation.
pub proof fn lemma_connect_is_not_described(
    operations: Map<RouteKey, Operation>,
    path: Seq<char>,
    operation: Operation,
    item: PathItem,
    at: Seq<char>,
)
    ensures
        describes(item, operations.insert((path, Method::Connect), operation), at) == describes(
            item,
            operations,
            at,
        ),
{
}

/// Registering an operation for `CONNECT` on a path that has other operations changes
/// nothing in the assembled path table. On a path without other operations, it adds a blank
/// path item for that path and changes nothing else.
pub proof fn lemma_connect_changes_no_slot(
    operations: Map<RouteKey, Operation>,
    paths: Map<Seq<char>, PathItem>,
    path: Seq<char>,
    operation: Operation,
    blank: PathItem,
)
    requires
        assembles(operations, paths),
        !operations.contains_key((path, Method::Connect)),
        blank_path_item(blank),
    ensures
        path_registered(operations, path) ==> assembles(
            operations.insert((path, Method::Connect), operation),
            paths,
        ),
        !path_registered(operations, path) ==> assembles(
            operations.insert((path, Method::Connect), operation),
            paths.insert(path, blank),
        ),
{
    let more = operations.insert((path, Method::Connect), operation);
    assert forall|at: Seq<char>| path_registered(more, at) <==> (path_registered(operations, at)
        || at == path) by {
        if path_registered(operations, at) {
            let m = choose|m: Method| #[trigger] operations.contains_key((at, m));
            assert(more.contains_key((at, m)));
        }
        if at == path {
            assert(more.contains_key((at, Method::Connect)));
        }
    }
    assert forall|at: Seq<char>, item: PathItem|
        describes(item, more, at) == describes(item, operations, at) by {
        lemma_connect_is_not_described(operations, path, operation, item, at);
    }
    if !path_registered(operations, path) {
        assert forall|m: Method| registered(operations, path, m) is None by {
            if operations.contains_key((path, m)) {
                assert(path_registered(operations, path));
            }
        }
        assert(describes(blank, operations, path));
    }
}

} // verus!
