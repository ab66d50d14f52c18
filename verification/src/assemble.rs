//! Assembly of the path table: every registered operation goes to the slot of its method in
//! the path item of its path.

use okapi::openapi3::{Operation, PathItem};
use rocket::http::Method;
use vstd::prelude::*;

use crate::okapi_specs::carries_only_operations;
use crate::path_item::{set_operation, with_slot};
use crate::registry::{
    distinct_routes, has_route, lemma_routes_push, routes, OperationInfo, RouteKey,
};
use crate::tables::{collect_paths, distinct_names, has_name, path_table, PathTable};

verus! {

/// Some operation is registered for the path, under whatever method.
pub open spec fn path_registered(operations: Map<RouteKey, Operation>, path: Seq<char>) -> bool {
    exists|method: Method| #[trigger] operations.contains_key((path, method))
}

/// The operation that is registered for the route, if there is one.
pub open spec fn registered(
    operations: Map<RouteKey, Operation>,
    path: Seq<char>,
    method: Method,
) -> Option<Operation> {
    if operations.contains_key((path, method)) {
        Some(operations[(path, method)])
    } else {
        None
    }
}

/// The path item is the one that the registry describes for the path: each of its eight
/// slots holds the operation registered for the path and the slot's method, or nothing where
/// none is registered, and it carries nothing else.
pub open spec fn describes(
    item: PathItem,
    operations: Map<RouteKey, Operation>,
    path: Seq<char>,
) -> bool {
    &&& item.get == registered(operations, path, Method::Get)
    &&& item.put == registered(operations, path, Method::Put)
    &&& item.post == registered(operations, path, Method::Post)
    &&& item.delete == registered(operations, path, Method::Delete)
    &&& item.options == registered(operations, path, Method::Options)
    &&& item.head == registered(operations, path, Method::Head)
    &&& item.patch == registered(operations, path, Method::Patch)
    &&& item.trace == registered(operations, path, Method::Trace)
    &&& carries_only_operations(item)
}

/// The path table is the one that the registry describes: it has a path item for exactly
/// the paths for which an operation is registered, and each is the one described for its
/// path.
pub open spec fn assembles(
    operations: Map<RouteKey, Operation>,
    paths: Map<Seq<char>, PathItem>,
) -> bool {
    &&& forall|path: Seq<char>| #[trigger]
        paths.contains_key(path) <==> path_registered(operations, path)
    &&& forall|path: Seq<char>|
        paths.contains_key(path) ==> describes(#[trigger] paths[path], operations, path)
}

/// The list of path items under construction is the assembly of the operations placed so
/// far.
spec fn assembled(
    items: Seq<(String, PathItem)>,
    operations: Map<RouteKey, Operation>,
) -> bool {
    &&& distinct_names(items)
    &&& forall|path: Seq<char>| has_name(items, path) <==> path_registered(operations, path)
    &&& forall|i: int|
        0 <= i < items.len() ==> describes((#[trigger] items[i]).1, operations, items[i].0@)
}

/// The index of the entry with the given name, if there is one.
fn position_of<V>(entries: &Vec<(String, V)>, name: &String) -> (found: Option<usize>)
    ensures
        match found {
            Some(i) => i < entries.len() && entries[i as int].0@ == name@,
            None => !has_name(entries@, name@),
        },
{
    let mut i: usize = 0;
    while i < entries.len()
        invariant
            i <= entries.len(),
            forall|j: int| 0 <= j < i ==> (#[trigger] entries[j]).0@ != name@,
        decreases entries.len() - i,
    {
        if entries[i].0 == *name {
            return Some(i);
        }
        i += 1;
    }
    None
}

/// Places one operation: finds the path item of its path, or makes a blank one, and writes
/// the operation to the slot of its method.
fn place_operation(
    items: &mut Vec<(String, PathItem)>,
    info: OperationInfo,
    Ghost(operations): Ghost<Map<RouteKey, Operation>>,
)
    requires
        assembled(old(items)@, operations),
        !operations.contains_key(info.key()),
    ensures
        assembled(final(items)@, operations.insert(info.key(), info.operation)),
{
    let ghost key = info.key();
    let ghost more = operations.insert(key, info.operation);
    let OperationInfo { path, method, operation } = info;
    let at: usize = match position_of(items, &path) {
        Some(at) => at,
        None => {
            items.push((path, PathItem::default()));
            items.len() - 1
        },
    };
    let ghost found = items@;
    assert(describes(found[at as int].1, operations, key.0)) by {
        if found.len() > old(items)@.len() {
            assert(!path_registered(operations, key.0));
        }
    }
    set_operation(&mut items[at].1, method, operation);
    proof {
        let after = items@;
        assert(forall|i: int| 0 <= i < after.len() ==> (#[trigger] after[i]).0@ == found[i].0@);
        assert forall|path: Seq<char>| has_name(after, path) <==> path_registered(more, path) by {
            if has_name(after, path) {
                let i: int = choose|i: int|
                    0 <= i < after.len() && (#[trigger] after[i]).0@ == path;
                if i < old(items)@.len() {
                    assert(has_name(old(items)@, path));
                    let m = choose|m: Method| #[trigger] operations.contains_key((path, m));
                    assert(more.contains_key((path, m)));
                } else {
                    assert(more.contains_key((path, method)));
                }
            }
            if path_registered(more, path) {
                let m = choose|m: Method| #[trigger] more.contains_key((path, m));
                if (path, m) != key {
                    assert(has_name(old(items)@, path));
                    let i: int = choose|i: int|
                        0 <= i < old(items)@.len() && (#[trigger] old(items)@[i]).0@ == path;
                    assert(after[i].0@ == path);
                }
            }
        }
        assert(forall|i: int|
            0 <= i < after.len() ==> describes((#[trigger] after[i]).1, more, after[i].0@));
        assert(distinct_names(after));
    }
}

/// Assembles the path table from the entries of a registry.
pub(crate) fn assemble_paths(entries: Vec<OperationInfo>) -> (paths: PathTable)
    requires
        distinct_routes(entries@),
    ensures
        assembles(routes(entries@), path_table(paths)),
{
    let ghost all = entries@;
    let mut items: Vec<(String, PathItem)> = Vec::new();
    for info in it: entries.into_iter()
        invariant
            it.seq() == all,
            distinct_routes(all),
            assembled(items@, routes(all.take(it.index() as int))),
    {
        let ghost done = all.take(it.index() as int);
        proof {
            assert(all.take(it.index() + 1) =~= done.push(info));
            assert(distinct_routes(done));
            assert(!has_route(done, info.key()));
            lemma_routes_push(done, info);
        }
        place_operation(&mut items, info, Ghost(routes(done)));
    }
    assert(all.take(all.len() as int) =~= all);
    let paths = collect_paths(items);
    proof {
        let table = path_table(paths);
        assert forall|path: Seq<char>| table.contains_key(path) implies describes(
            #[trigger] table[path],
            routes(all),
            path,
        ) by {
            let i: int = choose|i: int| 0 <= i < items@.len() && (#[trigger] items@[i]).0@ == path;
            assert(table[path] == items@[i].1);
        }
    }
    paths
}

} // verus!
