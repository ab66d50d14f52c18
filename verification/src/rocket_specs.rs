//! What the library relies on from `rocket`: the HTTP method enumeration.

use rocket::http::Method;
use vstd::prelude::*;

verus! {

/// `rocket::http::Method`, an enumeration without fields. Verus reads its variants from the
/// crate itself.
#[verifier::external_type_specification]
pub struct ExMethod(Method);

/// The token that names a method on the wire.
pub open spec fn method_name(method: Method) -> Seq<char> {
    match method {
        Method::Get => "GET"@,
        Method::Put => "PUT"@,
        Method::Post => "POST"@,
        Method::Delete => "DELETE"@,
        Method::Options => "OPTIONS"@,
        Method::Head => "HEAD"@,
        Method::Trace => "TRACE"@,
        Method::Connect => "CONNECT"@,
        Method::Patch => "PATCH"@,
    }
}

/// `Method::as_str` returns the upper-case token of the method, one literal per variant.
/// Taken on trust from the match in its body.
pub assume_specification[ Method::as_str ](method: Method) -> (name: &'static str)
    ensures
        name@ == method_name(method),
;

/// The derived `PartialEq` of `Method` compares variants; the enumeration has no fields.
/// Taken on trust from the `derive` on the type.
pub assume_specification[ <Method as PartialEq>::eq ](a: &Method, b: &Method) -> (same: bool)
    ensures
        same == (*a == *b),
;

} // verus!
