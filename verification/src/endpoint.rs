//! The endpoint-descriptor capability: the uniform interface every
//! endpoint value implements to expose its verb, its rendered path, and
//! its query parameters.

use vstd::prelude::*;
use crate::params::QueryParams;

verus! {

/// The HTTP verb of a request.  The API surface covered here is entirely
/// read-only, so the only verb is GET.
#[derive(Debug, Clone, Copy, PartialEq, Eq, Structural)]
pub enum Method {
    Get,
}

impl Method {
    /// The verb's wire form.
    pub open spec fn tag(self) -> Seq<char> {
        match self {
            Method::Get => "GET"@,
        }
    }

    pub fn as_str(self) -> (r: &'static str)
        ensures
            r@ == self.tag(),
    {
        match self {
            Method::Get => "GET",
        }
    }
}

/// The capability every endpoint value implements.  A request is described
/// by exactly three derived properties: a verb, a resource path, and an
/// ordered parameter collection.
///
/// All three operations are pure and idempotent: their results are pinned
/// to the spec functions `spec_method`, `spec_path` and `spec_params`,
/// which depend only on the endpoint value's own fields, so repeated calls
/// return equivalent results — in particular the parameter order of
/// `parameters` is stable across calls on the same value.
pub trait Endpoint {
    /// The verb of the request.
    spec fn spec_method(&self) -> Method;

    /// The resource path, built by substituting the endpoint's required
    /// fields into its fixed template.
    spec fn spec_path(&self) -> Seq<char>;

    /// The query parameters in their fixed declared order: the format
    /// entry first, then every present optional field.
    spec fn spec_params(&self) -> Seq<(Seq<char>, Seq<char>)>;

    /// The fixed HTTP verb for this resource.
    fn method(&self) -> (m: Method)
        ensures
            m == self.spec_method(),
    ;

    /// Renders the resource path.  Never fails: required fields were
    /// validated when the value was constructed.
    fn endpoint(&self) -> (p: String)
        ensures
            p@ == self.spec_path(),
    ;

    /// Builds a fresh collector holding this endpoint's parameters.
    fn parameters(&self) -> (q: QueryParams)
        ensures
            q@ == self.spec_params(),
    ;
}

/// Parameter order is stable: any two collectors obtained from
/// `parameters` on the same endpoint value hold identical ordered pair
/// sequences, because each is pinned to `spec_params` of that value.
pub proof fn lemma_parameters_stable<E: Endpoint>(
    e: &E,
    q1: Seq<(Seq<char>, Seq<char>)>,
    q2: Seq<(Seq<char>, Seq<char>)>,
)
    requires
        q1 == e.spec_params(),
        q2 == e.spec_params(),
    ensures
        q1 == q2,
{
}

} // verus!
