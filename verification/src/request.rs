//! Assembly of one full request from an endpoint description and the
//! classification of the transport's answer.  Dispatching the request —
//! connections, TLS, timeouts — is delegated to the caller's HTTP
//! collaborator; deserialization of the response body is delegated to the
//! caller's deserializer.

use vstd::prelude::*;
use vstd::string::*;
use crate::error::HttpError;
use crate::params::QueryParams;

verus! {

/// The fixed base address of the service.
pub open spec fn spec_base_url() -> Seq<char> {
    "https://api.congress.gov/v3/"@
}

pub fn base_url() -> (r: &'static str)
    ensures
        r@ == spec_base_url(),
{
    "https://api.congress.gov/v3/"
}

/// The canonical serialization of collected parameters: `name=value`
/// pairs, in collector order, joined with `&`.  Percent-encoding of
/// reserved characters is delegated to the HTTP collaborator.
pub open spec fn query_string_of(ps: Seq<(Seq<char>, Seq<char>)>) -> Seq<char>
    decreases ps.len(),
{
    if ps.len() == 0 {
        Seq::empty()
    } else if ps.len() == 1 {
        ps[0].0 + "="@ + ps[0].1
    } else {
        query_string_of(ps.drop_last()) + "&"@ + ps.last().0 + "="@ + ps.last().1
    }
}

/// Serializes the collector into one query string.
pub fn query_string(q: &QueryParams) -> (s: String)
    ensures
        s@ == query_string_of(q@),
{
    let mut s = String::new();
    let n = q.len();
    let mut i: usize = 0;
    while i < n
        invariant
            i <= n,
            n == q@.len(),
            s@ == query_string_of(q@.take(i as int)),
        decreases n - i,
    {
        if i > 0 {
            s.append("&");
        }
        s.append(q.name_at(i).as_str());
        s.append("=");
        s.append(q.value_at(i).as_str());
        proof {
            let t = q@.take(i as int + 1);
            assert(t.drop_last() =~= q@.take(i as int));
            assert(t.last() == q@[i as int]);
            if i == 0 {
                assert(s@ =~= query_string_of(t));
            } else {
                assert(s@ =~= query_string_of(t));
            }
        }
        i = i + 1;
    }
    proof {
        assert(q@.take(n as int) =~= q@);
    }
    s
}

/// The full address of one request: the base address, the rendered path,
/// and — when any parameter was collected — `?` and the query string.
pub open spec fn url_of(path: Seq<char>, ps: Seq<(Seq<char>, Seq<char>)>) -> Seq<char> {
    if ps.len() == 0 {
        spec_base_url() + path
    } else {
        spec_base_url() + path + "?"@ + query_string_of(ps)
    }
}

/// Combines a rendered path and collected parameters into the full
/// address.
pub fn url_for(path: &str, q: &QueryParams) -> (u: String)
    ensures
        u@ == url_of(path@, q@),
{
    let mut s = String::new();
    s.append(base_url());
    s.append(path);
    if q.len() > 0 {
        s.append("?");
        let qs = query_string(q);
        s.append(qs.as_str());
        proof {
            assert(s@ =~= url_of(path@, q@));
        }
    } else {
        proof {
            assert(s@ =~= url_of(path@, q@));
        }
    }
    s
}

/// The authentication configurations the service accepts: no
/// authentication, or a token passed as the `api_key` query parameter.
#[derive(Debug, Clone)]
pub enum Auth {
    Anonymous,
    Token(String),
}

impl Auth {
    /// The query pair carrying the credential, if any.
    pub fn key_param(&self) -> (r: Option<(String, String)>)
        ensures
            match self {
                Auth::Token(t) => r matches Some(p) && p.0@ == "api_key"@ && p.1@ == t@,
                Auth::Anonymous => r is None,
            },
    {
        match self {
            Auth::Token(t) => Some(("api_key".to_owned(), t.clone())),
            Auth::Anonymous => None,
        }
    }
}

/// The parameters of one request with the credential attached: the
/// endpoint's own parameters, then the `api_key` entry when a token is
/// configured.
pub fn authed_parameters<E: crate::endpoint::Endpoint>(e: &E, auth: &Auth) -> (q: QueryParams)
    ensures
        q@ == match auth {
            Auth::Token(t) => e.spec_params().push(("api_key"@, t@)),
            Auth::Anonymous => e.spec_params(),
        },
{
    let mut q = e.parameters();
    match auth.key_param() {
        Some(p) => {
            q.push(p.0.as_str(), p.1);
        },
        None => (),
    }
    q
}

/// The full address of one endpoint's request: base, rendered path, and
/// the credential-bearing query string.
pub fn request_url<E: crate::endpoint::Endpoint>(e: &E, auth: &Auth) -> (u: String)
    ensures
        u@ == url_of(
            e.spec_path(),
            match auth {
                Auth::Token(t) => e.spec_params().push(("api_key"@, t@)),
                Auth::Anonymous => e.spec_params(),
            },
        ),
{
    let path = e.endpoint();
    let q = authed_parameters(e, auth);
    url_for(path.as_str(), &q)
}

/// True exactly for the success statuses.
pub open spec fn is_success_status(status: u16) -> bool {
    200 <= status < 300
}

/// Classifies the transport's answer: a success status passes the body
/// through unchanged, any other status becomes an `HttpError` carrying
/// that status and body.  No retry, no local recovery.
pub fn interpret_response(status: u16, body: String) -> (r: Result<String, HttpError>)
    ensures
        match r {
            Ok(b) => is_success_status(status) && b@ == body@,
            Err(e) => !is_success_status(status) && e.status == status && e.body@ == body@,
        },
{
    if 200 <= status && status < 300 {
        Ok(body)
    } else {
        Err(HttpError { status, body })
    }
}

} // verus!
