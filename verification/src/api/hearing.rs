//! The `/hearing` endpoint.

use vstd::prelude::*;
use vstd::string::*;
use crate::common::{Format};
use crate::endpoint::{Endpoint, Method};
use crate::error::ConstructionError;
use crate::params::QueryParams;
use crate::render::{dec_str, placeholder_free};

verus! {

/// Represents the `/hearing` endpoint.
#[derive(Debug, Clone, Copy)]
pub struct Hearing {
    pub format: Format,
    pub offset: Option<u32>,
    pub limit: Option<u8>,
}

impl Hearing {
    pub fn builder() -> (b: HearingBuilder)
        ensures
            b == (HearingBuilder { format: None, offset: None, limit: None }),
    {
        HearingBuilder { format: None, offset: None, limit: None }
    }
}

/// Collects the fields of a `Hearing` value; `build` checks that
/// every required field was supplied.
#[derive(Debug, Clone, Copy)]
pub struct HearingBuilder {
    pub format: Option<Format>,
    pub offset: Option<u32>,
    pub limit: Option<u8>,
}

impl HearingBuilder {
    pub fn format(self, value: Format) -> (r: HearingBuilder)
        ensures
            r == (HearingBuilder { format: Some(value), ..self }),
    {
        HearingBuilder { format: Some(value), ..self }
    }

    pub fn offset(self, value: u32) -> (r: HearingBuilder)
        ensures
            r == (HearingBuilder { offset: Some(value), ..self }),
    {
        HearingBuilder { offset: Some(value), ..self }
    }

    pub fn limit(self, value: u8) -> (r: HearingBuilder)
        ensures
            r == (HearingBuilder { limit: Some(value), ..self }),
    {
        HearingBuilder { limit: Some(value), ..self }
    }

    /// Finalizes the endpoint value.  Fails, naming the first missing
    /// field, exactly when a required field was not supplied; optional
    /// fields default to absent and the format to JSON.
    pub fn build(&self) -> (r: Result<Hearing, ConstructionError>)
        ensures
            r matches Ok(e) && e == (Hearing {
                        format: if self.format is Some { self.format->0 } else { Format::Json },
                        offset: self.offset,
                        limit: self.limit,
                    }),
    {
        let format = match self.format {
            Some(f) => f,
            None => Format::Json,
        };
        Ok(
            Hearing {
                format,
                offset: self.offset,
                limit: self.limit,
            },
        )
    }
}

impl Endpoint for Hearing {
    open spec fn spec_method(&self) -> Method {
        Method::Get
    }

    open spec fn spec_path(&self) -> Seq<char> {
        "hearing"@
    }

    open spec fn spec_params(&self) -> Seq<(Seq<char>, Seq<char>)> {
        let s = seq![("format"@, self.format.tag())];
        let s = match self.offset {
            Some(v) => s.push(("offset"@, dec_str(v as nat))),
            None => s,
        };
        let s = match self.limit {
            Some(v) => s.push(("limit"@, dec_str(v as nat))),
            None => s,
        };
        s
    }

    fn method(&self) -> Method {
        Method::Get
    }

    fn endpoint(&self) -> (p: String) {
        let mut p = String::new();
        p.append("hearing");
        proof {
            assert(p@ =~= self.spec_path());
        }
        p
    }

    fn parameters(&self) -> (q: QueryParams) {
        let mut q = QueryParams::new();
        q.push("format", self.format);
        q.push_opt("offset", self.offset);
        q.push_opt("limit", self.limit);
        proof {
            assert(q@ =~= self.spec_params());
        }
        q
    }
}

/// With only required fields supplied — format defaulted, optional fields
/// absent — the parameters are exactly the default format entry.
pub proof fn lemma_required_only_params(e: Hearing)
    requires
        e.format == Format::Json,
        e.offset is None,
        e.limit is None,
    ensures
        e.spec_params() == seq![("format"@, "json"@)],
{
}

/// A rendered path never contains a placeholder brace.
pub proof fn lemma_path_placeholder_free(e: Hearing)
    ensures
        placeholder_free(e.spec_path()),
{
    reveal_strlit("hearing");
    assert(placeholder_free("hearing"@));
}

} // verus!
