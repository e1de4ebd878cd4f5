//! The `/summaries` endpoint.

use vstd::prelude::*;
use vstd::string::*;
use crate::common::{Format, Sort};
use crate::endpoint::{Endpoint, Method};
use crate::error::ConstructionError;
use crate::params::QueryParams;
use crate::render::{dec_str, placeholder_free};
use crate::timestamp::Timestamp;

verus! {

/// Represents the `/summaries` endpoint.
#[derive(Debug, Clone, Copy)]
pub struct Summaries {
    pub format: Format,
    pub offset: Option<u32>,
    pub limit: Option<u8>,
    pub from_date_time: Option<Timestamp>,
    pub to_date_time: Option<Timestamp>,
    pub sort: Option<Sort>,
}

impl Summaries {
    pub fn builder() -> (b: SummariesBuilder)
        ensures
            b == (SummariesBuilder { format: None, offset: None, limit: None, from_date_time: None, to_date_time: None, sort: None }),
    {
        SummariesBuilder { format: None, offset: None, limit: None, from_date_time: None, to_date_time: None, sort: None }
    }
}

/// Collects the fields of a `Summaries` value; `build` checks that
/// every required field was supplied.
#[derive(Debug, Clone, Copy)]
pub struct SummariesBuilder {
    pub format: Option<Format>,
    pub offset: Option<u32>,
    pub limit: Option<u8>,
    pub from_date_time: Option<Timestamp>,
    pub to_date_time: Option<Timestamp>,
    pub sort: Option<Sort>,
}

impl SummariesBuilder {
    pub fn format(self, value: Format) -> (r: SummariesBuilder)
        ensures
            r == (SummariesBuilder { format: Some(value), ..self }),
    {
        SummariesBuilder { format: Some(value), ..self }
    }

    pub fn offset(self, value: u32) -> (r: SummariesBuilder)
        ensures
            r == (SummariesBuilder { offset: Some(value), ..self }),
    {
        SummariesBuilder { offset: Some(value), ..self }
    }

    pub fn limit(self, value: u8) -> (r: SummariesBuilder)
        ensures
            r == (SummariesBuilder { limit: Some(value), ..self }),
    {
        SummariesBuilder { limit: Some(value), ..self }
    }

    pub fn from_date_time(self, value: Timestamp) -> (r: SummariesBuilder)
        ensures
            r == (SummariesBuilder { from_date_time: Some(value), ..self }),
    {
        SummariesBuilder { from_date_time: Some(value), ..self }
    }

    pub fn to_date_time(self, value: Timestamp) -> (r: SummariesBuilder)
        ensures
            r == (SummariesBuilder { to_date_time: Some(value), ..self }),
    {
        SummariesBuilder { to_date_time: Some(value), ..self }
    }

    pub fn sort(self, value: Sort) -> (r: SummariesBuilder)
        ensures
            r == (SummariesBuilder { sort: Some(value), ..self }),
    {
        SummariesBuilder { sort: Some(value), ..self }
    }

    /// Finalizes the endpoint value.  Fails, naming the first missing
    /// field, exactly when a required field was not supplied; optional
    /// fields default to absent and the format to JSON.
    pub fn build(&self) -> (r: Result<Summaries, ConstructionError>)
        ensures
            r matches Ok(e) && e == (Summaries {
                        format: if self.format is Some { self.format->0 } else { Format::Json },
                        offset: self.offset,
                        limit: self.limit,
                        from_date_time: self.from_date_time,
                        to_date_time: self.to_date_time,
                        sort: self.sort,
                    }),
    {
        let format = match self.format {
            Some(f) => f,
            None => Format::Json,
        };
        Ok(
            Summaries {
                format,
                offset: self.offset,
                limit: self.limit,
                from_date_time: self.from_date_time,
                to_date_time: self.to_date_time,
                sort: self.sort,
            },
        )
    }
}

impl Endpoint for Summaries {
    open spec fn spec_method(&self) -> Method {
        Method::Get
    }

    open spec fn spec_path(&self) -> Seq<char> {
        "summaries"@
    }

    open spec fn spec_params(&self) -> Seq<(Seq<char>, Seq<char>)> {
        let s = seq![("format"@, self.format.tag())];
        let s = match self.offset {
            Some(v) => s.push(("offset"@, dec_str(v as nat))),
            None => s,
        };
        let s = match self.limit {
            Some(v) => s.push(("limit"@, dec_str(v as nat))),
            None => s,
        };
        let s = match self.from_date_time {
            Some(v) => s.push(("from_date_time"@, v.rfc3339())),
            None => s,
        };
        let s = match self.to_date_time {
            Some(v) => s.push(("to_date_time"@, v.rfc3339())),
            None => s,
        };
        let s = match self.sort {
            Some(v) => s.push(("sort"@, v.tag())),
            None => s,
        };
        s
    }

    fn method(&self) -> Method {
        Method::Get
    }

    fn endpoint(&self) -> (p: String) {
        let mut p = String::new();
        p.append("summaries");
        proof {
            assert(p@ =~= self.spec_path());
        }
        p
    }

    fn parameters(&self) -> (q: QueryParams) {
        let mut q = QueryParams::new();
        q.push("format", self.format);
        q.push_opt("offset", self.offset);
        q.push_opt("limit", self.limit);
        q.push_opt("from_date_time", self.from_date_time);
        q.push_opt("to_date_time", self.to_date_time);
        q.push_opt("sort", self.sort);
        proof {
            assert(q@ =~= self.spec_params());
        }
        q
    }
}

/// With only required fields supplied — format defaulted, optional fields
/// absent — the parameters are exactly the default format entry.
pub proof fn lemma_required_only_params(e: Summaries)
    requires
        e.format == Format::Json,
        e.offset is None,
        e.limit is None,
        e.from_date_time is None,
        e.to_date_time is None,
        e.sort is None,
    ensures
        e.spec_params() == seq![("format"@, "json"@)],
{
}

/// A rendered path never contains a placeholder brace.
pub proof fn lemma_path_placeholder_free(e: Summaries)
    ensures
        placeholder_free(e.spec_path()),
{
    reveal_strlit("summaries");
    assert(placeholder_free("summaries"@));
}

} // verus!
