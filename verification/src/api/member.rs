//! The `/member` endpoint.

use vstd::prelude::*;
use vstd::string::*;
use crate::common::{Format};
use crate::endpoint::{Endpoint, Method};
use crate::error::ConstructionError;
use crate::params::QueryParams;
use crate::render::{dec_str, placeholder_free};
use crate::timestamp::Timestamp;

verus! {

/// Represents the `/member` endpoint.
#[derive(Debug, Clone, Copy)]
pub struct Member {
    pub format: Format,
    pub offset: Option<u32>,
    pub limit: Option<u8>,
    pub from_date_time: Option<Timestamp>,
    pub to_date_time: Option<Timestamp>,
    pub current_member: Option<bool>,
}

impl Member {
    pub fn builder() -> (b: MemberBuilder)
        ensures
            b == (MemberBuilder { format: None, offset: None, limit: None, from_date_time: None, to_date_time: None, current_member: None }),
    {
        MemberBuilder { format: None, offset: None, limit: None, from_date_time: None, to_date_time: None, current_member: None }
    }
}

/// Collects the fields of a `Member` value; `build` checks that
/// every required field was supplied.
#[derive(Debug, Clone, Copy)]
pub struct MemberBuilder {
    pub format: Option<Format>,
    pub offset: Option<u32>,
    pub limit: Option<u8>,
    pub from_date_time: Option<Timestamp>,
    pub to_date_time: Option<Timestamp>,
    pub current_member: Option<bool>,
}

impl MemberBuilder {
    pub fn format(self, value: Format) -> (r: MemberBuilder)
        ensures
            r == (MemberBuilder { format: Some(value), ..self }),
    {
        MemberBuilder { format: Some(value), ..self }
    }

    pub fn offset(self, value: u32) -> (r: MemberBuilder)
        ensures
            r == (MemberBuilder { offset: Some(value), ..self }),
    {
        MemberBuilder { offset: Some(value), ..self }
    }

    pub fn limit(self, value: u8) -> (r: MemberBuilder)
        ensures
            r == (MemberBuilder { limit: Some(value), ..self }),
    {
        MemberBuilder { limit: Some(value), ..self }
    }

    pub fn from_date_time(self, value: Timestamp) -> (r: MemberBuilder)
        ensures
            r == (MemberBuilder { from_date_time: Some(value), ..self }),
    {
        MemberBuilder { from_date_time: Some(value), ..self }
    }

    pub fn to_date_time(self, value: Timestamp) -> (r: MemberBuilder)
        ensures
            r == (MemberBuilder { to_date_time: Some(value), ..self }),
    {
        MemberBuilder { to_date_time: Some(value), ..self }
    }

    pub fn current_member(self, value: bool) -> (r: MemberBuilder)
        ensures
            r == (MemberBuilder { current_member: Some(value), ..self }),
    {
        MemberBuilder { current_member: Some(value), ..self }
    }

    /// Finalizes the endpoint value.  Fails, naming the first missing
    /// field, exactly when a required field was not supplied; optional
    /// fields default to absent and the format to JSON.
    pub fn build(&self) -> (r: Result<Member, ConstructionError>)
        ensures
            r matches Ok(e) && e == (Member {
                        format: if self.format is Some { self.format->0 } else { Format::Json },
                        offset: self.offset,
                        limit: self.limit,
                        from_date_time: self.from_date_time,
                        to_date_time: self.to_date_time,
                        current_member: self.current_member,
                    }),
    {
        let format = match self.format {
            Some(f) => f,
            None => Format::Json,
        };
        Ok(
            Member {
                format,
                offset: self.offset,
                limit: self.limit,
                from_date_time: self.from_date_time,
                to_date_time: self.to_date_time,
                current_member: self.current_member,
            },
        )
    }
}

impl Endpoint for Member {
    open spec fn spec_method(&self) -> Method {
        Method::Get
    }

    open spec fn spec_path(&self) -> Seq<char> {
        "member"@
    }

    open spec fn spec_params(&self) -> Seq<(Seq<char>, Seq<char>)> {
        let s = seq![("format"@, self.format.tag())];
        let s = match self.offset {
            Some(v) => s.push(("offset"@, dec_str(v as nat))),
            None => s,
        };
        let s = match self.limit {
            Some(v) => s.push(("limit"@, dec_str(v as nat))),
            None => s,
        };
        let s = match self.from_date_time {
            Some(v) => s.push(("from_date_time"@, v.rfc3339())),
            None => s,
        };
        let s = match self.to_date_time {
            Some(v) => s.push(("to_date_time"@, v.rfc3339())),
            None => s,
        };
        let s = match self.current_member {
            Some(v) => s.push(("current_member"@, if v { "true"@ } else { "false"@ })),
            None => s,
        };
        s
    }

    fn method(&self) -> Method {
        Method::Get
    }

    fn endpoint(&self) -> (p: String) {
        let mut p = String::new();
        p.append("member");
        proof {
            assert(p@ =~= self.spec_path());
        }
        p
    }

    fn parameters(&self) -> (q: QueryParams) {
        let mut q = QueryParams::new();
        q.push("format", self.format);
        q.push_opt("offset", self.offset);
        q.push_opt("limit", self.limit);
        q.push_opt("from_date_time", self.from_date_time);
        q.push_opt("to_date_time", self.to_date_time);
        q.push_opt("current_member", self.current_member);
        proof {
            assert(q@ =~= self.spec_params());
        }
        q
    }
}

/// With only required fields supplied — format defaulted, optional fields
/// absent — the parameters are exactly the default format entry.
pub proof fn lemma_required_only_params(e: Member)
    requires
        e.format == Format::Json,
        e.offset is None,
        e.limit is None,
        e.from_date_time is None,
        e.to_date_time is None,
        e.current_member is None,
    ensures
        e.spec_params() == seq![("format"@, "json"@)],
{
}

/// A rendered path never contains a placeholder brace.
pub proof fn lemma_path_placeholder_free(e: Member)
    ensures
        placeholder_free(e.spec_path()),
{
    reveal_strlit("member");
    assert(placeholder_free("member"@));
}

} // verus!
