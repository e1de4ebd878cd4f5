//! The `/nomination/:congress/:nominationNumber/committees` endpoint.

use vstd::prelude::*;
use vstd::string::*;
use crate::common::{Format};
use crate::endpoint::{Endpoint, Method};
use crate::error::ConstructionError;
use crate::params::QueryParams;
use crate::render::{dec_str, placeholder_free, sl};
use crate::render::{lemma_dec_str_injective, lemma_dec_str_wf, lemma_placeholder_free_cat, lemma_sl_chars, lemma_tpl2_lit, push_dec_u32};

verus! {

/// Represents the `/nomination/:congress/:nominationNumber/committees` endpoint.
#[derive(Debug, Clone, Copy)]
pub struct Committees {
    pub congress: u8,
    pub nomination_number: u32,
    pub format: Format,
    pub offset: Option<u32>,
    pub limit: Option<u8>,
}

impl Committees {
    pub fn builder() -> (b: CommitteesBuilder)
        ensures
            b == (CommitteesBuilder { congress: None, nomination_number: None, format: None, offset: None, limit: None }),
    {
        CommitteesBuilder { congress: None, nomination_number: None, format: None, offset: None, limit: None }
    }
}

/// Collects the fields of a `Committees` value; `build` checks that
/// every required field was supplied.
#[derive(Debug, Clone, Copy)]
pub struct CommitteesBuilder {
    pub congress: Option<u8>,
    pub nomination_number: Option<u32>,
    pub format: Option<Format>,
    pub offset: Option<u32>,
    pub limit: Option<u8>,
}

impl CommitteesBuilder {
    pub fn congress(self, value: u8) -> (r: CommitteesBuilder)
        ensures
            r == (CommitteesBuilder { congress: Some(value), ..self }),
    {
        CommitteesBuilder { congress: Some(value), ..self }
    }

    pub fn nomination_number(self, value: u32) -> (r: CommitteesBuilder)
        ensures
            r == (CommitteesBuilder { nomination_number: Some(value), ..self }),
    {
        CommitteesBuilder { nomination_number: Some(value), ..self }
    }

    pub fn format(self, value: Format) -> (r: CommitteesBuilder)
        ensures
            r == (CommitteesBuilder { format: Some(value), ..self }),
    {
        CommitteesBuilder { format: Some(value), ..self }
    }

    pub fn offset(self, value: u32) -> (r: CommitteesBuilder)
        ensures
            r == (CommitteesBuilder { offset: Some(value), ..self }),
    {
        CommitteesBuilder { offset: Some(value), ..self }
    }

    pub fn limit(self, value: u8) -> (r: CommitteesBuilder)
        ensures
            r == (CommitteesBuilder { limit: Some(value), ..self }),
    {
        CommitteesBuilder { limit: Some(value), ..self }
    }

    /// Finalizes the endpoint value.  Fails, naming the first missing
    /// field, exactly when a required field was not supplied; optional
    /// fields default to absent and the format to JSON.
    pub fn build(&self) -> (r: Result<Committees, ConstructionError>)
        ensures
            match r {
                Ok(e) => {
                    &&& self.congress is Some
                    &&& self.nomination_number is Some
                    &&& e == (Committees {
                        congress: self.congress->0,
                        nomination_number: self.nomination_number->0,
                        format: if self.format is Some { self.format->0 } else { Format::Json },
                        offset: self.offset,
                        limit: self.limit,
                    })
                },
                Err(err) => {
                    &&& !(self.congress is Some && self.nomination_number is Some)
                    &&& err.field@ == (if self.congress is None {
                        "congress"@
                    } else {
                        "nomination_number"@
                    })
                },
            },
    {
        let congress = match self.congress {
            Some(v) => v,
            None => {
                return Err(ConstructionError::missing("congress"));
            },
        };
        let nomination_number = match self.nomination_number {
            Some(v) => v,
            None => {
                return Err(ConstructionError::missing("nomination_number"));
            },
        };
        let format = match self.format {
            Some(f) => f,
            None => Format::Json,
        };
        Ok(
            Committees {
                congress,
                nomination_number,
                format,
                offset: self.offset,
                limit: self.limit,
            },
        )
    }
}

impl Endpoint for Committees {
    open spec fn spec_method(&self) -> Method {
        Method::Get
    }

    open spec fn spec_path(&self) -> Seq<char> {
        "nomination"@ + sl() + dec_str(self.congress as nat) + sl() + dec_str(self.nomination_number as nat) + sl() + "committees"@
    }

    open spec fn spec_params(&self) -> Seq<(Seq<char>, Seq<char>)> {
        let s = seq![("format"@, self.format.tag())];
        let s = match self.offset {
            Some(v) => s.push(("offset"@, dec_str(v as nat))),
            None => s,
        };
        let s = match self.limit {
            Some(v) => s.push(("limit"@, dec_str(v as nat))),
            None => s,
        };
        s
    }

    fn method(&self) -> Method {
        Method::Get
    }

    fn endpoint(&self) -> (p: String) {
        let mut p = String::new();
        p.append("nomination");
        p.append("/");
        push_dec_u32(&mut p, self.congress as u32);
        p.append("/");
        push_dec_u32(&mut p, self.nomination_number);
        p.append("/");
        p.append("committees");
        proof {
            assert(p@ =~= self.spec_path());
        }
        p
    }

    fn parameters(&self) -> (q: QueryParams) {
        let mut q = QueryParams::new();
        q.push("format", self.format);
        q.push_opt("offset", self.offset);
        q.push_opt("limit", self.limit);
        proof {
            assert(q@ =~= self.spec_params());
        }
        q
    }
}

/// With only required fields supplied — format defaulted, optional fields
/// absent — the parameters are exactly the default format entry.
pub proof fn lemma_required_only_params(e: Committees)
    requires
        e.format == Format::Json,
        e.offset is None,
        e.limit is None,
    ensures
        e.spec_params() == seq![("format"@, "json"@)],
{
}

/// Path rendering is injective in the path fields: two values of this
/// resource with equal paths have equal path fields.
pub proof fn lemma_path_injective(a: Committees, b: Committees)
    requires
        a.spec_path() == b.spec_path(),
    ensures
        a.congress == b.congress,
        a.nomination_number == b.nomination_number,
{
    lemma_dec_str_wf(a.congress as nat);
    lemma_dec_str_wf(b.congress as nat);
    lemma_dec_str_wf(a.nomination_number as nat);
    lemma_dec_str_wf(b.nomination_number as nat);
    lemma_tpl2_lit(
        "nomination"@ + sl(),
        "committees"@,
        dec_str(a.congress as nat),
        dec_str(a.nomination_number as nat),
        dec_str(b.congress as nat),
        dec_str(b.nomination_number as nat),
    );
    lemma_dec_str_injective(a.congress as nat, b.congress as nat);
    lemma_dec_str_injective(a.nomination_number as nat, b.nomination_number as nat);
}

/// A rendered path never contains a placeholder brace.
pub proof fn lemma_path_placeholder_free(e: Committees)
    ensures
        placeholder_free(e.spec_path()),
{
    reveal_strlit("nomination");
    reveal_strlit("committees");
    lemma_sl_chars();
    lemma_dec_str_wf(e.congress as nat);
    lemma_dec_str_wf(e.nomination_number as nat);
    assert(placeholder_free("nomination"@));
    assert(placeholder_free("committees"@));
    lemma_placeholder_free_cat("nomination"@, sl());
    lemma_placeholder_free_cat("nomination"@ + sl(), dec_str(e.congress as nat));
    lemma_placeholder_free_cat("nomination"@ + sl() + dec_str(e.congress as nat), sl());
    lemma_placeholder_free_cat("nomination"@ + sl() + dec_str(e.congress as nat) + sl(), dec_str(e.nomination_number as nat));
    lemma_placeholder_free_cat("nomination"@ + sl() + dec_str(e.congress as nat) + sl() + dec_str(e.nomination_number as nat), sl());
    lemma_placeholder_free_cat("nomination"@ + sl() + dec_str(e.congress as nat) + sl() + dec_str(e.nomination_number as nat) + sl(), "committees"@);
}

} // verus!
