//! The `/law/:congress` endpoint.

use vstd::prelude::*;
use vstd::string::*;
use crate::common::{Format};
use crate::endpoint::{Endpoint, Method};
use crate::error::ConstructionError;
use crate::params::QueryParams;
use crate::render::{dec_str, placeholder_free, sl};
use crate::render::{lemma_dec_str_injective, lemma_dec_str_wf, lemma_placeholder_free_cat, lemma_sl_chars, lemma_tpl1, push_dec_u32};

verus! {

/// Represents the `/law/:congress` endpoint.
#[derive(Debug, Clone, Copy)]
pub struct Summaries {
    pub congress: u16,
    pub format: Format,
    pub offset: Option<u32>,
    pub limit: Option<u8>,
}

impl Summaries {
    pub fn builder() -> (b: SummariesBuilder)
        ensures
            b == (SummariesBuilder { congress: None, format: None, offset: None, limit: None }),
    {
        SummariesBuilder { congress: None, format: None, offset: None, limit: None }
    }
}

/// Collects the fields of a `Summaries` value; `build` checks that
/// every required field was supplied.
#[derive(Debug, Clone, Copy)]
pub struct SummariesBuilder {
    pub congress: Option<u16>,
    pub format: Option<Format>,
    pub offset: Option<u32>,
    pub limit: Option<u8>,
}

impl SummariesBuilder {
    pub fn congress(self, value: u16) -> (r: SummariesBuilder)
        ensures
            r == (SummariesBuilder { congress: Some(value), ..self }),
    {
        SummariesBuilder { congress: Some(value), ..self }
    }

    pub fn format(self, value: Format) -> (r: SummariesBuilder)
        ensures
            r == (SummariesBuilder { format: Some(value), ..self }),
    {
        SummariesBuilder { format: Some(value), ..self }
    }

    pub fn offset(self, value: u32) -> (r: SummariesBuilder)
        ensures
            r == (SummariesBuilder { offset: Some(value), ..self }),
    {
        SummariesBuilder { offset: Some(value), ..self }
    }

    pub fn limit(self, value: u8) -> (r: SummariesBuilder)
        ensures
            r == (SummariesBuilder { limit: Some(value), ..self }),
    {
        SummariesBuilder { limit: Some(value), ..self }
    }

    /// Finalizes the endpoint value.  Fails, naming the first missing
    /// field, exactly when a required field was not supplied; optional
    /// fields default to absent and the format to JSON.
    pub fn build(&self) -> (r: Result<Summaries, ConstructionError>)
        ensures
            match r {
                Ok(e) => {
                    &&& self.congress is Some
                    &&& e == (Summaries {
                        congress: self.congress->0,
                        format: if self.format is Some { self.format->0 } else { Format::Json },
                        offset: self.offset,
                        limit: self.limit,
                    })
                },
                Err(err) => {
                    &&& !(self.congress is Some)
                    &&& err.field@ == ({
                        "congress"@
                    })
                },
            },
    {
        let congress = match self.congress {
            Some(v) => v,
            None => {
                return Err(ConstructionError::missing("congress"));
            },
        };
        let format = match self.format {
            Some(f) => f,
            None => Format::Json,
        };
        Ok(
            Summaries {
                congress,
                format,
                offset: self.offset,
                limit: self.limit,
            },
        )
    }
}

impl Endpoint for Summaries {
    open spec fn spec_method(&self) -> Method {
        Method::Get
    }

    open spec fn spec_path(&self) -> Seq<char> {
        "law"@ + sl() + dec_str(self.congress as nat)
    }

    open spec fn spec_params(&self) -> Seq<(Seq<char>, Seq<char>)> {
        let s = seq![("format"@, self.format.tag())];
        let s = match self.offset {
            Some(v) => s.push(("offset"@, dec_str(v as nat))),
            None => s,
        };
        let s = match self.limit {
            Some(v) => s.push(("limit"@, dec_str(v as nat))),
            None => s,
        };
        s
    }

    fn method(&self) -> Method {
        Method::Get
    }

    fn endpoint(&self) -> (p: String) {
        let mut p = String::new();
        p.append("law");
        p.append("/");
        push_dec_u32(&mut p, self.congress as u32);
        proof {
            assert(p@ =~= self.spec_path());
        }
        p
    }

    fn parameters(&self) -> (q: QueryParams) {
        let mut q = QueryParams::new();
        q.push("format", self.format);
        q.push_opt("offset", self.offset);
        q.push_opt("limit", self.limit);
        proof {
            assert(q@ =~= self.spec_params());
        }
        q
    }
}

/// With only required fields supplied — format defaulted, optional fields
/// absent — the parameters are exactly the default format entry.
pub proof fn lemma_required_only_params(e: Summaries)
    requires
        e.format == Format::Json,
        e.offset is None,
        e.limit is None,
    ensures
        e.spec_params() == seq![("format"@, "json"@)],
{
}

/// Path rendering is injective in the path fields: two values of this
/// resource with equal paths have equal path fields.
pub proof fn lemma_path_injective(a: Summaries, b: Summaries)
    requires
        a.spec_path() == b.spec_path(),
    ensures
        a.congress == b.congress,
{
    lemma_dec_str_wf(a.congress as nat);
    lemma_dec_str_wf(b.congress as nat);
    lemma_tpl1(
        "law"@ + sl(),
        dec_str(a.congress as nat),
        dec_str(b.congress as nat),
    );
    lemma_dec_str_injective(a.congress as nat, b.congress as nat);
}

/// A rendered path never contains a placeholder brace.
pub proof fn lemma_path_placeholder_free(e: Summaries)
    ensures
        placeholder_free(e.spec_path()),
{
    reveal_strlit("law");
    lemma_sl_chars();
    lemma_dec_str_wf(e.congress as nat);
    assert(placeholder_free("law"@));
    lemma_placeholder_free_cat("law"@, sl());
    lemma_placeholder_free_cat("law"@ + sl(), dec_str(e.congress as nat));
}

} // verus!
