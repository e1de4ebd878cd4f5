//! The `/daily-congressional-record/:volumeNumber/:issueNumber` endpoint.

use vstd::prelude::*;
use vstd::string::*;
use crate::common::{Format};
use crate::endpoint::{Endpoint, Method};
use crate::error::ConstructionError;
use crate::params::QueryParams;
use crate::render::{dec_str, placeholder_free, sl};
use crate::render::{lemma_dec_str_injective, lemma_dec_str_wf, lemma_placeholder_free_cat, lemma_sl_chars, lemma_tpl2, push_dec_u32};

verus! {

/// Represents the `/daily-congressional-record/:volumeNumber/:issueNumber` endpoint.
#[derive(Debug, Clone, Copy)]
pub struct IssueNumber {
    pub volume_number: u32,
    pub issue_number: u32,
    pub format: Format,
    pub offset: Option<u32>,
    pub limit: Option<u8>,
}

impl IssueNumber {
    pub fn builder() -> (b: IssueNumberBuilder)
        ensures
            b == (IssueNumberBuilder { volume_number: None, issue_number: None, format: None, offset: None, limit: None }),
    {
        IssueNumberBuilder { volume_number: None, issue_number: None, format: None, offset: None, limit: None }
    }
}

/// Collects the fields of a `IssueNumber` value; `build` checks that
/// every required field was supplied.
#[derive(Debug, Clone, Copy)]
pub struct IssueNumberBuilder {
    pub volume_number: Option<u32>,
    pub issue_number: Option<u32>,
    pub format: Option<Format>,
    pub offset: Option<u32>,
    pub limit: Option<u8>,
}

impl IssueNumberBuilder {
    pub fn volume_number(self, value: u32) -> (r: IssueNumberBuilder)
        ensures
            r == (IssueNumberBuilder { volume_number: Some(value), ..self }),
    {
        IssueNumberBuilder { volume_number: Some(value), ..self }
    }

    pub fn issue_number(self, value: u32) -> (r: IssueNumberBuilder)
        ensures
            r == (IssueNumberBuilder { issue_number: Some(value), ..self }),
    {
        IssueNumberBuilder { issue_number: Some(value), ..self }
    }

    pub fn format(self, value: Format) -> (r: IssueNumberBuilder)
        ensures
            r == (IssueNumberBuilder { format: Some(value), ..self }),
    {
        IssueNumberBuilder { format: Some(value), ..self }
    }

    pub fn offset(self, value: u32) -> (r: IssueNumberBuilder)
        ensures
            r == (IssueNumberBuilder { offset: Some(value), ..self }),
    {
        IssueNumberBuilder { offset: Some(value), ..self }
    }

    pub fn limit(self, value: u8) -> (r: IssueNumberBuilder)
        ensures
            r == (IssueNumberBuilder { limit: Some(value), ..self }),
    {
        IssueNumberBuilder { limit: Some(value), ..self }
    }

    /// Finalizes the endpoint value.  Fails, naming the first missing
    /// field, exactly when a required field was not supplied; optional
    /// fields default to absent and the format to JSON.
    pub fn build(&self) -> (r: Result<IssueNumber, ConstructionError>)
        ensures
            match r {
                Ok(e) => {
                    &&& self.volume_number is Some
                    &&& self.issue_number is Some
                    &&& e == (IssueNumber {
                        volume_number: self.volume_number->0,
                        issue_number: self.issue_number->0,
                        format: if self.format is Some { self.format->0 } else { Format::Json },
                        offset: self.offset,
                        limit: self.limit,
                    })
                },
                Err(err) => {
                    &&& !(self.volume_number is Some && self.issue_number is Some)
                    &&& err.field@ == (if self.volume_number is None {
                        "volume_number"@
                    } else {
                        "issue_number"@
                    })
                },
            },
    {
        let volume_number = match self.volume_number {
            Some(v) => v,
            None => {
                return Err(ConstructionError::missing("volume_number"));
            },
        };
        let issue_number = match self.issue_number {
            Some(v) => v,
            None => {
                return Err(ConstructionError::missing("issue_number"));
            },
        };
        let format = match self.format {
            Some(f) => f,
            None => Format::Json,
        };
        Ok(
            IssueNumber {
                volume_number,
                issue_number,
                format,
                offset: self.offset,
                limit: self.limit,
            },
        )
    }
}

impl Endpoint for IssueNumber {
    open spec fn spec_method(&self) -> Method {
        Method::Get
    }

    open spec fn spec_path(&self) -> Seq<char> {
        "daily-congressional-record"@ + sl() + dec_str(self.volume_number as nat) + sl() + dec_str(self.issue_number as nat)
    }

    open spec fn spec_params(&self) -> Seq<(Seq<char>, Seq<char>)> {
        let s = seq![("format"@, self.format.tag())];
        let s = match self.offset {
            Some(v) => s.push(("offset"@, dec_str(v as nat))),
            None => s,
        };
        let s = match self.limit {
            Some(v) => s.push(("limit"@, dec_str(v as nat))),
            None => s,
        };
        s
    }

    fn method(&self) -> Method {
        Method::Get
    }

    fn endpoint(&self) -> (p: String) {
        let mut p = String::new();
        p.append("daily-congressional-record");
        p.append("/");
        push_dec_u32(&mut p, self.volume_number);
        p.append("/");
        push_dec_u32(&mut p, self.issue_number);
        proof {
            assert(p@ =~= self.spec_path());
        }
        p
    }

    fn parameters(&self) -> (q: QueryParams) {
        let mut q = QueryParams::new();
        q.push("format", self.format);
        q.push_opt("offset", self.offset);
        q.push_opt("limit", self.limit);
        proof {
            assert(q@ =~= self.spec_params());
        }
        q
    }
}

/// With only required fields supplied — format defaulted, optional fields
/// absent — the parameters are exactly the default format entry.
pub proof fn lemma_required_only_params(e: IssueNumber)
    requires
        e.format == Format::Json,
        e.offset is None,
        e.limit is None,
    ensures
        e.spec_params() == seq![("format"@, "json"@)],
{
}

/// Path rendering is injective in the path fields: two values of this
/// resource with equal paths have equal path fields.
pub proof fn lemma_path_injective(a: IssueNumber, b: IssueNumber)
    requires
        a.spec_path() == b.spec_path(),
    ensures
        a.volume_number == b.volume_number,
        a.issue_number == b.issue_number,
{
    lemma_dec_str_wf(a.volume_number as nat);
    lemma_dec_str_wf(b.volume_number as nat);
    lemma_dec_str_wf(a.issue_number as nat);
    lemma_dec_str_wf(b.issue_number as nat);
    lemma_tpl2(
        "daily-congressional-record"@ + sl(),
        dec_str(a.volume_number as nat),
        dec_str(a.issue_number as nat),
        dec_str(b.volume_number as nat),
        dec_str(b.issue_number as nat),
    );
    lemma_dec_str_injective(a.volume_number as nat, b.volume_number as nat);
    lemma_dec_str_injective(a.issue_number as nat, b.issue_number as nat);
}

/// A rendered path never contains a placeholder brace.
pub proof fn lemma_path_placeholder_free(e: IssueNumber)
    ensures
        placeholder_free(e.spec_path()),
{
    reveal_strlit("daily-congressional-record");
    lemma_sl_chars();
    lemma_dec_str_wf(e.volume_number as nat);
    lemma_dec_str_wf(e.issue_number as nat);
    assert(placeholder_free("daily-congressional-record"@));
    lemma_placeholder_free_cat("daily-congressional-record"@, sl());
    lemma_placeholder_free_cat("daily-congressional-record"@ + sl(), dec_str(e.volume_number as nat));
    lemma_placeholder_free_cat("daily-congressional-record"@ + sl() + dec_str(e.volume_number as nat), sl());
    lemma_placeholder_free_cat("daily-congressional-record"@ + sl() + dec_str(e.volume_number as nat) + sl(), dec_str(e.issue_number as nat));
}

} // verus!
