//! The `/summaries/:congress/:billType` endpoint.

use vstd::prelude::*;
use vstd::string::*;
use crate::common::{Format, Sort};
use crate::common::{lemma_bill_type_tag_injective, lemma_bill_type_tag_wf};
use crate::endpoint::{Endpoint, Method};
use crate::error::ConstructionError;
use crate::params::QueryParams;
use crate::render::{dec_str, placeholder_free, sl};
use crate::timestamp::Timestamp;
use crate::render::{lemma_dec_str_injective, lemma_dec_str_wf, lemma_placeholder_free_cat, lemma_sl_chars, lemma_tpl2, push_dec_u32};

verus! {

/// Represents the `/summaries/:congress/:billType` endpoint.
#[derive(Debug, Clone, Copy)]
pub struct BillType {
    pub congress: u16,
    pub bill_type: crate::common::BillType,
    pub format: Format,
    pub offset: Option<u32>,
    pub limit: Option<u8>,
    pub from_date_time: Option<Timestamp>,
    pub to_date_time: Option<Timestamp>,
    pub sort: Option<Sort>,
}

impl BillType {
    pub fn builder() -> (b: BillTypeBuilder)
        ensures
            b == (BillTypeBuilder { congress: None, bill_type: None, format: None, offset: None, limit: None, from_date_time: None, to_date_time: None, sort: None }),
    {
        BillTypeBuilder { congress: None, bill_type: None, format: None, offset: None, limit: None, from_date_time: None, to_date_time: None, sort: None }
    }
}

/// Collects the fields of a `BillType` value; `build` checks that
/// every required field was supplied.
#[derive(Debug, Clone, Copy)]
pub struct BillTypeBuilder {
    pub congress: Option<u16>,
    pub bill_type: Option<crate::common::BillType>,
    pub format: Option<Format>,
    pub offset: Option<u32>,
    pub limit: Option<u8>,
    pub from_date_time: Option<Timestamp>,
    pub to_date_time: Option<Timestamp>,
    pub sort: Option<Sort>,
}

impl BillTypeBuilder {
    pub fn congress(self, value: u16) -> (r: BillTypeBuilder)
        ensures
            r == (BillTypeBuilder { congress: Some(value), ..self }),
    {
        BillTypeBuilder { congress: Some(value), ..self }
    }

    pub fn bill_type(self, value: crate::common::BillType) -> (r: BillTypeBuilder)
        ensures
            r == (BillTypeBuilder { bill_type: Some(value), ..self }),
    {
        BillTypeBuilder { bill_type: Some(value), ..self }
    }

    pub fn format(self, value: Format) -> (r: BillTypeBuilder)
        ensures
            r == (BillTypeBuilder { format: Some(value), ..self }),
    {
        BillTypeBuilder { format: Some(value), ..self }
    }

    pub fn offset(self, value: u32) -> (r: BillTypeBuilder)
        ensures
            r == (BillTypeBuilder { offset: Some(value), ..self }),
    {
        BillTypeBuilder { offset: Some(value), ..self }
    }

    pub fn limit(self, value: u8) -> (r: BillTypeBuilder)
        ensures
            r == (BillTypeBuilder { limit: Some(value), ..self }),
    {
        BillTypeBuilder { limit: Some(value), ..self }
    }

    pub fn from_date_time(self, value: Timestamp) -> (r: BillTypeBuilder)
        ensures
            r == (BillTypeBuilder { from_date_time: Some(value), ..self }),
    {
        BillTypeBuilder { from_date_time: Some(value), ..self }
    }

    pub fn to_date_time(self, value: Timestamp) -> (r: BillTypeBuilder)
        ensures
            r == (BillTypeBuilder { to_date_time: Some(value), ..self }),
    {
        BillTypeBuilder { to_date_time: Some(value), ..self }
    }

    pub fn sort(self, value: Sort) -> (r: BillTypeBuilder)
        ensures
            r == (BillTypeBuilder { sort: Some(value), ..self }),
    {
        BillTypeBuilder { sort: Some(value), ..self }
    }

    /// Finalizes the endpoint value.  Fails, naming the first missing
    /// field, exactly when a required field was not supplied; optional
    /// fields default to absent and the format to JSON.
    pub fn build(&self) -> (r: Result<BillType, ConstructionError>)
        ensures
            match r {
                Ok(e) => {
                    &&& self.congress is Some
                    &&& self.bill_type is Some
                    &&& e == (BillType {
                        congress: self.congress->0,
                        bill_type: self.bill_type->0,
                        format: if self.format is Some { self.format->0 } else { Format::Json },
                        offset: self.offset,
                        limit: self.limit,
                        from_date_time: self.from_date_time,
                        to_date_time: self.to_date_time,
                        sort: self.sort,
                    })
                },
                Err(err) => {
                    &&& !(self.congress is Some && self.bill_type is Some)
                    &&& err.field@ == (if self.congress is None {
                        "congress"@
                    } else {
                        "bill_type"@
                    })
                },
            },
    {
        let congress = match self.congress {
            Some(v) => v,
            None => {
                return Err(ConstructionError::missing("congress"));
            },
        };
        let bill_type = match self.bill_type {
            Some(v) => v,
            None => {
                return Err(ConstructionError::missing("bill_type"));
            },
        };
        let format = match self.format {
            Some(f) => f,
            None => Format::Json,
        };
        Ok(
            BillType {
                congress,
                bill_type,
                format,
                offset: self.offset,
                limit: self.limit,
                from_date_time: self.from_date_time,
                to_date_time: self.to_date_time,
                sort: self.sort,
            },
        )
    }
}

impl Endpoint for BillType {
    open spec fn spec_method(&self) -> Method {
        Method::Get
    }

    open spec fn spec_path(&self) -> Seq<char> {
        "summaries"@ + sl() + dec_str(self.congress as nat) + sl() + self.bill_type.tag()
    }

    open spec fn spec_params(&self) -> Seq<(Seq<char>, Seq<char>)> {
        let s = seq![("format"@, self.format.tag())];
        let s = match self.offset {
            Some(v) => s.push(("offset"@, dec_str(v as nat))),
            None => s,
        };
        let s = match self.limit {
            Some(v) => s.push(("limit"@, dec_str(v as nat))),
            None => s,
        };
        let s = match self.from_date_time {
            Some(v) => s.push(("from_date_time"@, v.rfc3339())),
            None => s,
        };
        let s = match self.to_date_time {
            Some(v) => s.push(("to_date_time"@, v.rfc3339())),
            None => s,
        };
        let s = match self.sort {
            Some(v) => s.push(("sort"@, v.tag())),
            None => s,
        };
        s
    }

    fn method(&self) -> Method {
        Method::Get
    }

    fn endpoint(&self) -> (p: String) {
        let mut p = String::new();
        p.append("summaries");
        p.append("/");
        push_dec_u32(&mut p, self.congress as u32);
        p.append("/");
        p.append(self.bill_type.as_str());
        proof {
            assert(p@ =~= self.spec_path());
        }
        p
    }

    fn parameters(&self) -> (q: QueryParams) {
        let mut q = QueryParams::new();
        q.push("format", self.format);
        q.push_opt("offset", self.offset);
        q.push_opt("limit", self.limit);
        q.push_opt("from_date_time", self.from_date_time);
        q.push_opt("to_date_time", self.to_date_time);
        q.push_opt("sort", self.sort);
        proof {
            assert(q@ =~= self.spec_params());
        }
        q
    }
}

/// With only required fields supplied — format defaulted, optional fields
/// absent — the parameters are exactly the default format entry.
pub proof fn lemma_required_only_params(e: BillType)
    requires
        e.format == Format::Json,
        e.offset is None,
        e.limit is None,
        e.from_date_time is None,
        e.to_date_time is None,
        e.sort is None,
    ensures
        e.spec_params() == seq![("format"@, "json"@)],
{
}

/// Path rendering is injective in the path fields: two values of this
/// resource with equal paths have equal path fields.
pub proof fn lemma_path_injective(a: BillType, b: BillType)
    requires
        a.spec_path() == b.spec_path(),
    ensures
        a.congress == b.congress,
        a.bill_type == b.bill_type,
{
    lemma_dec_str_wf(a.congress as nat);
    lemma_dec_str_wf(b.congress as nat);
    lemma_bill_type_tag_wf(a.bill_type);
    lemma_bill_type_tag_wf(b.bill_type);
    lemma_tpl2(
        "summaries"@ + sl(),
        dec_str(a.congress as nat),
        a.bill_type.tag(),
        dec_str(b.congress as nat),
        b.bill_type.tag(),
    );
    lemma_dec_str_injective(a.congress as nat, b.congress as nat);
    lemma_bill_type_tag_injective(a.bill_type, b.bill_type);
}

/// A rendered path never contains a placeholder brace.
pub proof fn lemma_path_placeholder_free(e: BillType)
    ensures
        placeholder_free(e.spec_path()),
{
    reveal_strlit("summaries");
    lemma_sl_chars();
    lemma_dec_str_wf(e.congress as nat);
    lemma_bill_type_tag_wf(e.bill_type);
    assert(placeholder_free("summaries"@));
    lemma_placeholder_free_cat("summaries"@, sl());
    lemma_placeholder_free_cat("summaries"@ + sl(), dec_str(e.congress as nat));
    lemma_placeholder_free_cat("summaries"@ + sl() + dec_str(e.congress as nat), sl());
    lemma_placeholder_free_cat("summaries"@ + sl() + dec_str(e.congress as nat) + sl(), e.bill_type.tag());
}

} // verus!
