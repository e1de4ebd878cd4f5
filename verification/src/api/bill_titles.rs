//! The `/bill/:congress/:billType/:billNumber/titles` endpoint.

use vstd::prelude::*;
use vstd::string::*;
use crate::common::{BillType, Format};
use crate::common::{lemma_bill_type_tag_injective, lemma_bill_type_tag_wf};
use crate::endpoint::{Endpoint, Method};
use crate::error::ConstructionError;
use crate::params::QueryParams;
use crate::render::{dec_str, placeholder_free, sl};
use crate::timestamp::Timestamp;
use crate::render::{lemma_dec_str_injective, lemma_dec_str_wf, lemma_placeholder_free_cat, lemma_sl_chars, lemma_tpl3_lit, push_dec_u32};

verus! {

/// Represents the `/bill/:congress/:billType/:billNumber/titles` endpoint.
#[derive(Debug, Clone, Copy)]
pub struct Titles {
    pub congress: u8,
    pub bill_type: BillType,
    pub bill_number: u32,
    pub format: Format,
    pub offset: Option<u32>,
    pub limit: Option<u8>,
    pub from_date_time: Option<Timestamp>,
    pub to_date_time: Option<Timestamp>,
}

impl Titles {
    pub fn builder() -> (b: TitlesBuilder)
        ensures
            b == (TitlesBuilder { congress: None, bill_type: None, bill_number: None, format: None, offset: None, limit: None, from_date_time: None, to_date_time: None }),
    {
        TitlesBuilder { congress: None, bill_type: None, bill_number: None, format: None, offset: None, limit: None, from_date_time: None, to_date_time: None }
    }
}

/// Collects the fields of a `Titles` value; `build` checks that
/// every required field was supplied.
#[derive(Debug, Clone, Copy)]
pub struct TitlesBuilder {
    pub congress: Option<u8>,
    pub bill_type: Option<BillType>,
    pub bill_number: Option<u32>,
    pub format: Option<Format>,
    pub offset: Option<u32>,
    pub limit: Option<u8>,
    pub from_date_time: Option<Timestamp>,
    pub to_date_time: Option<Timestamp>,
}

impl TitlesBuilder {
    pub fn congress(self, value: u8) -> (r: TitlesBuilder)
        ensures
            r == (TitlesBuilder { congress: Some(value), ..self }),
    {
        TitlesBuilder { congress: Some(value), ..self }
    }

    pub fn bill_type(self, value: BillType) -> (r: TitlesBuilder)
        ensures
            r == (TitlesBuilder { bill_type: Some(value), ..self }),
    {
        TitlesBuilder { bill_type: Some(value), ..self }
    }

    pub fn bill_number(self, value: u32) -> (r: TitlesBuilder)
        ensures
            r == (TitlesBuilder { bill_number: Some(value), ..self }),
    {
        TitlesBuilder { bill_number: Some(value), ..self }
    }

    pub fn format(self, value: Format) -> (r: TitlesBuilder)
        ensures
            r == (TitlesBuilder { format: Some(value), ..self }),
    {
        TitlesBuilder { format: Some(value), ..self }
    }

    pub fn offset(self, value: u32) -> (r: TitlesBuilder)
        ensures
            r == (TitlesBuilder { offset: Some(value), ..self }),
    {
        TitlesBuilder { offset: Some(value), ..self }
    }

    pub fn limit(self, value: u8) -> (r: TitlesBuilder)
        ensures
            r == (TitlesBuilder { limit: Some(value), ..self }),
    {
        TitlesBuilder { limit: Some(value), ..self }
    }

    pub fn from_date_time(self, value: Timestamp) -> (r: TitlesBuilder)
        ensures
            r == (TitlesBuilder { from_date_time: Some(value), ..self }),
    {
        TitlesBuilder { from_date_time: Some(value), ..self }
    }

    pub fn to_date_time(self, value: Timestamp) -> (r: TitlesBuilder)
        ensures
            r == (TitlesBuilder { to_date_time: Some(value), ..self }),
    {
        TitlesBuilder { to_date_time: Some(value), ..self }
    }

    /// Finalizes the endpoint value.  Fails, naming the first missing
    /// field, exactly when a required field was not supplied; optional
    /// fields default to absent and the format to JSON.
    pub fn build(&self) -> (r: Result<Titles, ConstructionError>)
        ensures
            match r {
                Ok(e) => {
                    &&& self.congress is Some
                    &&& self.bill_type is Some
                    &&& self.bill_number is Some
                    &&& e == (Titles {
                        congress: self.congress->0,
                        bill_type: self.bill_type->0,
                        bill_number: self.bill_number->0,
                        format: if self.format is Some { self.format->0 } else { Format::Json },
                        offset: self.offset,
                        limit: self.limit,
                        from_date_time: self.from_date_time,
                        to_date_time: self.to_date_time,
                    })
                },
                Err(err) => {
                    &&& !(self.congress is Some && self.bill_type is Some && self.bill_number is Some)
                    &&& err.field@ == (if self.congress is None {
                        "congress"@
                    } else if self.bill_type is None {
                        "bill_type"@
                    } else {
                        "bill_number"@
                    })
                },
            },
    {
        let congress = match self.congress {
            Some(v) => v,
            None => {
                return Err(ConstructionError::missing("congress"));
            },
        };
        let bill_type = match self.bill_type {
            Some(v) => v,
            None => {
                return Err(ConstructionError::missing("bill_type"));
            },
        };
        let bill_number = match self.bill_number {
            Some(v) => v,
            None => {
                return Err(ConstructionError::missing("bill_number"));
            },
        };
        let format = match self.format {
            Some(f) => f,
            None => Format::Json,
        };
        Ok(
            Titles {
                congress,
                bill_type,
                bill_number,
                format,
                offset: self.offset,
                limit: self.limit,
                from_date_time: self.from_date_time,
                to_date_time: self.to_date_time,
            },
        )
    }
}

impl Endpoint for Titles {
    open spec fn spec_method(&self) -> Method {
        Method::Get
    }

    open spec fn spec_path(&self) -> Seq<char> {
        "bill"@ + sl() + dec_str(self.congress as nat) + sl() + self.bill_type.tag() + sl() + dec_str(self.bill_number as nat) + sl() + "titles"@
    }

    open spec fn spec_params(&self) -> Seq<(Seq<char>, Seq<char>)> {
        let s = seq![("format"@, self.format.tag())];
        let s = match self.offset {
            Some(v) => s.push(("offset"@, dec_str(v as nat))),
            None => s,
        };
        let s = match self.limit {
            Some(v) => s.push(("limit"@, dec_str(v as nat))),
            None => s,
        };
        let s = match self.from_date_time {
            Some(v) => s.push(("from_date_time"@, v.rfc3339())),
            None => s,
        };
        let s = match self.to_date_time {
            Some(v) => s.push(("to_date_time"@, v.rfc3339())),
            None => s,
        };
        s
    }

    fn method(&self) -> Method {
        Method::Get
    }

    fn endpoint(&self) -> (p: String) {
        let mut p = String::new();
        p.append("bill");
        p.append("/");
        push_dec_u32(&mut p, self.congress as u32);
        p.append("/");
        p.append(self.bill_type.as_str());
        p.append("/");
        push_dec_u32(&mut p, self.bill_number);
        p.append("/");
        p.append("titles");
        proof {
            assert(p@ =~= self.spec_path());
        }
        p
    }

    fn parameters(&self) -> (q: QueryParams) {
        let mut q = QueryParams::new();
        q.push("format", self.format);
        q.push_opt("offset", self.offset);
        q.push_opt("limit", self.limit);
        q.push_opt("from_date_time", self.from_date_time);
        q.push_opt("to_date_time", self.to_date_time);
        proof {
            assert(q@ =~= self.spec_params());
        }
        q
    }
}

/// With only required fields supplied — format defaulted, optional fields
/// absent — the parameters are exactly the default format entry.
pub proof fn lemma_required_only_params(e: Titles)
    requires
        e.format == Format::Json,
        e.offset is None,
        e.limit is None,
        e.from_date_time is None,
        e.to_date_time is None,
    ensures
        e.spec_params() == seq![("format"@, "json"@)],
{
}

/// Path rendering is injective in the path fields: two values of this
/// resource with equal paths have equal path fields.
pub proof fn lemma_path_injective(a: Titles, b: Titles)
    requires
        a.spec_path() == b.spec_path(),
    ensures
        a.congress == b.congress,
        a.bill_type == b.bill_type,
        a.bill_number == b.bill_number,
{
    lemma_dec_str_wf(a.congress as nat);
    lemma_dec_str_wf(b.congress as nat);
    lemma_bill_type_tag_wf(a.bill_type);
    lemma_bill_type_tag_wf(b.bill_type);
    lemma_dec_str_wf(a.bill_number as nat);
    lemma_dec_str_wf(b.bill_number as nat);
    lemma_tpl3_lit(
        "bill"@ + sl(),
        "titles"@,
        dec_str(a.congress as nat),
        a.bill_type.tag(),
        dec_str(a.bill_number as nat),
        dec_str(b.congress as nat),
        b.bill_type.tag(),
        dec_str(b.bill_number as nat),
    );
    lemma_dec_str_injective(a.congress as nat, b.congress as nat);
    lemma_bill_type_tag_injective(a.bill_type, b.bill_type);
    lemma_dec_str_injective(a.bill_number as nat, b.bill_number as nat);
}

/// A rendered path never contains a placeholder brace.
pub proof fn lemma_path_placeholder_free(e: Titles)
    ensures
        placeholder_free(e.spec_path()),
{
    reveal_strlit("bill");
    reveal_strlit("titles");
    lemma_sl_chars();
    lemma_dec_str_wf(e.congress as nat);
    lemma_bill_type_tag_wf(e.bill_type);
    lemma_dec_str_wf(e.bill_number as nat);
    assert(placeholder_free("bill"@));
    assert(placeholder_free("titles"@));
    lemma_placeholder_free_cat("bill"@, sl());
    lemma_placeholder_free_cat("bill"@ + sl(), dec_str(e.congress as nat));
    lemma_placeholder_free_cat("bill"@ + sl() + dec_str(e.congress as nat), sl());
    lemma_placeholder_free_cat("bill"@ + sl() + dec_str(e.congress as nat) + sl(), e.bill_type.tag());
    lemma_placeholder_free_cat("bill"@ + sl() + dec_str(e.congress as nat) + sl() + e.bill_type.tag(), sl());
    lemma_placeholder_free_cat("bill"@ + sl() + dec_str(e.congress as nat) + sl() + e.bill_type.tag() + sl(), dec_str(e.bill_number as nat));
    lemma_placeholder_free_cat("bill"@ + sl() + dec_str(e.congress as nat) + sl() + e.bill_type.tag() + sl() + dec_str(e.bill_number as nat), sl());
    lemma_placeholder_free_cat("bill"@ + sl() + dec_str(e.congress as nat) + sl() + e.bill_type.tag() + sl() + dec_str(e.bill_number as nat) + sl(), "titles"@);
}

} // verus!
