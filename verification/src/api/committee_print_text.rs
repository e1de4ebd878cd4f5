//! The `/committee-print/:congress/:chamber/:jacketNumber/text` endpoint.

use vstd::prelude::*;
use vstd::string::*;
use crate::common::{CommitteeChamber, Format};
use crate::common::{lemma_committee_chamber_tag_injective, lemma_committee_chamber_tag_wf};
use crate::endpoint::{Endpoint, Method};
use crate::error::ConstructionError;
use crate::params::QueryParams;
use crate::render::{dec_str, placeholder_free, sl};
use crate::render::{lemma_dec_str_injective, lemma_dec_str_wf, lemma_placeholder_free_cat, lemma_sl_chars, lemma_tpl3_lit, push_dec_u32};

verus! {

/// Represents the `/committee-print/:congress/:chamber/:jacketNumber/text` endpoint.
#[derive(Debug, Clone, Copy)]
pub struct Text {
    pub congress: u16,
    pub chamber: CommitteeChamber,
    pub jacket_number: u32,
    pub format: Format,
    pub offset: Option<u32>,
    pub limit: Option<u8>,
}

impl Text {
    pub fn builder() -> (b: TextBuilder)
        ensures
            b == (TextBuilder { congress: None, chamber: None, jacket_number: None, format: None, offset: None, limit: None }),
    {
        TextBuilder { congress: None, chamber: None, jacket_number: None, format: None, offset: None, limit: None }
    }
}

/// Collects the fields of a `Text` value; `build` checks that
/// every required field was supplied.
#[derive(Debug, Clone, Copy)]
pub struct TextBuilder {
    pub congress: Option<u16>,
    pub chamber: Option<CommitteeChamber>,
    pub jacket_number: Option<u32>,
    pub format: Option<Format>,
    pub offset: Option<u32>,
    pub limit: Option<u8>,
}

impl TextBuilder {
    pub fn congress(self, value: u16) -> (r: TextBuilder)
        ensures
            r == (TextBuilder { congress: Some(value), ..self }),
    {
        TextBuilder { congress: Some(value), ..self }
    }

    pub fn chamber(self, value: CommitteeChamber) -> (r: TextBuilder)
        ensures
            r == (TextBuilder { chamber: Some(value), ..self }),
    {
        TextBuilder { chamber: Some(value), ..self }
    }

    pub fn jacket_number(self, value: u32) -> (r: TextBuilder)
        ensures
            r == (TextBuilder { jacket_number: Some(value), ..self }),
    {
        TextBuilder { jacket_number: Some(value), ..self }
    }

    pub fn format(self, value: Format) -> (r: TextBuilder)
        ensures
            r == (TextBuilder { format: Some(value), ..self }),
    {
        TextBuilder { format: Some(value), ..self }
    }

    pub fn offset(self, value: u32) -> (r: TextBuilder)
        ensures
            r == (TextBuilder { offset: Some(value), ..self }),
    {
        TextBuilder { offset: Some(value), ..self }
    }

    pub fn limit(self, value: u8) -> (r: TextBuilder)
        ensures
            r == (TextBuilder { limit: Some(value), ..self }),
    {
        TextBuilder { limit: Some(value), ..self }
    }

    /// Finalizes the endpoint value.  Fails, naming the first missing
    /// field, exactly when a required field was not supplied; optional
    /// fields default to absent and the format to JSON.
    pub fn build(&self) -> (r: Result<Text, ConstructionError>)
        ensures
            match r {
                Ok(e) => {
                    &&& self.congress is Some
                    &&& self.chamber is Some
                    &&& self.jacket_number is Some
                    &&& e == (Text {
                        congress: self.congress->0,
                        chamber: self.chamber->0,
                        jacket_number: self.jacket_number->0,
                        format: if self.format is Some { self.format->0 } else { Format::Json },
                        offset: self.offset,
                        limit: self.limit,
                    })
                },
                Err(err) => {
                    &&& !(self.congress is Some && self.chamber is Some && self.jacket_number is Some)
                    &&& err.field@ == (if self.congress is None {
                        "congress"@
                    } else if self.chamber is None {
                        "chamber"@
                    } else {
                        "jacket_number"@
                    })
                },
            },
    {
        let congress = match self.congress {
            Some(v) => v,
            None => {
                return Err(ConstructionError::missing("congress"));
            },
        };
        let chamber = match self.chamber {
            Some(v) => v,
            None => {
                return Err(ConstructionError::missing("chamber"));
            },
        };
        let jacket_number = match self.jacket_number {
            Some(v) => v,
            None => {
                return Err(ConstructionError::missing("jacket_number"));
            },
        };
        let format = match self.format {
            Some(f) => f,
            None => Format::Json,
        };
        Ok(
            Text {
                congress,
                chamber,
                jacket_number,
                format,
                offset: self.offset,
                limit: self.limit,
            },
        )
    }
}

impl Endpoint for Text {
    open spec fn spec_method(&self) -> Method {
        Method::Get
    }

    open spec fn spec_path(&self) -> Seq<char> {
        "committee-print"@ + sl() + dec_str(self.congress as nat) + sl() + self.chamber.tag() + sl() + dec_str(self.jacket_number as nat) + sl() + "text"@
    }

    open spec fn spec_params(&self) -> Seq<(Seq<char>, Seq<char>)> {
        let s = seq![("format"@, self.format.tag())];
        let s = match self.offset {
            Some(v) => s.push(("offset"@, dec_str(v as nat))),
            None => s,
        };
        let s = match self.limit {
            Some(v) => s.push(("limit"@, dec_str(v as nat))),
            None => s,
        };
        s
    }

    fn method(&self) -> Method {
        Method::Get
    }

    fn endpoint(&self) -> (p: String) {
        let mut p = String::new();
        p.append("committee-print");
        p.append("/");
        push_dec_u32(&mut p, self.congress as u32);
        p.append("/");
        p.append(self.chamber.as_str());
        p.append("/");
        push_dec_u32(&mut p, self.jacket_number);
        p.append("/");
        p.append("text");
        proof {
            assert(p@ =~= self.spec_path());
        }
        p
    }

    fn parameters(&self) -> (q: QueryParams) {
        let mut q = QueryParams::new();
        q.push("format", self.format);
        q.push_opt("offset", self.offset);
        q.push_opt("limit", self.limit);
        proof {
            assert(q@ =~= self.spec_params());
        }
        q
    }
}

/// With only required fields supplied — format defaulted, optional fields
/// absent — the parameters are exactly the default format entry.
pub proof fn lemma_required_only_params(e: Text)
    requires
        e.format == Format::Json,
        e.offset is None,
        e.limit is None,
    ensures
        e.spec_params() == seq![("format"@, "json"@)],
{
}

/// Path rendering is injective in the path fields: two values of this
/// resource with equal paths have equal path fields.
pub proof fn lemma_path_injective(a: Text, b: Text)
    requires
        a.spec_path() == b.spec_path(),
    ensures
        a.congress == b.congress,
        a.chamber == b.chamber,
        a.jacket_number == b.jacket_number,
{
    lemma_dec_str_wf(a.congress as nat);
    lemma_dec_str_wf(b.congress as nat);
    lemma_committee_chamber_tag_wf(a.chamber);
    lemma_committee_chamber_tag_wf(b.chamber);
    lemma_dec_str_wf(a.jacket_number as nat);
    lemma_dec_str_wf(b.jacket_number as nat);
    lemma_tpl3_lit(
        "committee-print"@ + sl(),
        "text"@,
        dec_str(a.congress as nat),
        a.chamber.tag(),
        dec_str(a.jacket_number as nat),
        dec_str(b.congress as nat),
        b.chamber.tag(),
        dec_str(b.jacket_number as nat),
    );
    lemma_dec_str_injective(a.congress as nat, b.congress as nat);
    lemma_committee_chamber_tag_injective(a.chamber, b.chamber);
    lemma_dec_str_injective(a.jacket_number as nat, b.jacket_number as nat);
}

/// A rendered path never contains a placeholder brace.
pub proof fn lemma_path_placeholder_free(e: Text)
    ensures
        placeholder_free(e.spec_path()),
{
    reveal_strlit("committee-print");
    reveal_strlit("text");
    lemma_sl_chars();
    lemma_dec_str_wf(e.congress as nat);
    lemma_committee_chamber_tag_wf(e.chamber);
    lemma_dec_str_wf(e.jacket_number as nat);
    assert(placeholder_free("committee-print"@));
    assert(placeholder_free("text"@));
    lemma_placeholder_free_cat("committee-print"@, sl());
    lemma_placeholder_free_cat("committee-print"@ + sl(), dec_str(e.congress as nat));
    lemma_placeholder_free_cat("committee-print"@ + sl() + dec_str(e.congress as nat), sl());
    lemma_placeholder_free_cat("committee-print"@ + sl() + dec_str(e.congress as nat) + sl(), e.chamber.tag());
    lemma_placeholder_free_cat("committee-print"@ + sl() + dec_str(e.congress as nat) + sl() + e.chamber.tag(), sl());
    lemma_placeholder_free_cat("committee-print"@ + sl() + dec_str(e.congress as nat) + sl() + e.chamber.tag() + sl(), dec_str(e.jacket_number as nat));
    lemma_placeholder_free_cat("committee-print"@ + sl() + dec_str(e.congress as nat) + sl() + e.chamber.tag() + sl() + dec_str(e.jacket_number as nat), sl());
    lemma_placeholder_free_cat("committee-print"@ + sl() + dec_str(e.congress as nat) + sl() + e.chamber.tag() + sl() + dec_str(e.jacket_number as nat) + sl(), "text"@);
}

} // verus!
