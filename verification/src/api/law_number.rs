//! The `/law/:congress/:lawType/:lawNumber` endpoint.

use vstd::prelude::*;
use vstd::string::*;
use crate::common::{CongressionalLawType, Format};
use crate::common::{lemma_law_type_tag_injective, lemma_law_type_tag_wf};
use crate::endpoint::{Endpoint, Method};
use crate::error::ConstructionError;
use crate::params::QueryParams;
use crate::render::{dec_str, placeholder_free, sl};
use crate::render::{lemma_dec_str_injective, lemma_dec_str_wf, lemma_placeholder_free_cat, lemma_sl_chars, lemma_tpl3, push_dec_u32};

verus! {

/// Represents the `/law/:congress/:lawType/:lawNumber` endpoint.
#[derive(Debug, Clone, Copy)]
pub struct LawNumber {
    pub congress: u16,
    pub law_type: CongressionalLawType,
    pub law_number: u32,
    pub format: Format,
    pub offset: Option<u32>,
    pub limit: Option<u8>,
}

impl LawNumber {
    pub fn builder() -> (b: LawNumberBuilder)
        ensures
            b == (LawNumberBuilder { congress: None, law_type: None, law_number: None, format: None, offset: None, limit: None }),
    {
        LawNumberBuilder { congress: None, law_type: None, law_number: None, format: None, offset: None, limit: None }
    }
}

/// Collects the fields of a `LawNumber` value; `build` checks that
/// every required field was supplied.
#[derive(Debug, Clone, Copy)]
pub struct LawNumberBuilder {
    pub congress: Option<u16>,
    pub law_type: Option<CongressionalLawType>,
    pub law_number: Option<u32>,
    pub format: Option<Format>,
    pub offset: Option<u32>,
    pub limit: Option<u8>,
}

impl LawNumberBuilder {
    pub fn congress(self, value: u16) -> (r: LawNumberBuilder)
        ensures
            r == (LawNumberBuilder { congress: Some(value), ..self }),
    {
        LawNumberBuilder { congress: Some(value), ..self }
    }

    pub fn law_type(self, value: CongressionalLawType) -> (r: LawNumberBuilder)
        ensures
            r == (LawNumberBuilder { law_type: Some(value), ..self }),
    {
        LawNumberBuilder { law_type: Some(value), ..self }
    }

    pub fn law_number(self, value: u32) -> (r: LawNumberBuilder)
        ensures
            r == (LawNumberBuilder { law_number: Some(value), ..self }),
    {
        LawNumberBuilder { law_number: Some(value), ..self }
    }

    pub fn format(self, value: Format) -> (r: LawNumberBuilder)
        ensures
            r == (LawNumberBuilder { format: Some(value), ..self }),
    {
        LawNumberBuilder { format: Some(value), ..self }
    }

    pub fn offset(self, value: u32) -> (r: LawNumberBuilder)
        ensures
            r == (LawNumberBuilder { offset: Some(value), ..self }),
    {
        LawNumberBuilder { offset: Some(value), ..self }
    }

    pub fn limit(self, value: u8) -> (r: LawNumberBuilder)
        ensures
            r == (LawNumberBuilder { limit: Some(value), ..self }),
    {
        LawNumberBuilder { limit: Some(value), ..self }
    }

    /// Finalizes the endpoint value.  Fails, naming the first missing
    /// field, exactly when a required field was not supplied; optional
    /// fields default to absent and the format to JSON.
    pub fn build(&self) -> (r: Result<LawNumber, ConstructionError>)
        ensures
            match r {
                Ok(e) => {
                    &&& self.congress is Some
                    &&& self.law_type is Some
                    &&& self.law_number is Some
                    &&& e == (LawNumber {
                        congress: self.congress->0,
                        law_type: self.law_type->0,
                        law_number: self.law_number->0,
                        format: if self.format is Some { self.format->0 } else { Format::Json },
                        offset: self.offset,
                        limit: self.limit,
                    })
                },
                Err(err) => {
                    &&& !(self.congress is Some && self.law_type is Some && self.law_number is Some)
                    &&& err.field@ == (if self.congress is None {
                        "congress"@
                    } else if self.law_type is None {
                        "law_type"@
                    } else {
                        "law_number"@
                    })
                },
            },
    {
        let congress = match self.congress {
            Some(v) => v,
            None => {
                return Err(ConstructionError::missing("congress"));
            },
        };
        let law_type = match self.law_type {
            Some(v) => v,
            None => {
                return Err(ConstructionError::missing("law_type"));
            },
        };
        let law_number = match self.law_number {
            Some(v) => v,
            None => {
                return Err(ConstructionError::missing("law_number"));
            },
        };
        let format = match self.format {
            Some(f) => f,
            None => Format::Json,
        };
        Ok(
            LawNumber {
                congress,
                law_type,
                law_number,
                format,
                offset: self.offset,
                limit: self.limit,
            },
        )
    }
}

impl Endpoint for LawNumber {
    open spec fn spec_method(&self) -> Method {
        Method::Get
    }

    open spec fn spec_path(&self) -> Seq<char> {
        "law"@ + sl() + dec_str(self.congress as nat) + sl() + self.law_type.tag() + sl() + dec_str(self.law_number as nat)
    }

    open spec fn spec_params(&self) -> Seq<(Seq<char>, Seq<char>)> {
        let s = seq![("format"@, self.format.tag())];
        let s = match self.offset {
            Some(v) => s.push(("offset"@, dec_str(v as nat))),
            None => s,
        };
        let s = match self.limit {
            Some(v) => s.push(("limit"@, dec_str(v as nat))),
            None => s,
        };
        s
    }

    fn method(&self) -> Method {
        Method::Get
    }

    fn endpoint(&self) -> (p: String) {
        let mut p = String::new();
        p.append("law");
        p.append("/");
        push_dec_u32(&mut p, self.congress as u32);
        p.append("/");
        p.append(self.law_type.as_str());
        p.append("/");
        push_dec_u32(&mut p, self.law_number);
        proof {
            assert(p@ =~= self.spec_path());
        }
        p
    }

    fn parameters(&self) -> (q: QueryParams) {
        let mut q = QueryParams::new();
        q.push("format", self.format);
        q.push_opt("offset", self.offset);
        q.push_opt("limit", self.limit);
        proof {
            assert(q@ =~= self.spec_params());
        }
        q
    }
}

/// With only required fields supplied — format defaulted, optional fields
/// absent — the parameters are exactly the default format entry.
pub proof fn lemma_required_only_params(e: LawNumber)
    requires
        e.format == Format::Json,
        e.offset is None,
        e.limit is None,
    ensures
        e.spec_params() == seq![("format"@, "json"@)],
{
}

/// Path rendering is injective in the path fields: two values of this
/// resource with equal paths have equal path fields.
pub proof fn lemma_path_injective(a: LawNumber, b: LawNumber)
    requires
        a.spec_path() == b.spec_path(),
    ensures
        a.congress == b.congress,
        a.law_type == b.law_type,
        a.law_number == b.law_number,
{
    lemma_dec_str_wf(a.congress as nat);
    lemma_dec_str_wf(b.congress as nat);
    lemma_law_type_tag_wf(a.law_type);
    lemma_law_type_tag_wf(b.law_type);
    lemma_dec_str_wf(a.law_number as nat);
    lemma_dec_str_wf(b.law_number as nat);
    lemma_tpl3(
        "law"@ + sl(),
        dec_str(a.congress as nat),
        a.law_type.tag(),
        dec_str(a.law_number as nat),
        dec_str(b.congress as nat),
        b.law_type.tag(),
        dec_str(b.law_number as nat),
    );
    lemma_dec_str_injective(a.congress as nat, b.congress as nat);
    lemma_law_type_tag_injective(a.law_type, b.law_type);
    lemma_dec_str_injective(a.law_number as nat, b.law_number as nat);
}

/// A rendered path never contains a placeholder brace.
pub proof fn lemma_path_placeholder_free(e: LawNumber)
    ensures
        placeholder_free(e.spec_path()),
{
    reveal_strlit("law");
    lemma_sl_chars();
    lemma_dec_str_wf(e.congress as nat);
    lemma_law_type_tag_wf(e.law_type);
    lemma_dec_str_wf(e.law_number as nat);
    assert(placeholder_free("law"@));
    lemma_placeholder_free_cat("law"@, sl());
    lemma_placeholder_free_cat("law"@ + sl(), dec_str(e.congress as nat));
    lemma_placeholder_free_cat("law"@ + sl() + dec_str(e.congress as nat), sl());
    lemma_placeholder_free_cat("law"@ + sl() + dec_str(e.congress as nat) + sl(), e.law_type.tag());
    lemma_placeholder_free_cat("law"@ + sl() + dec_str(e.congress as nat) + sl() + e.law_type.tag(), sl());
    lemma_placeholder_free_cat("law"@ + sl() + dec_str(e.congress as nat) + sl() + e.law_type.tag() + sl(), dec_str(e.law_number as nat));
}

} // verus!
