//! The `/amendment/{congress}/{amendmentType}/{amendmentNumber}/amendments`
//! endpoint.

use vstd::prelude::*;
use vstd::string::*;
use crate::common::{CongressionalAmendmentType, Format};
use crate::common::{lemma_amendment_type_tag_injective, lemma_amendment_type_tag_wf};
use crate::endpoint::{Endpoint, Method};
use crate::error::ConstructionError;
use crate::params::QueryParams;
use crate::render::{dec_str, placeholder_free, sl};
use crate::render::{
    lemma_dec_str_injective, lemma_dec_str_wf, lemma_placeholder_free_cat, lemma_sl_chars,
    lemma_tpl3_lit, push_dec_u32,
};

verus! {

/// Addresses the amendments to one amendment.
#[derive(Debug, Clone, Copy)]
pub struct Amendments {
    pub congress: u8,
    pub amendment_type: CongressionalAmendmentType,
    pub amendment_number: u32,
    pub format: Format,
    pub offset: Option<u32>,
    pub limit: Option<u8>,
}

impl Amendments {
    pub fn builder() -> (b: AmendmentsBuilder)
        ensures
            b == (AmendmentsBuilder {
                congress: None,
                amendment_type: None,
                amendment_number: None,
                format: None,
                offset: None,
                limit: None,
            }),
    {
        AmendmentsBuilder {
            congress: None,
            amendment_type: None,
            amendment_number: None,
            format: None,
            offset: None,
            limit: None,
        }
    }
}

/// Collects the fields of an `Amendments` value; `build` checks that
/// every required field was supplied.
#[derive(Debug, Clone, Copy)]
pub struct AmendmentsBuilder {
    pub congress: Option<u8>,
    pub amendment_type: Option<CongressionalAmendmentType>,
    pub amendment_number: Option<u32>,
    pub format: Option<Format>,
    pub offset: Option<u32>,
    pub limit: Option<u8>,
}

impl AmendmentsBuilder {
    pub fn congress(self, value: u8) -> (r: AmendmentsBuilder)
        ensures
            r == (AmendmentsBuilder { congress: Some(value), ..self }),
    {
        AmendmentsBuilder { congress: Some(value), ..self }
    }

    pub fn amendment_type(self, value: CongressionalAmendmentType) -> (r: AmendmentsBuilder)
        ensures
            r == (AmendmentsBuilder { amendment_type: Some(value), ..self }),
    {
        AmendmentsBuilder { amendment_type: Some(value), ..self }
    }

    pub fn amendment_number(self, value: u32) -> (r: AmendmentsBuilder)
        ensures
            r == (AmendmentsBuilder { amendment_number: Some(value), ..self }),
    {
        AmendmentsBuilder { amendment_number: Some(value), ..self }
    }

    pub fn format(self, value: Format) -> (r: AmendmentsBuilder)
        ensures
            r == (AmendmentsBuilder { format: Some(value), ..self }),
    {
        AmendmentsBuilder { format: Some(value), ..self }
    }

    pub fn offset(self, value: u32) -> (r: AmendmentsBuilder)
        ensures
            r == (AmendmentsBuilder { offset: Some(value), ..self }),
    {
        AmendmentsBuilder { offset: Some(value), ..self }
    }

    pub fn limit(self, value: u8) -> (r: AmendmentsBuilder)
        ensures
            r == (AmendmentsBuilder { limit: Some(value), ..self }),
    {
        AmendmentsBuilder { limit: Some(value), ..self }
    }

    /// Finalizes the endpoint value.  Fails, naming the first missing
    /// field, exactly when a required field was not supplied; optional
    /// fields default to absent and the format to JSON.
    pub fn build(&self) -> (r: Result<Amendments, ConstructionError>)
        ensures
            match r {
                Ok(e) => {
                    &&& self.congress is Some
                    &&& self.amendment_type is Some
                    &&& self.amendment_number is Some
                    &&& e == (Amendments {
                        congress: self.congress->0,
                        amendment_type: self.amendment_type->0,
                        amendment_number: self.amendment_number->0,
                        format: if self.format is Some { self.format->0 } else { Format::Json },
                        offset: self.offset,
                        limit: self.limit,
                    })
                },
                Err(err) => {
                    &&& !(self.congress is Some && self.amendment_type is Some
                        && self.amendment_number is Some)
                    &&& err.field@ == (if self.congress is None {
                        "congress"@
                    } else if self.amendment_type is None {
                        "amendment_type"@
                    } else {
                        "amendment_number"@
                    })
                },
            },
    {
        let congress = match self.congress {
            Some(v) => v,
            None => {
                return Err(ConstructionError::missing("congress"));
            },
        };
        let amendment_type = match self.amendment_type {
            Some(v) => v,
            None => {
                return Err(ConstructionError::missing("amendment_type"));
            },
        };
        let amendment_number = match self.amendment_number {
            Some(v) => v,
            None => {
                return Err(ConstructionError::missing("amendment_number"));
            },
        };
        let format = match self.format {
            Some(f) => f,
            None => Format::Json,
        };
        Ok(
            Amendments {
                congress,
                amendment_type,
                amendment_number,
                format,
                offset: self.offset,
                limit: self.limit,
            },
        )
    }
}

impl Endpoint for Amendments {
    open spec fn spec_method(&self) -> Method {
        Method::Get
    }

    open spec fn spec_path(&self) -> Seq<char> {
        "amendment"@ + sl() + dec_str(self.congress as nat) + sl() + self.amendment_type.tag()
            + sl() + dec_str(self.amendment_number as nat) + sl() + "amendments"@
    }

    open spec fn spec_params(&self) -> Seq<(Seq<char>, Seq<char>)> {
        let s = seq![("format"@, self.format.tag())];
        let s = match self.offset {
            Some(v) => s.push(("offset"@, dec_str(v as nat))),
            None => s,
        };
        let s = match self.limit {
            Some(v) => s.push(("limit"@, dec_str(v as nat))),
            None => s,
        };
        s
    }

    fn method(&self) -> Method {
        Method::Get
    }

    fn endpoint(&self) -> (p: String) {
        let mut p = String::new();
        p.append("amendment");
        p.append("/");
        push_dec_u32(&mut p, self.congress as u32);
        p.append("/");
        p.append(self.amendment_type.as_str());
        p.append("/");
        push_dec_u32(&mut p, self.amendment_number);
        p.append("/");
        p.append("amendments");
        proof {
            assert(p@ =~= self.spec_path());
        }
        p
    }

    fn parameters(&self) -> (q: QueryParams) {
        let mut q = QueryParams::new();
        q.push("format", self.format);
        q.push_opt("offset", self.offset);
        q.push_opt("limit", self.limit);
        proof {
            assert(q@ =~= self.spec_params());
        }
        q
    }
}

/// With only required fields supplied — format defaulted, optional fields
/// absent — the parameters are exactly the default format entry.
pub proof fn lemma_required_only_params(e: Amendments)
    requires
        e.format == Format::Json,
        e.offset is None,
        e.limit is None,
    ensures
        e.spec_params() == seq![("format"@, "json"@)],
{
}

/// Path rendering is injective in the required fields: two values of this
/// resource with equal paths have equal required fields.
pub proof fn lemma_path_injective(a: Amendments, b: Amendments)
    requires
        a.spec_path() == b.spec_path(),
    ensures
        a.congress == b.congress,
        a.amendment_type == b.amendment_type,
        a.amendment_number == b.amendment_number,
{
    lemma_dec_str_wf(a.congress as nat);
    lemma_dec_str_wf(b.congress as nat);
    lemma_amendment_type_tag_wf(a.amendment_type);
    lemma_amendment_type_tag_wf(b.amendment_type);
    lemma_tpl3_lit(
        "amendment"@ + sl(),
        "amendments"@,
        dec_str(a.congress as nat),
        a.amendment_type.tag(),
        dec_str(a.amendment_number as nat),
        dec_str(b.congress as nat),
        b.amendment_type.tag(),
        dec_str(b.amendment_number as nat),
    );
    lemma_dec_str_injective(a.congress as nat, b.congress as nat);
    lemma_amendment_type_tag_injective(a.amendment_type, b.amendment_type);
    lemma_dec_str_injective(a.amendment_number as nat, b.amendment_number as nat);
}

/// A rendered path never contains a placeholder brace.
pub proof fn lemma_path_placeholder_free(e: Amendments)
    ensures
        placeholder_free(e.spec_path()),
{
    reveal_strlit("amendment");
    reveal_strlit("amendments");
    lemma_sl_chars();
    lemma_dec_str_wf(e.congress as nat);
    lemma_dec_str_wf(e.amendment_number as nat);
    lemma_amendment_type_tag_wf(e.amendment_type);
    assert(placeholder_free("amendment"@));
    assert(placeholder_free("amendments"@));
    lemma_placeholder_free_cat("amendment"@, sl());
    lemma_placeholder_free_cat("amendment"@ + sl(), dec_str(e.congress as nat));
    lemma_placeholder_free_cat("amendment"@ + sl() + dec_str(e.congress as nat), sl());
    lemma_placeholder_free_cat(
        "amendment"@ + sl() + dec_str(e.congress as nat) + sl(),
        e.amendment_type.tag(),
    );
    lemma_placeholder_free_cat(
        "amendment"@ + sl() + dec_str(e.congress as nat) + sl() + e.amendment_type.tag(),
        sl(),
    );
    lemma_placeholder_free_cat(
        "amendment"@ + sl() + dec_str(e.congress as nat) + sl() + e.amendment_type.tag() + sl(),
        dec_str(e.amendment_number as nat),
    );
    lemma_placeholder_free_cat(
        "amendment"@ + sl() + dec_str(e.congress as nat) + sl() + e.amendment_type.tag() + sl()
            + dec_str(e.amendment_number as nat),
        sl(),
    );
    lemma_placeholder_free_cat(
        "amendment"@ + sl() + dec_str(e.congress as nat) + sl() + e.amendment_type.tag() + sl()
            + dec_str(e.amendment_number as nat) + sl(),
        "amendments"@,
    );
}

} // verus!
