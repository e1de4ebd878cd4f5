//! The `/treaty/:congress/:treatyNumber/:treatySuffix` endpoint.

use vstd::prelude::*;
use vstd::string::*;
use crate::common::{Format};
use crate::endpoint::{Endpoint, Method};
use crate::error::ConstructionError;
use crate::params::QueryParams;
use crate::render::{dec_str, placeholder_free, sl};
use crate::render::{lemma_dec_str_injective, lemma_dec_str_wf, lemma_placeholder_free_cat, lemma_sl_chars, lemma_tpl3, push_dec_u32};

verus! {

/// Represents the `/treaty/:congress/:treatyNumber/:treatySuffix` endpoint.
#[derive(Debug, Clone)]
pub struct TreatySuffix {
    pub congress: u8,
    pub treaty_number: u32,
    pub treaty_suffix: String,
    pub format: Format,
}

impl TreatySuffix {
    pub fn builder() -> (b: TreatySuffixBuilder)
        ensures
            b == (TreatySuffixBuilder { congress: None, treaty_number: None, treaty_suffix: None, format: None }),
    {
        TreatySuffixBuilder { congress: None, treaty_number: None, treaty_suffix: None, format: None }
    }
}

/// Collects the fields of a `TreatySuffix` value; `build` checks that
/// every required field was supplied.
#[derive(Debug, Clone)]
pub struct TreatySuffixBuilder {
    pub congress: Option<u8>,
    pub treaty_number: Option<u32>,
    pub treaty_suffix: Option<String>,
    pub format: Option<Format>,
}

impl TreatySuffixBuilder {
    pub fn congress(self, value: u8) -> (r: TreatySuffixBuilder)
        ensures
            r == (TreatySuffixBuilder { congress: Some(value), ..self }),
    {
        TreatySuffixBuilder { congress: Some(value), ..self }
    }

    pub fn treaty_number(self, value: u32) -> (r: TreatySuffixBuilder)
        ensures
            r == (TreatySuffixBuilder { treaty_number: Some(value), ..self }),
    {
        TreatySuffixBuilder { treaty_number: Some(value), ..self }
    }

    pub fn treaty_suffix(self, value: &str) -> (r: TreatySuffixBuilder)
        ensures
            r.treaty_suffix matches Some(s) && s@ == value@,
            r.congress == self.congress,
            r.treaty_number == self.treaty_number,
            r.format == self.format,
    {
        TreatySuffixBuilder { treaty_suffix: Some(value.to_owned()), ..self }
    }

    pub fn format(self, value: Format) -> (r: TreatySuffixBuilder)
        ensures
            r == (TreatySuffixBuilder { format: Some(value), ..self }),
    {
        TreatySuffixBuilder { format: Some(value), ..self }
    }

    /// Finalizes the endpoint value.  Fails, naming the first missing
    /// field, exactly when a required field was not supplied; optional
    /// fields default to absent and the format to JSON.
    pub fn build(&self) -> (r: Result<TreatySuffix, ConstructionError>)
        ensures
            match r {
                Ok(e) => {
                    &&& self.congress is Some
                    &&& self.treaty_number is Some
                    &&& self.treaty_suffix is Some
                    &&& e == (TreatySuffix {
                        congress: self.congress->0,
                        treaty_number: self.treaty_number->0,
                        treaty_suffix: self.treaty_suffix->0,
                        format: if self.format is Some { self.format->0 } else { Format::Json },
                    })
                },
                Err(err) => {
                    &&& !(self.congress is Some && self.treaty_number is Some && self.treaty_suffix is Some)
                    &&& err.field@ == (if self.congress is None {
                        "congress"@
                    } else if self.treaty_number is None {
                        "treaty_number"@
                    } else {
                        "treaty_suffix"@
                    })
                },
            },
    {
        let congress = match self.congress {
            Some(v) => v,
            None => {
                return Err(ConstructionError::missing("congress"));
            },
        };
        let treaty_number = match self.treaty_number {
            Some(v) => v,
            None => {
                return Err(ConstructionError::missing("treaty_number"));
            },
        };
        let treaty_suffix = match &self.treaty_suffix {
            Some(v) => v.clone(),
            None => {
                return Err(ConstructionError::missing("treaty_suffix"));
            },
        };
        let format = match self.format {
            Some(f) => f,
            None => Format::Json,
        };
        Ok(
            TreatySuffix {
                congress,
                treaty_number,
                treaty_suffix,
                format,
            },
        )
    }
}

impl Endpoint for TreatySuffix {
    open spec fn spec_method(&self) -> Method {
        Method::Get
    }

    open spec fn spec_path(&self) -> Seq<char> {
        "treaty"@ + sl() + dec_str(self.congress as nat) + sl() + dec_str(self.treaty_number as nat) + sl() + self.treaty_suffix@
    }

    open spec fn spec_params(&self) -> Seq<(Seq<char>, Seq<char>)> {
        let s = seq![("format"@, self.format.tag())];
        s
    }

    fn method(&self) -> Method {
        Method::Get
    }

    fn endpoint(&self) -> (p: String) {
        let mut p = String::new();
        p.append("treaty");
        p.append("/");
        push_dec_u32(&mut p, self.congress as u32);
        p.append("/");
        push_dec_u32(&mut p, self.treaty_number);
        p.append("/");
        p.append(self.treaty_suffix.as_str());
        proof {
            assert(p@ =~= self.spec_path());
        }
        p
    }

    fn parameters(&self) -> (q: QueryParams) {
        let mut q = QueryParams::new();
        q.push("format", self.format);
        proof {
            assert(q@ =~= self.spec_params());
        }
        q
    }
}

/// With only required fields supplied — format defaulted, optional fields
/// absent — the parameters are exactly the default format entry.
pub proof fn lemma_required_only_params(e: TreatySuffix)
    requires
        e.format == Format::Json,
    ensures
        e.spec_params() == seq![("format"@, "json"@)],
{
}

/// Path rendering is injective in the path fields: two values of this
/// resource with equal paths have equal path fields.
pub proof fn lemma_path_injective(a: TreatySuffix, b: TreatySuffix)
    requires
        a.spec_path() == b.spec_path(),
    ensures
        a.congress == b.congress,
        a.treaty_number == b.treaty_number,
        a.treaty_suffix@ == b.treaty_suffix@,
{
    lemma_dec_str_wf(a.congress as nat);
    lemma_dec_str_wf(b.congress as nat);
    lemma_dec_str_wf(a.treaty_number as nat);
    lemma_dec_str_wf(b.treaty_number as nat);
    lemma_tpl3(
        "treaty"@ + sl(),
        dec_str(a.congress as nat),
        dec_str(a.treaty_number as nat),
        a.treaty_suffix@,
        dec_str(b.congress as nat),
        dec_str(b.treaty_number as nat),
        b.treaty_suffix@,
    );
    lemma_dec_str_injective(a.congress as nat, b.congress as nat);
    lemma_dec_str_injective(a.treaty_number as nat, b.treaty_number as nat);
}

/// A rendered path never contains a placeholder brace.
pub proof fn lemma_path_placeholder_free(e: TreatySuffix)
    requires
        placeholder_free(e.treaty_suffix@),
    ensures
        placeholder_free(e.spec_path()),
{
    reveal_strlit("treaty");
    lemma_sl_chars();
    lemma_dec_str_wf(e.congress as nat);
    lemma_dec_str_wf(e.treaty_number as nat);
    assert(placeholder_free("treaty"@));
    lemma_placeholder_free_cat("treaty"@, sl());
    lemma_placeholder_free_cat("treaty"@ + sl(), dec_str(e.congress as nat));
    lemma_placeholder_free_cat("treaty"@ + sl() + dec_str(e.congress as nat), sl());
    lemma_placeholder_free_cat("treaty"@ + sl() + dec_str(e.congress as nat) + sl(), dec_str(e.treaty_number as nat));
    lemma_placeholder_free_cat("treaty"@ + sl() + dec_str(e.congress as nat) + sl() + dec_str(e.treaty_number as nat), sl());
    lemma_placeholder_free_cat("treaty"@ + sl() + dec_str(e.congress as nat) + sl() + dec_str(e.treaty_number as nat) + sl(), e.treaty_suffix@);
}

} // verus!
