//! The `/house-requirement/:requirementNumber` endpoint.

use vstd::prelude::*;
use vstd::string::*;
use crate::common::{Format};
use crate::endpoint::{Endpoint, Method};
use crate::error::ConstructionError;
use crate::params::QueryParams;
use crate::render::{dec_str, placeholder_free, sl};
use crate::render::{lemma_dec_str_injective, lemma_dec_str_wf, lemma_placeholder_free_cat, lemma_sl_chars, lemma_tpl1, push_dec_u32};

verus! {

/// Represents the `/house-requirement/:requirementNumber` endpoint.
#[derive(Debug, Clone, Copy)]
pub struct RequirementNumber {
    pub requirement_number: u32,
    pub format: Format,
}

impl RequirementNumber {
    pub fn builder() -> (b: RequirementNumberBuilder)
        ensures
            b == (RequirementNumberBuilder { requirement_number: None, format: None }),
    {
        RequirementNumberBuilder { requirement_number: None, format: None }
    }
}

/// Collects the fields of a `RequirementNumber` value; `build` checks that
/// every required field was supplied.
#[derive(Debug, Clone, Copy)]
pub struct RequirementNumberBuilder {
    pub requirement_number: Option<u32>,
    pub format: Option<Format>,
}

impl RequirementNumberBuilder {
    pub fn requirement_number(self, value: u32) -> (r: RequirementNumberBuilder)
        ensures
            r == (RequirementNumberBuilder { requirement_number: Some(value), ..self }),
    {
        RequirementNumberBuilder { requirement_number: Some(value), ..self }
    }

    pub fn format(self, value: Format) -> (r: RequirementNumberBuilder)
        ensures
            r == (RequirementNumberBuilder { format: Some(value), ..self }),
    {
        RequirementNumberBuilder { format: Some(value), ..self }
    }

    /// Finalizes the endpoint value.  Fails, naming the first missing
    /// field, exactly when a required field was not supplied; optional
    /// fields default to absent and the format to JSON.
    pub fn build(&self) -> (r: Result<RequirementNumber, ConstructionError>)
        ensures
            match r {
                Ok(e) => {
                    &&& self.requirement_number is Some
                    &&& e == (RequirementNumber {
                        requirement_number: self.requirement_number->0,
                        format: if self.format is Some { self.format->0 } else { Format::Json },
                    })
                },
                Err(err) => {
                    &&& !(self.requirement_number is Some)
                    &&& err.field@ == ({
                        "requirement_number"@
                    })
                },
            },
    {
        let requirement_number = match self.requirement_number {
            Some(v) => v,
            None => {
                return Err(ConstructionError::missing("requirement_number"));
            },
        };
        let format = match self.format {
            Some(f) => f,
            None => Format::Json,
        };
        Ok(
            RequirementNumber {
                requirement_number,
                format,
            },
        )
    }
}

impl Endpoint for RequirementNumber {
    open spec fn spec_method(&self) -> Method {
        Method::Get
    }

    open spec fn spec_path(&self) -> Seq<char> {
        "house-requirement"@ + sl() + dec_str(self.requirement_number as nat)
    }

    open spec fn spec_params(&self) -> Seq<(Seq<char>, Seq<char>)> {
        let s = seq![("format"@, self.format.tag())];
        s
    }

    fn method(&self) -> Method {
        Method::Get
    }

    fn endpoint(&self) -> (p: String) {
        let mut p = String::new();
        p.append("house-requirement");
        p.append("/");
        push_dec_u32(&mut p, self.requirement_number);
        proof {
            assert(p@ =~= self.spec_path());
        }
        p
    }

    fn parameters(&self) -> (q: QueryParams) {
        let mut q = QueryParams::new();
        q.push("format", self.format);
        proof {
            assert(q@ =~= self.spec_params());
        }
        q
    }
}

/// With only required fields supplied — format defaulted, optional fields
/// absent — the parameters are exactly the default format entry.
pub proof fn lemma_required_only_params(e: RequirementNumber)
    requires
        e.format == Format::Json,
    ensures
        e.spec_params() == seq![("format"@, "json"@)],
{
}

/// Path rendering is injective in the path fields: two values of this
/// resource with equal paths have equal path fields.
pub proof fn lemma_path_injective(a: RequirementNumber, b: RequirementNumber)
    requires
        a.spec_path() == b.spec_path(),
    ensures
        a.requirement_number == b.requirement_number,
{
    lemma_dec_str_wf(a.requirement_number as nat);
    lemma_dec_str_wf(b.requirement_number as nat);
    lemma_tpl1(
        "house-requirement"@ + sl(),
        dec_str(a.requirement_number as nat),
        dec_str(b.requirement_number as nat),
    );
    lemma_dec_str_injective(a.requirement_number as nat, b.requirement_number as nat);
}

/// A rendered path never contains a placeholder brace.
pub proof fn lemma_path_placeholder_free(e: RequirementNumber)
    ensures
        placeholder_free(e.spec_path()),
{
    reveal_strlit("house-requirement");
    lemma_sl_chars();
    lemma_dec_str_wf(e.requirement_number as nat);
    assert(placeholder_free("house-requirement"@));
    lemma_placeholder_free_cat("house-requirement"@, sl());
    lemma_placeholder_free_cat("house-requirement"@ + sl(), dec_str(e.requirement_number as nat));
}

} // verus!
