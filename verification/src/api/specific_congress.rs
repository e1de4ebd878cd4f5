//! The `/congress/:congress` endpoint.

use vstd::prelude::*;
use vstd::string::*;
use crate::common::{Format};
use crate::endpoint::{Endpoint, Method};
use crate::error::ConstructionError;
use crate::params::QueryParams;
use crate::render::{dec_str, placeholder_free, sl};
use crate::render::{lemma_dec_str_injective, lemma_dec_str_wf, lemma_placeholder_free_cat, lemma_sl_chars, lemma_tpl1, push_dec_u32};

verus! {

/// Represents the `/congress/:congress` endpoint.
#[derive(Debug, Clone, Copy)]
pub struct SpecificCongress {
    pub congress: u8,
    pub format: Format,
}

impl SpecificCongress {
    pub fn builder() -> (b: SpecificCongressBuilder)
        ensures
            b == (SpecificCongressBuilder { congress: None, format: None }),
    {
        SpecificCongressBuilder { congress: None, format: None }
    }
}

/// Collects the fields of a `SpecificCongress` value; `build` checks that
/// every required field was supplied.
#[derive(Debug, Clone, Copy)]
pub struct SpecificCongressBuilder {
    pub congress: Option<u8>,
    pub format: Option<Format>,
}

impl SpecificCongressBuilder {
    pub fn congress(self, value: u8) -> (r: SpecificCongressBuilder)
        ensures
            r == (SpecificCongressBuilder { congress: Some(value), ..self }),
    {
        SpecificCongressBuilder { congress: Some(value), ..self }
    }

    pub fn format(self, value: Format) -> (r: SpecificCongressBuilder)
        ensures
            r == (SpecificCongressBuilder { format: Some(value), ..self }),
    {
        SpecificCongressBuilder { format: Some(value), ..self }
    }

    /// Finalizes the endpoint value.  Fails, naming the first missing
    /// field, exactly when a required field was not supplied; optional
    /// fields default to absent and the format to JSON.
    pub fn build(&self) -> (r: Result<SpecificCongress, ConstructionError>)
        ensures
            match r {
                Ok(e) => {
                    &&& self.congress is Some
                    &&& e == (SpecificCongress {
                        congress: self.congress->0,
                        format: if self.format is Some { self.format->0 } else { Format::Json },
                    })
                },
                Err(err) => {
                    &&& !(self.congress is Some)
                    &&& err.field@ == ({
                        "congress"@
                    })
                },
            },
    {
        let congress = match self.congress {
            Some(v) => v,
            None => {
                return Err(ConstructionError::missing("congress"));
            },
        };
        let format = match self.format {
            Some(f) => f,
            None => Format::Json,
        };
        Ok(
            SpecificCongress {
                congress,
                format,
            },
        )
    }
}

impl Endpoint for SpecificCongress {
    open spec fn spec_method(&self) -> Method {
        Method::Get
    }

    open spec fn spec_path(&self) -> Seq<char> {
        "congress"@ + sl() + dec_str(self.congress as nat)
    }

    open spec fn spec_params(&self) -> Seq<(Seq<char>, Seq<char>)> {
        let s = seq![("format"@, self.format.tag())];
        s
    }

    fn method(&self) -> Method {
        Method::Get
    }

    fn endpoint(&self) -> (p: String) {
        let mut p = String::new();
        p.append("congress");
        p.append("/");
        push_dec_u32(&mut p, self.congress as u32);
        proof {
            assert(p@ =~= self.spec_path());
        }
        p
    }

    fn parameters(&self) -> (q: QueryParams) {
        let mut q = QueryParams::new();
        q.push("format", self.format);
        proof {
            assert(q@ =~= self.spec_params());
        }
        q
    }
}

/// With only required fields supplied — format defaulted, optional fields
/// absent — the parameters are exactly the default format entry.
pub proof fn lemma_required_only_params(e: SpecificCongress)
    requires
        e.format == Format::Json,
    ensures
        e.spec_params() == seq![("format"@, "json"@)],
{
}

/// Path rendering is injective in the path fields: two values of this
/// resource with equal paths have equal path fields.
pub proof fn lemma_path_injective(a: SpecificCongress, b: SpecificCongress)
    requires
        a.spec_path() == b.spec_path(),
    ensures
        a.congress == b.congress,
{
    lemma_dec_str_wf(a.congress as nat);
    lemma_dec_str_wf(b.congress as nat);
    lemma_tpl1(
        "congress"@ + sl(),
        dec_str(a.congress as nat),
        dec_str(b.congress as nat),
    );
    lemma_dec_str_injective(a.congress as nat, b.congress as nat);
}

/// A rendered path never contains a placeholder brace.
pub proof fn lemma_path_placeholder_free(e: SpecificCongress)
    ensures
        placeholder_free(e.spec_path()),
{
    reveal_strlit("congress");
    lemma_sl_chars();
    lemma_dec_str_wf(e.congress as nat);
    assert(placeholder_free("congress"@));
    lemma_placeholder_free_cat("congress"@, sl());
    lemma_placeholder_free_cat("congress"@ + sl(), dec_str(e.congress as nat));
}

} // verus!
