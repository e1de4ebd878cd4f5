//! The `/treaty/:congress/:treatyNumber/:treatySuffix/actions` endpoint.

use vstd::prelude::*;
use vstd::string::*;
use crate::common::{Format};
use crate::endpoint::{Endpoint, Method};
use crate::error::ConstructionError;
use crate::params::QueryParams;
use crate::render::{dec_str, placeholder_free, sl};
use crate::render::{lemma_dec_str_injective, lemma_dec_str_wf, lemma_placeholder_free_cat, lemma_sl_chars, lemma_tpl3_lit, push_dec_u32};

verus! {

/// Represents the `/treaty/:congress/:treatyNumber/:treatySuffix/actions` endpoint.
#[derive(Debug, Clone)]
pub struct Actions {
    pub congress: u8,
    pub treaty_number: u32,
    pub treaty_suffix: String,
    pub format: Format,
    pub offset: Option<u32>,
    pub limit: Option<u8>,
}

impl Actions {
    pub fn builder() -> (b: ActionsBuilder)
        ensures
            b == (ActionsBuilder { congress: None, treaty_number: None, treaty_suffix: None, format: None, offset: None, limit: None }),
    {
        ActionsBuilder { congress: None, treaty_number: None, treaty_suffix: None, format: None, offset: None, limit: None }
    }
}

/// Collects the fields of a `Actions` value; `build` checks that
/// every required field was supplied.
#[derive(Debug, Clone)]
pub struct ActionsBuilder {
    pub congress: Option<u8>,
    pub treaty_number: Option<u32>,
    pub treaty_suffix: Option<String>,
    pub format: Option<Format>,
    pub offset: Option<u32>,
    pub limit: Option<u8>,
}

impl ActionsBuilder {
    pub fn congress(self, value: u8) -> (r: ActionsBuilder)
        ensures
            r == (ActionsBuilder { congress: Some(value), ..self }),
    {
        ActionsBuilder { congress: Some(value), ..self }
    }

    pub fn treaty_number(self, value: u32) -> (r: ActionsBuilder)
        ensures
            r == (ActionsBuilder { treaty_number: Some(value), ..self }),
    {
        ActionsBuilder { treaty_number: Some(value), ..self }
    }

    pub fn treaty_suffix(self, value: &str) -> (r: ActionsBuilder)
        ensures
            r.treaty_suffix matches Some(s) && s@ == value@,
            r.congress == self.congress,
            r.treaty_number == self.treaty_number,
            r.format == self.format,
            r.offset == self.offset,
            r.limit == self.limit,
    {
        ActionsBuilder { treaty_suffix: Some(value.to_owned()), ..self }
    }

    pub fn format(self, value: Format) -> (r: ActionsBuilder)
        ensures
            r == (ActionsBuilder { format: Some(value), ..self }),
    {
        ActionsBuilder { format: Some(value), ..self }
    }

    pub fn offset(self, value: u32) -> (r: ActionsBuilder)
        ensures
            r == (ActionsBuilder { offset: Some(value), ..self }),
    {
        ActionsBuilder { offset: Some(value), ..self }
    }

    pub fn limit(self, value: u8) -> (r: ActionsBuilder)
        ensures
            r == (ActionsBuilder { limit: Some(value), ..self }),
    {
        ActionsBuilder { limit: Some(value), ..self }
    }

    /// Finalizes the endpoint value.  Fails, naming the first missing
    /// field, exactly when a required field was not supplied; optional
    /// fields default to absent and the format to JSON.
    pub fn build(&self) -> (r: Result<Actions, ConstructionError>)
        ensures
            match r {
                Ok(e) => {
                    &&& self.congress is Some
                    &&& self.treaty_number is Some
                    &&& self.treaty_suffix is Some
                    &&& e == (Actions {
                        congress: self.congress->0,
                        treaty_number: self.treaty_number->0,
                        treaty_suffix: self.treaty_suffix->0,
                        format: if self.format is Some { self.format->0 } else { Format::Json },
                        offset: self.offset,
                        limit: self.limit,
                    })
                },
                Err(err) => {
                    &&& !(self.congress is Some && self.treaty_number is Some && self.treaty_suffix is Some)
                    &&& err.field@ == (if self.congress is None {
                        "congress"@
                    } else if self.treaty_number is None {
                        "treaty_number"@
                    } else {
                        "treaty_suffix"@
                    })
                },
            },
    {
        let congress = match self.congress {
            Some(v) => v,
            None => {
                return Err(ConstructionError::missing("congress"));
            },
        };
        let treaty_number = match self.treaty_number {
            Some(v) => v,
            None => {
                return Err(ConstructionError::missing("treaty_number"));
            },
        };
        let treaty_suffix = match &self.treaty_suffix {
            Some(v) => v.clone(),
            None => {
                return Err(ConstructionError::missing("treaty_suffix"));
            },
        };
        let format = match self.format {
            Some(f) => f,
            None => Format::Json,
        };
        Ok(
            Actions {
                congress,
                treaty_number,
                treaty_suffix,
                format,
                offset: self.offset,
                limit: self.limit,
            },
        )
    }
}

impl Endpoint for Actions {
    open spec fn spec_method(&self) -> Method {
        Method::Get
    }

    open spec fn spec_path(&self) -> Seq<char> {
        "treaty"@ + sl() + dec_str(self.congress as nat) + sl() + dec_str(self.treaty_number as nat) + sl() + self.treaty_suffix@ + sl() + "actions"@
    }

    open spec fn spec_params(&self) -> Seq<(Seq<char>, Seq<char>)> {
        let s = seq![("format"@, self.format.tag())];
        let s = match self.offset {
            Some(v) => s.push(("offset"@, dec_str(v as nat))),
            None => s,
        };
        let s = match self.limit {
            Some(v) => s.push(("limit"@, dec_str(v as nat))),
            None => s,
        };
        s
    }

    fn method(&self) -> Method {
        Method::Get
    }

    fn endpoint(&self) -> (p: String) {
        let mut p = String::new();
        p.append("treaty");
        p.append("/");
        push_dec_u32(&mut p, self.congress as u32);
        p.append("/");
        push_dec_u32(&mut p, self.treaty_number);
        p.append("/");
        p.append(self.treaty_suffix.as_str());
        p.append("/");
        p.append("actions");
        proof {
            assert(p@ =~= self.spec_path());
        }
        p
    }

    fn parameters(&self) -> (q: QueryParams) {
        let mut q = QueryParams::new();
        q.push("format", self.format);
        q.push_opt("offset", self.offset);
        q.push_opt("limit", self.limit);
        proof {
            assert(q@ =~= self.spec_params());
        }
        q
    }
}

/// With only required fields supplied — format defaulted, optional fields
/// absent — the parameters are exactly the default format entry.
pub proof fn lemma_required_only_params(e: Actions)
    requires
        e.format == Format::Json,
        e.offset is None,
        e.limit is None,
    ensures
        e.spec_params() == seq![("format"@, "json"@)],
{
}

/// Path rendering is injective in the path fields: two values of this
/// resource with equal paths have equal path fields.
pub proof fn lemma_path_injective(a: Actions, b: Actions)
    requires
        a.spec_path() == b.spec_path(),
    ensures
        a.congress == b.congress,
        a.treaty_number == b.treaty_number,
        a.treaty_suffix@ == b.treaty_suffix@,
{
    lemma_dec_str_wf(a.congress as nat);
    lemma_dec_str_wf(b.congress as nat);
    lemma_dec_str_wf(a.treaty_number as nat);
    lemma_dec_str_wf(b.treaty_number as nat);
    lemma_tpl3_lit(
        "treaty"@ + sl(),
        "actions"@,
        dec_str(a.congress as nat),
        dec_str(a.treaty_number as nat),
        a.treaty_suffix@,
        dec_str(b.congress as nat),
        dec_str(b.treaty_number as nat),
        b.treaty_suffix@,
    );
    lemma_dec_str_injective(a.congress as nat, b.congress as nat);
    lemma_dec_str_injective(a.treaty_number as nat, b.treaty_number as nat);
}

/// A rendered path never contains a placeholder brace.
pub proof fn lemma_path_placeholder_free(e: Actions)
    requires
        placeholder_free(e.treaty_suffix@),
    ensures
        placeholder_free(e.spec_path()),
{
    reveal_strlit("treaty");
    reveal_strlit("actions");
    lemma_sl_chars();
    lemma_dec_str_wf(e.congress as nat);
    lemma_dec_str_wf(e.treaty_number as nat);
    assert(placeholder_free("treaty"@));
    assert(placeholder_free("actions"@));
    lemma_placeholder_free_cat("treaty"@, sl());
    lemma_placeholder_free_cat("treaty"@ + sl(), dec_str(e.congress as nat));
    lemma_placeholder_free_cat("treaty"@ + sl() + dec_str(e.congress as nat), sl());
    lemma_placeholder_free_cat("treaty"@ + sl() + dec_str(e.congress as nat) + sl(), dec_str(e.treaty_number as nat));
    lemma_placeholder_free_cat("treaty"@ + sl() + dec_str(e.congress as nat) + sl() + dec_str(e.treaty_number as nat), sl());
    lemma_placeholder_free_cat("treaty"@ + sl() + dec_str(e.congress as nat) + sl() + dec_str(e.treaty_number as nat) + sl(), e.treaty_suffix@);
    lemma_placeholder_free_cat("treaty"@ + sl() + dec_str(e.congress as nat) + sl() + dec_str(e.treaty_number as nat) + sl() + e.treaty_suffix@, sl());
    lemma_placeholder_free_cat("treaty"@ + sl() + dec_str(e.congress as nat) + sl() + dec_str(e.treaty_number as nat) + sl() + e.treaty_suffix@ + sl(), "actions"@);
}

} // verus!
