//! The `/committee/:chamber/:committeeCode/nominations` endpoint.

use vstd::prelude::*;
use vstd::string::*;
use crate::common::{Chamber, Format};
use crate::common::{lemma_chamber_tag_injective, lemma_chamber_tag_wf};
use crate::endpoint::{Endpoint, Method};
use crate::error::ConstructionError;
use crate::params::QueryParams;
use crate::render::{dec_str, placeholder_free, sl};
use crate::render::{lemma_placeholder_free_cat, lemma_sl_chars, lemma_tpl2_lit};

verus! {

/// Represents the `/committee/:chamber/:committeeCode/nominations` endpoint.
#[derive(Debug, Clone)]
pub struct Nominations {
    pub chamber: Chamber,
    pub committee_code: String,
    pub format: Format,
    pub offset: Option<u32>,
    pub limit: Option<u8>,
}

impl Nominations {
    pub fn builder() -> (b: NominationsBuilder)
        ensures
            b == (NominationsBuilder { chamber: None, committee_code: None, format: None, offset: None, limit: None }),
    {
        NominationsBuilder { chamber: None, committee_code: None, format: None, offset: None, limit: None }
    }
}

/// Collects the fields of a `Nominations` value; `build` checks that
/// every required field was supplied.
#[derive(Debug, Clone)]
pub struct NominationsBuilder {
    pub chamber: Option<Chamber>,
    pub committee_code: Option<String>,
    pub format: Option<Format>,
    pub offset: Option<u32>,
    pub limit: Option<u8>,
}

impl NominationsBuilder {
    pub fn chamber(self, value: Chamber) -> (r: NominationsBuilder)
        ensures
            r == (NominationsBuilder { chamber: Some(value), ..self }),
    {
        NominationsBuilder { chamber: Some(value), ..self }
    }

    pub fn committee_code(self, value: &str) -> (r: NominationsBuilder)
        ensures
            r.committee_code matches Some(s) && s@ == value@,
            r.chamber == self.chamber,
            r.format == self.format,
            r.offset == self.offset,
            r.limit == self.limit,
    {
        NominationsBuilder { committee_code: Some(value.to_owned()), ..self }
    }

    pub fn format(self, value: Format) -> (r: NominationsBuilder)
        ensures
            r == (NominationsBuilder { format: Some(value), ..self }),
    {
        NominationsBuilder { format: Some(value), ..self }
    }

    pub fn offset(self, value: u32) -> (r: NominationsBuilder)
        ensures
            r == (NominationsBuilder { offset: Some(value), ..self }),
    {
        NominationsBuilder { offset: Some(value), ..self }
    }

    pub fn limit(self, value: u8) -> (r: NominationsBuilder)
        ensures
            r == (NominationsBuilder { limit: Some(value), ..self }),
    {
        NominationsBuilder { limit: Some(value), ..self }
    }

    /// Finalizes the endpoint value.  Fails, naming the first missing
    /// field, exactly when a required field was not supplied; optional
    /// fields default to absent and the format to JSON.
    pub fn build(&self) -> (r: Result<Nominations, ConstructionError>)
        ensures
            match r {
                Ok(e) => {
                    &&& self.chamber is Some
                    &&& self.committee_code is Some
                    &&& e == (Nominations {
                        chamber: self.chamber->0,
                        committee_code: self.committee_code->0,
                        format: if self.format is Some { self.format->0 } else { Format::Json },
                        offset: self.offset,
                        limit: self.limit,
                    })
                },
                Err(err) => {
                    &&& !(self.chamber is Some && self.committee_code is Some)
                    &&& err.field@ == (if self.chamber is None {
                        "chamber"@
                    } else {
                        "committee_code"@
                    })
                },
            },
    {
        let chamber = match self.chamber {
            Some(v) => v,
            None => {
                return Err(ConstructionError::missing("chamber"));
            },
        };
        let committee_code = match &self.committee_code {
            Some(v) => v.clone(),
            None => {
                return Err(ConstructionError::missing("committee_code"));
            },
        };
        let format = match self.format {
            Some(f) => f,
            None => Format::Json,
        };
        Ok(
            Nominations {
                chamber,
                committee_code,
                format,
                offset: self.offset,
                limit: self.limit,
            },
        )
    }
}

impl Endpoint for Nominations {
    open spec fn spec_method(&self) -> Method {
        Method::Get
    }

    open spec fn spec_path(&self) -> Seq<char> {
        "committee"@ + sl() + self.chamber.tag() + sl() + self.committee_code@ + sl() + "nominations"@
    }

    open spec fn spec_params(&self) -> Seq<(Seq<char>, Seq<char>)> {
        let s = seq![("format"@, self.format.tag())];
        let s = match self.offset {
            Some(v) => s.push(("offset"@, dec_str(v as nat))),
            None => s,
        };
        let s = match self.limit {
            Some(v) => s.push(("limit"@, dec_str(v as nat))),
            None => s,
        };
        s
    }

    fn method(&self) -> Method {
        Method::Get
    }

    fn endpoint(&self) -> (p: String) {
        let mut p = String::new();
        p.append("committee");
        p.append("/");
        p.append(self.chamber.as_str());
        p.append("/");
        p.append(self.committee_code.as_str());
        p.append("/");
        p.append("nominations");
        proof {
            assert(p@ =~= self.spec_path());
        }
        p
    }

    fn parameters(&self) -> (q: QueryParams) {
        let mut q = QueryParams::new();
        q.push("format", self.format);
        q.push_opt("offset", self.offset);
        q.push_opt("limit", self.limit);
        proof {
            assert(q@ =~= self.spec_params());
        }
        q
    }
}

/// With only required fields supplied — format defaulted, optional fields
/// absent — the parameters are exactly the default format entry.
pub proof fn lemma_required_only_params(e: Nominations)
    requires
        e.format == Format::Json,
        e.offset is None,
        e.limit is None,
    ensures
        e.spec_params() == seq![("format"@, "json"@)],
{
}

/// Path rendering is injective in the path fields: two values of this
/// resource with equal paths have equal path fields.
pub proof fn lemma_path_injective(a: Nominations, b: Nominations)
    requires
        a.spec_path() == b.spec_path(),
    ensures
        a.chamber == b.chamber,
        a.committee_code@ == b.committee_code@,
{
    lemma_chamber_tag_wf(a.chamber);
    lemma_chamber_tag_wf(b.chamber);
    lemma_tpl2_lit(
        "committee"@ + sl(),
        "nominations"@,
        a.chamber.tag(),
        a.committee_code@,
        b.chamber.tag(),
        b.committee_code@,
    );
    lemma_chamber_tag_injective(a.chamber, b.chamber);
}

/// A rendered path never contains a placeholder brace.
pub proof fn lemma_path_placeholder_free(e: Nominations)
    requires
        placeholder_free(e.committee_code@),
    ensures
        placeholder_free(e.spec_path()),
{
    reveal_strlit("committee");
    reveal_strlit("nominations");
    lemma_sl_chars();
    lemma_chamber_tag_wf(e.chamber);
    assert(placeholder_free("committee"@));
    assert(placeholder_free("nominations"@));
    lemma_placeholder_free_cat("committee"@, sl());
    lemma_placeholder_free_cat("committee"@ + sl(), e.chamber.tag());
    lemma_placeholder_free_cat("committee"@ + sl() + e.chamber.tag(), sl());
    lemma_placeholder_free_cat("committee"@ + sl() + e.chamber.tag() + sl(), e.committee_code@);
    lemma_placeholder_free_cat("committee"@ + sl() + e.chamber.tag() + sl() + e.committee_code@, sl());
    lemma_placeholder_free_cat("committee"@ + sl() + e.chamber.tag() + sl() + e.committee_code@ + sl(), "nominations"@);
}

} // verus!
