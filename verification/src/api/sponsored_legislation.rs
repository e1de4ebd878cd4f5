//! The `/member/:bioguideId/sponsored-legislation` endpoint.

use vstd::prelude::*;
use vstd::string::*;
use crate::common::{Format};
use crate::endpoint::{Endpoint, Method};
use crate::error::ConstructionError;
use crate::params::QueryParams;
use crate::render::{dec_str, placeholder_free, sl};
use crate::render::{lemma_placeholder_free_cat, lemma_sl_chars, lemma_tpl1_lit};

verus! {

/// Represents the `/member/:bioguideId/sponsored-legislation` endpoint.
#[derive(Debug, Clone)]
pub struct SponsoredLegislation {
    pub bioguide_id: String,
    pub format: Format,
    pub offset: Option<u32>,
    pub limit: Option<u8>,
}

impl SponsoredLegislation {
    pub fn builder() -> (b: SponsoredLegislationBuilder)
        ensures
            b == (SponsoredLegislationBuilder { bioguide_id: None, format: None, offset: None, limit: None }),
    {
        SponsoredLegislationBuilder { bioguide_id: None, format: None, offset: None, limit: None }
    }
}

/// Collects the fields of a `SponsoredLegislation` value; `build` checks that
/// every required field was supplied.
#[derive(Debug, Clone)]
pub struct SponsoredLegislationBuilder {
    pub bioguide_id: Option<String>,
    pub format: Option<Format>,
    pub offset: Option<u32>,
    pub limit: Option<u8>,
}

impl SponsoredLegislationBuilder {
    pub fn bioguide_id(self, value: &str) -> (r: SponsoredLegislationBuilder)
        ensures
            r.bioguide_id matches Some(s) && s@ == value@,
            r.format == self.format,
            r.offset == self.offset,
            r.limit == self.limit,
    {
        SponsoredLegislationBuilder { bioguide_id: Some(value.to_owned()), ..self }
    }

    pub fn format(self, value: Format) -> (r: SponsoredLegislationBuilder)
        ensures
            r == (SponsoredLegislationBuilder { format: Some(value), ..self }),
    {
        SponsoredLegislationBuilder { format: Some(value), ..self }
    }

    pub fn offset(self, value: u32) -> (r: SponsoredLegislationBuilder)
        ensures
            r == (SponsoredLegislationBuilder { offset: Some(value), ..self }),
    {
        SponsoredLegislationBuilder { offset: Some(value), ..self }
    }

    pub fn limit(self, value: u8) -> (r: SponsoredLegislationBuilder)
        ensures
            r == (SponsoredLegislationBuilder { limit: Some(value), ..self }),
    {
        SponsoredLegislationBuilder { limit: Some(value), ..self }
    }

    /// Finalizes the endpoint value.  Fails, naming the first missing
    /// field, exactly when a required field was not supplied; optional
    /// fields default to absent and the format to JSON.
    pub fn build(&self) -> (r: Result<SponsoredLegislation, ConstructionError>)
        ensures
            match r {
                Ok(e) => {
                    &&& self.bioguide_id is Some
                    &&& e == (SponsoredLegislation {
                        bioguide_id: self.bioguide_id->0,
                        format: if self.format is Some { self.format->0 } else { Format::Json },
                        offset: self.offset,
                        limit: self.limit,
                    })
                },
                Err(err) => {
                    &&& !(self.bioguide_id is Some)
                    &&& err.field@ == ({
                        "bioguide_id"@
                    })
                },
            },
    {
        let bioguide_id = match &self.bioguide_id {
            Some(v) => v.clone(),
            None => {
                return Err(ConstructionError::missing("bioguide_id"));
            },
        };
        let format = match self.format {
            Some(f) => f,
            None => Format::Json,
        };
        Ok(
            SponsoredLegislation {
                bioguide_id,
                format,
                offset: self.offset,
                limit: self.limit,
            },
        )
    }
}

impl Endpoint for SponsoredLegislation {
    open spec fn spec_method(&self) -> Method {
        Method::Get
    }

    open spec fn spec_path(&self) -> Seq<char> {
        "member"@ + sl() + self.bioguide_id@ + sl() + "sponsored-legislation"@
    }

    open spec fn spec_params(&self) -> Seq<(Seq<char>, Seq<char>)> {
        let s = seq![("format"@, self.format.tag())];
        let s = match self.offset {
            Some(v) => s.push(("offset"@, dec_str(v as nat))),
            None => s,
        };
        let s = match self.limit {
            Some(v) => s.push(("limit"@, dec_str(v as nat))),
            None => s,
        };
        s
    }

    fn method(&self) -> Method {
        Method::Get
    }

    fn endpoint(&self) -> (p: String) {
        let mut p = String::new();
        p.append("member");
        p.append("/");
        p.append(self.bioguide_id.as_str());
        p.append("/");
        p.append("sponsored-legislation");
        proof {
            assert(p@ =~= self.spec_path());
        }
        p
    }

    fn parameters(&self) -> (q: QueryParams) {
        let mut q = QueryParams::new();
        q.push("format", self.format);
        q.push_opt("offset", self.offset);
        q.push_opt("limit", self.limit);
        proof {
            assert(q@ =~= self.spec_params());
        }
        q
    }
}

/// With only required fields supplied — format defaulted, optional fields
/// absent — the parameters are exactly the default format entry.
pub proof fn lemma_required_only_params(e: SponsoredLegislation)
    requires
        e.format == Format::Json,
        e.offset is None,
        e.limit is None,
    ensures
        e.spec_params() == seq![("format"@, "json"@)],
{
}

/// Path rendering is injective in the path fields: two values of this
/// resource with equal paths have equal path fields.
pub proof fn lemma_path_injective(a: SponsoredLegislation, b: SponsoredLegislation)
    requires
        a.spec_path() == b.spec_path(),
    ensures
        a.bioguide_id@ == b.bioguide_id@,
{
    lemma_tpl1_lit(
        "member"@ + sl(),
        "sponsored-legislation"@,
        a.bioguide_id@,
        b.bioguide_id@,
    );
}

/// A rendered path never contains a placeholder brace.
pub proof fn lemma_path_placeholder_free(e: SponsoredLegislation)
    requires
        placeholder_free(e.bioguide_id@),
    ensures
        placeholder_free(e.spec_path()),
{
    reveal_strlit("member");
    reveal_strlit("sponsored-legislation");
    lemma_sl_chars();
    assert(placeholder_free("member"@));
    assert(placeholder_free("sponsored-legislation"@));
    lemma_placeholder_free_cat("member"@, sl());
    lemma_placeholder_free_cat("member"@ + sl(), e.bioguide_id@);
    lemma_placeholder_free_cat("member"@ + sl() + e.bioguide_id@, sl());
    lemma_placeholder_free_cat("member"@ + sl() + e.bioguide_id@ + sl(), "sponsored-legislation"@);
}

} // verus!
