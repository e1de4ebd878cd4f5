//! The `/senate-communication/:congress/:communicationType/:communicationNumber` endpoint.

use vstd::prelude::*;
use vstd::string::*;
use crate::common::{Format, SenateCommunicationType};
use crate::common::{lemma_communication_type_tag_injective, lemma_communication_type_tag_wf};
use crate::endpoint::{Endpoint, Method};
use crate::error::ConstructionError;
use crate::params::QueryParams;
use crate::render::{dec_str, placeholder_free, sl};
use crate::render::{lemma_dec_str_injective, lemma_dec_str_wf, lemma_placeholder_free_cat, lemma_sl_chars, lemma_tpl3, push_dec_u32};

verus! {

/// Represents the `/senate-communication/:congress/:communicationType/:communicationNumber` endpoint.
#[derive(Debug, Clone, Copy)]
pub struct CommunicationNumber {
    pub congress: u8,
    pub communication_type: SenateCommunicationType,
    pub communication_number: u32,
    pub format: Format,
}

impl CommunicationNumber {
    pub fn builder() -> (b: CommunicationNumberBuilder)
        ensures
            b == (CommunicationNumberBuilder { congress: None, communication_type: None, communication_number: None, format: None }),
    {
        CommunicationNumberBuilder { congress: None, communication_type: None, communication_number: None, format: None }
    }
}

/// Collects the fields of a `CommunicationNumber` value; `build` checks that
/// every required field was supplied.
#[derive(Debug, Clone, Copy)]
pub struct CommunicationNumberBuilder {
    pub congress: Option<u8>,
    pub communication_type: Option<SenateCommunicationType>,
    pub communication_number: Option<u32>,
    pub format: Option<Format>,
}

impl CommunicationNumberBuilder {
    pub fn congress(self, value: u8) -> (r: CommunicationNumberBuilder)
        ensures
            r == (CommunicationNumberBuilder { congress: Some(value), ..self }),
    {
        CommunicationNumberBuilder { congress: Some(value), ..self }
    }

    pub fn communication_type(self, value: SenateCommunicationType) -> (r: CommunicationNumberBuilder)
        ensures
            r == (CommunicationNumberBuilder { communication_type: Some(value), ..self }),
    {
        CommunicationNumberBuilder { communication_type: Some(value), ..self }
    }

    pub fn communication_number(self, value: u32) -> (r: CommunicationNumberBuilder)
        ensures
            r == (CommunicationNumberBuilder { communication_number: Some(value), ..self }),
    {
        CommunicationNumberBuilder { communication_number: Some(value), ..self }
    }

    pub fn format(self, value: Format) -> (r: CommunicationNumberBuilder)
        ensures
            r == (CommunicationNumberBuilder { format: Some(value), ..self }),
    {
        CommunicationNumberBuilder { format: Some(value), ..self }
    }

    /// Finalizes the endpoint value.  Fails, naming the first missing
    /// field, exactly when a required field was not supplied; optional
    /// fields default to absent and the format to JSON.
    pub fn build(&self) -> (r: Result<CommunicationNumber, ConstructionError>)
        ensures
            match r {
                Ok(e) => {
                    &&& self.congress is Some
                    &&& self.communication_type is Some
                    &&& self.communication_number is Some
                    &&& e == (CommunicationNumber {
                        congress: self.congress->0,
                        communication_type: self.communication_type->0,
                        communication_number: self.communication_number->0,
                        format: if self.format is Some { self.format->0 } else { Format::Json },
                    })
                },
                Err(err) => {
                    &&& !(self.congress is Some && self.communication_type is Some && self.communication_number is Some)
                    &&& err.field@ == (if self.congress is None {
                        "congress"@
                    } else if self.communication_type is None {
                        "communication_type"@
                    } else {
                        "communication_number"@
                    })
                },
            },
    {
        let congress = match self.congress {
            Some(v) => v,
            None => {
                return Err(ConstructionError::missing("congress"));
            },
        };
        let communication_type = match self.communication_type {
            Some(v) => v,
            None => {
                return Err(ConstructionError::missing("communication_type"));
            },
        };
        let communication_number = match self.communication_number {
            Some(v) => v,
            None => {
                return Err(ConstructionError::missing("communication_number"));
            },
        };
        let format = match self.format {
            Some(f) => f,
            None => Format::Json,
        };
        Ok(
            CommunicationNumber {
                congress,
                communication_type,
                communication_number,
                format,
            },
        )
    }
}

impl Endpoint for CommunicationNumber {
    open spec fn spec_method(&self) -> Method {
        Method::Get
    }

    open spec fn spec_path(&self) -> Seq<char> {
        "senate-communication"@ + sl() + dec_str(self.congress as nat) + sl() + self.communication_type.tag() + sl() + dec_str(self.communication_number as nat)
    }

    open spec fn spec_params(&self) -> Seq<(Seq<char>, Seq<char>)> {
        let s = seq![("format"@, self.format.tag())];
        s
    }

    fn method(&self) -> Method {
        Method::Get
    }

    fn endpoint(&self) -> (p: String) {
        let mut p = String::new();
        p.append("senate-communication");
        p.append("/");
        push_dec_u32(&mut p, self.congress as u32);
        p.append("/");
        p.append(self.communication_type.as_str());
        p.append("/");
        push_dec_u32(&mut p, self.communication_number);
        proof {
            assert(p@ =~= self.spec_path());
        }
        p
    }

    fn parameters(&self) -> (q: QueryParams) {
        let mut q = QueryParams::new();
        q.push("format", self.format);
        proof {
            assert(q@ =~= self.spec_params());
        }
        q
    }
}

/// With only required fields supplied — format defaulted, optional fields
/// absent — the parameters are exactly the default format entry.
pub proof fn lemma_required_only_params(e: CommunicationNumber)
    requires
        e.format == Format::Json,
    ensures
        e.spec_params() == seq![("format"@, "json"@)],
{
}

/// Path rendering is injective in the path fields: two values of this
/// resource with equal paths have equal path fields.
pub proof fn lemma_path_injective(a: CommunicationNumber, b: CommunicationNumber)
    requires
        a.spec_path() == b.spec_path(),
    ensures
        a.congress == b.congress,
        a.communication_type == b.communication_type,
        a.communication_number == b.communication_number,
{
    lemma_dec_str_wf(a.congress as nat);
    lemma_dec_str_wf(b.congress as nat);
    lemma_communication_type_tag_wf(a.communication_type);
    lemma_communication_type_tag_wf(b.communication_type);
    lemma_dec_str_wf(a.communication_number as nat);
    lemma_dec_str_wf(b.communication_number as nat);
    lemma_tpl3(
        "senate-communication"@ + sl(),
        dec_str(a.congress as nat),
        a.communication_type.tag(),
        dec_str(a.communication_number as nat),
        dec_str(b.congress as nat),
        b.communication_type.tag(),
        dec_str(b.communication_number as nat),
    );
    lemma_dec_str_injective(a.congress as nat, b.congress as nat);
    lemma_communication_type_tag_injective(a.communication_type, b.communication_type);
    lemma_dec_str_injective(a.communication_number as nat, b.communication_number as nat);
}

/// A rendered path never contains a placeholder brace.
pub proof fn lemma_path_placeholder_free(e: CommunicationNumber)
    ensures
        placeholder_free(e.spec_path()),
{
    reveal_strlit("senate-communication");
    lemma_sl_chars();
    lemma_dec_str_wf(e.congress as nat);
    lemma_communication_type_tag_wf(e.communication_type);
    lemma_dec_str_wf(e.communication_number as nat);
    assert(placeholder_free("senate-communication"@));
    lemma_placeholder_free_cat("senate-communication"@, sl());
    lemma_placeholder_free_cat("senate-communication"@ + sl(), dec_str(e.congress as nat));
    lemma_placeholder_free_cat("senate-communication"@ + sl() + dec_str(e.congress as nat), sl());
    lemma_placeholder_free_cat("senate-communication"@ + sl() + dec_str(e.congress as nat) + sl(), e.communication_type.tag());
    lemma_placeholder_free_cat("senate-communication"@ + sl() + dec_str(e.congress as nat) + sl() + e.communication_type.tag(), sl());
    lemma_placeholder_free_cat("senate-communication"@ + sl() + dec_str(e.congress as nat) + sl() + e.communication_type.tag() + sl(), dec_str(e.communication_number as nat));
}

} // verus!
