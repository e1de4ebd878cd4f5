//! Enumerations shared across endpoints.  Each is a closed set of
//! string-valued tags; the wire tag of a variant is stable and is the sole
//! contract other systems depend on.

use vstd::prelude::*;
use vstd::string::*;
use crate::render::{slash_free, placeholder_free};

verus! {

/// The response format the service can return.  The default is JSON.
#[derive(Debug, Clone, Copy, PartialEq, Eq, Structural)]
pub enum Format {
    Json,
    Xml,
}

impl Format {
    /// The canonical wire tag of this variant.
    pub open spec fn tag(self) -> Seq<char> {
        match self {
            Format::Json => "json"@,
            Format::Xml => "xml"@,
        }
    }

    pub fn as_str(self) -> (r: &'static str)
        ensures
            r@ == self.tag(),
    {
        match self {
            Format::Json => "json",
            Format::Xml => "xml",
        }
    }
}

impl Default for Format {
    fn default() -> (r: Format)
        ensures
            r == Format::Json,
    {
        Format::Json
    }
}

impl crate::params::Render for Format {
    open spec fn rendered(&self) -> Seq<char> {
        self.tag()
    }

    fn render(&self) -> (s: String) {
        String::from_str(self.as_str())
    }
}

/// The sort order some endpoints accept for their result lists.
#[derive(Debug, Clone, Copy, PartialEq, Eq, Structural)]
pub enum Sort {
    /// Ascending order.
    Asc,
    /// Descending order.
    Desc,
}

impl Sort {
    /// The canonical wire tag of this variant.
    pub open spec fn tag(self) -> Seq<char> {
        match self {
            Sort::Asc => "asc"@,
            Sort::Desc => "desc"@,
        }
    }

    pub fn as_str(self) -> (r: &'static str)
        ensures
            r@ == self.tag(),
    {
        match self {
            Sort::Asc => "asc",
            Sort::Desc => "desc",
        }
    }
}

impl Default for Sort {
    fn default() -> (r: Sort)
        ensures
            r == Sort::Asc,
    {
        Sort::Asc
    }
}

impl crate::params::Render for Sort {
    open spec fn rendered(&self) -> Seq<char> {
        self.tag()
    }

    fn render(&self) -> (s: String) {
        String::from_str(self.as_str())
    }
}

/// The Congressional bill types of both the House of Representatives and
/// the Senate.
#[derive(Debug, Clone, Copy, PartialEq, Eq, Structural)]
pub enum BillType {
    /// H.R. - House bill.
    Hr,
    /// S. - Senate bill.
    S,
    /// H.J. Res. - House joint resolution.
    Hjres,
    /// S.J. Res. - Senate joint resolution.
    Sjres,
    /// H. Con. Res. - House concurrent resolution.
    Hconres,
    /// S. Con. Res. - Senate concurrent resolution.
    Sconres,
    /// H. Res. - House simple resolution.
    Hres,
    /// S. Res. - Senate simple resolution.
    Sres,
}

impl BillType {
    /// The canonical wire tag of this variant.
    pub open spec fn tag(self) -> Seq<char> {
        match self {
            BillType::Hr => "hr"@,
            BillType::S => "s"@,
            BillType::Hjres => "hjres"@,
            BillType::Sjres => "sjres"@,
            BillType::Hconres => "hconres"@,
            BillType::Sconres => "sconres"@,
            BillType::Hres => "hres"@,
            BillType::Sres => "sres"@,
        }
    }

    pub fn as_str(self) -> (r: &'static str)
        ensures
            r@ == self.tag(),
    {
        match self {
            BillType::Hr => "hr",
            BillType::S => "s",
            BillType::Hjres => "hjres",
            BillType::Sjres => "sjres",
            BillType::Hconres => "hconres",
            BillType::Sconres => "sconres",
            BillType::Hres => "hres",
            BillType::Sres => "sres",
        }
    }
}

/// Distinct bill types have distinct wire tags.
pub proof fn lemma_bill_type_tag_injective(a: BillType, b: BillType)
    requires
        a.tag() == b.tag(),
    ensures
        a == b,
{
    reveal_strlit("hr");
    reveal_strlit("s");
    reveal_strlit("hjres");
    reveal_strlit("sjres");
    reveal_strlit("hconres");
    reveal_strlit("sconres");
    reveal_strlit("hres");
    reveal_strlit("sres");
    match a {
        BillType::Hr => {
            assert(a.tag() == "hr"@);
            assert(a.tag()[0] == 'h');
        },
        BillType::S => {
            assert(a.tag() == "s"@);
            assert(a.tag()[0] == 's');
        },
        BillType::Hjres => {
            assert(a.tag() == "hjres"@);
            assert(a.tag()[0] == 'h');
        },
        BillType::Sjres => {
            assert(a.tag() == "sjres"@);
            assert(a.tag()[0] == 's');
        },
        BillType::Hconres => {
            assert(a.tag() == "hconres"@);
            assert(a.tag()[0] == 'h');
        },
        BillType::Sconres => {
            assert(a.tag() == "sconres"@);
            assert(a.tag()[0] == 's');
        },
        BillType::Hres => {
            assert(a.tag() == "hres"@);
            assert(a.tag()[0] == 'h');
        },
        BillType::Sres => {
            assert(a.tag() == "sres"@);
            assert(a.tag()[0] == 's');
        },
    }
    match b {
        BillType::Hr => {
            assert(b.tag() == "hr"@);
            assert(b.tag()[0] == 'h');
        },
        BillType::S => {
            assert(b.tag() == "s"@);
            assert(b.tag()[0] == 's');
        },
        BillType::Hjres => {
            assert(b.tag() == "hjres"@);
            assert(b.tag()[0] == 'h');
        },
        BillType::Sjres => {
            assert(b.tag() == "sjres"@);
            assert(b.tag()[0] == 's');
        },
        BillType::Hconres => {
            assert(b.tag() == "hconres"@);
            assert(b.tag()[0] == 'h');
        },
        BillType::Sconres => {
            assert(b.tag() == "sconres"@);
            assert(b.tag()[0] == 's');
        },
        BillType::Hres => {
            assert(b.tag() == "hres"@);
            assert(b.tag()[0] == 'h');
        },
        BillType::Sres => {
            assert(b.tag() == "sres"@);
            assert(b.tag()[0] == 's');
        },
    }
}

/// A bill-type tag holds neither a path separator nor a placeholder brace.
pub proof fn lemma_bill_type_tag_wf(t: BillType)
    ensures
        slash_free(t.tag()),
        placeholder_free(t.tag()),
{
    reveal_strlit("hr");
    reveal_strlit("s");
    reveal_strlit("hjres");
    reveal_strlit("sjres");
    reveal_strlit("hconres");
    reveal_strlit("sconres");
    reveal_strlit("hres");
    reveal_strlit("sres");
}

/// Chamber options for the committee endpoints that can also address
/// committees outside either chamber.
#[derive(Debug, Clone, Copy, PartialEq, Eq, Structural)]
pub enum CommitteeChamber {
    House,
    Senate,
    NoChamber,
}

impl CommitteeChamber {
    /// The canonical wire tag of this variant.
    pub open spec fn tag(self) -> Seq<char> {
        match self {
            CommitteeChamber::House => "house"@,
            CommitteeChamber::Senate => "senate"@,
            CommitteeChamber::NoChamber => "nochamber"@,
        }
    }

    pub fn as_str(self) -> (r: &'static str)
        ensures
            r@ == self.tag(),
    {
        match self {
            CommitteeChamber::House => "house",
            CommitteeChamber::Senate => "senate",
            CommitteeChamber::NoChamber => "nochamber",
        }
    }
}

/// Distinct committee chambers have distinct wire tags.
pub proof fn lemma_committee_chamber_tag_injective(a: CommitteeChamber, b: CommitteeChamber)
    requires
        a.tag() == b.tag(),
    ensures
        a == b,
{
    reveal_strlit("house");
    reveal_strlit("senate");
    reveal_strlit("nochamber");
    match a {
        CommitteeChamber::House => assert(a.tag() == "house"@),
        CommitteeChamber::Senate => assert(a.tag() == "senate"@),
        CommitteeChamber::NoChamber => assert(a.tag() == "nochamber"@),
    }
    match b {
        CommitteeChamber::House => assert(b.tag() == "house"@),
        CommitteeChamber::Senate => assert(b.tag() == "senate"@),
        CommitteeChamber::NoChamber => assert(b.tag() == "nochamber"@),
    }
}

/// A committee-chamber tag holds neither a path separator nor a
/// placeholder brace.
pub proof fn lemma_committee_chamber_tag_wf(t: CommitteeChamber)
    ensures
        slash_free(t.tag()),
        placeholder_free(t.tag()),
{
    reveal_strlit("house");
    reveal_strlit("senate");
    reveal_strlit("nochamber");
}

/// The chamber a specific committee belongs to.  Unlike
/// `CommitteeChamber`, a specific committee is always of one chamber.
#[derive(Debug, Clone, Copy, PartialEq, Eq, Structural)]
pub enum Chamber {
    House,
    Senate,
}

impl Chamber {
    /// The canonical wire tag of this variant.
    pub open spec fn tag(self) -> Seq<char> {
        match self {
            Chamber::House => "house"@,
            Chamber::Senate => "senate"@,
        }
    }

    pub fn as_str(self) -> (r: &'static str)
        ensures
            r@ == self.tag(),
    {
        match self {
            Chamber::House => "house",
            Chamber::Senate => "senate",
        }
    }
}

/// Distinct chambers have distinct wire tags.
pub proof fn lemma_chamber_tag_injective(a: Chamber, b: Chamber)
    requires
        a.tag() == b.tag(),
    ensures
        a == b,
{
    reveal_strlit("house");
    reveal_strlit("senate");
    match a {
        Chamber::House => assert(a.tag() == "house"@),
        Chamber::Senate => assert(a.tag() == "senate"@),
    }
    match b {
        Chamber::House => assert(b.tag() == "house"@),
        Chamber::Senate => assert(b.tag() == "senate"@),
    }
}

/// A chamber tag holds neither a path separator nor a placeholder brace.
pub proof fn lemma_chamber_tag_wf(t: Chamber)
    ensures
        slash_free(t.tag()),
        placeholder_free(t.tag()),
{
    reveal_strlit("house");
    reveal_strlit("senate");
}

/// The Congressional amendment types.
#[derive(Debug, Clone, Copy, PartialEq, Eq, Structural)]
pub enum CongressionalAmendmentType {
    /// H.Amdt. - House amendment.
    Hamdt,
    /// S.Amdt. - Senate amendment.
    Samdt,
    /// S.Unamdt. - Senate unprinted amendment.
    Suamdt,
}

impl CongressionalAmendmentType {
    /// The canonical wire tag of this variant.
    pub open spec fn tag(self) -> Seq<char> {
        match self {
            CongressionalAmendmentType::Hamdt => "hamdt"@,
            CongressionalAmendmentType::Samdt => "samdt"@,
            CongressionalAmendmentType::Suamdt => "suamdt"@,
        }
    }

    pub fn as_str(self) -> (r: &'static str)
        ensures
            r@ == self.tag(),
    {
        match self {
            CongressionalAmendmentType::Hamdt => "hamdt",
            CongressionalAmendmentType::Samdt => "samdt",
            CongressionalAmendmentType::Suamdt => "suamdt",
        }
    }
}

/// Distinct amendment types have distinct wire tags.
pub proof fn lemma_amendment_type_tag_injective(
    a: CongressionalAmendmentType,
    b: CongressionalAmendmentType,
)
    requires
        a.tag() == b.tag(),
    ensures
        a == b,
{
    reveal_strlit("hamdt");
    reveal_strlit("samdt");
    reveal_strlit("suamdt");
    match a {
        CongressionalAmendmentType::Hamdt => {
            assert(a.tag() == "hamdt"@);
            assert(a.tag()[0] == 'h');
        },
        CongressionalAmendmentType::Samdt => {
            assert(a.tag() == "samdt"@);
            assert(a.tag()[0] == 's');
        },
        CongressionalAmendmentType::Suamdt => {
            assert(a.tag() == "suamdt"@);
            assert(a.tag()[0] == 's');
        },
    }
    match b {
        CongressionalAmendmentType::Hamdt => {
            assert(b.tag() == "hamdt"@);
            assert(b.tag()[0] == 'h');
        },
        CongressionalAmendmentType::Samdt => {
            assert(b.tag() == "samdt"@);
            assert(b.tag()[0] == 's');
        },
        CongressionalAmendmentType::Suamdt => {
            assert(b.tag() == "suamdt"@);
            assert(b.tag()[0] == 's');
        },
    }
}

/// An amendment-type tag holds neither a path separator nor a placeholder
/// brace.
pub proof fn lemma_amendment_type_tag_wf(t: CongressionalAmendmentType)
    ensures
        slash_free(t.tag()),
        placeholder_free(t.tag()),
{
    reveal_strlit("hamdt");
    reveal_strlit("samdt");
    reveal_strlit("suamdt");
}

/// The Congressional law types: public laws and private laws.
#[derive(Debug, Clone, Copy, PartialEq, Eq, Structural)]
pub enum CongressionalLawType {
    /// A public law.
    Public,
    /// A private law.
    Private,
}

impl CongressionalLawType {
    /// The canonical wire tag of this variant.
    pub open spec fn tag(self) -> Seq<char> {
        match self {
            CongressionalLawType::Public => "pub"@,
            CongressionalLawType::Private => "priv"@,
        }
    }

    pub fn as_str(self) -> (r: &'static str)
        ensures
            r@ == self.tag(),
    {
        match self {
            CongressionalLawType::Public => "pub",
            CongressionalLawType::Private => "priv",
        }
    }
}

impl Default for CongressionalLawType {
    fn default() -> (r: CongressionalLawType)
        ensures
            r == CongressionalLawType::Public,
    {
        CongressionalLawType::Public
    }
}

/// Distinct law types have distinct wire tags.
pub proof fn lemma_law_type_tag_injective(a: CongressionalLawType, b: CongressionalLawType)
    requires
        a.tag() == b.tag(),
    ensures
        a == b,
{
    reveal_strlit("pub");
    reveal_strlit("priv");
    match a {
        CongressionalLawType::Public => assert(a.tag() == "pub"@),
        CongressionalLawType::Private => assert(a.tag() == "priv"@),
    }
    match b {
        CongressionalLawType::Public => assert(b.tag() == "pub"@),
        CongressionalLawType::Private => assert(b.tag() == "priv"@),
    }
}

/// A law-type tag holds neither a path separator nor a placeholder brace.
pub proof fn lemma_law_type_tag_wf(t: CongressionalLawType)
    ensures
        slash_free(t.tag()),
        placeholder_free(t.tag()),
{
    reveal_strlit("pub");
    reveal_strlit("priv");
}

/// The Senate communication types.
#[derive(Debug, Clone, Copy, PartialEq, Eq, Structural)]
pub enum SenateCommunicationType {
    /// Executive communication.
    Ec,
    /// Presidential message.
    Pm,
    /// Petition or memorial.
    Pom,
}

impl SenateCommunicationType {
    /// The canonical wire tag of this variant.
    pub open spec fn tag(self) -> Seq<char> {
        match self {
            SenateCommunicationType::Ec => "ec"@,
            SenateCommunicationType::Pm => "pm"@,
            SenateCommunicationType::Pom => "pom"@,
        }
    }

    pub fn as_str(self) -> (r: &'static str)
        ensures
            r@ == self.tag(),
    {
        match self {
            SenateCommunicationType::Ec => "ec",
            SenateCommunicationType::Pm => "pm",
            SenateCommunicationType::Pom => "pom",
        }
    }
}

/// Distinct communication types have distinct wire tags.
pub proof fn lemma_communication_type_tag_injective(
    a: SenateCommunicationType,
    b: SenateCommunicationType,
)
    requires
        a.tag() == b.tag(),
    ensures
        a == b,
{
    reveal_strlit("ec");
    reveal_strlit("pm");
    reveal_strlit("pom");
    match a {
        SenateCommunicationType::Ec => {
            assert(a.tag() == "ec"@);
            assert(a.tag()[0] == 'e');
        },
        SenateCommunicationType::Pm => {
            assert(a.tag() == "pm"@);
            assert(a.tag()[0] == 'p');
        },
        SenateCommunicationType::Pom => {
            assert(a.tag() == "pom"@);
            assert(a.tag()[0] == 'p');
        },
    }
    match b {
        SenateCommunicationType::Ec => {
            assert(b.tag() == "ec"@);
            assert(b.tag()[0] == 'e');
        },
        SenateCommunicationType::Pm => {
            assert(b.tag() == "pm"@);
            assert(b.tag()[0] == 'p');
        },
        SenateCommunicationType::Pom => {
            assert(b.tag() == "pom"@);
            assert(b.tag()[0] == 'p');
        },
    }
}

/// A communication-type tag holds neither a path separator nor a
/// placeholder brace.
pub proof fn lemma_communication_type_tag_wf(t: SenateCommunicationType)
    ensures
        slash_free(t.tag()),
        placeholder_free(t.tag()),
{
    reveal_strlit("ec");
    reveal_strlit("pm");
    reveal_strlit("pom");
}

} // verus!
