//! Every endpoint builder succeeds once its required fields are supplied.

use cdg::api::amendments::Amendments;
use cdg::api::bill_titles::Titles;
use cdg::api::bound_congressional_record::BoundCongressionalRecord;
use cdg::api::committee_print_text::Text;
use cdg::api::communication_number::CommunicationNumber;
use cdg::api::daily_congressional_record::IssueNumber;
use cdg::api::hearing::Hearing;
use cdg::api::house_requirement::HouseRequirement;
use cdg::api::law_number::LawNumber;
use cdg::api::member::Member;
use cdg::api::requirement_number::RequirementNumber;
use cdg::api::specific_congress::SpecificCongress;
use cdg::api::sponsored_legislation::SponsoredLegislation;
use cdg::api::treaty_number_actions::TreatyNumberActions;
use cdg::api::treaty_suffix::TreatySuffix;
use cdg::common::{BillType, Chamber, CommitteeChamber, CongressionalAmendmentType,
    CongressionalLawType, SenateCommunicationType};

#[test]
fn amendments_is_sufficient() {
    Amendments::builder()
        .congress(117_u8)
        .amendment_type(CongressionalAmendmentType::Samdt)
        .amendment_number(2137_u32)
        .build()
        .unwrap();
}

#[test]
fn titles_bll_is_sufficient() {
    Titles::builder()
        .congress(117_u8)
        .bill_type(BillType::Hr)
        .bill_number(3076_u32)
        .build()
        .unwrap();
}

#[test]
fn bound_congressional_record_is_sufficient() {
    BoundCongressionalRecord::builder().build().unwrap();
}

#[test]
fn nominations_is_sufficient() {
    cdg::api::committee_code_nominations::Nominations::builder()
        .chamber(Chamber::House)
        .committee_code("hspw00")
        .build()
        .unwrap();
}

#[test]
fn senate_communications_is_sufficient() {
    cdg::api::committee_code_communications::SenateCommunication::builder()
        .chamber(Chamber::Senate)
        .committee_code("hspw00")
        .build()
        .unwrap();
}

#[test]
fn senate_communication_is_sufficient() {
    cdg::api::committee_communication::SenateCommunication::builder()
        .chamber(CommitteeChamber::Senate)
        .committee_code("hspw00")
        .build()
        .unwrap();
}

#[test]
fn text_is_sufficient() {
    Text::builder()
        .congress(117_u16)
        .chamber(CommitteeChamber::House)
        .jacket_number(48144_u32)
        .build()
        .unwrap();
}

#[test]
fn specific_congress_bll_is_sufficient() {
    let err = SpecificCongress::builder().build().unwrap_err();
    assert_eq!(err.field_name().as_str(), "congress");
    SpecificCongress::builder().congress(117_u8).build().unwrap();
}

#[test]
fn issue_number_is_sufficient() {
    IssueNumber::builder()
        .volume_number(168_u32)
        .issue_number(153_u32)
        .build()
        .unwrap();
}

#[test]
fn hearing_is_sufficient() {
    Hearing::builder().build().unwrap();
}

#[test]
fn house_requirement_is_sufficient() {
    HouseRequirement::builder().build().unwrap();
}

#[test]
fn requirement_number_is_sufficient() {
    RequirementNumber::builder()
        .requirement_number(8070_u32)
        .build()
        .unwrap();
}

#[test]
fn congress_is_sufficient() {
    cdg::api::law_congress::Summaries::builder()
        .congress(118_u16)
        .build()
        .unwrap();
}

#[test]
fn law_number_is_sufficient() {
    LawNumber::builder()
        .congress(118_u16)
        .law_type(CongressionalLawType::Public)
        .law_number(108)
        .build()
        .unwrap();
}

#[test]
fn sponsored_legislation_is_sufficient() {
    SponsoredLegislation::builder()
        .bioguide_id("L000174")
        .build()
        .unwrap();
}

#[test]
fn member_is_sufficient() {
    Member::builder().build().unwrap();
}

#[test]
fn committees_is_sufficient() {
    cdg::api::nomination_committees::Committees::builder()
        .congress(117_u8)
        .nomination_number(2467_u32)
        .build()
        .unwrap();
}

#[test]
fn actions_is_sufficient() {
    cdg::api::nomination_actions::Actions::builder()
        .congress(117_u8)
        .nomination_number(2467_u32)
        .build()
        .unwrap();
}

#[test]
fn communication_number_is_sufficient() {
    CommunicationNumber::builder()
        .congress(117_u8)
        .communication_type(SenateCommunicationType::Ec)
        .communication_number(2561_u32)
        .build()
        .unwrap();
}

#[test]
fn summaries_is_sufficient() {
    cdg::api::summaries::Summaries::builder().build().unwrap();
}

#[test]
fn bill_type_is_sufficient() {
    cdg::api::summaries_bill_type::BillType::builder()
        .congress(118_u16)
        .bill_type(BillType::Hr)
        .build()
        .unwrap();
}

#[test]
fn treaty_actions_is_sufficient() {
    cdg::api::treaty_actions::Actions::builder()
        .congress(114_u8)
        .treaty_number(13_u32)
        .treaty_suffix("A")
        .build()
        .unwrap();
}

#[test]
fn treaty_number_actions_is_sufficient() {
    TreatyNumberActions::builder()
        .congress(117_u8)
        .treaty_number(3_u32)
        .build()
        .unwrap();
}

#[test]
fn treaty_suffix_is_sufficient() {
    TreatySuffix::builder()
        .congress(114_u8)
        .treaty_number(13_u32)
        .treaty_suffix("A")
        .build()
        .unwrap();
}
