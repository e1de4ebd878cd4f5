//! End-to-end checks of path rendering, parameter collection, and the
//! builder's required-field validation.

use cdg::api::amendments::Amendments;
use cdg::api::bill_titles::Titles;
use cdg::api::house_requirement::HouseRequirement;
use cdg::common::{BillType, CongressionalAmendmentType, Format};
use cdg::endpoint::{Endpoint, Method};
use cdg::params::QueryParams;

fn pairs_of(q: &QueryParams) -> Vec<(String, String)> {
    let mut v = Vec::new();
    let mut i: usize = 0;
    while i < q.len() {
        v.push((q.name_at(i).clone(), q.value_at(i).clone()));
        i += 1;
    }
    v
}

#[test]
fn amendment_sub_resource_end_to_end() {
    let e = Amendments::builder()
        .congress(117_u8)
        .amendment_type(CongressionalAmendmentType::Samdt)
        .amendment_number(2137_u32)
        .build()
        .unwrap();
    assert_eq!(e.endpoint().as_str(), "amendment/117/samdt/2137/amendments");
    assert_eq!(
        pairs_of(&e.parameters()),
        vec![("format".to_string(), "json".to_string())]
    );
    assert_eq!(e.method(), Method::Get);
}

#[test]
fn bill_titles_end_to_end() {
    let e = Titles::builder()
        .congress(117_u8)
        .bill_type(BillType::Hr)
        .bill_number(3076_u32)
        .offset(10_u32)
        .limit(5_u8)
        .build()
        .unwrap();
    assert_eq!(e.endpoint().as_str(), "bill/117/hr/3076/titles");
    assert_eq!(
        pairs_of(&e.parameters()),
        vec![
            ("format".to_string(), "json".to_string()),
            ("offset".to_string(), "10".to_string()),
            ("limit".to_string(), "5".to_string()),
        ]
    );
}

#[test]
fn no_parameter_resource_end_to_end() {
    let e = HouseRequirement::builder().build().unwrap();
    assert_eq!(e.endpoint().as_str(), "house-requirement");
    assert_eq!(
        pairs_of(&e.parameters()),
        vec![("format".to_string(), "json".to_string())]
    );
}

#[test]
fn xml_format_changes_only_format_parameter() {
    let json = Amendments::builder()
        .congress(117_u8)
        .amendment_type(CongressionalAmendmentType::Samdt)
        .amendment_number(2137_u32)
        .build()
        .unwrap();
    let xml = Amendments::builder()
        .congress(117_u8)
        .amendment_type(CongressionalAmendmentType::Samdt)
        .amendment_number(2137_u32)
        .format(Format::Xml)
        .build()
        .unwrap();
    assert_eq!(json.endpoint(), xml.endpoint());
    let pj = pairs_of(&json.parameters());
    let px = pairs_of(&xml.parameters());
    assert_eq!(pj.len(), px.len());
    assert_eq!(px[0], ("format".to_string(), "xml".to_string()));
    assert_eq!(pj[0], ("format".to_string(), "json".to_string()));
    assert_eq!(&pj[1..], &px[1..]);
}

#[test]
fn push_opt_absent_is_a_no_op() {
    let mut q = QueryParams::new();
    q.push("format", Format::Json);
    let before = pairs_of(&q);
    q.push_opt("offset", None::<u32>);
    q.push_opt("limit", None::<u8>);
    assert_eq!(pairs_of(&q), before);
}

#[test]
fn push_keeps_insertion_order_and_duplicates() {
    let mut q = QueryParams::new();
    q.push("offset", 1_u32);
    q.push("offset", 2_u32);
    q.push_opt("limit", Some(3_u8));
    assert_eq!(
        pairs_of(&q),
        vec![
            ("offset".to_string(), "1".to_string()),
            ("offset".to_string(), "2".to_string()),
            ("limit".to_string(), "3".to_string()),
        ]
    );
}

#[test]
fn parameters_are_stable_across_calls() {
    let e = Titles::builder()
        .congress(117_u8)
        .bill_type(BillType::Hr)
        .bill_number(3076_u32)
        .offset(10_u32)
        .build()
        .unwrap();
    assert_eq!(pairs_of(&e.parameters()), pairs_of(&e.parameters()));
    assert_eq!(e.endpoint(), e.endpoint());
}

#[test]
fn missing_required_fields_are_named_in_order() {
    let err = Amendments::builder().build().unwrap_err();
    assert_eq!(err.field_name().as_str(), "congress");
    let err = Amendments::builder().congress(117_u8).build().unwrap_err();
    assert_eq!(err.field_name().as_str(), "amendment_type");
    let err = Amendments::builder()
        .congress(117_u8)
        .amendment_type(CongressionalAmendmentType::Samdt)
        .build()
        .unwrap_err();
    assert_eq!(err.field_name().as_str(), "amendment_number");
}

#[test]
fn missing_string_field_is_named() {
    let err = cdg::api::committee_code_nominations::Nominations::builder()
        .chamber(cdg::common::Chamber::House)
        .build()
        .unwrap_err();
    assert_eq!(err.field_name().as_str(), "committee_code");
    let err = cdg::api::sponsored_legislation::SponsoredLegislation::builder()
        .build()
        .unwrap_err();
    assert_eq!(err.field_name().as_str(), "bioguide_id");
}

#[test]
fn every_path_field_is_required() {
    let err = cdg::api::law_number::LawNumber::builder()
        .congress(118_u16)
        .build()
        .unwrap_err();
    assert_eq!(err.field_name().as_str(), "law_type");
    let err = cdg::api::law_number::LawNumber::builder()
        .congress(118_u16)
        .law_type(cdg::common::CongressionalLawType::Public)
        .build()
        .unwrap_err();
    assert_eq!(err.field_name().as_str(), "law_number");
    let e = cdg::api::law_number::LawNumber::builder()
        .congress(118_u16)
        .law_type(cdg::common::CongressionalLawType::Public)
        .law_number(108)
        .build()
        .unwrap();
    assert_eq!(e.endpoint().as_str(), "law/118/pub/108");
    let err = cdg::api::communication_number::CommunicationNumber::builder()
        .communication_type(cdg::common::SenateCommunicationType::Ec)
        .communication_number(2561_u32)
        .build()
        .unwrap_err();
    assert_eq!(err.field_name().as_str(), "congress");
    let e = cdg::api::communication_number::CommunicationNumber::builder()
        .congress(117_u8)
        .communication_type(cdg::common::SenateCommunicationType::Ec)
        .communication_number(2561_u32)
        .build()
        .unwrap();
    assert_eq!(e.endpoint().as_str(), "senate-communication/117/ec/2561");
}

#[test]
fn string_path_field_is_substituted_verbatim() {
    let e = cdg::api::committee_code_nominations::Nominations::builder()
        .chamber(cdg::common::Chamber::House)
        .committee_code("hspw00")
        .build()
        .unwrap();
    assert_eq!(e.endpoint().as_str(), "committee/house/hspw00/nominations");
    let e = cdg::api::treaty_actions::Actions::builder()
        .congress(114_u8)
        .treaty_number(13_u32)
        .treaty_suffix("A")
        .build()
        .unwrap();
    assert_eq!(e.endpoint().as_str(), "treaty/114/13/A/actions");
}

#[test]
fn optional_timestamps_and_sort_render_in_declared_order() {
    let from = cdg::timestamp::Timestamp::new(2022, 9, 1, 0, 0, 0).unwrap();
    let to = cdg::timestamp::Timestamp::new(2022, 9, 30, 23, 59, 59).unwrap();
    let e = cdg::api::summaries::Summaries::builder()
        .from_date_time(from)
        .to_date_time(to)
        .sort(cdg::common::Sort::Desc)
        .limit(20_u8)
        .build()
        .unwrap();
    assert_eq!(e.endpoint().as_str(), "summaries");
    assert_eq!(
        pairs_of(&e.parameters()),
        vec![
            ("format".to_string(), "json".to_string()),
            ("limit".to_string(), "20".to_string()),
            ("from_date_time".to_string(), "2022-09-01T00:00:00Z".to_string()),
            ("to_date_time".to_string(), "2022-09-30T23:59:59Z".to_string()),
            ("sort".to_string(), "desc".to_string()),
        ]
    );
}

#[test]
fn current_member_renders_as_boolean() {
    let e = cdg::api::member::Member::builder()
        .current_member(true)
        .build()
        .unwrap();
    assert_eq!(
        pairs_of(&e.parameters()),
        vec![
            ("format".to_string(), "json".to_string()),
            ("current_member".to_string(), "true".to_string()),
        ]
    );
}
