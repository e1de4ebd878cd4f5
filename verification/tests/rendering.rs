//! Value rendering, wire tags, request assembly, and response
//! classification.

use cdg::common::{BillType, Chamber, CommitteeChamber, CongressionalAmendmentType,
    CongressionalLawType, Format, SenateCommunicationType, Sort};
use cdg::error::DeserializationError;
use cdg::params::{QueryParams, Render};
use cdg::request::{interpret_response, query_string, url_for, Auth};
use cdg::timestamp::Timestamp;

#[test]
fn integers_render_in_decimal() {
    assert_eq!(0_u32.render().as_str(), "0");
    assert_eq!(7_u32.render().as_str(), "7");
    assert_eq!(10_u32.render().as_str(), "10");
    assert_eq!(250_u32.render().as_str(), "250");
    assert_eq!(4294967295_u32.render().as_str(), "4294967295");
    assert_eq!(0_u8.render().as_str(), "0");
    assert_eq!(255_u8.render().as_str(), "255");
}

#[test]
fn booleans_render_as_words() {
    assert_eq!(true.render().as_str(), "true");
    assert_eq!(false.render().as_str(), "false");
}

#[test]
fn timestamps_render_as_rfc3339() {
    let t = Timestamp::new(2024, 3, 5, 7, 9, 11).unwrap();
    assert_eq!(t.render().as_str(), "2024-03-05T07:09:11Z");
    let t = Timestamp::new(999, 12, 31, 23, 0, 59).unwrap();
    assert_eq!(t.render().as_str(), "0999-12-31T23:00:59Z");
}

#[test]
fn timestamp_rejects_out_of_range_fields() {
    assert!(Timestamp::new(2024, 13, 5, 7, 9, 11).is_none());
    assert!(Timestamp::new(2024, 0, 5, 7, 9, 11).is_none());
    assert!(Timestamp::new(2024, 3, 32, 7, 9, 11).is_none());
    assert!(Timestamp::new(2024, 3, 5, 24, 9, 11).is_none());
    assert!(Timestamp::new(2024, 3, 5, 7, 60, 11).is_none());
    assert!(Timestamp::new(2024, 3, 5, 7, 9, 60).is_none());
    assert!(Timestamp::new(10000, 3, 5, 7, 9, 11).is_none());
}

#[test]
fn chrono_instants_convert_to_timestamps() {
    let dt = chrono::NaiveDate::from_ymd_opt(2023, 7, 4)
        .unwrap()
        .and_hms_opt(12, 30, 45)
        .unwrap();
    let t = cdg::timestamp::from_naive_utc(&dt).unwrap();
    assert_eq!(t, Timestamp::new(2023, 7, 4, 12, 30, 45).unwrap());
    assert_eq!(t.render().as_str(), "2023-07-04T12:30:45Z");
}

#[test]
fn wire_tags_are_stable() {
    assert_eq!(cdg::endpoint::Method::Get.as_str(), "GET");
    assert_eq!(Format::Json.as_str(), "json");
    assert_eq!(Format::Xml.as_str(), "xml");
    assert_eq!(Sort::Asc.as_str(), "asc");
    assert_eq!(Sort::Desc.as_str(), "desc");
    assert_eq!(BillType::Hr.as_str(), "hr");
    assert_eq!(BillType::S.as_str(), "s");
    assert_eq!(BillType::Hjres.as_str(), "hjres");
    assert_eq!(BillType::Sjres.as_str(), "sjres");
    assert_eq!(BillType::Hconres.as_str(), "hconres");
    assert_eq!(BillType::Sconres.as_str(), "sconres");
    assert_eq!(BillType::Hres.as_str(), "hres");
    assert_eq!(BillType::Sres.as_str(), "sres");
    assert_eq!(CommitteeChamber::House.as_str(), "house");
    assert_eq!(CommitteeChamber::Senate.as_str(), "senate");
    assert_eq!(CommitteeChamber::NoChamber.as_str(), "nochamber");
    assert_eq!(Chamber::House.as_str(), "house");
    assert_eq!(Chamber::Senate.as_str(), "senate");
    assert_eq!(CongressionalAmendmentType::Hamdt.as_str(), "hamdt");
    assert_eq!(CongressionalAmendmentType::Samdt.as_str(), "samdt");
    assert_eq!(CongressionalAmendmentType::Suamdt.as_str(), "suamdt");
    assert_eq!(CongressionalLawType::Public.as_str(), "pub");
    assert_eq!(CongressionalLawType::Private.as_str(), "priv");
    assert_eq!(SenateCommunicationType::Ec.as_str(), "ec");
    assert_eq!(SenateCommunicationType::Pm.as_str(), "pm");
    assert_eq!(SenateCommunicationType::Pom.as_str(), "pom");
}

#[test]
fn defaults_are_json_and_ascending() {
    assert_eq!(Format::default(), Format::Json);
    assert_eq!(Sort::default(), Sort::Asc);
    assert_eq!(CongressionalLawType::default(), CongressionalLawType::Public);
}

#[test]
fn query_strings_join_pairs_in_order() {
    let q = QueryParams::new();
    assert_eq!(query_string(&q).as_str(), "");
    let mut q = QueryParams::new();
    q.push("format", Format::Json);
    assert_eq!(query_string(&q).as_str(), "format=json");
    q.push("offset", 10_u32);
    q.push("limit", 5_u8);
    assert_eq!(query_string(&q).as_str(), "format=json&offset=10&limit=5");
}

#[test]
fn urls_combine_base_path_and_query() {
    let q = QueryParams::new();
    assert_eq!(
        url_for("hearing", &q).as_str(),
        "https://api.congress.gov/v3/hearing"
    );
    let mut q = QueryParams::new();
    q.push("format", Format::Xml);
    assert_eq!(
        url_for("congress/117", &q).as_str(),
        "https://api.congress.gov/v3/congress/117?format=xml"
    );
}

#[test]
fn success_statuses_pass_the_body_through() {
    assert_eq!(
        interpret_response(200, "ok".to_string()).unwrap().as_str(),
        "ok"
    );
    assert!(interpret_response(299, "ok".to_string()).is_ok());
}

#[test]
fn failure_statuses_become_http_errors() {
    let e = interpret_response(404, "missing".to_string()).unwrap_err();
    assert_eq!(e.status, 404);
    assert_eq!(e.body.as_str(), "missing");
    assert!(interpret_response(300, "redirect".to_string()).is_err());
    assert!(interpret_response(199, "early".to_string()).is_err());
    let e = DeserializationError { status: 200, body: "not json".to_string() };
    assert_eq!(e.status, 200);
}

#[test]
fn auth_token_becomes_the_api_key_parameter() {
    let auth = Auth::Token("demo-key".to_string());
    let (name, value) = auth.key_param().unwrap();
    assert_eq!(name.as_str(), "api_key");
    assert_eq!(value.as_str(), "demo-key");
    assert!(Auth::Anonymous.key_param().is_none());
}

#[test]
fn request_urls_carry_the_credential() {
    let e = cdg::api::specific_congress::SpecificCongress::builder()
        .congress(117_u8)
        .build()
        .unwrap();
    let url = cdg::request::request_url(&e, &Auth::Token("demo-key".to_string()));
    assert_eq!(
        url.as_str(),
        "https://api.congress.gov/v3/congress/117?format=json&api_key=demo-key"
    );
    let url = cdg::request::request_url(&e, &Auth::Anonymous);
    assert_eq!(
        url.as_str(),
        "https://api.congress.gov/v3/congress/117?format=json"
    );
}

#[test]
fn authed_parameters_append_the_key_last() {
    let e = cdg::api::hearing::Hearing::builder().offset(2_u32).build().unwrap();
    let q = cdg::request::authed_parameters(&e, &Auth::Token("demo-key".to_string()));
    assert_eq!(q.len(), 3);
    assert_eq!(q.name_at(2).as_str(), "api_key");
    assert_eq!(q.value_at(2).as_str(), "demo-key");
}
