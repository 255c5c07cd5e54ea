use alidns_updater::alidns::DNSType;
use alidns_updater::json::{flag_member, member, number_member, size_member, text_member, Json};
use alidns_updater::response::{
    created_id_from, decode_created_id, decode_domain_list, decode_removed_count,
    domain_list_from, failure, record_from, records_from, removed_count_from, ResponseError,
};

const LISTING: &str = r#"{
    "TotalCount": 2,
    "PageSize": 500,
    "RequestId": "536E9CAD-DB30-4647-AC87-AA5CC38C5382",
    "DomainRecords": {
        "Record": [
            {
                "RR": "www",
                "Line": "default",
                "Status": "ENABLE",
                "Locked": false,
                "Type": "A",
                "DomainName": "example.com",
                "Value": "192.0.2.7",
                "RecordId": "9999985",
                "TTL": 600,
                "Weight": 1
            },
            {
                "RR": "www",
                "Line": "default",
                "Status": "DISABLE",
                "Locked": true,
                "Type": "REDIRECT_URL",
                "DomainName": "example.com",
                "Value": "http://example.org",
                "RecordId": "9999986",
                "TTL": 120,
                "Remark": "not read"
            }
        ]
    },
    "PageNumber": 1
}"#;

fn text(s: &str) -> Json {
    Json::Text(s.to_string())
}

fn object(members: Vec<(&str, Json)>) -> Json {
    Json::Object(members.into_iter().map(|(k, v)| (k.to_string(), v)).collect())
}

fn record_object(kind: &str) -> Json {
    object(vec![
        ("RecordId", text("1")),
        ("Type", text(kind)),
        ("RR", text("www")),
        ("DomainName", text("example.com")),
        ("Value", text("192.0.2.7")),
        ("TTL", Json::Number(Some(600))),
        ("Status", text("ENABLE")),
        ("Line", text("default")),
        ("Locked", Json::Bool(false)),
    ])
}

#[test]
fn listing_decodes_with_its_page_and_records() {
    let list = decode_domain_list(LISTING).unwrap();
    assert_eq!(list.pagination.total_count, 2);
    assert_eq!(list.pagination.page_number, 1);
    assert_eq!(list.pagination.page_size, 500);
    assert_eq!(list.records.len(), 2);
    let first = &list.records[0];
    assert_eq!(first.id, "9999985");
    assert_eq!(first.typ, DNSType::A);
    assert_eq!(first.rr, "www");
    assert_eq!(first.domain_name, "example.com");
    assert_eq!(first.value, "192.0.2.7");
    assert_eq!(first.ttl, 600);
    assert_eq!(first.weight, Some(1));
    assert_eq!(first.status, "ENABLE");
    assert_eq!(first.line, "default");
    assert!(!first.locked);
}

#[test]
fn unrecognized_type_decodes_to_unknown_with_other_fields_intact() {
    let list = decode_domain_list(LISTING).unwrap();
    let second = &list.records[1];
    assert_eq!(second.typ, DNSType::Unknown);
    assert_eq!(second.id, "9999986");
    assert_eq!(second.rr, "www");
    assert_eq!(second.domain_name, "example.com");
    assert_eq!(second.value, "http://example.org");
    assert_eq!(second.ttl, 120);
    assert_eq!(second.weight, None);
    assert_eq!(second.status, "DISABLE");
    assert_eq!(second.line, "default");
    assert!(second.locked);
}

#[test]
fn empty_listing_decodes() {
    let body = r#"{"TotalCount":0,"PageNumber":1,"PageSize":20,"DomainRecords":{"Record":[]}}"#;
    let list = decode_domain_list(body).unwrap();
    assert_eq!(list.pagination.total_count, 0);
    assert!(list.records.is_empty());
}

#[test]
fn malformed_body_is_a_decode_error_with_the_body() {
    match decode_domain_list("<html>502</html>") {
        Err(ResponseError::Decode { body }) => assert_eq!(body, "<html>502</html>"),
        other => panic!("{:?}", other),
    }
    match decode_removed_count("") {
        Err(ResponseError::Decode { body }) => assert_eq!(body, ""),
        other => panic!("{:?}", other),
    }
    match decode_created_id("{") {
        Err(ResponseError::Decode { body }) => assert_eq!(body, "{"),
        other => panic!("{:?}", other),
    }
}

#[test]
fn wrong_shape_is_a_decode_error() {
    let body = r#"{"TotalCount":1,"PageNumber":1,"PageSize":20,"DomainRecords":{"Record":[{"RR":"www"}]}}"#;
    match decode_domain_list(body) {
        Err(ResponseError::Decode { body: kept }) => assert_eq!(kept, body),
        other => panic!("{:?}", other),
    }
    let unwrapped = r#"{"TotalCount":0,"PageNumber":1,"PageSize":20,"DomainRecords":[]}"#;
    assert!(matches!(decode_domain_list(unwrapped), Err(ResponseError::Decode { .. })));
    assert!(matches!(decode_domain_list("[1,2]"), Err(ResponseError::Decode { .. })));
    assert!(matches!(decode_removed_count(r#"{"TotalCount":"3"}"#), Err(ResponseError::Decode { .. })));
    assert!(matches!(decode_removed_count(r#"{"TotalCount":-3}"#), Err(ResponseError::Decode { .. })));
    assert!(matches!(decode_created_id(r#"{"RecordId":7}"#), Err(ResponseError::Decode { .. })));
}

#[test]
fn provider_error_keeps_code_and_message() {
    let body = r#"{"RequestId":"1","HostId":"alidns.aliyuncs.com","Code":"InvalidAccessKeyId.NotFound","Message":"Specified access key is not found."}"#;
    match decode_domain_list(body) {
        Err(ResponseError::Provider { code, message }) => {
            assert_eq!(code, "InvalidAccessKeyId.NotFound");
            assert_eq!(message, "Specified access key is not found.");
        }
        other => panic!("{:?}", other),
    }
    assert!(matches!(decode_removed_count(body), Err(ResponseError::Provider { .. })));
    assert!(matches!(decode_created_id(body), Err(ResponseError::Provider { .. })));
}

#[test]
fn removed_count_and_created_id_decode() {
    assert_eq!(
        decode_removed_count(r#"{"RequestId":"1","RR":"www","TotalCount":3}"#).unwrap(),
        3
    );
    assert_eq!(
        decode_created_id(r#"{"RequestId":"1","RecordId":"9999985"}"#).unwrap(),
        "9999985"
    );
}

#[test]
fn members_are_found_by_name_and_type() {
    let j = object(vec![
        ("a", text("x")),
        ("n", Json::Number(Some(7))),
        ("f", Json::Number(None)),
        ("b", Json::Bool(true)),
        ("a", text("second")),
    ]);
    assert_eq!(text_member(&j, "a"), Some("x".to_string()));
    assert_eq!(text_member(&j, "n"), None);
    assert_eq!(text_member(&j, "missing"), None);
    assert_eq!(number_member(&j, "n"), Some(7));
    assert_eq!(number_member(&j, "f"), None);
    assert_eq!(size_member(&j, "n"), Some(7));
    assert_eq!(flag_member(&j, "b"), Some(true));
    assert_eq!(flag_member(&j, "a"), None);
    assert!(member(&j, "b").is_some());
    assert!(member(&j, "B").is_none());
    assert!(member(&Json::Null, "a").is_none());
    assert!(member(&Json::List(vec![]), "a").is_none());
}

#[test]
fn record_from_reads_each_member() {
    let record = record_from(&record_object("CNAME")).unwrap();
    assert_eq!(record.typ, DNSType::CNAME);
    assert_eq!(record.weight, None);
    assert_eq!(record_from(&record_object("SPF")).unwrap().typ, DNSType::Unknown);
    assert!(record_from(&Json::Null).is_none());
    assert!(record_from(&object(vec![("RecordId", text("1"))])).is_none());
}

fn record_with_weight(weight: Json) -> Json {
    match record_object("A") {
        Json::Object(mut members) => {
            members.push(("Weight".to_string(), weight));
            Json::Object(members)
        }
        other => other,
    }
}

#[test]
fn weight_may_be_null_but_not_text() {
    assert_eq!(record_from(&record_with_weight(Json::Null)).unwrap().weight, None);
    assert_eq!(record_from(&record_with_weight(Json::Number(Some(5)))).unwrap().weight, Some(5));
    assert!(record_from(&record_with_weight(text("1"))).is_none());
    assert!(record_from(&record_with_weight(Json::Number(None))).is_none());
}

#[test]
fn records_are_read_all_or_none() {
    let good = vec![record_object("A"), record_object("TXT")];
    let records = records_from(&good).unwrap();
    assert_eq!(records.len(), 2);
    assert_eq!(records[1].typ, DNSType::TXT);
    let bad = vec![record_object("A"), Json::Null];
    assert!(records_from(&bad).is_none());
    assert_eq!(records_from(&Vec::new()).unwrap().len(), 0);
}

#[test]
fn results_from_parsed_answers() {
    let parsed = Some(object(vec![("TotalCount", Json::Number(Some(2)))]));
    assert_eq!(removed_count_from(&parsed, "body").unwrap(), 2);
    assert!(matches!(created_id_from(&parsed, "body"), Err(ResponseError::Decode { .. })));
    assert!(matches!(domain_list_from(&parsed, "body"), Err(ResponseError::Decode { .. })));
    assert!(matches!(removed_count_from(&None, "body"), Err(ResponseError::Decode { .. })));
    match failure(&None, "raw") {
        ResponseError::Decode { body } => assert_eq!(body, "raw"),
        other => panic!("{:?}", other),
    }
    let refused = Some(object(vec![("Code", text("Throttling")), ("Message", text("slow down"))]));
    match failure(&refused, "raw") {
        ResponseError::Provider { code, message } => {
            assert_eq!(code, "Throttling");
            assert_eq!(message, "slow down");
        }
        other => panic!("{:?}", other),
    }
}
