use alidns_updater::alidns::{AliDNS, DNSType, DomainList, Pagination, Record};
use alidns_updater::text::same_text;
use alidns_updater::json::Json;
use alidns_updater::response::ResponseError;
use alidns_updater::update::{
    answer_event, answer_event_from, full_name, step, update_summary, UpdateAction, UpdateEvent,
    UpdateState,
};

fn client() -> AliDNS {
    AliDNS::new("testid".to_string(), "testsecret".to_string())
}

fn run(events: &[UpdateEvent]) -> (UpdateState, Vec<UpdateAction>) {
    let mut state = UpdateState::Start;
    let mut actions = Vec::new();
    for event in events {
        let (next, action) = step(state, *event);
        state = next;
        actions.push(action);
    }
    (state, actions)
}

#[test]
fn list_all_call() {
    assert_eq!(
        client().get_all("example.com").request_url("777", "2020-01-02T03:04:05Z"),
        "https://alidns.cn-shanghai.aliyuncs.com?Signature=CNRx2UEaKquOjd5pgWVSLaZTbBg%3D\
         &AccessKeyId=testid&Action=DescribeDomainRecords&DomainName=example.com&Format=JSON\
         &PageSize=500&SignatureMethod=HMAC-SHA1&SignatureNonce=777&SignatureVersion=1.0\
         &Timestamp=2020-01-02T03%3A04%3A05Z&Version=2015-01-09"
    );
}

#[test]
fn list_for_host_call() {
    assert_eq!(
        client().get("www.example.com", "example.com").request_url("777", "2020-01-02T03:04:05Z"),
        "https://alidns.cn-shanghai.aliyuncs.com?Signature=6wRWcYH46FhzVHMwoT8J0kdWl%2Fs%3D\
         &AccessKeyId=testid&Action=DescribeSubDomainRecords&DomainName=example.com&Format=JSON\
         &SignatureMethod=HMAC-SHA1&SignatureNonce=777&SignatureVersion=1.0\
         &SubDomain=www.example.com&Timestamp=2020-01-02T03%3A04%3A05Z&Version=2015-01-09"
    );
}

#[test]
fn delete_call() {
    assert_eq!(
        client().remove("www", "example.com").request_url("777", "2020-01-02T03:04:05Z"),
        "https://alidns.cn-shanghai.aliyuncs.com?Signature=cJHvSHj1SKobyfgIwzyMbSmynfo%3D\
         &AccessKeyId=testid&Action=DeleteSubDomainRecords&DomainName=example.com&Format=JSON\
         &RR=www&SignatureMethod=HMAC-SHA1&SignatureNonce=777&SignatureVersion=1.0\
         &Timestamp=2020-01-02T03%3A04%3A05Z&Version=2015-01-09"
    );
}

#[test]
fn create_call() {
    assert_eq!(
        client().append("www", "example.com", "192.0.2.7").request_url("777", "2020-01-02T03:04:05Z"),
        "https://alidns.cn-shanghai.aliyuncs.com?Signature=LKdZGSvWf7LLuNSmXVvfC298MdI%3D\
         &AccessKeyId=testid&Action=AddDomainRecord&DomainName=example.com&Format=JSON&RR=www\
         &SignatureMethod=HMAC-SHA1&SignatureNonce=777&SignatureVersion=1.0\
         &Timestamp=2020-01-02T03%3A04%3A05Z&Type=A&Value=192.0.2.7&Version=2015-01-09"
    );
}

#[test]
fn replace_with_one_existing_record() {
    let (state, actions) = run(&[
        UpdateEvent::Begin,
        UpdateEvent::Listed { count: 1 },
        UpdateEvent::Deleted,
        UpdateEvent::Created,
    ]);
    assert_eq!(state, UpdateState::Done);
    assert_eq!(
        actions,
        vec![UpdateAction::List, UpdateAction::Delete, UpdateAction::Create, UpdateAction::Finish]
    );
}

#[test]
fn replace_with_no_existing_record() {
    let (state, actions) = run(&[
        UpdateEvent::Begin,
        UpdateEvent::Listed { count: 0 },
        UpdateEvent::Created,
    ]);
    assert_eq!(state, UpdateState::Done);
    assert_eq!(actions, vec![UpdateAction::List, UpdateAction::Create, UpdateAction::Finish]);
}

#[test]
fn replace_with_several_existing_records() {
    assert_eq!(
        step(UpdateState::Listing, UpdateEvent::Listed { count: 3 }),
        (UpdateState::Deleting, UpdateAction::Delete)
    );
}

#[test]
fn failed_read_issues_nothing_more() {
    let (state, actions) = run(&[UpdateEvent::Begin, UpdateEvent::Failed]);
    assert_eq!(state, UpdateState::Failed);
    assert_eq!(actions, vec![UpdateAction::List, UpdateAction::Abort]);
    assert_eq!(
        step(state, UpdateEvent::Listed { count: 1 }),
        (UpdateState::Failed, UpdateAction::Abort)
    );
    assert_eq!(step(state, UpdateEvent::Deleted), (UpdateState::Failed, UpdateAction::Abort));
    assert_eq!(step(state, UpdateEvent::Created), (UpdateState::Failed, UpdateAction::Abort));
}

#[test]
fn failed_delete_skips_the_create() {
    let (state, actions) = run(&[
        UpdateEvent::Begin,
        UpdateEvent::Listed { count: 2 },
        UpdateEvent::Failed,
    ]);
    assert_eq!(state, UpdateState::Failed);
    assert_eq!(actions, vec![UpdateAction::List, UpdateAction::Delete, UpdateAction::Abort]);
}

#[test]
fn failed_create_is_reported() {
    let (state, actions) = run(&[
        UpdateEvent::Begin,
        UpdateEvent::Listed { count: 0 },
        UpdateEvent::Failed,
    ]);
    assert_eq!(state, UpdateState::Failed);
    assert_eq!(actions, vec![UpdateAction::List, UpdateAction::Create, UpdateAction::Abort]);
}

#[test]
fn unexpected_report_aborts() {
    assert_eq!(step(UpdateState::Start, UpdateEvent::Created), (UpdateState::Failed, UpdateAction::Abort));
    assert_eq!(step(UpdateState::Listing, UpdateEvent::Deleted), (UpdateState::Failed, UpdateAction::Abort));
    assert_eq!(step(UpdateState::Done, UpdateEvent::Begin), (UpdateState::Failed, UpdateAction::Abort));
}

#[test]
fn known_type_names() {
    assert_eq!(DNSType::from_name("A"), DNSType::A);
    assert_eq!(DNSType::from_name("AAAA"), DNSType::AAAA);
    assert_eq!(DNSType::from_name("CNAME"), DNSType::CNAME);
    assert_eq!(DNSType::from_name("TXT"), DNSType::TXT);
    assert_eq!(DNSType::from_name("NS"), DNSType::NS);
    assert_eq!(DNSType::from_name("MX"), DNSType::MX);
    assert_eq!(DNSType::from_name("SRV"), DNSType::SRV);
    assert_eq!(DNSType::from_name("CAA"), DNSType::CAA);
}

#[test]
fn unrecognized_type_name_is_unknown() {
    assert_eq!(DNSType::from_name("REDIRECT_URL"), DNSType::Unknown);
    assert_eq!(DNSType::from_name("a"), DNSType::Unknown);
    assert_eq!(DNSType::from_name(""), DNSType::Unknown);
    assert_eq!(DNSType::from_name("Unknown"), DNSType::Unknown);
}

#[test]
fn text_equality() {
    assert!(same_text("", ""));
    assert!(same_text("abc", "abc"));
    assert!(!same_text("abc", "abd"));
    assert!(!same_text("abc", "ab"));
}

#[test]
fn full_name_joins_label_and_domain() {
    assert_eq!(full_name("www", "example.com"), "www.example.com");
    assert_eq!(update_summary("www", "example.com", "192.0.2.7"), "www.example.com -> 192.0.2.7");
}

#[test]
fn record_list_holds_its_page() {
    let record = Record {
        id: "1".to_string(),
        typ: DNSType::from_name("URL"),
        rr: "www".to_string(),
        domain_name: "example.com".to_string(),
        value: "192.0.2.7".to_string(),
        ttl: 600,
        weight: None,
        status: "ENABLE".to_string(),
        line: "default".to_string(),
        locked: false,
    };
    let list = DomainList {
        pagination: Pagination { total_count: 1, page_number: 1, page_size: 500 },
        records: vec![record],
    };
    assert_eq!(list.records.len(), list.pagination.total_count);
    assert_eq!(list.records[0].typ, DNSType::Unknown);
    assert_eq!(list.records[0].ttl, 600);
}

#[test]
fn replacement_calls_go_by_full_name_then_label() {
    let dns = client();
    let list = dns.replacement_call(UpdateAction::List, "www", "example.com", "192.0.2.7").unwrap();
    assert_eq!(
        list.request_url("777", "2020-01-02T03:04:05Z"),
        dns.get("www.example.com", "example.com").request_url("777", "2020-01-02T03:04:05Z")
    );
    let delete = dns.replacement_call(UpdateAction::Delete, "www", "example.com", "192.0.2.7").unwrap();
    assert_eq!(
        delete.request_url("777", "2020-01-02T03:04:05Z"),
        dns.remove("www", "example.com").request_url("777", "2020-01-02T03:04:05Z")
    );
    let create = dns.replacement_call(UpdateAction::Create, "www", "example.com", "192.0.2.7").unwrap();
    assert_eq!(
        create.request_url("777", "2020-01-02T03:04:05Z"),
        dns.append("www", "example.com", "192.0.2.7").request_url("777", "2020-01-02T03:04:05Z")
    );
    assert!(dns.replacement_call(UpdateAction::Finish, "www", "example.com", "192.0.2.7").is_none());
    assert!(dns.replacement_call(UpdateAction::Abort, "www", "example.com", "192.0.2.7").is_none());
}

fn replace(answers: &[&str]) -> (UpdateState, Vec<UpdateAction>) {
    let dns = client();
    let mut state = UpdateState::Start;
    let mut event = UpdateEvent::Begin;
    let mut issued = Vec::new();
    let mut next_answer = 0;
    loop {
        let (next, action) = step(state, event);
        state = next;
        issued.push(action);
        if dns.replacement_call(action, "www", "example.com", "192.0.2.7").is_none() {
            return (state, issued);
        }
        event = match answer_event(action, answers[next_answer]) {
            Ok(event) => event,
            Err(_) => UpdateEvent::Failed,
        };
        next_answer += 1;
    }
}

const ONE_RECORD: &str = r#"{"TotalCount":1,"PageNumber":1,"PageSize":20,"DomainRecords":{"Record":[
    {"RR":"www","Line":"default","Status":"ENABLE","Locked":false,"Type":"A",
     "DomainName":"example.com","Value":"192.0.2.1","RecordId":"7","TTL":600}]}}"#;
const NO_RECORD: &str =
    r#"{"TotalCount":0,"PageNumber":1,"PageSize":20,"DomainRecords":{"Record":[]}}"#;
const REMOVED: &str = r#"{"RequestId":"1","RR":"www","TotalCount":1}"#;
const CREATED: &str = r#"{"RequestId":"1","RecordId":"8"}"#;

#[test]
fn replace_address_with_one_record_lists_deletes_creates() {
    let (state, issued) = replace(&[ONE_RECORD, REMOVED, CREATED]);
    assert_eq!(state, UpdateState::Done);
    assert_eq!(
        issued,
        vec![UpdateAction::List, UpdateAction::Delete, UpdateAction::Create, UpdateAction::Finish]
    );
}

#[test]
fn replace_address_with_no_record_lists_creates() {
    let (state, issued) = replace(&[NO_RECORD, CREATED]);
    assert_eq!(state, UpdateState::Done);
    assert_eq!(issued, vec![UpdateAction::List, UpdateAction::Create, UpdateAction::Finish]);
}

#[test]
fn malformed_answer_to_the_read_stops_the_update() {
    let (state, issued) = replace(&["<html>502 Bad Gateway</html>"]);
    assert_eq!(state, UpdateState::Failed);
    assert_eq!(issued, vec![UpdateAction::List, UpdateAction::Abort]);
}

#[test]
fn provider_error_to_the_delete_stops_the_update() {
    let refused = r#"{"RequestId":"1","Code":"Forbidden","Message":"no"}"#;
    let (state, issued) = replace(&[ONE_RECORD, refused]);
    assert_eq!(state, UpdateState::Failed);
    assert_eq!(issued, vec![UpdateAction::List, UpdateAction::Delete, UpdateAction::Abort]);
}

#[test]
fn answers_are_read_by_the_step_they_answer() {
    assert_eq!(answer_event(UpdateAction::List, ONE_RECORD).unwrap(), UpdateEvent::Listed { count: 1 });
    assert_eq!(answer_event(UpdateAction::List, NO_RECORD).unwrap(), UpdateEvent::Listed { count: 0 });
    assert_eq!(answer_event(UpdateAction::Delete, REMOVED).unwrap(), UpdateEvent::Deleted);
    assert_eq!(answer_event(UpdateAction::Create, CREATED).unwrap(), UpdateEvent::Created);
    assert_eq!(answer_event(UpdateAction::Finish, CREATED).unwrap(), UpdateEvent::Failed);
    assert_eq!(answer_event(UpdateAction::Abort, "").unwrap(), UpdateEvent::Failed);
    assert!(matches!(answer_event(UpdateAction::List, CREATED), Err(ResponseError::Decode { .. })));
    assert!(matches!(answer_event(UpdateAction::Create, REMOVED), Err(ResponseError::Decode { .. })));
    match answer_event(UpdateAction::Delete, "oops") {
        Err(ResponseError::Decode { body }) => assert_eq!(body, "oops"),
        other => panic!("{:?}", other),
    }
    let parsed = Some(Json::Object(vec![("RecordId".to_string(), Json::Text("8".to_string()))]));
    assert_eq!(answer_event_from(UpdateAction::Create, &parsed, "b").unwrap(), UpdateEvent::Created);
    assert!(answer_event_from(UpdateAction::Delete, &parsed, "b").is_err());
    assert!(answer_event_from(UpdateAction::List, &None, "b").is_err());
}
