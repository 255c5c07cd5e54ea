//! Decoding of the provider's answers.

use vstd::prelude::*;
use vstd::string::*;
use crate::alidns::{dns_type_of, known_type_name, DNSType, DomainList, Pagination, Record};
use crate::json::{
    flag_member, flag_member_of, member, member_of, number_member, number_member_of, parse_json,
    parsed_json, size_member, size_member_of, text_member, text_member_of, Json,
};

verus! {

/// A record as the contracts see it.
pub struct RecordView {
    pub id: Seq<char>,
    pub typ: DNSType,
    pub rr: Seq<char>,
    pub domain_name: Seq<char>,
    pub value: Seq<char>,
    pub ttl: u64,
    pub weight: Option<usize>,
    pub status: Seq<char>,
    pub line: Seq<char>,
    pub locked: bool,
}

impl View for Record {
    type V = RecordView;

    open spec fn view(&self) -> RecordView {
        RecordView {
            id: self.id@,
            typ: self.typ,
            rr: self.rr@,
            domain_name: self.domain_name@,
            value: self.value@,
            ttl: self.ttl,
            weight: self.weight,
            status: self.status@,
            line: self.line@,
            locked: self.locked,
        }
    }
}

/// A page of records as the contracts see it.
pub struct DomainListView {
    pub total_count: usize,
    pub page_number: usize,
    pub page_size: usize,
    pub records: Seq<RecordView>,
}

impl View for DomainList {
    type V = DomainListView;

    open spec fn view(&self) -> DomainListView {
        DomainListView {
            total_count: self.pagination.total_count,
            page_number: self.pagination.page_number,
            page_size: self.pagination.page_size,
            records: self.records@.map_values(|r: Record| r@),
        }
    }
}

/// Why an answer gave no result.
#[derive(Debug)]
pub enum ResponseError {
    /// The body is not JSON, or not of the shape that the action answers
    /// with. The body is kept as it came.
    Decode { body: String },
    /// The provider answered with an error of its own; code and message are
    /// kept as they came.
    Provider { code: String, message: String },
}

/// An error as the contracts see it.
pub enum ResponseErrorView {
    Decode { body: Seq<char> },
    Provider { code: Seq<char>, message: Seq<char> },
}

impl View for ResponseError {
    type V = ResponseErrorView;

    open spec fn view(&self) -> ResponseErrorView {
        match self {
            ResponseError::Decode { body } => ResponseErrorView::Decode { body: body@ },
            ResponseError::Provider { code, message } => ResponseErrorView::Provider {
                code: code@,
                message: message@,
            },
        }
    }
}

/// The weight of a record: none where the member is missing or null.
pub open spec fn weight_of(j: Json) -> Option<Option<usize>> {
    match member_of(j, "Weight"@) {
        None => Some(None),
        Some(Json::Null) => Some(None),
        Some(Json::Number(Some(n))) => if n <= usize::MAX {
            Some(Some(n as usize))
        } else {
            None
        },
        _ => None,
    }
}

/// The record that a JSON object stands for. Members that a record does not
/// have are ignored; a type name that is not known gives the type `Unknown`.
pub open spec fn record_of(j: Json) -> Option<RecordView> {
    if text_member_of(j, "RecordId"@) is Some && text_member_of(j, "Type"@) is Some
        && text_member_of(j, "RR"@) is Some && text_member_of(j, "DomainName"@) is Some
        && text_member_of(j, "Value"@) is Some && number_member_of(j, "TTL"@) is Some && weight_of(
        j,
    ) is Some && text_member_of(j, "Status"@) is Some && text_member_of(j, "Line"@) is Some
        && flag_member_of(j, "Locked"@) is Some {
        Some(
            RecordView {
                id: text_member_of(j, "RecordId"@).unwrap(),
                typ: dns_type_of(text_member_of(j, "Type"@).unwrap()),
                rr: text_member_of(j, "RR"@).unwrap(),
                domain_name: text_member_of(j, "DomainName"@).unwrap(),
                value: text_member_of(j, "Value"@).unwrap(),
                ttl: number_member_of(j, "TTL"@).unwrap(),
                weight: weight_of(j).unwrap(),
                status: text_member_of(j, "Status"@).unwrap(),
                line: text_member_of(j, "Line"@).unwrap(),
                locked: flag_member_of(j, "Locked"@).unwrap(),
            },
        )
    } else {
        None
    }
}

/// A record whose type name is not known decodes all the same: its type is
/// `Unknown`, and every other field is what the answer gave.
pub proof fn lemma_unrecognized_type_decodes(j: Json)
    requires
        text_member_of(j, "Type"@) is Some,
        !known_type_name(text_member_of(j, "Type"@).unwrap()),
        text_member_of(j, "RecordId"@) is Some,
        text_member_of(j, "RR"@) is Some,
        text_member_of(j, "DomainName"@) is Some,
        text_member_of(j, "Value"@) is Some,
        number_member_of(j, "TTL"@) is Some,
        weight_of(j) is Some,
        text_member_of(j, "Status"@) is Some,
        text_member_of(j, "Line"@) is Some,
        flag_member_of(j, "Locked"@) is Some,
    ensures
        record_of(j) == Some(
            RecordView {
                id: text_member_of(j, "RecordId"@).unwrap(),
                typ: DNSType::Unknown,
                rr: text_member_of(j, "RR"@).unwrap(),
                domain_name: text_member_of(j, "DomainName"@).unwrap(),
                value: text_member_of(j, "Value"@).unwrap(),
                ttl: number_member_of(j, "TTL"@).unwrap(),
                weight: weight_of(j).unwrap(),
                status: text_member_of(j, "Status"@).unwrap(),
                line: text_member_of(j, "Line"@).unwrap(),
                locked: flag_member_of(j, "Locked"@).unwrap(),
            },
        ),
{
}

/// The records that a list of JSON values stands for, in the same order, if
/// each of them is a record.
pub open spec fn records_of(items: Seq<Json>) -> Option<Seq<RecordView>> {
    if forall|i: int| 0 <= i < items.len() ==> (#[trigger] record_of(items[i])) is Some {
        Some(Seq::new(items.len(), |i: int| record_of(items[i]).unwrap()))
    } else {
        None
    }
}

/// The list that the provider wraps its records in: the member `Record` of
/// the member `DomainRecords`.
pub open spec fn record_items_of(j: Json) -> Option<Seq<Json>> {
    match member_of(j, "DomainRecords"@) {
        Some(inner) => match member_of(inner, "Record"@) {
            Some(Json::List(items)) => Some(items@),
            _ => None,
        },
        None => None,
    }
}

/// The page of records that an answer stands for.
pub open spec fn domain_list_of(j: Json) -> Option<DomainListView> {
    if size_member_of(j, "TotalCount"@) is Some && size_member_of(j, "PageNumber"@) is Some
        && size_member_of(j, "PageSize"@) is Some && record_items_of(j) is Some && records_of(
        record_items_of(j).unwrap(),
    ) is Some {
        Some(
            DomainListView {
                total_count: size_member_of(j, "TotalCount"@).unwrap(),
                page_number: size_member_of(j, "PageNumber"@).unwrap(),
                page_size: size_member_of(j, "PageSize"@).unwrap(),
                records: records_of(record_items_of(j).unwrap()).unwrap(),
            },
        )
    } else {
        None
    }
}

/// The error for an answer that gave no result: the provider's own error
/// where the answer is an object with a code and a message, else a decoding
/// error with the body.
pub open spec fn failure_of(parsed: Option<Json>, body: Seq<char>) -> ResponseErrorView {
    match parsed {
        Some(j) => if text_member_of(j, "Code"@) is Some && text_member_of(j, "Message"@)
            is Some {
            ResponseErrorView::Provider {
                code: text_member_of(j, "Code"@).unwrap(),
                message: text_member_of(j, "Message"@).unwrap(),
            }
        } else {
            ResponseErrorView::Decode { body }
        },
        None => ResponseErrorView::Decode { body },
    }
}

/// Builds the error for an answer that gave no result.
pub fn failure(parsed: &Option<Json>, body: &str) -> (r: ResponseError)
    ensures
        r@ == failure_of(*parsed, body@),
{
    match parsed {
        Some(j) => {
            match text_member(j, "Code") {
                Some(code) => match text_member(j, "Message") {
                    Some(message) => ResponseError::Provider { code, message },
                    None => ResponseError::Decode { body: String::from_str(body) },
                },
                None => ResponseError::Decode { body: String::from_str(body) },
            }
        },
        None => ResponseError::Decode { body: String::from_str(body) },
    }
}

/// Reads the weight of a record.
fn weight_member(j: &Json) -> (r: Option<Option<usize>>)
    ensures
        r == weight_of(*j),
{
    match member(j, "Weight") {
        None => Some(None),
        Some(Json::Null) => Some(None),
        Some(Json::Number(Some(n))) => if *n <= usize::MAX as u64 {
            Some(Some(*n as usize))
        } else {
            None
        },
        _ => None,
    }
}

/// Reads a record from a JSON object.
pub fn record_from(j: &Json) -> (r: Option<Record>)
    ensures
        match r {
            Some(record) => record_of(*j) == Some(record@),
            None => record_of(*j) is None,
        },
{
    let id = match text_member(j, "RecordId") {
        Some(v) => v,
        None => { return None; },
    };
    let typ = match text_member(j, "Type") {
        Some(v) => DNSType::from_name(v.as_str()),
        None => { return None; },
    };
    let rr = match text_member(j, "RR") {
        Some(v) => v,
        None => { return None; },
    };
    let domain_name = match text_member(j, "DomainName") {
        Some(v) => v,
        None => { return None; },
    };
    let value = match text_member(j, "Value") {
        Some(v) => v,
        None => { return None; },
    };
    let ttl = match number_member(j, "TTL") {
        Some(v) => v,
        None => { return None; },
    };
    let weight = match weight_member(j) {
        Some(v) => v,
        None => { return None; },
    };
    let status = match text_member(j, "Status") {
        Some(v) => v,
        None => { return None; },
    };
    let line = match text_member(j, "Line") {
        Some(v) => v,
        None => { return None; },
    };
    let locked = match flag_member(j, "Locked") {
        Some(v) => v,
        None => { return None; },
    };
    Some(Record { id, typ, rr, domain_name, value, ttl, weight, status, line, locked })
}

/// Reads the records of a list, all or none.
pub fn records_from(items: &Vec<Json>) -> (r: Option<Vec<Record>>)
    ensures
        match r {
            Some(records) => records_of(items@) == Some(records@.map_values(|r: Record| r@)),
            None => records_of(items@) is None,
        },
{
    let mut out: Vec<Record> = Vec::new();
    let mut i: usize = 0;
    while i < items.len()
        invariant
            i <= items.len(),
            out@.len() == i,
            forall|k: int|
                0 <= k < i ==> (#[trigger] record_of(items@[k])) == Some(out@[k]@),
        decreases items.len() - i,
    {
        match record_from(&items[i]) {
            Some(record) => {
                out.push(record);
            },
            None => {
                assert(record_of(items@[i as int]) is None);
                return None;
            },
        }
        i += 1;
    }
    assert(out@.map_values(|r: Record| r@) =~= Seq::new(
        items@.len(),
        |i: int| record_of(items@[i]).unwrap(),
    ));
    Some(out)
}

/// Reads a page of records from a parsed answer.
fn domain_list_in(j: &Json) -> (r: Option<DomainList>)
    ensures
        match r {
            Some(list) => domain_list_of(*j) == Some(list@),
            None => domain_list_of(*j) is None,
        },
{
    let total_count = match size_member(j, "TotalCount") {
        Some(v) => v,
        None => { return None; },
    };
    let page_number = match size_member(j, "PageNumber") {
        Some(v) => v,
        None => { return None; },
    };
    let page_size = match size_member(j, "PageSize") {
        Some(v) => v,
        None => { return None; },
    };
    let inner = match member(j, "DomainRecords") {
        Some(v) => v,
        None => { return None; },
    };
    let records = match member(inner, "Record") {
        Some(Json::List(items)) => match records_from(items) {
            Some(v) => v,
            None => { return None; },
        },
        _ => { return None; },
    };
    Some(DomainList { pagination: Pagination { total_count, page_number, page_size }, records })
}

/// Reads a page of records from an answer that has been parsed, or says why
/// there is none.
pub fn domain_list_from(parsed: &Option<Json>, body: &str) -> (r: Result<DomainList, ResponseError>)
    ensures
        match r {
            Ok(list) => parsed is Some && domain_list_of(parsed.unwrap()) == Some(list@),
            Err(e) => (parsed is None || domain_list_of(parsed.unwrap()) is None) && e@
                == failure_of(*parsed, body@),
        },
{
    match parsed {
        Some(j) => match domain_list_in(j) {
            Some(list) => Ok(list),
            None => Err(failure(parsed, body)),
        },
        None => Err(failure(parsed, body)),
    }
}

/// Reads the number of records removed from an answer that has been parsed.
pub fn removed_count_from(parsed: &Option<Json>, body: &str) -> (r: Result<usize, ResponseError>)
    ensures
        match r {
            Ok(count) => parsed is Some && size_member_of(parsed.unwrap(), "TotalCount"@) == Some(
                count,
            ),
            Err(e) => (parsed is None || size_member_of(parsed.unwrap(), "TotalCount"@) is None)
                && e@ == failure_of(*parsed, body@),
        },
{
    match parsed {
        Some(j) => match size_member(j, "TotalCount") {
            Some(count) => Ok(count),
            None => Err(failure(parsed, body)),
        },
        None => Err(failure(parsed, body)),
    }
}

/// Reads the identifier of a new record from an answer that has been parsed.
pub fn created_id_from(parsed: &Option<Json>, body: &str) -> (r: Result<String, ResponseError>)
    ensures
        match r {
            Ok(id) => parsed is Some && text_member_of(parsed.unwrap(), "RecordId"@) == Some(id@),
            Err(e) => (parsed is None || text_member_of(parsed.unwrap(), "RecordId"@) is None)
                && e@ == failure_of(*parsed, body@),
        },
{
    match parsed {
        Some(j) => match text_member(j, "RecordId") {
            Some(id) => Ok(id),
            None => Err(failure(parsed, body)),
        },
        None => Err(failure(parsed, body)),
    }
}

/// Decodes the answer to a listing.
pub fn decode_domain_list(body: &str) -> (r: Result<DomainList, ResponseError>)
    ensures
        match r {
            Ok(list) => parsed_json(body@) is Some && domain_list_of(parsed_json(body@).unwrap())
                == Some(list@),
            Err(e) => (parsed_json(body@) is None || domain_list_of(parsed_json(body@).unwrap())
                is None) && e@ == failure_of(parsed_json(body@), body@),
        },
{
    let parsed = parse_json(body);
    domain_list_from(&parsed, body)
}

/// Decodes the answer to a delete: the number of records removed.
pub fn decode_removed_count(body: &str) -> (r: Result<usize, ResponseError>)
    ensures
        match r {
            Ok(count) => parsed_json(body@) is Some && size_member_of(
                parsed_json(body@).unwrap(),
                "TotalCount"@,
            ) == Some(count),
            Err(e) => (parsed_json(body@) is None || size_member_of(
                parsed_json(body@).unwrap(),
                "TotalCount"@,
            ) is None) && e@ == failure_of(parsed_json(body@), body@),
        },
{
    let parsed = parse_json(body);
    removed_count_from(&parsed, body)
}

/// Decodes the answer to a create: the identifier of the new record.
pub fn decode_created_id(body: &str) -> (r: Result<String, ResponseError>)
    ensures
        match r {
            Ok(id) => parsed_json(body@) is Some && text_member_of(
                parsed_json(body@).unwrap(),
                "RecordId"@,
            ) == Some(id@),
            Err(e) => (parsed_json(body@) is None || text_member_of(
                parsed_json(body@).unwrap(),
                "RecordId"@,
            ) is None) && e@ == failure_of(parsed_json(body@), body@),
        },
{
    let parsed = parse_json(body);
    created_id_from(&parsed, body)
}

} // verus!
