//! The classification of a response.
//!
//! A response with a status in the success range is read as JSON in the
//! shape that the endpoint declares: either one flat object of strings, or a
//! list of such objects under the `data` field. Any other status is a
//! failure that carries the method, the status and the whole body.

use vstd::prelude::*;
use crate::error::{api_message, message_text, ErrorKind, ExchangeError};
use crate::json::{json_document, parse_json, Json};
use crate::string_map::{with_entry, Entries, StringMap};
use crate::text::{decimal, is_part_of, lemma_parts_of, str_equal};

verus! {

/// What the transport hands back: the status code and the body as it came.
#[derive(Debug)]
pub struct RawResponse {
    pub status_code: u16,
    pub body_text: String,
}

/// The success range of status codes.
pub open spec fn is_success(status: u16) -> bool {
    200 <= status <= 299
}

/// Every member of an object is a string.
pub open spec fn all_text(members: Seq<(String, Json)>) -> bool {
    forall|i: int| 0 <= i < members.len() ==> (#[trigger] members[i]).1 is Text
}

/// The mapping that the first `count` members of an object give, set one
/// after the other.
pub open spec fn text_entries(members: Seq<(String, Json)>, count: nat) -> Entries
    decreases count,
{
    if count == 0 {
        Seq::empty()
    } else {
        let member = members[count - 1];
        with_entry(text_entries(members, (count - 1) as nat), member.0@, member.1->Text_0@)
    }
}

/// The mapping that a document holds, where it is an object of strings.
pub open spec fn flat_mapping(document: Json) -> Option<Entries> {
    match document {
        Json::Object(members) => if all_text(members@) {
            Some(text_entries(members@, members@.len()))
        } else {
            None
        },
        _ => None,
    }
}

/// Some member of an object has the given name.
pub open spec fn has_member(members: Seq<(String, Json)>, name: Seq<char>) -> bool {
    exists|i: int| 0 <= i < members.len() && (#[trigger] members[i]).0@ == name
}

/// The index of the first member with the given name.
pub open spec fn first_member(members: Seq<(String, Json)>, name: Seq<char>) -> int {
    choose|i: int|
        0 <= i < members.len() && (#[trigger] members[i]).0@ == name && forall|j: int|
            0 <= j < i ==> (#[trigger] members[j]).0@ != name
}

/// The member of a document with the given name: `None` where the document
/// is not an object or has no such member.
pub open spec fn member(document: Json, name: Seq<char>) -> Option<Json> {
    match document {
        Json::Object(members) => if has_member(members@, name) {
            Some(members@[first_member(members@, name)].1)
        } else {
            None
        },
        _ => None,
    }
}

/// Every item of a list is an object of strings.
pub open spec fn all_mappings(items: Seq<Json>) -> bool {
    forall|i: int| 0 <= i < items.len() ==> flat_mapping(#[trigger] items[i]) is Some
}

/// The mappings that the items of a list hold.
pub open spec fn mappings_of(items: Seq<Json>) -> Seq<Entries> {
    Seq::new(items.len(), |i: int| flat_mapping(items[i])->0)
}

/// The list under the `data` field of a document, or the kind of failure.
pub open spec fn data_list(document: Json) -> Result<Seq<Entries>, ErrorKind> {
    match member(document, "data"@) {
        None => Err(ErrorKind::NotFound),
        Some(Json::Array(items)) => if all_mappings(items@) {
            Ok(mappings_of(items@))
        } else {
            Err(ErrorKind::Deserialization)
        },
        Some(_) => Err(ErrorKind::Shape),
    }
}

/// The model of a list of mappings.
pub open spec fn maps_view(maps: Seq<StringMap>) -> Seq<Entries> {
    Seq::new(maps.len(), |i: int| maps[i]@)
}

/// The model of what reading a flat object returns.
pub open spec fn mapping_outcome(result: Result<StringMap, ExchangeError>) -> Result<
    Entries,
    ErrorKind,
> {
    match result {
        Ok(map) => Ok(map@),
        Err(error) => Err(error.spec_kind()),
    }
}

/// The model of what reading a list of flat objects returns.
pub open spec fn list_outcome(result: Result<Vec<StringMap>, ExchangeError>) -> Result<
    Seq<Entries>,
    ErrorKind,
> {
    match result {
        Ok(maps) => Ok(maps_view(maps@)),
        Err(error) => Err(error.spec_kind()),
    }
}

/// The result for an endpoint that returns one flat object.
pub open spec fn classified_mapping(status: u16, body: Seq<char>) -> Result<Entries, ErrorKind> {
    if !is_success(status) {
        Err(ErrorKind::Api)
    } else {
        match json_document(body) {
            None => Err(ErrorKind::Deserialization),
            Some(document) => match flat_mapping(document) {
                Some(entries) => Ok(entries),
                None => Err(ErrorKind::Deserialization),
            },
        }
    }
}

/// The result for an endpoint that returns a list under `data`.
pub open spec fn classified_list(status: u16, body: Seq<char>) -> Result<Seq<Entries>, ErrorKind> {
    if !is_success(status) {
        Err(ErrorKind::Api)
    } else {
        match json_document(body) {
            None => Err(ErrorKind::Deserialization),
            Some(document) => data_list(document),
        }
    }
}

/// What a `Deserialization` failure says of a body that is JSON of another
/// shape than the endpoint declares.
pub open spec fn shape_detail() -> Seq<char> {
    "expected an object with string values"@
}

/// What a failure holds besides its kind. An `Api` failure repeats the
/// method, the status and the body. `NotFound` and `Shape` name `data`. A
/// `Deserialization` failure for a body that is JSON says which shape was
/// expected; for a body that is not JSON it holds the message of the parser.
pub open spec fn describes(error: ExchangeError, method: Seq<char>, response: RawResponse) -> bool {
    match error {
        ExchangeError::Api { method: m, status, body } => m@ == method && status
            == response.status_code && body@ == response.body_text@,
        ExchangeError::NotFound { field } => field@ == "data"@,
        ExchangeError::Shape { field } => field@ == "data"@,
        ExchangeError::Deserialization { detail } => json_document(response.body_text@) is Some
            ==> detail@ == shape_detail(),
        ExchangeError::Configuration { .. } => false,
    }
}

/// A status outside the success range is an `Api` failure whatever the body
/// holds, and the message of the failure holds the method, the status in
/// decimal and the body as it came.
pub proof fn lemma_api_failure_message(
    error: ExchangeError,
    method: Seq<char>,
    response: RawResponse,
)
    requires
        !is_success(response.status_code),
        error is Api,
        describes(error, method, response),
    ensures
        classified_mapping(response.status_code, response.body_text@) matches Err(ErrorKind::Api),
        classified_list(response.status_code, response.body_text@) matches Err(ErrorKind::Api),
        message_text(error) == api_message(method, response.status_code, response.body_text@),
        is_part_of(method, message_text(error)),
        is_part_of(decimal(response.status_code as nat), message_text(error)),
        is_part_of(response.body_text@, message_text(error)),
{
    let status = decimal(response.status_code as nat);
    let body = response.body_text@;
    let lead = " request failed with status: "@;
    let link = " and body: "@;
    let message = message_text(error);
    lemma_parts_of(method, lead + status + link, body);
    assert(message =~= method + (lead + status + link) + body);
    lemma_parts_of(method + lead, status, link + body);
    assert(message =~= method + lead + status + (link + body));
}

/// Whether a status code lies in the success range.
pub fn status_is_success(status: u16) -> (success: bool)
    ensures
        success == is_success(status),
{
    200 <= status && status <= 299
}

/// Reads a document as one flat object of strings.
#[verifier::loop_isolation(false)]
pub fn mapping_of(document: &Json) -> (mapping: Option<StringMap>)
    ensures
        match mapping {
            Some(map) => flat_mapping(*document) == Some(map@),
            None => flat_mapping(*document) is None,
        },
{
    match document {
        Json::Object(members) => {
            let mut map = StringMap::new();
            let mut i: usize = 0;
            while i < members.len()
                invariant
                    i <= members@.len(),
                    map@ == text_entries(members@, i as nat),
                    forall|j: int| 0 <= j < i ==> (#[trigger] members@[j]).1 is Text,
                decreases members@.len() - i,
            {
                match &members[i].1 {
                    Json::Text(value) => {
                        map.insert(members[i].0.clone(), value.clone());
                    },
                    _ => {
                        assert(!((#[trigger] members@[i as int]).1 is Text));
                        return None;
                    },
                }
                i = i + 1;
            }
            Some(map)
        },
        _ => None,
    }
}

/// Finds the first member of a document with the given name.
#[verifier::loop_isolation(false)]
pub fn find_member<'a>(document: &'a Json, name: &str) -> (found: Option<&'a Json>)
    ensures
        match found {
            Some(value) => member(*document, name@) == Some(*value),
            None => member(*document, name@) is None,
        },
{
    match document {
        Json::Object(members) => {
            let mut i: usize = 0;
            while i < members.len()
                invariant
                    i <= members@.len(),
                    forall|j: int| 0 <= j < i ==> (#[trigger] members@[j]).0@ != name@,
                decreases members@.len() - i,
            {
                if str_equal(members[i].0.as_str(), name) {
                    proof {
                        assert((#[trigger] members@[i as int]).0@ == name@);
                        let first = first_member(members@, name@);
                        if first < i {
                            assert((#[trigger] members@[first]).0@ != name@);
                        } else if i < first {
                            assert((#[trigger] members@[i as int]).0@ != name@);
                        }
                    }
                    return Some(&members[i].1);
                }
                i = i + 1;
            }
            None
        },
        _ => None,
    }
}

/// Reads the list of flat objects under the `data` field of a document.
#[verifier::loop_isolation(false)]
pub fn data_list_of(document: &Json) -> (list: Result<Vec<StringMap>, ExchangeError>)
    ensures
        list_outcome(list) == data_list(*document),
        list matches Err(error) ==> match error {
            ExchangeError::NotFound { field } => field@ == "data"@,
            ExchangeError::Shape { field } => field@ == "data"@,
            ExchangeError::Deserialization { detail } => detail@ == shape_detail(),
            _ => false,
        },
{
    match find_member(document, "data") {
        None => Err(ExchangeError::NotFound { field: "data".to_owned() }),
        Some(Json::Array(items)) => {
            let mut maps: Vec<StringMap> = Vec::new();
            let mut i: usize = 0;
            while i < items.len()
                invariant
                    i <= items@.len(),
                    maps@.len() == i,
                    forall|j: int|
                        0 <= j < i ==> flat_mapping(#[trigger] items@[j]) == Some(maps@[j]@),
                decreases items@.len() - i,
            {
                match mapping_of(&items[i]) {
                    Some(map) => {
                        maps.push(map);
                    },
                    None => {
                        assert(flat_mapping(#[trigger] items@[i as int]) is None);
                        return Err(
                            ExchangeError::Deserialization {
                                detail: "expected an object with string values".to_owned(),
                            },
                        );
                    },
                }
                i = i + 1;
            }
            assert(maps_view(maps@) =~= mappings_of(items@));
            Ok(maps)
        },
        Some(_) => Err(ExchangeError::Shape { field: "data".to_owned() }),
    }
}

/// The failure for a status outside the success range.
fn api_failure(method: &str, response: &RawResponse) -> (error: ExchangeError)
    ensures
        error is Api,
        describes(error, method@, *response),
{
    ExchangeError::Api {
        method: method.to_owned(),
        status: response.status_code,
        body: response.body_text.clone(),
    }
}

/// Classifies the response of an endpoint that returns one flat object of
/// strings.
pub fn read_mapping(method: &str, response: &RawResponse) -> (result: Result<
    StringMap,
    ExchangeError,
>)
    ensures
        mapping_outcome(result) == classified_mapping(response.status_code, response.body_text@),
        result matches Err(error) ==> describes(error, method@, *response),
{
    if !status_is_success(response.status_code) {
        return Err(api_failure(method, response));
    }
    match parse_json(response.body_text.as_str()) {
        Err(error) => Err(ExchangeError::Deserialization { detail: error.message }),
        Ok(document) => match mapping_of(&document) {
            Some(map) => Ok(map),
            None => Err(
                ExchangeError::Deserialization {
                    detail: "expected an object with string values".to_owned(),
                },
            ),
        },
    }
}

/// Classifies the response of an endpoint that returns a list of flat
/// objects under the `data` field.
pub fn read_data_list(method: &str, response: &RawResponse) -> (result: Result<
    Vec<StringMap>,
    ExchangeError,
>)
    ensures
        list_outcome(result) == classified_list(response.status_code, response.body_text@),
        result matches Err(error) ==> describes(error, method@, *response),
{
    if !status_is_success(response.status_code) {
        return Err(api_failure(method, response));
    }
    match parse_json(response.body_text.as_str()) {
        Err(error) => Err(ExchangeError::Deserialization { detail: error.message }),
        Ok(document) => data_list_of(&document),
    }
}

} // verus!
