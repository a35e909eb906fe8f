//! Reading the body of a response: a JSON object with the one member `data`, an
//! array of objects that each hold a `type` and an `id`, both strings.

use std::collections::BTreeMap;
use vstd::prelude::*;
use vstd::string::*;

use crate::metrics::{record_models, ApiResponse, MetricRecord, MetricRecordModel};
use crate::request::FetchError;

verus! {

/// What `serde_json` reads from `body` as an object whose members are arrays of
/// objects whose members are strings: the members in the order of their names,
/// each with its items, each item with its members in the order of their names.
/// Of members of one name in one object the last one stands. `None` where `body`
/// is not a JSON document of that form.
pub uninterp spec fn json_sections(body: Seq<char>) -> Option<
    Seq<(Seq<char>, Seq<Seq<(Seq<char>, Seq<char>)>>)>,
>;

/// Has `serde_json` read `body`. This is `serde_json::from_str`, asked for a map
/// from strings to vectors of maps from strings to strings; what it gives is
/// handed on as vectors of pairs.
#[verifier::external_body]
fn read_sections(body: &str) -> (r: Option<Vec<(String, Vec<Vec<(String, String)>>)>>)
    ensures
        r.deep_view() == json_sections(body@),
{
    let read: Option<BTreeMap<String, Vec<BTreeMap<String, String>>>> =
        serde_json::from_str(body).ok();
    read.map(
        |sections|
            sections.into_iter().map(
                |(name, items)|
                    (name, items.into_iter().map(|item| item.into_iter().collect()).collect()),
            ).collect(),
    )
}

/// The record that the members of one item give: the item has to hold an `id`
/// and a `type` and nothing else.
pub open spec fn record_of_item(item: Seq<(Seq<char>, Seq<char>)>) -> Option<MetricRecordModel> {
    if item.len() == 2 && item[0].0 == "id"@ && item[1].0 == "type"@ {
        Some(MetricRecordModel { metric_type: item[1].1, id: item[0].1 })
    } else if item.len() == 2 && item[0].0 == "type"@ && item[1].0 == "id"@ {
        Some(MetricRecordModel { metric_type: item[0].1, id: item[1].1 })
    } else {
        None
    }
}

/// The records that `items` give, in their order, where each of them gives one.
pub open spec fn records_of_items(items: Seq<Seq<(Seq<char>, Seq<char>)>>) -> Option<
    Seq<MetricRecordModel>,
> {
    if forall|i: int| 0 <= i < items.len() ==> (#[trigger] record_of_item(items[i])) is Some {
        Some(Seq::new(items.len(), |i: int| record_of_item(items[i])->Some_0))
    } else {
        None
    }
}

/// The records of a document: it has to hold the member `data` and nothing else.
pub open spec fn records_of_sections(
    sections: Seq<(Seq<char>, Seq<Seq<(Seq<char>, Seq<char>)>>)>,
) -> Option<Seq<MetricRecordModel>> {
    if sections.len() == 1 && sections[0].0 == "data"@ {
        records_of_items(sections[0].1)
    } else {
        None
    }
}

/// The records that the body of a response holds, if it is of the expected form.
pub open spec fn records_of_body(body: Seq<char>) -> Option<Seq<MetricRecordModel>> {
    match json_sections(body) {
        Some(sections) => records_of_sections(sections),
        None => None,
    }
}

fn same_text(a: &String, b: &str) -> (r: bool)
    ensures
        r == (a@ == b@),
{
    let other = String::from_str(b);
    *a == other
}

/// Reads one item of `data` as a record.
pub fn record_from_item(item: &Vec<(String, String)>) -> (r: Option<MetricRecord>)
    ensures
        match record_of_item(item.deep_view()) {
            Some(record) => r is Some && r->Some_0@ == record,
            None => r is None,
        },
{
    if item.len() != 2 {
        return None;
    }
    assert(item.deep_view()[0] == (item@[0].0@, item@[0].1@));
    assert(item.deep_view()[1] == (item@[1].0@, item@[1].1@));
    if same_text(&item[0].0, "id") && same_text(&item[1].0, "type") {
        Some(MetricRecord { metric_type: item[1].1.clone(), id: item[0].1.clone() })
    } else if same_text(&item[0].0, "type") && same_text(&item[1].0, "id") {
        Some(MetricRecord { metric_type: item[0].1.clone(), id: item[1].1.clone() })
    } else {
        None
    }
}

/// Reads the members of a document as the records of a response. Anything but
/// the one member `data`, with items that each hold an `id` and a `type` and
/// nothing else, is a decode failure.
pub fn records_from_sections(sections: &Vec<(String, Vec<Vec<(String, String)>>)>) -> (r: Result<
    ApiResponse,
    FetchError,
>)
    ensures
        match records_of_sections(sections.deep_view()) {
            Some(records) => r is Ok && r->Ok_0@ == records,
            None => r == Err::<ApiResponse, FetchError>(FetchError::Decode),
        },
{
    if sections.len() != 1 {
        return Err(FetchError::Decode);
    }
    assert(sections.deep_view()[0] == (sections@[0].0@, sections@[0].1.deep_view()));
    if !same_text(&sections[0].0, "data") {
        return Err(FetchError::Decode);
    }
    let items = &sections[0].1;
    let ghost wanted = items.deep_view();
    let mut data: Vec<MetricRecord> = Vec::new();
    let mut i: usize = 0;
    while i < items.len()
        invariant
            i <= items@.len(),
            wanted == items.deep_view(),
            wanted.len() == items@.len(),
            records_of_sections(sections.deep_view()) == records_of_items(wanted),
            data@.len() == i,
            forall|j: int|
                0 <= j < i ==> (#[trigger] record_of_item(wanted[j])) == Some(data@[j]@),
        decreases items@.len() - i,
    {
        assert(wanted[i as int] == items@[i as int].deep_view());
        match record_from_item(&items[i]) {
            Some(record) => {
                data.push(record);
            },
            None => {
                assert(record_of_item(wanted[i as int]) is None);
                return Err(FetchError::Decode);
            },
        }
        i = i + 1;
    }
    let response = ApiResponse { data };
    assert(response@ =~= records_of_items(wanted)->Some_0);
    Ok(response)
}

/// Reads the body of a response as its records, in the order in which the
/// server listed them. A body that is not the expected JSON document is a decode
/// failure.
pub fn decode_response(body: &str) -> (r: Result<ApiResponse, FetchError>)
    ensures
        match records_of_body(body@) {
            Some(records) => r is Ok && r->Ok_0@ == records,
            None => r == Err::<ApiResponse, FetchError>(FetchError::Decode),
        },
{
    match read_sections(body) {
        Some(sections) => records_from_sections(&sections),
        None => Err(FetchError::Decode),
    }
}

} // verus!
