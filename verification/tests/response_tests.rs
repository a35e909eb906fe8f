use dd_unqueried_metrics::metrics::{ApiResponse, MetricRecord};
use dd_unqueried_metrics::request::FetchError;
use dd_unqueried_metrics::response::{decode_response, record_from_item, records_from_sections};

fn record(metric_type: &str, id: &str) -> MetricRecord {
    MetricRecord { metric_type: metric_type.to_string(), id: id.to_string() }
}

fn member(name: &str, value: &str) -> (String, String) {
    (name.to_string(), value.to_string())
}

#[test]
fn two_records_are_read_in_their_order() {
    let body = r#"{"data":[{"type":"count","id":"my.metric.one"},{"type":"gauge","id":"my.metric.two"}]}"#;
    assert_eq!(
        decode_response(body),
        Ok(ApiResponse { data: vec![record("count", "my.metric.one"), record("gauge", "my.metric.two")] })
    );
}

#[test]
fn the_order_of_the_server_is_kept() {
    let body = r#"{"data":[{"type":"t","id":"z"},{"type":"t","id":"a"},{"type":"t","id":"m"},{"type":"t","id":"a"}]}"#;
    let ids: Vec<String> = decode_response(body).unwrap().data.into_iter().map(|r| r.id).collect();
    assert_eq!(ids, vec!["z", "a", "m", "a"]);
}

#[test]
fn no_data_is_no_records() {
    assert_eq!(decode_response(r#"{"data":[]}"#), Ok(ApiResponse { data: vec![] }));
}

#[test]
fn the_members_of_an_item_come_in_any_order() {
    let body = r#"{"data":[{"id":"a.b","type":"count"}]}"#;
    assert_eq!(decode_response(body), Ok(ApiResponse { data: vec![record("count", "a.b")] }));
}

#[test]
fn white_space_and_escapes_are_json() {
    let body = " {\n \"data\" : [ { \"type\" : \"co\\u0075nt\", \"id\" : \"a\\\"b\\n\\u00e9\" } ]\n}\n";
    assert_eq!(decode_response(body), Ok(ApiResponse { data: vec![record("count", "a\"b\n\u{e9}")] }));
}

#[test]
fn what_is_not_json_is_a_decode_failure() {
    assert_eq!(decode_response(""), Err(FetchError::Decode));
    assert_eq!(decode_response("not json"), Err(FetchError::Decode));
    assert_eq!(decode_response("<html></html>"), Err(FetchError::Decode));
    assert_eq!(decode_response(r#"{"data":["#), Err(FetchError::Decode));
    assert_eq!(decode_response(r#"{"data":[]} trailing"#), Err(FetchError::Decode));
}

#[test]
fn another_form_is_a_decode_failure() {
    assert_eq!(decode_response("null"), Err(FetchError::Decode));
    assert_eq!(decode_response("[]"), Err(FetchError::Decode));
    assert_eq!(decode_response("{}"), Err(FetchError::Decode));
    assert_eq!(decode_response(r#"{"data":null}"#), Err(FetchError::Decode));
    assert_eq!(decode_response(r#"{"data":{}}"#), Err(FetchError::Decode));
    assert_eq!(decode_response(r#"{"errors":["Forbidden"]}"#), Err(FetchError::Decode));
    assert_eq!(decode_response(r#"{"data":[{"type":"count","id":7}]}"#), Err(FetchError::Decode));
    assert_eq!(decode_response(r#"{"data":[{"type":null,"id":"a"}]}"#), Err(FetchError::Decode));
    assert_eq!(decode_response(r#"{"data":["a"]}"#), Err(FetchError::Decode));
}

#[test]
fn a_missing_member_is_a_decode_failure() {
    assert_eq!(decode_response(r#"{"data":[{"type":"count"}]}"#), Err(FetchError::Decode));
    assert_eq!(decode_response(r#"{"data":[{"id":"a"}]}"#), Err(FetchError::Decode));
    assert_eq!(decode_response(r#"{"data":[{}]}"#), Err(FetchError::Decode));
    assert_eq!(
        decode_response(r#"{"data":[{"type":"count","id":"a"},{"type":"count"}]}"#),
        Err(FetchError::Decode)
    );
}

#[test]
fn an_unexpected_member_is_a_decode_failure() {
    assert_eq!(
        decode_response(r#"{"data":[{"type":"count","id":"a","unit":"s"}]}"#),
        Err(FetchError::Decode)
    );
    assert_eq!(decode_response(r#"{"data":[],"more":[]}"#), Err(FetchError::Decode));
    assert_eq!(decode_response(r#"{"data":[],"meta":{"page":1}}"#), Err(FetchError::Decode));
    assert_eq!(decode_response(r#"{"Data":[]}"#), Err(FetchError::Decode));
    assert_eq!(
        decode_response(r#"{"data":[{"type":"count","ID":"a"}]}"#),
        Err(FetchError::Decode)
    );
}

#[test]
fn an_item_is_an_id_and_a_type() {
    assert_eq!(
        record_from_item(&vec![member("id", "a"), member("type", "count")]),
        Some(record("count", "a"))
    );
    assert_eq!(
        record_from_item(&vec![member("type", "count"), member("id", "a")]),
        Some(record("count", "a"))
    );
    assert_eq!(record_from_item(&vec![member("id", "a")]), None);
    assert_eq!(record_from_item(&vec![]), None);
    assert_eq!(record_from_item(&vec![member("id", "a"), member("id", "b")]), None);
    assert_eq!(record_from_item(&vec![member("type", "a"), member("type", "b")]), None);
    assert_eq!(record_from_item(&vec![member("id", "a"), member("kind", "b")]), None);
    assert_eq!(
        record_from_item(&vec![member("id", "a"), member("type", "b"), member("unit", "c")]),
        None
    );
}

#[test]
fn a_document_is_the_one_member_data() {
    let items = vec![vec![member("id", "a"), member("type", "count")]];
    assert_eq!(
        records_from_sections(&vec![("data".to_string(), items)]),
        Ok(ApiResponse { data: vec![record("count", "a")] })
    );
    assert_eq!(
        records_from_sections(&vec![("data".to_string(), vec![])]),
        Ok(ApiResponse { data: vec![] })
    );
    assert_eq!(records_from_sections(&vec![]), Err(FetchError::Decode));
    assert_eq!(
        records_from_sections(&vec![("items".to_string(), vec![])]),
        Err(FetchError::Decode)
    );
    assert_eq!(
        records_from_sections(&vec![("data".to_string(), vec![]), ("more".to_string(), vec![])]),
        Err(FetchError::Decode)
    );
    assert_eq!(
        records_from_sections(&vec![("data".to_string(), vec![vec![member("id", "a")]])]),
        Err(FetchError::Decode)
    );
}
