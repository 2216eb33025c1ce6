use ts_binding::decode::{DecodeError, FieldValue, ResponseRecord};
use ts_binding::descriptor::{DecodePolicy, EndpointDescriptor, FieldSpec, ParameterSpec, ResponseDescriptor, ValueType};
use ts_binding::envelope::WireEnvelope;
use ts_binding::binding::Requester;
use ts_binding::request::{receive, receive_records, receive_rows, rows, zip_row};
use ts_binding::request::{CallError, Reply, RequestEnvelope};
use ts_binding::value::{find_member, WireNumber, WireValue};

fn text(s: &str) -> WireValue {
    WireValue::Text(s.to_string())
}

fn object(members: Vec<(&str, WireValue)>) -> WireValue {
    WireValue::Object(members.into_iter().map(|(k, v)| (k.to_string(), v)).collect())
}

fn parameter(field_name: &str, wire_key: &str) -> ParameterSpec {
    ParameterSpec { field_name: field_name.to_string(), wire_key: wire_key.to_string() }
}

fn endpoint(parameters: Vec<ParameterSpec>) -> EndpointDescriptor {
    EndpointDescriptor {
        operation_name: "daily".to_string(),
        description: "daily bars".to_string(),
        parameters,
        response_link: None,
    }
}

fn build_params(parameters: Vec<ParameterSpec>, values: Vec<WireValue>) -> Vec<(String, WireValue)> {
    let call = Requester::new(endpoint(parameters), values, None).unwrap();
    call.request(&Some("secret".to_string())).unwrap().params
}

fn build_request(
    endpoint: EndpointDescriptor,
    values: Vec<WireValue>,
    token: Option<String>,
    projection: Option<Vec<&str>>,
) -> Result<RequestEnvelope, CallError> {
    Requester::new(endpoint, values, projection).unwrap().request(&token)
}

fn reply(status: u16, items: Vec<WireValue>) -> Reply {
    let data = object(vec![
        ("fields", WireValue::Array(vec![text("a"), text("b")])),
        ("items", WireValue::Array(items)),
    ]);
    Reply { status, payload: Some(object(vec![("data", data)])) }
}

fn a_b_descriptor() -> ResponseDescriptor {
    ResponseDescriptor {
        record_name: "Pair".to_string(),
        operation_name: "pairs".to_string(),
        fields: vec![
            FieldSpec::new("a", 0, DecodePolicy::Required, ValueType::Text),
            FieldSpec::new("b", 1, DecodePolicy::Optional, ValueType::Text),
        ],
    }
}

#[test]
fn parameters_are_sent_under_their_wire_keys() {
    let parameters = vec![parameter("code", "ts_code"), parameter("day", "day")];
    let values = vec![text("000001.SZ"), WireValue::Null];
    assert_eq!(
        build_params(parameters, values),
        vec![("ts_code".to_string(), text("000001.SZ")), ("day".to_string(), WireValue::Null)]
    );
    assert_eq!(build_params(vec![], vec![]), vec![]);
}

#[test]
fn parameters_are_read_back_by_their_wire_keys() {
    let parameters = || vec![parameter("code", "ts_code"), parameter("day", "trade_date"), parameter("n", "limit")];
    let values = vec![text("000001.SZ"), text("20250407"), WireValue::Number(WireNumber::Unsigned(5))];
    let params = build_params(parameters(), values.clone());
    for (p, v) in parameters().iter().zip(values.iter()) {
        assert_eq!(find_member(&params, &p.wire_key), Some(v));
    }
}

#[test]
fn a_shared_wire_key_reads_back_the_later_parameter() {
    let parameters = vec![parameter("from", "date"), parameter("to", "date")];
    let values = vec![text("20250407"), text("20250409")];
    let params = build_params(parameters, values);
    assert_eq!(find_member(&params, "date"), Some(&text("20250409")));
}

#[test]
fn a_request_carries_operation_token_parameters_and_projection() {
    let e = endpoint(vec![parameter("code", "ts_code")]);
    let built = build_request(e, vec![text("000001.SZ")], Some("secret".to_string()), Some(vec!["open", "close"]));
    assert_eq!(
        built,
        Ok(RequestEnvelope {
            operation_name: "daily".to_string(),
            token: "secret".to_string(),
            params: vec![("ts_code".to_string(), text("000001.SZ"))],
            fields: Some("open,close".to_string()),
        })
    );
}

#[test]
fn a_request_without_projection_has_no_fields() {
    let built = build_request(endpoint(vec![]), vec![], Some(String::new()), None).unwrap();
    assert_eq!(built.fields, None);
    assert_eq!(built.token, "");
    let empty = build_request(endpoint(vec![]), vec![], Some("t".to_string()), Some(vec![])).unwrap();
    assert_eq!(empty.fields, Some(String::new()));
}

#[test]
fn a_request_without_token_is_not_built() {
    let e = endpoint(vec![parameter("code", "ts_code")]);
    assert_eq!(build_request(e, vec![text("x")], None, None), Err(CallError::MissingCredential));
}

#[test]
fn the_body_holds_the_members_of_the_request() {
    let request = RequestEnvelope {
        operation_name: "daily".to_string(),
        token: "secret".to_string(),
        params: vec![("ts_code".to_string(), text("000001.SZ"))],
        fields: Some("open,close".to_string()),
    };
    assert_eq!(
        request.to_wire(),
        object(vec![
            ("operation_name", text("daily")),
            ("token", text("secret")),
            ("params", object(vec![("ts_code", text("000001.SZ"))])),
            ("fields", text("open,close")),
        ])
    );
}

#[test]
fn the_body_of_a_request_without_projection_has_no_fields() {
    let request = RequestEnvelope {
        operation_name: "daily".to_string(),
        token: "secret".to_string(),
        params: vec![],
        fields: None,
    };
    let body = request.to_wire();
    assert_eq!(
        body,
        object(vec![("operation_name", text("daily")), ("token", text("secret")), ("params", object(vec![]))])
    );
    assert_eq!(body.get("fields"), None);
}

#[test]
fn a_reply_gives_its_envelope() {
    let r = reply(200, vec![WireValue::Array(vec![text("x")])]);
    assert_eq!(
        receive(&r),
        Ok(WireEnvelope { fields: vec!["a".to_string(), "b".to_string()], items: vec![vec![text("x")]] })
    );
}

#[test]
fn a_status_that_is_no_success_is_a_transport_error() {
    for status in [0u16, 100, 199, 300, 301, 404, 500, 65535] {
        let r = reply(status, vec![]);
        assert_eq!(receive(&r), Err(CallError::TransportError { status }));
        assert_eq!(receive_records(&a_b_descriptor(), &r), Err(CallError::TransportError { status }));
        assert_eq!(receive_rows(&r), Err(CallError::TransportError { status }));
    }
    for status in [200u16, 201, 204, 299] {
        assert!(receive(&reply(status, vec![])).is_ok());
    }
}

#[test]
fn the_status_is_looked_at_before_the_payload() {
    let r = Reply { status: 500, payload: None };
    assert_eq!(receive(&r), Err(CallError::TransportError { status: 500 }));
}

#[test]
fn a_reply_without_envelope_is_malformed() {
    assert_eq!(receive(&Reply { status: 200, payload: None }), Err(CallError::MalformedEnvelope));
    assert_eq!(receive(&Reply { status: 200, payload: Some(WireValue::Null) }), Err(CallError::MalformedEnvelope));
    let no_items = object(vec![("data", object(vec![("fields", WireValue::Array(vec![]))]))]);
    let r = Reply { status: 200, payload: Some(no_items) };
    assert_eq!(receive(&r), Err(CallError::MalformedEnvelope));
    assert_eq!(receive_records(&a_b_descriptor(), &r), Err(CallError::MalformedEnvelope));
    assert_eq!(receive_rows(&r), Err(CallError::MalformedEnvelope));
    let odd_item = reply(200, vec![text("no array")]);
    assert_eq!(receive(&odd_item), Err(CallError::MalformedEnvelope));
}

#[test]
fn a_reply_gives_its_records() {
    let r = reply(200, vec![WireValue::Array(vec![text("x")]), WireValue::Array(vec![text("y"), text("z")])]);
    assert_eq!(
        receive_records(&a_b_descriptor(), &r),
        Ok(vec![
            ResponseRecord {
                values: vec![
                    ("a".to_string(), FieldValue::Text("x".to_string())),
                    ("b".to_string(), FieldValue::Absent),
                ],
            },
            ResponseRecord {
                values: vec![
                    ("a".to_string(), FieldValue::Text("y".to_string())),
                    ("b".to_string(), FieldValue::Text("z".to_string())),
                ],
            },
        ])
    );
}

#[test]
fn a_reply_that_does_not_decode_gives_the_decode_error() {
    let r = reply(200, vec![WireValue::Array(vec![WireValue::Null, text("z")])]);
    assert_eq!(
        receive_records(&a_b_descriptor(), &r),
        Err(CallError::Decode(DecodeError::NullRequiredField { field: "a".to_string(), index: 0 }))
    );
}

#[test]
fn a_row_pairs_columns_and_values_up_to_the_shorter() {
    let fields = vec!["a".to_string(), "b".to_string()];
    assert_eq!(
        zip_row(&fields, &vec![text("x"), WireValue::Null, text("beyond")]),
        vec![("a".to_string(), text("x")), ("b".to_string(), WireValue::Null)]
    );
    assert_eq!(zip_row(&fields, &vec![text("x")]), vec![("a".to_string(), text("x"))]);
    assert_eq!(zip_row(&fields, &vec![]), vec![]);
    assert_eq!(zip_row(&vec![], &vec![text("x")]), vec![]);
}

#[test]
fn rows_follow_the_columns_of_the_envelope() {
    let envelope = WireEnvelope {
        fields: vec!["b".to_string(), "a".to_string()],
        items: vec![vec![text("x"), text("y")], vec![WireValue::Null]],
    };
    assert_eq!(
        rows(&envelope),
        vec![
            vec![("b".to_string(), text("x")), ("a".to_string(), text("y"))],
            vec![("b".to_string(), WireValue::Null)],
        ]
    );
    let r = reply(200, vec![WireValue::Array(vec![WireValue::Null, text("z")])]);
    assert_eq!(
        receive_rows(&r),
        Ok(vec![vec![("a".to_string(), WireValue::Null), ("b".to_string(), text("z"))]])
    );
}

#[test]
fn a_repeated_column_reads_its_last_value() {
    let row = zip_row(&vec!["a".to_string(), "a".to_string()], &vec![text("first"), text("last")]);
    assert_eq!(find_member(&row, "a"), Some(&text("last")));
}

#[test]
fn positions_that_are_used_twice_are_found() {
    let mut d = a_b_descriptor();
    assert!(d.has_distinct_indices());
    d.fields.push(FieldSpec::new("c", 0, DecodePolicy::Optional, ValueType::Raw));
    assert!(!d.has_distinct_indices());
    d.fields.clear();
    assert!(d.has_distinct_indices());
}

#[test]
fn columns_that_differ_from_the_fields_are_found() {
    let d = a_b_descriptor();
    let columns = |v: Vec<&str>| v.into_iter().map(|s| s.to_string()).collect::<Vec<String>>();
    assert!(d.agrees_with_columns(&columns(vec!["a", "b"])));
    assert!(d.agrees_with_columns(&columns(vec!["a", "b", "c"])));
    assert!(!d.agrees_with_columns(&columns(vec!["b", "a"])));
    assert!(!d.agrees_with_columns(&columns(vec!["a"])));
    assert!(!d.agrees_with_columns(&columns(vec![])));
}

#[test]
fn the_names_of_the_fields_are_given_in_declared_order() {
    assert_eq!(a_b_descriptor().field_names(), vec!["a".to_string(), "b".to_string()]);
    assert_eq!(a_b_descriptor().clone(), a_b_descriptor());
}
