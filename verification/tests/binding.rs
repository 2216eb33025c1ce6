use ts_binding::binding::{own_names, Requester};
use ts_binding::decode::{DecodeError, FieldValue};
use ts_binding::descriptor::{DecodePolicy, EndpointDescriptor, FieldSpec, ResponseDescriptor, ValueType};
use ts_binding::envelope::WireEnvelope;
use ts_binding::request::{CallError, Reply};
use ts_binding::value::WireValue;

fn text(s: &str) -> WireValue {
    WireValue::Text(s.to_string())
}

fn object(members: Vec<(&str, WireValue)>) -> WireValue {
    WireValue::Object(members.into_iter().map(|(k, v)| (k.to_string(), v)).collect())
}

fn endpoint() -> EndpointDescriptor {
    EndpointDescriptor::plain("pairs", "pairs of one day", &["trade_date"], "Pair")
}

fn pair() -> ResponseDescriptor {
    ResponseDescriptor {
        record_name: "Pair".to_string(),
        operation_name: "pairs".to_string(),
        fields: vec![
            FieldSpec::new("a", 0, DecodePolicy::Required, ValueType::Text),
            FieldSpec::new("b", 1, DecodePolicy::Optional, ValueType::Text),
        ],
    }
}

fn reply(items: Vec<WireValue>) -> Reply {
    let data = object(vec![
        ("fields", WireValue::Array(vec![text("a"), text("b")])),
        ("items", WireValue::Array(items)),
    ]);
    Reply { status: 200, payload: Some(object(vec![("data", data)])) }
}

fn token() -> Option<String> {
    Some("secret".to_string())
}

#[test]
fn a_call_needs_one_value_per_parameter() {
    assert!(Requester::new(endpoint(), vec![text("20250403")], None).is_some());
    assert!(Requester::new(endpoint(), vec![], None).is_none());
    assert!(Requester::new(endpoint(), vec![text("a"), text("b")], None).is_none());
}

#[test]
fn a_call_without_projection_sends_no_fields() {
    let call = Requester::new(endpoint(), vec![text("20250403")], None).unwrap();
    let request = call.request(&token()).unwrap();
    assert_eq!(request.operation_name, "pairs");
    assert_eq!(request.token, "secret");
    assert_eq!(request.params, vec![("trade_date".to_string(), text("20250403"))]);
    assert_eq!(request.fields, None);
}

#[test]
fn a_call_sends_the_projection_it_was_made_with() {
    let call = Requester::new(endpoint(), vec![text("20250403")], Some(vec!["b"])).unwrap();
    assert_eq!(call.request(&token()).unwrap().fields, Some("b".to_string()));
}

#[test]
fn a_chosen_projection_replaces_the_one_before() {
    let call = Requester::new(endpoint(), vec![text("20250403")], Some(vec!["b"])).unwrap();
    let call = call.with_fields(vec!["a", "b"]).with_fields(vec!["b", "a"]);
    assert_eq!(call.request(&token()).unwrap().fields, Some("b,a".to_string()));
}

#[test]
fn a_call_without_token_is_not_sent() {
    let call = Requester::new(endpoint(), vec![text("20250403")], None).unwrap();
    assert_eq!(call.request(&None), Err(CallError::MissingCredential));
    let typed = call.typed(pair()).unwrap();
    assert_eq!(typed.request(&None), Err(CallError::MissingCredential));
}

#[test]
fn a_typed_call_without_projection_asks_for_all_fields() {
    let call = Requester::new(endpoint(), vec![text("20250403")], None).unwrap();
    let typed = call.typed(pair()).unwrap();
    let request = typed.request(&token()).unwrap();
    assert_eq!(request.fields, Some("a,b".to_string()));
    assert_eq!(request.to_wire().get("fields"), Some(&text("a,b")));
}

#[test]
fn a_typed_call_keeps_a_chosen_projection() {
    let call = Requester::new(endpoint(), vec![text("20250403")], None).unwrap();
    let typed = call.with_fields(vec!["a"]).typed(pair()).unwrap();
    assert_eq!(typed.request(&token()).unwrap().fields, Some("a".to_string()));
    let typed = typed.with_fields(vec!["b", "a"]);
    assert_eq!(typed.request(&token()).unwrap().fields, Some("b,a".to_string()));
}

#[test]
fn a_typed_call_needs_the_linked_record_type() {
    let other = ResponseDescriptor {
        record_name: "Other".to_string(),
        operation_name: "pairs".to_string(),
        fields: vec![],
    };
    let call = Requester::new(endpoint(), vec![text("20250403")], None).unwrap();
    assert!(call.typed(other).is_none());
    let mut unlinked = endpoint();
    unlinked.response_link = None;
    let call = Requester::new(unlinked, vec![text("20250403")], None).unwrap();
    assert!(call.typed(pair()).is_none());
}

#[test]
fn a_reply_is_read_as_it_is() {
    let call = Requester::new(endpoint(), vec![text("20250403")], None).unwrap();
    let r = reply(vec![WireValue::Array(vec![WireValue::Null, text("z")])]);
    assert_eq!(
        call.execute(&r),
        Ok(WireEnvelope {
            fields: vec!["a".to_string(), "b".to_string()],
            items: vec![vec![WireValue::Null, text("z")]],
        })
    );
}

#[test]
fn a_reply_is_read_as_rows() {
    let call = Requester::new(endpoint(), vec![text("20250403")], None).unwrap();
    let r = reply(vec![WireValue::Array(vec![WireValue::Null, text("z")]), WireValue::Array(vec![text("x")])]);
    assert_eq!(
        call.execute_as_dicts(&r),
        Ok(vec![
            vec![("a".to_string(), WireValue::Null), ("b".to_string(), text("z"))],
            vec![("a".to_string(), text("x"))],
        ])
    );
}

#[test]
fn a_reply_is_read_as_records() {
    let typed = Requester::new(endpoint(), vec![text("20250403")], None).unwrap().typed(pair()).unwrap();
    let r = reply(vec![WireValue::Array(vec![text("x")]), WireValue::Array(vec![text("y"), text("z")])]);
    let records = typed.execute_typed(&r).unwrap();
    assert_eq!(records.len(), 2);
    assert_eq!(records[0].get("a"), Some(&FieldValue::Text("x".to_string())));
    assert_eq!(records[0].get("b"), Some(&FieldValue::Absent));
    assert_eq!(records[1].get("a"), Some(&FieldValue::Text("y".to_string())));
    assert_eq!(records[1].get("b"), Some(&FieldValue::Text("z".to_string())));
    let bad = reply(vec![WireValue::Array(vec![WireValue::Null, text("z")])]);
    assert_eq!(
        typed.execute_typed(&bad),
        Err(CallError::Decode(DecodeError::NullRequiredField { field: "a".to_string(), index: 0 }))
    );
}

#[test]
fn a_failed_transport_is_reported_by_every_reading() {
    let call = Requester::new(endpoint(), vec![text("20250403")], None).unwrap();
    let r = Reply { status: 503, payload: None };
    assert_eq!(call.execute(&r), Err(CallError::TransportError { status: 503 }));
    assert_eq!(call.execute_as_dicts(&r), Err(CallError::TransportError { status: 503 }));
    let typed = call.typed(pair()).unwrap();
    assert_eq!(typed.execute_typed(&r), Err(CallError::TransportError { status: 503 }));
}

#[test]
fn names_are_copied_in_their_order() {
    assert_eq!(own_names(&vec!["b", "a"]), vec!["b".to_string(), "a".to_string()]);
    assert_eq!(own_names(&vec![]), Vec::<String>::new());
}
