use ts_binding::envelope::WireEnvelope;
use ts_binding::text::{join_with_commas, text_is};
use ts_binding::value::{clone_members, clone_values, find_member, WireNumber, WireValue};

fn text(s: &str) -> WireValue {
    WireValue::Text(s.to_string())
}

fn object(members: Vec<(&str, WireValue)>) -> WireValue {
    WireValue::Object(members.into_iter().map(|(k, v)| (k.to_string(), v)).collect())
}

fn payload(fields: WireValue, items: WireValue) -> WireValue {
    object(vec![("data", object(vec![("fields", fields), ("items", items)]))])
}

#[test]
fn a_payload_gives_its_envelope() {
    let p = payload(
        WireValue::Array(vec![text("a"), text("b")]),
        WireValue::Array(vec![
            WireValue::Array(vec![text("x")]),
            WireValue::Array(vec![text("y"), WireValue::Null, WireValue::Bool(true)]),
            WireValue::Array(vec![]),
        ]),
    );
    assert_eq!(
        WireEnvelope::from_payload(&p),
        Some(WireEnvelope {
            fields: vec!["a".to_string(), "b".to_string()],
            items: vec![vec![text("x")], vec![text("y"), WireValue::Null, WireValue::Bool(true)], vec![]],
        })
    );
}

#[test]
fn an_empty_table_is_an_envelope() {
    let p = payload(WireValue::Array(vec![]), WireValue::Array(vec![]));
    assert_eq!(WireEnvelope::from_payload(&p), Some(WireEnvelope { fields: vec![], items: vec![] }));
}

#[test]
fn other_members_of_the_payload_are_passed_over() {
    let p = object(vec![
        ("code", WireValue::Number(WireNumber::Unsigned(0))),
        (
            "data",
            object(vec![
                ("has_more", WireValue::Bool(false)),
                ("items", WireValue::Array(vec![])),
                ("fields", WireValue::Array(vec![text("a")])),
            ]),
        ),
        ("msg", WireValue::Null),
    ]);
    assert_eq!(WireEnvelope::from_payload(&p), Some(WireEnvelope { fields: vec!["a".to_string()], items: vec![] }));
}

#[test]
fn a_payload_of_another_shape_gives_none() {
    let names = || WireValue::Array(vec![text("a")]);
    let rows = || WireValue::Array(vec![WireValue::Array(vec![text("x")])]);
    assert_eq!(WireEnvelope::from_payload(&WireValue::Null), None);
    assert_eq!(WireEnvelope::from_payload(&WireValue::Array(vec![])), None);
    assert_eq!(WireEnvelope::from_payload(&object(vec![])), None);
    assert_eq!(WireEnvelope::from_payload(&object(vec![("data", WireValue::Null)])), None);
    assert_eq!(WireEnvelope::from_payload(&object(vec![("data", object(vec![("fields", names())]))])), None);
    assert_eq!(WireEnvelope::from_payload(&object(vec![("data", object(vec![("items", rows())]))])), None);
    assert_eq!(WireEnvelope::from_payload(&payload(text("a"), rows())), None);
    assert_eq!(WireEnvelope::from_payload(&payload(names(), object(vec![]))), None);
    assert_eq!(WireEnvelope::from_payload(&payload(WireValue::Array(vec![text("a"), WireValue::Null]), rows())), None);
    assert_eq!(
        WireEnvelope::from_payload(&payload(names(), WireValue::Array(vec![WireValue::Array(vec![]), text("x")]))),
        None
    );
}

#[test]
fn the_last_member_under_a_key_counts() {
    let members = vec![
        ("k".to_string(), text("first")),
        ("other".to_string(), WireValue::Null),
        ("k".to_string(), text("last")),
    ];
    assert_eq!(find_member(&members, "k"), Some(&text("last")));
    assert_eq!(find_member(&members, "other"), Some(&WireValue::Null));
    assert_eq!(find_member(&members, "none"), None);
    assert_eq!(find_member(&vec![], "k"), None);
    let v = WireValue::Object(members);
    assert_eq!(v.get("k"), Some(&text("last")));
    assert_eq!(v.get("missing"), None);
    assert_eq!(text("k").get("k"), None);
    assert_eq!(WireValue::Array(vec![text("k")]).get("k"), None);
}

#[test]
fn a_value_is_told_by_its_kind() {
    assert!(WireValue::Null.is_null());
    assert!(!WireValue::Bool(false).is_null());
    assert!(!text("").is_null());
    assert_eq!(WireValue::Array(vec![text("a")]).as_array(), Some(&vec![text("a")]));
    assert_eq!(text("a").as_array(), None);
    assert_eq!(text("a").as_text(), Some(&"a".to_string()));
    assert_eq!(WireValue::Null.as_text(), None);
}

#[test]
fn a_copy_holds_what_the_value_holds() {
    let v = object(vec![
        ("n", WireValue::Number(WireNumber::Negative(-5))),
        ("list", WireValue::Array(vec![text("a"), WireValue::Array(vec![WireValue::Null]), object(vec![])])),
        ("flag", WireValue::Bool(true)),
    ]);
    assert_eq!(v.clone(), v);
    let items = vec![text("a"), WireValue::Number(WireNumber::Real(7)), v.clone()];
    assert_eq!(clone_values(&items), items);
    let members = vec![("a".to_string(), v.clone()), ("a".to_string(), WireValue::Null)];
    assert_eq!(clone_members(&members), members);
}

#[test]
fn names_are_joined_with_commas() {
    let names = |v: Vec<&str>| v.into_iter().map(|s| s.to_string()).collect::<Vec<String>>();
    assert_eq!(join_with_commas(&names(vec![])), "");
    assert_eq!(join_with_commas(&names(vec!["a"])), "a");
    assert_eq!(join_with_commas(&names(vec!["a", "b", "c"])), "a,b,c");
    assert_eq!(join_with_commas(&names(vec!["", ""])), ",");
    assert_eq!(join_with_commas(&names(vec!["代码", "名称"])), "代码,名称");
}

#[test]
fn a_text_is_compared_by_its_characters() {
    assert!(text_is(&"serde".to_string(), "serde"));
    assert!(!text_is(&"serde".to_string(), "Serde"));
    assert!(!text_is(&"serde".to_string(), "serd"));
    assert!(text_is(&String::new(), ""));
}
