use channel_builder::json_xml::{build_xml, JsonValue};

fn s(x: &str) -> String {
    x.to_string()
}

#[test]
fn xml_scalars() {
    assert_eq!("", build_xml(&JsonValue::Null));
    assert_eq!("true", build_xml(&JsonValue::Bool(true)));
    assert_eq!("false", build_xml(&JsonValue::Bool(false)));
    assert_eq!("1.5e3", build_xml(&JsonValue::Number(s("1.5e3"))));
    assert_eq!("hi", build_xml(&JsonValue::Str(s("hi"))));
}

#[test]
fn xml_nested() {
    let v = JsonValue::Object(vec![
        (
            s("entries"),
            JsonValue::Array(vec![JsonValue::Number(s("1")), JsonValue::Str(s("two"))]),
        ),
        (s("name"), JsonValue::Str(s("A"))),
    ]);
    assert_eq!(
        "<object><entries><array_elem>1</array_elem><array_elem>two</array_elem></entries><name>A</name></object>",
        build_xml(&v)
    );
    assert_eq!("<object></object>", build_xml(&JsonValue::Object(vec![])));
    assert_eq!("", build_xml(&JsonValue::Array(vec![])));
}
