//! The JSON writer's exact output, held against an independent parser.
use lemonaid::Json;
use lemonaid::write_json;

#[test]
fn writes_scalars() {
    assert_eq!(write_json(&Json::Null), "null");
    assert_eq!(write_json(&Json::Bool(true)), "true");
    assert_eq!(write_json(&Json::Bool(false)), "false");
    assert_eq!(write_json(&Json::Num("37.7749".to_string())), "37.7749");
    assert_eq!(write_json(&Json::Num("-122.4194".to_string())), "-122.4194");
    assert_eq!(write_json(&Json::Str("hello".to_string())), "\"hello\"");
}

#[test]
fn writes_empty_containers() {
    assert_eq!(write_json(&Json::Arr(vec![])), "[]");
    assert_eq!(write_json(&Json::Obj(vec![])), "{}");
}

#[test]
fn writes_nested_containers() {
    let j = Json::Obj(vec![
        ("a".to_string(), Json::Num("1".to_string())),
        ("b".to_string(), Json::Arr(vec![Json::Bool(false), Json::Null])),
        ("c".to_string(), Json::Obj(vec![("d".to_string(), Json::Str("x".to_string()))])),
    ]);
    assert_eq!(write_json(&j), "{\"a\":1,\"b\":[false,null],\"c\":{\"d\":\"x\"}}");
}

#[test]
fn escapes_quotes_and_backslashes() {
    let j = Json::Str("say \"hi\" \\ bye".to_string());
    assert_eq!(write_json(&j), "\"say \\\"hi\\\" \\\\ bye\"");
}

#[test]
fn escapes_keys_too() {
    let j = Json::Obj(vec![("we\"ird".to_string(), Json::Null)]);
    assert_eq!(write_json(&j), "{\"we\\\"ird\":null}");
}

#[test]
fn written_text_parses_as_json() {
    let j = Json::Obj(vec![
        ("name".to_string(), Json::Str("Test \"GS\"".to_string())),
        ("latitude".to_string(), Json::Num("37.7749".to_string())),
        ("tags".to_string(), Json::Arr(vec![Json::Str("a".to_string())])),
        ("extra".to_string(), Json::Null),
    ]);
    let text = write_json(&j);
    let parsed: serde_json::Value = serde_json::from_str(&text).expect("writer must emit valid JSON");
    assert_eq!(parsed["name"], serde_json::Value::String("Test \"GS\"".to_string()));
    assert_eq!(parsed["latitude"].to_string(), "37.7749");
    assert!(parsed["extra"].is_null());
}
