//! The JSON reader and writer on concrete documents.

use deepseek_agents::json::{json_to_pretty_string, json_to_string, Json};
use deepseek_agents::json_parse::parse_json;

fn s(t: &str) -> String {
    t.to_string()
}

#[test]
fn parses_scalars() {
    assert_eq!(parse_json("null"), Some(Json::Null));
    assert_eq!(parse_json("true"), Some(Json::Bool(true)));
    assert_eq!(parse_json("false"), Some(Json::Bool(false)));
    assert_eq!(parse_json("42"), Some(Json::Num(s("42"))));
    assert_eq!(parse_json("-3.5e2"), Some(Json::Num(s("-3.5e2"))));
    assert_eq!(parse_json("0.25"), Some(Json::Num(s("0.25"))));
    assert_eq!(parse_json("\"hi\""), Some(Json::Str(s("hi"))));
}

#[test]
fn parses_with_whitespace() {
    assert_eq!(parse_json("  \t\n 7 \r\n"), Some(Json::Num(s("7"))));
    assert_eq!(
        parse_json(" { \"a\" : [ 1 , 2 ] } "),
        Some(Json::Obj(vec![(
            s("a"),
            Json::Arr(vec![Json::Num(s("1")), Json::Num(s("2"))])
        )]))
    );
}

#[test]
fn parses_string_escapes() {
    assert_eq!(parse_json("\"a\\nb\""), Some(Json::Str(s("a\nb"))));
    assert_eq!(parse_json("\"q\\\"q\""), Some(Json::Str(s("q\"q"))));
    assert_eq!(parse_json("\"\\\\\""), Some(Json::Str(s("\\"))));
    assert_eq!(parse_json("\"\\u0041\""), Some(Json::Str(s("A"))));
    // A surrogate pair stands for one character outside the basic plane.
    assert_eq!(parse_json("\"\\ud83d\\ude00\""), Some(Json::Str(s("\u{1F600}"))));
}

#[test]
fn rejects_malformed_documents() {
    assert_eq!(parse_json(""), None);
    assert_eq!(parse_json("tru"), None);
    assert_eq!(parse_json("{\"a\":}"), None);
    assert_eq!(parse_json("[1,]"), None);
    assert_eq!(parse_json("\"unterminated"), None);
    assert_eq!(parse_json("1 2"), None);
    assert_eq!(parse_json("{\"a\":1,}"), None);
    assert_eq!(parse_json("00"), None);
    assert_eq!(parse_json("\"bad \\x escape\""), None);
    // A lone low surrogate stands for no character.
    assert_eq!(parse_json("\"\\ude00\""), None);
}

#[test]
fn writes_compact_text() {
    let v = Json::Obj(vec![
        (s("a"), Json::Arr(vec![Json::Num(s("1")), Json::Null, Json::Bool(false)])),
        (s("b"), Json::Str(s("x\"y"))),
    ]);
    assert_eq!(json_to_string(&v), "{\"a\":[1,null,false],\"b\":\"x\\\"y\"}");
}

#[test]
fn writes_pretty_text() {
    let v = Json::Obj(vec![
        (s("a"), Json::Num(s("1"))),
        (s("b"), Json::Arr(vec![Json::Bool(true), Json::Null])),
        (s("c"), Json::Obj(vec![])),
    ]);
    let expected = "{\n  \"a\": 1,\n  \"b\": [\n    true,\n    null\n  ],\n  \"c\": {}\n}";
    assert_eq!(json_to_pretty_string(&v), expected);
}

#[test]
fn compact_text_round_trips() {
    let v = Json::Obj(vec![
        (s("name"), Json::Str(s("line one\nline \"two\""))),
        (s("nums"), Json::Arr(vec![Json::Num(s("0")), Json::Num(s("-1.5")), Json::Num(s("2e10"))])),
        (s("inner"), Json::Obj(vec![(s("flag"), Json::Bool(true)), (s("none"), Json::Null)])),
    ]);
    let text = json_to_string(&v);
    assert_eq!(parse_json(&text), Some(v));
}

#[test]
fn pretty_text_round_trips() {
    let v = Json::Arr(vec![
        Json::Obj(vec![(s("k"), Json::Str(s("v")))]),
        Json::Arr(vec![Json::Num(s("7"))]),
        Json::Str(s("\u{8}tab\there")),
    ]);
    let text = json_to_pretty_string(&v);
    assert_eq!(parse_json(&text), Some(v));
}

#[test]
fn control_characters_are_escaped() {
    let v = Json::Str(s("a\u{1}b"));
    let text = json_to_string(&v);
    assert_eq!(text, "\"a\\u0001b\"");
    assert_eq!(parse_json(&text), Some(v));
}
