use ruv_swarm::payload::{Params, Task};

fn entries(p: &Params) -> Vec<(String, String, Option<String>)> {
    match p {
        Params::Object(es) => es
            .iter()
            .map(|e| (e.key.clone(), e.value.json.clone(), e.value.text.clone()))
            .collect(),
        Params::Other(_) => panic!("not an object"),
    }
}

#[test]
fn parse_reads_an_object_into_its_members() {
    let p = Params::parse("{\"b\": 2, \"a\": \"x y\", \"c\": [1, {\"d\": null}]}").unwrap();
    assert_eq!(
        entries(&p),
        vec![
            ("a".to_string(), "\"x y\"".to_string(), Some("x y".to_string())),
            ("b".to_string(), "2".to_string(), None),
            ("c".to_string(), "[1,{\"d\":null}]".to_string(), None),
        ]
    );
    assert_eq!(p.count(), 3);
}

#[test]
fn parse_reads_other_values_whole() {
    match Params::parse(" 42 ").unwrap() {
        Params::Other(v) => {
            assert_eq!(v.json, "42");
            assert_eq!(v.text, None);
        }
        Params::Object(_) => panic!("42 is no object"),
    }
    match Params::parse("\"a\\nb\"").unwrap() {
        Params::Other(v) => {
            assert_eq!(v.json, "\"a\\nb\"");
            assert_eq!(v.text, Some("a\nb".to_string()));
        }
        Params::Object(_) => panic!("a string is no object"),
    }
    assert_eq!(Params::parse("null").unwrap().count(), 0);
}

#[test]
fn parse_refuses_what_is_not_json() {
    assert!(Params::parse("").is_none());
    assert!(Params::parse("{").is_none());
    assert!(Params::parse("{\"a\": }").is_none());
    assert!(Params::parse("not json").is_none());
    assert!(Params::parse("{} trailing").is_none());
}

#[test]
fn parse_keeps_the_last_of_repeated_keys() {
    let p = Params::parse("{\"a\": 1, \"a\": 2}").unwrap();
    assert_eq!(entries(&p), vec![("a".to_string(), "2".to_string(), None)]);
}

#[test]
fn get_finds_values_by_key() {
    let p = Params::parse("{\"query\": \"SELECT 1\", \"timeout\": 30}").unwrap();
    assert_eq!(p.get("timeout").unwrap().json, "30");
    assert_eq!(p.get("query").unwrap().json, "\"SELECT 1\"");
    assert!(p.get("missing").is_none());
    assert_eq!(p.get_text("query").unwrap(), "SELECT 1");
    assert!(p.get_text("timeout").is_none());
    assert!(p.get_text("missing").is_none());
    let scalar = Params::parse("7").unwrap();
    assert!(scalar.get("query").is_none());
}

#[test]
fn same_as_compares_values() {
    let p = Params::parse("{\"a\": 1, \"b\": 1, \"c\": 1.0, \"d\": \"1\"}").unwrap();
    let a = p.get("a").unwrap();
    assert!(a.same_as(p.get("b").unwrap()));
    assert!(!a.same_as(p.get("c").unwrap()));
    assert!(!a.same_as(p.get("d").unwrap()));
    assert!(a.same_as(&a.duplicate()));
}

#[test]
fn from_stored_falls_back_to_the_empty_object() {
    assert_eq!(entries(&Params::from_stored("oops")), vec![]);
    assert_eq!(entries(&Params::from_stored("{}")), vec![]);
    assert_eq!(
        entries(&Params::from_stored("{\"k\":true}")),
        vec![("k".to_string(), "true".to_string(), None)]
    );
    assert_eq!(entries(&Params::empty()), vec![]);
}

#[test]
fn from_payload_reads_tool_and_params() {
    let t = Task::from_payload(
        "{\"tool\": \"bq\", \"params\": {\"query\": \"SELECT * FROM t\", \"dataset\": \"d\"}}",
    );
    assert_eq!(t.tool, "bq");
    assert_eq!(t.params_json, "{\"dataset\":\"d\",\"query\":\"SELECT * FROM t\"}");
    assert_eq!(
        entries(&t.params),
        vec![
            ("dataset".to_string(), "\"d\"".to_string(), Some("d".to_string())),
            ("query".to_string(), "\"SELECT * FROM t\"".to_string(), Some("SELECT * FROM t".to_string())),
        ]
    );
}

#[test]
fn from_payload_absorbs_malformed_payloads() {
    for bad in ["", "Solve this complex equation", "{\"tool\": ", "[1, 2"] {
        let t = Task::from_payload(bad);
        assert_eq!(t.tool, "unknown");
        assert_eq!(t.params_json, "{}");
        assert_eq!(entries(&t.params), vec![]);
    }
    let u = Task::unknown();
    assert_eq!(u.tool, "unknown");
    assert_eq!(u.params_json, "{}");
}

#[test]
fn from_payload_defaults_missing_parts() {
    let no_tool = Task::from_payload("{\"params\": {\"a\": 1}}");
    assert_eq!(no_tool.tool, "unknown");
    assert_eq!(no_tool.params_json, "{\"a\":1}");

    let odd_tool = Task::from_payload("{\"tool\": 5, \"params\": {}}");
    assert_eq!(odd_tool.tool, "unknown");

    let no_params = Task::from_payload("{\"tool\": \"analyze\"}");
    assert_eq!(no_params.tool, "analyze");
    assert_eq!(no_params.params_json, "null");
    match &no_params.params {
        Params::Other(v) => assert_eq!(v.json, "null"),
        Params::Object(_) => panic!("null is no object"),
    }

    let not_an_object = Task::from_payload("[1, 2]");
    assert_eq!(not_an_object.tool, "unknown");
    assert_eq!(not_an_object.params_json, "null");

    let text_params = Task::from_payload("{\"tool\": \"t\", \"params\": \"abc\"}");
    assert_eq!(text_params.params_json, "\"abc\"");
    match &text_params.params {
        Params::Other(v) => assert_eq!(v.text, Some("abc".to_string())),
        Params::Object(_) => panic!("a string is no object"),
    }
}

#[test]
fn from_document_matches_from_payload() {
    let text = "{\"tool\": \"test\", \"params\": {\"index\": 3, \"problem\": \"Test problem 3\"}}";
    let doc = Params::parse(text).unwrap();
    let a = Task::from_document(&doc);
    let b = Task::from_payload(text);
    assert_eq!(a.tool, b.tool);
    assert_eq!(a.params_json, b.params_json);
    assert_eq!(entries(&a.params), entries(&b.params));
    assert_eq!(a.params_json, "{\"index\":3,\"problem\":\"Test problem 3\"}");
}
