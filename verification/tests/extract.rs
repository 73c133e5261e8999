use darksky::{
    decode_array, into_number, into_string, into_strings, into_u64, parse, take_optional,
    take_required, DecodeError, Number, Object, ValueTree,
};

fn object(text: &str) -> Object {
    match parse(text).unwrap() {
        ValueTree::Object(o) => o,
        other => panic!("{:?}", other),
    }
}

fn names(o: &Object) -> Vec<&str> {
    o.members.iter().map(|m| m.0.as_str()).collect()
}

#[test]
fn parse_hands_over_every_kind_of_node() {
    let tree = parse(r#"{"b":[1,-2,2.5,"x",true,null],"a":{"c":false}}"#).unwrap();
    let expected = ValueTree::Object(Object {
        members: vec![
            (
                "a".to_string(),
                ValueTree::Object(Object {
                    members: vec![("c".to_string(), ValueTree::Bool(false))],
                }),
            ),
            (
                "b".to_string(),
                ValueTree::Array(vec![
                    ValueTree::Number(Number::PosInt(1)),
                    ValueTree::Number(Number::NegInt(-2)),
                    ValueTree::Number(Number::Float(2.5f64.to_bits())),
                    ValueTree::String("x".to_string()),
                    ValueTree::Bool(true),
                    ValueTree::Null,
                ]),
            ),
        ],
    });
    assert_eq!(tree, expected);
}

#[test]
fn parse_reads_scalars() {
    assert_eq!(parse("null").unwrap(), ValueTree::Null);
    assert_eq!(parse("17").unwrap(), ValueTree::Number(Number::PosInt(17)));
    assert_eq!(parse("-17").unwrap(), ValueTree::Number(Number::NegInt(-17)));
    assert_eq!(parse("0.5").unwrap(), ValueTree::Number(Number::Float(0.5f64.to_bits())));
    assert_eq!(parse(r#""text""#).unwrap(), ValueTree::String("text".to_string()));
    assert_eq!(parse("[]").unwrap(), ValueTree::Array(Vec::new()));
}

#[test]
fn text_that_is_no_document_is_malformed() {
    for text in ["", "{", r#"{"a":}"#, "[1,2", "nul", r#"{"a":1} x"#] {
        match parse(text) {
            Err(DecodeError::Malformed(_)) => {},
            other => panic!("{:?}", other),
        }
    }
}

#[test]
fn take_required_removes_the_field() {
    let mut node = object(r#"{"a":1,"b":"two","c":3}"#);
    assert_eq!(take_required(&mut node, "b", into_string).unwrap(), "two");
    assert_eq!(names(&node), vec!["a", "c"]);
    assert_eq!(take_required(&mut node, "c", into_u64).unwrap(), 3);
    assert_eq!(names(&node), vec!["a"]);
    match take_required(&mut node, "c", into_u64) {
        Err(DecodeError::Missing(name)) => assert_eq!(name, "c"),
        other => panic!("{:?}", other),
    }
    assert_eq!(names(&node), vec!["a"]);
}

#[test]
fn take_required_names_the_field_of_a_mismatch() {
    let mut node = object(r#"{"a":"one","b":2}"#);
    match take_required(&mut node, "a", into_u64) {
        Err(DecodeError::TypeMismatch(name, expected, actual)) => {
            assert_eq!(name, "a");
            assert_eq!(expected, "integer");
            assert_eq!(actual, ValueTree::String("one".to_string()));
        },
        other => panic!("{:?}", other),
    }
    assert_eq!(names(&node), vec!["b"]);
}

#[test]
fn take_optional_tells_absent_from_unfit() {
    let mut node = object(r#"{"a":1.5,"b":true}"#);
    assert_eq!(take_optional(&mut node, "z", into_number).unwrap(), None);
    assert_eq!(names(&node), vec!["a", "b"]);
    assert_eq!(
        take_optional(&mut node, "a", into_number).unwrap(),
        Some(Number::Float(1.5f64.to_bits()))
    );
    assert_eq!(names(&node), vec!["b"]);
    match take_optional(&mut node, "b", into_number) {
        Err(DecodeError::TypeMismatch(name, expected, actual)) => {
            assert_eq!(name, "b");
            assert_eq!(expected, "number");
            assert_eq!(actual, ValueTree::Bool(true));
        },
        other => panic!("{:?}", other),
    }
    assert!(node.members.is_empty());
}

#[test]
fn failure_from_inside_keeps_its_name() {
    let mut node = object(r#"{"outer":{"inner":"x"}}"#);
    let inner = |v: ValueTree| match v {
        ValueTree::Object(mut o) => take_required(&mut o, "inner", into_u64),
        other => Err(DecodeError::TypeMismatch(String::new(), "object".to_string(), other)),
    };
    match take_required(&mut node, "outer", inner) {
        Err(DecodeError::TypeMismatch(name, expected, actual)) => {
            assert_eq!(name, "inner");
            assert_eq!(expected, "integer");
            assert_eq!(actual, ValueTree::String("x".to_string()));
        },
        other => panic!("{:?}", other),
    }
    let mut node = object(r#"{"outer":{}}"#);
    match take_optional(&mut node, "outer", inner) {
        Err(DecodeError::Missing(name)) => assert_eq!(name, "inner"),
        other => panic!("{:?}", other),
    }
}

#[test]
fn object_take_removes_the_first_of_a_name() {
    let mut node = Object {
        members: vec![
            ("k".to_string(), ValueTree::Bool(true)),
            ("other".to_string(), ValueTree::Null),
            ("k".to_string(), ValueTree::Bool(false)),
        ],
    };
    assert_eq!(node.take("k"), Some(ValueTree::Bool(true)));
    assert_eq!(names(&node), vec!["other", "k"]);
    assert_eq!(node.take("k"), Some(ValueTree::Bool(false)));
    assert_eq!(node.take("k"), None);
    assert_eq!(node.take("K"), None);
    assert_eq!(names(&node), vec!["other"]);
}

#[test]
fn coercions_hold_on_to_the_value_they_refuse() {
    assert_eq!(into_u64(ValueTree::Number(Number::PosInt(7))).unwrap(), 7);
    assert_eq!(into_number(ValueTree::Number(Number::NegInt(-7))).unwrap(), Number::NegInt(-7));
    assert_eq!(into_string(ValueTree::String("s".to_string())).unwrap(), "s");
    match into_u64(ValueTree::Number(Number::Float(7.5f64.to_bits()))) {
        Err(DecodeError::TypeMismatch(name, expected, actual)) => {
            assert_eq!(name, "");
            assert_eq!(expected, "integer");
            assert_eq!(actual, ValueTree::Number(Number::Float(7.5f64.to_bits())));
        },
        other => panic!("{:?}", other),
    }
    match into_number(ValueTree::String("7".to_string())) {
        Err(DecodeError::TypeMismatch(name, expected, actual)) => {
            assert_eq!(name, "");
            assert_eq!(expected, "number");
            assert_eq!(actual, ValueTree::String("7".to_string()));
        },
        other => panic!("{:?}", other),
    }
    match into_string(ValueTree::Null) {
        Err(DecodeError::TypeMismatch(name, expected, actual)) => {
            assert_eq!(name, "");
            assert_eq!(expected, "string");
            assert_eq!(actual, ValueTree::Null);
        },
        other => panic!("{:?}", other),
    }
}

#[test]
fn decode_array_keeps_order() {
    let out = decode_array(parse("[3,1,2]").unwrap(), into_u64).unwrap();
    assert_eq!(out, vec![3, 1, 2]);
    let none = decode_array(parse("[]").unwrap(), into_u64).unwrap();
    assert_eq!(none, Vec::<u64>::new());
    assert_eq!(
        into_strings(parse(r#"["b","a"]"#).unwrap()).unwrap(),
        vec!["b".to_string(), "a".to_string()]
    );
}

#[test]
fn decode_array_gives_the_first_failure_unchanged() {
    match decode_array(parse(r#"[1,"two",3,"four"]"#).unwrap(), into_u64) {
        Err(DecodeError::TypeMismatch(name, expected, actual)) => {
            assert_eq!(name, "");
            assert_eq!(expected, "integer");
            assert_eq!(actual, ValueTree::String("two".to_string()));
        },
        other => panic!("{:?}", other),
    }
    match decode_array(parse(r#"{"a":1}"#).unwrap(), into_u64) {
        Err(DecodeError::TypeMismatch(name, expected, _)) => {
            assert_eq!(name, "");
            assert_eq!(expected, "array");
        },
        other => panic!("{:?}", other),
    }
}

#[test]
fn in_field_names_only_what_has_no_name() {
    let bare = DecodeError::TypeMismatch(String::new(), "number".to_string(), ValueTree::Null);
    match bare.in_field("offset") {
        DecodeError::TypeMismatch(name, expected, actual) => {
            assert_eq!(name, "offset");
            assert_eq!(expected, "number");
            assert_eq!(actual, ValueTree::Null);
        },
        other => panic!("{:?}", other),
    }
    let named =
        DecodeError::TypeMismatch("time".to_string(), "integer".to_string(), ValueTree::Null);
    match named.in_field("currently") {
        DecodeError::TypeMismatch(name, _, _) => assert_eq!(name, "time"),
        other => panic!("{:?}", other),
    }
    match DecodeError::Missing("time".to_string()).in_field("currently") {
        DecodeError::Missing(name) => assert_eq!(name, "time"),
        other => panic!("{:?}", other),
    }
}

#[test]
fn descriptions_say_what_went_wrong() {
    assert_eq!(DecodeError::Missing("latitude".to_string()).description(), "missing field latitude");
    assert_eq!(
        DecodeError::TypeMismatch("time".to_string(), "integer".to_string(), ValueTree::Null)
            .description(),
        "expected integer in field time"
    );
    assert_eq!(
        DecodeError::TypeMismatch(String::new(), "object".to_string(), ValueTree::Null)
            .description(),
        "expected object"
    );
    let malformed = parse("{").unwrap_err();
    assert!(!malformed.description().is_empty());
    let transport = DecodeError::from(hyper::Error::Method);
    match &transport {
        DecodeError::Transport(hyper::Error::Method) => {},
        other => panic!("{:?}", other),
    }
    assert_eq!(transport.description(), hyper::Error::Method.to_string());
}

#[test]
fn parser_errors_become_malformed() {
    let syntax = serde_json::from_str::<serde_json::Value>("[").unwrap_err();
    let text = syntax.to_string();
    match DecodeError::from(syntax) {
        DecodeError::Malformed(e) => assert_eq!(e.to_string(), text),
        other => panic!("{:?}", other),
    }
}
