use graphqlgen::{parse_value, Token, Value};

#[test]
fn test_parse_string() {
    let tokens = vec![Token::String("hello".into())];
    let mut index = 0;
    let result = parse_value(&tokens, &mut index).unwrap();
    assert_eq!(result, Value::String("hello".into()));
    assert_eq!(index, 1);
}

#[test]
fn test_parse_int() {
    let tokens = vec![Token::Int(42)];
    let mut index = 0;
    let result = parse_value(&tokens, &mut index).unwrap();
    assert_eq!(result, Value::Int(42));
    assert_eq!(index, 1);
}

#[test]
fn test_parse_bool_true() {
    let tokens = vec![Token::Name("true".into())];
    let mut index = 0;
    let result = parse_value(&tokens, &mut index).unwrap();
    assert_eq!(result, Value::Bool(true));
    assert_eq!(index, 1);
}

#[test]
fn test_parse_bool_false() {
    let tokens = vec![Token::Name("false".into())];
    let mut index = 0;
    let result = parse_value(&tokens, &mut index).unwrap();
    assert_eq!(result, Value::Bool(false));
    assert_eq!(index, 1);
}

#[test]
fn test_parse_enum() {
    let tokens = vec![Token::Name("SOME_ENUM".into())];
    let mut index = 0;
    let result = parse_value(&tokens, &mut index).unwrap();
    assert_eq!(result, Value::Enum("SOME_ENUM".into()));
    assert_eq!(index, 1);
}

#[test]
fn test_parse_object() {
    let tokens = vec![
        Token::BraceOpen,
        Token::Name("foo".into()),
        Token::Colon,
        Token::Int(7),
        Token::Comma,
        Token::Name("bar".into()),
        Token::Colon,
        Token::String("baz".into()),
        Token::BraceClose,
    ];
    let mut index = 0;
    let result = parse_value(&tokens, &mut index).unwrap();
    assert_eq!(index, 9);
    assert_eq!(
        result,
        Value::Object(vec![
            ("foo".into(), Value::Int(7)),
            ("bar".into(), Value::String("baz".into()))
        ])
    );
}

#[test]
fn test_parse_list() {
    let tokens = vec![
        Token::BracketOpen,
        Token::String("one".into()),
        Token::Comma,
        Token::Int(2),
        Token::Comma,
        Token::Name("false".into()),
        Token::BracketClose,
    ];
    let mut index = 0;
    let result = parse_value(&tokens, &mut index).unwrap();
    assert_eq!(index, 7);
    assert_eq!(
        result,
        Value::List(vec![
            Value::String("one".into()),
            Value::Int(2),
            Value::Bool(false)
        ])
    );
}

#[test]
fn test_parse_nested() {
    let tokens = vec![
        Token::BraceOpen,
        Token::Name("nested".into()),
        Token::Colon,
        Token::BracketOpen,
        Token::BraceOpen,
        Token::Name("ok".into()),
        Token::Colon,
        Token::Name("true".into()),
        Token::BraceClose,
        Token::BracketClose,
        Token::BraceClose,
    ];
    let mut index = 0;
    let result = parse_value(&tokens, &mut index).unwrap();
    assert_eq!(index, 11);
    assert_eq!(
        result,
        Value::Object(vec![(
            "nested".into(),
            Value::List(vec![Value::Object(vec![("ok".into(), Value::Bool(true))])])
        )])
    );
}

#[test]
fn test_unexpected_token_error() {
    let tokens = vec![Token::Colon];
    let mut index = 0;
    let result = parse_value(&tokens, &mut index);
    assert!(result.is_err());
}

#[test]
fn test_object_missing_colon() {
    let tokens = vec![
        Token::BraceOpen,
        Token::Name("foo".into()),
        Token::String("oops".into()),
        Token::BraceClose,
    ];
    let mut index = 0;
    let result = parse_value(&tokens, &mut index);
    assert!(result.is_err());
}

#[test]
fn test_object_missing_brace_close() {
    let tokens = vec![
        Token::BraceOpen,
        Token::Name("x".into()),
        Token::Colon,
        Token::Int(1),
    ];
    let mut index = 0;
    let result = parse_value(&tokens, &mut index);
    assert!(result.is_err());
}

#[test]
fn test_list_missing_bracket_close() {
    let tokens = vec![
        Token::BracketOpen,
        Token::Int(1),
        Token::Comma,
        Token::Int(2),
    ];
    let mut index = 0;
    let result = parse_value(&tokens, &mut index);
    assert!(result.is_err());
}

#[test]
fn test_empty_token_stream() {
    let tokens = vec![];
    let mut index = 0;
    let result = parse_value(&tokens, &mut index);
    assert!(result.is_err());
}

#[test]
fn boolean_tokens_are_bool_values() {
    let tokens = vec![Token::Boolean(true), Token::Boolean(false)];
    let mut index = 0;
    assert_eq!(parse_value(&tokens, &mut index).unwrap(), Value::Bool(true));
    assert_eq!(parse_value(&tokens, &mut index).unwrap(), Value::Bool(false));
    assert_eq!(index, 2);
}

#[test]
fn object_keeps_duplicate_keys_in_order() {
    let tokens = vec![
        Token::BraceOpen,
        Token::Name("k".into()),
        Token::Colon,
        Token::Int(1),
        Token::Name("k".into()),
        Token::Colon,
        Token::Int(2),
        Token::BraceClose,
    ];
    let mut index = 0;
    let result = parse_value(&tokens, &mut index).unwrap();
    assert_eq!(
        result,
        Value::Object(vec![("k".into(), Value::Int(1)), ("k".into(), Value::Int(2))])
    );
}

#[test]
fn null_and_float_are_not_values() {
    let tokens = vec![Token::Null];
    let err = parse_value(&tokens, &mut 0).unwrap_err();
    assert_eq!(err.message(), "Unexpected token as value: Some(Null)");
    let tokens = vec![Token::Float("1.5".into())];
    assert!(parse_value(&tokens, &mut 0).is_err());
}

#[test]
fn comma_only_between_elements() {
    let tokens = vec![Token::BracketOpen, Token::Int(1), Token::Comma, Token::BracketClose];
    let err = parse_value(&tokens, &mut 0).unwrap_err();
    assert_eq!(err.message(), "Unexpected token as value: Some(BracketClose)");
    let tokens = vec![
        Token::BraceOpen,
        Token::Name("a".into()),
        Token::Colon,
        Token::Int(1),
        Token::Comma,
        Token::BraceClose,
    ];
    let err = parse_value(&tokens, &mut 0).unwrap_err();
    assert_eq!(err.message(), "Expected name, got Some(BraceClose)");
    let tokens = vec![Token::BracketOpen, Token::Comma, Token::Int(1), Token::BracketClose];
    assert!(parse_value(&tokens, &mut 0).is_err());
    let tokens = vec![Token::BracketOpen, Token::Int(1), Token::Int(2), Token::BracketClose];
    assert_eq!(
        parse_value(&tokens, &mut 0).unwrap(),
        Value::List(vec![Value::Int(1), Value::Int(2)])
    );
}
