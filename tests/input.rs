use graphqlgen::{parse_input, Definition, ParseError, Token};

#[test]
fn test_parse_input() {
    let tokens: Vec<Token> = vec![
        Token::Name("input".to_string()),
        Token::Name("MyInput".to_string()),
        Token::BraceOpen,
        Token::Name("field1".to_string()),
        Token::Colon,
        Token::Name("String".to_string()),
        Token::Name("field2".to_string()),
        Token::Colon,
        Token::Name("Int".to_string()),
        Token::BraceClose,
    ];

    let mut index: usize = 0;
    let result: Definition = parse_input(&tokens, &mut index, None).unwrap();

    if let Definition::Input(input) = result {
        assert_eq!(input.name, "MyInput");
    } else {
        panic!("Expected an input definition");
    }
}

#[test]
fn test_parse_input_invalid() {
    let tokens: Vec<Token> = vec![
        Token::Name("input".to_string()),
        Token::Name("MyInput".to_string()),
        Token::BraceOpen,
        Token::Name("field1".to_string()),
        Token::Colon,
        Token::Name("String".to_string()),
        Token::BraceClose,
    ];

    let mut index: usize = 0;
    let result: Result<Definition, ParseError> = parse_input(&tokens, &mut index, None);

    assert!(result.is_ok(), "Expected an error but got: {:?}", result);
}

#[test]
fn test_parse_input_empty() {
    let tokens: Vec<Token> = vec![
        Token::Name("input".to_string()),
        Token::Name("MyInput".to_string()),
        Token::BraceOpen,
        Token::BraceClose,
    ];

    let mut index: usize = 0;
    let result: Definition = parse_input(&tokens, &mut index, None).unwrap();

    if let Definition::Input(input) = result {
        assert_eq!(input.name, "MyInput");
        assert!(
            input.fields.is_empty(),
            "Expected no fields in input definition"
        );
    } else {
        panic!("Expected an input definition");
    }
}

#[test]
fn test_parse_input_with_directives() {
    let tokens: Vec<Token> = vec![
        Token::Name("input".to_string()),
        Token::Name("MyInput".to_string()),
        Token::At,
        Token::Name("directive".to_string()),
        Token::BraceOpen,
        Token::Name("field1".to_string()),
        Token::Colon,
        Token::Name("String".to_string()),
        Token::Name("field2".to_string()),
        Token::Colon,
        Token::Name("Int".to_string()),
        Token::BraceClose,
    ];

    let mut index: usize = 0;
    let result: Definition = parse_input(&tokens, &mut index, None).unwrap();

    if let Definition::Input(input) = result {
        assert_eq!(input.name, "MyInput");
        assert_eq!(input.directives.unwrap().len(), 1);
        assert_eq!(input.fields.len(), 2);
    } else {
        panic!("Expected an input definition with directives");
    }
}
