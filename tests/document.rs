use graphqlgen::{parse_document, parse_schema, Definition, Token, TypeRef, Value};

#[test]
fn parse_simple_type() {
    let input = "type User {\n  id: ID!\n  name: String\n  friends: [User!]!\n}\n";
    let parsed = parse_schema(input).expect("Failed to parse");
    assert_eq!(parsed.definitions.len(), 1);
    let Definition::Type(t) = &parsed.definitions[0] else {
        panic!("Expected a type");
    };
    assert_eq!(t.name, "User");
    assert_eq!(t.fields.len(), 3);
    assert_eq!(t.fields[0].name, "id");
}

#[test]
fn parse_field_directives() {
    let input = "type User @auth(requires: USER) {\n  id: ID! @external\n  name: String! @auth(requires: USER)\n}";
    let parsed = parse_schema(input).expect("Failed to parse");
    assert_eq!(parsed.definitions.len(), 1);
    let Definition::Type(t) = &parsed.definitions[0] else {
        panic!("Expected a type");
    };
    assert_eq!(t.fields.len(), 2);
    assert_eq!(t.fields[0].directives.as_ref().unwrap().len(), 1);
    assert_eq!(t.fields[0].directives.as_ref().unwrap()[0].name, "external");
    let directives = t.directives.as_ref().unwrap();
    let args = directives[0].arguments.as_ref().unwrap();
    assert_eq!(args[0].default_value, Some(Value::Enum("USER".into())));
}

#[test]
fn parse_object_and_list_directive_arguments() {
    let input = "type User @auth(requires: USER, permissions: [ { create: true }, { read: false } ]) { id: ID! }";
    let parsed = parse_schema(input).expect("Failed to parse");
    let Definition::Type(t) = &parsed.definitions[0] else {
        panic!("Expected a type");
    };
    let args = t.directives.as_ref().unwrap()[0].arguments.as_ref().unwrap();
    assert_eq!(args.len(), 2);
    assert_eq!(
        args[1].default_value,
        Some(Value::List(vec![
            Value::Object(vec![("create".into(), Value::Bool(true))]),
            Value::Object(vec![("read".into(), Value::Bool(false))]),
        ]))
    );
}

#[test]
fn parse_scalars() {
    let parsed = parse_schema("scalar DateTime\nscalar Decimal @precision(scale: 2)\n").expect("Failed to parse");
    assert_eq!(parsed.definitions.len(), 2);
    let Definition::Scalar(s) = &parsed.definitions[1] else {
        panic!("Expected a scalar");
    };
    assert_eq!(s.name, "Decimal");
    let directives = s.directives.as_ref().expect("Expected directives");
    assert_eq!(directives[0].name, "precision");
    assert_eq!(directives[0].arguments.as_ref().unwrap()[0].default_value, Some(Value::Int(2)));
}

#[test]
fn definitions_keep_their_order() {
    let parsed = parse_schema("enum E { A B }\ninput I { x: Int }\ninterface N { id: ID }\nscalar S\ntype T { n: N }\nunion U = A | B").unwrap();
    let kinds: Vec<&str> = parsed
        .definitions
        .iter()
        .map(|d| match d {
            Definition::Enum(_) => "enum",
            Definition::Input(_) => "input",
            Definition::Interface(_) => "interface",
            Definition::Union(_) => "union",
            Definition::Scalar(_) => "scalar",
            Definition::Type(_) => "type",
        })
        .collect();
    assert_eq!(kinds, vec!["enum", "input", "interface", "scalar", "type", "union"]);
}

#[test]
fn union_members_take_every_following_name() {
    let parsed = parse_schema("union U = A | B\nscalar S").unwrap();
    assert_eq!(parsed.definitions.len(), 1);
    let Definition::Union(u) = &parsed.definitions[0] else { panic!("Expected a union") };
    assert_eq!(u.members.len(), 4);
}

#[test]
fn description_goes_to_next_definition() {
    let tokens = vec![
        Token::Description("doc".into()),
        Token::Name("scalar".into()),
        Token::Name("A".into()),
        Token::Description("lost".into()),
        Token::Name("extend".into()),
        Token::Name("scalar".into()),
        Token::Name("B".into()),
    ];
    let parsed = parse_document(tokens).unwrap();
    assert_eq!(parsed.definitions.len(), 2);
    let Definition::Scalar(a) = &parsed.definitions[0] else { panic!("Expected a scalar") };
    let Definition::Scalar(b) = &parsed.definitions[1] else { panic!("Expected a scalar") };
    assert_eq!(a.description, Some("doc".into()));
    assert_eq!(b.description, None);
}

#[test]
fn field_arguments_from_source() {
    let parsed = parse_schema("type Query { user(id: ID!, name: String): User }").unwrap();
    let Definition::Type(t) = &parsed.definitions[0] else { panic!("Expected a type") };
    let args = t.fields[0].arguments.as_ref().unwrap();
    assert_eq!(args.len(), 2);
    assert_eq!(args[1].name, "name");
    assert!(matches!(&args[0].value_type, TypeRef::NonNull(_)));
    assert!(args[0].default_value.is_none());
}

#[test]
fn errors_abort_the_whole_parse() {
    assert!(parse_schema("type A { a: Int } type B { b: }").is_err());
    assert!(parse_schema("type A { a: Int } \"open").is_err());
}
