use graphqlgen::{parse_schema, render_params, type_ref_to_str, Definition, Field, TypeRef};

fn first_field(src: &str) -> Field {
    let doc = parse_schema(src).unwrap();
    let Definition::Type(t) = doc.definitions.into_iter().next().unwrap() else {
        panic!("Expected a type");
    };
    t.fields.into_iter().next().unwrap()
}

#[test]
fn type_refs_in_schema_notation() {
    let t = TypeRef::NonNull(Box::new(TypeRef::List(Box::new(TypeRef::NonNull(Box::new(
        TypeRef::Named("String".into()),
    ))))));
    assert_eq!(type_ref_to_str(&t), "[String!]!");
    assert_eq!(type_ref_to_str(&TypeRef::Named("ID".into())), "ID");
}

#[test]
fn params_of_a_field() {
    let f = first_field("type Query { tweets(limit: Int, skip: Int!, ids: [ID!]): [Tweet] }");
    let (declarations, usages) = render_params(&f);
    assert_eq!(declarations, "($limit: Int, $skip: Int!, $ids: [ID!])");
    assert_eq!(usages, "(limit: $limit, skip: $skip, ids: $ids)");
}

#[test]
fn no_params_without_arguments() {
    let f = first_field("type Query { hello: String }");
    assert_eq!(render_params(&f), (String::new(), String::new()));
    let f = first_field("type Query { hello(): String }");
    assert_eq!(render_params(&f), (String::new(), String::new()));
}
