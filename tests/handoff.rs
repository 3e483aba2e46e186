use graphqlgen::{handoff_text, plugin_program, schema_source, select_plugin, Config, SchemaSource};

#[test]
fn schema_sources_by_path() {
    assert_eq!(schema_source("http://example.com/schema"), SchemaSource::Remote);
    assert_eq!(schema_source("https://example.com/s.graphql"), SchemaSource::Remote);
    assert_eq!(schema_source("schema.graphql"), SchemaSource::SchemaFile);
    assert_eq!(schema_source("schema.json"), SchemaSource::JsonFile);
    assert_eq!(schema_source("schema.txt"), SchemaSource::Unsupported);
    assert_eq!(schema_source(""), SchemaSource::Unsupported);
    assert_eq!(schema_source(".graphql"), SchemaSource::SchemaFile);
}

#[test]
fn plugin_from_command_line_wins() {
    assert_eq!(select_plugin(Some("apollo".into()), "other".into()), Some("apollo".to_string()));
    assert_eq!(select_plugin(None, "other".into()), Some("other".to_string()));
    assert_eq!(select_plugin(None, String::new()), None);
    assert_eq!(select_plugin(Some(String::new()), "other".into()), None);
}

#[test]
fn plugin_program_name() {
    assert_eq!(plugin_program("apollo"), "graphqlgen_apollo");
}

#[test]
fn handoff_is_two_lines() {
    assert_eq!(handoff_text("/out", "{\"definitions\":[]}"), "/out\n{\"definitions\":[]}\n");
}

#[test]
fn config_needs_every_setting() {
    let full = Config { schema: "s.graphql".into(), output: "out".into(), plugin: "apollo".into() };
    assert!(full.is_complete());
    let partial = Config { schema: "s.graphql".into(), output: String::new(), plugin: "apollo".into() };
    assert!(!partial.is_complete());
}
