pub mod ast;
pub mod chars;
pub mod definitions;
pub mod directives;
pub mod document;
pub mod error;
pub mod expect;
pub mod fields;
pub mod grammar;
pub mod handoff;
pub mod laws;
pub mod lexer;
pub mod message;
pub mod number;
pub mod operation;
pub mod shift;
pub mod token;
pub mod type_ref;
pub mod value;

pub use ast::{
    Definition, Directive, Document, EnumDef, EnumValue, Field, InputValue, ScalarDef, TypeDef,
    TypeRef, UnionDef, Value,
};
pub use definitions::{parse_enum, parse_input, parse_interface, parse_scalar, parse_type, parse_union};
pub use directives::parse_directives;
pub use document::{parse_document, parse_schema};
pub use error::{Expected, ParseError};
pub use expect::{expect_name, expect_token, take_description};
pub use fields::{parse_field_arguments, parse_fields};
pub use lexer::{generate_tokens, Lexer};
pub use token::Token;
pub use type_ref::parse_type_ref;
pub use value::parse_value;
pub use handoff::{handoff_text, plugin_program, schema_source, select_plugin, Config, SchemaSource};
pub use operation::{render_params, type_ref_to_str};
