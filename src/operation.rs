//! The text of type references and operation variables, as client code
//! generators write them.
use vstd::prelude::*;

use crate::ast::{Field, InputValue, InputValueModel, TypeRef, TypeRefModel};
use crate::chars::concat;

verus! {

/// A type reference in schema notation: `Name`, `[T]`, `T!`.
pub open spec fn type_ref_text(t: TypeRefModel) -> Seq<char>
    decreases t,
{
    match t {
        TypeRefModel::Named(n) => n,
        TypeRefModel::NonNull(inner) => type_ref_text(*inner) + "!"@,
        TypeRefModel::List(inner) => "["@ + type_ref_text(*inner) + "]"@,
    }
}

/// The parts separated by `", "`.
pub open spec fn joined(parts: Seq<Seq<char>>) -> Seq<char>
    decreases parts.len(),
{
    if parts.len() == 0 {
        Seq::empty()
    } else if parts.len() == 1 {
        parts[0]
    } else {
        joined(parts.drop_last()) + ", "@ + parts.last()
    }
}

/// `$name: Type`
pub open spec fn declaration_text(a: InputValueModel) -> Seq<char> {
    "$"@ + a.name + ": "@ + type_ref_text(a.value_type)
}

/// `name: $name`
pub open spec fn usage_text(a: InputValueModel) -> Seq<char> {
    a.name + ": $"@ + a.name
}

/// The variable declarations and the argument list of an operation on a
/// field, each in parentheses; both empty when the field takes no arguments.
pub open spec fn params_text(args: Option<Seq<InputValueModel>>) -> (Seq<char>, Seq<char>) {
    match args {
        Some(a) => if a.len() > 0 {
            (
                "("@ + joined(a.map_values(|x: InputValueModel| declaration_text(x))) + ")"@,
                "("@ + joined(a.map_values(|x: InputValueModel| usage_text(x))) + ")"@,
            )
        } else {
            (Seq::empty(), Seq::empty())
        },
        None => (Seq::empty(), Seq::empty()),
    }
}

/// Writes a type reference in schema notation.
pub fn type_ref_to_str(t: &TypeRef) -> (r: String)
    ensures
        r@ == type_ref_text(t@),
    decreases t,
{
    match t {
        TypeRef::Named(name) => name.clone(),
        TypeRef::NonNull(inner) => concat(type_ref_to_str(inner), "!"),
        TypeRef::List(inner) => {
            let s = type_ref_to_str(inner);
            concat(concat(concat(String::new(), "["), s.as_str()), "]")
        },
    }
}

proof fn lemma_joined_push(parts: Seq<Seq<char>>, x: Seq<char>)
    ensures
        joined(parts.push(x)) == if parts.len() == 0 {
            x
        } else {
            joined(parts) + ", "@ + x
        },
{
    assert(parts.push(x).drop_last() =~= parts);
}

/// Writes the variable declarations and the argument list of an operation
/// on `field`.
pub fn render_params(field: &Field) -> (r: (String, String))
    ensures
        (r.0@, r.1@) == params_text(field@.arguments),
{
    let args: &Vec<InputValue> = match &field.arguments {
        Some(a) => a,
        None => return (String::new(), String::new()),
    };
    if args.len() == 0 {
        return (String::new(), String::new());
    }
    let ghost models = args@.map_values(|a: InputValue| a@);
    let mut declarations = String::new();
    let mut usages = String::new();
    let mut i: usize = 0;
    while i < args.len()
        invariant
            i <= args@.len(),
            models == args@.map_values(|a: InputValue| a@),
            declarations@ == joined(
                models.subrange(0, i as int).map_values(|x: InputValueModel| declaration_text(x)),
            ),
            usages@ == joined(
                models.subrange(0, i as int).map_values(|x: InputValueModel| usage_text(x)),
            ),
        decreases args@.len() - i,
    {
        let a = &args[i];
        let ghost m = models[i as int];
        assert(m == a@);
        if i > 0 {
            declarations = concat(declarations, ", ");
            usages = concat(usages, ", ");
        }
        declarations = concat(declarations, "$");
        declarations = concat(declarations, a.name.as_str());
        declarations = concat(declarations, ": ");
        let type_text = type_ref_to_str(&a.value_type);
        declarations = concat(declarations, type_text.as_str());
        usages = concat(usages, a.name.as_str());
        usages = concat(usages, ": $");
        usages = concat(usages, a.name.as_str());
        proof {
            let before = models.subrange(0, i as int);
            let after = models.subrange(0, i + 1);
            assert(after =~= before.push(m));
            assert(after.map_values(|x: InputValueModel| declaration_text(x)) =~= before.map_values(
                |x: InputValueModel| declaration_text(x),
            ).push(declaration_text(m)));
            assert(after.map_values(|x: InputValueModel| usage_text(x)) =~= before.map_values(
                |x: InputValueModel| usage_text(x),
            ).push(usage_text(m)));
            lemma_joined_push(before.map_values(|x: InputValueModel| declaration_text(x)), declaration_text(m));
            lemma_joined_push(before.map_values(|x: InputValueModel| usage_text(x)), usage_text(m));
            assert(declarations@ =~= joined(after.map_values(|x: InputValueModel| declaration_text(x))));
            assert(usages@ =~= joined(after.map_values(|x: InputValueModel| usage_text(x))));
        }
        i += 1;
    }
    assert(models.subrange(0, args@.len() as int) =~= models);
    let declarations = concat(concat(concat(String::new(), "("), declarations.as_str()), ")");
    let usages = concat(concat(concat(String::new(), "("), usages.as_str()), ")");
    (declarations, usages)
}

} // verus!
