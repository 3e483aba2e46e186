use vstd::prelude::*;

verus! {

broadcast use vstd::std_specs::vec::group_vec_axioms;

/// A parsed schema: its definitions in the order in which they were written.
#[derive(Debug, Default)]
pub struct Document {
    pub definitions: Vec<Definition>,
}

#[derive(Debug)]
pub enum Definition {
    Type(TypeDef),
    Scalar(ScalarDef),
    Input(TypeDef),
    Interface(TypeDef),
    Union(UnionDef),
    Enum(EnumDef),
}

#[derive(Debug)]
pub struct UnionDef {
    pub name: String,
    pub members: Vec<TypeRef>,
    pub directives: Option<Vec<Directive>>,
    pub description: Option<String>,
}

#[derive(Debug)]
pub struct ScalarDef {
    pub name: String,
    pub directives: Option<Vec<Directive>>,
    pub description: Option<String>,
}

/// The shape shared by object types, input types and interfaces.
#[derive(Debug, Default)]
pub struct TypeDef {
    pub name: String,
    pub fields: Vec<Field>,
    pub directives: Option<Vec<Directive>>,
    pub description: Option<String>,
}

#[derive(Debug)]
pub struct Field {
    pub name: String,
    pub field_type: TypeRef,
    pub arguments: Option<Vec<InputValue>>,
    pub directives: Option<Vec<Directive>>,
    pub description: Option<String>,
}

#[derive(Debug)]
pub struct Directive {
    pub name: String,
    pub arguments: Option<Vec<InputValue>>,
}

#[derive(Debug)]
pub enum TypeRef {
    Named(String),
    NonNull(Box<TypeRef>),
    List(Box<TypeRef>),
}

/// A literal value. A floating-point literal is kept as its text.
#[derive(Debug, PartialEq)]
pub enum Value {
    String(String),
    Bool(bool),
    Int(i64),
    Float(String),
    Enum(String),
    Object(Vec<(String, Value)>),
    List(Vec<Value>),
    Null,
}

#[derive(Debug)]
pub struct InputValue {
    pub name: String,
    pub value_type: TypeRef,
    pub default_value: Option<Value>,
    pub description: Option<String>,
}

#[derive(Debug)]
pub struct EnumDef {
    pub name: String,
    pub values: Vec<EnumValue>,
    pub directives: Option<Vec<Directive>>,
    pub description: Option<String>,
}

#[derive(Debug)]
pub struct EnumValue {
    pub name: String,
    pub directives: Option<Vec<Directive>>,
    pub description: Option<String>,
}

// ---- mathematical models ----

pub enum TypeRefModel {
    Named(Seq<char>),
    NonNull(Box<TypeRefModel>),
    List(Box<TypeRefModel>),
}

pub enum ValueModel {
    Str(Seq<char>),
    Bool(bool),
    Int(i64),
    Float(Seq<char>),
    Enum(Seq<char>),
    Object(Seq<(Seq<char>, ValueModel)>),
    List(Seq<ValueModel>),
    Null,
}

pub struct InputValueModel {
    pub name: Seq<char>,
    pub value_type: TypeRefModel,
    pub default_value: Option<ValueModel>,
    pub description: Option<Seq<char>>,
}

pub struct DirectiveModel {
    pub name: Seq<char>,
    pub arguments: Option<Seq<InputValueModel>>,
}

pub struct FieldModel {
    pub name: Seq<char>,
    pub field_type: TypeRefModel,
    pub arguments: Option<Seq<InputValueModel>>,
    pub directives: Option<Seq<DirectiveModel>>,
    pub description: Option<Seq<char>>,
}

pub struct TypeDefModel {
    pub name: Seq<char>,
    pub fields: Seq<FieldModel>,
    pub directives: Option<Seq<DirectiveModel>>,
    pub description: Option<Seq<char>>,
}

pub struct UnionDefModel {
    pub name: Seq<char>,
    pub members: Seq<TypeRefModel>,
    pub directives: Option<Seq<DirectiveModel>>,
    pub description: Option<Seq<char>>,
}

pub struct ScalarDefModel {
    pub name: Seq<char>,
    pub directives: Option<Seq<DirectiveModel>>,
    pub description: Option<Seq<char>>,
}

pub struct EnumValueModel {
    pub name: Seq<char>,
    pub directives: Option<Seq<DirectiveModel>>,
    pub description: Option<Seq<char>>,
}

pub struct EnumDefModel {
    pub name: Seq<char>,
    pub values: Seq<EnumValueModel>,
    pub directives: Option<Seq<DirectiveModel>>,
    pub description: Option<Seq<char>>,
}

pub enum DefinitionModel {
    Type(TypeDefModel),
    Scalar(ScalarDefModel),
    Input(TypeDefModel),
    Interface(TypeDefModel),
    Union(UnionDefModel),
    Enum(EnumDefModel),
}

pub open spec fn type_ref_model(t: TypeRef) -> TypeRefModel
    decreases t,
{
    match t {
        TypeRef::Named(n) => TypeRefModel::Named(n@),
        TypeRef::NonNull(inner) => TypeRefModel::NonNull(Box::new(type_ref_model(*inner))),
        TypeRef::List(inner) => TypeRefModel::List(Box::new(type_ref_model(*inner))),
    }
}

impl TypeRef {
    /// A copy with the same model.
    pub fn deep_copy(&self) -> (r: TypeRef)
        ensures
            r@ == self@,
        decreases self,
    {
        match self {
            TypeRef::Named(n) => TypeRef::Named(n.clone()),
            TypeRef::NonNull(inner) => TypeRef::NonNull(Box::new(inner.deep_copy())),
            TypeRef::List(inner) => TypeRef::List(Box::new(inner.deep_copy())),
        }
    }
}

impl Clone for TypeRef {
    fn clone(&self) -> Self {
        self.deep_copy()
    }
}

impl View for TypeRef {
    type V = TypeRefModel;

    open spec fn view(&self) -> TypeRefModel {
        type_ref_model(*self)
    }
}

pub open spec fn value_model(v: Value) -> ValueModel
    decreases v, 0nat,
{
    match v {
        Value::String(s) => ValueModel::Str(s@),
        Value::Bool(b) => ValueModel::Bool(b),
        Value::Int(n) => ValueModel::Int(n),
        Value::Float(s) => ValueModel::Float(s@),
        Value::Enum(s) => ValueModel::Enum(s@),
        Value::Object(es) => ValueModel::Object(entries_model(es@)),
        Value::List(vs) => ValueModel::List(values_model(vs@)),
        Value::Null => ValueModel::Null,
    }
}

pub open spec fn values_model(vs: Seq<Value>) -> Seq<ValueModel>
    decreases vs, vs.len(),
{
    if vs.len() == 0 {
        Seq::empty()
    } else {
        values_model(vs.drop_last()).push(value_model(vs.last()))
    }
}

pub open spec fn entries_model(es: Seq<(String, Value)>) -> Seq<(Seq<char>, ValueModel)>
    decreases es, es.len(),
{
    if es.len() == 0 {
        Seq::empty()
    } else {
        entries_model(es.drop_last()).push((es.last().0@, value_model(es.last().1)))
    }
}

impl View for Value {
    type V = ValueModel;

    open spec fn view(&self) -> ValueModel {
        value_model(*self)
    }
}

pub open spec fn text_model(o: Option<String>) -> Option<Seq<char>> {
    match o {
        Some(s) => Some(s@),
        None => None,
    }
}

pub open spec fn value_option_model(o: Option<Value>) -> Option<ValueModel> {
    match o {
        Some(v) => Some(v@),
        None => None,
    }
}

impl View for InputValue {
    type V = InputValueModel;

    open spec fn view(&self) -> InputValueModel {
        InputValueModel {
            name: self.name@,
            value_type: self.value_type@,
            default_value: value_option_model(self.default_value),
            description: text_model(self.description),
        }
    }
}

pub open spec fn input_values_model(o: Option<Vec<InputValue>>) -> Option<Seq<InputValueModel>> {
    match o {
        Some(v) => Some(v@.map_values(|a: InputValue| a@)),
        None => None,
    }
}

impl View for Directive {
    type V = DirectiveModel;

    open spec fn view(&self) -> DirectiveModel {
        DirectiveModel { name: self.name@, arguments: input_values_model(self.arguments) }
    }
}

pub open spec fn directives_model(o: Option<Vec<Directive>>) -> Option<Seq<DirectiveModel>> {
    match o {
        Some(v) => Some(v@.map_values(|d: Directive| d@)),
        None => None,
    }
}

impl View for Field {
    type V = FieldModel;

    open spec fn view(&self) -> FieldModel {
        FieldModel {
            name: self.name@,
            field_type: self.field_type@,
            arguments: input_values_model(self.arguments),
            directives: directives_model(self.directives),
            description: text_model(self.description),
        }
    }
}

impl View for TypeDef {
    type V = TypeDefModel;

    open spec fn view(&self) -> TypeDefModel {
        TypeDefModel {
            name: self.name@,
            fields: self.fields@.map_values(|f: Field| f@),
            directives: directives_model(self.directives),
            description: text_model(self.description),
        }
    }
}

impl View for UnionDef {
    type V = UnionDefModel;

    open spec fn view(&self) -> UnionDefModel {
        UnionDefModel {
            name: self.name@,
            members: self.members@.map_values(|t: TypeRef| t@),
            directives: directives_model(self.directives),
            description: text_model(self.description),
        }
    }
}

impl View for ScalarDef {
    type V = ScalarDefModel;

    open spec fn view(&self) -> ScalarDefModel {
        ScalarDefModel {
            name: self.name@,
            directives: directives_model(self.directives),
            description: text_model(self.description),
        }
    }
}

impl View for EnumValue {
    type V = EnumValueModel;

    open spec fn view(&self) -> EnumValueModel {
        EnumValueModel {
            name: self.name@,
            directives: directives_model(self.directives),
            description: text_model(self.description),
        }
    }
}

impl View for EnumDef {
    type V = EnumDefModel;

    open spec fn view(&self) -> EnumDefModel {
        EnumDefModel {
            name: self.name@,
            values: self.values@.map_values(|v: EnumValue| v@),
            directives: directives_model(self.directives),
            description: text_model(self.description),
        }
    }
}

impl View for Definition {
    type V = DefinitionModel;

    open spec fn view(&self) -> DefinitionModel {
        match self {
            Definition::Type(t) => DefinitionModel::Type(t@),
            Definition::Scalar(s) => DefinitionModel::Scalar(s@),
            Definition::Input(t) => DefinitionModel::Input(t@),
            Definition::Interface(t) => DefinitionModel::Interface(t@),
            Definition::Union(u) => DefinitionModel::Union(u@),
            Definition::Enum(e) => DefinitionModel::Enum(e@),
        }
    }
}

impl View for Document {
    type V = Seq<DefinitionModel>;

    open spec fn view(&self) -> Seq<DefinitionModel> {
        self.definitions@.map_values(|d: Definition| d@)
    }
}

} // verus!
