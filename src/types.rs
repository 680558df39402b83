//! The decoded form of a type descriptor, and the target-language names it maps to.
use vstd::prelude::*;

verus! {

/// The eight primitive categories of the descriptor grammar.
#[derive(Clone, Copy, Debug, PartialEq, Eq, Structural)]
pub enum Primitive {
    Byte,
    Char,
    Double,
    Float,
    Int,
    Long,
    Short,
    Boolean,
}

/// A decoded type.
#[derive(Debug, PartialEq, Eq)]
pub enum TypeValue {
    Primitive(Primitive),
    ArrayOf(Box<TypeValue>),
    /// A strongly-typed wrapper, by its sanitized name.
    ObjectRef(String),
    /// An object that gets no wrapper: it is passed around as a raw handle.
    Opaque,
    /// The host's "may be absent" type; its payload comes from the generic signature.
    OptionalRef,
    Void,
    /// An unresolved generic placeholder.
    TypeVariable,
}

/// The mathematical model of a `TypeValue`.
pub enum JType {
    Primitive(Primitive),
    ArrayOf(Box<JType>),
    ObjectRef(Seq<char>),
    Opaque,
    OptionalRef,
    Void,
    TypeVariable,
}

pub open spec fn type_model(t: TypeValue) -> JType
    decreases t,
{
    match t {
        TypeValue::Primitive(k) => JType::Primitive(k),
        TypeValue::ArrayOf(e) => JType::ArrayOf(Box::new(type_model(*e))),
        TypeValue::ObjectRef(n) => JType::ObjectRef(n@),
        TypeValue::Opaque => JType::Opaque,
        TypeValue::OptionalRef => JType::OptionalRef,
        TypeValue::Void => JType::Void,
        TypeValue::TypeVariable => JType::TypeVariable,
    }
}

impl View for TypeValue {
    type V = JType;

    open spec fn view(&self) -> JType {
        type_model(*self)
    }
}

/// The primitive that a grammar character stands for.
pub open spec fn primitive_of(c: char) -> Option<Primitive> {
    match c {
        'B' => Some(Primitive::Byte),
        'C' => Some(Primitive::Char),
        'D' => Some(Primitive::Double),
        'F' => Some(Primitive::Float),
        'I' => Some(Primitive::Int),
        'J' => Some(Primitive::Long),
        'S' => Some(Primitive::Short),
        'Z' => Some(Primitive::Boolean),
        _ => None,
    }
}

/// The grammar character of a primitive.
pub open spec fn primitive_code(k: Primitive) -> char {
    match k {
        Primitive::Byte => 'B',
        Primitive::Char => 'C',
        Primitive::Double => 'D',
        Primitive::Float => 'F',
        Primitive::Int => 'I',
        Primitive::Long => 'J',
        Primitive::Short => 'S',
        Primitive::Boolean => 'Z',
    }
}

/// The target-language name of a primitive.
pub open spec fn primitive_name(k: Primitive) -> Seq<char> {
    match k {
        Primitive::Byte => "i8"@,
        Primitive::Char => "char"@,
        Primitive::Double => "f64"@,
        Primitive::Float => "f32"@,
        Primitive::Int => "i32"@,
        Primitive::Long => "i64"@,
        Primitive::Short => "i16"@,
        Primitive::Boolean => "bool"@,
    }
}

/// The name of the opaque handle type.
pub open spec fn opaque_name() -> Seq<char> {
    "jobject"@
}

/// The target-language name of a type in return position. An optional
/// reference is named bare here; its payload is added from the signature.
pub open spec fn target_name(t: JType) -> Seq<char>
    decreases t,
{
    match t {
        JType::Primitive(k) => primitive_name(k),
        JType::ArrayOf(e) => "Vec<"@ + target_name(*e) + ">"@,
        JType::ObjectRef(n) => n,
        JType::Opaque => opaque_name(),
        JType::OptionalRef => "Option"@,
        JType::Void => "()"@,
        JType::TypeVariable => opaque_name(),
    }
}

/// The target-language name of a type in parameter position, where an
/// optional reference is an opaque handle.
pub open spec fn param_target_name(t: JType) -> Seq<char>
    decreases t,
{
    match t {
        JType::ArrayOf(e) => "Vec<"@ + param_target_name(*e) + ">"@,
        JType::OptionalRef => opaque_name(),
        _ => target_name(t),
    }
}

/// The primitive named by a grammar character.
pub fn primitive_from_code(c: char) -> (r: Option<Primitive>)
    ensures
        r == primitive_of(c),
{
    match c {
        'B' => Some(Primitive::Byte),
        'C' => Some(Primitive::Char),
        'D' => Some(Primitive::Double),
        'F' => Some(Primitive::Float),
        'I' => Some(Primitive::Int),
        'J' => Some(Primitive::Long),
        'S' => Some(Primitive::Short),
        'Z' => Some(Primitive::Boolean),
        _ => None,
    }
}

/// The target-language name of the primitive that `c` stands for.
pub fn get_rust_type(c: char) -> (r: &'static str)
    requires
        primitive_of(c) is Some,
    ensures
        r@ == primitive_name(primitive_of(c)->0),
{
    match c {
        'B' => "i8",
        'C' => "char",
        'D' => "f64",
        'F' => "f32",
        'I' => "i32",
        'J' => "i64",
        'S' => "i16",
        _ => "bool",
    }
}

fn primitive_str(k: Primitive) -> (r: &'static str)
    ensures
        r@ == primitive_name(k),
{
    match k {
        Primitive::Byte => "i8",
        Primitive::Char => "char",
        Primitive::Double => "f64",
        Primitive::Float => "f32",
        Primitive::Int => "i32",
        Primitive::Long => "i64",
        Primitive::Short => "i16",
        Primitive::Boolean => "bool",
    }
}

impl TypeValue {
    /// The target-language name of this type in return position.
    pub fn target_name(&self) -> (r: String)
        ensures
            r@ == target_name(self@),
        decreases self,
    {
        match self {
            TypeValue::Primitive(k) => String::from_str(primitive_str(*k)),
            TypeValue::ArrayOf(e) => {
                let mut r = String::from_str("Vec<");
                let inner = e.target_name();
                r.append(inner.as_str());
                r.append(">");
                r
            },
            TypeValue::ObjectRef(n) => n.clone(),
            TypeValue::Opaque => String::from_str("jobject"),
            TypeValue::OptionalRef => String::from_str("Option"),
            TypeValue::Void => String::from_str("()"),
            TypeValue::TypeVariable => String::from_str("jobject"),
        }
    }

    /// The target-language name of this type in parameter position.
    pub fn param_target_name(&self) -> (r: String)
        ensures
            r@ == param_target_name(self@),
        decreases self,
    {
        match self {
            TypeValue::ArrayOf(e) => {
                let mut r = String::from_str("Vec<");
                let inner = e.param_target_name();
                r.append(inner.as_str());
                r.append(">");
                r
            },
            TypeValue::OptionalRef => String::from_str("jobject"),
            _ => self.target_name(),
        }
    }
}

} // verus!
