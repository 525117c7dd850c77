//! The annotated function and the directive's options as plain values:
//! what the generator reads of each, with the source text of the parts it
//! passes through untouched.

use vstd::prelude::*;

verus! {

/// A binding pattern that is a single identifier, such as `n` or `mut n`.
#[derive(Clone, Debug)]
pub struct PatIdent {
    /// The bound name alone.
    pub ident: String,
    /// The pattern as written, binding mode included.
    pub text: String,
}

/// A pattern nested inside a tuple pattern.
#[derive(Clone, Debug)]
pub enum PatElem {
    Ident(PatIdent),
    Other,
}

/// A pattern standing directly inside a tuple-struct pattern.
#[derive(Clone, Debug)]
pub enum PatItem {
    Ident(PatIdent),
    Tuple(Vec<PatElem>),
    Other,
}

/// The binding pattern of a parameter.
#[derive(Clone, Debug)]
pub enum Pat {
    /// `n`, `mut n`
    Ident(PatIdent),
    /// `In(n)`, `In((a, b))`
    TupleStruct(Vec<PatItem>),
    /// Anything else.
    Other,
}

/// The written shape of one generic argument.
#[derive(Clone, Debug)]
pub enum ArgShape {
    /// A tuple type, with the text of each element type.
    Tuple(Vec<String>),
    /// A type that is a path.
    Path,
    /// Any other type.
    OtherType,
    /// A lifetime, a constant, a binding or a constraint.
    NotType,
}

/// One generic argument of a path segment.
#[derive(Clone, Debug)]
pub struct GenericArgument {
    pub shape: ArgShape,
    /// The argument as written.
    pub text: String,
}

/// What follows the identifier of a path's last segment.
#[derive(Clone, Debug)]
pub enum PathArguments {
    /// Nothing.
    Absent,
    /// `<A, B>`
    AngleBracketed(Vec<GenericArgument>),
    /// `(A, B) -> C`
    Parenthesized,
}

/// The written shape of a type.
#[derive(Clone, Debug)]
pub enum Type {
    /// `&T` or `&mut T`, with the text of `T`.
    Reference { mutable: bool, elem: String },
    /// A path, with the identifier and the arguments of its last segment.
    Path { ident: String, arguments: PathArguments },
    /// Anything else.
    Other,
}

/// A parameter with a pattern and a type.
#[derive(Clone, Debug)]
pub struct PatType {
    pub pat: Pat,
    pub ty: Type,
    /// The type as written.
    pub ty_text: String,
    /// The whole parameter as written.
    pub text: String,
}

/// One parameter of the annotated function.
#[derive(Clone, Debug)]
pub enum FnArg {
    /// `self` in any form, with its text.
    Receiver(String),
    Typed(PatType),
}

/// The declared return type.
#[derive(Clone, Debug)]
pub enum ReturnType {
    /// None written.
    Default,
    /// `-> T`: the shape of `T`, and the arrow and type as written.
    Type { ty: Type, text: String },
}

/// One generic parameter, by the name it is referred to.
#[derive(Clone, Debug)]
pub enum GenericParam {
    Lifetime(String),
    Type(String),
    Const(String),
}

/// The generic parameter list.
#[derive(Clone, Debug)]
pub struct Generics {
    pub params: Vec<GenericParam>,
    /// The list as written, angle brackets included; empty when there is none.
    pub text: String,
}

/// The written shape of an expression given as an option's value.
#[derive(Clone, Debug)]
pub enum ExprKind {
    /// A string literal, with its value.
    Str(String),
    /// A path, with the identifier of each segment.
    Path(Vec<String>),
    /// Anything else.
    Other,
}

/// An expression given as an option's value.
#[derive(Clone, Debug)]
pub struct Expr {
    pub kind: ExprKind,
    /// The expression as written.
    pub text: String,
}

/// The form of an attribute argument.
#[derive(Clone, Debug)]
pub enum MetaKind {
    /// `key`
    Path,
    /// `key(...)`
    List,
    /// `key = value`
    NameValue(Expr),
}

/// One attribute argument.
#[derive(Clone, Debug)]
pub struct Meta {
    /// The key, where it is a single plain identifier.
    pub key: Option<String>,
    pub kind: MetaKind,
    /// The argument as written.
    pub text: String,
}

/// An attribute of the annotated function.
#[derive(Clone, Debug)]
pub struct Attribute {
    pub meta: Meta,
    /// The attribute as written, `#[` and `]` included.
    pub text: String,
}

/// The annotated function.
#[derive(Clone, Debug)]
pub struct ItemFn {
    pub attrs: Vec<Attribute>,
    /// The visibility as written; empty when inherited.
    pub vis: String,
    /// `const`, `async`, `unsafe` and the ABI as written; empty when there is none.
    pub qualifiers: String,
    pub ident: String,
    pub generics: Generics,
    pub inputs: Vec<FnArg>,
    /// The variadic argument as written, where the signature has one.
    pub variadic: Option<String>,
    pub output: ReturnType,
    /// The body as written, braces included.
    pub block: String,
}

} // verus!
