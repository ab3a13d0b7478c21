//! The parsed derive input, as plain values: the parts of a Rust item that the derives read.
//! Each type keeps what the expansion logic looks at and folds the rest into one variant.

use vstd::prelude::*;
use crate::text::str_eq;

verus! {

/// The generic arguments written after a path segment.
pub enum PathArguments {
    /// No arguments, as in `String`.
    Empty,
    /// Arguments in angle brackets, as in `Option<String>`.
    AngleBracketed(Vec<GenericArgument>),
    /// Arguments in parentheses, as in `Fn(A) -> B`.
    Parenthesized,
}

/// One generic argument inside angle brackets.
pub enum GenericArgument {
    /// A type argument.
    Type(Type),
    /// A lifetime, a constant, a binding or a constraint.
    Other,
}

/// One segment of a path: an identifier and its generic arguments.
pub struct PathSegment {
    pub ident: String,
    pub arguments: PathArguments,
}

/// A path such as `std::option::Option<T>` or `crud`.
pub struct Path {
    /// Whether the path starts with `::`.
    pub leading_colon: bool,
    pub segments: Vec<PathSegment>,
}

/// A type given by a path, possibly with a qualified self type (`<T as Trait>::Item`).
pub struct TypePath {
    /// Whether a qualified self type precedes the path.
    pub qself: bool,
    pub path: Path,
    /// The path as its tokens print, such as `chrono :: NaiveDateTime`.
    pub tokens: String,
}

/// A type.
pub enum Type {
    /// A path type such as `Option<String>`.
    Path(TypePath),
    /// Any other type: a reference, a tuple, an array, a function pointer, ...
    Other,
}

/// A literal inside an attribute.
pub enum Lit {
    /// A string literal, with its value (escapes resolved).
    Str(String),
    /// Any other literal.
    Other,
}

/// One item of an attribute list such as `crud(model = "post", creatable)`.
pub enum NestedMeta {
    /// A bare path, such as `creatable`.
    Path(Path),
    /// A `path = literal` item.
    NameValue(Path, Lit),
    /// A nested list `path(...)`; its items are not read.
    List(Path),
    /// A bare literal.
    Lit(Lit),
}

/// An attribute list `path(item, item, ...)`.
pub struct MetaList {
    pub path: Path,
    pub nested: Vec<NestedMeta>,
}

/// The structured form of an attribute.
pub enum Meta {
    /// `#[path]`
    Path(Path),
    /// `#[path(...)]`
    List(MetaList),
    /// `#[path = literal]`
    NameValue(Path, Lit),
}

/// An outer attribute on an item or a field.
pub struct Attribute {
    pub path: Path,
    /// The attribute read as a structured meta item; `None` where its tokens do not form one.
    pub meta: Option<Meta>,
}

/// A named field of a struct.
pub struct Field {
    pub ident: String,
    pub ty: Type,
    pub attrs: Vec<Attribute>,
}

/// The fields of a struct.
pub enum Fields {
    Named(Vec<Field>),
    Unnamed,
    Unit,
}

/// The body of the item that a derive is applied to.
pub enum Data {
    Struct(Fields),
    Enum,
    Union,
}

/// The item that a derive is applied to.
pub struct DeriveInput {
    pub ident: String,
    pub attrs: Vec<Attribute>,
    pub data: Data,
}

/// A path is the single identifier `name`: no leading `::`, one segment, no arguments.
pub open spec fn path_is_ident(p: Path, name: Seq<char>) -> bool {
    &&& !p.leading_colon
    &&& p.segments@.len() == 1
    &&& p.segments@[0].arguments is Empty
    &&& p.segments@[0].ident@ == name
}

impl Path {
    /// Whether this path is the single identifier `name`.
    pub fn is_ident(&self, name: &str) -> (r: bool)
        ensures
            r == path_is_ident(*self, name@),
    {
        if self.leading_colon || self.segments.len() != 1 {
            return false;
        }
        let seg = &self.segments[0];
        match &seg.arguments {
            PathArguments::Empty => str_eq(seg.ident.as_str(), name),
            _ => false,
        }
    }
}

} // verus!
