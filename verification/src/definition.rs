//! Annotated type definitions: what a descriptor is derived from.
//!
//! A definition holds what was written, not what it means: the names of the
//! annotations and of their settings are given a meaning by the parser.

use vstd::prelude::*;

verus! {

/// A value written in an annotation.
#[derive(Debug, PartialEq, Eq)]
pub enum MetaValue {
    /// A text literal.
    Text(String),
    /// An integer literal.
    Integer(usize),
    /// A path, such as the name of a type, by its identifiers: `model`,
    /// `Item` for `model::Item`.
    Path(Vec<String>),
    /// Anything else.
    Other,
}

/// One entry of the list of an annotation.
#[derive(Debug, PartialEq, Eq)]
pub enum MetaItem {
    /// A bare word: `default`.
    Flag { key: String },
    /// A setting: `rename = "code"`.
    Pair { key: String, value: MetaValue },
    /// A bare value: `3`.
    Literal { value: MetaValue },
}

/// An annotation on a type or on a field: a name and a list of entries.
///
/// An annotation without a list has no entries.
#[derive(Debug, PartialEq, Eq)]
pub struct Annotation {
    pub name: String,
    pub items: Vec<MetaItem>,
}

/// The type that a field is declared with, as it is written.
///
/// `segments` are the identifiers of the path, such as `std`, `option`,
/// `Option`; a type that is no path has none. `arguments` are the type
/// arguments of the last segment.
#[derive(Debug, PartialEq, Eq)]
pub struct TypeRef {
    pub segments: Vec<String>,
    pub arguments: Vec<TypeRef>,
}

/// A member of a type definition.
#[derive(Debug, PartialEq, Eq)]
pub struct FieldDefinition {
    pub name: String,
    pub annotations: Vec<Annotation>,
    pub ty: TypeRef,
}

/// The kind of a type definition.
#[derive(Debug, Clone, Copy, PartialEq, Eq, Structural)]
pub enum TypeShape {
    /// A struct whose members are named fields.
    NamedStruct,
    /// A struct whose members are positional.
    TupleStruct,
    /// A struct without members.
    UnitStruct,
    Enum,
    Union,
}

/// An annotated type definition.
#[derive(Debug, PartialEq, Eq)]
pub struct TypeDefinition {
    pub name: String,
    pub annotations: Vec<Annotation>,
    pub shape: TypeShape,
    pub fields: Vec<FieldDefinition>,
}

impl MetaItem {
    /// The key of an entry that has one.
    pub open spec fn key(self) -> Option<Seq<char>> {
        match self {
            MetaItem::Flag { key } => Some(key@),
            MetaItem::Pair { key, .. } => Some(key@),
            MetaItem::Literal { .. } => None,
        }
    }

    /// Whether the entry is written under `key`.
    pub fn has_key(&self, key: &str) -> (b: bool)
        ensures
            b == (self.key() == Some(key@)),
    {
        match self {
            MetaItem::Flag { key: k } => crate::text::text_is(k, key),
            MetaItem::Pair { key: k, .. } => crate::text::text_is(k, key),
            MetaItem::Literal { .. } => false,
        }
    }
}

} // verus!
