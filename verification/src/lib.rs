//! Structural descriptions of types, and their compaction into a registry of
//! interned entries.
//!
//! A [`TypeId`] describes the shape of a type: a primitive type, a tuple, an
//! array, a slice, or a custom type with its name, its [`Namespace`] and the
//! arguments of its type parameters. Compaction rewrites a description over
//! references into a [`Registry`], which holds each string and each type
//! once.

pub mod compact;
pub mod equality;
pub mod identifier;
pub mod model;
pub mod namespace;
pub mod path;
pub mod primitives;
pub mod registry;
pub mod shape;
pub mod symbol;
pub mod text;
pub mod type_id;

pub use compact::IntoCompact;
pub use namespace::{Namespace, NamespaceError, Segment};
pub use registry::Registry;
pub use shape::TypeIdPrimitive;
pub use symbol::{StringRef, TypeRef};
pub use type_id::{
    CompactTypeId, HasTypeId, TypeId, TypeIdArray, TypeIdCustom, TypeIdSlice, TypeIdTuple,
};
