//! The descriptions of the primitive types.

use vstd::prelude::*;

use crate::shape::{Shape, TypeIdPrimitive};
use crate::type_id::{HasTypeId, TypeId};

verus! {

impl HasTypeId for bool {
    fn type_id() -> (id: TypeId)
        ensures
            id@ == Shape::Primitive(TypeIdPrimitive::Bool),
    {
        TypeId::Primitive(TypeIdPrimitive::Bool)
    }
}

impl HasTypeId for char {
    fn type_id() -> (id: TypeId)
        ensures
            id@ == Shape::Primitive(TypeIdPrimitive::Char),
    {
        TypeId::Primitive(TypeIdPrimitive::Char)
    }
}

impl HasTypeId for u8 {
    fn type_id() -> (id: TypeId)
        ensures
            id@ == Shape::Primitive(TypeIdPrimitive::U8),
    {
        TypeId::Primitive(TypeIdPrimitive::U8)
    }
}

impl HasTypeId for u16 {
    fn type_id() -> (id: TypeId)
        ensures
            id@ == Shape::Primitive(TypeIdPrimitive::U16),
    {
        TypeId::Primitive(TypeIdPrimitive::U16)
    }
}

impl HasTypeId for u32 {
    fn type_id() -> (id: TypeId)
        ensures
            id@ == Shape::Primitive(TypeIdPrimitive::U32),
    {
        TypeId::Primitive(TypeIdPrimitive::U32)
    }
}

impl HasTypeId for u64 {
    fn type_id() -> (id: TypeId)
        ensures
            id@ == Shape::Primitive(TypeIdPrimitive::U64),
    {
        TypeId::Primitive(TypeIdPrimitive::U64)
    }
}

impl HasTypeId for u128 {
    fn type_id() -> (id: TypeId)
        ensures
            id@ == Shape::Primitive(TypeIdPrimitive::U128),
    {
        TypeId::Primitive(TypeIdPrimitive::U128)
    }
}

impl HasTypeId for i8 {
    fn type_id() -> (id: TypeId)
        ensures
            id@ == Shape::Primitive(TypeIdPrimitive::I8),
    {
        TypeId::Primitive(TypeIdPrimitive::I8)
    }
}

impl HasTypeId for i16 {
    fn type_id() -> (id: TypeId)
        ensures
            id@ == Shape::Primitive(TypeIdPrimitive::I16),
    {
        TypeId::Primitive(TypeIdPrimitive::I16)
    }
}

impl HasTypeId for i32 {
    fn type_id() -> (id: TypeId)
        ensures
            id@ == Shape::Primitive(TypeIdPrimitive::I32),
    {
        TypeId::Primitive(TypeIdPrimitive::I32)
    }
}

impl HasTypeId for i64 {
    fn type_id() -> (id: TypeId)
        ensures
            id@ == Shape::Primitive(TypeIdPrimitive::I64),
    {
        TypeId::Primitive(TypeIdPrimitive::I64)
    }
}

impl HasTypeId for i128 {
    fn type_id() -> (id: TypeId)
        ensures
            id@ == Shape::Primitive(TypeIdPrimitive::I128),
    {
        TypeId::Primitive(TypeIdPrimitive::I128)
    }
}

} // verus!
