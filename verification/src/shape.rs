//! The mathematical models of type descriptions.

use vstd::prelude::*;

verus! {

/// A primitive type.
#[derive(Clone, Copy, Debug, PartialEq, Eq, PartialOrd, Ord, Hash, Structural)]
pub enum TypeIdPrimitive {
    /// `bool`
    Bool,
    /// `char`
    Char,
    /// `str`
    Str,
    /// `u8`
    U8,
    /// `u16`
    U16,
    /// `u32`
    U32,
    /// `u64`
    U64,
    /// `u128`
    U128,
    /// `i8`
    I8,
    /// `i16`
    I16,
    /// `i32`
    I32,
    /// `i64`
    I64,
    /// `i128`
    I128,
    /// `PhantomData`
    PhantomData,
}

/// The shape of a type: what a type description says, as a value of
/// mathematics. Two descriptions are structurally equal when their shapes are
/// equal.
#[verifier::ext_equal]
pub enum Shape {
    /// A type that a user defined, with the arguments of its type parameters
    /// in the order of their declaration.
    Custom { name: Seq<char>, namespace: Seq<Seq<char>>, params: Seq<Shape> },
    /// A slice of elements of one type.
    Slice { element: Box<Shape> },
    /// An array of `len` elements of one type.
    Array { len: u16, element: Box<Shape> },
    /// A tuple of elements, in order; the unit type when there are none.
    Tuple { elements: Seq<Shape> },
    /// A primitive type.
    Primitive(TypeIdPrimitive),
}

/// The shape of a compacted type: as [`Shape`], with the index of a
/// registry's entry in place of each string and of each type.
#[verifier::ext_equal]
pub enum CompactShape {
    /// A type that a user defined.
    Custom { name: nat, namespace: Seq<nat>, params: Seq<nat> },
    /// A slice.
    Slice { element: nat },
    /// An array of `len` elements.
    Array { len: u16, element: nat },
    /// A tuple.
    Tuple { elements: Seq<nat> },
    /// A primitive type.
    Primitive(TypeIdPrimitive),
}

/// The height of a shape: 0 for a primitive type, else one more than the
/// height of the highest shape that it holds.
pub open spec fn height(shape: Shape) -> nat
    decreases shape,
{
    match shape {
        Shape::Custom { params, .. } => 1 + max_height(params),
        Shape::Slice { element } => 1 + height(*element),
        Shape::Array { element, .. } => 1 + height(*element),
        Shape::Tuple { elements } => 1 + max_height(elements),
        Shape::Primitive(_) => 0,
    }
}

/// The height of the highest of `shapes`, 0 when there is none.
pub open spec fn max_height(shapes: Seq<Shape>) -> nat
    decreases shapes,
{
    if shapes.len() == 0 {
        0
    } else {
        let rest = max_height(shapes.drop_last());
        let last = height(shapes.last());
        if last > rest {
            last
        } else {
            rest
        }
    }
}

/// None of `shapes` is higher than the highest of them.
pub proof fn lemma_max_height(shapes: Seq<Shape>, i: int)
    requires
        0 <= i < shapes.len(),
    ensures
        height(shapes[i]) <= max_height(shapes),
    decreases shapes.len(),
{
    if i < shapes.len() - 1 {
        lemma_max_height(shapes.drop_last(), i);
    }
}

} // verus!
