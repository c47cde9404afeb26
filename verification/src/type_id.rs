//! Type descriptions, and their compacted counterparts.

use vstd::prelude::*;
use vstd::std_specs::convert::FromSpecImpl;

use crate::namespace::{Namespace, Segment};
use crate::shape::{CompactShape, Shape, TypeIdPrimitive};
use crate::symbol::{StringRef, TypeRef};

verus! {

/// A type that can describe itself.
pub trait HasTypeId {
    /// The description of the type.
    fn type_id() -> TypeId;
}

/// The description of a type that a user defined.
///
/// `S` is what stands for a string and `T` what stands for a type: the string
/// and the description themselves, or references to them once the
/// description has been compacted.
#[derive(Debug)]
pub struct TypeIdCustom<S: Segment = &'static str, T = TypeId> {
    name: S,
    namespace: Namespace<S>,
    type_params: Vec<T>,
}

/// The description of an array type. `T` is what stands for the type of the
/// elements: its description, or a reference to it once the description has
/// been compacted.
#[derive(Debug)]
pub struct TypeIdArray<T = Box<TypeId>> {
    /// The number of elements.
    pub len: u16,
    /// The type of the elements.
    pub type_param: T,
}

/// The description of a tuple type. `T` is what stands for the type of an
/// element: its description, or a reference to it once the description has
/// been compacted.
#[derive(Debug)]
pub struct TypeIdTuple<T = TypeId> {
    /// The types of the elements, in order.
    pub type_params: Vec<T>,
}

/// The description of a slice type. `T` is what stands for the type of the
/// elements: its description, or a reference to it once the description has
/// been compacted.
#[derive(Debug)]
pub struct TypeIdSlice<T = Box<TypeId>> {
    type_param: T,
}

/// The description of a type.
#[derive(Debug)]
pub enum TypeId {
    /// A type that a user defined.
    Custom(TypeIdCustom),
    /// A slice, whose length is known when the program runs.
    Slice(TypeIdSlice),
    /// An array, whose length is part of its type.
    Array(TypeIdArray),
    /// A tuple.
    Tuple(TypeIdTuple),
    /// A primitive type.
    Primitive(TypeIdPrimitive),
}

/// The description of a type after compaction.
#[derive(Debug)]
pub enum CompactTypeId {
    /// A type that a user defined.
    Custom(TypeIdCustom<StringRef, TypeRef>),
    /// A slice.
    Slice(TypeIdSlice<TypeRef>),
    /// An array.
    Array(TypeIdArray<TypeRef>),
    /// A tuple.
    Tuple(TypeIdTuple<TypeRef>),
    /// A primitive type.
    Primitive(TypeIdPrimitive),
}

/// The shapes of the descriptions in `types`, in order.
pub open spec fn shapes(types: Seq<TypeId>) -> Seq<Shape>
    decreases types,
{
    if types.len() == 0 {
        Seq::empty()
    } else {
        shapes(types.drop_last()).push(types.last()@)
    }
}

/// The shapes of the compacted descriptions in `types`, in order.
pub open spec fn compact_shapes(types: Seq<CompactTypeId>) -> Seq<CompactShape> {
    Seq::new(types.len(), |i: int| types[i]@)
}

/// The shapes of descriptions are as many as the descriptions, and each is
/// the shape of the description at its index.
pub proof fn lemma_shapes(types: Seq<TypeId>)
    ensures
        shapes(types).len() == types.len(),
        forall|i: int| 0 <= i < types.len() ==> #[trigger] shapes(types)[i] == types[i]@,
    decreases types.len(),
{
    if types.len() > 0 {
        lemma_shapes(types.drop_last());
        assert(shapes(types) == shapes(types.drop_last()).push(types.last()@));
    }
}

/// The shapes of descriptions with one more are their shapes with the shape
/// of that one more.
pub proof fn lemma_shapes_push(types: Seq<TypeId>, id: TypeId)
    ensures
        shapes(types.push(id)) == shapes(types).push(id@),
{
    assert(types.push(id).drop_last() == types);
    assert(shapes(types.push(id)) == shapes(types.push(id).drop_last()).push(
        types.push(id).last()@,
    ));
}

impl View for TypeIdCustom<&'static str, TypeId> {
    type V = Shape;

    closed spec fn view(&self) -> Shape
        decreases self,
    {
        Shape::Custom {
            name: self.name@,
            namespace: self.namespace@,
            params: shapes(self.type_params@),
        }
    }
}

impl View for TypeIdArray<Box<TypeId>> {
    type V = Shape;

    open spec fn view(&self) -> Shape
        decreases self,
    {
        Shape::Array { len: self.len, element: Box::new((*self.type_param)@) }
    }
}

impl View for TypeIdTuple<TypeId> {
    type V = Shape;

    open spec fn view(&self) -> Shape
        decreases self,
    {
        Shape::Tuple { elements: shapes(self.type_params@) }
    }
}

impl View for TypeIdSlice<Box<TypeId>> {
    type V = Shape;

    closed spec fn view(&self) -> Shape
        decreases self,
    {
        Shape::Slice { element: Box::new((*self.type_param)@) }
    }
}

impl View for TypeId {
    type V = Shape;

    open spec fn view(&self) -> Shape
        decreases self,
    {
        match self {
            TypeId::Custom(custom) => custom@,
            TypeId::Slice(slice) => slice@,
            TypeId::Array(array) => array@,
            TypeId::Tuple(tuple) => tuple@,
            TypeId::Primitive(primitive) => Shape::Primitive(*primitive),
        }
    }
}

/// A description and its shape are of the same kind.
pub proof fn lemma_kind(id: TypeId)
    ensures
        id is Custom <==> id@ is Custom,
        id is Slice <==> id@ is Slice,
        id is Array <==> id@ is Array,
        id is Tuple <==> id@ is Tuple,
        id is Primitive <==> id@ is Primitive,
{
}

impl View for TypeIdCustom<StringRef, TypeRef> {
    type V = CompactShape;

    closed spec fn view(&self) -> CompactShape {
        CompactShape::Custom {
            name: self.name@,
            namespace: self.namespace@,
            params: self.type_params.deep_view(),
        }
    }
}

impl View for TypeIdArray<TypeRef> {
    type V = CompactShape;

    open spec fn view(&self) -> CompactShape {
        CompactShape::Array { len: self.len, element: self.type_param@ }
    }
}

impl View for TypeIdTuple<TypeRef> {
    type V = CompactShape;

    open spec fn view(&self) -> CompactShape {
        CompactShape::Tuple { elements: self.type_params.deep_view() }
    }
}

impl View for TypeIdSlice<TypeRef> {
    type V = CompactShape;

    closed spec fn view(&self) -> CompactShape {
        CompactShape::Slice { element: self.type_param@ }
    }
}

impl View for CompactTypeId {
    type V = CompactShape;

    open spec fn view(&self) -> CompactShape {
        match self {
            CompactTypeId::Custom(custom) => custom@,
            CompactTypeId::Slice(slice) => slice@,
            CompactTypeId::Array(array) => array@,
            CompactTypeId::Tuple(tuple) => tuple@,
            CompactTypeId::Primitive(primitive) => CompactShape::Primitive(*primitive),
        }
    }
}

/// A compacted description and its shape are of the same kind.
pub proof fn lemma_compact_kind(id: CompactTypeId)
    ensures
        id is Custom <==> id@ is Custom,
        id is Slice <==> id@ is Slice,
        id is Array <==> id@ is Array,
        id is Tuple <==> id@ is Tuple,
        id is Primitive <==> id@ is Primitive,
{
}

impl TypeIdCustom<&'static str, TypeId> {
    /// Creates the description of the custom type `name`, declared in
    /// `namespace`, with the arguments `type_params` of its type parameters.
    ///
    /// The arguments keep their order, and one that occurs twice stays twice.
    pub fn new(name: &'static str, namespace: Namespace, type_params: Vec<TypeId>) -> (custom: Self)
        ensures
            custom@ == (Shape::Custom {
                name: name@,
                namespace: namespace@,
                params: shapes(type_params@),
            }),
    {
        TypeIdCustom { name, namespace, type_params }
    }

    /// The name of the type.
    pub fn name(&self) -> (name: &'static str)
        ensures
            self@ is Custom,
            name@ == self@->name,
    {
        self.name
    }

    /// The namespace in which the type is declared.
    pub fn namespace(&self) -> (namespace: &Namespace)
        ensures
            self@ is Custom,
            namespace@ == self@->namespace,
    {
        &self.namespace
    }

    /// The arguments of the type parameters.
    pub fn type_params(&self) -> (type_params: &Vec<TypeId>)
        ensures
            self@ is Custom,
            shapes(type_params@) == self@->params,
    {
        &self.type_params
    }
}

impl TypeIdArray<Box<TypeId>> {
    /// Creates the description of the type of arrays of `len` elements of
    /// the type `type_param`.
    pub fn new(len: u16, type_param: TypeId) -> (array: Self)
        ensures
            array@ == (Shape::Array { len, element: Box::new(type_param@) }),
    {
        TypeIdArray { len, type_param: Box::new(type_param) }
    }
}

impl TypeIdTuple<TypeId> {
    /// Creates the description of the type of tuples whose elements have the
    /// types `type_params`, in that order.
    pub fn new(type_params: Vec<TypeId>) -> (tuple: Self)
        ensures
            tuple@ == (Shape::Tuple { elements: shapes(type_params@) }),
    {
        TypeIdTuple { type_params }
    }

    /// Creates the description of the unit type `()`, the tuple without
    /// elements.
    pub fn unit() -> (tuple: Self)
        ensures
            tuple@ == (Shape::Tuple { elements: Seq::<Shape>::empty() }),
    {
        Self::new(Vec::new())
    }
}

impl TypeIdSlice<Box<TypeId>> {
    /// Creates the description of the type of slices of elements of the type
    /// `type_param`.
    pub fn new(type_param: TypeId) -> (slice: Self)
        ensures
            slice@ == (Shape::Slice { element: Box::new(type_param@) }),
    {
        TypeIdSlice { type_param: Box::new(type_param) }
    }

    /// Creates the description of the type of slices of elements of the type
    /// `T`: the one that [`TypeIdSlice::new`] creates from the description
    /// that `T` gives of itself.
    pub fn of<T: HasTypeId>() -> (slice: Self)
        ensures
            exists|id: TypeId| #[trigger]
                call_ensures(T::type_id, (), id) && slice@ == (Shape::Slice {
                    element: Box::new(id@),
                }),
    {
        Self::new(T::type_id())
    }

    /// The type of the elements.
    pub fn type_param(&self) -> (type_param: &TypeId)
        ensures
            self@ is Slice,
            type_param@ == *self@->Slice_element,
    {
        &*self.type_param
    }
}

impl TypeIdCustom<StringRef, TypeRef> {
    /// Creates the compacted description of a custom type from the
    /// references to its name, to its namespace and to the arguments of its
    /// type parameters.
    pub fn from_refs(
        name: StringRef,
        namespace: Namespace<StringRef>,
        type_params: Vec<TypeRef>,
    ) -> (custom: Self)
        ensures
            custom@ == (CompactShape::Custom {
                name: name@,
                namespace: namespace@,
                params: type_params.deep_view(),
            }),
    {
        TypeIdCustom { name, namespace, type_params }
    }

    /// The reference to the name of the type.
    pub fn name(&self) -> (name: StringRef)
        ensures
            self@ is Custom,
            name@ == self@->name,
    {
        self.name
    }

    /// The compacted namespace in which the type is declared.
    pub fn namespace(&self) -> (namespace: &Namespace<StringRef>)
        ensures
            self@ is Custom,
            namespace@ == self@->namespace,
    {
        &self.namespace
    }

    /// The references to the arguments of the type parameters.
    pub fn type_params(&self) -> (type_params: &Vec<TypeRef>)
        ensures
            self@ is Custom,
            type_params.deep_view() == self@->params,
    {
        &self.type_params
    }
}

impl TypeIdSlice<TypeRef> {
    /// Creates the compacted description of the type of slices of elements
    /// of the type that `type_param` refers to.
    pub fn from_ref(type_param: TypeRef) -> (slice: Self)
        ensures
            slice@ == (CompactShape::Slice { element: type_param@ }),
    {
        TypeIdSlice { type_param }
    }

    /// The reference to the type of the elements.
    pub fn type_param(&self) -> (type_param: TypeRef)
        ensures
            self@ is Slice,
            type_param@ == self@->Slice_element,
    {
        self.type_param
    }
}

impl From<TypeIdCustom> for TypeId {
    fn from(custom: TypeIdCustom) -> (id: TypeId) {
        TypeId::Custom(custom)
    }
}

impl FromSpecImpl<TypeIdCustom> for TypeId {
    open spec fn obeys_from_spec() -> bool {
        true
    }

    open spec fn from_spec(custom: TypeIdCustom) -> TypeId {
        TypeId::Custom(custom)
    }
}

impl From<TypeIdSlice> for TypeId {
    fn from(slice: TypeIdSlice) -> (id: TypeId) {
        TypeId::Slice(slice)
    }
}

impl FromSpecImpl<TypeIdSlice> for TypeId {
    open spec fn obeys_from_spec() -> bool {
        true
    }

    open spec fn from_spec(slice: TypeIdSlice) -> TypeId {
        TypeId::Slice(slice)
    }
}

impl From<TypeIdArray> for TypeId {
    fn from(array: TypeIdArray) -> (id: TypeId) {
        TypeId::Array(array)
    }
}

impl FromSpecImpl<TypeIdArray> for TypeId {
    open spec fn obeys_from_spec() -> bool {
        true
    }

    open spec fn from_spec(array: TypeIdArray) -> TypeId {
        TypeId::Array(array)
    }
}

impl From<TypeIdTuple> for TypeId {
    fn from(tuple: TypeIdTuple) -> (id: TypeId) {
        TypeId::Tuple(tuple)
    }
}

impl FromSpecImpl<TypeIdTuple> for TypeId {
    open spec fn obeys_from_spec() -> bool {
        true
    }

    open spec fn from_spec(tuple: TypeIdTuple) -> TypeId {
        TypeId::Tuple(tuple)
    }
}

impl From<TypeIdPrimitive> for TypeId {
    fn from(primitive: TypeIdPrimitive) -> (id: TypeId) {
        TypeId::Primitive(primitive)
    }
}

impl FromSpecImpl<TypeIdPrimitive> for TypeId {
    open spec fn obeys_from_spec() -> bool {
        true
    }

    open spec fn from_spec(primitive: TypeIdPrimitive) -> TypeId {
        TypeId::Primitive(primitive)
    }
}

impl From<TypeIdCustom<StringRef, TypeRef>> for CompactTypeId {
    fn from(custom: TypeIdCustom<StringRef, TypeRef>) -> (id: CompactTypeId) {
        CompactTypeId::Custom(custom)
    }
}

impl FromSpecImpl<TypeIdCustom<StringRef, TypeRef>> for CompactTypeId {
    open spec fn obeys_from_spec() -> bool {
        true
    }

    open spec fn from_spec(custom: TypeIdCustom<StringRef, TypeRef>) -> CompactTypeId {
        CompactTypeId::Custom(custom)
    }
}

impl From<TypeIdSlice<TypeRef>> for CompactTypeId {
    fn from(slice: TypeIdSlice<TypeRef>) -> (id: CompactTypeId) {
        CompactTypeId::Slice(slice)
    }
}

impl FromSpecImpl<TypeIdSlice<TypeRef>> for CompactTypeId {
    open spec fn obeys_from_spec() -> bool {
        true
    }

    open spec fn from_spec(slice: TypeIdSlice<TypeRef>) -> CompactTypeId {
        CompactTypeId::Slice(slice)
    }
}

impl From<TypeIdArray<TypeRef>> for CompactTypeId {
    fn from(array: TypeIdArray<TypeRef>) -> (id: CompactTypeId) {
        CompactTypeId::Array(array)
    }
}

impl FromSpecImpl<TypeIdArray<TypeRef>> for CompactTypeId {
    open spec fn obeys_from_spec() -> bool {
        true
    }

    open spec fn from_spec(array: TypeIdArray<TypeRef>) -> CompactTypeId {
        CompactTypeId::Array(array)
    }
}

impl From<TypeIdTuple<TypeRef>> for CompactTypeId {
    fn from(tuple: TypeIdTuple<TypeRef>) -> (id: CompactTypeId) {
        CompactTypeId::Tuple(tuple)
    }
}

impl FromSpecImpl<TypeIdTuple<TypeRef>> for CompactTypeId {
    open spec fn obeys_from_spec() -> bool {
        true
    }

    open spec fn from_spec(tuple: TypeIdTuple<TypeRef>) -> CompactTypeId {
        CompactTypeId::Tuple(tuple)
    }
}

impl From<TypeIdPrimitive> for CompactTypeId {
    fn from(primitive: TypeIdPrimitive) -> (id: CompactTypeId) {
        CompactTypeId::Primitive(primitive)
    }
}

impl FromSpecImpl<TypeIdPrimitive> for CompactTypeId {
    open spec fn obeys_from_spec() -> bool {
        true
    }

    open spec fn from_spec(primitive: TypeIdPrimitive) -> CompactTypeId {
        CompactTypeId::Primitive(primitive)
    }
}

} // verus!
