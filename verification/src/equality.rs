//! Structural equality of type descriptions, and copies of them.

use vstd::prelude::*;
use vstd::std_specs::cmp::{PartialEqSpec, PartialEqSpecImpl};

use crate::namespace::Namespace;
use crate::shape::{height, lemma_max_height, max_height};
use crate::symbol::{StringRef, TypeRef};
use crate::text::same_text;
use crate::type_id::{
    lemma_kind, lemma_shapes, shapes, CompactTypeId, TypeId, TypeIdArray, TypeIdCustom,
    TypeIdSlice, TypeIdTuple,
};

verus! {

/// Whether `a` and `b` describe the same type: whether they are of the same
/// kind and hold equal parts in the same places.
pub fn same_type(a: &TypeId, b: &TypeId) -> (same: bool)
    ensures
        same == (a@ == b@),
    decreases height(a@), 1nat,
{
    proof {
        lemma_kind(*a);
        lemma_kind(*b);
    }
    match (a, b) {
        (TypeId::Custom(x), TypeId::Custom(y)) => same_custom(x, y),
        (TypeId::Slice(x), TypeId::Slice(y)) => same_slice(x, y),
        (TypeId::Array(x), TypeId::Array(y)) => same_array(x, y),
        (TypeId::Tuple(x), TypeId::Tuple(y)) => same_types(&x.type_params, &y.type_params),
        (TypeId::Primitive(x), TypeId::Primitive(y)) => *x == *y,
        _ => false,
    }
}

/// Whether `a` and `b` describe the same custom type.
fn same_custom(a: &TypeIdCustom, b: &TypeIdCustom) -> (same: bool)
    ensures
        same == (a@ == b@),
    decreases height(a@), 0nat,
{
    same_text(a.name(), b.name()) && a.namespace().eq(b.namespace()) && same_types(
        a.type_params(),
        b.type_params(),
    )
}

/// Whether `a` and `b` describe the same slice type.
fn same_slice(a: &TypeIdSlice, b: &TypeIdSlice) -> (same: bool)
    ensures
        same == (a@ == b@),
    decreases height(a@), 0nat,
{
    same_type(a.type_param(), b.type_param())
}

/// Whether `a` and `b` describe the same array type.
fn same_array(a: &TypeIdArray, b: &TypeIdArray) -> (same: bool)
    ensures
        same == (a@ == b@),
    decreases height(a@), 0nat,
{
    a.len == b.len && same_type(&*a.type_param, &*b.type_param)
}

/// Whether `a` and `b` describe the same types in the same order.
pub fn same_types(a: &Vec<TypeId>, b: &Vec<TypeId>) -> (same: bool)
    ensures
        same == (shapes(a@) == shapes(b@)),
    decreases max_height(shapes(a@)), 2nat,
{
    proof {
        lemma_shapes(a@);
        lemma_shapes(b@);
    }
    let n = a.len();
    if n != b.len() {
        return false;
    }
    let mut i: usize = 0;
    while i < n
        invariant
            i <= n,
            n == a@.len(),
            n == b@.len(),
            forall|j: int| 0 <= j < i ==> a@[j]@ == b@[j]@,
        decreases n - i,
    {
        proof {
            lemma_shapes(a@);
            lemma_shapes(b@);
            lemma_max_height(shapes(a@), i as int);
        }
        if !same_type(&a[i], &b[i]) {
            return false;
        }
        i += 1;
    }
    assert(shapes(a@) =~= shapes(b@));
    true
}

/// A copy of `a`.
pub fn copy_type(a: &TypeId) -> (copy: TypeId)
    ensures
        copy@ == a@,
    decreases height(a@), 0nat,
{
    match a {
        TypeId::Custom(x) => TypeId::Custom(
            TypeIdCustom::new(x.name(), x.namespace().clone(), copy_types(x.type_params())),
        ),
        TypeId::Slice(x) => TypeId::Slice(TypeIdSlice::new(copy_type(x.type_param()))),
        TypeId::Array(x) => TypeId::Array(TypeIdArray::new(x.len, copy_type(&*x.type_param))),
        TypeId::Tuple(x) => TypeId::Tuple(TypeIdTuple::new(copy_types(&x.type_params))),
        TypeId::Primitive(x) => TypeId::Primitive(*x),
    }
}

/// Copies of `a`, in the same order.
pub fn copy_types(a: &Vec<TypeId>) -> (copy: Vec<TypeId>)
    ensures
        shapes(copy@) == shapes(a@),
    decreases max_height(shapes(a@)), 2nat,
{
    proof {
        lemma_shapes(a@);
    }
    let n = a.len();
    let mut copy: Vec<TypeId> = Vec::new();
    let mut i: usize = 0;
    while i < n
        invariant
            i <= n,
            n == a@.len(),
            n == shapes(a@).len(),
            copy@.len() == i,
            forall|j: int| 0 <= j < i ==> copy@[j]@ == a@[j]@,
        decreases n - i,
    {
        proof {
            lemma_shapes(a@);
            lemma_max_height(shapes(a@), i as int);
        }
        copy.push(copy_type(&a[i]));
        i += 1;
    }
    proof {
        lemma_shapes(copy@);
    }
    copy
}

/// Whether `a` and `b` hold the same references in the same order.
fn same_string_refs(a: &Vec<StringRef>, b: &Vec<StringRef>) -> (same: bool)
    ensures
        same == (a.deep_view() == b.deep_view()),
{
    let n = a.len();
    if n != b.len() {
        assert(a.deep_view().len() != b.deep_view().len());
        return false;
    }
    let mut i: usize = 0;
    while i < n
        invariant
            i <= n,
            n == a@.len(),
            n == b@.len(),
            forall|j: int| 0 <= j < i ==> a@[j]@ == b@[j]@,
        decreases n - i,
    {
        if a[i].index != b[i].index {
            assert(a.deep_view()[i as int] != b.deep_view()[i as int]);
            return false;
        }
        i += 1;
    }
    assert(a.deep_view() =~= b.deep_view());
    true
}

/// Whether `a` and `b` hold the same references in the same order.
fn same_type_refs(a: &Vec<TypeRef>, b: &Vec<TypeRef>) -> (same: bool)
    ensures
        same == (a.deep_view() == b.deep_view()),
{
    let n = a.len();
    if n != b.len() {
        assert(a.deep_view().len() != b.deep_view().len());
        return false;
    }
    let mut i: usize = 0;
    while i < n
        invariant
            i <= n,
            n == a@.len(),
            n == b@.len(),
            forall|j: int| 0 <= j < i ==> a@[j]@ == b@[j]@,
        decreases n - i,
    {
        if a[i].index != b[i].index {
            assert(a.deep_view()[i as int] != b.deep_view()[i as int]);
            return false;
        }
        i += 1;
    }
    assert(a.deep_view() =~= b.deep_view());
    true
}

impl PartialEq for TypeId {
    /// Two descriptions are equal when they describe the same type.
    fn eq(&self, other: &Self) -> (equal: bool) {
        same_type(self, other)
    }
}

impl PartialEqSpecImpl for TypeId {
    open spec fn obeys_eq_spec() -> bool {
        true
    }

    open spec fn eq_spec(&self, other: &Self) -> bool {
        self@ == other@
    }
}

impl Eq for TypeId {

}

impl PartialEq for TypeIdCustom<&'static str, TypeId> {
    fn eq(&self, other: &Self) -> (equal: bool) {
        same_custom(self, other)
    }
}

impl PartialEqSpecImpl for TypeIdCustom<&'static str, TypeId> {
    open spec fn obeys_eq_spec() -> bool {
        true
    }

    open spec fn eq_spec(&self, other: &Self) -> bool {
        self@ == other@
    }
}

impl Eq for TypeIdCustom<&'static str, TypeId> {

}

impl PartialEq for TypeIdSlice<Box<TypeId>> {
    fn eq(&self, other: &Self) -> (equal: bool) {
        same_slice(self, other)
    }
}

impl PartialEqSpecImpl for TypeIdSlice<Box<TypeId>> {
    open spec fn obeys_eq_spec() -> bool {
        true
    }

    open spec fn eq_spec(&self, other: &Self) -> bool {
        self@ == other@
    }
}

impl Eq for TypeIdSlice<Box<TypeId>> {

}

impl PartialEq for TypeIdArray<Box<TypeId>> {
    fn eq(&self, other: &Self) -> (equal: bool) {
        same_array(self, other)
    }
}

impl PartialEqSpecImpl for TypeIdArray<Box<TypeId>> {
    open spec fn obeys_eq_spec() -> bool {
        true
    }

    open spec fn eq_spec(&self, other: &Self) -> bool {
        self@ == other@
    }
}

impl Eq for TypeIdArray<Box<TypeId>> {

}

impl PartialEq for TypeIdTuple<TypeId> {
    /// Two tuples are equal when they have as many elements and the
    /// elements at each index describe the same type.
    fn eq(&self, other: &Self) -> (equal: bool) {
        same_types(&self.type_params, &other.type_params)
    }
}

impl PartialEqSpecImpl for TypeIdTuple<TypeId> {
    open spec fn obeys_eq_spec() -> bool {
        true
    }

    open spec fn eq_spec(&self, other: &Self) -> bool {
        self@ == other@
    }
}

impl Eq for TypeIdTuple<TypeId> {

}

impl Clone for TypeId {
    fn clone(&self) -> (copy: Self)
        ensures
            copy@ == self@,
    {
        copy_type(self)
    }
}

impl Clone for TypeIdCustom<&'static str, TypeId> {
    fn clone(&self) -> (copy: Self)
        ensures
            copy@ == self@,
    {
        TypeIdCustom::new(self.name(), self.namespace().clone(), copy_types(self.type_params()))
    }
}

impl Clone for TypeIdSlice<Box<TypeId>> {
    fn clone(&self) -> (copy: Self)
        ensures
            copy@ == self@,
    {
        TypeIdSlice::new(copy_type(self.type_param()))
    }
}

impl Clone for TypeIdArray<Box<TypeId>> {
    fn clone(&self) -> (copy: Self)
        ensures
            copy@ == self@,
    {
        TypeIdArray::new(self.len, copy_type(&*self.type_param))
    }
}

impl Clone for TypeIdTuple<TypeId> {
    fn clone(&self) -> (copy: Self)
        ensures
            copy@ == self@,
    {
        TypeIdTuple::new(copy_types(&self.type_params))
    }
}

impl PartialEq for Namespace<StringRef> {
    fn eq(&self, other: &Self) -> (equal: bool) {
        same_string_refs(self.segments(), other.segments())
    }
}

impl PartialEqSpecImpl for Namespace<StringRef> {
    open spec fn obeys_eq_spec() -> bool {
        true
    }

    open spec fn eq_spec(&self, other: &Self) -> bool {
        self@ == other@
    }
}

impl Eq for Namespace<StringRef> {

}

impl PartialEq for TypeIdCustom<StringRef, TypeRef> {
    fn eq(&self, other: &Self) -> (equal: bool) {
        self.name().index == other.name().index && self.namespace().eq(other.namespace())
            && same_type_refs(self.type_params(), other.type_params())
    }
}

impl PartialEqSpecImpl for TypeIdCustom<StringRef, TypeRef> {
    open spec fn obeys_eq_spec() -> bool {
        true
    }

    open spec fn eq_spec(&self, other: &Self) -> bool {
        self@ == other@
    }
}

impl Eq for TypeIdCustom<StringRef, TypeRef> {

}

impl PartialEq for TypeIdSlice<TypeRef> {
    fn eq(&self, other: &Self) -> (equal: bool) {
        self.type_param().index == other.type_param().index
    }
}

impl PartialEqSpecImpl for TypeIdSlice<TypeRef> {
    open spec fn obeys_eq_spec() -> bool {
        true
    }

    open spec fn eq_spec(&self, other: &Self) -> bool {
        self@ == other@
    }
}

impl Eq for TypeIdSlice<TypeRef> {

}

impl PartialEq for TypeIdArray<TypeRef> {
    fn eq(&self, other: &Self) -> (equal: bool) {
        self.len == other.len && self.type_param.index == other.type_param.index
    }
}

impl PartialEqSpecImpl for TypeIdArray<TypeRef> {
    open spec fn obeys_eq_spec() -> bool {
        true
    }

    open spec fn eq_spec(&self, other: &Self) -> bool {
        self@ == other@
    }
}

impl Eq for TypeIdArray<TypeRef> {

}

impl PartialEq for TypeIdTuple<TypeRef> {
    fn eq(&self, other: &Self) -> (equal: bool) {
        same_type_refs(&self.type_params, &other.type_params)
    }
}

impl PartialEqSpecImpl for TypeIdTuple<TypeRef> {
    open spec fn obeys_eq_spec() -> bool {
        true
    }

    open spec fn eq_spec(&self, other: &Self) -> bool {
        self@ == other@
    }
}

impl Eq for TypeIdTuple<TypeRef> {

}

impl PartialEq for CompactTypeId {
    /// Two compacted descriptions are equal when they are of the same kind
    /// and hold the same references in the same places.
    fn eq(&self, other: &Self) -> (equal: bool) {
        proof {
            crate::type_id::lemma_compact_kind(*self);
            crate::type_id::lemma_compact_kind(*other);
        }
        match (self, other) {
            (CompactTypeId::Custom(x), CompactTypeId::Custom(y)) => x.eq(y),
            (CompactTypeId::Slice(x), CompactTypeId::Slice(y)) => x.eq(y),
            (CompactTypeId::Array(x), CompactTypeId::Array(y)) => x.eq(y),
            (CompactTypeId::Tuple(x), CompactTypeId::Tuple(y)) => x.eq(y),
            (CompactTypeId::Primitive(x), CompactTypeId::Primitive(y)) => *x == *y,
            _ => false,
        }
    }
}

impl PartialEqSpecImpl for CompactTypeId {
    open spec fn obeys_eq_spec() -> bool {
        true
    }

    open spec fn eq_spec(&self, other: &Self) -> bool {
        self@ == other@
    }
}

impl Eq for CompactTypeId {

}

/// A copy of `a`.
fn copy_string_refs(a: &Vec<StringRef>) -> (copy: Vec<StringRef>)
    ensures
        copy.deep_view() == a.deep_view(),
{
    let n = a.len();
    let mut copy: Vec<StringRef> = Vec::new();
    let mut i: usize = 0;
    while i < n
        invariant
            i <= n,
            n == a@.len(),
            copy@ == a@.take(i as int),
        decreases n - i,
    {
        copy.push(a[i]);
        i += 1;
    }
    copy
}

/// A copy of `a`.
fn copy_type_refs(a: &Vec<TypeRef>) -> (copy: Vec<TypeRef>)
    ensures
        copy.deep_view() == a.deep_view(),
{
    let n = a.len();
    let mut copy: Vec<TypeRef> = Vec::new();
    let mut i: usize = 0;
    while i < n
        invariant
            i <= n,
            n == a@.len(),
            copy@ == a@.take(i as int),
        decreases n - i,
    {
        copy.push(a[i]);
        i += 1;
    }
    copy
}

impl Clone for Namespace<StringRef> {
    fn clone(&self) -> (copy: Self)
        ensures
            copy@ == self@,
    {
        Namespace::from_refs(copy_string_refs(self.segments()))
    }
}

impl Clone for TypeIdCustom<StringRef, TypeRef> {
    fn clone(&self) -> (copy: Self)
        ensures
            copy@ == self@,
    {
        TypeIdCustom::from_refs(
            self.name(),
            self.namespace().clone(),
            copy_type_refs(self.type_params()),
        )
    }
}

impl Clone for TypeIdSlice<TypeRef> {
    fn clone(&self) -> (copy: Self)
        ensures
            copy@ == self@,
    {
        TypeIdSlice::from_ref(self.type_param())
    }
}

impl Clone for TypeIdArray<TypeRef> {
    fn clone(&self) -> (copy: Self)
        ensures
            copy@ == self@,
    {
        TypeIdArray { len: self.len, type_param: self.type_param }
    }
}

impl Clone for TypeIdTuple<TypeRef> {
    fn clone(&self) -> (copy: Self)
        ensures
            copy@ == self@,
    {
        TypeIdTuple { type_params: copy_type_refs(&self.type_params) }
    }
}

impl Clone for CompactTypeId {
    fn clone(&self) -> (copy: Self)
        ensures
            copy@ == self@,
    {
        match self {
            CompactTypeId::Custom(x) => CompactTypeId::Custom(x.clone()),
            CompactTypeId::Slice(x) => CompactTypeId::Slice(x.clone()),
            CompactTypeId::Array(x) => CompactTypeId::Array(x.clone()),
            CompactTypeId::Tuple(x) => CompactTypeId::Tuple(x.clone()),
            CompactTypeId::Primitive(x) => CompactTypeId::Primitive(*x),
        }
    }
}

/// Descriptions of different kinds are never equal.
pub proof fn law_kinds_differ(a: TypeId, b: TypeId)
    requires
        (a is Custom) != (b is Custom) || (a is Slice) != (b is Slice) || (a is Array) != (
        b is Array) || (a is Tuple) != (b is Tuple) || (a is Primitive) != (b is Primitive),
    ensures
        !PartialEqSpec::eq_spec(&a, &b),
{
    lemma_kind(a);
    lemma_kind(b);
}

/// Two tuples are equal if and only if they have as many elements and the
/// elements at each index are equal.
pub proof fn law_tuple_equality(a: TypeIdTuple, b: TypeIdTuple)
    ensures
        PartialEqSpec::eq_spec(&a, &b) <==> (a.type_params@.len() == b.type_params@.len()
            && forall|i: int|
            0 <= i < a.type_params@.len() ==> PartialEqSpec::eq_spec(
                #[trigger] &a.type_params@[i],
                &b.type_params@[i],
            )),
{
    lemma_shapes(a.type_params@);
    lemma_shapes(b.type_params@);
    if a.type_params@.len() == b.type_params@.len() && (forall|i: int|
        0 <= i < a.type_params@.len() ==> PartialEqSpec::eq_spec(
            #[trigger] &a.type_params@[i],
            &b.type_params@[i],
        )) {
        assert(shapes(a.type_params@) =~= shapes(b.type_params@));
    }
    if PartialEqSpec::eq_spec(&a, &b) {
        assert forall|i: int| 0 <= i < a.type_params@.len() implies PartialEqSpec::eq_spec(
            #[trigger] &a.type_params@[i],
            &b.type_params@[i],
        ) by {
            assert(shapes(a.type_params@)[i] == shapes(b.type_params@)[i]);
        }
    }
}

} // verus!
