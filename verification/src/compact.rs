//! Compaction: rewriting a description over references into a registry.
//!
//! Each kind of description has a method `compact`, which reads the
//! description, and through [`IntoCompact`] a method `into_compact`, which
//! takes it.

use vstd::prelude::*;

use crate::namespace::Namespace;
use crate::registry::Registry;
use crate::shape::height;
use crate::symbol::{StringRef, TypeRef};
use crate::type_id::{
    CompactTypeId, TypeId, TypeIdArray, TypeIdCustom, TypeIdSlice, TypeIdTuple,
};

verus! {

impl Namespace<&'static str> {
    /// Interns the segments from first to last. The compacted namespace has
    /// as many segments, each the reference to the segment in its place.
    pub fn compact(&self, registry: &mut Registry) -> (compact: Namespace<StringRef>)
        ensures
            (final(registry)@, compact@) == old(registry)@.intern_all(self@),
            final(registry)@.wf(),
    {
        proof {
            use_type_invariant(&*registry);
        }
        let segments = self.segments();
        let n = segments.len();
        let mut rs: Vec<StringRef> = Vec::new();
        let mut i: usize = 0;
        while i < n
            invariant
                i <= n,
                n == segments@.len(),
                segments.deep_view() == self@,
                registry@.wf(),
                (registry@, rs.deep_view()) == old(registry)@.intern_all(self@.take(i as int)),
            decreases n - i,
        {
            proof {
                assert(self@.take(i + 1).drop_last() =~= self@.take(i as int));
            }
            let r = registry.register_string(segments[i]);
            rs.push(r);
            i += 1;
        }
        assert(self@.take(n as int) =~= self@);
        Namespace::from_refs(rs)
    }
}

impl TypeId {
    /// Compacts the description according to its kind. A primitive type
    /// stays as it is and leaves the registry alone.
    pub fn compact(&self, registry: &mut Registry) -> (compact: CompactTypeId)
        ensures
            (final(registry)@, compact@) == old(registry)@.compact(self@),
            final(registry)@.wf(),
        decreases height(self@), 1nat,
    {
        proof {
            use_type_invariant(&*registry);
        }
        match self {
            TypeId::Custom(custom) => CompactTypeId::Custom(custom.compact(registry)),
            TypeId::Slice(slice) => CompactTypeId::Slice(slice.compact(registry)),
            TypeId::Array(array) => CompactTypeId::Array(array.compact(registry)),
            TypeId::Tuple(tuple) => CompactTypeId::Tuple(tuple.compact(registry)),
            TypeId::Primitive(primitive) => CompactTypeId::Primitive(*primitive),
        }
    }
}

impl TypeIdCustom<&'static str, TypeId> {
    /// Interns the name, then compacts the namespace, then registers the
    /// arguments of the type parameters from first to last.
    pub fn compact(&self, registry: &mut Registry) -> (compact: TypeIdCustom<StringRef, TypeRef>)
        ensures
            (final(registry)@, compact@) == old(registry)@.compact(self@),
            final(registry)@.wf(),
        decreases height(self@), 0nat,
    {
        let name = registry.register_string(self.name());
        let namespace = self.namespace().compact(registry);
        let type_params = registry.register_types(self.type_params());
        TypeIdCustom::from_refs(name, namespace, type_params)
    }
}

impl TypeIdArray<Box<TypeId>> {
    /// Registers the type of the elements and keeps the length.
    pub fn compact(&self, registry: &mut Registry) -> (compact: TypeIdArray<TypeRef>)
        ensures
            (final(registry)@, compact@) == old(registry)@.compact(self@),
            final(registry)@.wf(),
        decreases height(self@), 0nat,
    {
        TypeIdArray { len: self.len, type_param: registry.register_type(&*self.type_param) }
    }
}

impl TypeIdTuple<TypeId> {
    /// Registers the types of the elements from first to last.
    pub fn compact(&self, registry: &mut Registry) -> (compact: TypeIdTuple<TypeRef>)
        ensures
            (final(registry)@, compact@) == old(registry)@.compact(self@),
            final(registry)@.wf(),
        decreases height(self@), 0nat,
    {
        TypeIdTuple { type_params: registry.register_types(&self.type_params) }
    }
}

impl TypeIdSlice<Box<TypeId>> {
    /// Registers the type of the elements.
    pub fn compact(&self, registry: &mut Registry) -> (compact: TypeIdSlice<TypeRef>)
        ensures
            (final(registry)@, compact@) == old(registry)@.compact(self@),
            final(registry)@.wf(),
        decreases height(self@), 0nat,
    {
        TypeIdSlice::from_ref(registry.register_type(self.type_param()))
    }
}

/// What can be compacted: rewritten with a reference into a registry in
/// place of each string and each type that it holds.
pub trait IntoCompact: Sized {
    /// The compacted counterpart.
    type Output;

    /// Compacts `self`, interning in `registry` what it holds. The registry
    /// keeps what it held, at the same indices.
    fn into_compact(self, registry: &mut Registry) -> (compact: Self::Output)
        ensures
            final(registry)@.wf(),
            final(registry)@.extends(old(registry)@),
    ;
}

impl IntoCompact for Namespace<&'static str> {
    type Output = Namespace<StringRef>;

    fn into_compact(self, registry: &mut Registry) -> (compact: Namespace<StringRef>)
        ensures
            (final(registry)@, compact@) == old(registry)@.intern_all(self@),
    {
        proof {
            use_type_invariant(&*registry);
            old(registry)@.lemma_intern_all(self@);
        }
        self.compact(registry)
    }
}

impl IntoCompact for TypeId {
    type Output = CompactTypeId;

    fn into_compact(self, registry: &mut Registry) -> (compact: CompactTypeId)
        ensures
            (final(registry)@, compact@) == old(registry)@.compact(self@),
    {
        proof {
            use_type_invariant(&*registry);
            old(registry)@.lemma_compact(self@);
        }
        self.compact(registry)
    }
}

impl IntoCompact for TypeIdCustom<&'static str, TypeId> {
    type Output = TypeIdCustom<StringRef, TypeRef>;

    fn into_compact(self, registry: &mut Registry) -> (compact: TypeIdCustom<StringRef, TypeRef>)
        ensures
            (final(registry)@, compact@) == old(registry)@.compact(self@),
    {
        proof {
            use_type_invariant(&*registry);
            old(registry)@.lemma_compact(self@);
        }
        self.compact(registry)
    }
}

impl IntoCompact for TypeIdArray<Box<TypeId>> {
    type Output = TypeIdArray<TypeRef>;

    fn into_compact(self, registry: &mut Registry) -> (compact: TypeIdArray<TypeRef>)
        ensures
            (final(registry)@, compact@) == old(registry)@.compact(self@),
    {
        proof {
            use_type_invariant(&*registry);
            old(registry)@.lemma_compact(self@);
        }
        self.compact(registry)
    }
}

impl IntoCompact for TypeIdTuple<TypeId> {
    type Output = TypeIdTuple<TypeRef>;

    fn into_compact(self, registry: &mut Registry) -> (compact: TypeIdTuple<TypeRef>)
        ensures
            (final(registry)@, compact@) == old(registry)@.compact(self@),
    {
        proof {
            use_type_invariant(&*registry);
            old(registry)@.lemma_compact(self@);
        }
        self.compact(registry)
    }
}

impl IntoCompact for TypeIdSlice<Box<TypeId>> {
    type Output = TypeIdSlice<TypeRef>;

    fn into_compact(self, registry: &mut Registry) -> (compact: TypeIdSlice<TypeRef>)
        ensures
            (final(registry)@, compact@) == old(registry)@.compact(self@),
    {
        proof {
            use_type_invariant(&*registry);
            old(registry)@.lemma_compact(self@);
        }
        self.compact(registry)
    }
}

} // verus!
