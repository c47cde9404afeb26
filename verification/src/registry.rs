//! The registry: what interns strings and type descriptions.

use vstd::prelude::*;

use crate::equality::{copy_type, same_type};
use crate::model::RegistryView;
use crate::shape::{height, lemma_max_height, max_height};
use crate::symbol::{StringRef, TypeRef};
use crate::text::same_text;
use crate::type_id::{
    compact_shapes, lemma_shapes, lemma_shapes_push, shapes, CompactTypeId, TypeId,
};

verus! {

/// A registry of interned strings and type descriptions.
///
/// It holds each string and each type once, in the order in which they first
/// came, and hands out its index as the reference to it. With each type it
/// holds the compacted description of the type. A string or a type is looked
/// up by comparing it with those that the registry holds, one after the
/// other.
#[derive(Debug)]
pub struct Registry {
    strings: Vec<&'static str>,
    types: Vec<TypeId>,
    defs: Vec<CompactTypeId>,
}

impl View for Registry {
    type V = RegistryView;

    closed spec fn view(&self) -> RegistryView {
        RegistryView {
            strings: self.strings.deep_view(),
            types: shapes(self.types@),
            defs: compact_shapes(self.defs@),
        }
    }
}

impl Registry {
    /// A registry is well formed at all times.
    #[verifier::type_invariant]
    pub open spec fn well_formed(self) -> bool {
        self@.wf()
    }

    /// Creates a registry that holds nothing.
    pub fn new() -> (registry: Self)
        ensures
            registry@ == RegistryView::empty(),
            registry@.wf(),
    {
        let registry = Registry { strings: Vec::new(), types: Vec::new(), defs: Vec::new() };
        proof {
            assert(registry@.strings =~= Seq::empty());
            assert(registry@.defs =~= Seq::empty());
        }
        registry
    }

    /// The strings, in the order of the references to them.
    pub fn strings(&self) -> (strings: &Vec<&'static str>)
        ensures
            strings.deep_view() == self@.strings,
            self@.wf(),
    {
        proof {
            use_type_invariant(self);
        }
        &self.strings
    }

    /// The compacted descriptions of the types, in the order of the
    /// references to them.
    pub fn types(&self) -> (types: &Vec<CompactTypeId>)
        ensures
            compact_shapes(types@) == self@.defs,
            self@.wf(),
    {
        proof {
            use_type_invariant(self);
        }
        &self.defs
    }

    /// The string that `r` refers to, if `r` refers to one.
    pub fn resolve_string(&self, r: StringRef) -> (string: Option<&'static str>)
        ensures
            match string {
                Some(s) => self@.string_at(r@, s@),
                None => r@ >= self@.strings.len(),
            },
    {
        if r.index < self.strings.len() {
            Some(self.strings[r.index])
        } else {
            None
        }
    }

    /// The compacted description of the type that `r` refers to, if `r`
    /// refers to one.
    pub fn resolve_type(&self, r: TypeRef) -> (ty: Option<&CompactTypeId>)
        ensures
            match ty {
                Some(c) => r@ < self@.types.len() && c@ == self@.defs[r@ as int]
                    && self@.describes(c@, self@.types[r@ as int]),
                None => r@ >= self@.types.len(),
            },
    {
        proof {
            use_type_invariant(self);
        }
        if r.index < self.defs.len() {
            Some(&self.defs[r.index])
        } else {
            None
        }
    }

    /// The description of the type that `r` refers to, as it was registered,
    /// if `r` refers to one.
    pub fn describe(&self, r: TypeRef) -> (ty: Option<&TypeId>)
        ensures
            match ty {
                Some(t) => self@.type_at(r@, t@),
                None => r@ >= self@.types.len(),
            },
    {
        proof {
            lemma_shapes(self.types@);
        }
        if r.index < self.types.len() {
            Some(&self.types[r.index])
        } else {
            None
        }
    }

    /// The index of `string` among the strings, if it is there.
    fn find_string(&self, string: &str) -> (found: Option<usize>)
        ensures
            match found {
                Some(i) => self@.string_at(i as nat, string@),
                None => !self@.strings.contains(string@),
            },
    {
        let n = self.strings.len();
        let mut i: usize = 0;
        while i < n
            invariant
                i <= n,
                n == self.strings@.len(),
                forall|j: int| 0 <= j < i ==> self@.strings[j] != string@,
            decreases n - i,
        {
            if same_text(self.strings[i], string) {
                return Some(i);
            }
            i += 1;
        }
        None
    }

    /// The index of `ty` among the types, if it is there.
    fn find_type(&self, ty: &TypeId) -> (found: Option<usize>)
        ensures
            match found {
                Some(i) => self@.type_at(i as nat, ty@),
                None => !self@.types.contains(ty@),
            },
    {
        proof {
            lemma_shapes(self.types@);
        }
        let n = self.types.len();
        let mut i: usize = 0;
        while i < n
            invariant
                i <= n,
                n == self.types@.len(),
                n == self@.types.len(),
                forall|j: int| 0 <= j < n ==> self@.types[j] == #[trigger] self.types@[j]@,
                forall|j: int| 0 <= j < i ==> self@.types[j] != ty@,
            decreases n - i,
        {
            if same_type(&self.types[i], ty) {
                return Some(i);
            }
            i += 1;
        }
        None
    }

    /// Interns `string` and gives the reference to it.
    ///
    /// A string that was interned before keeps the reference it got then,
    /// whatever value it came in; another one gets the next index.
    pub fn register_string(&mut self, string: &'static str) -> (r: StringRef)
        ensures
            (final(self)@, r@) == old(self)@.intern(string@),
            final(self)@.wf(),
    {
        proof {
            use_type_invariant(&*self);
            old(self)@.lemma_intern(string@);
        }
        match self.find_string(string) {
            Some(index) => StringRef { index },
            None => {
                // The vectors leave the registry while they grow, so that it
                // is well formed at every point.
                let mut taken = Registry::new();
                std::mem::swap(self, &mut taken);
                let Registry { mut strings, types, defs } = taken;
                let index = strings.len();
                strings.push(string);
                assert(strings.deep_view() =~= old(self)@.strings.push(string@));
                *self = Registry { strings, types, defs };
                StringRef { index }
            },
        }
    }

    /// Registers the type that `ty` describes and gives the reference to it.
    ///
    /// A type that was registered before keeps the reference it got then,
    /// whatever description it came in. Another one is compacted, which
    /// registers the types and interns the strings that it holds, and then
    /// gets the next index.
    pub fn register_type(&mut self, ty: &TypeId) -> (r: TypeRef)
        ensures
            (final(self)@, r@) == old(self)@.register(ty@),
            final(self)@.wf(),
        decreases height(ty@), 2nat,
    {
        proof {
            use_type_invariant(&*self);
            old(self)@.lemma_register(ty@);
        }
        match self.find_type(ty) {
            Some(index) => TypeRef { index },
            None => {
                let compact = ty.compact(self);
                let ghost before = self@;
                let copy = copy_type(ty);
                // As in `register_string`: both vectors grow outside the
                // registry.
                let mut taken = Registry::new();
                std::mem::swap(self, &mut taken);
                let Registry { strings, mut types, mut defs } = taken;
                let index = types.len();
                proof {
                    lemma_shapes(types@);
                    lemma_shapes_push(types@, copy);
                }
                types.push(copy);
                defs.push(compact);
                assert(compact_shapes(defs@) =~= before.defs.push(compact@));
                *self = Registry { strings, types, defs };
                TypeRef { index }
            },
        }
    }

    /// Registers the types that `types` describe, from first to last, and
    /// gives the references to them in the same order.
    pub fn register_types(&mut self, types: &Vec<TypeId>) -> (rs: Vec<TypeRef>)
        ensures
            (final(self)@, rs.deep_view()) == old(self)@.register_all(shapes(types@)),
            final(self)@.wf(),
        decreases max_height(shapes(types@)), 3nat,
    {
        proof {
            use_type_invariant(&*self);
            lemma_shapes(types@);
        }
        let n = types.len();
        let mut rs: Vec<TypeRef> = Vec::new();
        let mut i: usize = 0;
        while i < n
            invariant
                i <= n,
                n == types@.len(),
                n == shapes(types@).len(),
                self@.wf(),
                (self@, rs.deep_view()) == old(self)@.register_all(shapes(types@).take(i as int)),
            decreases n - i,
        {
            proof {
                lemma_shapes(types@);
                lemma_max_height(shapes(types@), i as int);
                assert(shapes(types@).take(i + 1).drop_last() =~= shapes(types@).take(i as int));
            }
            let r = self.register_type(&types[i]);
            rs.push(r);
            i += 1;
        }
        assert(shapes(types@).take(n as int) =~= shapes(types@));
        rs
    }
}

impl Default for Registry {
    fn default() -> (registry: Self)
        ensures
            registry@ == RegistryView::empty(),
            registry@.wf(),
    {
        Registry::new()
    }
}

} // verus!
