//! The mathematical model of a registry, and of what compaction does to it.

use vstd::prelude::*;

use crate::shape::{height, max_height, CompactShape, Shape};

verus! {

/// What a registry holds: the strings it has interned, the types it has
/// interned, and the compacted description of each of these types, each in
/// the order in which it came. A reference is an index into one of the first
/// two.
pub struct RegistryView {
    pub strings: Seq<Seq<char>>,
    pub types: Seq<Shape>,
    pub defs: Seq<CompactShape>,
}

/// Whether `later` begins with `earlier`.
pub open spec fn begins_with<A>(later: Seq<A>, earlier: Seq<A>) -> bool {
    &&& earlier.len() <= later.len()
    &&& forall|i: int| 0 <= i < earlier.len() ==> #[trigger] later[i] == earlier[i]
}

/// Whether every reference to a type that `c` holds is below `bound`.
pub open spec fn refers_below(c: CompactShape, bound: nat) -> bool {
    match c {
        CompactShape::Custom { params, .. } => forall|i: int|
            0 <= i < params.len() ==> #[trigger] params[i] < bound,
        CompactShape::Slice { element } => element < bound,
        CompactShape::Array { element, .. } => element < bound,
        CompactShape::Tuple { elements } => forall|i: int|
            0 <= i < elements.len() ==> #[trigger] elements[i] < bound,
        CompactShape::Primitive(_) => true,
    }
}

impl RegistryView {
    /// The registry that holds nothing.
    pub open spec fn empty() -> RegistryView {
        RegistryView { strings: Seq::empty(), types: Seq::empty(), defs: Seq::empty() }
    }

    /// Whether `r` refers to the string `s`.
    pub open spec fn string_at(self, r: nat, s: Seq<char>) -> bool {
        r < self.strings.len() && self.strings[r as int] == s
    }

    /// Whether `r` refers to the type `t`.
    pub open spec fn type_at(self, r: nat, t: Shape) -> bool {
        r < self.types.len() && self.types[r as int] == t
    }

    /// Whether `rs` refer to the strings `ss`, one by one and in order.
    pub open spec fn strings_at(self, rs: Seq<nat>, ss: Seq<Seq<char>>) -> bool {
        &&& rs.len() == ss.len()
        &&& forall|i: int| 0 <= i < rs.len() ==> #[trigger] self.string_at(rs[i], ss[i])
    }

    /// Whether `rs` refer to the types `ts`, one by one and in order.
    pub open spec fn types_at(self, rs: Seq<nat>, ts: Seq<Shape>) -> bool {
        &&& rs.len() == ts.len()
        &&& forall|i: int| 0 <= i < rs.len() ==> #[trigger] self.type_at(rs[i], ts[i])
    }

    /// Whether `c` is `t` compacted: it is of the same kind, of the same
    /// size, and holds a reference to each string and to each type that `t`
    /// holds, in the same place.
    pub open spec fn describes(self, c: CompactShape, t: Shape) -> bool {
        match (c, t) {
            (
                CompactShape::Custom { name: n, namespace: ns, params: ps },
                Shape::Custom { name, namespace, params },
            ) => self.string_at(n, name) && self.strings_at(ns, namespace) && self.types_at(
                ps,
                params,
            ),
            (CompactShape::Slice { element: e }, Shape::Slice { element }) => self.type_at(
                e,
                *element,
            ),
            (
                CompactShape::Array { len: l, element: e },
                Shape::Array { len, element },
            ) => l == len && self.type_at(e, *element),
            (CompactShape::Tuple { elements: es }, Shape::Tuple { elements }) => self.types_at(
                es,
                elements,
            ),
            (CompactShape::Primitive(p), Shape::Primitive(primitive)) => p == primitive,
            _ => false,
        }
    }

    /// Whether the registry is well formed: no string and no type occurs
    /// twice, and each type has its compacted description, which refers to
    /// types that came before it only.
    pub open spec fn wf(self) -> bool {
        &&& self.strings.no_duplicates()
        &&& self.types.no_duplicates()
        &&& self.defs.len() == self.types.len()
        &&& forall|i: int|
            0 <= i < self.types.len() ==> #[trigger] self.describes(self.defs[i], self.types[i])
        &&& forall|i: int|
            0 <= i < self.defs.len() ==> refers_below(#[trigger] self.defs[i], i as nat)
    }

    /// Whether the registry holds all that `earlier` holds, at the same
    /// indices: every reference into `earlier` refers to the same thing here.
    pub open spec fn extends(self, earlier: RegistryView) -> bool {
        &&& begins_with(self.strings, earlier.strings)
        &&& begins_with(self.types, earlier.types)
        &&& begins_with(self.defs, earlier.defs)
    }

    /// Whether every type that the registry holds and `earlier` does not is
    /// lower than `bound`.
    pub open spec fn adds_below(self, earlier: RegistryView, bound: nat) -> bool {
        forall|i: int|
            earlier.types.len() <= i < self.types.len() ==> height(#[trigger] self.types[i])
                < bound
    }

    /// Interning the string `s`: the registry afterwards, and the reference
    /// to `s`. A string that the registry holds keeps its reference; another
    /// one is added behind the others.
    pub open spec fn intern(self, s: Seq<char>) -> (RegistryView, nat) {
        if self.strings.contains(s) {
            (self, self.strings.index_of(s) as nat)
        } else {
            (RegistryView { strings: self.strings.push(s), ..self }, self.strings.len())
        }
    }

    /// Interning the strings `ss` from first to last: the registry
    /// afterwards, and the references to them in the same order.
    pub open spec fn intern_all(self, ss: Seq<Seq<char>>) -> (RegistryView, Seq<nat>)
        decreases ss.len(),
    {
        if ss.len() == 0 {
            (self, Seq::empty())
        } else {
            let (before, rs) = self.intern_all(ss.drop_last());
            let (after, r) = before.intern(ss.last());
            (after, rs.push(r))
        }
    }

    /// Registering the type `t`: the registry afterwards, and the reference
    /// to `t`. A type that the registry holds keeps its reference. Another one
    /// is compacted, which registers what it holds, and is then added behind
    /// the others together with its compacted description.
    pub open spec fn register(self, t: Shape) -> (RegistryView, nat)
        decreases height(t), 2nat, 0nat,
    {
        if self.types.contains(t) {
            (self, self.types.index_of(t) as nat)
        } else {
            let (before, c) = self.compact(t);
            (
                RegistryView {
                    types: before.types.push(t),
                    defs: before.defs.push(c),
                    ..before
                },
                before.types.len(),
            )
        }
    }

    /// Registering the types `ts` from first to last: the registry
    /// afterwards, and the references to them in the same order.
    pub open spec fn register_all(self, ts: Seq<Shape>) -> (RegistryView, Seq<nat>)
        decreases max_height(ts), 3nat, ts.len(),
    {
        if ts.len() == 0 {
            (self, Seq::empty())
        } else {
            let (before, rs) = self.register_all(ts.drop_last());
            let (after, r) = before.register(ts.last());
            (after, rs.push(r))
        }
    }

    /// Compacting the type `t`: the registry afterwards, and the compacted
    /// description of `t`.
    ///
    /// A primitive type leaves the registry as it is. A custom type interns
    /// its name, then the segments of its namespace, then registers the
    /// arguments of its type parameters. The others register the types of
    /// their elements.
    pub open spec fn compact(self, t: Shape) -> (RegistryView, CompactShape)
        decreases height(t), 1nat, 0nat,
    {
        match t {
            Shape::Custom { name, namespace, params } => {
                let (named, n) = self.intern(name);
                let (placed, ns) = named.intern_all(namespace);
                let (after, ps) = placed.register_all(params);
                (after, CompactShape::Custom { name: n, namespace: ns, params: ps })
            },
            Shape::Slice { element } => {
                let (after, e) = self.register(*element);
                (after, CompactShape::Slice { element: e })
            },
            Shape::Array { len, element } => {
                let (after, e) = self.register(*element);
                (after, CompactShape::Array { len, element: e })
            },
            Shape::Tuple { elements } => {
                let (after, es) = self.register_all(elements);
                (after, CompactShape::Tuple { elements: es })
            },
            Shape::Primitive(primitive) => (self, CompactShape::Primitive(primitive)),
        }
    }
}

impl RegistryView {
    /// What a reference refers to in a registry, it refers to in every
    /// registry that extends it; so a compacted description stays one.
    pub proof fn lemma_stable(self, earlier: RegistryView)
        requires
            self.extends(earlier),
        ensures
            forall|r: nat, s: Seq<char>| #[trigger]
                earlier.string_at(r, s) ==> self.string_at(r, s),
            forall|r: nat, t: Shape| #[trigger] earlier.type_at(r, t) ==> self.type_at(r, t),
            forall|rs: Seq<nat>, ss: Seq<Seq<char>>| #[trigger]
                earlier.strings_at(rs, ss) ==> self.strings_at(rs, ss),
            forall|rs: Seq<nat>, ts: Seq<Shape>| #[trigger]
                earlier.types_at(rs, ts) ==> self.types_at(rs, ts),
            forall|c: CompactShape, t: Shape| #[trigger]
                earlier.describes(c, t) ==> self.describes(c, t),
    {
        assert forall|rs: Seq<nat>, ss: Seq<Seq<char>>| #[trigger]
            earlier.strings_at(rs, ss) implies self.strings_at(rs, ss) by {
            assert forall|i: int| 0 <= i < rs.len() implies #[trigger] self.string_at(
                rs[i],
                ss[i],
            ) by {
                assert(earlier.string_at(rs[i], ss[i]));
            }
        }
        assert forall|rs: Seq<nat>, ts: Seq<Shape>| #[trigger]
            earlier.types_at(rs, ts) implies self.types_at(rs, ts) by {
            assert forall|i: int| 0 <= i < rs.len() implies #[trigger] self.type_at(
                rs[i],
                ts[i],
            ) by {
                assert(earlier.type_at(rs[i], ts[i]));
            }
        }
    }

    /// A compacted description refers to types that the registry holds.
    pub proof fn lemma_describes_below(self, c: CompactShape, t: Shape)
        requires
            self.describes(c, t),
        ensures
            refers_below(c, self.types.len()),
    {
        match t {
            Shape::Custom { name, namespace, params } => {
                assert forall|i: int| 0 <= i < c->params.len() implies #[trigger] c->params[i]
                    < self.types.len() by {
                    assert(self.type_at(c->params[i], params[i]));
                }
            },
            Shape::Tuple { elements } => {
                assert forall|i: int|
                    0 <= i < c->Tuple_elements.len() implies #[trigger] c->Tuple_elements[i]
                    < self.types.len() by {
                    assert(self.type_at(c->Tuple_elements[i], elements[i]));
                }
            },
            _ => {},
        }
    }

    /// Interning a string keeps the registry well formed and what it held,
    /// and gives a reference to the string.
    pub proof fn lemma_intern(self, s: Seq<char>)
        requires
            self.wf(),
        ensures
            self.intern(s).0.wf(),
            self.intern(s).0.extends(self),
            self.intern(s).0.string_at(self.intern(s).1, s),
            self.intern(s).0.types == self.types,
            self.intern(s).0.defs == self.defs,
    {
        let after = self.intern(s).0;
        after.lemma_stable(self);
        assert forall|i: int| 0 <= i < after.types.len() implies #[trigger] after.describes(
            after.defs[i],
            after.types[i],
        ) by {
            assert(self.describes(self.defs[i], self.types[i]));
        }
    }

    /// Interning strings keeps the registry well formed and what it held,
    /// and gives a reference to each string.
    pub proof fn lemma_intern_all(self, ss: Seq<Seq<char>>)
        requires
            self.wf(),
        ensures
            self.intern_all(ss).0.wf(),
            self.intern_all(ss).0.extends(self),
            self.intern_all(ss).0.strings_at(self.intern_all(ss).1, ss),
            self.intern_all(ss).0.types == self.types,
            self.intern_all(ss).0.defs == self.defs,
        decreases ss.len(),
    {
        if ss.len() > 0 {
            let (before, rs) = self.intern_all(ss.drop_last());
            let (after, r) = before.intern(ss.last());
            self.lemma_intern_all(ss.drop_last());
            before.lemma_intern(ss.last());
            assert forall|i: int| 0 <= i < ss.len() implies #[trigger] after.string_at(
                rs.push(r)[i],
                ss[i],
            ) by {
                if i < ss.len() - 1 {
                    assert(before.string_at(rs[i], ss.drop_last()[i]));
                }
            }
        }
    }

    /// Registering a type keeps the registry well formed and what it held,
    /// gives a reference to the type, and adds no type that is higher than
    /// it.
    pub proof fn lemma_register(self, t: Shape)
        requires
            self.wf(),
        ensures
            self.register(t).0.wf(),
            self.register(t).0.extends(self),
            self.register(t).0.type_at(self.register(t).1, t),
            self.register(t).0.adds_below(self, height(t) + 1),
        decreases height(t), 2nat, 0nat,
    {
        if !self.types.contains(t) {
            let (before, c) = self.compact(t);
            let after = self.register(t).0;
            self.lemma_compact(t);
            after.lemma_stable(before);
            before.lemma_describes_below(c, t);
            assert forall|i: int| 0 <= i < after.types.len() implies #[trigger] after.describes(
                after.defs[i],
                after.types[i],
            ) by {
                if i < before.types.len() {
                    assert(before.describes(before.defs[i], before.types[i]));
                }
            }
        }
    }

    /// Registering types keeps the registry well formed and what it held,
    /// gives a reference to each type, and adds no type that is higher than
    /// the highest of them.
    pub proof fn lemma_register_all(self, ts: Seq<Shape>)
        requires
            self.wf(),
        ensures
            self.register_all(ts).0.wf(),
            self.register_all(ts).0.extends(self),
            self.register_all(ts).0.types_at(self.register_all(ts).1, ts),
            self.register_all(ts).0.adds_below(self, max_height(ts) + 1),
        decreases max_height(ts), 3nat, ts.len(),
    {
        if ts.len() > 0 {
            let (before, rs) = self.register_all(ts.drop_last());
            let (after, r) = before.register(ts.last());
            self.lemma_register_all(ts.drop_last());
            before.lemma_register(ts.last());
            assert forall|i: int| 0 <= i < ts.len() implies #[trigger] after.type_at(
                rs.push(r)[i],
                ts[i],
            ) by {
                if i < ts.len() - 1 {
                    assert(before.type_at(rs[i], ts.drop_last()[i]));
                }
            }
        }
    }

    /// Compacting a type keeps the registry well formed and what it held,
    /// gives a compacted description of the type, and adds only types that
    /// are lower than it.
    pub proof fn lemma_compact(self, t: Shape)
        requires
            self.wf(),
        ensures
            self.compact(t).0.wf(),
            self.compact(t).0.extends(self),
            self.compact(t).0.describes(self.compact(t).1, t),
            self.compact(t).0.adds_below(self, height(t)),
        decreases height(t), 1nat, 0nat,
    {
        match t {
            Shape::Custom { name, namespace, params } => {
                let (named, n) = self.intern(name);
                let (placed, ns) = named.intern_all(namespace);
                let (after, ps) = placed.register_all(params);
                self.lemma_intern(name);
                named.lemma_intern_all(namespace);
                placed.lemma_register_all(params);
                after.lemma_stable(placed);
            },
            Shape::Slice { element } => {
                self.lemma_register(*element);
            },
            Shape::Array { len, element } => {
                self.lemma_register(*element);
            },
            Shape::Tuple { elements } => {
                self.lemma_register_all(elements);
            },
            Shape::Primitive(primitive) => {},
        }
    }
}

impl RegistryView {
    /// In a well-formed registry a type has one compacted description only.
    pub proof fn law_one_description(self, c: CompactShape, d: CompactShape, t: Shape)
        requires
            self.wf(),
            self.describes(c, t),
            self.describes(d, t),
        ensures
            c == d,
    {
        match t {
            Shape::Custom { name, namespace, params } => {
                self.lemma_unique_strings(c->namespace, d->namespace, namespace);
                self.lemma_unique_types(c->params, d->params, params);
            },
            Shape::Slice { element } => {},
            Shape::Array { len, element } => {},
            Shape::Tuple { elements } => {
                self.lemma_unique_types(c->Tuple_elements, d->Tuple_elements, elements);
            },
            Shape::Primitive(primitive) => {},
        }
    }

    /// A compacted description describes one type only: nothing of the type
    /// is lost in it.
    pub proof fn law_one_type(self, c: CompactShape, t: Shape, u: Shape)
        requires
            self.describes(c, t),
            self.describes(c, u),
        ensures
            t == u,
    {
        match (t, u) {
            (
                Shape::Custom { name, namespace, params },
                Shape::Custom { name: n, namespace: ns, params: ps },
            ) => {
                assert forall|i: int| 0 <= i < namespace.len() implies namespace[i] == ns[i] by {
                    assert(self.string_at(c->namespace[i], namespace[i]));
                    assert(self.string_at(c->namespace[i], ns[i]));
                }
                assert forall|i: int| 0 <= i < params.len() implies params[i] == ps[i] by {
                    assert(self.type_at(c->params[i], params[i]));
                    assert(self.type_at(c->params[i], ps[i]));
                }
                assert(params =~= ps);
            },
            (Shape::Tuple { elements }, Shape::Tuple { elements: es }) => {
                assert forall|i: int| 0 <= i < elements.len() implies elements[i] == es[i] by {
                    assert(self.type_at(c->Tuple_elements[i], elements[i]));
                    assert(self.type_at(c->Tuple_elements[i], es[i]));
                }
                assert(elements =~= es);
            },
            _ => {},
        }
    }

    /// In a well-formed registry strings have one sequence of references
    /// only.
    pub proof fn lemma_unique_strings(self, rs: Seq<nat>, qs: Seq<nat>, ss: Seq<Seq<char>>)
        requires
            self.wf(),
            self.strings_at(rs, ss),
            self.strings_at(qs, ss),
        ensures
            rs == qs,
    {
        assert forall|i: int| 0 <= i < rs.len() implies rs[i] == qs[i] by {
            assert(self.string_at(rs[i], ss[i]));
            assert(self.string_at(qs[i], ss[i]));
        }
    }

    /// In a well-formed registry types have one sequence of references only.
    pub proof fn lemma_unique_types(self, rs: Seq<nat>, qs: Seq<nat>, ts: Seq<Shape>)
        requires
            self.wf(),
            self.types_at(rs, ts),
            self.types_at(qs, ts),
        ensures
            rs == qs,
    {
        assert forall|i: int| 0 <= i < rs.len() implies rs[i] == qs[i] by {
            assert(self.type_at(rs[i], ts[i]));
            assert(self.type_at(qs[i], ts[i]));
        }
    }

    /// Interning a string that the registry holds changes nothing and gives
    /// the reference that the string has.
    pub proof fn lemma_intern_known(self, r: nat, s: Seq<char>)
        requires
            self.wf(),
            self.string_at(r, s),
        ensures
            self.intern(s) == (self, r),
    {
    }

    /// Interning strings that the registry holds changes nothing and gives
    /// the references that they have.
    pub proof fn lemma_intern_all_known(self, rs: Seq<nat>, ss: Seq<Seq<char>>)
        requires
            self.wf(),
            self.strings_at(rs, ss),
        ensures
            self.intern_all(ss) == (self, rs),
        decreases ss.len(),
    {
        if ss.len() > 0 {
            self.lemma_intern_all_known(rs.drop_last(), ss.drop_last());
            self.lemma_intern_known(rs.last(), ss.last());
        }
    }

    /// Registering a type that the registry holds changes nothing and gives
    /// the reference that the type has.
    pub proof fn lemma_register_known(self, r: nat, t: Shape)
        requires
            self.wf(),
            self.type_at(r, t),
        ensures
            self.register(t) == (self, r),
    {
    }

    /// Registering types that the registry holds changes nothing and gives
    /// the references that they have.
    pub proof fn lemma_register_all_known(self, rs: Seq<nat>, ts: Seq<Shape>)
        requires
            self.wf(),
            self.types_at(rs, ts),
        ensures
            self.register_all(ts) == (self, rs),
        decreases ts.len(),
    {
        if ts.len() > 0 {
            self.lemma_register_all_known(rs.drop_last(), ts.drop_last());
            self.lemma_register_known(rs.last(), ts.last());
        }
    }

    /// Compacting a type of which the registry holds every part changes
    /// nothing and gives the compacted description over the references that
    /// the parts have.
    pub proof fn lemma_compact_known(self, c: CompactShape, t: Shape)
        requires
            self.wf(),
            self.describes(c, t),
        ensures
            self.compact(t) == (self, c),
    {
        match t {
            Shape::Custom { name, namespace, params } => {
                self.lemma_intern_all_known(c->namespace, namespace);
                self.lemma_register_all_known(c->params, params);
            },
            Shape::Tuple { elements } => {
                self.lemma_register_all_known(c->Tuple_elements, elements);
            },
            _ => {},
        }
    }
}

/// Whether `c` has the structure of `t`: the same kind, as many segments and
/// arguments or elements, and the same length.
pub open spec fn same_structure(c: CompactShape, t: Shape) -> bool {
    match (c, t) {
        (
            CompactShape::Custom { namespace: ns, params: ps, .. },
            Shape::Custom { namespace, params, .. },
        ) => ns.len() == namespace.len() && ps.len() == params.len(),
        (CompactShape::Slice { .. }, Shape::Slice { .. }) => true,
        (CompactShape::Array { len: l, .. }, Shape::Array { len, .. }) => l == len,
        (CompactShape::Tuple { elements: es }, Shape::Tuple { elements }) => es.len()
            == elements.len(),
        (CompactShape::Primitive(p), Shape::Primitive(primitive)) => p == primitive,
        _ => false,
    }
}

/// Compaction keeps the structure: the compacted description is of the kind
/// of the type, with as many segments and arguments or elements, and the
/// same length.
pub proof fn law_compaction_keeps_structure(registry: RegistryView, t: Shape)
    requires
        registry.wf(),
    ensures
        same_structure(registry.compact(t).1, t),
{
    registry.lemma_compact(t);
}

/// Compaction gives equal types equal descriptions: once a type has been
/// compacted, to compact it again, at once or after the registry has taken
/// in more, gives the same compacted description and adds nothing.
pub proof fn law_compaction_dedups(registry: RegistryView, t: Shape, later: RegistryView)
    requires
        registry.wf(),
        later.wf(),
        later.extends(registry.compact(t).0),
    ensures
        later.compact(t) == (later, registry.compact(t).1),
{
    registry.lemma_compact(t);
    later.lemma_stable(registry.compact(t).0);
    later.lemma_compact_known(registry.compact(t).1, t);
}

/// Registration gives equal types equal references: once a type has been
/// registered, to register it again, at once or after the registry has taken
/// in more, gives the same reference and adds nothing.
pub proof fn law_registration_dedups(registry: RegistryView, t: Shape, later: RegistryView)
    requires
        registry.wf(),
        later.wf(),
        later.extends(registry.register(t).0),
    ensures
        later.register(t) == (later, registry.register(t).1),
{
    later.lemma_register_known(registry.register(t).1, t);
}

/// Interning gives equal strings equal references: once a string has been
/// interned, to intern it again, at once or after the registry has taken in
/// more, gives the same reference and adds nothing.
pub proof fn law_interning_dedups(registry: RegistryView, s: Seq<char>, later: RegistryView)
    requires
        registry.wf(),
        later.wf(),
        later.extends(registry.intern(s).0),
    ensures
        later.intern(s) == (later, registry.intern(s).1),
{
    later.lemma_intern_known(registry.intern(s).1, s);
}

} // verus!
