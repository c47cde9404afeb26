use type_metadata::{
    CompactTypeId, IntoCompact, Namespace, Registry, StringRef, TypeId, TypeIdArray,
    TypeIdCustom, TypeIdPrimitive, TypeIdSlice, TypeIdTuple, TypeRef,
};

fn u8_id() -> TypeId {
    TypeId::Primitive(TypeIdPrimitive::U8)
}

fn bool_id() -> TypeId {
    TypeId::Primitive(TypeIdPrimitive::Bool)
}

fn foo() -> TypeIdCustom {
    TypeIdCustom::new("Foo", Namespace::prelude(), vec![])
}

fn string_refs(indices: &[usize]) -> Vec<StringRef> {
    indices.iter().map(|&index| StringRef { index }).collect()
}

fn type_refs(indices: &[usize]) -> Vec<TypeRef> {
    indices.iter().map(|&index| TypeRef { index }).collect()
}

#[test]
fn new_registry_is_empty() {
    let registry = Registry::new();
    assert!(registry.strings().is_empty());
    assert!(registry.types().is_empty());
    assert!(Registry::default().strings().is_empty());
    assert_eq!(registry.resolve_string(StringRef { index: 0 }), None);
    assert_eq!(registry.resolve_type(TypeRef { index: 0 }), None);
}

#[test]
fn strings_are_interned_once() {
    let mut registry = Registry::new();
    let a = registry.register_string("alpha");
    let b = registry.register_string("beta");
    let owned = String::from("alpha");
    let leaked: &'static str = Box::leak(owned.into_boxed_str());
    let again = registry.register_string(leaked);
    assert_eq!(a, StringRef { index: 0 });
    assert_eq!(b, StringRef { index: 1 });
    assert_eq!(again, a);
    assert_eq!(registry.strings(), &vec!["alpha", "beta"]);
    assert_eq!(registry.resolve_string(a), Some("alpha"));
    assert_eq!(registry.resolve_string(b), Some("beta"));
    assert_eq!(registry.resolve_string(StringRef { index: 2 }), None);
}

#[test]
fn namespace_compacts_segment_by_segment() {
    let mut registry = Registry::new();
    registry.register_string("b");
    let namespace = Namespace::new(vec!["a", "b", "a", "c"]).unwrap();
    let compact = namespace.into_compact(&mut registry);
    assert_eq!(compact.segments(), &string_refs(&[1, 0, 1, 2]));
    assert_eq!(registry.strings(), &vec!["b", "a", "c"]);
}

#[test]
fn prelude_compacts_to_no_references() {
    let mut registry = Registry::new();
    let compact = Namespace::prelude().into_compact(&mut registry);
    assert!(compact.segments().is_empty());
    assert!(registry.strings().is_empty());
}

#[test]
fn primitive_leaves_the_registry_alone() {
    let mut registry = Registry::new();
    let compact = u8_id().into_compact(&mut registry);
    assert_eq!(compact, CompactTypeId::Primitive(TypeIdPrimitive::U8));
    assert!(registry.strings().is_empty());
    assert!(registry.types().is_empty());
}

#[test]
fn types_are_registered_once() {
    let mut registry = Registry::new();
    let a = registry.register_type(&u8_id());
    let b = registry.register_type(&bool_id());
    let again = registry.register_type(&TypeId::Primitive(TypeIdPrimitive::U8));
    assert_eq!(a, TypeRef { index: 0 });
    assert_eq!(b, TypeRef { index: 1 });
    assert_eq!(again, a);
    assert_eq!(
        registry.types(),
        &vec![
            CompactTypeId::Primitive(TypeIdPrimitive::U8),
            CompactTypeId::Primitive(TypeIdPrimitive::Bool),
        ]
    );
    assert_eq!(
        registry.resolve_type(b),
        Some(&CompactTypeId::Primitive(TypeIdPrimitive::Bool))
    );
    assert_eq!(registry.resolve_type(TypeRef { index: 2 }), None);
    assert_eq!(registry.describe(a), Some(&u8_id()));
    assert_eq!(registry.describe(b), Some(&bool_id()));
    assert_eq!(registry.describe(TypeRef { index: 2 }), None);
}

#[test]
fn equal_descriptions_compact_to_equal_references() {
    let mut registry = Registry::new();
    let first = TypeId::Custom(foo()).into_compact(&mut registry);
    let strings = registry.strings().clone();
    let second = TypeId::Custom(TypeIdCustom::new("Foo", Namespace::prelude(), vec![]))
        .into_compact(&mut registry);
    assert_eq!(first, second);
    assert_eq!(registry.strings(), &strings);
    assert_eq!(registry.strings(), &vec!["Foo"]);
    assert!(registry.types().is_empty());
}

#[test]
fn equal_descriptions_register_to_one_entry() {
    let mut registry = Registry::new();
    let first = registry.register_type(&TypeId::Custom(foo()));
    let other = registry.register_type(&TypeId::Tuple(TypeIdTuple::unit()));
    let second = registry.register_type(&TypeId::Custom(TypeIdCustom::new(
        "Foo",
        Namespace::prelude(),
        vec![],
    )));
    assert_eq!(first, second);
    assert_ne!(first, other);
    assert_eq!(registry.types().len(), 2);
}

#[test]
fn tuple_registers_its_elements_in_order() {
    let mut registry = Registry::new();
    let tuple = TypeIdTuple::new(vec![bool_id(), u8_id(), bool_id()]);
    let compact = tuple.into_compact(&mut registry);
    assert_eq!(compact.type_params, type_refs(&[0, 1, 0]));
    assert_eq!(
        registry.types(),
        &vec![
            CompactTypeId::Primitive(TypeIdPrimitive::Bool),
            CompactTypeId::Primitive(TypeIdPrimitive::U8),
        ]
    );
}

#[test]
fn unit_compacts_to_the_empty_tuple() {
    let mut registry = Registry::new();
    let compact = TypeIdTuple::unit().into_compact(&mut registry);
    assert!(compact.type_params.is_empty());
    assert!(registry.types().is_empty());
}

#[test]
fn array_keeps_its_length() {
    let mut registry = Registry::new();
    registry.register_type(&bool_id());
    let compact = TypeIdArray::new(32, u8_id()).into_compact(&mut registry);
    assert_eq!(compact.len, 32);
    assert_eq!(compact.type_param, TypeRef { index: 1 });
    let again = TypeIdArray::new(5, bool_id()).into_compact(&mut registry);
    assert_eq!(again.len, 5);
    assert_eq!(again.type_param, TypeRef { index: 0 });
}

#[test]
fn slice_registers_its_element() {
    let mut registry = Registry::new();
    let compact = TypeIdSlice::new(u8_id()).into_compact(&mut registry);
    assert_eq!(compact.type_param(), TypeRef { index: 0 });
    assert_eq!(registry.types().len(), 1);
}

#[test]
fn custom_interns_name_then_namespace_then_params() {
    let mut registry = Registry::new();
    let custom = TypeIdCustom::new(
        "Pair",
        Namespace::new(vec!["krate", "Pair"]).unwrap(),
        vec![u8_id(), TypeId::Tuple(TypeIdTuple::new(vec![u8_id(), bool_id()]))],
    );
    let compact = custom.into_compact(&mut registry);
    assert_eq!(compact.name(), StringRef { index: 0 });
    assert_eq!(compact.namespace().segments(), &string_refs(&[1, 0]));
    assert_eq!(compact.type_params(), &type_refs(&[0, 2]));
    assert_eq!(registry.strings(), &vec!["Pair", "krate"]);
    assert_eq!(
        registry.types(),
        &vec![
            CompactTypeId::Primitive(TypeIdPrimitive::U8),
            CompactTypeId::Primitive(TypeIdPrimitive::Bool),
            CompactTypeId::Tuple(TypeIdTuple { type_params: type_refs(&[0, 1]) }),
        ]
    );
}

#[test]
fn nested_types_are_registered_before_what_holds_them() {
    let mut registry = Registry::new();
    let inner = TypeId::Slice(TypeIdSlice::new(u8_id()));
    let outer = TypeId::Array(TypeIdArray::new(3, inner));
    let r = registry.register_type(&outer);
    assert_eq!(r, TypeRef { index: 2 });
    assert_eq!(
        registry.types(),
        &vec![
            CompactTypeId::Primitive(TypeIdPrimitive::U8),
            CompactTypeId::Slice(TypeIdSlice::from_ref(TypeRef { index: 0 })),
            CompactTypeId::Array(TypeIdArray { len: 3, type_param: TypeRef { index: 1 } }),
        ]
    );
}

#[test]
fn compaction_keeps_kind_and_size() {
    let mut registry = Registry::new();
    let params = vec![u8_id(), bool_id(), u8_id()];
    let custom = TypeId::Custom(TypeIdCustom::new(
        "Foo",
        Namespace::new(vec!["a", "b"]).unwrap(),
        params,
    ));
    match custom.into_compact(&mut registry) {
        CompactTypeId::Custom(compact) => {
            assert_eq!(compact.namespace().segments().len(), 2);
            assert_eq!(compact.type_params().len(), 3);
        }
        _ => panic!("a custom type compacts to a custom type"),
    }
    let slice = TypeId::Slice(TypeIdSlice::new(u8_id()));
    assert!(matches!(slice.into_compact(&mut registry), CompactTypeId::Slice(_)));
    match TypeId::Array(TypeIdArray::new(9, u8_id())).into_compact(&mut registry) {
        CompactTypeId::Array(compact) => assert_eq!(compact.len, 9),
        _ => panic!("an array compacts to an array"),
    }
    match TypeId::Tuple(TypeIdTuple::new(vec![u8_id(), u8_id()])).into_compact(&mut registry) {
        CompactTypeId::Tuple(compact) => assert_eq!(compact.type_params.len(), 2),
        _ => panic!("a tuple compacts to a tuple"),
    }
    assert!(matches!(
        bool_id().into_compact(&mut registry),
        CompactTypeId::Primitive(TypeIdPrimitive::Bool)
    ));
}

#[test]
fn references_stay_valid_as_the_registry_grows() {
    let mut registry = Registry::new();
    let early = TypeId::Custom(foo()).into_compact(&mut registry);
    let foo_ref = registry.register_type(&TypeId::Custom(foo()));
    registry.register_string("other");
    registry.register_type(&TypeId::Slice(TypeIdSlice::new(TypeId::Custom(foo()))));
    let late = TypeId::Custom(foo()).into_compact(&mut registry);
    assert_eq!(early, late);
    assert_eq!(registry.register_type(&TypeId::Custom(foo())), foo_ref);
    assert_eq!(registry.resolve_type(foo_ref), Some(&early));
    assert_eq!(registry.describe(foo_ref), Some(&TypeId::Custom(foo())));
}

#[test]
fn compaction_through_the_trait() {
    fn compact_with<T: IntoCompact>(value: T, registry: &mut Registry) -> T::Output {
        IntoCompact::into_compact(value, registry)
    }
    let mut registry = Registry::new();
    let namespace = compact_with(Namespace::new(vec!["a", "b"]).unwrap(), &mut registry);
    assert_eq!(namespace.segments(), &string_refs(&[0, 1]));
    let tuple = compact_with(TypeIdTuple::new(vec![u8_id()]), &mut registry);
    assert_eq!(tuple.type_params, type_refs(&[0]));
    let id = compact_with(TypeId::Tuple(TypeIdTuple::new(vec![u8_id()])), &mut registry);
    assert_eq!(id, CompactTypeId::Tuple(tuple.clone()));
    let custom = compact_with(foo(), &mut registry);
    assert_eq!(custom.name(), StringRef { index: 2 });
    let array = compact_with(TypeIdArray::new(2, u8_id()), &mut registry);
    assert_eq!(array.type_param, TypeRef { index: 0 });
    let slice = compact_with(TypeIdSlice::new(bool_id()), &mut registry);
    assert_eq!(slice.type_param(), TypeRef { index: 1 });
}

#[test]
fn compacted_descriptions_convert_into_compact_type_ids() {
    let tuple = TypeIdTuple { type_params: type_refs(&[1, 0]) };
    assert_eq!(CompactTypeId::from(tuple.clone()), CompactTypeId::Tuple(tuple));
    let array = TypeIdArray { len: 4, type_param: TypeRef { index: 3 } };
    assert_eq!(CompactTypeId::from(array.clone()), CompactTypeId::Array(array));
    let slice = TypeIdSlice::from_ref(TypeRef { index: 2 });
    assert_eq!(CompactTypeId::from(slice.clone()), CompactTypeId::Slice(slice));
    let custom = TypeIdCustom::from_refs(
        StringRef { index: 0 },
        Namespace::from_refs(string_refs(&[1, 2])),
        type_refs(&[5]),
    );
    assert_eq!(CompactTypeId::from(custom.clone()), CompactTypeId::Custom(custom));
    assert_eq!(
        CompactTypeId::from(TypeIdPrimitive::Char),
        CompactTypeId::Primitive(TypeIdPrimitive::Char)
    );
}

#[test]
fn compacted_descriptions_compare_and_copy() {
    let mut registry = Registry::new();
    let a = TypeId::Tuple(TypeIdTuple::new(vec![u8_id(), bool_id()])).into_compact(&mut registry);
    let b = TypeId::Tuple(TypeIdTuple::new(vec![bool_id(), u8_id()])).into_compact(&mut registry);
    assert_ne!(a, b);
    assert_eq!(a.clone(), a);
    let custom = TypeId::Custom(TypeIdCustom::new(
        "Foo",
        Namespace::new(vec!["a"]).unwrap(),
        vec![u8_id()],
    ))
    .into_compact(&mut registry);
    assert_eq!(custom.clone(), custom);
    assert_ne!(custom, a);
}

#[test]
fn compact_reads_what_into_compact_takes() {
    let mut registry = Registry::new();
    let id = TypeId::Custom(TypeIdCustom::new(
        "Foo",
        Namespace::new(vec!["a", "b"]).unwrap(),
        vec![TypeId::Slice(TypeIdSlice::new(u8_id()))],
    ));
    let read = id.compact(&mut registry);
    let strings = registry.strings().clone();
    let types = registry.types().clone();
    let taken = id.clone().into_compact(&mut registry);
    assert_eq!(read, taken);
    assert_eq!(registry.strings(), &strings);
    assert_eq!(registry.types(), &types);
    let namespace = Namespace::new(vec!["b", "c"]).unwrap();
    assert_eq!(
        namespace.compact(&mut registry),
        namespace.clone().into_compact(&mut registry)
    );
    assert_eq!(registry.strings(), &vec!["Foo", "a", "b", "c"]);
}
