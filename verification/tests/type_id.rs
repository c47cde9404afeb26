use type_metadata::{
    HasTypeId, Namespace, TypeId, TypeIdArray, TypeIdCustom, TypeIdPrimitive, TypeIdSlice,
    TypeIdTuple,
};

fn u8_id() -> TypeId {
    TypeId::Primitive(TypeIdPrimitive::U8)
}

fn bool_id() -> TypeId {
    TypeId::Primitive(TypeIdPrimitive::Bool)
}

fn foo(params: Vec<TypeId>) -> TypeIdCustom {
    TypeIdCustom::new("Foo", Namespace::new(vec!["krate", "module"]).unwrap(), params)
}

struct Point;

impl HasTypeId for Point {
    fn type_id() -> TypeId {
        TypeId::Custom(TypeIdCustom::new(
            "Point",
            Namespace::prelude(),
            vec![TypeId::Primitive(TypeIdPrimitive::I32)],
        ))
    }
}

#[test]
fn custom_keeps_its_parts() {
    let custom = foo(vec![u8_id(), bool_id(), u8_id()]);
    assert_eq!(custom.name(), "Foo");
    assert_eq!(custom.namespace().segments(), &vec!["krate", "module"]);
    assert_eq!(custom.type_params(), &vec![u8_id(), bool_id(), u8_id()]);
}

#[test]
fn array_keeps_length_and_element() {
    let array = TypeIdArray::new(32, bool_id());
    assert_eq!(array.len, 32);
    assert_eq!(*array.type_param, bool_id());
    assert_eq!(TypeIdArray::new(u16::MAX, u8_id()).len, 65535);
}

#[test]
fn tuple_keeps_its_elements() {
    let tuple = TypeIdTuple::new(vec![u8_id(), bool_id()]);
    assert_eq!(tuple.type_params, vec![u8_id(), bool_id()]);
}

#[test]
fn unit_is_the_empty_tuple() {
    assert!(TypeIdTuple::unit().type_params.is_empty());
    assert_eq!(TypeIdTuple::unit(), TypeIdTuple::new(vec![]));
}

#[test]
fn slice_keeps_its_element() {
    let slice = TypeIdSlice::new(u8_id());
    assert_eq!(slice.type_param(), &u8_id());
}

#[test]
fn slice_of_a_describable_type() {
    assert_eq!(TypeIdSlice::of::<u8>(), TypeIdSlice::new(u8_id()));
    assert_eq!(TypeIdSlice::of::<bool>(), TypeIdSlice::new(bool_id()));
    assert_eq!(TypeIdSlice::of::<Point>(), TypeIdSlice::new(Point::type_id()));
    assert_ne!(TypeIdSlice::of::<u8>(), TypeIdSlice::of::<i8>());
}

#[test]
fn primitives_describe_themselves() {
    assert_eq!(<bool as HasTypeId>::type_id(), TypeId::Primitive(TypeIdPrimitive::Bool));
    assert_eq!(<char as HasTypeId>::type_id(), TypeId::Primitive(TypeIdPrimitive::Char));
    assert_eq!(<u8 as HasTypeId>::type_id(), TypeId::Primitive(TypeIdPrimitive::U8));
    assert_eq!(<u16 as HasTypeId>::type_id(), TypeId::Primitive(TypeIdPrimitive::U16));
    assert_eq!(<u32 as HasTypeId>::type_id(), TypeId::Primitive(TypeIdPrimitive::U32));
    assert_eq!(<u64 as HasTypeId>::type_id(), TypeId::Primitive(TypeIdPrimitive::U64));
    assert_eq!(<u128 as HasTypeId>::type_id(), TypeId::Primitive(TypeIdPrimitive::U128));
    assert_eq!(<i8 as HasTypeId>::type_id(), TypeId::Primitive(TypeIdPrimitive::I8));
    assert_eq!(<i16 as HasTypeId>::type_id(), TypeId::Primitive(TypeIdPrimitive::I16));
    assert_eq!(<i32 as HasTypeId>::type_id(), TypeId::Primitive(TypeIdPrimitive::I32));
    assert_eq!(<i64 as HasTypeId>::type_id(), TypeId::Primitive(TypeIdPrimitive::I64));
    assert_eq!(<i128 as HasTypeId>::type_id(), TypeId::Primitive(TypeIdPrimitive::I128));
}

#[test]
fn descriptions_convert_into_type_ids() {
    assert_eq!(TypeId::from(foo(vec![])), TypeId::Custom(foo(vec![])));
    assert_eq!(
        TypeId::from(TypeIdSlice::new(u8_id())),
        TypeId::Slice(TypeIdSlice::new(u8_id()))
    );
    assert_eq!(
        TypeId::from(TypeIdArray::new(3, u8_id())),
        TypeId::Array(TypeIdArray::new(3, u8_id()))
    );
    assert_eq!(TypeId::from(TypeIdTuple::unit()), TypeId::Tuple(TypeIdTuple::unit()));
    assert_eq!(TypeId::from(TypeIdPrimitive::Str), TypeId::Primitive(TypeIdPrimitive::Str));
    let id: TypeId = TypeIdTuple::unit().into();
    assert_eq!(id, TypeId::Tuple(TypeIdTuple::new(vec![])));
}

#[test]
fn different_kinds_are_never_equal() {
    let ids = vec![
        TypeId::Custom(foo(vec![])),
        TypeId::Slice(TypeIdSlice::new(u8_id())),
        TypeId::Array(TypeIdArray::new(0, u8_id())),
        TypeId::Tuple(TypeIdTuple::unit()),
        u8_id(),
    ];
    for (i, a) in ids.iter().enumerate() {
        for (j, b) in ids.iter().enumerate() {
            assert_eq!(a == b, i == j);
        }
    }
}

#[test]
fn tuples_compare_element_by_element() {
    let ab = TypeIdTuple::new(vec![u8_id(), bool_id()]);
    let ba = TypeIdTuple::new(vec![bool_id(), u8_id()]);
    assert_ne!(ab, ba);
    assert_eq!(ab, TypeIdTuple::new(vec![u8_id(), bool_id()]));
    assert_ne!(ab, TypeIdTuple::new(vec![u8_id()]));
    assert_ne!(ab, TypeIdTuple::new(vec![u8_id(), bool_id(), u8_id()]));
    assert_ne!(TypeId::Tuple(ab), TypeId::Tuple(ba));
}

#[test]
fn equality_looks_at_every_part() {
    let base = foo(vec![u8_id()]);
    assert_eq!(base, foo(vec![u8_id()]));
    assert_ne!(base, foo(vec![bool_id()]));
    assert_ne!(base, foo(vec![]));
    assert_ne!(
        base,
        TypeIdCustom::new("Bar", Namespace::new(vec!["krate", "module"]).unwrap(), vec![u8_id()])
    );
    assert_ne!(
        base,
        TypeIdCustom::new("Foo", Namespace::new(vec!["krate"]).unwrap(), vec![u8_id()])
    );
    assert_ne!(TypeIdArray::new(1, u8_id()), TypeIdArray::new(2, u8_id()));
    assert_ne!(TypeIdArray::new(1, u8_id()), TypeIdArray::new(1, bool_id()));
    assert_ne!(TypeIdSlice::new(u8_id()), TypeIdSlice::new(bool_id()));
    assert_ne!(u8_id(), bool_id());
}

#[test]
fn equality_goes_into_nested_descriptions() {
    let nested = |inner: TypeId| {
        TypeId::Slice(TypeIdSlice::new(TypeId::Array(TypeIdArray::new(
            4,
            TypeId::Tuple(TypeIdTuple::new(vec![TypeId::Custom(foo(vec![inner]))])),
        ))))
    };
    assert_eq!(nested(u8_id()), nested(u8_id()));
    assert_ne!(nested(u8_id()), nested(bool_id()));
}

#[test]
fn copies_are_equal_to_what_they_copy() {
    let id = TypeId::Custom(foo(vec![
        TypeId::Tuple(TypeIdTuple::new(vec![u8_id(), bool_id()])),
        TypeId::Array(TypeIdArray::new(7, TypeId::Slice(TypeIdSlice::new(u8_id())))),
    ]));
    assert_eq!(id.clone(), id);
    assert_eq!(foo(vec![u8_id()]).clone(), foo(vec![u8_id()]));
    assert_eq!(TypeIdTuple::unit().clone(), TypeIdTuple::unit());
    assert_eq!(TypeIdArray::new(2, u8_id()).clone(), TypeIdArray::new(2, u8_id()));
    assert_eq!(TypeIdSlice::new(u8_id()).clone(), TypeIdSlice::new(u8_id()));
}
