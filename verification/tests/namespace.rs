use type_metadata::namespace::{Namespace, NamespaceError};

fn segments_of(
    result: Result<Namespace, NamespaceError>,
) -> Result<Vec<&'static str>, NamespaceError> {
    result.map(|namespace| namespace.segments().clone())
}

#[test]
fn namespace_ok() {
    assert_eq!(segments_of(Namespace::new(vec!["hello"])), Ok(vec!["hello"]));
    assert_eq!(
        segments_of(Namespace::new(vec!["Hello", "World"])),
        Ok(vec!["Hello", "World"])
    );
    assert_eq!(segments_of(Namespace::new(vec!["_"])), Ok(vec!["_"]));
}

#[test]
fn namespace_err() {
    assert_eq!(
        segments_of(Namespace::new(vec![])),
        Err(NamespaceError::MissingSegments)
    );
    assert_eq!(
        segments_of(Namespace::new(vec![""])),
        Err(NamespaceError::InvalidIdentifier { segment: 0 })
    );
    assert_eq!(
        segments_of(Namespace::new(vec!["1"])),
        Err(NamespaceError::InvalidIdentifier { segment: 0 })
    );
    assert_eq!(
        segments_of(Namespace::new(vec!["Hello", ", World!"])),
        Err(NamespaceError::InvalidIdentifier { segment: 1 })
    );
}

#[test]
fn namespace_from_module_path() {
    assert_eq!(
        segments_of(Namespace::from_module_path("hello::world")),
        Ok(vec!["hello", "world"])
    );
    assert_eq!(
        segments_of(Namespace::from_module_path("::world")),
        Err(NamespaceError::InvalidIdentifier { segment: 0 })
    );
}

#[test]
fn prelude_has_no_segments() {
    let prelude = Namespace::prelude();
    assert!(prelude.segments().is_empty());
    assert_eq!(prelude, Namespace::prelude());
}

#[test]
fn underscore_alone_is_accepted() {
    assert_eq!(segments_of(Namespace::new(vec!["_"])), Ok(vec!["_"]));
    assert_eq!(segments_of(Namespace::new(vec!["_1", "__"])), Ok(vec!["_1", "__"]));
}

#[test]
fn order_and_count_are_kept() {
    let segments = vec!["c", "a", "b", "a"];
    assert_eq!(segments_of(Namespace::new(segments.clone())), Ok(segments));
}

#[test]
fn first_invalid_segment_is_reported() {
    assert_eq!(
        segments_of(Namespace::new(vec!["ok", "2bad", "", "fine"])),
        Err(NamespaceError::InvalidIdentifier { segment: 1 })
    );
    assert_eq!(
        segments_of(Namespace::new(vec!["a", "b", "c-d"])),
        Err(NamespaceError::InvalidIdentifier { segment: 2 })
    );
}

#[test]
fn digits_may_follow_but_not_lead() {
    assert_eq!(segments_of(Namespace::new(vec!["a1", "Z9_"])), Ok(vec!["a1", "Z9_"]));
    assert_eq!(
        segments_of(Namespace::new(vec!["9a"])),
        Err(NamespaceError::InvalidIdentifier { segment: 0 })
    );
}

#[test]
fn letters_outside_ascii_are_rejected() {
    assert_eq!(
        segments_of(Namespace::new(vec!["caf\u{e9}"])),
        Err(NamespaceError::InvalidIdentifier { segment: 0 })
    );
    assert_eq!(
        segments_of(Namespace::new(vec!["ok", "\u{3b1}"])),
        Err(NamespaceError::InvalidIdentifier { segment: 1 })
    );
}

#[test]
fn module_path_equals_its_segments() {
    assert_eq!(
        Namespace::from_module_path("hello::world"),
        Namespace::new(vec!["hello", "world"])
    );
    assert_eq!(Namespace::from_module_path("one"), Namespace::new(vec!["one"]));
    assert_eq!(
        Namespace::from_module_path("a::b::c"),
        Namespace::new(vec!["a", "b", "c"])
    );
}

#[test]
fn module_path_never_misses_segments() {
    assert_eq!(
        segments_of(Namespace::from_module_path("")),
        Err(NamespaceError::InvalidIdentifier { segment: 0 })
    );
    assert_eq!(
        segments_of(Namespace::from_module_path("a::")),
        Err(NamespaceError::InvalidIdentifier { segment: 1 })
    );
    assert_eq!(
        segments_of(Namespace::from_module_path("a:b")),
        Err(NamespaceError::InvalidIdentifier { segment: 0 })
    );
}

#[test]
fn namespaces_compare_by_segments() {
    let a = Namespace::new(vec!["a", "b"]).unwrap();
    let b = Namespace::from_module_path("a::b").unwrap();
    let c = Namespace::new(vec!["b", "a"]).unwrap();
    assert_eq!(a, b);
    assert_ne!(a, c);
    assert_ne!(a, Namespace::prelude());
    assert_eq!(a.clone(), a);
}
