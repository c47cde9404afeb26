//! The namespace in which a custom type is declared.

use vstd::prelude::*;
use vstd::std_specs::cmp::PartialEqSpecImpl;

use crate::identifier::{is_identifier, is_rust_identifier};
use crate::path::{lemma_split_not_empty, split_module_path, split_path};
use crate::symbol::StringRef;
use crate::text::same_text;

verus! {

/// Why a sequence of segments is not a namespace.
#[derive(Clone, Copy, Debug, PartialEq, Eq, Structural)]
pub enum NamespaceError {
    /// There is no segment at all.
    MissingSegments,
    /// A segment is not an identifier.
    InvalidIdentifier {
        /// The index of the first segment that is not an identifier.
        segment: usize,
    },
}

/// What can stand for a segment of a namespace: a string, or a reference to
/// an interned string.
pub trait Segment {
    /// Whether the value may be a segment: for a string, whether it is an
    /// identifier; a reference always may.
    spec fn may_be_segment(&self) -> bool;
}

impl Segment for &'static str {
    open spec fn may_be_segment(&self) -> bool {
        is_identifier(self@)
    }
}

impl Segment for StringRef {
    open spec fn may_be_segment(&self) -> bool {
        true
    }
}

/// The namespace of a type: the segments of the path to the module that
/// declares it, the first one naming the crate.
///
/// A namespace made from segments has at least one, and each is an
/// identifier. Only the prelude namespace is empty. `S` is what stands for a
/// string: the string itself, or a reference to it once the namespace has
/// been compacted.
#[derive(Debug)]
pub struct Namespace<S: Segment = &'static str> {
    segments: Vec<S>,
}

impl<S: Segment> Namespace<S> {
    /// Every segment of a namespace may be one: a namespace of strings holds
    /// identifiers only.
    #[verifier::type_invariant]
    spec fn only_segments(self) -> bool {
        forall|i: int|
            0 <= i < self.segments@.len() ==> (#[trigger] self.segments@[i]).may_be_segment()
    }
}

/// Whether every one of `segments` is an identifier.
pub open spec fn all_identifiers(segments: Seq<Seq<char>>) -> bool {
    forall|i: int| 0 <= i < segments.len() ==> is_identifier(#[trigger] segments[i])
}

/// Whether `i` is the index of the first of `segments` that is not an
/// identifier.
pub open spec fn first_invalid(segments: Seq<Seq<char>>, i: int) -> bool {
    &&& 0 <= i < segments.len()
    &&& !is_identifier(segments[i])
    &&& forall|j: int| 0 <= j < i ==> is_identifier(#[trigger] segments[j])
}

/// Whether `outcome` is what checking `segments` gives: the segments
/// themselves when there is at least one and all are identifiers, else the
/// reason why they make no namespace.
pub open spec fn checked(
    segments: Seq<Seq<char>>,
    outcome: Result<Seq<Seq<char>>, NamespaceError>,
) -> bool {
    match outcome {
        Ok(accepted) => segments.len() > 0 && all_identifiers(segments) && accepted == segments,
        Err(NamespaceError::MissingSegments) => segments.len() == 0,
        Err(NamespaceError::InvalidIdentifier { segment }) => first_invalid(
            segments,
            segment as int,
        ),
    }
}

/// The segments of the namespace that `result` holds, or its error.
pub open spec fn outcome_of(result: Result<Namespace, NamespaceError>) -> Result<
    Seq<Seq<char>>,
    NamespaceError,
> {
    match result {
        Ok(namespace) => Ok(namespace@),
        Err(error) => Err(error),
    }
}

/// Segments of which there is at least one, and which are all identifiers,
/// are accepted as they are: in the same order and as many.
pub proof fn law_identifiers_accepted(
    segments: Seq<Seq<char>>,
    outcome: Result<Seq<Seq<char>>, NamespaceError>,
)
    requires
        checked(segments, outcome),
        segments.len() > 0,
        all_identifiers(segments),
    ensures
        outcome == Ok::<Seq<Seq<char>>, NamespaceError>(segments),
{
}

/// No segments are rejected for missing segments.
pub proof fn law_no_segments_rejected(outcome: Result<Seq<Seq<char>>, NamespaceError>)
    requires
        checked(Seq::empty(), outcome),
    ensures
        outcome == Err::<Seq<Seq<char>>, NamespaceError>(NamespaceError::MissingSegments),
{
}

/// Checking segments has one outcome only. So a namespace made from a module
/// path is the namespace made from the segments of the path, and fails as
/// that one does.
pub proof fn law_one_outcome(
    segments: Seq<Seq<char>>,
    a: Result<Seq<Seq<char>>, NamespaceError>,
    b: Result<Seq<Seq<char>>, NamespaceError>,
)
    requires
        checked(segments, a),
        checked(segments, b),
    ensures
        a == b,
{
}

impl View for Namespace<&'static str> {
    type V = Seq<Seq<char>>;

    /// The segments, in order.
    closed spec fn view(&self) -> Seq<Seq<char>> {
        self.segments.deep_view()
    }
}

impl View for Namespace<StringRef> {
    type V = Seq<nat>;

    /// The indices of the segments, in order.
    closed spec fn view(&self) -> Seq<nat> {
        self.segments.deep_view()
    }
}

impl Namespace<&'static str> {
    /// Creates the namespace with the given segments.
    ///
    /// Fails when there is no segment, and when a segment is not an
    /// identifier: the error then names the first such segment.
    pub fn new(segments: Vec<&'static str>) -> (result: Result<Self, NamespaceError>)
        ensures
            checked(segments.deep_view(), outcome_of(result)),
    {
        let n = segments.len();
        if n == 0 {
            return Err(NamespaceError::MissingSegments);
        }
        let mut i: usize = 0;
        while i < n
            invariant
                i <= n,
                n == segments@.len(),
                forall|j: int| 0 <= j < i ==> is_identifier(#[trigger] segments.deep_view()[j]),
            decreases n - i,
        {
            if !is_rust_identifier(segments[i]) {
                return Err(NamespaceError::InvalidIdentifier { segment: i });
            }
            i += 1;
        }
        assert forall|j: int| 0 <= j < segments@.len() implies (
        #[trigger] segments@[j]).may_be_segment() by {
            assert(is_identifier(segments.deep_view()[j]));
        }
        Ok(Namespace { segments })
    }

    /// Creates the namespace that the module path `path` names: the
    /// one whose segments are the pieces of the path between its separators
    /// `::`.
    ///
    /// A path always has a segment, so the only failure is a segment that is
    /// not an identifier.
    pub fn from_module_path(path: &'static str) -> (result: Result<Self, NamespaceError>)
        ensures
            checked(split_path(path@), outcome_of(result)),
            result != Err::<Self, NamespaceError>(NamespaceError::MissingSegments),
    {
        proof {
            lemma_split_not_empty(path@);
        }
        Self::new(split_module_path(path))
    }

    /// Creates the prelude namespace, which has no segments.
    pub fn prelude() -> (namespace: Self)
        ensures
            namespace@ == Seq::<Seq<char>>::empty(),
    {
        Namespace { segments: Vec::new() }
    }

    /// The segments, in order. Each is an identifier.
    pub fn segments(&self) -> (segments: &Vec<&'static str>)
        ensures
            segments.deep_view() == self@,
            all_identifiers(self@),
    {
        proof {
            use_type_invariant(self);
        }
        &self.segments
    }
}

impl Namespace<StringRef> {
    /// Creates the compacted namespace with the given references.
    pub fn from_refs(segments: Vec<StringRef>) -> (namespace: Self)
        ensures
            namespace@ == segments.deep_view(),
    {
        Namespace { segments }
    }

    /// The references to the segments, in order.
    pub fn segments(&self) -> (segments: &Vec<StringRef>)
        ensures
            segments.deep_view() == self@,
    {
        &self.segments
    }
}

impl Clone for Namespace<&'static str> {
    fn clone(&self) -> (copy: Self)
        ensures
            copy@ == self@,
    {
        let n = self.segments.len();
        let mut segments: Vec<&'static str> = Vec::new();
        let mut i: usize = 0;
        while i < n
            invariant
                i <= n,
                n == self.segments@.len(),
                segments@ == self.segments@.take(i as int),
            decreases n - i,
        {
            segments.push(self.segments[i]);
            i += 1;
        }
        proof {
            use_type_invariant(self);
        }
        Namespace { segments }
    }
}

impl PartialEq for Namespace<&'static str> {
    /// Two namespaces are equal when they have the same segments in the
    /// same order.
    fn eq(&self, other: &Self) -> (equal: bool) {
        let n = self.segments.len();
        if n != other.segments.len() {
            assert(self@.len() != other@.len());
            return false;
        }
        let mut i: usize = 0;
        while i < n
            invariant
                i <= n,
                n == self.segments@.len(),
                n == other.segments@.len(),
                forall|j: int| 0 <= j < i ==> self@[j] == other@[j],
            decreases n - i,
        {
            if !same_text(self.segments[i], other.segments[i]) {
                assert(self@[i as int] != other@[i as int]);
                return false;
            }
            i += 1;
        }
        assert(self@ =~= other@);
        true
    }
}

impl PartialEqSpecImpl for Namespace<&'static str> {
    open spec fn obeys_eq_spec() -> bool {
        true
    }

    open spec fn eq_spec(&self, other: &Self) -> bool {
        self@ == other@
    }
}

impl Eq for Namespace<&'static str> {

}

} // verus!
