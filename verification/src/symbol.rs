//! The references that a registry hands out for what it has interned.

use vstd::prelude::*;

verus! {

/// A reference to a string that a registry has interned.
#[derive(Clone, Copy, Debug, PartialEq, Eq, Hash, Structural)]
pub struct StringRef {
    /// The position of the string among the registry's strings.
    pub index: usize,
}

/// A reference to a type description that a registry has interned.
#[derive(Clone, Copy, Debug, PartialEq, Eq, Hash, Structural)]
pub struct TypeRef {
    /// The position of the description among the registry's types.
    pub index: usize,
}

impl View for StringRef {
    type V = nat;

    open spec fn view(&self) -> nat {
        self.index as nat
    }
}

impl DeepView for StringRef {
    type V = nat;

    open spec fn deep_view(&self) -> nat {
        self.index as nat
    }
}

impl View for TypeRef {
    type V = nat;

    open spec fn view(&self) -> nat {
        self.index as nat
    }
}

impl DeepView for TypeRef {
    type V = nat;

    open spec fn deep_view(&self) -> nat {
        self.index as nat
    }
}

} // verus!
