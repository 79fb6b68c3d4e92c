//! The opaque identifier a dependency resolves against.

use vstd::prelude::*;

verus! {

/// An identifier for a service contract.
///
/// The container treats it as opaque: all that matters is that two
/// identifiers can be compared and hashed. Its mathematical value is the
/// sequence of characters of its name.
#[derive(Debug, Eq, Hash)]
pub struct Type {
    name: String,
}

impl Clone for Type {
    /// A clone stands for the same name as the original.
    fn clone(&self) -> (t: Self)
        ensures
            t@ == self@,
    {
        Type { name: self.name.clone() }
    }
}

impl View for Type {
    type V = Seq<char>;

    closed spec fn view(&self) -> Seq<char> {
        self.name@
    }
}

impl Type {
    /// The identifier of the contract with the given name.
    pub fn of(name: &str) -> (t: Type)
        ensures
            t@ == name@,
    {
        Type { name: name.to_owned() }
    }

    /// The name of the contract this identifier stands for.
    pub fn name(&self) -> (s: &str)
        ensures
            s@ == self@,
    {
        self.name.as_str()
    }
}

impl PartialEq for Type {
    /// Two identifiers are equal exactly when their names are.
    fn eq(&self, other: &Type) -> bool {
        self.name == other.name
    }
}

impl vstd::std_specs::cmp::PartialEqSpecImpl for Type {
    open spec fn obeys_eq_spec() -> bool {
        true
    }

    open spec fn eq_spec(&self, other: &Type) -> bool {
        self@ == other@
    }
}

} // verus!
