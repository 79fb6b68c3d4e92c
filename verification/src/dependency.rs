//! The descriptor a service declares for each of its requirements.

use vstd::prelude::*;

use crate::ty::Type;

verus! {

/// The possible cardinalities of a service dependency.
///
/// The set is closed: a consumer switching over a cardinality covers exactly
/// these three variants (see [`lemma_cardinality_closed`]).
#[derive(Copy, Clone, Debug, PartialEq, Eq, Hash, Structural)]
pub enum ServiceCardinality {
    /// A cardinality of zero or one (0:1).
    ZeroOrOne,
    /// A cardinality of exactly one (1:1).
    ExactlyOne,
    /// A cardinality of zero or more (0:*).
    ZeroOrMore,
}

impl ServiceCardinality {
    /// Whether `count` providers satisfy this cardinality.
    pub open spec fn admits(self, count: nat) -> bool {
        match self {
            ServiceCardinality::ZeroOrOne => count <= 1,
            ServiceCardinality::ExactlyOne => count == 1,
            ServiceCardinality::ZeroOrMore => true,
        }
    }
}

/// The cardinality vocabulary is closed: every value is one of the three
/// variants, and the three are pairwise distinct.
pub proof fn lemma_cardinality_closed(c: ServiceCardinality)
    ensures
        c == ServiceCardinality::ZeroOrOne || c == ServiceCardinality::ExactlyOne
            || c == ServiceCardinality::ZeroOrMore,
        ServiceCardinality::ZeroOrOne != ServiceCardinality::ExactlyOne,
        ServiceCardinality::ExactlyOne != ServiceCardinality::ZeroOrMore,
        ServiceCardinality::ZeroOrMore != ServiceCardinality::ZeroOrOne,
{
}

/// A service dependency: an immutable value pairing the contract a service
/// requires with the cardinality the requirement carries.
#[derive(Debug, Eq, Hash)]
pub struct ServiceDependency {
    injected_type: Type,
    cardinality: ServiceCardinality,
}

impl ServiceDependency {
    /// The stored injected type.
    pub closed spec fn spec_injected_type(self) -> Type {
        self.injected_type
    }

    /// The stored cardinality.
    pub closed spec fn spec_cardinality(self) -> ServiceCardinality {
        self.cardinality
    }

    /// The descriptor that pairs `injected_type` with `cardinality`.
    pub closed spec fn spec_new(injected_type: Type, cardinality: ServiceCardinality) -> ServiceDependency {
        ServiceDependency { injected_type, cardinality }
    }

    /// Initializes a new service dependency.
    pub fn new(injected_type: Type, cardinality: ServiceCardinality) -> (dep: Self)
        ensures
            dep == Self::spec_new(injected_type, cardinality),
            dep.spec_injected_type() == injected_type,
            dep.spec_cardinality() == cardinality,
    {
        Self { injected_type, cardinality }
    }

    /// Gets the injected type associated with the service dependency.
    pub fn injected_type(&self) -> (t: &Type)
        ensures
            *t == self.spec_injected_type(),
    {
        &self.injected_type
    }

    /// Gets the cardinality associated with the service dependency.
    pub fn cardinality(&self) -> (c: ServiceCardinality)
        ensures
            c == self.spec_cardinality(),
    {
        self.cardinality
    }
}

/// Constructor round-trip: a descriptor built from `injected_type` and
/// `cardinality` reports exactly those two values back.
pub proof fn lemma_new_round_trip(injected_type: Type, cardinality: ServiceCardinality)
    ensures
        ServiceDependency::spec_new(injected_type, cardinality).spec_injected_type()
            == injected_type,
        ServiceDependency::spec_new(injected_type, cardinality).spec_cardinality() == cardinality,
{
}

impl Clone for ServiceDependency {
    /// A clone reports the same injected type and cardinality as the original.
    fn clone(&self) -> (dep: Self)
        ensures
            dep.spec_injected_type()@ == self.spec_injected_type()@,
            dep.spec_cardinality() == self.spec_cardinality(),
    {
        Self { injected_type: self.injected_type.clone(), cardinality: self.cardinality }
    }
}

impl PartialEq for ServiceDependency {
    /// Equality is structural, over the injected type and the cardinality.
    fn eq(&self, other: &Self) -> bool {
        self.injected_type == other.injected_type && self.cardinality == other.cardinality
    }
}

impl vstd::std_specs::cmp::PartialEqSpecImpl for ServiceDependency {
    open spec fn obeys_eq_spec() -> bool {
        true
    }

    open spec fn eq_spec(&self, other: &Self) -> bool {
        self.spec_injected_type()@ == other.spec_injected_type()@
            && self.spec_cardinality() == other.spec_cardinality()
    }
}

/// Structural equality: two descriptors compare equal exactly when both the
/// injected type and the cardinality agree, so descriptors differing in
/// either field compare unequal.
pub proof fn lemma_structural_equality(a: ServiceDependency, b: ServiceDependency)
    ensures
        vstd::std_specs::cmp::PartialEqSpec::eq_spec(&a, &b) <==> (
            a.spec_injected_type()@ == b.spec_injected_type()@
                && a.spec_cardinality() == b.spec_cardinality()
        ),
{
}

} // verus!
