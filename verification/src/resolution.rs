//! The rule a resolver applies when it holds a descriptor's cardinality
//! against the number of providers a registry lookup found.

use vstd::prelude::*;

use crate::dependency::ServiceCardinality;

verus! {

/// The resolution failures a cardinality can attribute to a provider count.
#[derive(Copy, Clone, Debug, PartialEq, Eq, Structural)]
pub enum ResolutionError {
    /// An `ExactlyOne` dependency resolved to no provider.
    MissingDependency,
    /// An `ExactlyOne` or `ZeroOrOne` dependency resolved to two or more
    /// providers.
    AmbiguousDependency,
}

/// The outcome the cardinality rule assigns to a provider count: missing
/// when exactly one provider is required and none was found, ambiguous when
/// at most one is allowed and several were found, and success otherwise.
pub open spec fn cardinality_outcome(
    cardinality: ServiceCardinality,
    count: nat,
) -> Result<(), ResolutionError> {
    if cardinality == ServiceCardinality::ExactlyOne && count == 0 {
        Err(ResolutionError::MissingDependency)
    } else if cardinality != ServiceCardinality::ZeroOrMore && count >= 2 {
        Err(ResolutionError::AmbiguousDependency)
    } else {
        Ok(())
    }
}

/// The rule succeeds exactly on the counts the cardinality admits; in
/// particular no count is ever an error for `ZeroOrMore`.
pub proof fn lemma_outcome_matches_admits(cardinality: ServiceCardinality, count: nat)
    ensures
        cardinality_outcome(cardinality, count) is Ok <==> cardinality.admits(count),
        cardinality == ServiceCardinality::ZeroOrMore ==> cardinality_outcome(
            cardinality,
            count,
        ) is Ok,
{
}

/// Applies the cardinality rule to the number of providers a lookup found.
pub fn evaluate_count(cardinality: ServiceCardinality, count: usize) -> (r: Result<
    (),
    ResolutionError,
>)
    ensures
        r == cardinality_outcome(cardinality, count as nat),
{
    match cardinality {
        ServiceCardinality::ZeroOrOne => {
            if count >= 2 {
                Err(ResolutionError::AmbiguousDependency)
            } else {
                Ok(())
            }
        },
        ServiceCardinality::ExactlyOne => {
            if count == 0 {
                Err(ResolutionError::MissingDependency)
            } else if count >= 2 {
                Err(ResolutionError::AmbiguousDependency)
            } else {
                Ok(())
            }
        },
        ServiceCardinality::ZeroOrMore => Ok(()),
    }
}

/// Holds a lookup result to the cardinality rule: the providers pass through
/// unchanged when their number is admissible, and the rule's error comes
/// back otherwise.
pub fn resolve_providers<T>(cardinality: ServiceCardinality, providers: Vec<T>) -> (r: Result<
    Vec<T>,
    ResolutionError,
>)
    ensures
        ({
            let outcome = cardinality_outcome(cardinality, providers@.len());
            match r {
                Ok(resolved) => outcome is Ok && resolved@ == providers@,
                Err(e) => outcome == Err::<(), ResolutionError>(e),
            }
        }),
{
    match evaluate_count(cardinality, providers.len()) {
        Ok(()) => Ok(providers),
        Err(e) => Err(e),
    }
}

} // verus!
