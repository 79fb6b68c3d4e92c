use di_core::ServiceCardinality;
use di_core::ServiceDependency;
use di_core::Type;
use di_core::resolution::ResolutionError;
use di_core::resolution::evaluate_count;
use di_core::resolution::resolve_providers;

#[test]
fn zero_or_more_accepts_empty_and_many() {
    let dep = ServiceDependency::new(Type::of("Plugin"), ServiceCardinality::ZeroOrMore);
    let none: Vec<&str> = vec![];
    assert_eq!(resolve_providers(dep.cardinality(), none), Ok(vec![]));
    let three = vec!["a", "b", "c"];
    assert_eq!(
        resolve_providers(dep.cardinality(), three),
        Ok(vec!["a", "b", "c"])
    );
}

#[test]
fn zero_or_one_rejects_two_and_accepts_fewer() {
    let dep = ServiceDependency::new(Type::of("Cache"), ServiceCardinality::ZeroOrOne);
    let two = vec!["memory", "disk"];
    assert_eq!(
        resolve_providers(dep.cardinality(), two),
        Err(ResolutionError::AmbiguousDependency)
    );
    let one = vec!["memory"];
    assert_eq!(resolve_providers(dep.cardinality(), one), Ok(vec!["memory"]));
    let none: Vec<&str> = vec![];
    assert_eq!(resolve_providers(dep.cardinality(), none), Ok(vec![]));
}

#[test]
fn exactly_one_requires_a_single_provider() {
    assert_eq!(
        evaluate_count(ServiceCardinality::ExactlyOne, 0),
        Err(ResolutionError::MissingDependency)
    );
    assert_eq!(evaluate_count(ServiceCardinality::ExactlyOne, 1), Ok(()));
    assert_eq!(
        evaluate_count(ServiceCardinality::ExactlyOne, 2),
        Err(ResolutionError::AmbiguousDependency)
    );
    assert_eq!(
        evaluate_count(ServiceCardinality::ExactlyOne, 9),
        Err(ResolutionError::AmbiguousDependency)
    );
}

#[test]
fn zero_or_one_count_table() {
    assert_eq!(evaluate_count(ServiceCardinality::ZeroOrOne, 0), Ok(()));
    assert_eq!(evaluate_count(ServiceCardinality::ZeroOrOne, 1), Ok(()));
    assert_eq!(
        evaluate_count(ServiceCardinality::ZeroOrOne, 2),
        Err(ResolutionError::AmbiguousDependency)
    );
    assert_eq!(
        evaluate_count(ServiceCardinality::ZeroOrOne, 100),
        Err(ResolutionError::AmbiguousDependency)
    );
}

#[test]
fn zero_or_more_never_errs() {
    for count in [0usize, 1, 2, 3, 1000] {
        assert_eq!(evaluate_count(ServiceCardinality::ZeroOrMore, count), Ok(()));
    }
}

#[test]
fn error_variants_are_distinct() {
    assert_ne!(
        ResolutionError::MissingDependency,
        ResolutionError::AmbiguousDependency
    );
}
