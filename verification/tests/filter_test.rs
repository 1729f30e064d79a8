use dataflow_core::filter::{
    by_property, has_property, CastError, ElementFilter, Filter, FilterTree, Object, Predicate,
    Primitives,
};

#[test]
fn reverse_twice_restores_the_bare_test() {
    let mut f = by_property("age".to_string());
    assert!(!f.reversed);
    f.reverse();
    assert!(f.reversed);
    f.reverse();
    assert_eq!(f, by_property("age".to_string()));
}

#[test]
fn empty_chain_absorbs_the_first_predicate() {
    let mut chain = Filter::default();
    assert!(chain.is_empty());
    let f = Filter::with(has_property(
        "a".to_string(),
        Object::Primitive(Primitives::Integer(1)),
    ));
    chain.or(f);
    assert!(!chain.is_empty());
    assert!(matches!(chain.root, Some(FilterTree::Leaf(_))));
}

#[test]
fn and_of_two_chains_builds_a_conjunction() {
    let leaf = |name: &str| {
        Filter::with(ElementFilter {
            predicate: Predicate::ByProperty(name.to_string()),
            reversed: false,
        })
    };
    let mut chain = leaf("a");
    chain.and(leaf("b"));
    match chain.root {
        Some(FilterTree::And(l, r)) => {
            assert!(matches!(*l, FilterTree::Leaf(_)));
            assert!(matches!(*r, FilterTree::Leaf(_)));
        }
        other => panic!("expected a conjunction, got {:?}", other),
    }
}

#[test]
fn as_u64_succeeds_exactly_on_non_negative_integrals() {
    assert_eq!(Object::Primitive(Primitives::Integer(3)).as_u64(), Ok(3));
    assert_eq!(Object::Primitive(Primitives::Long(0)).as_u64(), Ok(0));
    assert_eq!(Object::Primitive(Primitives::ULong(9)).as_u64(), Ok(9));
    assert_eq!(
        Object::Primitive(Primitives::Integer(-1)).as_u64(),
        Err(CastError {})
    );
    assert_eq!(
        Object::Primitive(Primitives::Boolean(true)).as_u64(),
        Err(CastError {})
    );
    assert_eq!(Object::Str("x".to_string()).as_u64(), Err(CastError {}));
}
