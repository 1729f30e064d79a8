use dataflow_core::codec::{
    compare_of, connect_of, get_chain, get_single, parse_node, pb_chain_to_filter,
    pb_value_to_object, with_in, ParseError,
};
use dataflow_core::errors::BuildJobError;
use dataflow_core::exchange::{exchange, route};
use dataflow_core::filter::{
    CastError, ElementFilter, Filter, FilterTree, Label, Object, Predicate, Primitives,
    INVALID_LABEL_ID,
};
use dataflow_core::pb::{
    Compare, Connect, FilterChain, FilterExp, FilterNode, FilterNodeInner, Key, Value,
};
use dataflow_core::subtask::{count_tag, matching_values, Tagged};

fn single_node(left: Key, right: Value, cmp: i32, next: i32) -> FilterNode {
    FilterNode {
        inner: FilterNodeInner::Single(FilterExp { left, right, cmp }),
        next,
    }
}

fn leaf(predicate: Predicate, reversed: bool) -> Filter {
    Filter {
        root: Some(FilterTree::Leaf(ElementFilter { predicate, reversed })),
    }
}

#[test]
fn empty_chain_compiles_to_no_filter() {
    let chain = FilterChain { node: Vec::new() };
    assert_eq!(pb_chain_to_filter(chain), Ok(None));
}

#[test]
fn single_eq_node_compiles_to_has_property() {
    let chain = FilterChain {
        node: vec![single_node(
            Key::Name("age".to_string()),
            Value::I32(30),
            0,
            0,
        )],
    };
    let expected = leaf(
        Predicate::HasProperty(
            "age".to_string(),
            Object::Primitive(Primitives::Integer(30)),
        ),
        false,
    );
    assert_eq!(pb_chain_to_filter(chain), Ok(Some(expected)));
}

#[test]
fn ne_node_is_the_reversed_eq() {
    let node = single_node(Key::Name("age".to_string()), Value::I64(9), 1, 0);
    let expected = leaf(
        Predicate::HasProperty("age".to_string(), Object::Primitive(Primitives::Long(9))),
        true,
    );
    assert_eq!(parse_node(node), Ok(Some(expected)));
}

#[test]
fn absent_value_compiles_to_by_property() {
    let node = single_node(Key::Name("name".to_string()), Value::Absent, 0, 0);
    let expected = leaf(Predicate::ByProperty("name".to_string()), false);
    assert_eq!(parse_node(node), Ok(Some(expected)));
}

#[test]
fn gt_node_is_the_reversed_le() {
    let node = single_node(Key::Name("age".to_string()), Value::I32(2), 4, 0);
    let expected = leaf(
        Predicate::HasPropertyLe("age".to_string(), Object::Primitive(Primitives::Integer(2))),
        true,
    );
    assert_eq!(parse_node(node), Ok(Some(expected)));
}

#[test]
fn id_key_casts_value_to_u64() {
    let node = single_node(Key::Id, Value::I32(41), 0, 0);
    let expected = leaf(Predicate::HasId(Some(41)), false);
    assert_eq!(parse_node(node), Ok(Some(expected)));
}

#[test]
fn id_key_negative_value_is_a_cast_failure() {
    let node = single_node(Key::Id, Value::I64(-3), 0, 0);
    assert_eq!(parse_node(node), Err(ParseError::TypeCast(CastError {})));
}

#[test]
fn label_key_keeps_integer_and_string_labels() {
    let by_id = single_node(Key::Label, Value::I32(7), 0, 0);
    assert_eq!(
        parse_node(by_id),
        Ok(Some(leaf(
            Predicate::HasLabel(Some(Label::Id(7))),
            false
        )))
    );

    let by_name = single_node(Key::Label, Value::Str("person".to_string()), 0, 0);
    assert_eq!(
        parse_node(by_name),
        Ok(Some(leaf(
            Predicate::HasLabel(Some(Label::Str("person".to_string()))),
            false
        )))
    );
}

#[test]
fn label_key_out_of_range_integer_maps_to_invalid_label() {
    let node = single_node(Key::Label, Value::I32(-1), 0, 0);
    assert_eq!(
        parse_node(node),
        Ok(Some(leaf(
            Predicate::HasLabel(Some(Label::Id(INVALID_LABEL_ID))),
            false
        )))
    );
}

#[test]
fn out_of_range_compare_opcode_is_a_decode_failure() {
    let node = single_node(Key::Id, Value::Absent, 99, 0);
    assert_eq!(parse_node(node), Err(ParseError::ReadPB(99)));
}

#[test]
fn out_of_range_connector_opcode_is_a_decode_failure() {
    let chain = FilterChain {
        node: vec![
            single_node(Key::Name("a".to_string()), Value::I32(1), 0, 9),
            single_node(Key::Name("b".to_string()), Value::I32(2), 0, 0),
        ],
    };
    assert_eq!(pb_chain_to_filter(chain), Err(ParseError::ReadPB(9)));
}

#[test]
fn node_without_payload_is_invalid_data() {
    let node = FilterNode {
        inner: FilterNodeInner::Absent,
        next: 0,
    };
    assert_eq!(parse_node(node), Err(ParseError::InvalidData));
}

#[test]
fn within_comparison_is_unsupported() {
    let node = single_node(Key::Name("a".to_string()), Value::I32(1), 6, 0);
    assert_eq!(parse_node(node), Err(ParseError::OtherErr));
    assert_eq!(
        with_in(Key::Name("a".to_string()), Value::I32(1)),
        Err(ParseError::OtherErr)
    );
}

#[test]
fn lt_on_id_or_label_is_unsupported() {
    let on_id = single_node(Key::Id, Value::I32(1), 2, 0);
    assert_eq!(parse_node(on_id), Err(ParseError::OtherErr));
    let on_label = single_node(Key::Label, Value::I32(1), 3, 0);
    assert_eq!(parse_node(on_label), Err(ParseError::OtherErr));
}

#[test]
fn two_nodes_joined_by_and_connector() {
    let chain = FilterChain {
        node: vec![
            single_node(Key::Name("a".to_string()), Value::I32(1), 0, 1),
            single_node(Key::Name("b".to_string()), Value::I32(2), 0, 0),
        ],
    };
    let first = ElementFilter {
        predicate: Predicate::HasProperty("a".to_string(), Object::Primitive(Primitives::Integer(1))),
        reversed: false,
    };
    let second = ElementFilter {
        predicate: Predicate::HasProperty("b".to_string(), Object::Primitive(Primitives::Integer(2))),
        reversed: false,
    };
    let expected = Filter {
        root: Some(FilterTree::And(
            Box::new(FilterTree::Leaf(first)),
            Box::new(FilterTree::Leaf(second)),
        )),
    };
    assert_eq!(pb_chain_to_filter(chain), Ok(Some(expected)));
}

#[test]
fn nested_chain_node_compiles_recursively() {
    let inner = FilterChain {
        node: vec![single_node(
            Key::Name("a".to_string()),
            Value::Boolean(true),
            0,
            0,
        )],
    };
    let outer = FilterChain {
        node: vec![FilterNode {
            inner: FilterNodeInner::Chain(inner),
            next: 0,
        }],
    };
    let expected = leaf(
        Predicate::HasProperty(
            "a".to_string(),
            Object::Primitive(Primitives::Boolean(true)),
        ),
        false,
    );
    assert_eq!(pb_chain_to_filter(outer), Ok(Some(expected)));
}

#[test]
fn opcode_maps_are_exhaustive_and_fallible() {
    assert_eq!(compare_of(0), Ok(Compare::Eq));
    assert_eq!(compare_of(5), Ok(Compare::Ge));
    assert_eq!(compare_of(7), Ok(Compare::Without));
    assert_eq!(compare_of(8), Err(ParseError::ReadPB(8)));
    assert_eq!(compare_of(-1), Err(ParseError::ReadPB(-1)));
    assert_eq!(connect_of(0), Ok(Connect::Or));
    assert_eq!(connect_of(1), Ok(Connect::And));
    assert_eq!(connect_of(2), Err(ParseError::ReadPB(2)));
}

#[test]
fn wire_values_decode_to_objects() {
    assert_eq!(
        pb_value_to_object(Value::Blob(vec![1, 2])),
        Some(Object::Blob(vec![1, 2]))
    );
    assert_eq!(
        pb_value_to_object(Value::Boolean(true)),
        Some(Object::Primitive(Primitives::Boolean(true)))
    );
    assert_eq!(
        pb_value_to_object(Value::Str("x".to_string())),
        Some(Object::Str("x".to_string()))
    );
    assert_eq!(pb_value_to_object(Value::Absent), None);
}

#[test]
fn node_payload_accessors_distinguish_single_and_chain() {
    let single = single_node(Key::Id, Value::Absent, 0, 0);
    assert!(get_single(&single).is_some());
    assert!(get_chain(&single).is_none());

    let chain_node = FilterNode {
        inner: FilterNodeInner::Chain(FilterChain { node: Vec::new() }),
        next: 0,
    };
    assert!(get_single(&chain_node).is_none());
    assert!(get_chain(&chain_node).is_some());
}

#[test]
fn parse_error_kinds_describe_themselves() {
    assert_eq!(ParseError::ReadPB(3).describe(), "parse pb error");
    assert_eq!(
        ParseError::TypeCast(CastError {}).describe(),
        "type cast error"
    );
    assert_eq!(ParseError::InvalidData.describe(), "invalid data error");
    assert_eq!(ParseError::OtherErr.describe(), "parse error");
}

#[test]
fn parse_error_converts_into_build_job_error() {
    let e: BuildJobError = ParseError::InvalidData.into();
    assert_eq!(e, BuildJobError::DecodeFilter(ParseError::InvalidData));
}

#[test]
fn route_is_deterministic_and_groups_equal_keys() {
    assert_eq!(route(7, 2), 1);
    assert_eq!(route(7, 2), 1);
    assert_eq!(route(10, 4), 2);
    let parts = vec![vec![0u64, 1, 2, 3], vec![5, 2]];
    let routed = exchange(&parts, 2);
    assert_eq!(routed[0], vec![0, 2, 2]);
    assert_eq!(routed[1], vec![1, 3, 5]);
}

#[test]
fn correlation_groups_collect_in_emission_order() {
    let sub = vec![
        Tagged { tag: 1, value: 4 },
        Tagged { tag: 0, value: 9 },
        Tagged { tag: 1, value: 6 },
    ];
    assert_eq!(matching_values(&sub, 1), vec![4, 6]);
    assert_eq!(matching_values(&sub, 0), vec![9]);
    assert_eq!(matching_values(&sub, 2), Vec::<u64>::new());
    assert_eq!(count_tag(&sub, 1), 2);
    assert_eq!(count_tag(&sub, 2), 0);
}
