//! Filter-chain codec: compiles a decoded wire-format filter-chain
//! description into an element predicate.
//!
//! Wire opcodes are mapped to their closed variant sets by exhaustive,
//! fallible decoding: an out-of-range opcode is a decode error. The codec
//! consumes the wire tree it is given and reports every failure as a
//! distinguishable kind, so callers can render a precise diagnostic.

use crate::filter::by_property;
use crate::filter::by_property_le;
use crate::filter::by_property_lt;
use crate::filter::has_id;
use crate::filter::has_label;
use crate::filter::has_property;
use crate::filter::has_property_le;
use crate::filter::has_property_lt;
use crate::filter::spec_and;
use crate::filter::spec_as_u64;
use crate::filter::spec_or;
use crate::filter::CastError;
use crate::filter::ElementFilter;
use crate::filter::Filter;
use crate::filter::FilterTree;
use crate::filter::Label;
use crate::filter::Object;
use crate::filter::Predicate;
use crate::filter::Primitives;
use crate::filter::INVALID_LABEL_ID;
use crate::pb::Compare;
use crate::pb::Connect;
use crate::pb::FilterChain;
use crate::pb::FilterExp;
use crate::pb::FilterNode;
use crate::pb::FilterNodeInner;
use crate::pb::Key;
use crate::pb::Value;
use vstd::prelude::*;

verus! {

/// Failure of the filter compiler, by distinguishable kind.
#[derive(Copy, Clone, PartialEq, Eq, Structural, Debug)]
pub enum ParseError {
    /// Malformed encoded input: a raw opcode outside the wire format's
    /// closed sets.
    ReadPB(i32),
    /// A comparison operand could not be cast to the type the comparison
    /// needs.
    TypeCast(CastError),
    /// Structurally invalid input: a node or operand with no payload where
    /// one is required.
    InvalidData,
    /// An input shape this compiler does not support.
    OtherErr,
}

impl ParseError {
    /// A short description of the failure kind, for rendering a diagnostic.
    pub fn describe(&self) -> (r: &'static str)
        ensures
            r@ == match *self {
                ParseError::ReadPB(_) => "parse pb error"@,
                ParseError::TypeCast(_) => "type cast error"@,
                ParseError::InvalidData => "invalid data error"@,
                ParseError::OtherErr => "parse error"@,
            },
    {
        match self {
            ParseError::ReadPB(_) => "parse pb error",
            ParseError::TypeCast(_) => "type cast error",
            ParseError::InvalidData => "invalid data error",
            ParseError::OtherErr => "parse error",
        }
    }
}

/// The comparison variant a wire opcode stands for, if any.
pub open spec fn spec_compare_of(code: i32) -> Option<Compare> {
    if code == 0 {
        Some(Compare::Eq)
    } else if code == 1 {
        Some(Compare::Ne)
    } else if code == 2 {
        Some(Compare::Lt)
    } else if code == 3 {
        Some(Compare::Le)
    } else if code == 4 {
        Some(Compare::Gt)
    } else if code == 5 {
        Some(Compare::Ge)
    } else if code == 6 {
        Some(Compare::Within)
    } else if code == 7 {
        Some(Compare::Without)
    } else {
        None
    }
}

/// Exhaustive, fallible mapping from a wire comparison opcode to its
/// variant: an out-of-range opcode is a decode error, never a
/// reinterpretation of raw bits.
pub fn compare_of(code: i32) -> (r: Result<Compare, ParseError>)
    ensures
        r == match spec_compare_of(code) {
            Some(c) => Ok::<Compare, ParseError>(c),
            None => Err::<Compare, ParseError>(ParseError::ReadPB(code)),
        },
{
    match code {
        0 => Ok(Compare::Eq),
        1 => Ok(Compare::Ne),
        2 => Ok(Compare::Lt),
        3 => Ok(Compare::Le),
        4 => Ok(Compare::Gt),
        5 => Ok(Compare::Ge),
        6 => Ok(Compare::Within),
        7 => Ok(Compare::Without),
        _ => Err(ParseError::ReadPB(code)),
    }
}

/// The connector variant a wire opcode stands for, if any.
pub open spec fn spec_connect_of(code: i32) -> Option<Connect> {
    if code == 0 {
        Some(Connect::Or)
    } else if code == 1 {
        Some(Connect::And)
    } else {
        None
    }
}

/// Exhaustive, fallible mapping from a wire connector opcode to its
/// variant.
pub fn connect_of(code: i32) -> (r: Result<Connect, ParseError>)
    ensures
        r == match spec_connect_of(code) {
            Some(c) => Ok::<Connect, ParseError>(c),
            None => Err::<Connect, ParseError>(ParseError::ReadPB(code)),
        },
{
    match code {
        0 => Ok(Connect::Or),
        1 => Ok(Connect::And),
        _ => Err(ParseError::ReadPB(code)),
    }
}

/// The runtime object a wire constant decodes to; an absent value decodes
/// to none.
pub open spec fn spec_value_to_object(raw: Value) -> Option<Object> {
    match raw {
        Value::Blob(b) => Some(Object::Blob(b)),
        Value::Boolean(x) => Some(Object::Primitive(Primitives::Boolean(x))),
        Value::I32(x) => Some(Object::Primitive(Primitives::Integer(x))),
        Value::I64(x) => Some(Object::Primitive(Primitives::Long(x))),
        Value::Str(s) => Some(Object::Str(s)),
        Value::Absent => None,
    }
}

/// Decodes a wire constant into a runtime object.
pub fn pb_value_to_object(raw: Value) -> (r: Option<Object>)
    ensures
        r == spec_value_to_object(raw),
{
    match raw {
        Value::Blob(b) => Some(Object::Blob(b)),
        Value::Boolean(x) => Some(Object::Primitive(Primitives::Boolean(x))),
        Value::I32(x) => Some(Object::Primitive(Primitives::Integer(x))),
        Value::I64(x) => Some(Object::Primitive(Primitives::Long(x))),
        Value::Str(s) => Some(Object::Str(s)),
        Value::Absent => None,
    }
}

/// The single-comparison payload of a node, when it has one.
pub fn get_single(node: &FilterNode) -> (r: Option<&FilterExp>)
    ensures
        match node.inner {
            FilterNodeInner::Single(single) => r matches Some(s) && *s == single,
            _ => r is None,
        },
{
    match &node.inner {
        FilterNodeInner::Single(single) => Some(single),
        _ => None,
    }
}

/// The nested-chain payload of a node, when it has one.
pub fn get_chain(node: &FilterNode) -> (r: Option<&FilterChain>)
    ensures
        match node.inner {
            FilterNodeInner::Chain(chain) => r matches Some(c) && *c == chain,
            _ => r is None,
        },
{
    match &node.inner {
        FilterNodeInner::Chain(chain) => Some(chain),
        _ => None,
    }
}

/// The equality predicate `left == right` compiles to, or the failure it
/// reports.
pub open spec fn spec_eq_filter(left: Key, right: Value) -> Result<ElementFilter, ParseError> {
    match left {
        Key::Name(name) => match spec_value_to_object(right) {
            Some(value) => Ok(
                ElementFilter { predicate: Predicate::HasProperty(name, value), reversed: false },
            ),
            None => Ok(ElementFilter { predicate: Predicate::ByProperty(name), reversed: false }),
        },
        Key::NameId(_) => Err(ParseError::OtherErr),
        Key::Id => match spec_value_to_object(right) {
            None => Ok(ElementFilter { predicate: Predicate::HasId(None), reversed: false }),
            Some(o) => match spec_as_u64(o) {
                Ok(u) => Ok(
                    ElementFilter { predicate: Predicate::HasId(Some(u)), reversed: false },
                ),
                Err(c) => Err(ParseError::TypeCast(c)),
            },
        },
        Key::Label => match spec_value_to_object(right) {
            None => Ok(ElementFilter { predicate: Predicate::HasLabel(None), reversed: false }),
            Some(o) => match o {
                Object::Primitive(Primitives::Integer(id)) => Ok(
                    ElementFilter {
                        predicate: Predicate::HasLabel(
                            Some(
                                Label::Id(
                                    if id >= 0 {
                                        id as u32
                                    } else {
                                        INVALID_LABEL_ID
                                    },
                                ),
                            ),
                        ),
                        reversed: false,
                    },
                ),
                Object::Str(s) => Ok(
                    ElementFilter {
                        predicate: Predicate::HasLabel(Some(Label::Str(s))),
                        reversed: false,
                    },
                ),
                _ => Err(ParseError::InvalidData),
            },
        },
        Key::Absent => Err(ParseError::InvalidData),
    }
}

fn eq(left: Key, right: Value) -> (r: Result<ElementFilter, ParseError>)
    ensures
        r == spec_eq_filter(left, right),
{
    match left {
        Key::Name(name) => match pb_value_to_object(right) {
            Some(value) => Ok(has_property(name, value)),
            None => Ok(by_property(name)),
        },
        Key::NameId(_) => Err(ParseError::OtherErr),
        Key::Id => match pb_value_to_object(right) {
            None => Ok(has_id(None)),
            Some(o) => match o.as_u64() {
                Ok(u) => Ok(has_id(Some(u))),
                Err(c) => Err(ParseError::TypeCast(c)),
            },
        },
        Key::Label => match pb_value_to_object(right) {
            None => Ok(has_label(None)),
            Some(o) => match o {
                Object::Primitive(Primitives::Integer(id)) => {
                    let label_id = if id >= 0 {
                        id as u32
                    } else {
                        INVALID_LABEL_ID
                    };
                    Ok(has_label(Some(Label::Id(label_id))))
                },
                Object::Str(s) => Ok(has_label(Some(Label::Str(s)))),
                _ => Err(ParseError::InvalidData),
            },
        },
        Key::Absent => Err(ParseError::InvalidData),
    }
}

/// The less-than predicate `left < right` compiles to, or the failure it
/// reports: only a property named by name can be ordered.
pub open spec fn spec_lt_filter(left: Key, right: Value) -> Result<ElementFilter, ParseError> {
    match left {
        Key::Name(name) => match spec_value_to_object(right) {
            Some(value) => Ok(
                ElementFilter { predicate: Predicate::HasPropertyLt(name, value), reversed: false },
            ),
            None => Ok(
                ElementFilter { predicate: Predicate::ByPropertyLt(name), reversed: false },
            ),
        },
        Key::NameId(_) => Err(ParseError::OtherErr),
        Key::Id => Err(ParseError::OtherErr),
        Key::Label => Err(ParseError::OtherErr),
        Key::Absent => Err(ParseError::InvalidData),
    }
}

fn lt(left: Key, right: Value) -> (r: Result<ElementFilter, ParseError>)
    ensures
        r == spec_lt_filter(left, right),
{
    match left {
        Key::Name(name) => match pb_value_to_object(right) {
            Some(value) => Ok(has_property_lt(name, value)),
            None => Ok(by_property_lt(name)),
        },
        Key::NameId(_) => Err(ParseError::OtherErr),
        Key::Id => Err(ParseError::OtherErr),
        Key::Label => Err(ParseError::OtherErr),
        Key::Absent => Err(ParseError::InvalidData),
    }
}

/// The less-or-equal predicate `left <= right` compiles to, or the failure
/// it reports.
pub open spec fn spec_lte_filter(left: Key, right: Value) -> Result<ElementFilter, ParseError> {
    match left {
        Key::Name(name) => match spec_value_to_object(right) {
            Some(value) => Ok(
                ElementFilter { predicate: Predicate::HasPropertyLe(name, value), reversed: false },
            ),
            None => Ok(
                ElementFilter { predicate: Predicate::ByPropertyLe(name), reversed: false },
            ),
        },
        _ => Err(ParseError::OtherErr),
    }
}

fn lte(left: Key, right: Value) -> (r: Result<ElementFilter, ParseError>)
    ensures
        r == spec_lte_filter(left, right),
{
    match left {
        Key::Name(name) => match pb_value_to_object(right) {
            Some(value) => Ok(has_property_le(name, value)),
            None => Ok(by_property_le(name)),
        },
        _ => Err(ParseError::OtherErr),
    }
}

/// Set-membership comparisons are not supported by this compiler: decoding
/// a chain that uses them reports an unsupported-input failure.
pub fn with_in(_left: Key, _right: Value) -> (r: Result<ElementFilter, ParseError>)
    ensures
        r == Err::<ElementFilter, ParseError>(ParseError::OtherErr),
{
    Err(ParseError::OtherErr)
}

/// The filter with the test reversed: it accepts exactly what the bare
/// test rejects.
pub open spec fn spec_reverse(f: ElementFilter) -> ElementFilter {
    ElementFilter { reversed: !f.reversed, ..f }
}

pub open spec fn spec_reverse_result(r: Result<ElementFilter, ParseError>) -> Result<
    ElementFilter,
    ParseError,
> {
    match r {
        Ok(f) => Ok(spec_reverse(f)),
        Err(e) => Err(e),
    }
}

fn reversed(r: Result<ElementFilter, ParseError>) -> (rr: Result<ElementFilter, ParseError>)
    ensures
        rr == spec_reverse_result(r),
{
    match r {
        Ok(mut f) => {
            f.reverse();
            Ok(f)
        },
        Err(e) => Err(e),
    }
}

/// The element predicate one comparison compiles to: the negated operators
/// reverse their positive counterpart, as the wire format defines them.
pub open spec fn spec_single_filter(cmp: Compare, left: Key, right: Value) -> Result<
    ElementFilter,
    ParseError,
> {
    match cmp {
        Compare::Eq => spec_eq_filter(left, right),
        Compare::Ne => spec_reverse_result(spec_eq_filter(left, right)),
        Compare::Lt => spec_lt_filter(left, right),
        Compare::Le => spec_lte_filter(left, right),
        Compare::Gt => spec_reverse_result(spec_lte_filter(left, right)),
        Compare::Ge => spec_reverse_result(spec_lt_filter(left, right)),
        Compare::Within => Err(ParseError::OtherErr),
        Compare::Without => Err(ParseError::OtherErr),
    }
}

/// The compiled form of one chain node, or the failure it reports.
pub open spec fn spec_parse_node(node: FilterNode) -> Result<Option<Filter>, ParseError>
    decreases node,
{
    match node.inner {
        FilterNodeInner::Single(single) => match spec_compare_of(single.cmp) {
            Some(cmp) => match spec_single_filter(cmp, single.left, single.right) {
                Ok(f) => Ok(Some(Filter { root: Some(FilterTree::Leaf(f)) })),
                Err(e) => Err(e),
            },
            None => Err(ParseError::ReadPB(single.cmp)),
        },
        FilterNodeInner::Chain(chain) => spec_chain_to_filter(chain),
        FilterNodeInner::Absent => Err(ParseError::InvalidData),
    }
}

/// The left-to-right combination of a chain's nodes: each parsed node is
/// attached to the accumulated chain with the connector decoded from the
/// node before it, and every connector opcode is validated, the last node's
/// included.
pub open spec fn spec_chain_fold(
    nodes: Seq<FilterNode>,
    acc: Option<FilterTree>,
    connect: Connect,
) -> Result<Option<FilterTree>, ParseError>
    decreases nodes,
{
    if nodes.len() == 0 {
        Ok(acc)
    } else {
        match spec_parse_node(nodes[0]) {
            Err(e) => Err(e),
            Ok(parsed) => {
                let acc2 = match parsed {
                    Some(f) => match connect {
                        Connect::And => spec_and(acc, f.root),
                        Connect::Or => spec_or(acc, f.root),
                    },
                    None => acc,
                };
                match spec_connect_of(nodes[0].next) {
                    Some(c) => spec_chain_fold(nodes.subrange(1, nodes.len() as int), acc2, c),
                    None => Err(ParseError::ReadPB(nodes[0].next)),
                }
            },
        }
    }
}

/// The compiled form of a whole filter-chain description: an empty chain
/// compiles to no filter, a single node stands alone, and a longer chain is
/// folded left to right starting from an empty accumulator.
pub open spec fn spec_chain_to_filter(chain: FilterChain) -> Result<Option<Filter>, ParseError>
    decreases chain,
{
    if chain.node@.len() == 0 {
        Ok(None)
    } else if chain.node@.len() == 1 {
        spec_parse_node(chain.node@[0])
    } else {
        match spec_chain_fold(chain.node@, None, Connect::Or) {
            Ok(root) => if root is None {
                Ok(None)
            } else {
                Ok(Some(Filter { root }))
            },
            Err(e) => Err(e),
        }
    }
}

fn chain_fold(nodes: Vec<FilterNode>, acc: Filter, connect: Connect) -> (r: Result<
    Filter,
    ParseError,
>)
    ensures
        match r {
            Ok(f) => spec_chain_fold(nodes@, acc.root, connect) == Ok::<
                Option<FilterTree>,
                ParseError,
            >(f.root),
            Err(e) => spec_chain_fold(nodes@, acc.root, connect) == Err::<
                Option<FilterTree>,
                ParseError,
            >(e),
        },
    decreases nodes@,
{
    let ghost gnodes = nodes@;
    let mut nodes = nodes;
    let mut acc = acc;
    if nodes.len() == 0 {
        return Ok(acc);
    }
    let n = nodes.remove(0);
    let ghost gn = n;
    let next_code = n.next;
    proof {
        assert(gn == gnodes[0]);
        assert(nodes@ =~= gnodes.subrange(1, gnodes.len() as int));
    }
    match parse_node(n) {
        Err(e) => Err(e),
        Ok(parsed) => {
            match parsed {
                Some(f) => match connect {
                    Connect::And => acc.and(f),
                    Connect::Or => acc.or(f),
                },
                None => (),
            }
            match connect_of(next_code) {
                Ok(c) => chain_fold(nodes, acc, c),
                Err(e) => Err(e),
            }
        },
    }
}

/// Decodes one node of a filter chain: a single comparison becomes one
/// element predicate, a nested chain is compiled recursively, and a node
/// with no payload is structurally invalid.
pub fn parse_node(node: FilterNode) -> (r: Result<Option<Filter>, ParseError>)
    ensures
        r == spec_parse_node(node),
    decreases node,
{
    let ghost gnode = node;
    match node.inner {
        FilterNodeInner::Single(single) => {
            let FilterExp { left, right, cmp } = single;
            match compare_of(cmp) {
                Err(e) => Err(e),
                Ok(c) => {
                    let fr = match c {
                        Compare::Eq => eq(left, right),
                        Compare::Ne => reversed(eq(left, right)),
                        Compare::Lt => lt(left, right),
                        Compare::Le => lte(left, right),
                        Compare::Gt => reversed(lte(left, right)),
                        Compare::Ge => reversed(lt(left, right)),
                        Compare::Within => with_in(left, right),
                        Compare::Without => reversed(with_in(left, right)),
                    };
                    match fr {
                        Ok(f) => Ok(Some(Filter::with(f))),
                        Err(e) => Err(e),
                    }
                },
            }
        },
        FilterNodeInner::Chain(chain) => pb_chain_to_filter(chain),
        FilterNodeInner::Absent => Err(ParseError::InvalidData),
    }
}

/// Compiles a whole filter-chain description into an element predicate:
/// `Ok(None)` when the chain holds no predicate at all, otherwise the
/// chain's nodes combined left to right by their decoded connectors, or the
/// first failure the compilation meets.
pub fn pb_chain_to_filter(pb_chain: FilterChain) -> (r: Result<Option<Filter>, ParseError>)
    ensures
        r == spec_chain_to_filter(pb_chain),
    decreases pb_chain,
{
    let ghost gchain = pb_chain;
    let FilterChain { node } = pb_chain;
    if node.len() == 0 {
        return Ok(None);
    }
    if node.len() == 1 {
        let mut node = node;
        let n = node.remove(0);
        return parse_node(n);
    }
    match chain_fold(node, Filter::default(), Connect::Or) {
        Ok(f) => {
            if f.is_empty() {
                Ok(None)
            } else {
                Ok(Some(f))
            }
        },
        Err(e) => Err(e),
    }
}

} // verus!
