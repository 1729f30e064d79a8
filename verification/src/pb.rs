//! Wire-format data model of the filter compiler collaborator: the decoded
//! form of a serialized filter-chain description — a tree of comparison
//! nodes combined by AND/OR connectors.
//!
//! Opcodes arrive as raw integers and are mapped to their closed variant
//! sets only by the codec's exhaustive, fallible decoding: an out-of-range
//! opcode is a decode error, never a reinterpretation of raw bits.

use vstd::prelude::*;

verus! {

/// A wire-format constant: the right-hand operand of a comparison.
#[derive(Clone, PartialEq, Eq, Debug)]
pub enum Value {
    /// Raw bytes.
    Blob(Vec<u8>),
    Boolean(bool),
    I32(i32),
    I64(i64),
    Str(String),
    /// The encoded value was absent or explicitly none.
    Absent,
}

/// A wire-format key: the left-hand operand of a comparison, naming what is
/// read from a graph element.
#[derive(Clone, PartialEq, Eq, Debug)]
pub enum Key {
    /// A property, by name.
    Name(String),
    /// A property, by interned name identifier.
    NameId(i32),
    /// The element's identifier.
    Id,
    /// The element's label.
    Label,
    /// The encoded key was absent.
    Absent,
}

/// One comparison: `left cmp right`, with `cmp` still a raw wire opcode.
#[derive(Clone, PartialEq, Eq, Debug)]
pub struct FilterExp {
    pub left: Key,
    pub right: Value,
    pub cmp: i32,
}

/// The payload of one filter node: a single comparison or a nested chain.
#[derive(PartialEq, Eq, Debug)]
pub enum FilterNodeInner {
    Single(FilterExp),
    Chain(FilterChain),
    /// The encoded node had no payload.
    Absent,
}

/// One node of a filter chain, with the raw opcode of the connector joining
/// it to the node after it.
#[derive(PartialEq, Eq, Debug)]
pub struct FilterNode {
    pub inner: FilterNodeInner,
    pub next: i32,
}

/// A filter-chain description: comparison nodes combined left to right.
#[derive(PartialEq, Eq, Debug)]
pub struct FilterChain {
    pub node: Vec<FilterNode>,
}

/// The closed set of comparison operators.
#[derive(Copy, Clone, PartialEq, Eq, Structural, Debug)]
pub enum Compare {
    Eq,
    Ne,
    Lt,
    Le,
    Gt,
    Ge,
    Within,
    Without,
}

/// The closed set of connectors between chain nodes.
#[derive(Copy, Clone, PartialEq, Eq, Structural, Debug)]
pub enum Connect {
    Or,
    And,
}

} // verus!
