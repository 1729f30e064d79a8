//! Element filter model: the predicate structure the filter compiler
//! produces, evaluable against a graph element by a filter operator.

use vstd::prelude::*;

verus! {

/// A primitive runtime value.
#[derive(Clone, PartialEq, Eq, Debug)]
pub enum Primitives {
    Boolean(bool),
    Integer(i32),
    Long(i64),
    ULong(u64),
}

/// A dynamically typed runtime value, compared against what a key reads
/// from a graph element.
#[derive(Clone, PartialEq, Eq, Debug)]
pub enum Object {
    Primitive(Primitives),
    Str(String),
    Blob(Vec<u8>),
}

/// Failure to cast a runtime value to the type a comparison needs.
#[derive(Copy, Clone, PartialEq, Eq, Structural, Debug)]
pub struct CastError {}

/// The unsigned identifier an object casts to: the cast succeeds exactly
/// on non-negative integral values.
pub open spec fn spec_as_u64(o: Object) -> Result<u64, CastError> {
    match o {
        Object::Primitive(Primitives::Integer(i)) => if i >= 0 {
            Ok(i as u64)
        } else {
            Err(CastError {  })
        },
        Object::Primitive(Primitives::Long(i)) => if i >= 0 {
            Ok(i as u64)
        } else {
            Err(CastError {  })
        },
        Object::Primitive(Primitives::ULong(u)) => Ok(u),
        _ => Err(CastError {  }),
    }
}

impl Object {
    /// Casts this object to an unsigned 64-bit identifier. Succeeds exactly
    /// on non-negative integral values.
    pub fn as_u64(&self) -> (r: Result<u64, CastError>)
        ensures
            r == spec_as_u64(*self),
    {
        match self {
            Object::Primitive(Primitives::Integer(i)) => if *i >= 0 {
                Ok(*i as u64)
            } else {
                Err(CastError {  })
            },
            Object::Primitive(Primitives::Long(i)) => if *i >= 0 {
                Ok(*i as u64)
            } else {
                Err(CastError {  })
            },
            Object::Primitive(Primitives::ULong(u)) => Ok(*u),
            _ => Err(CastError {  }),
        }
    }
}

/// The label identifier that stands in for an identifier the wire value
/// could not represent.
pub const INVALID_LABEL_ID: u32 = 0xffff_ffff;

/// A graph element label, by identifier or by name.
#[derive(Clone, PartialEq, Eq, Debug)]
pub enum Label {
    Id(u32),
    Str(String),
}

/// What one element filter tests.
#[derive(Clone, PartialEq, Eq, Debug)]
pub enum Predicate {
    /// The named property equals the value.
    HasProperty(String, Object),
    /// The named property is compared against the element's own value space
    /// with no constant given.
    ByProperty(String),
    /// The element's identifier equals the given one; `None` tests only
    /// that an identifier is present.
    HasId(Option<u64>),
    /// The element's label equals the given one; `None` tests only that a
    /// label is present.
    HasLabel(Option<Label>),
    /// The named property is less than the value.
    HasPropertyLt(String, Object),
    /// Less-than form of `ByProperty`.
    ByPropertyLt(String),
    /// The named property is less than or equal to the value.
    HasPropertyLe(String, Object),
    /// Less-or-equal form of `ByProperty`.
    ByPropertyLe(String),
}

/// One element predicate: a test, possibly negated.
#[derive(Clone, PartialEq, Eq, Debug)]
pub struct ElementFilter {
    pub predicate: Predicate,
    /// When set, the filter accepts exactly the elements the bare test
    /// rejects.
    pub reversed: bool,
}

impl ElementFilter {
    fn with(predicate: Predicate) -> (r: ElementFilter)
        ensures
            r == (ElementFilter { predicate, reversed: false }),
    {
        ElementFilter { predicate, reversed: false }
    }

    /// Negates this filter: reversing twice restores the bare test.
    pub fn reverse(&mut self)
        ensures
            *final(self) == (ElementFilter {
                reversed: !old(self).reversed,
                ..*old(self)
            }),
    {
        self.reversed = !self.reversed;
    }
}

/// Filter on a property equalling a constant.
pub fn has_property(name: String, value: Object) -> (r: ElementFilter)
    ensures
        r == (ElementFilter { predicate: Predicate::HasProperty(name, value), reversed: false }),
{
    ElementFilter::with(Predicate::HasProperty(name, value))
}

/// Filter on a property with no constant operand.
pub fn by_property(name: String) -> (r: ElementFilter)
    ensures
        r == (ElementFilter { predicate: Predicate::ByProperty(name), reversed: false }),
{
    ElementFilter::with(Predicate::ByProperty(name))
}

/// Filter on the element identifier.
pub fn has_id(id: Option<u64>) -> (r: ElementFilter)
    ensures
        r == (ElementFilter { predicate: Predicate::HasId(id), reversed: false }),
{
    ElementFilter::with(Predicate::HasId(id))
}

/// Filter on the element label.
pub fn has_label(label: Option<Label>) -> (r: ElementFilter)
    ensures
        r == (ElementFilter { predicate: Predicate::HasLabel(label), reversed: false }),
{
    ElementFilter::with(Predicate::HasLabel(label))
}

/// Less-than filter on a property against a constant.
pub fn has_property_lt(name: String, value: Object) -> (r: ElementFilter)
    ensures
        r == (ElementFilter { predicate: Predicate::HasPropertyLt(name, value), reversed: false }),
{
    ElementFilter::with(Predicate::HasPropertyLt(name, value))
}

/// Less-than filter on a property with no constant operand.
pub fn by_property_lt(name: String) -> (r: ElementFilter)
    ensures
        r == (ElementFilter { predicate: Predicate::ByPropertyLt(name), reversed: false }),
{
    ElementFilter::with(Predicate::ByPropertyLt(name))
}

/// Less-or-equal filter on a property against a constant.
pub fn has_property_le(name: String, value: Object) -> (r: ElementFilter)
    ensures
        r == (ElementFilter { predicate: Predicate::HasPropertyLe(name, value), reversed: false }),
{
    ElementFilter::with(Predicate::HasPropertyLe(name, value))
}

/// Less-or-equal filter on a property with no constant operand.
pub fn by_property_le(name: String) -> (r: ElementFilter)
    ensures
        r == (ElementFilter { predicate: Predicate::ByPropertyLe(name), reversed: false }),
{
    ElementFilter::with(Predicate::ByPropertyLe(name))
}

/// A compiled filter: element predicates combined by AND/OR connectors.
#[derive(PartialEq, Eq, Debug)]
pub enum FilterTree {
    Leaf(ElementFilter),
    And(Box<FilterTree>, Box<FilterTree>),
    Or(Box<FilterTree>, Box<FilterTree>),
}

/// A chain of element predicates under construction: empty until the first
/// predicate is attached.
#[derive(PartialEq, Eq, Debug)]
pub struct Filter {
    pub root: Option<FilterTree>,
}

/// The chain that results from attaching `b` to `a` with AND: an empty side
/// disappears.
pub open spec fn spec_and(a: Option<FilterTree>, b: Option<FilterTree>) -> Option<FilterTree> {
    match (a, b) {
        (Option::None, _) => b,
        (_, Option::None) => a,
        (Option::Some(x), Option::Some(y)) => Some(FilterTree::And(Box::new(x), Box::new(y))),
    }
}

/// The chain that results from attaching `b` to `a` with OR: an empty side
/// disappears.
pub open spec fn spec_or(a: Option<FilterTree>, b: Option<FilterTree>) -> Option<FilterTree> {
    match (a, b) {
        (Option::None, _) => b,
        (_, Option::None) => a,
        (Option::Some(x), Option::Some(y)) => Some(FilterTree::Or(Box::new(x), Box::new(y))),
    }
}

impl Filter {
    /// Whether no predicate has been attached yet.
    pub fn is_empty(&self) -> (r: bool)
        ensures
            r == (self.root is None),
    {
        match &self.root {
            Option::Some(_) => false,
            Option::None => true,
        }
    }

    /// A chain holding the one given predicate.
    pub fn with(f: ElementFilter) -> (r: Filter)
        ensures
            r.root == Some(FilterTree::Leaf(f)),
    {
        Filter { root: Some(FilterTree::Leaf(f)) }
    }

    /// Attaches another chain with AND.
    pub fn and(&mut self, other: Filter)
        ensures
            final(self).root == spec_and(old(self).root, other.root),
    {
        let root = self.root.take();
        self.root = match (root, other.root) {
            (Option::None, b) => b,
            (a, Option::None) => a,
            (Option::Some(x), Option::Some(y)) => Some(
                FilterTree::And(Box::new(x), Box::new(y)),
            ),
        };
    }

    /// Attaches another chain with OR.
    pub fn or(&mut self, other: Filter)
        ensures
            final(self).root == spec_or(old(self).root, other.root),
    {
        let root = self.root.take();
        self.root = match (root, other.root) {
            (Option::None, b) => b,
            (a, Option::None) => a,
            (Option::Some(x), Option::Some(y)) => Some(FilterTree::Or(Box::new(x), Box::new(y))),
        };
    }
}

impl Default for Filter {
    /// An empty chain.
    fn default() -> (r: Filter)
        ensures
            r.root is None,
    {
        Filter { root: None }
    }
}

} // verus!
