//! The compiled attribute model: typed values, range policies, and the
//! immutable attribute descriptor that compilation produces.
use crate::literal::IntValue;
use crate::types::Date;
use crate::types::TimeOfDay;
use crate::wiretype::WireType;
use crate::wiretype::WireTypeView;
use vstd::prelude::*;

verus! {

/// The side of the cluster an attribute lives on.
#[derive(PartialEq, Eq, Structural, Debug, Copy, Clone)]
pub enum AttributeSide {
    /// The attribute lives on the server side.
    Server,
    /// The attribute lives on the client side.
    Client,
    /// The attribute lives on both sides.
    Either,
}

/// A bound that is either an immediate value or a reference to the value of
/// another attribute of the same cluster, named by its code.
#[derive(PartialEq, Eq, Structural, Debug, Copy, Clone)]
pub enum ValueOrAttributeReference<T> {
    /// The value of another attribute on the same cluster.
    AttributeReference(u16),
    /// An immediate value.
    Value(T),
}

/// A compiled default value, typed by the attribute's wire-type domain.
#[derive(PartialEq, Debug, Clone)]
pub enum TypedValue {
    /// A value of an integer domain.
    Int(IntValue),
    /// A boolean; `None` is the reserved "invalid" encoding.
    Boolean(Option<bool>),
    /// A byte string; `None` is the reserved "no value" encoding.
    Octets(Option<Vec<u8>>),
    /// A character string; `None` is the reserved "no value" encoding.
    Chars(Option<Vec<u8>>),
    /// A validated value of the attribute's enumeration.
    Enumerant(u64),
    /// A time of day.
    Time(TimeOfDay),
    /// A calendar date.
    Day(Date),
    /// A floating-point value, carried as its raw encoding bits.
    FloatBits(u64),
}

/// The mathematical image of a `TypedValue`.
pub ghost enum TypedValueView {
    Int(IntValue),
    Boolean(Option<bool>),
    Octets(Option<Seq<u8>>),
    Chars(Option<Seq<u8>>),
    Enumerant(u64),
    Time(TimeOfDay),
    Day(Date),
    FloatBits(u64),
}

impl View for TypedValue {
    type V = TypedValueView;

    open spec fn view(&self) -> TypedValueView {
        match self {
            TypedValue::Int(v) => TypedValueView::Int(*v),
            TypedValue::Boolean(v) => TypedValueView::Boolean(*v),
            TypedValue::Octets(v) => TypedValueView::Octets(
                match v {
                    Some(x) => Some(x@),
                    None => None,
                },
            ),
            TypedValue::Chars(v) => TypedValueView::Chars(
                match v {
                    Some(x) => Some(x@),
                    None => None,
                },
            ),
            TypedValue::Enumerant(v) => TypedValueView::Enumerant(*v),
            TypedValue::Time(v) => TypedValueView::Time(*v),
            TypedValue::Day(v) => TypedValueView::Day(*v),
            TypedValue::FloatBits(v) => TypedValueView::FloatBits(*v),
        }
    }
}

/// The validity domain declared for an attribute's values.
#[derive(PartialEq, Eq, Structural, Debug, Copy, Clone)]
pub enum AttributeRange {
    /// No constraint is stated.
    Ignore,
    /// Any value except the wire type's reserved "no value" encoding.
    Value,
    /// Any value; a reserved "no value" encoding, if any, counts as ordinary
    /// data.
    Full,
    /// Any value; the reserved "no value" encoding stands for "absent".
    FullWithNone,
    /// An inclusive range between two immediate typed bounds.
    InclusiveRange(IntValue, IntValue),
    /// An inclusive range between the values of two sibling attributes,
    /// named by their codes.
    InclusiveRangeReference(u16, u16),
    /// A maximum size in bytes, for length-prefixed kinds.
    Size(usize),
}

impl AttributeRange {
    /// The lower bound, where the range states one: an immediate value or a
    /// sibling-attribute reference.
    pub fn min_bound(&self) -> (r: Option<ValueOrAttributeReference<IntValue>>)
        ensures
            r == match *self {
                AttributeRange::InclusiveRange(lo, _) => Some(
                    ValueOrAttributeReference::<IntValue>::Value(lo),
                ),
                AttributeRange::InclusiveRangeReference(lo, _) => Some(
                    ValueOrAttributeReference::<IntValue>::AttributeReference(lo),
                ),
                _ => None,
            },
    {
        match self {
            AttributeRange::InclusiveRange(lo, _) => Some(ValueOrAttributeReference::Value(*lo)),
            AttributeRange::InclusiveRangeReference(lo, _) => Some(
                ValueOrAttributeReference::AttributeReference(*lo),
            ),
            _ => None,
        }
    }

    /// The upper bound, where the range states one: an immediate value or a
    /// sibling-attribute reference.
    pub fn max_bound(&self) -> (r: Option<ValueOrAttributeReference<IntValue>>)
        ensures
            r == match *self {
                AttributeRange::InclusiveRange(_, hi) => Some(
                    ValueOrAttributeReference::<IntValue>::Value(hi),
                ),
                AttributeRange::InclusiveRangeReference(_, hi) => Some(
                    ValueOrAttributeReference::<IntValue>::AttributeReference(hi),
                ),
                _ => None,
            },
    {
        match self {
            AttributeRange::InclusiveRange(_, hi) => Some(ValueOrAttributeReference::Value(*hi)),
            AttributeRange::InclusiveRangeReference(_, hi) => Some(
                ValueOrAttributeReference::AttributeReference(*hi),
            ),
            _ => None,
        }
    }
}

/// A compiled attribute descriptor: immutable output of the compiler.
#[derive(PartialEq, Debug, Clone)]
pub struct Attribute {
    /// The attribute code.
    pub code: u16,
    /// The declared name.
    pub name: Vec<u8>,
    /// The side of the cluster the attribute lives on.
    pub side: AttributeSide,
    /// Whether the attribute can be read.
    pub readable: bool,
    /// Whether the attribute can be written.
    pub writable: bool,
    /// Whether the attribute can be reported.
    pub reportable: bool,
    /// Whether the attribute takes part in scenes.
    pub scene: bool,
    /// Whether an implementation must provide the attribute.
    pub mandatory: bool,
    /// The resolved wire type.
    pub wire_type: WireType,
    /// The compiled default value, if one is declared.
    pub default: Option<TypedValue>,
    /// The compiled validity domain.
    pub range: AttributeRange,
}

/// The mathematical image of an `Attribute`.
pub ghost struct AttributeView {
    pub code: u16,
    pub name: Seq<u8>,
    pub side: AttributeSide,
    pub readable: bool,
    pub writable: bool,
    pub reportable: bool,
    pub scene: bool,
    pub mandatory: bool,
    pub wire_type: WireTypeView,
    pub default: Option<TypedValueView>,
    pub range: AttributeRange,
}

impl View for Attribute {
    type V = AttributeView;

    open spec fn view(&self) -> AttributeView {
        AttributeView {
            code: self.code,
            name: self.name@,
            side: self.side,
            readable: self.readable,
            writable: self.writable,
            reportable: self.reportable,
            scene: self.scene,
            mandatory: self.mandatory,
            wire_type: self.wire_type@,
            default: match &self.default {
                Some(v) => Some(v@),
                None => None,
            },
            range: self.range,
        }
    }
}

} // verus!
