//! Self-describing, dynamically typed values as exchanged over the bus, and
//! the errors that arise when a wire value does not decode to the native
//! type a method declares.

use vstd::prelude::*;

verus! {

/// The dynamic type tag a wire value carries.
#[derive(Clone, Copy, Debug, PartialEq, Eq, Structural)]
pub enum WireType {
    Bool,
    Int32,
    Uint32,
    Text,
    ObjectPath,
    Sequence,
    PropMap,
    Variant,
}

/// A self-describing, dynamically typed value exchanged over the bus.
///
/// A structured record travels as a [`WireValue::PropMap`]: a map from
/// declared field name to a tagged ([`WireValue::Variant`]) value. A
/// reference to a remote object travels as a [`WireValue::ObjectPath`]
/// handle.
#[derive(Debug)]
pub enum WireValue {
    Bool(bool),
    Int32(i32),
    Uint32(u32),
    Text(String),
    ObjectPath(String),
    Sequence(Vec<WireValue>),
    PropMap(Vec<(String, WireValue)>),
    Variant(Box<WireValue>),
}

/// The dynamic type tag of `v`.
pub open spec fn wire_type_of(v: WireValue) -> WireType {
    match v {
        WireValue::Bool(_) => WireType::Bool,
        WireValue::Int32(_) => WireType::Int32,
        WireValue::Uint32(_) => WireType::Uint32,
        WireValue::Text(_) => WireType::Text,
        WireValue::ObjectPath(_) => WireType::ObjectPath,
        WireValue::Sequence(_) => WireType::Sequence,
        WireValue::PropMap(_) => WireType::PropMap,
        WireValue::Variant(_) => WireType::Variant,
    }
}

impl WireValue {
    /// The dynamic type tag of this value.
    pub fn wire_type(&self) -> (t: WireType)
        ensures
            t == wire_type_of(*self),
    {
        match self {
            WireValue::Bool(_) => WireType::Bool,
            WireValue::Int32(_) => WireType::Int32,
            WireValue::Uint32(_) => WireType::Uint32,
            WireValue::Text(_) => WireType::Text,
            WireValue::ObjectPath(_) => WireType::ObjectPath,
            WireValue::Sequence(_) => WireType::Sequence,
            WireValue::PropMap(_) => WireType::PropMap,
            WireValue::Variant(_) => WireType::Variant,
        }
    }
}

/// Why a wire value failed to decode to its declared native type. Always
/// recoverable: the exporter reports it to the calling peer as an
/// invalid-argument reply and never lets it unwind further.
#[derive(Debug, PartialEq)]
pub enum DecodeError {
    /// A required field of a structured record is absent from the wire map.
    MissingField(String),
    /// A value's wire-declared dynamic type differs from the declared
    /// native type of the named field or argument.
    TypeMismatch { field: String, expected: WireType, found: WireType },
    /// A field of a structured record is not wrapped in a variant tag.
    NotAVariant(String),
    /// An element of a wire sequence failed to decode.
    ElementInvalid(usize),
    /// A wire integer does not name any variant of the declared native
    /// enumeration.
    BadEnumValue(u32),
}

/// Why an inbound method call could not be dispatched. Reported to the
/// calling peer as a protocol-level error reply.
#[derive(Debug, PartialEq)]
pub enum DispatchError {
    /// The called method name is absent from the exported object's table.
    UnknownMethod(String),
    /// An argument failed to decode; the native method was not invoked.
    InvalidArgument(DecodeError),
    /// The call carries a different number of arguments than the method
    /// declares.
    ArgumentCount { expected: usize, found: usize },
}

} // verus!
