//! Value models of both sides of the engine boundary.
use vstd::prelude::*;

pub use crate::conversion::convert_v8_value_to_py_value;

verus! {

/// A number as the guest engine classifies it.
#[derive(Debug, Clone, PartialEq)]
pub enum GuestNumber {
    /// Fits a signed 32-bit integer.
    Int32(i32),
    /// Fits an unsigned 32-bit integer but not a signed one.
    Uint32(u32),
    /// Any other number, as the bits of an IEEE 754 double.
    Double(u64),
}

/// A value of the guest engine's heap, classified by the engine.
#[derive(Debug, PartialEq)]
pub enum GuestValue {
    Number(GuestNumber),
    Str(String),
    Bool(bool),
    Null,
    Undefined,
    /// An object the engine classifies as an array. `length` is what probing the
    /// `length` property and coercing it to an unsigned 32-bit integer gave;
    /// `items` are the values found at the indices `0..items.len()`, and every
    /// index past them reads as undefined.
    Array { length: u32, items: Vec<GuestValue> },
    /// A plain object: its own enumerable property names with their values, in
    /// the engine's enumeration order.
    Object(Vec<(GuestValue, GuestValue)>),
    /// Any other kind (functions, symbols, engine-internal objects).
    Unsupported,
}

/// A dynamic value of the host.
#[derive(Debug, PartialEq)]
pub enum HostValue {
    Null,
    Bool(bool),
    Int(i64),
    /// A float, as the bits of an IEEE 754 double.
    Float(u64),
    Str(String),
    List(Vec<HostValue>),
    Tuple(Vec<HostValue>),
    /// A mapping, as its entries in insertion order.
    Dict(Vec<(HostValue, HostValue)>),
    /// Any other host value kind.
    Unsupported,
}

/// A JSON value used to hand call arguments to the guest.
#[derive(Debug, PartialEq)]
pub enum WireValue {
    Null,
    Bool(bool),
    Int(i64),
    /// A finite number, as the bits of an IEEE 754 double.
    Float(u64),
    Str(String),
    Array(Vec<WireValue>),
    Object(Vec<(String, WireValue)>),
}

/// The errors reported to callers.
#[derive(Debug, Clone, PartialEq)]
pub enum RuntimeError {
    /// The guest produced a value of a kind that has no host counterpart.
    Conversion,
    /// A call argument has no JSON counterpart.
    Serialization,
    /// The guest failed to compile or run the code; holds the engine's diagnostic.
    GuestExecution(String),
    /// The evaluation exceeded its deadline.
    Timeout,
}

} // verus!
