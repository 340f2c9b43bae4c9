//! Recursive conversion of guest values to host values, and of host values to
//! the JSON values that carry call arguments.
use vstd::prelude::*;
use vstd::arithmetic::power2::pow2;
use crate::value::{GuestNumber, GuestValue, HostValue, RuntimeError, WireValue};

verus! {

broadcast use vstd::std_specs::vec::group_vec_axioms;

/// `h` is what a guest number converts to.
pub open spec fn number_converts_to(n: GuestNumber, h: HostValue) -> bool {
    match n {
        GuestNumber::Int32(i) => h == HostValue::Int(i as i64),
        GuestNumber::Uint32(u) => h == HostValue::Int(u as i64),
        GuestNumber::Double(bits) => h == HostValue::Float(bits),
    }
}

/// `h` is the host value that the guest value `g` converts to.
pub open spec fn converts_to(g: GuestValue, h: HostValue) -> bool
    decreases g,
{
    match g {
        GuestValue::Number(n) => number_converts_to(n, h),
        GuestValue::Str(s) => h matches HostValue::Str(t) && t@ == s@,
        GuestValue::Bool(b) => h == HostValue::Bool(b),
        GuestValue::Null => h is Null,
        GuestValue::Undefined => h is Null,
        GuestValue::Array { length, items } => {
            &&& h matches HostValue::List(list)
            &&& list.len() == length
            &&& forall|i: int|
                0 <= i < length ==> {
                    &&& (i < items.len() ==> converts_to(items[i], #[trigger] list[i]))
                    &&& (i >= items.len() ==> list[i] is Null)
                }
        },
        GuestValue::Object(props) => {
            &&& h matches HostValue::Dict(entries)
            &&& entries.len() == props.len()
            &&& forall|i: int|
                0 <= i < props.len() ==> {
                    &&& converts_to(props[i].0, #[trigger] entries[i].0)
                    &&& converts_to(props[i].1, entries[i].1)
                }
        },
        GuestValue::Unsupported => false,
    }
}

/// The guest value `g` reaches no kind that lacks a host counterpart, among the
/// parts that conversion reads.
pub open spec fn convertible(g: GuestValue) -> bool
    decreases g,
{
    match g {
        GuestValue::Array { length, items } => forall|i: int|
            0 <= i < length && i < items.len() ==> convertible(#[trigger] items[i]),
        GuestValue::Object(props) => {
            &&& forall|i: int| 0 <= i < props.len() ==> convertible(#[trigger] props[i].0)
            &&& forall|i: int| 0 <= i < props.len() ==> convertible(#[trigger] props[i].1)
        },
        GuestValue::Unsupported => false,
        _ => true,
    }
}

fn convert_number(n: &GuestNumber) -> (r: HostValue)
    ensures
        number_converts_to(*n, r),
{
    match n {
        GuestNumber::Int32(i) => HostValue::Int(*i as i64),
        GuestNumber::Uint32(u) => HostValue::Int(*u as i64),
        GuestNumber::Double(bits) => HostValue::Float(*bits),
    }
}

/// Converts a guest value to a host value: numbers by the engine's
/// classification, strings, booleans, null and undefined directly, arrays by
/// their probed length and plain objects entry by entry, recursively.
pub fn convert_v8_value_to_py_value(value: &GuestValue) -> (r: Result<HostValue, RuntimeError>)
    ensures
        r is Ok <==> convertible(*value),
        r matches Ok(h) ==> converts_to(*value, h),
        r matches Err(e) ==> e is Conversion,
    decreases value,
{
    match value {
        GuestValue::Number(n) => Ok(convert_number(n)),
        GuestValue::Str(s) => Ok(HostValue::Str(s.clone())),
        GuestValue::Bool(b) => Ok(HostValue::Bool(*b)),
        GuestValue::Null => Ok(HostValue::Null),
        GuestValue::Undefined => Ok(HostValue::Null),
        GuestValue::Array { length, items } => {
            let mut list: Vec<HostValue> = Vec::new();
            let mut index: u32 = 0;
            while index < *length
                invariant
                    *value == (GuestValue::Array { length: *length, items: *items }),
                    index <= *length,
                    list.len() == index,
                    forall|i: int|
                        0 <= i < index ==> {
                            &&& (i < items.len() ==> converts_to(items[i], #[trigger] list[i]))
                            &&& (i >= items.len() ==> list[i] is Null)
                        },
                    forall|i: int|
                        0 <= i < index && i < items.len() ==> convertible(#[trigger] items[i]),
                decreases *length - index,
            {
                if (index as usize) < items.len() {
                    proof {
                        let i = index as int;
                        assert(decreases_to!(*value => value->items));
                        assert(decreases_to!(value->items => value->items@));
                        assert(decreases_to!(value->items@ => value->items@[i]));
                    }
                    match convert_v8_value_to_py_value(&items[index as usize]) {
                        Ok(h) => list.push(h),
                        Err(e) => {
                            assert(!convertible(items[index as int]));
                            return Err(e);
                        },
                    }
                } else {
                    list.push(HostValue::Null);
                }
                index = index + 1;
            }
            Ok(HostValue::List(list))
        },
        GuestValue::Object(props) => {
            let mut entries: Vec<(HostValue, HostValue)> = Vec::new();
            let mut index: usize = 0;
            while index < props.len()
                invariant
                    *value == GuestValue::Object(*props),
                    index <= props.len(),
                    entries.len() == index,
                    forall|i: int|
                        0 <= i < index ==> {
                            &&& converts_to(props[i].0, #[trigger] entries[i].0)
                            &&& converts_to(props[i].1, entries[i].1)
                        },
                    forall|i: int| 0 <= i < index ==> convertible(#[trigger] props[i].0),
                    forall|i: int| 0 <= i < index ==> convertible(#[trigger] props[i].1),
                decreases props.len() - index,
            {
                proof {
                    let i = index as int;
                    assert(decreases_to!(*value => value->Object_0));
                    assert(decreases_to!(value->Object_0 => value->Object_0@));
                    assert(decreases_to!(value->Object_0@ => value->Object_0@[i]));
                    assert(decreases_to!(value->Object_0@[i] => value->Object_0@[i].0));
                    assert(decreases_to!(value->Object_0@[i] => value->Object_0@[i].1));
                }
                let key = match convert_v8_value_to_py_value(&props[index].0) {
                    Ok(h) => h,
                    Err(e) => {
                        assert(!convertible(props[index as int].0));
                        return Err(e);
                    },
                };
                let val = match convert_v8_value_to_py_value(&props[index].1) {
                    Ok(h) => h,
                    Err(e) => {
                        assert(!convertible(props[index as int].1));
                        return Err(e);
                    },
                };
                entries.push((key, val));
                index = index + 1;
            }
            Ok(HostValue::Dict(entries))
        },
        GuestValue::Unsupported => Err(RuntimeError::Conversion),
    }
}

/// The bits of an IEEE 754 double encode a finite number (the exponent field is
/// not all ones).
pub open spec fn is_finite_bits(bits: u64) -> bool {
    (bits >> 52u64) & 0x7ffu64 != 0x7ffu64
}

/// `w` is the JSON value that the host value `h` serializes to.
pub open spec fn wire_of(h: HostValue, w: WireValue) -> bool
    decreases h,
{
    match h {
        HostValue::Null => w is Null,
        HostValue::Bool(b) => w == WireValue::Bool(b),
        HostValue::Int(i) => w == WireValue::Int(i),
        HostValue::Float(bits) => is_finite_bits(bits) && w == WireValue::Float(bits),
        HostValue::Str(s) => w matches WireValue::Str(t) && t@ == s@,
        HostValue::List(items) => {
            &&& w matches WireValue::Array(arr)
            &&& arr.len() == items.len()
            &&& forall|i: int| 0 <= i < items.len() ==> wire_of(items[i], #[trigger] arr[i])
        },
        HostValue::Tuple(items) => {
            &&& w matches WireValue::Array(arr)
            &&& arr.len() == items.len()
            &&& forall|i: int| 0 <= i < items.len() ==> wire_of(items[i], #[trigger] arr[i])
        },
        HostValue::Dict(entries) => {
            &&& w matches WireValue::Object(fields)
            &&& fields.len() == entries.len()
            &&& forall|i: int|
                0 <= i < entries.len() ==> (entries[i].0 matches HostValue::Str(k) && (
                #[trigger] fields[i]).0@ == k@)
            &&& forall|i: int|
                0 <= i < entries.len() ==> wire_of(entries[i].1, (#[trigger] fields[i]).1)
        },
        HostValue::Unsupported => false,
    }
}

/// The host value `h` has a JSON counterpart: every float in it is finite, every
/// mapping key is a string, and it holds no unsupported kind.
pub open spec fn serializable(h: HostValue) -> bool
    decreases h,
{
    match h {
        HostValue::Float(bits) => is_finite_bits(bits),
        HostValue::List(items) => forall|i: int|
            0 <= i < items.len() ==> serializable(#[trigger] items[i]),
        HostValue::Tuple(items) => forall|i: int|
            0 <= i < items.len() ==> serializable(#[trigger] items[i]),
        HostValue::Dict(entries) => {
            &&& forall|i: int| 0 <= i < entries.len() ==> (#[trigger] entries[i]).0 is Str
            &&& forall|i: int| 0 <= i < entries.len() ==> serializable((#[trigger] entries[i]).1)
        },
        HostValue::Unsupported => false,
        _ => true,
    }
}

fn convert_items_to_json(value: &HostValue, items: &Vec<HostValue>) -> (r: Result<
    Vec<WireValue>,
    RuntimeError,
>)
    requires
        *value == HostValue::List(*items) || *value == HostValue::Tuple(*items),
    ensures
        r is Ok <==> forall|i: int| 0 <= i < items.len() ==> serializable(#[trigger] items[i]),
        r matches Ok(arr) ==> arr.len() == items.len() && forall|i: int|
            0 <= i < items.len() ==> wire_of(items[i], #[trigger] arr[i]),
        r matches Err(e) ==> e is Serialization,
    decreases value, 0int,
{
    let mut arr: Vec<WireValue> = Vec::new();
    let mut index: usize = 0;
    while index < items.len()
        invariant
            *value == HostValue::List(*items) || *value == HostValue::Tuple(*items),
            index <= items.len(),
            arr.len() == index,
            forall|i: int| 0 <= i < index ==> wire_of(items[i], #[trigger] arr[i]),
            forall|i: int| 0 <= i < index ==> serializable(#[trigger] items[i]),
        decreases items.len() - index,
    {
        proof {
            let i = index as int;
            if value is List {
                assert(decreases_to!(*value => value->List_0));
                assert(decreases_to!(value->List_0 => value->List_0@));
                assert(decreases_to!(value->List_0@ => value->List_0@[i]));
            } else {
                assert(decreases_to!(*value => value->Tuple_0));
                assert(decreases_to!(value->Tuple_0 => value->Tuple_0@));
                assert(decreases_to!(value->Tuple_0@ => value->Tuple_0@[i]));
            }
        }
        match convert_py_value_to_json(&items[index]) {
            Ok(w) => arr.push(w),
            Err(e) => {
                assert(!serializable(items[index as int]));
                return Err(e);
            },
        }
        index = index + 1;
    }
    Ok(arr)
}

/// Converts a host value to the JSON value that carries it as a call argument:
/// scalars directly, sequences and tuples to arrays, mappings with string keys
/// to objects, recursively. Non-finite floats, non-string keys and other kinds
/// fail with `Serialization`.
pub fn convert_py_value_to_json(value: &HostValue) -> (r: Result<WireValue, RuntimeError>)
    ensures
        r is Ok <==> serializable(*value),
        r matches Ok(w) ==> wire_of(*value, w),
        r matches Err(e) ==> e is Serialization,
    decreases value, 1int,
{
    match value {
        HostValue::Null => Ok(WireValue::Null),
        HostValue::Bool(b) => Ok(WireValue::Bool(*b)),
        HostValue::Int(i) => Ok(WireValue::Int(*i)),
        HostValue::Float(bits) => {
            if (*bits >> 52u64) & 0x7ffu64 != 0x7ffu64 {
                Ok(WireValue::Float(*bits))
            } else {
                Err(RuntimeError::Serialization)
            }
        },
        HostValue::Str(s) => Ok(WireValue::Str(s.clone())),
        HostValue::List(items) => match convert_items_to_json(value, items) {
            Ok(arr) => Ok(WireValue::Array(arr)),
            Err(e) => Err(e),
        },
        HostValue::Tuple(items) => match convert_items_to_json(value, items) {
            Ok(arr) => Ok(WireValue::Array(arr)),
            Err(e) => Err(e),
        },
        HostValue::Dict(entries) => {
            let mut fields: Vec<(String, WireValue)> = Vec::new();
            let mut index: usize = 0;
            while index < entries.len()
                invariant
                    *value == HostValue::Dict(*entries),
                    index <= entries.len(),
                    fields.len() == index,
                    forall|i: int|
                        0 <= i < index ==> (entries[i].0 matches HostValue::Str(k) && (
                        #[trigger] fields[i]).0@ == k@),
                    forall|i: int|
                        0 <= i < index ==> wire_of(entries[i].1, (#[trigger] fields[i]).1),
                    forall|i: int| 0 <= i < index ==> (#[trigger] entries[i]).0 is Str,
                    forall|i: int| 0 <= i < index ==> serializable((#[trigger] entries[i]).1),
                decreases entries.len() - index,
            {
                proof {
                    let i = index as int;
                    assert(decreases_to!(*value => value->Dict_0));
                    assert(decreases_to!(value->Dict_0 => value->Dict_0@));
                    assert(decreases_to!(value->Dict_0@ => value->Dict_0@[i]));
                    assert(decreases_to!(value->Dict_0@[i] => value->Dict_0@[i].1));
                }
                let key = match &entries[index].0 {
                    HostValue::Str(k) => k.clone(),
                    _ => {
                        assert(!serializable(*value));
                        return Err(RuntimeError::Serialization);
                    },
                };
                let field = match convert_py_value_to_json(&entries[index].1) {
                    Ok(w) => w,
                    Err(e) => {
                        assert(!serializable(entries[index as int].1));
                        return Err(e);
                    },
                };
                fields.push((key, field));
                index = index + 1;
            }
            Ok(WireValue::Object(fields))
        },
        HostValue::Unsupported => Err(RuntimeError::Serialization),
    }
}

/// The bits of an IEEE 754 double encode an integer that the engine keeps in
/// its 32-bit integer forms: `+0`, or an integer in `[-2^31, 2^32)` other than `-0`.
pub open spec fn is_small_integer_bits(bits: u64) -> bool {
    let exponent = (bits >> 52u64) & 0x7ffu64;
    let mantissa = bits & 0xfffffffffffffu64;
    let negative = (bits >> 63u64) == 1u64;
    ||| bits == 0u64
    ||| {
        &&& 1023 <= exponent <= 1074
        &&& (mantissa as nat) % pow2((1075 - exponent) as nat) == 0
        &&& if negative {
            exponent < 1054 || (exponent == 1054 && mantissa == 0)
        } else {
            exponent < 1055
        }
    }
}

/// The engine classification of a JSON integer once the guest has parsed it.
pub open spec fn parsed_number(i: i64, n: GuestNumber) -> bool {
    if -0x8000_0000 <= i < 0x8000_0000 {
        n == GuestNumber::Int32(i as i32)
    } else if 0x8000_0000 <= i < 0x1_0000_0000 {
        n == GuestNumber::Uint32(i as u32)
    } else {
        n is Double
    }
}

/// `g` is what the guest's JSON parser makes of the JSON value `w`: numbers
/// classified as the engine does, arrays with their length, objects with
/// string property names in the same order.
pub open spec fn parses_to(w: WireValue, g: GuestValue) -> bool
    decreases w,
{
    match w {
        WireValue::Null => g is Null,
        WireValue::Bool(b) => g == GuestValue::Bool(b),
        WireValue::Int(i) => g matches GuestValue::Number(n) && parsed_number(i, n),
        WireValue::Float(bits) => g matches GuestValue::Number(n) && if is_small_integer_bits(
            bits,
        ) {
            !(n is Double)
        } else {
            n == GuestNumber::Double(bits)
        },
        WireValue::Str(s) => g matches GuestValue::Str(t) && t@ == s@,
        WireValue::Array(arr) => {
            &&& g matches GuestValue::Array { length, items }
            &&& length == arr.len()
            &&& items.len() == arr.len()
            &&& forall|i: int| 0 <= i < arr.len() ==> parses_to(arr[i], #[trigger] items[i])
        },
        WireValue::Object(fields) => {
            &&& g matches GuestValue::Object(props)
            &&& props.len() == fields.len()
            &&& forall|i: int|
                0 <= i < fields.len() ==> ((#[trigger] props[i]).0 matches GuestValue::Str(k)
                && k@ == fields[i].0@)
            &&& forall|i: int|
                0 <= i < fields.len() ==> parses_to(fields[i].1, (#[trigger] props[i]).1)
        },
    }
}

/// The host values that survive a trip through the guest: serializable, with
/// integers in `[-2^31, 2^32)` and floats that the engine keeps as doubles.
pub open spec fn in_marshalling_domain(h: HostValue) -> bool
    decreases h,
{
    match h {
        HostValue::Int(i) => -0x8000_0000 <= i < 0x1_0000_0000,
        HostValue::Float(bits) => is_finite_bits(bits) && !is_small_integer_bits(bits),
        HostValue::List(items) => forall|i: int|
            0 <= i < items.len() ==> in_marshalling_domain(#[trigger] items[i]),
        HostValue::Tuple(items) => forall|i: int|
            0 <= i < items.len() ==> in_marshalling_domain(#[trigger] items[i]),
        HostValue::Dict(entries) => {
            &&& forall|i: int| 0 <= i < entries.len() ==> (#[trigger] entries[i]).0 is Str
            &&& forall|i: int|
                0 <= i < entries.len() ==> in_marshalling_domain((#[trigger] entries[i]).1)
        },
        HostValue::Unsupported => false,
        _ => true,
    }
}

/// `a` and `b` hold the same data: strings alike, tuples and lists alike,
/// mappings entry by entry.
pub open spec fn same_data(a: HostValue, b: HostValue) -> bool
    decreases a,
{
    match a {
        HostValue::Str(s) => b matches HostValue::Str(t) && t@ == s@,
        HostValue::List(items) => {
            &&& b matches HostValue::List(others)
            &&& others.len() == items.len()
            &&& forall|i: int| 0 <= i < items.len() ==> same_data(items[i], #[trigger] others[i])
        },
        HostValue::Tuple(items) => {
            &&& b matches HostValue::List(others)
            &&& others.len() == items.len()
            &&& forall|i: int| 0 <= i < items.len() ==> same_data(items[i], #[trigger] others[i])
        },
        HostValue::Dict(entries) => {
            &&& b matches HostValue::Dict(others)
            &&& others.len() == entries.len()
            &&& forall|i: int|
                0 <= i < entries.len() ==> same_data(entries[i].0, (#[trigger] others[i]).0)
            &&& forall|i: int|
                0 <= i < entries.len() ==> same_data(entries[i].1, (#[trigger] others[i]).1)
        },
        _ => a == b,
    }
}

/// A host value in the marshalling domain serializes, and whatever the guest
/// parses from its JSON converts back to the same data.
pub proof fn lemma_round_trip(h: HostValue, w: WireValue, g: GuestValue, back: HostValue)
    requires
        in_marshalling_domain(h),
        wire_of(h, w),
        parses_to(w, g),
        converts_to(g, back),
    ensures
        serializable(h),
        same_data(h, back),
    decreases h,
{
    match h {
        HostValue::List(items) => {
            let arr = w->Array_0;
            let gitems = g->items;
            let others = back->List_0;
            assert forall|i: int| 0 <= i < items.len() implies serializable(#[trigger] items[i])
                && same_data(items[i], others[i]) by {
                assert(wire_of(items[i], arr[i]));
                assert(parses_to(arr[i], gitems[i]));
                lemma_round_trip(items[i], arr[i], gitems[i], others[i]);
            }
        },
        HostValue::Tuple(items) => {
            let arr = w->Array_0;
            let gitems = g->items;
            let others = back->List_0;
            assert forall|i: int| 0 <= i < items.len() implies serializable(#[trigger] items[i])
                && same_data(items[i], others[i]) by {
                assert(wire_of(items[i], arr[i]));
                assert(parses_to(arr[i], gitems[i]));
                lemma_round_trip(items[i], arr[i], gitems[i], others[i]);
            }
        },
        HostValue::Dict(entries) => {
            let fields = w->Object_0;
            let props = g->Object_0;
            let others = back->Dict_0;
            assert forall|i: int| 0 <= i < entries.len() implies serializable(
                (#[trigger] entries[i]).1,
            ) && same_data(entries[i].0, others[i].0) && same_data(entries[i].1, others[i].1) by {
                assert(wire_of(entries[i].1, fields[i].1));
                assert(parses_to(fields[i].1, props[i].1));
                assert(converts_to(props[i].0, others[i].0));
                lemma_round_trip(entries[i].1, fields[i].1, props[i].1, others[i].1);
            }
        },
        _ => {},
    }
}

} // verus!
