use pydeno::conversion::{convert_py_value_to_json, convert_v8_value_to_py_value};
use pydeno::value::{GuestNumber, GuestValue, HostValue, RuntimeError, WireValue};

fn int32(i: i32) -> GuestValue {
    GuestValue::Number(GuestNumber::Int32(i))
}

fn guest_str(s: &str) -> GuestValue {
    GuestValue::Str(s.to_string())
}

#[test]
fn largest_int32_converts_to_integer() {
    let r = convert_v8_value_to_py_value(&int32(2147483647));
    assert_eq!(r, Ok(HostValue::Int(2147483647)));
}

#[test]
fn negative_int32_stays_negative() {
    let r = convert_v8_value_to_py_value(&int32(-5));
    assert_eq!(r, Ok(HostValue::Int(-5)));
}

#[test]
fn largest_uint32_converts_to_integer() {
    let r = convert_v8_value_to_py_value(&GuestValue::Number(GuestNumber::Uint32(4294967295)));
    assert_eq!(r, Ok(HostValue::Int(4294967295)));
}

#[test]
fn double_converts_to_float() {
    let bits = 1.5f64.to_bits();
    let r = convert_v8_value_to_py_value(&GuestValue::Number(GuestNumber::Double(bits)));
    match r {
        Ok(HostValue::Float(b)) => assert_eq!(f64::from_bits(b), 1.5),
        other => panic!("unexpected {:?}", other),
    }
}

#[test]
fn array_converts_to_list() {
    let g = GuestValue::Array { length: 3, items: vec![int32(1), int32(2), int32(3)] };
    let r = convert_v8_value_to_py_value(&g);
    assert_eq!(
        r,
        Ok(HostValue::List(vec![HostValue::Int(1), HostValue::Int(2), HostValue::Int(3)]))
    );
}

#[test]
fn empty_array_converts_to_empty_list() {
    let g = GuestValue::Array { length: 0, items: vec![] };
    assert_eq!(convert_v8_value_to_py_value(&g), Ok(HostValue::List(vec![])));
}

#[test]
fn array_length_probe_decides_size() {
    let longer = GuestValue::Array { length: 3, items: vec![int32(7)] };
    assert_eq!(
        convert_v8_value_to_py_value(&longer),
        Ok(HostValue::List(vec![HostValue::Int(7), HostValue::Null, HostValue::Null]))
    );
    let shorter = GuestValue::Array { length: 1, items: vec![int32(7), GuestValue::Unsupported] };
    assert_eq!(
        convert_v8_value_to_py_value(&shorter),
        Ok(HostValue::List(vec![HostValue::Int(7)]))
    );
}

#[test]
fn object_converts_to_mapping() {
    let g = GuestValue::Object(vec![(guest_str("a"), int32(1))]);
    let r = convert_v8_value_to_py_value(&g);
    assert_eq!(
        r,
        Ok(HostValue::Dict(vec![(HostValue::Str("a".to_string()), HostValue::Int(1))]))
    );
}

#[test]
fn null_and_undefined_collapse_to_none() {
    assert_eq!(convert_v8_value_to_py_value(&GuestValue::Null), Ok(HostValue::Null));
    assert_eq!(convert_v8_value_to_py_value(&GuestValue::Undefined), Ok(HostValue::Null));
}

#[test]
fn strings_and_booleans_convert_directly() {
    assert_eq!(
        convert_v8_value_to_py_value(&guest_str("héllo")),
        Ok(HostValue::Str("héllo".to_string()))
    );
    assert_eq!(
        convert_v8_value_to_py_value(&GuestValue::Bool(true)),
        Ok(HostValue::Bool(true))
    );
}

#[test]
fn unsupported_guest_kind_fails() {
    assert_eq!(
        convert_v8_value_to_py_value(&GuestValue::Unsupported),
        Err(RuntimeError::Conversion)
    );
    let nested = GuestValue::Object(vec![(
        guest_str("f"),
        GuestValue::Array { length: 1, items: vec![GuestValue::Unsupported] },
    )]);
    assert_eq!(convert_v8_value_to_py_value(&nested), Err(RuntimeError::Conversion));
}

#[test]
fn scalars_serialize_directly() {
    assert_eq!(convert_py_value_to_json(&HostValue::Null), Ok(WireValue::Null));
    assert_eq!(convert_py_value_to_json(&HostValue::Bool(false)), Ok(WireValue::Bool(false)));
    assert_eq!(convert_py_value_to_json(&HostValue::Int(-9)), Ok(WireValue::Int(-9)));
    let bits = 2.25f64.to_bits();
    assert_eq!(convert_py_value_to_json(&HostValue::Float(bits)), Ok(WireValue::Float(bits)));
    assert_eq!(
        convert_py_value_to_json(&HostValue::Str("x".to_string())),
        Ok(WireValue::Str("x".to_string()))
    );
}

#[test]
fn tuples_and_lists_serialize_to_arrays() {
    let t = HostValue::Tuple(vec![HostValue::Int(1), HostValue::List(vec![HostValue::Null])]);
    assert_eq!(
        convert_py_value_to_json(&t),
        Ok(WireValue::Array(vec![WireValue::Int(1), WireValue::Array(vec![WireValue::Null])]))
    );
}

#[test]
fn mapping_with_string_keys_serializes_to_object() {
    let d = HostValue::Dict(vec![(HostValue::Str("k".to_string()), HostValue::Bool(true))]);
    assert_eq!(
        convert_py_value_to_json(&d),
        Ok(WireValue::Object(vec![("k".to_string(), WireValue::Bool(true))]))
    );
}

#[test]
fn mapping_with_other_key_fails_to_serialize() {
    let d = HostValue::Dict(vec![(HostValue::Int(1), HostValue::Bool(true))]);
    assert_eq!(convert_py_value_to_json(&d), Err(RuntimeError::Serialization));
}

#[test]
fn non_finite_floats_fail_to_serialize() {
    for f in [f64::NAN, f64::INFINITY, f64::NEG_INFINITY] {
        assert_eq!(
            convert_py_value_to_json(&HostValue::Float(f.to_bits())),
            Err(RuntimeError::Serialization)
        );
    }
}

#[test]
fn unsupported_host_kind_fails_to_serialize() {
    assert_eq!(
        convert_py_value_to_json(&HostValue::Unsupported),
        Err(RuntimeError::Serialization)
    );
    let nested = HostValue::List(vec![HostValue::Int(1), HostValue::Unsupported]);
    assert_eq!(convert_py_value_to_json(&nested), Err(RuntimeError::Serialization));
}

#[test]
fn host_value_survives_a_trip_through_the_guest() {
    let bits = 0.25f64.to_bits();
    let sent = HostValue::Tuple(vec![
        HostValue::Int(-3),
        HostValue::Float(bits),
        HostValue::Dict(vec![(HostValue::Str("n".to_string()), HostValue::Int(4000000000))]),
    ]);
    let wire = convert_py_value_to_json(&sent).unwrap();
    // What the guest's JSON parser builds from that wire value.
    let parsed = match &wire {
        WireValue::Array(items) => {
            assert_eq!(items.len(), 3);
            GuestValue::Array {
                length: 3,
                items: vec![
                    int32(-3),
                    GuestValue::Number(GuestNumber::Double(bits)),
                    GuestValue::Object(vec![(
                        guest_str("n"),
                        GuestValue::Number(GuestNumber::Uint32(4000000000)),
                    )]),
                ],
            }
        }
        other => panic!("unexpected {:?}", other),
    };
    let back = convert_v8_value_to_py_value(&parsed).unwrap();
    assert_eq!(
        back,
        HostValue::List(vec![
            HostValue::Int(-3),
            HostValue::Float(bits),
            HostValue::Dict(vec![(HostValue::Str("n".to_string()), HostValue::Int(4000000000))]),
        ])
    );
}
