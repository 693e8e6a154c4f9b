use serde_wasm_bindgen::host::{keys_equal, tagged};
use serde_wasm_bindgen::number::{float_key, integer_key, CANONICAL_NAN, SIGN_BIT};
use serde_wasm_bindgen::ser::MAX_SAFE_INTEGER;
use serde_wasm_bindgen::{Error, HostValue, Serializer};

fn num(n: i64) -> HostValue {
    HostValue::Number(n)
}

fn text(s: &str) -> HostValue {
    HostValue::Str(s.to_string())
}

#[test]
fn largest_safe_integer_converts() {
    let s = Serializer::new();
    assert_eq!(s.serialize_i64(9007199254740991), Ok(num(9007199254740991)));
    assert_eq!(s.serialize_u64(9007199254740991), Ok(num(9007199254740991)));
    assert_eq!(MAX_SAFE_INTEGER, 9007199254740991);
}

#[test]
fn integer_past_safe_range_fails_naming_it() {
    let s = Serializer::new();
    assert_eq!(
        s.serialize_i64(9007199254740992),
        Err(Error::UnsafeInteger(9007199254740992))
    );
    assert_eq!(
        s.serialize_u64(9007199254740992),
        Err(Error::UnsafeInteger(9007199254740992))
    );
    assert_eq!(
        s.serialize_u64(u64::MAX),
        Err(Error::UnsafeInteger(u64::MAX as i128))
    );
}

#[test]
fn negative_safe_boundary() {
    let s = Serializer::new();
    assert_eq!(s.serialize_i64(-9007199254740991), Ok(num(-9007199254740991)));
    assert_eq!(
        s.serialize_i64(-9007199254740992),
        Err(Error::UnsafeInteger(-9007199254740992))
    );
    assert_eq!(s.serialize_i64(i64::MIN), Err(Error::UnsafeInteger(i64::MIN as i128)));
}

#[test]
fn small_integers_and_bools() {
    let s = Serializer::new();
    assert_eq!(s.serialize_i8(-128), num(-128));
    assert_eq!(s.serialize_i16(-300), num(-300));
    assert_eq!(s.serialize_i32(i32::MIN), num(i32::MIN as i64));
    assert_eq!(s.serialize_u8(255), num(255));
    assert_eq!(s.serialize_u16(65535), num(65535));
    assert_eq!(s.serialize_u32(u32::MAX), num(u32::MAX as i64));
    assert_eq!(s.serialize_bool(true), HostValue::Bool(true));
    assert_eq!(s.serialize_i64(0), Ok(num(0)));
}

#[test]
fn chars_and_strings() {
    let s = Serializer::new();
    assert_eq!(s.serialize_char('x'), text("x"));
    assert_eq!(s.serialize_char('\u{1F600}'), text("\u{1F600}"));
    assert_eq!(s.serialize_str("héllo"), text("héllo"));
    assert_eq!(s.serialize_str(""), text(""));
}

#[test]
fn bytes_are_copied() {
    let s = Serializer::new();
    let mut source = vec![1u8, 2, 3];
    let converted = s.serialize_bytes(&source);
    source[0] = 99;
    source.push(4);
    assert_eq!(converted, HostValue::Bytes(vec![1, 2, 3]));
    assert_eq!(s.serialize_bytes(&[]), HostValue::Bytes(vec![]));
}

#[test]
fn option_and_unit_share_the_absent_value() {
    let s = Serializer::new();
    let none = s.serialize_none();
    let unit = s.serialize_unit();
    let some_unit = s.serialize_some(s.serialize_unit());
    assert_eq!(none, HostValue::Undefined);
    assert_eq!(unit, none);
    assert_eq!(some_unit, none);
    assert_eq!(s.serialize_unit_struct("Empty"), none);
    assert_eq!(s.serialize_some(s.serialize_i32(5)), num(5));
}

#[test]
fn newtype_struct_is_transparent() {
    let s = Serializer::new();
    assert_eq!(s.serialize_newtype_struct("Meters", num(7)), num(7));
}

#[test]
fn unit_variant_is_its_name() {
    let s = Serializer::new();
    assert_eq!(s.serialize_unit_variant("E", 0, "Foo"), text("Foo"));
}

#[test]
fn newtype_variant_is_tagged() {
    let s = Serializer::new();
    let r = s.serialize_newtype_variant("E", 1, "Bar", s.serialize_i32(5));
    assert_eq!(r, HostValue::Object(vec![("Bar".to_string(), num(5))]));
}

#[test]
fn tuple_variant_is_tagged_array() {
    let s = Serializer::new();
    let mut v = s.serialize_tuple_variant("E", 2, "Baz", 2).unwrap();
    v.serialize_field(s.serialize_i32(1));
    v.serialize_field(s.serialize_i32(2));
    let r = v.end();
    assert_eq!(
        r,
        HostValue::Object(vec![("Baz".to_string(), HostValue::Array(vec![num(1), num(2)]))])
    );
}

#[test]
fn struct_variant_is_tagged_record() {
    let s = Serializer::new();
    let mut v = s.serialize_struct_variant("E", 3, "Qux", 1).unwrap();
    v.serialize_field("a", s.serialize_i32(1));
    let r = v.end();
    assert_eq!(
        r,
        HostValue::Object(vec![(
            "Qux".to_string(),
            HostValue::Object(vec![("a".to_string(), num(1))])
        )])
    );
}

#[test]
fn sequences_and_tuples_become_arrays() {
    let s = Serializer::new();
    let mut seq = s.serialize_seq(None).unwrap();
    seq.serialize_element(text("a"));
    seq.serialize_element(HostValue::Bool(false));
    assert_eq!(seq.end(), HostValue::Array(vec![text("a"), HostValue::Bool(false)]));
    let mut tup = s.serialize_tuple(1).unwrap();
    tup.serialize_element(num(3));
    assert_eq!(tup.end(), HostValue::Array(vec![num(3)]));
    let mut ts = s.serialize_tuple_struct("Point", 2).unwrap();
    ts.serialize_field(num(1));
    ts.serialize_field(num(-1));
    assert_eq!(ts.end(), HostValue::Array(vec![num(1), num(-1)]));
    assert_eq!(s.serialize_seq(Some(0)).unwrap().end(), HostValue::Array(vec![]));
}

#[test]
fn struct_fields_keep_declaration_order() {
    let s = Serializer::new();
    let mut st = s.serialize_struct("S", 3).unwrap();
    st.serialize_field("a", num(1));
    st.serialize_field("b", num(2));
    st.serialize_field("c", num(3));
    let r = st.end();
    assert_eq!(
        r,
        HostValue::Object(vec![
            ("a".to_string(), num(1)),
            ("b".to_string(), num(2)),
            ("c".to_string(), num(3)),
        ])
    );
}

#[test]
fn record_label_reassigned_keeps_place() {
    let s = Serializer::new();
    let mut st = s.serialize_struct("S", 2).unwrap();
    st.serialize_field("z", num(1));
    st.serialize_field("y", num(2));
    st.serialize_field("z", num(3));
    assert_eq!(
        st.end(),
        HostValue::Object(vec![("z".to_string(), num(3)), ("y".to_string(), num(2))])
    );
}

#[test]
fn map_keeps_insertion_order() {
    let s = Serializer::new();
    let mut m = s.serialize_map(Some(2)).unwrap();
    m.serialize_key(text("k2"));
    m.serialize_value(num(2));
    m.serialize_key(num(1));
    m.serialize_value(text("one"));
    assert_eq!(
        m.end(),
        HostValue::OrderedMap(vec![(text("k2"), num(2)), (num(1), text("one"))])
    );
    assert_eq!(s.serialize_map(None).unwrap().end(), HostValue::OrderedMap(vec![]));
}

#[test]
fn map_key_collision_last_write_wins() {
    let s = Serializer::new();
    let mut m = s.serialize_map(None).unwrap();
    // a u8 key and an i64 key of the same value become the same host number
    m.serialize_key(s.serialize_u8(7));
    m.serialize_value(text("first"));
    m.serialize_key(text("other"));
    m.serialize_value(HostValue::Bool(true));
    m.serialize_key(s.serialize_i64(7).unwrap());
    m.serialize_value(text("second"));
    assert_eq!(
        m.end(),
        HostValue::OrderedMap(vec![
            (num(7), text("second")),
            (text("other"), HostValue::Bool(true)),
        ])
    );
}

#[test]
fn integer_and_double_keys_of_one_number_collide() {
    let s = Serializer::new();
    let mut m = s.serialize_map(None).unwrap();
    m.serialize_key(s.serialize_i32(1));
    m.serialize_value(text("a"));
    m.serialize_key(HostValue::Float(1.0f64.to_bits()));
    m.serialize_value(text("b"));
    m.serialize_key(HostValue::Float((-0.0f64).to_bits()));
    m.serialize_value(text("c"));
    m.serialize_key(num(0));
    m.serialize_value(text("d"));
    m.serialize_key(HostValue::Float(f64::NAN.to_bits()));
    m.serialize_value(text("e"));
    m.serialize_key(HostValue::Float(0x7FF0_0000_0000_0001));
    m.serialize_value(text("f"));
    assert_eq!(
        m.end(),
        HostValue::OrderedMap(vec![
            (num(1), text("b")),
            (HostValue::Float((-0.0f64).to_bits()), text("d")),
            (HostValue::Float(f64::NAN.to_bits()), text("f")),
        ])
    );
}

#[test]
fn number_keys_are_double_patterns() {
    for n in [1i64, -1, 2, 3, -3, 7, 1000, -123456789, 4503599627370497, MAX_SAFE_INTEGER, -MAX_SAFE_INTEGER] {
        assert_eq!(integer_key(n), (n as f64).to_bits() as i128, "key of {}", n);
        assert!(keys_equal(&num(n), &HostValue::Float((n as f64).to_bits())));
    }
    assert_eq!(integer_key(0), 0);
    assert_eq!(integer_key(1), 0x3FF0_0000_0000_0000);
    assert!(!keys_equal(&num(1), &HostValue::Float(1.5f64.to_bits())));
    assert!(!keys_equal(&num(2), &num(3)));
    assert!(keys_equal(&num(i64::MAX), &num(i64::MAX)));
    assert!(!keys_equal(&num(i64::MAX), &HostValue::Float((i64::MAX as f64).to_bits())));
}

#[test]
fn float_keys_fold_zero_and_nan() {
    assert_eq!(float_key(SIGN_BIT), 0);
    assert_eq!(float_key(0), 0);
    assert_eq!(float_key(f64::NAN.to_bits()), CANONICAL_NAN as i128);
    assert_eq!(float_key(0xFFF8_0000_0000_0001), CANONICAL_NAN as i128);
    assert_eq!(float_key(f64::INFINITY.to_bits()), f64::INFINITY.to_bits() as i128);
    assert_eq!(float_key(2.5f64.to_bits()), 2.5f64.to_bits() as i128);
}

#[test]
fn composite_map_keys_never_collide() {
    let s = Serializer::new();
    let mut m = s.serialize_map(None).unwrap();
    m.serialize_key(HostValue::Array(vec![]));
    m.serialize_value(num(1));
    m.serialize_key(HostValue::Array(vec![]));
    m.serialize_value(num(2));
    assert_eq!(
        m.end(),
        HostValue::OrderedMap(vec![
            (HostValue::Array(vec![]), num(1)),
            (HostValue::Array(vec![]), num(2)),
        ])
    );
}

#[test]
fn key_equality_of_host_values() {
    assert!(keys_equal(&text("a"), &text("a")));
    assert!(!keys_equal(&text("a"), &text("b")));
    assert!(keys_equal(&HostValue::Undefined, &HostValue::Undefined));
    assert!(keys_equal(&HostValue::Float(42), &HostValue::Float(42)));
    assert!(!keys_equal(&num(1), &HostValue::Bool(true)));
    assert!(!keys_equal(&HostValue::Bytes(vec![]), &HostValue::Bytes(vec![])));
}

#[test]
fn tagged_record_has_one_field() {
    assert_eq!(
        tagged("T", HostValue::Undefined),
        HostValue::Object(vec![("T".to_string(), HostValue::Undefined)])
    );
}

#[test]
fn nested_values_round_trip_structurally() {
    let s = Serializer::new();
    // Some(vec![(1u8, "x")]) inside a struct field
    let mut pair = s.serialize_tuple(2).unwrap();
    pair.serialize_element(s.serialize_u8(1));
    pair.serialize_element(s.serialize_str("x"));
    let mut list = s.serialize_seq(Some(1)).unwrap();
    list.serialize_element(pair.end());
    let inner = s.serialize_some(list.end());
    let mut st = s.serialize_struct("W", 1).unwrap();
    st.serialize_field("items", inner);
    let r = st.end();
    match r {
        HostValue::Object(fields) => {
            assert_eq!(fields.len(), 1);
            assert_eq!(fields[0].0, "items");
            assert_eq!(
                fields[0].1,
                HostValue::Array(vec![HostValue::Array(vec![num(1), text("x")])])
            );
        }
        other => panic!("expected a record, got {:?}", other),
    }
}
