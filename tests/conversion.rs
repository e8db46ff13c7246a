use rmpv::{
    Error, ExtFieldSerializer, ExtSerializer, Integer, Serializer, Utf8String, Value,
    MSGPACK_EXT_STRUCT_NAME,
};

fn sint(v: i64) -> Value {
    Value::Integer(Integer::from_i64(v))
}

fn uint(v: u64) -> Value {
    Value::Integer(Integer::from_u64(v))
}

fn text(s: &str) -> Value {
    Value::String(Utf8String::Text(s.to_string()))
}

fn syntax(msg: &str) -> Error {
    Error::Syntax(msg.to_string())
}

#[test]
fn unsigned_integers_keep_their_value() {
    assert_eq!(Serializer.serialize_u8(255).as_u64(), Some(255));
    assert_eq!(Serializer.serialize_u16(65535).as_u64(), Some(65535));
    assert_eq!(Serializer.serialize_u32(u32::MAX).as_u64(), Some(u32::MAX as u64));
    assert_eq!(Serializer.serialize_u64(u64::MAX).as_u64(), Some(u64::MAX));
    assert_eq!(Serializer.serialize_u64(u64::MAX).as_i64(), None);
    assert_eq!(Serializer.serialize_u8(255), uint(255));
}

#[test]
fn signed_integers_keep_their_value() {
    assert_eq!(Serializer.serialize_i8(-1).as_i64(), Some(-1));
    assert_eq!(Serializer.serialize_i8(i8::MIN).as_i64(), Some(-128));
    assert_eq!(Serializer.serialize_i16(-300).as_i64(), Some(-300));
    assert_eq!(Serializer.serialize_i32(i32::MIN).as_i64(), Some(i32::MIN as i64));
    assert_eq!(Serializer.serialize_i64(i64::MIN).as_i64(), Some(i64::MIN));
    assert_eq!(Serializer.serialize_i64(-1).as_u64(), None);
}

#[test]
fn non_negative_signed_integer_is_unsigned_too() {
    assert_eq!(Serializer.serialize_i64(7), uint(7));
    assert_eq!(Serializer.serialize_i32(7).as_u64(), Some(7));
}

#[test]
fn bool_and_unit() {
    assert_eq!(Serializer.serialize_bool(true), Value::Boolean(true));
    assert_eq!(Serializer.serialize_bool(false), Value::Boolean(false));
    assert_eq!(Serializer.serialize_unit(), Value::Nil);
    assert_eq!(Serializer.serialize_none(), Value::Nil);
}

#[test]
fn floats_keep_their_width() {
    let f = 1.5f32;
    let d = -2.25f64;
    assert_eq!(Serializer.serialize_f32(f.to_bits()), Value::F32(f.to_bits()));
    assert_eq!(Serializer.serialize_f64(d.to_bits()), Value::F64(d.to_bits()));
}

#[test]
fn text_becomes_a_valid_string() {
    assert_eq!(Serializer.serialize_str("John Smith"), text("John Smith"));
    assert_eq!(Serializer.serialize_str(""), text(""));
    assert_eq!(Serializer.serialize_str("grüße"), text("grüße"));
}

#[test]
fn char_becomes_a_one_character_string() {
    assert_eq!(Serializer.serialize_char('a'), text("a"));
    assert_eq!(Serializer.serialize_char('ß'), text("ß"));
}

#[test]
fn bytes_become_binary() {
    assert_eq!(Serializer.serialize_bytes(&[1, 2, 255]), Value::Binary(vec![1, 2, 255]));
    assert_eq!(Serializer.serialize_bytes(&[]), Value::Binary(vec![]));
}

#[test]
fn unit_struct_is_an_empty_array() {
    assert_eq!(Serializer.serialize_unit_struct(), Value::Array(vec![]));
}

#[test]
fn sequence_keeps_order() {
    let mut seq = Serializer.serialize_seq(Some(3));
    seq.serialize_element(uint(3));
    seq.serialize_element(text("a"));
    seq.serialize_element(Value::Nil);
    assert_eq!(seq.end(), Value::Array(vec![uint(3), text("a"), Value::Nil]));
}

#[test]
fn declared_length_is_not_enforced() {
    let mut seq = Serializer.serialize_tuple(5);
    seq.serialize_element(uint(1));
    assert_eq!(seq.end(), Value::Array(vec![uint(1)]));
    assert_eq!(Serializer.serialize_seq(None).end(), Value::Array(vec![]));
}

#[test]
fn struct_drops_field_names() {
    let mut st = Serializer.serialize_struct(2);
    st.serialize_element(uint(1));
    st.serialize_element(Value::Boolean(true));
    assert_eq!(st.end(), Value::Array(vec![uint(1), Value::Boolean(true)]));
    let mut ts = Serializer.serialize_tuple_struct(1);
    ts.serialize_element(sint(-4));
    assert_eq!(ts.end(), Value::Array(vec![sint(-4)]));
}

#[test]
fn map_keeps_call_order() {
    let mut map = Serializer.serialize_map(Some(2));
    assert!(!map.has_pending_key());
    map.serialize_key(text("b"));
    assert!(map.has_pending_key());
    map.serialize_value(uint(2));
    assert!(!map.has_pending_key());
    map.serialize_key(text("a"));
    map.serialize_value(uint(1));
    assert_eq!(
        map.end(),
        Value::Table(vec![(text("b"), uint(2)), (text("a"), uint(1))])
    );
}

#[test]
fn map_in_order_a_then_b() {
    let mut map = Serializer.serialize_map(None);
    map.serialize_key(text("a"));
    map.serialize_value(uint(1));
    map.serialize_key(text("b"));
    map.serialize_value(uint(2));
    assert_eq!(
        map.end(),
        Value::Table(vec![(text("a"), uint(1)), (text("b"), uint(2))])
    );
}

#[test]
fn map_keeps_repeated_keys() {
    let mut map = Serializer.serialize_map(None);
    map.serialize_key(text("k"));
    map.serialize_value(uint(1));
    map.serialize_key(text("k"));
    map.serialize_value(uint(2));
    assert_eq!(
        map.end(),
        Value::Table(vec![(text("k"), uint(1)), (text("k"), uint(2))])
    );
}

#[test]
fn unit_variant_is_index_and_empty_array() {
    assert_eq!(
        Serializer.serialize_unit_variant(3),
        Value::Array(vec![uint(3), Value::Array(vec![])])
    );
}

#[test]
fn newtype_variant_wraps_its_field() {
    assert!(Serializer.extension_capture("X").is_none());
    assert_eq!(
        Serializer.serialize_newtype_variant(3, uint(7)),
        Value::Array(vec![uint(3), Value::Array(vec![uint(7)])])
    );
}

#[test]
fn tuple_variant_keeps_field_order() {
    let mut tv = Serializer.serialize_tuple_variant(2, 3);
    tv.serialize_field(uint(10));
    tv.serialize_field(text("x"));
    tv.serialize_field(Value::Boolean(false));
    assert_eq!(
        tv.end(),
        Value::Array(vec![
            uint(2),
            Value::Array(vec![uint(10), text("x"), Value::Boolean(false)])
        ])
    );
}

#[test]
fn struct_variant_drops_field_names() {
    let mut sv = Serializer.serialize_struct_variant(1, 2);
    sv.serialize_field(sint(-1));
    sv.serialize_field(Value::Nil);
    assert_eq!(
        sv.end(),
        Value::Array(vec![uint(1), Value::Array(vec![sint(-1), Value::Nil])])
    );
}

#[test]
fn reserved_name_opens_a_capture() {
    assert!(Serializer.extension_capture(MSGPACK_EXT_STRUCT_NAME).is_some());
    assert!(Serializer.extension_capture("_ExtStruct").is_some());
    assert!(Serializer.extension_capture("_ExtStructs").is_none());
    assert!(Serializer.extension_capture("").is_none());
}

#[test]
fn extension_tag_then_bytes() {
    let mut se = Serializer.extension_capture("_ExtStruct").unwrap();
    se.serialize_tuple(2);
    assert_eq!(se.element_i8(5), Ok(()));
    assert_eq!(se.element_bytes(&[1, 2, 3]), Ok(()));
    assert_eq!(se.value(), Ok(Value::Ext(5, vec![1, 2, 3])));
}

#[test]
fn extension_bytes_then_tag() {
    let mut se = ExtSerializer::new();
    se.serialize_tuple(2);
    assert_eq!(se.element_bytes(&[1, 2, 3]), Ok(()));
    assert_eq!(se.element_i8(5), Ok(()));
    assert_eq!(se.value(), Ok(Value::Ext(5, vec![1, 2, 3])));
}

#[test]
fn extension_with_only_a_tag_fails() {
    let mut se = ExtSerializer::new();
    se.serialize_tuple(1);
    assert_eq!(se.element_i8(5), Ok(()));
    assert_eq!(se.value(), Err(syntax("expected i8 and bytes")));
}

#[test]
fn extension_with_only_bytes_or_nothing_fails() {
    let mut se = ExtSerializer::new();
    se.serialize_tuple(1);
    assert_eq!(se.element_bytes(&[9]), Ok(()));
    assert_eq!(se.value(), Err(syntax("expected i8 and bytes")));
    let mut empty = ExtSerializer::new();
    empty.serialize_tuple(0);
    assert_eq!(empty.value(), Err(syntax("expected i8 and bytes")));
}

#[test]
fn extension_with_three_fields_fails() {
    let mut se = ExtSerializer::new();
    se.serialize_tuple(3);
    assert_eq!(se.element_i8(5), Ok(()));
    assert_eq!(se.element_bytes(&[1]), Ok(()));
    assert_eq!(se.element_i8(6), Err(syntax("received second i8")));
    assert_eq!(se.element_bytes(&[2]), Err(syntax("expected i8 and bytes")));
    assert_eq!(se.element_other(), syntax("expected i8 and bytes"));
    assert_eq!(se.value(), Ok(Value::Ext(5, vec![1])));
}

#[test]
fn extension_rejects_other_field_shapes() {
    let mut se = ExtSerializer::new();
    se.serialize_tuple(2);
    assert_eq!(se.element_other(), syntax("expected i8 and bytes"));
}

#[test]
fn extension_expects_a_tuple() {
    let se = ExtSerializer::new();
    assert_eq!(se.serialize_other(), syntax("expected tuple"));
    assert_eq!(se.value(), Err(syntax("expected tuple")));
}

#[test]
fn extension_element_before_tuple_fails() {
    let mut se = ExtSerializer::new();
    assert_eq!(se.element_i8(1), Err(syntax("")));
    assert_eq!(se.element_bytes(&[1]), Err(syntax("")));
    assert_eq!(se.element_other(), syntax(""));
}

#[test]
fn field_serializer_alone() {
    let mut fs = ExtFieldSerializer::new();
    assert_eq!(fs.serialize_other(), syntax("expected i8 and bytes"));
    assert_eq!(fs.serialize_i8(-3), Ok(()));
    assert_eq!(fs.serialize_i8(-3), Err(syntax("received second i8")));
    assert_eq!(fs.serialize_bytes(&[]), Ok(()));
    assert_eq!(fs.value(), Ok(Value::Ext(-3, vec![])));
}

#[test]
fn custom_error_keeps_message() {
    assert_eq!(Error::custom("boom"), syntax("boom"));
}

#[test]
fn map_drops_a_key_without_value() {
    let mut map = Serializer.serialize_map(None);
    map.serialize_key(text("a"));
    map.serialize_value(uint(1));
    map.serialize_key(text("lost"));
    assert_eq!(map.end(), Value::Table(vec![(text("a"), uint(1))]));
}
