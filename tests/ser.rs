use minicbor_serde_bridge::error::en::ErrorKind;
use minicbor_serde_bridge::ser::{Serializer, State};
use minicbor_serde_bridge::Config;

fn serializer(flatten: bool) -> Serializer {
    Serializer::new_with_config(Vec::new(), Config { top_flatten: flatten })
}

// `TestStruct { hello: String }`, as a derived `Serialize` drives it.
fn put_test_struct(ser: &mut Serializer, hello: &str) {
    let mut c = ser.serialize_struct("TestStruct", 1).unwrap();
    c.serialize_field(ser, "hello");
    ser.serialize_str(hello).unwrap();
    c.end(ser).unwrap();
}

// A `[u8; N]` or a tuple of `u8`s: a tuple of its elements.
fn put_u8_tuple(ser: &mut Serializer, items: &[u8]) {
    let mut c = ser.serialize_tuple(items.len()).unwrap();
    for b in items {
        c.serialize_element();
        ser.serialize_u8(*b).unwrap();
    }
    c.end(ser).unwrap();
}

#[test]
fn test_array() {
    let expect = [0x88u8, 0x00, 0x01, 0x02, 0x03, 0x04, 0x05, 0x18, 0x18, 0x18, 0xFF];
    let const_array = [0u8, 1, 2, 3, 4, 5, 0x18, 0xff];
    let mut ser = serializer(false);
    put_u8_tuple(&mut ser, &const_array);
    assert_eq!(expect, ser.bytes());

    let vec_array = [0u8, 1, 2, 3, 4, 5, 0x18, 0xff].to_vec();
    let mut ser = serializer(false);
    let mut c = ser.serialize_seq(Some(vec_array.len())).unwrap();
    for b in &vec_array {
        c.serialize_element();
        ser.serialize_u8(*b).unwrap();
    }
    c.end(&mut ser).unwrap();
    assert_eq!(expect, ser.bytes());

    let exp_empty = [0x80u8];
    let mut ser = serializer(false);
    put_u8_tuple(&mut ser, &[]);
    assert_eq!(exp_empty, ser.bytes());
}

#[test]
fn test_map() {
    // {"hello": "world"}
    let expect = [0xA1u8, 0x65, 0x68, 0x65, 0x6C, 0x6C, 0x6F, 0x65, 0x77, 0x6F, 0x72, 0x6C, 0x64];
    let mut ser = serializer(false);
    let mut c = ser.serialize_map(Some(1)).unwrap();
    c.serialize_key();
    ser.serialize_str("hello").unwrap();
    ser.serialize_str("world").unwrap();
    c.end(&mut ser).unwrap();
    assert_eq!(expect, ser.bytes());

    // {1:1}
    let expect = [0xA1u8, 1, 1];
    let mut ser = serializer(false);
    let mut c = ser.serialize_map(Some(1)).unwrap();
    c.serialize_key();
    ser.serialize_i32(1).unwrap();
    ser.serialize_i32(1).unwrap();
    c.end(&mut ser).unwrap();
    assert_eq!(expect, ser.bytes());
}

#[test]
fn ser_test_struct() {
    let expect = [0xA1u8, 0x65, 0x68, 0x65, 0x6C, 0x6C, 0x6F, 0x65, 0x77, 0x6F, 0x72, 0x6C, 0x64];
    let mut ser = serializer(false);
    put_test_struct(&mut ser, "world");
    assert_eq!(expect, ser.bytes());

    // TestStruct2 { a: [1, 2], b: TestStruct { hello: "world" } }
    let expect = [
        0xA2u8, 0x61, 0x61, 0x82, 0x01, 0x02, 0x61, 0x62, 0xA1, 0x65, 0x68, 0x65, 0x6C, 0x6C, 0x6F,
        0x65, 0x77, 0x6F, 0x72, 0x6C, 0x64,
    ];
    let mut ser = serializer(false);
    let mut c = ser.serialize_struct("TestStruct2", 2).unwrap();
    c.serialize_field(&mut ser, "a");
    put_u8_tuple(&mut ser, &[1, 2]);
    c.serialize_field(&mut ser, "b");
    put_test_struct(&mut ser, "world");
    c.end(&mut ser).unwrap();
    assert_eq!(expect, ser.bytes());
}

#[test]
fn ser_test_tuple() {
    let expect = [0x88u8, 0x00, 0x01, 0x02, 0x03, 0x04, 0x05, 0x18, 0x18, 0x18, 0xFF];
    // (0u8, 1, 2, 3, 4, 5, 0x18, 0xff): the first a u8, the rest i32
    let mut ser = serializer(false);
    let mut c = ser.serialize_tuple(8).unwrap();
    c.serialize_element();
    ser.serialize_u8(0).unwrap();
    for v in [1i32, 2, 3, 4, 5, 0x18, 0xff] {
        c.serialize_element();
        ser.serialize_i32(v).unwrap();
    }
    c.end(&mut ser).unwrap();
    assert_eq!(expect, ser.bytes());

    // (0x01u8, 0xffu8, "hello"), flattened
    let expect = [0x01u8, 0x18, 0xff, 0x65, 0x68, 0x65, 0x6c, 0x6c, 0x6f];
    let mut ser = serializer(true);
    let mut c = ser.serialize_tuple(3).unwrap();
    assert!(c.state == State::FlattenFirst);
    c.serialize_element();
    ser.serialize_u8(0x01).unwrap();
    c.serialize_element();
    ser.serialize_u8(0xff).unwrap();
    c.serialize_element();
    ser.serialize_str("hello").unwrap();
    c.end(&mut ser).unwrap();
    assert_eq!(expect, ser.bytes());
}

#[test]
fn ser_test_enum() {
    // TestEnum::A
    let mut ser = serializer(false);
    ser.serialize_unit_variant("TestEnum", 0, "A").unwrap();
    assert_eq!([0x61u8, 0x41], ser.bytes());

    // TestEnum::B(1i32)
    let mut ser = serializer(false);
    ser.serialize_newtype_variant("TestEnum", 1, "B").unwrap();
    ser.serialize_i32(1).unwrap();
    ser.end_newtype_variant().unwrap();
    assert_eq!([0xa1u8, 0x61, 0x42, 0x1], ser.bytes());

    // TestEnum::C(TestStruct { hello: "world" })
    let mut ser = serializer(false);
    ser.serialize_newtype_variant("TestEnum", 2, "C").unwrap();
    put_test_struct(&mut ser, "world");
    ser.end_newtype_variant().unwrap();
    assert_eq!(
        [
            0xa1u8, 0x61, 0x43, 0xa1, 0x65, 0x68, 0x65, 0x6c, 0x6c, 0x6f, 0x65, 0x77, 0x6f, 0x72,
            0x6c, 0x64
        ],
        ser.bytes()
    );

    // TestEnum::D(&[1, 2, 3, 4]): a slice is a sequence
    let mut ser = serializer(false);
    ser.serialize_newtype_variant("TestEnum", 3, "D").unwrap();
    let mut c = ser.serialize_seq(Some(4)).unwrap();
    for b in [1u8, 2, 3, 4] {
        c.serialize_element();
        ser.serialize_u8(b).unwrap();
    }
    c.end(&mut ser).unwrap();
    ser.end_newtype_variant().unwrap();
    assert_eq!([0xa1u8, 0x61, 0x44, 0x84, 0x01, 0x02, 0x03, 0x04], ser.bytes());
}

#[test]
fn test_ser() {
    let mut ser = Serializer::new(Vec::new());
    put_test_struct(&mut ser, "world");
    let value = ser.into_bytes();
    assert_eq!(
        [0xA1u8, 0x65, 0x68, 0x65, 0x6C, 0x6C, 0x6F, 0x65, 0x77, 0x6F, 0x72, 0x6C, 0x64],
        value.as_slice(),
    )
}

#[test]
fn unit_variant_is_bare_text() {
    let mut ser = serializer(false);
    ser.serialize_unit_variant("E", 0, "A").unwrap();
    assert_eq!([0x61u8, b'A'], ser.bytes());
    let mut ser = serializer(false);
    ser.serialize_newtype_variant("E", 1, "B").unwrap();
    ser.serialize_u8(1).unwrap();
    ser.end_newtype_variant().unwrap();
    assert_eq!([0xa1u8, 0x61, b'B', 0x01], ser.bytes());
}

#[test]
fn indefinite_seq_and_map_close_with_break() {
    let mut ser = serializer(false);
    let mut c = ser.serialize_seq(None).unwrap();
    c.serialize_element();
    ser.serialize_u8(7).unwrap();
    c.end(&mut ser).unwrap();
    assert_eq!([0x9fu8, 0x07, 0xff], ser.bytes());

    // an empty indefinite sequence is still closed
    let mut ser = serializer(false);
    let c = ser.serialize_seq(None).unwrap();
    c.end(&mut ser).unwrap();
    assert_eq!([0x9fu8, 0xff], ser.bytes());

    let mut ser = serializer(false);
    let mut c = ser.serialize_map(None).unwrap();
    c.serialize_key();
    ser.serialize_u8(1).unwrap();
    ser.serialize_bool(true).unwrap();
    c.end(&mut ser).unwrap();
    assert_eq!([0xbfu8, 0x01, 0xf5, 0xff], ser.bytes());
}

#[test]
fn flatten_applies_to_the_outermost_value_only() {
    // ((1, 2), 3) flattened: the inner tuple keeps its array head
    let mut ser = serializer(true);
    let mut outer = ser.serialize_tuple(2).unwrap();
    outer.serialize_element();
    put_u8_tuple(&mut ser, &[1, 2]);
    outer.serialize_element();
    ser.serialize_u8(3).unwrap();
    outer.end(&mut ser).unwrap();
    assert_eq!([0x82u8, 0x01, 0x02, 0x03], ser.bytes());
    assert_eq!(0, ser.depth());

    // a struct variant keeps its map wrapper and its field map
    let mut ser = serializer(true);
    let mut c = ser.serialize_struct_variant("E", 0, "V", 1).unwrap();
    c.serialize_field(&mut ser, "x");
    ser.serialize_u8(5).unwrap();
    c.end(&mut ser).unwrap();
    assert_eq!([0xa1u8, 0x61, b'V', 0xa1, 0x61, b'x', 0x05], ser.bytes());
}

#[test]
fn scalars_encode_as_cbor_items() {
    let mut ser = serializer(false);
    ser.serialize_u16(500).unwrap();
    ser.serialize_u32(70000).unwrap();
    ser.serialize_u64(u64::MAX).unwrap();
    ser.serialize_i8(-1).unwrap();
    ser.serialize_i16(-500).unwrap();
    ser.serialize_i64(i64::MIN).unwrap();
    ser.serialize_char('a').unwrap();
    ser.serialize_bytes(&[1, 2]).unwrap();
    ser.serialize_none().unwrap();
    ser.serialize_unit_struct("U").unwrap();
    ser.collect_str("x").unwrap();
    assert_eq!(
        [
            0x19u8, 0x01, 0xf4, 0x1a, 0x00, 0x01, 0x11, 0x70, 0x1b, 0xff, 0xff, 0xff, 0xff, 0xff,
            0xff, 0xff, 0xff, 0x20, 0x39, 0x01, 0xf3, 0x3b, 0x7f, 0xff, 0xff, 0xff, 0xff, 0xff,
            0xff, 0xff, 0x18, 0x61, 0x42, 0x01, 0x02, 0xf6, 0xf6, 0x61, 0x78
        ],
        ser.bytes()
    );
}

#[test]
fn wide_integers_are_refused() {
    let mut ser = serializer(false);
    let e = ser.serialize_i128(1).unwrap_err();
    assert_eq!(ErrorKind::Unsupported128BitInteger, e.kind);
    let e = ser.serialize_u128(1).unwrap_err();
    assert_eq!(ErrorKind::Unsupported128BitInteger, e.kind);
    assert!(ser.bytes().is_empty());
}

#[test]
fn closing_at_depth_zero_is_refused() {
    let mut ser = serializer(false);
    let c = ser.serialize_seq(Some(0)).unwrap();
    c.end(&mut ser).unwrap();
    let c2 = minicbor_serde_bridge::ser::Compound { state: State::Empty };
    let e = c2.end(&mut ser).unwrap_err();
    assert_eq!(ErrorKind::Message, e.kind);
    assert!(ser.end_newtype_variant().is_err());
}

#[test]
fn encode_errors_carry_their_kind_and_message() {
    let e = minicbor_serde_bridge::error::en::Error::custom("bad");
    assert_eq!(ErrorKind::Custom, e.kind);
    assert_eq!("bad", e.message());
    let e = minicbor_serde_bridge::error::en::Error::from_encode(true);
    assert_eq!(ErrorKind::Message, e.kind);
    let e = minicbor_serde_bridge::error::en::Error::from_encode(false);
    assert_eq!(ErrorKind::Write, e.kind);
}
