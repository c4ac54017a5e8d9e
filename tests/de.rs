use minicbor::decode::Error as CborError;
use minicbor_serde_bridge::error::de::Error as DecodeError;
use minicbor_serde_bridge::de::{Deserializer, Dispatch, EnumForm, EnumUnitAccess, StructAccess};
use minicbor_serde_bridge::error::de::ErrorKind;
use minicbor_serde_bridge::ser::Serializer;
use minicbor_serde_bridge::wire::WireType;
use minicbor_serde_bridge::Config;
use std::collections::BTreeMap;

#[derive(Debug, PartialEq)]
struct TestStruct {
    a: u8,
    b: u16,
    c: u32,
    d: u64,
}

#[derive(Debug, PartialEq)]
struct TestStruct2 {
    a: BTreeMap<i32, i32>,
    b: u8,
}

#[derive(Debug, PartialEq)]
enum TestEnum {
    A,
    B(u8),
    C(TestStruct),
    D((u8, u8)),
}

const FIELDS: [&str; 4] = ["a", "b", "c", "d"];

// A `Vec<u8>` read as a derived `Deserialize` drives it: elements until the
// access says none is left.
fn get_u8_vec(de: &mut Deserializer) -> Vec<u8> {
    let mut acc = de.deserialize_seq().unwrap();
    let mut out = Vec::new();
    while acc.next_element(de).unwrap() {
        out.push(de.deserialize_u8().unwrap());
    }
    de.end_seq(acc).unwrap();
    out
}

fn get_test_struct(de: &mut Deserializer) -> TestStruct {
    let mut acc = de.deserialize_struct("TestStruct", &FIELDS).unwrap();
    let (mut a, mut b, mut c, mut d) = (None, None, None, None);
    match &mut acc {
        StructAccess::Keyed(m) => {
            while m.next_key(de).unwrap() {
                let key = de.deserialize_identifier().unwrap();
                m.next_value(de).unwrap();
                match key {
                    "a" => a = Some(de.deserialize_u8().unwrap()),
                    "b" => b = Some(de.deserialize_u16().unwrap()),
                    "c" => c = Some(de.deserialize_u32().unwrap()),
                    "d" => d = Some(de.deserialize_u64().unwrap()),
                    other => panic!("unknown field {}", other),
                }
            }
        }
        StructAccess::Positional(s) => {
            assert!(s.next_element(de).unwrap());
            a = Some(de.deserialize_u8().unwrap());
            assert!(s.next_element(de).unwrap());
            b = Some(de.deserialize_u16().unwrap());
            assert!(s.next_element(de).unwrap());
            c = Some(de.deserialize_u32().unwrap());
            assert!(s.next_element(de).unwrap());
            d = Some(de.deserialize_u64().unwrap());
        }
    }
    de.end_struct(acc).unwrap();
    TestStruct { a: a.unwrap(), b: b.unwrap(), c: c.unwrap(), d: d.unwrap() }
}

fn get_test_enum(de: &mut Deserializer) -> TestEnum {
    let form = de.deserialize_enum("TestEnum", &["A", "B", "C", "D"]).unwrap();
    let name = de.deserialize_identifier().unwrap();
    let value = match (form, name) {
        (EnumForm::Unit, "A") => {
            EnumUnitAccess.unit_variant().unwrap();
            TestEnum::A
        }
        (EnumForm::Variant { .. }, "B") => TestEnum::B(de.deserialize_u8().unwrap()),
        (EnumForm::Variant { .. }, "C") => TestEnum::C(get_test_struct(de)),
        (EnumForm::Variant { .. }, "D") => {
            let mut acc = de.deserialize_tuple(2).unwrap();
            assert!(acc.next_element(de).unwrap());
            let x = de.deserialize_u8().unwrap();
            assert!(acc.next_element(de).unwrap());
            let y = de.deserialize_u8().unwrap();
            de.end_seq(acc).unwrap();
            TestEnum::D((x, y))
        }
        (f, n) => panic!("unexpected {:?} {}", f, n),
    };
    de.end_enum(form).unwrap();
    value
}

fn put_test_struct(ser: &mut Serializer, v: &TestStruct) {
    let mut c = ser.serialize_struct("TestStruct", 4).unwrap();
    c.serialize_field(ser, "a");
    ser.serialize_u8(v.a).unwrap();
    c.serialize_field(ser, "b");
    ser.serialize_u16(v.b).unwrap();
    c.serialize_field(ser, "c");
    ser.serialize_u32(v.c).unwrap();
    c.serialize_field(ser, "d");
    ser.serialize_u64(v.d).unwrap();
    c.end(ser).unwrap();
}

fn put_test_enum(v: &TestEnum) -> Vec<u8> {
    let mut ser = Serializer::new(Vec::new());
    match v {
        TestEnum::A => ser.serialize_unit_variant("TestEnum", 0, "A").unwrap(),
        TestEnum::B(x) => {
            ser.serialize_newtype_variant("TestEnum", 1, "B").unwrap();
            ser.serialize_u8(*x).unwrap();
            ser.end_newtype_variant().unwrap();
        }
        TestEnum::C(s) => {
            ser.serialize_newtype_variant("TestEnum", 2, "C").unwrap();
            put_test_struct(&mut ser, s);
            ser.end_newtype_variant().unwrap();
        }
        TestEnum::D((x, y)) => {
            ser.serialize_newtype_variant("TestEnum", 3, "D").unwrap();
            let mut c = ser.serialize_tuple(2).unwrap();
            c.serialize_element();
            ser.serialize_u8(*x).unwrap();
            c.serialize_element();
            ser.serialize_u8(*y).unwrap();
            c.end(&mut ser).unwrap();
            ser.end_newtype_variant().unwrap();
        }
    }
    ser.into_bytes()
}

fn check_enum(data: &[u8], expect: TestEnum) {
    let mut de = Deserializer::new(data);
    let value = get_test_enum(&mut de);
    assert_eq!(expect, value, "\n data: {:x?}", data);

    let data = put_test_enum(&expect);
    let mut de = Deserializer::new(&data);
    let value = get_test_enum(&mut de);
    assert_eq!(expect, value, "\n data: {:x?}", data);
}

#[test]
fn test_seq() {
    let expect = [[2u8, 3, 0xff]];
    let data = [0x81u8, 0x83, 2, 3, 0x18, 0xff];
    let mut de = Deserializer::new(&data);
    let mut outer = de.deserialize_seq().unwrap();
    let mut value: Vec<Vec<u8>> = Vec::new();
    while outer.next_element(&mut de).unwrap() {
        value.push(get_u8_vec(&mut de));
    }
    de.end_seq(outer).unwrap();
    let s = value[0].as_slice();
    assert_eq!(expect[0], s);

    let expect = "hello".to_string();
    let data = [0x45u8, 0x68, 0x65, 0x6C, 0x6C, 0x6F];
    let mut de = Deserializer::new(&data);
    let value = get_u8_vec(&mut de);
    let hello = String::from_utf8(value).unwrap();
    assert_eq!(expect, hello);
}

#[test]
fn de_test_tuple() {
    let expect = (0x01_u8, 0xff, "hello");
    let data = [0x01_u8, 0x18, 0xff, 0x65, 0x68, 0x65, 0x6C, 0x6C, 0x6F];
    let mut de = Deserializer::new_with_config(&data, Config { top_flatten: true });
    let mut acc = de.deserialize_tuple(3).unwrap();
    assert!(acc.next_element(&mut de).unwrap());
    let a = de.deserialize_u8().unwrap();
    assert!(acc.next_element(&mut de).unwrap());
    let b = de.deserialize_i32().unwrap();
    assert!(acc.next_element(&mut de).unwrap());
    let c = de.deserialize_string().unwrap().to_string();
    de.end_seq(acc).unwrap();
    let value: (u8, i32, String) = (a, b, c);
    assert_eq!((expect.0, expect.1, expect.2.to_string()), value);
}

#[test]
fn de_test_struct() {
    let expect = TestStruct { a: 1, b: 2, c: 3, d: 4 };
    let data = [0x84u8, 1, 2, 3, 4];
    let value = get_test_struct(&mut Deserializer::new(&data));
    assert_eq!(expect, value);

    let mut ser = Serializer::new(Vec::new());
    put_test_struct(&mut ser, &expect);
    let data = ser.into_bytes();
    let value = get_test_struct(&mut Deserializer::new(&data));
    assert_eq!(expect, value, "expect: {:x?}, value: {:x?}", expect, value);

    // Out of order map
    let data = [0xa4u8, 0x61, 0x62, 0x02, 0x61, 0x61, 0x01, 0x61, 0x64, 0x04, 0x61, 0x63, 0x03];
    let value = get_test_struct(&mut Deserializer::new(&data));
    assert_eq!(expect, value);

    let data = [
        0xBFu8, 0x61, 0x62, 0x02, 0x61, 0x61, 0x01, 0x61, 0x64, 0x04, 0x61, 0x63, 0x03, 0xFF,
    ];
    let value = get_test_struct(&mut Deserializer::new(&data));
    assert_eq!(expect, value);

    let exp = TestStruct2 {
        a: {
            let mut mp = BTreeMap::new();
            mp.insert(1, 1);
            mp.insert(0xff, 0xff);
            mp
        },
        b: 0,
    };
    let data = [0xA2u8, 0x61, 0x61, 0xA2, 0x01, 0x01, 0x18, 0xFF, 0x18, 0xFF, 0x61, 0x62, 0x00];
    let mut de = Deserializer::new(&data);
    let mut acc = de.deserialize_struct("TestStruct2", &["a", "b"]).unwrap();
    let (mut a, mut b) = (None, None);
    if let StructAccess::Keyed(m) = &mut acc {
        while m.next_key(&mut de).unwrap() {
            let key = de.deserialize_identifier().unwrap();
            m.next_value(&de).unwrap();
            if key == "a" {
                let mut inner = de.deserialize_map().unwrap();
                let mut mp = BTreeMap::new();
                while inner.next_key(&mut de).unwrap() {
                    let k = de.deserialize_i32().unwrap();
                    inner.next_value(&de).unwrap();
                    let v = de.deserialize_i32().unwrap();
                    mp.insert(k, v);
                }
                de.end_map(inner).unwrap();
                a = Some(mp);
            } else {
                b = Some(de.deserialize_u8().unwrap());
            }
        }
    } else {
        panic!("expected a map");
    }
    de.end_struct(acc).unwrap();
    let value = TestStruct2 { a: a.unwrap(), b: b.unwrap() };
    assert_eq!(exp, value);
}

#[test]
fn test_flat() {
    let exp = (0x01u8, "a", 0xffi32);
    let data = [0x01u8, 0x61, 0x61, 0x18, 0xFF];
    let read = |data: &[u8]| -> (u8, String, i32) {
        let mut de = Deserializer::new_with_config(data, Config { top_flatten: true });
        let mut acc = de.deserialize_tuple(3).unwrap();
        assert!(acc.next_element(&mut de).unwrap());
        let a = de.deserialize_u8().unwrap();
        assert!(acc.next_element(&mut de).unwrap());
        let b = de.deserialize_str().unwrap().to_string();
        assert!(acc.next_element(&mut de).unwrap());
        let c = de.deserialize_i32().unwrap();
        de.end_seq(acc).unwrap();
        (a, b, c)
    };
    let value = read(&data);
    assert_eq!((exp.0, exp.1.to_string(), exp.2), value);

    let mut ser = Serializer::new_with_config(Vec::new(), Config { top_flatten: true });
    let mut c = ser.serialize_tuple(3).unwrap();
    c.serialize_element();
    ser.serialize_u8(exp.0).unwrap();
    c.serialize_element();
    ser.serialize_str(exp.1).unwrap();
    c.serialize_element();
    ser.serialize_i32(exp.2).unwrap();
    c.end(&mut ser).unwrap();
    let data = ser.into_bytes();
    let value = read(&data);
    assert_eq!((exp.0, exp.1.to_string(), exp.2), value);
}

#[test]
fn de_test_enum() {
    check_enum(&[0x61, 0x41], TestEnum::A);
    check_enum(&[0xA1, 0x61, 0x42, 0x01], TestEnum::B(1));
    check_enum(&[0xA1, 0x61, 0x42, 0x18, 0xff], TestEnum::B(0xff));
    check_enum(
        &[
            0xA1, 0x61, 0x43, 0xa4, 0x61, 0x62, 0x02, 0x61, 0x61, 0x01, 0x61, 0x64, 0x04, 0x61,
            0x63, 0x03,
        ],
        TestEnum::C(TestStruct { a: 1, b: 2, c: 3, d: 4 }),
    );
    check_enum(
        &[
            0xBF, 0x61, 0x43, 0xa4, 0x61, 0x62, 0x02, 0x61, 0x61, 0x01, 0x61, 0x64, 0x04, 0x61,
            0x63, 0x03, 0xFF,
        ],
        TestEnum::C(TestStruct { a: 1, b: 2, c: 3, d: 4 }),
    );
    check_enum(&[0xA1, 0x61, 0x44, 0x82, 0x01, 0x02], TestEnum::D((1, 2)));
}

#[test]
fn test_de() {
    let data = [0xA1u8, 0x65, 0x68, 0x65, 0x6C, 0x6C, 0x6F, 0x65, 0x77, 0x6F, 0x72, 0x6C, 0x64];
    let mut de = Deserializer::new(&data);
    let mut acc = de.deserialize_struct("TestStruct", &["hello"]).unwrap();
    let mut hello = None;
    if let StructAccess::Keyed(m) = &mut acc {
        while m.next_key(&mut de).unwrap() {
            assert_eq!("hello", de.deserialize_identifier().unwrap());
            m.next_value(&de).unwrap();
            hello = Some(de.deserialize_string().unwrap().to_string());
        }
    }
    de.end_struct(acc).unwrap();
    assert_eq!(Some("world".to_string()), hello);
}

#[test]
fn byte_string_reads_as_u8_sequence() {
    let data = [0x45u8, 0x68, 0x65, 0x6C, 0x6C, 0x6F];
    let mut de = Deserializer::new(&data);
    assert_eq!(vec![0x68u8, 0x65, 0x6C, 0x6C, 0x6F], get_u8_vec(&mut de));
    assert_eq!(data.len(), de.position());
    // the pending byte does not outlive the sequence
    assert!(de.deserialize_u8().is_err());
}

#[test]
fn two_entry_map_is_no_enum() {
    let data = [0xA2u8, 0x61, 0x41, 0x01, 0x61, 0x42, 0x02];
    let mut de = Deserializer::new(&data);
    let e = de.deserialize_enum("E", &["A", "B"]).unwrap_err();
    assert_eq!(ErrorKind::TypeMismatch(Some(WireType::Mapping)), e.kind);
    assert_eq!(0, de.position());

    // an indefinite map with a second entry fails at its end
    let data = [0xBFu8, 0x61, 0x41, 0x01, 0x61, 0x42, 0x02, 0xFF];
    let mut de = Deserializer::new(&data);
    let form = de.deserialize_enum("E", &["A", "B"]).unwrap();
    assert_eq!(EnumForm::Variant { indefinite: true }, form);
    assert_eq!("A", de.deserialize_identifier().unwrap());
    assert_eq!(1, de.deserialize_u8().unwrap());
    let e = de.end_enum(form).unwrap_err();
    assert_eq!(ErrorKind::TypeMismatch(Some(WireType::String)), e.kind);

    let data = [0x01u8];
    let e = Deserializer::new(&data).deserialize_enum("E", &["A"]).unwrap_err();
    assert_eq!(ErrorKind::TypeMismatch(Some(WireType::U8)), e.kind);
}

#[test]
fn depth_below_zero_is_refused() {
    let data = [0x80u8];
    let mut de = Deserializer::new(&data);
    let e = de.depth_add(-1).unwrap_err();
    assert_eq!(ErrorKind::EndOfInput, e.kind);
    assert_eq!(0, de.depth());
    de.depth_add(2).unwrap();
    assert_eq!(2, de.depth());
    assert!(de.depth_add(-3).is_err());
    assert_eq!(2, de.depth());
    let mut de = Deserializer::new(&data);
    let acc = de.deserialize_map();
    assert!(acc.is_err());
    let mut acc = de.deserialize_seq().unwrap();
    assert!(!acc.next_element(&mut de).unwrap());
    de.end_seq(acc).unwrap();
    let e = de.end_map(minicbor_serde_bridge::de::MapAccess { len: Some(0), index: 0 }).unwrap_err();
    assert_eq!(ErrorKind::EndOfInput, e.kind);
    de.depth_add(i32::MAX).unwrap();
    de.depth_add(i32::MAX).unwrap();
    let e = de.depth_add(i32::MAX).unwrap_err();
    assert_eq!(ErrorKind::Overflow, e.kind);
}

#[test]
fn any_and_specific_decode_agree() {
    let data = [0x19u8, 0x01, 0xf4];
    let mut de = Deserializer::new(&data);
    assert!(matches!(de.deserialize_any().unwrap(), Dispatch::U16));
    assert_eq!(500, de.deserialize_u16().unwrap());

    let data = [0x39u8, 0x01, 0xf3];
    let de = Deserializer::new(&data);
    assert!(matches!(de.deserialize_any().unwrap(), Dispatch::I16));

    let data = [0x9fu8, 0x01, 0xff];
    let de = Deserializer::new(&data);
    assert!(matches!(de.deserialize_any().unwrap(), Dispatch::Sequence));
    let data = [0xbfu8, 0xff];
    let de = Deserializer::new(&data);
    assert!(matches!(de.deserialize_any().unwrap(), Dispatch::Mapping));
    let data = [0xf6u8];
    let de = Deserializer::new(&data);
    assert!(matches!(de.deserialize_any().unwrap(), Dispatch::Optional));

    for (byte, t) in [
        (0xc1u8, WireType::Tag),
        (0xf9, WireType::F16),
        (0xe0, WireType::Simple),
        (0xff, WireType::Break),
        (0x1c, WireType::Unknown(0x1c)),
    ] {
        let data = [byte, 0, 0];
        let e = Deserializer::new(&data).deserialize_any().unwrap_err();
        assert_eq!(ErrorKind::TypeMismatch(Some(t)), e.kind);
    }
    let e = Deserializer::new(&[0u8; 0]).deserialize_any().unwrap_err();
    assert_eq!(ErrorKind::EndOfInput, e.kind);
}

#[test]
fn definite_and_indefinite_sequences_agree() {
    let definite = [0x83u8, 0x01, 0x02, 0x03];
    let indefinite = [0x9fu8, 0x01, 0x02, 0x03, 0xff];
    let mut a = Deserializer::new(&definite);
    let mut b = Deserializer::new(&indefinite);
    assert_eq!(get_u8_vec(&mut a), get_u8_vec(&mut b));
    assert_eq!(definite.len(), a.position());
    assert_eq!(indefinite.len(), b.position());

    let definite = [0xa1u8, 0x01, 0x02];
    let indefinite = [0xbfu8, 0x01, 0x02, 0xff];
    for data in [&definite[..], &indefinite[..]] {
        let mut de = Deserializer::new(data);
        let mut m = de.deserialize_map().unwrap();
        let mut pairs = Vec::new();
        while m.next_key(&mut de).unwrap() {
            let k = de.deserialize_u8().unwrap();
            m.next_value(&de).unwrap();
            pairs.push((k, de.deserialize_u8().unwrap()));
        }
        de.end_map(m).unwrap();
        assert_eq!(vec![(1u8, 2u8)], pairs);
        assert_eq!(data.len(), de.position());
    }
}

#[test]
fn scalar_decode_errors() {
    // 0x100 does not fit a u8
    let data = [0x19u8, 0x01, 0x00];
    let e = Deserializer::new(&data).deserialize_u8().unwrap_err();
    assert_eq!(ErrorKind::Overflow, e.kind);
    // -129 does not fit an i8
    let data = [0x38u8, 0x80];
    let e = Deserializer::new(&data).deserialize_i8().unwrap_err();
    assert_eq!(ErrorKind::Overflow, e.kind);
    assert_eq!(-129, Deserializer::new(&data).deserialize_i16().unwrap());
    // a text string is no integer
    let data = [0x61u8, 0x41];
    let e = Deserializer::new(&data).deserialize_u32().unwrap_err();
    assert_eq!(ErrorKind::TypeMismatch(Some(WireType::String)), e.kind);
    // truncated input
    let data = [0x19u8, 0x01];
    let e = Deserializer::new(&data).deserialize_u16().unwrap_err();
    assert_eq!(ErrorKind::EndOfInput, e.kind);
    // a missing map value
    let data = [0xbfu8, 0x01, 0xff];
    let mut de = Deserializer::new(&data);
    let mut m = de.deserialize_map().unwrap();
    assert!(m.next_key(&mut de).unwrap());
    de.deserialize_u8().unwrap();
    let e = m.next_value(&de).unwrap_err();
    assert_eq!(ErrorKind::MissingValue, e.kind);
    // the unit payload of a bare variant name
    assert_eq!(ErrorKind::Custom, EnumUnitAccess.tuple_variant().kind);
    assert_eq!(ErrorKind::Custom, EnumUnitAccess.struct_variant().kind);
    assert_eq!(ErrorKind::Custom, EnumUnitAccess.newtype_variant_seed().kind);
    // tags and wide integers
    let mut de = Deserializer::new(&data);
    assert_eq!(
        ErrorKind::TypeMismatch(Some(WireType::Tag)),
        de.deserialize_tag().unwrap_err().kind
    );
    assert_eq!(ErrorKind::Unsupported128BitInteger, de.deserialize_i128().unwrap_err().kind);
    assert_eq!(ErrorKind::Unsupported128BitInteger, de.deserialize_u128().unwrap_err().kind);
    // a non-null unit
    let e = Deserializer::new(&[0x01u8]).deserialize_unit().unwrap_err();
    assert_eq!(ErrorKind::TypeMismatch(Some(WireType::U8)), e.kind);
}

#[test]
fn scalars_read_back() {
    let mut ser = Serializer::new(Vec::new());
    ser.serialize_bool(true).unwrap();
    ser.serialize_i64(-1_000_000).unwrap();
    ser.serialize_u64(u64::MAX).unwrap();
    ser.serialize_char('\u{1F600}').unwrap();
    ser.serialize_str("h\u{e9}llo").unwrap();
    ser.serialize_bytes(&[9, 8, 7]).unwrap();
    ser.serialize_none().unwrap();
    ser.serialize_unit().unwrap();
    ser.serialize_u8(5).unwrap();
    let data = ser.into_bytes();
    let mut de = Deserializer::new(&data);
    assert!(de.deserialize_bool().unwrap());
    assert_eq!(-1_000_000, de.deserialize_i64().unwrap());
    assert_eq!(u64::MAX, de.deserialize_u64().unwrap());
    assert_eq!('\u{1F600}', de.deserialize_char().unwrap());
    assert_eq!("h\u{e9}llo", de.deserialize_str().unwrap());
    assert_eq!(&[9u8, 8, 7][..], de.deserialize_bytes().unwrap());
    assert!(!de.deserialize_option().unwrap());
    de.deserialize_unit().unwrap();
    assert!(de.deserialize_option().unwrap());
    assert_eq!(5, de.deserialize_u8().unwrap());
    assert_eq!(data.len(), de.position());
}

#[test]
fn decode_errors_carry_their_kind_and_message() {
    let e = minicbor_serde_bridge::error::de::Error::custom("bad");
    assert_eq!(ErrorKind::Custom, e.kind);
    assert_eq!("bad", e.message());
    assert!(e.source().is_none());
    assert_eq!("", minicbor_serde_bridge::error::make_msg(""));
}

#[test]
fn reader_failures_have_their_own_kinds() {
    // empty input
    let e = Deserializer::new(&[0u8; 0]).deserialize_u8().unwrap_err();
    assert_eq!(ErrorKind::EndOfInput, e.kind);
    // a surrogate is no char
    let e = Deserializer::new(&[0x19u8, 0xd8, 0x00]).deserialize_char().unwrap_err();
    assert_eq!(ErrorKind::InvalidChar, e.kind);
    // a number beyond 32 bits is no char
    let data = [0x1bu8, 0, 0, 0, 1, 0, 0, 0, 0];
    let e = Deserializer::new(&data).deserialize_char().unwrap_err();
    assert_eq!(ErrorKind::Overflow, e.kind);
    // 2^63 does not fit an i64
    let data = [0x1bu8, 0x80, 0, 0, 0, 0, 0, 0, 0];
    let e = Deserializer::new(&data).deserialize_i64().unwrap_err();
    assert_eq!(ErrorKind::Overflow, e.kind);
    // a negative number is no u64
    let e = Deserializer::new(&[0x20u8]).deserialize_u64().unwrap_err();
    assert_eq!(ErrorKind::TypeMismatch(Some(WireType::I8)), e.kind);
    // invalid UTF-8
    let mut de = Deserializer::new(&[0x62u8, 0xff, 0xfe]);
    let e = de.deserialize_str().unwrap_err();
    assert_eq!(ErrorKind::Utf8, e.kind);
    assert_eq!(0, de.position());
    // a text string cut short
    let e = Deserializer::new(&[0x63u8, 0x61]).deserialize_identifier().unwrap_err();
    assert_eq!(ErrorKind::EndOfInput, e.kind);
    // a byte string cut short, and an integer where bytes were wanted
    let e = Deserializer::new(&[0x43u8, 0x01]).deserialize_bytes().unwrap_err();
    assert_eq!(ErrorKind::EndOfInput, e.kind);
    let e = Deserializer::new(&[0x01u8]).deserialize_bytes().unwrap_err();
    assert_eq!(ErrorKind::TypeMismatch(Some(WireType::U8)), e.kind);
    // a head cut short
    let e = Deserializer::new(&[0x1au8, 0x00]).deserialize_u32().unwrap_err();
    assert_eq!(ErrorKind::EndOfInput, e.kind);
    // no boolean
    let e = Deserializer::new(&[0x01u8]).deserialize_bool().unwrap_err();
    assert_eq!(ErrorKind::TypeMismatch(Some(WireType::U8)), e.kind);
    let e = Deserializer::new(&[0x38u8]).deserialize_bool().unwrap_err();
    assert_eq!(ErrorKind::EndOfInput, e.kind);
}

#[test]
fn empty_indefinite_map_is_no_enum() {
    let data = [0xBFu8, 0xFF];
    let mut de = Deserializer::new(&data);
    let e = de.deserialize_enum("E", &["A"]).unwrap_err();
    assert_eq!(ErrorKind::TypeMismatch(Some(WireType::MappingIndef)), e.kind);
    assert_eq!(0, de.position());
    assert_eq!(0, de.depth());
}

#[test]
fn flattened_struct_reads_back() {
    // struct P { a: u8, b: u8 } with a = 1, b = 2, flattened
    let mut ser = Serializer::new_with_config(Vec::new(), Config { top_flatten: true });
    let mut c = ser.serialize_struct("P", 2).unwrap();
    c.serialize_field(&mut ser, "a");
    ser.serialize_u8(1).unwrap();
    c.serialize_field(&mut ser, "b");
    ser.serialize_u8(2).unwrap();
    c.end(&mut ser).unwrap();
    let data = ser.into_bytes();
    assert_eq!(vec![0x01u8, 0x02], data);

    let mut de = Deserializer::new_with_config(&data, Config { top_flatten: true });
    let mut acc = de.deserialize_struct("P", &["a", "b"]).unwrap();
    let mut fields = Vec::new();
    if let StructAccess::Positional(s) = &mut acc {
        while s.next_element(&mut de).unwrap() {
            fields.push(de.deserialize_u8().unwrap());
        }
    } else {
        panic!("expected the fields by position");
    }
    de.end_struct(acc).unwrap();
    assert_eq!(vec![1u8, 2], fields);
}

#[test]
fn cut_short_containers_end_the_input() {
    let e = Deserializer::new(&[0x98u8]).deserialize_seq().unwrap_err();
    assert_eq!(ErrorKind::EndOfInput, e.kind);
    let e = Deserializer::new(&[0x43u8, 0x01]).deserialize_seq().unwrap_err();
    assert_eq!(ErrorKind::EndOfInput, e.kind);
    let e = Deserializer::new(&[0xb8u8]).deserialize_map().unwrap_err();
    assert_eq!(ErrorKind::EndOfInput, e.kind);
    let e = Deserializer::new(&[0x99u8, 0x00]).deserialize_struct("S", &["a"]).unwrap_err();
    assert_eq!(ErrorKind::EndOfInput, e.kind);
    let e = Deserializer::new(&[0xb9u8]).deserialize_enum("E", &["A"]).unwrap_err();
    assert_eq!(ErrorKind::EndOfInput, e.kind);
}

#[test]
fn codec_errors_map_to_their_kinds() {
    let cases = [
        (CborError::end_of_input(), ErrorKind::EndOfInput),
        (CborError::message("m"), ErrorKind::Message),
        (CborError::type_mismatch(minicbor::data::Type::Bool), ErrorKind::TypeMismatch(None)),
        (CborError::unknown_variant(3), ErrorKind::UnknownVariant),
        (CborError::missing_value(1), ErrorKind::MissingValue),
        (CborError::tag_mismatch(minicbor::data::Tag::new(1)), ErrorKind::Unknow),
    ];
    for (e, kind) in cases {
        let r = DecodeError::from_codec(e);
        assert_eq!(kind, r.kind);
        assert!(r.source().is_some());
        assert_eq!("", r.message());
    }
}
