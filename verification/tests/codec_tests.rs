use objektdb_core::{
    decode, encode, CodecError, FromBytes, Primitive, SchemaError, ToBytes, OID,
};

#[test]
fn u32_is_little_endian() {
    assert_eq!(0x4D594442u32.to_bytes(), vec![0x42, 0x44, 0x59, 0x4D]);
    assert_eq!(u32::from_bytes(&[0x42, 0x44, 0x59, 0x4D]), 0x4D594442u32);
}

#[test]
fn i32_is_twos_complement() {
    assert_eq!((-2i32).to_bytes(), vec![0xFE, 0xFF, 0xFF, 0xFF]);
    assert_eq!(i32::from_bytes(&[0xFE, 0xFF, 0xFF, 0xFF]), -2i32);
    assert_eq!(i32::try_from_bytes(&[0xFE, 0xFF, 0xFF]), None);
}

#[test]
fn unsigned_widths() {
    assert_eq!(0xABu8.to_bytes(), vec![0xAB]);
    assert_eq!(0x1234u16.to_bytes(), vec![0x34, 0x12]);
    assert_eq!(
        0x0102030405060708u64.to_bytes(),
        vec![0x08, 0x07, 0x06, 0x05, 0x04, 0x03, 0x02, 0x01]
    );
    assert_eq!(
        u128::MAX.to_bytes(),
        vec![0xFF; 16]
    );
    assert_eq!(u8::from_bytes(&[0xAB]), 0xAB);
    assert_eq!(u16::from_bytes(&[0x34, 0x12]), 0x1234);
    assert_eq!(
        u64::from_bytes(&[0x08, 0x07, 0x06, 0x05, 0x04, 0x03, 0x02, 0x01]),
        0x0102030405060708u64
    );
    assert_eq!(u128::from_bytes(&[0xFF; 16]), u128::MAX);
}

#[test]
fn signed_extremes_round_trip() {
    assert_eq!(i8::MIN.to_bytes(), vec![0x80]);
    assert_eq!(i8::from_bytes(&[0x80]), i8::MIN);
    assert_eq!(i16::MIN.to_bytes(), vec![0x00, 0x80]);
    assert_eq!(i16::from_bytes(&[0xFF, 0x7F]), i16::MAX);
    assert_eq!(i64::from_bytes(&i64::MIN.to_bytes()), i64::MIN);
    assert_eq!(i64::from_bytes(&i64::MAX.to_bytes()), i64::MAX);
    assert_eq!(i128::from_bytes(&i128::MIN.to_bytes()), i128::MIN);
    assert_eq!(i128::from_bytes(&i128::MAX.to_bytes()), i128::MAX);
    assert_eq!(i128::from_bytes(&(-1i128).to_bytes()), -1i128);
    assert_eq!((-1i128).to_bytes(), vec![0xFF; 16]);
    let mut min = vec![0x00; 16];
    min[15] = 0x80;
    assert_eq!(i128::MIN.to_bytes(), min);
}

#[test]
fn encoding_agrees_with_the_standard_library() {
    for v in [0u32, 1, 255, 256, 65535, 0xDEADBEEF, u32::MAX] {
        assert_eq!(v.to_bytes(), v.to_le_bytes().to_vec());
        assert_eq!(u32::from_bytes(&v.to_le_bytes()), v);
    }
    for v in [0i64, 1, -1, 127, -128, i64::MIN, i64::MAX, -0x0123456789ABCDEF] {
        assert_eq!(v.to_bytes(), v.to_le_bytes().to_vec());
        assert_eq!(i64::from_bytes(&v.to_le_bytes()), v);
    }
    for v in [0i16, 1, -1, i16::MIN, i16::MAX, -12345] {
        assert_eq!(v.to_bytes(), v.to_le_bytes().to_vec());
        assert_eq!(i16::from_bytes(&v.to_le_bytes()), v);
    }
}

#[test]
fn size_types_take_the_platform_width() {
    let width = std::mem::size_of::<usize>();
    assert_eq!(usize::MAX.to_bytes(), vec![0xFF; width]);
    assert_eq!(usize::from_bytes(&7usize.to_le_bytes()), 7usize);
    assert_eq!(isize::from_bytes(&(-7isize).to_le_bytes()), -7isize);
    assert_eq!((-7isize).to_bytes(), (-7isize).to_le_bytes().to_vec());
    assert_eq!(isize::MIN.to_bytes(), isize::MIN.to_le_bytes().to_vec());
    assert_eq!(usize::try_from_bytes(&vec![0u8; width + 1]), None);
    assert_eq!(isize::try_from_bytes(&vec![0u8; width - 1]), None);
}

#[test]
fn wrong_width_is_refused() {
    assert_eq!(u8::try_from_bytes(&[]), None);
    assert_eq!(u16::try_from_bytes(&[1]), None);
    assert_eq!(u32::try_from_bytes(&[1, 2, 3, 4, 5]), None);
    assert_eq!(u64::try_from_bytes(&[0; 4]), None);
    assert_eq!(u128::try_from_bytes(&[0; 15]), None);
    assert_eq!(i8::try_from_bytes(&[0, 0]), None);
    assert_eq!(i64::try_from_bytes(&[0; 7]), None);
    assert_eq!(i128::try_from_bytes(&[0; 17]), None);
    assert_eq!(u32::try_from_bytes(&[1, 0, 0, 0]), Some(1));
    assert_eq!(i16::try_from_bytes(&[0xFF, 0xFF]), Some(-1));
}

#[test]
fn bool_is_one_byte() {
    assert_eq!(true.to_bytes(), vec![1]);
    assert_eq!(false.to_bytes(), vec![0]);
    assert!(bool::from_bytes(&[1]));
    assert!(!bool::from_bytes(&[0]));
    assert!(bool::from_bytes(&[2]));
    assert_eq!(bool::try_from_bytes(&[]), None);
    assert_eq!(bool::try_from_bytes(&[1, 0]), None);
    assert_eq!(bool::try_from_bytes(&[0]), Some(false));
}

#[test]
fn char_is_its_scalar_value_on_four_bytes() {
    assert_eq!('A'.to_bytes(), vec![0x41, 0, 0, 0]);
    assert_eq!('€'.to_bytes(), vec![0xAC, 0x20, 0, 0]);
    assert_eq!(char::from_bytes(&[0x41, 0, 0, 0]), 'A');
    assert_eq!(char::from_bytes(&[0xAC, 0x20, 0, 0]), '€');
    assert_eq!(char::from_bytes(&char::MAX.to_bytes()), char::MAX);
    assert_eq!(char::try_from_bytes(&[0x00, 0x01, 0x01, 0x00]), Some('\u{10100}'));
}

#[test]
fn char_refuses_what_is_no_scalar_value() {
    // a surrogate
    assert_eq!(char::try_from_bytes(&[0x00, 0xD8, 0, 0]), None);
    assert_eq!(char::try_from_bytes(&[0xFF, 0xDF, 0, 0]), None);
    // above the last scalar value
    assert_eq!(char::try_from_bytes(&[0x00, 0x00, 0x11, 0x00]), None);
    assert_eq!(char::try_from_bytes(&[0xFF, 0xFF, 0xFF, 0xFF]), None);
    // the wrong width
    assert_eq!(char::try_from_bytes(&[0x41]), None);
    // the neighbours of the surrogates are characters
    assert_eq!(char::try_from_bytes(&[0xFF, 0xD7, 0, 0]), Some('\u{D7FF}'));
    assert_eq!(char::try_from_bytes(&[0x00, 0xE0, 0, 0]), Some('\u{E000}'));
}

#[test]
fn string_is_its_utf8_bytes() {
    assert_eq!("héllo".to_string().to_bytes(), vec![0x68, 0xC3, 0xA9, 0x6C, 0x6C, 0x6F]);
    assert_eq!(String::from_bytes(&[0x68, 0xC3, 0xA9, 0x6C, 0x6C, 0x6F]), "héllo");
    assert_eq!(String::from_bytes(&[]), "");
    assert_eq!(String::new().to_bytes(), Vec::<u8>::new());
    assert_eq!(String::try_from_bytes("日本語".as_bytes()), Some("日本語".to_string()));
}

#[test]
fn string_refuses_what_is_no_utf8() {
    assert_eq!(String::try_from_bytes(&[0xFF]), None);
    assert_eq!(String::try_from_bytes(&[0xC3]), None);
    assert_eq!(String::try_from_bytes(&[0x68, 0x80]), None);
    // an overlong encoding and an encoded surrogate
    assert_eq!(String::try_from_bytes(&[0xC0, 0x80]), None);
    assert_eq!(String::try_from_bytes(&[0xED, 0xA0, 0x80]), None);
}

#[test]
fn oid_is_a_64_bit_number() {
    let oid = OID::new(-3);
    assert_eq!(oid.value(), -3);
    assert_eq!(oid.to_bytes(), (-3i64).to_le_bytes().to_vec());
    assert_eq!(OID::from_bytes(&42i64.to_le_bytes()).value(), 42);
    assert_eq!(OID::try_from_bytes(&[1, 2, 3, 4]), None);
    assert_eq!(OID::try_from_bytes(&[1, 0, 0, 0, 0, 0, 0, 0]), Some(OID::new(1)));
}

#[test]
fn primitive_field_has_the_codec_of_its_value() {
    let field = Primitive::new(0x1234u16);
    assert_eq!(*field.value(), 0x1234);
    assert_eq!(field.to_bytes(), vec![0x34, 0x12]);
    let back: Primitive<u16> = Primitive::from_bytes(&[0x34, 0x12]);
    assert_eq!(back.into_value(), 0x1234);
    assert_eq!(Primitive::<u16>::try_from_bytes(&[0x34]), None);
    let text = Primitive::new("ab".to_string());
    assert_eq!(text.to_bytes(), vec![0x61, 0x62]);
    assert_eq!(Primitive::<String>::try_from_bytes(&[0xFF]), None);
}

#[test]
fn decode_is_the_inverse_of_encode() {
    assert_eq!(decode::<u32>(&encode(&0xDEADBEEFu32)), Ok(0xDEADBEEFu32));
    assert_eq!(decode::<i16>(&encode(&-300i16)), Ok(-300i16));
    assert_eq!(decode::<bool>(&encode(&true)), Ok(true));
    assert_eq!(decode::<char>(&encode(&'ß')), Ok('ß'));
    assert_eq!(decode::<String>(&encode(&"naïve".to_string())), Ok("naïve".to_string()));
    assert_eq!(decode::<OID>(&encode(&OID::new(9))), Ok(OID::new(9)));
    assert_eq!(encode(&0x0102u16), vec![2, 1]);
}

#[test]
fn decode_signals_a_format_error() {
    assert_eq!(decode::<u32>(&[1, 2, 3]), Err(CodecError::FormatError));
    assert_eq!(decode::<i64>(&[]), Err(CodecError::FormatError));
    assert_eq!(decode::<bool>(&[1, 1]), Err(CodecError::FormatError));
    assert_eq!(decode::<char>(&[0, 0xD8, 0, 0]), Err(CodecError::FormatError));
    assert_eq!(decode::<String>(&[0xC3, 0x28]), Err(CodecError::FormatError));
}

#[test]
fn codec_and_schema_errors_have_messages() {
    assert!(CodecError::TruncatedRecord.message().contains("truncated"));
    assert!(CodecError::FieldTooLarge.message().contains("255"));
    assert!(!CodecError::FormatError.message().is_empty());
    assert!(CodecError::SchemaMismatch.message().contains("schema"));
    assert!(SchemaError::NameTooLong.message().contains("too long"));
    assert!(SchemaError::CapacityExceeded.message().contains("255"));
    assert!(SchemaError::OidCount.message().contains("identity"));
}
