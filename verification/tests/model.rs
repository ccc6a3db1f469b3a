use zcl_schema::literal::parse_uint;
use zcl_schema::literal::typed_int;
use zcl_schema::literal::IntValue;
use zcl_schema::types::Array;
use zcl_schema::types::CharacterString;
use zcl_schema::types::Date;
use zcl_schema::types::LongCharacterString;
use zcl_schema::types::LongOctetString;
use zcl_schema::types::OctetString;
use zcl_schema::types::TimeOfDay;
use zcl_schema::types::ZclCompatibleType;
use zcl_schema::types::ZclType;
use zcl_schema::wiretype::resolve_kind;
use zcl_schema::wiretype::Domain;
use zcl_schema::Status;
use zcl_schema::ZclError;

#[test]
fn literal_forms() {
    assert_eq!(parse_uint(&b"0".to_vec()), Some(0));
    assert_eq!(parse_uint(&b"255".to_vec()), Some(255));
    assert_eq!(parse_uint(&b"0xff".to_vec()), Some(255));
    assert_eq!(parse_uint(&b"0XAb".to_vec()), Some(0xab));
    assert_eq!(parse_uint(&b"0xfffd".to_vec()), Some(0xfffd));
    assert_eq!(parse_uint(&b"18446744073709551615".to_vec()), Some(u64::MAX));
    assert_eq!(parse_uint(&b"18446744073709551616".to_vec()), None);
    assert_eq!(parse_uint(&b"0x10000000000000000".to_vec()), None);
    assert_eq!(parse_uint(&b"".to_vec()), None);
    assert_eq!(parse_uint(&b"0x".to_vec()), None);
    assert_eq!(parse_uint(&b"12a".to_vec()), None);
    assert_eq!(parse_uint(&b"-1".to_vec()), None);
}

#[test]
fn typed_int_reinterprets_signed() {
    assert_eq!(typed_int(0x7f, true, 1), Some(IntValue::Signed(127)));
    assert_eq!(typed_int(0x80, true, 1), Some(IntValue::Signed(-128)));
    assert_eq!(typed_int(0xff, true, 1), Some(IntValue::Signed(-1)));
    assert_eq!(typed_int(0x100, true, 1), None);
    assert_eq!(typed_int(0xff, false, 1), Some(IntValue::Unsigned(255)));
    assert_eq!(typed_int(0x100, false, 1), None);
    assert_eq!(typed_int(0x8000_0000_0000_0000, true, 8), Some(IntValue::Signed(i64::MIN)));
    assert_eq!(typed_int(u64::MAX, true, 8), Some(IntValue::Signed(-1)));
    assert_eq!(typed_int(u64::MAX, false, 8), Some(IntValue::Unsigned(u64::MAX)));
}

#[test]
fn wiretype_table() {
    let name = b"Whatever".to_vec();
    let uint8 = resolve_kind(&name, &b"uint8".to_vec());
    assert_eq!(uint8.id, 0x20);
    assert_eq!(uint8.width, 1);
    assert_eq!(uint8.domain, Domain::Unsigned);
    let int48 = resolve_kind(&name, &b"int48".to_vec());
    assert_eq!(int48.id, 0x2d);
    assert_eq!(int48.width, 6);
    assert_eq!(int48.domain, Domain::Signed);
    let map32 = resolve_kind(&name, &b"map32".to_vec());
    assert_eq!(map32.id, 0x1b);
    assert_eq!(map32.width, 4);
    assert_eq!(map32.domain, Domain::Bitmap);
    let string16 = resolve_kind(&name, &b"string16".to_vec());
    assert_eq!(string16.id, 0x44);
    assert_eq!(string16.width, 2);
    assert_eq!(string16.domain, Domain::Chars);
    let key = resolve_kind(&name, &b"key128".to_vec());
    assert_eq!(key.id, 0xf1);
    assert_eq!(key.width, 16);
    assert_eq!(key.domain, Domain::SecurityKey);
    let tod = resolve_kind(&name, &b"ToD".to_vec());
    assert_eq!(tod.id, 0xe0);
    assert_eq!(tod.domain, Domain::TimeOfDay);
    let unk = resolve_kind(&name, &b"unk".to_vec());
    assert_eq!(unk.id, 0xff);
    assert_eq!(unk.domain, Domain::Unknown);
}

#[test]
fn wiretype_enum_tags() {
    let name = b"PowerSource".to_vec();
    let bare = resolve_kind(&name, &b"enum8".to_vec());
    assert_eq!(bare.id, 0x30);
    assert_eq!(bare.domain, Domain::Enumeration { wide: false, name: b"PowerSource".to_vec() });
    let qualified = resolve_kind(&name, &b"enum16:Level".to_vec());
    assert_eq!(qualified.id, 0x31);
    assert_eq!(qualified.width, 2);
    assert_eq!(qualified.domain, Domain::Enumeration { wide: true, name: b"Level".to_vec() });
}

#[test]
fn wiretype_unrecognized_tag_passes_through() {
    let name = b"Whatever".to_vec();
    let other = resolve_kind(&name, &b"semi".to_vec());
    assert_eq!(other.id, 0xff);
    assert_eq!(other.width, 0);
    assert_eq!(other.domain, Domain::Other(b"semi".to_vec()));
}

#[test]
fn octet_string_lengths() {
    assert_eq!(OctetString(Some(vec![1, 2, 3])).len(), 4);
    assert_eq!(OctetString(None).len(), 1);
    assert_eq!(OctetString::id(), 0x41);
    assert_eq!(OctetString::non_value(), Some(None));
}

#[test]
fn character_string_lengths() {
    assert_eq!(CharacterString(Some(b"lamp".to_vec())).len(), 5);
    assert_eq!(CharacterString(None).len(), 1);
    assert_eq!(CharacterString::id(), 0x42);
}

#[test]
fn long_string_lengths() {
    assert_eq!(LongOctetString(Some(vec![9; 300])).len(), 302);
    assert_eq!(LongOctetString(None).len(), 2);
    assert_eq!(LongOctetString::id(), 0x43);
    assert_eq!(LongCharacterString(Some(b"x".to_vec())).len(), 3);
    assert_eq!(LongCharacterString(None).len(), 2);
    assert_eq!(LongCharacterString::id(), 0x44);
}

#[test]
fn array_length_sums_elements() {
    let arr = Array(Some(vec![OctetString(Some(vec![1, 2])), OctetString(None)]));
    assert_eq!(arr.len(), 2 + 3 + 1);
    assert_eq!(Array::<OctetString>(None).len(), 2);
    assert_eq!(Array::<OctetString>::id(), 0x48);
}

#[test]
fn time_of_day_and_date() {
    let t = TimeOfDay { hours: 23, minutes: 59, seconds: 59, hundredths: 99 };
    assert_eq!(t.len(), 4);
    assert_eq!(TimeOfDay::non_value(), Some(TimeOfDay::invalid()));
    assert_eq!(TimeOfDay::invalid().hours, 0xff);
    assert_eq!(TimeOfDay::id(), 0xe0);
    let d = Date { year: 125, month: 10, day_of_month: 8, day_of_week: 3 };
    assert_eq!(d.len(), 4);
    assert_eq!(Date::non_value(), Some(Date::invalid()));
    assert_eq!(Date::id(), 0xe1);
}

#[test]
fn status_codes_round_trip() {
    assert_eq!(Status::Success.code(), 0x00);
    assert_eq!(Status::InvalidValue.code(), 0x87);
    assert_eq!(Status::UnsupportedCluster.code(), 0xc3);
    assert_eq!(Status::from_code(0x00), Status::Success);
    assert_eq!(Status::from_code(0x88), Status::ReadOnly);
    assert_eq!(Status::from_code(0x42), Status::Invalid(0x42));
    for code in 0..=0xffu16 {
        let code = code as u8;
        assert_eq!(Status::from_code(code).code(), code);
    }
}

#[test]
fn zcl_error_messages() {
    assert_eq!(ZclError::Serialization.message(), "failed to serialize value");
    assert_eq!(ZclError::ValueOutOfRange.message(), "value is out of range");
}
