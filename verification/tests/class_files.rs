use jni_bindgen::class_file_visitor::attribute::Attribute as RawAttribute;
use jni_bindgen::class_file_visitor::constant::{read_pool, read_pool_visitor, Constant as PoolConstant};
use jni_bindgen::constants::{Constant, Constants};
use jni_bindgen::class_file_visitor::field::{Field as RawField, FieldVisit};
use jni_bindgen::gather_java::{ClassConstants, FieldRef, KnownAttribute};
use jni_bindgen::io_ext::{read_i4, read_i8, read_u1, read_u2, read_u4, read_u8, ByteReader, ReadError};
use jni_bindgen::jar::{Class, FieldConstant, Header};
use jni_bindgen::modified_utf8::{decode_strict, read_char, read_modified_utf8_as_mispaired_utf16, read_modified_utf8_as_utf8, read_modified_utf8_point};

fn utf8(s: &str) -> Vec<u8> {
    let mut v = vec![1u8, 0, s.len() as u8];
    v.extend_from_slice(s.as_bytes());
    v
}

/// A small class `Foo extends java/lang/Object` with a constant field `x = 42`, a deprecated
/// constructor, and the class itself deprecated.
fn sample_class() -> Vec<u8> {
    let mut b = vec![0xCA, 0xFE, 0xBA, 0xBE, 0, 0, 0, 0x34];
    b.extend_from_slice(&[0, 14]); // constant pool count
    b.extend(utf8("Foo")); // 1
    b.extend_from_slice(&[7, 0, 1]); // 2: class Foo
    b.extend(utf8("java/lang/Object")); // 3
    b.extend_from_slice(&[7, 0, 3]); // 4: class java/lang/Object
    b.extend(utf8("x")); // 5
    b.extend(utf8("I")); // 6
    b.extend(utf8("ConstantValue")); // 7
    b.extend_from_slice(&[3, 0, 0, 0, 42]); // 8: int 42
    b.extend(utf8("<init>")); // 9
    b.extend(utf8("()V")); // 10
    b.extend(utf8("Deprecated")); // 11
    b.extend_from_slice(&[5, 0, 0, 0, 0, 0, 0, 0, 7]); // 12 (and 13): long 7
    b.extend_from_slice(&[0x00, 0x21]); // public super
    b.extend_from_slice(&[0, 2, 0, 4, 0, 0]); // this, super, no interfaces
    b.extend_from_slice(&[0, 1, 0x00, 0x19, 0, 5, 0, 6, 0, 1, 0, 7, 0, 0, 0, 2, 0, 8]); // one field
    b.extend_from_slice(&[0, 1, 0x00, 0x01, 0, 9, 0, 10, 0, 1, 0, 11, 0, 0, 0, 0]); // one method
    b.extend_from_slice(&[0, 1, 0, 11, 0, 0, 0, 0]); // class attributes: deprecated
    b
}

#[test]
fn read_integers_big_endian() {
    let mut r = ByteReader::new(vec![0x12, 0x34, 0x56, 0x78, 0x9A, 0xBC, 0xDE, 0xF0, 0xFF]);
    assert_eq!(read_u1(&mut r).unwrap(), 0x12);
    assert_eq!(read_u2(&mut r).unwrap(), 0x3456);
    assert_eq!(read_u4(&mut r).unwrap(), 0x789ABCDE);
    assert_eq!(r.remaining(), 2);
    assert_eq!(read_u4(&mut r).unwrap_err(), ReadError::UnexpectedEof);
    assert_eq!(r.remaining(), 2);

    let mut r = ByteReader::new(vec![0xFF, 0xFF, 0xFF, 0xFE, 0x80, 0, 0, 0, 0, 0, 0, 1]);
    assert_eq!(read_i4(&mut r).unwrap(), -2);
    assert_eq!(read_i8(&mut r).unwrap(), i64::MIN + 1);
    let mut r = ByteReader::new(vec![1, 2, 3, 4, 5, 6, 7, 8]);
    assert_eq!(read_u8(&mut r).unwrap(), 0x0102030405060708);
}

#[test]
fn read_whole_class() {
    let mut r = ByteReader::new(sample_class());
    let class = Class::read(&mut r).unwrap();
    assert_eq!(r.remaining(), 0);
    assert_eq!(class.path, "Foo");
    assert_eq!(class.super_path.as_deref(), Some("java/lang/Object"));
    assert!(class.interfaces.is_empty());
    assert!(class.is_public());
    assert!(class.is_super());
    assert!(!class.is_interface());
    assert!(class.deprecated);

    assert_eq!(class.fields.len(), 1);
    let field = &class.fields[0];
    assert_eq!(field.name, "x");
    assert_eq!(field.descriptor_str(), "I");
    assert!(field.is_static() && field.is_final() && field.is_public());
    assert!(field.is_constant());
    assert!(matches!(field.constant, Some(FieldConstant::Integer(42))));
    assert_eq!(field.access(), Some("public"));

    assert_eq!(class.methods.len(), 1);
    let method = &class.methods[0];
    assert!(method.is_constructor());
    assert!(!method.is_static_init());
    assert!(method.deprecated);
    assert_eq!(method.descriptor_str(), "()V");
    assert!(method.descriptor().arguments().is_empty());
}

#[test]
fn class_errors() {
    let mut bytes = sample_class();
    bytes[0] = 0xCB;
    assert_eq!(Class::read(&mut ByteReader::new(bytes)).unwrap_err(), ReadError::InvalidMagic);

    let bytes = sample_class();
    assert_eq!(Class::read(&mut ByteReader::new(bytes[..3].to_vec())).unwrap_err(), ReadError::UnexpectedEof);
    assert_eq!(Class::read(&mut ByteReader::new(bytes[..bytes.len() - 1].to_vec())).unwrap_err(), ReadError::UnexpectedEof);

    // The field's descriptor is now "Foo", which is no descriptor.
    let mut bytes = sample_class();
    let field_start = bytes.len() - 8 - 16 - 18;
    bytes[field_start + 7] = 1;
    assert_eq!(Class::read(&mut ByteReader::new(bytes)).unwrap_err(), ReadError::InvalidDescriptor);

    // An unknown constant tag.
    let mut bytes = sample_class();
    bytes[10] = 2;
    assert_eq!(Class::read(&mut ByteReader::new(bytes)).unwrap_err(), ReadError::UnknownConstantTag(2));
}

#[test]
fn header_reads_version() {
    let h = Header::read(&mut ByteReader::new(sample_class())).unwrap();
    assert_eq!(h.minor_version, 0);
    assert_eq!(h.major_version.number(), 0x34);
    assert_eq!(h.major_version.to_string(), "52");
    assert_eq!(jni_bindgen::version::Major::default().to_string(), "45");
    assert_eq!(h.magic, [0xCA, 0xFE, 0xBA, 0xBE]);
}

#[test]
fn constant_pool_slots() {
    let bytes = sample_class();
    let mut r = ByteReader::new(bytes[8..].to_vec());
    let constants = Constants::read(&mut r).unwrap();
    assert_eq!(constants.0.len(), 14);
    assert!(matches!(constants.0[0], Constant::UnusedPlaceholder));
    assert!(matches!(constants.0[12], Constant::Long(7)));
    assert!(matches!(constants.0[13], Constant::UnusedPlaceholder));
    assert_eq!(constants.get_class(2).unwrap(), "Foo");
    assert_eq!(constants.get_optional_class(0).unwrap(), None);
    assert_eq!(constants.get_utf8(5).unwrap(), "x");
    assert_eq!(constants.get_utf8(2).unwrap_err(), ReadError::ExpectedUtf8(2));
    assert_eq!(constants.get_class(1).unwrap_err(), ReadError::ExpectedClass(1));
    assert_eq!(constants.get(14).unwrap_err(), ReadError::NoSuchConstant(14));
}

#[test]
fn visitor_pool() {
    let bytes = sample_class();
    let pool = read_pool(&mut ByteReader::new(bytes[8..].to_vec())).unwrap();
    assert_eq!(pool.len(), 14);
    assert!(matches!(pool[12], PoolConstant::Long(ref l) if l.0 == 7));

    // Every slot, in order, with its index.
    let mut visits: Vec<(u16, PoolConstant)> = Vec::new();
    read_pool_visitor(&mut ByteReader::new(bytes[8..].to_vec()), &mut visits).unwrap();
    let classes: Vec<(u16, u16)> = visits.iter().filter_map(|v| match v.1 { PoolConstant::Class(ref c) => Some((v.0, c.name_index)), _ => None }).collect();
    assert_eq!(classes, vec![(2, 1), (4, 3)]);
    let unused: Vec<u16> = visits.iter().filter(|v| matches!(v.1, PoolConstant::UnusedPlaceholder(_))).map(|v| v.0).collect();
    assert_eq!(unused, vec![0, 13]);
    assert_eq!(visits.iter().filter(|v| matches!(v.1, PoolConstant::Utf8(_))).count(), 8);
    let indices: Vec<u16> = visits.iter().map(|v| v.0).collect();
    assert_eq!(indices, (0..14).collect::<Vec<u16>>());
    assert!(matches!(visits[0].1, PoolConstant::UnusedPlaceholder(_)));
    assert!(matches!(visits[2].1, PoolConstant::Class(ref c) if c.name_index == 1));
    assert!(matches!(visits[12].1, PoolConstant::Long(ref l) if l.0 == 7));
    assert!(matches!(visits[13].1, PoolConstant::UnusedPlaceholder(_)));

    // On an error, the slots before it have been visited.
    let mut partial: Vec<(u16, PoolConstant)> = Vec::new();
    let err = read_pool_visitor(&mut ByteReader::new(vec![0, 4, 7, 0, 1, 99]), &mut partial).unwrap_err();
    assert_eq!(err, ReadError::UnknownConstantTag(99));
    assert_eq!(partial.len(), 2);
    assert!(matches!(partial[1], (1, PoolConstant::Class(ref c)) if c.name_index == 1));
    let mut none: Vec<(u16, PoolConstant)> = Vec::new();
    assert!(read_pool_visitor(&mut ByteReader::new(vec![0]), &mut none).is_err());
    assert!(none.is_empty());
}

#[test]
fn known_attributes() {
    let bytes = sample_class();
    let pool = read_pool(&mut ByteReader::new(bytes[8..].to_vec())).unwrap();
    let constants = ClassConstants(pool);
    let value = RawAttribute { attribute_name_index: 7, attribute_length: 2, info: vec![0, 8] };
    assert!(matches!(KnownAttribute::from(&constants, &value), Ok(KnownAttribute::ConstantValue_Integer(42))));
    let long = RawAttribute { attribute_name_index: 7, attribute_length: 2, info: vec![0, 12] };
    assert!(matches!(KnownAttribute::from(&constants, &long), Ok(KnownAttribute::ConstantValue_Long(7))));
    let deprecated = RawAttribute { attribute_name_index: 11, attribute_length: 0, info: vec![] };
    assert!(matches!(KnownAttribute::from(&constants, &deprecated), Ok(KnownAttribute::Deprecated)));
    let bad_length = RawAttribute { attribute_name_index: 7, attribute_length: 3, info: vec![0, 8] };
    assert!(KnownAttribute::from(&constants, &bad_length).is_err());
    let not_text = RawAttribute { attribute_name_index: 2, attribute_length: 0, info: vec![] };
    assert!(KnownAttribute::from(&constants, &not_text).is_err());
    assert_eq!(constants.utf8(1), "Foo");
    assert_eq!(constants.class(2).name_index, 1);
    assert_eq!(constants.try_utf8(0), None);
    assert_eq!(constants.try_utf8(2), None);

    let mut r = ByteReader::new(vec![0, 7, 0, 0, 0, 2, 0, 8, 99]);
    let raw = RawAttribute::read(&mut r).unwrap();
    assert_eq!(raw.attribute_name_index, 7);
    assert_eq!(raw.info, vec![0, 8]);
    assert_eq!(r.remaining(), 1);
}

#[test]
fn modified_utf8_decoding() {
    // NUL is written as two bytes in "Modified UTF-8".
    assert_eq!(read_modified_utf8_as_utf8(&[0x41, 0xC0, 0x80]).unwrap(), "A\0");
    // U+1F600 as a surrogate pair of two three byte forms.
    assert_eq!(read_modified_utf8_as_utf8(&[0xED, 0xA0, 0xBD, 0xED, 0xB8, 0x80]).unwrap(), "\u{1F600}");
    // A lone high surrogate is kept as UTF-16.
    assert_eq!(read_modified_utf8_as_utf8(&[0xED, 0xA0, 0xBD]), None);
    assert_eq!(read_modified_utf8_as_mispaired_utf16(&[0xED, 0xA0, 0xBD]).unwrap(), vec![0xD83D]);
    assert_eq!(decode_strict(b"hello").unwrap(), "hello");
    assert_eq!(decode_strict(&[0xC3, 0xA9]).unwrap(), "\u{e9}");
    assert!(decode_strict(&[0xC3]).is_err());
    assert!(decode_strict(&[0xFF]).is_err());
    // Above U+FFFF: a six byte surrogate pair.
    assert_eq!(decode_strict(&[0xED, 0xA0, 0x80, 0xED, 0xB0, 0x80]).unwrap(), "\u{10000}");
    assert_eq!(decode_strict(&[0xED, 0xA0, 0xBD, 0xED, 0xB8, 0x80, 0x41]).unwrap(), "\u{1F600}A");
    assert_eq!(read_char(&[0xED, 0xA0, 0x80, 0xED, 0xB0, 0x80]).unwrap(), ('\u{10000}', 6));
    // A three byte form led by 0xED below the surrogates is an ordinary character.
    assert_eq!(read_char(&[0xED, 0x9F, 0xBF]).unwrap(), ('\u{D7FF}', 3));
    assert!(decode_strict(&[0xED, 0xA0, 0x80, 0x41]).is_err());
    // A four byte UTF-8 form is moved past whole.
    assert_eq!(read_modified_utf8_point(&[0xF0, 0x90, 0x80, 0x80, 0x41]).unwrap(), (0x10000, 4));
    assert_eq!(read_modified_utf8_as_utf8(&[0xF0, 0x90, 0x80, 0x80, 0x41]).unwrap(), "\u{10000}A");
}

#[test]
fn raw_field_list() {
    let bytes = sample_class();
    let start = bytes.len() - 8 - 16 - 18;
    let mut r = ByteReader::new(bytes[start..].to_vec());
    let mut visits: Vec<FieldVisit> = Vec::new();
    RawField::read_list_visitor(&mut r, &mut visits).unwrap();
    assert_eq!(r.remaining(), 16 + 8);
    assert_eq!(visits.len(), 2);
    assert!(matches!(visits[0], FieldVisit::Field(0, ref f) if f.name_index == 5 && f.descriptor_index == 6
        && f.attributes_count == 1 && f.access_flags.bits() == 0x19));
    assert!(matches!(visits[1], FieldVisit::Attribute(0, 0, ref a) if a.attribute_name_index == 7 && a.info == vec![0, 8]));

    let mut short: Vec<FieldVisit> = Vec::new();
    let err = RawField::read_list_visitor(&mut ByteReader::new(bytes[start..start + 12].to_vec()), &mut short).unwrap_err();
    assert_eq!(err, ReadError::UnexpectedEof);
    assert_eq!(short.len(), 1);
    assert!(matches!(short[0], FieldVisit::Field(0, _)));

    let field = RawField::read_except_attributes(&mut ByteReader::new(bytes[start + 2..].to_vec())).unwrap();
    assert_eq!(field.attributes_count, 1);
    assert!(!field.deprecated);
    assert_eq!(field.rust_const_value, None);
    let pool = read_pool(&mut ByteReader::new(bytes[8..].to_vec())).unwrap();
    let constants = ClassConstants(pool);
    let field_ref = FieldRef { constants: &constants, field: &field };
    assert_eq!(field_ref.name(), "x");
    assert_eq!(field_ref.descriptor(), "I");
    assert_eq!(field_ref.access_flags().bits(), 0x19);
    assert_eq!(RawField::read_except_attributes(&mut ByteReader::new(vec![0, 1, 0, 5, 0, 6, 0])).unwrap_err(), ReadError::UnexpectedEof);
}

#[test]
fn modified_utf8_round_trip() {
    let bytes = [0x61, 0xC0, 0x80, 0xC3, 0xA9, 0xE2, 0x82, 0xAC, 0xED, 0xA0, 0xBD, 0xED, 0xB8, 0x80];
    assert_eq!(read_modified_utf8_as_utf8(&bytes).unwrap(), "a\0\u{e9}\u{20ac}\u{1F600}");
    let mut entry = vec![0x00, 0x02, 0x01, 0x00, bytes.len() as u8];
    entry.extend_from_slice(&bytes);
    let constants = Constants::read(&mut ByteReader::new(entry)).unwrap();
    assert_eq!(constants.get_utf8(1).unwrap(), "a\0\u{e9}\u{20ac}\u{1F600}");
}
