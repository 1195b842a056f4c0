use jni_bindgen::api_level_range::ApiLevelRange;
use jni_bindgen::class;
use jni_bindgen::descriptor::{BasicType, Descriptor};
use jni_bindgen::identifiers::RustIdentifier;
use jni_bindgen::jni_descriptor::{JniBasicType, JniDescriptor, JniDescriptorSegment, JniField};
use jni_bindgen::method;
use jni_bindgen::method_mangling::{long_sig, mangle_method_name, short_sig, MethodManglingStyle};

#[test]
fn rust_identifier_from_str() {
    assert_eq!(RustIdentifier::from_str("foo"), RustIdentifier::Identifier("foo"));
    assert_eq!(RustIdentifier::from_str("crate"), RustIdentifier::KeywordUnderscorePostfix("crate_"));
    assert_eq!(RustIdentifier::from_str("match"), RustIdentifier::KeywordRawSafe("r#match"));
    assert_eq!(RustIdentifier::from_str("föo"), RustIdentifier::NonIdentifier("föo"));
    assert_eq!(RustIdentifier::from_str(""), RustIdentifier::NonIdentifier(""));
    assert_eq!(RustIdentifier::from_str("_"), RustIdentifier::NonIdentifier("_"));
    assert_eq!(RustIdentifier::from_str("_f"), RustIdentifier::Identifier("_f"));
    assert_eq!(RustIdentifier::from_str("_1"), RustIdentifier::Identifier("_1"));
    assert_eq!(RustIdentifier::from_str("1_"), RustIdentifier::NonIdentifier("1_"));
}

#[test]
fn descriptor_from_str() {
    // Single values
    assert_eq!(Descriptor::from_str("F").unwrap(), Descriptor::Single(BasicType::Float));
    assert_eq!(Descriptor::from_str("Ljava/foo/Bar;").unwrap(), Descriptor::Single(BasicType::Class(class::Id("java/foo/Bar"))));

    // Arrays
    assert_eq!(Descriptor::from_str("[[F").unwrap(), Descriptor::Array { levels: 2, inner: BasicType::Float });
    assert_eq!(Descriptor::from_str("[[[Ljava/foo/Bar;").unwrap(), Descriptor::Array { levels: 3, inner: BasicType::Class(class::Id("java/foo/Bar")) });

    // Erroneous input
    assert!(Descriptor::from_str("").is_err()); // No type
    assert!(Descriptor::from_str("[[").is_err()); // No type for array
    assert!(Descriptor::from_str("Ljava/foo/Bar").is_err()); // Missing semicolon
    assert!(Descriptor::from_str("Ljava/foo/Bar;F").is_err()); // More after semicolon
    assert!(Descriptor::from_str("Ljava/foo/Bar;Ljava/foo/Bar;").is_err()); // More after semicolon

    // Multiple inputs
    let mut class_float = "Ljava/foo/Bar;F";
    assert_eq!(Descriptor::read_next(&mut class_float).unwrap(), Descriptor::Single(BasicType::Class(class::Id("java/foo/Bar"))));
    assert_eq!(Descriptor::read_next(&mut class_float).unwrap(), Descriptor::Single(BasicType::Float));
    assert_eq!(class_float, "");
    assert!(Descriptor::read_next(&mut class_float).is_err());

    let mut class_class = "Ljava/foo/Bar;Ljava/foo/Bar;";
    assert_eq!(Descriptor::read_next(&mut class_class).unwrap(), Descriptor::Single(BasicType::Class(class::Id("java/foo/Bar"))));
    assert_eq!(Descriptor::read_next(&mut class_class).unwrap(), Descriptor::Single(BasicType::Class(class::Id("java/foo/Bar"))));
    assert_eq!(class_class, "");
    assert!(Descriptor::read_next(&mut class_class).is_err());
}

#[test]
fn parse() {
    assert_eq!(ApiLevelRange(8..=27), "8-27".parse::<ApiLevelRange>().unwrap());
    assert_eq!(ApiLevelRange(8..=27), "8..=27".parse::<ApiLevelRange>().unwrap());

    assert_eq!(ApiLevelRange(8..=8), "8".parse::<ApiLevelRange>().unwrap());
    assert_eq!(ApiLevelRange(8..=8), "8-8".parse::<ApiLevelRange>().unwrap());
    assert_eq!(ApiLevelRange(8..=8), "8..=8".parse::<ApiLevelRange>().unwrap());
}

#[test]
fn jni_descriptor_from_str() {
    let mut d = JniDescriptor::new("(Landroid/net/Uri;[Ljava/lang/String;Ljava/lang/String;[Ljava/lang/String;Ljava/lang/String;)Landroid/database/Cursor;").unwrap();
    assert_eq!(d.next(), Some(JniDescriptorSegment::Parameter(JniField::Single(JniBasicType::Class(class::Id("android/net/Uri"))))));
    assert_eq!(d.next(), Some(JniDescriptorSegment::Parameter(JniField::Array { levels: 1, inner: JniBasicType::Class(class::Id("java/lang/String")) })));
    assert_eq!(d.next(), Some(JniDescriptorSegment::Parameter(JniField::Single(JniBasicType::Class(class::Id("java/lang/String"))))));
    assert_eq!(d.next(), Some(JniDescriptorSegment::Parameter(JniField::Array { levels: 1, inner: JniBasicType::Class(class::Id("java/lang/String")) })));
    assert_eq!(d.next(), Some(JniDescriptorSegment::Parameter(JniField::Single(JniBasicType::Class(class::Id("java/lang/String"))))));
    assert_eq!(d.next(), Some(JniDescriptorSegment::Return(JniField::Single(JniBasicType::Class(class::Id("android/database/Cursor"))))));
    assert_eq!(d.next(), None);
    assert_eq!(d.next(), None);

    let mut d = JniDescriptor::new("(Landroid/net/Uri;[Ljava/lang/String;Ljava/lang/String;[Ljava/lang/String;Ljava/lang/String;Landroid/os/CancellationSignal;)Landroid/database/Cursor;").unwrap();
    assert_eq!(d.next(), Some(JniDescriptorSegment::Parameter(JniField::Single(JniBasicType::Class(class::Id("android/net/Uri"))))));
    assert_eq!(d.next(), Some(JniDescriptorSegment::Parameter(JniField::Array { levels: 1, inner: JniBasicType::Class(class::Id("java/lang/String")) })));
    assert_eq!(d.next(), Some(JniDescriptorSegment::Parameter(JniField::Single(JniBasicType::Class(class::Id("java/lang/String"))))));
    assert_eq!(d.next(), Some(JniDescriptorSegment::Parameter(JniField::Array { levels: 1, inner: JniBasicType::Class(class::Id("java/lang/String")) })));
    assert_eq!(d.next(), Some(JniDescriptorSegment::Parameter(JniField::Single(JniBasicType::Class(class::Id("java/lang/String"))))));
    assert_eq!(d.next(), Some(JniDescriptorSegment::Parameter(JniField::Single(JniBasicType::Class(class::Id("android/os/CancellationSignal"))))));
    assert_eq!(d.next(), Some(JniDescriptorSegment::Return(JniField::Single(JniBasicType::Class(class::Id("android/database/Cursor"))))));
    assert_eq!(d.next(), None);
    assert_eq!(d.next(), None);

    let mut d = JniDescriptor::new("(Landroid/net/Uri;[Ljava/lang/String;Landroid/os/Bundle;Landroid/os/CancellationSignal;)Landroid/database/Cursor;").unwrap();
    assert_eq!(d.next(), Some(JniDescriptorSegment::Parameter(JniField::Single(JniBasicType::Class(class::Id("android/net/Uri"))))));
    assert_eq!(d.next(), Some(JniDescriptorSegment::Parameter(JniField::Array { levels: 1, inner: JniBasicType::Class(class::Id("java/lang/String")) })));
    assert_eq!(d.next(), Some(JniDescriptorSegment::Parameter(JniField::Single(JniBasicType::Class(class::Id("android/os/Bundle"))))));
    assert_eq!(d.next(), Some(JniDescriptorSegment::Parameter(JniField::Single(JniBasicType::Class(class::Id("android/os/CancellationSignal"))))));
    assert_eq!(d.next(), Some(JniDescriptorSegment::Return(JniField::Single(JniBasicType::Class(class::Id("android/database/Cursor"))))));
    assert_eq!(d.next(), None);
    assert_eq!(d.next(), None);

    let mut d = JniDescriptor::new("([Ljava/lang/String;)V").unwrap();
    assert_eq!(d.next(), Some(JniDescriptorSegment::Parameter(JniField::Array { levels: 1, inner: JniBasicType::Class(class::Id("java/lang/String")) })));
    assert_eq!(d.next(), Some(JniDescriptorSegment::Return(JniField::Single(JniBasicType::Void))));
    assert_eq!(d.next(), None);
    assert_eq!(d.next(), None);

    let mut d = JniDescriptor::new("()V").unwrap();
    assert_eq!(d.next(), Some(JniDescriptorSegment::Return(JniField::Single(JniBasicType::Void))));
    assert_eq!(d.next(), None);
    assert_eq!(d.next(), None);
}

#[test]
fn method_mangling_style_mangle_test() {
    for &(name, sig, java, java_short, java_long, rust, rust_short, rust_long) in &[
        ("getFoo", "()V", "getFoo", "getFoo", "getFoo", "get_foo", "get_foo", "get_foo"),
        ("getFoo", "(I)V", "getFoo", "getFoo_int", "getFoo_int", "get_foo", "get_foo_int", "get_foo_int"),
        ("getFoo", "(Ljava/lang/Object;)V", "getFoo", "getFoo_Object", "getFoo_java_lang_Object", "get_foo", "get_foo_object", "get_foo_java_lang_object"),
        ("<init>", "()V", "new", "new", "new", "new", "new", "new"),
        ("<init>", "(I)V", "new", "new_int", "new_int", "new", "new_int", "new_int"),
        ("<init>", "(Ljava/lang/Object;)V", "new", "new_Object", "new_java_lang_Object", "new", "new_object", "new_java_lang_object"),
    ] {
        let sig = method::Descriptor::new(sig).unwrap();

        assert_eq!(MethodManglingStyle::Java.mangle(name, sig).unwrap(), java);
        assert_eq!(MethodManglingStyle::JavaShortSignature.mangle(name, sig).unwrap(), java_short);
        assert_eq!(MethodManglingStyle::JavaLongSignature.mangle(name, sig).unwrap(), java_long);

        assert_eq!(MethodManglingStyle::Rustify.mangle(name, sig).unwrap(), rust);
        assert_eq!(MethodManglingStyle::RustifyShortSignature.mangle(name, sig).unwrap(), rust_short);
        assert_eq!(MethodManglingStyle::RustifyLongSignature.mangle(name, sig).unwrap(), rust_long);
    }
}

#[test]
fn method_mangling_style_mangle_method_name_test() {
    assert_eq!(MethodManglingStyle::Rustify.mangle("isFooBar", method::Descriptor::new("()V").unwrap()).unwrap(), "is_foo_bar");
    assert_eq!(MethodManglingStyle::Rustify.mangle("XMLHttpRequest", method::Descriptor::new("()V").unwrap()).unwrap(), "xml_http_request");
    assert_eq!(MethodManglingStyle::Rustify.mangle("getFieldID_Input", method::Descriptor::new("()V").unwrap()).unwrap(), "get_field_id_input");
}

#[test]
fn structs_mangle_method_name_test() {
    assert_eq!(mangle_method_name(&String::from("isFooBar")).unwrap(), "is_foo_bar");
    assert_eq!(mangle_method_name(&String::from("XMLHttpRequest")).unwrap(), "xml_http_request");
    assert_eq!(mangle_method_name(&String::from("getFieldID_Input")).unwrap(), "get_field_id_input");
}

#[test]
fn signature_suffixes() {
    let d = method::Descriptor::new("(IZLjava/lang/Object;[[Ljava/util/Map$Entry;[J)V").unwrap();
    assert_eq!(short_sig(d), "_int_boolean_Object_Entry_array_array_long_array");
    assert_eq!(long_sig(d), "_int_boolean_java_lang_Object_java_util_Map_Entry_array_array_long_array");
    assert_eq!(short_sig(method::Descriptor::new("()V").unwrap()), "");
    assert_eq!(long_sig(method::Descriptor::new("()I").unwrap()), "");
}

#[test]
fn rustified_names_are_fixed_points() {
    for name in ["getFooBar", "XMLHttpRequest", "_", "self", "getFieldID_Input", "a1B2"] {
        let once = MethodManglingStyle::Rustify.mangle(name, method::Descriptor::new("()V").unwrap()).unwrap();
        let twice = MethodManglingStyle::Rustify.mangle(&once, method::Descriptor::new("()V").unwrap()).unwrap();
        assert_eq!(once, twice);
    }
    assert_eq!(MethodManglingStyle::Rustify.mangle("self", method::Descriptor::new("()V").unwrap()).unwrap(), "self_");
}
