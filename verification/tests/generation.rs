use jni_bindgen::access_flags::{ClassAccessFlags, FieldAccessFlags, MethodAccessFlags};
use jni_bindgen::descriptor::Descriptor;
use jni_bindgen::emit_rust::fields::{Field as FieldWrapper, FieldMangling, IdentifierManglingError};
use jni_bindgen::class::{Id, IdBuf};
use jni_bindgen::ast::{Ast, Member, Struct as AstStruct};
use jni_bindgen::config::runtime::{expand_vars, vars_in, Config, StringMap, StringSet};
use jni_bindgen::config::toml::{CodeGen, Documentation, DocumentationPattern, File, FileWithContext, Ignore, Input, Logging, Output, Rename};
use jni_bindgen::emit_rust::class_macro::Struct as MacroStruct;
use jni_bindgen::emit_rust::context::{Context, EmitError};
use jni_bindgen::emit_rust::known_docs_url::KnownDocsUrl;
use jni_bindgen::emit_rust::methods::Method as MethodWrapper;
use jni_bindgen::emit_rust::structs::{rust_id, feature_id, Struct, StructPaths};
use jni_bindgen::inputs::{class_path_of_entry, input_kind, InputKind};
use jni_bindgen::jar::{Class, Field, FieldConstant, Method};
use jni_bindgen::mappers::class_to_struct::{j2r, jc2r, jc2r_basic, ClassToStruct, Resolve};
use jni_bindgen::sdk::Sdk;
use jni_bindgen::util::dedupe_file_set::{CommitPlan, DedupeFileSet};
use jni_bindgen::util::difference::Difference;
use jni_bindgen::util::io_context::IoContext;
use jni_bindgen::util::progress::Progress;

fn pattern(prefix: &str, class_url: &str, method_url: Option<&str>, field_url: Option<&str>, ns: &str) -> DocumentationPattern {
    DocumentationPattern {
        class_url_pattern: class_url.to_owned(),
        method_url_pattern: method_url.map(|s| s.to_owned()),
        constructor_url_pattern: None,
        field_url_pattern: field_url.map(|s| s.to_owned()),
        jni_prefix: prefix.to_owned(),
        class_namespace_separator: ns.to_owned(),
        class_inner_class_seperator: ".".to_owned(),
        argument_namespace_separator: ".".to_owned(),
        argument_inner_class_seperator: ".".to_owned(),
        argument_seperator: ",".to_owned(),
    }
}

fn sample_config() -> Config {
    let file = File {
        codegen: CodeGen::default(),
        documentation: Documentation {
            patterns: vec![
                pattern("java/", "https://docs.oracle.com/javase/7/docs/api/index.html?java/{CLASS}.html",
                    Some("m/{CLASS}.html#{METHOD}({ARGUMENTS})"), Some("f/{CLASS}#{FIELD}"), "/"),
                pattern("", "https://developer.android.com/reference/kotlin/{CLASS}.html", None, None, "/"),
            ],
        },
        input: Input { files: vec!["%LOCALAPPDATA%/Android/Sdk/platforms/android-28/android.jar".to_owned()] },
        logging: Logging { verbose: true },
        output: Output { path: "android28.rs".to_owned() },
        ignores: vec![
            Ignore { class: "some/java/Class".to_owned(), field: None, method: None, signature: None },
            Ignore { class: "some/java/Class".to_owned(), field: None, method: Some("someMethod".to_owned()), signature: None },
            Ignore { class: "some/java/Class".to_owned(), field: None, method: Some("someOtherMethod".to_owned()), signature: Some("()V".to_owned()) },
            Ignore { class: "some/java/Class".to_owned(), field: Some("someField".to_owned()), method: None, signature: None },
        ],
        renames: vec![
            Rename { to: "class".to_owned(), class: "some/java/Class".to_owned(), field: None, method: None, signature: None },
            Rename { to: "some_method".to_owned(), class: "some/java/Class".to_owned(), field: None, method: Some("someMethod".to_owned()), signature: None },
            Rename { to: "later".to_owned(), class: "some/java/Class".to_owned(), field: None, method: Some("someMethod".to_owned()), signature: None },
        ],
    };
    Config::from_file(
        FileWithContext { file, directory: "/project".to_owned() },
        vec!["/sdk/android.jar".to_owned()],
        "/project/android28.rs".to_owned(),
        "/project".to_owned(),
        Some("android28".to_owned()),
    )
}

fn empty_class(path: &str) -> Class {
    Class {
        flags: ClassAccessFlags::from_bits_truncate(1),
        path: path.to_owned(),
        super_path: None,
        interfaces: vec![],
        fields: vec![],
        methods: vec![],
        deprecated: false,
    }
}

#[test]
fn config_classifies_rules() {
    let config = sample_config();
    assert!(config.logging_verbose);
    assert_eq!(config.doc_patterns.len(), 2);
    assert_eq!(config.doc_patterns[0].jni_prefix, "java/");
    assert!(config.ignore_classes.contains("some/java/Class"));
    assert!(config.ignore_class_methods.contains("some/java/Class\u{1f}someMethod"));
    assert!(config.ignore_class_method_sigs.contains("some/java/Class\u{1f}someOtherMethod\u{1f}()V"));
    assert!(config.ignore_class_fields.contains("some/java/Class\u{1f}someField"));
    assert!(!config.ignore_classes.contains("some/java/Other"));
    assert_eq!(config.rename_classes.get("some/java/Class"), Some("class"));
    assert_eq!(config.rename_class_methods.get("some/java/Class\u{1f}someMethod"), Some("later"));
    assert_eq!(config.rename_class_method_sigs.get("some/java/Class\u{1f}someMethod"), None);
}

#[test]
fn string_set_and_map() {
    let mut set = StringSet::new();
    assert!(!set.contains("a"));
    set.insert("a".to_owned());
    assert!(set.contains("a"));
    let mut map = StringMap::new();
    map.insert("k".to_owned(), "1".to_owned());
    map.insert("k".to_owned(), "2".to_owned());
    assert_eq!(map.get("k"), Some("2"));
    assert_eq!(map.get("j"), None);
}

#[test]
fn path_variables() {
    let path = "%LOCALAPPDATA%/Android/%UNSET%/android.jar";
    let names = vars_in(path);
    assert_eq!(names, vec!["LOCALAPPDATA".to_owned(), "UNSET".to_owned()]);
    let expanded = expand_vars(path, &[Some("C:/Users/me".to_owned()), None]);
    assert_eq!(expanded, "C:/Users/me/Android/%UNSET%/android.jar");
    assert_eq!(expand_vars("plain/path.rs", &[]), "plain/path.rs");
    assert_eq!(vars_in("plain"), Vec::<String>::new());
}

#[test]
fn java_names_to_rust_names() {
    assert_eq!(jc2r("foo"), "foo");
    assert_eq!(jc2r(""), "_empty");
    assert_eq!(jc2r("_"), "__");
    assert_eq!(jc2r("match"), "r#match");
    assert_eq!(jc2r("self"), "self__");
    assert_eq!(jc2r("1abc"), "_1abc");
    assert_eq!(jc2r("a$b"), "a_u0024b");
    assert_eq!(jc2r("a b"), "a_u0020b");
    assert_eq!(jc2r("\u{f6}"), "u00f6");
    assert_eq!(jc2r("x\u{1F600}"), "x_u1f600");
    assert_eq!(jc2r_basic("föo"), Err("föo"));
    assert_eq!(j2r("krate", Id("java/lang/Object")), "krate::java::lang::Object");
    assert_eq!(j2r("krate", Id("a/B$C")), "krate::a::B_C");
}

#[test]
fn class_to_struct_remaps() {
    let mut map = ClassToStruct::new();
    assert_eq!(map.get(&Id("java/lang/String")), None);
    map.add_class("k1", IdBuf("java/lang/String".to_owned()), Resolve::New);
    assert_eq!(map.get(&Id("java/lang/String")), Some("k1::java::lang::String"));
    map.add_class("k2", IdBuf("java/lang/String".to_owned()), Resolve::Old);
    assert_eq!(map.get(&Id("java/lang/String")), Some("k1::java::lang::String"));
    map.add_class("k2", IdBuf("java/lang/String".to_owned()), Resolve::New);
    assert_eq!(map.get(&Id("java/lang/String")), Some("k2::java::lang::String"));

    let mut keep = (Resolve::Old, ());
    map.add_crate_classes(&mut keep, "k3", vec![IdBuf("java/lang/String".to_owned()), IdBuf("a/B$C".to_owned())]);
    assert_eq!(map.get(&Id("java/lang/String")), Some("k2::java::lang::String"));
    assert_eq!(map.get(&Id("a/B$C")), Some("k3::a::B_C"));
    let mut replace = (Resolve::New, ());
    map.add_crate_classes(&mut replace, "k4", vec![IdBuf("a/B$C".to_owned())]);
    assert_eq!(map.get(&Id("a/B$C")), Some("k4::a::B_C"));
}

#[test]
fn differences() {
    assert!(Difference::find("a\nb\n", "a\nb\n").is_none());
    let d = Difference::find("a\nb\n", "a\nc\n").unwrap();
    assert_eq!(d.line_no, 2);
    assert_eq!(d.original, "ab");
    assert_eq!(d.rewrite, "ac");
    assert!(Difference::find("a\r\n", "a\n").is_none());
    assert!(Difference::find("a\n", "a\n\n").is_none());
    let d = Difference::find("a", "b").unwrap();
    assert_eq!((d.line_no, d.original.as_str(), d.rewrite.as_str()), (1, "a", "b"));
    assert!(Difference::find("", "").is_none());
}

#[test]
fn dedupe_plans() {
    let mut set = DedupeFileSet::new();
    assert_eq!(set.plan(b"abc", None), CommitPlan::Write);
    assert_eq!(set.plan(b"abc", Some(3)), CommitPlan::Keep);
    assert_eq!(set.plan(b"abc", Some(4)), CommitPlan::Write);
    set.record(b"abc".to_vec(), "a.rs".to_owned());
    assert_eq!(set.plan(b"abc", None), CommitPlan::Existing("a.rs".to_owned()));
    assert_eq!(set.existing(b"abc"), Some("a.rs"));

    let mut writes = 0;
    let r: Result<String, ()> = set.commit(b"xyz".to_vec(), "b.rs".to_owned(), None, |_, _| { writes += 1; Ok(()) });
    assert_eq!(r.unwrap(), "b.rs");
    let r: Result<String, ()> = set.commit(b"xyz".to_vec(), "c.rs".to_owned(), None, |_, _| { writes += 1; Ok(()) });
    assert_eq!(r.unwrap(), "b.rs");
    assert_eq!(writes, 1);
    let r: Result<String, &str> = set.commit(b"fail".to_vec(), "d.rs".to_owned(), None, |_, _| Err("disk full"));
    assert_eq!(r.unwrap_err(), "disk full");
    assert_eq!(set.existing(b"fail"), None);
}

#[test]
fn progress_is_debounced() {
    let mut p = Progress::with_duration(1000, 0);
    assert!(p.can_update(0));
    assert!(p.update(0));
    assert!(!p.update(500));
    assert!(!p.can_update(999));
    assert!(p.update(1000));
    p.force_update(1001);
    assert!(!p.can_update(1500));

    let mut io = IoContext::new(5);
    assert!(io.update(5));
    assert!(!io.update(6));
    assert!(io.update(1005));
}

#[test]
fn struct_paths() {
    let config = sample_config();
    let context = Context::new(&config);
    assert_eq!(Struct::mod_for(&context, Id("java/lang/Object")).unwrap(), "crate::java::lang");
    assert_eq!(Struct::name_for(&context, Id("java/lang/Object")).unwrap(), "Object");
    assert_eq!(Struct::feature_for(&context, Id("java/lang/Object")).unwrap(), "java-lang-Object");
    assert_eq!(Struct::sharded_path_for(&context, Id("java/lang/Object")).unwrap(), "android28/java/lang/Object.rs");
    assert_eq!(Struct::feature_for(&context, Id("a/B$C")).unwrap(), "a-B_C");
    assert_eq!(Struct::name_for(&context, Id("a/B$C")).unwrap(), "B_C");
    assert_eq!(Struct::sharded_path_for(&context, Id("a/B$C")).unwrap(), "android28/a/B_C.rs");
    assert_eq!(Struct::mod_for(&context, Id("java/self/Foo")).unwrap(), "crate::java::self_");
    assert_eq!(Struct::feature_for(&context, Id("java/self/Foo")).unwrap(), "java-self-Foo");
    assert_eq!(Struct::mod_for(&context, Id("java/1x/Foo")).unwrap_err(), EmitError::NoRustEquivalent("1x".to_owned()));
    assert_eq!(rust_id("match").unwrap(), "r#match");
    assert_eq!(feature_id("match").unwrap(), "match");
    assert!(rust_id("").is_err());

    let paths = StructPaths::new(&context, Id("java/lang/Object")).unwrap();
    assert_eq!(paths.mod_prefix, "crate::java::lang::");
    assert_eq!(paths.local_scope().unwrap(), vec!["java".to_owned(), "lang".to_owned()]);
    let other = StructPaths { mod_prefix: "other::x::".to_owned(), struct_name: String::new(), feature_name: String::new(), sharded_path: String::new() };
    assert!(other.local_scope().is_none());
}

#[test]
fn context_adds_structs_once() {
    let config = sample_config();
    let mut context = Context::new(&config);
    assert_eq!(context.java_to_rust_path(Id("java/lang/Object")).unwrap(), "crate::java::lang::Object");
    assert!(context.add_struct(empty_class("java/lang/Object")).is_ok());
    assert_eq!(context.add_struct(empty_class("java/lang/Object")).unwrap_err(), EmitError::AlreadyAdded("Object".to_owned()));
    assert!(context.add_struct(empty_class("java/util/Object")).is_ok());
    assert_eq!(context.add_struct(empty_class("java/-/Object")).unwrap_err(), EmitError::NoRustEquivalent("-".to_owned()));
}

#[test]
fn documentation_links() {
    let config = sample_config();
    let context = Context::new(&config);
    let url = KnownDocsUrl::from_class(&context, Id("java/util/Map$Entry")).unwrap();
    assert_eq!(url.label, "Map.Entry");
    assert_eq!(url.url, "https://docs.oracle.com/javase/7/docs/api/index.html?java/util/Map.Entry.html");
    let url = KnownDocsUrl::from_class(&context, Id("android/view/View")).unwrap();
    assert_eq!(url.to_string(), "[View](https://developer.android.com/reference/kotlin/android/view/View.html)");
    assert!(KnownDocsUrl::from_class(&context, Id("java/a-b")).is_none());

    let field = KnownDocsUrl::from_field(&context, "java/util/Map$Entry", "x",
        jni_bindgen::descriptor::Descriptor::Single(jni_bindgen::descriptor::BasicType::Int)).unwrap();
    assert_eq!(field.label, "x");
    assert_eq!(field.url, "f/util/Map.Entry#x");
    // `{CLASS}` is what follows the pattern's JNI prefix.
    let android = Config::from_file(
        FileWithContext { file: File {
            codegen: CodeGen::default(),
            documentation: Documentation { patterns: vec![pattern("java/", "https://developer.android.com/reference/java/{CLASS}.html", None, None, "/")] },
            input: Input { files: vec![] },
            logging: Logging { verbose: false },
            output: Output { path: "a.rs".to_owned() },
            ignores: vec![],
            renames: vec![],
        }, directory: "/d".to_owned() },
        vec![], "/d/a.rs".to_owned(), "/d".to_owned(), Some("a".to_owned()));
    let android_context = Context::new(&android);
    let object = KnownDocsUrl::from_class(&android_context, Id("java/lang/Object")).unwrap();
    assert_eq!(object.label, "Object");
    assert_eq!(object.url, "https://developer.android.com/reference/java/lang/Object.html");
    assert!(KnownDocsUrl::from_field(&context, "android/view/View", "x",
        jni_bindgen::descriptor::Descriptor::Single(jni_bindgen::descriptor::BasicType::Int)).is_none());

    let put = Method::new(MethodAccessFlags::from_bits_truncate(1), "put".to_owned(), "(Ljava/lang/Object;[I[[Ljava/lang/String;)V".to_owned()).unwrap();
    let url = KnownDocsUrl::from_method(&context, "java/util/Map$Entry", &put).unwrap();
    assert_eq!(url.label, "put");
    assert_eq!(url.url, "m/util/Map.Entry.html#put(java.lang.Object,int%5B%5D,java.lang.String%5B%5D%5B%5D)");
    let ctor = Method::new(MethodAccessFlags::from_bits_truncate(1), "<init>".to_owned(), "([Z)V".to_owned()).unwrap();
    let url = KnownDocsUrl::from_method(&context, "java/util/Map$Entry", &ctor).unwrap();
    assert_eq!(url.label, "Entry");
    assert_eq!(url.url, "m/util/Map.Entry.html#Entry(bool%5B%5D)");
    let varargs = Method::new(MethodAccessFlags::from_bits_truncate(0x81), "format".to_owned(), "(Ljava/lang/String;[Ljava/lang/Object;)V".to_owned()).unwrap();
    let url = KnownDocsUrl::from_method(&context, "java/lang/String", &varargs).unwrap();
    assert_eq!(url.url, "m/lang/String.html#format(java.lang.String,java.lang.Object...)");
    assert!(KnownDocsUrl::from_method(&context, "android/view/View", &put).is_none());
    assert!(Method::new(MethodAccessFlags::from_bits_truncate(1), "f".to_owned(), "V".to_owned()).is_err());
}

#[test]
fn input_kinds() {
    assert_eq!(input_kind("CLASS"), Some(InputKind::Class));
    assert_eq!(input_kind("Jar"), Some(InputKind::Jar));
    assert_eq!(input_kind("txt"), None);
    assert_eq!(class_path_of_entry("android/view/View.class"), Some("android/view/View".to_owned()));
    assert_eq!(class_path_of_entry("META-INF/MANIFEST.MF"), None);
    assert_eq!(class_path_of_entry(".class"), Some(String::new()));
}

#[test]
fn method_wrapper_text() {
    let config = sample_config();
    let context = Context::new(&config);
    let class = empty_class("java/util/Map$Entry");

    let get_key = Method::new(MethodAccessFlags::from_bits_truncate(1), "getKey".to_owned(), "()Ljava/lang/Object;".to_owned()).unwrap();
    let wrapper = MethodWrapper::new(&context, &class, &get_key);
    assert_eq!(wrapper.rust_name(), Some("get_key"));
    let ind = "            ";
    let expected = [
        String::new(),
        format!("{}/// [getKey](m/util/Map.Entry.html#getKey())", ind),
        format!("{}pub fn get_key<'env>(&'env self) -> __jni_bindgen::Result<__jni_bindgen::std::option::Option<__jni_bindgen::Local<'env, crate::java::lang::Object>>> {{", ind),
        format!("{}    // class.path == \"java/util/Map$Entry\", java.flags == PUBLIC, .name == \"getKey\", .descriptor == Descriptor {{ string: \"()Ljava/lang/Object;\" }}", ind),
        format!("{}    unsafe {{", ind),
        format!("{}        let __jni_args = [];", ind),
        format!("{}        let __jni_env = __jni_bindgen::Env::from_ptr(self.0.env);", ind),
        format!("{}        let (__jni_class, __jni_method) = __jni_env.require_class_method(\"java/util/Map$Entry\\0\", \"getKey\\0\", \"()Ljava/lang/Object;\\0\");", ind),
        format!("{}        __jni_env.call_object_method_a(self.0.object, __jni_method, __jni_args.as_ptr())", ind),
        format!("{}    }}", ind),
        format!("{}}}", ind),
    ];
    let mut want = expected.join("\n");
    want.push('\n');
    assert_eq!(wrapper.emit(&context, "    "), want);

    let count = Method::new(MethodAccessFlags::from_bits_truncate(0x000A), "count".to_owned(), "(I[J)I".to_owned()).unwrap();
    let wrapper = MethodWrapper::new(&context, &class, &count);
    let ind = "        // ";
    let expected = [
        String::new(),
        format!("{}// Not emitting: Non-public method", ind),
        format!("{}/// [count](m/util/Map.Entry.html#count(int,long%5B%5D))", ind),
        format!("{}fn count<'env>(__jni_env: &'env __jni_bindgen::Env, arg0: i32, arg1: impl __jni_bindgen::std::convert::Into<__jni_bindgen::std::option::Option<&'env __jni_bindgen::LongArray   >>) -> __jni_bindgen::Result<i32> {{", ind),
        format!("{}    // class.path == \"java/util/Map$Entry\", java.flags == PRIVATE | STATIC, .name == \"count\", .descriptor == Descriptor {{ string: \"(I[J)I\" }}", ind),
        format!("{}    unsafe {{", ind),
        format!("{}        let __jni_args = [__jni_bindgen::AsJValue::as_jvalue(&arg0), __jni_bindgen::AsJValue::as_jvalue(&arg1.into())];", ind),
        format!("{}        let (__jni_class, __jni_method) = __jni_env.require_class_static_method(\"java/util/Map$Entry\\0\", \"count\\0\", \"(I[J)I\\0\");", ind),
        format!("{}        __jni_env.call_static_int_method_a(__jni_class, __jni_method, __jni_args.as_ptr())", ind),
        format!("{}    }}", ind),
        format!("{}}}", ind),
    ];
    let mut want = expected.join("\n");
    want.push('\n');
    assert_eq!(wrapper.emit(&context, ""), want);
}

fn macro_struct(methods: Vec<Method>) -> MacroStruct {
    MacroStruct {
        rust_mod_prefix: "crate::com::example::".to_owned(),
        rust_struct_name: "Foo".to_owned(),
        java_class: Class {
            flags: ClassAccessFlags::from_bits_truncate(0x0011),
            path: "com/example/Foo".to_owned(),
            super_path: Some("java/lang/Object".to_owned()),
            interfaces: vec!["java/lang/Runnable".to_owned()],
            fields: vec![],
            methods,
            deprecated: false,
        },
    }
}

#[test]
fn class_macro_text() {
    let config = sample_config();
    let context = Context::new(&config);
    let run = Method::new(MethodAccessFlags::from_bits_truncate(1), "run".to_owned(), "()V".to_owned()).unwrap();
    let ctor = Method::new(MethodAccessFlags::from_bits_truncate(1), "<init>".to_owned(), "(I)V".to_owned()).unwrap();
    let s = macro_struct(vec![run, ctor]);
    let docs = KnownDocsUrl { label: "Foo".to_owned(), url: "https://example.com/Foo".to_owned() };
    let c = ".as_ptr() as *const __bindgen_jni::std::os::raw::c_char";
    let lines: Vec<String> = vec![
        String::new(),
        "__bindgen_jni! {".to_owned(),
        "    /// public final class [Foo](https://example.com/Foo)".to_owned(),
        "    public final class Foo extends crate::java::lang::Object, implements crate::java::lang::Runnable {".to_owned(),
        String::new(),
        "        pub fn run<'env>(&'env self) -> __bindgen_jni::Result<()> {".to_owned(),
        "            // method.access_flags() == PUBLIC".to_owned(),
        "            // method.descriptor() == \"()V\"".to_owned(),
        "            let __jni_args = [];".to_owned(),
        "            let __jni_this   = self.0.object;".to_owned(),
        "            let __jni_env    = self.0.env as *mut __bindgen_jni::jni_sys::JNIEnv;".to_owned(),
        format!("            let __jni_class  = unsafe {{ (**__jni_env).FindClass.unwrap()(__jni_env, \"com/example/Foo\\0\"{}) }};", c),
        "            assert_ne!(__jni_class, __bindgen_jni::std::ptr::null_mut());".to_owned(),
        format!("            let __jni_method = unsafe {{ (**__jni_env).GetMethodID.unwrap()(__jni_env, __jni_class, \"run\\0\"{}, \"()V\\0\"{}) }};", c, c),
        "            assert_ne!(__jni_method, __bindgen_jni::std::ptr::null_mut());".to_owned(),
        "            let result = unsafe { (**__jni_env).CallVoidMethodA.unwrap()(__jni_env, __jni_this, __jni_method, __jni_args.as_ptr()) };".to_owned(),
        "            let __jni_exception = unsafe { (**__jni_env).ExceptionOccurred.unwrap()(__jni_env) };".to_owned(),
        "            if !__jni_exception.is_null() {".to_owned(),
        "                unsafe { (**__jni_env).ExceptionClear.unwrap()(__jni_env) };".to_owned(),
        "                Err(__jni_exception)".to_owned(),
        "            } else {".to_owned(),
        "                Ok(result)".to_owned(),
        "            }".to_owned(),
        "        }".to_owned(),
        String::new(),
        "        // // Not emitting: I haven't decided how to pass JNIEnv for constructors yet.".to_owned(),
        "        // pub fn new<'env>(arg0: i32) -> __bindgen_jni::Result<()> {".to_owned(),
        "        //     // method.access_flags() == PUBLIC".to_owned(),
        "        //     // method.descriptor() == \"(I)V\"".to_owned(),
        "        //     let __jni_args = [__bindgen_jni::AsJValue::as_jvalue(&arg0)];".to_owned(),
        "        //     let __jni_env = ...?".to_owned(),
        format!("        //     let __jni_class  = unsafe {{ (**__jni_env).FindClass.unwrap()(__jni_env, \"com/example/Foo\\0\"{}) }};", c),
        "        //     assert_ne!(__jni_class, __bindgen_jni::std::ptr::null_mut());".to_owned(),
        format!("        //     let __jni_method = unsafe {{ (**__jni_env).GetMethodID.unwrap()(__jni_env, __jni_class, \"<init>\\0\"{}, \"(I)V\\0\"{}) }};", c, c),
        "        //     assert_ne!(__jni_method, __bindgen_jni::std::ptr::null_mut());".to_owned(),
        "        //     let result = unsafe { (**__jni_env).NewObjectA.unwrap()(__jni_env, __jni_class, __jni_method, __jni_args.as_ptr()) };".to_owned(),
        "        //     let __jni_exception = unsafe { (**__jni_env).ExceptionOccurred.unwrap()(__jni_env) };".to_owned(),
        "        //     if !__jni_exception.is_null() {".to_owned(),
        "        //         unsafe { (**__jni_env).ExceptionClear.unwrap()(__jni_env) };".to_owned(),
        "        //         Err(__jni_exception)".to_owned(),
        "        //     } else {".to_owned(),
        "        //         Ok(result)".to_owned(),
        "        //     }".to_owned(),
        "        // }".to_owned(),
        "    }".to_owned(),
        "}".to_owned(),
    ];
    let mut want = lines.join("\n");
    want.push('\n');
    assert_eq!(s.write(&context, "", Some(&docs)), want);
}

#[test]
fn class_macro_overloads_and_results() {
    let config = sample_config();
    let context = Context::new(&config);
    let get_a = Method::new(MethodAccessFlags::from_bits_truncate(1), "get".to_owned(), "()I".to_owned()).unwrap();
    let get_b = Method::new(MethodAccessFlags::from_bits_truncate(1), "get".to_owned(), "(J)I".to_owned()).unwrap();
    let hidden = Method::new(MethodAccessFlags::from_bits_truncate(2), "size".to_owned(), "()I".to_owned()).unwrap();
    let size = Method::new(MethodAccessFlags::from_bits_truncate(1), "size".to_owned(), "()I".to_owned()).unwrap();
    let ok = Method::new(MethodAccessFlags::from_bits_truncate(9), "isOk".to_owned(), "(Ljava/lang/String;)Z".to_owned()).unwrap();
    let name = Method::new(MethodAccessFlags::from_bits_truncate(1), "name".to_owned(), "([I)Ljava/lang/String;".to_owned()).unwrap();
    let s = macro_struct(vec![get_a, get_b, hidden, size, ok, name]);
    let text = s.write(&context, "  ", None);
    assert!(text.starts_with("\n  __bindgen_jni! {\n      public final class Foo extends"));
    // Both `get`s are overloads; the private `size` does not make the public one an overload.
    assert_eq!(text.matches("// Not emitting: Overloaded - I haven't decided how I want to deconflict overloads.").count(), 2);
    assert_eq!(text.matches("// Not emitting: Non-public method").count(), 1);
    assert!(text.contains("\n          pub fn size<'env>(&'env self) -> __bindgen_jni::Result<i32> {\n"));
    assert!(text.contains("// pub fn is_ok<'env>(arg0: &impl __bindgen_jni::std::convert::AsRef<crate::java::lang::String>) -> __bindgen_jni::Result<bool> {"));
    assert!(text.contains("let __jni_args = [__bindgen_jni::AsJValue::as_jvalue(arg0.as_ref())];"));
    assert!(text.contains("(**__jni_env).CallStaticBooleanMethodA.unwrap()(__jni_env, __jni_class, __jni_method, __jni_args.as_ptr())"));
    assert!(text.contains("Ok(result == __bindgen_jni::jni_sys::JNI_TRUE)"));
    assert!(text.contains("// method.access_flags() == PUBLIC | STATIC"));
    assert!(text.contains("// Not emitting: Passing in arrays not yet supported"));
    assert!(text.contains("(&'env self, arg0: Array { levels: 1, inner: Int }) -> __bindgen_jni::Result<__bindgen_jni::std::option::Option<__bindgen_jni::Local<'env, crate::java::lang::String>>> {"));
    assert!(text.contains("} else if result.is_null() {"));
    assert!(text.ends_with("\n      }\n  }\n"));
}

#[test]
fn ast_starts_empty() {
    let member = Member::default();
    assert!(member.fields.is_empty() && member.methods.is_empty());
    let mut s = AstStruct::default();
    assert!(s.sdks.is_empty() && s.members.is_empty());
    s.sdks.insert("android-28".to_owned(), "android/view/View".to_owned());
    s.members.insert("getId".to_owned(), Member::default());
    let mut ast = Ast { structures: Default::default() };
    ast.structures.insert("View".to_owned(), s);
    assert_eq!(ast.structures["View"].sdks["android-28"], "android/view/View");
}

#[test]
fn rejected_wrappers_are_comments() {
    let config = sample_config();
    let context = Context::new(&config);
    let class = empty_class("android/view/View");
    let hidden = Method::new(MethodAccessFlags::from_bits_truncate(0x0002), "secret".to_owned(), "(Ljava/lang/Object;)I".to_owned()).unwrap();
    let text = MethodWrapper::new(&context, &class, &hidden).emit(&context, "  ");
    assert!(text.starts_with('\n'));
    assert!(text[1..].lines().all(|l| l.starts_with("          // ")));
    let shown = Method::new(MethodAccessFlags::from_bits_truncate(0x0001), "open".to_owned(), "()V".to_owned()).unwrap();
    let text = MethodWrapper::new(&context, &class, &shown).emit(&context, "  ");
    assert!(text[1..].lines().all(|l| l.starts_with("          ") && !l.starts_with("          //")));

    let s = macro_struct(vec![hidden.clone(), shown.clone()]);
    let text = s.write(&context, "", None);
    let blocks: Vec<&str> = text.split("\n\n").collect();
    assert_eq!(blocks.len(), 3);
    assert!(blocks[1].lines().all(|l| l.starts_with("        // ")));
    assert!(blocks[2].lines().take_while(|l| l.starts_with("        ")).all(|l| !l.starts_with("        //")));
}

#[test]
fn sdk_keeps_last_class_per_path() {
    let mut first = empty_class("android/view/View");
    first.deprecated = true;
    let second = empty_class("android/view/View");
    let other = empty_class("android/app/Activity");
    let sdk = Sdk::gather_classes("android-28".to_owned(), "Android 28".to_owned(), vec![first, other, second]);
    assert_eq!(sdk.id(), "android-28");
    assert_eq!(sdk.label(), "Android 28");
    assert_eq!(sdk.len(), 2);
    assert!(!sdk.class("android/view/View").unwrap().deprecated);
    assert_eq!(sdk.class("android/app/Activity").unwrap().path, "android/app/Activity");
    assert!(sdk.class("java/lang/Object").is_none());
    assert_eq!(Sdk::gather_classes(String::new(), String::new(), vec![]).len(), 0);
}

#[test]
fn field_accessor_text() {
    let config = sample_config();
    let context = Context::new(&config);

    let integer = empty_class("java/lang/Integer");
    let mut max = Field::new(FieldAccessFlags::from_bits_truncate(0x0019), "MAX_VALUE".to_owned(), "I".to_owned()).unwrap();
    max.constant = Some(FieldConstant::Integer(2147483647));
    let value = FieldConstant::Integer(2147483647);
    let wrapper = FieldWrapper { class: &integer, java: &max, rust_names: Ok(FieldMangling::ConstValue("MAX_VALUE".to_owned(), &value)) };
    let link = KnownDocsUrl::from_field(&context, "java/lang/Integer", "MAX_VALUE", Descriptor::from_str("I").unwrap()).unwrap().to_string();
    assert_eq!(link, "[MAX_VALUE](f/lang/Integer#MAX_VALUE)");
    let ind = "            ";
    let mut want = [
        String::new(),
        format!("{}/// public static final {}", ind, link),
        format!("{}pub const MAX_VALUE : i32 = 2147483647;", ind),
    ].join("\n");
    want.push('\n');
    assert_eq!(wrapper.emit(&context, "    ", "2147483647"), want);

    let entry = empty_class("java/util/Map$Entry");
    let field = Field::new(FieldAccessFlags::from_bits_truncate(0x0001), "value".to_owned(), "Ljava/lang/Object;".to_owned()).unwrap();
    let wrapper = FieldWrapper { class: &entry, java: &field, rust_names: Ok(FieldMangling::GetSet("value".to_owned(), "set_value".to_owned())) };
    let link = "[value](f/util/Map.Entry#value)";
    let ind = "        ";
    let feature = [
        format!("{}///", ind),
        format!("{}/// Required feature: java-lang-Object", ind),
        format!("{}#[cfg(any(feature = \"all\", feature = \"java-lang-Object\"))]", ind),
    ];
    let mut lines = vec![String::new(), format!("{}/// **get** public {}", ind, link)];
    lines.extend(feature.iter().cloned());
    lines.extend([
        format!("{}pub fn value<'env>(&'env self) -> __jni_bindgen::std::option::Option<__jni_bindgen::Local<'env, crate::java::lang::Object>> {{", ind),
        format!("{}    unsafe {{", ind),
        format!("{}        let env = __jni_bindgen::Env::from_ptr(self.0.env);", ind),
        format!("{}        let (class, field) = env.require_class_field(\"java/util/Map$Entry\\0\", \"value\\0\", \"Ljava/lang/Object;\\0\");", ind),
        format!("{}        env.get_object_field(class, field)", ind),
        format!("{}    }}", ind),
        format!("{}}}", ind),
        String::new(),
        format!("{}/// **set** public {}", ind, link),
    ]);
    lines.extend(feature.iter().cloned());
    lines.extend([
        format!("{}pub fn set_value<'env, 'obj>(&'env self, value: impl __jni_bindgen::std::convert::Into<__jni_bindgen::std::option::Option<&'obj crate::java::lang::Object>>) {{", ind),
        format!("{}    unsafe {{", ind),
        format!("{}        let env = __jni_bindgen::Env::from_ptr(self.0.env);", ind),
        format!("{}        let (class, field) = env.require_class_field(\"java/util/Map$Entry\\0\", \"value\\0\", \"Ljava/lang/Object;\\0\");", ind),
        format!("{}        env.set_object_field(class, field, value)", ind),
        format!("{}    }}", ind),
        format!("{}}}", ind),
    ]);
    let mut want = lines.join("\n");
    want.push('\n');
    assert_eq!(wrapper.emit(&context, "", ""), want);

    let b = empty_class("a/B");
    let flag = Field::new(FieldAccessFlags::from_bits_truncate(0x0012), "flag".to_owned(), "Z".to_owned()).unwrap();
    let wrapper = FieldWrapper { class: &b, java: &flag, rust_names: Err(IdentifierManglingError) };
    let ind = "        // ";
    let mut want = [
        String::new(),
        format!("{}// Not emitting: Non-public method", ind),
        format!("{}// Not emitting: Failed to mangle field name(s)", ind),
        format!("{}pub fn get_\"flag\"<'env>(&'env self) -> bool {{ ... }}", ind),
    ].join("\n");
    want.push('\n');
    assert_eq!(wrapper.emit(&context, "", ""), want);

    let mut yes = Field::new(FieldAccessFlags::from_bits_truncate(0x0019), "YES".to_owned(), "Z".to_owned()).unwrap();
    yes.constant = Some(FieldConstant::Integer(1));
    let one = FieldConstant::Integer(1);
    let wrapper = FieldWrapper { class: &b, java: &yes, rust_names: Ok(FieldMangling::ConstValue("YES".to_owned(), &one)) };
    assert_eq!(wrapper.emit(&context, "", "1"), "\n        pub const YES : bool = true;\n");
}

#[test]
fn struct_declaration_text() {
    let config = sample_config();
    let context = Context::new(&config);
    let run = Method::new(MethodAccessFlags::from_bits_truncate(0x0001), "run".to_owned(), "(I)V".to_owned()).unwrap();
    let field = Field::new(FieldAccessFlags::from_bits_truncate(0x0001), "run".to_owned(), "I".to_owned()).unwrap();
    let class = Class {
        flags: ClassAccessFlags::from_bits_truncate(0x0001),
        path: "a/b/C".to_owned(),
        super_path: Some("java/lang/Object".to_owned()),
        interfaces: vec!["java/lang/Runnable".to_owned()],
        fields: vec![field.clone()],
        methods: vec![run.clone()],
        deprecated: false,
    };
    let s = Struct::new(&context, class.clone()).unwrap();
    assert_eq!(s.rust.struct_name, "C");
    let accessor = FieldWrapper { class: &class, java: &field, rust_names: Ok(FieldMangling::GetSet("run".to_owned(), "set_run".to_owned())) };
    let fields = vec![FieldWrapper { class: &class, java: &field, rust_names: Ok(FieldMangling::GetSet("run".to_owned(), "set_run".to_owned())) }];
    let values = vec![String::new()];

    // The method's name collides with the field's getter, so the method takes the collision style.
    let mut wrapper = MethodWrapper::new(&context, &class, &run);
    assert_eq!(wrapper.rust_name(), Some("run"));
    wrapper.set_mangling_style(config.codegen.method_naming_style_collision);
    let link = KnownDocsUrl::from_class(&context, Id("a/b/C")).unwrap().to_string();
    let mut want = String::from("\n");
    want.push_str("#[cfg(any(feature = \"all\", feature = \"a-b-C\"))]\n");
    want.push_str("__jni_bindgen! {\n");
    want.push_str(&format!("    /// public class {}\n", link));
    want.push_str("    ///\n");
    want.push_str("    /// Required feature: a-b-C\n");
    want.push_str("    public class C (\"a/b/C\") extends crate::java::lang::Object, implements crate::java::lang::Runnable {\n");
    want.push_str(&wrapper.emit(&context, ""));
    want.push_str(&accessor.emit(&context, "", ""));
    want.push_str("    }\n");
    want.push_str("}\n");
    assert_eq!(s.write(&context, "", &fields, &values), want);
    assert_ne!(wrapper.rust_name(), Some("run"));
}

#[test]
fn nested_class_struct_added_once() {
    let config = sample_config();
    let mut context = Context::new(&config);
    assert_eq!(context.java_to_rust_path(Id("android/os/Build$VERSION")).unwrap(), "crate::android::os::Build_VERSION");
    let paths = StructPaths::new(&context, Id("android/os/Build$VERSION")).unwrap();
    assert_eq!(paths.mod_prefix, "crate::android::os::");
    assert_eq!(paths.struct_name, "Build_VERSION");
    assert_eq!(paths.local_scope(), Some(vec!["android".to_owned(), "os".to_owned()]));
    assert!(context.add_struct(empty_class("android/os/Build$VERSION")).is_ok());
    assert_eq!(context.add_struct(empty_class("android/os/Build$VERSION")).unwrap_err(), EmitError::AlreadyAdded("Build_VERSION".to_owned()));
    assert!(context.add_struct(empty_class("android/app/Build$VERSION")).is_ok());
}

#[test]
fn commit_hands_bytes_and_path_to_write() {
    let mut set = DedupeFileSet::new();
    let mut seen: Vec<(Vec<u8>, String)> = Vec::new();
    let r: Result<String, ()> = set.commit(b"body".to_vec(), "out/a.rs".to_owned(), Some(9), |b, p| { seen.push((b.to_vec(), p.to_owned())); Ok(()) });
    assert_eq!(r.unwrap(), "out/a.rs");
    assert_eq!(seen, vec![(b"body".to_vec(), "out/a.rs".to_owned())]);
    let r: Result<String, ()> = set.commit(b"same".to_vec(), "out/b.rs".to_owned(), Some(4), |b, p| { seen.push((b.to_vec(), p.to_owned())); Ok(()) });
    assert_eq!(r.unwrap(), "out/b.rs");
    assert_eq!(seen.len(), 1);
}
