//! The `jni-bindgen.toml` configuration file, as plain values.  Parsing the TOML text is the
//! program's part; each field below is what one key of the file holds, with its default.

use vstd::prelude::*;
use crate::method_mangling::MethodManglingStyle;

verus! {

/// How generated methods get at the JNI environment.
#[derive(Debug, Clone, Copy, PartialEq, Eq, Structural)]
pub enum StaticEnvStyle {
    Explicit,
    Implicit,
}

impl Default for StaticEnvStyle {
    fn default() -> (s: Self)
        ensures
            s == StaticEnvStyle::Explicit,
    {
        StaticEnvStyle::Explicit
    }
}

/// How generated code is split into files.
#[derive(Debug, Clone, Copy, PartialEq, Eq, Structural)]
pub enum CodeShardingStyle {
    /// All generated code in one file (`none` in the configuration file).
    NotSharded,
    /// A file per class.
    PerClass,
}

impl Default for CodeShardingStyle {
    fn default() -> (s: Self)
        ensures
            s == CodeShardingStyle::PerClass,
    {
        CodeShardingStyle::PerClass
    }
}

/// How fields are named in the generated code.
#[derive(Clone, Debug, PartialEq, Eq, Hash)]
pub struct FieldManglingStyle {
    /// Emit `static final` fields with a constant value as Rust constants.  Default: true.
    pub const_finals: bool,
    /// Use Rust naming conventions.  Default: true.
    pub rustify_names: bool,
    /// The getter's name, `{NAME}` standing for the field's.  Default: `{NAME}`.
    pub getter_pattern: String,
    /// The setter's name, `{NAME}` standing for the field's.  Default: `set_{NAME}`.
    pub setter_pattern: String,
}

impl Default for FieldManglingStyle {
    fn default() -> (s: Self)
        ensures
            s.const_finals,
            s.rustify_names,
            s.getter_pattern@ == "{NAME}"@,
            s.setter_pattern@ == "set_{NAME}"@,
    {
        Self {
            const_finals: true,
            rustify_names: true,
            getter_pattern: "{NAME}".to_owned(),
            setter_pattern: "set_{NAME}".to_owned(),
        }
    }
}

/// `[codegen]`
#[derive(Debug, Clone)]
pub struct CodeGen {
    /// Default: `explicit`.
    pub static_env: StaticEnvStyle,
    /// Default: `rustify`.
    pub method_naming_style: MethodManglingStyle,
    /// Default: `rustify_short_signature`.
    pub method_naming_style_collision: MethodManglingStyle,
    /// Default: see `FieldManglingStyle`.
    pub field_naming_style: FieldManglingStyle,
    /// Default: true.
    pub shard_structs: bool,
    /// Default: true.
    pub feature_per_struct: bool,
}

impl Default for CodeGen {
    fn default() -> (c: Self)
        ensures
            c.static_env == StaticEnvStyle::Explicit,
            c.method_naming_style == MethodManglingStyle::Rustify,
            c.method_naming_style_collision == MethodManglingStyle::RustifyShortSignature,
            c.field_naming_style.const_finals && c.field_naming_style.rustify_names,
            c.field_naming_style.getter_pattern@ == "{NAME}"@,
            c.field_naming_style.setter_pattern@ == "set_{NAME}"@,
            c.shard_structs,
            c.feature_per_struct,
    {
        Self {
            static_env: StaticEnvStyle::default(),
            method_naming_style: MethodManglingStyle::Rustify,
            method_naming_style_collision: MethodManglingStyle::RustifyShortSignature,
            field_naming_style: FieldManglingStyle::default(),
            shard_structs: true,
            feature_per_struct: true,
        }
    }
}

/// `[[documentation.pattern]]`: where the documentation of the classes under a JNI prefix is.
#[derive(Debug, Clone)]
pub struct DocumentationPattern {
    /// The URL of a class's page, with `{CLASS}` and `{CLASS.LOWER}` standing for its name.
    pub class_url_pattern: String,
    /// The URL of a method's documentation, if there is one.
    pub method_url_pattern: Option<String>,
    /// The URL of a constructor's documentation, if it differs from that of methods.
    pub constructor_url_pattern: Option<String>,
    /// The URL of a field's documentation, if there is one.
    pub field_url_pattern: Option<String>,
    /// The classes this pattern is for.  Default: empty (all).
    pub jni_prefix: String,
    /// What stands for `/` in a class name.  Default: `/`.
    pub class_namespace_separator: String,
    /// What stands for `$` in a class name.  Default: `.`.
    pub class_inner_class_seperator: String,
    /// What stands for `/` in an argument's class name.  Default: `.`.
    pub argument_namespace_separator: String,
    /// What stands for `$` in an argument's class name.  Default: `.`.
    pub argument_inner_class_seperator: String,
    /// What separates arguments.  Default: `,`.
    pub argument_seperator: String,
}

/// `[documentation]`
#[derive(Debug, Clone)]
pub struct Documentation {
    pub patterns: Vec<DocumentationPattern>,
}

/// `[input]`
#[derive(Debug, Clone)]
pub struct Input {
    pub files: Vec<String>,
}

/// `[output]`
#[derive(Debug, Clone)]
pub struct Output {
    pub path: String,
}

/// `[logging]`
#[derive(Debug, Clone)]
pub struct Logging {
    /// Default: false.
    pub verbose: bool,
}

/// `[[ignore]]`: a class, or a field or method of it, to leave out.
#[derive(Debug, Clone)]
pub struct Ignore {
    pub class: String,
    pub field: Option<String>,
    pub method: Option<String>,
    pub signature: Option<String>,
}

/// `[[rename]]`: a class, or a field or method of it, to give another Rust name.
#[derive(Debug, Clone)]
pub struct Rename {
    pub to: String,
    pub class: String,
    pub field: Option<String>,
    pub method: Option<String>,
    pub signature: Option<String>,
}

/// A whole configuration file.
#[derive(Debug, Clone)]
pub struct File {
    pub codegen: CodeGen,
    pub documentation: Documentation,
    pub input: Input,
    pub logging: Logging,
    pub output: Output,
    pub ignores: Vec<Ignore>,
    pub renames: Vec<Rename>,
}

/// A configuration file and the directory it was found in, which relative paths are resolved against.
#[derive(Debug, Clone)]
pub struct FileWithContext {
    pub file: File,
    pub directory: String,
}

} // verus!
