//! Parse `.jar`s and `.class`es to generate Rust FFI bindings using JNI.

pub mod text;
pub mod assoc;
pub mod io_ext;
pub mod class;
pub mod descriptor;
pub mod method;
pub mod jni_descriptor;
pub mod identifiers;
pub mod method_mangling;
pub mod api_level_range;
pub mod modified_utf8;
pub mod constants;
pub mod access_flags;
pub mod version;
pub mod jar;
pub mod class_file_visitor;
pub mod mappers;
pub mod util;
pub mod config;
pub mod emit_rust;
pub mod gather_java;
pub mod inputs;
pub mod ast;
pub mod sdk;
pub mod throwable;
pub mod jni_types;
