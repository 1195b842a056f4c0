//! Rust generation: where each Java class goes in the generated crate, the links to its
//! documentation, and the text of its methods.

pub mod class_macro;
pub mod context;
pub mod fields;
pub mod known_docs_url;
pub mod methods;
pub mod rust_text;
pub mod struct_decl;
pub mod structs;
