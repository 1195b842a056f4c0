//! Mappings from Java names to Rust names.

pub mod class_to_struct;
