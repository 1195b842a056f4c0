//! Configuration: the file format (as plain values, parsed from TOML by the program) and the
//! runtime form the generator works from.

pub mod runtime;
pub mod toml;
