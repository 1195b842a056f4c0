//! [Java SE 7 &sect; 4.1](https://docs.oracle.com/javase/specs/jvms/se7/html/jvms-4.html#jvms-4.1):  class file versions.

use vstd::prelude::*;
use crate::emit_rust::rust_text::{decimal, push_decimal};
use crate::text::string_from_chars;

verus! {

/// [Java SE 7 &sect; 4.1](https://docs.oracle.com/javase/specs/jvms/se7/html/jvms-4.html#jvms-4.1):  ClassFile::major_version.
/// See also [Wikipedia](https://en.wikipedia.org/wiki/Java_class_file#General_layout) which lists versions.
#[derive(Clone, Copy, Debug, PartialEq, Eq, Structural, PartialOrd, Ord, Hash)]
pub struct Major(pub u16);

#[allow(non_upper_case_globals)]
impl Major {
    pub const Unknown: u16 = 0;

    pub const JDK_1_1: u16 = 0x2D;
    pub const JDK_1_2: u16 = 0x2E;
    pub const JDK_1_3: u16 = 0x2F;
    pub const JDK_1_4: u16 = 0x30;

    pub const JavaSE_5_0: u16 = 0x31;
    pub const JavaSE_6_0: u16 = 0x32;
    pub const JavaSE_7: u16 = 0x33;
    pub const JavaSE_8: u16 = 0x34;
    pub const JavaSE_9: u16 = 0x35;
    pub const JavaSE_10: u16 = 0x36;
    pub const JavaSE_11: u16 = 0x37;
    pub const JavaSE_12: u16 = 0x38;
    pub const JavaSE_13: u16 = 0x39;
    pub const JavaSE_14: u16 = 0x3A;

    /// The version number as written in the class file (what `Display` shows).
    pub fn number(&self) -> (n: u16)
        ensures
            n == self.0,
    {
        self.0
    }

    /// The version number in decimal, as `Display` shows it.
    pub fn to_string(&self) -> (s: String)
        ensures
            s@ == decimal(self.0 as nat),
    {
        let mut v: Vec<char> = Vec::new();
        push_decimal(&mut v, self.0 as usize);
        string_from_chars(v.as_slice())
    }
}

impl Default for Major {
    /// The oldest version a class file can have.
    fn default() -> (m: Self)
        ensures
            m.0 == Major::JDK_1_1,
    {
        Major(Major::JDK_1_1)
    }
}

} // verus!
