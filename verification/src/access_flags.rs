//! Access flags of classes, fields and methods.

use vstd::prelude::*;
use crate::io_ext::{be_u16, read_u2, ByteReader, ReadError};

verus! {

/// [Java SE 7 &sect; 4.1](https://docs.oracle.com/javase/specs/jvms/se7/html/jvms-4.html#jvms-4.1):  ClassFile::access_flags values.
#[derive(Clone, Copy, Debug, Default, PartialEq, Eq, Hash)]
pub struct ClassAccessFlags(u16);

impl ClassAccessFlags {
    /// Declared `public`; may be accessed from outside its package.
    pub const PUBLIC: u16 = 0x0001;
    /// Declared `static`.
    pub const STATIC: u16 = 0x0008;
    /// Declared `final`; no subclasses allowed.
    pub const FINAL: u16 = 0x0010;
    /// Treat superclass methods specifically when invoked by the *invokespecial* instruction.
    pub const SUPER: u16 = 0x0020;
    /// Is an interface, not a class.
    pub const INTERFACE: u16 = 0x0200;
    /// Declared `abstract`; must not be instantiated.
    pub const ABSTRACT: u16 = 0x0400;
    /// Declared synthetic; not present in the source code.
    pub const SYNTHETIC: u16 = 0x1000;
    /// Declared as an annotation type.
    pub const ANNOTATION: u16 = 0x2000;
    /// Declared as an enum type.
    pub const ENUM: u16 = 0x4000;

    /// Every flag this type knows.
    pub open spec fn known_bits() -> u16 {
        0x7639
    }

    /// The raw bits.
    pub closed spec fn bits_spec(self) -> u16 {
        self.0
    }

    /// The raw bits.
    pub fn bits(&self) -> (b: u16)
        ensures
            b == self.bits_spec(),
    {
        self.0
    }

    /// The flags among `bits` that this type knows; unknown bits are dropped.
    pub fn from_bits_truncate(bits: u16) -> (f: Self)
        ensures
            f.bits_spec() == bits & Self::known_bits(),
    {
        ClassAccessFlags(bits & 0x7639)
    }

    /// Whether every flag among `bits` is set.
    pub fn contains(&self, bits: u16) -> (r: bool)
        ensures
            r == (self.bits_spec() & bits == bits),
    {
        self.0 & bits == bits
    }

    /// Reads the `u2` access flags, dropping unknown bits.
    pub fn read(r: &mut ByteReader) -> (f: Result<Self, ReadError>)
        ensures
            old(r).rest().len() >= 2 ==> f is Ok && f->Ok_0.bits_spec() == be_u16(old(r).rest()) & Self::known_bits()
                && final(r).rest() == old(r).rest().skip(2),
            old(r).rest().len() < 2 ==> f == Err::<Self, ReadError>(ReadError::UnexpectedEof),
    {
        Ok(Self::from_bits_truncate(read_u2(r)?))
    }
}

/// [Java SE 7 &sect; 4.5](https://docs.oracle.com/javase/specs/jvms/se7/html/jvms-4.html#jvms-4.5):  field_info::access_flags values.
#[derive(Clone, Copy, Debug, Default, PartialEq, Eq, Hash)]
pub struct FieldAccessFlags(u16);

impl FieldAccessFlags {
    /// Declared `public`; may be accessed from outside its package.
    pub const PUBLIC: u16 = 0x0001;
    /// Declared `private`; usable only with the defining class.
    pub const PRIVATE: u16 = 0x0002;
    /// Declared `protected`; may be accessed within subclasses.
    pub const PROTECTED: u16 = 0x0004;
    /// Declared `static`.
    pub const STATIC: u16 = 0x0008;
    /// Declared `final`; never directly assigned to after object construction.
    pub const FINAL: u16 = 0x0010;
    /// Declared `volatile`; cannot be cached.
    pub const VOLATILE: u16 = 0x0040;
    /// Declared `transient`; not written or read by a persistent object manager.
    pub const TRANSIENT: u16 = 0x0080;
    /// Declared synthetic; not present in the source code.
    pub const SYNTHETIC: u16 = 0x1000;
    /// Declared as an element of an enum.
    pub const ENUM: u16 = 0x4000;

    /// Every flag this type knows.
    pub open spec fn known_bits() -> u16 {
        0x50df
    }

    /// The raw bits.
    pub closed spec fn bits_spec(self) -> u16 {
        self.0
    }

    /// The raw bits.
    pub fn bits(&self) -> (b: u16)
        ensures
            b == self.bits_spec(),
    {
        self.0
    }

    /// The flags among `bits` that this type knows; unknown bits are dropped.
    pub fn from_bits_truncate(bits: u16) -> (f: Self)
        ensures
            f.bits_spec() == bits & Self::known_bits(),
    {
        FieldAccessFlags(bits & 0x50df)
    }

    /// Whether every flag among `bits` is set.
    pub fn contains(&self, bits: u16) -> (r: bool)
        ensures
            r == (self.bits_spec() & bits == bits),
    {
        self.0 & bits == bits
    }

    /// Reads the `u2` access flags, dropping unknown bits.
    pub fn read(r: &mut ByteReader) -> (f: Result<Self, ReadError>)
        ensures
            old(r).rest().len() >= 2 ==> f is Ok && f->Ok_0.bits_spec() == be_u16(old(r).rest()) & Self::known_bits()
                && final(r).rest() == old(r).rest().skip(2),
            old(r).rest().len() < 2 ==> f == Err::<Self, ReadError>(ReadError::UnexpectedEof),
    {
        Ok(Self::from_bits_truncate(read_u2(r)?))
    }
}

/// [Java SE 7 &sect; 4.6](https://docs.oracle.com/javase/specs/jvms/se7/html/jvms-4.html#jvms-4.6):  method_info::access_flags values.
#[derive(Clone, Copy, Debug, Default, PartialEq, Eq, Hash)]
pub struct MethodAccessFlags(u16);

impl MethodAccessFlags {
    /// Declared `public`; may be accessed from outside its package.
    pub const PUBLIC: u16 = 0x0001;
    /// Declared `private`; accessible only within the defining class.
    pub const PRIVATE: u16 = 0x0002;
    /// Declared `protected`; may be accessed within subclasses.
    pub const PROTECTED: u16 = 0x0004;
    /// Declared `static`.
    pub const STATIC: u16 = 0x0008;
    /// Declared `final`; must not be overridden.
    pub const FINAL: u16 = 0x0010;
    /// Declared `synchronized`; invocation is wrapped by a monitor use.
    pub const SYNCHRONIZED: u16 = 0x0020;
    /// A bridge method, generated by the compiler.
    pub const BRIDGE: u16 = 0x0040;
    /// Declared with variable number of arguments.
    pub const VARARGS: u16 = 0x0080;
    /// Declared `native`; implemented in a language other than Java.
    pub const NATIVE: u16 = 0x0100;
    /// Declared `abstract`; no implementation is provided.
    pub const ABSTRACT: u16 = 0x0400;
    /// Declared `strictfp`; floating-point mode is FP-strict.
    pub const STRICT: u16 = 0x0800;
    /// Declared synthetic; not present in the source code.
    pub const SYNTHETIC: u16 = 0x1000;

    /// Every flag this type knows.
    pub open spec fn known_bits() -> u16 {
        0x1dff
    }

    /// The raw bits.
    pub closed spec fn bits_spec(self) -> u16 {
        self.0
    }

    /// The raw bits.
    pub fn bits(&self) -> (b: u16)
        ensures
            b == self.bits_spec(),
    {
        self.0
    }

    /// The flags among `bits` that this type knows; unknown bits are dropped.
    pub fn from_bits_truncate(bits: u16) -> (f: Self)
        ensures
            f.bits_spec() == bits & Self::known_bits(),
    {
        MethodAccessFlags(bits & 0x1dff)
    }

    /// Whether every flag among `bits` is set.
    pub fn contains(&self, bits: u16) -> (r: bool)
        ensures
            r == (self.bits_spec() & bits == bits),
    {
        self.0 & bits == bits
    }

    /// Reads the `u2` access flags, dropping unknown bits.
    pub fn read(r: &mut ByteReader) -> (f: Result<Self, ReadError>)
        ensures
            old(r).rest().len() >= 2 ==> f is Ok && f->Ok_0.bits_spec() == be_u16(old(r).rest()) & Self::known_bits()
                && final(r).rest() == old(r).rest().skip(2),
            old(r).rest().len() < 2 ==> f == Err::<Self, ReadError>(ReadError::UnexpectedEof),
    {
        Ok(Self::from_bits_truncate(read_u2(r)?))
    }
}

} // verus!
