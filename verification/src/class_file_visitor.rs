//! [Java SE 7 &sect; 4](https://docs.oracle.com/javase/specs/jvms/se7/html/jvms-4.html):  class file structures as read
//! straight from the bytes, before any index is resolved.

pub mod attribute;
pub mod constant;
pub mod field;
