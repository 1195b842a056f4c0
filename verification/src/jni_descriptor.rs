//! Walks a JNI method descriptor one parameter at a time.

use vstd::prelude::*;
use vstd::string::*;
use crate::descriptor::{parse_descriptor, parse_single_descriptor, Descriptor, DescriptorModel};

verus! {

/// A parameter or return type.
pub type JniField<'a> = crate::descriptor::Descriptor<'a>;

/// The basic type of a parameter or return type.
pub type JniBasicType<'a> = crate::descriptor::BasicType<'a>;

/// One step through a method descriptor.
#[derive(Clone, Copy, Debug, PartialEq, Eq, PartialOrd, Ord, Hash)]
pub enum JniDescriptorSegment<'a> {
    Parameter(JniField<'a>),
    Return(JniField<'a>),
}

/// A method descriptor with its leading `(` consumed; yields the parameters, then the return type.
pub struct JniDescriptor<'a> {
    remaining: &'a str,
}

/// The segment that `next` yields from `s`, and what is left after it.
pub open spec fn next_segment(s: Seq<char>) -> (Option<(bool, DescriptorModel)>, Seq<char>) {
    if s.len() > 0 && s[0] == ')' {
        match parse_single_descriptor(s.drop_first()) {
            Ok(d) => (Some((false, d)), Seq::empty()),
            Err(_) => (None, Seq::empty()),
        }
    } else {
        match parse_descriptor(s) {
            Ok((d, n)) => (Some((true, d)), s.skip(n)),
            Err(_) => (None, s),
        }
    }
}

impl<'a> JniDescriptorSegment<'a> {
    /// Whether this is a parameter, and the type it carries.
    pub open spec fn model(self) -> (bool, DescriptorModel) {
        match self {
            JniDescriptorSegment::Parameter(f) => (true, f@),
            JniDescriptorSegment::Return(f) => (false, f@),
        }
    }
}

impl<'a> JniDescriptor<'a> {
    /// What is left to walk.
    pub closed spec fn rest(self) -> Seq<char> {
        self.remaining@
    }

    /// Starts walking a method descriptor, which must begin with `(`.
    pub fn new(remaining: &'a str) -> (r: Result<JniDescriptor<'a>, &'static str>)
        ensures
            (remaining@.len() > 0 && remaining@[0] == '(') ==> r is Ok && r->Ok_0.rest() == remaining@.drop_first(),
            !(remaining@.len() > 0 && remaining@[0] == '(') ==> (r matches Err(m) && m@ == "Invalid JniDescriptor, does not start with '('"@),
    {
        let n = remaining.unicode_len();
        if n > 0 && remaining.get_char(0) == '(' {
            let rest = remaining.substring_char(1, n);
            proof { assert(rest@ =~= remaining@.drop_first()); }
            Ok(JniDescriptor { remaining: rest })
        } else {
            Err("Invalid JniDescriptor, does not start with '('")
        }
    }

    /// The next parameter, then the return type, then nothing.  A malformed descriptor ends the walk.
    pub fn next(&mut self) -> (r: Option<JniDescriptorSegment<'a>>)
        ensures
            match next_segment(old(self).rest()).0 {
                Some(m) => r is Some && r->Some_0.model() == m,
                None => r is None,
            },
            final(self).rest() == next_segment(old(self).rest()).1,
    {
        let n = self.remaining.unicode_len();
        if n > 0 && self.remaining.get_char(0) == ')' {
            let ret: &'a str = self.remaining.substring_char(1, n);
            proof { assert(ret@ =~= self.remaining@.drop_first()); }
            let field = Descriptor::from_str(ret);
            let empty: &'a str = self.remaining.substring_char(n, n);
            proof { assert(empty@ =~= Seq::<char>::empty()); }
            self.remaining = empty;
            match field {
                Ok(f) => Some(JniDescriptorSegment::Return(f)),
                Err(_) => None,
            }
        } else {
            let mut rem: &'a str = self.remaining;
            let field = Descriptor::read_next(&mut rem);
            self.remaining = rem;
            match field {
                Ok(f) => Some(JniDescriptorSegment::Parameter(f)),
                Err(_) => None,
            }
        }
    }
}

} // verus!
