//! [Java SE 7 &sect; 4.3.3](https://docs.oracle.com/javase/specs/jvms/se7/html/jvms-4.html#jvms-4.3.3):  method descriptors.

use vstd::prelude::*;
use vstd::string::*;
use crate::descriptor::{
    descriptor_result_matches, lemma_parse_bounds, parse_descriptor, parse_single_descriptor,
    DescriptorError, DescriptorModel,
};

pub use crate::descriptor::BasicType;

verus! {

/// A parameter or return type of a method.
pub type Type<'a> = crate::descriptor::Descriptor<'a>;

/// The parameter types that follow `(` in a method descriptor, then the return type after `)`.
pub open spec fn parse_method_rest(s: Seq<char>, args: Seq<DescriptorModel>) -> Result<(Seq<DescriptorModel>, DescriptorModel), DescriptorError>
    decreases s.len(),
{
    if s.len() == 0 {
        Err(DescriptorError::UnexpectedEnd)
    } else if s[0] == ')' {
        match parse_single_descriptor(s.drop_first()) {
            Ok(r) => Ok((args, r)),
            Err(e) => Err(e),
        }
    } else {
        match parse_descriptor(s) {
            Ok((d, n)) => if 0 < n <= s.len() {
                parse_method_rest(s.skip(n), args.push(d))
            } else {
                Err(DescriptorError::UnexpectedEnd)
            },
            Err(e) => Err(e),
        }
    }
}

/// The parameter types and return type of a method descriptor such as `(ILjava/lang/String;)V`.
pub open spec fn parse_method_descriptor(s: Seq<char>) -> Result<(Seq<DescriptorModel>, DescriptorModel), DescriptorError> {
    if s.len() > 0 && s[0] == '(' {
        parse_method_rest(s.drop_first(), Seq::empty())
    } else {
        Err(DescriptorError::MissingParenthesis)
    }
}

/// The models of a list of types.
pub open spec fn types_model(v: Seq<Type>) -> Seq<DescriptorModel> {
    v.map_values(|t: Type| t@)
}

/// A validated method descriptor such as `(ILjava/lang/String;)V`.
#[derive(Clone, Copy, Debug, PartialEq, Eq, PartialOrd, Ord, Hash)]
pub struct Descriptor<'a> {
    string: &'a str,
}

fn parse<'a>(s: &'a str) -> (r: Result<(Vec<Type<'a>>, Type<'a>), DescriptorError>)
    ensures
        match parse_method_descriptor(s@) {
            Ok((args, ret)) => r is Ok && types_model(r->Ok_0.0@) == args && r->Ok_0.1@ == ret,
            Err(e) => r == Err::<(Vec<Type<'a>>, Type<'a>), DescriptorError>(e),
        },
{
    let n = s.unicode_len();
    if n == 0 || s.get_char(0) != '(' {
        return Err(DescriptorError::MissingParenthesis);
    }
    let mut rest: &'a str = s.substring_char(1, n);
    let mut args: Vec<Type<'a>> = Vec::new();
    proof {
        assert(rest@ =~= s@.drop_first());
        assert(types_model(args@) =~= Seq::<DescriptorModel>::empty());
    }
    loop
        invariant
            parse_method_descriptor(s@) == parse_method_rest(rest@, types_model(args@)),
        decreases rest@.len(),
    {
        let m = rest.unicode_len();
        if m == 0 {
            return Err(DescriptorError::UnexpectedEnd);
        }
        if rest.get_char(0) == ')' {
            let ret_str: &'a str = rest.substring_char(1, m);
            proof { assert(ret_str@ =~= rest@.drop_first()); }
            match crate::descriptor::Descriptor::from_str(ret_str) {
                Ok(ret) => {
                    return Ok((args, ret));
                },
                Err(e) => {
                    return Err(e);
                },
            }
        }
        let ghost before = rest@;
        match crate::descriptor::Descriptor::read_next(&mut rest) {
            Ok(d) => {
                proof {
                    lemma_parse_bounds(before, 0);
                    assert(types_model(args@.push(d)) =~= types_model(args@).push(d@));
                }
                args.push(d);
            },
            Err(e) => {
                return Err(e);
            },
        }
    }
}

impl<'a> Descriptor<'a> {
    #[verifier::type_invariant]
    spec fn inv(self) -> bool {
        parse_method_descriptor(self.string@) is Ok
    }

    /// The parameter types and the return type.
    pub closed spec fn model(self) -> (Seq<DescriptorModel>, DescriptorModel) {
        parse_method_descriptor(self.string@)->Ok_0
    }

    /// The descriptor as written.
    pub closed spec fn text(self) -> Seq<char> {
        self.string@
    }

    /// Validates a method descriptor.
    pub fn new(s: &'a str) -> (r: Result<Self, DescriptorError>)
        ensures
            match parse_method_descriptor(s@) {
                Ok(m) => r is Ok && r->Ok_0.model() == m && r->Ok_0.text() == s@,
                Err(e) => r == Err::<Self, DescriptorError>(e),
            },
    {
        match parse(s) {
            Ok(_) => Ok(Descriptor { string: s }),
            Err(e) => Err(e),
        }
    }

    /// The descriptor as written.
    pub fn as_str(&self) -> (s: &'a str)
        ensures
            s@ == self.text(),
    {
        self.string
    }

    /// The parameter types, in order.
    pub fn arguments(&self) -> (args: Vec<Type<'a>>)
        ensures
            types_model(args@) == self.model().0,
    {
        proof { use_type_invariant(self); }
        match parse(self.string) {
            Ok((args, _)) => args,
            Err(_) => Vec::new(),
        }
    }

    /// The return type.
    pub fn return_type(&self) -> (t: Type<'a>)
        ensures
            t@ == self.model().1,
    {
        proof { use_type_invariant(self); }
        match parse(self.string) {
            Ok((_, ret)) => ret,
            Err(_) => Type::Single(BasicType::Void),
        }
    }
}

} // verus!
