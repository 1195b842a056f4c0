//! [Java SE 7 &sect; 4.3.2](https://docs.oracle.com/javase/specs/jvms/se7/html/jvms-4.html#jvms-4.3.2):  field descriptors.

use vstd::prelude::*;
use vstd::string::*;
use crate::class;
use crate::text::{chars_of, find_char, find_char_from, lemma_find_char};

verus! {

/// The type a descriptor names, apart from array dimensions.
#[derive(Clone, Copy, Debug, PartialEq, Eq, PartialOrd, Ord, Hash)]
pub enum BasicType<'a> {
    Byte,
    Char,
    Double,
    Float,
    Int,
    Long,
    Class(class::Id<'a>),
    Short,
    Boolean,
    Void,  // Only really crops up for method return types.
}

/// A field descriptor: a basic type, possibly wrapped in array dimensions.
#[derive(Clone, Copy, Debug, PartialEq, Eq, PartialOrd, Ord, Hash)]
pub enum Descriptor<'a> {
    Single(BasicType<'a>),
    Array { levels: usize, inner: BasicType<'a> },
}

/// A basic type with the class path taken as characters.
pub enum BasicTypeModel {
    Byte,
    Char,
    Double,
    Float,
    Int,
    Long,
    Class(Seq<char>),
    Short,
    Boolean,
    Void,
}

/// A descriptor with the class path taken as characters.
pub enum DescriptorModel {
    Single(BasicTypeModel),
    Array { levels: nat, inner: BasicTypeModel },
}

/// Why a descriptor could not be parsed.
#[derive(Clone, Copy, Debug, PartialEq, Eq)]
pub enum DescriptorError {
    /// The string ended before a basic type.
    UnexpectedEnd,
    /// A class type `L...` has no closing `;`.
    MissingSemicolon,
    /// A character that starts no type.
    UnexpectedChar(char),
    /// More than one descriptor where exactly one was expected.
    Multiple,
    /// A method descriptor that does not start with `(`.
    MissingParenthesis,
}

impl<'a> View for BasicType<'a> {
    type V = BasicTypeModel;

    open spec fn view(&self) -> BasicTypeModel {
        match *self {
            BasicType::Byte => BasicTypeModel::Byte,
            BasicType::Char => BasicTypeModel::Char,
            BasicType::Double => BasicTypeModel::Double,
            BasicType::Float => BasicTypeModel::Float,
            BasicType::Int => BasicTypeModel::Int,
            BasicType::Long => BasicTypeModel::Long,
            BasicType::Class(id) => BasicTypeModel::Class(id.0@),
            BasicType::Short => BasicTypeModel::Short,
            BasicType::Boolean => BasicTypeModel::Boolean,
            BasicType::Void => BasicTypeModel::Void,
        }
    }
}

impl<'a> View for Descriptor<'a> {
    type V = DescriptorModel;

    open spec fn view(&self) -> DescriptorModel {
        match *self {
            Descriptor::Single(b) => DescriptorModel::Single(b@),
            Descriptor::Array { levels, inner } => DescriptorModel::Array {
                levels: levels as nat,
                inner: inner@,
            },
        }
    }
}

/// The basic type a single character names, if it names one by itself.
pub open spec fn basic_type_of(c: char) -> Option<BasicTypeModel> {
    if c == 'B' {
        Some(BasicTypeModel::Byte)
    } else if c == 'C' {
        Some(BasicTypeModel::Char)
    } else if c == 'D' {
        Some(BasicTypeModel::Double)
    } else if c == 'F' {
        Some(BasicTypeModel::Float)
    } else if c == 'I' {
        Some(BasicTypeModel::Int)
    } else if c == 'J' {
        Some(BasicTypeModel::Long)
    } else if c == 'S' {
        Some(BasicTypeModel::Short)
    } else if c == 'Z' {
        Some(BasicTypeModel::Boolean)
    } else if c == 'V' {
        Some(BasicTypeModel::Void)
    } else {
        None
    }
}

/// `levels` array dimensions around `inner`; no dimensions is a single value.
pub open spec fn wrap_levels(levels: nat, inner: BasicTypeModel) -> DescriptorModel {
    if levels == 0 {
        DescriptorModel::Single(inner)
    } else {
        DescriptorModel::Array { levels, inner }
    }
}

/// Parses the descriptor at the front of `s` after `i` leading `[`s, and how many characters
/// it takes in all.
pub open spec fn parse_descriptor_from(s: Seq<char>, i: int) -> Result<(DescriptorModel, int), DescriptorError>
    decreases s.len() - i,
{
    if i < 0 || i >= s.len() {
        Err(DescriptorError::UnexpectedEnd)
    } else {
        let c = s[i];
        match basic_type_of(c) {
            Some(b) => Ok((wrap_levels(i as nat, b), i + 1)),
            None => if c == 'L' {
                match find_char(s.skip(i + 1), ';') {
                    Some(j) => Ok((wrap_levels(i as nat, BasicTypeModel::Class(s.subrange(i + 1, i + 1 + j))), i + 2 + j)),
                    None => Err(DescriptorError::MissingSemicolon),
                }
            } else if c == '[' {
                parse_descriptor_from(s, i + 1)
            } else {
                Err(DescriptorError::UnexpectedChar(c))
            },
        }
    }
}

/// The descriptor at the front of `s`, and how many characters it takes.
pub open spec fn parse_descriptor(s: Seq<char>) -> Result<(DescriptorModel, int), DescriptorError> {
    parse_descriptor_from(s, 0)
}

/// `s` holds exactly one descriptor.
pub open spec fn parse_single_descriptor(s: Seq<char>) -> Result<DescriptorModel, DescriptorError> {
    match parse_descriptor(s) {
        Ok((d, n)) => if n == s.len() {
            Ok(d)
        } else {
            Err(DescriptorError::Multiple)
        },
        Err(e) => Err(e),
    }
}

pub proof fn lemma_parse_bounds(s: Seq<char>, i: int)
    requires
        0 <= i,
    ensures
        parse_descriptor_from(s, i) matches Ok((_, n)) ==> i < n <= s.len(),
    decreases s.len() - i,
{
    if 0 <= i < s.len() && basic_type_of(s[i]) is None && s[i] == 'L' {
        lemma_find_char(s.skip(i + 1), ';');
    }
    if 0 <= i < s.len() && basic_type_of(s[i]) is None && s[i] == '[' {
        lemma_parse_bounds(s, i + 1);
    }
}

/// The exact descriptor a parse result stands for.
pub open spec fn descriptor_result_matches(r: Result<Descriptor, DescriptorError>, m: Result<DescriptorModel, DescriptorError>) -> bool {
    match (r, m) {
        (Ok(d), Ok(dm)) => d@ == dm,
        (Err(e), Err(em)) => e == em,
        _ => false,
    }
}

fn basic_type_for(c: char) -> (r: Option<BasicType<'static>>)
    ensures
        match r {
            Some(b) => basic_type_of(c) == Some(b@),
            None => basic_type_of(c) is None,
        },
{
    match c {
        'B' => Some(BasicType::Byte),
        'C' => Some(BasicType::Char),
        'D' => Some(BasicType::Double),
        'F' => Some(BasicType::Float),
        'I' => Some(BasicType::Int),
        'J' => Some(BasicType::Long),
        'S' => Some(BasicType::Short),
        'Z' => Some(BasicType::Boolean),
        'V' => Some(BasicType::Void),
        _ => None,
    }
}

fn with_levels<'a>(levels: usize, inner: BasicType<'a>) -> (d: Descriptor<'a>)
    ensures
        d@ == wrap_levels(levels as nat, inner@),
{
    if levels == 0 {
        Descriptor::Single(inner)
    } else {
        Descriptor::Array { levels, inner }
    }
}

impl<'a> Descriptor<'a> {
    /// Consume a Descriptor from a string.  Will set `remaining` to the *remainder* of the string.
    /// On error, `remaining` is left as it was.
    pub fn read_next(remaining: &mut &'a str) -> (r: Result<Descriptor<'a>, DescriptorError>)
        ensures
            match parse_descriptor(old(remaining)@) {
                Ok((d, n)) => r is Ok && r->Ok_0@ == d && final(remaining)@ == old(remaining)@.skip(n),
                Err(e) => r == Err::<Descriptor<'a>, DescriptorError>(e) && final(remaining)@ == old(remaining)@,
            },
    {
        let s: &'a str = *remaining;
        let v = chars_of(s);
        let n = v.len();
        let mut i: usize = 0;
        while i < n
            invariant
                n == v@.len(),
                v@ == s@,
                i <= n,
                parse_descriptor_from(s@, 0) == parse_descriptor_from(s@, i as int),
                *remaining == s,
                s@ == old(remaining)@,
            decreases n - i,
        {
            let c = v[i];
            match basic_type_for(c) {
                Some(b) => {
                    let rest = s.substring_char(i + 1, n);
                    proof { assert(rest@ =~= s@.skip(i + 1)); }
                    *remaining = rest;
                    return Ok(with_levels(i, b));
                },
                None => {},
            }
            if c == 'L' {
                match find_char_from(v.as_slice(), i + 1, ';') {
                    Some(j) => {
                        let name = s.substring_char(i + 1, i + 1 + j);
                        let rest = s.substring_char(i + 2 + j, n);
                        proof { assert(rest@ =~= s@.skip(i + 2 + j)); }
                        *remaining = rest;
                        return Ok(with_levels(i, BasicType::Class(class::Id(name))));
                    },
                    None => {
                        return Err(DescriptorError::MissingSemicolon);
                    },
                }
            } else if c == '[' {
                i = i + 1;
            } else {
                return Err(DescriptorError::UnexpectedChar(c));
            }
        }
        Err(DescriptorError::UnexpectedEnd)
    }

    /// Parses a string that holds exactly one field descriptor.
    pub fn from_str(field: &'a str) -> (r: Result<Descriptor<'a>, DescriptorError>)
        ensures
            descriptor_result_matches(r, parse_single_descriptor(field@)),
    {
        let mut remaining: &'a str = field;
        let next = Self::read_next(&mut remaining);
        match next {
            Ok(d) => {
                proof { lemma_parse_bounds(field@, 0); }
                if remaining.unicode_len() == 0 {
                    Ok(d)
                } else {
                    Err(DescriptorError::Multiple)
                }
            },
            Err(e) => Err(e),
        }
    }
}

} // verus!
