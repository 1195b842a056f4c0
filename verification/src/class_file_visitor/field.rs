//! [Java SE 7 &sect; 4.5](https://docs.oracle.com/javase/specs/jvms/se7/html/jvms-4.html#jvms-4.5):  field_info as read,
//! with its name and descriptor still indices into the constant pool.

use vstd::prelude::*;
use crate::access_flags::FieldAccessFlags;
use crate::class_file_visitor::attribute::{attribute_at, Attribute};
use crate::io_ext::{be_u16, read_u2, ByteReader, ReadError};

verus! {

/// [Java SE 7 &sect; 4.5](https://docs.oracle.com/javase/specs/jvms/se7/html/jvms-4.html#jvms-4.5):  field_info, minus the
/// attributes array.
#[derive(Clone, Debug)]
pub struct Field {
    pub access_flags: FieldAccessFlags,
    pub name_index: u16,
    pub descriptor_index: u16,
    pub attributes_count: u16,
    /// Set from the attributes, once they are read.
    pub deprecated: bool,
    /// Set from the attributes, once they are read.
    pub rust_const_value: Option<String>,
}

/// A field_info at the front of `s`, without its attributes: its access flags (unknown bits
/// dropped), name index, descriptor index and attribute count, then what follows them.
pub open spec fn field_info_at(s: Seq<u8>) -> Result<((u16, u16, u16, u16), Seq<u8>), ReadError> {
    if s.len() < 8 {
        Err(ReadError::UnexpectedEof)
    } else {
        Ok(((be_u16(s) & FieldAccessFlags::known_bits(), be_u16(s.skip(2)), be_u16(s.skip(4)), be_u16(s.skip(6))), s.skip(8)))
    }
}

/// What follows `n` attribute_infos at the front of `s`.
pub open spec fn attributes_end(s: Seq<u8>, n: nat) -> Result<Seq<u8>, ReadError>
    decreases n,
{
    if n == 0 {
        Ok(s)
    } else {
        match attribute_at(s) {
            Ok((_, _, rest)) => attributes_end(rest, (n - 1) as nat),
            Err(e) => Err(e),
        }
    }
}

/// What follows `n` field_infos, each with its attributes, at the front of `s`.
pub open spec fn fields_end(s: Seq<u8>, n: nat) -> Result<Seq<u8>, ReadError>
    decreases n,
{
    if n == 0 {
        Ok(s)
    } else {
        match field_info_at(s) {
            Ok((f, rest)) => match attributes_end(rest, f.3 as nat) {
                Ok(after) => fields_end(after, (n - 1) as nat),
                Err(e) => Err(e),
            },
            Err(e) => Err(e),
        }
    }
}

/// What follows a class's fields: their `u2` count, then that many field_infos.
pub open spec fn field_list_end(s: Seq<u8>) -> Result<Seq<u8>, ReadError> {
    if s.len() < 2 {
        Err(ReadError::UnexpectedEof)
    } else {
        fields_end(s.skip(2), be_u16(s) as nat)
    }
}

/// A field_info as plain values.
pub struct FieldInfoModel {
    pub access_flags: u16,
    pub name_index: u16,
    pub descriptor_index: u16,
    pub attributes_count: u16,
    pub deprecated: bool,
    pub rust_const_value: Option<Seq<char>>,
}

/// An attribute_info as plain values.
pub struct AttributeModel {
    pub name_index: u16,
    pub length: u32,
    pub info: Seq<u8>,
}

/// What a field visitor is handed: a field with its index, or an attribute with the indices of
/// its field and of itself.
pub enum FieldVisitModel {
    Field(u16, FieldInfoModel),
    Attribute(u16, u16, AttributeModel),
}

/// A field as plain values.
pub open spec fn field_model(f: Field) -> FieldInfoModel {
    FieldInfoModel {
        access_flags: f.access_flags.bits_spec(),
        name_index: f.name_index,
        descriptor_index: f.descriptor_index,
        attributes_count: f.attributes_count,
        deprecated: f.deprecated,
        rust_const_value: match f.rust_const_value { Some(v) => Some(v@), None => None },
    }
}

/// An attribute as plain values.
pub open spec fn attribute_model(a: Attribute) -> AttributeModel {
    AttributeModel { name_index: a.attribute_name_index, length: a.attribute_length, info: a.info@ }
}

/// [Java SE 7 &sect; 4.5](https://docs.oracle.com/javase/specs/jvms/se7/html/jvms-4.html#jvms-4.5):  Visit a field_info.
///
/// `events` is what the visitor has been handed so far: each call adds what it is handed at the end.
pub trait Visitor {
    spec fn events(&self) -> Seq<FieldVisitModel>;

    fn on_field(&mut self, index: u16, field: Field)
        ensures final(self).events() == old(self).events().push(FieldVisitModel::Field(index, field_model(field)));
    fn on_field_attribute(&mut self, field_index: u16, attribute_index: u16, attribute: Attribute)
        ensures final(self).events() == old(self).events().push(FieldVisitModel::Attribute(field_index, attribute_index, attribute_model(attribute)));
}

/// What a field visitor is handed, kept as it is.
pub enum FieldVisit {
    Field(u16, Field),
    Attribute(u16, u16, Attribute),
}

/// A visit as plain values.
pub open spec fn visit_model(v: FieldVisit) -> FieldVisitModel {
    match v {
        FieldVisit::Field(i, f) => FieldVisitModel::Field(i, field_model(f)),
        FieldVisit::Attribute(i, j, a) => FieldVisitModel::Attribute(i, j, attribute_model(a)),
    }
}

/// The models of a list of visits.
pub open spec fn visits_model(v: Seq<FieldVisit>) -> Seq<FieldVisitModel> {
    v.map_values(|e: FieldVisit| visit_model(e))
}

/// A list that keeps every field and attribute it is handed, in order.
impl Visitor for Vec<FieldVisit> {
    open spec fn events(&self) -> Seq<FieldVisitModel> {
        visits_model(self@)
    }

    fn on_field(&mut self, index: u16, field: Field) {
        let ghost m = FieldVisitModel::Field(index, field_model(field));
        self.push(FieldVisit::Field(index, field));
        assert(visits_model(self@) =~= visits_model(old(self)@).push(m));
    }

    fn on_field_attribute(&mut self, field_index: u16, attribute_index: u16, attribute: Attribute) {
        let ghost m = FieldVisitModel::Attribute(field_index, attribute_index, attribute_model(attribute));
        self.push(FieldVisit::Attribute(field_index, attribute_index, attribute));
        assert(visits_model(self@) =~= visits_model(old(self)@).push(m));
    }
}

/// The field a field_info at the front of the bytes is read as (see `field_info_at`).
pub open spec fn read_field_model(f: (u16, u16, u16, u16)) -> FieldInfoModel {
    FieldInfoModel {
        access_flags: f.0,
        name_index: f.1,
        descriptor_index: f.2,
        attributes_count: f.3,
        deprecated: false,
        rust_const_value: None,
    }
}

/// The visits while reading `n` attributes of field `fi`, numbered from `ai`, up to the one that
/// cannot be read, if there is one.
pub open spec fn attributes_walk(s: Seq<u8>, fi: u16, ai: int, n: nat) -> Seq<FieldVisitModel>
    decreases n,
{
    if n == 0 {
        Seq::empty()
    } else {
        match attribute_at(s) {
            Ok((name, info, rest)) => seq![FieldVisitModel::Attribute(fi, ai as u16, AttributeModel { name_index: name, length: info.len() as u32, info })]
                + attributes_walk(rest, fi, ai + 1, (n - 1) as nat),
            Err(_) => Seq::empty(),
        }
    }
}

/// The visits while reading `n` fields numbered from `fi`: each field, then its attributes, up
/// to what cannot be read, if anything.
pub open spec fn fields_walk(s: Seq<u8>, fi: int, n: nat) -> Seq<FieldVisitModel>
    decreases n,
{
    if n == 0 {
        Seq::empty()
    } else {
        match field_info_at(s) {
            Ok((f, rest)) => seq![FieldVisitModel::Field(fi as u16, read_field_model(f))]
                + attributes_walk(rest, fi as u16, 0, f.3 as nat)
                + match attributes_end(rest, f.3 as nat) {
                    Ok(after) => fields_walk(after, fi + 1, (n - 1) as nat),
                    Err(_) => Seq::empty(),
                },
            Err(_) => Seq::empty(),
        }
    }
}

/// The visits while reading a class's fields: none unless the count can be read, then those of
/// `fields_walk`.
pub open spec fn field_list_events(s: Seq<u8>) -> Seq<FieldVisitModel> {
    if s.len() < 2 {
        Seq::empty()
    } else {
        fields_walk(s.skip(2), 0, be_u16(s) as nat)
    }
}

impl Field {
    /// Reads a field_info up to its attributes, which are left to be read.
    pub fn read_except_attributes(read: &mut ByteReader) -> (r: Result<Self, ReadError>)
        ensures
            match field_info_at(old(read).rest()) {
                Ok((f, rest)) => r is Ok
                    && r->Ok_0.access_flags.bits_spec() == f.0
                    && r->Ok_0.name_index == f.1
                    && r->Ok_0.descriptor_index == f.2
                    && r->Ok_0.attributes_count == f.3
                    && !r->Ok_0.deprecated
                    && r->Ok_0.rust_const_value is None
                    && final(read).rest() == rest,
                Err(e) => r == Err::<Self, ReadError>(e),
            },
    {
        let ghost s = read.rest();
        let access_flags = FieldAccessFlags::read(read)?;
        let name_index = read_u2(read)?;
        let descriptor_index = read_u2(read)?;
        let attributes_count = read_u2(read)?;
        proof {
            assert(s.skip(2).skip(2) =~= s.skip(4));
            assert(s.skip(4).skip(2) =~= s.skip(6));
            assert(s.skip(6).skip(2) =~= s.skip(8));
        }
        Ok(Self { access_flags, name_index, descriptor_index, attributes_count, deprecated: false, rust_const_value: None })
    }

    /// Reads a class's fields, handing each field and then each of its attributes to `visitor`
    /// as they are read; on an error, what was read before it has been visited.
    pub fn read_list_visitor<V: Visitor>(read: &mut ByteReader, visitor: &mut V) -> (r: Result<(), ReadError>)
        ensures
            match field_list_end(old(read).rest()) {
                Ok(rest) => r is Ok && final(read).rest() == rest,
                Err(e) => r == Err::<(), ReadError>(e),
            },
            final(visitor).events() == old(visitor).events() + field_list_events(old(read).rest()),
    {
        let ghost s = read.rest();
        let ghost ev0 = visitor.events();
        let field_count = match read_u2(read) {
            Ok(c) => c,
            Err(e) => {
                assert(ev0 + field_list_events(s) =~= ev0);
                return Err(e);
            },
        };
        let mut field_index: u16 = 0;
        while field_index < field_count
            invariant
                s.len() >= 2,
                s == old(read).rest(),
                ev0 == old(visitor).events(),
                field_count == be_u16(s),
                field_index <= field_count,
                field_list_end(s) == fields_end(read.rest(), (field_count - field_index) as nat),
                ev0 + field_list_events(s) == visitor.events() + fields_walk(read.rest(), field_index as int, (field_count - field_index) as nat),
            decreases field_count - field_index,
        {
            let ghost before = read.rest();
            let ghost ev1 = visitor.events();
            let field = match Field::read_except_attributes(read) {
                Ok(f) => f,
                Err(e) => {
                    assert(fields_end(before, (field_count - field_index) as nat) == Err::<Seq<u8>, ReadError>(e));
                    assert(ev1 + fields_walk(before, field_index as int, (field_count - field_index) as nat) =~= ev1);
                    return Err(e);
                },
            };
            let ghost n = field.attributes_count;
            let ghost tail = match attributes_end(read.rest(), n as nat) {
                Ok(after) => fields_walk(after, field_index + 1, (field_count - field_index - 1) as nat),
                Err(_) => Seq::<FieldVisitModel>::empty(),
            };
            let copy = Field {
                access_flags: field.access_flags,
                name_index: field.name_index,
                descriptor_index: field.descriptor_index,
                attributes_count: field.attributes_count,
                deprecated: false,
                rust_const_value: None,
            };
            visitor.on_field(field_index, copy);
            proof {
                let f = field_info_at(before)->Ok_0.0;
                assert(field_model(copy) == read_field_model(f));
                assert(ev1 + fields_walk(before, field_index as int, (field_count - field_index) as nat)
                    =~= visitor.events() + attributes_walk(read.rest(), field_index, 0, n as nat) + tail);
            }
            let mut attribute_index: u16 = 0;
            while attribute_index < field.attributes_count
                invariant
                    s.len() >= 2,
                    s == old(read).rest(),
                    ev0 == old(visitor).events(),
                    field_count == be_u16(s),
                    field_index < field_count,
                    n == field.attributes_count,
                    attribute_index <= field.attributes_count,
                    field_list_end(s) == match attributes_end(read.rest(), (field.attributes_count - attribute_index) as nat) {
                        Ok(after) => fields_end(after, (field_count - field_index - 1) as nat),
                        Err(e) => Err(e),
                    },
                    tail == match attributes_end(read.rest(), (n - attribute_index) as nat) {
                        Ok(after) => fields_walk(after, field_index + 1, (field_count - field_index - 1) as nat),
                        Err(_) => Seq::<FieldVisitModel>::empty(),
                    },
                    ev0 + field_list_events(s) == visitor.events() + attributes_walk(read.rest(), field_index, attribute_index as int, (n - attribute_index) as nat) + tail,
                decreases field.attributes_count - attribute_index,
            {
                let ghost before = read.rest();
                let ghost ev2 = visitor.events();
                let attribute = match Attribute::read(read) {
                    Ok(a) => a,
                    Err(e) => {
                        assert(attributes_end(before, (field.attributes_count - attribute_index) as nat) == Err::<Seq<u8>, ReadError>(e));
                        assert(ev2 + attributes_walk(before, field_index, attribute_index as int, (n - attribute_index) as nat) + tail =~= ev2);
                        return Err(e);
                    },
                };
                let ghost am = attribute_model(attribute);
                visitor.on_field_attribute(field_index, attribute_index, attribute);
                proof {
                    assert(ev2 + attributes_walk(before, field_index, attribute_index as int, (n - attribute_index) as nat) + tail
                        =~= visitor.events() + attributes_walk(read.rest(), field_index, attribute_index + 1, (n - attribute_index - 1) as nat) + tail);
                }
                attribute_index = attribute_index + 1;
            }
            proof {
                assert(attributes_walk(read.rest(), field_index, attribute_index as int, 0) =~= Seq::<FieldVisitModel>::empty());
                assert(visitor.events() + Seq::<FieldVisitModel>::empty() + tail =~= visitor.events() + tail);
            }
            field_index = field_index + 1;
        }
        assert(visitor.events() + Seq::<FieldVisitModel>::empty() =~= visitor.events());
        Ok(())
    }
}

} // verus!
