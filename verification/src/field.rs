//! Field descriptors.
//!
//! A field records its name, descriptor, access flags, value type, its
//! identity string, and a pre-decoded `ConstantValue` attribute where the
//! class file carries one. Identity is the triple (declaring-class name,
//! descriptor, name) joined by a separator; two fields are the same field
//! exactly when those triples match.

use vstd::prelude::*;

use crate::classfile::{
    utf8_at, AttrType, ConstantType, FieldInfo, ACC_FINAL, ACC_PRIVATE, ACC_PROTECTED, ACC_PUBLIC,
    ACC_STATIC, ACC_VOLATILE,
};
use crate::codec::{be_u32, be_u64, i32_of_bits, i64_of_bits};
use crate::errors::LinkageError;
use crate::oop::Oop;

verus! {

/// The byte that separates the three parts of a field identity.
pub const ID_SEPARATOR: u8 = 0x3a;

/// The declared type of a field or array element, read off the first byte of
/// its descriptor.
#[derive(Clone, Copy, Debug, PartialEq, Eq, Structural)]
pub enum ValueType {
    Byte,
    Boolean,
    Char,
    Short,
    Int,
    Long,
    Float,
    Double,
    Object,
    Array,
    Void,
    Unknown,
}

/// The descriptor byte to value type mapping of the class-file format.
pub open spec fn spec_value_type_of(b: u8) -> ValueType {
    if b == 0x42 {
        ValueType::Byte
    } else if b == 0x5a {
        ValueType::Boolean
    } else if b == 0x43 {
        ValueType::Char
    } else if b == 0x53 {
        ValueType::Short
    } else if b == 0x49 {
        ValueType::Int
    } else if b == 0x4a {
        ValueType::Long
    } else if b == 0x46 {
        ValueType::Float
    } else if b == 0x44 {
        ValueType::Double
    } else if b == 0x4c {
        ValueType::Object
    } else if b == 0x5b {
        ValueType::Array
    } else if b == 0x56 {
        ValueType::Void
    } else {
        ValueType::Unknown
    }
}

pub fn value_type_of(b: u8) -> (r: ValueType)
    ensures
        r == spec_value_type_of(b),
{
    if b == 0x42 {
        ValueType::Byte
    } else if b == 0x5a {
        ValueType::Boolean
    } else if b == 0x43 {
        ValueType::Char
    } else if b == 0x53 {
        ValueType::Short
    } else if b == 0x49 {
        ValueType::Int
    } else if b == 0x4a {
        ValueType::Long
    } else if b == 0x46 {
        ValueType::Float
    } else if b == 0x44 {
        ValueType::Double
    } else if b == 0x4c {
        ValueType::Object
    } else if b == 0x5b {
        ValueType::Array
    } else if b == 0x56 {
        ValueType::Void
    } else {
        ValueType::Unknown
    }
}

/// A constant value pre-decoded from a `ConstantValue` attribute. String
/// constants keep their modified-UTF-8 bytes and resolve to an interned
/// string object on first access.
#[derive(Clone, Debug)]
pub enum ConstValue {
    Int(i32),
    Long(i64),
    Float(u32),
    Double(u64),
    StringUtf8(Vec<u8>),
}

/// The mathematical shape of a constant value.
pub enum ConstValueV {
    Int(i32),
    Long(i64),
    Float(u32),
    Double(u64),
    Str(Seq<u8>),
}

pub open spec fn const_value_v(c: ConstValue) -> ConstValueV {
    match c {
        ConstValue::Int(v) => ConstValueV::Int(v),
        ConstValue::Long(v) => ConstValueV::Long(v),
        ConstValue::Float(v) => ConstValueV::Float(v),
        ConstValue::Double(v) => ConstValueV::Double(v),
        ConstValue::StringUtf8(v) => ConstValueV::Str(v@),
    }
}

/// What a constant-pool slot decodes to as a field constant, if anything.
pub open spec fn decode_const_at(cp: Seq<ConstantType>, idx: int) -> Option<ConstValueV> {
    if 0 <= idx < cp.len() {
        match cp[idx] {
            ConstantType::Integer { v } => Some(
                ConstValueV::Int(i32_of_bits(be_u32(v[0], v[1], v[2], v[3]))),
            ),
            ConstantType::Long { v } => Some(ConstValueV::Long(i64_of_bits(be_u64(v@)))),
            ConstantType::Float { v } => Some(ConstValueV::Float(be_u32(v[0], v[1], v[2], v[3]))),
            ConstantType::Double { v } => Some(ConstValueV::Double(be_u64(v@))),
            ConstantType::String { string_index } => match utf8_at(cp, string_index as int) {
                Some(s) => Some(ConstValueV::Str(s)),
                None => None,
            },
            _ => None,
        }
    } else {
        None
    }
}

/// Decodes a constant-pool slot as a field constant.
pub fn decode_constant(cp: &Vec<ConstantType>, idx: u16) -> (r: Option<ConstValue>)
    ensures
        match r {
            Some(c) => decode_const_at(cp@, idx as int) == Some(const_value_v(c)),
            None => decode_const_at(cp@, idx as int) is None,
        },
{
    if (idx as usize) >= cp.len() {
        return None;
    }
    match &cp[idx as usize] {
        ConstantType::Integer { v } => {
            let u = crate::codec::u32_from_be(v[0], v[1], v[2], v[3]);
            Some(ConstValue::Int(crate::codec::bits_to_i32(u)))
        },
        ConstantType::Long { v } => {
            let u = crate::codec::u64_from_be(v);
            Some(ConstValue::Long(crate::codec::bits_to_i64(u)))
        },
        ConstantType::Float { v } => Some(
            ConstValue::Float(crate::codec::u32_from_be(v[0], v[1], v[2], v[3])),
        ),
        ConstantType::Double { v } => Some(ConstValue::Double(crate::codec::u64_from_be(v))),
        ConstantType::String { string_index } => match crate::classfile::get_utf8(
            cp,
            *string_index,
        ) {
            Some(s) => Some(ConstValue::StringUtf8(s)),
            None => None,
        },
        _ => None,
    }
}

/// The index carried by the last `ConstantValue` attribute of the sequence,
/// if any; a later attribute overrides an earlier one.
pub open spec fn last_const_attr(attrs: Seq<AttrType>) -> Option<u16>
    decreases attrs.len(),
{
    if attrs.len() == 0 {
        None
    } else {
        match attrs.last() {
            AttrType::ConstantValue { constant_value_index } => Some(constant_value_index),
            _ => last_const_attr(attrs.drop_last()),
        }
    }
}

/// The identity bytes of a field: class name, descriptor and name joined by
/// the separator.
pub open spec fn field_id_bytes(class_name: Seq<u8>, desc: Seq<u8>, name: Seq<u8>) -> Seq<u8> {
    class_name + seq![ID_SEPARATOR] + desc + seq![ID_SEPARATOR] + name
}

/// Field identity is the triple: as long as class names and descriptors do
/// not hold the separator byte (no class-file internal name or field
/// descriptor does), two identity strings are equal exactly when the class
/// names, the descriptors and the field names all match. The construction
/// gives one direction; this gives the other.
pub proof fn lemma_field_id_injective(
    cn1: Seq<u8>,
    d1: Seq<u8>,
    n1: Seq<u8>,
    cn2: Seq<u8>,
    d2: Seq<u8>,
    n2: Seq<u8>,
)
    requires
        !cn1.contains(ID_SEPARATOR),
        !d1.contains(ID_SEPARATOR),
        !cn2.contains(ID_SEPARATOR),
        !d2.contains(ID_SEPARATOR),
        field_id_bytes(cn1, d1, n1) == field_id_bytes(cn2, d2, n2),
    ensures
        cn1 == cn2,
        d1 == d2,
        n1 == n2,
{
    let s1 = field_id_bytes(cn1, d1, n1);
    let s2 = field_id_bytes(cn2, d2, n2);
    let l1 = cn1.len() as int;
    let l2 = cn2.len() as int;
    assert(s1[l1] == ID_SEPARATOR);
    assert(s2[l2] == ID_SEPARATOR);
    if l1 < l2 {
        assert(s2[l1] == cn2[l1]);
        assert(cn2.contains(ID_SEPARATOR));
        assert(false);
    }
    if l2 < l1 {
        assert(s1[l2] == cn1[l2]);
        assert(cn1.contains(ID_SEPARATOR));
        assert(false);
    }
    assert(cn1 =~= cn2) by {
        assert forall|i: int| 0 <= i < l1 implies cn1[i] == cn2[i] by {
            assert(s1[i] == cn1[i]);
            assert(s2[i] == cn2[i]);
        }
    }
    let m1 = d1.len() as int;
    let m2 = d2.len() as int;
    assert(s1[l1 + 1 + m1] == ID_SEPARATOR);
    assert(s2[l1 + 1 + m2] == ID_SEPARATOR);
    if m1 < m2 {
        assert(s2[l1 + 1 + m1] == d2[m1]);
        assert(d2.contains(ID_SEPARATOR));
        assert(false);
    }
    if m2 < m1 {
        assert(s1[l1 + 1 + m2] == d1[m2]);
        assert(d1.contains(ID_SEPARATOR));
        assert(false);
    }
    assert(d1 =~= d2) by {
        assert forall|j: int| 0 <= j < m1 implies d1[j] == d2[j] by {
            assert(s1[l1 + 1 + j] == d1[j]);
            assert(s2[l1 + 1 + j] == d2[j]);
        }
    }
    assert(s1.len() == l1 + 1 + m1 + 1 + n1.len());
    assert(s2.len() == l1 + 1 + m1 + 1 + n2.len());
    assert(n1.len() == n2.len());
    assert(n1 =~= n2) by {
        assert forall|j: int| 0 <= j < n1.len() implies n1[j] == n2[j] by {
            assert(s1[l1 + 1 + m1 + 1 + j] == n1[j]);
            assert(s2[l1 + 1 + m1 + 1 + j] == n2[j]);
        }
    }
}

/// The zero value of a field type: references start null, the wide kinds at
/// their zero, the integral kinds at `Int(0)`.
pub open spec fn zero_of_type(vt: ValueType) -> Oop {
    match vt {
        ValueType::Long => Oop::Long(0),
        ValueType::Float => Oop::Float(0),
        ValueType::Double => Oop::Double(0),
        ValueType::Object => Oop::Null,
        ValueType::Array => Oop::Null,
        _ => Oop::Int(0),
    }
}

#[derive(Clone, Debug)]
pub struct Field {
    pub name: Vec<u8>,
    pub desc: Vec<u8>,
    pub id: Vec<u8>,
    pub acc_flags: u16,
    pub value_type: ValueType,
    pub attr_constant_value: Option<ConstValue>,
}

/// A field descriptor paired with its computed offset within its partition.
#[derive(Clone, Debug)]
pub struct FieldId {
    pub offset: usize,
    pub field: Field,
}

impl Field {
    pub open spec fn spec_name(self) -> Seq<u8> {
        self.name@
    }

    pub open spec fn spec_desc(self) -> Seq<u8> {
        self.desc@
    }

    pub open spec fn spec_id(self) -> Seq<u8> {
        self.id@
    }

    pub open spec fn spec_acc_flags(self) -> u16 {
        self.acc_flags
    }

    /// Builds a field from its class-file record. The name and descriptor
    /// indices must point at Utf8 constants and the descriptor must not be
    /// empty; a `ConstantValue` attribute whose index does not decode is a
    /// linkage error.
    pub fn new(cp: &Vec<ConstantType>, fi: &FieldInfo, class_name: &Vec<u8>) -> (r: Result<
        Field,
        LinkageError,
    >)
        requires
            utf8_at(cp@, fi.name_index as int) is Some,
            utf8_at(cp@, fi.desc_index as int) matches Some(d) && d.len() > 0,
        ensures
            match r {
                Ok(f) => {
                    &&& Some(f.spec_name()) == utf8_at(cp@, fi.name_index as int)
                    &&& Some(f.spec_desc()) == utf8_at(cp@, fi.desc_index as int)
                    &&& f.spec_id() == field_id_bytes(class_name@, f.spec_desc(), f.spec_name())
                    &&& f.spec_acc_flags() == fi.acc_flags
                    &&& f.value_type == spec_value_type_of(f.spec_desc()[0])
                    &&& match last_const_attr(fi.attrs@) {
                        None => f.attr_constant_value is None,
                        Some(idx) => f.attr_constant_value matches Some(c) && decode_const_at(
                            cp@,
                            idx as int,
                        ) == Some(const_value_v(c)),
                    }
                },
                Err(e) => e == LinkageError::BadConstantPoolRef && (last_const_attr(fi.attrs@)
                    matches Some(idx) && decode_const_at(cp@, idx as int) is None),
            },
    {
        let name = match crate::classfile::get_utf8(cp, fi.name_index) {
            Some(v) => v,
            None => {
                proof {
                    assert(false);
                }
                Vec::new()
            },
        };
        let desc = match crate::classfile::get_utf8(cp, fi.desc_index) {
            Some(v) => v,
            None => {
                proof {
                    assert(false);
                }
                Vec::new()
            },
        };
        let value_type = value_type_of(desc[0]);
        let mut id: Vec<u8> = Vec::new();
        append_bytes(&mut id, class_name);
        id.push(ID_SEPARATOR);
        append_bytes(&mut id, &desc);
        id.push(ID_SEPARATOR);
        append_bytes(&mut id, &name);
        proof {
            assert(id@ =~= field_id_bytes(class_name@, desc@, name@));
        }
        let acc_flags = fi.acc_flags;

        let mut cv_index: Option<u16> = None;
        let n = fi.attrs.len();
        let mut i: usize = 0;
        while i < n
            invariant
                i <= n,
                n == fi.attrs@.len(),
                cv_index == last_const_attr(fi.attrs@.take(i as int)),
            decreases n - i,
        {
            match &fi.attrs[i] {
                AttrType::ConstantValue { constant_value_index } => {
                    cv_index = Some(*constant_value_index);
                },
                _ => {},
            }
            proof {
                assert(fi.attrs@.take(i + 1 as int).drop_last() =~= fi.attrs@.take(i as int));
            }
            i = i + 1;
        }
        proof {
            assert(fi.attrs@.take(n as int) =~= fi.attrs@);
        }
        let attr_constant_value = match cv_index {
            None => None,
            Some(idx) => match decode_constant(cp, idx) {
                Some(c) => Some(c),
                None => {
                    return Err(LinkageError::BadConstantPoolRef);
                },
            },
        };

        Ok(Field { name, desc, id, acc_flags, value_type, attr_constant_value })
    }

    /// A copy of the identity bytes.
    pub fn get_id(&self) -> (r: Vec<u8>)
        ensures
            r@ == self.spec_id(),
    {
        crate::classfile::copy_bytes(&self.id)
    }

    pub fn is_public(&self) -> (r: bool)
        ensures
            r == (self.spec_acc_flags() & ACC_PUBLIC == ACC_PUBLIC),
    {
        (self.acc_flags & ACC_PUBLIC) == ACC_PUBLIC
    }

    pub fn is_private(&self) -> (r: bool)
        ensures
            r == (self.spec_acc_flags() & ACC_PRIVATE == ACC_PRIVATE),
    {
        (self.acc_flags & ACC_PRIVATE) == ACC_PRIVATE
    }

    pub fn is_protected(&self) -> (r: bool)
        ensures
            r == (self.spec_acc_flags() & ACC_PROTECTED == ACC_PROTECTED),
    {
        (self.acc_flags & ACC_PROTECTED) == ACC_PROTECTED
    }

    pub fn is_final(&self) -> (r: bool)
        ensures
            r == (self.spec_acc_flags() & ACC_FINAL == ACC_FINAL),
    {
        (self.acc_flags & ACC_FINAL) == ACC_FINAL
    }

    pub fn is_static(&self) -> (r: bool)
        ensures
            r == (self.spec_acc_flags() & ACC_STATIC == ACC_STATIC),
    {
        (self.acc_flags & ACC_STATIC) == ACC_STATIC
    }

    pub fn is_volatile(&self) -> (r: bool)
        ensures
            r == (self.spec_acc_flags() & ACC_VOLATILE == ACC_VOLATILE),
    {
        (self.acc_flags & ACC_VOLATILE) == ACC_VOLATILE
    }

    /// The zero value a field of this type starts with: integral kinds get
    /// `Int(0)`, the wide and floating kinds their zero, references null.
    pub fn get_constant_value(&self) -> (r: Oop)
        requires
            !(self.value_type is Void) && !(self.value_type is Unknown),
        ensures
            r == match self.value_type {
                ValueType::Long => Oop::Long(0),
                ValueType::Float => Oop::Float(0),
                ValueType::Double => Oop::Double(0),
                ValueType::Object | ValueType::Array => Oop::Null,
                _ => Oop::Int(0),
            },
    {
        match self.value_type {
            ValueType::Long => Oop::Long(0),
            ValueType::Float => Oop::Float(0),
            ValueType::Double => Oop::Double(0),
            ValueType::Object => Oop::Null,
            ValueType::Array => Oop::Null,
            _ => Oop::Int(0),
        }
    }

    /// A copy of the pre-decoded `ConstantValue`, if the field carries one.
    pub fn get_attr_constant_value(&self) -> (r: Option<ConstValue>)
        ensures
            match r {
                Some(c) => self.attr_constant_value matches Some(c0) && const_value_v(c)
                    == const_value_v(c0),
                None => self.attr_constant_value is None,
            },
    {
        match &self.attr_constant_value {
            None => None,
            Some(c) => Some(copy_const_value(c)),
        }
    }
}

/// An element-wise copy of a constant value.
pub fn copy_const_value(c: &ConstValue) -> (r: ConstValue)
    ensures
        const_value_v(r) == const_value_v(*c),
{
    match c {
        ConstValue::Int(v) => ConstValue::Int(*v),
        ConstValue::Long(v) => ConstValue::Long(*v),
        ConstValue::Float(v) => ConstValue::Float(*v),
        ConstValue::Double(v) => ConstValue::Double(*v),
        ConstValue::StringUtf8(v) => ConstValue::StringUtf8(crate::classfile::copy_bytes(v)),
    }
}

/// Appends all bytes of `src` to `dst`.
pub fn append_bytes(dst: &mut Vec<u8>, src: &Vec<u8>)
    ensures
        final(dst)@ == old(dst)@ + src@,
{
    let n = src.len();
    let mut i: usize = 0;
    while i < n
        invariant
            i <= n,
            n == src@.len(),
            dst@ == old(dst)@ + src@.subrange(0, i as int),
        decreases n - i,
    {
        dst.push(src[i]);
        proof {
            assert(old(dst)@ + src@.subrange(0, i as int) + seq![src@[i as int]] =~= old(dst)@
                + src@.subrange(0, i + 1 as int));
        }
        i = i + 1;
    }
    proof {
        assert(old(dst)@ + src@.subrange(0, n as int) =~= old(dst)@ + src@);
    }
}

} // verus!
