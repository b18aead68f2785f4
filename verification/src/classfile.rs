//! The class-file decoder.
//!
//! Takes an immutable byte buffer and produces the class-file syntax tree:
//! magic check, version, tag-dispatched constant pool, access flags, this and
//! super indices, interfaces, fields, methods, and class-level attributes.
//! `Long` and `Double` constants occupy two pool indices; the second holds a
//! phantom entry that must never be dereferenced. All failures surface as
//! `ClassFormat` values; recovery is the caller's responsibility.

use vstd::prelude::*;

use crate::codec::{be_u16, be_u32};
use crate::errors::ClassFormat;

verus! {

pub const ACC_PUBLIC: u16 = 0x0001;

pub const ACC_PRIVATE: u16 = 0x0002;

pub const ACC_PROTECTED: u16 = 0x0004;

pub const ACC_STATIC: u16 = 0x0008;

pub const ACC_FINAL: u16 = 0x0010;

pub const ACC_SYNCHRONIZED: u16 = 0x0020;

pub const ACC_VOLATILE: u16 = 0x0040;

pub const ACC_NATIVE: u16 = 0x0100;

pub const ACC_INTERFACE: u16 = 0x0200;

pub const ACC_ABSTRACT: u16 = 0x0400;

/// One constant-pool entry. `Phantom` stands at index 0 and in the unusable
/// second slot after each `Long` or `Double`.
#[derive(Clone, Debug)]
pub enum ConstantType {
    Phantom,
    Utf8 { bytes: Vec<u8> },
    Integer { v: [u8; 4] },
    Float { v: [u8; 4] },
    Long { v: [u8; 8] },
    Double { v: [u8; 8] },
    Class { name_index: u16 },
    String { string_index: u16 },
    FieldRef { class_index: u16, name_and_type_index: u16 },
    MethodRef { class_index: u16, name_and_type_index: u16 },
    InterfaceMethodRef { class_index: u16, name_and_type_index: u16 },
    NameAndType { name_index: u16, desc_index: u16 },
    MethodHandle { ref_kind: u8, ref_index: u16 },
    MethodType { desc_index: u16 },
    InvokeDynamic { bootstrap_method_attr_index: u16, name_and_type_index: u16 },
}

/// An entry of a `Code` attribute's exception table.
#[derive(Clone, Copy, Debug)]
pub struct ExceptionEntry {
    pub start_pc: u16,
    pub end_pc: u16,
    pub handler_pc: u16,
    pub catch_type: u16,
}

#[derive(Clone, Copy, Debug)]
pub struct LineNumberEntry {
    pub start_pc: u16,
    pub line_number: u16,
}

/// The body of a `Code` attribute.
#[derive(Clone, Debug)]
pub struct CodeAttr {
    pub max_stack: u16,
    pub max_locals: u16,
    pub code: Vec<u8>,
    pub exceptions: Vec<ExceptionEntry>,
    pub line_number_table: Vec<LineNumberEntry>,
}

/// A decoded attribute. Attributes this core does not interpret keep their
/// raw payload.
#[derive(Clone, Debug)]
pub enum AttrType {
    ConstantValue { constant_value_index: u16 },
    Code(CodeAttr),
    SourceFile { source_file_index: u16 },
    Raw { name_index: u16, payload: Vec<u8> },
}

#[derive(Clone, Debug)]
pub struct FieldInfo {
    pub acc_flags: u16,
    pub name_index: u16,
    pub desc_index: u16,
    pub attrs: Vec<AttrType>,
}

#[derive(Clone, Debug)]
pub struct MethodInfo {
    pub acc_flags: u16,
    pub name_index: u16,
    pub desc_index: u16,
    pub attrs: Vec<AttrType>,
}

/// The decoded class file.
#[derive(Clone, Debug)]
pub struct ClassFile {
    pub minor_version: u16,
    pub major_version: u16,
    pub cp: Vec<ConstantType>,
    pub acc_flags: u16,
    pub this_class: u16,
    pub super_class: u16,
    pub interfaces: Vec<u16>,
    pub fields: Vec<FieldInfo>,
    pub methods: Vec<MethodInfo>,
    pub attrs: Vec<AttrType>,
}

/// Two constant-pool entries carry the same data.
pub open spec fn cp_entry_eqv(a: ConstantType, b: ConstantType) -> bool {
    match (a, b) {
        (ConstantType::Phantom, ConstantType::Phantom) => true,
        (ConstantType::Utf8 { bytes: x }, ConstantType::Utf8 { bytes: y }) => x@ == y@,
        (ConstantType::Integer { v: x }, ConstantType::Integer { v: y }) => x == y,
        (ConstantType::Float { v: x }, ConstantType::Float { v: y }) => x == y,
        (ConstantType::Long { v: x }, ConstantType::Long { v: y }) => x == y,
        (ConstantType::Double { v: x }, ConstantType::Double { v: y }) => x == y,
        (ConstantType::Class { name_index: x }, ConstantType::Class { name_index: y }) => x == y,
        (ConstantType::String { string_index: x }, ConstantType::String { string_index: y }) => x
            == y,
        (
            ConstantType::FieldRef { class_index: x1, name_and_type_index: x2 },
            ConstantType::FieldRef { class_index: y1, name_and_type_index: y2 },
        ) => x1 == y1 && x2 == y2,
        (
            ConstantType::MethodRef { class_index: x1, name_and_type_index: x2 },
            ConstantType::MethodRef { class_index: y1, name_and_type_index: y2 },
        ) => x1 == y1 && x2 == y2,
        (
            ConstantType::InterfaceMethodRef { class_index: x1, name_and_type_index: x2 },
            ConstantType::InterfaceMethodRef { class_index: y1, name_and_type_index: y2 },
        ) => x1 == y1 && x2 == y2,
        (
            ConstantType::NameAndType { name_index: x1, desc_index: x2 },
            ConstantType::NameAndType { name_index: y1, desc_index: y2 },
        ) => x1 == y1 && x2 == y2,
        (
            ConstantType::MethodHandle { ref_kind: x1, ref_index: x2 },
            ConstantType::MethodHandle { ref_kind: y1, ref_index: y2 },
        ) => x1 == y1 && x2 == y2,
        (
            ConstantType::MethodType { desc_index: x },
            ConstantType::MethodType { desc_index: y },
        ) => x == y,
        (
            ConstantType::InvokeDynamic { bootstrap_method_attr_index: x1, name_and_type_index: x2 },
            ConstantType::InvokeDynamic { bootstrap_method_attr_index: y1, name_and_type_index: y2 },
        ) => x1 == y1 && x2 == y2,
        _ => false,
    }
}

/// The Utf8 bytes at a constant-pool index, if that entry is a Utf8 entry.
pub open spec fn utf8_at(cp: Seq<ConstantType>, idx: int) -> Option<Seq<u8>> {
    if 0 <= idx < cp.len() {
        match cp[idx] {
            ConstantType::Utf8 { bytes } => Some(bytes@),
            _ => None,
        }
    } else {
        None
    }
}

/// Looks a Utf8 constant up and hands back a copy of its bytes.
pub fn get_utf8(cp: &Vec<ConstantType>, idx: u16) -> (r: Option<Vec<u8>>)
    ensures
        match r {
            Some(v) => utf8_at(cp@, idx as int) == Some(v@),
            None => utf8_at(cp@, idx as int) is None,
        },
{
    if (idx as usize) < cp.len() {
        match &cp[idx as usize] {
            ConstantType::Utf8 { bytes } => Some(copy_bytes(bytes)),
            _ => None,
        }
    } else {
        None
    }
}

/// An element-wise copy of a byte vector.
pub fn copy_bytes(v: &Vec<u8>) -> (r: Vec<u8>)
    ensures
        r@ == v@,
{
    let mut r: Vec<u8> = Vec::with_capacity(v.len());
    let mut i: usize = 0;
    while i < v.len()
        invariant
            i <= v@.len(),
            r@ == v@.subrange(0, i as int),
        decreases v@.len() - i,
    {
        r.push(v[i]);
        proof {
            assert(r@ =~= v@.subrange(0, i + 1 as int));
        }
        i = i + 1;
    }
    proof {
        assert(r@ =~= v@);
    }
    r
}

/// Element-wise equality of a byte vector and a byte slice.
pub fn bytes_eq(a: &Vec<u8>, b: &[u8]) -> (r: bool)
    ensures
        r == (a@ == b@),
{
    if a.len() != b.len() {
        proof {
            assert(a@.len() != b@.len());
        }
        return false;
    }
    let n = a.len();
    let mut i: usize = 0;
    while i < n
        invariant
            i <= n,
            n == a@.len(),
            n == b@.len(),
            forall|j: int| 0 <= j < i ==> a@[j] == b@[j],
        decreases n - i,
    {
        if a[i] != b[i] {
            return false;
        }
        i = i + 1;
    }
    proof {
        assert(a@ =~= b@);
    }
    true
}

/// A cursor over the input bytes.
pub struct Reader<'a> {
    pub buf: &'a Vec<u8>,
    pub pos: usize,
}

impl<'a> Reader<'a> {
    pub fn new(buf: &'a Vec<u8>) -> (r: Reader<'a>)
        ensures
            r.buf == buf,
            r.pos == 0,
    {
        Reader { buf, pos: 0 }
    }

    pub fn read_u8(&mut self) -> (r: Result<u8, ClassFormat>)
        ensures
            final(self).buf == old(self).buf,
            match r {
                Ok(b) => old(self).pos + 1 <= old(self).buf@.len() && b == old(self).buf@[old(
                    self,
                ).pos as int] && final(self).pos == old(self).pos + 1,
                Err(e) => e == ClassFormat::Truncated && old(self).pos + 1 > old(
                    self,
                ).buf@.len() && final(self).pos == old(self).pos,
            },
    {
        if self.pos < self.buf.len() {
            let b = self.buf[self.pos];
            self.pos = self.pos + 1;
            Ok(b)
        } else {
            Err(ClassFormat::Truncated)
        }
    }

    pub fn read_u16(&mut self) -> (r: Result<u16, ClassFormat>)
        ensures
            final(self).buf == old(self).buf,
            match r {
                Ok(v) => old(self).pos + 2 <= old(self).buf@.len() && v == be_u16(
                    old(self).buf@[old(self).pos as int],
                    old(self).buf@[old(self).pos + 1],
                ) && final(self).pos == old(self).pos + 2,
                Err(e) => e == ClassFormat::Truncated && old(self).pos + 2 > old(
                    self,
                ).buf@.len() && final(self).pos == old(self).pos,
            },
    {
        if 2 <= self.buf.len() && self.pos <= self.buf.len() - 2 {
            let b0 = self.buf[self.pos];
            let b1 = self.buf[self.pos + 1];
            self.pos = self.pos + 2;
            Ok(crate::codec::u16_from_be(b0, b1))
        } else {
            Err(ClassFormat::Truncated)
        }
    }

    pub fn read_u32(&mut self) -> (r: Result<u32, ClassFormat>)
        ensures
            final(self).buf == old(self).buf,
            match r {
                Ok(v) => old(self).pos + 4 <= old(self).buf@.len() && v == be_u32(
                    old(self).buf@[old(self).pos as int],
                    old(self).buf@[old(self).pos + 1],
                    old(self).buf@[old(self).pos + 2],
                    old(self).buf@[old(self).pos + 3],
                ) && final(self).pos == old(self).pos + 4,
                Err(e) => e == ClassFormat::Truncated && old(self).pos + 4 > old(
                    self,
                ).buf@.len() && final(self).pos == old(self).pos,
            },
    {
        if 4 <= self.buf.len() && self.pos <= self.buf.len() - 4 {
            let b0 = self.buf[self.pos];
            let b1 = self.buf[self.pos + 1];
            let b2 = self.buf[self.pos + 2];
            let b3 = self.buf[self.pos + 3];
            self.pos = self.pos + 4;
            Ok(crate::codec::u32_from_be(b0, b1, b2, b3))
        } else {
            Err(ClassFormat::Truncated)
        }
    }

    /// Reads `n` bytes as a fresh vector.
    pub fn read_bytes(&mut self, n: usize) -> (r: Result<Vec<u8>, ClassFormat>)
        ensures
            final(self).buf == old(self).buf,
            match r {
                Ok(v) => old(self).pos + n <= old(self).buf@.len() && v@ == old(
                    self,
                ).buf@.subrange(old(self).pos as int, old(self).pos + n) && final(self).pos == old(
                    self,
                ).pos + n,
                Err(e) => e == ClassFormat::Truncated && old(self).pos + n > old(
                    self,
                ).buf@.len() && final(self).pos == old(self).pos,
            },
    {
        if n <= self.buf.len() && self.pos <= self.buf.len() - n {
            let start = self.pos;
            let mut v: Vec<u8> = Vec::with_capacity(n);
            let mut i: usize = 0;
            while i < n
                invariant
                    i <= n,
                    start + n <= self.buf@.len(),
                    start + n <= usize::MAX,
                    v@ == self.buf@.subrange(start as int, start + i),
                decreases n - i,
            {
                v.push(self.buf[start + i]);
                proof {
                    assert(v@ =~= self.buf@.subrange(start as int, start + i + 1));
                }
                i = i + 1;
            }
            self.pos = start + n;
            Ok(v)
        } else {
            Err(ClassFormat::Truncated)
        }
    }

    pub fn read_quad(&mut self) -> (r: Result<[u8; 4], ClassFormat>)
        ensures
            final(self).buf == old(self).buf,
            match r {
                Ok(v) => old(self).pos + 4 <= old(self).buf@.len() && v@ == old(
                    self,
                ).buf@.subrange(old(self).pos as int, old(self).pos + 4) && final(self).pos == old(
                    self,
                ).pos + 4,
                Err(e) => e == ClassFormat::Truncated && old(self).pos + 4 > old(
                    self,
                ).buf@.len() && final(self).pos == old(self).pos,
            },
    {
        if 4 <= self.buf.len() && self.pos <= self.buf.len() - 4 {
            let p = self.pos;
            let v = [self.buf[p], self.buf[p + 1], self.buf[p + 2], self.buf[p + 3]];
            self.pos = p + 4;
            proof {
                assert(v@ =~= old(self).buf@.subrange(p as int, p + 4));
            }
            Ok(v)
        } else {
            Err(ClassFormat::Truncated)
        }
    }

    pub fn read_oct(&mut self) -> (r: Result<[u8; 8], ClassFormat>)
        ensures
            final(self).buf == old(self).buf,
            match r {
                Ok(v) => old(self).pos + 8 <= old(self).buf@.len() && v@ == old(
                    self,
                ).buf@.subrange(old(self).pos as int, old(self).pos + 8) && final(self).pos == old(
                    self,
                ).pos + 8,
                Err(e) => e == ClassFormat::Truncated && old(self).pos + 8 > old(
                    self,
                ).buf@.len() && final(self).pos == old(self).pos,
            },
    {
        if 8 <= self.buf.len() && self.pos <= self.buf.len() - 8 {
            let p = self.pos;
            let v = [
                self.buf[p],
                self.buf[p + 1],
                self.buf[p + 2],
                self.buf[p + 3],
                self.buf[p + 4],
                self.buf[p + 5],
                self.buf[p + 6],
                self.buf[p + 7],
            ];
            self.pos = p + 8;
            proof {
                assert(v@ =~= old(self).buf@.subrange(p as int, p + 8));
            }
            Ok(v)
        } else {
            Err(ClassFormat::Truncated)
        }
    }

    /// Advances over `n` bytes without keeping them.
    pub fn skip(&mut self, n: usize) -> (r: Result<(), ClassFormat>)
        ensures
            final(self).buf == old(self).buf,
            match r {
                Ok(_) => old(self).pos + n <= old(self).buf@.len() && final(self).pos == old(
                    self,
                ).pos + n,
                Err(e) => e == ClassFormat::Truncated && old(self).pos + n > old(
                    self,
                ).buf@.len() && final(self).pos == old(self).pos,
            },
    {
        if n <= self.buf.len() && self.pos <= self.buf.len() - n {
            self.pos = self.pos + n;
            Ok(())
        } else {
            Err(ClassFormat::Truncated)
        }
    }
}

/// Where a constant pool that starts at `pos` with `have` slots already
/// filled ends, if its `count` slots parse: each tag consumes its exact
/// span, a `Long` or `Double` takes two slots and must leave room for its
/// phantom, and an unknown tag or a truncated span parses nowhere.
pub open spec fn cp_end(buf: Seq<u8>, pos: int, have: nat, count: nat) -> Option<int>
    decreases count - have,
{
    if have >= count {
        Some(pos)
    } else if pos + 1 > buf.len() {
        None
    } else {
        let tag = buf[pos];
        if tag == 1 {
            if pos + 3 > buf.len() {
                None
            } else {
                let len = be_u16(buf[pos + 1], buf[pos + 2]) as int;
                if pos + 3 + len > buf.len() {
                    None
                } else {
                    cp_end(buf, pos + 3 + len, have + 1, count)
                }
            }
        } else if tag == 3 || tag == 4 {
            if pos + 5 > buf.len() {
                None
            } else {
                cp_end(buf, pos + 5, have + 1, count)
            }
        } else if tag == 5 || tag == 6 {
            if pos + 9 > buf.len() {
                None
            } else if have + 1 >= count {
                None
            } else {
                cp_end(buf, pos + 9, have + 2, count)
            }
        } else if tag == 7 || tag == 8 || tag == 16 {
            if pos + 3 > buf.len() {
                None
            } else {
                cp_end(buf, pos + 3, have + 1, count)
            }
        } else if tag == 9 || tag == 10 || tag == 11 || tag == 12 || tag == 18 {
            if pos + 5 > buf.len() {
                None
            } else {
                cp_end(buf, pos + 5, have + 1, count)
            }
        } else if tag == 15 {
            if pos + 4 > buf.len() {
                None
            } else {
                cp_end(buf, pos + 4, have + 1, count)
            }
        } else {
            None
        }
    }
}

/// Parses the constant pool: `count` slots, index 0 and the slot after each
/// `Long` or `Double` filled with a phantom entry. It succeeds exactly when
/// the declared count is positive and the `count` slots span well-formed
/// entries within the buffer, and it ends exactly where that span ends.
pub fn parse_constant_pool(rd: &mut Reader<'_>, count: u16) -> (r: Result<
    Vec<ConstantType>,
    ClassFormat,
>)
    ensures
        final(rd).buf == old(rd).buf,
        r matches Ok(v) ==> v@.len() == count as int && cp_end(
            old(rd).buf@,
            old(rd).pos as int,
            1,
            count as nat,
        ) == Some(final(rd).pos as int),
        r is Ok <==> count > 0 && cp_end(old(rd).buf@, old(rd).pos as int, 1, count as nat)
            is Some,
{
    if count == 0 {
        return Err(ClassFormat::BadIndex);
    }
    let mut v: Vec<ConstantType> = Vec::with_capacity(count as usize);
    v.push(ConstantType::Phantom);
    while v.len() < count as usize
        invariant
            1 <= v@.len() <= count as int,
            rd.buf == old(rd).buf,
            cp_end(old(rd).buf@, old(rd).pos as int, 1, count as nat) == cp_end(
                rd.buf@,
                rd.pos as int,
                v@.len() as nat,
                count as nat,
            ),
        decreases count as int - v@.len(),
    {
        let tag = rd.read_u8()?;
        if tag == 1 {
            let len = rd.read_u16()?;
            let bytes = rd.read_bytes(len as usize)?;
            v.push(ConstantType::Utf8 { bytes });
        } else if tag == 3 {
            let q = rd.read_quad()?;
            v.push(ConstantType::Integer { v: q });
        } else if tag == 4 {
            let q = rd.read_quad()?;
            v.push(ConstantType::Float { v: q });
        } else if tag == 5 {
            let q = rd.read_oct()?;
            if v.len() >= count as usize - 1 {
                return Err(ClassFormat::BadIndex);
            }
            v.push(ConstantType::Long { v: q });
            v.push(ConstantType::Phantom);
        } else if tag == 6 {
            let q = rd.read_oct()?;
            if v.len() >= count as usize - 1 {
                return Err(ClassFormat::BadIndex);
            }
            v.push(ConstantType::Double { v: q });
            v.push(ConstantType::Phantom);
        } else if tag == 7 {
            let name_index = rd.read_u16()?;
            v.push(ConstantType::Class { name_index });
        } else if tag == 8 {
            let string_index = rd.read_u16()?;
            v.push(ConstantType::String { string_index });
        } else if tag == 9 {
            let class_index = rd.read_u16()?;
            let name_and_type_index = rd.read_u16()?;
            v.push(ConstantType::FieldRef { class_index, name_and_type_index });
        } else if tag == 10 {
            let class_index = rd.read_u16()?;
            let name_and_type_index = rd.read_u16()?;
            v.push(ConstantType::MethodRef { class_index, name_and_type_index });
        } else if tag == 11 {
            let class_index = rd.read_u16()?;
            let name_and_type_index = rd.read_u16()?;
            v.push(ConstantType::InterfaceMethodRef { class_index, name_and_type_index });
        } else if tag == 12 {
            let name_index = rd.read_u16()?;
            let desc_index = rd.read_u16()?;
            v.push(ConstantType::NameAndType { name_index, desc_index });
        } else if tag == 15 {
            let ref_kind = rd.read_u8()?;
            let ref_index = rd.read_u16()?;
            v.push(ConstantType::MethodHandle { ref_kind, ref_index });
        } else if tag == 16 {
            let desc_index = rd.read_u16()?;
            v.push(ConstantType::MethodType { desc_index });
        } else if tag == 18 {
            let bootstrap_method_attr_index = rd.read_u16()?;
            let name_and_type_index = rd.read_u16()?;
            v.push(ConstantType::InvokeDynamic { bootstrap_method_attr_index, name_and_type_index });
        } else {
            return Err(ClassFormat::UnknownTag);
        }
    }
    Ok(v)
}

/// Parses the attributes nested inside a `Code` attribute, keeping the
/// line-number table and skipping the rest.
fn parse_code_nested_attrs(rd: &mut Reader<'_>, cp: &Vec<ConstantType>, count: u16) -> (r: Result<
    Vec<LineNumberEntry>,
    ClassFormat,
>)
    ensures
        final(rd).buf == old(rd).buf,
{
    let mut table: Vec<LineNumberEntry> = Vec::new();
    let mut i: u16 = 0;
    while i < count
        invariant
            rd.buf == old(rd).buf,
        decreases count as int - i as int,
    {
        let name_index = rd.read_u16()?;
        let length = rd.read_u32()?;
        let name = match get_utf8(cp, name_index) {
            Some(n) => n,
            None => {
                return Err(ClassFormat::BadIndex);
            },
        };
        if bytes_eq(&name, "LineNumberTable".as_bytes()) {
            let entries = rd.read_u16()?;
            let mut j: u16 = 0;
            while j < entries
                invariant
                    rd.buf == old(rd).buf,
                decreases entries as int - j as int,
            {
                let start_pc = rd.read_u16()?;
                let line_number = rd.read_u16()?;
                table.push(LineNumberEntry { start_pc, line_number });
                j = j + 1;
            }
        } else {
            rd.skip(length as usize)?;
        }
        i = i + 1;
    }
    Ok(table)
}

/// Parses one attribute, dispatching on its name.
pub fn parse_attr(rd: &mut Reader<'_>, cp: &Vec<ConstantType>) -> (r: Result<
    AttrType,
    ClassFormat,
>)
    ensures
        final(rd).buf == old(rd).buf,
{
    let name_index = rd.read_u16()?;
    let length = rd.read_u32()?;
    let name = match get_utf8(cp, name_index) {
        Some(n) => n,
        None => {
            return Err(ClassFormat::BadIndex);
        },
    };
    if bytes_eq(&name, "ConstantValue".as_bytes()) {
        if length != 2 {
            return Err(ClassFormat::BadIndex);
        }
        let constant_value_index = rd.read_u16()?;
        Ok(AttrType::ConstantValue { constant_value_index })
    } else if bytes_eq(&name, "Code".as_bytes()) {
        let max_stack = rd.read_u16()?;
        let max_locals = rd.read_u16()?;
        let code_len = rd.read_u32()?;
        let code = rd.read_bytes(code_len as usize)?;
        let ex_len = rd.read_u16()?;
        let mut exceptions: Vec<ExceptionEntry> = Vec::new();
        let mut i: u16 = 0;
        while i < ex_len
            invariant
                rd.buf == old(rd).buf,
            decreases ex_len as int - i as int,
        {
            let start_pc = rd.read_u16()?;
            let end_pc = rd.read_u16()?;
            let handler_pc = rd.read_u16()?;
            let catch_type = rd.read_u16()?;
            exceptions.push(ExceptionEntry { start_pc, end_pc, handler_pc, catch_type });
            i = i + 1;
        }
        let nested = rd.read_u16()?;
        let line_number_table = parse_code_nested_attrs(rd, cp, nested)?;
        Ok(
            AttrType::Code(
                CodeAttr { max_stack, max_locals, code, exceptions, line_number_table },
            ),
        )
    } else if bytes_eq(&name, "SourceFile".as_bytes()) {
        if length != 2 {
            return Err(ClassFormat::BadIndex);
        }
        let source_file_index = rd.read_u16()?;
        Ok(AttrType::SourceFile { source_file_index })
    } else {
        let payload = rd.read_bytes(length as usize)?;
        Ok(AttrType::Raw { name_index, payload })
    }
}

/// Parses the shared shape of a field or method: access flags, name index,
/// descriptor index, attributes.
fn parse_member(rd: &mut Reader<'_>, cp: &Vec<ConstantType>) -> (r: Result<
    (u16, u16, u16, Vec<AttrType>),
    ClassFormat,
>)
    ensures
        final(rd).buf == old(rd).buf,
{
    let acc_flags = rd.read_u16()?;
    let name_index = rd.read_u16()?;
    let desc_index = rd.read_u16()?;
    let count = rd.read_u16()?;
    let mut attrs: Vec<AttrType> = Vec::new();
    let mut i: u16 = 0;
    while i < count
        invariant
            rd.buf == old(rd).buf,
        decreases count as int - i as int,
    {
        let a = parse_attr(rd, cp)?;
        attrs.push(a);
        i = i + 1;
    }
    Ok((acc_flags, name_index, desc_index, attrs))
}

/// Decodes a class file. On success the magic was `0xCAFEBABE`, the version
/// words are the ones at offsets 4 and 6, and the constant pool has exactly
/// the declared number of slots. Too short an input is `Truncated`; a wrong
/// magic is `BadMagic`.
#[verifier::loop_isolation(false)]
pub fn parse_class_file(buf: &Vec<u8>) -> (r: Result<ClassFile, ClassFormat>)
    ensures
        r is Ok ==> buf@.len() >= 10 && be_u32(buf@[0], buf@[1], buf@[2], buf@[3]) == 0xCAFEBABEu32,
        buf@.len() < 4 ==> r == Err::<ClassFile, ClassFormat>(ClassFormat::Truncated),
        buf@.len() >= 4 && be_u32(buf@[0], buf@[1], buf@[2], buf@[3]) != 0xCAFEBABEu32 ==> r
            == Err::<ClassFile, ClassFormat>(ClassFormat::BadMagic),
        r matches Ok(cf) ==> cf.minor_version == be_u16(buf@[4], buf@[5]) && cf.major_version
            == be_u16(buf@[6], buf@[7]) && cf.cp@.len() == be_u16(buf@[8], buf@[9]) as int,
        r matches Ok(cf) ==> be_u16(buf@[8], buf@[9]) > 0 && (cp_end(
            buf@,
            10,
            1,
            be_u16(buf@[8], buf@[9]) as nat,
        ) matches Some(p) && cf.acc_flags == be_u16(buf@[p], buf@[p + 1]) && cf.this_class
            == be_u16(buf@[p + 2], buf@[p + 3]) && cf.super_class == be_u16(
            buf@[p + 4],
            buf@[p + 5],
        ) && cf.interfaces@.len() == be_u16(buf@[p + 6], buf@[p + 7]) && cf.fields@.len()
            == be_u16(
            buf@[p + 8 + 2 * cf.interfaces@.len()],
            buf@[p + 9 + 2 * cf.interfaces@.len()],
        )),
{
    let mut rd = Reader::new(buf);
    let magic = rd.read_u32()?;
    if magic != 0xCAFEBABE {
        return Err(ClassFormat::BadMagic);
    }
    let minor_version = rd.read_u16()?;
    let major_version = rd.read_u16()?;
    let cp_count = rd.read_u16()?;
    let cp = parse_constant_pool(&mut rd, cp_count)?;
    let ghost cp_done = rd.pos as int;
    let acc_flags = rd.read_u16()?;
    let this_class = rd.read_u16()?;
    let super_class = rd.read_u16()?;
    let if_count = rd.read_u16()?;
    let mut interfaces: Vec<u16> = Vec::new();
    let mut i: u16 = 0;
    while i < if_count
        invariant
            rd.buf == buf,
            i <= if_count,
            interfaces@.len() == i as int,
            rd.pos == cp_done + 8 + 2 * (i as int),
        decreases if_count as int - i as int,
    {
        let idx = rd.read_u16()?;
        interfaces.push(idx);
        i = i + 1;
    }
    let field_count = rd.read_u16()?;
    let mut fields: Vec<FieldInfo> = Vec::new();
    let mut i: u16 = 0;
    while i < field_count
        invariant
            rd.buf == buf,
            i <= field_count,
            fields@.len() == i as int,
        decreases field_count as int - i as int,
    {
        let (acc_flags, name_index, desc_index, attrs) = parse_member(&mut rd, &cp)?;
        fields.push(FieldInfo { acc_flags, name_index, desc_index, attrs });
        i = i + 1;
    }
    let method_count = rd.read_u16()?;
    let mut methods: Vec<MethodInfo> = Vec::new();
    let mut i: u16 = 0;
    while i < method_count
        invariant
            rd.buf == buf,
        decreases method_count as int - i as int,
    {
        let (acc_flags, name_index, desc_index, attrs) = parse_member(&mut rd, &cp)?;
        methods.push(MethodInfo { acc_flags, name_index, desc_index, attrs });
        i = i + 1;
    }
    let attr_count = rd.read_u16()?;
    let mut attrs: Vec<AttrType> = Vec::new();
    let mut i: u16 = 0;
    while i < attr_count
        invariant
            rd.buf == buf,
        decreases attr_count as int - i as int,
    {
        let a = parse_attr(&mut rd, &cp)?;
        attrs.push(a);
        i = i + 1;
    }
    Ok(
        ClassFile {
            minor_version,
            major_version,
            cp,
            acc_flags,
            this_class,
            super_class,
            interfaces,
            fields,
            methods,
            attrs,
        },
    )
}

} // verus!
