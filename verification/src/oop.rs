//! The object model: tagged values, object kinds, and the heap.
//!
//! A value is a tagged sum over the 32- and 64-bit primitives, an object
//! handle, and null. Floating-point payloads are carried as their IEEE bit
//! patterns. Handles index a heap that only grows: objects never move and are
//! retained for the life of the process, so handle identity is index
//! equality.

use vstd::prelude::*;

use crate::errors::ExKind;

verus! {

/// Index of a runtime class descriptor in the class registry.
pub type ClassId = usize;

/// A tagged runtime value. Integral sub-types (byte, short, char, boolean)
/// are widened to `Int` on the operand stack; `Float`/`Double` carry IEEE-754
/// bit patterns.
#[derive(Clone, Copy, Debug, PartialEq, Eq, Structural)]
pub enum Oop {
    Int(i32),
    Long(i64),
    Float(u32),
    Double(u64),
    Ref(usize),
    Null,
}

/// A primitive-element array, one vector per element kind. Float and double
/// elements are stored as bit patterns.
#[derive(Clone, Debug)]
pub enum TypeArrayDesc {
    Bool(Vec<u8>),
    Byte(Vec<i8>),
    Char(Vec<u16>),
    Short(Vec<i16>),
    Int(Vec<i32>),
    Long(Vec<i64>),
    Float(Vec<u32>),
    Double(Vec<u64>),
}

/// An instance: field slots indexed by field offset, plus the class pointer.
#[derive(Clone, Debug)]
pub struct InstDesc {
    pub class: ClassId,
    pub fields: Vec<Oop>,
}

/// What an object handle resolves to.
#[derive(Clone, Debug)]
pub enum RefKind {
    Inst(InstDesc),
    TypeArray(TypeArrayDesc),
    ObjArray(ClassId, Vec<Oop>),
    Mirror(ClassId),
}

/// One heap cell.
#[derive(Clone, Debug)]
pub struct OopDesc {
    pub v: RefKind,
}

/// The object heap. Allocation appends; nothing is ever removed, so handles
/// stay valid and objects never move.
#[derive(Debug)]
pub struct Heap {
    pub objects: Vec<OopDesc>,
}

pub open spec fn type_array_len(a: TypeArrayDesc) -> nat {
    match a {
        TypeArrayDesc::Bool(v) => v@.len(),
        TypeArrayDesc::Byte(v) => v@.len(),
        TypeArrayDesc::Char(v) => v@.len(),
        TypeArrayDesc::Short(v) => v@.len(),
        TypeArrayDesc::Int(v) => v@.len(),
        TypeArrayDesc::Long(v) => v@.len(),
        TypeArrayDesc::Float(v) => v@.len(),
        TypeArrayDesc::Double(v) => v@.len(),
    }
}

/// The length of the array an object is, if it is one.
pub open spec fn array_len_of(d: OopDesc) -> Option<nat> {
    match d.v {
        RefKind::TypeArray(a) => Some(type_array_len(a)),
        RefKind::ObjArray(_, v) => Some(v@.len()),
        _ => None,
    }
}

impl Heap {
    pub open spec fn objs(self) -> Seq<OopDesc> {
        self.objects@
    }

    pub open spec fn valid_ref(self, h: usize) -> bool {
        h < self.objects@.len()
    }

    /// A reference value is admissible on this heap: null, or a live handle.
    pub open spec fn ok_ref(self, v: Oop) -> bool {
        match v {
            Oop::Ref(h) => self.valid_ref(h),
            Oop::Null => true,
            _ => false,
        }
    }

    pub fn new() -> (r: Heap)
        ensures
            r.objs().len() == 0,
    {
        Heap { objects: Vec::new() }
    }

    pub fn size(&self) -> (n: usize)
        ensures
            n == self.objs().len(),
    {
        self.objects.len()
    }

    /// Allocates a cell; the handle is the index of the new object.
    pub fn new_cell(&mut self, d: OopDesc) -> (h: usize)
        ensures
            final(self).objs() == old(self).objs().push(d),
            h == old(self).objs().len(),
            final(self).valid_ref(h),
    {
        let h = self.objects.len();
        self.objects.push(d);
        h
    }

    pub fn get(&self, h: usize) -> (r: &OopDesc)
        requires
            self.valid_ref(h),
        ensures
            *r == self.objs()[h as int],
    {
        &self.objects[h]
    }

    /// Replaces the cell an existing handle resolves to; the heap's shape is
    /// otherwise untouched.
    pub fn set(&mut self, h: usize, d: OopDesc)
        requires
            old(self).valid_ref(h),
        ensures
            final(self).objs() == old(self).objs().update(h as int, d),
    {
        self.objects[h] = d;
    }


    /// Reads an element of an `Int` type array.
    pub fn type_array_get_int(&self, h: usize, idx: usize) -> (r: i32)
        requires
            self.valid_ref(h),
            self.objs()[h as int].v matches RefKind::TypeArray(TypeArrayDesc::Int(a)) && idx
                < a@.len(),
        ensures
            self.objs()[h as int].v matches RefKind::TypeArray(TypeArrayDesc::Int(a)) && r == a@[idx as int],
    {
        match &self.objects[h].v {
            RefKind::TypeArray(TypeArrayDesc::Int(a)) => a[idx],
            _ => {
                proof {
                    assert(false);
                }
                0
            },
        }
    }

    /// Writes an element of an `Int` type array; the heap keeps its shape.
    pub fn type_array_set_int(&mut self, h: usize, idx: usize, v: i32)
        requires
            old(self).valid_ref(h),
            old(self).objs()[h as int].v matches RefKind::TypeArray(TypeArrayDesc::Int(a)) && idx
                < a@.len(),
        ensures
            final(self).objs().len() == old(self).objs().len(),
            final(self).objs()[h as int].v matches RefKind::TypeArray(TypeArrayDesc::Int(a))
                && old(self).objs()[h as int].v matches RefKind::TypeArray(TypeArrayDesc::Int(a0))
                && a@ == a0@.update(idx as int, v),
            forall|j: int| 0 <= j < final(self).objs().len() && j != h ==> final(self).objs()[j]
                == old(self).objs()[j],
    {
        let d = &mut self.objects[h];
        match &mut d.v {
            RefKind::TypeArray(TypeArrayDesc::Int(a)) => {
                a[idx] = v;
            },
            _ => {},
        }
    }

    /// Reads an element of a `Byte` type array.
    pub fn type_array_get_byte(&self, h: usize, idx: usize) -> (r: i8)
        requires
            self.valid_ref(h),
            self.objs()[h as int].v matches RefKind::TypeArray(TypeArrayDesc::Byte(a)) && idx
                < a@.len(),
        ensures
            self.objs()[h as int].v matches RefKind::TypeArray(TypeArrayDesc::Byte(a)) && r == a@[idx as int],
    {
        match &self.objects[h].v {
            RefKind::TypeArray(TypeArrayDesc::Byte(a)) => a[idx],
            _ => {
                proof {
                    assert(false);
                }
                0
            },
        }
    }

    /// Reads an element of a `Bool` type array.
    pub fn type_array_get_bool(&self, h: usize, idx: usize) -> (r: u8)
        requires
            self.valid_ref(h),
            self.objs()[h as int].v matches RefKind::TypeArray(TypeArrayDesc::Bool(a)) && idx
                < a@.len(),
        ensures
            self.objs()[h as int].v matches RefKind::TypeArray(TypeArrayDesc::Bool(a)) && r == a@[idx as int],
    {
        match &self.objects[h].v {
            RefKind::TypeArray(TypeArrayDesc::Bool(a)) => a[idx],
            _ => {
                proof {
                    assert(false);
                }
                0
            },
        }
    }

    /// Writes an element of a `Bool` type array; the heap keeps its shape.
    pub fn type_array_set_bool(&mut self, h: usize, idx: usize, v: u8)
        requires
            old(self).valid_ref(h),
            old(self).objs()[h as int].v matches RefKind::TypeArray(TypeArrayDesc::Bool(a)) && idx
                < a@.len(),
        ensures
            final(self).objs().len() == old(self).objs().len(),
            final(self).objs()[h as int].v matches RefKind::TypeArray(TypeArrayDesc::Bool(a))
                && old(self).objs()[h as int].v matches RefKind::TypeArray(TypeArrayDesc::Bool(a0))
                && a@ == a0@.update(idx as int, v),
            forall|j: int| 0 <= j < final(self).objs().len() && j != h ==> final(self).objs()[j]
                == old(self).objs()[j],
    {
        let d = &mut self.objects[h];
        match &mut d.v {
            RefKind::TypeArray(TypeArrayDesc::Bool(a)) => {
                a[idx] = v;
            },
            _ => {},
        }
    }

    /// Reads an element of a `Char` type array.
    pub fn type_array_get_char(&self, h: usize, idx: usize) -> (r: u16)
        requires
            self.valid_ref(h),
            self.objs()[h as int].v matches RefKind::TypeArray(TypeArrayDesc::Char(a)) && idx
                < a@.len(),
        ensures
            self.objs()[h as int].v matches RefKind::TypeArray(TypeArrayDesc::Char(a)) && r == a@[idx as int],
    {
        match &self.objects[h].v {
            RefKind::TypeArray(TypeArrayDesc::Char(a)) => a[idx],
            _ => {
                proof {
                    assert(false);
                }
                0
            },
        }
    }

    /// Writes an element of a `Char` type array; the heap keeps its shape.
    pub fn type_array_set_char(&mut self, h: usize, idx: usize, v: u16)
        requires
            old(self).valid_ref(h),
            old(self).objs()[h as int].v matches RefKind::TypeArray(TypeArrayDesc::Char(a)) && idx
                < a@.len(),
        ensures
            final(self).objs().len() == old(self).objs().len(),
            final(self).objs()[h as int].v matches RefKind::TypeArray(TypeArrayDesc::Char(a))
                && old(self).objs()[h as int].v matches RefKind::TypeArray(TypeArrayDesc::Char(a0))
                && a@ == a0@.update(idx as int, v),
            forall|j: int| 0 <= j < final(self).objs().len() && j != h ==> final(self).objs()[j]
                == old(self).objs()[j],
    {
        let d = &mut self.objects[h];
        match &mut d.v {
            RefKind::TypeArray(TypeArrayDesc::Char(a)) => {
                a[idx] = v;
            },
            _ => {},
        }
    }

    /// Reads an element of a `Short` type array.
    pub fn type_array_get_short(&self, h: usize, idx: usize) -> (r: i16)
        requires
            self.valid_ref(h),
            self.objs()[h as int].v matches RefKind::TypeArray(TypeArrayDesc::Short(a)) && idx
                < a@.len(),
        ensures
            self.objs()[h as int].v matches RefKind::TypeArray(TypeArrayDesc::Short(a)) && r == a@[idx as int],
    {
        match &self.objects[h].v {
            RefKind::TypeArray(TypeArrayDesc::Short(a)) => a[idx],
            _ => {
                proof {
                    assert(false);
                }
                0
            },
        }
    }

    /// Writes an element of a `Short` type array; the heap keeps its shape.
    pub fn type_array_set_short(&mut self, h: usize, idx: usize, v: i16)
        requires
            old(self).valid_ref(h),
            old(self).objs()[h as int].v matches RefKind::TypeArray(TypeArrayDesc::Short(a)) && idx
                < a@.len(),
        ensures
            final(self).objs().len() == old(self).objs().len(),
            final(self).objs()[h as int].v matches RefKind::TypeArray(TypeArrayDesc::Short(a))
                && old(self).objs()[h as int].v matches RefKind::TypeArray(TypeArrayDesc::Short(a0))
                && a@ == a0@.update(idx as int, v),
            forall|j: int| 0 <= j < final(self).objs().len() && j != h ==> final(self).objs()[j]
                == old(self).objs()[j],
    {
        let d = &mut self.objects[h];
        match &mut d.v {
            RefKind::TypeArray(TypeArrayDesc::Short(a)) => {
                a[idx] = v;
            },
            _ => {},
        }
    }

    /// Reads an element of a `Long` type array.
    pub fn type_array_get_long(&self, h: usize, idx: usize) -> (r: i64)
        requires
            self.valid_ref(h),
            self.objs()[h as int].v matches RefKind::TypeArray(TypeArrayDesc::Long(a)) && idx
                < a@.len(),
        ensures
            self.objs()[h as int].v matches RefKind::TypeArray(TypeArrayDesc::Long(a)) && r == a@[idx as int],
    {
        match &self.objects[h].v {
            RefKind::TypeArray(TypeArrayDesc::Long(a)) => a[idx],
            _ => {
                proof {
                    assert(false);
                }
                0
            },
        }
    }

    /// Writes an element of a `Long` type array; the heap keeps its shape.
    pub fn type_array_set_long(&mut self, h: usize, idx: usize, v: i64)
        requires
            old(self).valid_ref(h),
            old(self).objs()[h as int].v matches RefKind::TypeArray(TypeArrayDesc::Long(a)) && idx
                < a@.len(),
        ensures
            final(self).objs().len() == old(self).objs().len(),
            final(self).objs()[h as int].v matches RefKind::TypeArray(TypeArrayDesc::Long(a))
                && old(self).objs()[h as int].v matches RefKind::TypeArray(TypeArrayDesc::Long(a0))
                && a@ == a0@.update(idx as int, v),
            forall|j: int| 0 <= j < final(self).objs().len() && j != h ==> final(self).objs()[j]
                == old(self).objs()[j],
    {
        let d = &mut self.objects[h];
        match &mut d.v {
            RefKind::TypeArray(TypeArrayDesc::Long(a)) => {
                a[idx] = v;
            },
            _ => {},
        }
    }

    /// Reads an element of an object array.
    pub fn obj_array_get(&self, h: usize, idx: usize) -> (r: Oop)
        requires
            self.valid_ref(h),
            self.objs()[h as int].v matches RefKind::ObjArray(c, a) && idx < a@.len(),
        ensures
            self.objs()[h as int].v matches RefKind::ObjArray(c, a) && r == a@[idx as int],
    {
        match &self.objects[h].v {
            RefKind::ObjArray(_, a) => a[idx],
            _ => {
                proof {
                    assert(false);
                }
                Oop::Null
            },
        }
    }

    /// Writes an element of an object array; the heap keeps its shape and
    /// the array keeps its element class.
    pub fn obj_array_set(&mut self, h: usize, idx: usize, v: Oop)
        requires
            old(self).valid_ref(h),
            old(self).objs()[h as int].v matches RefKind::ObjArray(c, a) && idx < a@.len(),
        ensures
            final(self).objs().len() == old(self).objs().len(),
            final(self).objs()[h as int].v matches RefKind::ObjArray(c, a)
                && old(self).objs()[h as int].v matches RefKind::ObjArray(c0, a0) && c == c0 && a@
                == a0@.update(idx as int, v),
            forall|j: int| 0 <= j < final(self).objs().len() && j != h ==> final(self).objs()[j]
                == old(self).objs()[j],
    {
        let d = &mut self.objects[h];
        match &mut d.v {
            RefKind::ObjArray(_, a) => {
                a[idx] = v;
            },
            _ => {},
        }
    }

    /// Writes an element of a `Byte` type array; the heap keeps its shape.
    pub fn type_array_set_byte(&mut self, h: usize, idx: usize, v: i8)
        requires
            old(self).valid_ref(h),
            old(self).objs()[h as int].v matches RefKind::TypeArray(TypeArrayDesc::Byte(a)) && idx
                < a@.len(),
        ensures
            final(self).objs().len() == old(self).objs().len(),
            final(self).objs()[h as int].v matches RefKind::TypeArray(TypeArrayDesc::Byte(a))
                && old(self).objs()[h as int].v matches RefKind::TypeArray(TypeArrayDesc::Byte(a0))
                && a@ == a0@.update(idx as int, v),
            forall|j: int| 0 <= j < final(self).objs().len() && j != h ==> final(self).objs()[j]
                == old(self).objs()[j],
    {
        let d = &mut self.objects[h];
        match &mut d.v {
            RefKind::TypeArray(TypeArrayDesc::Byte(a)) => {
                a[idx] = v;
            },
            _ => {},
        }
    }

    /// Reads an instance field slot by its offset.
    pub fn get_field_value(&self, h: usize, offset: usize) -> (r: Oop)
        requires
            self.valid_ref(h),
            self.objs()[h as int].v matches RefKind::Inst(inst) && offset < inst.fields@.len(),
        ensures
            self.objs()[h as int].v matches RefKind::Inst(inst) && r == inst.fields@[offset as int],
    {
        match &self.objects[h].v {
            RefKind::Inst(inst) => inst.fields[offset],
            _ => {
                proof {
                    assert(false);
                }
                Oop::Null
            },
        }
    }

    /// Writes an instance field slot by its offset.
    pub fn put_field_value(&mut self, h: usize, offset: usize, v: Oop)
        requires
            old(self).valid_ref(h),
            old(self).objs()[h as int].v matches RefKind::Inst(inst) && offset
                < inst.fields@.len(),
        ensures
            final(self).objs().len() == old(self).objs().len(),
            final(self).objs()[h as int].v matches RefKind::Inst(inst)
                && old(self).objs()[h as int].v matches RefKind::Inst(inst0) && inst.class
                == inst0.class && inst.fields@ == inst0.fields@.update(offset as int, v),
            forall|j: int| 0 <= j < final(self).objs().len() && j != h ==> final(self).objs()[j]
                == old(self).objs()[j],
    {
        let d = &mut self.objects[h];
        match &mut d.v {
            RefKind::Inst(inst) => {
                inst.fields[offset] = v;
            },
            _ => {},
        }
    }
}


/// Validates an instance operation's receiver: a null receiver raises
/// `NullPointer`, and exactly then; a reference passes its handle through.
pub fn non_null_receiver(v: Oop) -> (r: Result<usize, ExKind>)
    requires
        v is Ref || v is Null,
    ensures
        r == Err::<usize, ExKind>(ExKind::NullPointer) <==> v is Null,
        v matches Oop::Ref(h) ==> r == Ok::<usize, ExKind>(h),
{
    match v {
        Oop::Null => Err(ExKind::NullPointer),
        Oop::Ref(h) => Ok(h),
        _ => Err(ExKind::NullPointer),
    }
}

/// Validates an array access: the receiver must not be null and the index
/// must lie in `[0, length)`. A null receiver raises `NullPointer`; an index
/// outside the bounds raises `ArrayIndexOutOfBounds`; otherwise the handle is
/// returned.
pub fn array_check(heap: &Heap, aref: Oop, idx: i32) -> (r: Result<usize, ExKind>)
    requires
        aref matches Oop::Ref(h) ==> heap.valid_ref(h) && array_len_of(heap.objs()[h as int])
            is Some,
        aref is Ref || aref is Null,
    ensures
        r == Err::<usize, ExKind>(ExKind::NullPointer) <==> aref is Null,
        aref matches Oop::Ref(h) ==> {
            let len = array_len_of(heap.objs()[h as int])->Some_0;
            if 0 <= idx < len {
                r == Ok::<usize, ExKind>(h)
            } else {
                r == Err::<usize, ExKind>(ExKind::ArrayIndexOutOfBounds)
            }
        },
{
    match aref {
        Oop::Null => Err(ExKind::NullPointer),
        Oop::Ref(h) => {
            let len = array_length_at(heap, h);
            if idx < 0 || (idx as usize) >= len {
                Err(ExKind::ArrayIndexOutOfBounds)
            } else {
                Ok(h)
            }
        },
        _ => Err(ExKind::NullPointer),
    }
}

/// The length of the array behind a live handle.
pub fn array_length_at(heap: &Heap, h: usize) -> (n: usize)
    requires
        heap.valid_ref(h),
        array_len_of(heap.objs()[h as int]) is Some,
    ensures
        n == array_len_of(heap.objs()[h as int])->Some_0,
{
    match &heap.objects[h].v {
        RefKind::TypeArray(a) => match a {
            TypeArrayDesc::Bool(v) => v.len(),
            TypeArrayDesc::Byte(v) => v.len(),
            TypeArrayDesc::Char(v) => v.len(),
            TypeArrayDesc::Short(v) => v.len(),
            TypeArrayDesc::Int(v) => v.len(),
            TypeArrayDesc::Long(v) => v.len(),
            TypeArrayDesc::Float(v) => v.len(),
            TypeArrayDesc::Double(v) => v.len(),
        },
        RefKind::ObjArray(_, v) => v.len(),
        _ => 0,
    }
}

/// The `arraylength` semantics: null raises `NullPointer`, otherwise the
/// length is returned.
pub fn array_length(heap: &Heap, aref: Oop) -> (r: Result<i32, ExKind>)
    requires
        aref matches Oop::Ref(h) ==> heap.valid_ref(h) && array_len_of(heap.objs()[h as int])
            is Some && array_len_of(heap.objs()[h as int])->Some_0 <= i32::MAX,
        aref is Ref || aref is Null,
    ensures
        r == Err::<i32, ExKind>(ExKind::NullPointer) <==> aref is Null,
        aref matches Oop::Ref(h) ==> r == Ok::<i32, ExKind>(
            array_len_of(heap.objs()[h as int])->Some_0 as i32,
        ),
{
    match aref {
        Oop::Null => Err(ExKind::NullPointer),
        Oop::Ref(h) => {
            let n = array_length_at(heap, h);
            Ok(n as i32)
        },
        _ => Err(ExKind::NullPointer),
    }
}

} // verus!
