//! The per-frame local variable array.
//!
//! A local slot is unset (`Nop`), a primitive payload held as big-endian
//! bytes, or an object reference. Longs and doubles occupy one slot; the
//! array is sized to the method's declared `max_locals` plus one spare slot.

use vstd::prelude::*;

use crate::codec::{
    be_bytes4, be_bytes8, be_u32, be_u64, bits_of_i32, bits_of_i64, i32_of_bits, i32_to_bits,
    i64_of_bits, i64_to_bits, lemma_be4_round, lemma_be8_round, lemma_i32_bits_round,
    lemma_i64_bits_round, u32_to_be, u64_to_be,
};
use crate::oop::Oop;

verus! {

/// One local-variable slot.
pub enum LocalSlot {
    Nop,
    Primitive(Vec<u8>),
    Ref(Oop),
}

/// The mathematical shape of a local slot.
pub enum LocalSlotV {
    Nop,
    Prim(Seq<u8>),
    Ref(Oop),
}

pub open spec fn local_slot_v(s: LocalSlot) -> LocalSlotV {
    match s {
        LocalSlot::Nop => LocalSlotV::Nop,
        LocalSlot::Primitive(v) => LocalSlotV::Prim(v@),
        LocalSlot::Ref(o) => LocalSlotV::Ref(o),
    }
}

/// The 32-bit value a local slot yields to `get_int`.
pub open spec fn local_int(s: LocalSlotV) -> Option<i32> {
    match s {
        LocalSlotV::Prim(b) => if b.len() >= 4 {
            Some(i32_of_bits(be_u32(b[0], b[1], b[2], b[3])))
        } else {
            None
        },
        _ => None,
    }
}

/// The 64-bit value a local slot yields to `get_long`.
pub open spec fn local_long(s: LocalSlotV) -> Option<i64> {
    match s {
        LocalSlotV::Prim(b) => if b.len() >= 8 {
            Some(i64_of_bits(be_u64(b)))
        } else {
            None
        },
        _ => None,
    }
}

pub struct Local {
    locals: Vec<LocalSlot>,
}

impl Local {
    /// The locals as a sequence of slot values.
    pub closed spec fn slots(self) -> Seq<LocalSlotV> {
        self.locals@.map_values(|s: LocalSlot| local_slot_v(s))
    }

    /// A fresh array of `size + 1` unset slots.
    pub fn new(size: usize) -> (r: Self)
        requires
            size < usize::MAX,
        ensures
            r.slots().len() == size + 1,
            forall|i: int| 0 <= i < r.slots().len() ==> r.slots()[i] is Nop,
    {
        let size = size + 1;
        let mut locals: Vec<LocalSlot> = Vec::new();
        let mut i: usize = 0;
        while i < size
            invariant
                i <= size,
                locals@.len() == i,
                forall|j: int| 0 <= j < i ==> local_slot_v(locals@[j]) is Nop,
            decreases size - i,
        {
            locals.push(LocalSlot::Nop);
            i = i + 1;
        }
        let r = Self { locals };
        proof {
            assert(forall|i: int| 0 <= i < r.slots().len() ==> r.slots()[i] is Nop);
        }
        r
    }

    pub fn size(&self) -> (n: usize)
        ensures
            n == self.slots().len(),
    {
        self.locals.len()
    }

    fn set_slot(&mut self, pos: usize, s: LocalSlot)
        requires
            pos < old(self).slots().len(),
        ensures
            final(self).slots() == old(self).slots().update(pos as int, local_slot_v(s)),
    {
        self.locals[pos] = s;
        proof {
            assert(final(self).slots() =~= old(self).slots().update(pos as int, local_slot_v(s)));
        }
    }

    /// Stores an `Int` at `pos` as four big-endian bytes.
    pub fn set_int(&mut self, pos: usize, i: i32)
        requires
            pos < old(self).slots().len(),
        ensures
            final(self).slots() == old(self).slots().update(
                pos as int,
                LocalSlotV::Prim(be_bytes4(bits_of_i32(i))),
            ),
    {
        let v = u32_to_be(i32_to_bits(i));
        self.set_primitive2(pos, v);
    }

    /// Stores a `Long` at `pos` as eight big-endian bytes.
    pub fn set_long(&mut self, pos: usize, l: i64)
        requires
            pos < old(self).slots().len(),
        ensures
            final(self).slots() == old(self).slots().update(
                pos as int,
                LocalSlotV::Prim(be_bytes8(bits_of_i64(l))),
            ),
    {
        let v = u64_to_be(i64_to_bits(l));
        self.set_primitive3(pos, v);
    }

    /// Stores a reference at `pos`.
    pub fn set_ref(&mut self, pos: usize, v: Oop)
        requires
            pos < old(self).slots().len(),
        ensures
            final(self).slots() == old(self).slots().update(pos as int, LocalSlotV::Ref(v)),
    {
        self.set_slot(pos, LocalSlot::Ref(v));
    }

    /// Reads an `Int` back: the slot must hold a primitive payload of at
    /// least four bytes, read big-endian.
    pub fn get_int(&self, pos: usize) -> (r: i32)
        requires
            pos < self.slots().len(),
            local_int(self.slots()[pos as int]) is Some,
        ensures
            Some(r) == local_int(self.slots()[pos as int]),
    {
        match &self.locals[pos] {
            LocalSlot::Primitive(v) => {
                let u = crate::codec::u32_from_be(v[0], v[1], v[2], v[3]);
                crate::codec::bits_to_i32(u)
            },
            _ => {
                proof {
                    assert(false);
                }
                0
            },
        }
    }

    /// Reads a `Long` back: the slot must hold a primitive payload of at
    /// least eight bytes.
    pub fn get_long(&self, pos: usize) -> (r: i64)
        requires
            pos < self.slots().len(),
            local_long(self.slots()[pos as int]) is Some,
        ensures
            Some(r) == local_long(self.slots()[pos as int]),
    {
        match &self.locals[pos] {
            LocalSlot::Primitive(v) => {
                let mut buf: [u8; 8] = [0; 8];
                buf[0] = v[0];
                buf[1] = v[1];
                buf[2] = v[2];
                buf[3] = v[3];
                buf[4] = v[4];
                buf[5] = v[5];
                buf[6] = v[6];
                buf[7] = v[7];
                let u = crate::codec::u64_from_be(&buf);
                proof {
                    assert(be_u64(buf@) == be_u64(v@));
                }
                crate::codec::bits_to_i64(u)
            },
            _ => {
                proof {
                    assert(false);
                }
                0
            },
        }
    }

    /// Reads a reference back: the slot must hold one.
    pub fn get_ref(&self, pos: usize) -> (r: Oop)
        requires
            pos < self.slots().len(),
            self.slots()[pos as int] is Ref,
        ensures
            self.slots()[pos as int] matches LocalSlotV::Ref(o) && r == o,
    {
        match &self.locals[pos] {
            LocalSlot::Ref(v) => *v,
            _ => {
                proof {
                    assert(false);
                }
                Oop::Null
            },
        }
    }


    /// Reads an `Int` if the slot holds one.
    pub fn get_int_checked(&self, pos: usize) -> (r: Option<i32>)
        ensures
            match r {
                Some(i) => pos < self.slots().len() && local_int(self.slots()[pos as int])
                    == Some(i),
                None => true,
            },
    {
        if pos >= self.locals.len() {
            return None;
        }
        match &self.locals[pos] {
            LocalSlot::Primitive(v) => {
                if v.len() >= 4 {
                    Some(
                        crate::codec::bits_to_i32(crate::codec::u32_from_be(v[0], v[1], v[2], v[3])),
                    )
                } else {
                    None
                }
            },
            _ => None,
        }
    }

    /// Reads a `Long` if the slot holds one.
    pub fn get_long_checked(&self, pos: usize) -> (r: Option<i64>)
        ensures
            match r {
                Some(l) => pos < self.slots().len() && local_long(self.slots()[pos as int])
                    == Some(l),
                None => true,
            },
    {
        if pos >= self.locals.len() {
            return None;
        }
        match &self.locals[pos] {
            LocalSlot::Primitive(v) => {
                if v.len() >= 8 {
                    let mut buf: [u8; 8] = [0; 8];
                    buf[0] = v[0];
                    buf[1] = v[1];
                    buf[2] = v[2];
                    buf[3] = v[3];
                    buf[4] = v[4];
                    buf[5] = v[5];
                    buf[6] = v[6];
                    buf[7] = v[7];
                    let u = crate::codec::u64_from_be(&buf);
                    proof {
                        assert(be_u64(buf@) == be_u64(v@));
                    }
                    Some(crate::codec::bits_to_i64(u))
                } else {
                    None
                }
            },
            _ => None,
        }
    }

    /// Reads a reference if the slot holds one.
    pub fn get_ref_checked(&self, pos: usize) -> (r: Option<Oop>)
        ensures
            match r {
                Some(o) => pos < self.slots().len() && self.slots()[pos as int]
                    == LocalSlotV::Ref(o),
                None => true,
            },
    {
        if pos >= self.locals.len() {
            return None;
        }
        match &self.locals[pos] {
            LocalSlot::Ref(o) => Some(*o),
            _ => None,
        }
    }

    fn set_primitive(&mut self, pos: usize, buf: Vec<u8>)
        requires
            pos < old(self).slots().len(),
        ensures
            final(self).slots() == old(self).slots().update(pos as int, LocalSlotV::Prim(buf@)),
    {
        self.set_slot(pos, LocalSlot::Primitive(buf));
    }

    fn set_primitive2(&mut self, pos: usize, v: [u8; 4])
        requires
            pos < old(self).slots().len(),
        ensures
            final(self).slots() == old(self).slots().update(pos as int, LocalSlotV::Prim(v@)),
    {
        let mut buf: Vec<u8> = Vec::new();
        buf.push(v[0]);
        buf.push(v[1]);
        buf.push(v[2]);
        buf.push(v[3]);
        proof {
            assert(buf@ =~= v@);
        }
        self.set_primitive(pos, buf);
    }

    fn set_primitive3(&mut self, pos: usize, v: [u8; 8])
        requires
            pos < old(self).slots().len(),
        ensures
            final(self).slots() == old(self).slots().update(pos as int, LocalSlotV::Prim(v@)),
    {
        let mut buf: Vec<u8> = Vec::new();
        buf.push(v[0]);
        buf.push(v[1]);
        buf.push(v[2]);
        buf.push(v[3]);
        buf.push(v[4]);
        buf.push(v[5]);
        buf.push(v[6]);
        buf.push(v[7]);
        proof {
            assert(buf@ =~= v@);
        }
        self.set_primitive(pos, buf);
    }

    /// Set-then-get round trips for the primitive widths.
    pub proof fn lemma_int_round(i: i32)
        ensures
            local_int(LocalSlotV::Prim(be_bytes4(bits_of_i32(i)))) == Some(i),
    {
        lemma_be4_round(bits_of_i32(i));
        lemma_i32_bits_round(i);
    }

    pub proof fn lemma_long_round(l: i64)
        ensures
            local_long(LocalSlotV::Prim(be_bytes8(bits_of_i64(l)))) == Some(l),
    {
        lemma_be8_round(bits_of_i64(l));
        lemma_i64_bits_round(l);
    }
}

} // verus!
