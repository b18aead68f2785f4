//! The per-frame operand stack.
//!
//! Every mutation is pinned down against the stack's mathematical shape, a
//! sequence of slot values with the top at the end.

use vstd::prelude::*;

use crate::codec::{
    be_bytes4, be_bytes8, bits_of_i32, bits_of_i64, i32_to_bits, i64_to_bits, lemma_be4_round,
    lemma_be8_round, lemma_i32_bits_round, lemma_i64_bits_round, u32_to_be, u64_to_be,
};
use crate::oop::Oop;
use crate::slot::{bytes_from_vec, slot_int, slot_long, slot_ref, slot_v, Slot, SlotV};

verus! {

pub struct Stack {
    inner: Vec<Slot>,
}

impl Stack {
    /// The stack as a sequence of slot values, top last.
    pub closed spec fn slots(self) -> Seq<SlotV> {
        self.inner@.map_values(|s: Slot| slot_v(s))
    }

    pub fn new(size: usize) -> (r: Self)
        ensures
            r.slots().len() == 0,
    {
        let r = Self { inner: Vec::with_capacity(size) };
        proof {
            assert(r.slots() =~= Seq::<SlotV>::empty());
        }
        r
    }

    pub fn depth(&self) -> (n: usize)
        ensures
            n == self.slots().len(),
    {
        self.inner.len()
    }

    fn push_slot(&mut self, s: Slot)
        ensures
            final(self).slots() == old(self).slots().push(slot_v(s)),
    {
        self.inner.push(s);
        proof {
            assert(final(self).slots() =~= old(self).slots().push(slot_v(s)));
        }
    }

    /// Pushes an `Int`, stored as four big-endian bytes.
    pub fn push_int(&mut self, i: i32)
        ensures
            final(self).slots() == old(self).slots().push(SlotV::Prim(be_bytes4(bits_of_i32(i)))),
    {
        let v = u32_to_be(i32_to_bits(i));
        let mut buf: Vec<u8> = Vec::new();
        buf.push(v[0]);
        buf.push(v[1]);
        buf.push(v[2]);
        buf.push(v[3]);
        proof {
            assert(buf@ =~= be_bytes4(bits_of_i32(i)));
        }
        let b = bytes_from_vec(buf);
        self.push_slot(Slot::Primitive(b));
    }

    /// Pushes a `Long`, stored as eight big-endian bytes.
    pub fn push_long(&mut self, l: i64)
        ensures
            final(self).slots() == old(self).slots().push(SlotV::Prim(be_bytes8(bits_of_i64(l)))),
    {
        let v = u64_to_be(i64_to_bits(l));
        let mut buf: Vec<u8> = Vec::new();
        buf.push(v[0]);
        buf.push(v[1]);
        buf.push(v[2]);
        buf.push(v[3]);
        buf.push(v[4]);
        buf.push(v[5]);
        buf.push(v[6]);
        buf.push(v[7]);
        proof {
            assert(buf@ =~= be_bytes8(bits_of_i64(l)));
        }
        let b = bytes_from_vec(buf);
        self.push_slot(Slot::Primitive(b));
    }

    /// Pushes a raw primitive payload.
    pub fn push(&mut self, b: bytes::Bytes)
        ensures
            final(self).slots() == old(self).slots().push(
                SlotV::Prim(crate::slot::bytes_view(b)),
            ),
    {
        self.push_slot(Slot::Primitive(b));
    }

    /// Pushes four payload bytes.
    pub fn push2(&mut self, v: [u8; 4])
        ensures
            final(self).slots() == old(self).slots().push(SlotV::Prim(v@)),
    {
        let mut buf: Vec<u8> = Vec::new();
        buf.push(v[0]);
        buf.push(v[1]);
        buf.push(v[2]);
        buf.push(v[3]);
        proof {
            assert(buf@ =~= v@);
        }
        let b = bytes_from_vec(buf);
        self.push_slot(Slot::Primitive(b));
    }

    /// Pushes eight payload bytes.
    pub fn push3(&mut self, v: [u8; 8])
        ensures
            final(self).slots() == old(self).slots().push(SlotV::Prim(v@)),
    {
        let mut buf: Vec<u8> = Vec::new();
        buf.push(v[0]);
        buf.push(v[1]);
        buf.push(v[2]);
        buf.push(v[3]);
        buf.push(v[4]);
        buf.push(v[5]);
        buf.push(v[6]);
        buf.push(v[7]);
        proof {
            assert(buf@ =~= v@);
        }
        let b = bytes_from_vec(buf);
        self.push_slot(Slot::Primitive(b));
    }

    pub fn push_null(&mut self)
        ensures
            final(self).slots() == old(self).slots().push(SlotV::Null),
    {
        self.push_slot(Slot::Null);
    }

    /// Pushes an object reference.
    pub fn push_ref(&mut self, o: Oop)
        ensures
            final(self).slots() == old(self).slots().push(SlotV::Ref(o)),
    {
        self.push_slot(Slot::Ref(o));
    }

    pub fn push_const_m1(&mut self)
        ensures
            final(self).slots() == old(self).slots().push(SlotV::ConstM1),
    {
        self.push_slot(Slot::ConstM1);
    }

    pub fn push_const0(&mut self)
        ensures
            final(self).slots() == old(self).slots().push(SlotV::Const0),
    {
        self.push_slot(Slot::Const0);
    }

    pub fn push_const1(&mut self)
        ensures
            final(self).slots() == old(self).slots().push(SlotV::Const1),
    {
        self.push_slot(Slot::Const1);
    }

    pub fn push_const2(&mut self)
        ensures
            final(self).slots() == old(self).slots().push(SlotV::Const2),
    {
        self.push_slot(Slot::Const2);
    }

    pub fn push_const3(&mut self)
        ensures
            final(self).slots() == old(self).slots().push(SlotV::Const3),
    {
        self.push_slot(Slot::Const3);
    }

    pub fn push_const4(&mut self)
        ensures
            final(self).slots() == old(self).slots().push(SlotV::Const4),
    {
        self.push_slot(Slot::Const4);
    }

    pub fn push_const5(&mut self)
        ensures
            final(self).slots() == old(self).slots().push(SlotV::Const5),
    {
        self.push_slot(Slot::Const5);
    }

    fn pop_slot(&mut self) -> (s: Slot)
        requires
            old(self).slots().len() > 0,
        ensures
            final(self).slots() == old(self).slots().drop_last(),
            slot_v(s) == old(self).slots().last(),
    {
        let s = self.inner.pop().unwrap();
        proof {
            assert(final(self).slots() =~= old(self).slots().drop_last());
        }
        s
    }

    /// Pops an `Int`: the top slot must be a small constant or a primitive
    /// payload of at least four bytes, which is read big-endian.
    pub fn pop_int(&mut self) -> (r: i32)
        requires
            old(self).slots().len() > 0,
            slot_int(old(self).slots().last()) is Some,
        ensures
            final(self).slots() == old(self).slots().drop_last(),
            Some(r) == slot_int(old(self).slots().last()),
    {
        let s = self.pop_slot();
        match s {
            Slot::ConstM1 => -1,
            Slot::Const0 => 0,
            Slot::Const1 => 1,
            Slot::Const2 => 2,
            Slot::Const3 => 3,
            Slot::Const4 => 4,
            Slot::Const5 => 5,
            Slot::Primitive(v) => {
                let b0 = crate::slot::bytes_at(&v, 0);
                let b1 = crate::slot::bytes_at(&v, 1);
                let b2 = crate::slot::bytes_at(&v, 2);
                let b3 = crate::slot::bytes_at(&v, 3);
                let u = crate::codec::u32_from_be(b0, b1, b2, b3);
                crate::codec::bits_to_i32(u)
            },
            _ => {
                proof {
                    assert(false);
                }
                0
            },
        }
    }

    /// Pops a `Long`: the top slot must be `Const0`, `Const1`, or a primitive
    /// payload of at least eight bytes.
    pub fn pop_long(&mut self) -> (r: i64)
        requires
            old(self).slots().len() > 0,
            slot_long(old(self).slots().last()) is Some,
        ensures
            final(self).slots() == old(self).slots().drop_last(),
            Some(r) == slot_long(old(self).slots().last()),
    {
        let s = self.pop_slot();
        match s {
            Slot::Const0 => 0,
            Slot::Const1 => 1,
            Slot::Primitive(v) => {
                let mut buf: [u8; 8] = [0; 8];
                buf[0] = crate::slot::bytes_at(&v, 0);
                buf[1] = crate::slot::bytes_at(&v, 1);
                buf[2] = crate::slot::bytes_at(&v, 2);
                buf[3] = crate::slot::bytes_at(&v, 3);
                buf[4] = crate::slot::bytes_at(&v, 4);
                buf[5] = crate::slot::bytes_at(&v, 5);
                buf[6] = crate::slot::bytes_at(&v, 6);
                buf[7] = crate::slot::bytes_at(&v, 7);
                let u = crate::codec::u64_from_be(&buf);
                proof {
                    let bv = crate::slot::bytes_view(v);
                    assert(crate::codec::be_u64(buf@) == crate::codec::be_u64(bv));
                }
                crate::codec::bits_to_i64(u)
            },
            _ => {
                proof {
                    assert(false);
                }
                0
            },
        }
    }

    /// Pops a reference: the top slot must be `Null` or a `Ref`.
    pub fn pop_ref(&mut self) -> (r: Oop)
        requires
            old(self).slots().len() > 0,
            slot_ref(old(self).slots().last()) is Some,
        ensures
            final(self).slots() == old(self).slots().drop_last(),
            Some(r) == slot_ref(old(self).slots().last()),
    {
        let s = self.pop_slot();
        match s {
            Slot::Null => Oop::Null,
            Slot::Ref(o) => o,
            _ => {
                proof {
                    assert(false);
                }
                Oop::Null
            },
        }
    }

    /// Discards the top slot; on an empty stack nothing happens.
    pub fn drop_top(&mut self)
        ensures
            final(self).slots() == if old(self).slots().len() > 0 {
                old(self).slots().drop_last()
            } else {
                old(self).slots()
            },
    {
        if self.inner.len() > 0 {
            let _ = self.pop_slot();
        }
    }

    pub fn clear(&mut self)
        ensures
            final(self).slots().len() == 0,
    {
        self.inner.clear();
        proof {
            assert(final(self).slots() =~= Seq::<SlotV>::empty());
        }
    }


    /// Pushes any slot.
    pub fn push_slot_value(&mut self, s: Slot)
        ensures
            final(self).slots() == old(self).slots().push(slot_v(s)),
    {
        self.push_slot(s);
    }

    /// Pops the top slot if one exists.
    pub fn pop_slot_checked(&mut self) -> (r: Option<Slot>)
        ensures
            match r {
                Some(s) => old(self).slots().len() > 0 && slot_v(s) == old(self).slots().last()
                    && final(self).slots() == old(self).slots().drop_last(),
                None => old(self).slots().len() == 0 && final(self).slots() == old(self).slots(),
            },
    {
        if self.inner.len() > 0 {
            Some(self.pop_slot())
        } else {
            None
        }
    }

    /// Pops an `Int` if the top slot holds one.
    pub fn pop_int_checked(&mut self) -> (r: Option<i32>)
        ensures
            match r {
                Some(i) => old(self).slots().len() > 0 && slot_int(old(self).slots().last())
                    == Some(i) && final(self).slots() == old(self).slots().drop_last(),
                None => final(self).slots() == if old(self).slots().len() > 0 {
                    old(self).slots().drop_last()
                } else {
                    old(self).slots()
                },
            },
    {
        if self.inner.len() == 0 {
            return None;
        }
        let s = self.pop_slot();
        match s {
            Slot::ConstM1 => Some(-1),
            Slot::Const0 => Some(0),
            Slot::Const1 => Some(1),
            Slot::Const2 => Some(2),
            Slot::Const3 => Some(3),
            Slot::Const4 => Some(4),
            Slot::Const5 => Some(5),
            Slot::Primitive(v) => {
                if crate::slot::bytes_len(&v) >= 4 {
                    let b0 = crate::slot::bytes_at(&v, 0);
                    let b1 = crate::slot::bytes_at(&v, 1);
                    let b2 = crate::slot::bytes_at(&v, 2);
                    let b3 = crate::slot::bytes_at(&v, 3);
                    Some(crate::codec::bits_to_i32(crate::codec::u32_from_be(b0, b1, b2, b3)))
                } else {
                    None
                }
            },
            _ => None,
        }
    }

    /// Pops a `Long` if the top slot holds one.
    pub fn pop_long_checked(&mut self) -> (r: Option<i64>)
        ensures
            match r {
                Some(l) => old(self).slots().len() > 0 && slot_long(old(self).slots().last())
                    == Some(l) && final(self).slots() == old(self).slots().drop_last(),
                None => final(self).slots() == if old(self).slots().len() > 0 {
                    old(self).slots().drop_last()
                } else {
                    old(self).slots()
                },
            },
    {
        if self.inner.len() == 0 {
            return None;
        }
        let s = self.pop_slot();
        match s {
            Slot::Const0 => Some(0),
            Slot::Const1 => Some(1),
            Slot::Primitive(v) => {
                if crate::slot::bytes_len(&v) >= 8 {
                    let mut buf: [u8; 8] = [0; 8];
                    buf[0] = crate::slot::bytes_at(&v, 0);
                    buf[1] = crate::slot::bytes_at(&v, 1);
                    buf[2] = crate::slot::bytes_at(&v, 2);
                    buf[3] = crate::slot::bytes_at(&v, 3);
                    buf[4] = crate::slot::bytes_at(&v, 4);
                    buf[5] = crate::slot::bytes_at(&v, 5);
                    buf[6] = crate::slot::bytes_at(&v, 6);
                    buf[7] = crate::slot::bytes_at(&v, 7);
                    let u = crate::codec::u64_from_be(&buf);
                    proof {
                        let bv = crate::slot::bytes_view(v);
                        assert(crate::codec::be_u64(buf@) == crate::codec::be_u64(bv));
                    }
                    Some(crate::codec::bits_to_i64(u))
                } else {
                    None
                }
            },
            _ => None,
        }
    }

    /// Pops a reference if the top slot holds one.
    pub fn pop_ref_checked(&mut self) -> (r: Option<Oop>)
        ensures
            match r {
                Some(o) => old(self).slots().len() > 0 && slot_ref(old(self).slots().last())
                    == Some(o) && final(self).slots() == old(self).slots().drop_last(),
                None => final(self).slots() == if old(self).slots().len() > 0 {
                    old(self).slots().drop_last()
                } else {
                    old(self).slots()
                },
            },
    {
        if self.inner.len() == 0 {
            return None;
        }
        let s = self.pop_slot();
        match s {
            Slot::Null => Some(Oop::Null),
            Slot::Ref(o) => Some(o),
            _ => None,
        }
    }

    /// Pop-after-push round trips: pushing an `Int` or a `Long` and popping
    /// it gives the value back.
    pub proof fn lemma_int_round(i: i32)
        ensures
            slot_int(SlotV::Prim(be_bytes4(bits_of_i32(i)))) == Some(i),
    {
        lemma_be4_round(bits_of_i32(i));
        lemma_i32_bits_round(i);
    }

    pub proof fn lemma_long_round(l: i64)
        ensures
            slot_long(SlotV::Prim(be_bytes8(bits_of_i64(l)))) == Some(l),
    {
        lemma_be8_round(bits_of_i64(l));
        lemma_i64_bits_round(l);
    }
}

} // verus!
