//! Operand-stack slots.
//!
//! A slot is either null, one of the small integer constants the `iconst_*`
//! family pushes, a primitive payload held as big-endian bytes in a shared
//! byte buffer, or an object reference. The byte buffer type comes from the
//! `bytes` crate and is opaque here; its contents are named by `bytes_view`
//! and reached through the trusted wrappers below.

use vstd::prelude::*;

use crate::oop::Oop;

verus! {

#[verifier::external_type_specification]
#[verifier::external_body]
pub struct ExBytes(bytes::Bytes);

/// What a `bytes::Bytes` buffer holds.
pub uninterp spec fn bytes_view(b: bytes::Bytes) -> Seq<u8>;

/// Relies on `bytes::Bytes::from(Vec<u8>)`: the buffer holds exactly the
/// vector's bytes.
#[verifier::external_body]
pub fn bytes_from_vec(v: Vec<u8>) -> (b: bytes::Bytes)
    ensures
        bytes_view(b) == v@,
{
    bytes::Bytes::from(v)
}

/// Relies on `bytes::Bytes::len`: the number of bytes the buffer holds.
#[verifier::external_body]
pub fn bytes_len(b: &bytes::Bytes) -> (n: usize)
    ensures
        n == bytes_view(*b).len(),
{
    b.len()
}

/// Relies on indexing through `Bytes`'s deref to `[u8]`: the byte at the
/// index.
#[verifier::external_body]
pub fn bytes_at(b: &bytes::Bytes, i: usize) -> (r: u8)
    requires
        i < bytes_view(*b).len(),
    ensures
        r == bytes_view(*b)[i as int],
{
    b[i]
}

/// One operand-stack slot.
pub enum Slot {
    Null,
    ConstM1,
    Const0,
    Const1,
    Const2,
    Const3,
    Const4,
    Const5,
    Primitive(bytes::Bytes),
    Ref(Oop),
}

/// The mathematical shape of a slot: the byte buffer replaced by the byte
/// sequence it holds.
pub enum SlotV {
    Null,
    ConstM1,
    Const0,
    Const1,
    Const2,
    Const3,
    Const4,
    Const5,
    Prim(Seq<u8>),
    Ref(Oop),
}

pub open spec fn slot_v(s: Slot) -> SlotV {
    match s {
        Slot::Null => SlotV::Null,
        Slot::ConstM1 => SlotV::ConstM1,
        Slot::Const0 => SlotV::Const0,
        Slot::Const1 => SlotV::Const1,
        Slot::Const2 => SlotV::Const2,
        Slot::Const3 => SlotV::Const3,
        Slot::Const4 => SlotV::Const4,
        Slot::Const5 => SlotV::Const5,
        Slot::Primitive(b) => SlotV::Prim(bytes_view(b)),
        Slot::Ref(o) => SlotV::Ref(o),
    }
}

/// The 32-bit value a slot yields to `pop_int`: the small constants map to
/// themselves, a primitive payload is read as its first four big-endian
/// bytes, anything else is ill-typed.
pub open spec fn slot_int(s: SlotV) -> Option<i32> {
    match s {
        SlotV::ConstM1 => Some(-1i32),
        SlotV::Const0 => Some(0i32),
        SlotV::Const1 => Some(1i32),
        SlotV::Const2 => Some(2i32),
        SlotV::Const3 => Some(3i32),
        SlotV::Const4 => Some(4i32),
        SlotV::Const5 => Some(5i32),
        SlotV::Prim(b) => if b.len() >= 4 {
            Some(crate::codec::i32_of_bits(crate::codec::be_u32(b[0], b[1], b[2], b[3])))
        } else {
            None
        },
        _ => None,
    }
}

/// The 64-bit value a slot yields to `pop_long`.
pub open spec fn slot_long(s: SlotV) -> Option<i64> {
    match s {
        SlotV::Const0 => Some(0i64),
        SlotV::Const1 => Some(1i64),
        SlotV::Prim(b) => if b.len() >= 8 {
            Some(crate::codec::i64_of_bits(crate::codec::be_u64(b)))
        } else {
            None
        },
        _ => None,
    }
}

/// The reference a slot yields to `pop_ref`.
pub open spec fn slot_ref(s: SlotV) -> Option<Oop> {
    match s {
        SlotV::Null => Some(Oop::Null),
        SlotV::Ref(o) => Some(o),
        _ => None,
    }
}

/// Relies on `bytes::Bytes::clone`: a cheap second handle to the same bytes.
#[verifier::external_body]
pub fn bytes_clone(b: &bytes::Bytes) -> (r: bytes::Bytes)
    ensures
        bytes_view(r) == bytes_view(*b),
{
    b.clone()
}

/// A copy of a slot with the same shape.
/// Whether a slot holds a wide (64-bit) primitive payload: the second
/// category of the stack-shuffle opcodes, with the two-slot rule collapsed.
pub fn slot_is_wide(s: &Slot) -> (r: bool)
    ensures
        r == (slot_v(*s) matches SlotV::Prim(b) && b.len() == 8),
{
    match s {
        Slot::Primitive(b) => bytes_len(b) == 8,
        _ => false,
    }
}

pub fn clone_slot(s: &Slot) -> (r: Slot)
    ensures
        slot_v(r) == slot_v(*s),
{
    match s {
        Slot::Null => Slot::Null,
        Slot::ConstM1 => Slot::ConstM1,
        Slot::Const0 => Slot::Const0,
        Slot::Const1 => Slot::Const1,
        Slot::Const2 => Slot::Const2,
        Slot::Const3 => Slot::Const3,
        Slot::Const4 => Slot::Const4,
        Slot::Const5 => Slot::Const5,
        Slot::Primitive(b) => Slot::Primitive(bytes_clone(b)),
        Slot::Ref(o) => Slot::Ref(*o),
    }
}

} // verus!
