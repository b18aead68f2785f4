//! Value extraction helpers, reference equality, string values, identity
//! hashes, and the string pool.
//!
//! A `java/lang/String` instance holds its characters as a `[C` type array
//! behind its value field; the helpers here read and build that shape. Two
//! string literals with equal contents in one class-file context resolve to
//! the same handle through the pool.

use vstd::prelude::*;
use vstd::string::StringSliceAdditionalSpecFns;

use crate::class::{find_fid_from_end, ClassArea};
use crate::oop::{ClassId, Heap, InstDesc, Oop, OopDesc, RefKind, TypeArrayDesc};

verus! {

/// The internal name of the string class, as bytes: `java/lang/String`.
pub open spec fn java_lang_string_name() -> Seq<u8> {
    seq![
        0x6au8, 0x61u8, 0x76u8, 0x61u8, 0x2fu8, 0x6cu8, 0x61u8, 0x6eu8, 0x67u8, 0x2fu8, 0x53u8,
        0x74u8, 0x72u8, 0x69u8, 0x6eu8, 0x67u8,
    ]
}

/// The bytes of `java/lang/String`.
pub fn java_lang_string_bytes() -> (r: Vec<u8>)
    ensures
        r@ == java_lang_string_name(),
{
    let r: Vec<u8> = vec![
        0x6a, 0x61, 0x76, 0x61, 0x2f, 0x6c, 0x61, 0x6e, 0x67, 0x2f, 0x53, 0x74, 0x72, 0x69, 0x6e,
        0x67,
    ];
    proof {
        assert(r@ =~= java_lang_string_name());
    }
    r
}

/// The value is the null reference.
pub fn is_null(v: &Oop) -> (r: bool)
    ensures
        r == (*v is Null),
{
    match v {
        Oop::Null => true,
        _ => false,
    }
}

/// The handle resolves to an instance of `java/lang/String`.
pub open spec fn is_string_inst(classes: ClassArea, heap: Heap, h: usize) -> bool {
    &&& heap.valid_ref(h)
    &&& heap.objs()[h as int].v matches RefKind::Inst(inst) && classes.valid_class(inst.class)
        && classes.views()[inst.class as int].name@ == java_lang_string_name()
}

/// Whether a live handle is a string instance.
pub fn is_str(classes: &ClassArea, heap: &Heap, h: usize) -> (r: bool)
    requires
        heap.valid_ref(h),
        heap.objs()[h as int].v matches RefKind::Inst(inst) ==> classes.valid_class(inst.class),
    ensures
        r == is_string_inst(*classes, *heap, h),
{
    match &heap.get(h).v {
        RefKind::Inst(inst) => {
            let expected = java_lang_string_bytes();
            crate::classfile::bytes_eq(&classes.get(inst.class).name, expected.as_slice())
        },
        _ => false,
    }
}

/// The characters of the string instance at `h`, read through the value
/// field at `value_offset`.
pub open spec fn string_chars_at(heap: Heap, h: usize, value_offset: int) -> Option<Seq<u16>> {
    if heap.valid_ref(h) {
        match heap.objs()[h as int].v {
            RefKind::Inst(inst) => if 0 <= value_offset < inst.fields@.len() {
                match inst.fields@[value_offset] {
                    Oop::Ref(ah) => if heap.valid_ref(ah) {
                        match heap.objs()[ah as int].v {
                            RefKind::TypeArray(TypeArrayDesc::Char(cs)) => Some(cs@),
                            _ => None,
                        }
                    } else {
                        None
                    },
                    _ => None,
                }
            } else {
                None
            },
            _ => None,
        }
    } else {
        None
    }
}

/// Reads the character array of a string instance: the value field at the
/// given offset must hold a reference to a `Char` type array.
pub fn extract_java_lang_string_value(heap: &Heap, v: &Oop, value_offset: usize) -> (r: Vec<u16>)
    requires
        *v matches Oop::Ref(h) && string_chars_at(*heap, h, value_offset as int) is Some,
    ensures
        *v matches Oop::Ref(h) && Some(r@) == string_chars_at(*heap, h, value_offset as int),
{
    let h = extract_ref(v);
    match &heap.get(h).v {
        RefKind::Inst(inst) => {
            match &inst.fields[value_offset] {
                Oop::Ref(ah) => {
                    match &heap.get(*ah).v {
                        RefKind::TypeArray(TypeArrayDesc::Char(cs)) => copy_u16s(cs),
                        _ => {
                            proof {
                                assert(false);
                            }
                            Vec::new()
                        },
                    }
                },
                _ => {
                    proof {
                        assert(false);
                    }
                    Vec::new()
                },
            }
        },
        _ => {
            proof {
                assert(false);
            }
            Vec::new()
        },
    }
}

/// What `String::from_utf16_lossy` returns; the result depends on the
/// character units alone.
pub uninterp spec fn utf16_lossy(units: Seq<u16>) -> Seq<char>;

/// Relies on `String::from_utf16_lossy`: decodes UTF-16, replacing invalid
/// surrogates; an empty input gives an empty string.
#[verifier::external_body]
fn utf16_to_string(units: &Vec<u16>) -> (r: String)
    ensures
        r@ == utf16_lossy(units@),
        units@.len() == 0 ==> r@.len() == 0,
{
    String::from_utf16_lossy(units.as_slice())
}

/// The text of a string instance, decoded from its UTF-16 units.
pub fn extract_str(heap: &Heap, v: &Oop, value_offset: usize) -> (r: String)
    requires
        *v matches Oop::Ref(h) && string_chars_at(*heap, h, value_offset as int) is Some,
    ensures
        *v matches Oop::Ref(h) && r@ == utf16_lossy(
            string_chars_at(*heap, h, value_offset as int)->Some_0,
        ),
{
    let units = extract_java_lang_string_value(heap, v, value_offset);
    utf16_to_string(&units)
}

/// The `Int` payload of a value.
pub fn extract_int(v: &Oop) -> (r: i32)
    requires
        *v is Int,
    ensures
        *v == Oop::Int(r),
{
    match v {
        Oop::Int(i) => *i,
        _ => {
            proof {
                assert(false);
            }
            0
        },
    }
}

/// The `Long` payload of a value.
pub fn extract_long(v: &Oop) -> (r: i64)
    requires
        *v is Long,
    ensures
        *v == Oop::Long(r),
{
    match v {
        Oop::Long(i) => *i,
        _ => {
            proof {
                assert(false);
            }
            0
        },
    }
}

/// The handle of a reference value.
pub fn extract_ref(v: &Oop) -> (r: usize)
    requires
        *v is Ref,
    ensures
        *v == Oop::Ref(r),
{
    match v {
        Oop::Ref(h) => *h,
        _ => {
            proof {
                assert(false);
            }
            0
        },
    }
}


/// Reads the boxed value of a `java/lang/Integer` instance through its value
/// field at the given offset.
pub fn extract_java_lang_integer_value(heap: &Heap, v: &Oop, value_offset: usize) -> (r: i32)
    requires
        *v matches Oop::Ref(h) && heap.valid_ref(h) && (heap.objs()[h as int].v matches
            RefKind::Inst(inst) && value_offset < inst.fields@.len()
            && inst.fields@[value_offset as int] is Int),
    ensures
        *v matches Oop::Ref(h) && heap.objs()[h as int].v matches RefKind::Inst(inst)
            && Oop::Int(r) == inst.fields@[value_offset as int],
{
    let h = extract_ref(v);
    let fv = heap.get_field_value(h, value_offset);
    extract_int(&fv)
}

/// Reads the `eetop` long field of a `java/lang/Thread` instance.
pub fn extract_java_lang_thread_eetop(classes: &ClassArea, heap: &Heap, v: &Oop) -> (r: i64)
    requires
        *v matches Oop::Ref(h) && heap.valid_ref(h) && (heap.objs()[h as int].v matches
            RefKind::Inst(inst) && classes.valid_class(inst.class) && {
            let fields = classes.views()[inst.class as int].inst_fields@;
            find_fid_from_end(fields, eetop_name(), long_desc()) matches Some(off) && 0 <= off
                < inst.fields@.len() && inst.fields@[off] is Long
        }),
    ensures
        *v matches Oop::Ref(h) && heap.objs()[h as int].v matches RefKind::Inst(inst) && {
            let fields = classes.views()[inst.class as int].inst_fields@;
            find_fid_from_end(fields, eetop_name(), long_desc()) matches Some(off)
                && Oop::Long(r) == inst.fields@[off]
        },
{
    let h = extract_ref(v);
    let cid = match &heap.get(h).v {
        RefKind::Inst(inst) => inst.class,
        _ => {
            proof {
                assert(false);
            }
            0
        },
    };
    let name: Vec<u8> = vec![0x65, 0x65, 0x74, 0x6f, 0x70];
    let desc: Vec<u8> = vec![0x4a];
    proof {
        assert(name@ =~= eetop_name());
        assert(desc@ =~= long_desc());
    }
    let off = match classes.get_field_id(cid, &name, &desc) {
        Some(off) => off,
        None => {
            proof {
                assert(false);
            }
            0
        },
    };
    let val = heap.get_field_value(h, off);
    extract_long(&val)
}

/// The bytes of `eetop`.
pub open spec fn eetop_name() -> Seq<u8> {
    seq![0x65u8, 0x65u8, 0x74u8, 0x6fu8, 0x70u8]
}

/// The bytes of the long descriptor `J`.
pub open spec fn long_desc() -> Seq<u8> {
    seq![0x4au8]
}

/// `if_acmpeq` semantics: nulls are equal only to each other, a handle is
/// equal to itself, and two distinct string instances compare by contents.
pub open spec fn acmpeq_spec(
    classes: ClassArea,
    heap: Heap,
    v1: Oop,
    v2: Oop,
    value_offset: int,
) -> bool {
    match (v1, v2) {
        (Oop::Null, Oop::Null) => true,
        (Oop::Null, _) => false,
        (_, Oop::Null) => false,
        (Oop::Ref(h1), Oop::Ref(h2)) => h1 == h2 || (is_string_inst(classes, heap, h1)
            && is_string_inst(classes, heap, h2) && string_chars_at(heap, h1, value_offset)
            == string_chars_at(heap, h2, value_offset)),
        _ => false,
    }
}

/// Reference equality with string-literal tolerance: two references are
/// `acmpeq` when they are the same handle, or both are strings with equal
/// contents.
pub fn if_acmpeq(
    classes: &ClassArea,
    heap: &Heap,
    v1: &Oop,
    v2: &Oop,
    value_offset: usize,
) -> (r: bool)
    requires
        *v1 is Ref || *v1 is Null,
        *v2 is Ref || *v2 is Null,
        *v1 matches Oop::Ref(h) ==> heap.valid_ref(h) && (heap.objs()[h as int].v matches
            RefKind::Inst(inst) ==> classes.valid_class(inst.class)),
        *v2 matches Oop::Ref(h) ==> heap.valid_ref(h) && (heap.objs()[h as int].v matches
            RefKind::Inst(inst) ==> classes.valid_class(inst.class)),
        *v1 matches Oop::Ref(h) ==> (is_string_inst(*classes, *heap, h) ==> string_chars_at(
            *heap,
            h,
            value_offset as int,
        ) is Some),
        *v2 matches Oop::Ref(h) ==> (is_string_inst(*classes, *heap, h) ==> string_chars_at(
            *heap,
            h,
            value_offset as int,
        ) is Some),
    ensures
        r == acmpeq_spec(*classes, *heap, *v1, *v2, value_offset as int),
{
    let v1_is_null = is_null(v1);
    let v2_is_null = is_null(v2);
    if v1_is_null && v2_is_null {
        return true;
    }
    if v1_is_null || v2_is_null {
        return false;
    }
    let h1 = extract_ref(v1);
    let h2 = extract_ref(v2);
    if h1 == h2 {
        return true;
    }
    if is_str(classes, heap, h1) && is_str(classes, heap, h2) {
        let c1 = extract_java_lang_string_value(heap, v1, value_offset);
        let c2 = extract_java_lang_string_value(heap, v2, value_offset);
        u16s_eq(&c1, &c2)
    } else {
        false
    }
}

/// The bytes of `java/lang/Object`.
pub open spec fn java_lang_object_name() -> Seq<u8> {
    seq![
        0x6au8, 0x61u8, 0x76u8, 0x61u8, 0x2fu8, 0x6cu8, 0x61u8, 0x6eu8, 0x67u8, 0x2fu8, 0x4fu8,
        0x62u8, 0x6au8, 0x65u8, 0x63u8, 0x74u8,
    ]
}

pub fn java_lang_object_bytes() -> (r: Vec<u8>)
    ensures
        r@ == java_lang_object_name(),
{
    let r: Vec<u8> = vec![
        0x6a, 0x61, 0x76, 0x61, 0x2f, 0x6c, 0x61, 0x6e, 0x67, 0x2f, 0x4f, 0x62, 0x6a, 0x65, 0x63,
        0x74,
    ];
    proof {
        assert(r@ =~= java_lang_object_name());
    }
    r
}

/// The bytes of the field name `value`.
pub open spec fn string_value_name() -> Seq<u8> {
    seq![0x76u8, 0x61u8, 0x6cu8, 0x75u8, 0x65u8]
}

/// The bytes of the descriptor `[C`.
pub open spec fn char_array_desc() -> Seq<u8> {
    seq![0x5bu8, 0x43u8]
}

pub fn string_value_name_bytes() -> (r: Vec<u8>)
    ensures
        r@ == string_value_name(),
{
    let r: Vec<u8> = vec![0x76, 0x61, 0x6c, 0x75, 0x65];
    proof {
        assert(r@ =~= string_value_name());
    }
    r
}

pub fn char_array_desc_bytes() -> (r: Vec<u8>)
    ensures
        r@ == char_array_desc(),
{
    let r: Vec<u8> = vec![0x5b, 0x43];
    proof {
        assert(r@ =~= char_array_desc());
    }
    r
}

/// The characters a reference yields when it is a well-shaped string
/// instance: the instance's own class names the `value` slot, and that slot
/// holds a character array.
pub open spec fn string_value_of(classes: ClassArea, heap: Heap, v: Oop) -> Option<Seq<u16>> {
    match v {
        Oop::Ref(h) => if is_string_inst(classes, heap, h) {
            match heap.objs()[h as int].v {
                RefKind::Inst(inst) => match crate::class::find_fid_from_end(
                    classes.views()[inst.class as int].inst_fields@,
                    string_value_name(),
                    char_array_desc(),
                ) {
                    Some(off) => string_chars_at(heap, h, off),
                    None => None,
                },
                _ => None,
            }
        } else {
            None
        },
        _ => None,
    }
}

/// Reads a string argument's characters, answering nothing unless the value
/// is a well-shaped string instance on this runtime.
pub fn string_arg_units(classes: &ClassArea, heap: &Heap, v: &Oop) -> (r: Option<Vec<u16>>)
    ensures
        match r {
            Some(u) => string_value_of(*classes, *heap, *v) == Some(u@),
            None => string_value_of(*classes, *heap, *v) is None,
        },
{
    let h = match v {
        Oop::Ref(h) => *h,
        _ => {
            return None;
        },
    };
    if h >= heap.size() {
        return None;
    }
    let class = match &heap.get(h).v {
        RefKind::Inst(inst) => inst.class,
        _ => {
            return None;
        },
    };
    if class >= classes.count() {
        return None;
    }
    if !is_str(classes, heap, h) {
        return None;
    }
    let vname = string_value_name_bytes();
    let vdesc = char_array_desc_bytes();
    let off = match classes.get_field_id(class, &vname, &vdesc) {
        Some(o) => o,
        None => {
            return None;
        },
    };
    let ah = match &heap.get(h).v {
        RefKind::Inst(inst) => {
            if off >= inst.fields.len() {
                return None;
            }
            match &inst.fields[off] {
                Oop::Ref(ah) => *ah,
                _ => {
                    return None;
                },
            }
        },
        _ => {
            return None;
        },
    };
    if ah >= heap.size() {
        return None;
    }
    match &heap.get(ah).v {
        RefKind::TypeArray(TypeArrayDesc::Char(cs)) => Some(copy_u16s(cs)),
        _ => None,
    }
}

/// Narrows UTF-16 units to their low bytes: the names that cross the native
/// boundary are ASCII.
pub fn narrow_units(units: &Vec<u16>) -> (r: Vec<u8>)
    ensures
        r@ == units@.map_values(|u: u16| u as u8),
{
    let n = units.len();
    let mut r: Vec<u8> = Vec::with_capacity(n);
    let mut i: usize = 0;
    while i < n
        invariant
            i <= n,
            n == units@.len(),
            r@ == units@.take(i as int).map_values(|u: u16| u as u8),
        decreases n - i,
    {
        r.push(units[i] as u8);
        proof {
            assert(r@ =~= units@.take(i + 1 as int).map_values(|u: u16| u as u8));
        }
        i = i + 1;
    }
    proof {
        assert(units@.take(n as int) =~= units@);
    }
    r
}

/// Whether a popped reference is fit for the `acmpeq` comparison on this
/// runtime: null always is; a handle must be live, an instance's class must
/// be linked, and a string instance must hold a character array in its value
/// slot.
pub fn acmp_ready(classes: &ClassArea, heap: &Heap, v: &Oop, value_offset: usize) -> (r: bool)
    requires
        *v is Ref || *v is Null,
    ensures
        r ==> (*v matches Oop::Ref(h) ==> heap.valid_ref(h) && (heap.objs()[h as int].v matches
            RefKind::Inst(inst) ==> classes.valid_class(inst.class)) && (is_string_inst(
            *classes,
            *heap,
            h,
        ) ==> string_chars_at(*heap, h, value_offset as int) is Some)),
{
    match v {
        Oop::Null => true,
        Oop::Ref(h) => {
            if *h >= heap.size() {
                return false;
            }
            match &heap.get(*h).v {
                RefKind::Inst(inst) => {
                    if inst.class >= classes.count() {
                        return false;
                    }
                    if is_str(classes, heap, *h) {
                        if value_offset >= inst.fields.len() {
                            return false;
                        }
                        match &inst.fields[value_offset] {
                            Oop::Ref(ah) => {
                                if *ah >= heap.size() {
                                    return false;
                                }
                                matches!(
                                    &heap.get(*ah).v,
                                    RefKind::TypeArray(TypeArrayDesc::Char(_))
                                )
                            },
                            _ => false,
                        }
                    } else {
                        true
                    }
                },
                _ => true,
            }
        },
        _ => false,
    }
}

/// The 31-based rolling hash of UTF-16 units, with two's-complement wrap.
pub open spec fn hash31(s: Seq<u16>) -> i32
    decreases s.len(),
{
    if s.len() == 0 {
        0i32
    } else {
        vstd::wrapping::i32_specs::wrapping_add(
            vstd::wrapping::i32_specs::wrapping_mul(hash31(s.drop_last()), 31),
            s.last() as i32,
        )
    }
}

/// The identity hash of a value: null hashes to zero, a string instance to
/// the rolling hash of its characters, any other object to the low 32 bits
/// of its handle.
pub fn hash_code(classes: &ClassArea, heap: &Heap, v: &Oop, value_offset: usize) -> (r: i32)
    requires
        *v is Ref || *v is Null,
        *v matches Oop::Ref(h) ==> heap.valid_ref(h) && (heap.objs()[h as int].v matches
            RefKind::Inst(inst) ==> classes.valid_class(inst.class)),
        *v matches Oop::Ref(h) ==> (is_string_inst(*classes, *heap, h) ==> string_chars_at(
            *heap,
            h,
            value_offset as int,
        ) is Some),
    ensures
        *v is Null ==> r == 0,
        *v matches Oop::Ref(h) ==> r == if is_string_inst(*classes, *heap, h) {
            hash31(string_chars_at(*heap, h, value_offset as int)->Some_0)
        } else {
            crate::codec::i32_of_bits((h as u64 % 0x1_0000_0000) as u32)
        },
{
    match v {
        Oop::Null => 0,
        Oop::Ref(h) => {
            if is_str(classes, heap, *h) {
                let units = extract_java_lang_string_value(heap, v, value_offset);
                hash_units(&units)
            } else {
                let lo: u32 = ((*h as u64) % 0x1_0000_0000) as u32;
                crate::codec::bits_to_i32(lo)
            }
        },
        _ => {
            proof {
                assert(false);
            }
            0
        },
    }
}

/// The rolling hash of a unit vector.
pub fn hash_units(units: &Vec<u16>) -> (r: i32)
    ensures
        r == hash31(units@),
{
    let n = units.len();
    let mut h: i32 = 0;
    let mut i: usize = 0;
    while i < n
        invariant
            i <= n,
            n == units@.len(),
            h == hash31(units@.take(i as int)),
        decreases n - i,
    {
        let u = units[i];
        h = h.wrapping_mul(31).wrapping_add(u as i32);
        proof {
            assert(units@.take(i + 1 as int).drop_last() =~= units@.take(i as int));
            assert(units@.take(i + 1 as int).last() == units@[i as int]);
        }
        i = i + 1;
    }
    proof {
        assert(units@.take(n as int) =~= units@);
    }
    h
}

/// Each byte widened to a UTF-16 unit.
pub open spec fn widen_bytes(s: Seq<u8>) -> Seq<u16> {
    s.map_values(|b: u8| b as u16)
}

/// Builds a new `java/lang/String` instance over the bytes of `v`, each byte
/// widened to one character unit. Two cells are allocated: the character
/// array, then the instance whose value field refers to it; every other
/// field starts null.
pub fn new_java_lang_string2(
    heap: &mut Heap,
    v: &str,
    string_class: ClassId,
    num_fields: usize,
    value_offset: usize,
) -> (r: Oop)
    requires
        value_offset < num_fields,
    ensures
        final(heap).objs().len() == old(heap).objs().len() + 2,
        r == Oop::Ref((old(heap).objs().len() + 1) as usize),
        string_chars_at(
            *final(heap),
            (old(heap).objs().len() + 1) as usize,
            value_offset as int,
        ) == Some(widen_bytes(v.spec_bytes())),
        final(heap).objs()[old(heap).objs().len() + 1 as int].v matches RefKind::Inst(inst)
            && inst.class == string_class && inst.fields@.len() == num_fields,
        forall|j: int| 0 <= j < old(heap).objs().len() ==> final(heap).objs()[j] == old(
            heap,
        ).objs()[j],
{
    let bytes = v.as_bytes();
    let n = bytes.len();
    let mut chars: Vec<u16> = Vec::new();
    let mut i: usize = 0;
    while i < n
        invariant
            i <= n,
            n == bytes@.len(),
            chars@ == widen_bytes(bytes@.take(i as int)),
        decreases n - i,
    {
        chars.push(bytes[i] as u16);
        proof {
            assert(chars@ =~= widen_bytes(bytes@.take(i + 1 as int)));
        }
        i = i + 1;
    }
    proof {
        assert(bytes@.take(n as int) =~= bytes@);
    }
    let ary = heap.new_cell(OopDesc { v: RefKind::TypeArray(TypeArrayDesc::Char(chars)) });
    let mut fields: Vec<Oop> = Vec::new();
    let mut k: usize = 0;
    while k < num_fields
        invariant
            k <= num_fields,
            fields@.len() == k,
            forall|j: int| 0 <= j < k ==> fields@[j] == Oop::Null,
        decreases num_fields - k,
    {
        fields.push(Oop::Null);
        k = k + 1;
    }
    fields[value_offset] = Oop::Ref(ary);
    let inst = heap.new_cell(
        OopDesc { v: RefKind::Inst(InstDesc { class: string_class, fields }) },
    );
    Oop::Ref(inst)
}

/// An element-wise copy of a unit vector.
pub fn copy_u16s(v: &Vec<u16>) -> (r: Vec<u16>)
    ensures
        r@ == v@,
{
    let mut r: Vec<u16> = Vec::with_capacity(v.len());
    let mut i: usize = 0;
    while i < v.len()
        invariant
            i <= v@.len(),
            r@ == v@.subrange(0, i as int),
        decreases v@.len() - i,
    {
        r.push(v[i]);
        proof {
            assert(r@ =~= v@.subrange(0, i + 1 as int));
        }
        i = i + 1;
    }
    proof {
        assert(r@ =~= v@);
    }
    r
}

/// Element-wise equality of unit vectors.
pub fn u16s_eq(a: &Vec<u16>, b: &Vec<u16>) -> (r: bool)
    ensures
        r == (a@ == b@),
{
    if a.len() != b.len() {
        proof {
            assert(a@.len() != b@.len());
        }
        return false;
    }
    let n = a.len();
    let mut i: usize = 0;
    while i < n
        invariant
            i <= n,
            n == a@.len(),
            n == b@.len(),
            forall|j: int| 0 <= j < i ==> a@[j] == b@[j],
        decreases n - i,
    {
        if a[i] != b[i] {
            return false;
        }
        i = i + 1;
    }
    proof {
        assert(a@ =~= b@);
    }
    true
}

/// Builds a new `java/lang/String` instance over the given UTF-16 units. Two
/// cells are allocated: the character array, then the instance whose value
/// field refers to it; every other field starts null.
pub fn new_string_from_units(
    heap: &mut Heap,
    chars: Vec<u16>,
    string_class: ClassId,
    num_fields: usize,
    value_offset: usize,
) -> (r: usize)
    requires
        value_offset < num_fields,
    ensures
        final(heap).objs().len() == old(heap).objs().len() + 2,
        r == old(heap).objs().len() + 1,
        string_chars_at(*final(heap), r, value_offset as int) == Some(chars@),
        final(heap).objs()[r as int].v matches RefKind::Inst(inst) && inst.class == string_class
            && inst.fields@.len() == num_fields,
        forall|j: int| 0 <= j < old(heap).objs().len() ==> final(heap).objs()[j] == old(
            heap,
        ).objs()[j],
{
    let ary = heap.new_cell(OopDesc { v: RefKind::TypeArray(TypeArrayDesc::Char(chars)) });
    let mut fields: Vec<Oop> = Vec::new();
    let mut k: usize = 0;
    while k < num_fields
        invariant
            k <= num_fields,
            fields@.len() == k,
            forall|j: int| 0 <= j < k ==> fields@[j] == Oop::Null,
        decreases num_fields - k,
    {
        fields.push(Oop::Null);
        k = k + 1;
    }
    fields[value_offset] = Oop::Ref(ary);
    heap.new_cell(OopDesc { v: RefKind::Inst(InstDesc { class: string_class, fields }) })
}

/// The string pool: contents to handle. Two literals with equal contents in
/// one class-file context resolve to the same handle through it.
pub struct StringPool {
    entries: Vec<(Vec<u16>, usize)>,
}

/// The handle bound to the contents, if any; a later entry wins.
pub open spec fn pool_find(entries: Seq<(Vec<u16>, usize)>, key: Seq<u16>) -> Option<usize>
    decreases entries.len(),
{
    if entries.len() == 0 {
        None
    } else {
        if entries.last().0@ == key {
            Some(entries.last().1)
        } else {
            pool_find(entries.drop_last(), key)
        }
    }
}

impl StringPool {
    pub closed spec fn view(self) -> Seq<(Vec<u16>, usize)> {
        self.entries@
    }

    pub open spec fn spec_find(self, key: Seq<u16>) -> Option<usize> {
        pool_find(self.view(), key)
    }

    pub fn new() -> (r: StringPool)
        ensures
            forall|k: Seq<u16>| r.spec_find(k) is None,
    {
        let r = StringPool { entries: Vec::new() };
        proof {
            assert(forall|k: Seq<u16>| r.spec_find(k) is None);
        }
        r
    }

    fn find(&self, key: &Vec<u16>) -> (r: Option<usize>)
        ensures
            r == self.spec_find(key@),
    {
        let n = self.entries.len();
        let mut i: usize = n;
        proof {
            assert(self.view().take(n as int) =~= self.view());
        }
        while i > 0
            invariant
                i <= n,
                n == self.view().len(),
                pool_find(self.view().take(i as int), key@) == self.spec_find(key@),
            decreases i,
        {
            i = i - 1;
            let e = &self.entries[i];
            proof {
                assert(self.view().take(i + 1 as int).last() == self.view()[i as int]);
                assert(self.view().take(i + 1 as int).drop_last() =~= self.view().take(i as int));
            }
            if u16s_eq(&e.0, key) {
                return Some(e.1);
            }
        }
        proof {
            assert(self.view().take(0int) =~= Seq::<(Vec<u16>, usize)>::empty());
        }
        None
    }

    /// Resolves contents to a string handle: equal contents give the same
    /// handle back, unseen contents allocate one fresh string object and
    /// remember it.
    pub fn intern(
        &mut self,
        heap: &mut Heap,
        chars: Vec<u16>,
        string_class: ClassId,
        num_fields: usize,
        value_offset: usize,
    ) -> (h: usize)
        requires
            value_offset < num_fields,
        ensures
            final(self).spec_find(chars@) == Some(h),
            match old(self).spec_find(chars@) {
                Some(h0) => h == h0 && final(heap).objs() == old(heap).objs() && final(self).view()
                    == old(self).view(),
                None => {
                    &&& h == old(heap).objs().len() + 1
                    &&& final(heap).objs().len() == old(heap).objs().len() + 2
                    &&& string_chars_at(*final(heap), h, value_offset as int) == Some(chars@)
                    &&& forall|j: int| 0 <= j < old(heap).objs().len() ==> final(heap).objs()[j]
                        == old(heap).objs()[j]
                    &&& forall|k: Seq<u16>| k != chars@ ==> #[trigger] final(self).spec_find(k)
                        == old(self).spec_find(k)
                },
            },
    {
        match self.find(&chars) {
            Some(h0) => h0,
            None => {
                let key = copy_u16s(&chars);
                let h = new_string_from_units(heap, chars, string_class, num_fields, value_offset);
                self.entries.push((key, h));
                proof {
                    assert(self.view().drop_last() =~= old(self).view());
                }
                h
            },
        }
    }
}

/// The UTF-16 units a modified-UTF-8 byte sequence decodes to, if it is well
/// formed: one-byte units `0x01..0x7f`, two- and three-byte groups with
/// continuation bytes, and nothing else. A supplementary character is two
/// three-byte groups (a surrogate pair) and decodes to its two units as they
/// stand.
pub open spec fn mutf8_units(s: Seq<u8>) -> Option<Seq<u16>>
    decreases s.len(),
{
    if s.len() == 0 {
        Some(Seq::<u16>::empty())
    } else {
        let b0 = s[0];
        if 0x01 <= b0 <= 0x7f {
            match mutf8_units(s.skip(1)) {
                Some(t) => Some(seq![b0 as u16] + t),
                None => None,
            }
        } else if 0xc0 <= b0 <= 0xdf {
            if s.len() >= 2 && 0x80 <= s[1] <= 0xbf {
                let u = (((b0 - 0xc0) * 0x40 + (s[1] - 0x80)) as u16);
                match mutf8_units(s.skip(2)) {
                    Some(t) => Some(seq![u] + t),
                    None => None,
                }
            } else {
                None
            }
        } else if 0xe0 <= b0 <= 0xef {
            if s.len() >= 3 && 0x80 <= s[1] <= 0xbf && 0x80 <= s[2] <= 0xbf {
                let u = (((b0 - 0xe0) * 0x1000 + (s[1] - 0x80) * 0x40 + (s[2] - 0x80)) as u16);
                match mutf8_units(s.skip(3)) {
                    Some(t) => Some(seq![u] + t),
                    None => None,
                }
            } else {
                None
            }
        } else {
            None
        }
    }
}

/// Decodes a modified-UTF-8 byte string into its UTF-16 units, or nothing
/// when the bytes are malformed.
pub fn decode_modified_utf8(s: &Vec<u8>) -> (r: Option<Vec<u16>>)
    ensures
        match r {
            Some(v) => mutf8_units(s@) == Some(v@),
            None => mutf8_units(s@) is None,
        },
{
    let n = s.len();
    let mut out: Vec<u16> = Vec::new();
    let mut i: usize = 0;
    proof {
        assert(s@.skip(0) =~= s@);
        match mutf8_units(s@) {
            Some(t) => {
                assert(out@ + t =~= t);
            },
            None => {},
        }
    }
    while i < n
        invariant
            i <= n,
            n == s@.len(),
            match mutf8_units(s@.skip(i as int)) {
                Some(t) => mutf8_units(s@) == Some(out@ + t),
                None => mutf8_units(s@) is None,
            },
        decreases n - i,
    {
        let b0 = s[i];
        proof {
            assert(s@.skip(i as int)[0] == s@[i as int]);
            assert(s@.skip(i as int).len() == n - i);
        }
        if 0x01 <= b0 && b0 <= 0x7f {
            proof {
                assert(s@.skip(i as int).skip(1) =~= s@.skip(i + 1));
            }
            let ghost prev = out@;
            out.push(b0 as u16);
            proof {
                match mutf8_units(s@.skip(i + 1)) {
                    Some(t) => {
                        assert(prev + (seq![b0 as u16] + t) =~= out@ + t);
                    },
                    None => {},
                }
            }
            i = i + 1;
        } else if 0xc0 <= b0 && b0 <= 0xdf {
            if n - i <= 1 || !(0x80 <= s[i + 1] && s[i + 1] <= 0xbf) {
                return None;
            }
            proof {
                assert(s@.skip(i as int)[1] == s@[i + 1]);
                assert(s@.skip(i as int).skip(2) =~= s@.skip(i + 2));
            }
            let u: u16 = ((b0 - 0xc0) as u16) * 0x40 + ((s[i + 1] - 0x80) as u16);
            let ghost prev = out@;
            out.push(u);
            proof {
                match mutf8_units(s@.skip(i + 2)) {
                    Some(t) => {
                        assert(prev + (seq![u] + t) =~= out@ + t);
                    },
                    None => {},
                }
            }
            i = i + 2;
        } else if 0xe0 <= b0 && b0 <= 0xef {
            if n - i <= 2 || !(0x80 <= s[i + 1] && s[i + 1] <= 0xbf) || !(0x80 <= s[i + 2] && s[i
                + 2] <= 0xbf) {
                return None;
            }
            proof {
                assert(s@.skip(i as int)[1] == s@[i + 1]);
                assert(s@.skip(i as int)[2] == s@[i + 2]);
                assert(s@.skip(i as int).skip(3) =~= s@.skip(i + 3));
            }
            let u: u16 = ((b0 - 0xe0) as u16) * 0x1000 + ((s[i + 1] - 0x80) as u16) * 0x40 + ((s[i
                + 2] - 0x80) as u16);
            let ghost prev = out@;
            out.push(u);
            proof {
                match mutf8_units(s@.skip(i + 3)) {
                    Some(t) => {
                        assert(prev + (seq![u] + t) =~= out@ + t);
                    },
                    None => {},
                }
            }
            i = i + 3;
        } else {
            return None;
        }
    }
    proof {
        assert(s@.skip(n as int) =~= Seq::<u8>::empty());
        match mutf8_units(s@.skip(n as int)) {
            Some(t) => {
                assert(out@ + t =~= out@);
            },
            None => {},
        }
    }
    Some(out)
}

/// Builds a new `java/lang/String` over a modified-UTF-8 byte string, as the
/// constant pool stores string constants; malformed bytes are a class-format
/// condition.
pub fn new_java_lang_string3(
    heap: &mut Heap,
    bs: &Vec<u8>,
    string_class: ClassId,
    num_fields: usize,
    value_offset: usize,
) -> (r: Result<Oop, crate::errors::ClassFormat>)
    requires
        value_offset < num_fields,
    ensures
        match r {
            Ok(o) => mutf8_units(bs@) matches Some(units) && {
                &&& o == Oop::Ref((old(heap).objs().len() + 1) as usize)
                &&& final(heap).objs().len() == old(heap).objs().len() + 2
                &&& string_chars_at(
                    *final(heap),
                    (old(heap).objs().len() + 1) as usize,
                    value_offset as int,
                ) == Some(units)
            },
            Err(e) => e == crate::errors::ClassFormat::MalformedUtf8 && mutf8_units(bs@) is None
                && final(heap).objs() == old(heap).objs(),
        },
{
    match decode_modified_utf8(bs) {
        Some(units) => {
            let h = new_string_from_units(heap, units, string_class, num_fields, value_offset);
            Ok(Oop::Ref(h))
        },
        None => Err(crate::errors::ClassFormat::MalformedUtf8),
    }
}

} // verus!
