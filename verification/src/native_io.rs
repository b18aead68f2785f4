//! The `java/io/FileInputStream` natives: the registry entries, the file
//! descriptor plumbing through the object model, and the decision logic of
//! the read and available queries. The host performs the descriptor system
//! calls and hands the raw results in; everything that decides is here.

use vstd::prelude::*;

use crate::class::{find_fid_from_end, ClassArea};
use crate::errors::ExKind;
use crate::native_loader::{NativeFn, NativeMethod};
use crate::oop::{Heap, Oop, RefKind, TypeArrayDesc};

verus! {

/// The native methods this class binds: `initIDs`, `open0`, `readBytes`,
/// `available0` (twice, under both names the class library uses) and
/// `close0`.
pub fn get_native_methods() -> (r: Vec<NativeMethod>)
    ensures
        r@.len() == 6,
        r@[0].name@ == "initIDs"@ && r@[0].desc@ == "()V"@ && r@[0].func == NativeFn::InitIds,
        r@[1].name@ == "open0"@ && r@[1].desc@ == "(Ljava/lang/String;)V"@ && r@[1].func
            == NativeFn::Open0,
        r@[2].name@ == "readBytes"@ && r@[2].desc@ == "([BII)I"@ && r@[2].func
            == NativeFn::ReadBytes,
        r@[3].name@ == "available0"@ && r@[3].desc@ == "()I"@ && r@[3].func == NativeFn::Available0,
        r@[4].name@ == "available"@ && r@[4].desc@ == "()I"@ && r@[4].func == NativeFn::Available0,
        r@[5].name@ == "close0"@ && r@[5].desc@ == "()V"@ && r@[5].func == NativeFn::Close0,
{
    let mut r: Vec<NativeMethod> = Vec::new();
    r.push(NativeMethod { name: "initIDs".to_owned(), desc: "()V".to_owned(), func: NativeFn::InitIds });
    r.push(
        NativeMethod {
            name: "open0".to_owned(),
            desc: "(Ljava/lang/String;)V".to_owned(),
            func: NativeFn::Open0,
        },
    );
    r.push(
        NativeMethod {
            name: "readBytes".to_owned(),
            desc: "([BII)I".to_owned(),
            func: NativeFn::ReadBytes,
        },
    );
    r.push(
        NativeMethod {
            name: "available0".to_owned(),
            desc: "()I".to_owned(),
            func: NativeFn::Available0,
        },
    );
    r.push(
        NativeMethod {
            name: "available".to_owned(),
            desc: "()I".to_owned(),
            func: NativeFn::Available0,
        },
    );
    r.push(
        NativeMethod { name: "close0".to_owned(), desc: "()V".to_owned(), func: NativeFn::Close0 },
    );
    r
}

/// A request the engine hands to the host while a descriptor-backed native
/// runs: open a path read-only, read up to a count from a descriptor, gather
/// the availability facts of a descriptor, or close one.
pub enum HostRequest {
    Open(Vec<u8>),
    Read(i32, i32),
    Avail(i32),
    Close(i32),
}

/// The host's raw answer. The engine promises nothing of it and guards every
/// shape and bound before use.
pub enum HostReply {
    Fd(i32),
    Data(Vec<u8>, i64),
    AvailInfo(bool, Option<i32>, Option<i64>, Option<i64>),
    Done,
}

/// The port through which the engine reaches the host's descriptors. No
/// method promises anything of its answer: the callers state what holds of
/// every reply.
pub trait HostPort {
    fn perform(&mut self, req: HostRequest) -> HostReply;
}

/// The empty host: no files. Every request answers the failure shape, so a
/// run without a host sees closed streams rather than stuck frames.
pub struct NoHost;

impl HostPort for NoHost {
    fn perform(&mut self, req: HostRequest) -> HostReply {
        match req {
            HostRequest::Open(_) => HostReply::Fd(-1),
            HostRequest::Read(_, _) => HostReply::Data(Vec::new(), -1),
            HostRequest::Avail(_) => HostReply::AvailInfo(false, None, None, None),
            HostRequest::Close(_) => HostReply::Done,
        }
    }
}

/// Finds the int slot behind a stream object's descriptor chain, answering
/// nothing when any link of the chain is ill-shaped.
pub fn probe_fd_slot(classes: &ClassArea, heap: &Heap, h: usize) -> (r: Option<(usize, usize)>)
    ensures
        r == fd_slot_of(*classes, *heap, h),
{
    if h >= heap.size() {
        return None;
    }
    let fdn = fd_name_bytes();
    let holder = fd_holder_desc_bytes();
    let intd = int_desc_bytes();
    match &heap.get(h).v {
        RefKind::Inst(inst) => {
            if inst.class >= classes.count() {
                return None;
            }
            let off1 = match classes.get_field_id(inst.class, &fdn, &holder) {
                Some(o) => o,
                None => {
                    return None;
                },
            };
            if off1 >= inst.fields.len() {
                return None;
            }
            match &inst.fields[off1] {
                Oop::Ref(fdh) => {
                    if *fdh >= heap.size() {
                        return None;
                    }
                    match &heap.get(*fdh).v {
                        RefKind::Inst(fdi) => {
                            if fdi.class >= classes.count() {
                                return None;
                            }
                            let off2 = match classes.get_field_id(fdi.class, &fdn, &intd) {
                                Some(o) => o,
                                None => {
                                    return None;
                                },
                            };
                            if off2 >= fdi.fields.len() {
                                return None;
                            }
                            Some((*fdh, off2))
                        },
                        _ => None,
                    }
                },
                _ => None,
            }
        },
        _ => None,
    }
}

/// Reads the raw descriptor number of a stream object, answering nothing
/// when the chain is ill-shaped or the slot does not hold an int.
pub fn read_fd(classes: &ClassArea, heap: &Heap, v: &Oop) -> (r: Option<i32>)
    ensures
        r matches Some(fd) ==> (*v matches Oop::Ref(h) && (fd_slot_of(*classes, *heap, h) matches
            Some((fdh, off)) && heap.objs()[fdh as int].v matches RefKind::Inst(inst)
            && inst.fields@[off as int] == Oop::Int(fd))),
{
    let h = match v {
        Oop::Ref(h) => *h,
        _ => {
            return None;
        },
    };
    match probe_fd_slot(classes, heap, h) {
        Some((fdh, off)) => {
            match &heap.get(fdh).v {
                RefKind::Inst(inst) => match &inst.fields[off] {
                    Oop::Int(fd) => Some(*fd),
                    _ => None,
                },
                _ => None,
            }
        },
        None => None,
    }
}

/// `initIDs` is a no-op.
pub fn jvm_init_ids() -> (r: Result<Option<Oop>, ExKind>)
    ensures
        r == Ok::<Option<Oop>, ExKind>(None),
{
    Ok(None)
}

/// What `readBytes` answers for the host's read result: a positive count
/// passes through, a failed read raises an I/O condition, and end of stream
/// answers minus one.
pub fn read_bytes_outcome(n: i64) -> (r: Result<i32, ExKind>)
    requires
        n <= i32::MAX,
    ensures
        n > 0 ==> r == Ok::<i32, ExKind>(n as i32),
        n == -1 ==> r == Err::<i32, ExKind>(ExKind::Io),
        n <= 0 && n != -1 ==> r == Ok::<i32, ExKind>(-1i32),
{
    if n > 0 {
        Ok(n as i32)
    } else if n == -1 {
        Err(ExKind::Io)
    } else {
        Ok(-1)
    }
}

/// Applies the host's read result to a `readBytes` call: the byte-array
/// receiver gets the bytes the host read and the answer is the read-count
/// mapping. A null receiver raises the null condition; an offset or length
/// outside the array raises the bounds condition before anything is written.
pub fn read_bytes_apply(
    heap: &mut Heap,
    aref: &Oop,
    off: i32,
    len: i32,
    data: &Vec<u8>,
    n: i64,
) -> (r: Result<i32, ExKind>)
    requires
        *aref is Ref || *aref is Null,
        *aref matches Oop::Ref(h) ==> old(heap).valid_ref(h),
        n <= i32::MAX,
        n > 0 ==> n <= data@.len(),
        n > 0 ==> n <= len,
    ensures
        *aref is Null ==> r == Err::<i32, ExKind>(ExKind::NullPointer) && final(heap).objs()
            == old(heap).objs(),
        *aref matches Oop::Ref(h) ==> match old(heap).objs()[h as int].v {
            RefKind::TypeArray(TypeArrayDesc::Byte(a)) => if off < 0 || len < 0 || off as int
                + len as int > a@.len() {
                r == Err::<i32, ExKind>(ExKind::ArrayIndexOutOfBounds) && final(heap).objs()
                    == old(heap).objs()
            } else {
                let k: int = if n > 0 {
                    n as int
                } else {
                    0
                };
                &&& (n == -1 ==> r == Err::<i32, ExKind>(ExKind::Io))
                &&& (n > 0 ==> r == Ok::<i32, ExKind>(n as i32))
                &&& (n <= 0 && n != -1 ==> r == Ok::<i32, ExKind>(-1i32))
                &&& final(heap).objs().len() == old(heap).objs().len()
                &&& final(heap).objs()[h as int].v matches RefKind::TypeArray(
                    TypeArrayDesc::Byte(b),
                ) && b@.len() == a@.len() && (forall|j: int|
                    0 <= j < k ==> b@[off as int + j] == data@[j] as i8) && (forall|j: int|
                    0 <= j < a@.len() && !(off as int <= j < off as int + k) ==> b@[j] == a@[j])
                &&& forall|j: int| 0 <= j < final(heap).objs().len() && j != h
                    ==> final(heap).objs()[j] == old(heap).objs()[j]
            },
            _ => r == Err::<i32, ExKind>(ExKind::Internal) && final(heap).objs() == old(
                heap,
            ).objs(),
        },
{
    let h = match aref {
        Oop::Null => {
            return Err(ExKind::NullPointer);
        },
        Oop::Ref(h) => *h,
        _ => {
            return Err(ExKind::NullPointer);
        },
    };
    let alen: usize = match &heap.get(h).v {
        RefKind::TypeArray(TypeArrayDesc::Byte(a)) => a.len(),
        _ => {
            return Err(ExKind::Internal);
        },
    };
    if off < 0 || len < 0 || (len as usize) > alen || (off as usize) > alen - (len as usize) {
        return Err(ExKind::ArrayIndexOutOfBounds);
    }
    let k: usize = if n > 0 {
        n as usize
    } else {
        0
    };
    let mut j: usize = 0;
    while j < k
        invariant
            j <= k,
            k <= len,
            n > 0 ==> k == n && k <= data@.len(),
            n <= 0 ==> k == 0,
            off >= 0 && len >= 0 && off as int + len as int <= alen as int,
            heap.valid_ref(h),
            heap.objs().len() == old(heap).objs().len(),
            old(heap).objs()[h as int].v matches RefKind::TypeArray(TypeArrayDesc::Byte(a))
                && alen == a@.len(),
            heap.objs()[h as int].v matches RefKind::TypeArray(TypeArrayDesc::Byte(b))
                && old(heap).objs()[h as int].v matches RefKind::TypeArray(TypeArrayDesc::Byte(a))
                && b@.len() == a@.len() && (forall|t: int|
                0 <= t < j ==> b@[off as int + t] == data@[t] as i8) && (forall|t: int|
                0 <= t < a@.len() && !(off as int <= t < off as int + j) ==> b@[t] == a@[t]),
            forall|t: int| 0 <= t < heap.objs().len() && t != h ==> heap.objs()[t] == old(
                heap,
            ).objs()[t],
        decreases k - j,
    {
        heap.type_array_set_byte(h, (off as usize) + j, data[j] as i8);
        j = j + 1;
    }
    if n > 0 {
        Ok(n as i32)
    } else if n == -1 {
        Err(ExKind::Io)
    } else {
        Ok(-1)
    }
}

/// The `available0` decision tree over the host's raw answers: a closed
/// stream raises the I/O condition; a pipe, character device or socket
/// answers the host's queued byte count when the host gave one; otherwise
/// the distance from the current offset to the size, or zero where a seek
/// failed or the offsets are inconsistent.
pub fn available_outcome(
    fd: i32,
    stream_like: bool,
    fionread: Option<i32>,
    current: Option<i64>,
    size: Option<i64>,
) -> (r: Result<i32, ExKind>)
    ensures
        fd == -1 ==> r == Err::<i32, ExKind>(ExKind::Io),
        fd != -1 ==> match (if stream_like {
            fionread
        } else {
            None::<i32>
        }) {
            Some(q) => r == Ok::<i32, ExKind>(q),
            None => match current {
                None => r == Ok::<i32, ExKind>(0),
                Some(cur) => match size {
                    None => r == Ok::<i32, ExKind>(0),
                    Some(sz) => if 0 <= cur <= sz {
                        r == Ok::<i32, ExKind>(
                            crate::codec::i32_of_bits(
                                (crate::codec::bits_of_i64((sz - cur) as i64)
                                    % 0x1_0000_0000) as u32,
                            ),
                        )
                    } else {
                        r == Ok::<i32, ExKind>(0)
                    },
                },
            },
        },
{
    if fd == -1 {
        return Err(ExKind::Io);
    }
    if stream_like {
        match fionread {
            Some(q) => {
                return Ok(q);
            },
            None => {},
        }
    }
    let cur = match current {
        Some(c) => c,
        None => {
            return Ok(0);
        },
    };
    let sz = match size {
        Some(s) => s,
        None => {
            return Ok(0);
        },
    };
    if cur < 0 || sz < cur {
        return Ok(0);
    }
    Ok(available_len(sz, cur))
}

/// What `available0` answers once the stream offset is known: the bytes
/// between the current position and the size, truncated to 32 bits.
pub fn available_len(size: i64, current: i64) -> (r: i32)
    requires
        0 <= current <= size,
    ensures
        r == crate::codec::i32_of_bits(
            (crate::codec::bits_of_i64((size - current) as i64) % 0x1_0000_0000) as u32,
        ),
{
    crate::arith::l2i(size - current)
}

/// The bytes of `fd`.
pub open spec fn fd_name() -> Seq<u8> {
    seq![0x66u8, 0x64u8]
}

/// The bytes of the descriptor `Ljava/io/FileDescriptor;`.
pub open spec fn fd_holder_desc() -> Seq<u8> {
    seq![
        0x4cu8, 0x6au8, 0x61u8, 0x76u8, 0x61u8, 0x2fu8, 0x69u8, 0x6fu8, 0x2fu8, 0x46u8, 0x69u8,
        0x6cu8, 0x65u8, 0x44u8, 0x65u8, 0x73u8, 0x63u8, 0x72u8, 0x69u8, 0x70u8, 0x74u8, 0x6fu8,
        0x72u8, 0x3bu8,
    ]
}

/// The bytes of the int descriptor `I`.
pub open spec fn int_desc() -> Seq<u8> {
    seq![0x49u8]
}

fn fd_name_bytes() -> (r: Vec<u8>)
    ensures
        r@ == fd_name(),
{
    let r: Vec<u8> = vec![0x66, 0x64];
    proof {
        assert(r@ =~= fd_name());
    }
    r
}

fn fd_holder_desc_bytes() -> (r: Vec<u8>)
    ensures
        r@ == fd_holder_desc(),
{
    let r: Vec<u8> = vec![
        0x4c, 0x6a, 0x61, 0x76, 0x61, 0x2f, 0x69, 0x6f, 0x2f, 0x46, 0x69, 0x6c, 0x65, 0x44, 0x65,
        0x73, 0x63, 0x72, 0x69, 0x70, 0x74, 0x6f, 0x72, 0x3b,
    ];
    proof {
        assert(r@ =~= fd_holder_desc());
    }
    r
}

fn int_desc_bytes() -> (r: Vec<u8>)
    ensures
        r@ == int_desc(),
{
    let r: Vec<u8> = vec![0x49];
    proof {
        assert(r@ =~= int_desc());
    }
    r
}

/// Where the raw descriptor number of a stream object lives: the stream's
/// `fd` field holds a `java/io/FileDescriptor` whose own `fd` field is the
/// int slot; the result is that holder's handle and the slot's offset.
pub open spec fn fd_slot_of(classes: ClassArea, heap: Heap, h: usize) -> Option<(usize, usize)> {
    if heap.valid_ref(h) {
        match heap.objs()[h as int].v {
            RefKind::Inst(inst) => if classes.valid_class(inst.class) {
                match find_fid_from_end(
                    classes.views()[inst.class as int].inst_fields@,
                    fd_name(),
                    fd_holder_desc(),
                ) {
                    Some(off1) => if 0 <= off1 < inst.fields@.len() {
                        match inst.fields@[off1] {
                            Oop::Ref(fdh) => if heap.valid_ref(fdh) {
                                match heap.objs()[fdh as int].v {
                                    RefKind::Inst(fdi) => if classes.valid_class(fdi.class) {
                                        match find_fid_from_end(
                                            classes.views()[fdi.class as int].inst_fields@,
                                            fd_name(),
                                            int_desc(),
                                        ) {
                                            Some(off2) => if 0 <= off2 < fdi.fields@.len() {
                                                Some((fdh, off2 as usize))
                                            } else {
                                                None
                                            },
                                            None => None,
                                        }
                                    } else {
                                        None
                                    },
                                    _ => None,
                                }
                            } else {
                                None
                            },
                            _ => None,
                        }
                    } else {
                        None
                    },
                    None => None,
                }
            } else {
                None
            },
            _ => None,
        }
    } else {
        None
    }
}

/// Finds the int slot behind a stream object's descriptor chain.
fn locate_fd_slot(classes: &ClassArea, heap: &Heap, h: usize) -> (r: (usize, usize))
    requires
        fd_slot_of(*classes, *heap, h) is Some,
    ensures
        Some(r) == fd_slot_of(*classes, *heap, h),
{
    let fdn = fd_name_bytes();
    let holder = fd_holder_desc_bytes();
    let intd = int_desc_bytes();
    match &heap.get(h).v {
        RefKind::Inst(inst) => {
            let off1 = match classes.get_field_id(inst.class, &fdn, &holder) {
                Some(o) => o,
                None => {
                    proof {
                        assert(false);
                    }
                    0
                },
            };
            match &inst.fields[off1] {
                Oop::Ref(fdh) => {
                    match &heap.get(*fdh).v {
                        RefKind::Inst(fdi) => {
                            let off2 = match classes.get_field_id(fdi.class, &fdn, &intd) {
                                Some(o) => o,
                                None => {
                                    proof {
                                        assert(false);
                                    }
                                    0
                                },
                            };
                            (*fdh, off2)
                        },
                        _ => {
                            proof {
                                assert(false);
                            }
                            (0, 0)
                        },
                    }
                },
                _ => {
                    proof {
                        assert(false);
                    }
                    (0, 0)
                },
            }
        },
        _ => {
            proof {
                assert(false);
            }
            (0, 0)
        },
    }
}

/// Stores the raw descriptor number into a stream object.
pub fn set_file_descriptor_fd(classes: &ClassArea, heap: &mut Heap, fin: &Oop, fd: i32)
    requires
        *fin matches Oop::Ref(h) && fd_slot_of(*classes, *old(heap), h) is Some,
    ensures
        *fin matches Oop::Ref(h) && {
            let (fdh, off) = fd_slot_of(*classes, *old(heap), h)->Some_0;
            &&& final(heap).objs().len() == old(heap).objs().len()
            &&& final(heap).objs()[fdh as int].v matches RefKind::Inst(inst)
                && old(heap).objs()[fdh as int].v matches RefKind::Inst(inst0) && inst.class
                == inst0.class && inst.fields@ == inst0.fields@.update(off as int, Oop::Int(fd))
            &&& forall|j: int| 0 <= j < final(heap).objs().len() && j != fdh
                ==> final(heap).objs()[j] == old(heap).objs()[j]
        },
{
    let h = crate::oop_util::extract_ref(fin);
    let (fdh, off) = locate_fd_slot(classes, heap, h);
    heap.put_field_value(fdh, off, Oop::Int(fd));
}

/// Reads the raw descriptor number out of a stream object.
pub fn get_file_descriptor_fd(classes: &ClassArea, heap: &Heap, fin: &Oop) -> (r: i32)
    requires
        *fin matches Oop::Ref(h) && (fd_slot_of(*classes, *heap, h) matches Some((fdh, off))
            && heap.objs()[fdh as int].v matches RefKind::Inst(inst) && inst.fields@[off as int]
            is Int),
    ensures
        *fin matches Oop::Ref(h) && (fd_slot_of(*classes, *heap, h) matches Some((fdh, off))
            && heap.objs()[fdh as int].v matches RefKind::Inst(inst) && inst.fields@[off as int]
            == Oop::Int(r)),
{
    let h = crate::oop_util::extract_ref(fin);
    let (fdh, off) = locate_fd_slot(classes, heap, h);
    let v = heap.get_field_value(fdh, off);
    crate::oop_util::extract_int(&v)
}

} // verus!
