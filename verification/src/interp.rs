//! The bytecode interpreter.
//!
//! A plain decode-execute cycle over the integer, reference, array, field,
//! branch and invocation families: read the opcode at the program counter,
//! decode its inline operands, mutate the operand stack, locals and counter.
//! Invocation pushes a fresh frame (realized as a recursive call bounded by
//! the frame budget, so deep recursion surfaces `StackOverflow` rather than
//! corrupting the host); each call also carries a step budget, and a
//! computation that exceeds it surfaces an internal condition. A condition
//! raised by an opcode propagates outward to the caller; an ill-formed frame
//! (a malformed descriptor, a wrongly-typed slot) is an internal condition,
//! never a wrong answer.
//!
//! Propagation follows the exception model: a condition raised by an opcode
//! or thrown by `athrow` is held against the frame's exception table (by
//! assignability over the linked superclass chain and direct interfaces); a
//! matching handler clears the operand stack, receives the exception object,
//! and takes over at its target, and an unhandled condition pops the frame
//! and retries on the caller. A first use of a class (`new`, a static access
//! or call) runs its initializer chain root-first. The descriptor-backed
//! natives reach the host through the `HostPort` the caller supplies. The
//! float and double families and dynamic call sites are outside this core
//! and surface internal conditions.

use vstd::prelude::*;

use crate::arith;
use crate::errors::ExKind;
use crate::local::Local;
use crate::native_io::{HostPort, HostReply, HostRequest};
use crate::oop::{
    array_check, array_length, ClassId, Heap, InstDesc, Oop, OopDesc, RefKind, TypeArrayDesc,
};
use crate::runtime::Vm;
use crate::stack::Stack;

verus! {

/// The one thread this core interprets on.
pub const MAIN_THREAD: crate::monitor::ThreadId = 1;

/// An argument or return slot kind read off a method descriptor: an
/// int-like, a long, a float, a double, a reference, or void (returns only).
#[derive(Clone, Copy, Debug, PartialEq, Eq, Structural)]
pub enum SlotKind {
    IntLike,
    LongKind,
    FloatKind,
    DoubleKind,
    RefKind,
    VoidKind,
}

/// Reads a method descriptor into its argument kinds and return kind. An
/// object or array argument is one reference slot; `B`, `C`, `S`, `Z` and
/// `I` are one int slot; long and double take one slot each in this core.
fn parse_descriptor(desc: &Vec<u8>) -> (r: Option<(Vec<SlotKind>, SlotKind)>)
{
    let n = desc.len();
    if n < 3 || desc[0] != 0x28 {
        return None;
    }
    let mut args: Vec<SlotKind> = Vec::new();
    let mut i: usize = 1;
    while i < n && desc[i] != 0x29
        invariant
            1 <= i <= n,
            n == desc@.len(),
        decreases n - i,
    {
        let b = desc[i];
        if b == 0x42 || b == 0x43 || b == 0x53 || b == 0x5a || b == 0x49 {
            args.push(SlotKind::IntLike);
            i = i + 1;
        } else if b == 0x4a {
            args.push(SlotKind::LongKind);
            i = i + 1;
        } else if b == 0x46 {
            args.push(SlotKind::FloatKind);
            i = i + 1;
        } else if b == 0x44 {
            args.push(SlotKind::DoubleKind);
            i = i + 1;
        } else if b == 0x5b {
            let mut j: usize = i;
            while j < n && desc[j] == 0x5b
                invariant
                    i <= j <= n,
                    n == desc@.len(),
                decreases n - j,
            {
                j = j + 1;
            }
            if j >= n {
                return None;
            }
            if desc[j] == 0x4c {
                let mut k: usize = j;
                while k < n && desc[k] != 0x3b
                    invariant
                        j <= k <= n,
                        n == desc@.len(),
                    decreases n - k,
                {
                    k = k + 1;
                }
                if k >= n {
                    return None;
                }
                args.push(SlotKind::RefKind);
                i = k + 1;
            } else {
                args.push(SlotKind::RefKind);
                i = j + 1;
            }
        } else if b == 0x4c {
            let mut k: usize = i;
            while k < n && desc[k] != 0x3b
                invariant
                    i <= k <= n,
                    n == desc@.len(),
                decreases n - k,
            {
                k = k + 1;
            }
            if k >= n {
                return None;
            }
            args.push(SlotKind::RefKind);
            i = k + 1;
        } else {
            return None;
        }
    }
    if i >= n || desc[i] != 0x29 {
        return None;
    }
    if i + 1 >= n {
        return None;
    }
    let rb = desc[i + 1];
    let ret = if rb == 0x56 {
        SlotKind::VoidKind
    } else if rb == 0x4a {
        SlotKind::LongKind
    } else if rb == 0x46 {
        SlotKind::FloatKind
    } else if rb == 0x44 {
        SlotKind::DoubleKind
    } else if rb == 0x4c || rb == 0x5b {
        SlotKind::RefKind
    } else {
        SlotKind::IntLike
    };
    Some((args, ret))
}

/// Resolves a `Fieldref`, `Methodref` or `InterfaceMethodref` constant to
/// (class name, member name, member descriptor).
fn cp_member_ref(cp: &Vec<crate::classfile::ConstantType>, idx: u16) -> (r: Option<
    (Vec<u8>, Vec<u8>, Vec<u8>),
>)
{
    if (idx as usize) >= cp.len() {
        return None;
    }
    let (class_index, nat_index) = match &cp[idx as usize] {
        crate::classfile::ConstantType::FieldRef { class_index, name_and_type_index } => (
            *class_index,
            *name_and_type_index,
        ),
        crate::classfile::ConstantType::MethodRef { class_index, name_and_type_index } => (
            *class_index,
            *name_and_type_index,
        ),
        crate::classfile::ConstantType::InterfaceMethodRef {
            class_index,
            name_and_type_index,
        } => (*class_index, *name_and_type_index),
        _ => {
            return None;
        },
    };
    let class_name = match crate::runtime::resolve_class_name(cp, class_index) {
        Some(v) => v,
        None => {
            return None;
        },
    };
    if (nat_index as usize) >= cp.len() {
        return None;
    }
    let (name_index, desc_index) = match &cp[nat_index as usize] {
        crate::classfile::ConstantType::NameAndType { name_index, desc_index } => (
            *name_index,
            *desc_index,
        ),
        _ => {
            return None;
        },
    };
    let name = match crate::classfile::get_utf8(cp, name_index) {
        Some(v) => v,
        None => {
            return None;
        },
    };
    let desc = match crate::classfile::get_utf8(cp, desc_index) {
        Some(v) => v,
        None => {
            return None;
        },
    };
    Some((class_name, name, desc))
}

/// The zero value an instance field of this type starts with.
fn default_field_value(vt: crate::field::ValueType) -> (r: Oop)
    ensures
        r == crate::field::zero_of_type(vt),
{
    match vt {
        crate::field::ValueType::Long => Oop::Long(0),
        crate::field::ValueType::Float => Oop::Float(0),
        crate::field::ValueType::Double => Oop::Double(0),
        crate::field::ValueType::Object => Oop::Null,
        crate::field::ValueType::Array => Oop::Null,
        _ => Oop::Int(0),
    }
}

/// Allocates an instance of a class: one fresh heap cell whose field slots
/// are the declared instance fields, each at the zero value of its type.
/// Nothing else changes and the allocation never fails.
pub fn new_instance(vm: &mut Vm, cid: ClassId) -> (r: Result<usize, ExKind>)
    requires
        old(vm).classes.valid_class(cid),
    ensures
        final(vm).classes.views() == old(vm).classes.views(),
        final(vm).dic == old(vm).dic,
        r matches Ok(h) ==> {
            &&& h == old(vm).heap.objs().len()
            &&& final(vm).heap.objs().len() == old(vm).heap.objs().len() + 1
            &&& forall|j: int| 0 <= j < old(vm).heap.objs().len() ==> final(vm).heap.objs()[j]
                == old(vm).heap.objs()[j]
            &&& final(vm).heap.objs()[h as int].v matches RefKind::Inst(inst) && inst.class == cid
                && inst.fields@.len() == old(vm).classes.views()[cid as int].inst_fields@.len() && (
            forall|j: int| 0 <= j < inst.fields@.len() ==> inst.fields@[j]
                == crate::field::zero_of_type(
                old(vm).classes.views()[cid as int].inst_fields@[j].field.value_type,
            ))
            &&& final(vm).heap.valid_ref(h)
        },
        r is Ok,
{
    let nf = vm.classes.get(cid).inst_fields.len();
    let mut fields: Vec<Oop> = Vec::new();
    let mut i: usize = 0;
    while i < nf
        invariant
            i <= nf,
            vm.classes.valid_class(cid),
            vm.classes.views() == old(vm).classes.views(),
            vm.heap.objs() == old(vm).heap.objs(),
            vm.dic == old(vm).dic,
            nf == vm.classes.views()[cid as int].inst_fields@.len(),
            fields@.len() == i,
            forall|j: int| 0 <= j < i ==> fields@[j] == crate::field::zero_of_type(
                vm.classes.views()[cid as int].inst_fields@[j].field.value_type,
            ),
        decreases nf - i,
    {
        let vt = vm.classes.get(cid).inst_fields[i].field.value_type;
        fields.push(default_field_value(vt));
        i = i + 1;
    }
    let h = vm.heap.new_cell(OopDesc { v: RefKind::Inst(InstDesc { class: cid, fields }) });
    Ok(h)
}

/// Reads the signed 16-bit branch offset at `pc + 1` and applies it to the
/// opcode's own position.
fn branch_target(code: &Vec<u8>, pc: usize) -> (r: Option<usize>)
    ensures
        r matches Some(t) ==> t < code@.len(),
{
    if code.len() < 3 || pc >= code.len() - 2 {
        return None;
    }
    let hi = code[pc + 1];
    let lo = code[pc + 2];
    let off_u = crate::codec::u16_from_be(hi, lo);
    if off_u >= 0x8000 {
        let back = (0x10000u32 - (off_u as u32)) as usize;
        if back > pc {
            None
        } else {
            Some(pc - back)
        }
    } else {
        let fwd = off_u as usize;
        if fwd >= code.len() - pc {
            None
        } else {
            Some(pc + fwd)
        }
    }
}

/// The object element name of an array descriptor: the dimension markers
/// stripped, then the `L` and `;` of the class wrapper.
pub open spec fn element_name_of(s: Seq<u8>) -> Option<Seq<u8>>
    decreases s.len(),
{
    if s.len() == 0 {
        None
    } else if s[0] == 0x5b {
        element_name_of(s.skip(1))
    } else if s[0] == 0x4c && s.len() >= 2 && s.last() == 0x3b {
        Some(s.subrange(1, s.len() - 1))
    } else {
        None
    }
}

/// Strips an array descriptor down to its object element name.
fn element_class_name(s: &Vec<u8>) -> (r: Option<Vec<u8>>)
    ensures
        match r {
            Some(v) => element_name_of(s@) == Some(v@),
            None => element_name_of(s@) is None,
        },
{
    let n = s.len();
    let mut i: usize = 0;
    proof {
        assert(s@.skip(0) =~= s@);
    }
    while i < n && s[i] == 0x5b
        invariant
            i <= n,
            n == s@.len(),
            element_name_of(s@) == element_name_of(s@.skip(i as int)),
        decreases n - i,
    {
        proof {
            assert(s@.skip(i as int)[0] == s@[i as int]);
            assert(s@.skip(i as int).skip(1) =~= s@.skip(i + 1));
        }
        i = i + 1;
    }
    if i >= n {
        return None;
    }
    if s[i] != 0x4c || n - i < 2 || s[n - 1] != 0x3b {
        proof {
            assert(s@.skip(i as int)[0] == s@[i as int]);
            assert(s@.skip(i as int).last() == s@[n - 1]);
        }
        return None;
    }
    let mut out: Vec<u8> = Vec::new();
    let mut j: usize = i + 1;
    while j < n - 1
        invariant
            i + 1 <= j <= n - 1,
            n == s@.len(),
            out@ == s@.subrange(i + 1 as int, j as int),
        decreases n - j,
    {
        out.push(s[j]);
        proof {
            assert(out@ =~= s@.subrange(i + 1 as int, j + 1 as int));
        }
        j = j + 1;
    }
    proof {
        assert(s@.skip(i as int)[0] == s@[i as int]);
        assert(s@.skip(i as int).last() == s@[n - 1]);
        assert(s@.skip(i as int).subrange(1, s@.skip(i as int).len() - 1) =~= s@.subrange(
            i + 1 as int,
            n - 1 as int,
        ));
        assert(out@ =~= s@.subrange(i + 1 as int, n - 1 as int));
    }
    Some(out)
}

/// Builds the nested arrays of `multianewarray`: `counts[d..]` are the
/// remaining dimension lengths, outermost first; every level is an object
/// array of the element class, the innermost filled with nulls.
fn alloc_multi(heap: &mut Heap, ecid: ClassId, counts: &Vec<i32>, d: usize) -> (r: Result<
    usize,
    ExKind,
>)
    requires
        d < counts@.len(),
        forall|t: int| 0 <= t < counts@.len() ==> #[trigger] counts@[t] >= 0,
    ensures
        final(heap).objs().len() >= old(heap).objs().len(),
        r matches Ok(h) ==> final(heap).valid_ref(h),
        r is Ok,
    decreases counts@.len() - d,
{
    let n_total = counts.len();
    let n = counts[d] as usize;
    let mut elems: Vec<Oop> = Vec::new();
    if d + 1 == n_total {
        let mut z: usize = 0;
        while z < n
            invariant
                z <= n,
            decreases n - z,
        {
            elems.push(Oop::Null);
            z = z + 1;
        }
    } else {
        let mut z: usize = 0;
        while z < n
            invariant
                z <= n,
                n_total == counts@.len(),
                d + 1 < n_total,
                forall|t: int| 0 <= t < counts@.len() ==> #[trigger] counts@[t] >= 0,
                heap.objs().len() >= old(heap).objs().len(),
            decreases n - z,
        {
            match alloc_multi(heap, ecid, counts, d + 1) {
                Ok(h) => elems.push(Oop::Ref(h)),
                Err(e) => {
                    return Err(e);
                },
            }
            z = z + 1;
        }
    }
    let h = heap.new_cell(OopDesc { v: RefKind::ObjArray(ecid, elems) });
    Ok(h)
}

/// Reads the signed 32-bit big-endian word at `p`.
fn read_i32_at(code: &Vec<u8>, p: usize) -> (r: Option<i32>)
    ensures
        r matches Some(v) ==> p + 4 <= code@.len(),
{
    if code.len() < 4 || p > code.len() - 4 {
        return None;
    }
    Some(
        crate::codec::bits_to_i32(
            crate::codec::u32_from_be(code[p], code[p + 1], code[p + 2], code[p + 3]),
        ),
    )
}

/// Applies a signed 32-bit branch offset to the opcode's own position.
fn wide_target(code: &Vec<u8>, pc: usize, off: i32) -> (r: Option<usize>)
    requires
        pc < code@.len(),
    ensures
        r matches Some(t) ==> t < code@.len(),
{
    if off < 0 {
        let back = (-(off as i64)) as usize;
        if back > pc {
            None
        } else {
            Some(pc - back)
        }
    } else {
        let fwd = off as usize;
        if fwd >= code.len() - pc {
            None
        } else {
            Some(pc + fwd)
        }
    }
}

/// Performs a registered native in place. The registry lookup keys on the
/// declaring class, the method name and the descriptor; the loader queries
/// run against the runtime itself; the descriptor-backed natives go through
/// the host port, and every answer of the port is guarded here before use.
fn dispatch_native<H: HostPort>(
    vm: &mut Vm,
    host: &mut H,
    cid: ClassId,
    midx: usize,
    args: &Vec<Oop>,
) -> (r: Result<Option<Oop>, ExKind>)
    requires
        old(vm).classes.valid_class(cid),
        midx < old(vm).classes.views()[cid as int].methods@.len(),
    ensures
        final(vm).heap.objs().len() >= old(vm).heap.objs().len(),
        final(vm).classes.views().len() == old(vm).classes.views().len(),
{
    let nf = {
        let d = vm.classes.get(cid);
        crate::native_loader::lookup_native(&d.name, &d.methods[midx].name, &d.methods[midx].desc)
    };
    match nf {
        Some(crate::native_loader::NativeFn::RegisterNatives) => Ok(None),
        Some(crate::native_loader::NativeFn::InitIds) => Ok(None),
        Some(crate::native_loader::NativeFn::FindBuiltinLib) => {
            // findBuiltinLib always returns null
            Ok(Some(Oop::Null))
        },
        Some(crate::native_loader::NativeFn::FindLoadedClass0) | Some(
            crate::native_loader::NativeFn::FindBootstrapClass,
        ) => {
            // the dotted name is the last argument, a string object
            if args.len() == 0 {
                return Err(ExKind::Internal);
            }
            let sarg = &args[args.len() - 1];
            let units = match crate::oop_util::string_arg_units(&vm.classes, &vm.heap, sarg) {
                Some(u) => u,
                None => {
                    return Err(ExKind::Internal);
                },
            };
            let name = crate::oop_util::narrow_units(&units);
            let found = crate::native_loader::jvm_find_loaded_class0(&vm.classes, &vm.dic, &name);
            Ok(Some(found))
        },
        Some(crate::native_loader::NativeFn::Open0) => {
            if args.len() < 2 {
                return Err(ExKind::Internal);
            }
            let units = match crate::oop_util::string_arg_units(&vm.classes, &vm.heap, &args[1]) {
                Some(u) => u,
                None => {
                    return Err(ExKind::Internal);
                },
            };
            let path = crate::oop_util::narrow_units(&units);
            let fd = match host.perform(HostRequest::Open(path)) {
                HostReply::Fd(fd) => fd,
                _ => {
                    return Err(ExKind::Internal);
                },
            };
            let h = match &args[0] {
                Oop::Ref(h) => *h,
                _ => {
                    return Err(ExKind::Internal);
                },
            };
            match crate::native_io::probe_fd_slot(&vm.classes, &vm.heap, h) {
                Some((fdh, off)) => {
                    vm.heap.put_field_value(fdh, off, Oop::Int(fd));
                    Ok(None)
                },
                None => Err(ExKind::Internal),
            }
        },
        Some(crate::native_loader::NativeFn::ReadBytes) => {
            if args.len() < 4 {
                return Err(ExKind::Internal);
            }
            let fd = match crate::native_io::read_fd(&vm.classes, &vm.heap, &args[0]) {
                Some(f) => f,
                None => {
                    return Err(ExKind::Internal);
                },
            };
            let aref = args[1];
            let off = match &args[2] {
                Oop::Int(v) => *v,
                _ => {
                    return Err(ExKind::Internal);
                },
            };
            let len = match &args[3] {
                Oop::Int(v) => *v,
                _ => {
                    return Err(ExKind::Internal);
                },
            };
            if !(matches!(aref, Oop::Ref(_)) || matches!(aref, Oop::Null)) {
                return Err(ExKind::Internal);
            }
            match aref {
                Oop::Ref(h) => {
                    if h >= vm.heap.size() {
                        return Err(ExKind::Internal);
                    }
                },
                _ => {},
            }
            let (buf, n) = match host.perform(HostRequest::Read(fd, len)) {
                HostReply::Data(b, n) => (b, n),
                _ => {
                    return Err(ExKind::Internal);
                },
            };
            // the host owes at most the requested window
            if n > 0x7fff_ffffi64 {
                return Err(ExKind::Internal);
            }
            if n > 0 && (n > buf.len() as i64 || n > len as i64) {
                return Err(ExKind::Internal);
            }
            match crate::native_io::read_bytes_apply(&mut vm.heap, &aref, off, len, &buf, n) {
                Ok(v) => Ok(Some(Oop::Int(v))),
                Err(e) => Err(e),
            }
        },
        Some(crate::native_loader::NativeFn::Available0) => {
            if args.len() < 1 {
                return Err(ExKind::Internal);
            }
            let fd = match crate::native_io::read_fd(&vm.classes, &vm.heap, &args[0]) {
                Some(f) => f,
                None => {
                    return Err(ExKind::Internal);
                },
            };
            let (sl, fion, cur, size) = match host.perform(HostRequest::Avail(fd)) {
                HostReply::AvailInfo(a, b, c, d) => (a, b, c, d),
                _ => {
                    return Err(ExKind::Internal);
                },
            };
            match crate::native_io::available_outcome(fd, sl, fion, cur, size) {
                Ok(v) => Ok(Some(Oop::Int(v))),
                Err(e) => Err(e),
            }
        },
        Some(crate::native_loader::NativeFn::Close0) => {
            if args.len() < 1 {
                return Err(ExKind::Internal);
            }
            let fd = match crate::native_io::read_fd(&vm.classes, &vm.heap, &args[0]) {
                Some(f) => f,
                None => {
                    return Err(ExKind::Internal);
                },
            };
            match host.perform(HostRequest::Close(fd)) {
                _ => {},
            }
            Ok(None)
        },
        None => Err(ExKind::AbstractMethod),
    }
}

/// Runs the `<clinit>` chain a first use owes: every not-yet-initialized
/// class of the superclass chain, root first, each exactly once. A class
/// whose initializer threw goes to the failed state, the classes below it in
/// the chain follow, and every later use raises the initializer condition;
/// a class already initializing (its own initializer is running) asks for
/// nothing.
pub fn ensure_initialized<H: HostPort>(
    vm: &mut Vm,
    host: &mut H,
    cid: ClassId,
    depth: usize,
    fuel: usize,
) -> (r: Result<(), ExKind>)
    ensures
        final(vm).heap.objs().len() >= old(vm).heap.objs().len(),
        final(vm).classes.views().len() == old(vm).classes.views().len(),
    decreases depth,
{
    if depth == 0 {
        return Err(ExKind::StackOverflow);
    }
    if cid >= vm.classes.count() {
        return Err(ExKind::Internal);
    }
    match vm.classes.get(cid).init_state {
        crate::class::InitState::Initialized => {
            return Ok(());
        },
        crate::class::InitState::Initializing => {
            return Ok(());
        },
        crate::class::InitState::Failed => {
            return Err(ExKind::ExceptionInInitializer);
        },
        crate::class::InitState::Unloaded => {
            return Err(ExKind::Internal);
        },
        crate::class::InitState::Linked => {},
    }
    let chain = crate::runtime::initialization_chain(&mut vm.classes, cid);
    let n = chain.len();
    let mut i: usize = 0;
    let mut failed = false;
    while i < n
        invariant
            i <= n,
            n == chain@.len(),
            depth >= 1,
            vm.heap.objs().len() >= old(vm).heap.objs().len(),
            vm.classes.views().len() == old(vm).classes.views().len(),
        decreases n - i,
    {
        let c = chain[i];
        if c >= vm.classes.count() {
            return Err(ExKind::Internal);
        }
        if failed {
            // a class above this one in the chain failed: this one cannot
            // complete either
            if matches!(vm.classes.get(c).init_state, crate::class::InitState::Initializing) {
                vm.classes.mark_failed(c);
            }
        } else {
            let clinit = find_clinit(&vm.classes, c);
            let ok = match clinit {
                Some(mi) => {
                    match execute_method(vm, host, c, mi, Vec::new(), depth - 1, fuel) {
                        Ok(_) => true,
                        Err(_) => false,
                    }
                },
                None => true,
            };
            if c < vm.classes.count() && matches!(
                vm.classes.get(c).init_state,
                crate::class::InitState::Initializing,
            ) {
                if ok {
                    vm.classes.mark_initialized(c);
                } else {
                    vm.classes.mark_failed(c);
                    failed = true;
                }
            } else {
                return Err(ExKind::Internal);
            }
        }
        i = i + 1;
    }
    if failed {
        Err(ExKind::ExceptionInInitializer)
    } else {
        Ok(())
    }
}

/// The index of a class's own `<clinit>` method, if it declares one.
fn find_clinit(classes: &crate::class::ClassArea, c: ClassId) -> (r: Option<usize>)
    requires
        classes.valid_class(c),
    ensures
        r matches Some(m) ==> m < classes.views()[c as int].methods@.len(),
{
    let clinit_name: Vec<u8> = vec![0x3c, 0x63, 0x6c, 0x69, 0x6e, 0x69, 0x74, 0x3e];
    let void_desc: Vec<u8> = vec![0x28, 0x29, 0x56];
    let methods = &classes.classes[c].methods;
    let n = methods.len();
    let mut i: usize = 0;
    while i < n
        invariant
            i <= n,
            n == methods@.len(),
            classes.valid_class(c),
            methods@ == classes.views()[c as int].methods@,
        decreases n - i,
    {
        let m = &methods[i];
        if crate::classfile::bytes_eq(&m.name, clinit_name.as_slice()) && crate::classfile::bytes_eq(
            &m.desc,
            void_desc.as_slice(),
        ) {
            return Some(i);
        }
        i = i + 1;
    }
    None
}

/// Runs a method to completion: `Ok` carries its return value, `Err` an
/// exception condition that no frame of this computation handled. The heap
/// only grows and the set of linked classes is unchanged; an exhausted frame
/// budget surfaces `StackOverflow`.
#[verifier::rlimit(100)]
pub fn execute_method<H: HostPort>(
    vm: &mut Vm,
    host: &mut H,
    cid: ClassId,
    midx: usize,
    args: Vec<Oop>,
    depth: usize,
    fuel: usize,
) -> (r: Result<Option<Oop>, ExKind>)
    ensures
        final(vm).heap.objs().len() >= old(vm).heap.objs().len(),
        final(vm).classes.views().len() == old(vm).classes.views().len(),
        depth == 0 ==> r == Err::<Option<Oop>, ExKind>(ExKind::StackOverflow),
    decreases depth,
{
    if depth == 0 {
        return Err(ExKind::StackOverflow);
    }
    if cid >= vm.classes.count() {
        return Err(ExKind::Internal);
    }
    if midx >= vm.classes.get(cid).methods.len() {
        return Err(ExKind::Internal);
    }
    let has_code = vm.classes.get(cid).methods[midx].code.is_some();
    if !has_code {
        // a method without a body is either a registered native or abstract
        let is_native = vm.classes.get(cid).methods[midx].acc_flags & crate::classfile::ACC_NATIVE
            == crate::classfile::ACC_NATIVE;
        if !is_native {
            return Err(ExKind::AbstractMethod);
        }
        return dispatch_native(vm, host, cid, midx, &args);
    }
    let (code, max_locals, max_stack, handlers) = {
        let m = &vm.classes.get(cid).methods[midx];
        match &m.code {
            Some(c) => (
                crate::classfile::copy_bytes(&c.code),
                c.max_locals as usize,
                c.max_stack as usize,
                copy_exception_entries(&c.exceptions),
            ),
            None => {
                return Err(ExKind::Internal);
            },
        }
    };
    if code.len() > 0xffff {
        // the class-file format caps a method body at 65535 bytes
        return Err(ExKind::Internal);
    }
    if max_locals >= usize::MAX {
        return Err(ExKind::Internal);
    }
    let mut locals = Local::new(max_locals);
    let nargs = args.len();
    if nargs > max_locals {
        return Err(ExKind::Internal);
    }
    let mut ai: usize = 0;
    let mut args = args;
    let mut slot: usize = 0;
    while ai < nargs
        invariant
            depth >= 1,
            ai <= nargs,
            nargs == args@.len(),
            nargs <= max_locals,
            slot <= ai,
            locals.slots().len() == max_locals + 1,
            vm.heap.objs().len() >= old(vm).heap.objs().len(),
            vm.classes.views().len() == old(vm).classes.views().len(),
        decreases nargs - ai,
    {
        let a = args[ai];
        match a {
            Oop::Int(v) => locals.set_int(slot, v),
            Oop::Long(v) => locals.set_long(slot, v),
            Oop::Ref(_) => locals.set_ref(slot, a),
            Oop::Null => locals.set_ref(slot, a),
            _ => {
                return Err(ExKind::Internal);
            },
        }
        slot = slot + 1;
        ai = ai + 1;
    }
    let mut stack = Stack::new(max_stack);
    let mut pc: usize = 0;
    let mut steps: usize = fuel;
    loop
        invariant
            vm.heap.objs().len() >= old(vm).heap.objs().len(),
            vm.classes.views().len() == old(vm).classes.views().len(),
            vm.classes.valid_class(cid),
            locals.slots().len() == max_locals + 1,
            depth >= 1,
            code@.len() <= 0xffff,
        decreases steps,
    {
        if steps == 0 {
            return Err(ExKind::Internal);
        }
        steps = steps - 1;
        if pc >= code.len() {
            return Err(ExKind::Internal);
        }
        let op = code[pc];
        if op == 0x00 {
            // nop
            pc = pc + 1;
        } else if op == 0x01 {
            // aconst_null
            stack.push_null();
            pc = pc + 1;
        } else if 0x02 <= op && op <= 0x08 {
            // iconst_m1 .. iconst_5
            stack.push_int((op as i32) - 3);
            pc = pc + 1;
        } else if op == 0x10 {
            // bipush
            if code.len() - pc <= 1 {
                return Err(ExKind::Internal);
            }
            let b = code[pc + 1];
            let v: i32 = if b >= 0x80 {
                (b as i32) - 0x100
            } else {
                b as i32
            };
            stack.push_int(v);
            pc = pc + 2;
        } else if op == 0x11 {
            // sipush
            if code.len() - pc <= 2 {
                return Err(ExKind::Internal);
            }
            let u = crate::codec::u16_from_be(code[pc + 1], code[pc + 2]);
            let v: i32 = if u >= 0x8000 {
                (u as i32) - 0x10000
            } else {
                u as i32
            };
            stack.push_int(v);
            pc = pc + 3;
        } else if op == 0x12 {
            // ldc: integer and string constants in this core
            if code.len() - pc <= 1 {
                return Err(ExKind::Internal);
            }
            let idx = code[pc + 1] as u16;
            if (idx as usize) >= vm.classes.get(cid).cp.len() {
                return Err(ExKind::Internal);
            }
            let mut str_bytes: Option<Vec<u8>> = None;
            {
                let cpv = &vm.classes.get(cid).cp;
                match &cpv[idx as usize] {
                    crate::classfile::ConstantType::Integer { v } => {
                        let u = crate::codec::u32_from_be(v[0], v[1], v[2], v[3]);
                        stack.push_int(crate::codec::bits_to_i32(u));
                    },
                    crate::classfile::ConstantType::String { string_index } => {
                        match crate::classfile::get_utf8(cpv, *string_index) {
                            Some(b) => {
                                str_bytes = Some(b);
                            },
                            None => {
                                return Err(ExKind::Internal);
                            },
                        }
                    },
                    _ => {
                        return Err(ExKind::Internal);
                    },
                }
            }
            match str_bytes {
                None => {},
                Some(b) => {
                    // a string literal interns through the pool: equal
                    // contents in this runtime resolve to one handle
                    let units = match crate::oop_util::decode_modified_utf8(&b) {
                        Some(u) => u,
                        None => {
                            return Err(ExKind::Internal);
                        },
                    };
                    let sname = crate::oop_util::java_lang_string_bytes();
                    let scid = match vm.dic.find(&sname) {
                        Some(c) => c,
                        None => {
                            return Err(ExKind::NoClassDefFound);
                        },
                    };
                    if scid >= vm.classes.count() {
                        return Err(ExKind::Internal);
                    }
                    let value_name: Vec<u8> = vec![0x76, 0x61, 0x6c, 0x75, 0x65];
                    let value_desc: Vec<u8> = vec![0x5b, 0x43];
                    let off = match vm.classes.get_field_id(scid, &value_name, &value_desc) {
                        Some(o) => o,
                        None => {
                            return Err(ExKind::Internal);
                        },
                    };
                    let nf = vm.classes.get(scid).inst_fields.len();
                    if off >= nf {
                        return Err(ExKind::Internal);
                    }
                    let handle = vm.strings.intern(&mut vm.heap, units, scid, nf, off);
                    stack.push_ref(Oop::Ref(handle));
                },
            }
            pc = pc + 2;
        } else if op == 0x14 {
            // ldc2_w: long constants; the float kinds are outside this core
            if code.len() - pc <= 2 {
                return Err(ExKind::Internal);
            }
            let idx = crate::codec::u16_from_be(code[pc + 1], code[pc + 2]);
            let cpv = &vm.classes.get(cid).cp;
            if (idx as usize) >= cpv.len() {
                return Err(ExKind::Internal);
            }
            match &cpv[idx as usize] {
                crate::classfile::ConstantType::Long { v } => {
                    let u = crate::codec::u64_from_be(v);
                    stack.push_long(crate::codec::bits_to_i64(u));
                },
                _ => {
                    return Err(ExKind::Internal);
                },
            }
            pc = pc + 3;
        } else if op == 0x16 {
            // lload with index
            if code.len() - pc <= 1 {
                return Err(ExKind::Internal);
            }
            let pos = code[pc + 1] as usize;
            match locals.get_long_checked(pos) {
                Some(v) => stack.push_long(v),
                None => {
                    return Err(ExKind::Internal);
                },
            }
            pc = pc + 2;
        } else if 0x1e <= op && op <= 0x21 {
            // lload_0 .. lload_3
            let pos = (op - 0x1e) as usize;
            match locals.get_long_checked(pos) {
                Some(v) => stack.push_long(v),
                None => {
                    return Err(ExKind::Internal);
                },
            }
            pc = pc + 1;
        } else if op == 0x37 {
            // lstore with index
            if code.len() - pc <= 1 {
                return Err(ExKind::Internal);
            }
            let pos = code[pc + 1] as usize;
            if pos >= locals.size() {
                return Err(ExKind::Internal);
            }
            match stack.pop_long_checked() {
                Some(v) => locals.set_long(pos, v),
                None => {
                    return Err(ExKind::Internal);
                },
            }
            pc = pc + 2;
        } else if 0x3f <= op && op <= 0x42 {
            // lstore_0 .. lstore_3
            let pos = (op - 0x3f) as usize;
            if pos >= locals.size() {
                return Err(ExKind::Internal);
            }
            match stack.pop_long_checked() {
                Some(v) => locals.set_long(pos, v),
                None => {
                    return Err(ExKind::Internal);
                },
            }
            pc = pc + 1;
        } else if op == 0x15 || op == 0x19 {
            // iload / aload with index
            if code.len() - pc <= 1 {
                return Err(ExKind::Internal);
            }
            let pos = code[pc + 1] as usize;
            if op == 0x15 {
                match locals.get_int_checked(pos) {
                    Some(v) => stack.push_int(v),
                    None => {
                        return Err(ExKind::Internal);
                    },
                }
            } else {
                match locals.get_ref_checked(pos) {
                    Some(o) => stack.push_ref(o),
                    None => {
                        return Err(ExKind::Internal);
                    },
                }
            }
            pc = pc + 2;
        } else if 0x1a <= op && op <= 0x1d {
            // iload_0 .. iload_3
            let pos = (op - 0x1a) as usize;
            match locals.get_int_checked(pos) {
                Some(v) => stack.push_int(v),
                None => {
                    return Err(ExKind::Internal);
                },
            }
            pc = pc + 1;
        } else if 0x2a <= op && op <= 0x2d {
            // aload_0 .. aload_3
            let pos = (op - 0x2a) as usize;
            match locals.get_ref_checked(pos) {
                Some(o) => stack.push_ref(o),
                None => {
                    return Err(ExKind::Internal);
                },
            }
            pc = pc + 1;
        } else if op == 0x36 || op == 0x3a {
            // istore / astore with index
            if code.len() - pc <= 1 {
                return Err(ExKind::Internal);
            }
            let pos = code[pc + 1] as usize;
            if pos >= locals.size() {
                return Err(ExKind::Internal);
            }
            if op == 0x36 {
                match stack.pop_int_checked() {
                    Some(v) => locals.set_int(pos, v),
                    None => {
                        return Err(ExKind::Internal);
                    },
                }
            } else {
                match stack.pop_ref_checked() {
                    Some(o) => locals.set_ref(pos, o),
                    None => {
                        return Err(ExKind::Internal);
                    },
                }
            }
            pc = pc + 2;
        } else if 0x3b <= op && op <= 0x3e {
            // istore_0 .. istore_3
            let pos = (op - 0x3b) as usize;
            if pos >= locals.size() {
                return Err(ExKind::Internal);
            }
            match stack.pop_int_checked() {
                Some(v) => locals.set_int(pos, v),
                None => {
                    return Err(ExKind::Internal);
                },
            }
            pc = pc + 1;
        } else if 0x4b <= op && op <= 0x4e {
            // astore_0 .. astore_3
            let pos = (op - 0x4b) as usize;
            if pos >= locals.size() {
                return Err(ExKind::Internal);
            }
            match stack.pop_ref_checked() {
                Some(o) => locals.set_ref(pos, o),
                None => {
                    return Err(ExKind::Internal);
                },
            }
            pc = pc + 1;
        } else if op == 0x2e || op == 0x4f {
            // iaload / iastore
            let v: i32 = if op == 0x4f {
                match stack.pop_int_checked() {
                    Some(v) => v,
                    None => {
                        return Err(ExKind::Internal);
                    },
                }
            } else {
                0
            };
            let idx = match stack.pop_int_checked() {
                Some(v) => v,
                None => {
                    return Err(ExKind::Internal);
                },
            };
            let aref = match stack.pop_ref_checked() {
                Some(o) => o,
                None => {
                    return Err(ExKind::Internal);
                },
            };
            match aref {
                Oop::Null => {
                    return Err(ExKind::NullPointer);
                },
                Oop::Ref(h) => {
                    if h >= vm.heap.size() {
                        return Err(ExKind::Internal);
                    }
                    let is_int_array = matches!(
                        &vm.heap.get(h).v,
                        RefKind::TypeArray(TypeArrayDesc::Int(_))
                    );
                    if !is_int_array {
                        return Err(ExKind::Internal);
                    }
                    match array_check(&vm.heap, aref, idx) {
                        Ok(hh) => {
                            if op == 0x4f {
                                vm.heap.type_array_set_int(hh, idx as usize, v);
                            } else {
                                let e = vm.heap.type_array_get_int(hh, idx as usize);
                                stack.push_int(e);
                            }
                        },
                        Err(e) => {
                            return Err(e);
                        },
                    }
                },
                _ => {
                    return Err(ExKind::Internal);
                },
            }
            pc = pc + 1;
        } else if op == 0x2f || op == 0x50 {
            // laload / lastore
            let v: i64 = if op == 0x50 {
                match stack.pop_long_checked() {
                    Some(v) => v,
                    None => {
                        return Err(ExKind::Internal);
                    },
                }
            } else {
                0
            };
            let idx = match stack.pop_int_checked() {
                Some(v) => v,
                None => {
                    return Err(ExKind::Internal);
                },
            };
            let aref = match stack.pop_ref_checked() {
                Some(o) => o,
                None => {
                    return Err(ExKind::Internal);
                },
            };
            match aref {
                Oop::Null => {
                    return Err(ExKind::NullPointer);
                },
                Oop::Ref(h) => {
                    if h >= vm.heap.size() {
                        return Err(ExKind::Internal);
                    }
                    let is_long_array = matches!(
                        &vm.heap.get(h).v,
                        RefKind::TypeArray(TypeArrayDesc::Long(_))
                    );
                    if !is_long_array {
                        return Err(ExKind::Internal);
                    }
                    match array_check(&vm.heap, aref, idx) {
                        Ok(hh) => {
                            if op == 0x50 {
                                vm.heap.type_array_set_long(hh, idx as usize, v);
                            } else {
                                let e = vm.heap.type_array_get_long(hh, idx as usize);
                                stack.push_long(e);
                            }
                        },
                        Err(e) => {
                            return Err(e);
                        },
                    }
                },
                _ => {
                    return Err(ExKind::Internal);
                },
            }
            pc = pc + 1;
        } else if op == 0x33 || op == 0x54 {
            // baload / bastore: byte and boolean arrays both
            let v: i32 = if op == 0x54 {
                match stack.pop_int_checked() {
                    Some(v) => v,
                    None => {
                        return Err(ExKind::Internal);
                    },
                }
            } else {
                0
            };
            let idx = match stack.pop_int_checked() {
                Some(v) => v,
                None => {
                    return Err(ExKind::Internal);
                },
            };
            let aref = match stack.pop_ref_checked() {
                Some(o) => o,
                None => {
                    return Err(ExKind::Internal);
                },
            };
            match aref {
                Oop::Null => {
                    return Err(ExKind::NullPointer);
                },
                Oop::Ref(h) => {
                    if h >= vm.heap.size() {
                        return Err(ExKind::Internal);
                    }
                    let is_byte = matches!(
                        &vm.heap.get(h).v,
                        RefKind::TypeArray(TypeArrayDesc::Byte(_))
                    );
                    let is_bool = matches!(
                        &vm.heap.get(h).v,
                        RefKind::TypeArray(TypeArrayDesc::Bool(_))
                    );
                    if !is_byte && !is_bool {
                        return Err(ExKind::Internal);
                    }
                    match array_check(&vm.heap, aref, idx) {
                        Ok(hh) => {
                            if op == 0x54 {
                                if is_byte {
                                    vm.heap.type_array_set_byte(hh, idx as usize, v as i8);
                                } else {
                                    vm.heap.type_array_set_bool(hh, idx as usize, (v & 1) as u8);
                                }
                            } else {
                                if is_byte {
                                    let e = vm.heap.type_array_get_byte(hh, idx as usize);
                                    stack.push_int(e as i32);
                                } else {
                                    let e = vm.heap.type_array_get_bool(hh, idx as usize);
                                    stack.push_int(e as i32);
                                }
                            }
                        },
                        Err(e) => {
                            return Err(e);
                        },
                    }
                },
                _ => {
                    return Err(ExKind::Internal);
                },
            }
            pc = pc + 1;
        } else if op == 0x34 || op == 0x55 {
            // caload / castore
            let v: i32 = if op == 0x55 {
                match stack.pop_int_checked() {
                    Some(v) => v,
                    None => {
                        return Err(ExKind::Internal);
                    },
                }
            } else {
                0
            };
            let idx = match stack.pop_int_checked() {
                Some(v) => v,
                None => {
                    return Err(ExKind::Internal);
                },
            };
            let aref = match stack.pop_ref_checked() {
                Some(o) => o,
                None => {
                    return Err(ExKind::Internal);
                },
            };
            match aref {
                Oop::Null => {
                    return Err(ExKind::NullPointer);
                },
                Oop::Ref(h) => {
                    if h >= vm.heap.size() {
                        return Err(ExKind::Internal);
                    }
                    let is_char = matches!(
                        &vm.heap.get(h).v,
                        RefKind::TypeArray(TypeArrayDesc::Char(_))
                    );
                    if !is_char {
                        return Err(ExKind::Internal);
                    }
                    match array_check(&vm.heap, aref, idx) {
                        Ok(hh) => {
                            if op == 0x55 {
                                vm.heap.type_array_set_char(hh, idx as usize, v as u16);
                            } else {
                                let e = vm.heap.type_array_get_char(hh, idx as usize);
                                stack.push_int(e as i32);
                            }
                        },
                        Err(e) => {
                            return Err(e);
                        },
                    }
                },
                _ => {
                    return Err(ExKind::Internal);
                },
            }
            pc = pc + 1;
        } else if op == 0x35 || op == 0x56 {
            // saload / sastore
            let v: i32 = if op == 0x56 {
                match stack.pop_int_checked() {
                    Some(v) => v,
                    None => {
                        return Err(ExKind::Internal);
                    },
                }
            } else {
                0
            };
            let idx = match stack.pop_int_checked() {
                Some(v) => v,
                None => {
                    return Err(ExKind::Internal);
                },
            };
            let aref = match stack.pop_ref_checked() {
                Some(o) => o,
                None => {
                    return Err(ExKind::Internal);
                },
            };
            match aref {
                Oop::Null => {
                    return Err(ExKind::NullPointer);
                },
                Oop::Ref(h) => {
                    if h >= vm.heap.size() {
                        return Err(ExKind::Internal);
                    }
                    let is_short = matches!(
                        &vm.heap.get(h).v,
                        RefKind::TypeArray(TypeArrayDesc::Short(_))
                    );
                    if !is_short {
                        return Err(ExKind::Internal);
                    }
                    match array_check(&vm.heap, aref, idx) {
                        Ok(hh) => {
                            if op == 0x56 {
                                vm.heap.type_array_set_short(hh, idx as usize, v as i16);
                            } else {
                                let e = vm.heap.type_array_get_short(hh, idx as usize);
                                stack.push_int(e as i32);
                            }
                        },
                        Err(e) => {
                            return Err(e);
                        },
                    }
                },
                _ => {
                    return Err(ExKind::Internal);
                },
            }
            pc = pc + 1;
        } else if op == 0x32 || op == 0x53 {
            // aaload / aastore
            let v: Option<Oop> = if op == 0x53 {
                match stack.pop_ref_checked() {
                    Some(o) => Some(o),
                    None => {
                        return Err(ExKind::Internal);
                    },
                }
            } else {
                None
            };
            let idx = match stack.pop_int_checked() {
                Some(v) => v,
                None => {
                    return Err(ExKind::Internal);
                },
            };
            let aref = match stack.pop_ref_checked() {
                Some(o) => o,
                None => {
                    return Err(ExKind::Internal);
                },
            };
            match aref {
                Oop::Null => {
                    return Err(ExKind::NullPointer);
                },
                Oop::Ref(h) => {
                    if h >= vm.heap.size() {
                        return Err(ExKind::Internal);
                    }
                    let ecid: ClassId = match &vm.heap.get(h).v {
                        RefKind::ObjArray(c, _) => *c,
                        _ => {
                            return Err(ExKind::Internal);
                        },
                    };
                    match array_check(&vm.heap, aref, idx) {
                        Ok(hh) => {
                            if op == 0x53 {
                                let sv = match v {
                                    Some(sv) => sv,
                                    None => {
                                        return Err(ExKind::Internal);
                                    },
                                };
                                if !(matches!(sv, Oop::Ref(_)) || matches!(sv, Oop::Null)) {
                                    return Err(ExKind::Internal);
                                }
                                // the stored instance must be assignable to
                                // the element class; arrays and mirrors
                                // stored as elements are outside this core
                                match sv {
                                    Oop::Ref(vh) => {
                                        if vh >= vm.heap.size() {
                                            return Err(ExKind::Internal);
                                        }
                                        match &vm.heap.get(vh).v {
                                            RefKind::Inst(inst) => {
                                                if inst.class >= vm.classes.count() || ecid
                                                    >= vm.classes.count() {
                                                    return Err(ExKind::Internal);
                                                }
                                                let ename = crate::classfile::copy_bytes(
                                                    &vm.classes.get(ecid).name,
                                                );
                                                if !vm.classes.is_assignable_to(
                                                    inst.class,
                                                    &ename,
                                                ) {
                                                    return Err(ExKind::ArrayStore);
                                                }
                                            },
                                            _ => {
                                                return Err(ExKind::Internal);
                                            },
                                        }
                                    },
                                    _ => {},
                                }
                                vm.heap.obj_array_set(hh, idx as usize, sv);
                            } else {
                                let e = vm.heap.obj_array_get(hh, idx as usize);
                                match e {
                                    Oop::Ref(eh) => stack.push_ref(Oop::Ref(eh)),
                                    Oop::Null => stack.push_null(),
                                    _ => {
                                        return Err(ExKind::Internal);
                                    },
                                }
                            }
                        },
                        Err(e) => {
                            return Err(e);
                        },
                    }
                },
                _ => {
                    return Err(ExKind::Internal);
                },
            }
            pc = pc + 1;
        } else if op == 0x57 {
            // pop
            match stack.pop_slot_checked() {
                Some(_) => {},
                None => {
                    return Err(ExKind::Internal);
                },
            }
            pc = pc + 1;
        } else if op == 0x59 {
            // dup
            let s = match stack.pop_slot_checked() {
                Some(s) => s,
                None => {
                    return Err(ExKind::Internal);
                },
            };
            let c = crate::slot::clone_slot(&s);
            stack.push_slot_value(s);
            stack.push_slot_value(c);
            pc = pc + 1;
        } else if op == 0x5a || op == 0x5b || op == 0x5c || op == 0x5d || op == 0x5e || op == 0x5f {
            // the dup/swap family, with the two-slot rule collapsed: a wide
            // primitive slot counts as the second category
            let s1 = match stack.pop_slot_checked() {
                Some(s) => s,
                None => {
                    return Err(ExKind::Internal);
                },
            };
            let w1 = crate::slot::slot_is_wide(&s1);
            if op == 0x5f {
                // swap
                let s2 = match stack.pop_slot_checked() {
                    Some(s) => s,
                    None => {
                        return Err(ExKind::Internal);
                    },
                };
                stack.push_slot_value(s1);
                stack.push_slot_value(s2);
            } else if op == 0x5a {
                // dup_x1
                let s2 = match stack.pop_slot_checked() {
                    Some(s) => s,
                    None => {
                        return Err(ExKind::Internal);
                    },
                };
                let c1 = crate::slot::clone_slot(&s1);
                stack.push_slot_value(c1);
                stack.push_slot_value(s2);
                stack.push_slot_value(s1);
            } else if op == 0x5b {
                // dup_x2: behind one wide slot, or behind two
                let s2 = match stack.pop_slot_checked() {
                    Some(s) => s,
                    None => {
                        return Err(ExKind::Internal);
                    },
                };
                let c1 = crate::slot::clone_slot(&s1);
                if crate::slot::slot_is_wide(&s2) {
                    stack.push_slot_value(c1);
                    stack.push_slot_value(s2);
                    stack.push_slot_value(s1);
                } else {
                    let s3 = match stack.pop_slot_checked() {
                        Some(s) => s,
                        None => {
                            return Err(ExKind::Internal);
                        },
                    };
                    stack.push_slot_value(c1);
                    stack.push_slot_value(s3);
                    stack.push_slot_value(s2);
                    stack.push_slot_value(s1);
                }
            } else if op == 0x5c {
                // dup2: one wide slot, or the top two
                if w1 {
                    let c1 = crate::slot::clone_slot(&s1);
                    stack.push_slot_value(s1);
                    stack.push_slot_value(c1);
                } else {
                    let s2 = match stack.pop_slot_checked() {
                        Some(s) => s,
                        None => {
                            return Err(ExKind::Internal);
                        },
                    };
                    let c1 = crate::slot::clone_slot(&s1);
                    let c2 = crate::slot::clone_slot(&s2);
                    stack.push_slot_value(s2);
                    stack.push_slot_value(s1);
                    stack.push_slot_value(c2);
                    stack.push_slot_value(c1);
                }
            } else if op == 0x5d {
                // dup2_x1
                let s2 = match stack.pop_slot_checked() {
                    Some(s) => s,
                    None => {
                        return Err(ExKind::Internal);
                    },
                };
                if w1 {
                    let c1 = crate::slot::clone_slot(&s1);
                    stack.push_slot_value(c1);
                    stack.push_slot_value(s2);
                    stack.push_slot_value(s1);
                } else {
                    let s3 = match stack.pop_slot_checked() {
                        Some(s) => s,
                        None => {
                            return Err(ExKind::Internal);
                        },
                    };
                    let c1 = crate::slot::clone_slot(&s1);
                    let c2 = crate::slot::clone_slot(&s2);
                    stack.push_slot_value(c2);
                    stack.push_slot_value(c1);
                    stack.push_slot_value(s3);
                    stack.push_slot_value(s2);
                    stack.push_slot_value(s1);
                }
            } else {
                // dup2_x2, by the categories of the top slots
                let s2 = match stack.pop_slot_checked() {
                    Some(s) => s,
                    None => {
                        return Err(ExKind::Internal);
                    },
                };
                let w2 = crate::slot::slot_is_wide(&s2);
                if w1 && w2 {
                    let c1 = crate::slot::clone_slot(&s1);
                    stack.push_slot_value(c1);
                    stack.push_slot_value(s2);
                    stack.push_slot_value(s1);
                } else if w1 {
                    let s3 = match stack.pop_slot_checked() {
                        Some(s) => s,
                        None => {
                            return Err(ExKind::Internal);
                        },
                    };
                    let c1 = crate::slot::clone_slot(&s1);
                    stack.push_slot_value(c1);
                    stack.push_slot_value(s3);
                    stack.push_slot_value(s2);
                    stack.push_slot_value(s1);
                } else {
                    let s3 = match stack.pop_slot_checked() {
                        Some(s) => s,
                        None => {
                            return Err(ExKind::Internal);
                        },
                    };
                    if crate::slot::slot_is_wide(&s3) {
                        let c1 = crate::slot::clone_slot(&s1);
                        let c2 = crate::slot::clone_slot(&s2);
                        stack.push_slot_value(c2);
                        stack.push_slot_value(c1);
                        stack.push_slot_value(s3);
                        stack.push_slot_value(s2);
                        stack.push_slot_value(s1);
                    } else {
                        let s4 = match stack.pop_slot_checked() {
                            Some(s) => s,
                            None => {
                                return Err(ExKind::Internal);
                            },
                        };
                        let c1 = crate::slot::clone_slot(&s1);
                        let c2 = crate::slot::clone_slot(&s2);
                        stack.push_slot_value(c2);
                        stack.push_slot_value(c1);
                        stack.push_slot_value(s4);
                        stack.push_slot_value(s3);
                        stack.push_slot_value(s2);
                        stack.push_slot_value(s1);
                    }
                }
            }
            pc = pc + 1;
        } else if op == 0x60 || op == 0x64 || op == 0x68 || op == 0x6c || op == 0x70 || op == 0x78
            || op == 0x7a || op == 0x7c || op == 0x7e || op == 0x80 || op == 0x82 {
            // the two-operand integer family
            let b = match stack.pop_int_checked() {
                Some(v) => v,
                None => {
                    return Err(ExKind::Internal);
                },
            };
            let a = match stack.pop_int_checked() {
                Some(v) => v,
                None => {
                    return Err(ExKind::Internal);
                },
            };
            let v: i32 = if op == 0x60 {
                arith::iadd(a, b)
            } else if op == 0x64 {
                arith::isub(a, b)
            } else if op == 0x68 {
                arith::imul(a, b)
            } else if op == 0x6c {
                match arith::idiv(a, b) {
                    Ok(v) => v,
                    Err(e) => {
                        return Err(e);
                    },
                }
            } else if op == 0x70 {
                match arith::irem(a, b) {
                    Ok(v) => v,
                    Err(e) => {
                        return Err(e);
                    },
                }
            } else if op == 0x78 {
                arith::ishl(a, b)
            } else if op == 0x7a {
                arith::ishr(a, b)
            } else if op == 0x7c {
                arith::iushr(a, b)
            } else if op == 0x7e {
                arith::iand(a, b)
            } else if op == 0x80 {
                arith::ior(a, b)
            } else {
                arith::ixor(a, b)
            };
            stack.push_int(v);
            pc = pc + 1;
        } else if op == 0x74 {
            // ineg
            let a = match stack.pop_int_checked() {
                Some(v) => v,
                None => {
                    return Err(ExKind::Internal);
                },
            };
            stack.push_int(arith::ineg(a));
            pc = pc + 1;
        } else if op == 0x61 || op == 0x65 || op == 0x69 || op == 0x6d || op == 0x71 || op == 0x7f
            || op == 0x81 || op == 0x83 {
            // the two-operand long family
            let b = match stack.pop_long_checked() {
                Some(v) => v,
                None => {
                    return Err(ExKind::Internal);
                },
            };
            let a = match stack.pop_long_checked() {
                Some(v) => v,
                None => {
                    return Err(ExKind::Internal);
                },
            };
            let v: i64 = if op == 0x61 {
                arith::ladd(a, b)
            } else if op == 0x65 {
                arith::lsub(a, b)
            } else if op == 0x69 {
                arith::lmul(a, b)
            } else if op == 0x6d {
                match arith::ldiv(a, b) {
                    Ok(v) => v,
                    Err(e) => {
                        return Err(e);
                    },
                }
            } else if op == 0x71 {
                match arith::lrem(a, b) {
                    Ok(v) => v,
                    Err(e) => {
                        return Err(e);
                    },
                }
            } else if op == 0x7f {
                arith::land(a, b)
            } else if op == 0x81 {
                arith::lor(a, b)
            } else {
                arith::lxor(a, b)
            };
            stack.push_long(v);
            pc = pc + 1;
        } else if op == 0x79 || op == 0x7b || op == 0x7d {
            // long shifts: the distance is an int
            let b = match stack.pop_int_checked() {
                Some(v) => v,
                None => {
                    return Err(ExKind::Internal);
                },
            };
            let a = match stack.pop_long_checked() {
                Some(v) => v,
                None => {
                    return Err(ExKind::Internal);
                },
            };
            let v: i64 = if op == 0x79 {
                arith::lshl(a, b)
            } else if op == 0x7b {
                arith::lshr(a, b)
            } else {
                arith::lushr(a, b)
            };
            stack.push_long(v);
            pc = pc + 1;
        } else if op == 0x75 {
            // lneg
            let a = match stack.pop_long_checked() {
                Some(v) => v,
                None => {
                    return Err(ExKind::Internal);
                },
            };
            stack.push_long(arith::lneg(a));
            pc = pc + 1;
        } else if op == 0x94 {
            // lcmp
            let b = match stack.pop_long_checked() {
                Some(v) => v,
                None => {
                    return Err(ExKind::Internal);
                },
            };
            let a = match stack.pop_long_checked() {
                Some(v) => v,
                None => {
                    return Err(ExKind::Internal);
                },
            };
            stack.push_int(arith::lcmp(a, b));
            pc = pc + 1;
        } else if op == 0x85 {
            // i2l
            let a = match stack.pop_int_checked() {
                Some(v) => v,
                None => {
                    return Err(ExKind::Internal);
                },
            };
            stack.push_long(arith::i2l(a));
            pc = pc + 1;
        } else if op == 0x88 {
            // l2i
            let a = match stack.pop_long_checked() {
                Some(v) => v,
                None => {
                    return Err(ExKind::Internal);
                },
            };
            stack.push_int(arith::l2i(a));
            pc = pc + 1;
        } else if op == 0x91 || op == 0x92 || op == 0x93 {
            // i2b / i2c / i2s
            let a = match stack.pop_int_checked() {
                Some(v) => v,
                None => {
                    return Err(ExKind::Internal);
                },
            };
            let v: i32 = if op == 0x91 {
                arith::i2b(a)
            } else if op == 0x92 {
                arith::i2c(a)
            } else {
                arith::i2s(a)
            };
            stack.push_int(v);
            pc = pc + 1;
        } else if op == 0x84 {
            // iinc
            if code.len() - pc <= 2 {
                return Err(ExKind::Internal);
            }
            let pos = code[pc + 1] as usize;
            let cb = code[pc + 2];
            let cv: i32 = if cb >= 0x80 {
                (cb as i32) - 0x100
            } else {
                cb as i32
            };
            if pos >= locals.size() {
                return Err(ExKind::Internal);
            }
            match locals.get_int_checked(pos) {
                Some(v) => locals.set_int(pos, arith::iadd(v, cv)),
                None => {
                    return Err(ExKind::Internal);
                },
            }
            pc = pc + 3;
        } else if 0x99 <= op && op <= 0x9e {
            // ifeq .. ifle
            if code.len() - pc <= 2 {
                return Err(ExKind::Internal);
            }
            let a = match stack.pop_int_checked() {
                Some(v) => v,
                None => {
                    return Err(ExKind::Internal);
                },
            };
            let taken = if op == 0x99 {
                a == 0
            } else if op == 0x9a {
                a != 0
            } else if op == 0x9b {
                a < 0
            } else if op == 0x9c {
                a >= 0
            } else if op == 0x9d {
                a > 0
            } else {
                a <= 0
            };
            if taken {
                match branch_target(&code, pc) {
                    Some(t) => pc = t,
                    None => {
                        return Err(ExKind::Internal);
                    },
                }
            } else {
                pc = pc + 3;
            }
        } else if 0x9f <= op && op <= 0xa4 {
            // if_icmpeq .. if_icmple
            if code.len() - pc <= 2 {
                return Err(ExKind::Internal);
            }
            let b = match stack.pop_int_checked() {
                Some(v) => v,
                None => {
                    return Err(ExKind::Internal);
                },
            };
            let a = match stack.pop_int_checked() {
                Some(v) => v,
                None => {
                    return Err(ExKind::Internal);
                },
            };
            let taken = if op == 0x9f {
                a == b
            } else if op == 0xa0 {
                a != b
            } else if op == 0xa1 {
                a < b
            } else if op == 0xa2 {
                a >= b
            } else if op == 0xa3 {
                a > b
            } else {
                a <= b
            };
            if taken {
                match branch_target(&code, pc) {
                    Some(t) => pc = t,
                    None => {
                        return Err(ExKind::Internal);
                    },
                }
            } else {
                pc = pc + 3;
            }
        } else if op == 0xa5 || op == 0xa6 {
            // if_acmpeq / if_acmpne: reference equality with the
            // string-literal tolerance the comparison helper states
            if code.len() - pc <= 2 {
                return Err(ExKind::Internal);
            }
            let b = match stack.pop_ref_checked() {
                Some(o) => o,
                None => {
                    return Err(ExKind::Internal);
                },
            };
            let a = match stack.pop_ref_checked() {
                Some(o) => o,
                None => {
                    return Err(ExKind::Internal);
                },
            };
            if !(matches!(a, Oop::Ref(_)) || matches!(a, Oop::Null)) {
                return Err(ExKind::Internal);
            }
            if !(matches!(b, Oop::Ref(_)) || matches!(b, Oop::Null)) {
                return Err(ExKind::Internal);
            }
            // string contents live in the linked String class's value slot;
            // with no String class linked no operand is a string instance
            // and the offset is never read
            let voff: usize = {
                let sname = crate::oop_util::java_lang_string_bytes();
                match vm.dic.find(&sname) {
                    Some(scid) => {
                        if scid < vm.classes.count() {
                            let value_name: Vec<u8> = vec![0x76, 0x61, 0x6c, 0x75, 0x65];
                            let value_desc: Vec<u8> = vec![0x5b, 0x43];
                            match vm.classes.get_field_id(scid, &value_name, &value_desc) {
                                Some(o) => o,
                                None => 0,
                            }
                        } else {
                            0
                        }
                    },
                    None => 0,
                }
            };
            if !crate::oop_util::acmp_ready(&vm.classes, &vm.heap, &a, voff) {
                return Err(ExKind::Internal);
            }
            if !crate::oop_util::acmp_ready(&vm.classes, &vm.heap, &b, voff) {
                return Err(ExKind::Internal);
            }
            let eq = crate::oop_util::if_acmpeq(&vm.classes, &vm.heap, &a, &b, voff);
            let taken = if op == 0xa5 {
                eq
            } else {
                !eq
            };
            if taken {
                match branch_target(&code, pc) {
                    Some(t) => pc = t,
                    None => {
                        return Err(ExKind::Internal);
                    },
                }
            } else {
                pc = pc + 3;
            }
        } else if op == 0xa7 {
            // goto
            match branch_target(&code, pc) {
                Some(t) => pc = t,
                None => {
                    return Err(ExKind::Internal);
                },
            }
        } else if op == 0xaa || op == 0xab {
            // tableswitch / lookupswitch: operands start at the next
            // four-byte boundary from the method start
            let key = match stack.pop_int_checked() {
                Some(v) => v,
                None => {
                    return Err(ExKind::Internal);
                },
            };
            let base: usize = pc + 1 + ((4 - ((pc + 1) % 4)) % 4);
            let default = match read_i32_at(&code, base) {
                Some(v) => v,
                None => {
                    return Err(ExKind::Internal);
                },
            };
            let chosen: i32 = if op == 0xaa {
                let low = match read_i32_at(&code, base + 4) {
                    Some(v) => v,
                    None => {
                        return Err(ExKind::Internal);
                    },
                };
                let high = match read_i32_at(&code, base + 8) {
                    Some(v) => v,
                    None => {
                        return Err(ExKind::Internal);
                    },
                };
                if low > high {
                    return Err(ExKind::Internal);
                }
                if key < low || key > high {
                    default
                } else {
                    let rel = ((key as i64) - (low as i64)) as usize;
                    if rel > 0xffff {
                        return Err(ExKind::Internal);
                    }
                    match read_i32_at(&code, base + 12 + 4 * rel) {
                        Some(v) => v,
                        None => {
                            return Err(ExKind::Internal);
                        },
                    }
                }
            } else {
                let npairs = match read_i32_at(&code, base + 4) {
                    Some(v) => v,
                    None => {
                        return Err(ExKind::Internal);
                    },
                };
                if npairs < 0 || npairs > 0xffff {
                    return Err(ExKind::Internal);
                }
                let np = npairs as usize;
                let mut j: usize = 0;
                let mut hit: Option<i32> = None;
                while j < np
                    invariant
                        j <= np,
                        np <= 0xffff,
                        base <= 0x1_0000 + 16,
                        vm.heap.objs().len() >= old(vm).heap.objs().len(),
                        vm.classes.views().len() == old(vm).classes.views().len(),
                        depth >= 1,
                    decreases np - j,
                {
                    let m = match read_i32_at(&code, base + 8 + 8 * j) {
                        Some(v) => v,
                        None => {
                            return Err(ExKind::Internal);
                        },
                    };
                    if m == key {
                        hit = match read_i32_at(&code, base + 12 + 8 * j) {
                            Some(v) => Some(v),
                            None => {
                                return Err(ExKind::Internal);
                            },
                        };
                    }
                    j = j + 1;
                }
                match hit {
                    Some(v) => v,
                    None => default,
                }
            };
            match wide_target(&code, pc, chosen) {
                Some(t) => pc = t,
                None => {
                    return Err(ExKind::Internal);
                },
            }
        } else if op == 0xac {
            // ireturn
            match stack.pop_int_checked() {
                Some(v) => {
                    return Ok(Some(Oop::Int(v)));
                },
                None => {
                    return Err(ExKind::Internal);
                },
            }
        } else if op == 0xad {
            // lreturn
            match stack.pop_long_checked() {
                Some(v) => {
                    return Ok(Some(Oop::Long(v)));
                },
                None => {
                    return Err(ExKind::Internal);
                },
            }
        } else if op == 0xc6 || op == 0xc7 {
            // ifnull / ifnonnull
            if code.len() - pc <= 2 {
                return Err(ExKind::Internal);
            }
            let a = match stack.pop_ref_checked() {
                Some(o) => o,
                None => {
                    return Err(ExKind::Internal);
                },
            };
            let taken = if op == 0xc6 {
                matches!(a, Oop::Null)
            } else {
                !matches!(a, Oop::Null)
            };
            if taken {
                match branch_target(&code, pc) {
                    Some(t) => pc = t,
                    None => {
                        return Err(ExKind::Internal);
                    },
                }
            } else {
                pc = pc + 3;
            }
        } else if op == 0xbf {
            // athrow: the popped object is the exception in flight; the
            // frame's own table is consulted before the condition propagates
            let oref = match stack.pop_ref_checked() {
                Some(o) => o,
                None => {
                    return Err(ExKind::Internal);
                },
            };
            let e: ExKind = match oref {
                Oop::Null => ExKind::NullPointer,
                Oop::Ref(h) => {
                    vm.thrown = Some(h);
                    ExKind::Thrown
                },
                _ => {
                    return Err(ExKind::Internal);
                },
            };
            match catch_in_frame(vm, cid, &handlers, code.len(), pc, e, &mut stack) {
                Some(t) => {
                    pc = t;
                },
                None => {
                    return Err(e);
                },
            }
        } else if op == 0xb0 {
            // areturn
            match stack.pop_ref_checked() {
                Some(o) => {
                    return Ok(Some(o));
                },
                None => {
                    return Err(ExKind::Internal);
                },
            }
        } else if op == 0xb1 {
            // return
            return Ok(None);
        } else if op == 0xb2 || op == 0xb3 {
            // getstatic / putstatic
            if code.len() - pc <= 2 {
                return Err(ExKind::Internal);
            }
            let idx = crate::codec::u16_from_be(code[pc + 1], code[pc + 2]);
            let (class_name, fname, fdesc) = {
                let cpv = &vm.classes.get(cid).cp;
                match cp_member_ref(cpv, idx) {
                    Some(t) => t,
                    None => {
                        return Err(ExKind::Internal);
                    },
                }
            };
            let target = match vm.dic.find(&class_name) {
                Some(c) => c,
                None => {
                    return Err(ExKind::NoClassDefFound);
                },
            };
            if target >= vm.classes.count() {
                return Err(ExKind::Internal);
            }
            // a static access is a first use of the declaring class
            match ensure_initialized(vm, host, target, depth - 1, fuel) {
                Ok(()) => {},
                Err(e) => {
                    return Err(e);
                },
            }
            if target >= vm.classes.count() {
                return Err(ExKind::Internal);
            }
            let off = match vm.classes.get_static_field_id(target, &fname, &fdesc) {
                Some(o) => o,
                None => {
                    return Err(ExKind::Internal);
                },
            };
            if off >= vm.classes.get(target).static_values.len() {
                return Err(ExKind::Internal);
            }
            if op == 0xb2 {
                let v = vm.classes.get_static_value(target, off);
                match v {
                    Oop::Int(i) => stack.push_int(i),
                    Oop::Long(l) => stack.push_long(l),
                    Oop::Ref(h) => stack.push_ref(Oop::Ref(h)),
                    Oop::Null => stack.push_null(),
                    _ => {
                        return Err(ExKind::Internal);
                    },
                }
            } else {
                let v = match pop_value_for_desc(&mut stack, &fdesc) {
                    Some(v) => v,
                    None => {
                        return Err(ExKind::Internal);
                    },
                };
                vm.classes.set_static_value(target, off, v);
            }
            pc = pc + 3;
        } else if op == 0xb4 || op == 0xb5 {
            // getfield / putfield
            if code.len() - pc <= 2 {
                return Err(ExKind::Internal);
            }
            let idx = crate::codec::u16_from_be(code[pc + 1], code[pc + 2]);
            let (_, fname, fdesc) = {
                let cpv = &vm.classes.get(cid).cp;
                match cp_member_ref(cpv, idx) {
                    Some(t) => t,
                    None => {
                        return Err(ExKind::Internal);
                    },
                }
            };
            let v: Option<Oop> = if op == 0xb5 {
                match pop_value_for_desc(&mut stack, &fdesc) {
                    Some(v) => Some(v),
                    None => {
                        return Err(ExKind::Internal);
                    },
                }
            } else {
                None
            };
            let receiver = match stack.pop_ref_checked() {
                Some(o) => o,
                None => {
                    return Err(ExKind::Internal);
                },
            };
            if !(matches!(receiver, Oop::Ref(_)) || matches!(receiver, Oop::Null)) {
                return Err(ExKind::Internal);
            }
            let h = match crate::oop::non_null_receiver(receiver) {
                Ok(h) => h,
                Err(e) => {
                    return Err(e);
                },
            };
            if h >= vm.heap.size() {
                return Err(ExKind::Internal);
            }
            let rc = match &vm.heap.get(h).v {
                RefKind::Inst(inst) => inst.class,
                _ => {
                    return Err(ExKind::Internal);
                },
            };
            if rc >= vm.classes.count() {
                return Err(ExKind::Internal);
            }
            let off = match vm.classes.get_field_id(rc, &fname, &fdesc) {
                Some(o) => o,
                None => {
                    return Err(ExKind::Internal);
                },
            };
            let nf = match &vm.heap.get(h).v {
                RefKind::Inst(inst) => inst.fields.len(),
                _ => {
                    return Err(ExKind::Internal);
                },
            };
            if off >= nf {
                return Err(ExKind::Internal);
            }
            if op == 0xb4 {
                let fv = vm.heap.get_field_value(h, off);
                match fv {
                    Oop::Int(i) => stack.push_int(i),
                    Oop::Long(l) => stack.push_long(l),
                    Oop::Ref(hh) => stack.push_ref(Oop::Ref(hh)),
                    Oop::Null => stack.push_null(),
                    _ => {
                        return Err(ExKind::Internal);
                    },
                }
            } else {
                match v {
                    Some(v) => vm.heap.put_field_value(h, off, v),
                    None => {
                        return Err(ExKind::Internal);
                    },
                }
            }
            pc = pc + 3;
        } else if op == 0xb6 || op == 0xb7 || op == 0xb8 || op == 0xb9 {
            // invokevirtual / invokespecial / invokestatic / invokeinterface
            // (the latter carries a count byte and a zero byte after the
            // index, and dispatches on the receiver's concrete class)
            let ilen: usize = if op == 0xb9 {
                5
            } else {
                3
            };
            if code.len() - pc <= ilen - 1 {
                return Err(ExKind::Internal);
            }
            let idx = crate::codec::u16_from_be(code[pc + 1], code[pc + 2]);
            let (class_name, mname, mdesc) = {
                let cpv = &vm.classes.get(cid).cp;
                match cp_member_ref(cpv, idx) {
                    Some(t) => t,
                    None => {
                        return Err(ExKind::Internal);
                    },
                }
            };
            let (kinds, ret) = match parse_descriptor(&mdesc) {
                Some(t) => t,
                None => {
                    return Err(ExKind::Internal);
                },
            };
            let mut rev_args: Vec<Oop> = Vec::new();
            let na = kinds.len();
            let mut k: usize = na;
            while k > 0
                invariant
                    depth >= 1,
                    k <= na,
                    na == kinds@.len(),
                    vm.heap.objs().len() >= old(vm).heap.objs().len(),
                    vm.classes.views().len() == old(vm).classes.views().len(),
                decreases k,
            {
                k = k - 1;
                let a: Oop = match kinds[k] {
                    SlotKind::IntLike => match stack.pop_int_checked() {
                        Some(v) => Oop::Int(v),
                        None => {
                            return Err(ExKind::Internal);
                        },
                    },
                    SlotKind::LongKind => match stack.pop_long_checked() {
                        Some(v) => Oop::Long(v),
                        None => {
                            return Err(ExKind::Internal);
                        },
                    },
                    SlotKind::RefKind => match stack.pop_ref_checked() {
                        Some(o) => o,
                        None => {
                            return Err(ExKind::Internal);
                        },
                    },
                    _ => {
                        return Err(ExKind::Internal);
                    },
                };
                rev_args.push(a);
            }
            let mut call_args: Vec<Oop> = Vec::new();
            if op != 0xb8 {
                let receiver = match stack.pop_ref_checked() {
                    Some(o) => o,
                    None => {
                        return Err(ExKind::Internal);
                    },
                };
                if !(matches!(receiver, Oop::Ref(_)) || matches!(receiver, Oop::Null)) {
                    return Err(ExKind::Internal);
                }
                match crate::oop::non_null_receiver(receiver) {
                    Ok(_) => {},
                    Err(e) => {
                        return Err(e);
                    },
                }
                call_args.push(receiver);
            }
            let mut j: usize = rev_args.len();
            while j > 0
                invariant
                    j <= rev_args@.len(),
                    op != 0xb8 ==> call_args@.len() >= 1,
                decreases j,
            {
                j = j - 1;
                call_args.push(rev_args[j]);
            }
            let target_class: ClassId = if op == 0xb6 || op == 0xb9 {
                // virtual and interface dispatch: the receiver's concrete
                // class
                let h = match call_args[0] {
                    Oop::Ref(h) => h,
                    _ => {
                        return Err(ExKind::Internal);
                    },
                };
                if h >= vm.heap.size() {
                    return Err(ExKind::Internal);
                }
                match &vm.heap.get(h).v {
                    RefKind::Inst(inst) => inst.class,
                    _ => {
                        return Err(ExKind::Internal);
                    },
                }
            } else {
                match vm.dic.find(&class_name) {
                    Some(c) => c,
                    None => {
                        return Err(ExKind::NoClassDefFound);
                    },
                }
            };
            if target_class >= vm.classes.count() {
                return Err(ExKind::Internal);
            }
            if op == 0xb8 {
                // a static call is a first use of the target class
                match ensure_initialized(vm, host, target_class, depth - 1, fuel) {
                    Ok(()) => {},
                    Err(e) => {
                        return Err(e);
                    },
                }
                if target_class >= vm.classes.count() {
                    return Err(ExKind::Internal);
                }
            }
            let (rc, mi) = match vm.classes.resolve_method(target_class, &mname, &mdesc) {
                Some(t) => t,
                None => {
                    return Err(ExKind::AbstractMethod);
                },
            };
            match execute_method(vm, host, rc, mi, call_args, depth - 1, fuel) {
                Ok(ret_v) => {
                    match (ret, ret_v) {
                        (SlotKind::VoidKind, _) => {},
                        (SlotKind::IntLike, Some(Oop::Int(v))) => stack.push_int(v),
                        (SlotKind::LongKind, Some(Oop::Long(v))) => stack.push_long(v),
                        (SlotKind::RefKind, Some(Oop::Ref(h))) => stack.push_ref(Oop::Ref(h)),
                        (SlotKind::RefKind, Some(Oop::Null)) => stack.push_null(),
                        _ => {
                            return Err(ExKind::Internal);
                        },
                    }
                    pc = pc + ilen;
                },
                Err(e) => {
                    match catch_in_frame(vm, cid, &handlers, code.len(), pc, e, &mut stack) {
                        Some(t) => {
                            pc = t;
                        },
                        None => {
                            return Err(e);
                        },
                    }
                },
            }
        } else if op == 0xbb {
            // new
            if code.len() - pc <= 2 {
                return Err(ExKind::Internal);
            }
            let idx = crate::codec::u16_from_be(code[pc + 1], code[pc + 2]);
            let cname = {
                let cpv = &vm.classes.get(cid).cp;
                match crate::runtime::resolve_class_name(cpv, idx) {
                    Some(n) => n,
                    None => {
                        return Err(ExKind::Internal);
                    },
                }
            };
            let target = match vm.dic.find(&cname) {
                Some(c) => c,
                None => {
                    return Err(ExKind::NoClassDefFound);
                },
            };
            if target >= vm.classes.count() {
                return Err(ExKind::Internal);
            }
            // creating an instance is a first use of the class
            match ensure_initialized(vm, host, target, depth - 1, fuel) {
                Ok(()) => {},
                Err(e) => {
                    return Err(e);
                },
            }
            if target >= vm.classes.count() {
                return Err(ExKind::Internal);
            }
            let h = match new_instance(vm, target) {
                Ok(h) => h,
                Err(e) => {
                    return Err(e);
                },
            };
            stack.push_ref(Oop::Ref(h));
            pc = pc + 3;
        } else if op == 0xbc {
            // newarray: every integral element kind; the float kinds are
            // outside this core
            if code.len() - pc <= 1 {
                return Err(ExKind::Internal);
            }
            let atype = code[pc + 1];
            if !(atype == 4 || atype == 5 || atype == 8 || atype == 9 || atype == 10 || atype
                == 11) {
                return Err(ExKind::Internal);
            }
            let count = match stack.pop_int_checked() {
                Some(v) => v,
                None => {
                    return Err(ExKind::Internal);
                },
            };
            if count < 0 {
                return Err(ExKind::NegativeArraySize);
            }
            let n = count as usize;
            let kind: TypeArrayDesc = if atype == 4 {
                let mut elems: Vec<u8> = Vec::new();
                let mut z: usize = 0;
                while z < n
                    invariant
                        z <= n,
                    decreases n - z,
                {
                    elems.push(0);
                    z = z + 1;
                }
                TypeArrayDesc::Bool(elems)
            } else if atype == 5 {
                let mut elems: Vec<u16> = Vec::new();
                let mut z: usize = 0;
                while z < n
                    invariant
                        z <= n,
                    decreases n - z,
                {
                    elems.push(0);
                    z = z + 1;
                }
                TypeArrayDesc::Char(elems)
            } else if atype == 8 {
                let mut elems: Vec<i8> = Vec::new();
                let mut z: usize = 0;
                while z < n
                    invariant
                        z <= n,
                    decreases n - z,
                {
                    elems.push(0);
                    z = z + 1;
                }
                TypeArrayDesc::Byte(elems)
            } else if atype == 9 {
                let mut elems: Vec<i16> = Vec::new();
                let mut z: usize = 0;
                while z < n
                    invariant
                        z <= n,
                    decreases n - z,
                {
                    elems.push(0);
                    z = z + 1;
                }
                TypeArrayDesc::Short(elems)
            } else if atype == 10 {
                let mut elems: Vec<i32> = Vec::new();
                let mut z: usize = 0;
                while z < n
                    invariant
                        z <= n,
                    decreases n - z,
                {
                    elems.push(0);
                    z = z + 1;
                }
                TypeArrayDesc::Int(elems)
            } else {
                let mut elems: Vec<i64> = Vec::new();
                let mut z: usize = 0;
                while z < n
                    invariant
                        z <= n,
                    decreases n - z,
                {
                    elems.push(0);
                    z = z + 1;
                }
                TypeArrayDesc::Long(elems)
            };
            let h = vm.heap.new_cell(OopDesc { v: RefKind::TypeArray(kind) });
            stack.push_ref(Oop::Ref(h));
            pc = pc + 2;
        } else if op == 0xbd {
            // anewarray
            if code.len() - pc <= 2 {
                return Err(ExKind::Internal);
            }
            let idx = crate::codec::u16_from_be(code[pc + 1], code[pc + 2]);
            let cname = {
                let cpv = &vm.classes.get(cid).cp;
                match crate::runtime::resolve_class_name(cpv, idx) {
                    Some(n) => n,
                    None => {
                        return Err(ExKind::Internal);
                    },
                }
            };
            let ecid = match vm.dic.find(&cname) {
                Some(c) => c,
                None => {
                    return Err(ExKind::NoClassDefFound);
                },
            };
            let count = match stack.pop_int_checked() {
                Some(v) => v,
                None => {
                    return Err(ExKind::Internal);
                },
            };
            if count < 0 {
                return Err(ExKind::NegativeArraySize);
            }
            let n = count as usize;
            let mut elems: Vec<Oop> = Vec::new();
            let mut z: usize = 0;
            while z < n
                invariant
                    z <= n,
                decreases n - z,
            {
                elems.push(Oop::Null);
                z = z + 1;
            }
            let h = vm.heap.new_cell(OopDesc { v: RefKind::ObjArray(ecid, elems) });
            stack.push_ref(Oop::Ref(h));
            pc = pc + 3;
        } else if op == 0xc5 {
            // multianewarray, for object elements; the primitive-element
            // forms are outside this core
            if code.len() - pc <= 3 {
                return Err(ExKind::Internal);
            }
            let idx = crate::codec::u16_from_be(code[pc + 1], code[pc + 2]);
            let dims = code[pc + 3] as usize;
            if dims == 0 {
                return Err(ExKind::Internal);
            }
            let aname = {
                let cpv = &vm.classes.get(cid).cp;
                match crate::runtime::resolve_class_name(cpv, idx) {
                    Some(n) => n,
                    None => {
                        return Err(ExKind::Internal);
                    },
                }
            };
            let ename = match element_class_name(&aname) {
                Some(n) => n,
                None => {
                    return Err(ExKind::Internal);
                },
            };
            let ecid = match vm.dic.find(&ename) {
                Some(c) => c,
                None => {
                    return Err(ExKind::NoClassDefFound);
                },
            };
            // the counts stand on the stack with the last dimension on top
            let mut counts_rev: Vec<i32> = Vec::new();
            let mut k: usize = dims;
            while k > 0
                invariant
                    k <= dims,
                    depth >= 1,
                    vm.heap.objs().len() >= old(vm).heap.objs().len(),
                    vm.classes.views().len() == old(vm).classes.views().len(),
                decreases k,
            {
                k = k - 1;
                match stack.pop_int_checked() {
                    Some(v) => counts_rev.push(v),
                    None => {
                        return Err(ExKind::Internal);
                    },
                }
            }
            let mut counts: Vec<i32> = Vec::new();
            let mut t: usize = counts_rev.len();
            while t > 0
                invariant
                    t <= counts_rev@.len(),
                    counts@.len() == counts_rev@.len() - t,
                    forall|j: int| 0 <= j < counts@.len() ==> #[trigger] counts@[j] >= 0,
                    depth >= 1,
                    vm.heap.objs().len() >= old(vm).heap.objs().len(),
                    vm.classes.views().len() == old(vm).classes.views().len(),
                decreases t,
            {
                t = t - 1;
                let c = counts_rev[t];
                if c < 0 {
                    return Err(ExKind::NegativeArraySize);
                }
                counts.push(c);
            }
            if counts.len() == 0 {
                return Err(ExKind::Internal);
            }
            let h = match alloc_multi(&mut vm.heap, ecid, &counts, 0) {
                Ok(h) => h,
                Err(e) => {
                    return Err(e);
                },
            };
            stack.push_ref(Oop::Ref(h));
            pc = pc + 4;
        } else if op == 0xc0 || op == 0xc1 {
            // checkcast / instanceof: assignability by the superclass chain
            // and direct interfaces; the non-instance objects (arrays,
            // mirrors) pass only against java/lang/Object here
            if code.len() - pc <= 2 {
                return Err(ExKind::Internal);
            }
            let idx = crate::codec::u16_from_be(code[pc + 1], code[pc + 2]);
            let tname = {
                let cpv = &vm.classes.get(cid).cp;
                match crate::runtime::resolve_class_name(cpv, idx) {
                    Some(n) => n,
                    None => {
                        return Err(ExKind::Internal);
                    },
                }
            };
            let oref = match stack.pop_ref_checked() {
                Some(o) => o,
                None => {
                    return Err(ExKind::Internal);
                },
            };
            match oref {
                Oop::Null => {
                    // null casts to anything and is an instance of nothing
                    if op == 0xc0 {
                        stack.push_null();
                    } else {
                        stack.push_int(0);
                    }
                },
                Oop::Ref(h) => {
                    if h >= vm.heap.size() {
                        return Err(ExKind::Internal);
                    }
                    let fits: bool = match &vm.heap.get(h).v {
                        RefKind::Inst(inst) => {
                            if inst.class >= vm.classes.count() {
                                return Err(ExKind::Internal);
                            }
                            vm.classes.is_assignable_to(inst.class, &tname)
                        },
                        _ => {
                            let object_name = crate::oop_util::java_lang_object_bytes();
                            crate::classfile::bytes_eq(&object_name, tname.as_slice())
                        },
                    };
                    if op == 0xc0 {
                        if fits {
                            stack.push_ref(Oop::Ref(h));
                        } else {
                            return Err(ExKind::ClassCast);
                        }
                    } else {
                        stack.push_int(
                            if fits {
                                1
                            } else {
                                0
                            },
                        );
                    }
                },
                _ => {
                    return Err(ExKind::Internal);
                },
            }
            pc = pc + 3;
        } else if op == 0xbe {
            // arraylength
            let aref = match stack.pop_ref_checked() {
                Some(o) => o,
                None => {
                    return Err(ExKind::Internal);
                },
            };
            match aref {
                Oop::Null => {
                    return Err(ExKind::NullPointer);
                },
                Oop::Ref(h) => {
                    if h >= vm.heap.size() {
                        return Err(ExKind::Internal);
                    }
                    let is_array = matches!(
                        &vm.heap.get(h).v,
                        RefKind::TypeArray(_) | RefKind::ObjArray(_, _)
                    );
                    if !is_array {
                        return Err(ExKind::Internal);
                    }
                    let n = crate::oop::array_length_at(&vm.heap, h);
                    if n > 0x7fff_ffff {
                        return Err(ExKind::Internal);
                    }
                    match array_length(&vm.heap, aref) {
                        Ok(l) => stack.push_int(l),
                        Err(e) => {
                            return Err(e);
                        },
                    }
                },
                _ => {
                    return Err(ExKind::Internal);
                },
            }
            pc = pc + 1;
        } else if op == 0xc2 || op == 0xc3 {
            // monitorenter / monitorexit; this core runs the main thread
            // alone, so a held monitor is always the caller's and reentry is
            // the case that matters
            let oref = match stack.pop_ref_checked() {
                Some(o) => o,
                None => {
                    return Err(ExKind::Internal);
                },
            };
            if !(matches!(oref, Oop::Ref(_)) || matches!(oref, Oop::Null)) {
                return Err(ExKind::Internal);
            }
            let h = match crate::oop::non_null_receiver(oref) {
                Ok(h) => h,
                Err(e) => {
                    return Err(e);
                },
            };
            let mut found: Option<usize> = None;
            let nm = vm.monitors.len();
            let mut t: usize = 0;
            while t < nm
                invariant
                    t <= nm,
                    nm == vm.monitors@.len(),
                decreases nm - t,
            {
                if vm.monitors[t].0 == h {
                    found = Some(t);
                }
                t = t + 1;
            }
            let mi: usize = match found {
                Some(i) => {
                    if i < vm.monitors.len() {
                        i
                    } else {
                        return Err(ExKind::Internal);
                    }
                },
                None => {
                    let i = vm.monitors.len();
                    vm.monitors.push((h, crate::monitor::Monitor::new()));
                    i
                },
            };
            let pair = vm.monitors[mi];
            let mut mon = pair.1;
            // the monitor contracts ask for a well-formed state and head
            // room in the count; test both rather than carry an invariant
            // over the table
            if (matches!(mon.owner, Some(_)) != (mon.count > 0)) || mon.count == u64::MAX {
                return Err(ExKind::Internal);
            }
            if op == 0xc2 {
                match mon.enter(MAIN_THREAD) {
                    crate::monitor::EnterOutcome::Acquired => {},
                    crate::monitor::EnterOutcome::WouldBlock => {
                        // unreachable with a single thread id; a blocked
                        // enter would otherwise park the thread
                        return Err(ExKind::Internal);
                    },
                }
            } else {
                match mon.exit(MAIN_THREAD) {
                    Ok(()) => {},
                    Err(e) => {
                        return Err(e);
                    },
                }
            }
            vm.monitors[mi] = (pair.0, mon);
            pc = pc + 1;
        } else {
            return Err(ExKind::Internal);
        }
    }
}

/// Pops the value a field write needs, by the field descriptor's first byte.
fn pop_value_for_desc(stack: &mut Stack, desc: &Vec<u8>) -> (r: Option<Oop>) {
    if desc.len() == 0 {
        return None;
    }
    let b = desc[0];
    if b == 0x4a {
        match stack.pop_long_checked() {
            Some(v) => Some(Oop::Long(v)),
            None => None,
        }
    } else if b == 0x4c || b == 0x5b {
        match stack.pop_ref_checked() {
            Some(o) => Some(o),
            None => None,
        }
    } else if b == 0x46 || b == 0x44 {
        None
    } else {
        match stack.pop_int_checked() {
            Some(v) => Some(Oop::Int(v)),
            None => None,
        }
    }
}

/// The thrown class, named `thrown`, is caught by the type named `catch`:
/// the names are equal, or the thrown class is linked and the caught name
/// stands on its superclass chain or among the direct interfaces there.
pub open spec fn name_caught_by(
    classes: Seq<crate::class::ClassDesc>,
    dic: crate::sys_dic::SysDic,
    thrown: Seq<u8>,
    catch: Seq<u8>,
) -> bool {
    thrown == catch || (dic.spec_find(thrown) matches Some(tc) && (tc as int) < classes.len()
        && crate::class::assignable_to(classes, tc, catch, classes.len() as nat))
}

/// A table entry handles the throw: the counter lies in its protected range
/// and its caught type is the catch-all entry or a type the exception's
/// class is assignable to.
pub open spec fn handler_matches(
    cp: Seq<crate::classfile::ConstantType>,
    classes: Seq<crate::class::ClassDesc>,
    dic: crate::sys_dic::SysDic,
    e: crate::classfile::ExceptionEntry,
    pc: u16,
    ex_name: Seq<u8>,
) -> bool {
    &&& e.start_pc <= pc < e.end_pc
    &&& (e.catch_type == 0 || (crate::runtime::class_name_at(cp, e.catch_type as int) matches Some(
        cn,
    ) && name_caught_by(classes, dic, ex_name, cn)))
}

/// The handler the propagation walk selects: the first matching entry's
/// target, if any entry matches.
pub open spec fn first_handler(
    cp: Seq<crate::classfile::ConstantType>,
    classes: Seq<crate::class::ClassDesc>,
    dic: crate::sys_dic::SysDic,
    entries: Seq<crate::classfile::ExceptionEntry>,
    pc: u16,
    ex_name: Seq<u8>,
) -> Option<u16>
    decreases entries.len(),
{
    if entries.len() == 0 {
        None
    } else if handler_matches(cp, classes, dic, entries[0], pc, ex_name) {
        Some(entries[0].handler_pc)
    } else {
        first_handler(cp, classes, dic, entries.skip(1), pc, ex_name)
    }
}

/// Walks a frame's exception table for a handler whose protected range
/// contains the throwing counter and whose caught type is assignable from
/// the exception's class: the catch-all entry, an exact name match, or a
/// supertype by the linked chain; the first hit wins.
pub fn find_handler(
    cp: &Vec<crate::classfile::ConstantType>,
    classes: &crate::class::ClassArea,
    dic: &crate::sys_dic::SysDic,
    entries: &Vec<crate::classfile::ExceptionEntry>,
    pc: u16,
    ex_name: &Vec<u8>,
) -> (r: Option<u16>)
    ensures
        r == first_handler(cp@, classes.views(), *dic, entries@, pc, ex_name@),
{
    let n = entries.len();
    let mut i: usize = 0;
    proof {
        assert(entries@.skip(0) =~= entries@);
    }
    while i < n
        invariant
            i <= n,
            n == entries@.len(),
            first_handler(cp@, classes.views(), *dic, entries@.skip(i as int), pc, ex_name@)
                == first_handler(cp@, classes.views(), *dic, entries@, pc, ex_name@),
        decreases n - i,
    {
        let e = &entries[i];
        proof {
            assert(entries@.skip(i as int)[0] == entries@[i as int]);
            assert(entries@.skip(i as int).skip(1) =~= entries@.skip(i + 1));
        }
        if e.start_pc <= pc && pc < e.end_pc {
            if e.catch_type == 0 {
                return Some(e.handler_pc);
            }
            let matched = match crate::runtime::resolve_class_name(cp, e.catch_type) {
                Some(name) => {
                    if crate::classfile::bytes_eq(&name, ex_name.as_slice()) {
                        true
                    } else {
                        match dic.find(ex_name) {
                            Some(tc) => {
                                if tc < classes.count() {
                                    classes.is_assignable_to(tc, &name)
                                } else {
                                    false
                                }
                            },
                            None => false,
                        }
                    }
                },
                None => false,
            };
            if matched {
                return Some(e.handler_pc);
            }
        }
        i = i + 1;
    }
    None
}

/// Holds a raised condition against a frame's exception table: on a match
/// the operand stack is cleared, the exception object (the thrown one for a
/// Java-level throw, else a fresh instance of the condition's class where it
/// is linked, else null) is pushed, and the handler's target is answered; on
/// no match the condition propagates.
fn catch_in_frame(
    vm: &mut Vm,
    cid: ClassId,
    handlers: &Vec<crate::classfile::ExceptionEntry>,
    code_len: usize,
    pc: usize,
    e: ExKind,
    stack: &mut Stack,
) -> (r: Option<usize>)
    requires
        old(vm).classes.valid_class(cid),
    ensures
        final(vm).heap.objs().len() >= old(vm).heap.objs().len(),
        final(vm).classes.views().len() == old(vm).classes.views().len(),
        r matches Some(t) ==> t < code_len,
{
    if !catchable(e) || pc > 0xffff {
        return None;
    }
    // the class the handler must assign from: the thrown object's class for
    // a Java-level throw, the condition's class otherwise
    let ex_name: Vec<u8> = if matches!(e, ExKind::Thrown) {
        match vm.thrown {
            Some(h) => {
                if h < vm.heap.size() {
                    match &vm.heap.get(h).v {
                        RefKind::Inst(inst) => {
                            if inst.class < vm.classes.count() {
                                crate::classfile::copy_bytes(&vm.classes.get(inst.class).name)
                            } else {
                                return None;
                            }
                        },
                        _ => {
                            return None;
                        },
                    }
                } else {
                    return None;
                }
            },
            None => {
                return None;
            },
        }
    } else {
        exception_name_bytes(e)
    };
    let t: usize = {
        let cpv = &vm.classes.get(cid).cp;
        match find_handler(cpv, &vm.classes, &vm.dic, handlers, pc as u16, &ex_name) {
            Some(t) => t as usize,
            None => {
                return None;
            },
        }
    };
    if t >= code_len {
        return None;
    }
    stack.clear();
    let exh: Option<usize> = if matches!(e, ExKind::Thrown) {
        match vm.thrown {
            Some(h) => {
                vm.thrown = None;
                if h < vm.heap.size() {
                    Some(h)
                } else {
                    None
                }
            },
            None => None,
        }
    } else {
        match vm.dic.find(&ex_name) {
            Some(ec) => {
                if ec < vm.classes.count() {
                    match new_instance(vm, ec) {
                        Ok(h) => Some(h),
                        Err(_) => None,
                    }
                } else {
                    None
                }
            },
            None => None,
        }
    };
    match exh {
        Some(h) => stack.push_ref(Oop::Ref(h)),
        None => stack.push_null(),
    }
    Some(t)
}

/// The internal class name of each condition, as character text.
pub open spec fn exception_name_of(e: ExKind) -> Seq<char> {
    match e {
        ExKind::NullPointer => "java/lang/NullPointerException"@,
        ExKind::ArrayIndexOutOfBounds => "java/lang/ArrayIndexOutOfBoundsException"@,
        ExKind::Arithmetic => "java/lang/ArithmeticException"@,
        ExKind::ClassCast => "java/lang/ClassCastException"@,
        ExKind::NegativeArraySize => "java/lang/NegativeArraySizeException"@,
        ExKind::ArrayStore => "java/lang/ArrayStoreException"@,
        ExKind::StackOverflow => "java/lang/StackOverflowError"@,
        ExKind::AbstractMethod => "java/lang/AbstractMethodError"@,
        ExKind::IllegalMonitorState => "java/lang/IllegalMonitorStateException"@,
        ExKind::ExceptionInInitializer => "java/lang/ExceptionInInitializerError"@,
        ExKind::NoClassDefFound => "java/lang/NoClassDefFoundError"@,
        ExKind::Io => "java/io/IOException"@,
        ExKind::Internal => "java/lang/InternalError"@,
        // a Java-level throw carries its own object; this name stands in
        // only when the thrown slot is empty, and matches no narrower type
        ExKind::Thrown => "java/lang/Throwable"@,
    }
}

/// The internal name of the class an exception condition instantiates.
pub fn exception_class_name(e: ExKind) -> (r: &'static str)
    ensures
        r@ == exception_name_of(e),
{
    match e {
        ExKind::NullPointer => "java/lang/NullPointerException",
        ExKind::ArrayIndexOutOfBounds => "java/lang/ArrayIndexOutOfBoundsException",
        ExKind::Arithmetic => "java/lang/ArithmeticException",
        ExKind::ClassCast => "java/lang/ClassCastException",
        ExKind::NegativeArraySize => "java/lang/NegativeArraySizeException",
        ExKind::ArrayStore => "java/lang/ArrayStoreException",
        ExKind::StackOverflow => "java/lang/StackOverflowError",
        ExKind::AbstractMethod => "java/lang/AbstractMethodError",
        ExKind::IllegalMonitorState => "java/lang/IllegalMonitorStateException",
        ExKind::ExceptionInInitializer => "java/lang/ExceptionInInitializerError",
        ExKind::NoClassDefFound => "java/lang/NoClassDefFoundError",
        ExKind::Io => "java/io/IOException",
        ExKind::Internal => "java/lang/InternalError",
        ExKind::Thrown => "java/lang/Throwable",
    }
}

/// The conditions a Java-level handler can catch; errors and internal
/// conditions propagate.
pub fn catchable(e: ExKind) -> (r: bool)
    ensures
        r == (e == ExKind::NullPointer || e == ExKind::Arithmetic || e
            == ExKind::ArrayIndexOutOfBounds || e == ExKind::NegativeArraySize || e
            == ExKind::ClassCast || e == ExKind::ArrayStore || e == ExKind::Io || e
            == ExKind::Thrown),
{
    match e {
        ExKind::NullPointer => true,
        ExKind::Arithmetic => true,
        ExKind::ArrayIndexOutOfBounds => true,
        ExKind::NegativeArraySize => true,
        ExKind::ClassCast => true,
        ExKind::ArrayStore => true,
        ExKind::Io => true,
        ExKind::Thrown => true,
        _ => false,
    }
}

/// The class name of a condition, as its utf-8 bytes.
fn exception_name_bytes(e: ExKind) -> (r: Vec<u8>)
    ensures
        r@ == vstd::utf8::encode_utf8(exception_name_of(e)),
{
    let s = exception_class_name(e);
    let b = s.as_bytes();
    let n = b.len();
    let mut out: Vec<u8> = Vec::new();
    let mut i: usize = 0;
    while i < n
        invariant
            i <= n,
            n == b@.len(),
            out@ == b@.subrange(0, i as int),
        decreases n - i,
    {
        out.push(b[i]);
        proof {
            assert(out@ =~= b@.subrange(0, i + 1 as int));
        }
        i = i + 1;
    }
    proof {
        assert(out@ =~= b@);
    }
    out
}

/// An element-wise copy of an exception table.
fn copy_exception_entries(v: &Vec<crate::classfile::ExceptionEntry>) -> (r: Vec<
    crate::classfile::ExceptionEntry,
>)
    ensures
        r@ == v@,
{
    let mut r: Vec<crate::classfile::ExceptionEntry> = Vec::with_capacity(v.len());
    let mut i: usize = 0;
    while i < v.len()
        invariant
            i <= v@.len(),
            r@ == v@.subrange(0, i as int),
        decreases v@.len() - i,
    {
        r.push(v[i]);
        proof {
            assert(r@ =~= v@.subrange(0, i + 1 as int));
        }
        i = i + 1;
    }
    proof {
        assert(r@ =~= v@);
    }
    r
}

} // verus!
