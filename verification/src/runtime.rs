//! The runtime: the heap, the class registry, the system dictionary and the
//! string pool, with the linking driver and the class initialization
//! machinery.
//!
//! Linking publishes a descriptor into the dictionary; requesting a name that
//! is already published returns the published handle and changes nothing, so
//! linking the same class twice yields the same descriptor handle.
//! Initialization marks the not-yet-initialized superclass chain root-first,
//! each class exactly once; the `<clinit>` bodies run in that order.

use vstd::prelude::*;

use crate::class::{
    build_methods, layout_instance_fields, layout_static_fields, offsets_sequential, ClassArea,
    ClassDesc, InitState,
};
use crate::classfile::{get_utf8, utf8_at, ClassFile, ConstantType};
use crate::errors::LinkageError;
use crate::field::FieldId;
use crate::oop::{ClassId, Heap, Oop};
use crate::sys_dic::SysDic;

verus! {

/// The process-wide runtime state.
pub struct Vm {
    pub heap: Heap,
    pub classes: ClassArea,
    pub dic: SysDic,
    pub monitors: Vec<(usize, crate::monitor::Monitor)>,
    pub strings: crate::oop_util::StringPool,
    /// The object of the Java-level exception in flight, while an
    /// `ExKind::Thrown` condition propagates.
    pub thrown: Option<usize>,
}

/// A fresh runtime: empty heap, no classes, empty dictionary, no monitors,
/// empty string pool.
pub fn init() -> (r: Vm)
    ensures
        r.heap.objs().len() == 0,
        r.classes.views().len() == 0,
        forall|k: Seq<u8>| r.dic.spec_find(k) is None,
        r.monitors@.len() == 0,
        forall|k: Seq<u16>| r.strings.spec_find(k) is None,
        r.thrown is None,
{
    Vm {
        heap: Heap::new(),
        classes: ClassArea::new(),
        dic: SysDic::new(),
        monitors: Vec::new(),
        strings: crate::oop_util::StringPool::new(),
        thrown: None,
    }
}

/// The name behind a `Class` constant-pool entry.
pub open spec fn class_name_at(cp: Seq<ConstantType>, idx: int) -> Option<Seq<u8>> {
    if 0 <= idx < cp.len() {
        match cp[idx] {
            ConstantType::Class { name_index } => utf8_at(cp, name_index as int),
            _ => None,
        }
    } else {
        None
    }
}

/// Resolves a `Class` constant to its name bytes.
pub fn resolve_class_name(cp: &Vec<ConstantType>, idx: u16) -> (r: Option<Vec<u8>>)
    ensures
        match r {
            Some(v) => class_name_at(cp@, idx as int) == Some(v@),
            None => class_name_at(cp@, idx as int) is None,
        },
{
    if (idx as usize) < cp.len() {
        match &cp[idx as usize] {
            ConstantType::Class { name_index } => get_utf8(cp, *name_index),
            _ => None,
        }
    } else {
        None
    }
}

/// The name this class file declares for itself.
pub open spec fn own_name_of(cf: ClassFile) -> Option<Seq<u8>> {
    class_name_at(cf.cp@, cf.this_class as int)
}

/// The superclass record, if the file names one, resolves against the
/// runtime: it names a published class with a stable inherited layout.
pub open spec fn super_ok(classes: Seq<ClassDesc>, dic: SysDic, cf: ClassFile) -> bool {
    cf.super_class != 0 ==> (class_name_at(cf.cp@, cf.super_class as int) matches Some(sn)
        && dic.spec_find(sn) matches Some(sc) && (sc as int) < classes.len() && !(classes[
        sc as int
    ].init_state is Unloaded) && offsets_sequential(classes[sc as int].inst_fields@))
}

/// A class file links against the runtime: its superclass, where named,
/// resolves, every named interface resolves to a published class, every
/// field record decodes and every method record decodes. Linking an
/// unpublished name succeeds exactly here.
pub open spec fn linkable(classes: Seq<ClassDesc>, dic: SysDic, cf: ClassFile) -> bool {
    &&& super_ok(classes, dic, cf)
    &&& forall|t: int| 0 <= t < cf.interfaces@.len() ==> (class_name_at(
        cf.cp@,
        #[trigger] cf.interfaces@[t] as int,
    ) matches Some(inm) && dic.spec_find(inm) matches Some(ic) && (ic as int) < classes.len())
    &&& forall|j: int| 0 <= j < cf.fields@.len() ==> crate::class::field_record_ok(
        cf.cp@,
        #[trigger] cf.fields@[j],
    )
    &&& forall|k: int| 0 <= k < cf.methods@.len() ==> crate::class::method_record_ok(
        cf.cp@,
        #[trigger] cf.methods@[k],
    )
}

/// What the registered descriptor of a freshly linked class holds: the
/// file's access flags, the resolved superclass, the owed instance and
/// static layouts, the statics at their starting values, the method table
/// record for record, and the file's constant pool entry for entry.
pub open spec fn linked_descriptor_ok(
    old_classes: Seq<ClassDesc>,
    dic: SysDic,
    cf: ClassFile,
    name: Seq<u8>,
    d: ClassDesc,
) -> bool {
    &&& d.name@ == name
    &&& d.acc_flags == cf.acc_flags
    &&& d.init_state == InitState::Linked
    &&& (cf.super_class == 0 ==> d.super_class is None && crate::class::instance_layout_ok(
        cf.cp@,
        name,
        Seq::empty(),
        cf.fields@,
        d.inst_fields@,
    ))
    &&& (cf.super_class != 0 ==> (class_name_at(cf.cp@, cf.super_class as int) matches Some(sn)
        && dic.spec_find(sn) matches Some(sc) && d.super_class == Some(sc) && (sc as int)
        < old_classes.len() && crate::class::instance_layout_ok(
        cf.cp@,
        name,
        old_classes[sc as int].inst_fields@,
        cf.fields@,
        d.inst_fields@,
    )))
    &&& d.interfaces@.len() == cf.interfaces@.len()
    &&& (forall|t: int| 0 <= t < cf.interfaces@.len() ==> (class_name_at(
        cf.cp@,
        #[trigger] cf.interfaces@[t] as int,
    ) matches Some(inm) && dic.spec_find(inm) == Some(d.interfaces@[t])))
    &&& crate::class::static_layout_ok(cf.cp@, name, cf.fields@, d.static_fields@)
    &&& d.static_values@.len() == d.static_fields@.len()
    &&& (forall|t: int| 0 <= t < d.static_fields@.len() ==> #[trigger] d.static_values@[t]
        == crate::class::initial_static_of(d.static_fields@[t].field))
    &&& d.methods@.len() == cf.methods@.len()
    &&& (forall|k: int| 0 <= k < cf.methods@.len() ==> crate::class::method_of_record(
        cf.cp@,
        cf.methods@[k],
        #[trigger] d.methods@[k],
    ))
    &&& d.cp@.len() == cf.cp@.len()
    &&& (forall|i: int| 0 <= i < cf.cp@.len() ==> crate::classfile::cp_entry_eqv(
        #[trigger] d.cp@[i],
        cf.cp@[i],
    ))
}

/// Links a class from its syntax tree and publishes it, or returns the
/// already-published descriptor. Requesting a name a second time returns the
/// same handle and leaves the whole runtime untouched, and a freshly linked
/// class starts in the `Linked` state with a stable sequential field layout.
pub fn require_class(vm: &mut Vm, cf: &ClassFile) -> (r: Result<ClassId, LinkageError>)
    ensures
        match own_name_of(*cf) {
            None => {
                &&& r == Err::<ClassId, LinkageError>(LinkageError::BadConstantPoolRef)
                &&& final(vm).heap.objs() == old(vm).heap.objs()
                &&& final(vm).classes.views() == old(vm).classes.views()
                &&& final(vm).dic.view() == old(vm).dic.view()
            },
            Some(name) => match old(vm).dic.spec_find(name) {
                Some(c) => {
                    &&& r == Ok::<ClassId, LinkageError>(c)
                    &&& final(vm).heap.objs() == old(vm).heap.objs()
                    &&& final(vm).classes.views() == old(vm).classes.views()
                    &&& final(vm).dic.view() == old(vm).dic.view()
                },
                None => {
                    &&& (r is Ok <==> linkable(old(vm).classes.views(), old(vm).dic, *cf))
                    &&& (r matches Ok(c) ==> {
                        &&& c == old(vm).classes.views().len()
                        &&& final(vm).classes.views().len() == old(vm).classes.views().len() + 1
                        &&& final(vm).dic.spec_find(name) == Some(c)
                        &&& linked_descriptor_ok(
                            old(vm).classes.views(),
                            old(vm).dic,
                            *cf,
                            name,
                            final(vm).classes.views()[c as int],
                        )
                        &&& offsets_sequential(final(vm).classes.views()[c as int].inst_fields@)
                        &&& offsets_sequential(final(vm).classes.views()[c as int].static_fields@)
                        &&& forall|j: int| 0 <= j < old(vm).classes.views().len()
                            ==> final(vm).classes.views()[j] == old(vm).classes.views()[j]
                    })
                    &&& (r is Err ==> final(vm).classes.views() == old(vm).classes.views()
                        && final(vm).dic.view() == old(vm).dic.view())
                    &&& final(vm).heap.objs() == old(vm).heap.objs()
                },
            },
        },
{
    let name = match resolve_class_name(&cf.cp, cf.this_class) {
        Some(n) => n,
        None => {
            return Err(LinkageError::BadConstantPoolRef);
        },
    };
    match vm.dic.find(&name) {
        Some(c) => Ok(c),
        None => link_class(vm, cf, name),
    }
}

/// Links a class that is not yet published: resolves the superclass through
/// the dictionary, inherits its instance layout, lays out the static
/// partition, builds the method table, registers the descriptor and
/// publishes it under its name.
fn link_class(vm: &mut Vm, cf: &ClassFile, name: Vec<u8>) -> (r: Result<ClassId, LinkageError>)
    ensures
        r is Ok <==> linkable(old(vm).classes.views(), old(vm).dic, *cf),
        r matches Ok(c) ==> {
            &&& c == old(vm).classes.views().len()
            &&& final(vm).classes.views().len() == old(vm).classes.views().len() + 1
            &&& final(vm).dic.spec_find(name@) == Some(c)
            &&& linked_descriptor_ok(
                old(vm).classes.views(),
                old(vm).dic,
                *cf,
                name@,
                final(vm).classes.views()[c as int],
            )
            &&& offsets_sequential(final(vm).classes.views()[c as int].inst_fields@)
            &&& offsets_sequential(final(vm).classes.views()[c as int].static_fields@)
            &&& forall|j: int| 0 <= j < old(vm).classes.views().len() ==> final(vm).classes.views()[j] == old(vm).classes.views()[j]
        },
        r is Err ==> final(vm).classes.views() == old(vm).classes.views() && final(vm).dic.view()
            == old(vm).dic.view(),
        final(vm).heap.objs() == old(vm).heap.objs(),
{
    let super_class: Option<ClassId>;
    let super_fields: Vec<FieldId>;
    if cf.super_class == 0 {
        super_class = None;
        super_fields = Vec::new();
        proof {
            assert(offsets_sequential(super_fields@));
        }
    } else {
        let super_name = match resolve_class_name(&cf.cp, cf.super_class) {
            Some(n) => n,
            None => {
                return Err(LinkageError::BadConstantPoolRef);
            },
        };
        let sc = match vm.dic.find(&super_name) {
            Some(c) => c,
            None => {
                return Err(LinkageError::SuperMissing);
            },
        };
        if sc >= vm.classes.count() {
            return Err(LinkageError::SuperMissing);
        }
        let sd = vm.classes.get(sc);
        if !matches!(sd.init_state, InitState::Unloaded) {
            super_class = Some(sc);
            let inherited = &vm.classes.get(sc).inst_fields;
            if !check_offsets_sequential(inherited) {
                return Err(LinkageError::SuperMissing);
            }
            super_fields = copy_field_ids(inherited);
        } else {
            return Err(LinkageError::SuperMissing);
        }
    }
    let mut interfaces: Vec<ClassId> = Vec::new();
    let nif = cf.interfaces.len();
    let mut t: usize = 0;
    while t < nif
        invariant
            t <= nif,
            nif == cf.interfaces@.len(),
            interfaces@.len() == t,
            vm.heap.objs() == old(vm).heap.objs(),
            vm.classes.views() == old(vm).classes.views(),
            vm.dic == old(vm).dic,
            forall|j: int| 0 <= j < t ==> (class_name_at(
                cf.cp@,
                #[trigger] cf.interfaces@[j] as int,
            ) matches Some(inm) && old(vm).dic.spec_find(inm) == Some(interfaces@[j]) && (
            interfaces@[j] as int) < old(vm).classes.views().len()),
        decreases nif - t,
    {
        let iname = match resolve_class_name(&cf.cp, cf.interfaces[t]) {
            Some(n) => n,
            None => {
                return Err(LinkageError::BadConstantPoolRef);
            },
        };
        let ic = match vm.dic.find(&iname) {
            Some(c) => c,
            None => {
                return Err(LinkageError::SuperMissing);
            },
        };
        if ic >= vm.classes.count() {
            return Err(LinkageError::SuperMissing);
        }
        interfaces.push(ic);
        t = t + 1;
    }
    let inst_fields = match layout_instance_fields(&cf.cp, &name, &super_fields, &cf.fields) {
        Ok(v) => v,
        Err(e) => {
            return Err(e);
        },
    };
    proof {
        if cf.super_class == 0 {
            assert(super_fields@ =~= Seq::<FieldId>::empty());
        } else {
            let sc = super_class->Some_0;
            let orig = old(vm).classes.views()[sc as int].inst_fields@;
            assert forall|i: int| 0 <= i < orig.len() implies crate::class::field_id_eqv(
                #[trigger] inst_fields@[i],
                orig[i],
            ) by {
                assert(crate::class::field_id_eqv(inst_fields@[i], super_fields@[i]));
                assert(crate::class::field_id_eqv(super_fields@[i], orig[i]));
            }
            assert(crate::class::instance_layout_ok(
                cf.cp@,
                name@,
                orig,
                cf.fields@,
                inst_fields@,
            ));
        }
    }
    let static_fields = match layout_static_fields(&cf.cp, &name, &cf.fields) {
        Ok(v) => v,
        Err(e) => {
            return Err(e);
        },
    };
    let mut static_values: Vec<Oop> = Vec::new();
    let nstat = static_fields.len();
    let mut i: usize = 0;
    while i < nstat
        invariant
            i <= nstat,
            nstat == static_fields@.len(),
            static_values@.len() == i,
            forall|t: int| 0 <= t < i ==> #[trigger] static_values@[t]
                == crate::class::initial_static_of(static_fields@[t].field),
        decreases nstat - i,
    {
        let f = &static_fields[i].field;
        let v = match f.value_type {
            crate::field::ValueType::Void => Oop::Int(0),
            crate::field::ValueType::Unknown => Oop::Int(0),
            _ => crate::class::initial_static_value(f),
        };
        static_values.push(v);
        i = i + 1;
    }
    let methods = match build_methods(&cf.cp, &cf.methods) {
        Ok(v) => v,
        Err(e) => {
            return Err(e);
        },
    };
    proof {
        assert forall|j: int| 0 <= j < cf.fields@.len() implies crate::class::field_record_ok(
            cf.cp@,
            #[trigger] cf.fields@[j],
        ) by {
            if crate::class::is_static_record(cf.fields@[j]) {
            } else {
            }
        }
    }
    let name_copy = crate::classfile::copy_bytes(&name);
    let cp = copy_cp(&cf.cp);
    let d = ClassDesc {
        name: name_copy,
        acc_flags: cf.acc_flags,
        super_class,
        interfaces,
        inst_fields,
        static_fields,
        static_values,
        methods,
        cp,
        init_state: InitState::Linked,
        mirror: None,
    };
    let c = vm.classes.register(d);
    vm.dic.put(&name, c);
    proof {
        assert(linkable(old(vm).classes.views(), old(vm).dic, *cf));
        assert(linked_descriptor_ok(
            old(vm).classes.views(),
            old(vm).dic,
            *cf,
            name@,
            vm.classes.views()[c as int],
        ));
    }
    Ok(c)
}

/// Whether every offset equals its position.
pub fn check_offsets_sequential(fs: &Vec<FieldId>) -> (r: bool)
    ensures
        r == offsets_sequential(fs@),
{
    let n = fs.len();
    let mut i: usize = 0;
    while i < n
        invariant
            i <= n,
            n == fs@.len(),
            forall|j: int| 0 <= j < i ==> #[trigger] fs@[j].offset == j,
        decreases n - i,
    {
        if fs[i].offset != i {
            return false;
        }
        i = i + 1;
    }
    true
}

/// An element-wise copy of a field partition, offsets kept.
pub fn copy_field_ids(fs: &Vec<FieldId>) -> (r: Vec<FieldId>)
    ensures
        r@.len() == fs@.len(),
        forall|i: int| 0 <= i < fs@.len() ==> crate::class::field_id_eqv(#[trigger] r@[i], fs@[i]),
        offsets_sequential(fs@) ==> offsets_sequential(r@),
{
    let mut out: Vec<FieldId> = Vec::new();
    let n = fs.len();
    let mut i: usize = 0;
    while i < n
        invariant
            i <= n,
            n == fs@.len(),
            out@.len() == i,
            forall|j: int| 0 <= j < i ==> crate::class::field_id_eqv(#[trigger] out@[j], fs@[j]),
        decreases n - i,
    {
        out.push(crate::class::clone_field_id(&fs[i]));
        i = i + 1;
    }
    out
}

/// A copy of a constant pool, entry for entry.
fn copy_cp(cp: &Vec<ConstantType>) -> (r: Vec<ConstantType>)
    ensures
        r@.len() == cp@.len(),
        forall|i: int| 0 <= i < cp@.len() ==> crate::classfile::cp_entry_eqv(
            #[trigger] r@[i],
            cp@[i],
        ),
{
    let mut out: Vec<ConstantType> = Vec::new();
    let n = cp.len();
    let mut i: usize = 0;
    while i < n
        invariant
            i <= n,
            n == cp@.len(),
            out@.len() == i,
            forall|j: int| 0 <= j < i ==> crate::classfile::cp_entry_eqv(
                #[trigger] out@[j],
                cp@[j],
            ),
        decreases n - i,
    {
        let e = match &cp[i] {
            ConstantType::Phantom => ConstantType::Phantom,
            ConstantType::Utf8 { bytes } => ConstantType::Utf8 {
                bytes: crate::classfile::copy_bytes(bytes),
            },
            ConstantType::Integer { v } => ConstantType::Integer { v: *v },
            ConstantType::Float { v } => ConstantType::Float { v: *v },
            ConstantType::Long { v } => ConstantType::Long { v: *v },
            ConstantType::Double { v } => ConstantType::Double { v: *v },
            ConstantType::Class { name_index } => ConstantType::Class { name_index: *name_index },
            ConstantType::String { string_index } => ConstantType::String {
                string_index: *string_index,
            },
            ConstantType::FieldRef { class_index, name_and_type_index } => ConstantType::FieldRef {
                class_index: *class_index,
                name_and_type_index: *name_and_type_index,
            },
            ConstantType::MethodRef { class_index, name_and_type_index } => {
                ConstantType::MethodRef {
                    class_index: *class_index,
                    name_and_type_index: *name_and_type_index,
                }
            },
            ConstantType::InterfaceMethodRef { class_index, name_and_type_index } => {
                ConstantType::InterfaceMethodRef {
                    class_index: *class_index,
                    name_and_type_index: *name_and_type_index,
                }
            },
            ConstantType::NameAndType { name_index, desc_index } => ConstantType::NameAndType {
                name_index: *name_index,
                desc_index: *desc_index,
            },
            ConstantType::MethodHandle { ref_kind, ref_index } => ConstantType::MethodHandle {
                ref_kind: *ref_kind,
                ref_index: *ref_index,
            },
            ConstantType::MethodType { desc_index } => ConstantType::MethodType {
                desc_index: *desc_index,
            },
            ConstantType::InvokeDynamic { bootstrap_method_attr_index, name_and_type_index } => {
                ConstantType::InvokeDynamic {
                    bootstrap_method_attr_index: *bootstrap_method_attr_index,
                    name_and_type_index: *name_and_type_index,
                }
            },
        };
        out.push(e);
        i = i + 1;
    }
    out
}

/// Distinct valid class ids, none equal to `extra`, number fewer than the
/// classes there are: the pigeonhole bound that keeps the chain walk going
/// down.
proof fn lemma_distinct_bound(s: Seq<ClassId>, n: int, extra: ClassId)
    requires
        0 <= n,
        forall|k: int| 0 <= k < s.len() ==> (#[trigger] s[k]) < n,
        forall|k1: int, k2: int| 0 <= k1 < k2 < s.len() ==> s[k1] != s[k2],
        (extra as int) < n,
        forall|k: int| 0 <= k < s.len() ==> (#[trigger] s[k]) != extra,
    ensures
        s.len() < n,
{
    let t = s.push(extra);
    let ti = t.map_values(|x: ClassId| x as int);
    assert(ti.no_duplicates()) by {
        assert(forall|i: int, j: int|
            (0 <= i < ti.len() && 0 <= j < ti.len() && i != j) ==> ti[i] != ti[j]) by {
            assert(forall|i: int| 0 <= i < t.len() ==> ti[i] == (#[trigger] t[i]) as int);
        }
    }
    ti.unique_seq_to_set();
    let range = vstd::set_lib::set_int_range(0, n);
    assert(ti.to_set().subset_of(range)) by {
        assert forall|x: int| ti.to_set().contains(x) implies range.contains(x) by {
            let k = choose|k: int| 0 <= k < ti.len() && ti[k] == x;
            assert(t[k] as int == x);
        }
    }
    vstd::set_lib::lemma_int_range(0, n);
    vstd::set_lib::lemma_len_subset(ti.to_set(), range);
}

/// Collects and marks the classes whose `<clinit>` must run before the first
/// use of `cid`: the not-yet-initialized tail of the superclass chain,
/// root-first. Every returned class was `Linked` and is now `Initializing`,
/// each appears exactly once, each entry is the superclass of the next, the
/// last is `cid` itself, and the walk stops only at a class that needs no
/// initialization. A class that is not `Linked` contributes nothing, so a
/// second request for the same class returns an empty chain.
pub fn initialization_chain(classes: &mut ClassArea, cid: ClassId) -> (chain: Vec<ClassId>)
    requires
        old(classes).valid_class(cid),
    ensures
        final(classes).views().len() == old(classes).views().len(),
        forall|i: int| 0 <= i < chain@.len() ==> (#[trigger] chain@[i]) < old(classes).views().len(),
        forall|i: int| 0 <= i < chain@.len() ==> old(classes).views()[(#[trigger] chain@[i]) as int].init_state == InitState::Linked,
        forall|i: int| 0 <= i < chain@.len() ==> final(classes).views()[(#[trigger] chain@[i]) as int].init_state == InitState::Initializing,
        forall|i: int| 0 <= i < chain@.len() ==> final(classes).views()[(#[trigger] chain@[i]) as int].methods == old(classes).views()[chain@[i] as int].methods,
        forall|i: int| 0 <= i < chain@.len() ==> final(classes).views()[(#[trigger] chain@[i]) as int].name == old(classes).views()[chain@[i] as int].name,
        forall|i: int| 0 <= i < chain@.len() ==> final(classes).views()[(#[trigger] chain@[i]) as int].super_class == old(classes).views()[chain@[i] as int].super_class,
        forall|i: int| 0 <= i < chain@.len() - 1 ==> old(classes).views()[(#[trigger] chain@[i + 1]) as int].super_class == Some(chain@[i] as usize),
        chain@.len() > 0 ==> chain@.last() == cid,
        (old(classes).views()[cid as int].init_state == InitState::Linked) <==> chain@.len() > 0,
        old(classes).views()[cid as int].init_state != InitState::Linked ==> final(classes).views() == old(classes).views(),
        forall|i: int, j: int| 0 <= i < j < chain@.len() ==> chain@[i] != chain@[j],
        chain@.len() > 0 ==> (match old(classes).views()[chain@[0] as int].super_class {
            None => true,
            Some(s) => !old(classes).valid_class(s) || old(classes).views()[s as int].init_state
                != InitState::Linked || (exists|i: int| 0 <= i < chain@.len() && chain@[i] == s),
        }),
        forall|c: int| #![trigger final(classes).views()[c]]
            0 <= c < old(classes).views().len() && (forall|i: int|
                0 <= i < chain@.len() ==> (#[trigger] chain@[i]) as int != c)
                ==> final(classes).views()[c] == old(classes).views()[c],
{
    let ghost n = old(classes).views().len() as int;
    let mut rev: Vec<ClassId> = Vec::new();
    let mut cur: ClassId = cid;
    loop
        invariant_except_break
            rev@.len() > 0 ==> old(classes).views()[rev@.last() as int].super_class == Some(
                cur as usize,
            ),
        invariant
            classes.views().len() == old(classes).views().len(),
            old(classes).valid_class(cid),
            cur < classes.views().len(),
            n == old(classes).views().len(),
            forall|k: int| 0 <= k < rev@.len() ==> (#[trigger] rev@[k]) < n,
            forall|k: int| 0 <= k < rev@.len() ==> old(classes).views()[(#[trigger] rev@[k]) as int].init_state == InitState::Linked,
            forall|k: int| 0 <= k < rev@.len() ==> classes.views()[(#[trigger] rev@[k]) as int].init_state == InitState::Initializing,
            forall|k: int| 0 <= k < rev@.len() ==> classes.views()[(#[trigger] rev@[k]) as int].methods == old(classes).views()[rev@[k] as int].methods,
            forall|k: int| 0 <= k < rev@.len() ==> classes.views()[(#[trigger] rev@[k]) as int].name == old(classes).views()[rev@[k] as int].name,
            forall|k: int| 0 <= k < rev@.len() ==> classes.views()[(#[trigger] rev@[k]) as int].super_class == old(classes).views()[rev@[k] as int].super_class,
            forall|k: int| 0 <= k < rev@.len() - 1 ==> old(classes).views()[(#[trigger] rev@[k]) as int].super_class == Some(rev@[k + 1] as usize),
            rev@.len() > 0 ==> rev@[0] == cid,
            rev@.len() == 0 ==> cur == cid && classes.views() == old(classes).views(),
            forall|k1: int, k2: int| 0 <= k1 < k2 < rev@.len() ==> rev@[k1] != rev@[k2],
            rev@.len() <= n,
            forall|c: int| #![trigger classes.views()[c]]
                0 <= c < classes.views().len() && (forall|k: int|
                    0 <= k < rev@.len() ==> (#[trigger] rev@[k]) as int != c) ==> classes.views()[c]
                == old(classes).views()[c],
        ensures
            rev@.len() == 0 ==> old(classes).views()[cid as int].init_state != InitState::Linked,
            rev@.len() > 0 ==> (match old(classes).views()[rev@.last() as int].super_class {
                None => true,
                Some(s) => !old(classes).valid_class(s) || old(classes).views()[s as int].init_state
                    != InitState::Linked || (exists|k: int| 0 <= k < rev@.len() && rev@[k] == s),
            }),
        decreases n - rev@.len(),
    {
        let is_linked = matches!(classes.get(cur).init_state, InitState::Linked);
        if !is_linked {
            proof {
                if rev@.len() == 0 {
                } else {
                    if forall|k: int| 0 <= k < rev@.len() ==> (#[trigger] rev@[k]) != cur {
                        assert(forall|k: int| 0 <= k < rev@.len() ==> (#[trigger] rev@[k]) as int
                            != cur as int);
                        assert(classes.views()[cur as int] == old(classes).views()[cur as int]);
                    } else {
                        let k = choose|k: int| 0 <= k < rev@.len() && !((#[trigger] rev@[k]) != cur);
                        assert(rev@[k] == cur);
                    }
                }
            }
            break;
        }
        proof {
            assert(forall|k: int| 0 <= k < rev@.len() ==> (#[trigger] rev@[k]) != cur);
            lemma_distinct_bound(rev@, n, cur);
        }
        classes.mark_initializing(cur);
        let ghost prev_rev = rev@;
        rev.push(cur);
        proof {
            assert(rev@.drop_last() =~= prev_rev);
            assert(rev@.last() == cur);
            assert forall|c: int| #![trigger classes.views()[c]]
                0 <= c < classes.views().len() && (forall|k: int|
                    0 <= k < rev@.len() ==> (#[trigger] rev@[k]) as int != c)
                implies classes.views()[c] == old(classes).views()[c] by {
                assert(rev@[rev@.len() - 1] == cur);
                assert(cur as int != c);
                assert(forall|k: int| 0 <= k < prev_rev.len() ==> (#[trigger] prev_rev[k]) as int
                    != c) by {
                    assert(forall|k: int| 0 <= k < prev_rev.len() ==> prev_rev[k] == rev@[k]);
                }
            }
        }
        let sup = classes.get(cur).super_class;
        match sup {
            Some(s) => {
                if s < classes.count() {
                    cur = s;
                } else {
                    proof {
                        assert(rev@.last() == cur);
                    }
                    break;
                }
            },
            None => {
                break;
            },
        }
    }
    let l = rev.len();
    let mut out: Vec<ClassId> = Vec::new();
    let mut i: usize = l;
    while i > 0
        invariant
            i <= l,
            l == rev@.len(),
            out@.len() == l - i,
            forall|t: int| 0 <= t < out@.len() ==> (#[trigger] out@[t]) == rev@[l - 1 - t],
        decreases i,
    {
        i = i - 1;
        out.push(rev[i]);
    }
    proof {
        assert(out@.len() == rev@.len());
        assert forall|t: int| 0 <= t < out@.len() - 1 implies old(classes).views()[(
        #[trigger] out@[t + 1]) as int].super_class == Some(out@[t] as usize) by {
            assert(out@[t + 1] == rev@[l - 2 - t]);
            assert(out@[t] == rev@[l - 1 - t]);
            assert(old(classes).views()[rev@[l - 2 - t] as int].super_class == Some(
                rev@[(l - 2 - t) + 1] as usize,
            ));
        }
        if out@.len() > 0 {
            assert(out@.last() == rev@[0]);
            assert(out@[0] == rev@[l - 1]);
            assert(rev@.last() == rev@[l - 1]);
        }
        assert forall|c: int|
            0 <= c < old(classes).views().len() && (forall|i2: int|
                0 <= i2 < out@.len() ==> (#[trigger] out@[i2]) as int != c) implies classes.views()[c]
            == old(classes).views()[c] by {
            assert(forall|k: int| 0 <= k < rev@.len() ==> (#[trigger] rev@[k]) as int != c) by {
                assert(forall|k: int| 0 <= k < rev@.len() ==> rev@[k] == out@[l - 1 - k]);
            }
        }
        if out@.len() > 0 {
            let sup = old(classes).views()[rev@.last() as int].super_class;
            match sup {
                Some(s) => {
                    if old(classes).valid_class(s) && old(classes).views()[s as int].init_state
                        == InitState::Linked {
                        let k = choose|k: int| 0 <= k < rev@.len() && rev@[k] == s;
                        assert(out@[l - 1 - k] == s);
                    }
                },
                None => {},
            }
        }
    }
    out
}

} // verus!
