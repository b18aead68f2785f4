//! Runtime class descriptors and the linker.
//!
//! Linking materializes a class from its syntax tree: the flattened instance
//! field layout (superclass fields first, then own fields in declaration
//! order, each at the next offset), the static partition over this class
//! alone, the method table, and the initialization state machine.

use vstd::prelude::*;

use crate::classfile::{
    get_utf8, utf8_at, AttrType, CodeAttr, ConstantType, FieldInfo, MethodInfo,
    ACC_STATIC,
};
use crate::errors::LinkageError;
use crate::field::{Field, FieldId, ValueType};
use crate::oop::{ClassId, Oop};

verus! {

/// The initialization state machine of a class.
#[derive(Clone, Copy, Debug, PartialEq, Eq, Structural)]
pub enum InitState {
    Unloaded,
    Linked,
    Initializing,
    Initialized,
    Failed,
}

/// One method of the table: access flags, name, descriptor, and the `Code`
/// attribute where the method is not abstract or native.
#[derive(Clone, Debug)]
pub struct Method {
    pub acc_flags: u16,
    pub name: Vec<u8>,
    pub desc: Vec<u8>,
    pub code: Option<CodeAttr>,
}

/// The runtime representation of a class, produced by linking.
#[derive(Debug)]
pub struct ClassDesc {
    pub name: Vec<u8>,
    pub acc_flags: u16,
    pub super_class: Option<ClassId>,
    pub interfaces: Vec<ClassId>,
    pub inst_fields: Vec<FieldId>,
    pub static_fields: Vec<FieldId>,
    pub static_values: Vec<Oop>,
    pub methods: Vec<Method>,
    pub cp: Vec<ConstantType>,
    pub init_state: InitState,
    pub mirror: Option<usize>,
}

/// The registry of linked classes; a `ClassId` indexes it. Like the heap it
/// only grows.
#[derive(Debug)]
pub struct ClassArea {
    pub classes: Vec<ClassDesc>,
}

/// Every field of the partition sits at the offset equal to its position.
pub open spec fn offsets_sequential(fs: Seq<FieldId>) -> bool {
    forall|i: int| 0 <= i < fs.len() ==> #[trigger] fs[i].offset == i
}

/// Two field descriptors carry the same data.
pub open spec fn field_eqv(a: Field, b: Field) -> bool {
    &&& a.name@ == b.name@
    &&& a.desc@ == b.desc@
    &&& a.id@ == b.id@
    &&& a.acc_flags == b.acc_flags
    &&& a.value_type == b.value_type
    &&& match (a.attr_constant_value, b.attr_constant_value) {
        (None, None) => true,
        (Some(x), Some(y)) => crate::field::const_value_v(x) == crate::field::const_value_v(y),
        _ => false,
    }
}

pub open spec fn field_id_eqv(a: FieldId, b: FieldId) -> bool {
    a.offset == b.offset && field_eqv(a.field, b.field)
}

/// A field matches a (name, descriptor) query.
pub open spec fn fid_matches(f: FieldId, name: Seq<u8>, desc: Seq<u8>) -> bool {
    f.field.spec_name() == name && f.field.spec_desc() == desc
}

/// The field matching a (name, descriptor) query nearest the end of the
/// partition, own class before superclasses.
pub open spec fn find_fid_from_end(fields: Seq<FieldId>, name: Seq<u8>, desc: Seq<u8>) -> Option<
    int,
>
    decreases fields.len(),
{
    if fields.len() == 0 {
        None
    } else if fid_matches(fields.last(), name, desc) {
        Some(fields.len() - 1)
    } else {
        find_fid_from_end(fields.drop_last(), name, desc)
    }
}

/// A method matches a (name, descriptor) query.
pub open spec fn method_matches(m: Method, name: Seq<u8>, desc: Seq<u8>) -> bool {
    m.name@ == name && m.desc@ == desc
}

/// The first field at or after position `i` matching a (name, descriptor)
/// query.
pub open spec fn find_fid_from_front(
    fields: Seq<FieldId>,
    name: Seq<u8>,
    desc: Seq<u8>,
    i: int,
) -> Option<int>
    decreases fields.len() - i,
{
    if 0 <= i < fields.len() {
        if fid_matches(fields[i], name, desc) {
            Some(i)
        } else {
            find_fid_from_front(fields, name, desc, i + 1)
        }
    } else {
        None
    }
}

/// The first method at or after position `i` matching a (name, descriptor)
/// query.
pub open spec fn find_method_from(
    methods: Seq<Method>,
    name: Seq<u8>,
    desc: Seq<u8>,
    i: int,
) -> Option<int>
    decreases methods.len() - i,
{
    if 0 <= i < methods.len() {
        if method_matches(methods[i], name, desc) {
            Some(i)
        } else {
            find_method_from(methods, name, desc, i + 1)
        }
    } else {
        None
    }
}

/// The class itself, or one of its direct interfaces, carries the name.
pub open spec fn class_or_iface_named(classes: Seq<ClassDesc>, c: ClassId, name: Seq<u8>) -> bool {
    c < classes.len() && (classes[c as int].name@ == name || exists|k: int|
        0 <= k < classes[c as int].interfaces@.len() && (classes[c as int].interfaces@[k] as int)
            < classes.len() && classes[classes[c as int].interfaces@[k] as int].name@ == name)
}

/// A value of class `c` may stand where the named type is asked: the name
/// stands on the superclass chain, or among the direct interfaces of some
/// chain class. The walk gives up after `fuel` superclass hops, which covers
/// every acyclic chain once `fuel` is the number of classes.
pub open spec fn assignable_to(
    classes: Seq<ClassDesc>,
    c: ClassId,
    name: Seq<u8>,
    fuel: nat,
) -> bool
    decreases fuel,
{
    if c >= classes.len() {
        false
    } else if class_or_iface_named(classes, c, name) {
        true
    } else if fuel == 0 {
        false
    } else {
        match classes[c as int].super_class {
            Some(s) => assignable_to(classes, s, name, (fuel - 1) as nat),
            None => false,
        }
    }
}

/// What resolution answers: the first class at or above `c` on the
/// superclass chain whose table defines the query, paired with the first
/// matching index in that table. The walk gives up after `fuel` superclass
/// hops, which covers every acyclic chain once `fuel` is the number of
/// classes there are.
pub open spec fn resolve_method_spec(
    classes: Seq<ClassDesc>,
    c: ClassId,
    name: Seq<u8>,
    desc: Seq<u8>,
    fuel: nat,
) -> Option<(ClassId, int)>
    decreases fuel,
{
    if c >= classes.len() {
        None
    } else {
        match find_method_from(classes[c as int].methods@, name, desc, 0) {
            Some(i) => Some((c, i)),
            None => if fuel == 0 {
                None
            } else {
                match classes[c as int].super_class {
                    Some(s) => resolve_method_spec(classes, s, name, desc, (fuel - 1) as nat),
                    None => None,
                }
            },
        }
    }
}

/// A field record is usable: its name and descriptor indices point at Utf8
/// constants and the descriptor is non-empty.
pub open spec fn field_info_ok(cp: Seq<ConstantType>, fi: FieldInfo) -> bool {
    &&& utf8_at(cp, fi.name_index as int) is Some
    &&& utf8_at(cp, fi.desc_index as int) matches Some(d) && d.len() > 0
}

/// A field record declares a static member.
pub open spec fn is_static_record(fi: FieldInfo) -> bool {
    fi.acc_flags & ACC_STATIC == ACC_STATIC
}

/// The non-static records of a member list, in declaration order.
pub open spec fn instance_records(fis: Seq<FieldInfo>) -> Seq<FieldInfo>
    decreases fis.len(),
{
    if fis.len() == 0 {
        Seq::empty()
    } else {
        let pre = instance_records(fis.drop_last());
        if is_static_record(fis.last()) {
            pre
        } else {
            pre.push(fis.last())
        }
    }
}

/// The static records of a member list, in declaration order.
pub open spec fn static_records(fis: Seq<FieldInfo>) -> Seq<FieldInfo>
    decreases fis.len(),
{
    if fis.len() == 0 {
        Seq::empty()
    } else {
        let pre = static_records(fis.drop_last());
        if is_static_record(fis.last()) {
            pre.push(fis.last())
        } else {
            pre
        }
    }
}

/// The field `f` is what linking makes of record `fi` against pool `cp`,
/// declared by the class named `class_name`.
pub open spec fn field_of_record(
    cp: Seq<ConstantType>,
    class_name: Seq<u8>,
    fi: FieldInfo,
    f: Field,
) -> bool {
    &&& Some(f.spec_name()) == utf8_at(cp, fi.name_index as int)
    &&& Some(f.spec_desc()) == utf8_at(cp, fi.desc_index as int)
    &&& f.spec_id() == crate::field::field_id_bytes(class_name, f.spec_desc(), f.spec_name())
    &&& f.spec_acc_flags() == fi.acc_flags
    &&& f.value_type == crate::field::spec_value_type_of(f.spec_desc()[0])
    &&& match crate::field::last_const_attr(fi.attrs@) {
        None => f.attr_constant_value is None,
        Some(idx) => f.attr_constant_value matches Some(c) && crate::field::decode_const_at(
            cp,
            idx as int,
        ) == Some(crate::field::const_value_v(c)),
    }
}

/// A field record decodes: name and descriptor usable, and its
/// `ConstantValue` attribute, if any, points at a decodable constant.
pub open spec fn field_record_ok(cp: Seq<ConstantType>, fi: FieldInfo) -> bool {
    &&& field_info_ok(cp, fi)
    &&& match crate::field::last_const_attr(fi.attrs@) {
        None => true,
        Some(idx) => crate::field::decode_const_at(cp, idx as int) is Some,
    }
}

/// The instance layout a class owes: the superclass partition as a prefix,
/// element for element, then its own non-static records in declaration
/// order, each one field slot wide, at the next offsets.
pub open spec fn instance_layout_ok(
    cp: Seq<ConstantType>,
    class_name: Seq<u8>,
    super_fields: Seq<FieldId>,
    fis: Seq<FieldInfo>,
    v: Seq<FieldId>,
) -> bool {
    &&& v.len() == super_fields.len() + instance_records(fis).len()
    &&& forall|i: int| 0 <= i < super_fields.len() ==> field_id_eqv(#[trigger] v[i], super_fields[i])
    &&& forall|k: int| 0 <= k < instance_records(fis).len() ==> (#[trigger] v[super_fields.len()
        + k]).offset == super_fields.len() + k && field_of_record(
        cp,
        class_name,
        instance_records(fis)[k],
        v[super_fields.len() + k].field,
    )
}

/// The static partition a class owes: its own static records in declaration
/// order, offsets from zero.
pub open spec fn static_layout_ok(
    cp: Seq<ConstantType>,
    class_name: Seq<u8>,
    fis: Seq<FieldInfo>,
    v: Seq<FieldId>,
) -> bool {
    &&& v.len() == static_records(fis).len()
    &&& forall|k: int| 0 <= k < static_records(fis).len() ==> (#[trigger] v[k]).offset == k
        && field_of_record(cp, class_name, static_records(fis)[k], v[k].field)
}

/// Two `Code` attributes carry the same data.
pub open spec fn code_eqv(a: CodeAttr, b: CodeAttr) -> bool {
    &&& a.max_stack == b.max_stack
    &&& a.max_locals == b.max_locals
    &&& a.code@ == b.code@
    &&& a.exceptions@ == b.exceptions@
    &&& a.line_number_table@ == b.line_number_table@
}

/// The first `Code` attribute of the list, if any: the one that supplies a
/// method's body.
pub open spec fn first_code_attr(attrs: Seq<AttrType>) -> Option<CodeAttr>
    decreases attrs.len(),
{
    if attrs.len() == 0 {
        None
    } else {
        match attrs[0] {
            AttrType::Code(c) => Some(c),
            _ => first_code_attr(attrs.skip(1)),
        }
    }
}

/// The table entry `m` is what linking makes of method record `mi`: flags
/// and resolved name and descriptor, with the first `Code` attribute, if
/// any, as its body.
pub open spec fn method_of_record(cp: Seq<ConstantType>, mi: MethodInfo, m: Method) -> bool {
    &&& m.acc_flags == mi.acc_flags
    &&& Some(m.name@) == utf8_at(cp, mi.name_index as int)
    &&& Some(m.desc@) == utf8_at(cp, mi.desc_index as int)
    &&& match (m.code, first_code_attr(mi.attrs@)) {
        (None, None) => true,
        (Some(c), Some(c0)) => code_eqv(c, c0),
        _ => false,
    }
}

/// A method record decodes: its name and descriptor indices point at Utf8
/// constants.
pub open spec fn method_record_ok(cp: Seq<ConstantType>, mi: MethodInfo) -> bool {
    utf8_at(cp, mi.name_index as int) is Some && utf8_at(cp, mi.desc_index as int) is Some
}

/// Builds the flattened instance field layout: the superclass partition is
/// inherited unchanged, then each own non-static field is appended at the
/// next offset. Offsets stay the position in the partition, so a stable
/// layout in the superclass stays stable in the subclass.
pub fn layout_instance_fields(
    cp: &Vec<ConstantType>,
    class_name: &Vec<u8>,
    super_fields: &Vec<FieldId>,
    fis: &Vec<FieldInfo>,
) -> (r: Result<Vec<FieldId>, LinkageError>)
    ensures
        r matches Ok(v) ==> {
            &&& instance_layout_ok(cp@, class_name@, super_fields@, fis@, v@)
            &&& (offsets_sequential(super_fields@) ==> offsets_sequential(v@))
        },
        r is Ok <==> (forall|j: int| 0 <= j < fis@.len() && !is_static_record(fis@[j])
            ==> field_record_ok(cp@, #[trigger] fis@[j])),
        r matches Err(e) ==> e == LinkageError::BadConstantPoolRef,
{
    let mut out: Vec<FieldId> = Vec::new();
    let mut i: usize = 0;
    let n_super = super_fields.len();
    while i < n_super
        invariant
            i <= n_super,
            n_super == super_fields@.len(),
            out@.len() == i,
            forall|j: int| 0 <= j < i ==> field_id_eqv(#[trigger] out@[j], super_fields@[j]),
        decreases n_super - i,
    {
        out.push(clone_field_id(&super_fields[i]));
        i = i + 1;
    }
    let n = fis.len();
    let mut k: usize = 0;
    proof {
        assert(fis@.take(0int) =~= Seq::<FieldInfo>::empty());
    }
    while k < n
        invariant
            k <= n,
            n == fis@.len(),
            n_super == super_fields@.len(),
            out@.len() == super_fields@.len() + instance_records(fis@.take(k as int)).len(),
            forall|j: int| 0 <= j < super_fields@.len() ==> field_id_eqv(
                #[trigger] out@[j],
                super_fields@[j],
            ),
            forall|t: int| 0 <= t < instance_records(fis@.take(k as int)).len() ==> (#[trigger] out@[
                super_fields@.len() + t
            ]).offset == super_fields@.len() + t && field_of_record(
                cp@,
                class_name@,
                instance_records(fis@.take(k as int))[t],
                out@[super_fields@.len() + t].field,
            ),
            forall|j: int| 0 <= j < k && !is_static_record(fis@[j]) ==> field_record_ok(
                cp@,
                #[trigger] fis@[j],
            ),
            offsets_sequential(super_fields@) ==> offsets_sequential(out@),
        decreases n - k,
    {
        let fi = &fis[k];
        proof {
            assert(fis@.take(k + 1 as int).drop_last() =~= fis@.take(k as int));
            assert(fis@.take(k + 1 as int).last() == fis@[k as int]);
        }
        if fi.acc_flags & ACC_STATIC != ACC_STATIC {
            if get_utf8(cp, fi.name_index).is_none() {
                return Err(LinkageError::BadConstantPoolRef);
            }
            let desc_ok = match get_utf8(cp, fi.desc_index) {
                Some(d) => d.len() > 0,
                None => false,
            };
            if !desc_ok {
                return Err(LinkageError::BadConstantPoolRef);
            }
            let field = match Field::new(cp, fi, class_name) {
                Ok(f) => f,
                Err(e) => {
                    return Err(e);
                },
            };
            let offset = out.len();
            out.push(FieldId { offset, field });
            proof {
                let recs = instance_records(fis@.take(k + 1 as int));
                assert(recs == instance_records(fis@.take(k as int)).push(fis@[k as int]));
                assert(recs.len() > 0 && recs[recs.len() - 1] == fis@[k as int]);
            }
        } else {
            proof {
                assert(instance_records(fis@.take(k + 1 as int)) == instance_records(
                    fis@.take(k as int),
                ));
            }
        }
        k = k + 1;
    }
    proof {
        assert(fis@.take(n as int) =~= fis@);
    }
    Ok(out)
}

/// Builds the static partition over this class alone, offsets from zero.
pub fn layout_static_fields(
    cp: &Vec<ConstantType>,
    class_name: &Vec<u8>,
    fis: &Vec<FieldInfo>,
) -> (r: Result<Vec<FieldId>, LinkageError>)
    ensures
        r matches Ok(v) ==> static_layout_ok(cp@, class_name@, fis@, v@) && offsets_sequential(v@),
        r is Ok <==> (forall|j: int| 0 <= j < fis@.len() && is_static_record(fis@[j])
            ==> field_record_ok(cp@, #[trigger] fis@[j])),
        r matches Err(e) ==> e == LinkageError::BadConstantPoolRef,
{
    let mut out: Vec<FieldId> = Vec::new();
    let n = fis.len();
    let mut k: usize = 0;
    proof {
        assert(fis@.take(0int) =~= Seq::<FieldInfo>::empty());
    }
    while k < n
        invariant
            k <= n,
            n == fis@.len(),
            out@.len() == static_records(fis@.take(k as int)).len(),
            forall|t: int| 0 <= t < static_records(fis@.take(k as int)).len() ==> (#[trigger] out@[
                t
            ]).offset == t && field_of_record(
                cp@,
                class_name@,
                static_records(fis@.take(k as int))[t],
                out@[t].field,
            ),
            forall|j: int| 0 <= j < k && is_static_record(fis@[j]) ==> field_record_ok(
                cp@,
                #[trigger] fis@[j],
            ),
            offsets_sequential(out@),
        decreases n - k,
    {
        let fi = &fis[k];
        proof {
            assert(fis@.take(k + 1 as int).drop_last() =~= fis@.take(k as int));
            assert(fis@.take(k + 1 as int).last() == fis@[k as int]);
        }
        if fi.acc_flags & ACC_STATIC == ACC_STATIC {
            if get_utf8(cp, fi.name_index).is_none() {
                return Err(LinkageError::BadConstantPoolRef);
            }
            let desc_ok = match get_utf8(cp, fi.desc_index) {
                Some(d) => d.len() > 0,
                None => false,
            };
            if !desc_ok {
                return Err(LinkageError::BadConstantPoolRef);
            }
            let field = match Field::new(cp, fi, class_name) {
                Ok(f) => f,
                Err(e) => {
                    return Err(e);
                },
            };
            let offset = out.len();
            out.push(FieldId { offset, field });
            proof {
                let recs = static_records(fis@.take(k + 1 as int));
                assert(recs == static_records(fis@.take(k as int)).push(fis@[k as int]));
                assert(recs.len() > 0 && recs[recs.len() - 1] == fis@[k as int]);
            }
        } else {
            proof {
                assert(static_records(fis@.take(k + 1 as int)) == static_records(
                    fis@.take(k as int),
                ));
            }
        }
        k = k + 1;
    }
    proof {
        assert(fis@.take(n as int) =~= fis@);
    }
    Ok(out)
}

/// The value a static slot starts with: the pre-decoded primitive constant
/// where the record carries one, else the zero value of its type, with the
/// unusable kinds pinned at `Int(0)`.
pub open spec fn initial_static_of(f: Field) -> Oop {
    if f.value_type is Void || f.value_type is Unknown {
        Oop::Int(0)
    } else {
        match f.attr_constant_value {
            Some(crate::field::ConstValue::Int(v)) => Oop::Int(v),
            Some(crate::field::ConstValue::Long(v)) => Oop::Long(v),
            Some(crate::field::ConstValue::Float(v)) => Oop::Float(v),
            Some(crate::field::ConstValue::Double(v)) => Oop::Double(v),
            _ => crate::field::zero_of_type(f.value_type),
        }
    }
}

/// The starting value of a static field: its pre-decoded primitive constant
/// where the class file gives one, otherwise the zero value of its type.
/// String constants resolve on first access and start as null here.
pub fn initial_static_value(f: &Field) -> (r: Oop)
    requires
        !(f.value_type is Void) && !(f.value_type is Unknown),
    ensures
        match f.attr_constant_value {
            Some(crate::field::ConstValue::Int(v)) => r == Oop::Int(v),
            Some(crate::field::ConstValue::Long(v)) => r == Oop::Long(v),
            Some(crate::field::ConstValue::Float(v)) => r == Oop::Float(v),
            Some(crate::field::ConstValue::Double(v)) => r == Oop::Double(v),
            _ => r == match f.value_type {
                ValueType::Long => Oop::Long(0),
                ValueType::Float => Oop::Float(0),
                ValueType::Double => Oop::Double(0),
                ValueType::Object | ValueType::Array => Oop::Null,
                _ => Oop::Int(0),
            },
        },
{
    match &f.attr_constant_value {
        Some(crate::field::ConstValue::Int(v)) => Oop::Int(*v),
        Some(crate::field::ConstValue::Long(v)) => Oop::Long(*v),
        Some(crate::field::ConstValue::Float(v)) => Oop::Float(*v),
        Some(crate::field::ConstValue::Double(v)) => Oop::Double(*v),
        _ => f.get_constant_value(),
    }
}

/// Builds the method table in declaration order; the first `Code` attribute
/// of a method supplies its body.
pub fn build_methods(cp: &Vec<ConstantType>, mis: &Vec<MethodInfo>) -> (r: Result<
    Vec<Method>,
    LinkageError,
>)
    ensures
        r matches Ok(v) ==> v@.len() == mis@.len() && (forall|k: int| 0 <= k < mis@.len()
            ==> method_of_record(cp@, mis@[k], #[trigger] v@[k])),
        r is Ok <==> (forall|k: int| 0 <= k < mis@.len() ==> method_record_ok(
            cp@,
            #[trigger] mis@[k],
        )),
        r matches Err(e) ==> e == LinkageError::BadConstantPoolRef,
{
    let mut out: Vec<Method> = Vec::new();
    let n = mis.len();
    let mut k: usize = 0;
    while k < n
        invariant
            k <= n,
            n == mis@.len(),
            out@.len() == k,
            forall|j: int| 0 <= j < k ==> method_of_record(cp@, mis@[j], #[trigger] out@[j]),
            forall|j: int| 0 <= j < k ==> method_record_ok(cp@, #[trigger] mis@[j]),
        decreases n - k,
    {
        let mi = &mis[k];
        let name = match get_utf8(cp, mi.name_index) {
            Some(v) => v,
            None => {
                return Err(LinkageError::BadConstantPoolRef);
            },
        };
        let desc = match get_utf8(cp, mi.desc_index) {
            Some(v) => v,
            None => {
                return Err(LinkageError::BadConstantPoolRef);
            },
        };
        let mut code: Option<CodeAttr> = None;
        let an = mi.attrs.len();
        let mut a: usize = 0;
        proof {
            assert(mi.attrs@.skip(0int) =~= mi.attrs@);
        }
        while a < an
            invariant
                a <= an,
                an == mi.attrs@.len(),
                match code {
                    None => first_code_attr(mi.attrs@) == first_code_attr(
                        mi.attrs@.skip(a as int),
                    ),
                    Some(c) => first_code_attr(mi.attrs@) matches Some(c0) && code_eqv(c, c0),
                },
            decreases an - a,
        {
            proof {
                assert(mi.attrs@.skip(a as int)[0] == mi.attrs@[a as int]);
                assert(mi.attrs@.skip(a as int).skip(1) =~= mi.attrs@.skip(a + 1));
            }
            match &mi.attrs[a] {
                AttrType::Code(c) => {
                    if code.is_none() {
                        code = Some(clone_code_attr(c));
                    }
                },
                _ => {},
            }
            a = a + 1;
        }
        out.push(Method { acc_flags: mi.acc_flags, name, desc, code });
        k = k + 1;
    }
    Ok(out)
}

/// An element-wise copy of a field-and-offset pair.
pub fn clone_field_id(f: &FieldId) -> (r: FieldId)
    ensures
        field_id_eqv(r, *f),
{
    let field = Field {
        name: crate::classfile::copy_bytes(&f.field.name),
        desc: crate::classfile::copy_bytes(&f.field.desc),
        id: crate::classfile::copy_bytes(&f.field.id),
        acc_flags: f.field.acc_flags,
        value_type: f.field.value_type,
        attr_constant_value: match &f.field.attr_constant_value {
            None => None,
            Some(c) => Some(clone_const_exact(c)),
        },
    };
    proof {
        assert(field.name@ == f.field.name@ && field.desc@ == f.field.desc@ && field.id@
            == f.field.id@);
    }
    FieldId { offset: f.offset, field }
}

fn clone_const_exact(c: &crate::field::ConstValue) -> (r: crate::field::ConstValue)
    ensures
        crate::field::const_value_v(r) == crate::field::const_value_v(*c),
{
    match c {
        crate::field::ConstValue::Int(v) => crate::field::ConstValue::Int(*v),
        crate::field::ConstValue::Long(v) => crate::field::ConstValue::Long(*v),
        crate::field::ConstValue::Float(v) => crate::field::ConstValue::Float(*v),
        crate::field::ConstValue::Double(v) => crate::field::ConstValue::Double(*v),
        crate::field::ConstValue::StringUtf8(v) => crate::field::ConstValue::StringUtf8(
            crate::classfile::copy_bytes(v),
        ),
    }
}

fn clone_code_attr(c: &CodeAttr) -> (r: CodeAttr)
    ensures
        r.max_stack == c.max_stack,
        r.max_locals == c.max_locals,
        r.code@ == c.code@,
        r.exceptions@ == c.exceptions@,
        r.line_number_table@ == c.line_number_table@,
{
    let mut exceptions: Vec<crate::classfile::ExceptionEntry> = Vec::new();
    let n = c.exceptions.len();
    let mut i: usize = 0;
    while i < n
        invariant
            i <= n,
            n == c.exceptions@.len(),
            exceptions@ == c.exceptions@.subrange(0, i as int),
        decreases n - i,
    {
        exceptions.push(c.exceptions[i]);
        proof {
            assert(exceptions@ =~= c.exceptions@.subrange(0, i + 1 as int));
        }
        i = i + 1;
    }
    proof {
        assert(exceptions@ =~= c.exceptions@);
    }
    let mut line_number_table: Vec<crate::classfile::LineNumberEntry> = Vec::new();
    let n2 = c.line_number_table.len();
    let mut j: usize = 0;
    while j < n2
        invariant
            j <= n2,
            n2 == c.line_number_table@.len(),
            line_number_table@ == c.line_number_table@.subrange(0, j as int),
        decreases n2 - j,
    {
        line_number_table.push(c.line_number_table[j]);
        proof {
            assert(line_number_table@ =~= c.line_number_table@.subrange(0, j + 1 as int));
        }
        j = j + 1;
    }
    proof {
        assert(line_number_table@ =~= c.line_number_table@);
    }
    CodeAttr {
        max_stack: c.max_stack,
        max_locals: c.max_locals,
        code: crate::classfile::copy_bytes(&c.code),
        exceptions,
        line_number_table,
    }
}

impl ClassArea {
    pub open spec fn views(self) -> Seq<ClassDesc> {
        self.classes@
    }

    pub open spec fn valid_class(self, c: ClassId) -> bool {
        c < self.classes@.len()
    }

    pub fn new() -> (r: ClassArea)
        ensures
            r.views().len() == 0,
    {
        ClassArea { classes: Vec::new() }
    }

    pub fn count(&self) -> (n: usize)
        ensures
            n == self.views().len(),
    {
        self.classes.len()
    }

    /// Registers a linked descriptor; the id is its index.
    pub fn register(&mut self, d: ClassDesc) -> (c: ClassId)
        ensures
            final(self).views() == old(self).views().push(d),
            c == old(self).views().len(),
            final(self).valid_class(c),
    {
        let c = self.classes.len();
        self.classes.push(d);
        c
    }

    pub fn get(&self, c: ClassId) -> (r: &ClassDesc)
        requires
            self.valid_class(c),
        ensures
            *r == self.views()[c as int],
    {
        &self.classes[c]
    }

    fn set_init_state(&mut self, c: ClassId, s: InitState)
        requires
            old(self).valid_class(c),
        ensures
            final(self).views().len() == old(self).views().len(),
            final(self).views()[c as int].init_state == s,
            final(self).views()[c as int].name == old(self).views()[c as int].name,
            final(self).views()[c as int].super_class == old(self).views()[c as int].super_class,
            final(self).views()[c as int].inst_fields == old(self).views()[c as int].inst_fields,
            final(self).views()[c as int].static_fields == old(self).views()[c as int].static_fields,
            final(self).views()[c as int].static_values == old(self).views()[c as int].static_values,
            final(self).views()[c as int].methods == old(self).views()[c as int].methods,
            forall|j: int| 0 <= j < final(self).views().len() && j != c ==> final(self).views()[j]
                == old(self).views()[j],
    {
        let d = &mut self.classes[c];
        d.init_state = s;
    }

    /// `Linked` to `Initializing`: the transition under which `<clinit>` is
    /// about to run; it happens at most once per class.
    pub fn mark_initializing(&mut self, c: ClassId)
        requires
            old(self).valid_class(c),
            old(self).views()[c as int].init_state == InitState::Linked,
        ensures
            final(self).views().len() == old(self).views().len(),
            final(self).views()[c as int].init_state == InitState::Initializing,
            final(self).views()[c as int].name == old(self).views()[c as int].name,
            final(self).views()[c as int].super_class == old(self).views()[c as int].super_class,
            final(self).views()[c as int].inst_fields == old(self).views()[c as int].inst_fields,
            final(self).views()[c as int].static_fields == old(self).views()[c as int].static_fields,
            final(self).views()[c as int].static_values == old(self).views()[c as int].static_values,
            final(self).views()[c as int].methods == old(self).views()[c as int].methods,
            forall|j: int| 0 <= j < final(self).views().len() && j != c ==> final(self).views()[j]
                == old(self).views()[j],
    {
        self.set_init_state(c, InitState::Initializing);
    }

    /// `Initializing` to `Initialized`: `<clinit>` completed normally.
    pub fn mark_initialized(&mut self, c: ClassId)
        requires
            old(self).valid_class(c),
            old(self).views()[c as int].init_state == InitState::Initializing,
        ensures
            final(self).views().len() == old(self).views().len(),
            final(self).views()[c as int].init_state == InitState::Initialized,
            forall|j: int| 0 <= j < final(self).views().len() && j != c ==> final(self).views()[j]
                == old(self).views()[j],
    {
        self.set_init_state(c, InitState::Initialized);
    }

    /// `Initializing` to `Failed`: `<clinit>` threw; every later
    /// initialization attempt raises `ExceptionInInitializerError`.
    pub fn mark_failed(&mut self, c: ClassId)
        requires
            old(self).valid_class(c),
            old(self).views()[c as int].init_state == InitState::Initializing,
        ensures
            final(self).views().len() == old(self).views().len(),
            final(self).views()[c as int].init_state == InitState::Failed,
            forall|j: int| 0 <= j < final(self).views().len() && j != c ==> final(self).views()[j]
                == old(self).views()[j],
    {
        self.set_init_state(c, InitState::Failed);
    }

    /// Reads a static field slot of a class.
    pub fn get_static_value(&self, c: ClassId, off: usize) -> (r: Oop)
        requires
            self.valid_class(c),
            off < self.views()[c as int].static_values@.len(),
        ensures
            r == self.views()[c as int].static_values@[off as int],
    {
        self.classes[c].static_values[off]
    }

    /// Writes a static field slot of a class; everything else is untouched.
    pub fn set_static_value(&mut self, c: ClassId, off: usize, v: Oop)
        requires
            old(self).valid_class(c),
            off < old(self).views()[c as int].static_values@.len(),
        ensures
            final(self).views().len() == old(self).views().len(),
            final(self).views()[c as int].static_values@ == old(self).views()[
                c as int
            ].static_values@.update(off as int, v),
            final(self).views()[c as int].name == old(self).views()[c as int].name,
            final(self).views()[c as int].super_class == old(self).views()[c as int].super_class,
            final(self).views()[c as int].inst_fields == old(self).views()[c as int].inst_fields,
            final(self).views()[c as int].static_fields == old(self).views()[c as int].static_fields,
            final(self).views()[c as int].methods == old(self).views()[c as int].methods,
            final(self).views()[c as int].init_state == old(self).views()[c as int].init_state,
            forall|j: int| 0 <= j < final(self).views().len() && j != c ==> final(self).views()[j]
                == old(self).views()[j],
    {
        let d = &mut self.classes[c];
        d.static_values[off] = v;
    }

    /// Searches the flattened instance partition for a field with the name
    /// and descriptor, own class first: the match at the largest offset wins,
    /// so a declaration in the class shadows one inherited from a superclass.
    pub fn get_field_id(&self, c: ClassId, name: &Vec<u8>, desc: &Vec<u8>) -> (r: Option<usize>)
        requires
            self.valid_class(c),
        ensures
            match r {
                Some(off) => find_fid_from_end(self.views()[c as int].inst_fields@, name@, desc@)
                    == Some(off as int) && off < self.views()[c as int].inst_fields@.len()
                    && fid_matches(self.views()[c as int].inst_fields@[off as int], name@, desc@),
                None => find_fid_from_end(self.views()[c as int].inst_fields@, name@, desc@)
                    is None,
            },
    {
        let fields = &self.classes[c].inst_fields;
        let n = fields.len();
        let mut i: usize = n;
        proof {
            assert(fields@.take(n as int) =~= fields@);
        }
        while i > 0
            invariant
                i <= n,
                n == fields@.len(),
                self.valid_class(c),
                fields@ == self.views()[c as int].inst_fields@,
                find_fid_from_end(fields@.take(i as int), name@, desc@) == find_fid_from_end(
                    fields@,
                    name@,
                    desc@,
                ),
            decreases i,
        {
            i = i - 1;
            let f = &fields[i];
            proof {
                assert(fields@.take(i + 1 as int).last() == fields@[i as int]);
                assert(fields@.take(i + 1 as int).drop_last() =~= fields@.take(i as int));
            }
            if crate::classfile::bytes_eq(&f.field.name, name.as_slice())
                && crate::classfile::bytes_eq(&f.field.desc, desc.as_slice()) {
                return Some(i);
            }
        }
        proof {
            assert(fields@.take(0int) =~= Seq::<FieldId>::empty());
        }
        None
    }

    /// Searches the static partition of this class alone.
    pub fn get_static_field_id(&self, c: ClassId, name: &Vec<u8>, desc: &Vec<u8>) -> (r: Option<
        usize,
    >)
        requires
            self.valid_class(c),
        ensures
            match r {
                Some(off) => find_fid_from_front(
                    self.views()[c as int].static_fields@,
                    name@,
                    desc@,
                    0,
                ) == Some(off as int) && off < self.views()[c as int].static_fields@.len()
                    && fid_matches(self.views()[c as int].static_fields@[off as int], name@, desc@),
                None => find_fid_from_front(
                    self.views()[c as int].static_fields@,
                    name@,
                    desc@,
                    0,
                ) is None,
            },
    {
        let fields = &self.classes[c].static_fields;
        let n = fields.len();
        let mut i: usize = 0;
        while i < n
            invariant
                i <= n,
                n == fields@.len(),
                self.valid_class(c),
                fields@ == self.views()[c as int].static_fields@,
                find_fid_from_front(fields@, name@, desc@, 0) == find_fid_from_front(
                    fields@,
                    name@,
                    desc@,
                    i as int,
                ),
            decreases n - i,
        {
            let f = &fields[i];
            if crate::classfile::bytes_eq(&f.field.name, name.as_slice())
                && crate::classfile::bytes_eq(&f.field.desc, desc.as_slice()) {
                return Some(i);
            }
            i = i + 1;
        }
        None
    }

    /// Decides assignability of a value of class `c` to the named type, by
    /// the superclass chain and the direct interfaces of each chain class.
    pub fn is_assignable_to(&self, c: ClassId, name: &Vec<u8>) -> (r: bool)
        requires
            self.valid_class(c),
        ensures
            r == assignable_to(self.views(), c, name@, self.views().len() as nat),
    {
        let mut cur: ClassId = c;
        let mut fuel: usize = self.classes.len();
        loop
            invariant
                self.valid_class(cur),
                self.valid_class(c),
                assignable_to(self.views(), c, name@, self.views().len() as nat) == assignable_to(
                    self.views(),
                    cur,
                    name@,
                    fuel as nat,
                ),
            decreases fuel,
        {
            if crate::classfile::bytes_eq(&self.classes[cur].name, name.as_slice()) {
                proof {
                    assert(class_or_iface_named(self.views(), cur, name@));
                }
                return true;
            }
            let ifs = &self.classes[cur].interfaces;
            let n = ifs.len();
            let mut k: usize = 0;
            while k < n
                invariant
                    k <= n,
                    n == ifs@.len(),
                    self.valid_class(cur),
                    self.valid_class(c),
                    ifs@ == self.views()[cur as int].interfaces@,
                    assignable_to(self.views(), c, name@, self.views().len() as nat)
                        == assignable_to(self.views(), cur, name@, fuel as nat),
                    forall|t: int| 0 <= t < k ==> !((ifs@[t] as int) < self.views().len()
                        && self.views()[#[trigger] ifs@[t] as int].name@ == name@),
                decreases n - k,
            {
                let ic = ifs[k];
                if ic < self.classes.len() {
                    if crate::classfile::bytes_eq(&self.classes[ic].name, name.as_slice()) {
                        proof {
                            assert((self.views()[cur as int].interfaces@[k as int] as int)
                                < self.views().len() && self.views()[self.views()[
                                cur as int
                            ].interfaces@[k as int] as int].name@ == name@);
                            assert(class_or_iface_named(self.views(), cur, name@));
                        }
                        return true;
                    }
                }
                k = k + 1;
            }
            proof {
                assert(!class_or_iface_named(self.views(), cur, name@));
            }
            if fuel == 0 {
                return false;
            }
            fuel = fuel - 1;
            match self.classes[cur].super_class {
                Some(s) => {
                    if s < self.classes.len() {
                        cur = s;
                    } else {
                        proof {
                            assert(!assignable_to(self.views(), s, name@, fuel as nat));
                        }
                        return false;
                    }
                },
                None => {
                    return false;
                },
            }
        }
    }

    /// Resolves a method by (name, descriptor) on the receiver's class,
    /// walking the superclass chain upwards; the first hit wins.
    pub fn resolve_method(&self, c: ClassId, name: &Vec<u8>, desc: &Vec<u8>) -> (r: Option<
        (ClassId, usize),
    >)
        requires
            self.valid_class(c),
        ensures
            match r {
                Some((rc, m)) => resolve_method_spec(
                    self.views(),
                    c,
                    name@,
                    desc@,
                    self.views().len() as nat,
                ) == Some((rc, m as int)) && self.valid_class(rc) && m < self.views()[
                    rc as int
                ].methods@.len() && method_matches(
                    self.views()[rc as int].methods@[m as int],
                    name@,
                    desc@,
                ),
                None => resolve_method_spec(
                    self.views(),
                    c,
                    name@,
                    desc@,
                    self.views().len() as nat,
                ) is None,
            },
    {
        let mut cur: ClassId = c;
        let mut fuel: usize = self.classes.len();
        loop
            invariant
                self.valid_class(cur),
                self.valid_class(c),
                resolve_method_spec(self.views(), c, name@, desc@, self.views().len() as nat)
                    == resolve_method_spec(self.views(), cur, name@, desc@, fuel as nat),
            decreases fuel,
        {
            let methods = &self.classes[cur].methods;
            let n = methods.len();
            let mut i: usize = 0;
            while i < n
                invariant
                    i <= n,
                    n == methods@.len(),
                    self.valid_class(cur),
                    self.valid_class(c),
                    methods@ == self.views()[cur as int].methods@,
                    resolve_method_spec(self.views(), c, name@, desc@, self.views().len() as nat)
                        == resolve_method_spec(self.views(), cur, name@, desc@, fuel as nat),
                    find_method_from(methods@, name@, desc@, 0) == find_method_from(
                        methods@,
                        name@,
                        desc@,
                        i as int,
                    ),
                decreases n - i,
            {
                let m = &methods[i];
                if crate::classfile::bytes_eq(&m.name, name.as_slice())
                    && crate::classfile::bytes_eq(&m.desc, desc.as_slice()) {
                    proof {
                        assert(method_matches(methods@[i as int], name@, desc@));
                        assert(find_method_from(methods@, name@, desc@, i as int) == Some(
                            i as int,
                        ));
                        assert(resolve_method_spec(self.views(), cur, name@, desc@, fuel as nat)
                            == Some((cur, i as int)));
                    }
                    return Some((cur, i));
                }
                i = i + 1;
            }
            proof {
                assert(find_method_from(methods@, name@, desc@, n as int) is None);
            }
            if fuel == 0 {
                return None;
            }
            fuel = fuel - 1;
            match self.classes[cur].super_class {
                Some(s) => {
                    if s < self.classes.len() {
                        cur = s;
                    } else {
                        proof {
                            assert(resolve_method_spec(
                                self.views(),
                                s,
                                name@,
                                desc@,
                                fuel as nat,
                            ) is None);
                        }
                        return None;
                    }
                },
                None => {
                    return None;
                },
            }
        }
    }
}

} // verus!
