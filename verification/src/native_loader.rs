//! The `java/lang/ClassLoader` natives: the registry entries and the lookup
//! logic. The host-facing glue hands the class name in as bytes; the lookup
//! turns the dotted form into the internal slash form, consults the system
//! dictionary, and answers with the class mirror or null.

use vstd::prelude::*;

use crate::class::ClassArea;
use crate::oop::Oop;
use crate::sys_dic::SysDic;

verus! {

/// Which host routine a native method binds to.
#[derive(Clone, Copy, Debug, PartialEq, Eq, Structural)]
pub enum NativeFn {
    RegisterNatives,
    FindBuiltinLib,
    FindLoadedClass0,
    FindBootstrapClass,
    InitIds,
    Open0,
    ReadBytes,
    Available0,
    Close0,
}

/// One native registration: (method name, method descriptor, routine).
pub struct NativeMethod {
    pub name: String,
    pub desc: String,
    pub func: NativeFn,
}

/// The native methods this class binds: `registerNatives`, `findBuiltinLib`,
/// `findLoadedClass0` and `findBootstrapClass`.
pub fn get_native_methods() -> (r: Vec<NativeMethod>)
    ensures
        r@.len() == 4,
        r@[0].name@ == "registerNatives"@ && r@[0].desc@ == "()V"@ && r@[0].func
            == NativeFn::RegisterNatives,
        r@[1].name@ == "findBuiltinLib"@ && r@[1].desc@
            == "(Ljava/lang/String;)Ljava/lang/String;"@ && r@[1].func == NativeFn::FindBuiltinLib,
        r@[2].name@ == "findLoadedClass0"@ && r@[2].desc@
            == "(Ljava/lang/String;)Ljava/lang/Class;"@ && r@[2].func == NativeFn::FindLoadedClass0,
        r@[3].name@ == "findBootstrapClass"@ && r@[3].desc@
            == "(Ljava/lang/String;)Ljava/lang/Class;"@ && r@[3].func
            == NativeFn::FindBootstrapClass,
{
    let mut r: Vec<NativeMethod> = Vec::new();
    r.push(
        NativeMethod {
            name: "registerNatives".to_owned(),
            desc: "()V".to_owned(),
            func: NativeFn::RegisterNatives,
        },
    );
    r.push(
        NativeMethod {
            name: "findBuiltinLib".to_owned(),
            desc: "(Ljava/lang/String;)Ljava/lang/String;".to_owned(),
            func: NativeFn::FindBuiltinLib,
        },
    );
    r.push(
        NativeMethod {
            name: "findLoadedClass0".to_owned(),
            desc: "(Ljava/lang/String;)Ljava/lang/Class;".to_owned(),
            func: NativeFn::FindLoadedClass0,
        },
    );
    r.push(
        NativeMethod {
            name: "findBootstrapClass".to_owned(),
            desc: "(Ljava/lang/String;)Ljava/lang/Class;".to_owned(),
            func: NativeFn::FindBootstrapClass,
        },
    );
    r
}

/// The bytes an ASCII registry key spells, as utf-8.
pub open spec fn key_bytes(s: Seq<char>) -> Seq<u8> {
    vstd::utf8::encode_utf8(s)
}

/// Compares constant-pool bytes against a registry key.
fn name_is(a: &Vec<u8>, s: &str) -> (r: bool)
    ensures
        r == (a@ == key_bytes(s@)),
{
    crate::classfile::bytes_eq(a, s.as_bytes())
}

/// Which routine the registry binds for a (class, method name, descriptor)
/// key: exactly the entries the two `get_native_methods` lists declare, the
/// `java/lang/ClassLoader` four and the `java/io/FileInputStream` six
/// (`available` aliasing `available0`), and nothing else.
pub open spec fn native_of(class_name: Seq<u8>, name: Seq<u8>, desc: Seq<u8>) -> Option<NativeFn> {
    if class_name == key_bytes("java/lang/ClassLoader"@) {
        if name == key_bytes("registerNatives"@) && desc == key_bytes("()V"@) {
            Some(NativeFn::RegisterNatives)
        } else if name == key_bytes("findBuiltinLib"@) && desc == key_bytes(
            "(Ljava/lang/String;)Ljava/lang/String;"@,
        ) {
            Some(NativeFn::FindBuiltinLib)
        } else if name == key_bytes("findLoadedClass0"@) && desc == key_bytes(
            "(Ljava/lang/String;)Ljava/lang/Class;"@,
        ) {
            Some(NativeFn::FindLoadedClass0)
        } else if name == key_bytes("findBootstrapClass"@) && desc == key_bytes(
            "(Ljava/lang/String;)Ljava/lang/Class;"@,
        ) {
            Some(NativeFn::FindBootstrapClass)
        } else {
            None
        }
    } else if class_name == key_bytes("java/io/FileInputStream"@) {
        if name == key_bytes("initIDs"@) && desc == key_bytes("()V"@) {
            Some(NativeFn::InitIds)
        } else if name == key_bytes("open0"@) && desc == key_bytes("(Ljava/lang/String;)V"@) {
            Some(NativeFn::Open0)
        } else if name == key_bytes("readBytes"@) && desc == key_bytes("([BII)I"@) {
            Some(NativeFn::ReadBytes)
        } else if (name == key_bytes("available0"@) || name == key_bytes("available"@)) && desc
            == key_bytes("()I"@) {
            Some(NativeFn::Available0)
        } else if name == key_bytes("close0"@) && desc == key_bytes("()V"@) {
            Some(NativeFn::Close0)
        } else {
            None
        }
    } else {
        None
    }
}

/// Looks a native method up by its (class, name, descriptor) registry key.
pub fn lookup_native(class_name: &Vec<u8>, name: &Vec<u8>, desc: &Vec<u8>) -> (r: Option<NativeFn>)
    ensures
        r == native_of(class_name@, name@, desc@),
{
    if name_is(class_name, "java/lang/ClassLoader") {
        if name_is(name, "registerNatives") && name_is(desc, "()V") {
            Some(NativeFn::RegisterNatives)
        } else if name_is(name, "findBuiltinLib") && name_is(
            desc,
            "(Ljava/lang/String;)Ljava/lang/String;",
        ) {
            Some(NativeFn::FindBuiltinLib)
        } else if name_is(name, "findLoadedClass0") && name_is(
            desc,
            "(Ljava/lang/String;)Ljava/lang/Class;",
        ) {
            Some(NativeFn::FindLoadedClass0)
        } else if name_is(name, "findBootstrapClass") && name_is(
            desc,
            "(Ljava/lang/String;)Ljava/lang/Class;",
        ) {
            Some(NativeFn::FindBootstrapClass)
        } else {
            None
        }
    } else if name_is(class_name, "java/io/FileInputStream") {
        if name_is(name, "initIDs") && name_is(desc, "()V") {
            Some(NativeFn::InitIds)
        } else if name_is(name, "open0") && name_is(desc, "(Ljava/lang/String;)V") {
            Some(NativeFn::Open0)
        } else if name_is(name, "readBytes") && name_is(desc, "([BII)I") {
            Some(NativeFn::ReadBytes)
        } else if (name_is(name, "available0") || name_is(name, "available")) && name_is(
            desc,
            "()I",
        ) {
            Some(NativeFn::Available0)
        } else if name_is(name, "close0") && name_is(desc, "()V") {
            Some(NativeFn::Close0)
        } else {
            None
        }
    } else {
        None
    }
}

/// `registerNatives` is a no-op.
pub fn jvm_register_natives() -> (r: Result<Option<Oop>, Oop>)
    ensures
        r == Ok::<Option<Oop>, Oop>(None),
{
    Ok(None)
}

/// No dynamic library loading is required by this core: `findBuiltinLib`
/// always answers null. The method returns a `String`, so the null stands as
/// a returned value.
pub fn jvm_find_builtin_lib() -> (r: Result<Option<Oop>, Oop>)
    ensures
        r == Ok::<Option<Oop>, Oop>(Some(Oop::Null)),
{
    Ok(Some(Oop::Null))
}

/// Each dot replaced by the internal slash separator.
pub open spec fn dots_to_slashes(s: Seq<u8>) -> Seq<u8> {
    s.map_values(
        |b: u8|
            if b == 0x2e {
                0x2fu8
            } else {
                b
            },
    )
}

/// Turns a dotted class name into internal slash form.
pub fn replace_dots(name: &Vec<u8>) -> (r: Vec<u8>)
    ensures
        r@ == dots_to_slashes(name@),
{
    let n = name.len();
    let mut r: Vec<u8> = Vec::with_capacity(n);
    let mut i: usize = 0;
    while i < n
        invariant
            i <= n,
            n == name@.len(),
            r@ == dots_to_slashes(name@.take(i as int)),
        decreases n - i,
    {
        let b = name[i];
        if b == 0x2e {
            r.push(0x2f);
        } else {
            r.push(b);
        }
        proof {
            assert(r@ =~= dots_to_slashes(name@.take(i + 1 as int)));
        }
        i = i + 1;
    }
    proof {
        assert(name@.take(n as int) =~= name@);
    }
    r
}

/// What `findLoadedClass0` answers for a dotted name: the mirror of the
/// dictionary entry under the slash form of the name, or null when no such
/// class is loaded or it has no mirror yet.
pub open spec fn find_loaded_spec(classes: ClassArea, dic: SysDic, name: Seq<u8>) -> Oop {
    match dic.spec_find(dots_to_slashes(name)) {
        Some(c) => if classes.valid_class(c) {
            match classes.views()[c as int].mirror {
                Some(m) => Oop::Ref(m),
                None => Oop::Null,
            }
        } else {
            Oop::Null
        },
        None => Oop::Null,
    }
}

/// `findLoadedClass0`: answers the mirror of an already-loaded class, or
/// null.
pub fn jvm_find_loaded_class0(classes: &ClassArea, dic: &SysDic, name: &Vec<u8>) -> (r: Oop)
    ensures
        r == find_loaded_spec(*classes, *dic, name@),
{
    let internal = replace_dots(name);
    match dic.find(&internal) {
        Some(c) => {
            if c < classes.count() {
                match classes.get(c).mirror {
                    Some(m) => Oop::Ref(m),
                    None => Oop::Null,
                }
            } else {
                Oop::Null
            }
        },
        None => Oop::Null,
    }
}

/// `findBootstrapClass`: this core delegates to the loaded-class query, as
/// every class it links is a bootstrap class.
pub fn jvm_find_bootstrap_class(classes: &ClassArea, dic: &SysDic, name: &Vec<u8>) -> (r: Oop)
    ensures
        r == find_loaded_spec(*classes, *dic, name@),
{
    jvm_find_loaded_class0(classes, dic, name)
}

} // verus!
