use jvm::arith;
use jvm::classfile::{parse_class_file, ClassFile};
use jvm::codec;
use jvm::cp_manager::{ClassPathManager, ClassSource, SearchStep};
use jvm::errors::{ClassFormat, ExKind};
use jvm::local::Local;
use jvm::monitor::{EnterOutcome, Monitor};
use jvm::oop::{array_check, array_length, Heap, InstDesc, Oop, OopDesc, RefKind, TypeArrayDesc};
use jvm::oop_util::StringPool;
use jvm::stack::Stack;
use jvm::class::InitState;
use jvm::sys_dic::SysDic;
use jvm::timeouts;
use jvm::native_loader::{lookup_native, NativeFn};
use jvm::native_io::available_outcome;

#[test]
fn codec_round_trips() {
    let q = codec::u32_to_be(0xCAFEBABE);
    assert_eq!(q, [0xCA, 0xFE, 0xBA, 0xBE]);
    assert_eq!(codec::u32_from_be(q[0], q[1], q[2], q[3]), 0xCAFEBABE);
    let o = codec::u64_to_be(0x0102030405060708);
    assert_eq!(codec::u64_from_be(&o), 0x0102030405060708);
    assert_eq!(codec::bits_to_i32(codec::i32_to_bits(-1)), -1);
    assert_eq!(codec::i32_to_bits(-1), 0xFFFF_FFFF);
    assert_eq!(codec::bits_to_i64(codec::i64_to_bits(i64::MIN)), i64::MIN);
    assert_eq!(codec::u16_from_be(0x12, 0x34), 0x1234);
}

#[test]
fn stack_push_pop() {
    let mut s = Stack::new(4);
    s.push_int(-123456);
    assert_eq!(s.pop_int(), -123456);
    s.push_long(-99_000_000_000);
    assert_eq!(s.pop_long(), -99_000_000_000);
    s.push_const_m1();
    assert_eq!(s.pop_int(), -1);
    s.push_const0();
    s.push_const1();
    s.push_const2();
    s.push_const3();
    s.push_const4();
    s.push_const5();
    assert_eq!(s.pop_int(), 5);
    assert_eq!(s.pop_int(), 4);
    assert_eq!(s.pop_int(), 3);
    assert_eq!(s.pop_int(), 2);
    assert_eq!(s.pop_int(), 1);
    assert_eq!(s.pop_int(), 0);
    s.push_null();
    assert_eq!(s.pop_ref(), Oop::Null);
    s.push2([0, 0, 0, 5]);
    assert_eq!(s.pop_int(), 5);
    s.push3([0, 0, 0, 0, 0, 0, 1, 0]);
    assert_eq!(s.pop_long(), 256);
    s.push_int(7);
    s.drop_top();
    assert_eq!(s.depth(), 0);
    s.push_int(1);
    s.push_int(2);
    s.clear();
    assert_eq!(s.depth(), 0);
}

#[test]
fn local_set_get() {
    let mut l = Local::new(4);
    l.set_int(0, 42);
    assert_eq!(l.get_int(0), 42);
    l.set_long(1, -5_000_000_000);
    assert_eq!(l.get_long(1), -5_000_000_000);
    l.set_ref(2, Oop::Ref(9));
    assert_eq!(l.get_ref(2), Oop::Ref(9));
    l.set_int(3, i32::MIN);
    assert_eq!(l.get_int(3), i32::MIN);
    assert_eq!(l.get_int_checked(99), None);
}

#[test]
fn interpreter_arithmetic() {
    assert_eq!(arith::iadd(i32::MAX, 1), i32::MIN);
    assert_eq!(arith::isub(i32::MIN, 1), i32::MAX);
    assert_eq!(arith::imul(0x10000, 0x10000), 0);
    assert_eq!(arith::imul(3, -7), -21);
    assert_eq!(arith::iand(0b1100, 0b1010), 0b1000);
    assert_eq!(arith::ior(0b1100, 0b1010), 0b1110);
    assert_eq!(arith::ixor(0b1100, 0b1010), 0b0110);
    assert_eq!(arith::ishl(1, 33), 2);
    assert_eq!(arith::ishr(-8, 1), -4);
    assert_eq!(arith::iushr(-1, 28), 15);
    assert_eq!(arith::ineg(5), -5);
    assert_eq!(arith::ineg(i32::MIN), i32::MIN);
    assert_eq!(arith::idiv(7, 2), Ok(3));
    assert_eq!(arith::idiv(-7, 2), Ok(-3));
    assert_eq!(arith::idiv(7, -2), Ok(-3));
    assert_eq!(arith::idiv(-7, -2), Ok(3));
    assert_eq!(arith::idiv(i32::MIN, -1), Ok(i32::MIN));
    assert_eq!(arith::irem(-7, 2), Ok(-1));
    assert_eq!(arith::irem(7, -2), Ok(1));
    assert_eq!(arith::irem(i32::MIN, -1), Ok(0));
    assert_eq!(arith::ladd(i64::MAX, 1), i64::MIN);
    assert_eq!(arith::ldiv(-9, 2), Ok(-4));
    assert_eq!(arith::lrem(-9, 2), Ok(-1));
    assert_eq!(arith::ldiv(i64::MIN, -1), Ok(i64::MIN));
    assert_eq!(arith::i2l(-3), -3i64);
    assert_eq!(arith::l2i(0x1_0000_0001), 1);
    assert_eq!(arith::l2i(-1), -1);
}

#[test]
fn division_by_zero_raises_arithmetic() {
    assert_eq!(arith::idiv(1, 0), Err(ExKind::Arithmetic));
    assert_eq!(arith::irem(1, 0), Err(ExKind::Arithmetic));
    assert_eq!(arith::ldiv(1, 0), Err(ExKind::Arithmetic));
    assert_eq!(arith::lrem(1, 0), Err(ExKind::Arithmetic));
}

#[test]
fn null_receiver_raises_npe() {
    let heap = Heap::new();
    assert_eq!(array_length(&heap, Oop::Null), Err(ExKind::NullPointer));
    assert_eq!(array_check(&heap, Oop::Null, 0), Err(ExKind::NullPointer));
}

#[test]
fn bounds_raise_aioobe() {
    let mut heap = Heap::new();
    let h = heap.new_cell(OopDesc {
        v: RefKind::TypeArray(TypeArrayDesc::Int(vec![1, 2, 3])),
    });
    assert_eq!(array_check(&heap, Oop::Ref(h), 3), Err(ExKind::ArrayIndexOutOfBounds));
    assert_eq!(array_check(&heap, Oop::Ref(h), -1), Err(ExKind::ArrayIndexOutOfBounds));
    assert_eq!(array_check(&heap, Oop::Ref(h), 2), Ok(h));
    assert_eq!(array_length(&heap, Oop::Ref(h)), Ok(3));
}

#[test]
fn monitor_reentry() {
    let mut m = Monitor::new();
    assert_eq!(m.enter(7), EnterOutcome::Acquired);
    assert_eq!(m.count, 1);
    assert_eq!(m.enter(7), EnterOutcome::Acquired);
    assert_eq!(m.count, 2);
    assert_eq!(m.enter(8), EnterOutcome::WouldBlock);
    assert_eq!(m.exit(8), Err(ExKind::IllegalMonitorState));
    assert_eq!(m.exit(7), Ok(()));
    assert_eq!(m.count, 1);
    assert_eq!(m.exit(7), Ok(()));
    assert_eq!(m.count, 0);
    assert_eq!(m.owner, None);
    assert_eq!(m.enter(8), EnterOutcome::Acquired);
}

#[test]
fn sys_dic_put_find() {
    let mut d = SysDic::new();
    let name = b"java/lang/String".to_vec();
    assert_eq!(d.find(&name), None);
    d.put(&name, 3);
    assert_eq!(d.find(&name), Some(3));
    assert_eq!(d.find(&name), Some(3));
    d.put(&name, 5);
    assert_eq!(d.find(&name), Some(5));
    assert_eq!(d.find(&b"other".to_vec()), None);
}

#[test]
fn string_identity_through_pool() {
    let mut pool = StringPool::new();
    let mut heap = Heap::new();
    let chars: Vec<u16> = vec![72, 105];
    let h1 = pool.intern(&mut heap, chars.clone(), 0, 1, 0);
    let h2 = pool.intern(&mut heap, chars.clone(), 0, 1, 0);
    assert_eq!(h1, h2);
    let h3 = pool.intern(&mut heap, vec![72, 111], 0, 1, 0);
    assert_ne!(h1, h3);
    let h4 = pool.intern(&mut heap, chars, 0, 1, 0);
    assert_eq!(h1, h4);
}

#[test]
fn string_helpers() {
    let mut heap = Heap::new();
    let h = jvm::oop_util::new_string_from_units(&mut heap, vec![65, 66], 0, 2, 1);
    let s = jvm::oop_util::extract_str(&heap, &Oop::Ref(h), 1);
    assert_eq!(s, "AB");
    let units = jvm::oop_util::extract_java_lang_string_value(&heap, &Oop::Ref(h), 1);
    assert_eq!(units, vec![65, 66]);
    assert_eq!(jvm::oop_util::hash_units(&vec![72, 105]), 31 * 72 + 105);
    assert_eq!(jvm::oop_util::hash_units(&vec![]), 0);
}

#[test]
fn extract_helpers() {
    assert!(jvm::oop_util::is_null(&Oop::Null));
    assert!(!jvm::oop_util::is_null(&Oop::Int(0)));
    assert_eq!(jvm::oop_util::extract_int(&Oop::Int(-9)), -9);
    assert_eq!(jvm::oop_util::extract_long(&Oop::Long(1 << 40)), 1 << 40);
    assert_eq!(jvm::oop_util::extract_ref(&Oop::Ref(4)), 4);
}

#[test]
fn instance_field_slots() {
    let mut heap = Heap::new();
    let h = heap.new_cell(OopDesc {
        v: RefKind::Inst(InstDesc { class: 0, fields: vec![Oop::Int(1), Oop::Null] }),
    });
    assert_eq!(heap.get_field_value(h, 0), Oop::Int(1));
    heap.put_field_value(h, 1, Oop::Int(7));
    assert_eq!(heap.get_field_value(h, 1), Oop::Int(7));
    assert_eq!(heap.size(), 1);
}

#[test]
fn decoder_rejects_bad_input() {
    match parse_class_file(&vec![0xCA, 0xFE]) {
        Err(e) => assert_eq!(e, ClassFormat::Truncated),
        Ok(_) => panic!("short input accepted"),
    }
    match parse_class_file(&vec![0xDE, 0xAD, 0xBE, 0xEF, 0, 0]) {
        Err(e) => assert_eq!(e, ClassFormat::BadMagic),
        Ok(_) => panic!("bad magic accepted"),
    }
}

fn parse_ok(bytes: &Vec<u8>) -> ClassFile {
    match parse_class_file(bytes) {
        Ok(cf) => cf,
        Err(e) => panic!("decode failed: {:?}", e),
    }
}

#[test]
fn decoder_minimal_class() {
    // magic, version 0.52, one-slot pool, flags, this=0, super=0, no members
    let mut b: Vec<u8> = vec![0xCA, 0xFE, 0xBA, 0xBE, 0, 0, 0, 52];
    b.extend_from_slice(&[0, 1]); // constant pool count: only the phantom slot
    b.extend_from_slice(&[0, 0x21]); // access flags
    b.extend_from_slice(&[0, 0]); // this
    b.extend_from_slice(&[0, 0]); // super
    b.extend_from_slice(&[0, 0]); // interfaces
    b.extend_from_slice(&[0, 0]); // fields
    b.extend_from_slice(&[0, 0]); // methods
    b.extend_from_slice(&[0, 0]); // attributes
    let cf = parse_ok(&b);
    assert_eq!(cf.major_version, 52);
    assert_eq!(cf.cp.len(), 1);
    assert_eq!(cf.fields.len(), 0);
    assert_eq!(cf.methods.len(), 0);
}

#[test]
fn class_path_manager_steps() {
    let mut cpm = ClassPathManager::new();
    cpm.add_class_path(ClassSource::Dir(b"/tmp/root".to_vec()));
    assert_eq!(cpm.size(), 1);
    match cpm.search_step(&b"java.lang.String".to_vec(), 0) {
        SearchStep::TryFile(p) => {
            assert_eq!(p, b"/tmp/root/java/lang/String.class".to_vec());
        }
        _ => panic!("expected a directory probe"),
    }
}

#[test]
fn class_path_archive_lookup() {
    let payload = vec![0xCA, 0xFE, 0xBA, 0xBE, 1, 2, 3];
    let cur = std::io::Cursor::new(Vec::new());
    let mut zw = zip::ZipWriter::new(cur);
    zw.start_file("pkg/Foo.class", zip::write::SimpleFileOptions::default())
        .unwrap();
    std::io::Write::write_all(&mut zw, &payload).unwrap();
    let archive = zw.finish().unwrap().into_inner();

    let mut cpm = ClassPathManager::new();
    cpm.add_class_path(ClassSource::Jar(archive, b"/tmp/foo.jar".to_vec()));
    match cpm.search_step(&b"pkg.Foo".to_vec(), 0) {
        SearchStep::Found(res) => {
            assert_eq!(res.0, "/tmp/foo.jar");
            assert_eq!(res.1, payload);
        }
        _ => panic!("expected an archive hit"),
    }
    match cpm.search_step(&b"pkg.Bar".to_vec(), 0) {
        SearchStep::Miss => {}
        _ => panic!("expected a miss"),
    }
}

#[test]
fn split_paths() {
    let segs = jvm::cp_manager::split_class_path(&b"a:bb::c".to_vec(), b':');
    assert_eq!(segs, vec![b"a".to_vec(), b"bb".to_vec(), b"".to_vec(), b"c".to_vec()]);
    let one = jvm::cp_manager::split_class_path(&b"".to_vec(), b':');
    assert_eq!(one, vec![b"".to_vec()]);
}

#[test]
fn native_tables() {
    let loader = jvm::native_loader::get_native_methods();
    assert_eq!(loader.len(), 4);
    assert_eq!(loader[0].name, "registerNatives");
    assert_eq!(loader[2].name, "findLoadedClass0");
    let fis = jvm::native_io::get_native_methods();
    assert_eq!(fis.len(), 6);
    assert_eq!(fis[1].name, "open0");
    assert_eq!(fis[2].desc, "([BII)I");
}

#[test]
fn read_bytes_decisions() {
    assert_eq!(jvm::native_io::read_bytes_outcome(12), Ok(12));
    assert_eq!(jvm::native_io::read_bytes_outcome(-1), Err(ExKind::Io));
    assert_eq!(jvm::native_io::read_bytes_outcome(0), Ok(-1));
    assert_eq!(jvm::native_io::available_len(10, 4), 6);
}

#[test]
fn loader_lookup() {
    let mut vm = jvm::runtime::init();
    vm.dic.put(&b"pkg/Known".to_vec(), 0);
    let r = jvm::native_loader::jvm_find_loaded_class0(&vm.classes, &vm.dic, &b"pkg.Known".to_vec());
    // registered but not linked into the registry: no mirror, so null
    assert_eq!(r, Oop::Null);
    let r2 =
        jvm::native_loader::jvm_find_bootstrap_class(&vm.classes, &vm.dic, &b"pkg.Other".to_vec());
    assert_eq!(r2, Oop::Null);
    assert_eq!(jvm::native_loader::jvm_register_natives(), Ok(None));
    assert_eq!(jvm::native_loader::jvm_find_builtin_lib(), Ok(Some(Oop::Null)));
}

#[test]
fn timeout_arithmetic() {
    assert_eq!(timeouts::saturating_cast_to_time_t(5), 5);
    assert_eq!(timeouts::saturating_cast_to_time_t(u64::MAX), i64::MAX);
    let (s, ns) = timeouts::condvar_deadline(100, 900_000_000, 2, 300_000_000);
    assert_eq!((s, ns), (103, 200_000_000));
    let (s2, ns2) = timeouts::condvar_deadline(10, 0, u64::MAX, 0);
    assert_eq!((s2, ns2), (i64::MAX, 999_999_999));
    assert!(timeouts::wait_was_notified(0));
    assert!(!timeouts::wait_was_notified(110));
}

#[test]
fn boxed_integer_value() {
    let mut heap = Heap::new();
    let h = heap.new_cell(OopDesc {
        v: RefKind::Inst(InstDesc { class: 0, fields: vec![Oop::Int(123)] }),
    });
    assert_eq!(jvm::oop_util::extract_java_lang_integer_value(&heap, &Oop::Ref(h), 0), 123);
}

#[test]
fn file_descriptor_plumbing() {
    // a stream class whose fd field holds a descriptor object with an int fd
    let mut vm = jvm::runtime::init();
    let mk_field = |name: &str, desc: &str, offset: usize| jvm::field::FieldId {
        offset,
        field: jvm::field::Field {
            name: name.as_bytes().to_vec(),
            desc: desc.as_bytes().to_vec(),
            id: Vec::new(),
            acc_flags: 0,
            value_type: jvm::field::ValueType::Object,
            attr_constant_value: None,
        },
    };
    let stream_cls = jvm::class::ClassDesc {
        name: b"java/io/FileInputStream".to_vec(),
        acc_flags: 0,
        super_class: None,
        interfaces: vec![],
        inst_fields: vec![mk_field("fd", "Ljava/io/FileDescriptor;", 0)],
        static_fields: vec![],
        static_values: vec![],
        methods: vec![],
        cp: vec![],
        init_state: InitState::Linked,
        mirror: None,
    };
    let fd_cls = jvm::class::ClassDesc {
        name: b"java/io/FileDescriptor".to_vec(),
        acc_flags: 0,
        super_class: None,
        interfaces: vec![],
        inst_fields: vec![mk_field("fd", "I", 0)],
        static_fields: vec![],
        static_values: vec![],
        methods: vec![],
        cp: vec![],
        init_state: InitState::Linked,
        mirror: None,
    };
    let sc = vm.classes.register(stream_cls);
    let fc = vm.classes.register(fd_cls);
    let fd_obj = vm.heap.new_cell(OopDesc {
        v: RefKind::Inst(InstDesc { class: fc, fields: vec![Oop::Int(-1)] }),
    });
    let stream = vm.heap.new_cell(OopDesc {
        v: RefKind::Inst(InstDesc { class: sc, fields: vec![Oop::Ref(fd_obj)] }),
    });
    jvm::native_io::set_file_descriptor_fd(&vm.classes, &mut vm.heap, &Oop::Ref(stream), 5);
    assert_eq!(
        jvm::native_io::get_file_descriptor_fd(&vm.classes, &vm.heap, &Oop::Ref(stream)),
        5
    );
}

#[test]
fn modified_utf8_decoding() {
    assert_eq!(
        jvm::oop_util::decode_modified_utf8(&vec![0x41, 0xc3, 0xa9]),
        Some(vec![0x41, 0xe9])
    );
    assert_eq!(jvm::oop_util::decode_modified_utf8(&vec![0xe4, 0xb8, 0xad]), Some(vec![0x4e2d]));
    assert_eq!(jvm::oop_util::decode_modified_utf8(&vec![]), Some(vec![]));
    // a raw NUL, a dangling lead byte, and a bad continuation are malformed
    assert_eq!(jvm::oop_util::decode_modified_utf8(&vec![0x00]), None);
    assert_eq!(jvm::oop_util::decode_modified_utf8(&vec![0xc3]), None);
    assert_eq!(jvm::oop_util::decode_modified_utf8(&vec![0xe4, 0x41, 0x41]), None);
    // the embedded NUL encodes as the two-byte group 0xc0 0x80
    assert_eq!(jvm::oop_util::decode_modified_utf8(&vec![0xc0, 0x80]), Some(vec![0x0000]));
}

#[test]
fn string_from_constant_bytes() {
    let mut heap = Heap::new();
    let r = jvm::oop_util::new_java_lang_string3(&mut heap, &vec![0x41, 0xc3, 0xa9], 0, 2, 1);
    let o = r.expect("well-formed constant");
    let s = jvm::oop_util::extract_str(&heap, &o, 1);
    assert_eq!(s, "A\u{e9}");
    let bad = jvm::oop_util::new_java_lang_string3(&mut heap, &vec![0xff], 0, 2, 1);
    assert_eq!(bad, Err(ClassFormat::MalformedUtf8));
}

#[test]
fn reference_equality() {
    let mut vm = jvm::runtime::init();
    let string_cls = vm.classes.register(jvm::class::ClassDesc {
        name: b"java/lang/String".to_vec(),
        acc_flags: 0,
        super_class: None,
        interfaces: vec![],
        inst_fields: vec![],
        static_fields: vec![],
        static_values: vec![],
        methods: vec![],
        cp: vec![],
        init_state: InitState::Linked,
        mirror: None,
    });
    let s1 = jvm::oop_util::new_string_from_units(&mut vm.heap, vec![72, 105], string_cls, 1, 0);
    let s2 = jvm::oop_util::new_string_from_units(&mut vm.heap, vec![72, 105], string_cls, 1, 0);
    let s3 = jvm::oop_util::new_string_from_units(&mut vm.heap, vec![72, 111], string_cls, 1, 0);
    let eq = |a: Oop, b: Oop, vm: &jvm::runtime::Vm| {
        jvm::oop_util::if_acmpeq(&vm.classes, &vm.heap, &a, &b, 0)
    };
    assert!(eq(Oop::Null, Oop::Null, &vm));
    assert!(!eq(Oop::Null, Oop::Ref(s1), &vm));
    assert!(eq(Oop::Ref(s1), Oop::Ref(s1), &vm));
    // distinct handles, equal contents: string tolerance makes them equal
    assert!(eq(Oop::Ref(s1), Oop::Ref(s2), &vm));
    assert!(!eq(Oop::Ref(s1), Oop::Ref(s3), &vm));
    // hash of a string follows its contents; null hashes to zero
    let h1 = jvm::oop_util::hash_code(&vm.classes, &vm.heap, &Oop::Ref(s1), 0);
    let h2 = jvm::oop_util::hash_code(&vm.classes, &vm.heap, &Oop::Ref(s2), 0);
    assert_eq!(h1, h2);
    assert_eq!(h1, 31 * 72 + 105);
    assert_eq!(jvm::oop_util::hash_code(&vm.classes, &vm.heap, &Oop::Null, 0), 0);
}

#[test]
fn thread_eetop_field() {
    let mut vm = jvm::runtime::init();
    let thread_cls = vm.classes.register(jvm::class::ClassDesc {
        name: b"java/lang/Thread".to_vec(),
        acc_flags: 0,
        super_class: None,
        interfaces: vec![],
        inst_fields: vec![jvm::field::FieldId {
            offset: 0,
            field: jvm::field::Field {
                name: b"eetop".to_vec(),
                desc: b"J".to_vec(),
                id: Vec::new(),
                acc_flags: 0,
                value_type: jvm::field::ValueType::Long,
                attr_constant_value: None,
            },
        }],
        static_fields: vec![],
        static_values: vec![],
        methods: vec![],
        cp: vec![],
        init_state: InitState::Linked,
        mirror: None,
    });
    let t = vm.heap.new_cell(OopDesc {
        v: RefKind::Inst(InstDesc { class: thread_cls, fields: vec![Oop::Long(0x1234_5678)] }),
    });
    assert_eq!(
        jvm::oop_util::extract_java_lang_thread_eetop(&vm.classes, &vm.heap, &Oop::Ref(t)),
        0x1234_5678
    );
}

#[test]
fn native_registry_lookup() {
    let cl = b"java/lang/ClassLoader".to_vec();
    let fis = b"java/io/FileInputStream".to_vec();
    assert_eq!(
        lookup_native(&cl, &b"registerNatives".to_vec(), &b"()V".to_vec()),
        Some(NativeFn::RegisterNatives)
    );
    assert_eq!(
        lookup_native(
            &cl,
            &b"findBuiltinLib".to_vec(),
            &b"(Ljava/lang/String;)Ljava/lang/String;".to_vec()
        ),
        Some(NativeFn::FindBuiltinLib)
    );
    assert_eq!(
        lookup_native(&fis, &b"readBytes".to_vec(), &b"([BII)I".to_vec()),
        Some(NativeFn::ReadBytes)
    );
    assert_eq!(
        lookup_native(&fis, &b"available".to_vec(), &b"()I".to_vec()),
        Some(NativeFn::Available0)
    );
    // the registry keys on the descriptor too
    assert_eq!(lookup_native(&fis, &b"readBytes".to_vec(), &b"()I".to_vec()), None);
    assert_eq!(lookup_native(&b"java/lang/Object".to_vec(), &b"readBytes".to_vec(), &b"([BII)I".to_vec()), None);
}

#[test]
fn read_bytes_applies_host_result() {
    let mut heap = Heap::new();
    let h = heap.new_cell(OopDesc {
        v: RefKind::TypeArray(TypeArrayDesc::Byte(vec![0, 0, 0, 0])),
    });
    let aref = Oop::Ref(h);
    let data: Vec<u8> = vec![0x41, 0x42];
    // two bytes land at offset 1, the rest stays
    assert_eq!(jvm::native_io::read_bytes_apply(&mut heap, &aref, 1, 2, &data, 2), Ok(2));
    match &heap.get(h).v {
        RefKind::TypeArray(TypeArrayDesc::Byte(a)) => {
            assert_eq!(a.as_slice(), &[0, 0x41, 0x42, 0]);
        }
        _ => panic!("not a byte array"),
    }
    // end of stream answers minus one and writes nothing
    assert_eq!(jvm::native_io::read_bytes_apply(&mut heap, &aref, 0, 4, &Vec::new(), 0), Ok(-1));
    // a failed read raises the I/O condition
    assert_eq!(
        jvm::native_io::read_bytes_apply(&mut heap, &aref, 0, 4, &Vec::new(), -1),
        Err(ExKind::Io)
    );
    // bounds are checked before anything happens
    assert_eq!(
        jvm::native_io::read_bytes_apply(&mut heap, &aref, 3, 2, &data, 1),
        Err(ExKind::ArrayIndexOutOfBounds)
    );
    assert_eq!(
        jvm::native_io::read_bytes_apply(&mut heap, &aref, -1, 1, &data, 1),
        Err(ExKind::ArrayIndexOutOfBounds)
    );
    assert_eq!(
        jvm::native_io::read_bytes_apply(&mut heap, &Oop::Null, 0, 1, &data, 1),
        Err(ExKind::NullPointer)
    );
}

#[test]
fn available_decision_tree() {
    assert_eq!(available_outcome(-1, false, None, None, None), Err(ExKind::Io));
    assert_eq!(available_outcome(3, true, Some(7), None, None), Ok(7));
    assert_eq!(available_outcome(3, false, None, Some(4), Some(10)), Ok(6));
    assert_eq!(available_outcome(3, false, None, None, None), Ok(0));
    assert_eq!(available_outcome(3, false, None, Some(4), None), Ok(0));
    assert_eq!(available_outcome(3, true, None, Some(0), Some(5)), Ok(5));
}
