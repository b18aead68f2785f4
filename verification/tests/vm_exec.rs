use jvm::class::InitState;
use jvm::errors::ExKind;
use jvm::interp::execute_method;
use jvm::native_io::{HostPort, HostReply, HostRequest, NoHost};
use jvm::oop::Oop;
use jvm::runtime::{init, initialization_chain, require_class, Vm};

fn u16be(out: &mut Vec<u8>, v: u16) {
    out.push((v >> 8) as u8);
    out.push((v & 0xff) as u8);
}

fn u32be(out: &mut Vec<u8>, v: u32) {
    out.push((v >> 24) as u8);
    out.push(((v >> 16) & 0xff) as u8);
    out.push(((v >> 8) & 0xff) as u8);
    out.push((v & 0xff) as u8);
}

fn cp_utf8(s: &str) -> Vec<u8> {
    let mut e = vec![1u8];
    u16be(&mut e, s.len() as u16);
    e.extend_from_slice(s.as_bytes());
    e
}

fn cp_class(name_index: u16) -> Vec<u8> {
    let mut e = vec![7u8];
    u16be(&mut e, name_index);
    e
}

fn cp_integer(v: i32) -> Vec<u8> {
    let mut e = vec![3u8];
    u32be(&mut e, v as u32);
    e
}

fn cp_nat(name_index: u16, desc_index: u16) -> Vec<u8> {
    let mut e = vec![12u8];
    u16be(&mut e, name_index);
    u16be(&mut e, desc_index);
    e
}

fn cp_methodref(class_index: u16, nat_index: u16) -> Vec<u8> {
    let mut e = vec![10u8];
    u16be(&mut e, class_index);
    u16be(&mut e, nat_index);
    e
}

fn cp_fieldref(class_index: u16, nat_index: u16) -> Vec<u8> {
    let mut e = vec![9u8];
    u16be(&mut e, class_index);
    u16be(&mut e, nat_index);
    e
}

/// A field_info without attributes.
fn field_info(acc: u16, name_index: u16, desc_index: u16) -> Vec<u8> {
    let mut e = Vec::new();
    u16be(&mut e, acc);
    u16be(&mut e, name_index);
    u16be(&mut e, desc_index);
    u16be(&mut e, 0);
    e
}

/// A field_info with one ConstantValue attribute.
fn field_info_const(acc: u16, name_index: u16, desc_index: u16, cv_name: u16, cv: u16) -> Vec<u8> {
    let mut e = Vec::new();
    u16be(&mut e, acc);
    u16be(&mut e, name_index);
    u16be(&mut e, desc_index);
    u16be(&mut e, 1);
    u16be(&mut e, cv_name);
    u32be(&mut e, 2);
    u16be(&mut e, cv);
    e
}

/// A method_info with one Code attribute.
fn method_info(
    acc: u16,
    name_index: u16,
    desc_index: u16,
    code_name: u16,
    max_stack: u16,
    max_locals: u16,
    code: &[u8],
) -> Vec<u8> {
    let mut e = Vec::new();
    u16be(&mut e, acc);
    u16be(&mut e, name_index);
    u16be(&mut e, desc_index);
    u16be(&mut e, 1);
    u16be(&mut e, code_name);
    u32be(&mut e, (2 + 2 + 4 + code.len() + 2 + 2) as u32);
    u16be(&mut e, max_stack);
    u16be(&mut e, max_locals);
    u32be(&mut e, code.len() as u32);
    e.extend_from_slice(code);
    u16be(&mut e, 0);
    u16be(&mut e, 0);
    e
}

fn assemble(
    cp: &[Vec<u8>],
    this_class: u16,
    super_class: u16,
    fields: &[Vec<u8>],
    methods: &[Vec<u8>],
) -> Vec<u8> {
    let mut b = vec![0xCAu8, 0xFE, 0xBA, 0xBE, 0, 0, 0, 52];
    u16be(&mut b, (cp.len() + 1) as u16);
    for e in cp {
        b.extend_from_slice(e);
    }
    u16be(&mut b, 0x0021);
    u16be(&mut b, this_class);
    u16be(&mut b, super_class);
    u16be(&mut b, 0);
    u16be(&mut b, fields.len() as u16);
    for f in fields {
        b.extend_from_slice(f);
    }
    u16be(&mut b, methods.len() as u16);
    for m in methods {
        b.extend_from_slice(m);
    }
    u16be(&mut b, 0);
    b
}

fn link(vm: &mut Vm, bytes: &Vec<u8>) -> usize {
    let cf = jvm::classfile::parse_class_file(bytes).expect("decode");
    require_class(vm, &cf).expect("link")
}

fn fib_class() -> Vec<u8> {
    let cp = [
        cp_utf8("Fib"),     // 1
        cp_class(1),        // 2
        cp_utf8("fib"),     // 3
        cp_utf8("(I)I"),    // 4
        cp_nat(3, 4),       // 5
        cp_methodref(2, 5), // 6
        cp_utf8("Code"),    // 7
    ];
    let code: &[u8] = &[
        0x1a, // iload_0
        0x05, // iconst_2
        0xa2, 0x00, 0x05, // if_icmpge +5
        0x1a, // iload_0
        0xac, // ireturn
        0x1a, 0x04, 0x64, // iload_0; iconst_1; isub
        0xb8, 0x00, 0x06, // invokestatic fib
        0x1a, 0x05, 0x64, // iload_0; iconst_2; isub
        0xb8, 0x00, 0x06, // invokestatic fib
        0x60, // iadd
        0xac, // ireturn
    ];
    let m = method_info(0x0008, 3, 4, 7, 4, 1, code);
    assemble(&cp, 2, 0, &[], &[m])
}

#[test]
fn decode_accepts_compiled_shape() {
    let bytes = fib_class();
    let cf = jvm::classfile::parse_class_file(&bytes).expect("decode");
    assert_eq!(cf.methods.len(), 1);
    assert_eq!(cf.fields.len(), 0);
    assert_eq!(cf.major_version, 52);
    assert_eq!(cf.cp.len(), 8);
}

#[test]
fn fibonacci_of_ten() {
    let mut vm = init();
    let bytes = fib_class();
    let cid = link(&mut vm, &bytes);
    let r = execute_method(&mut vm, &mut NoHost, cid, 0, vec![Oop::Int(10)], 64, 1_000_000);
    assert_eq!(r, Ok(Some(Oop::Int(55))));
}

#[test]
fn idempotent_linking() {
    let mut vm = init();
    let bytes = fib_class();
    let cf = jvm::classfile::parse_class_file(&bytes).expect("decode");
    let c1 = require_class(&mut vm, &cf).expect("link");
    let n_classes = vm.classes.count();
    let c2 = require_class(&mut vm, &cf).expect("link again");
    assert_eq!(c1, c2);
    assert_eq!(vm.classes.count(), n_classes);
}

#[test]
fn uncaught_arithmetic_exception() {
    let mut vm = init();
    let cp = [
        cp_utf8("D"),     // 1
        cp_class(1),      // 2
        cp_utf8("d"),     // 3
        cp_utf8("(II)I"), // 4
        cp_utf8("Code"),  // 5
    ];
    // iload_0; iload_1; idiv; ireturn
    let m = method_info(0x0008, 3, 4, 5, 2, 2, &[0x1a, 0x1b, 0x6c, 0xac]);
    let bytes = assemble(&cp, 2, 0, &[], &[m]);
    let cid = link(&mut vm, &bytes);
    let r = execute_method(&mut vm, &mut NoHost, cid, 0, vec![Oop::Int(1), Oop::Int(0)], 8, 1000);
    assert_eq!(r, Err(ExKind::Arithmetic));
    let ok = execute_method(&mut vm, &mut NoHost, cid, 0, vec![Oop::Int(7), Oop::Int(2)], 8, 1000);
    assert_eq!(ok, Ok(Some(Oop::Int(3))));
}

#[test]
fn uncaught_array_out_of_bounds() {
    let mut vm = init();
    let cp = [
        cp_utf8("Oob"),  // 1
        cp_class(1),     // 2
        cp_utf8("run"),  // 3
        cp_utf8("()V"),  // 4
        cp_utf8("Code"), // 5
    ];
    // int[] a = new int[3]; a[3] = 0;
    let code: &[u8] = &[
        0x06, // iconst_3
        0xbc, 0x0a, // newarray int
        0x4b, // astore_0
        0x2a, // aload_0
        0x06, // iconst_3
        0x03, // iconst_0
        0x4f, // iastore
        0xb1, // return
    ];
    let m = method_info(0x0008, 3, 4, 5, 3, 1, code);
    let bytes = assemble(&cp, 2, 0, &[], &[m]);
    let cid = link(&mut vm, &bytes);
    let r = execute_method(&mut vm, &mut NoHost, cid, 0, vec![], 8, 1000);
    assert_eq!(r, Err(ExKind::ArrayIndexOutOfBounds));
}

fn a_class() -> Vec<u8> {
    let cp = [
        cp_utf8("A"),    // 1
        cp_class(1),     // 2
        cp_utf8("f"),    // 3
        cp_utf8("()I"),  // 4
        cp_utf8("Code"), // 5
    ];
    let m = method_info(0x0001, 3, 4, 5, 1, 1, &[0x04, 0xac]); // return 1
    assemble(&cp, 2, 0, &[], &[m])
}

fn b_class() -> Vec<u8> {
    let cp = [
        cp_utf8("B"),       // 1
        cp_class(1),        // 2
        cp_utf8("A"),       // 3
        cp_class(3),        // 4
        cp_utf8("f"),       // 5
        cp_utf8("()I"),     // 6
        cp_nat(5, 6),       // 7
        cp_methodref(4, 7), // 8
        cp_utf8("Code"),    // 9
        cp_utf8("virt"),    // 10
        cp_utf8("(LA;)I"),  // 11
    ];
    let f = method_info(0x0001, 5, 6, 9, 1, 1, &[0x05, 0xac]); // return 2
    // aload_0; invokevirtual A.f; ireturn
    let virt = method_info(0x0008, 10, 11, 9, 2, 1, &[0x2a, 0xb6, 0x00, 0x08, 0xac]);
    assemble(&cp, 2, 4, &[], &[f, virt])
}

#[test]
fn polymorphic_dispatch() {
    let mut vm = init();
    let a = link(&mut vm, &a_class());
    let b = link(&mut vm, &b_class());
    let a_inst = jvm::interp::new_instance(&mut vm, a).expect("new A");
    let b_inst = jvm::interp::new_instance(&mut vm, b).expect("new B");
    // B.virt dispatches on the receiver's concrete class
    let r = execute_method(&mut vm, &mut NoHost, b, 1, vec![Oop::Ref(b_inst)], 8, 1000);
    assert_eq!(r, Ok(Some(Oop::Int(2))));
    let r2 = execute_method(&mut vm, &mut NoHost, b, 1, vec![Oop::Ref(a_inst)], 8, 1000);
    assert_eq!(r2, Ok(Some(Oop::Int(1))));
    let npe = execute_method(&mut vm, &mut NoHost, b, 1, vec![Oop::Null], 8, 1000);
    assert_eq!(npe, Err(ExKind::NullPointer));
}

fn layout_parent() -> Vec<u8> {
    let cp = [
        cp_utf8("P"),                  // 1
        cp_class(1),                   // 2
        cp_utf8("a"),                  // 3
        cp_utf8("I"),                  // 4
        cp_utf8("b"),                  // 5
        cp_utf8("J"),                  // 6
        cp_utf8("c"),                  // 7
        cp_utf8("Ljava/lang/Object;"), // 8
    ];
    let fields = [field_info(0, 3, 4), field_info(0, 5, 6), field_info(0, 7, 8)];
    assemble(&cp, 2, 0, &fields, &[])
}

fn layout_child() -> Vec<u8> {
    let cp = [
        cp_utf8("Q"), // 1
        cp_class(1),  // 2
        cp_utf8("P"), // 3
        cp_class(3),  // 4
        cp_utf8("d"), // 5
        cp_utf8("I"), // 6
    ];
    let fields = [field_info(0, 5, 6)];
    assemble(&cp, 2, 4, &fields, &[])
}

#[test]
fn field_offset_stability() {
    let mut vm = init();
    let p = link(&mut vm, &layout_parent());
    let q = link(&mut vm, &layout_child());
    let pd = &vm.classes.classes[p];
    assert_eq!(pd.inst_fields.len(), 3);
    for (i, f) in pd.inst_fields.iter().enumerate() {
        assert_eq!(f.offset, i);
    }
    assert_eq!(pd.inst_fields[0].field.name, b"a".to_vec());
    assert_eq!(pd.inst_fields[1].field.name, b"b".to_vec());
    assert_eq!(pd.inst_fields[2].field.name, b"c".to_vec());
    let qd = &vm.classes.classes[q];
    assert_eq!(qd.inst_fields.len(), 4);
    for (i, f) in qd.inst_fields.iter().enumerate() {
        assert_eq!(f.offset, i);
    }
    assert_eq!(qd.inst_fields[3].field.name, b"d".to_vec());
}

#[test]
fn initialization_order_root_first() {
    let mut vm = init();
    let a = link(&mut vm, &a_class());
    let b = link(&mut vm, &b_class());
    // C extends B
    let cp = [
        cp_utf8("C"), // 1
        cp_class(1),  // 2
        cp_utf8("B"), // 3
        cp_class(3),  // 4
    ];
    let c = link(&mut vm, &assemble(&cp, 2, 4, &[], &[]));
    let chain = initialization_chain(&mut vm.classes, c);
    assert_eq!(chain, vec![a, b, c]);
    for &x in &chain {
        assert_eq!(vm.classes.classes[x].init_state, InitState::Initializing);
        vm.classes.mark_initialized(x);
    }
    let again = initialization_chain(&mut vm.classes, c);
    assert_eq!(again, Vec::<usize>::new());
}

#[test]
fn static_fields_and_constants() {
    let mut vm = init();
    let cp = [
        cp_utf8("K"),             // 1
        cp_class(1),              // 2
        cp_utf8("KV"),            // 3
        cp_utf8("I"),             // 4
        cp_utf8("ConstantValue"), // 5
        cp_integer(42),           // 6
        cp_nat(3, 4),             // 7
        cp_fieldref(2, 7),        // 8
        cp_utf8("get"),           // 9
        cp_utf8("()I"),           // 10
        cp_utf8("Code"),          // 11
        cp_utf8("set7"),          // 12
        cp_utf8("()V"),           // 13
    ];
    let fields = [field_info_const(0x0018, 3, 4, 5, 6)];
    let get = method_info(0x0008, 9, 10, 11, 1, 0, &[0xb2, 0x00, 0x08, 0xac]);
    let set7 = method_info(0x0008, 12, 13, 11, 1, 0, &[0x10, 0x07, 0xb3, 0x00, 0x08, 0xb1]);
    let bytes = assemble(&cp, 2, 0, &fields, &[get, set7]);
    let cid = link(&mut vm, &bytes);
    let r = execute_method(&mut vm, &mut NoHost, cid, 0, vec![], 8, 1000);
    assert_eq!(r, Ok(Some(Oop::Int(42))));
    let w = execute_method(&mut vm, &mut NoHost, cid, 1, vec![], 8, 1000);
    assert_eq!(w, Ok(None));
    let r2 = execute_method(&mut vm, &mut NoHost, cid, 0, vec![], 8, 1000);
    assert_eq!(r2, Ok(Some(Oop::Int(7))));
}

#[test]
fn instance_fields_through_opcodes() {
    let mut vm = init();
    let cp = [
        cp_utf8("N"),       // 1
        cp_class(1),        // 2
        cp_utf8("x"),       // 3
        cp_utf8("I"),       // 4
        cp_nat(3, 4),       // 5
        cp_fieldref(2, 5),  // 6
        cp_utf8("g"),       // 7
        cp_utf8("(LN;)I"),  // 8
        cp_utf8("Code"),    // 9
        cp_utf8("s"),       // 10
        cp_utf8("(LN;I)V"), // 11
    ];
    let fields = [field_info(0, 3, 4)];
    // g: aload_0; getfield x; ireturn
    let g = method_info(0x0008, 7, 8, 9, 2, 1, &[0x2a, 0xb4, 0x00, 0x06, 0xac]);
    // s: aload_0; iload_1; putfield x; return
    let s = method_info(0x0008, 10, 11, 9, 2, 2, &[0x2a, 0x1b, 0xb5, 0x00, 0x06, 0xb1]);
    let bytes = assemble(&cp, 2, 0, &fields, &[g, s]);
    let cid = link(&mut vm, &bytes);
    let h = jvm::interp::new_instance(&mut vm, cid).expect("new N");
    let fresh = execute_method(&mut vm, &mut NoHost, cid, 0, vec![Oop::Ref(h)], 8, 1000);
    assert_eq!(fresh, Ok(Some(Oop::Int(0))));
    let w = execute_method(&mut vm, &mut NoHost, cid, 1, vec![Oop::Ref(h), Oop::Int(99)], 8, 1000);
    assert_eq!(w, Ok(None));
    let r = execute_method(&mut vm, &mut NoHost, cid, 0, vec![Oop::Ref(h)], 8, 1000);
    assert_eq!(r, Ok(Some(Oop::Int(99))));
    let npe = execute_method(&mut vm, &mut NoHost, cid, 0, vec![Oop::Null], 8, 1000);
    assert_eq!(npe, Err(ExKind::NullPointer));
}

#[test]
fn deep_recursion_overflows() {
    let mut vm = init();
    // loop: fib without the base case would recurse forever; a tiny frame
    // budget must surface a stack overflow instead
    let cid = link(&mut vm, &fib_class());
    let r = execute_method(&mut vm, &mut NoHost, cid, 0, vec![Oop::Int(30)], 4, 1_000_000);
    assert_eq!(r, Err(ExKind::StackOverflow));
}

#[test]
fn field_identity_and_flags() {
    let mut vm = init();
    let p = link(&mut vm, &layout_parent());
    let f = &vm.classes.classes[p].inst_fields[0].field;
    assert_eq!(f.get_id(), b"P:I:a".to_vec());
    assert!(!f.is_static());
    assert!(!f.is_public());
    assert_eq!(f.get_constant_value(), Oop::Int(0));
    assert_eq!(f.get_attr_constant_value().is_none(), true);
    assert_eq!(f.value_type, jvm::field::ValueType::Int);
}

#[test]
fn dup_duplicates_the_top_slot() {
    let mut vm = init();
    let cp = [
        cp_utf8("Dup"),  // 1
        cp_class(1),     // 2
        cp_utf8("t"),    // 3
        cp_utf8("()I"),  // 4
        cp_utf8("Code"), // 5
    ];
    // iconst_2; dup; iadd; ireturn
    let m = method_info(0x0008, 3, 4, 5, 2, 0, &[0x05, 0x59, 0x60, 0xac]);
    let cid = link(&mut vm, &assemble(&cp, 2, 0, &[], &[m]));
    let r = execute_method(&mut vm, &mut NoHost, cid, 0, vec![], 8, 1000);
    assert_eq!(r, Ok(Some(Oop::Int(4))));
}

#[test]
fn branches_and_loops() {
    let mut vm = init();
    let cp = [
        cp_utf8("Sum"),  // 1
        cp_class(1),     // 2
        cp_utf8("upto"), // 3
        cp_utf8("(I)I"), // 4
        cp_utf8("Code"), // 5
    ];
    // int s = 0; for (int i = 0; i < n; i++) s += i; return s;
    let code: &[u8] = &[
        0x03, // iconst_0
        0x3c, // istore_1  (s)
        0x03, // iconst_0
        0x3d, // istore_2  (i)
        0x1c, // loop: iload_2
        0x1a, // iload_0
        0xa2, 0x00, 0x0d, // if_icmpge +13 -> end
        0x1b, // iload_1
        0x1c, // iload_2
        0x60, // iadd
        0x3c, // istore_1
        0x84, 0x02, 0x01, // iinc i, 1
        0xa7, 0xff, 0xf4, // goto -12 -> loop
        0x1b, // end: iload_1
        0xac, // ireturn
    ];
    let m = method_info(0x0008, 3, 4, 5, 2, 3, code);
    let cid = link(&mut vm, &assemble(&cp, 2, 0, &[], &[m]));
    let r = execute_method(&mut vm, &mut NoHost, cid, 0, vec![Oop::Int(10)], 8, 10_000);
    assert_eq!(r, Ok(Some(Oop::Int(45))));
}

#[test]
fn handler_table_walk() {
    let cp = vec![
        jvm::classfile::ConstantType::Phantom,
        jvm::classfile::ConstantType::Utf8 { bytes: b"java/lang/ArithmeticException".to_vec() },
        jvm::classfile::ConstantType::Class { name_index: 1 },
    ];
    let entries = vec![
        jvm::classfile::ExceptionEntry { start_pc: 0, end_pc: 4, handler_pc: 20, catch_type: 2 },
        jvm::classfile::ExceptionEntry { start_pc: 0, end_pc: 30, handler_pc: 40, catch_type: 0 },
    ];
    let arith = b"java/lang/ArithmeticException".to_vec();
    let npe = b"java/lang/NullPointerException".to_vec();
    let ca = jvm::class::ClassArea::new();
    let dic = jvm::sys_dic::SysDic::new();
    // inside the first range with the named class: the first entry wins
    assert_eq!(jvm::interp::find_handler(&cp, &ca, &dic, &entries, 2, &arith), Some(20));
    // a different class falls through to the catch-all entry
    assert_eq!(jvm::interp::find_handler(&cp, &ca, &dic, &entries, 2, &npe), Some(40));
    // outside the first range only the catch-all covers
    assert_eq!(jvm::interp::find_handler(&cp, &ca, &dic, &entries, 10, &arith), Some(40));
    // outside every range nothing handles
    assert_eq!(jvm::interp::find_handler(&cp, &ca, &dic, &entries, 30, &arith), None);
    assert_eq!(jvm::interp::exception_class_name(jvm::errors::ExKind::Arithmetic),
        "java/lang/ArithmeticException");
}

/// A method_info with one Code attribute carrying an exception table.
fn method_info_ex(
    acc: u16,
    name_index: u16,
    desc_index: u16,
    code_name: u16,
    max_stack: u16,
    max_locals: u16,
    code: &[u8],
    handlers: &[(u16, u16, u16, u16)],
) -> Vec<u8> {
    let mut e = Vec::new();
    u16be(&mut e, acc);
    u16be(&mut e, name_index);
    u16be(&mut e, desc_index);
    u16be(&mut e, 1);
    u16be(&mut e, code_name);
    u32be(&mut e, (2 + 2 + 4 + code.len() + 2 + handlers.len() * 8 + 2) as u32);
    u16be(&mut e, max_stack);
    u16be(&mut e, max_locals);
    u32be(&mut e, code.len() as u32);
    e.extend_from_slice(code);
    u16be(&mut e, handlers.len() as u16);
    for &(s, en, h, c) in handlers {
        u16be(&mut e, s);
        u16be(&mut e, en);
        u16be(&mut e, h);
        u16be(&mut e, c);
    }
    u16be(&mut e, 0);
    e
}

#[test]
fn caught_arithmetic_exception() {
    let mut vm = init();
    let cp = [
        cp_utf8("T"),                                 // 1
        cp_class(1),                                  // 2
        cp_utf8("boom"),                              // 3
        cp_utf8("()I"),                               // 4
        cp_nat(3, 4),                                 // 5
        cp_methodref(2, 5),                           // 6
        cp_utf8("Code"),                              // 7
        cp_utf8("safe"),                              // 8
        cp_utf8("java/lang/ArithmeticException"),     // 9
        cp_class(9),                                  // 10
    ];
    // boom: 1 / 0
    let boom = method_info(0x0008, 3, 4, 7, 2, 0, &[0x04, 0x03, 0x6c, 0xac]);
    // safe: try { return boom(); } catch (ArithmeticException e) { return -1; }
    let safe_code: &[u8] = &[
        0xb8, 0x00, 0x06, // 0: invokestatic boom
        0xac, // 3: ireturn
        0x57, // 4: handler: pop the exception reference
        0x02, // 5: iconst_m1
        0xac, // 6: ireturn
    ];
    let safe = method_info_ex(0x0008, 8, 4, 7, 2, 0, safe_code, &[(0, 4, 4, 10)]);
    let bytes = assemble(&cp, 2, 0, &[], &[boom, safe]);
    let cid = link(&mut vm, &bytes);
    // uncaught in boom itself
    let direct = execute_method(&mut vm, &mut NoHost, cid, 0, vec![], 8, 1000);
    assert_eq!(direct, Err(ExKind::Arithmetic));
    // caught one frame up
    let caught = execute_method(&mut vm, &mut NoHost, cid, 1, vec![], 8, 1000);
    assert_eq!(caught, Ok(Some(Oop::Int(-1))));
}

fn cp_string(string_index: u16) -> Vec<u8> {
    let mut e = vec![8u8];
    u16be(&mut e, string_index);
    e
}

#[test]
fn monitor_opcodes_reenter_and_release() {
    let mut vm = init();
    let cp = [
        cp_utf8("Mon"),                   // 1
        cp_class(1),                      // 2
        cp_utf8("sync"),                  // 3
        cp_utf8("(Ljava/lang/Object;)I"), // 4
        cp_utf8("Code"),                  // 5
        cp_utf8("bad"),                   // 6
        cp_utf8("npe"),                   // 7
    ];
    // enter twice, exit twice, return 3
    let sync = method_info(
        0x0008,
        3,
        4,
        5,
        1,
        1,
        &[0x2a, 0xc2, 0x2a, 0xc2, 0x2a, 0xc3, 0x2a, 0xc3, 0x06, 0xac],
    );
    // exit without holding
    let bad = method_info(0x0008, 6, 4, 5, 1, 1, &[0x2a, 0xc3, 0x03, 0xac]);
    // enter on null
    let npe = method_info(0x0008, 7, 4, 5, 2, 1, &[0x01, 0xc2, 0x03, 0xac]);
    let bytes = assemble(&cp, 2, 0, &[], &[sync, bad, npe]);
    let cid = link(&mut vm, &bytes);
    let obj = jvm::interp::new_instance(&mut vm, cid).expect("alloc");
    assert_eq!(
        execute_method(&mut vm, &mut NoHost, cid, 0, vec![Oop::Ref(obj)], 8, 1000),
        Ok(Some(Oop::Int(3)))
    );
    // the monitor is fully released: a later enter succeeds again
    assert_eq!(
        execute_method(&mut vm, &mut NoHost, cid, 0, vec![Oop::Ref(obj)], 8, 1000),
        Ok(Some(Oop::Int(3)))
    );
    assert_eq!(
        execute_method(&mut vm, &mut NoHost, cid, 1, vec![Oop::Ref(obj)], 8, 1000),
        Err(ExKind::IllegalMonitorState)
    );
    assert_eq!(
        execute_method(&mut vm, &mut NoHost, cid, 2, vec![Oop::Ref(obj)], 8, 1000),
        Err(ExKind::NullPointer)
    );
}

fn string_class() -> Vec<u8> {
    let cp = [
        cp_utf8("java/lang/String"), // 1
        cp_class(1),                 // 2
        cp_utf8("value"),            // 3
        cp_utf8("[C"),               // 4
    ];
    let value = field_info(0x0002, 3, 4);
    assemble(&cp, 2, 0, &[value], &[])
}

#[test]
fn string_literals_intern_to_one_handle() {
    let mut vm = init();
    let sbytes = string_class();
    link(&mut vm, &sbytes);
    let cp = [
        cp_utf8("Lit"),                  // 1
        cp_class(1),                     // 2
        cp_utf8("s1"),                   // 3
        cp_utf8("()Ljava/lang/String;"), // 4
        cp_utf8("Code"),                 // 5
        cp_utf8("Hi"),                   // 6
        cp_string(6),                    // 7
        cp_utf8("Hi"),                   // 8
        cp_string(8),                    // 9
        cp_utf8("s2"),                   // 10
        cp_utf8("Yo"),                   // 11
        cp_string(11),                   // 12
        cp_utf8("s3"),                   // 13
        cp_utf8("cmp"),                  // 14
        cp_utf8("()I"),                  // 15
        cp_utf8("neq"),                  // 16
    ];
    let s1 = method_info(0x0008, 3, 4, 5, 1, 0, &[0x12, 7, 0xb0]);
    let s2 = method_info(0x0008, 10, 4, 5, 1, 0, &[0x12, 9, 0xb0]);
    let s3 = method_info(0x0008, 13, 4, 5, 1, 0, &[0x12, 12, 0xb0]);
    // equal literals branch through if_acmpeq: 1 when taken
    let cmp = method_info(
        0x0008,
        14,
        15,
        5,
        2,
        0,
        &[0x12, 7, 0x12, 9, 0xa5, 0, 5, 0x03, 0xac, 0x04, 0xac],
    );
    // different literals branch through if_acmpne
    let neq = method_info(
        0x0008,
        16,
        15,
        5,
        2,
        0,
        &[0x12, 7, 0x12, 12, 0xa6, 0, 5, 0x03, 0xac, 0x04, 0xac],
    );
    let bytes = assemble(&cp, 2, 0, &[], &[s1, s2, s3, cmp, neq]);
    let cid = link(&mut vm, &bytes);
    let a = execute_method(&mut vm, &mut NoHost, cid, 0, vec![], 8, 1000).expect("s1");
    let b = execute_method(&mut vm, &mut NoHost, cid, 1, vec![], 8, 1000).expect("s2");
    let c = execute_method(&mut vm, &mut NoHost, cid, 2, vec![], 8, 1000).expect("s3");
    // equal contents resolve to the same object, different contents do not
    assert_eq!(a, b);
    match (a, c) {
        (Some(Oop::Ref(ha)), Some(Oop::Ref(hc))) => assert_ne!(ha, hc),
        _ => panic!("string literals should answer references"),
    }
    // the interned object holds the characters
    if let Some(Oop::Ref(h)) = a {
        assert_eq!(jvm::oop_util::extract_str(&vm.heap, &Oop::Ref(h), 0), "Hi");
    }
    assert_eq!(execute_method(&mut vm, &mut NoHost, cid, 3, vec![], 8, 1000), Ok(Some(Oop::Int(1))));
    assert_eq!(execute_method(&mut vm, &mut NoHost, cid, 4, vec![], 8, 1000), Ok(Some(Oop::Int(1))));
}

/// A method_info without attributes, as a native method is declared.
fn native_method_info(acc: u16, name_index: u16, desc_index: u16) -> Vec<u8> {
    let mut e = Vec::new();
    u16be(&mut e, acc);
    u16be(&mut e, name_index);
    u16be(&mut e, desc_index);
    u16be(&mut e, 0);
    e
}

fn cp_long(v: i64) -> Vec<u8> {
    let mut e = vec![5u8];
    u32be(&mut e, ((v as u64) >> 32) as u32);
    u32be(&mut e, (v as u64) as u32);
    e
}

fn base_class() -> Vec<u8> {
    let cp = [cp_utf8("Base"), cp_class(1)];
    assemble(&cp, 2, 0, &[], &[])
}

fn sub_class() -> Vec<u8> {
    let cp = [cp_utf8("Sub"), cp_class(1), cp_utf8("Base"), cp_class(3)];
    assemble(&cp, 2, 4, &[], &[])
}

#[test]
fn athrow_caught_by_supertype() {
    let mut vm = init();
    let base = link(&mut vm, &base_class());
    let sub = link(&mut vm, &sub_class());
    assert!(base < sub);
    let cp = [
        cp_utf8("T"),                     // 1
        cp_class(1),                      // 2
        cp_utf8("Sub"),                   // 3
        cp_class(3),                      // 4
        cp_utf8("Base"),                  // 5
        cp_class(5),                      // 6
        cp_utf8("m"),                     // 7
        cp_utf8("()Ljava/lang/Object;"),  // 8
        cp_utf8("Code"),                  // 9
        cp_utf8("Other"),                 // 10
        cp_class(10),                     // 11
    ];
    // new Sub; athrow; handler returns the caught object
    let code: &[u8] = &[
        0xbb, 0x00, 0x04, // 0: new Sub
        0xbf, // 3: athrow
        0xb0, // 4: handler: areturn the exception object
    ];
    // caught: the handler's type Base is a supertype of the thrown Sub
    let m_caught = method_info_ex(0x0008, 7, 8, 9, 2, 0, code, &[(0, 4, 4, 6)]);
    // not caught: the handler names an unrelated class
    let m_missed = method_info_ex(0x0008, 7, 8, 9, 2, 0, code, &[(0, 4, 4, 11)]);
    let bytes = assemble(&cp, 2, 0, &[], &[m_caught, m_missed]);
    let cid = link(&mut vm, &bytes);
    let r = execute_method(&mut vm, &mut NoHost, cid, 0, vec![], 8, 1000);
    match r {
        Ok(Some(Oop::Ref(h))) => match &vm.heap.get(h).v {
            jvm::oop::RefKind::Inst(inst) => assert_eq!(inst.class, sub),
            _ => panic!("expected the thrown instance"),
        },
        other => panic!("expected the caught object, got {:?}", other),
    }
    let miss = execute_method(&mut vm, &mut NoHost, cid, 1, vec![], 8, 1000);
    assert_eq!(miss, Err(ExKind::Thrown));
    assert!(vm.thrown.is_some());
}

#[test]
fn lazy_initialization_on_first_use() {
    let mut vm = init();
    // S has a static x and a <clinit> that stores 7 into it
    let s_cp = [
        cp_utf8("S"),        // 1
        cp_class(1),         // 2
        cp_utf8("x"),        // 3
        cp_utf8("I"),        // 4
        cp_nat(3, 4),        // 5
        cp_fieldref(2, 5),   // 6
        cp_utf8("<clinit>"), // 7
        cp_utf8("()V"),      // 8
        cp_utf8("Code"),     // 9
    ];
    let clinit = method_info(0x0008, 7, 8, 9, 1, 0, &[0x10, 7, 0xb3, 0x00, 0x06, 0xb1]);
    let s_bytes = assemble(&s_cp, 2, 0, &[field_info(0x0008, 3, 4)], &[clinit]);
    let s_cid = link(&mut vm, &s_bytes);
    // M reads S.x; the first use must run S's initializer
    let m_cp = [
        cp_utf8("M"),      // 1
        cp_class(1),       // 2
        cp_utf8("S"),      // 3
        cp_class(3),       // 4
        cp_utf8("x"),      // 5
        cp_utf8("I"),      // 6
        cp_nat(5, 6),      // 7
        cp_fieldref(4, 7), // 8
        cp_utf8("get"),    // 9
        cp_utf8("()I"),    // 10
        cp_utf8("Code"),   // 11
    ];
    let get = method_info(0x0008, 9, 10, 11, 1, 0, &[0xb2, 0x00, 0x08, 0xac]);
    let m_bytes = assemble(&m_cp, 2, 0, &[], &[get]);
    let m_cid = link(&mut vm, &m_bytes);
    assert_eq!(vm.classes.get(s_cid).init_state, InitState::Linked);
    let r = execute_method(&mut vm, &mut NoHost, m_cid, 0, vec![], 8, 1000);
    assert_eq!(r, Ok(Some(Oop::Int(7))));
    assert_eq!(vm.classes.get(s_cid).init_state, InitState::Initialized);
}

#[test]
fn long_opcodes_through_bytecode() {
    let mut vm = init();
    let cp = [
        cp_utf8("L"),            // 1
        cp_class(1),             // 2
        cp_utf8("sum"),          // 3
        cp_utf8("()J"),          // 4
        cp_utf8("Code"),         // 5
        cp_long(5_000_000_000),  // 6 (and 7: the phantom slot)
        vec![],                  // 7
        cp_long(-1),             // 8 (and 9)
        vec![],                  // 9
        cp_utf8("cmp"),          // 10
        cp_utf8("()I"),          // 11
    ];
    // ldc2_w both, ladd, lreturn
    let sum = method_info(0x0008, 3, 4, 5, 2, 0, &[0x14, 0, 6, 0x14, 0, 8, 0x61, 0xad]);
    // lcmp of the two
    let cmp = method_info(0x0008, 10, 11, 5, 2, 0, &[0x14, 0, 6, 0x14, 0, 8, 0x94, 0xac]);
    // l2i of the first constant
    let low = method_info(0x0008, 10, 11, 5, 1, 0, &[0x14, 0, 6, 0x88, 0xac]);
    let bytes = assemble(&cp, 2, 0, &[], &[sum, cmp, low]);
    let cid = link(&mut vm, &bytes);
    assert_eq!(
        execute_method(&mut vm, &mut NoHost, cid, 0, vec![], 8, 1000),
        Ok(Some(Oop::Long(4_999_999_999)))
    );
    assert_eq!(execute_method(&mut vm, &mut NoHost, cid, 1, vec![], 8, 1000), Ok(Some(Oop::Int(1))));
    assert_eq!(
        execute_method(&mut vm, &mut NoHost, cid, 2, vec![], 8, 1000),
        Ok(Some(Oop::Int(705_032_704)))
    );
}

#[test]
fn instanceof_and_checkcast() {
    let mut vm = init();
    let base = link(&mut vm, &base_class());
    let sub = link(&mut vm, &sub_class());
    let cp = [
        cp_utf8("C"),                                       // 1
        cp_class(1),                                        // 2
        cp_utf8("Base"),                                    // 3
        cp_class(3),                                        // 4
        cp_utf8("Sub"),                                     // 5
        cp_class(5),                                        // 6
        cp_utf8("isb"),                                     // 7
        cp_utf8("(Ljava/lang/Object;)I"),                   // 8
        cp_utf8("Code"),                                    // 9
        cp_utf8("casts"),                                   // 10
        cp_utf8("(Ljava/lang/Object;)Ljava/lang/Object;"),  // 11
    ];
    // instanceof Base
    let isb = method_info(0x0008, 7, 8, 9, 1, 1, &[0x2a, 0xc1, 0x00, 0x04, 0xac]);
    // checkcast Sub
    let casts = method_info(0x0008, 10, 11, 9, 1, 1, &[0x2a, 0xc0, 0x00, 0x06, 0xb0]);
    let bytes = assemble(&cp, 2, 0, &[], &[isb, casts]);
    let cid = link(&mut vm, &bytes);
    let b_inst = jvm::interp::new_instance(&mut vm, base).expect("alloc");
    let s_inst = jvm::interp::new_instance(&mut vm, sub).expect("alloc");
    // a Sub instance is a Base; a Base instance is not a Sub
    assert_eq!(
        execute_method(&mut vm, &mut NoHost, cid, 0, vec![Oop::Ref(s_inst)], 8, 1000),
        Ok(Some(Oop::Int(1)))
    );
    assert_eq!(
        execute_method(&mut vm, &mut NoHost, cid, 0, vec![Oop::Null], 8, 1000),
        Ok(Some(Oop::Int(0)))
    );
    assert_eq!(
        execute_method(&mut vm, &mut NoHost, cid, 1, vec![Oop::Ref(s_inst)], 8, 1000),
        Ok(Some(Oop::Ref(s_inst)))
    );
    assert_eq!(
        execute_method(&mut vm, &mut NoHost, cid, 1, vec![Oop::Ref(b_inst)], 8, 1000),
        Err(ExKind::ClassCast)
    );
}

#[test]
fn tableswitch_selects_cases() {
    let mut vm = init();
    let cp = [
        cp_utf8("Sw"),   // 1
        cp_class(1),     // 2
        cp_utf8("f"),    // 3
        cp_utf8("(I)I"), // 4
        cp_utf8("Code"), // 5
    ];
    let code: &[u8] = &[
        0x1a, // 0: iload_0
        0xaa, 0, 0, // 1: tableswitch, two pad bytes
        0, 0, 0, 23, // default -> 24
        0, 0, 0, 1, // low
        0, 0, 0, 2, // high
        0, 0, 0, 25, // case 1 -> 26
        0, 0, 0, 28, // case 2 -> 29
        0x03, 0xac, // 24: return 0
        0x10, 11, 0xac, // 26: return 11
        0x10, 22, 0xac, // 29: return 22
    ];
    let m = method_info(0x0008, 3, 4, 5, 1, 1, code);
    let bytes = assemble(&cp, 2, 0, &[], &[m]);
    let cid = link(&mut vm, &bytes);
    assert_eq!(
        execute_method(&mut vm, &mut NoHost, cid, 0, vec![Oop::Int(1)], 8, 1000),
        Ok(Some(Oop::Int(11)))
    );
    assert_eq!(
        execute_method(&mut vm, &mut NoHost, cid, 0, vec![Oop::Int(2)], 8, 1000),
        Ok(Some(Oop::Int(22)))
    );
    assert_eq!(
        execute_method(&mut vm, &mut NoHost, cid, 0, vec![Oop::Int(9)], 8, 1000),
        Ok(Some(Oop::Int(0)))
    );
}

/// A host with one in-memory file of three bytes, for the stream natives.
struct OneFileHost {
    pos: usize,
}

impl HostPort for OneFileHost {
    fn perform(&mut self, req: HostRequest) -> HostReply {
        let data = [0x41u8, 0x42, 0x43];
        match req {
            HostRequest::Open(_) => {
                self.pos = 0;
                HostReply::Fd(7)
            }
            HostRequest::Read(fd, len) => {
                if fd != 7 || len < 0 {
                    return HostReply::Data(Vec::new(), -1);
                }
                let want = (len as usize).min(data.len() - self.pos);
                let out = data[self.pos..self.pos + want].to_vec();
                self.pos += want;
                HostReply::Data(out, want as i64)
            }
            HostRequest::Avail(fd) => {
                if fd != 7 {
                    return HostReply::AvailInfo(false, None, None, None);
                }
                HostReply::AvailInfo(false, None, Some(self.pos as i64), Some(data.len() as i64))
            }
            HostRequest::Close(_) => HostReply::Done,
        }
    }
}

#[test]
fn file_read_through_natives() {
    let mut vm = init();
    // the string class carries path literals
    link(&mut vm, &string_class());
    let fd_cp = [cp_utf8("java/io/FileDescriptor"), cp_class(1), cp_utf8("fd"), cp_utf8("I")];
    let fd_cid = link(&mut vm, &assemble(&fd_cp, 2, 0, &[field_info(0x0002, 3, 4)], &[]));
    let fis_cp = [
        cp_utf8("java/io/FileInputStream"),     // 1
        cp_class(1),                            // 2
        cp_utf8("fd"),                          // 3
        cp_utf8("Ljava/io/FileDescriptor;"),    // 4
        cp_utf8("open0"),                       // 5
        cp_utf8("(Ljava/lang/String;)V"),       // 6
        cp_utf8("readBytes"),                   // 7
        cp_utf8("([BII)I"),                     // 8
        cp_utf8("available0"),                  // 9
        cp_utf8("()I"),                         // 10
        cp_utf8("close0"),                      // 11
        cp_utf8("()V"),                         // 12
    ];
    let fis_cid = link(
        &mut vm,
        &assemble(
            &fis_cp,
            2,
            0,
            &[field_info(0x0002, 3, 4)],
            &[
                native_method_info(0x0102, 5, 6),
                native_method_info(0x0102, 7, 8),
                native_method_info(0x0102, 9, 10),
                native_method_info(0x0102, 11, 12),
            ],
        ),
    );
    // the object graph: a FileDescriptor inside a FileInputStream
    let fdo = jvm::interp::new_instance(&mut vm, fd_cid).expect("fd");
    let fis = vm.heap.new_cell(jvm::oop::OopDesc {
        v: jvm::oop::RefKind::Inst(jvm::oop::InstDesc {
            class: fis_cid,
            fields: vec![Oop::Ref(fdo)],
        }),
    });
    // the path string
    let path = jvm::oop_util::new_string_from_units(&mut vm.heap, vec![0x66], 0, 1, 0);
    let mut host = OneFileHost { pos: 0 };
    // open0 stores the host's descriptor
    let r = execute_method(
        &mut vm,
        &mut host,
        fis_cid,
        0,
        vec![Oop::Ref(fis), Oop::Ref(path)],
        8,
        1000,
    );
    assert_eq!(r, Ok(None));
    // three bytes are available
    let avail = execute_method(&mut vm, &mut host, fis_cid, 2, vec![Oop::Ref(fis)], 8, 1000);
    assert_eq!(avail, Ok(Some(Oop::Int(3))));
    // readBytes fills the array and answers the count
    let arr = vm.heap.new_cell(jvm::oop::OopDesc {
        v: jvm::oop::RefKind::TypeArray(jvm::oop::TypeArrayDesc::Byte(vec![0; 8])),
    });
    let n = execute_method(
        &mut vm,
        &mut host,
        fis_cid,
        1,
        vec![Oop::Ref(fis), Oop::Ref(arr), Oop::Int(0), Oop::Int(8)],
        8,
        1000,
    );
    assert_eq!(n, Ok(Some(Oop::Int(3))));
    match &vm.heap.get(arr).v {
        jvm::oop::RefKind::TypeArray(jvm::oop::TypeArrayDesc::Byte(a)) => {
            let s = String::from_utf8(a[0..3].iter().map(|b| *b as u8).collect()).unwrap();
            assert_eq!(s, "ABC");
        }
        _ => panic!("expected the byte array"),
    }
    // at the end of the stream a read answers minus one
    let done = execute_method(
        &mut vm,
        &mut host,
        fis_cid,
        1,
        vec![Oop::Ref(fis), Oop::Ref(arr), Oop::Int(0), Oop::Int(8)],
        8,
        1000,
    );
    assert_eq!(done, Ok(Some(Oop::Int(-1))));
    // close0
    let c = execute_method(&mut vm, &mut host, fis_cid, 3, vec![Oop::Ref(fis)], 8, 1000);
    assert_eq!(c, Ok(None));
}

#[test]
fn multianewarray_builds_nested_arrays() {
    let mut vm = init();
    let base = link(&mut vm, &base_class());
    let cp = [
        cp_utf8("M2"),                   // 1
        cp_class(1),                     // 2
        cp_utf8("[[LBase;"),             // 3
        cp_class(3),                     // 4
        cp_utf8("mk"),                   // 5
        cp_utf8("()Ljava/lang/Object;"), // 6
        cp_utf8("Code"),                 // 7
    ];
    let mk = method_info(0x0008, 5, 6, 7, 2, 0, &[0x05, 0x06, 0xc5, 0x00, 0x04, 0x02, 0xb0]);
    let bytes = assemble(&cp, 2, 0, &[], &[mk]);
    let cid = link(&mut vm, &bytes);
    let r = execute_method(&mut vm, &mut NoHost, cid, 0, vec![], 8, 1000);
    let outer = match r {
        Ok(Some(Oop::Ref(h))) => h,
        other => panic!("expected an array, got {:?}", other),
    };
    match &vm.heap.get(outer).v {
        jvm::oop::RefKind::ObjArray(ec, rows) => {
            assert_eq!(*ec, base);
            assert_eq!(rows.len(), 2);
            for row in rows {
                match row {
                    Oop::Ref(rh) => match &vm.heap.get(*rh).v {
                        jvm::oop::RefKind::ObjArray(ec2, cells) => {
                            assert_eq!(*ec2, base);
                            assert_eq!(cells.as_slice(), &[Oop::Null, Oop::Null, Oop::Null]);
                        }
                        _ => panic!("expected an inner array"),
                    },
                    _ => panic!("expected a row reference"),
                }
            }
        }
        _ => panic!("expected the outer array"),
    }
}

#[test]
fn failed_initializer_poisons_the_class() {
    let mut vm = init();
    // F's initializer divides by zero
    let f_cp = [
        cp_utf8("F"),        // 1
        cp_class(1),         // 2
        cp_utf8("x"),        // 3
        cp_utf8("I"),        // 4
        cp_nat(3, 4),        // 5
        cp_fieldref(2, 5),   // 6
        cp_utf8("<clinit>"), // 7
        cp_utf8("()V"),      // 8
        cp_utf8("Code"),     // 9
    ];
    let clinit = method_info(0x0008, 7, 8, 9, 2, 0, &[0x04, 0x03, 0x6c, 0xb3, 0x00, 0x06, 0xb1]);
    let f_bytes = assemble(&f_cp, 2, 0, &[field_info(0x0008, 3, 4)], &[clinit]);
    let f_cid = link(&mut vm, &f_bytes);
    // U reads F.x
    let u_cp = [
        cp_utf8("U"),      // 1
        cp_class(1),       // 2
        cp_utf8("F"),      // 3
        cp_class(3),       // 4
        cp_utf8("x"),      // 5
        cp_utf8("I"),      // 6
        cp_nat(5, 6),      // 7
        cp_fieldref(4, 7), // 8
        cp_utf8("get"),    // 9
        cp_utf8("()I"),    // 10
        cp_utf8("Code"),   // 11
    ];
    let get = method_info(0x0008, 9, 10, 11, 1, 0, &[0xb2, 0x00, 0x08, 0xac]);
    let u_cid = link(&mut vm, &assemble(&u_cp, 2, 0, &[], &[get]));
    let first = execute_method(&mut vm, &mut NoHost, u_cid, 0, vec![], 8, 1000);
    assert_eq!(first, Err(ExKind::ExceptionInInitializer));
    assert_eq!(vm.classes.get(f_cid).init_state, InitState::Failed);
    // every later use raises the initializer condition again
    let again = execute_method(&mut vm, &mut NoHost, u_cid, 0, vec![], 8, 1000);
    assert_eq!(again, Err(ExKind::ExceptionInInitializer));
}
