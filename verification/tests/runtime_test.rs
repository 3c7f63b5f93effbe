use mini_jvm::arith::{iadd, idiv, irem, ishl, ishr, isub, lshl, lshr};
use mini_jvm::blob::Blob;
use mini_jvm::bytecode::{
    ByteCodeInstruction, InstrAALoad, InstrAAStore, InstrALoad0, InstrANewArray, InstrDup,
    InstrGetStatic, InstrGoto, InstrIConst0, InstrIConst1, InstrIConst2, InstrIDiv, InstrILoad1,
    InstrILoad2, InstrIRem, InstrIStore1, InstrIStore2, InstrISub, InstrIfne, InstrInvokeSpecial,
    InstrInvokeStatic, InstrInvokeVirtual, InstrLdc, InstrNextAction, InstrReturn,
};
use mini_jvm::classes::Classes;
use mini_jvm::errors::{DecodeError, HostFunction, JvmError, LinkError, RuntimeError};
use mini_jvm::java_class::{BytecodeClass, JavaClass, StaticField};
use mini_jvm::jvm::{clone_values, Heap, Instance, StackFrame, Value, JVM};
use mini_jvm::native_java_classes::{
    format_text, register_native_classes, NativeArrayInstance, NativeArrayListClass,
    NativeArrayListInstance, NativeArraysClass, NativeBooleanInstance, NativeDoubleInstance,
    NativeEnumClass, NativeEnumInstance, NativeFloatInstance, NativeListInstance,
    NativeMathClass, NativeMethodHandlesClass, NativeMethodHandlesLookupClass,
    NativeNoSuchFieldErrorClass, NativeIntegerClass, NativeIntegerInstance, NativeListClass,
    NativeLongInstance, NativeObjectClass, NativeObjectInstance, NativePrintStreamClass,
    NativePrintStreamInstance, NativeStringClass, NativeStringInstance, NativeSystemClass,
};
use mini_jvm::text::{decimal_text, hash_text, parse_int, same_text};

fn machine() -> (StackFrame, JVM, Classes) {
    let mut classes = Classes::new();
    register_native_classes(&mut classes);
    (StackFrame::empty(), JVM::new(), classes)
}

fn text(s: &str) -> Value {
    Value::String(s.to_string())
}

fn runtime(e: RuntimeError) -> Result<InstrNextAction, JvmError> {
    Err(JvmError::Runtime(e))
}

// Blob

#[test]
fn blob_reads_big_endian() {
    let mut data = Blob::new(vec![0x12, 0x34, 0x56, 0x78, 0x9a, 0xbc, 0xde, 0x68, 0x69]);
    assert_eq!(data.get_offset(), 0);
    assert!(data.has_more_data());
    assert_eq!(data.get_u8(), Ok(0x12));
    assert_eq!(data.get_u16(), Ok(0x3456));
    assert_eq!(data.get_offset(), 3);
    assert_eq!(data.get_u32(), Ok(0x789abcde));
    assert_eq!(data.get_string(2), Ok("hi".to_string()));
    assert!(!data.has_more_data());
    assert_eq!(data.get_u8(), Err(DecodeError::Truncated));
    data.rewind();
    assert_eq!(data.get_offset(), 0);
    assert_eq!(data.get_u16size(), Ok(0x1234));
    assert_eq!(data.get_bytes(2), Ok(vec![0x56, 0x78]));
    assert_eq!(data.skip(4), Ok(()));
    assert_eq!(data.get_offset(), 8);
}

#[test]
fn blob_refuses_to_read_past_the_end() {
    let mut data = Blob::new(vec![1, 2, 3]);
    assert_eq!(data.get_u32(), Err(DecodeError::Truncated));
    assert_eq!(data.get_offset(), 0);
    assert_eq!(data.get_bytes(4), Err(DecodeError::Truncated));
    assert_eq!(data.skip(4), Err(DecodeError::Truncated));
    assert_eq!(data.get_string(4), Err(DecodeError::Truncated));
    assert_eq!(data.get_u8(), Ok(1));
    assert_eq!(data.get_u16(), Ok(0x0203));
    assert_eq!(data.get_u16(), Err(DecodeError::Truncated));
    let mut empty = Blob::new(Vec::new());
    assert!(!empty.has_more_data());
    assert_eq!(empty.get_bytes(0), Ok(Vec::new()));
}

#[test]
fn blob_checks_utf8() {
    let mut data = Blob::new(vec![0xc3, 0xa9, 0xff, 0xfe]);
    assert_eq!(data.get_string(2), Ok("é".to_string()));
    assert_eq!(data.get_string(2), Err(DecodeError::InvalidUtf8));
    assert_eq!(data.get_offset(), 4);
    let mut inner = Blob::new(vec![9, 8, 7, 6]);
    assert_eq!(inner.get_u8(), Ok(9));
    let mut part = inner.get_blob(2).unwrap();
    assert_eq!(part.get_offset(), 0);
    assert_eq!(part.get_u16(), Ok(0x0807));
    assert_eq!(inner.get_u8(), Ok(6));
}

// Frame

#[test]
fn pop_returns_what_was_pushed() {
    let mut sf = StackFrame::empty();
    sf.push_int(7);
    let depth = sf.depth();
    sf.push(text("v"));
    assert_eq!(sf.pop(), Ok(text("v")));
    assert_eq!(sf.depth(), depth);
    sf.push_long(1 << 40);
    assert_eq!(sf.pop_long(), Ok(1 << 40));
    sf.push_bool(true);
    assert_eq!(sf.pop_bool(), Ok(true));
    sf.push_string("s".to_string());
    assert_eq!(sf.pop_string(), Ok("s".to_string()));
    sf.push_array(3);
    assert_eq!(sf.pop_array(), Ok(3));
    assert_eq!(sf.pop_int(), Ok(7));
    assert_eq!(sf.pop(), Err(RuntimeError::StackUnderflow));
    assert_eq!(sf.pop_int(), Err(RuntimeError::StackUnderflow));
}

#[test]
fn typed_pops_check_the_kind() {
    let mut sf = StackFrame::empty();
    sf.push(text("x"));
    assert_eq!(sf.pop_int(), Err(RuntimeError::TypeMismatch));
    assert_eq!(sf.depth(), 0);
    sf.push_int(1);
    assert_eq!(sf.pop_long(), Err(RuntimeError::TypeMismatch));
    sf.push_int(1);
    assert_eq!(sf.pop_bool(), Err(RuntimeError::TypeMismatch));
    sf.push_int(1);
    assert_eq!(sf.pop_string(), Err(RuntimeError::TypeMismatch));
    sf.push_int(1);
    assert_eq!(sf.pop_array(), Err(RuntimeError::TypeMismatch));
    sf.push(Value::Null);
    assert_eq!(sf.pop_array(), Err(RuntimeError::NullDereference));
    sf.push_bool(true);
    assert_eq!(sf.pop_int(), Ok(1));
    sf.push_bool(false);
    assert_eq!(sf.pop_int(), Ok(0));
}

#[test]
fn locals_are_sixteen() {
    let mut sf = StackFrame::empty();
    assert_eq!(sf.get_variable(0), Ok(Value::Null));
    assert_eq!(sf.set_variable(15, Value::Integer(5)), Ok(()));
    assert_eq!(sf.get_variable(15), Ok(Value::Integer(5)));
    assert_eq!(sf.get_variable(16), Err(RuntimeError::BadLocal));
    assert_eq!(sf.set_variable(16, Value::Null), Err(RuntimeError::BadLocal));
    let callee = StackFrame::with_arguments(vec![Value::Integer(1), text("b")]).unwrap();
    assert!(matches!(
        StackFrame::with_arguments(vec![Value::Null; 17]),
        Err(RuntimeError::BadLocal)
    ));
    assert_eq!(callee.get_variable(0), Ok(Value::Integer(1)));
    assert_eq!(callee.get_variable(1), Ok(text("b")));
    assert_eq!(callee.get_variable(2), Ok(Value::Null));
    assert_eq!(callee.depth(), 0);
}

#[test]
fn pop_many_keeps_the_order() {
    let mut sf = StackFrame::empty();
    sf.push_int(1);
    sf.push_int(2);
    sf.push_int(3);
    assert_eq!(sf.pop_many(4), Err(RuntimeError::StackUnderflow));
    assert_eq!(sf.pop_many(2), Ok(vec![Value::Integer(2), Value::Integer(3)]));
    assert_eq!(sf.stack, vec![Value::Integer(1)]);
    let mut callee = StackFrame::empty();
    callee.push_int(8);
    callee.push_int(9);
    sf.take_results(callee);
    assert_eq!(sf.stack, vec![Value::Integer(1), Value::Integer(8), Value::Integer(9)]);
    assert_eq!(clone_values(&sf.stack), sf.stack);
}

// Heap

#[test]
fn a_new_array_is_zeroed() {
    let mut heap = Heap::new();
    let a = heap.alloc_array(3);
    assert_eq!(a, 0);
    assert_eq!(heap.array_len(a), Some(3));
    for i in 0..3 {
        assert_eq!(heap.load(a, i), Ok(Value::Integer(0)));
    }
    let empty = heap.alloc_array(0);
    assert_eq!(empty, 1);
    assert_eq!(heap.array_len(empty), Some(0));
    assert_eq!(heap.array_len(2), None);
}

#[test]
fn a_stored_value_stays_until_overwritten() {
    let mut heap = Heap::new();
    let a = heap.alloc_array(2);
    let b = heap.alloc_array(2);
    assert_eq!(heap.store(a, 1, text("v")), Ok(()));
    assert_eq!(heap.load(a, 1), Ok(text("v")));
    assert_eq!(heap.store(a, 0, Value::Integer(4)), Ok(()));
    assert_eq!(heap.store(b, 1, Value::Integer(5)), Ok(()));
    assert_eq!(heap.load(a, 1), Ok(text("v")));
    assert_eq!(heap.store(a, 1, Value::Null), Ok(()));
    assert_eq!(heap.load(a, 1), Ok(Value::Null));
    assert_eq!(heap.array_len(a), Some(2));
}

#[test]
fn an_array_does_not_grow_on_store() {
    let mut heap = Heap::new();
    let a = heap.alloc_array(2);
    assert_eq!(heap.store(a, 2, Value::Null), Err(RuntimeError::IndexOutOfBounds));
    assert_eq!(heap.store(a, -1, Value::Null), Err(RuntimeError::IndexOutOfBounds));
    assert_eq!(heap.load(a, 2), Err(RuntimeError::IndexOutOfBounds));
    assert_eq!(heap.load(a, -1), Err(RuntimeError::IndexOutOfBounds));
    assert_eq!(heap.load(9, 0), Err(RuntimeError::DanglingReference));
    assert_eq!(heap.store(9, 0, Value::Null), Err(RuntimeError::DanglingReference));
    assert_eq!(heap.append(9, Value::Null), Err(RuntimeError::DanglingReference));
    assert_eq!(heap.array_values(9), Err(RuntimeError::DanglingReference));
    assert_eq!(heap.array_len(a), Some(2));
    assert_eq!(heap.append(a, Value::Integer(3)), Ok(()));
    assert_eq!(heap.array_values(a), Ok(vec![Value::Integer(0), Value::Integer(0), Value::Integer(3)]));
    let filled = heap.alloc_filled(vec![text("x")]);
    assert_eq!(heap.load(filled, 0), Ok(text("x")));
    let o = heap.alloc_instance(Instance {
        class_name: "A".to_string(),
        field_names: Vec::new(),
        field_values: Vec::new(),
    });
    assert_eq!(o, 0);
    assert_eq!(heap.instances[0].class_name, "A");
}

// Arithmetic

#[test]
fn arithmetic_wraps_and_truncates() {
    assert_eq!(isub(10, 3), 7);
    assert_eq!(isub(i32::MIN, 1), i32::MAX);
    assert_eq!(isub(i32::MAX, -1), i32::MIN);
    assert_eq!(iadd(i32::MAX, 1), i32::MIN);
    assert_eq!(idiv(7, 2), Some(3));
    assert_eq!(idiv(-7, 2), Some(-3));
    assert_eq!(idiv(7, -2), Some(-3));
    assert_eq!(idiv(-7, -2), Some(3));
    assert_eq!(idiv(i32::MIN, -1), Some(i32::MIN));
    assert_eq!(idiv(1, 0), None);
    assert_eq!(irem(7, 2), Some(1));
    assert_eq!(irem(-7, 2), Some(-1));
    assert_eq!(irem(7, -2), Some(1));
    assert_eq!(irem(-7, -2), Some(-1));
    assert_eq!(irem(i32::MIN, -1), Some(0));
    assert_eq!(irem(1, 0), None);
    for (a, b) in [(7, 2), (-7, 2), (7, -2), (-7, -2), (0, 5), (i32::MIN, -1), (i32::MIN, 3)] {
        let q = idiv(a, b).unwrap();
        let r = irem(a, b).unwrap();
        assert_eq!(q.wrapping_mul(b).wrapping_add(r), a);
    }
    assert_eq!(ishl(42, 3), 336);
    assert_eq!(ishl(1, 33), 2);
    assert_eq!(ishl(1, 31), i32::MIN);
    assert_eq!(ishr(336, 3), 42);
    assert_eq!(ishr(-8, 1), -4);
    assert_eq!(ishr(-1, -1), -1);
    assert_eq!(lshl(42, 34), 721554505728);
    assert_eq!(lshl(1, 65), 2);
    assert_eq!(lshr(721554505728, 34), 42);
    assert_eq!(lshr(-16, 2), -4);
}

// Instructions

#[test]
fn constants_loads_and_stores() {
    let (mut sf, mut jvm, classes) = machine();
    assert_eq!((InstrIConst0 {}).execute(&mut sf, &mut jvm, &classes, 1), Ok(InstrNextAction::NEXT));
    assert_eq!((InstrIConst1 {}).execute(&mut sf, &mut jvm, &classes, 1), Ok(InstrNextAction::NEXT));
    assert_eq!((InstrIConst2 {}).execute(&mut sf, &mut jvm, &classes, 1), Ok(InstrNextAction::NEXT));
    assert_eq!(sf.stack, vec![Value::Integer(0), Value::Integer(1), Value::Integer(2)]);
    assert_eq!((InstrIStore2 {}).execute(&mut sf, &mut jvm, &classes, 1), Ok(InstrNextAction::NEXT));
    assert_eq!((InstrIStore1 {}).execute(&mut sf, &mut jvm, &classes, 1), Ok(InstrNextAction::NEXT));
    assert_eq!(sf.get_variable(1), Ok(Value::Integer(1)));
    assert_eq!(sf.get_variable(2), Ok(Value::Integer(2)));
    assert_eq!(sf.set_variable(0, text("this")), Ok(()));
    assert_eq!((InstrALoad0 {}).execute(&mut sf, &mut jvm, &classes, 1), Ok(InstrNextAction::NEXT));
    assert_eq!((InstrILoad1 {}).execute(&mut sf, &mut jvm, &classes, 1), Ok(InstrNextAction::NEXT));
    assert_eq!((InstrILoad2 {}).execute(&mut sf, &mut jvm, &classes, 1), Ok(InstrNextAction::NEXT));
    assert_eq!(
        sf.stack,
        vec![Value::Integer(0), text("this"), Value::Integer(1), Value::Integer(2)]
    );
    assert_eq!((InstrDup {}).execute(&mut sf, &mut jvm, &classes, 1), Ok(InstrNextAction::NEXT));
    assert_eq!(sf.depth(), 5);
    assert_eq!(sf.pop(), Ok(Value::Integer(2)));
    assert_eq!(sf.pop(), Ok(Value::Integer(2)));
    let ldc = InstrLdc { string: "lit".to_string() };
    assert_eq!(ldc.execute(&mut sf, &mut jvm, &classes, 1), Ok(InstrNextAction::NEXT));
    assert_eq!(sf.pop(), Ok(text("lit")));
    assert_eq!((InstrReturn {}).execute(&mut sf, &mut jvm, &classes, 1), Ok(InstrNextAction::RETURN));
    let special = InstrInvokeSpecial {
        class_name: "java/lang/Object".to_string(),
        method_name: "<init>".to_string(),
        type_desc: "()V".to_string(),
    };
    let depth = sf.depth();
    assert_eq!(special.execute(&mut sf, &mut jvm, &classes, 1), Ok(InstrNextAction::NEXT));
    assert_eq!(sf.depth(), depth);
}

#[test]
fn arithmetic_instructions() {
    let (mut sf, mut jvm, classes) = machine();
    sf.push_int(10);
    sf.push_int(3);
    assert_eq!((InstrISub {}).execute(&mut sf, &mut jvm, &classes, 1), Ok(InstrNextAction::NEXT));
    assert_eq!(sf.stack, vec![Value::Integer(7)]);
    sf.push_int(-2);
    assert_eq!((InstrIDiv {}).execute(&mut sf, &mut jvm, &classes, 1), Ok(InstrNextAction::NEXT));
    assert_eq!(sf.stack, vec![Value::Integer(-3)]);
    sf.push_int(2);
    assert_eq!((InstrIRem {}).execute(&mut sf, &mut jvm, &classes, 1), Ok(InstrNextAction::NEXT));
    assert_eq!(sf.stack, vec![Value::Integer(-1)]);
    sf.push_int(0);
    assert_eq!(
        (InstrIDiv {}).execute(&mut sf, &mut jvm, &classes, 1),
        runtime(RuntimeError::DivisionByZero)
    );
    sf.push_int(1);
    sf.push_int(0);
    assert_eq!(
        (InstrIRem {}).execute(&mut sf, &mut jvm, &classes, 1),
        runtime(RuntimeError::DivisionByZero)
    );
    let mut sf = StackFrame::empty();
    sf.push_int(1);
    assert_eq!(
        (InstrISub {}).execute(&mut sf, &mut jvm, &classes, 1),
        runtime(RuntimeError::StackUnderflow)
    );
    sf.push(text("a"));
    sf.push_int(1);
    assert_eq!(
        (InstrISub {}).execute(&mut sf, &mut jvm, &classes, 1),
        runtime(RuntimeError::TypeMismatch)
    );
}

#[test]
fn branches() {
    let (mut sf, mut jvm, classes) = machine();
    let ifne = InstrIfne { branch: 9 };
    sf.push_int(5);
    assert_eq!(ifne.execute(&mut sf, &mut jvm, &classes, 1), Ok(InstrNextAction::GOTO(9)));
    sf.push_int(0);
    assert_eq!(ifne.execute(&mut sf, &mut jvm, &classes, 1), Ok(InstrNextAction::NEXT));
    assert_eq!(sf.depth(), 0);
    sf.push(text("x"));
    assert_eq!(ifne.execute(&mut sf, &mut jvm, &classes, 1), runtime(RuntimeError::TypeMismatch));
    let goto = InstrGoto { branch: 2 };
    assert_eq!(goto.execute(&mut sf, &mut jvm, &classes, 1), Ok(InstrNextAction::GOTO(2)));
}

#[test]
fn array_instructions() {
    let (mut sf, mut jvm, classes) = machine();
    let new = InstrANewArray { class_name: "java/lang/Object".to_string() };
    sf.push_int(3);
    assert_eq!(new.execute(&mut sf, &mut jvm, &classes, 1), Ok(InstrNextAction::NEXT));
    assert_eq!(sf.stack, vec![Value::Array(0)]);
    assert_eq!(jvm.heap.array_values(0), Ok(vec![Value::Integer(0); 3]));
    sf.push_int(2);
    sf.push(text("v"));
    assert_eq!((InstrAAStore {}).execute(&mut sf, &mut jvm, &classes, 1), Ok(InstrNextAction::NEXT));
    assert_eq!(sf.depth(), 0);
    sf.push_array(0);
    sf.push_int(2);
    assert_eq!((InstrAALoad {}).execute(&mut sf, &mut jvm, &classes, 1), Ok(InstrNextAction::NEXT));
    assert_eq!(sf.stack, vec![text("v")]);

    let mut sf = StackFrame::empty();
    sf.push_array(0);
    sf.push_int(3);
    assert_eq!(
        (InstrAALoad {}).execute(&mut sf, &mut jvm, &classes, 1),
        runtime(RuntimeError::IndexOutOfBounds)
    );
    sf.push_array(0);
    sf.push_int(3);
    sf.push_int(1);
    assert_eq!(
        (InstrAAStore {}).execute(&mut sf, &mut jvm, &classes, 1),
        runtime(RuntimeError::IndexOutOfBounds)
    );
    sf.push(Value::Null);
    sf.push_int(0);
    assert_eq!(
        (InstrAALoad {}).execute(&mut sf, &mut jvm, &classes, 1),
        runtime(RuntimeError::NullDereference)
    );
    sf.push(text("no array"));
    sf.push_int(0);
    assert_eq!(
        (InstrAALoad {}).execute(&mut sf, &mut jvm, &classes, 1),
        runtime(RuntimeError::TypeMismatch)
    );
    sf.push_array(77);
    sf.push_int(0);
    assert_eq!(
        (InstrAALoad {}).execute(&mut sf, &mut jvm, &classes, 1),
        runtime(RuntimeError::DanglingReference)
    );
    sf.push_int(-1);
    assert_eq!(
        new.execute(&mut sf, &mut jvm, &classes, 1),
        runtime(RuntimeError::NegativeArraySize)
    );
}

#[test]
fn invocation_instructions() {
    let (mut sf, mut jvm, classes) = machine();
    let out = InstrGetStatic {
        class_name: "java/lang/System".to_string(),
        field_name: "out".to_string(),
        type_desc: "Ljava/io/PrintStream;".to_string(),
    };
    assert_eq!(out.execute(&mut sf, &mut jvm, &classes, 1), Ok(InstrNextAction::NEXT));
    assert_eq!(sf.stack, vec![Value::Instance(0)]);
    assert_eq!(jvm.heap.instances[0].class_name, "Stream");
    sf.push(text("a"));
    let print = InstrInvokeVirtual {
        class_name: "java/io/PrintStream".to_string(),
        method_name: "print".to_string(),
        type_desc: "(Ljava/lang/String;)V".to_string(),
    };
    assert_eq!(print.execute(&mut sf, &mut jvm, &classes, 1), Ok(InstrNextAction::NEXT));
    // Receiver and argument are read, not taken.
    assert_eq!(sf.stack, vec![Value::Instance(0), text("a")]);
    assert_eq!(jvm.stdout, "a");
    assert_eq!(sf.call_operands(1), Ok((Value::Instance(0), vec![text("a")])));
    assert_eq!(sf.call_operands(0), Ok((text("a"), Vec::new())));
    assert_eq!(sf.call_operands(2), Err(RuntimeError::StackUnderflow));
    // What a method returns goes on top of them.
    let starts = InstrInvokeVirtual {
        class_name: "java/lang/String".to_string(),
        method_name: "startsWith".to_string(),
        type_desc: "(Ljava/lang/String;)Z".to_string(),
    };
    let mut sf = StackFrame::empty();
    sf.push(text("abc"));
    sf.push(text("ab"));
    assert_eq!(starts.execute(&mut sf, &mut jvm, &classes, 1), Ok(InstrNextAction::NEXT));
    assert_eq!(sf.stack, vec![text("abc"), text("ab"), Value::Bool(true)]);
    // The receiver is missing.
    let mut sf = StackFrame::empty();
    sf.push(text("b"));
    assert_eq!(
        print.execute(&mut sf, &mut jvm, &classes, 1),
        runtime(RuntimeError::StackUnderflow)
    );
    assert_eq!(sf.stack, vec![text("b")]);
    // A method that the class does not model leaves everything as it was.
    let unknown = InstrInvokeVirtual {
        class_name: "java/io/PrintStream".to_string(),
        method_name: "flush".to_string(),
        type_desc: "()V".to_string(),
    };
    assert_eq!(unknown.execute(&mut sf, &mut jvm, &classes, 1), Err(JvmError::NotImplemented));
    assert_eq!(sf.stack, vec![text("b")]);
    assert_eq!(jvm.stdout, "a");
    // invokevirtual finds receiver and arguments by the descriptor.
    let no_list = InstrInvokeVirtual {
        class_name: "java/io/PrintStream".to_string(),
        method_name: "print".to_string(),
        type_desc: "V".to_string(),
    };
    assert_eq!(
        no_list.execute(&mut sf, &mut jvm, &classes, 1),
        runtime(RuntimeError::BadDescriptor)
    );
    // An intrinsic static method takes its arguments itself: the descriptor
    // is not read.
    let unread = InstrInvokeStatic {
        class_name: "java/lang/Integer".to_string(),
        method_name: "parseInt".to_string(),
        type_desc: "Ljava/lang/String;".to_string(),
    };
    let mut sf = StackFrame::empty();
    sf.push(text("12"));
    assert_eq!(unread.execute(&mut sf, &mut jvm, &classes, 1), Ok(InstrNextAction::NEXT));
    assert_eq!(sf.stack, vec![Value::Integer(12)]);
    let parse = InstrInvokeStatic {
        class_name: "java/lang/Integer".to_string(),
        method_name: "parseInt".to_string(),
        type_desc: "(Ljava/lang/String;)I".to_string(),
    };
    let mut sf = StackFrame::empty();
    sf.push(text("-17"));
    assert_eq!(parse.execute(&mut sf, &mut jvm, &classes, 1), Ok(InstrNextAction::NEXT));
    assert_eq!(sf.stack, vec![Value::Integer(-17)]);
    sf.push(text("4x"));
    assert_eq!(parse.execute(&mut sf, &mut jvm, &classes, 1), runtime(RuntimeError::NumberFormat));
}

// Registry

fn compiled(name: &str, value: i32) -> JavaClass {
    JavaClass::Bytecode(BytecodeClass {
        name: name.to_string(),
        super_name: String::new(),
        interfaces: Vec::new(),
        static_fields: vec![StaticField { name: "id".to_string(), value: Value::Integer(value) }],
        fields: vec!["x".to_string()],
        methods: Vec::new(),
    })
}

fn id_of(classes: &Classes, name: &str, jvm: &mut JVM) -> Result<Value, JvmError> {
    match classes.get_class(name) {
        Some(class) => class.get_static_object("id", jvm),
        None => Err(JvmError::Link(LinkError::UnknownClass)),
    }
}

#[test]
fn lookup_depends_on_the_name_alone() {
    let mut jvm = JVM::new();
    let mut classes = Classes::new();
    assert!(classes.get_class("A").is_none());
    classes.add(compiled("A", 1));
    classes.add(compiled("B", 2));
    assert_eq!(id_of(&classes, "A", &mut jvm), Ok(Value::Integer(1)));
    assert_eq!(id_of(&classes, "A", &mut jvm), Ok(Value::Integer(1)));
    let name = String::from("B");
    assert_eq!(id_of(&classes, &name, &mut jvm), Ok(Value::Integer(2)));
    // Registration only appends: what resolved before resolves to the same.
    classes.add(compiled("A", 3));
    register_native_classes(&mut classes);
    assert_eq!(id_of(&classes, "A", &mut jvm), Ok(Value::Integer(1)));
    assert_eq!(id_of(&classes, "B", &mut jvm), Ok(Value::Integer(2)));
    assert_eq!(id_of(&classes, "C", &mut jvm), Err(JvmError::Link(LinkError::UnknownClass)));
    assert_eq!(classes.get_class("java/lang/String").unwrap().get_name(), "java/lang/String");
    assert_eq!(classes.classes.len(), 16);
    let a = classes.get_class("A").unwrap();
    assert!(a.has_name("A"));
    assert!(!a.has_name("a"));
    assert_eq!(
        a.get_static_object("none", &mut jvm),
        Err(JvmError::Link(LinkError::UnknownField))
    );
    assert_eq!(a.new_instance(&mut jvm), Ok(Value::Instance(0)));
    assert_eq!(jvm.heap.instances[0].class_name, "A");
    assert_eq!(jvm.heap.instances[0].field_names, vec!["x".to_string()]);
    assert_eq!(jvm.heap.instances[0].field_values, vec![Value::Null]);
}

#[test]
fn native_class_names() {
    assert_eq!((NativeObjectClass {}).get_name(), "java/lang/Object");
    assert_eq!((NativeObjectInstance {}).get_class_name(), "java/lang/Object");
    assert_eq!((NativePrintStreamClass {}).get_name(), "java/io/PrintStream");
    assert_eq!((NativePrintStreamInstance {}).get_class_name(), "Stream");
    assert_eq!((NativeSystemClass {}).get_name(), "java/lang/System");
    assert_eq!((NativeIntegerClass {}).get_name(), "java/lang/Integer");
    assert_eq!((NativeStringClass {}).get_name(), "java/lang/String");
    assert_eq!((NativeArraysClass {}).get_name(), "java/util/Arrays");
    assert_eq!((NativeListClass {}).get_name(), "java/util/List");
    assert_eq!((NativeArrayListClass {}).get_name(), "java/util/ArrayList");
    assert_eq!(NativeIntegerInstance::new(5).get_class_name(), "java/lang/Integer");
    assert_eq!(NativeLongInstance::new(5).get_class_name(), "java/lang/Long");
    assert_eq!(NativeFloatInstance::new(0).get_class_name(), "java/lang/Float");
    assert_eq!(NativeDoubleInstance::new(0).get_class_name(), "java/lang/Double");
    assert_eq!(NativeBooleanInstance::new(true).get_class_name(), "java/lang/Boolean");
    assert_eq!(NativeStringInstance::new(String::new()).get_class_name(), "java/lang/String");
    assert_eq!((NativeArrayInstance { values: 0 }).get_class_name(), "java/util/Arrays");
    assert_eq!((NativeArrayListInstance { content: 0 }).get_class_name(), "java/util/ArrayList");
}

#[test]
fn boxed_values() {
    assert_eq!(NativeIntegerInstance::new(-3).get_int(), -3);
    assert_eq!(NativeIntegerInstance::new(-3).to_value(), Value::Integer(-3));
    assert_eq!(NativeLongInstance::new(1 << 40).get_long(), 1 << 40);
    assert_eq!(NativeLongInstance::new(9).to_value(), Value::Long(9));
    assert_eq!(NativeBooleanInstance::new(true).get_bool(), true);
    assert_eq!(NativeBooleanInstance::new(true).get_int(), 1);
    assert_eq!(NativeBooleanInstance::new(false).get_int(), 0);
    assert_eq!(NativeBooleanInstance::new(false).to_value(), Value::Bool(false));
    assert_eq!(NativeStringInstance::new("s".to_string()).get_string(), "s");
    assert_eq!(NativeStringInstance::new("s".to_string()).to_value(), text("s"));
    let one = 1.5f32;
    assert_eq!(f32::from_bits(NativeFloatInstance::new(one.to_bits()).get_float()), 1.5f32);
    let two = 2.25f64;
    assert_eq!(f64::from_bits(NativeDoubleInstance::new(two.to_bits()).get_double()), 2.25f64);
    assert_eq!(NativeFloatInstance::new(7).to_value(), Value::Float(7));
    assert_eq!(NativeDoubleInstance::new(7).to_value(), Value::Double(7));
    assert_eq!((NativeArrayInstance { values: 4 }).get_array(), 4);
    assert_eq!((NativeArrayListInstance { content: 4 }).get_array(), 4);
    assert!((NativeArrayListInstance { content: 4 }).supports_interface("java/util/List"));
    assert!(!(NativeArrayListInstance { content: 4 }).supports_interface("java/util/Set"));
}

// Intrinsic methods

#[test]
fn string_methods() {
    let (mut sf, mut jvm, _) = machine();
    let s = NativeStringInstance::new("Hello".to_string());
    assert_eq!(s.execute_method(&mut sf, &mut jvm, "<init>", &Vec::new()), Ok(()));
    assert_eq!(sf.depth(), 0);
    assert_eq!(s.execute_method(&mut sf, &mut jvm, "startsWith", &vec![text("He")]), Ok(()));
    assert_eq!(sf.pop(), Ok(Value::Bool(true)));
    assert_eq!(s.execute_method(&mut sf, &mut jvm, "startsWith", &vec![text("he")]), Ok(()));
    assert_eq!(sf.pop(), Ok(Value::Bool(false)));
    assert_eq!(s.execute_method(&mut sf, &mut jvm, "startsWith", &vec![text("Hello!")]), Ok(()));
    assert_eq!(sf.pop(), Ok(Value::Bool(false)));
    assert_eq!(s.execute_method(&mut sf, &mut jvm, "startsWith", &vec![text("")]), Ok(()));
    assert_eq!(sf.pop(), Ok(Value::Bool(true)));
    assert_eq!(s.execute_method(&mut sf, &mut jvm, "toLowerCase", &Vec::new()), Ok(()));
    assert_eq!(sf.pop(), Ok(text("hello")));
    assert_eq!(s.execute_method(&mut sf, &mut jvm, "hashCode", &Vec::new()), Ok(()));
    assert_eq!(sf.pop(), Ok(Value::Integer(69609650)));
    assert_eq!(s.execute_method(&mut sf, &mut jvm, "equals", &vec![text("Hello")]), Ok(()));
    assert_eq!(sf.pop(), Ok(Value::Bool(true)));
    assert_eq!(s.execute_method(&mut sf, &mut jvm, "equals", &vec![text("Hellp")]), Ok(()));
    assert_eq!(sf.pop(), Ok(Value::Bool(false)));
    assert_eq!(
        s.execute_method(&mut sf, &mut jvm, "equals", &Vec::new()),
        Err(JvmError::Runtime(RuntimeError::MissingArgument))
    );
    assert_eq!(
        s.execute_method(&mut sf, &mut jvm, "equals", &vec![Value::Integer(1)]),
        Err(JvmError::Runtime(RuntimeError::TypeMismatch))
    );
    assert_eq!(
        s.execute_method(&mut sf, &mut jvm, "length", &Vec::new()),
        Err(JvmError::NotImplemented)
    );
    let class = NativeStringClass {};
    assert_eq!(
        class.execute_method(&mut sf, &mut jvm, "hashCode", text("ab"), &Vec::new()),
        Ok(())
    );
    assert_eq!(sf.pop(), Ok(Value::Integer(97 * 31 + 98)));
    assert_eq!(
        class.execute_method(&mut sf, &mut jvm, "hashCode", Value::Null, &Vec::new()),
        Err(JvmError::Runtime(RuntimeError::NullDereference))
    );
    assert_eq!(
        class.execute_method(&mut sf, &mut jvm, "hashCode", Value::Integer(1), &Vec::new()),
        Err(JvmError::Runtime(RuntimeError::TypeMismatch))
    );
}

#[test]
fn hashes_wrap() {
    assert_eq!(hash_text(""), 0);
    assert_eq!(hash_text("a"), 97);
    // 31-ary digits overflow 32 bits from the seventh character on.
    let expected = "zzzzzzzz".bytes().fold(0i32, |h, b| h.wrapping_mul(31).wrapping_add(b as i32));
    assert_eq!(hash_text("zzzzzzzz"), expected);
    assert!(same_text("abc", "abc"));
    assert!(!same_text("abc", "abd"));
    assert!(!same_text("abc", "ab"));
}

#[test]
fn format_expands_conversions() {
    let args = vec![Value::Integer(-12), text("x"), Value::Bool(true), Value::Integer(i32::MIN)];
    assert_eq!(format_text("a%db%s,%d %d", &args), Ok("a-12bx,1 -2147483648".to_string()));
    assert_eq!(format_text("plain", &args), Ok("plain".to_string()));
    assert_eq!(format_text("", &args), Ok(String::new()));
    assert_eq!(format_text("end%", &args), Ok("end".to_string()));
    assert_eq!(format_text("%d", &vec![Value::Integer(0)]), Ok("0".to_string()));
    assert_eq!(format_text("%d", &vec![Value::Integer(1002003)]), Ok("1002003".to_string()));
    assert_eq!(format_text("%d%d", &vec![Value::Integer(1)]), Err(RuntimeError::MissingArgument));
    assert_eq!(format_text("%x", &args), Err(RuntimeError::BadFormat));
    assert_eq!(format_text("%%", &args), Err(RuntimeError::BadFormat));
    assert_eq!(format_text("%s", &args), Err(RuntimeError::TypeMismatch));
    assert_eq!(format_text("%d", &vec![text("1")]), Err(RuntimeError::TypeMismatch));
}

#[test]
fn string_format_pops_its_arguments() {
    let (mut sf, mut jvm, classes) = machine();
    let array = jvm.heap.alloc_filled(vec![Value::Integer(3), text("apples")]);
    sf.push(text("%d %s"));
    sf.push_array(array);
    assert_eq!(
        classes.invoke_static("java/lang/String", "format", 2, &mut sf, &mut jvm, 10),
        Ok(())
    );
    assert_eq!(sf.stack, vec![text("3 apples")]);
    assert_eq!(
        classes.invoke_static("java/lang/String", "valueOf", 1, &mut sf, &mut jvm, 10),
        Err(JvmError::NotImplemented)
    );
}

#[test]
fn integer_methods() {
    let (mut sf, mut jvm, _) = machine();
    let class = NativeIntegerClass {};
    sf.push(text("2147483647"));
    assert_eq!(class.execute_static_method(&mut sf, &mut jvm, "parseInt"), Ok(()));
    assert_eq!(sf.pop(), Ok(Value::Integer(i32::MAX)));
    sf.push(text("2147483648"));
    assert_eq!(
        class.execute_static_method(&mut sf, &mut jvm, "parseInt"),
        Err(JvmError::Runtime(RuntimeError::NumberFormat))
    );
    sf.push_int(1);
    assert_eq!(
        class.execute_static_method(&mut sf, &mut jvm, "parseInt"),
        Err(JvmError::Runtime(RuntimeError::TypeMismatch))
    );
    sf.push_int(12);
    assert_eq!(class.execute_static_method(&mut sf, &mut jvm, "valueOf"), Ok(()));
    assert_eq!(sf.stack, vec![Value::Integer(12)]);
    assert_eq!(NativeIntegerClass::push_parsed(&mut sf, Some(5)), Ok(()));
    assert_eq!(sf.pop(), Ok(Value::Integer(5)));
    assert_eq!(
        NativeIntegerClass::push_parsed(&mut sf, None),
        Err(JvmError::Runtime(RuntimeError::NumberFormat))
    );
    assert_eq!(sf.stack, vec![Value::Integer(12)]);
}

#[test]
fn print_stream_methods() {
    let (mut sf, mut jvm, _) = machine();
    let out = NativePrintStreamClass {};
    assert_eq!(out.execute_method(&mut sf, &mut jvm, "print", &vec![text("a")]), Ok(()));
    assert_eq!(out.execute_method(&mut sf, &mut jvm, "println", &vec![text("b")]), Ok(()));
    assert_eq!(out.execute_method(&mut sf, &mut jvm, "println", &vec![text("")]), Ok(()));
    assert_eq!(jvm.stdout, "ab\n\n");
    assert_eq!(
        out.execute_method(&mut sf, &mut jvm, "println", &Vec::new()),
        Err(JvmError::Runtime(RuntimeError::MissingArgument))
    );
    assert_eq!(
        out.execute_method(&mut sf, &mut jvm, "println", &vec![Value::Integer(1)]),
        Err(JvmError::Runtime(RuntimeError::TypeMismatch))
    );
    assert_eq!(
        out.execute_method(&mut sf, &mut jvm, "flush", &Vec::new()),
        Err(JvmError::NotImplemented)
    );
    assert_eq!(jvm.stdout, "ab\n\n");
    assert_eq!(sf.depth(), 0);
}

#[test]
fn object_and_system() {
    let (mut sf, mut jvm, _) = machine();
    let object = NativeObjectClass {};
    assert_eq!(object.execute_method(&mut sf, &mut jvm, "<init>"), Ok(()));
    assert_eq!(object.execute_method(&mut sf, &mut jvm, "toString"), Err(JvmError::NotImplemented));
    assert_eq!(object.execute_static_method(&mut sf, &mut jvm, "clinit"), Ok(()));
    assert_eq!(
        object.execute_static_method(&mut sf, &mut jvm, "<clinit>"),
        Err(JvmError::NotImplemented)
    );
    assert_eq!(object.new_instance(&mut jvm), Value::Instance(0));
    assert_eq!(jvm.heap.instances[0].class_name, "java/lang/Object");
    let system = NativeSystemClass {};
    assert_eq!(system.get_static_object("out", &mut jvm), Ok(Value::Instance(1)));
    assert_eq!(
        system.get_static_object("in", &mut jvm),
        Err(JvmError::Link(LinkError::UnknownField))
    );
    assert_eq!(jvm.heap.instances.len(), 2);
    assert_eq!(
        JavaClass::Integer(NativeIntegerClass {}).get_static_object("MAX_VALUE", &mut jvm),
        Err(JvmError::NotImplemented)
    );
    assert_eq!(
        JavaClass::System(NativeSystemClass {}).new_instance(&mut jvm),
        Err(JvmError::NotImplemented)
    );
}

#[test]
fn arrays_and_lists() {
    let (mut sf, mut jvm, classes) = machine();
    let array = jvm.heap.alloc_filled(vec![text("a"), text("b")]);
    sf.push_array(array);
    assert_eq!(
        classes.invoke_static("java/util/Arrays", "asList", 1, &mut sf, &mut jvm, 10),
        Ok(())
    );
    let list = sf.pop().unwrap();
    assert_eq!(list, Value::Instance(0));
    assert_eq!(jvm.heap.instances[0].class_name, "java/util/ArrayList");
    assert_eq!(jvm.heap.instances[0].field_values, vec![Value::Array(1)]);
    // The list holds a copy: the array does not see what is added.
    let list_class = NativeArrayListClass {};
    assert_eq!(
        list_class.execute_method(&mut sf, &mut jvm, "add", Value::Instance(0), &vec![text("c")]),
        Ok(())
    );
    assert_eq!(sf.pop(), Ok(Value::Bool(true)));
    assert_eq!(jvm.heap.array_values(1), Ok(vec![text("a"), text("b"), text("c")]));
    assert_eq!(jvm.heap.array_values(array), Ok(vec![text("a"), text("b")]));
    assert_eq!(
        list_class.execute_method(&mut sf, &mut jvm, "<init>", Value::Instance(0), &Vec::new()),
        Ok(())
    );
    assert_eq!(
        list_class.execute_method(&mut sf, &mut jvm, "add", Value::Instance(0), &Vec::new()),
        Err(JvmError::Runtime(RuntimeError::MissingArgument))
    );
    assert_eq!(
        list_class.execute_method(&mut sf, &mut jvm, "stream", Value::Instance(0), &Vec::new()),
        Err(JvmError::NotImplemented)
    );
    assert_eq!(
        list_class.execute_method(&mut sf, &mut jvm, "add", Value::Instance(5), &vec![text("c")]),
        Err(JvmError::Runtime(RuntimeError::DanglingReference))
    );
    assert_eq!(
        list_class.execute_method(&mut sf, &mut jvm, "add", Value::Null, &vec![text("c")]),
        Err(JvmError::Runtime(RuntimeError::NullDereference))
    );
    let fresh = list_class.new_instance(&mut jvm);
    assert_eq!(fresh, Value::Instance(1));
    let through_interface = NativeListClass {};
    assert_eq!(
        through_interface.execute_method(&mut sf, &mut jvm, "add", fresh, &vec![Value::Integer(1)]),
        Ok(())
    );
    assert_eq!(sf.pop(), Ok(Value::Bool(true)));
    assert_eq!(jvm.heap.array_values(2), Ok(vec![Value::Integer(1)]));
    assert_eq!(
        through_interface.execute_method(&mut sf, &mut jvm, "size", Value::Instance(1), &Vec::new()),
        Err(JvmError::NotImplemented)
    );
    // clone
    let arrays = NativeArraysClass {};
    assert_eq!(arrays.execute_method(&mut sf, &mut jvm, "clone", Value::Array(array)), Ok(()));
    assert_eq!(sf.pop(), Ok(Value::Array(3)));
    assert_eq!(jvm.heap.array_values(3), Ok(vec![text("a"), text("b")]));
    assert_eq!(jvm.heap.store(3, 0, text("z")), Ok(()));
    assert_eq!(jvm.heap.load(array, 0), Ok(text("a")));
    assert_eq!(
        arrays.execute_method(&mut sf, &mut jvm, "sort", Value::Array(array)),
        Err(JvmError::NotImplemented)
    );
    assert_eq!(
        arrays.execute_method(&mut sf, &mut jvm, "clone", text("x")),
        Err(JvmError::Runtime(RuntimeError::TypeMismatch))
    );
}

#[test]
fn enum_constants() {
    let (mut sf, mut jvm, classes) = machine();
    let class = NativeEnumClass {};
    let constant = class.new_instance(&mut jvm);
    assert_eq!(constant, Value::Instance(0));
    assert_eq!(jvm.heap.instances[0].class_name, "java/lang/Enum");
    assert_eq!(jvm.heap.instances[0].field_names, vec!["name".to_string(), "ordinal".to_string()]);
    assert_eq!(jvm.heap.instances[0].field_values, vec![text(""), Value::Integer(0)]);
    assert_eq!(class.execute_method(&mut sf, &mut jvm, "ordinal", Value::Instance(0), &Vec::new()), Ok(()));
    assert_eq!(sf.pop(), Ok(Value::Integer(0)));
    let args = vec![Value::Integer(3), text("RED")];
    assert_eq!(class.execute_method(&mut sf, &mut jvm, "<init>", Value::Instance(0), &args), Ok(()));
    assert_eq!(jvm.heap.instances[0].class_name, "java/lang/Enum");
    assert_eq!(jvm.heap.instances[0].field_values, vec![text("RED"), Value::Integer(3)]);
    let by_name = classes.get_class("java/lang/Enum").unwrap();
    assert_eq!(
        by_name.execute_method(&mut sf, &mut jvm, &classes, "ordinal", Value::Instance(0), Vec::new(), 1),
        Ok(())
    );
    assert_eq!(sf.pop(), Ok(Value::Integer(3)));
    assert_eq!(
        class.execute_method(&mut sf, &mut jvm, "<init>", Value::Instance(0), &vec![text("RED")]),
        Err(JvmError::Runtime(RuntimeError::MissingArgument))
    );
    assert_eq!(
        class.execute_method(&mut sf, &mut jvm, "<init>", Value::Instance(0), &vec![text("RED"), text("x")]),
        Err(JvmError::Runtime(RuntimeError::TypeMismatch))
    );
    assert_eq!(
        class.execute_method(&mut sf, &mut jvm, "name", Value::Instance(0), &Vec::new()),
        Err(JvmError::NotImplemented)
    );
    assert_eq!(
        class.execute_method(&mut sf, &mut jvm, "ordinal", Value::Instance(9), &Vec::new()),
        Err(JvmError::Runtime(RuntimeError::DanglingReference))
    );
    assert_eq!(
        class.execute_method(&mut sf, &mut jvm, "ordinal", Value::Null, &Vec::new()),
        Err(JvmError::Runtime(RuntimeError::NullDereference))
    );
    assert_eq!(
        class.execute_method(&mut sf, &mut jvm, "ordinal", Value::Integer(1), &Vec::new()),
        Err(JvmError::Runtime(RuntimeError::TypeMismatch))
    );
    let plain = (NativeObjectClass {}).new_instance(&mut jvm);
    assert_eq!(
        class.execute_method(&mut sf, &mut jvm, "ordinal", plain, &Vec::new()),
        Err(JvmError::Runtime(RuntimeError::TypeMismatch))
    );
    let read = NativeEnumInstance::from_arguments(&vec![Value::Bool(true), text("ON")]).unwrap();
    assert_eq!(read.name, "ON");
    assert_eq!(read.ordinal, 1);
    assert_eq!(read.get_class_name(), "java/lang/Enum");
    assert_eq!(
        jvm.heap.replace_instance(7, read.to_instance("Switch".to_string())),
        Err(RuntimeError::DanglingReference)
    );
    assert_eq!(sf.depth(), 0);
}

#[test]
fn classes_known_by_name_only() {
    let (mut sf, mut jvm, classes) = machine();
    assert_eq!((NativeMathClass {}).get_name(), "java/lang/Math");
    assert_eq!((NativeNoSuchFieldErrorClass {}).get_name(), "java/lang/NoSuchFieldError");
    assert_eq!(
        (NativeMethodHandlesLookupClass {}).get_name(),
        "java/lang/invoke/MethodHandles$Lookup"
    );
    assert_eq!((NativeMethodHandlesClass {}).get_name(), "java/lang/invoke/MethodHandles");
    assert_eq!((NativeListInstance {}).get_class_name(), "java/util/List");
    for name in [
        "java/lang/NoSuchFieldError",
        "java/lang/invoke/MethodHandles$Lookup",
        "java/lang/invoke/MethodHandles",
    ] {
        let class = classes.get_class(name).unwrap();
        assert_eq!(class.get_name(), name);
        sf.push_double(4.0f64.to_bits());
        assert_eq!(
            class.execute_static_method(&mut sf, &mut jvm, &classes, "sqrt", 1, 1),
            Err(JvmError::NotImplemented)
        );
        assert_eq!(
            class.execute_method(&mut sf, &mut jvm, &classes, "x", Value::Null, Vec::new(), 1),
            Err(JvmError::NotImplemented)
        );
        assert_eq!(class.get_static_object("PI", &mut jvm), Err(JvmError::NotImplemented));
        assert_eq!(class.new_instance(&mut jvm), Err(JvmError::NotImplemented));
    }
}

#[test]
fn floats_travel_as_bit_patterns() {
    let mut sf = StackFrame::empty();
    sf.push_double(2.5f64.to_bits());
    sf.push_float(0.5f32.to_bits());
    assert_eq!(sf.stack, vec![Value::Double(2.5f64.to_bits()), Value::Float(0.5f32.to_bits())]);
    assert_eq!(sf.pop_double(), Err(RuntimeError::TypeMismatch));
    assert_eq!(sf.pop_double().map(f64::from_bits), Ok(2.5f64));
    sf.push_float(0.5f32.to_bits());
    assert_eq!(sf.pop_float().map(f32::from_bits), Ok(0.5f32));
    sf.push_int(1);
    assert_eq!(sf.pop_float(), Err(RuntimeError::TypeMismatch));
    assert_eq!(sf.pop_float(), Err(RuntimeError::StackUnderflow));
}

#[test]
fn run_gives_the_exit_code() {
    let (_, mut jvm, classes) = machine();
    assert_eq!(classes.run("java/lang/Integer", "parseInt", vec![text("12")], &mut jvm, 10), 0);
    assert_eq!(classes.run("java/lang/Integer", "parseInt", vec![text("twelve")], &mut jvm, 10), 1);
    assert_eq!(classes.run("java/lang/Integer", "parseInt", Vec::new(), &mut jvm, 10), 1);
    assert_eq!(classes.run("java/lang/Nothing", "main", Vec::new(), &mut jvm, 10), 1);
    assert_eq!(classes.run("java/lang/Object", "clinit", Vec::new(), &mut jvm, 0), 0);
}

#[test]
fn integers_are_read_and_written_in_decimal() {
    assert_eq!(parse_int("0"), Some(0));
    assert_eq!(parse_int("42"), Some(42));
    assert_eq!(parse_int("+5"), Some(5));
    assert_eq!(parse_int("-0"), Some(0));
    assert_eq!(parse_int("007"), Some(7));
    assert_eq!(parse_int("-2147483648"), Some(i32::MIN));
    assert_eq!(parse_int("2147483647"), Some(i32::MAX));
    assert_eq!(parse_int("2147483648"), None);
    assert_eq!(parse_int("-2147483649"), None);
    assert_eq!(parse_int("99999999999999999999999999"), None);
    assert_eq!(parse_int(""), None);
    assert_eq!(parse_int("-"), None);
    assert_eq!(parse_int("+"), None);
    assert_eq!(parse_int("+-1"), None);
    assert_eq!(parse_int(" 1"), None);
    assert_eq!(parse_int("1 "), None);
    assert_eq!(parse_int("1_000"), None);
    assert_eq!(parse_int("12a"), None);
    assert_eq!(parse_int("٣"), None);
    for text in ["0", "42", "+5", "-0", "007", "-2147483648", "2147483648", "", "-", "1_0", "٣"] {
        assert_eq!(parse_int(text), text.parse::<i32>().ok());
    }
    assert_eq!(decimal_text(0), "0");
    assert_eq!(decimal_text(7), "7");
    assert_eq!(decimal_text(10), "10");
    assert_eq!(decimal_text(-1), "-1");
    assert_eq!(decimal_text(1002003), "1002003");
    assert_eq!(decimal_text(i32::MAX), "2147483647");
    assert_eq!(decimal_text(i32::MIN), "-2147483648");
    for i in [0, 9, 10, 99, 100, -100, 65536, i32::MAX, i32::MIN] {
        assert_eq!(decimal_text(i), i.to_string());
        assert_eq!(parse_int(&decimal_text(i)), Some(i));
    }
}

#[test]
fn math_asks_the_host() {
    let (mut sf, mut jvm, classes) = machine();
    let four = 4.0f64.to_bits();
    let two = 2.0f64.to_bits();
    sf.push_double(four);
    assert_eq!(
        classes.invoke_static("java/lang/Math", "sqrt", 1, &mut sf, &mut jvm, 1),
        Err(JvmError::HostCall(HostFunction::Sqrt, four))
    );
    assert_eq!(jvm.host_result(HostFunction::Sqrt, four), None);
    jvm.answer(HostFunction::Sqrt, four, two);
    assert_eq!(jvm.host_result(HostFunction::Sqrt, four), Some(two));
    assert_eq!(jvm.host_result(HostFunction::Log, four), None);
    assert_eq!(jvm.host_result(HostFunction::Sqrt, two), None);
    sf.push_double(four);
    assert_eq!(classes.invoke_static("java/lang/Math", "sqrt", 1, &mut sf, &mut jvm, 1), Ok(()));
    assert_eq!(sf.stack, vec![Value::Double(two)]);
    // The answer for one function is none for the other.
    assert_eq!(
        classes.invoke_static("java/lang/Math", "log", 1, &mut sf, &mut jvm, 1),
        Err(JvmError::HostCall(HostFunction::Log, two))
    );
    // The last answer counts.
    jvm.answer(HostFunction::Sqrt, four, four);
    assert_eq!(jvm.host_result(HostFunction::Sqrt, four), Some(four));
    sf.push_int(1);
    assert_eq!(
        classes.invoke_static("java/lang/Math", "sqrt", 1, &mut sf, &mut jvm, 1),
        Err(JvmError::Runtime(RuntimeError::TypeMismatch))
    );
    let before = sf.depth();
    assert_eq!(
        classes.invoke_static("java/lang/Math", "pow", 2, &mut sf, &mut jvm, 1),
        Err(JvmError::NotImplemented)
    );
    assert_eq!(sf.depth(), before);
    assert_eq!(jvm.host_results.len(), 2);
}

#[test]
fn a_failure_leaves_what_it_must() {
    let (mut sf, mut jvm, classes) = machine();
    // aastore outside the array: the array stays as it was.
    let array = jvm.heap.alloc_filled(vec![text("a"), text("b")]);
    sf.push_array(array);
    sf.push_int(2);
    sf.push(text("c"));
    assert_eq!(
        (InstrAAStore {}).execute(&mut sf, &mut jvm, &classes, 1),
        runtime(RuntimeError::IndexOutOfBounds)
    );
    assert_eq!(jvm.heap.array_values(array), Ok(vec![text("a"), text("b")]));
    assert_eq!(jvm.heap.arrays.len(), 1);
    // aaload outside the array, and a negative length: the heap stays.
    sf.push_array(array);
    sf.push_int(5);
    assert_eq!(
        (InstrAALoad {}).execute(&mut sf, &mut jvm, &classes, 1),
        runtime(RuntimeError::IndexOutOfBounds)
    );
    sf.push_int(-1);
    assert_eq!(
        (InstrANewArray { class_name: String::new() }).execute(&mut sf, &mut jvm, &classes, 1),
        runtime(RuntimeError::NegativeArraySize)
    );
    assert_eq!(jvm.heap.arrays.len(), 1);
    // A method that Integer does not model: the stack stays as it was.
    let mut sf = StackFrame::empty();
    sf.push_int(7);
    sf.push(text("x"));
    assert_eq!(
        (NativeIntegerClass {}).execute_static_method(&mut sf, &mut jvm, "bitCount"),
        Err(JvmError::NotImplemented)
    );
    assert_eq!(sf.stack, vec![Value::Integer(7), text("x")]);
    let bit_count = InstrInvokeStatic {
        class_name: "java/lang/Integer".to_string(),
        method_name: "bitCount".to_string(),
        type_desc: "(I)I".to_string(),
    };
    assert_eq!(bit_count.execute(&mut sf, &mut jvm, &classes, 1), Err(JvmError::NotImplemented));
    assert_eq!(sf.stack, vec![Value::Integer(7), text("x")]);
    // A failed println has written nothing.
    let out = NativePrintStreamClass {};
    assert_eq!(out.execute_method(&mut sf, &mut jvm, "println", &vec![text("kept")]), Ok(()));
    assert_eq!(
        out.execute_method(&mut sf, &mut jvm, "println", &vec![Value::Integer(1)]),
        Err(JvmError::Runtime(RuntimeError::TypeMismatch))
    );
    assert_eq!(jvm.stdout, "kept\n");
}
