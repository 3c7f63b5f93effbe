use std::collections::HashMap;

use mini_jvm::blob::Blob;
use mini_jvm::bytecode::ByteCode;
use mini_jvm::classes::Classes;
use mini_jvm::errors::{exit_code, DecodeError, JvmError, LinkError, RuntimeError};
use mini_jvm::java_class::{
    BytecodeClass, ConstantClass, ConstantField, ConstantMethod, ConstantNameType,
    ConstantString, ConstantStringRef, JavaClass, Method,
};
use mini_jvm::jvm::{StackFrame, Value, JVM};
use mini_jvm::native_java_classes::register_native_classes;

struct Pool {
    classes: HashMap<usize, ConstantClass>,
    strings: HashMap<usize, ConstantString>,
    string_refs: HashMap<usize, ConstantStringRef>,
    methods: HashMap<usize, ConstantMethod>,
    fields: HashMap<usize, ConstantField>,
    name_types: HashMap<usize, ConstantNameType>,
}

fn empty_pool() -> Pool {
    Pool {
        classes: HashMap::new(),
        strings: HashMap::new(),
        string_refs: HashMap::new(),
        methods: HashMap::new(),
        fields: HashMap::new(),
        name_types: HashMap::new(),
    }
}

fn decode(code: Vec<u8>, pool: &Pool) -> Result<ByteCode, DecodeError> {
    let mut data = Blob::new(code);
    ByteCode::new(
        &mut data,
        &pool.classes,
        &pool.strings,
        &pool.string_refs,
        &pool.methods,
        &pool.fields,
        &pool.name_types,
    )
}

fn class_with_main(name: &str, code: ByteCode) -> JavaClass {
    JavaClass::Bytecode(BytecodeClass {
        name: name.to_string(),
        super_name: "java/lang/Object".to_string(),
        interfaces: Vec::new(),
        static_fields: Vec::new(),
        fields: Vec::new(),
        methods: vec![Method {
            name: "main".to_string(),
            type_desc: "()V".to_string(),
            max_stack: 4,
            max_locals: 4,
            code,
        }],
    })
}

fn string_ref(text: &str) -> ConstantStringRef {
    ConstantStringRef { value: text.to_string() }
}

fn method_ref(class: &str, method: &str, desc: &str) -> ConstantMethod {
    ConstantMethod {
        class_name: class.to_string(),
        method_name: method.to_string(),
        type_desc: desc.to_string(),
    }
}

#[test]
fn scenario_constant_and_return() {
    // iconst_2, istore_1, iload_1, return
    let code = decode(vec![0x05, 0x3c, 0x1b, 0xb1], &empty_pool()).unwrap();
    let mut sf = StackFrame::empty();
    let mut jvm = JVM::new();
    let classes = Classes::new();
    assert_eq!(code.run(&mut sf, &mut jvm, &classes, 100), Ok(()));
    assert_eq!(sf.get_variable(1), Ok(Value::Integer(2)));
    // iload_1 pushed the local once more before the return: the operand
    // stack is left as it is.
    assert_eq!(sf.stack, vec![Value::Integer(2)]);
    assert_eq!(jvm.stdout, "");
}

#[test]
fn scenario_hello_world() {
    let mut pool = empty_pool();
    pool.fields.insert(
        1,
        ConstantField {
            class_name: "java/lang/System".to_string(),
            field_name: "out".to_string(),
            type_desc: "Ljava/io/PrintStream;".to_string(),
        },
    );
    pool.string_refs.insert(2, string_ref("hi"));
    pool.methods.insert(3, method_ref("java/io/PrintStream", "println", "(Ljava/lang/String;)V"));
    // getstatic #1, ldc #2, invokevirtual #3, return
    let code = decode(vec![0xb2, 0, 1, 0x12, 2, 0xb6, 0, 3, 0xb1], &pool).unwrap();

    let mut classes = Classes::new();
    register_native_classes(&mut classes);
    classes.add(class_with_main("Hello", code));

    let mut sf = StackFrame::empty();
    let mut jvm = JVM::new();
    let outcome = classes.invoke_static("Hello", "main", 0, &mut sf, &mut jvm, 1000);
    assert_eq!(outcome, Ok(()));
    assert_eq!(jvm.stdout, "hi\n");
    assert_eq!(exit_code(&outcome), 0);
    // invokevirtual takes nothing off the stack: the receiver and the text
    // are what main left, and what its caller finds.
    assert_eq!(sf.stack, vec![Value::Instance(0), Value::String("hi".to_string())]);
}

#[test]
fn scenario_branch() {
    // 0: iconst_1, 1: ifne +7 (-> 8), 4: iconst_0, 5: goto +4 (-> 9),
    // 8: iconst_2, 9: istore_1, 10: return
    let code = decode(
        vec![0x04, 0x9a, 0, 7, 0x03, 0xa7, 0, 4, 0x05, 0x3c, 0xb1],
        &empty_pool(),
    )
    .unwrap();
    let mut sf = StackFrame::empty();
    let mut jvm = JVM::new();
    let classes = Classes::new();
    assert_eq!(code.run(&mut sf, &mut jvm, &classes, 100), Ok(()));
    assert_eq!(sf.get_variable(1), Ok(Value::Integer(2)));
    assert_eq!(sf.depth(), 0);
}

#[test]
fn scenario_array_round_trip() {
    let mut pool = empty_pool();
    pool.classes.insert(1, ConstantClass { name: "java/lang/Object".to_string() });
    pool.string_refs.insert(2, string_ref("a"));
    pool.string_refs.insert(3, string_ref("b"));
    // iconst_2, anewarray #1, dup, iconst_0, ldc "a", aastore,
    // dup, iconst_1, ldc "b", aastore, iconst_1, aaload, istore_1, return
    let code = decode(
        vec![
            0x05, 0xbd, 0, 1, 0x59, 0x03, 0x12, 2, 0x53, 0x59, 0x04, 0x12, 3, 0x53, 0x04, 0x32,
            0x3c, 0xb1,
        ],
        &pool,
    )
    .unwrap();
    let mut sf = StackFrame::empty();
    let mut jvm = JVM::new();
    let classes = Classes::new();
    assert_eq!(code.run(&mut sf, &mut jvm, &classes, 100), Ok(()));
    assert_eq!(sf.get_variable(1), Ok(Value::String("b".to_string())));
    assert_eq!(jvm.heap.load(0, 0), Ok(Value::String("a".to_string())));
    assert_eq!(jvm.heap.load(0, 1), Ok(Value::String("b".to_string())));
    assert_eq!(jvm.heap.array_len(0), Some(2));
}

#[test]
fn scenario_arithmetic() {
    // (10 - 3) % 4
    let sub = decode(vec![0x64, 0xb1], &empty_pool()).unwrap();
    let rem = decode(vec![0x70, 0xb1], &empty_pool()).unwrap();
    let mut sf = StackFrame::empty();
    let mut jvm = JVM::new();
    let classes = Classes::new();
    sf.push_int(10);
    sf.push_int(3);
    assert_eq!(sub.run(&mut sf, &mut jvm, &classes, 10), Ok(()));
    sf.push_int(4);
    assert_eq!(rem.run(&mut sf, &mut jvm, &classes, 10), Ok(()));
    assert_eq!(sf.depth(), 1);
    assert_eq!(sf.pop(), Ok(Value::Integer(3)));
}

#[test]
fn scenario_native_dispatch() {
    let mut pool = empty_pool();
    pool.string_refs.insert(1, string_ref("42"));
    pool.methods.insert(2, method_ref("java/lang/Integer", "parseInt", "(Ljava/lang/String;)I"));
    // ldc "42", invokestatic #2, return
    let code = decode(vec![0x12, 1, 0xb8, 0, 2, 0xb1], &pool).unwrap();
    let mut classes = Classes::new();
    register_native_classes(&mut classes);
    let mut sf = StackFrame::empty();
    let mut jvm = JVM::new();
    assert_eq!(code.run(&mut sf, &mut jvm, &classes, 100), Ok(()));
    assert_eq!(sf.stack, vec![Value::Integer(42)]);
}

#[test]
fn compiled_method_takes_arguments_and_leaves_results() {
    // callee: iload_1, aload_0, isub, return    (second argument minus first)
    let callee = decode(vec![0x1b, 0x2a, 0x64, 0xb1], &empty_pool()).unwrap();
    let mut pool = empty_pool();
    pool.methods.insert(1, method_ref("Calc", "diff", "(II)I"));
    // caller: iconst_1, iconst_2, invokestatic #1, istore_2, return
    let caller = decode(vec![0x04, 0x05, 0xb8, 0, 1, 0x3d, 0xb1], &pool).unwrap();
    let class = JavaClass::Bytecode(BytecodeClass {
        name: "Calc".to_string(),
        super_name: String::new(),
        interfaces: Vec::new(),
        static_fields: Vec::new(),
        fields: Vec::new(),
        methods: vec![
            Method {
                name: "main".to_string(),
                type_desc: "()V".to_string(),
                max_stack: 2,
                max_locals: 3,
                code: caller,
            },
            Method {
                name: "diff".to_string(),
                type_desc: "(II)I".to_string(),
                max_stack: 2,
                max_locals: 2,
                code: callee,
            },
        ],
    });
    let mut classes = Classes::new();
    classes.add(class);
    let mut sf = StackFrame::empty();
    let mut jvm = JVM::new();
    assert_eq!(classes.invoke_static("Calc", "main", 0, &mut sf, &mut jvm, 100), Ok(()));
    // The frame of main is gone; its operand stack was empty at the return.
    assert_eq!(sf.depth(), 0);

    // Called directly, diff leaves its result on the caller's stack.
    sf.push_int(1);
    sf.push_int(2);
    assert_eq!(classes.invoke_static("Calc", "diff", 2, &mut sf, &mut jvm, 100), Ok(()));
    assert_eq!(sf.stack, vec![Value::Integer(1)]);
}

#[test]
fn a_loop_runs_out_of_fuel() {
    // 0: goto 0
    let code = decode(vec![0xa7, 0, 0], &empty_pool()).unwrap();
    let mut sf = StackFrame::empty();
    let mut jvm = JVM::new();
    let classes = Classes::new();
    let outcome = code.run(&mut sf, &mut jvm, &classes, 50);
    assert_eq!(outcome, Err(JvmError::OutOfFuel));
    assert_eq!(exit_code(&outcome), 1);
}

#[test]
fn running_off_the_end_is_an_error() {
    let code = decode(vec![0x03], &empty_pool()).unwrap();
    let mut sf = StackFrame::empty();
    let mut jvm = JVM::new();
    let classes = Classes::new();
    assert_eq!(
        code.run(&mut sf, &mut jvm, &classes, 50),
        Err(JvmError::Runtime(RuntimeError::PcOutOfRange))
    );
}

#[test]
fn link_errors() {
    let mut pool = empty_pool();
    pool.methods.insert(1, method_ref("Nowhere", "f", "()V"));
    pool.methods.insert(2, method_ref("Here", "missing", "()V"));
    pool.fields.insert(
        3,
        ConstantField {
            class_name: "java/lang/System".to_string(),
            field_name: "err".to_string(),
            type_desc: "Ljava/io/PrintStream;".to_string(),
        },
    );
    pool.methods.insert(4, method_ref("java/lang/Integer", "bitCount", "(I)I"));
    let mut classes = Classes::new();
    register_native_classes(&mut classes);
    classes.add(class_with_main("Here", decode(vec![0xb1], &empty_pool()).unwrap()));
    let mut jvm = JVM::new();

    let unknown_class = decode(vec![0xb8, 0, 1, 0xb1], &pool).unwrap();
    let mut sf = StackFrame::empty();
    assert_eq!(
        unknown_class.run(&mut sf, &mut jvm, &classes, 10),
        Err(JvmError::Link(LinkError::UnknownClass))
    );

    let unknown_method = decode(vec![0xb8, 0, 2, 0xb1], &pool).unwrap();
    let mut sf = StackFrame::empty();
    assert_eq!(
        unknown_method.run(&mut sf, &mut jvm, &classes, 10),
        Err(JvmError::Link(LinkError::UnknownMethod))
    );

    let unknown_field = decode(vec![0xb2, 0, 3, 0xb1], &pool).unwrap();
    let mut sf = StackFrame::empty();
    assert_eq!(
        unknown_field.run(&mut sf, &mut jvm, &classes, 10),
        Err(JvmError::Link(LinkError::UnknownField))
    );

    // A compiled method is handed the arguments that its descriptor declares.
    pool.methods.insert(5, method_ref("Here", "main", "V"));
    let no_list = decode(vec![0xb8, 0, 5, 0xb1], &pool).unwrap();
    let mut sf = StackFrame::empty();
    assert_eq!(
        no_list.run(&mut sf, &mut jvm, &classes, 10),
        Err(JvmError::Runtime(RuntimeError::BadDescriptor))
    );

    let not_modelled = decode(vec![0xb8, 0, 4, 0xb1], &pool).unwrap();
    let mut sf = StackFrame::empty();
    sf.push_int(1);
    assert_eq!(
        not_modelled.run(&mut sf, &mut jvm, &classes, 10),
        Err(JvmError::NotImplemented)
    );
}

#[test]
fn what_was_written_survives_a_failure() {
    let mut pool = empty_pool();
    pool.fields.insert(
        1,
        ConstantField {
            class_name: "java/lang/System".to_string(),
            field_name: "out".to_string(),
            type_desc: "Ljava/io/PrintStream;".to_string(),
        },
    );
    pool.string_refs.insert(2, string_ref("before"));
    pool.methods.insert(3, method_ref("java/io/PrintStream", "println", "(Ljava/lang/String;)V"));
    // getstatic #1, ldc #2, invokevirtual #3, iconst_1, iconst_0, idiv, return
    let code = decode(vec![0xb2, 0, 1, 0x12, 2, 0xb6, 0, 3, 0x04, 0x03, 0x6c, 0xb1], &pool).unwrap();
    let mut classes = Classes::new();
    register_native_classes(&mut classes);
    classes.add(class_with_main("Fails", code));
    let mut jvm = JVM::new();
    assert_eq!(classes.run("Fails", "main", Vec::new(), &mut jvm, 1000), 1);
    assert_eq!(jvm.stdout, "before\n");
    let mut sf = StackFrame::empty();
    let mut jvm = JVM::new();
    assert_eq!(
        classes.invoke_static("Fails", "main", 0, &mut sf, &mut jvm, 1000),
        Err(JvmError::Runtime(RuntimeError::DivisionByZero))
    );
    assert_eq!(jvm.stdout, "before\n");
    // Out of fuel after the text was written.
    let mut jvm = JVM::new();
    assert_eq!(classes.run("Fails", "main", Vec::new(), &mut jvm, 4), 1);
    assert_eq!(jvm.stdout, "before\n");
    let mut jvm = JVM::new();
    assert_eq!(classes.run("Fails", "main", Vec::new(), &mut jvm, 2), 1);
    assert_eq!(jvm.stdout, "");
}
