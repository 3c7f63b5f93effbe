use mini_jvm::blob::Blob;
use mini_jvm::bytecode::Instruction;
use mini_jvm::class_file::{default_for, parse_field, skip_attributes, split_fields, FieldInfo};
use mini_jvm::classes::Classes;
use mini_jvm::constant_pool::{parse_constant, parse_pool, ConstantPool, RawConstant};
use mini_jvm::errors::{DecodeError, JvmError};
use mini_jvm::java_class::{BytecodeClass, JavaClass};
use mini_jvm::jvm::{StackFrame, Value, JVM};
use mini_jvm::native_java_classes::register_native_classes;

fn u16be(out: &mut Vec<u8>, v: u16) {
    out.push((v >> 8) as u8);
    out.push(v as u8);
}

fn u32be(out: &mut Vec<u8>, v: u32) {
    u16be(out, (v >> 16) as u16);
    u16be(out, v as u16);
}

fn utf8(out: &mut Vec<u8>, s: &str) {
    out.push(1);
    u16be(out, s.len() as u16);
    out.extend_from_slice(s.as_bytes());
}

fn class_entry(out: &mut Vec<u8>, name: u16) {
    out.push(7);
    u16be(out, name);
}

fn pair(out: &mut Vec<u8>, tag: u8, a: u16, b: u16) {
    out.push(tag);
    u16be(out, a);
    u16be(out, b);
}

/// The constant pool of `Hello`, 21 entries.
fn hello_pool(out: &mut Vec<u8>) {
    u16be(out, 22);
    utf8(out, "Hello"); // 1
    class_entry(out, 1); // 2
    utf8(out, "java/lang/Object"); // 3
    class_entry(out, 3); // 4
    utf8(out, "java/lang/System"); // 5
    class_entry(out, 5); // 6
    utf8(out, "out"); // 7
    utf8(out, "Ljava/io/PrintStream;"); // 8
    pair(out, 12, 7, 8); // 9
    pair(out, 9, 6, 9); // 10
    utf8(out, "hi"); // 11
    out.push(8); // 12
    u16be(out, 11);
    utf8(out, "java/io/PrintStream"); // 13
    class_entry(out, 13); // 14
    utf8(out, "println"); // 15
    utf8(out, "(Ljava/lang/String;)V"); // 16
    pair(out, 12, 15, 16); // 17
    pair(out, 10, 14, 17); // 18
    utf8(out, "main"); // 19
    utf8(out, "([Ljava/lang/String;)V"); // 20
    utf8(out, "Code"); // 21
}

fn hello_class() -> Vec<u8> {
    let mut out = Vec::new();
    u32be(&mut out, 0xCAFEBABE);
    u16be(&mut out, 0);
    u16be(&mut out, 52);
    hello_pool(&mut out);
    u16be(&mut out, 0x0021); // access flags
    u16be(&mut out, 2); // this
    u16be(&mut out, 4); // super
    u16be(&mut out, 1); // interfaces
    u16be(&mut out, 4);
    u16be(&mut out, 2); // fields
    // static int, with one attribute of three bytes
    u16be(&mut out, 0x0008);
    u16be(&mut out, 7);
    u16be(&mut out, 16);
    u16be(&mut out, 1);
    u16be(&mut out, 21);
    u32be(&mut out, 3);
    out.extend_from_slice(&[1, 2, 3]);
    // instance field
    u16be(&mut out, 0x0002);
    u16be(&mut out, 19);
    u16be(&mut out, 8);
    u16be(&mut out, 0);
    u16be(&mut out, 2); // methods
    // main, with an attribute before Code
    u16be(&mut out, 0x0009);
    u16be(&mut out, 19);
    u16be(&mut out, 20);
    u16be(&mut out, 2);
    u16be(&mut out, 7);
    u32be(&mut out, 1);
    out.push(0);
    let code: [u8; 9] = [0xb2, 0, 10, 0x12, 12, 0xb6, 0, 18, 0xb1];
    u16be(&mut out, 21);
    u32be(&mut out, 12 + code.len() as u32);
    u16be(&mut out, 2); // max stack
    u16be(&mut out, 1); // max locals
    u32be(&mut out, code.len() as u32);
    out.extend_from_slice(&code);
    u16be(&mut out, 0); // exception table
    u16be(&mut out, 0); // attributes
    // a method without code
    u16be(&mut out, 0x0401);
    u16be(&mut out, 15);
    u16be(&mut out, 16);
    u16be(&mut out, 0);
    out
}

fn load(bytes: Vec<u8>) -> Result<BytecodeClass, DecodeError> {
    let mut data = Blob::new(bytes);
    BytecodeClass::new(&mut data)
}

fn class_error(r: Result<BytecodeClass, DecodeError>) -> DecodeError {
    match r {
        Ok(_) => panic!("the class was decoded"),
        Err(e) => e,
    }
}

#[test]
fn a_class_file_is_decoded() {
    let class = load(hello_class()).unwrap();
    assert_eq!(class.name, "Hello");
    assert_eq!(class.super_name, "java/lang/Object");
    assert_eq!(class.interfaces, vec!["java/lang/Object".to_string()]);
    assert_eq!(class.static_fields.len(), 1);
    assert_eq!(class.static_fields[0].name, "out");
    assert_eq!(class.static_fields[0].value, Value::Null);
    assert_eq!(class.fields, vec!["main".to_string()]);
    assert_eq!(class.methods.len(), 2);
    let main = &class.methods[0];
    assert_eq!(main.name, "main");
    assert_eq!(main.type_desc, "([Ljava/lang/String;)V");
    assert_eq!(main.max_stack, 2);
    assert_eq!(main.max_locals, 1);
    assert_eq!(main.code.instructions.len(), 4);
    match &main.code.instructions[0] {
        Instruction::GetStatic(i) => {
            assert_eq!(i.class_name, "java/lang/System");
            assert_eq!(i.field_name, "out");
            assert_eq!(i.type_desc, "Ljava/io/PrintStream;");
        }
        _ => panic!("not getstatic"),
    }
    match &main.code.instructions[1] {
        Instruction::Ldc(i) => assert_eq!(i.string, "hi"),
        _ => panic!("not ldc"),
    }
    match &main.code.instructions[2] {
        Instruction::InvokeVirtual(i) => {
            assert_eq!(i.class_name, "java/io/PrintStream");
            assert_eq!(i.method_name, "println");
            assert_eq!(i.type_desc, "(Ljava/lang/String;)V");
        }
        _ => panic!("not invokevirtual"),
    }
    assert_eq!(main.code.address_map.get(&5), Some(&2));
    let abstract_method = &class.methods[1];
    assert_eq!(abstract_method.name, "println");
    assert_eq!(abstract_method.code.instructions.len(), 0);
    assert_eq!(abstract_method.max_stack, 0);
}

#[test]
fn a_decoded_class_runs() {
    let class = load(hello_class()).unwrap();
    let mut classes = Classes::new();
    register_native_classes(&mut classes);
    classes.add(JavaClass::Bytecode(class));
    let mut sf = StackFrame::empty();
    let mut jvm = JVM::new();
    sf.push(Value::Null);
    assert_eq!(classes.invoke_static("Hello", "main", 1, &mut sf, &mut jvm, 1000), Ok(()));
    assert_eq!(jvm.stdout, "hi\n");
    assert_eq!(sf.stack, vec![Value::Instance(0), Value::String("hi".to_string())]);
}

#[test]
fn decoding_a_class_twice_gives_the_same_class() {
    let first = load(hello_class()).unwrap();
    let second = load(hello_class()).unwrap();
    assert_eq!(first.name, second.name);
    assert_eq!(first.methods.len(), second.methods.len());
    for k in 0..first.methods.len() {
        assert_eq!(first.methods[k].name, second.methods[k].name);
        assert_eq!(first.methods[k].code.address_map, second.methods[k].code.address_map);
        assert_eq!(
            first.methods[k].code.instructions.len(),
            second.methods[k].code.instructions.len()
        );
    }
}

#[test]
fn class_file_errors() {
    assert_eq!(class_error(load(vec![0xCA, 0xFE, 0xBA])), DecodeError::Truncated);
    assert_eq!(class_error(load(vec![0xCA, 0xFE, 0xBA, 0xBF, 0, 0, 0, 52, 0, 1])), DecodeError::BadMagic);
    assert_eq!(class_error(load(vec![0xCA, 0xFE, 0xBA, 0xBE, 0, 0, 0, 52])), DecodeError::Truncated);
    let whole = hello_class();
    for cut in [9, 10, 20, 200, whole.len() - 40, whole.len() - 1] {
        assert_eq!(class_error(load(whole[..cut].to_vec())), DecodeError::Truncated);
    }
    // An unknown tag in the first slot.
    let mut bad_tag = whole.clone();
    bad_tag[10] = 2;
    assert_eq!(class_error(load(bad_tag)), DecodeError::UnknownTag(2));
    // The text of the first entry is not UTF-8.
    let mut bad_text = whole.clone();
    bad_text[13] = 0xff;
    assert_eq!(class_error(load(bad_text)), DecodeError::InvalidUtf8);
    // The class entry in slot 2 names slot 2.
    let mut loops = whole.clone();
    loops[20] = 2;
    assert_eq!(class_error(load(loops)), DecodeError::UnresolvedReference);
    // The code holds an opcode that is not supported.
    let mut bad_code = whole.clone();
    let at = bad_code.len() - 13;
    assert_eq!(bad_code[at], 0xb1);
    bad_code[at] = 0xca;
    assert_eq!(class_error(load(bad_code)), DecodeError::UnknownOpcode(0xca));
}

#[test]
fn constants_of_every_kind() {
    let mut bytes = Vec::new();
    utf8(&mut bytes, "é");
    bytes.push(3);
    u32be(&mut bytes, 0xffff_fffe);
    bytes.push(4);
    u32be(&mut bytes, 0x3fc0_0000);
    bytes.push(5);
    u32be(&mut bytes, 1);
    u32be(&mut bytes, 2);
    bytes.push(6);
    u32be(&mut bytes, 0x4002_0000);
    u32be(&mut bytes, 0);
    class_entry(&mut bytes, 0x0102);
    bytes.push(8);
    u16be(&mut bytes, 3);
    pair(&mut bytes, 9, 1, 2);
    pair(&mut bytes, 10, 3, 4);
    pair(&mut bytes, 12, 5, 6);
    bytes.push(11);
    let mut data = Blob::new(bytes);
    assert!(matches!(parse_constant(&mut data), Ok(RawConstant::Utf8(s)) if s == "é"));
    assert!(matches!(parse_constant(&mut data), Ok(RawConstant::Integer(0xffff_fffe))));
    assert!(matches!(parse_constant(&mut data), Ok(RawConstant::Float(0x3fc0_0000))));
    assert!(matches!(parse_constant(&mut data), Ok(RawConstant::Long(0x1_0000_0002))));
    assert!(matches!(parse_constant(&mut data), Ok(RawConstant::Double(0x4002_0000_0000_0000))));
    assert_eq!(f64::from_bits(0x4002_0000_0000_0000), 2.25f64);
    assert_eq!(f32::from_bits(0x3fc0_0000), 1.5f32);
    assert!(matches!(parse_constant(&mut data), Ok(RawConstant::Class(0x0102))));
    assert!(matches!(parse_constant(&mut data), Ok(RawConstant::StringRef(3))));
    assert!(matches!(parse_constant(&mut data), Ok(RawConstant::FieldRef(1, 2))));
    assert!(matches!(parse_constant(&mut data), Ok(RawConstant::MethodRef(3, 4))));
    assert!(matches!(parse_constant(&mut data), Ok(RawConstant::NameAndType(5, 6))));
    assert!(matches!(parse_constant(&mut data), Err(DecodeError::UnknownTag(11))));
    let mut short = Blob::new(vec![5, 0, 0, 0, 1, 0, 0, 0]);
    assert!(matches!(parse_constant(&mut short), Err(DecodeError::Truncated)));
    let mut none = Blob::new(Vec::new());
    assert!(matches!(parse_constant(&mut none), Err(DecodeError::Truncated)));
}

#[test]
fn a_long_takes_two_slots() {
    let mut bytes = Vec::new();
    bytes.push(5);
    u32be(&mut bytes, 0);
    u32be(&mut bytes, 7);
    utf8(&mut bytes, "x");
    let mut data = Blob::new(bytes);
    let entries = parse_pool(&mut data, 4).unwrap();
    assert_eq!(entries.len(), 4);
    assert!(matches!(entries[0], RawConstant::Unusable));
    assert!(matches!(entries[1], RawConstant::Long(7)));
    assert!(matches!(entries[2], RawConstant::Unusable));
    assert!(matches!(&entries[3], RawConstant::Utf8(s) if s == "x"));
    assert!(!data.has_more_data());
    let mut nothing = Blob::new(vec![9, 9]);
    assert_eq!(parse_pool(&mut nothing, 1).unwrap().len(), 1);
    assert_eq!(parse_pool(&mut nothing, 0).unwrap().len(), 1);
    assert_eq!(nothing.get_offset(), 0);
}

#[test]
fn the_pool_is_resolved() {
    let mut bytes = Vec::new();
    hello_pool(&mut bytes);
    let mut data = Blob::new(bytes);
    assert_eq!(data.get_u16(), Ok(22));
    let entries = parse_pool(&mut data, 22).unwrap();
    let pool = match ConstantPool::resolve(&entries) {
        Ok(pool) => pool,
        Err(_) => panic!("the pool does not resolve"),
    };
    assert_eq!(pool.strings.len(), 12);
    assert_eq!(pool.strings[&11].value, "hi");
    assert_eq!(pool.string_refs.len(), 1);
    assert_eq!(pool.string_refs[&12].value, "hi");
    assert_eq!(pool.classes.len(), 4);
    assert_eq!(pool.classes[&6].name, "java/lang/System");
    assert_eq!(pool.name_types.len(), 2);
    assert_eq!(pool.name_types[&9].name, "out");
    assert_eq!(pool.name_types[&9].type_desc, "Ljava/io/PrintStream;");
    assert_eq!(pool.fields.len(), 1);
    assert_eq!(pool.fields[&10].class_name, "java/lang/System");
    assert_eq!(pool.fields[&10].field_name, "out");
    assert_eq!(pool.fields[&10].type_desc, "Ljava/io/PrintStream;");
    assert_eq!(pool.methods.len(), 1);
    assert_eq!(pool.methods[&18].class_name, "java/io/PrintStream");
    assert_eq!(pool.methods[&18].method_name, "println");
    assert_eq!(pool.methods[&18].type_desc, "(Ljava/lang/String;)V");
}

#[test]
fn references_must_resolve() {
    let dangling = vec![RawConstant::Unusable, RawConstant::Class(5)];
    assert!(matches!(ConstantPool::resolve(&dangling), Err(DecodeError::UnresolvedReference)));
    let wrong_kind = vec![
        RawConstant::Unusable,
        RawConstant::Utf8("a".to_string()),
        RawConstant::Class(1),
        RawConstant::StringRef(2),
    ];
    assert!(matches!(ConstantPool::resolve(&wrong_kind), Err(DecodeError::UnresolvedReference)));
    let half = vec![
        RawConstant::Unusable,
        RawConstant::Utf8("a".to_string()),
        RawConstant::Class(1),
        RawConstant::NameAndType(1, 1),
        RawConstant::MethodRef(2, 2),
    ];
    assert!(matches!(ConstantPool::resolve(&half), Err(DecodeError::UnresolvedReference)));
    let whole = vec![
        RawConstant::Unusable,
        RawConstant::Utf8("a".to_string()),
        RawConstant::Class(1),
        RawConstant::NameAndType(1, 1),
        RawConstant::MethodRef(2, 3),
        RawConstant::Integer(1),
    ];
    assert!(ConstantPool::resolve(&whole).is_ok());
}

#[test]
fn fields_and_attributes() {
    let entries = vec![
        RawConstant::Unusable,
        RawConstant::Utf8("count".to_string()),
        RawConstant::Utf8("I".to_string()),
    ];
    let mut bytes = Vec::new();
    u16be(&mut bytes, 0x000a);
    u16be(&mut bytes, 1);
    u16be(&mut bytes, 2);
    u16be(&mut bytes, 1);
    u16be(&mut bytes, 9);
    u32be(&mut bytes, 2);
    bytes.extend_from_slice(&[0, 0, 0xee]);
    let mut data = Blob::new(bytes.clone());
    let field = match parse_field(&mut data, &entries) {
        Ok(field) => field,
        Err(_) => panic!("the field was not read"),
    };
    assert_eq!(field.access_flags, 0x000a);
    assert_eq!(field.name, "count");
    assert_eq!(field.type_desc, "I");
    assert_eq!(data.get_u8(), Ok(0xee));

    let mut attributes = Blob::new(bytes[8..].to_vec());
    assert_eq!(skip_attributes(&mut attributes, 1), Ok(()));
    assert_eq!(attributes.get_offset(), 8);
    attributes.rewind();
    assert_eq!(skip_attributes(&mut attributes, 2), Err(DecodeError::Truncated));
    attributes.rewind();
    assert_eq!(skip_attributes(&mut attributes, 0), Ok(()));
    assert_eq!(attributes.get_offset(), 0);

    let mut unresolved = Blob::new(vec![0, 0, 0, 7, 0, 2, 0, 0]);
    assert!(matches!(
        parse_field(&mut unresolved, &entries),
        Err(DecodeError::UnresolvedReference)
    ));

    let declared = vec![
        FieldInfo { access_flags: 0x0008, name: "a".to_string(), type_desc: "I".to_string() },
        FieldInfo { access_flags: 0x0001, name: "b".to_string(), type_desc: "I".to_string() },
        FieldInfo { access_flags: 0x0019, name: "c".to_string(), type_desc: "Z".to_string() },
        FieldInfo { access_flags: 0x0010, name: "d".to_string(), type_desc: "J".to_string() },
    ];
    let (statics, names) = split_fields(&declared);
    assert_eq!(statics.len(), 2);
    assert_eq!(statics[0].name, "a");
    assert_eq!(statics[0].value, Value::Integer(0));
    assert_eq!(statics[1].name, "c");
    assert_eq!(statics[1].value, Value::Bool(false));
    assert_eq!(names, vec!["b".to_string(), "d".to_string()]);
    assert_eq!(default_for("J"), Value::Long(0));
    assert_eq!(default_for("F"), Value::Float(0));
    assert_eq!(default_for("D"), Value::Double(0));
    assert_eq!(default_for("Ljava/lang/String;"), Value::Null);
    assert_eq!(default_for("[I"), Value::Null);
    assert_eq!(default_for(""), Value::Null);
    assert_eq!(default_for("S"), Value::Integer(0));
}

#[test]
fn the_registry_loads_class_files() {
    let mut classes = Classes::new();
    register_native_classes(&mut classes);
    let before = classes.classes.len();
    let mut broken = Blob::new(vec![0xCA, 0xFE, 0xBA, 0xBE, 0, 0]);
    assert_eq!(classes.load(&mut broken), Err(JvmError::Decode(DecodeError::Truncated)));
    let mut wrong = Blob::new(vec![0, 0, 0, 0]);
    assert_eq!(classes.load(&mut wrong), Err(JvmError::Decode(DecodeError::BadMagic)));
    assert_eq!(classes.classes.len(), before);
    let mut data = Blob::new(hello_class());
    assert_eq!(classes.load(&mut data), Ok(()));
    assert_eq!(classes.classes.len(), before + 1);
    assert!(classes.get_class("Hello").is_some());
    let mut jvm = JVM::new();
    assert_eq!(classes.run("Hello", "main", vec![Value::Null], &mut jvm, 100), 0);
    assert_eq!(jvm.stdout, "hi\n");
    // Too little fuel for the four instructions of main.
    let mut jvm = JVM::new();
    assert_eq!(classes.run("Hello", "main", vec![Value::Null], &mut jvm, 3), 1);
}
