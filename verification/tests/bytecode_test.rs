use mini_jvm::bytecode::{
    ByteCodeInstruction, InstrIAdd, InstrIShl, InstrIShr, InstrLShl, InstrLShr,
};
use mini_jvm::classes::Classes;
use mini_jvm::jvm::{StackFrame, Value, JVM};

fn get_stack_frame() -> StackFrame {
    let variables: [Value; 16] = [
        Value::Null,
        Value::Null,
        Value::Null,
        Value::Null,
        Value::Null,
        Value::Null,
        Value::Null,
        Value::Null,
        Value::Null,
        Value::Null,
        Value::Null,
        Value::Null,
        Value::Null,
        Value::Null,
        Value::Null,
        Value::Null,
    ];

    StackFrame::new(variables)
}

#[test]
fn test_instr_iadd() {
    let mut sf = get_stack_frame();
    let mut jvm = JVM::new();
    let classes = Classes::new();
    sf.push_int(42);
    sf.push_int(3);

    let instr = InstrIAdd {};
    let _ = instr.execute(&mut sf, &mut jvm, &classes, 1);

    let result = sf.pop_int();
    assert_eq!(result, Ok(45));
}

#[test]
fn test_instr_ishl() {
    let mut sf = get_stack_frame();
    let mut jvm = JVM::new();
    let classes = Classes::new();
    sf.push_int(42);
    sf.push_int(3);

    let instr = InstrIShl {};
    let _ = instr.execute(&mut sf, &mut jvm, &classes, 1);

    let result = sf.pop_int();
    assert_eq!(result, Ok(336));
}

#[test]
fn test_instr_lshl() {
    let mut sf = get_stack_frame();
    let mut jvm = JVM::new();
    let classes = Classes::new();
    sf.push_long(42);
    sf.push_long(34);

    let instr = InstrLShl {};
    let _ = instr.execute(&mut sf, &mut jvm, &classes, 1);

    let result = sf.pop_long();
    assert_eq!(result, Ok(721554505728));
}

#[test]
fn test_instr_ishr() {
    let mut sf = get_stack_frame();
    let mut jvm = JVM::new();
    let classes = Classes::new();
    sf.push_int(336);
    sf.push_int(3);

    let instr = InstrIShr {};
    let _ = instr.execute(&mut sf, &mut jvm, &classes, 1);

    let result = sf.pop_int();
    assert_eq!(result, Ok(42));
}

#[test]
fn test_instr_lshr() {
    let mut sf = get_stack_frame();
    let mut jvm = JVM::new();
    let classes = Classes::new();
    sf.push_long(721554505728);
    sf.push_long(34);

    let instr = InstrLShr {};
    let _ = instr.execute(&mut sf, &mut jvm, &classes, 1);

    let result = sf.pop_long();
    assert_eq!(result, Ok(42));
}
