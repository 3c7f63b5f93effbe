//! The instructions of the machine: what each opcode does to a frame, how a
//! code stream is decoded into instructions, and the loop that runs them.

use vstd::prelude::*;
use std::collections::HashMap;
use crate::arith::{iadd, idiv, irem, ishl, ishr, isub, lshl, lshr};
use crate::blob::Blob;
use crate::classes::{find_class, Classes};
use crate::decoder::{
    address_map_of, branches_resolve, decode_all, decode_at, decode_spec, instrs_of, length_of,
    lemma_relocated_branches_resolve, pool_view, prepend, relocate_all, ByteCodeView,
};
use crate::descriptor::arity;
use crate::errors::{DecodeError, JvmError, LinkError, RuntimeError};
use crate::java_class::{
    ConstantClass, ConstantField, ConstantMethod, ConstantNameType, ConstantString,
    ConstantStringRef, JavaClass,
};
use crate::jvm::{FrameView, JvmView, StackFrame, JVM};
use crate::native_java_classes::native_execute_static_method;
use crate::semantics::{run_output, run_spec, step_output, step_spec};

verus! {

/// What the dispatch loop does after an instruction.
#[allow(non_camel_case_types)]
#[derive(Debug, Clone, Copy, PartialEq, Eq)]
pub enum InstrNextAction {
    /// Go on with the next instruction.
    NEXT,
    /// The method ends; the operand stack stays as it is.
    RETURN,
    /// Go on with the instruction at this index.
    GOTO(usize),
}

/// An instruction as the contracts see it: the opcode and its operands, texts
/// as sequences of characters.
pub enum Instr {
    ALoad0,
    Return,
    IConst0,
    IConst1,
    IConst2,
    AALoad,
    AAStore,
    IStore1,
    IStore2,
    IAdd,
    ISub,
    IDiv,
    IRem,
    IShl,
    IShr,
    LShl,
    LShr,
    ILoad1,
    ILoad2,
    Dup,
    InvokeSpecial { class_name: Seq<char>, method_name: Seq<char>, type_desc: Seq<char> },
    GetStatic { class_name: Seq<char>, field_name: Seq<char>, type_desc: Seq<char> },
    InvokeVirtual { class_name: Seq<char>, method_name: Seq<char>, type_desc: Seq<char> },
    InvokeStatic { class_name: Seq<char>, method_name: Seq<char>, type_desc: Seq<char> },
    Ldc(Seq<char>),
    Ifne(usize),
    Goto(usize),
    ANewArray(Seq<char>),
}

/// `aload_0`: pushes local variable 0.
pub struct InstrALoad0 {}

impl View for InstrALoad0 {
    type V = Instr;

    open spec fn view(&self) -> Instr {
        Instr::ALoad0
    }
}

/// `return`: ends the method.
pub struct InstrReturn {}

impl View for InstrReturn {
    type V = Instr;

    open spec fn view(&self) -> Instr {
        Instr::Return
    }
}

/// `iconst_0`: pushes the integer 0.
pub struct InstrIConst0 {}

impl View for InstrIConst0 {
    type V = Instr;

    open spec fn view(&self) -> Instr {
        Instr::IConst0
    }
}

/// `iconst_1`: pushes the integer 1.
pub struct InstrIConst1 {}

impl View for InstrIConst1 {
    type V = Instr;

    open spec fn view(&self) -> Instr {
        Instr::IConst1
    }
}

/// `iconst_2`: pushes the integer 2.
pub struct InstrIConst2 {}

impl View for InstrIConst2 {
    type V = Instr;

    open spec fn view(&self) -> Instr {
        Instr::IConst2
    }
}

/// `aaload`: pops an index and an array, pushes the slot.
pub struct InstrAALoad {}

impl View for InstrAALoad {
    type V = Instr;

    open spec fn view(&self) -> Instr {
        Instr::AALoad
    }
}

/// `aastore`: pops a value, an index and an array, writes the slot.
pub struct InstrAAStore {}

impl View for InstrAAStore {
    type V = Instr;

    open spec fn view(&self) -> Instr {
        Instr::AAStore
    }
}

/// `istore_1`: pops a value into local variable 1.
pub struct InstrIStore1 {}

impl View for InstrIStore1 {
    type V = Instr;

    open spec fn view(&self) -> Instr {
        Instr::IStore1
    }
}

/// `istore_2`: pops a value into local variable 2.
pub struct InstrIStore2 {}

impl View for InstrIStore2 {
    type V = Instr;

    open spec fn view(&self) -> Instr {
        Instr::IStore2
    }
}

/// `iadd`: pops two integers, pushes their sum.
pub struct InstrIAdd {}

impl View for InstrIAdd {
    type V = Instr;

    open spec fn view(&self) -> Instr {
        Instr::IAdd
    }
}

/// `isub`: pops `b` then `a`, pushes `a - b`.
pub struct InstrISub {}

impl View for InstrISub {
    type V = Instr;

    open spec fn view(&self) -> Instr {
        Instr::ISub
    }
}

/// `idiv`: pops `b` then `a`, pushes `a / b`.
pub struct InstrIDiv {}

impl View for InstrIDiv {
    type V = Instr;

    open spec fn view(&self) -> Instr {
        Instr::IDiv
    }
}

/// `irem`: pops `b` then `a`, pushes `a % b`.
pub struct InstrIRem {}

impl View for InstrIRem {
    type V = Instr;

    open spec fn view(&self) -> Instr {
        Instr::IRem
    }
}

/// `ishl`: pops a count then `a`, pushes `a` shifted left.
pub struct InstrIShl {}

impl View for InstrIShl {
    type V = Instr;

    open spec fn view(&self) -> Instr {
        Instr::IShl
    }
}

/// `ishr`: pops a count then `a`, pushes `a` shifted right, sign kept.
pub struct InstrIShr {}

impl View for InstrIShr {
    type V = Instr;

    open spec fn view(&self) -> Instr {
        Instr::IShr
    }
}

/// `lshl`: pops a count then a long, pushes it shifted left.
pub struct InstrLShl {}

impl View for InstrLShl {
    type V = Instr;

    open spec fn view(&self) -> Instr {
        Instr::LShl
    }
}

/// `lshr`: pops a count then a long, pushes it shifted right, sign kept.
pub struct InstrLShr {}

impl View for InstrLShr {
    type V = Instr;

    open spec fn view(&self) -> Instr {
        Instr::LShr
    }
}

/// `iload_1`: pushes local variable 1.
pub struct InstrILoad1 {}

impl View for InstrILoad1 {
    type V = Instr;

    open spec fn view(&self) -> Instr {
        Instr::ILoad1
    }
}

/// `iload_2`: pushes local variable 2.
pub struct InstrILoad2 {}

impl View for InstrILoad2 {
    type V = Instr;

    open spec fn view(&self) -> Instr {
        Instr::ILoad2
    }
}

/// `dup`: pushes a copy of the top of the stack.
pub struct InstrDup {}

impl View for InstrDup {
    type V = Instr;

    open spec fn view(&self) -> Instr {
        Instr::Dup
    }
}

/// `invokespecial`: reserved for constructor chaining; does nothing.
pub struct InstrInvokeSpecial {
    pub class_name: String,
    pub method_name: String,
    pub type_desc: String,
}

impl View for InstrInvokeSpecial {
    type V = Instr;

    open spec fn view(&self) -> Instr {
        Instr::InvokeSpecial {
            class_name: self.class_name@,
            method_name: self.method_name@,
            type_desc: self.type_desc@,
        }
    }
}

/// `getstatic`: looks the owner up in the registry, reads its static field and
/// pushes the value.
pub struct InstrGetStatic {
    pub class_name: String,
    pub field_name: String,
    pub type_desc: String,
}

impl View for InstrGetStatic {
    type V = Instr;

    open spec fn view(&self) -> Instr {
        Instr::GetStatic {
            class_name: self.class_name@,
            field_name: self.field_name@,
            type_desc: self.type_desc@,
        }
    }
}

/// `invokevirtual`: looks the owner up in the registry and calls its instance
/// method on the frame as it is. The receiver and the arguments that the
/// descriptor declares are read from the operand stack and stay on it; what
/// the method returns is put on top of them.
pub struct InstrInvokeVirtual {
    pub class_name: String,
    pub method_name: String,
    pub type_desc: String,
}

impl View for InstrInvokeVirtual {
    type V = Instr;

    open spec fn view(&self) -> Instr {
        Instr::InvokeVirtual {
            class_name: self.class_name@,
            method_name: self.method_name@,
            type_desc: self.type_desc@,
        }
    }
}

/// `invokestatic`: looks the owner up in the registry and calls its static
/// method. An intrinsic method takes its arguments from the operand stack
/// itself; a compiled method is handed the arguments that the descriptor
/// declares, which are taken off the stack. What the method returns is left
/// on the stack.
pub struct InstrInvokeStatic {
    pub class_name: String,
    pub method_name: String,
    pub type_desc: String,
}

impl View for InstrInvokeStatic {
    type V = Instr;

    open spec fn view(&self) -> Instr {
        Instr::InvokeStatic {
            class_name: self.class_name@,
            method_name: self.method_name@,
            type_desc: self.type_desc@,
        }
    }
}

/// `ldc`: pushes a text of the constant pool.
pub struct InstrLdc {
    pub string: String,
}

impl View for InstrLdc {
    type V = Instr;

    open spec fn view(&self) -> Instr {
        Instr::Ldc(self.string@)
    }
}

/// `ifne`: pops an integer and jumps where it is not zero. `branch` is a byte
/// offset until the code is relocated, an instruction index after.
pub struct InstrIfne {
    pub branch: usize,
}

impl View for InstrIfne {
    type V = Instr;

    open spec fn view(&self) -> Instr {
        Instr::Ifne(self.branch)
    }
}

/// `goto`: jumps. `branch` is a byte offset until the code is relocated, an
/// instruction index after.
pub struct InstrGoto {
    pub branch: usize,
}

impl View for InstrGoto {
    type V = Instr;

    open spec fn view(&self) -> Instr {
        Instr::Goto(self.branch)
    }
}

/// `anewarray`: pops a count and pushes a new array of that length.
pub struct InstrANewArray {
    pub class_name: String,
}

impl View for InstrANewArray {
    type V = Instr;

    open spec fn view(&self) -> Instr {
        Instr::ANewArray(self.class_name@)
    }
}

/// One decoded instruction: one arm per supported opcode.
pub enum Instruction {
    ALoad0(InstrALoad0),
    Return(InstrReturn),
    IConst0(InstrIConst0),
    IConst1(InstrIConst1),
    IConst2(InstrIConst2),
    AALoad(InstrAALoad),
    AAStore(InstrAAStore),
    IStore1(InstrIStore1),
    IStore2(InstrIStore2),
    IAdd(InstrIAdd),
    ISub(InstrISub),
    IDiv(InstrIDiv),
    IRem(InstrIRem),
    IShl(InstrIShl),
    IShr(InstrIShr),
    LShl(InstrLShl),
    LShr(InstrLShr),
    ILoad1(InstrILoad1),
    ILoad2(InstrILoad2),
    Dup(InstrDup),
    InvokeSpecial(InstrInvokeSpecial),
    GetStatic(InstrGetStatic),
    InvokeVirtual(InstrInvokeVirtual),
    InvokeStatic(InstrInvokeStatic),
    Ldc(InstrLdc),
    Ifne(InstrIfne),
    Goto(InstrGoto),
    ANewArray(InstrANewArray),
}

impl View for Instruction {
    type V = Instr;

    open spec fn view(&self) -> Instr {
        match self {
            Instruction::ALoad0(i) => i@,
            Instruction::Return(i) => i@,
            Instruction::IConst0(i) => i@,
            Instruction::IConst1(i) => i@,
            Instruction::IConst2(i) => i@,
            Instruction::AALoad(i) => i@,
            Instruction::AAStore(i) => i@,
            Instruction::IStore1(i) => i@,
            Instruction::IStore2(i) => i@,
            Instruction::IAdd(i) => i@,
            Instruction::ISub(i) => i@,
            Instruction::IDiv(i) => i@,
            Instruction::IRem(i) => i@,
            Instruction::IShl(i) => i@,
            Instruction::IShr(i) => i@,
            Instruction::LShl(i) => i@,
            Instruction::LShr(i) => i@,
            Instruction::ILoad1(i) => i@,
            Instruction::ILoad2(i) => i@,
            Instruction::Dup(i) => i@,
            Instruction::InvokeSpecial(i) => i@,
            Instruction::GetStatic(i) => i@,
            Instruction::InvokeVirtual(i) => i@,
            Instruction::InvokeStatic(i) => i@,
            Instruction::Ldc(i) => i@,
            Instruction::Ifne(i) => i@,
            Instruction::Goto(i) => i@,
            Instruction::ANewArray(i) => i@,
        }
    }
}

/// Whether `r`, with the frame `f1` and the machine `j1`, is the outcome of
/// the instruction `i` on the frame `f` and the machine `j`. Of the frame
/// and the machine after a failure this says nothing.
pub open spec fn executes(
    classes: Seq<JavaClass>,
    i: Instr,
    f: FrameView,
    j: JvmView,
    fuel: nat,
    f1: FrameView,
    j1: JvmView,
    r: Result<InstrNextAction, JvmError>,
) -> bool {
    match r {
        Ok(action) => step_spec(classes, i, f, j, fuel) == Ok::<
            (FrameView, JvmView, InstrNextAction),
            JvmError,
        >((f1, j1, action)),
        Err(e) => step_spec(classes, i, f, j, fuel) == Err::<
            (FrameView, JvmView, InstrNextAction),
            JvmError,
        >(e),
    }
}

/// The instruction `i` with its branch target, a byte offset, replaced by the
/// index of the instruction that starts there.
pub open spec fn relocate_spec(i: Instr, address_map: Map<usize, usize>) -> Result<
    Instr,
    DecodeError,
> {
    match i {
        Instr::Ifne(target) => if address_map.contains_key(target) {
            Ok(Instr::Ifne(address_map[target]))
        } else {
            Err(DecodeError::UnknownBranchTarget)
        },
        Instr::Goto(target) => if address_map.contains_key(target) {
            Ok(Instr::Goto(address_map[target]))
        } else {
            Err(DecodeError::UnknownBranchTarget)
        },
        _ => Ok(i),
    }
}

/// Whether `r`, with the instruction `after`, is the outcome of relocating
/// `before`. An instruction that cannot be relocated stays as it is.
pub open spec fn relocates(
    before: Instr,
    address_map: Map<usize, usize>,
    after: Instr,
    r: Result<(), DecodeError>,
) -> bool {
    match r {
        Ok(()) => relocate_spec(before, address_map) == Ok::<Instr, DecodeError>(after),
        Err(e) => relocate_spec(before, address_map) == Err::<Instr, DecodeError>(e) && after
            == before,
    }
}

/// Whether `name` resolves to an intrinsic class.
pub open spec fn owner_is_intrinsic(classes: Seq<JavaClass>, name: Seq<char>) -> bool {
    find_class(classes, name) is Some && !(classes[find_class(classes, name)->Some_0] is Bytecode)
}

/// What every instruction offers.
pub trait ByteCodeInstruction: View<V = Instr> {
    /// Runs the instruction on the frame `sf` and says what the dispatch loop
    /// does next. `fuel` bounds the calls that the instruction makes. A
    /// failure is fatal to the run: of the frame and the machine after it,
    /// only the text that was written to standard output is specified.
    fn execute(&self, sf: &mut StackFrame, jvm: &mut JVM, classes: &Classes, fuel: u64) -> (r: Result<
        InstrNextAction,
        JvmError,
    >)
        ensures
            executes(
                classes.classes@,
                self@,
                old(sf)@,
                old(jvm)@,
                fuel as nat,
                final(sf)@,
                final(jvm)@,
                r,
            ),
            final(jvm)@.out == step_output(
                classes.classes@,
                self@,
                old(sf)@,
                old(jvm)@,
                fuel as nat,
            ),
        decreases fuel, 3nat,
    ;

    /// Replaces the branch target of the instruction, a byte offset in the
    /// code stream, by the index that `address_map` gives for it.
    fn set_branch(&mut self, address_map: &HashMap<usize, usize>) -> (r: Result<(), DecodeError>)
        ensures
            relocates(old(self)@, address_map@, final(self)@, r),
    ;
}

impl ByteCodeInstruction for InstrALoad0 {
    fn execute(&self, sf: &mut StackFrame, jvm: &mut JVM, classes: &Classes, fuel: u64) -> (r: Result<
        InstrNextAction,
        JvmError,
    >)
        ensures
            r is Err ==> final(jvm)@ == old(jvm)@,
        decreases fuel, 3nat,
    {
        match sf.get_variable(0) {
            Ok(v) => {
                sf.push(v);
                Ok(InstrNextAction::NEXT)
            },
            Err(e) => Err(JvmError::Runtime(e)),
        }
    }

    fn set_branch(&mut self, address_map: &HashMap<usize, usize>) -> (r: Result<(), DecodeError>) {
        Ok(())
    }
}

impl ByteCodeInstruction for InstrReturn {
    fn execute(&self, sf: &mut StackFrame, jvm: &mut JVM, classes: &Classes, fuel: u64) -> (r: Result<
        InstrNextAction,
        JvmError,
    >)
        ensures
            r is Err ==> final(jvm)@ == old(jvm)@,
        decreases fuel, 3nat,
    {
        Ok(InstrNextAction::RETURN)
    }

    fn set_branch(&mut self, address_map: &HashMap<usize, usize>) -> (r: Result<(), DecodeError>) {
        Ok(())
    }
}

impl ByteCodeInstruction for InstrIConst0 {
    fn execute(&self, sf: &mut StackFrame, jvm: &mut JVM, classes: &Classes, fuel: u64) -> (r: Result<
        InstrNextAction,
        JvmError,
    >)
        ensures
            r is Err ==> final(jvm)@ == old(jvm)@,
        decreases fuel, 3nat,
    {
        sf.push_int(0);
        Ok(InstrNextAction::NEXT)
    }

    fn set_branch(&mut self, address_map: &HashMap<usize, usize>) -> (r: Result<(), DecodeError>) {
        Ok(())
    }
}

impl ByteCodeInstruction for InstrIConst1 {
    fn execute(&self, sf: &mut StackFrame, jvm: &mut JVM, classes: &Classes, fuel: u64) -> (r: Result<
        InstrNextAction,
        JvmError,
    >)
        ensures
            r is Err ==> final(jvm)@ == old(jvm)@,
        decreases fuel, 3nat,
    {
        sf.push_int(1);
        Ok(InstrNextAction::NEXT)
    }

    fn set_branch(&mut self, address_map: &HashMap<usize, usize>) -> (r: Result<(), DecodeError>) {
        Ok(())
    }
}

impl ByteCodeInstruction for InstrIConst2 {
    fn execute(&self, sf: &mut StackFrame, jvm: &mut JVM, classes: &Classes, fuel: u64) -> (r: Result<
        InstrNextAction,
        JvmError,
    >)
        ensures
            r is Err ==> final(jvm)@ == old(jvm)@,
        decreases fuel, 3nat,
    {
        sf.push_int(2);
        Ok(InstrNextAction::NEXT)
    }

    fn set_branch(&mut self, address_map: &HashMap<usize, usize>) -> (r: Result<(), DecodeError>) {
        Ok(())
    }
}

impl ByteCodeInstruction for InstrAALoad {
    fn execute(&self, sf: &mut StackFrame, jvm: &mut JVM, classes: &Classes, fuel: u64) -> (r: Result<
        InstrNextAction,
        JvmError,
    >)
        ensures
            r is Err ==> final(jvm)@ == old(jvm)@,
        decreases fuel, 3nat,
    {
        let index = match sf.pop_int() {
            Ok(index) => index,
            Err(e) => return Err(JvmError::Runtime(e)),
        };
        let array = match sf.pop_array() {
            Ok(array) => array,
            Err(e) => return Err(JvmError::Runtime(e)),
        };
        match jvm.heap.load(array, index) {
            Err(e) => Err(JvmError::Runtime(e)),
            Ok(v) => {
                sf.push(v);
                Ok(InstrNextAction::NEXT)
            },
        }
    }

    fn set_branch(&mut self, address_map: &HashMap<usize, usize>) -> (r: Result<(), DecodeError>) {
        Ok(())
    }
}

impl ByteCodeInstruction for InstrAAStore {
    fn execute(&self, sf: &mut StackFrame, jvm: &mut JVM, classes: &Classes, fuel: u64) -> (r: Result<
        InstrNextAction,
        JvmError,
    >)
        ensures
            r is Err ==> final(jvm)@ == old(jvm)@,
        decreases fuel, 3nat,
    {
        let v = match sf.pop() {
            Ok(v) => v,
            Err(e) => return Err(JvmError::Runtime(e)),
        };
        let index = match sf.pop_int() {
            Ok(index) => index,
            Err(e) => return Err(JvmError::Runtime(e)),
        };
        let array = match sf.pop_array() {
            Ok(array) => array,
            Err(e) => return Err(JvmError::Runtime(e)),
        };
        match jvm.heap.store(array, index, v) {
            Err(e) => Err(JvmError::Runtime(e)),
            Ok(()) => Ok(InstrNextAction::NEXT),
        }
    }

    fn set_branch(&mut self, address_map: &HashMap<usize, usize>) -> (r: Result<(), DecodeError>) {
        Ok(())
    }
}

impl ByteCodeInstruction for InstrIStore1 {
    fn execute(&self, sf: &mut StackFrame, jvm: &mut JVM, classes: &Classes, fuel: u64) -> (r: Result<
        InstrNextAction,
        JvmError,
    >)
        ensures
            r is Err ==> final(jvm)@ == old(jvm)@,
        decreases fuel, 3nat,
    {
        match sf.pop() {
            Err(e) => Err(JvmError::Runtime(e)),
            Ok(v) => match sf.set_variable(1, v) {
                Ok(()) => Ok(InstrNextAction::NEXT),
                Err(e) => Err(JvmError::Runtime(e)),
            },
        }
    }

    fn set_branch(&mut self, address_map: &HashMap<usize, usize>) -> (r: Result<(), DecodeError>) {
        Ok(())
    }
}

impl ByteCodeInstruction for InstrIStore2 {
    fn execute(&self, sf: &mut StackFrame, jvm: &mut JVM, classes: &Classes, fuel: u64) -> (r: Result<
        InstrNextAction,
        JvmError,
    >)
        ensures
            r is Err ==> final(jvm)@ == old(jvm)@,
        decreases fuel, 3nat,
    {
        match sf.pop() {
            Err(e) => Err(JvmError::Runtime(e)),
            Ok(v) => match sf.set_variable(2, v) {
                Ok(()) => Ok(InstrNextAction::NEXT),
                Err(e) => Err(JvmError::Runtime(e)),
            },
        }
    }

    fn set_branch(&mut self, address_map: &HashMap<usize, usize>) -> (r: Result<(), DecodeError>) {
        Ok(())
    }
}

impl ByteCodeInstruction for InstrIAdd {
    fn execute(&self, sf: &mut StackFrame, jvm: &mut JVM, classes: &Classes, fuel: u64) -> (r: Result<
        InstrNextAction,
        JvmError,
    >)
        ensures
            r is Err ==> final(jvm)@ == old(jvm)@,
        decreases fuel, 3nat,
    {
        let b = match sf.pop_int() {
            Ok(b) => b,
            Err(e) => return Err(JvmError::Runtime(e)),
        };
        let a = match sf.pop_int() {
            Ok(a) => a,
            Err(e) => return Err(JvmError::Runtime(e)),
        };
        sf.push_int(iadd(a, b));
        Ok(InstrNextAction::NEXT)
    }

    fn set_branch(&mut self, address_map: &HashMap<usize, usize>) -> (r: Result<(), DecodeError>) {
        Ok(())
    }
}

impl ByteCodeInstruction for InstrISub {
    fn execute(&self, sf: &mut StackFrame, jvm: &mut JVM, classes: &Classes, fuel: u64) -> (r: Result<
        InstrNextAction,
        JvmError,
    >)
        ensures
            r is Err ==> final(jvm)@ == old(jvm)@,
        decreases fuel, 3nat,
    {
        let b = match sf.pop_int() {
            Ok(b) => b,
            Err(e) => return Err(JvmError::Runtime(e)),
        };
        let a = match sf.pop_int() {
            Ok(a) => a,
            Err(e) => return Err(JvmError::Runtime(e)),
        };
        sf.push_int(isub(a, b));
        Ok(InstrNextAction::NEXT)
    }

    fn set_branch(&mut self, address_map: &HashMap<usize, usize>) -> (r: Result<(), DecodeError>) {
        Ok(())
    }
}

impl ByteCodeInstruction for InstrIDiv {
    fn execute(&self, sf: &mut StackFrame, jvm: &mut JVM, classes: &Classes, fuel: u64) -> (r: Result<
        InstrNextAction,
        JvmError,
    >)
        ensures
            r is Err ==> final(jvm)@ == old(jvm)@,
        decreases fuel, 3nat,
    {
        let b = match sf.pop_int() {
            Ok(b) => b,
            Err(e) => return Err(JvmError::Runtime(e)),
        };
        let a = match sf.pop_int() {
            Ok(a) => a,
            Err(e) => return Err(JvmError::Runtime(e)),
        };
        match idiv(a, b) {
            Some(v) => {
                sf.push_int(v);
                Ok(InstrNextAction::NEXT)
            },
            None => Err(JvmError::Runtime(RuntimeError::DivisionByZero)),
        }
    }

    fn set_branch(&mut self, address_map: &HashMap<usize, usize>) -> (r: Result<(), DecodeError>) {
        Ok(())
    }
}

impl ByteCodeInstruction for InstrIRem {
    fn execute(&self, sf: &mut StackFrame, jvm: &mut JVM, classes: &Classes, fuel: u64) -> (r: Result<
        InstrNextAction,
        JvmError,
    >)
        ensures
            r is Err ==> final(jvm)@ == old(jvm)@,
        decreases fuel, 3nat,
    {
        let b = match sf.pop_int() {
            Ok(b) => b,
            Err(e) => return Err(JvmError::Runtime(e)),
        };
        let a = match sf.pop_int() {
            Ok(a) => a,
            Err(e) => return Err(JvmError::Runtime(e)),
        };
        match irem(a, b) {
            Some(v) => {
                sf.push_int(v);
                Ok(InstrNextAction::NEXT)
            },
            None => Err(JvmError::Runtime(RuntimeError::DivisionByZero)),
        }
    }

    fn set_branch(&mut self, address_map: &HashMap<usize, usize>) -> (r: Result<(), DecodeError>) {
        Ok(())
    }
}

impl ByteCodeInstruction for InstrIShl {
    fn execute(&self, sf: &mut StackFrame, jvm: &mut JVM, classes: &Classes, fuel: u64) -> (r: Result<
        InstrNextAction,
        JvmError,
    >)
        ensures
            r is Err ==> final(jvm)@ == old(jvm)@,
        decreases fuel, 3nat,
    {
        let b = match sf.pop_int() {
            Ok(b) => b,
            Err(e) => return Err(JvmError::Runtime(e)),
        };
        let a = match sf.pop_int() {
            Ok(a) => a,
            Err(e) => return Err(JvmError::Runtime(e)),
        };
        sf.push_int(ishl(a, b));
        Ok(InstrNextAction::NEXT)
    }

    fn set_branch(&mut self, address_map: &HashMap<usize, usize>) -> (r: Result<(), DecodeError>) {
        Ok(())
    }
}

impl ByteCodeInstruction for InstrIShr {
    fn execute(&self, sf: &mut StackFrame, jvm: &mut JVM, classes: &Classes, fuel: u64) -> (r: Result<
        InstrNextAction,
        JvmError,
    >)
        ensures
            r is Err ==> final(jvm)@ == old(jvm)@,
        decreases fuel, 3nat,
    {
        let b = match sf.pop_int() {
            Ok(b) => b,
            Err(e) => return Err(JvmError::Runtime(e)),
        };
        let a = match sf.pop_int() {
            Ok(a) => a,
            Err(e) => return Err(JvmError::Runtime(e)),
        };
        sf.push_int(ishr(a, b));
        Ok(InstrNextAction::NEXT)
    }

    fn set_branch(&mut self, address_map: &HashMap<usize, usize>) -> (r: Result<(), DecodeError>) {
        Ok(())
    }
}

impl ByteCodeInstruction for InstrLShl {
    fn execute(&self, sf: &mut StackFrame, jvm: &mut JVM, classes: &Classes, fuel: u64) -> (r: Result<
        InstrNextAction,
        JvmError,
    >)
        ensures
            r is Err ==> final(jvm)@ == old(jvm)@,
        decreases fuel, 3nat,
    {
        let b = match sf.pop_long() {
            Ok(b) => b,
            Err(e) => return Err(JvmError::Runtime(e)),
        };
        let a = match sf.pop_long() {
            Ok(a) => a,
            Err(e) => return Err(JvmError::Runtime(e)),
        };
        sf.push_long(lshl(a, b));
        Ok(InstrNextAction::NEXT)
    }

    fn set_branch(&mut self, address_map: &HashMap<usize, usize>) -> (r: Result<(), DecodeError>) {
        Ok(())
    }
}

impl ByteCodeInstruction for InstrLShr {
    fn execute(&self, sf: &mut StackFrame, jvm: &mut JVM, classes: &Classes, fuel: u64) -> (r: Result<
        InstrNextAction,
        JvmError,
    >)
        ensures
            r is Err ==> final(jvm)@ == old(jvm)@,
        decreases fuel, 3nat,
    {
        let b = match sf.pop_long() {
            Ok(b) => b,
            Err(e) => return Err(JvmError::Runtime(e)),
        };
        let a = match sf.pop_long() {
            Ok(a) => a,
            Err(e) => return Err(JvmError::Runtime(e)),
        };
        sf.push_long(lshr(a, b));
        Ok(InstrNextAction::NEXT)
    }

    fn set_branch(&mut self, address_map: &HashMap<usize, usize>) -> (r: Result<(), DecodeError>) {
        Ok(())
    }
}

impl ByteCodeInstruction for InstrILoad1 {
    fn execute(&self, sf: &mut StackFrame, jvm: &mut JVM, classes: &Classes, fuel: u64) -> (r: Result<
        InstrNextAction,
        JvmError,
    >)
        ensures
            r is Err ==> final(jvm)@ == old(jvm)@,
        decreases fuel, 3nat,
    {
        match sf.get_variable(1) {
            Ok(v) => {
                sf.push(v);
                Ok(InstrNextAction::NEXT)
            },
            Err(e) => Err(JvmError::Runtime(e)),
        }
    }

    fn set_branch(&mut self, address_map: &HashMap<usize, usize>) -> (r: Result<(), DecodeError>) {
        Ok(())
    }
}

impl ByteCodeInstruction for InstrILoad2 {
    fn execute(&self, sf: &mut StackFrame, jvm: &mut JVM, classes: &Classes, fuel: u64) -> (r: Result<
        InstrNextAction,
        JvmError,
    >)
        ensures
            r is Err ==> final(jvm)@ == old(jvm)@,
        decreases fuel, 3nat,
    {
        match sf.get_variable(2) {
            Ok(v) => {
                sf.push(v);
                Ok(InstrNextAction::NEXT)
            },
            Err(e) => Err(JvmError::Runtime(e)),
        }
    }

    fn set_branch(&mut self, address_map: &HashMap<usize, usize>) -> (r: Result<(), DecodeError>) {
        Ok(())
    }
}

impl ByteCodeInstruction for InstrDup {
    fn execute(&self, sf: &mut StackFrame, jvm: &mut JVM, classes: &Classes, fuel: u64) -> (r: Result<
        InstrNextAction,
        JvmError,
    >)
        ensures
            r is Err ==> final(jvm)@ == old(jvm)@,
        decreases fuel, 3nat,
    {
        match sf.pop() {
            Err(e) => Err(JvmError::Runtime(e)),
            Ok(v) => {
                sf.push(v.clone());
                sf.push(v);
                Ok(InstrNextAction::NEXT)
            },
        }
    }

    fn set_branch(&mut self, address_map: &HashMap<usize, usize>) -> (r: Result<(), DecodeError>) {
        Ok(())
    }
}

impl ByteCodeInstruction for InstrInvokeSpecial {
    fn execute(&self, sf: &mut StackFrame, jvm: &mut JVM, classes: &Classes, fuel: u64) -> (r: Result<
        InstrNextAction,
        JvmError,
    >)
        ensures
            r is Err ==> final(jvm)@ == old(jvm)@,
        decreases fuel, 3nat,
    {
        Ok(InstrNextAction::NEXT)
    }

    fn set_branch(&mut self, address_map: &HashMap<usize, usize>) -> (r: Result<(), DecodeError>) {
        Ok(())
    }
}

impl ByteCodeInstruction for InstrGetStatic {
    fn execute(&self, sf: &mut StackFrame, jvm: &mut JVM, classes: &Classes, fuel: u64) -> (r: Result<
        InstrNextAction,
        JvmError,
    >)
        ensures
            r is Err ==> final(sf)@ == old(sf)@ && final(jvm)@ == old(jvm)@,
        decreases fuel, 3nat,
    {
        match classes.get_class(self.class_name.as_str()) {
            None => Err(JvmError::Link(LinkError::UnknownClass)),
            Some(class) => match class.get_static_object(self.field_name.as_str(), jvm) {
                Err(e) => Err(e),
                Ok(v) => {
                    sf.push(v);
                    Ok(InstrNextAction::NEXT)
                },
            },
        }
    }

    fn set_branch(&mut self, address_map: &HashMap<usize, usize>) -> (r: Result<(), DecodeError>) {
        Ok(())
    }
}

impl ByteCodeInstruction for InstrInvokeVirtual {
    fn execute(&self, sf: &mut StackFrame, jvm: &mut JVM, classes: &Classes, fuel: u64) -> (r: Result<
        InstrNextAction,
        JvmError,
    >)
        ensures
            r == Err::<InstrNextAction, JvmError>(JvmError::NotImplemented) && owner_is_intrinsic(
                classes.classes@,
                self.class_name@,
            ) ==> final(sf)@ == old(sf)@ && final(jvm)@ == old(jvm)@,
        decreases fuel, 3nat,
    {
        match classes.get_class(self.class_name.as_str()) {
            None => Err(JvmError::Link(LinkError::UnknownClass)),
            Some(class) => match arity(self.type_desc.as_str()) {
                None => Err(JvmError::Runtime(RuntimeError::BadDescriptor)),
                Some(nb_args) => {
                    let (this, args) = match sf.call_operands(nb_args) {
                        Ok(operands) => operands,
                        Err(e) => return Err(JvmError::Runtime(e)),
                    };
                    match class.execute_method(
                        sf,
                        jvm,
                        classes,
                        self.method_name.as_str(),
                        this,
                        args,
                        fuel,
                    ) {
                        Err(e) => Err(e),
                        Ok(()) => Ok(InstrNextAction::NEXT),
                    }
                },
            },
        }
    }

    fn set_branch(&mut self, address_map: &HashMap<usize, usize>) -> (r: Result<(), DecodeError>) {
        Ok(())
    }
}

impl ByteCodeInstruction for InstrInvokeStatic {
    fn execute(&self, sf: &mut StackFrame, jvm: &mut JVM, classes: &Classes, fuel: u64) -> (r: Result<
        InstrNextAction,
        JvmError,
    >)
        ensures
            r == Err::<InstrNextAction, JvmError>(JvmError::NotImplemented) && owner_is_intrinsic(
                classes.classes@,
                self.class_name@,
            ) ==> final(sf)@ == old(sf)@ && final(jvm)@ == old(jvm)@,
        decreases fuel, 3nat,
    {
        match classes.get_class(self.class_name.as_str()) {
            None => Err(JvmError::Link(LinkError::UnknownClass)),
            Some(class) => {
                let called = match class {
                    // A compiled method is handed as many arguments as its
                    // descriptor declares.
                    JavaClass::Bytecode(compiled) => match arity(self.type_desc.as_str()) {
                        None => return Err(JvmError::Runtime(RuntimeError::BadDescriptor)),
                        Some(nb_args) => compiled.execute_static_method(
                            sf,
                            jvm,
                            classes,
                            self.method_name.as_str(),
                            nb_args,
                            fuel,
                        ),
                    },
                    // An intrinsic method takes its arguments itself.
                    _ => native_execute_static_method(class, sf, jvm, self.method_name.as_str()),
                };
                match called {
                    Err(e) => Err(e),
                    Ok(()) => Ok(InstrNextAction::NEXT),
                }
            },
        }
    }

    fn set_branch(&mut self, address_map: &HashMap<usize, usize>) -> (r: Result<(), DecodeError>) {
        Ok(())
    }
}

impl ByteCodeInstruction for InstrLdc {
    fn execute(&self, sf: &mut StackFrame, jvm: &mut JVM, classes: &Classes, fuel: u64) -> (r: Result<
        InstrNextAction,
        JvmError,
    >)
        ensures
            r is Err ==> final(jvm)@ == old(jvm)@,
        decreases fuel, 3nat,
    {
        sf.push_string(self.string.clone());
        Ok(InstrNextAction::NEXT)
    }

    fn set_branch(&mut self, address_map: &HashMap<usize, usize>) -> (r: Result<(), DecodeError>) {
        Ok(())
    }
}

impl ByteCodeInstruction for InstrIfne {
    fn execute(&self, sf: &mut StackFrame, jvm: &mut JVM, classes: &Classes, fuel: u64) -> (r: Result<
        InstrNextAction,
        JvmError,
    >)
        ensures
            r is Err ==> final(jvm)@ == old(jvm)@,
        decreases fuel, 3nat,
    {
        match sf.pop_int() {
            Err(e) => Err(JvmError::Runtime(e)),
            Ok(v) => if v != 0 {
                Ok(InstrNextAction::GOTO(self.branch))
            } else {
                Ok(InstrNextAction::NEXT)
            },
        }
    }

    fn set_branch(&mut self, address_map: &HashMap<usize, usize>) -> (r: Result<(), DecodeError>) {
        match address_map.get(&self.branch) {
            Some(index) => {
                self.branch = *index;
                Ok(())
            },
            None => Err(DecodeError::UnknownBranchTarget),
        }
    }
}

impl ByteCodeInstruction for InstrGoto {
    fn execute(&self, sf: &mut StackFrame, jvm: &mut JVM, classes: &Classes, fuel: u64) -> (r: Result<
        InstrNextAction,
        JvmError,
    >)
        ensures
            r is Err ==> final(jvm)@ == old(jvm)@,
        decreases fuel, 3nat,
    {
        Ok(InstrNextAction::GOTO(self.branch))
    }

    fn set_branch(&mut self, address_map: &HashMap<usize, usize>) -> (r: Result<(), DecodeError>) {
        match address_map.get(&self.branch) {
            Some(index) => {
                self.branch = *index;
                Ok(())
            },
            None => Err(DecodeError::UnknownBranchTarget),
        }
    }
}

impl ByteCodeInstruction for InstrANewArray {
    fn execute(&self, sf: &mut StackFrame, jvm: &mut JVM, classes: &Classes, fuel: u64) -> (r: Result<
        InstrNextAction,
        JvmError,
    >)
        ensures
            r is Err ==> final(jvm)@ == old(jvm)@,
        decreases fuel, 3nat,
    {
        let count = match sf.pop_int() {
            Ok(count) => count,
            Err(e) => return Err(JvmError::Runtime(e)),
        };
        if count < 0 {
            return Err(JvmError::Runtime(RuntimeError::NegativeArraySize));
        }
        let array = jvm.heap.alloc_array(count as usize);
        sf.push_array(array);
        Ok(InstrNextAction::NEXT)
    }

    fn set_branch(&mut self, address_map: &HashMap<usize, usize>) -> (r: Result<(), DecodeError>) {
        Ok(())
    }
}

impl ByteCodeInstruction for Instruction {
    fn execute(&self, sf: &mut StackFrame, jvm: &mut JVM, classes: &Classes, fuel: u64) -> (r: Result<
        InstrNextAction,
        JvmError,
    >)
        decreases fuel, 4nat,
    {
        match self {
            Instruction::ALoad0(i) => i.execute(sf, jvm, classes, fuel),
            Instruction::Return(i) => i.execute(sf, jvm, classes, fuel),
            Instruction::IConst0(i) => i.execute(sf, jvm, classes, fuel),
            Instruction::IConst1(i) => i.execute(sf, jvm, classes, fuel),
            Instruction::IConst2(i) => i.execute(sf, jvm, classes, fuel),
            Instruction::AALoad(i) => i.execute(sf, jvm, classes, fuel),
            Instruction::AAStore(i) => i.execute(sf, jvm, classes, fuel),
            Instruction::IStore1(i) => i.execute(sf, jvm, classes, fuel),
            Instruction::IStore2(i) => i.execute(sf, jvm, classes, fuel),
            Instruction::IAdd(i) => i.execute(sf, jvm, classes, fuel),
            Instruction::ISub(i) => i.execute(sf, jvm, classes, fuel),
            Instruction::IDiv(i) => i.execute(sf, jvm, classes, fuel),
            Instruction::IRem(i) => i.execute(sf, jvm, classes, fuel),
            Instruction::IShl(i) => i.execute(sf, jvm, classes, fuel),
            Instruction::IShr(i) => i.execute(sf, jvm, classes, fuel),
            Instruction::LShl(i) => i.execute(sf, jvm, classes, fuel),
            Instruction::LShr(i) => i.execute(sf, jvm, classes, fuel),
            Instruction::ILoad1(i) => i.execute(sf, jvm, classes, fuel),
            Instruction::ILoad2(i) => i.execute(sf, jvm, classes, fuel),
            Instruction::Dup(i) => i.execute(sf, jvm, classes, fuel),
            Instruction::InvokeSpecial(i) => i.execute(sf, jvm, classes, fuel),
            Instruction::GetStatic(i) => i.execute(sf, jvm, classes, fuel),
            Instruction::InvokeVirtual(i) => i.execute(sf, jvm, classes, fuel),
            Instruction::InvokeStatic(i) => i.execute(sf, jvm, classes, fuel),
            Instruction::Ldc(i) => i.execute(sf, jvm, classes, fuel),
            Instruction::Ifne(i) => i.execute(sf, jvm, classes, fuel),
            Instruction::Goto(i) => i.execute(sf, jvm, classes, fuel),
            Instruction::ANewArray(i) => i.execute(sf, jvm, classes, fuel),
        }
    }

    fn set_branch(&mut self, address_map: &HashMap<usize, usize>) -> (r: Result<(), DecodeError>) {
        match self {
            Instruction::ALoad0(i) => i.set_branch(address_map),
            Instruction::Return(i) => i.set_branch(address_map),
            Instruction::IConst0(i) => i.set_branch(address_map),
            Instruction::IConst1(i) => i.set_branch(address_map),
            Instruction::IConst2(i) => i.set_branch(address_map),
            Instruction::AALoad(i) => i.set_branch(address_map),
            Instruction::AAStore(i) => i.set_branch(address_map),
            Instruction::IStore1(i) => i.set_branch(address_map),
            Instruction::IStore2(i) => i.set_branch(address_map),
            Instruction::IAdd(i) => i.set_branch(address_map),
            Instruction::ISub(i) => i.set_branch(address_map),
            Instruction::IDiv(i) => i.set_branch(address_map),
            Instruction::IRem(i) => i.set_branch(address_map),
            Instruction::IShl(i) => i.set_branch(address_map),
            Instruction::IShr(i) => i.set_branch(address_map),
            Instruction::LShl(i) => i.set_branch(address_map),
            Instruction::LShr(i) => i.set_branch(address_map),
            Instruction::ILoad1(i) => i.set_branch(address_map),
            Instruction::ILoad2(i) => i.set_branch(address_map),
            Instruction::Dup(i) => i.set_branch(address_map),
            Instruction::InvokeSpecial(i) => i.set_branch(address_map),
            Instruction::GetStatic(i) => i.set_branch(address_map),
            Instruction::InvokeVirtual(i) => i.set_branch(address_map),
            Instruction::InvokeStatic(i) => i.set_branch(address_map),
            Instruction::Ldc(i) => i.set_branch(address_map),
            Instruction::Ifne(i) => i.set_branch(address_map),
            Instruction::Goto(i) => i.set_branch(address_map),
            Instruction::ANewArray(i) => i.set_branch(address_map),
        }
    }
}

/// The instructions of one method, with the map from the byte offset of each
/// instruction in the code stream to its index.
pub struct ByteCode {
    pub instructions: Vec<Instruction>,
    pub address_map: HashMap<usize, usize>,
}

/// The views of a sequence of instructions, one by one.
pub open spec fn instrs_view(instructions: Seq<Instruction>) -> Seq<Instr> {
    instructions.map_values(|i: Instruction| i@)
}


/// Whether `r`, with the frame `f1` and the machine `j1`, is `outcome`. Of
/// the frame and the machine after a failure this says nothing.
pub open spec fn ends_as(
    outcome: Result<(FrameView, JvmView), JvmError>,
    f1: FrameView,
    j1: JvmView,
    r: Result<(), JvmError>,
) -> bool {
    match r {
        Ok(()) => outcome == Ok::<(FrameView, JvmView), JvmError>((f1, j1)),
        Err(e) => outcome == Err::<(FrameView, JvmView), JvmError>(e),
    }
}

impl View for ByteCode {
    type V = ByteCodeView;

    open spec fn view(&self) -> ByteCodeView {
        ByteCodeView {
            instructions: instrs_view(self.instructions@),
            address_map: self.address_map@,
        }
    }
}

/// The byte offset that a branch at `at` with the 16-bit operand `operand`
/// leads to: the operand is a signed distance from the opcode.
fn branch_offset(at: usize, operand: usize) -> (r: Result<usize, DecodeError>)
    requires
        operand < 0x1_0000,
    ensures
        r == crate::decoder::branch_target(at as int, operand as int),
{
    if operand >= 0x8000 {
        let back: usize = 0x1_0000 - operand;
        if back > at {
            Err(DecodeError::UnknownBranchTarget)
        } else {
            Ok(at - back)
        }
    } else {
        match at.checked_add(operand) {
            Some(target) => Ok(target),
            None => Err(DecodeError::UnknownBranchTarget),
        }
    }
}

/// Decodes the instruction at the cursor of `data` and moves the cursor past
/// it. Branch targets are byte offsets here.
pub fn decode_instruction(
    data: &mut Blob,
    constants_class: &HashMap<usize, ConstantClass>,
    constants_string_ref: &HashMap<usize, ConstantStringRef>,
    constants_method: &HashMap<usize, ConstantMethod>,
    constants_field: &HashMap<usize, ConstantField>,
) -> (r: Result<Instruction, DecodeError>)
    ensures
        final(data)@.bytes == old(data)@.bytes,
        match r {
            Ok(i) => decode_at(
                old(data)@.bytes,
                old(data)@.offset,
                pool_view(constants_class@, constants_string_ref@, constants_method@, constants_field@),
            ) == Ok::<Instr, DecodeError>(i@) && final(data)@ == old(data)@.advanced(length_of(i@)),
            Err(e) => decode_at(
                old(data)@.bytes,
                old(data)@.offset,
                pool_view(constants_class@, constants_string_ref@, constants_method@, constants_field@),
            ) == Err::<Instr, DecodeError>(e),
        },
{
    let data_offset: usize = data.get_offset();
    let opcode: u8 = data.get_u8()?;
    match opcode {
        0x03 => Ok(Instruction::IConst0(InstrIConst0 {  })),
        0x04 => Ok(Instruction::IConst1(InstrIConst1 {  })),
        0x05 => Ok(Instruction::IConst2(InstrIConst2 {  })),
        0x12 => {
            let index: usize = data.get_u8()? as usize;
            match constants_string_ref.get(&index) {
                Some(string) => Ok(Instruction::Ldc(InstrLdc { string: string.value.clone() })),
                None => Err(DecodeError::UnresolvedReference),
            }
        },
        0x1b => Ok(Instruction::ILoad1(InstrILoad1 {  })),
        0x1c => Ok(Instruction::ILoad2(InstrILoad2 {  })),
        0x2a => Ok(Instruction::ALoad0(InstrALoad0 {  })),
        0x32 => Ok(Instruction::AALoad(InstrAALoad {  })),
        0x3c => Ok(Instruction::IStore1(InstrIStore1 {  })),
        0x3d => Ok(Instruction::IStore2(InstrIStore2 {  })),
        0x53 => Ok(Instruction::AAStore(InstrAAStore {  })),
        0x59 => Ok(Instruction::Dup(InstrDup {  })),
        0x60 => Ok(Instruction::IAdd(InstrIAdd {  })),
        0x64 => Ok(Instruction::ISub(InstrISub {  })),
        0x6c => Ok(Instruction::IDiv(InstrIDiv {  })),
        0x70 => Ok(Instruction::IRem(InstrIRem {  })),
        0x78 => Ok(Instruction::IShl(InstrIShl {  })),
        0x79 => Ok(Instruction::LShl(InstrLShl {  })),
        0x7a => Ok(Instruction::IShr(InstrIShr {  })),
        0x7b => Ok(Instruction::LShr(InstrLShr {  })),
        0x9a => {
            let operand: usize = data.get_u16size()?;
            let branch: usize = branch_offset(data_offset, operand)?;
            Ok(Instruction::Ifne(InstrIfne { branch }))
        },
        0xa7 => {
            let operand: usize = data.get_u16size()?;
            let branch: usize = branch_offset(data_offset, operand)?;
            Ok(Instruction::Goto(InstrGoto { branch }))
        },
        0xb1 => Ok(Instruction::Return(InstrReturn {  })),
        0xb2 => {
            let index: usize = data.get_u16size()?;
            match constants_field.get(&index) {
                Some(field) => Ok(
                    Instruction::GetStatic(
                        InstrGetStatic {
                            class_name: field.class_name.clone(),
                            field_name: field.field_name.clone(),
                            type_desc: field.type_desc.clone(),
                        },
                    ),
                ),
                None => Err(DecodeError::UnresolvedReference),
            }
        },
        0xb6 => {
            let index: usize = data.get_u16size()?;
            match constants_method.get(&index) {
                Some(method) => Ok(
                    Instruction::InvokeVirtual(
                        InstrInvokeVirtual {
                            class_name: method.class_name.clone(),
                            method_name: method.method_name.clone(),
                            type_desc: method.type_desc.clone(),
                        },
                    ),
                ),
                None => Err(DecodeError::UnresolvedReference),
            }
        },
        0xb7 => {
            let index: usize = data.get_u16size()?;
            match constants_method.get(&index) {
                Some(method) => Ok(
                    Instruction::InvokeSpecial(
                        InstrInvokeSpecial {
                            class_name: method.class_name.clone(),
                            method_name: method.method_name.clone(),
                            type_desc: method.type_desc.clone(),
                        },
                    ),
                ),
                None => Err(DecodeError::UnresolvedReference),
            }
        },
        0xb8 => {
            let index: usize = data.get_u16size()?;
            match constants_method.get(&index) {
                Some(method) => Ok(
                    Instruction::InvokeStatic(
                        InstrInvokeStatic {
                            class_name: method.class_name.clone(),
                            method_name: method.method_name.clone(),
                            type_desc: method.type_desc.clone(),
                        },
                    ),
                ),
                None => Err(DecodeError::UnresolvedReference),
            }
        },
        0xbd => {
            let index: usize = data.get_u16size()?;
            match constants_class.get(&index) {
                Some(class) => Ok(
                    Instruction::ANewArray(InstrANewArray { class_name: class.name.clone() }),
                ),
                None => Err(DecodeError::UnresolvedReference),
            }
        },
        _ => Err(DecodeError::UnknownOpcode(opcode)),
    }
}

/// Whether a failed intrinsic operation left things as they were: the
/// machine after any failure, the frame too after `NotImplemented`.
pub open spec fn fails_cleanly(
    f: FrameView,
    j: JvmView,
    f1: FrameView,
    j1: JvmView,
    r: Result<(), JvmError>,
) -> bool {
    &&& r is Err ==> j1 == j
    &&& r == Err::<(), JvmError>(JvmError::NotImplemented) ==> f1 == f
}

impl ByteCode {
    /// Decodes the code stream that `data` holds, from its first byte to its
    /// last, where it leaves the cursor: one instruction after the other,
    /// each recorded in the address map under the byte offset at which it
    /// starts; then every branch target, a byte offset so far, is replaced by
    /// the index of the instruction that starts there.
    ///
    /// Fails with `Truncated` where the stream ends inside an instruction,
    /// with `UnknownOpcode` on an opcode outside the supported set, with
    /// `UnresolvedReference` where an operand names no entry of the constant
    /// pool, and with `UnknownBranchTarget` where a branch leads to a byte at
    /// which no instruction starts.
    pub fn new(
        data: &mut Blob,
        constants_class: &HashMap<usize, ConstantClass>,
        _constants_string: &HashMap<usize, ConstantString>,
        constants_string_ref: &HashMap<usize, ConstantStringRef>,
        constants_method: &HashMap<usize, ConstantMethod>,
        constants_field: &HashMap<usize, ConstantField>,
        _constants_name_type: &HashMap<usize, ConstantNameType>,
    ) -> (r: Result<ByteCode, DecodeError>)
        ensures
            final(data)@.bytes == old(data)@.bytes,
            match r {
                Ok(bytecode) => decode_spec(
                    old(data)@.bytes,
                    pool_view(constants_class@, constants_string_ref@, constants_method@, constants_field@),
                ) == Ok::<ByteCodeView, DecodeError>(bytecode@) && branches_resolve(
                    bytecode@.instructions,
                ) && final(data)@.offset == old(data)@.bytes.len(),
                Err(e) => decode_spec(
                    old(data)@.bytes,
                    pool_view(constants_class@, constants_string_ref@, constants_method@, constants_field@),
                ) == Err::<ByteCodeView, DecodeError>(e),
            },
    {
        let ghost code = data@.bytes;
        let ghost pool = pool_view(constants_class@, constants_string_ref@, constants_method@, constants_field@);
        let mut instructions: Vec<Instruction> = Vec::new();
        let mut address_map: HashMap<usize, usize> = HashMap::new();
        let ghost mut decoded: Seq<(usize, Instr)> = Seq::empty();
        data.rewind();
        assert(prepend(decoded, decode_all(code, 0, pool)) == decode_all(code, 0, pool)) by {
            if decode_all(code, 0, pool) is Ok {
                assert(decoded + decode_all(code, 0, pool)->Ok_0 =~= decode_all(code, 0, pool)->Ok_0);
            }
        }
        while data.has_more_data()
            invariant
                data@.bytes == code,
                code == old(data)@.bytes,
                0 <= data@.offset <= code.len(),
                pool == pool_view(constants_class@, constants_string_ref@, constants_method@, constants_field@),
                decode_all(code, 0, pool) == prepend(decoded, decode_all(code, data@.offset, pool)),
                instrs_view(instructions@) == instrs_of(decoded),
                instructions.len() == decoded.len(),
                address_map@ == address_map_of(decoded),
            decreases code.len() - data@.offset,
        {
            let data_offset: usize = data.get_offset();
            let instr = match decode_instruction(
                data,
                constants_class,
                constants_string_ref,
                constants_method,
                constants_field,
            ) {
                Ok(instr) => instr,
                Err(e) => {
                    return Err(e);
                },
            };
            let ghost before = decoded;
            proof {
                decoded = decoded.push((data_offset, instr@));
                let rest = decode_all(code, data@.offset, pool);
                if rest is Ok {
                    assert(before + (seq![(data_offset, instr@)] + rest->Ok_0) =~= decoded
                        + rest->Ok_0);
                }
                assert(decoded.drop_last() =~= before);
            }
            let ghost instructions_before = instructions@;
            address_map.insert(data_offset, instructions.len());
            instructions.push(instr);
            assert forall|n: int| 0 <= n < decoded.len() implies instrs_view(instructions@)[n]
                == instrs_of(decoded)[n] by {
                if n < before.len() {
                    assert(instrs_view(instructions_before)[n] == instrs_of(before)[n]);
                }
            }
            assert(instrs_view(instructions@) =~= instrs_of(decoded));
        }
        assert(decode_all(code, 0, pool) == Ok::<Seq<(usize, Instr)>, DecodeError>(decoded)) by {
            assert(decoded + Seq::<(usize, Instr)>::empty() =~= decoded);
        }
        let ghost raw = instrs_of(decoded);
        let mut k: usize = 0;
        while k < instructions.len()
            invariant
                k <= instructions.len(),
                instructions.len() == raw.len(),
                address_map@ == address_map_of(decoded),
                data@.bytes == old(data)@.bytes,
                data@.offset == code.len(),
                code == old(data)@.bytes,
                pool == pool_view(constants_class@, constants_string_ref@, constants_method@, constants_field@),
                raw == instrs_of(decoded),
                decode_all(code, 0, pool) == Ok::<Seq<(usize, Instr)>, DecodeError>(decoded),
                forall|n: int|
                    0 <= n < k ==> (#[trigger] relocate_spec(raw[n], address_map@)) == Ok::<
                        Instr,
                        DecodeError,
                    >(instructions@[n]@),
                forall|n: int| k <= n < raw.len() ==> (#[trigger] instructions@[n])@ == raw[n],
            decreases instructions.len() - k,
        {
            let ghost before = instructions@;
            match instructions[k].set_branch(&address_map) {
                Ok(()) => {},
                Err(e) => {
                    assert(!(relocate_spec(raw[k as int], address_map@) is Ok));
                    return Err(e);
                },
            }
            assert(forall|n: int| 0 <= n < raw.len() && n != k ==> instructions@[n] == before[n]);
            k += 1;
        }
        let bytecode = ByteCode { instructions, address_map };
        proof {
            assert(relocate_all(raw, address_map_of(decoded)) is Ok);
            assert(bytecode@.instructions =~= relocate_all(raw, address_map_of(decoded))->Ok_0);
            lemma_relocated_branches_resolve(code, pool);
        }
        Ok(bytecode)
    }

    /// Runs the instructions on the frame `sf`, from the first one until one
    /// returns. At most `fuel` instructions are executed, and each is given
    /// what is left of the fuel for the calls it makes; a run that needs more
    /// ends in `OutOfFuel`. A program counter that leaves the sequence ends
    /// the run in `PcOutOfRange`. After a failure the frame and the machine
    /// are unspecified but for the text on standard output, which is what
    /// the run wrote before it failed.
    pub fn run(&self, sf: &mut StackFrame, jvm: &mut JVM, classes: &Classes, fuel: u64) -> (r:
        Result<(), JvmError>)
        ensures
            ends_as(
                run_spec(classes.classes@, self.instructions@, 0, old(sf)@, old(jvm)@, fuel as nat),
                final(sf)@,
                final(jvm)@,
                r,
            ),
            final(jvm)@.out == run_output(
                classes.classes@,
                self.instructions@,
                0,
                old(sf)@,
                old(jvm)@,
                fuel as nat,
            ),
        decreases fuel, 0nat,
    {
        let ghost whole = run_spec(
            classes.classes@,
            self.instructions@,
            0,
            sf@,
            jvm@,
            fuel as nat,
        );
        let ghost written = run_output(
            classes.classes@,
            self.instructions@,
            0,
            sf@,
            jvm@,
            fuel as nat,
        );
        let mut pc: usize = 0;
        let mut left: u64 = fuel;
        loop
            invariant
                left <= fuel,
                written == run_output(
                    classes.classes@,
                    self.instructions@,
                    0,
                    old(sf)@,
                    old(jvm)@,
                    fuel as nat,
                ),
                written == run_output(
                    classes.classes@,
                    self.instructions@,
                    pc as int,
                    sf@,
                    jvm@,
                    left as nat,
                ),
                whole == run_spec(
                    classes.classes@,
                    self.instructions@,
                    0,
                    old(sf)@,
                    old(jvm)@,
                    fuel as nat,
                ),
                whole == run_spec(
                    classes.classes@,
                    self.instructions@,
                    pc as int,
                    sf@,
                    jvm@,
                    left as nat,
                ),
            decreases left,
        {
            if pc >= self.instructions.len() {
                return Err(JvmError::Runtime(RuntimeError::PcOutOfRange));
            }
            if left == 0 {
                return Err(JvmError::OutOfFuel);
            }
            left = left - 1;
            match self.instructions[pc].execute(sf, jvm, classes, left) {
                Err(e) => {
                    return Err(e);
                },
                Ok(InstrNextAction::RETURN) => {
                    return Ok(());
                },
                Ok(InstrNextAction::NEXT) => {
                    pc = pc + 1;
                },
                Ok(InstrNextAction::GOTO(target)) => {
                    pc = target;
                },
            }
        }
    }
}

} // verus!
