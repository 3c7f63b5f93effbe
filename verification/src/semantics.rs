//! What running an instruction, a method and a call means, stated over the
//! views of the frame and of the machine. The executable functions of the
//! crate are proved to compute exactly these.
//!
//! Evaluation is bounded by `fuel`: a run of a method may execute at most
//! `fuel` instructions, and each of them is given what is left of the fuel
//! for the calls it makes. Evaluation that needs more ends in `OutOfFuel`;
//! where the fuel suffices, the outcome does not depend on it.
//!
//! A failure is fatal, and the outcome of a failed evaluation is the failure
//! alone. The text on standard output is stated apart, for an evaluation
//! that fails as for one that ends: what was written stays written.

use vstd::prelude::*;
use crate::arith::{
    iadd_spec, idiv_spec, irem_spec, ishl_spec, ishr_spec, isub_spec, lshl_spec, lshr_spec,
};
use crate::bytecode::{Instr, InstrNextAction, Instruction};
use crate::classes::find_class;
use crate::descriptor::descriptor_arity;
use crate::errors::{JvmError, LinkError, RuntimeError};
use crate::java_class::{find_method, find_static, JavaClass};
use crate::jvm::{
    lemma_load_after_store, lemma_pop_after_push, FrameView, JvmView, ValueView, LOCALS,
};
use crate::native_java_classes::{
    native_invoke_instance, native_invoke_static, native_read_static,
};

verus! {

/// The outcome of one instruction: the frame, the machine and what the loop
/// does next, or the failure that ends the run.
pub type StepOutcome = Result<(FrameView, JvmView, InstrNextAction), JvmError>;

/// The outcome of a call or of a whole method: the frame and the machine
/// after it, or the failure that ended it.
pub type CallOutcome = Result<(FrameView, JvmView), JvmError>;

/// The instruction is done; the loop goes on with the next one.
pub open spec fn next(f: FrameView, j: JvmView) -> StepOutcome {
    Ok((f, j, InstrNextAction::NEXT))
}

/// The instruction fails.
pub open spec fn fail(e: RuntimeError) -> StepOutcome {
    Err(JvmError::Runtime(e))
}

/// The outcome of a call as the outcome of the instruction that made it.
pub open spec fn called(outcome: CallOutcome) -> StepOutcome {
    match outcome {
        Err(e) => Err(e),
        Ok((f1, j1)) => next(f1, j1),
    }
}

/// Pops `b`, then `a`: the two operands of a binary integer opcode.
pub open spec fn int_operands(f: FrameView) -> Result<(i32, i32, FrameView), RuntimeError> {
    match f.pop_int() {
        Err(e) => Err(e),
        Ok((b, f1)) => match f1.pop_int() {
            Err(e) => Err(e),
            Ok((a, f2)) => Ok((a, b, f2)),
        },
    }
}

/// Pops `b`, then `a`: the two operands of a binary long opcode.
pub open spec fn long_operands(f: FrameView) -> Result<(i64, i64, FrameView), RuntimeError> {
    match f.pop_long() {
        Err(e) => Err(e),
        Ok((b, f1)) => match f1.pop_long() {
            Err(e) => Err(e),
            Ok((a, f2)) => Ok((a, b, f2)),
        },
    }
}

/// Pushes local variable `index`.
pub open spec fn load_local(f: FrameView, j: JvmView, index: int) -> StepOutcome {
    match f.load(index) {
        Err(e) => fail(e),
        Ok(v) => next(f.push(v), j),
    }
}

/// Pops a value into local variable `index`.
pub open spec fn store_local(f: FrameView, j: JvmView, index: int) -> StepOutcome {
    match f.pop() {
        Err(e) => fail(e),
        Ok((v, rest)) => match rest.store(index, v) {
            Err(e) => fail(e),
            Ok(stored) => next(stored, j),
        },
    }
}

/// The effect of one instruction.
pub open spec fn step_spec(
    classes: Seq<JavaClass>,
    i: Instr,
    f: FrameView,
    j: JvmView,
    fuel: nat,
) -> StepOutcome
    decreases fuel, 2nat,
{
    match i {
        Instr::IConst0 => next(f.push(ValueView::Integer(0)), j),
        Instr::IConst1 => next(f.push(ValueView::Integer(1)), j),
        Instr::IConst2 => next(f.push(ValueView::Integer(2)), j),
        Instr::Ldc(text) => next(f.push(ValueView::String(text)), j),
        Instr::ALoad0 => load_local(f, j, 0),
        Instr::ILoad1 => load_local(f, j, 1),
        Instr::ILoad2 => load_local(f, j, 2),
        Instr::IStore1 => store_local(f, j, 1),
        Instr::IStore2 => store_local(f, j, 2),
        Instr::Dup => match f.pop() {
            Err(e) => fail(e),
            Ok((v, rest)) => next(rest.push(v).push(v), j),
        },
        Instr::IAdd => match int_operands(f) {
            Err(e) => fail(e),
            Ok((a, b, rest)) => next(rest.push(ValueView::Integer(iadd_spec(a, b))), j),
        },
        Instr::ISub => match int_operands(f) {
            Err(e) => fail(e),
            Ok((a, b, rest)) => next(rest.push(ValueView::Integer(isub_spec(a, b))), j),
        },
        Instr::IDiv => match int_operands(f) {
            Err(e) => fail(e),
            Ok((a, b, rest)) => if b == 0 {
                fail(RuntimeError::DivisionByZero)
            } else {
                next(rest.push(ValueView::Integer(idiv_spec(a, b))), j)
            },
        },
        Instr::IRem => match int_operands(f) {
            Err(e) => fail(e),
            Ok((a, b, rest)) => if b == 0 {
                fail(RuntimeError::DivisionByZero)
            } else {
                next(rest.push(ValueView::Integer(irem_spec(a, b))), j)
            },
        },
        Instr::IShl => match int_operands(f) {
            Err(e) => fail(e),
            Ok((a, b, rest)) => next(rest.push(ValueView::Integer(ishl_spec(a, b))), j),
        },
        Instr::IShr => match int_operands(f) {
            Err(e) => fail(e),
            Ok((a, b, rest)) => next(rest.push(ValueView::Integer(ishr_spec(a, b))), j),
        },
        Instr::LShl => match long_operands(f) {
            Err(e) => fail(e),
            Ok((a, b, rest)) => next(rest.push(ValueView::Long(lshl_spec(a, b))), j),
        },
        Instr::LShr => match long_operands(f) {
            Err(e) => fail(e),
            Ok((a, b, rest)) => next(rest.push(ValueView::Long(lshr_spec(a, b))), j),
        },
        Instr::Ifne(target) => match f.pop_int() {
            Err(e) => fail(e),
            Ok((v, rest)) => if v != 0 {
                Ok((rest, j, InstrNextAction::GOTO(target)))
            } else {
                next(rest, j)
            },
        },
        Instr::Goto(target) => Ok((f, j, InstrNextAction::GOTO(target))),
        Instr::Return => Ok((f, j, InstrNextAction::RETURN)),
        Instr::InvokeSpecial { .. } => next(f, j),
        Instr::ANewArray(_) => match f.pop_int() {
            Err(e) => fail(e),
            Ok((count, rest)) => if count < 0 {
                fail(RuntimeError::NegativeArraySize)
            } else {
                next(
                    rest.push(ValueView::Array(j.heap.arrays.len() as usize)),
                    JvmView { heap: j.heap.alloc_array(count as nat), ..j },
                )
            },
        },
        Instr::AALoad => match f.pop_int() {
            Err(e) => fail(e),
            Ok((index, f1)) => match f1.pop_array() {
                Err(e) => fail(e),
                Ok((array, rest)) => match j.heap.load(array, index as int) {
                    Err(e) => fail(e),
                    Ok(v) => next(rest.push(v), j),
                },
            },
        },
        Instr::AAStore => match f.pop() {
            Err(e) => fail(e),
            Ok((v, f1)) => match f1.pop_int() {
                Err(e) => fail(e),
                Ok((index, f2)) => match f2.pop_array() {
                    Err(e) => fail(e),
                    Ok((array, rest)) => match j.heap.store(array, index as int, v) {
                        Err(e) => fail(e),
                        Ok(heap) => next(rest, JvmView { heap, ..j }),
                    },
                },
            },
        },
        Instr::GetStatic { class_name, field_name, type_desc } => match find_class(
            classes,
            class_name,
        ) {
            None => Err(JvmError::Link(LinkError::UnknownClass)),
            Some(c) => match read_static_spec(classes[c], field_name, j) {
                Err(e) => Err(e),
                Ok((v, j1)) => next(f.push(v), j1),
            },
        },
        Instr::InvokeStatic { class_name, method_name, type_desc } => match find_class(
            classes,
            class_name,
        ) {
            None => Err(JvmError::Link(LinkError::UnknownClass)),
            Some(c) => match classes[c] {
                JavaClass::Bytecode(_) => match descriptor_arity(type_desc) {
                    None => fail(RuntimeError::BadDescriptor),
                    Some(arity) => called(
                        invoke_static_spec(classes, classes[c], method_name, arity, f, j, fuel),
                    ),
                },
                _ => called(native_invoke_static(classes[c], method_name, f, j)),
            },
        },
        Instr::InvokeVirtual { class_name, method_name, type_desc } => match find_class(
            classes,
            class_name,
        ) {
            None => Err(JvmError::Link(LinkError::UnknownClass)),
            Some(c) => match descriptor_arity(type_desc) {
                None => fail(RuntimeError::BadDescriptor),
                Some(arity) => match f.call_operands(arity) {
                    Err(e) => fail(e),
                    Ok((this, args)) => match invoke_instance_spec(
                        classes,
                        classes[c],
                        method_name,
                        this,
                        args,
                        f,
                        j,
                        fuel,
                    ) {
                        Err(e) => Err(e),
                        Ok((f1, j1)) => next(f1, j1),
                    },
                },
            },
        },
    }
}

/// Reading a static field of a class.
pub open spec fn read_static_spec(class: JavaClass, field: Seq<char>, j: JvmView) -> Result<
    (ValueView, JvmView),
    JvmError,
> {
    match class {
        JavaClass::Bytecode(c) => match find_static(c.static_fields@, field) {
            None => Err(JvmError::Link(LinkError::UnknownField)),
            Some(k) => Ok((c.static_fields@[k].value@, j)),
        },
        _ => native_read_static(class, field, j),
    }
}

/// Calling a static method of `class`. A compiled method is handed the
/// `arity` topmost values of the operand stack of `f`, which are taken off;
/// an intrinsic method takes what it reads from that stack itself.
pub open spec fn invoke_static_spec(
    classes: Seq<JavaClass>,
    class: JavaClass,
    method: Seq<char>,
    arity: nat,
    f: FrameView,
    j: JvmView,
    fuel: nat,
) -> CallOutcome
    decreases fuel, 1nat,
{
    match class {
        JavaClass::Bytecode(compiled) => match find_method(compiled.methods@, method) {
            None => Err(JvmError::Link(LinkError::UnknownMethod)),
            Some(m) => if arity > LOCALS {
                Err(JvmError::Runtime(RuntimeError::BadLocal))
            } else if f.stack.len() < arity {
                Err(JvmError::Runtime(RuntimeError::StackUnderflow))
            } else {
                let base = f.stack.len() - arity;
                match run_spec(
                    classes,
                    compiled.methods@[m].code.instructions@,
                    0,
                    FrameView::callee(f.stack.subrange(base, f.stack.len() as int)),
                    j,
                    fuel,
                ) {
                    Err(e) => Err(e),
                    Ok((callee, j1)) => Ok(
                        (f.without_top(arity).returned(callee), j1),
                    ),
                }
            },
        },
        _ => native_invoke_static(class, method, f, j),
    }
}

/// Calling an instance method of `class` on `this` with `args`. The caller
/// has read both from the operand stack of `f`, which still holds them.
pub open spec fn invoke_instance_spec(
    classes: Seq<JavaClass>,
    class: JavaClass,
    method: Seq<char>,
    this: ValueView,
    args: Seq<ValueView>,
    f: FrameView,
    j: JvmView,
    fuel: nat,
) -> CallOutcome
    decreases fuel, 1nat,
{
    match class {
        JavaClass::Bytecode(compiled) => match find_method(compiled.methods@, method) {
            None => Err(JvmError::Link(LinkError::UnknownMethod)),
            Some(m) => if args.len() + 1 > LOCALS {
                Err(JvmError::Runtime(RuntimeError::BadLocal))
            } else {
                match run_spec(
                    classes,
                    compiled.methods@[m].code.instructions@,
                    0,
                    FrameView::callee(seq![this] + args),
                    j,
                    fuel,
                ) {
                    Err(e) => Err(e),
                    Ok((callee, j1)) => Ok((f.returned(callee), j1)),
                }
            },
        },
        _ => native_invoke_instance(class, method, this, args, f, j),
    }
}

/// Running `code` from the instruction at `pc` until it returns.
pub open spec fn run_spec(
    classes: Seq<JavaClass>,
    code: Seq<Instruction>,
    pc: int,
    f: FrameView,
    j: JvmView,
    fuel: nat,
) -> CallOutcome
    decreases fuel, 0nat,
{
    if !(0 <= pc < code.len()) {
        Err(JvmError::Runtime(RuntimeError::PcOutOfRange))
    } else if fuel == 0 {
        Err(JvmError::OutOfFuel)
    } else {
        match step_spec(classes, code[pc]@, f, j, (fuel - 1) as nat) {
            Err(e) => Err(e),
            Ok((f1, j1, action)) => match action {
                InstrNextAction::RETURN => Ok((f1, j1)),
                InstrNextAction::NEXT => run_spec(classes, code, pc + 1, f1, j1, (fuel - 1) as nat),
                InstrNextAction::GOTO(target) => run_spec(
                    classes,
                    code,
                    target as int,
                    f1,
                    j1,
                    (fuel - 1) as nat,
                ),
            },
        }
    }
}


/// The text on standard output after an instruction, whether it is done or
/// has failed: a failure takes nothing back of what was written before it.
pub open spec fn step_output(
    classes: Seq<JavaClass>,
    i: Instr,
    f: FrameView,
    j: JvmView,
    fuel: nat,
) -> Seq<char>
    decreases fuel, 2nat,
{
    match step_spec(classes, i, f, j, fuel) {
        Ok((_, j1, _)) => j1.out,
        Err(_) => match i {
            Instr::InvokeStatic { class_name, method_name, type_desc } => match (
                find_class(classes, class_name),
                descriptor_arity(type_desc),
            ) {
                (Some(c), Some(arity)) => if classes[c] is Bytecode {
                    static_call_output(classes, classes[c], method_name, arity, f, j, fuel)
                } else {
                    j.out
                },
                _ => j.out,
            },
            Instr::InvokeVirtual { class_name, method_name, type_desc } => match (
                find_class(classes, class_name),
                descriptor_arity(type_desc),
            ) {
                (Some(c), Some(arity)) => match f.call_operands(arity) {
                    Ok((this, args)) => instance_call_output(
                        classes,
                        classes[c],
                        method_name,
                        this,
                        args,
                        f,
                        j,
                        fuel,
                    ),
                    Err(_) => j.out,
                },
                _ => j.out,
            },
            _ => j.out,
        },
    }
}

/// The text on standard output after a call of a static method, whether it
/// has returned or failed. An intrinsic method that fails has written
/// nothing.
pub open spec fn static_call_output(
    classes: Seq<JavaClass>,
    class: JavaClass,
    method: Seq<char>,
    arity: nat,
    f: FrameView,
    j: JvmView,
    fuel: nat,
) -> Seq<char>
    decreases fuel, 1nat,
{
    match invoke_static_spec(classes, class, method, arity, f, j, fuel) {
        Ok((_, j1)) => j1.out,
        Err(_) => match class {
            JavaClass::Bytecode(compiled) => match find_method(compiled.methods@, method) {
                Some(m) => if arity <= LOCALS && f.stack.len() >= arity {
                    run_output(
                        classes,
                        compiled.methods@[m].code.instructions@,
                        0,
                        FrameView::callee(
                            f.stack.subrange(f.stack.len() - arity, f.stack.len() as int),
                        ),
                        j,
                        fuel,
                    )
                } else {
                    j.out
                },
                None => j.out,
            },
            _ => j.out,
        },
    }
}

/// The text on standard output after a call of an instance method, whether
/// it has returned or failed.
pub open spec fn instance_call_output(
    classes: Seq<JavaClass>,
    class: JavaClass,
    method: Seq<char>,
    this: ValueView,
    args: Seq<ValueView>,
    f: FrameView,
    j: JvmView,
    fuel: nat,
) -> Seq<char>
    decreases fuel, 1nat,
{
    match invoke_instance_spec(classes, class, method, this, args, f, j, fuel) {
        Ok((_, j1)) => j1.out,
        Err(_) => match class {
            JavaClass::Bytecode(compiled) => match find_method(compiled.methods@, method) {
                Some(m) => if args.len() + 1 <= LOCALS {
                    run_output(
                        classes,
                        compiled.methods@[m].code.instructions@,
                        0,
                        FrameView::callee(seq![this] + args),
                        j,
                        fuel,
                    )
                } else {
                    j.out
                },
                None => j.out,
            },
            _ => j.out,
        },
    }
}

/// The text on standard output after a run of `code` from the instruction at
/// `pc`, whether the run has returned or failed: what was there before, and
/// after it what every instruction wrote up to the return or the failure.
pub open spec fn run_output(
    classes: Seq<JavaClass>,
    code: Seq<Instruction>,
    pc: int,
    f: FrameView,
    j: JvmView,
    fuel: nat,
) -> Seq<char>
    decreases fuel, 0nat,
{
    if !(0 <= pc < code.len()) || fuel == 0 {
        j.out
    } else {
        match step_spec(classes, code[pc]@, f, j, (fuel - 1) as nat) {
            Err(_) => step_output(classes, code[pc]@, f, j, (fuel - 1) as nat),
            Ok((f1, j1, action)) => match action {
                InstrNextAction::RETURN => j1.out,
                InstrNextAction::NEXT => run_output(
                    classes,
                    code,
                    pc + 1,
                    f1,
                    j1,
                    (fuel - 1) as nat,
                ),
                InstrNextAction::GOTO(target) => run_output(
                    classes,
                    code,
                    target as int,
                    f1,
                    j1,
                    (fuel - 1) as nat,
                ),
            },
        }
    }
}

/// `anewarray` with the count `n` on top of the stack leaves a reference to
/// a new array on top, and that array has exactly `n` slots, each
/// `Integer(0)`.
pub proof fn lemma_anewarray_allocates(
    classes: Seq<JavaClass>,
    class_name: Seq<char>,
    f: FrameView,
    j: JvmView,
    n: i32,
    fuel: nat,
)
    requires
        n >= 0,
        j.heap.arrays.len() <= usize::MAX,
    ensures
        step_spec(classes, Instr::ANewArray(class_name), f.push(ValueView::Integer(n)), j, fuel)
            matches Ok((f1, j1, action)) && {
            &&& action == InstrNextAction::NEXT
            &&& f1 == f.push(ValueView::Array(j.heap.arrays.len() as usize))
            &&& j1.heap.arrays.len() == j.heap.arrays.len() + 1
            &&& j1.heap.arrays[j.heap.arrays.len() as int].len() == n
            &&& forall|k: int|
                0 <= k < n ==> j1.heap.arrays[j.heap.arrays.len() as int][k] == ValueView::Integer(
                    0,
                )
        },
{
    lemma_pop_after_push(f, ValueView::Integer(n));
}

/// `aastore` of `v` into slot `i` of an array, then `aaload` of that slot,
/// gives `v` back: the store leaves the stack as it was below its operands,
/// and the load pushes `v` on it.
pub proof fn lemma_aaload_after_aastore(
    classes: Seq<JavaClass>,
    f: FrameView,
    j: JvmView,
    array: usize,
    i: i32,
    v: ValueView,
    fuel: nat,
)
    requires
        array < j.heap.arrays.len(),
        0 <= i < j.heap.arrays[array as int].len(),
    ensures
        step_spec(
            classes,
            Instr::AAStore,
            f.push(ValueView::Array(array)).push(ValueView::Integer(i)).push(v),
            j,
            fuel,
        ) matches Ok((f1, j1, stored)) && {
            &&& stored == InstrNextAction::NEXT
            &&& f1 == f
            &&& step_spec(
                classes,
                Instr::AALoad,
                f1.push(ValueView::Array(array)).push(ValueView::Integer(i)),
                j1,
                fuel,
            ) == Ok::<(FrameView, JvmView, InstrNextAction), JvmError>(
                (f.push(v), j1, InstrNextAction::NEXT),
            )
        },
{
    let with_array = f.push(ValueView::Array(array));
    let with_index = with_array.push(ValueView::Integer(i));
    lemma_pop_after_push(with_index, v);
    lemma_pop_after_push(with_array, ValueView::Integer(i));
    lemma_pop_after_push(f, ValueView::Array(array));
    lemma_load_after_store(j.heap, array, i as int, v);
}


/// Fuel only bounds the evaluation: an instruction whose outcome is not
/// `OutOfFuel` has the same outcome with any greater fuel.
pub proof fn lemma_step_with_more_fuel(
    classes: Seq<JavaClass>,
    i: Instr,
    f: FrameView,
    j: JvmView,
    fuel: nat,
    more: nat,
)
    requires
        step_spec(classes, i, f, j, fuel) != Err::<
            (FrameView, JvmView, InstrNextAction),
            JvmError,
        >(JvmError::OutOfFuel),
    ensures
        step_spec(classes, i, f, j, fuel + more) == step_spec(classes, i, f, j, fuel),
    decreases fuel, 2nat,
{
    match i {
        Instr::InvokeStatic { class_name, method_name, type_desc } => {
            match (find_class(classes, class_name), descriptor_arity(type_desc)) {
                (Some(c), Some(arity)) => {
                    if classes[c] is Bytecode {
                        lemma_static_call_with_more_fuel(
                            classes,
                            classes[c],
                            method_name,
                            arity,
                            f,
                            j,
                            fuel,
                            more,
                        );
                    }
                },
                _ => {},
            }
        },
        Instr::InvokeVirtual { class_name, method_name, type_desc } => {
            match (find_class(classes, class_name), descriptor_arity(type_desc)) {
                (Some(c), Some(arity)) => {
                    match f.call_operands(arity) {
                        Ok((this, args)) => {
                            lemma_instance_call_with_more_fuel(
                                classes,
                                classes[c],
                                method_name,
                                this,
                                args,
                                f,
                                j,
                                fuel,
                                more,
                            );
                        },
                        Err(_) => {},
                    }
                },
                _ => {},
            }
        },
        _ => {},
    }
}

/// A call of a static method whose outcome is not `OutOfFuel` has the same
/// outcome with any greater fuel.
pub proof fn lemma_static_call_with_more_fuel(
    classes: Seq<JavaClass>,
    class: JavaClass,
    method: Seq<char>,
    arity: nat,
    f: FrameView,
    j: JvmView,
    fuel: nat,
    more: nat,
)
    requires
        invoke_static_spec(classes, class, method, arity, f, j, fuel) != Err::<
            (FrameView, JvmView),
            JvmError,
        >(JvmError::OutOfFuel),
    ensures
        invoke_static_spec(classes, class, method, arity, f, j, fuel + more) == invoke_static_spec(
            classes,
            class,
            method,
            arity,
            f,
            j,
            fuel,
        ),
    decreases fuel, 1nat,
{
    match class {
        JavaClass::Bytecode(compiled) => {
            match find_method(compiled.methods@, method) {
                Some(m) => {
                    if arity <= LOCALS && f.stack.len() >= arity {
                        let base = f.stack.len() - arity;
                        lemma_run_with_more_fuel(
                            classes,
                            compiled.methods@[m].code.instructions@,
                            0,
                            FrameView::callee(f.stack.subrange(base, f.stack.len() as int)),
                            j,
                            fuel,
                            more,
                        );
                    }
                },
                None => {},
            }
        },
        _ => {},
    }
}

/// A call of an instance method whose outcome is not `OutOfFuel` has the
/// same outcome with any greater fuel.
pub proof fn lemma_instance_call_with_more_fuel(
    classes: Seq<JavaClass>,
    class: JavaClass,
    method: Seq<char>,
    this: ValueView,
    args: Seq<ValueView>,
    f: FrameView,
    j: JvmView,
    fuel: nat,
    more: nat,
)
    requires
        invoke_instance_spec(classes, class, method, this, args, f, j, fuel) != Err::<
            (FrameView, JvmView),
            JvmError,
        >(JvmError::OutOfFuel),
    ensures
        invoke_instance_spec(classes, class, method, this, args, f, j, fuel + more)
            == invoke_instance_spec(classes, class, method, this, args, f, j, fuel),
    decreases fuel, 1nat,
{
    match class {
        JavaClass::Bytecode(compiled) => {
            match find_method(compiled.methods@, method) {
                Some(m) => {
                    if args.len() + 1 <= LOCALS {
                        lemma_run_with_more_fuel(
                            classes,
                            compiled.methods@[m].code.instructions@,
                            0,
                            FrameView::callee(seq![this] + args),
                            j,
                            fuel,
                            more,
                        );
                    }
                },
                None => {},
            }
        },
        _ => {},
    }
}

/// A run whose outcome is not `OutOfFuel` has the same outcome with any
/// greater fuel: where the fuel suffices, the result does not depend on it.
pub proof fn lemma_run_with_more_fuel(
    classes: Seq<JavaClass>,
    code: Seq<Instruction>,
    pc: int,
    f: FrameView,
    j: JvmView,
    fuel: nat,
    more: nat,
)
    requires
        run_spec(classes, code, pc, f, j, fuel) != Err::<(FrameView, JvmView), JvmError>(
            JvmError::OutOfFuel,
        ),
    ensures
        run_spec(classes, code, pc, f, j, fuel + more) == run_spec(classes, code, pc, f, j, fuel),
    decreases fuel, 0nat,
{
    if 0 <= pc < code.len() && fuel > 0 {
        let left = (fuel - 1) as nat;
        assert((fuel + more - 1) as nat == left + more);
        lemma_step_with_more_fuel(classes, code[pc]@, f, j, left, more);
        match step_spec(classes, code[pc]@, f, j, left) {
            Ok((f1, j1, action)) => match action {
                InstrNextAction::NEXT => {
                    lemma_run_with_more_fuel(classes, code, pc + 1, f1, j1, left, more);
                },
                InstrNextAction::GOTO(target) => {
                    lemma_run_with_more_fuel(classes, code, target as int, f1, j1, left, more);
                },
                InstrNextAction::RETURN => {},
            },
            Err(_) => {},
        }
    }
}


/// A beginning of a beginning of a text is a beginning of the text.
pub proof fn lemma_prefix_of_prefix(a: Seq<char>, b: Seq<char>, c: Seq<char>)
    requires
        a.is_prefix_of(b),
        b.is_prefix_of(c),
    ensures
        a.is_prefix_of(c),
{
    assert(a =~= c.subrange(0, a.len() as int)) by {
        assert forall|k: int| 0 <= k < a.len() implies a[k] == c.subrange(0, a.len() as int)[k] by {
            assert(a[k] == b.subrange(0, a.len() as int)[k]);
            assert(b[k] == c.subrange(0, b.len() as int)[k]);
        }
    }
}

/// The text on standard output after a run that returns is the text of the
/// machine that the run leaves.
pub proof fn lemma_output_of_a_run_that_returns(
    classes: Seq<JavaClass>,
    code: Seq<Instruction>,
    pc: int,
    f: FrameView,
    j: JvmView,
    fuel: nat,
)
    requires
        run_spec(classes, code, pc, f, j, fuel) is Ok,
    ensures
        run_output(classes, code, pc, f, j, fuel) == run_spec(
            classes,
            code,
            pc,
            f,
            j,
            fuel,
        )->Ok_0.1.out,
    decreases fuel,
{
    if 0 <= pc < code.len() && fuel > 0 {
        let left = (fuel - 1) as nat;
        match step_spec(classes, code[pc]@, f, j, left) {
            Ok((f1, j1, action)) => match action {
                InstrNextAction::NEXT => {
                    lemma_output_of_a_run_that_returns(classes, code, pc + 1, f1, j1, left);
                },
                InstrNextAction::GOTO(target) => {
                    lemma_output_of_a_run_that_returns(classes, code, target as int, f1, j1, left);
                },
                InstrNextAction::RETURN => {},
            },
            Err(_) => {},
        }
    }
}

/// An intrinsic call that returns has taken nothing back of what was
/// written: the text before it is a beginning of the text after it.
pub proof fn lemma_intrinsic_call_extends_output(
    class: JavaClass,
    method: Seq<char>,
    this: ValueView,
    args: Seq<ValueView>,
    f: FrameView,
    j: JvmView,
)
    ensures
        native_invoke_static(class, method, f, j) matches Ok((_, j1)) ==> j.out.is_prefix_of(
            j1.out,
        ),
        native_invoke_instance(class, method, this, args, f, j) matches Ok((_, j1))
            ==> j.out.is_prefix_of(j1.out),
{
    assert(j.out.is_prefix_of(j.out));
    match native_invoke_instance(class, method, this, args, f, j) {
        Ok((_, j1)) => {
            if class is PrintStream {
                let text = crate::native_java_classes::first_text(args)->Ok_0;
                assert(j.out.is_prefix_of(j.out + text));
                assert(j.out.is_prefix_of(j.out + text + "\n"@));
            }
        },
        Err(_) => {},
    }
}

/// An instruction takes nothing back of what was written: the text before
/// it is a beginning of the text after it, whether it is done or has failed.
pub proof fn lemma_step_extends_output(
    classes: Seq<JavaClass>,
    i: Instr,
    f: FrameView,
    j: JvmView,
    fuel: nat,
)
    ensures
        j.out.is_prefix_of(step_output(classes, i, f, j, fuel)),
    decreases fuel, 2nat,
{
    assert(j.out.is_prefix_of(j.out));
    match i {
        Instr::InvokeStatic { class_name, method_name, type_desc } => {
            match find_class(classes, class_name) {
                Some(c) => {
                    if classes[c] is Bytecode {
                        match descriptor_arity(type_desc) {
                            Some(arity) => {
                                lemma_static_call_extends_output(
                                    classes,
                                    classes[c],
                                    method_name,
                                    arity,
                                    f,
                                    j,
                                    fuel,
                                );
                            },
                            None => {},
                        }
                    } else {
                        lemma_intrinsic_call_extends_output(
                            classes[c],
                            method_name,
                            ValueView::Null,
                            Seq::empty(),
                            f,
                            j,
                        );
                    }
                },
                None => {},
            }
        },
        Instr::InvokeVirtual { class_name, method_name, type_desc } => {
            match (find_class(classes, class_name), descriptor_arity(type_desc)) {
                (Some(c), Some(arity)) => {
                    match f.call_operands(arity) {
                        Ok((this, args)) => {
                            lemma_instance_call_extends_output(
                                classes,
                                classes[c],
                                method_name,
                                this,
                                args,
                                f,
                                j,
                                fuel,
                            );
                        },
                        Err(_) => {},
                    }
                },
                _ => {},
            }
        },
        _ => {},
    }
}

/// A call of a static method takes nothing back of what was written.
pub proof fn lemma_static_call_extends_output(
    classes: Seq<JavaClass>,
    class: JavaClass,
    method: Seq<char>,
    arity: nat,
    f: FrameView,
    j: JvmView,
    fuel: nat,
)
    ensures
        j.out.is_prefix_of(static_call_output(classes, class, method, arity, f, j, fuel)),
    decreases fuel, 1nat,
{
    assert(j.out.is_prefix_of(j.out));
    match class {
        JavaClass::Bytecode(compiled) => {
            match find_method(compiled.methods@, method) {
                Some(m) => {
                    if arity <= LOCALS && f.stack.len() >= arity {
                        let code = compiled.methods@[m].code.instructions@;
                        let callee = FrameView::callee(
                            f.stack.subrange(f.stack.len() - arity, f.stack.len() as int),
                        );
                        lemma_run_extends_output(classes, code, 0, callee, j, fuel);
                        if run_spec(classes, code, 0, callee, j, fuel) is Ok {
                            lemma_output_of_a_run_that_returns(classes, code, 0, callee, j, fuel);
                        }
                    }
                },
                None => {},
            }
        },
        _ => {
            lemma_intrinsic_call_extends_output(class, method, ValueView::Null, Seq::empty(), f, j);
        },
    }
}

/// A call of an instance method takes nothing back of what was written.
pub proof fn lemma_instance_call_extends_output(
    classes: Seq<JavaClass>,
    class: JavaClass,
    method: Seq<char>,
    this: ValueView,
    args: Seq<ValueView>,
    f: FrameView,
    j: JvmView,
    fuel: nat,
)
    ensures
        j.out.is_prefix_of(
            instance_call_output(classes, class, method, this, args, f, j, fuel),
        ),
    decreases fuel, 1nat,
{
    assert(j.out.is_prefix_of(j.out));
    match class {
        JavaClass::Bytecode(compiled) => {
            match find_method(compiled.methods@, method) {
                Some(m) => {
                    if args.len() + 1 <= LOCALS {
                        let code = compiled.methods@[m].code.instructions@;
                        let callee = FrameView::callee(seq![this] + args);
                        lemma_run_extends_output(classes, code, 0, callee, j, fuel);
                        if run_spec(classes, code, 0, callee, j, fuel) is Ok {
                            lemma_output_of_a_run_that_returns(classes, code, 0, callee, j, fuel);
                        }
                    }
                },
                None => {},
            }
        },
        _ => {
            lemma_intrinsic_call_extends_output(class, method, this, args, f, j);
        },
    }
}

/// A run takes nothing back of what was written: the text before it is a
/// beginning of the text after it, whether the run returns or fails.
pub proof fn lemma_run_extends_output(
    classes: Seq<JavaClass>,
    code: Seq<Instruction>,
    pc: int,
    f: FrameView,
    j: JvmView,
    fuel: nat,
)
    ensures
        j.out.is_prefix_of(run_output(classes, code, pc, f, j, fuel)),
    decreases fuel, 0nat,
{
    assert(j.out.is_prefix_of(j.out));
    if 0 <= pc < code.len() && fuel > 0 {
        let left = (fuel - 1) as nat;
        lemma_step_extends_output(classes, code[pc]@, f, j, left);
        match step_spec(classes, code[pc]@, f, j, left) {
            Ok((f1, j1, action)) => {
                assert(step_output(classes, code[pc]@, f, j, left) == j1.out);
                match action {
                    InstrNextAction::NEXT => {
                        lemma_run_extends_output(classes, code, pc + 1, f1, j1, left);
                        lemma_prefix_of_prefix(
                            j.out,
                            j1.out,
                            run_output(classes, code, pc + 1, f1, j1, left),
                        );
                    },
                    InstrNextAction::GOTO(target) => {
                        lemma_run_extends_output(classes, code, target as int, f1, j1, left);
                        lemma_prefix_of_prefix(
                            j.out,
                            j1.out,
                            run_output(classes, code, target as int, f1, j1, left),
                        );
                    },
                    InstrNextAction::RETURN => {},
                }
            },
            Err(_) => {},
        }
    }
}

} // verus!
