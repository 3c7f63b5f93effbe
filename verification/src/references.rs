//! References stay valid: a machine whose values refer to objects of its own
//! heap only keeps that property through every instruction, call and run.
//! `DanglingReference` is therefore an error that values made by the machine
//! itself never cause.

use vstd::prelude::*;
use crate::bytecode::{Instr, InstrNextAction, Instruction};
use crate::classes::find_class;
use crate::descriptor::descriptor_arity;
use crate::errors::JvmError;
use crate::java_class::{find_method, find_static, JavaClass};
use crate::jvm::{FrameView, HeapView, JvmView, ValueView};
use crate::native_java_classes::{native_invoke_instance, native_invoke_static};
use crate::semantics::{
    invoke_instance_spec, invoke_static_spec, read_static_spec, run_spec, step_spec,
};

verus! {

/// Whether the value, where it is a reference, names an object of the heap.
pub open spec fn value_ok(v: ValueView, h: HeapView) -> bool {
    match v {
        ValueView::Array(a) => a < h.arrays.len(),
        ValueView::Instance(o) => o < h.instances.len(),
        _ => true,
    }
}

/// Whether every value of the sequence is valid in the heap.
pub open spec fn values_ok(s: Seq<ValueView>, h: HeapView) -> bool {
    forall|i: int| 0 <= i < s.len() ==> value_ok(#[trigger] s[i], h)
}

/// Whether every slot of every array and every field of every instance is
/// valid in the heap itself.
pub open spec fn heap_ok(h: HeapView) -> bool {
    &&& forall|a: int| 0 <= a < h.arrays.len() ==> values_ok(#[trigger] h.arrays[a], h)
    &&& forall|o: int|
        0 <= o < h.instances.len() ==> values_ok((#[trigger] h.instances[o]).field_values, h)
}

/// Whether the frame and the heap of the machine hold valid values only.
pub open spec fn state_ok(f: FrameView, j: JvmView) -> bool {
    &&& values_ok(f.stack, j.heap)
    &&& values_ok(f.variables, j.heap)
    &&& heap_ok(j.heap)
}

/// Whether the second heap holds every object of the first: objects are
/// added, never removed.
pub open spec fn grows(before: HeapView, after: HeapView) -> bool {
    before.arrays.len() <= after.arrays.len() && before.instances.len() <= after.instances.len()
}

/// Whether no static field of a compiled class holds a reference.
pub open spec fn classes_ok(classes: Seq<JavaClass>) -> bool {
    forall|c: int, k: int|
        0 <= c < classes.len() && (#[trigger] classes[c]) is Bytecode && 0 <= k
            < classes[c]->Bytecode_0.static_fields@.len() ==> !((
        #[trigger] classes[c]->Bytecode_0.static_fields@[k]).value@ is Array) && !(
        classes[c]->Bytecode_0.static_fields@[k].value@ is Instance)
}

/// Whether the outcome of an instruction on a valid state is a valid state
/// over a heap that has only grown.
pub open spec fn step_keeps(
    j: JvmView,
    outcome: Result<(FrameView, JvmView, InstrNextAction), JvmError>,
) -> bool {
    match outcome {
        Ok((f1, j1, _)) => state_ok(f1, j1) && grows(j.heap, j1.heap),
        Err(_) => true,
    }
}

/// Whether the outcome of a call on a valid state is a valid state over a
/// heap that has only grown.
pub open spec fn call_keeps(j: JvmView, outcome: Result<(FrameView, JvmView), JvmError>) -> bool {
    match outcome {
        Ok((f1, j1)) => state_ok(f1, j1) && grows(j.heap, j1.heap),
        Err(_) => true,
    }
}

/// A new frame over an empty heap is a valid state.
pub proof fn lemma_initial_state_ok(j: JvmView)
    requires
        j.heap.arrays.len() == 0,
        j.heap.instances.len() == 0,
    ensures
        state_ok(FrameView::empty(), j),
{
}

/// The static fields that a class file declares hold no reference when the
/// class is decoded.
pub proof fn lemma_decoded_statics_hold_no_reference(
    fields: Seq<crate::class_file::FieldView>,
    k: int,
)
    requires
        0 <= k < crate::class_file::statics_of(fields).len(),
    ensures
        !(crate::class_file::statics_of(fields)[k].1 is Array),
        !(crate::class_file::statics_of(fields)[k].1 is Instance),
    decreases fields.len(),
{
    if fields.len() > 0 {
        let earlier = crate::class_file::statics_of(fields.drop_last());
        if k < earlier.len() {
            lemma_decoded_statics_hold_no_reference(fields.drop_last(), k);
        }
    }
}

/// Values that are valid in a heap are valid in every heap it grows to.
pub proof fn lemma_values_ok_grows(s: Seq<ValueView>, before: HeapView, after: HeapView)
    requires
        values_ok(s, before),
        grows(before, after),
    ensures
        values_ok(s, after),
{
    assert forall|i: int| 0 <= i < s.len() implies value_ok(#[trigger] s[i], after) by {
        assert(value_ok(s[i], before));
    }
}

/// A valid heap with one more array of valid values is a valid heap.
pub proof fn lemma_alloc_filled_ok(h: HeapView, values: Seq<ValueView>)
    requires
        heap_ok(h),
        values_ok(values, h),
    ensures
        heap_ok(h.alloc_filled(values)),
        grows(h, h.alloc_filled(values)),
{
    let after = h.alloc_filled(values);
    assert forall|a: int| 0 <= a < after.arrays.len() implies values_ok(
        #[trigger] after.arrays[a],
        after,
    ) by {
        if a < h.arrays.len() {
            assert(after.arrays[a] == h.arrays[a]);
            lemma_values_ok_grows(h.arrays[a], h, after);
        } else {
            lemma_values_ok_grows(values, h, after);
        }
    }
    assert forall|o: int| 0 <= o < after.instances.len() implies values_ok(
        (#[trigger] after.instances[o]).field_values,
        after,
    ) by {
        lemma_values_ok_grows(h.instances[o].field_values, h, after);
    }
}

/// A valid heap with one more instance of valid fields is a valid heap.
pub proof fn lemma_alloc_instance_ok(h: HeapView, instance: crate::jvm::InstanceView)
    requires
        heap_ok(h),
        values_ok(instance.field_values, h),
    ensures
        heap_ok(h.alloc_instance(instance)),
        grows(h, h.alloc_instance(instance)),
{
    let after = h.alloc_instance(instance);
    assert forall|a: int| 0 <= a < after.arrays.len() implies values_ok(
        #[trigger] after.arrays[a],
        after,
    ) by {
        lemma_values_ok_grows(h.arrays[a], h, after);
    }
    assert forall|o: int| 0 <= o < after.instances.len() implies values_ok(
        (#[trigger] after.instances[o]).field_values,
        after,
    ) by {
        if o < h.instances.len() {
            assert(after.instances[o] == h.instances[o]);
            lemma_values_ok_grows(h.instances[o].field_values, h, after);
        } else {
            lemma_values_ok_grows(instance.field_values, h, after);
        }
    }
}

/// A valid heap in which the slots of one array are replaced by valid values
/// is a valid heap.
pub proof fn lemma_update_array_ok(h: HeapView, array: int, values: Seq<ValueView>)
    requires
        heap_ok(h),
        0 <= array < h.arrays.len(),
        values_ok(values, h),
    ensures
        heap_ok(HeapView { arrays: h.arrays.update(array, values), ..h }),
        grows(h, HeapView { arrays: h.arrays.update(array, values), ..h }),
{
    let after = HeapView { arrays: h.arrays.update(array, values), ..h };
    assert forall|a: int| 0 <= a < after.arrays.len() implies values_ok(
        #[trigger] after.arrays[a],
        after,
    ) by {
        if a == array {
            lemma_values_ok_grows(values, h, after);
        } else {
            assert(after.arrays[a] == h.arrays[a]);
            lemma_values_ok_grows(h.arrays[a], h, after);
        }
    }
    assert forall|o: int| 0 <= o < after.instances.len() implies values_ok(
        (#[trigger] after.instances[o]).field_values,
        after,
    ) by {
        lemma_values_ok_grows(h.instances[o].field_values, h, after);
    }
}

/// A valid heap in which one instance is replaced by one of valid fields is
/// a valid heap.
pub proof fn lemma_update_instance_ok(h: HeapView, o: int, instance: crate::jvm::InstanceView)
    requires
        heap_ok(h),
        0 <= o < h.instances.len(),
        values_ok(instance.field_values, h),
    ensures
        heap_ok(HeapView { instances: h.instances.update(o, instance), ..h }),
        grows(h, HeapView { instances: h.instances.update(o, instance), ..h }),
{
    let after = HeapView { instances: h.instances.update(o, instance), ..h };
    assert forall|a: int| 0 <= a < after.arrays.len() implies values_ok(
        #[trigger] after.arrays[a],
        after,
    ) by {
        lemma_values_ok_grows(h.arrays[a], h, after);
    }
    assert forall|k: int| 0 <= k < after.instances.len() implies values_ok(
        (#[trigger] after.instances[k]).field_values,
        after,
    ) by {
        if k == o {
            lemma_values_ok_grows(instance.field_values, h, after);
        } else {
            assert(after.instances[k] == h.instances[k]);
            lemma_values_ok_grows(h.instances[k].field_values, h, after);
        }
    }
}

/// A frame over a heap that grows stays valid.
pub proof fn lemma_frame_ok_grows(f: FrameView, before: HeapView, after: HeapView)
    requires
        values_ok(f.stack, before),
        values_ok(f.variables, before),
        grows(before, after),
    ensures
        values_ok(f.stack, after),
        values_ok(f.variables, after),
{
    lemma_values_ok_grows(f.stack, before, after);
    lemma_values_ok_grows(f.variables, before, after);
}

/// Reading a static field of a class on a valid machine gives a valid value
/// and leaves the machine valid.
pub proof fn lemma_read_static_keeps(classes: Seq<JavaClass>, c: int, field: Seq<char>, j: JvmView)
    requires
        classes_ok(classes),
        0 <= c < classes.len(),
        heap_ok(j.heap),
    ensures
        read_static_spec(classes[c], field, j) matches Ok((v, j1)) ==> value_ok(v, j1.heap)
            && heap_ok(j1.heap) && grows(j.heap, j1.heap),
{
    match classes[c] {
        JavaClass::Bytecode(compiled) => {
            match find_static(compiled.static_fields@, field) {
                Some(k) => {
                    assert(crate::java_class::is_first_static(compiled.static_fields@, field, k));
                    assert(!(classes[c]->Bytecode_0.static_fields@[k].value@ is Array));
                },
                None => {},
            }
        },
        JavaClass::System(_) => {
            if field == "out"@ {
                let instance = crate::native_java_classes::plain_instance("Stream"@);
                assert(values_ok(instance.field_values, j.heap));
                lemma_alloc_instance_ok(j.heap, instance);
            }
        },
        _ => {},
    }
}


/// A static method of an intrinsic class keeps a valid state valid.
pub proof fn lemma_native_static_keeps(
    class: JavaClass,
    method: Seq<char>,
    f: FrameView,
    j: JvmView,
)
    requires
        state_ok(f, j),
    ensures
        call_keeps(j, native_invoke_static(class, method, f, j)),
{
    match class {
        JavaClass::Arrays(_) => {
            if method == "asList"@ {
                match f.pop_array() {
                    Ok((array, rest)) => {
                        if array < j.heap.arrays.len() {
                            let values = j.heap.arrays[array as int];
                            let filled = j.heap.alloc_filled(values);
                            let list = crate::native_java_classes::list_instance(
                                j.heap.arrays.len() as usize,
                            );
                            lemma_alloc_filled_ok(j.heap, values);
                            assert(values_ok(list.field_values, filled));
                            lemma_alloc_instance_ok(filled, list);
                            let after = filled.alloc_instance(list);
                            lemma_frame_ok_grows(rest, j.heap, after);
                        }
                    },
                    Err(_) => {},
                }
            }
        },
        _ => {},
    }
}

/// An instance method of an intrinsic class keeps a valid state valid.
pub proof fn lemma_native_instance_keeps(
    class: JavaClass,
    method: Seq<char>,
    this: ValueView,
    args: Seq<ValueView>,
    f: FrameView,
    j: JvmView,
)
    requires
        state_ok(f, j),
        value_ok(this, j.heap),
        values_ok(args, j.heap),
    ensures
        call_keeps(j, native_invoke_instance(class, method, this, args, f, j)),
{
    match native_invoke_instance(class, method, this, args, f, j) {
        Ok((f1, j1)) => {
            match class {
                JavaClass::Arrays(_) => {
                    let array = this->Array_0;
                    let values = j.heap.arrays[array as int];
                    lemma_alloc_filled_ok(j.heap, values);
                    lemma_frame_ok_grows(f, j.heap, j1.heap);
                },
                JavaClass::ArrayList(_) | JavaClass::List(_) => {
                    if method == "add"@ && (class is List || method != "<init>"@) {
                        let content = crate::native_java_classes::list_storage(
                            this,
                            j.heap,
                        )->Ok_0;
                        let values = j.heap.arrays[content as int].push(args[0]);
                        assert(values_ok(values, j.heap)) by {
                            assert(values_ok(j.heap.arrays[content as int], j.heap));
                            assert(value_ok(args[0], j.heap));
                        }
                        lemma_update_array_ok(j.heap, content as int, values);
                        lemma_frame_ok_grows(f, j.heap, j1.heap);
                    }
                },
                JavaClass::Enum(_) => {
                    if method == "<init>"@ {
                        let reference = this->Instance_0;
                        let arguments = crate::native_java_classes::enum_arguments(args)->Ok_0;
                        let constant = crate::native_java_classes::enum_instance(
                            j.heap.instances[reference as int].class_name,
                            arguments.0,
                            arguments.1,
                        );
                        assert(values_ok(constant.field_values, j.heap));
                        lemma_update_instance_ok(j.heap, reference as int, constant);
                        lemma_frame_ok_grows(f, j.heap, j1.heap);
                    }
                },
                _ => {},
            }
        },
        Err(_) => {},
    }
}

/// An instruction keeps a valid state valid: after it, every reference on
/// the operand stack, in the local variables and in the heap names an object
/// of the heap, and the heap holds every object that it held before.
pub proof fn lemma_step_keeps(
    classes: Seq<JavaClass>,
    i: Instr,
    f: FrameView,
    j: JvmView,
    fuel: nat,
)
    requires
        classes_ok(classes),
        state_ok(f, j),
    ensures
        step_keeps(j, step_spec(classes, i, f, j, fuel)),
    decreases fuel, 2nat,
{
    match step_spec(classes, i, f, j, fuel) {
        Ok((f1, j1, action)) => {
            match i {
                Instr::ANewArray(_) => {
                    let count = f.pop_int()->Ok_0.0;
                    let zeroes = Seq::new(count as nat, |k: int| ValueView::Integer(0));
                    assert(j.heap.alloc_array(count as nat) == j.heap.alloc_filled(zeroes));
                    lemma_alloc_filled_ok(j.heap, zeroes);
                    lemma_frame_ok_grows(f.dropped(), j.heap, j1.heap);
                },
                Instr::AALoad => {
                    let array = f.dropped().pop_array()->Ok_0.0;
                    assert(values_ok(j.heap.arrays[array as int], j.heap));
                },
                Instr::AAStore => {
                    let v = f.stack.last();
                    let index = f.dropped().pop_int()->Ok_0.0;
                    let array = f.dropped().dropped().pop_array()->Ok_0.0;
                    let values = j.heap.arrays[array as int].update(index as int, v);
                    assert(values_ok(values, j.heap)) by {
                        assert(values_ok(j.heap.arrays[array as int], j.heap));
                        assert(value_ok(v, j.heap));
                    }
                    lemma_update_array_ok(j.heap, array as int, values);
                    lemma_frame_ok_grows(f1, j.heap, j1.heap);
                },
                Instr::GetStatic { class_name, field_name, type_desc } => {
                    let c = find_class(classes, class_name)->Some_0;
                    crate::classes::lemma_find_class(classes, class_name, c);
                    lemma_read_static_keeps(classes, c, field_name, j);
                    lemma_frame_ok_grows(f, j.heap, j1.heap);
                },
                Instr::InvokeStatic { class_name, method_name, type_desc } => {
                    let c = find_class(classes, class_name)->Some_0;
                    if classes[c] is Bytecode {
                        let arity = descriptor_arity(type_desc)->Some_0;
                        lemma_static_call_keeps(
                            classes,
                            classes[c],
                            method_name,
                            arity,
                            f,
                            j,
                            fuel,
                        );
                    } else {
                        lemma_native_static_keeps(classes[c], method_name, f, j);
                    }
                },
                Instr::InvokeVirtual { class_name, method_name, type_desc } => {
                    let c = find_class(classes, class_name)->Some_0;
                    let arity = descriptor_arity(type_desc)->Some_0;
                    let operands = f.call_operands(arity)->Ok_0;
                    lemma_instance_call_keeps(
                        classes,
                        classes[c],
                        method_name,
                        operands.0,
                        operands.1,
                        f,
                        j,
                        fuel,
                    );
                },
                _ => {},
            }
        },
        Err(_) => {},
    }
}

/// A call of a static method keeps a valid state valid.
pub proof fn lemma_static_call_keeps(
    classes: Seq<JavaClass>,
    class: JavaClass,
    method: Seq<char>,
    arity: nat,
    f: FrameView,
    j: JvmView,
    fuel: nat,
)
    requires
        classes_ok(classes),
        state_ok(f, j),
    ensures
        call_keeps(j, invoke_static_spec(classes, class, method, arity, f, j, fuel)),
    decreases fuel, 1nat,
{
    match class {
        JavaClass::Bytecode(compiled) => {
            match invoke_static_spec(classes, class, method, arity, f, j, fuel) {
                Ok((f1, j1)) => {
                    let m = find_method(compiled.methods@, method)->Some_0;
                    let base = f.stack.len() - arity;
                    let callee = FrameView::callee(f.stack.subrange(base, f.stack.len() as int));
                    lemma_run_keeps(
                        classes,
                        compiled.methods@[m].code.instructions@,
                        0,
                        callee,
                        j,
                        fuel,
                    );
                    lemma_frame_ok_grows(f.without_top(arity), j.heap, j1.heap);
                },
                Err(_) => {},
            }
        },
        _ => {
            lemma_native_static_keeps(class, method, f, j);
        },
    }
}

/// A call of an instance method keeps a valid state valid.
pub proof fn lemma_instance_call_keeps(
    classes: Seq<JavaClass>,
    class: JavaClass,
    method: Seq<char>,
    this: ValueView,
    args: Seq<ValueView>,
    f: FrameView,
    j: JvmView,
    fuel: nat,
)
    requires
        classes_ok(classes),
        state_ok(f, j),
        value_ok(this, j.heap),
        values_ok(args, j.heap),
    ensures
        call_keeps(j, invoke_instance_spec(classes, class, method, this, args, f, j, fuel)),
    decreases fuel, 1nat,
{
    match class {
        JavaClass::Bytecode(compiled) => {
            match invoke_instance_spec(classes, class, method, this, args, f, j, fuel) {
                Ok((f1, j1)) => {
                    let m = find_method(compiled.methods@, method)->Some_0;
                    let callee = FrameView::callee(seq![this] + args);
                    lemma_run_keeps(
                        classes,
                        compiled.methods@[m].code.instructions@,
                        0,
                        callee,
                        j,
                        fuel,
                    );
                    lemma_frame_ok_grows(f, j.heap, j1.heap);
                },
                Err(_) => {},
            }
        },
        _ => {
            lemma_native_instance_keeps(class, method, this, args, f, j);
        },
    }
}

/// A run keeps a valid state valid.
pub proof fn lemma_run_keeps(
    classes: Seq<JavaClass>,
    code: Seq<Instruction>,
    pc: int,
    f: FrameView,
    j: JvmView,
    fuel: nat,
)
    requires
        classes_ok(classes),
        state_ok(f, j),
    ensures
        call_keeps(j, run_spec(classes, code, pc, f, j, fuel)),
    decreases fuel, 0nat,
{
    if 0 <= pc < code.len() && fuel > 0 {
        let left = (fuel - 1) as nat;
        lemma_step_keeps(classes, code[pc]@, f, j, left);
        match step_spec(classes, code[pc]@, f, j, left) {
            Ok((f1, j1, action)) => match action {
                InstrNextAction::NEXT => {
                    lemma_run_keeps(classes, code, pc + 1, f1, j1, left);
                },
                InstrNextAction::GOTO(target) => {
                    lemma_run_keeps(classes, code, target as int, f1, j1, left);
                },
                InstrNextAction::RETURN => {},
            },
            Err(_) => {},
        }
    }
}

} // verus!
