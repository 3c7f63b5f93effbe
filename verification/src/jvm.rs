//! The value model, the heap of shared containers, and the frame of one
//! method activation.

use vstd::prelude::*;
use crate::errors::{HostFunction, RuntimeError};

verus! {

/// Number of local variables in every frame.
pub const LOCALS: usize = 16;

/// A slot of the operand stack, of a local variable or of an array.
///
/// Primitives and text are held by value. Arrays and instances are references
/// into the [`Heap`]: copying the value copies the reference, and every holder
/// observes the same storage.
#[derive(Debug, PartialEq, Eq)]
pub enum Value {
    Integer(i32),
    Long(i64),
    /// The IEEE-754 bit pattern of a single-precision number.
    Float(u32),
    /// The IEEE-754 bit pattern of a double-precision number.
    Double(u64),
    Bool(bool),
    String(String),
    /// Reference to an array of the heap.
    Array(usize),
    /// Reference to an instance of the heap.
    Instance(usize),
    Null,
}

/// What a [`Value`] is, with its text as a sequence of characters.
pub enum ValueView {
    Integer(i32),
    Long(i64),
    Float(u32),
    Double(u64),
    Bool(bool),
    String(Seq<char>),
    Array(usize),
    Instance(usize),
    Null,
}

impl View for Value {
    type V = ValueView;

    open spec fn view(&self) -> ValueView {
        match self {
            Value::Integer(i) => ValueView::Integer(*i),
            Value::Long(l) => ValueView::Long(*l),
            Value::Float(f) => ValueView::Float(*f),
            Value::Double(d) => ValueView::Double(*d),
            Value::Bool(b) => ValueView::Bool(*b),
            Value::String(s) => ValueView::String(s@),
            Value::Array(a) => ValueView::Array(*a),
            Value::Instance(o) => ValueView::Instance(*o),
            Value::Null => ValueView::Null,
        }
    }
}

impl Clone for Value {
    fn clone(&self) -> (copy: Value)
        ensures
            copy@ == self@,
    {
        match self {
            Value::Integer(i) => Value::Integer(*i),
            Value::Long(l) => Value::Long(*l),
            Value::Float(f) => Value::Float(*f),
            Value::Double(d) => Value::Double(*d),
            Value::Bool(b) => Value::Bool(*b),
            Value::String(s) => Value::String(s.clone()),
            Value::Array(a) => Value::Array(*a),
            Value::Instance(o) => Value::Instance(*o),
            Value::Null => Value::Null,
        }
    }
}

impl ValueView {
    /// The integer a value stands for: an `Integer` itself, a `Bool` as 1 or 0.
    pub open spec fn as_int(self) -> Option<i32> {
        match self {
            ValueView::Integer(i) => Some(i),
            ValueView::Bool(b) => Some(if b { 1i32 } else { 0i32 }),
            _ => None,
        }
    }

    pub open spec fn as_long(self) -> Option<i64> {
        match self {
            ValueView::Long(l) => Some(l),
            _ => None,
        }
    }

    pub open spec fn as_bool(self) -> Option<bool> {
        match self {
            ValueView::Bool(b) => Some(b),
            _ => None,
        }
    }

    pub open spec fn as_text(self) -> Option<Seq<char>> {
        match self {
            ValueView::String(s) => Some(s),
            _ => None,
        }
    }

    pub open spec fn as_array(self) -> Option<usize> {
        match self {
            ValueView::Array(a) => Some(a),
            _ => None,
        }
    }
}

/// The views of a sequence of values, slot by slot.
pub open spec fn values_view(values: Seq<Value>) -> Seq<ValueView> {
    values.map_values(|v: Value| v@)
}

/// Copies a sequence of values slot by slot.
pub fn clone_values(values: &Vec<Value>) -> (copy: Vec<Value>)
    ensures
        values_view(copy@) == values_view(values@),
{
    let mut copy: Vec<Value> = Vec::new();
    let mut i: usize = 0;
    while i < values.len()
        invariant
            i <= values.len(),
            copy.len() == i,
            forall|k: int| 0 <= k < i ==> copy@[k]@ == values@[k]@,
        decreases values.len() - i,
    {
        copy.push(values[i].clone());
        i += 1;
    }
    assert(values_view(copy@) =~= values_view(values@));
    copy
}


/// An object of the heap: the name of its class and its fields, by name.
pub struct Instance {
    pub class_name: String,
    pub field_names: Vec<String>,
    pub field_values: Vec<Value>,
}

pub struct InstanceView {
    pub class_name: Seq<char>,
    pub field_names: Seq<Seq<char>>,
    pub field_values: Seq<ValueView>,
}

impl View for Instance {
    type V = InstanceView;

    open spec fn view(&self) -> InstanceView {
        InstanceView {
            class_name: self.class_name@,
            field_names: self.field_names@.map_values(|n: String| n@),
            field_values: values_view(self.field_values@),
        }
    }
}

/// The shared, mutable containers: arrays and instances. A reference is the
/// position of the container in its table; containers are never removed, so a
/// reference stays valid for as long as the heap lives.
pub struct Heap {
    pub arrays: Vec<Vec<Value>>,
    pub instances: Vec<Instance>,
}

pub struct HeapView {
    pub arrays: Seq<Seq<ValueView>>,
    pub instances: Seq<InstanceView>,
}

impl HeapView {
    /// The heap with one more array of `len` slots, each `Integer(0)`.
    pub open spec fn alloc_array(self, len: nat) -> HeapView {
        HeapView {
            arrays: self.arrays.push(Seq::new(len, |i: int| ValueView::Integer(0))),
            ..self
        }
    }

    /// The heap with one more array holding `values`.
    pub open spec fn alloc_filled(self, values: Seq<ValueView>) -> HeapView {
        HeapView { arrays: self.arrays.push(values), ..self }
    }

    /// The heap with one more instance.
    pub open spec fn alloc_instance(self, instance: InstanceView) -> HeapView {
        HeapView { instances: self.instances.push(instance), ..self }
    }

    /// The heap after the instance at `reference` is replaced by `instance`.
    pub open spec fn replace_instance(self, reference: usize, instance: InstanceView) -> Result<
        HeapView,
        RuntimeError,
    > {
        if reference >= self.instances.len() {
            Err(RuntimeError::DanglingReference)
        } else {
            Ok(HeapView { instances: self.instances.update(reference as int, instance), ..self })
        }
    }

    /// What slot `index` of array `array` holds.
    pub open spec fn load(self, array: usize, index: int) -> Result<ValueView, RuntimeError> {
        if array >= self.arrays.len() {
            Err(RuntimeError::DanglingReference)
        } else if !(0 <= index < self.arrays[array as int].len()) {
            Err(RuntimeError::IndexOutOfBounds)
        } else {
            Ok(self.arrays[array as int][index])
        }
    }

    /// The heap after `value` is written to slot `index` of array `array`.
    pub open spec fn store(self, array: usize, index: int, value: ValueView) -> Result<
        HeapView,
        RuntimeError,
    > {
        if array >= self.arrays.len() {
            Err(RuntimeError::DanglingReference)
        } else if !(0 <= index < self.arrays[array as int].len()) {
            Err(RuntimeError::IndexOutOfBounds)
        } else {
            Ok(
                HeapView {
                    arrays: self.arrays.update(
                        array as int,
                        self.arrays[array as int].update(index, value),
                    ),
                    ..self
                },
            )
        }
    }

    /// The heap after `value` is appended to array `array`.
    pub open spec fn append(self, array: usize, value: ValueView) -> Result<HeapView, RuntimeError> {
        if array >= self.arrays.len() {
            Err(RuntimeError::DanglingReference)
        } else {
            Ok(
                HeapView {
                    arrays: self.arrays.update(array as int, self.arrays[array as int].push(value)),
                    ..self
                },
            )
        }
    }
}

impl View for Heap {
    type V = HeapView;

    open spec fn view(&self) -> HeapView {
        HeapView {
            arrays: self.arrays@.map_values(|a: Vec<Value>| values_view(a@)),
            instances: self.instances@.map_values(|o: Instance| o@),
        }
    }
}

impl Heap {
    /// An empty heap.
    pub fn new() -> (heap: Heap)
        ensures
            heap@.arrays.len() == 0,
            heap@.instances.len() == 0,
    {
        Heap { arrays: Vec::new(), instances: Vec::new() }
    }

    /// Allocates an array of `len` slots, each `Integer(0)`, and returns the
    /// reference to it.
    pub fn alloc_array(&mut self, len: usize) -> (array: usize)
        ensures
            array == old(self)@.arrays.len(),
            final(self)@ == old(self)@.alloc_array(len as nat),
    {
        let mut slots: Vec<Value> = Vec::new();
        let mut i: usize = 0;
        while i < len
            invariant
                i <= len,
                slots.len() == i,
                forall|k: int| 0 <= k < i ==> slots@[k]@ == ValueView::Integer(0),
            decreases len - i,
        {
            slots.push(Value::Integer(0));
            i += 1;
        }
        assert(values_view(slots@) =~= Seq::new(len as nat, |i: int| ValueView::Integer(0)));
        let array: usize = self.arrays.len();
        self.arrays.push(slots);
        assert(self@.arrays =~= old(self)@.alloc_array(len as nat).arrays);
        assert(self@.instances =~= old(self)@.instances);
        array
    }

    /// Allocates an array that holds `values` and returns the reference to it.
    pub fn alloc_filled(&mut self, values: Vec<Value>) -> (array: usize)
        ensures
            array == old(self)@.arrays.len(),
            final(self)@ == old(self)@.alloc_filled(values_view(values@)),
    {
        let array: usize = self.arrays.len();
        self.arrays.push(values);
        assert(self@.arrays =~= old(self)@.alloc_filled(values_view(values@)).arrays);
        assert(self@.instances =~= old(self)@.instances);
        array
    }

    /// Allocates an instance and returns the reference to it.
    pub fn alloc_instance(&mut self, instance: Instance) -> (reference: usize)
        ensures
            reference == old(self)@.instances.len(),
            final(self)@ == old(self)@.alloc_instance(instance@),
    {
        let reference: usize = self.instances.len();
        self.instances.push(instance);
        assert(self@.instances =~= old(self)@.alloc_instance(instance@).instances);
        assert(self@.arrays =~= old(self)@.arrays);
        reference
    }

    /// Number of slots of array `array`, or `None` for a reference that names
    /// no array.
    pub fn array_len(&self, array: usize) -> (len: Option<usize>)
        ensures
            len == (if array < self@.arrays.len() {
                Some(self@.arrays[array as int].len() as usize)
            } else {
                None
            }),
    {
        if array < self.arrays.len() {
            Some(self.arrays[array].len())
        } else {
            None
        }
    }

    /// Reads slot `index` of array `array`.
    pub fn load(&self, array: usize, index: i32) -> (r: Result<Value, RuntimeError>)
        ensures
            match r {
                Ok(v) => self@.load(array, index as int) == Ok::<ValueView, RuntimeError>(v@),
                Err(e) => self@.load(array, index as int) == Err::<ValueView, RuntimeError>(e),
            },
    {
        if array >= self.arrays.len() {
            return Err(RuntimeError::DanglingReference);
        }
        let slots = &self.arrays[array];
        if index < 0 || index as usize >= slots.len() {
            return Err(RuntimeError::IndexOutOfBounds);
        }
        Ok(slots[index as usize].clone())
    }

    /// Writes `value` to slot `index` of array `array`. The array keeps its
    /// length: an index outside it is an error and changes nothing.
    pub fn store(&mut self, array: usize, index: i32, value: Value) -> (r: Result<
        (),
        RuntimeError,
    >)
        ensures
            match r {
                Ok(()) => old(self)@.store(array, index as int, value@) == Ok::<
                    HeapView,
                    RuntimeError,
                >(final(self)@),
                Err(e) => old(self)@.store(array, index as int, value@) == Err::<
                    HeapView,
                    RuntimeError,
                >(e) && final(self)@ == old(self)@,
            },
    {
        if array >= self.arrays.len() {
            return Err(RuntimeError::DanglingReference);
        }
        if index < 0 || index as usize >= self.arrays[array].len() {
            return Err(RuntimeError::IndexOutOfBounds);
        }
        self.arrays[array][index as usize] = value;
        assert(self@.arrays =~= old(self)@.store(array, index as int, value@)->Ok_0.arrays) by {
            assert(self@.arrays[array as int] =~= old(self)@.arrays[array as int].update(
                index as int,
                value@,
            ));
        }
        assert(self@.instances =~= old(self)@.instances);
        Ok(())
    }

    /// Appends `value` to array `array`, which grows by one slot. Only the
    /// list intrinsics use it: the array opcodes never resize.
    pub fn append(&mut self, array: usize, value: Value) -> (r: Result<(), RuntimeError>)
        ensures
            match r {
                Ok(()) => old(self)@.append(array, value@) == Ok::<HeapView, RuntimeError>(
                    final(self)@,
                ),
                Err(e) => old(self)@.append(array, value@) == Err::<HeapView, RuntimeError>(e)
                    && final(self)@ == old(self)@,
            },
    {
        if array >= self.arrays.len() {
            return Err(RuntimeError::DanglingReference);
        }
        self.arrays[array].push(value);
        assert(self@.arrays =~= old(self)@.append(array, value@)->Ok_0.arrays) by {
            assert(self@.arrays[array as int] =~= old(self)@.arrays[array as int].push(value@));
        }
        assert(self@.instances =~= old(self)@.instances);
        Ok(())
    }

    /// Replaces the instance at `reference` by `instance`.
    pub fn replace_instance(&mut self, reference: usize, instance: Instance) -> (r: Result<
        (),
        RuntimeError,
    >)
        ensures
            match r {
                Ok(()) => old(self)@.replace_instance(reference, instance@) == Ok::<
                    HeapView,
                    RuntimeError,
                >(final(self)@),
                Err(e) => old(self)@.replace_instance(reference, instance@) == Err::<
                    HeapView,
                    RuntimeError,
                >(e) && final(self)@ == old(self)@,
            },
    {
        if reference >= self.instances.len() {
            return Err(RuntimeError::DanglingReference);
        }
        self.instances[reference] = instance;
        assert(self@.instances =~= old(self)@.instances.update(reference as int, instance@));
        assert(self@.arrays =~= old(self)@.arrays);
        Ok(())
    }

    /// A copy of the slots of array `array`.
    pub fn array_values(&self, array: usize) -> (r: Result<Vec<Value>, RuntimeError>)
        ensures
            match r {
                Ok(values) => array < self@.arrays.len() && values_view(values@)
                    == self@.arrays[array as int],
                Err(e) => array >= self@.arrays.len() && e == RuntimeError::DanglingReference,
            },
    {
        if array >= self.arrays.len() {
            return Err(RuntimeError::DanglingReference);
        }
        Ok(clone_values(&self.arrays[array]))
    }
}

/// A freshly allocated array has the length asked for and holds `Integer(0)`
/// in every slot.
pub proof fn lemma_new_array_is_zeroed(heap: HeapView, len: nat, index: int)
    requires
        0 <= index < len,
        heap.arrays.len() <= usize::MAX,
    ensures
        heap.alloc_array(len).arrays[heap.arrays.len() as int].len() == len,
        heap.alloc_array(len).load(heap.arrays.len() as usize, index) == Ok::<
            ValueView,
            RuntimeError,
        >(ValueView::Integer(0)),
{
}

/// What was stored in a slot is what a load of that slot returns.
pub proof fn lemma_load_after_store(heap: HeapView, array: usize, index: int, value: ValueView)
    requires
        array < heap.arrays.len(),
        0 <= index < heap.arrays[array as int].len(),
    ensures
        heap.store(array, index, value) is Ok,
        heap.store(array, index, value)->Ok_0.load(array, index) == Ok::<ValueView, RuntimeError>(
            value,
        ),
        heap.store(array, index, value)->Ok_0.arrays[array as int].len()
            == heap.arrays[array as int].len(),
{
}

/// A store leaves every other slot as it was: a stored value stays until its
/// own slot is written again.
pub proof fn lemma_store_keeps_other_slots(
    heap: HeapView,
    array: usize,
    index: int,
    value: ValueView,
    other_array: usize,
    other_index: int,
)
    requires
        heap.store(array, index, value) is Ok,
        other_array != array || other_index != index,
    ensures
        heap.store(array, index, value)->Ok_0.load(other_array, other_index) == heap.load(
            other_array,
            other_index,
        ),
{
}


/// One method activation as its contracts see it.
pub struct FrameView {
    /// The operand stack, its top last.
    pub stack: Seq<ValueView>,
    /// The local variables, `LOCALS` of them.
    pub variables: Seq<ValueView>,
}

impl FrameView {
    /// A frame with an empty operand stack and `null` in every local variable.
    pub open spec fn empty() -> FrameView {
        FrameView { stack: Seq::empty(), variables: Seq::new(LOCALS as nat, |i: int| ValueView::Null) }
    }

    pub open spec fn push(self, value: ValueView) -> FrameView {
        FrameView { stack: self.stack.push(value), ..self }
    }

    /// The top of the stack and the frame without it.
    pub open spec fn pop(self) -> Result<(ValueView, FrameView), RuntimeError> {
        if self.stack.len() == 0 {
            Err(RuntimeError::StackUnderflow)
        } else {
            Ok((self.stack.last(), FrameView { stack: self.stack.drop_last(), ..self }))
        }
    }

    /// The frame after a pop, whatever was on top; an empty stack stays empty.
    pub open spec fn dropped(self) -> FrameView {
        if self.stack.len() == 0 {
            self
        } else {
            FrameView { stack: self.stack.drop_last(), ..self }
        }
    }

    /// Pops an integer: an `Integer`, or a `Bool` as 1 or 0.
    pub open spec fn pop_int(self) -> Result<(i32, FrameView), RuntimeError> {
        match self.pop() {
            Err(e) => Err(e),
            Ok((v, rest)) => match v.as_int() {
                Some(i) => Ok((i, rest)),
                None => Err(RuntimeError::TypeMismatch),
            },
        }
    }

    pub open spec fn pop_long(self) -> Result<(i64, FrameView), RuntimeError> {
        match self.pop() {
            Err(e) => Err(e),
            Ok((v, rest)) => match v.as_long() {
                Some(l) => Ok((l, rest)),
                None => Err(RuntimeError::TypeMismatch),
            },
        }
    }

    pub open spec fn pop_bool(self) -> Result<(bool, FrameView), RuntimeError> {
        match self.pop() {
            Err(e) => Err(e),
            Ok((v, rest)) => match v.as_bool() {
                Some(b) => Ok((b, rest)),
                None => Err(RuntimeError::TypeMismatch),
            },
        }
    }

    pub open spec fn pop_string(self) -> Result<(Seq<char>, FrameView), RuntimeError> {
        match self.pop() {
            Err(e) => Err(e),
            Ok((v, rest)) => match v.as_text() {
                Some(s) => Ok((s, rest)),
                None => Err(RuntimeError::TypeMismatch),
            },
        }
    }

    /// Pops the bit pattern of a single-precision number.
    pub open spec fn pop_float(self) -> Result<(u32, FrameView), RuntimeError> {
        match self.pop() {
            Err(e) => Err(e),
            Ok((v, rest)) => match v {
                ValueView::Float(bits) => Ok((bits, rest)),
                _ => Err(RuntimeError::TypeMismatch),
            },
        }
    }

    /// Pops the bit pattern of a double-precision number.
    pub open spec fn pop_double(self) -> Result<(u64, FrameView), RuntimeError> {
        match self.pop() {
            Err(e) => Err(e),
            Ok((v, rest)) => match v {
                ValueView::Double(bits) => Ok((bits, rest)),
                _ => Err(RuntimeError::TypeMismatch),
            },
        }
    }

    /// Pops a reference to an array; `null` is a `NullDereference`.
    pub open spec fn pop_array(self) -> Result<(usize, FrameView), RuntimeError> {
        match self.pop() {
            Err(e) => Err(e),
            Ok((v, rest)) => match v {
                ValueView::Array(a) => Ok((a, rest)),
                ValueView::Null => Err(RuntimeError::NullDereference),
                _ => Err(RuntimeError::TypeMismatch),
            },
        }
    }

    /// The receiver and the `n` arguments of a call, as the operand stack
    /// holds them: the arguments on top, in the order in which they were
    /// pushed, the receiver below them.
    pub open spec fn call_operands(self, n: nat) -> Result<
        (ValueView, Seq<ValueView>),
        RuntimeError,
    > {
        if self.stack.len() < n + 1 {
            Err(RuntimeError::StackUnderflow)
        } else {
            Ok(
                (
                    self.stack[self.stack.len() - n - 1],
                    self.stack.subrange(self.stack.len() - n, self.stack.len() as int),
                ),
            )
        }
    }

    /// The frame without the `n` topmost values of its operand stack.
    pub open spec fn without_top(self, n: nat) -> FrameView {
        FrameView { stack: self.stack.take(self.stack.len() - n), ..self }
    }

    /// The frame of a callee: an empty operand stack, the arguments in the
    /// first local variables, `null` in the others.
    pub open spec fn callee(args: Seq<ValueView>) -> FrameView {
        FrameView {
            stack: Seq::empty(),
            variables: Seq::new(
                LOCALS as nat,
                |i: int|
                    if i < args.len() {
                        args[i]
                    } else {
                        ValueView::Null
                    },
            ),
        }
    }

    /// The frame of a caller after a call: what the callee left on its
    /// operand stack is on top of what the caller had.
    pub open spec fn returned(self, callee: FrameView) -> FrameView {
        FrameView { stack: self.stack + callee.stack, ..self }
    }

    /// What local variable `index` holds.
    pub open spec fn load(self, index: int) -> Result<ValueView, RuntimeError> {
        if 0 <= index < self.variables.len() {
            Ok(self.variables[index])
        } else {
            Err(RuntimeError::BadLocal)
        }
    }

    /// The frame after `value` is written to local variable `index`.
    pub open spec fn store(self, index: int, value: ValueView) -> Result<FrameView, RuntimeError> {
        if 0 <= index < self.variables.len() {
            Ok(FrameView { variables: self.variables.update(index, value), ..self })
        } else {
            Err(RuntimeError::BadLocal)
        }
    }
}

/// The operand stack and the local variables of one method activation.
pub struct StackFrame {
    pub stack: Vec<Value>,
    pub variables: [Value; 16],
}

impl View for StackFrame {
    type V = FrameView;

    open spec fn view(&self) -> FrameView {
        FrameView { stack: values_view(self.stack@), variables: values_view(self.variables@) }
    }
}

impl StackFrame {
    /// A frame with an empty operand stack and the given local variables.
    pub fn new(variables: [Value; 16]) -> (frame: StackFrame)
        ensures
            frame@.stack.len() == 0,
            frame@.variables == values_view(variables@),
    {
        StackFrame { stack: Vec::new(), variables }
    }

    /// A frame with an empty operand stack and `null` in every local variable.
    pub fn empty() -> (frame: StackFrame)
        ensures
            frame@ == FrameView::empty(),
    {
        let frame = StackFrame {
            stack: Vec::new(),
            variables: [
                Value::Null,
                Value::Null,
                Value::Null,
                Value::Null,
                Value::Null,
                Value::Null,
                Value::Null,
                Value::Null,
                Value::Null,
                Value::Null,
                Value::Null,
                Value::Null,
                Value::Null,
                Value::Null,
                Value::Null,
                Value::Null,
            ],
        };
        assert(frame@.variables =~= FrameView::empty().variables);
        assert(frame@.stack =~= FrameView::empty().stack);
        frame
    }

    /// Number of values on the operand stack.
    pub fn depth(&self) -> (n: usize)
        ensures
            n == self@.stack.len(),
    {
        self.stack.len()
    }

    pub fn push(&mut self, value: Value)
        ensures
            final(self)@ == old(self)@.push(value@),
    {
        self.stack.push(value);
        assert(self@.stack =~= old(self)@.stack.push(value@));
    }

    /// Takes the top of the operand stack. An empty stack is left as it is.
    pub fn pop(&mut self) -> (r: Result<Value, RuntimeError>)
        ensures
            match r {
                Ok(v) => old(self)@.pop() == Ok::<(ValueView, FrameView), RuntimeError>(
                    (v@, final(self)@),
                ),
                Err(e) => old(self)@.pop() == Err::<(ValueView, FrameView), RuntimeError>(e)
                    && final(self)@ == old(self)@,
            },
    {
        match self.stack.pop() {
            Some(v) => {
                assert(self@.stack =~= old(self)@.stack.drop_last());
                Ok(v)
            },
            None => Err(RuntimeError::StackUnderflow),
        }
    }

    pub fn push_int(&mut self, value: i32)
        ensures
            final(self)@ == old(self)@.push(ValueView::Integer(value)),
    {
        self.push(Value::Integer(value))
    }

    /// Pops an integer. A value of another kind is taken off the stack all the
    /// same and reported as a `TypeMismatch`.
    pub fn pop_int(&mut self) -> (r: Result<i32, RuntimeError>)
        ensures
            final(self)@ == old(self)@.dropped(),
            match r {
                Ok(i) => old(self)@.pop_int() == Ok::<(i32, FrameView), RuntimeError>(
                    (i, final(self)@),
                ),
                Err(e) => old(self)@.pop_int() == Err::<(i32, FrameView), RuntimeError>(e),
            },
    {
        match self.pop() {
            Err(e) => Err(e),
            Ok(Value::Integer(i)) => Ok(i),
            Ok(Value::Bool(b)) => Ok(if b { 1 } else { 0 }),
            Ok(_) => Err(RuntimeError::TypeMismatch),
        }
    }

    pub fn push_long(&mut self, value: i64)
        ensures
            final(self)@ == old(self)@.push(ValueView::Long(value)),
    {
        self.push(Value::Long(value))
    }

    /// Pops a long. A value of another kind is taken off the stack all the
    /// same and reported as a `TypeMismatch`.
    pub fn pop_long(&mut self) -> (r: Result<i64, RuntimeError>)
        ensures
            final(self)@ == old(self)@.dropped(),
            match r {
                Ok(l) => old(self)@.pop_long() == Ok::<(i64, FrameView), RuntimeError>(
                    (l, final(self)@),
                ),
                Err(e) => old(self)@.pop_long() == Err::<(i64, FrameView), RuntimeError>(e),
            },
    {
        match self.pop() {
            Err(e) => Err(e),
            Ok(Value::Long(l)) => Ok(l),
            Ok(_) => Err(RuntimeError::TypeMismatch),
        }
    }

    pub fn push_bool(&mut self, value: bool)
        ensures
            final(self)@ == old(self)@.push(ValueView::Bool(value)),
    {
        self.push(Value::Bool(value))
    }

    /// Pops a boolean. A value of another kind is taken off the stack all the
    /// same and reported as a `TypeMismatch`.
    pub fn pop_bool(&mut self) -> (r: Result<bool, RuntimeError>)
        ensures
            final(self)@ == old(self)@.dropped(),
            match r {
                Ok(b) => old(self)@.pop_bool() == Ok::<(bool, FrameView), RuntimeError>(
                    (b, final(self)@),
                ),
                Err(e) => old(self)@.pop_bool() == Err::<(bool, FrameView), RuntimeError>(e),
            },
    {
        match self.pop() {
            Err(e) => Err(e),
            Ok(Value::Bool(b)) => Ok(b),
            Ok(_) => Err(RuntimeError::TypeMismatch),
        }
    }

    pub fn push_string(&mut self, value: String)
        ensures
            final(self)@ == old(self)@.push(ValueView::String(value@)),
    {
        self.push(Value::String(value))
    }

    /// Pops a text. A value of another kind is taken off the stack all the
    /// same and reported as a `TypeMismatch`.
    pub fn pop_string(&mut self) -> (r: Result<String, RuntimeError>)
        ensures
            final(self)@ == old(self)@.dropped(),
            match r {
                Ok(s) => old(self)@.pop_string() == Ok::<(Seq<char>, FrameView), RuntimeError>(
                    (s@, final(self)@),
                ),
                Err(e) => old(self)@.pop_string() == Err::<(Seq<char>, FrameView), RuntimeError>(
                    e,
                ),
            },
    {
        match self.pop() {
            Err(e) => Err(e),
            Ok(Value::String(s)) => Ok(s),
            Ok(_) => Err(RuntimeError::TypeMismatch),
        }
    }

    /// Pushes a single-precision number, given as its bit pattern.
    pub fn push_float(&mut self, bits: u32)
        ensures
            final(self)@ == old(self)@.push(ValueView::Float(bits)),
    {
        self.push(Value::Float(bits))
    }

    /// Pops the bit pattern of a single-precision number. A value of another
    /// kind is taken off the stack all the same and reported as a
    /// `TypeMismatch`.
    pub fn pop_float(&mut self) -> (r: Result<u32, RuntimeError>)
        ensures
            final(self)@ == old(self)@.dropped(),
            match r {
                Ok(bits) => old(self)@.pop_float() == Ok::<(u32, FrameView), RuntimeError>(
                    (bits, final(self)@),
                ),
                Err(e) => old(self)@.pop_float() == Err::<(u32, FrameView), RuntimeError>(e),
            },
    {
        match self.pop() {
            Err(e) => Err(e),
            Ok(Value::Float(bits)) => Ok(bits),
            Ok(_) => Err(RuntimeError::TypeMismatch),
        }
    }

    /// Pushes a double-precision number, given as its bit pattern.
    pub fn push_double(&mut self, bits: u64)
        ensures
            final(self)@ == old(self)@.push(ValueView::Double(bits)),
    {
        self.push(Value::Double(bits))
    }

    /// Pops the bit pattern of a double-precision number. A value of another
    /// kind is taken off the stack all the same and reported as a
    /// `TypeMismatch`.
    pub fn pop_double(&mut self) -> (r: Result<u64, RuntimeError>)
        ensures
            final(self)@ == old(self)@.dropped(),
            match r {
                Ok(bits) => old(self)@.pop_double() == Ok::<(u64, FrameView), RuntimeError>(
                    (bits, final(self)@),
                ),
                Err(e) => old(self)@.pop_double() == Err::<(u64, FrameView), RuntimeError>(e),
            },
    {
        match self.pop() {
            Err(e) => Err(e),
            Ok(Value::Double(bits)) => Ok(bits),
            Ok(_) => Err(RuntimeError::TypeMismatch),
        }
    }

    pub fn push_array(&mut self, array: usize)
        ensures
            final(self)@ == old(self)@.push(ValueView::Array(array)),
    {
        self.push(Value::Array(array))
    }

    /// Pops a reference to an array. `null` is a `NullDereference`, a value of
    /// another kind a `TypeMismatch`; either is taken off the stack.
    pub fn pop_array(&mut self) -> (r: Result<usize, RuntimeError>)
        ensures
            final(self)@ == old(self)@.dropped(),
            match r {
                Ok(a) => old(self)@.pop_array() == Ok::<(usize, FrameView), RuntimeError>(
                    (a, final(self)@),
                ),
                Err(e) => old(self)@.pop_array() == Err::<(usize, FrameView), RuntimeError>(e),
            },
    {
        match self.pop() {
            Err(e) => Err(e),
            Ok(Value::Array(a)) => Ok(a),
            Ok(Value::Null) => Err(RuntimeError::NullDereference),
            Ok(_) => Err(RuntimeError::TypeMismatch),
        }
    }

    /// Copies of the receiver and of the `n` arguments of a call. The operand
    /// stack keeps them.
    pub fn call_operands(&self, n: usize) -> (r: Result<(Value, Vec<Value>), RuntimeError>)
        ensures
            match r {
                Ok((this, args)) => self@.call_operands(n as nat) == Ok::<
                    (ValueView, Seq<ValueView>),
                    RuntimeError,
                >((this@, values_view(args@))),
                Err(e) => self@.call_operands(n as nat) == Err::<
                    (ValueView, Seq<ValueView>),
                    RuntimeError,
                >(e),
            },
    {
        let depth: usize = self.stack.len();
        if depth <= n {
            return Err(RuntimeError::StackUnderflow);
        }
        let first: usize = depth - n;
        let this = self.stack[first - 1].clone();
        let mut args: Vec<Value> = Vec::new();
        let mut i: usize = first;
        while i < depth
            invariant
                depth == self.stack.len(),
                first == depth - n,
                first <= i <= depth,
                args.len() == i - first,
                forall|k: int| 0 <= k < i - first ==> args@[k]@ == self.stack@[first + k]@,
            decreases depth - i,
        {
            args.push(self.stack[i].clone());
            i += 1;
        }
        assert(values_view(args@) =~= self@.stack.subrange(first as int, depth as int));
        Ok((this, args))
    }

    /// Takes the `n` topmost values off the operand stack, in the order in
    /// which they were pushed. A stack that holds fewer is left as it is.
    pub fn pop_many(&mut self, n: usize) -> (r: Result<Vec<Value>, RuntimeError>)
        ensures
            match r {
                Ok(values) => old(self)@.stack.len() >= n && values_view(values@) == old(
                    self,
                )@.stack.subrange(old(self)@.stack.len() - n, old(self)@.stack.len() as int)
                    && final(self)@ == old(self)@.without_top(n as nat),
                Err(e) => old(self)@.stack.len() < n && e == RuntimeError::StackUnderflow
                    && final(self)@ == old(self)@,
            },
    {
        let depth: usize = self.stack.len();
        if depth < n {
            return Err(RuntimeError::StackUnderflow);
        }
        let values = self.stack.split_off(depth - n);
        assert(values_view(values@) =~= old(self)@.stack.subrange(depth - n, depth as int));
        assert(self@.stack =~= old(self)@.stack.take(depth - n));
        Ok(values)
    }

    /// The frame of a callee: an empty operand stack, `args` in the first
    /// local variables and `null` in the others. More arguments than a frame
    /// has local variables are a `BadLocal`.
    pub fn with_arguments(args: Vec<Value>) -> (r: Result<StackFrame, RuntimeError>)
        ensures
            match r {
                Ok(frame) => args.len() <= LOCALS && frame@ == FrameView::callee(
                    values_view(args@),
                ),
                Err(e) => args.len() > LOCALS && e == RuntimeError::BadLocal,
            },
    {
        if args.len() > LOCALS {
            return Err(RuntimeError::BadLocal);
        }
        let mut frame = StackFrame::empty();
        let mut args = args;
        let ghost all = values_view(args@);
        while args.len() > 0
            invariant
                args.len() <= all.len() <= LOCALS,
                values_view(args@) == all.take(args.len() as int),
                frame@.stack.len() == 0,
                frame@.variables.len() == LOCALS,
                forall|i: int|
                    0 <= i < LOCALS ==> frame@.variables[i] == (if args.len() <= i < all.len() {
                        all[i]
                    } else {
                        ValueView::Null
                    }),
            decreases args.len(),
        {
            let ghost before = args@;
            let v = args.pop().unwrap();
            let at: usize = args.len();
            assert forall|k: int| 0 <= k < at implies values_view(args@)[k] == all[k] by {
                assert(args@[k] == before[k]);
                assert(values_view(before)[k] == all.take(at + 1)[k]);
            }
            assert(values_view(args@) =~= all.take(at as int));
            assert(v@ == all[at as int]) by {
                assert(values_view(before)[at as int] == all.take(at + 1)[at as int]);
            }
            let stored = frame.set_variable(at, v);
            assert(stored is Ok);
        }
        assert(frame@.variables =~= FrameView::callee(all).variables);
        assert(frame@.stack =~= FrameView::callee(all).stack);
        Ok(frame)
    }

    /// Puts what `callee` left on its operand stack on top of this stack.
    pub fn take_results(&mut self, callee: StackFrame)
        ensures
            final(self)@ == old(self)@.returned(callee@),
    {
        let mut callee = callee;
        let ghost results = callee@.stack;
        self.stack.append(&mut callee.stack);
        assert(self@.stack =~= old(self)@.stack + results);
    }

    /// A copy of local variable `index`.
    pub fn get_variable(&self, index: usize) -> (r: Result<Value, RuntimeError>)
        ensures
            match r {
                Ok(v) => self@.load(index as int) == Ok::<ValueView, RuntimeError>(v@),
                Err(e) => self@.load(index as int) == Err::<ValueView, RuntimeError>(e),
            },
    {
        if index < LOCALS {
            Ok(self.variables[index].clone())
        } else {
            Err(RuntimeError::BadLocal)
        }
    }

    /// Writes `value` to local variable `index`.
    pub fn set_variable(&mut self, index: usize, value: Value) -> (r: Result<(), RuntimeError>)
        ensures
            match r {
                Ok(()) => old(self)@.store(index as int, value@) == Ok::<FrameView, RuntimeError>(
                    final(self)@,
                ),
                Err(e) => old(self)@.store(index as int, value@) == Err::<FrameView, RuntimeError>(
                    e,
                ) && final(self)@ == old(self)@,
            },
    {
        if index < LOCALS {
            self.variables[index] = value;
            assert(self@.variables =~= old(self)@.variables.update(index as int, value@));
            Ok(())
        } else {
            Err(RuntimeError::BadLocal)
        }
    }
}

/// A pop right after a push returns the pushed value and leaves the frame as
/// it was before the push.
pub proof fn lemma_pop_after_push(frame: FrameView, value: ValueView)
    ensures
        frame.push(value).pop() == Ok::<(ValueView, FrameView), RuntimeError>((value, frame)),
{
    assert(frame.stack.push(value).drop_last() =~= frame.stack);
}

/// The typed helpers agree with `push` and `pop`: what `push_int`,
/// `push_long`, `push_bool` and `push_string` put on the stack is what
/// `pop_int`, `pop_long`, `pop_bool` and `pop_string` take back.
pub proof fn lemma_typed_pop_after_push(frame: FrameView, i: i32, l: i64, b: bool, s: Seq<char>)
    ensures
        frame.push(ValueView::Integer(i)).pop_int() == Ok::<(i32, FrameView), RuntimeError>(
            (i, frame),
        ),
        frame.push(ValueView::Long(l)).pop_long() == Ok::<(i64, FrameView), RuntimeError>(
            (l, frame),
        ),
        frame.push(ValueView::Bool(b)).pop_bool() == Ok::<(bool, FrameView), RuntimeError>(
            (b, frame),
        ),
        frame.push(ValueView::String(s)).pop_string() == Ok::<(Seq<char>, FrameView), RuntimeError>(
            (s, frame),
        ),
{
    lemma_pop_after_push(frame, ValueView::Integer(i));
    lemma_pop_after_push(frame, ValueView::Long(l));
    lemma_pop_after_push(frame, ValueView::Bool(b));
    lemma_pop_after_push(frame, ValueView::String(s));
}

/// What a function of the host gives for one argument; argument and result
/// are bit patterns of double-precision numbers.
#[derive(Debug, Clone, Copy, PartialEq, Eq)]
pub struct HostResult {
    pub function: HostFunction,
    pub input: u64,
    pub output: u64,
}

/// What the table gives for `function` on `input`: the result of the last
/// entry for them, if there is one.
pub open spec fn host_result(table: Seq<HostResult>, function: HostFunction, input: u64) -> Option<
    u64,
>
    decreases table.len(),
{
    if table.len() == 0 {
        None
    } else if table.last().function == function && table.last().input == input {
        Some(table.last().output)
    } else {
        host_result(table.drop_last(), function, input)
    }
}

/// What the machine holds besides the frames: the heap, the text written to
/// standard output so far, and the results that its host has handed to it.
pub struct JVM {
    pub heap: Heap,
    pub stdout: String,
    pub host_results: Vec<HostResult>,
}

pub struct JvmView {
    pub heap: HeapView,
    pub out: Seq<char>,
    pub host: Seq<HostResult>,
}

impl View for JVM {
    type V = JvmView;

    open spec fn view(&self) -> JvmView {
        JvmView { heap: self.heap@, out: self.stdout@, host: self.host_results@ }
    }
}

impl JVM {
    /// A machine with an empty heap that has written nothing and was handed
    /// nothing.
    pub fn new() -> (jvm: JVM)
        ensures
            jvm@.heap.arrays.len() == 0,
            jvm@.heap.instances.len() == 0,
            jvm@.out.len() == 0,
            jvm@.host.len() == 0,
    {
        JVM { heap: Heap::new(), stdout: String::new(), host_results: Vec::new() }
    }

    /// Hands the machine what `function` gives for `input`.
    pub fn answer(&mut self, function: HostFunction, input: u64, output: u64)
        ensures
            final(self)@ == (JvmView {
                host: old(self)@.host.push(HostResult { function, input, output }),
                ..old(self)@
            }),
            host_result(final(self)@.host, function, input) == Some(output),
    {
        self.host_results.push(HostResult { function, input, output });
        assert(self@.host.drop_last() =~= old(self)@.host);
    }

    /// What the machine was handed for `function` on `input`.
    pub fn host_result(&self, function: HostFunction, input: u64) -> (r: Option<u64>)
        ensures
            r == host_result(self@.host, function, input),
    {
        let mut i: usize = self.host_results.len();
        assert(self@.host.take(i as int) =~= self@.host);
        while i > 0
            invariant
                i <= self.host_results.len(),
                host_result(self@.host, function, input) == host_result(
                    self@.host.take(i as int),
                    function,
                    input,
                ),
            decreases i,
        {
            i -= 1;
            assert(self@.host.take(i + 1).drop_last() =~= self@.host.take(i as int));
            let entry = self.host_results[i];
            if entry.function == function && entry.input == input {
                return Some(entry.output);
            }
        }
        None
    }
}

} // verus!
