//! Class descriptors: the resolved records of a constant pool, compiled
//! classes with their methods, and the variant over compiled and intrinsic
//! classes that the registry holds.

use vstd::prelude::*;
use crate::bytecode::{ends_as, fails_cleanly, ByteCode};
use crate::classes::Classes;
use crate::errors::{JvmError, LinkError, RuntimeError};
use crate::jvm::{Instance, InstanceView, JvmView, StackFrame, Value, ValueView, JVM, LOCALS};
use crate::semantics::{
    instance_call_output, invoke_instance_spec, invoke_static_spec, read_static_spec,
    static_call_output,
};
use crate::text::same_text;
use crate::native_java_classes::{
    native_execute_method, native_execute_static_method, native_get_static_object,
    NativeArrayListClass, NativeEnumClass, NativeMathClass, NativeMethodHandlesClass,
    NativeMethodHandlesLookupClass, NativeNoSuchFieldErrorClass, NativeArraysClass, NativeIntegerClass, NativeListClass,
    NativeObjectClass, NativePrintStreamClass, NativeStringClass, NativeSystemClass,
};

verus! {

/// A `Utf8` entry of the constant pool.
pub struct ConstantString {
    pub value: String,
}

/// A `String` entry, resolved to the text it refers to.
pub struct ConstantStringRef {
    pub value: String,
}

/// A `Class` entry, resolved to the name of the class.
pub struct ConstantClass {
    pub name: String,
}

/// A `NameAndType` entry, resolved to the name and the type descriptor.
pub struct ConstantNameType {
    pub name: String,
    pub type_desc: String,
}

/// A `Fieldref` entry, resolved to owner, field and type descriptor.
pub struct ConstantField {
    pub class_name: String,
    pub field_name: String,
    pub type_desc: String,
}

/// A `Methodref` entry, resolved to owner, method and type descriptor.
pub struct ConstantMethod {
    pub class_name: String,
    pub method_name: String,
    pub type_desc: String,
}

/// A method of a compiled class.
pub struct Method {
    pub name: String,
    pub type_desc: String,
    pub max_stack: u16,
    pub max_locals: u16,
    pub code: ByteCode,
}

/// A static field of a compiled class, with its value.
pub struct StaticField {
    pub name: String,
    pub value: Value,
}

/// A class that was decoded from a class file.
pub struct BytecodeClass {
    pub name: String,
    pub super_name: String,
    pub interfaces: Vec<String>,
    pub static_fields: Vec<StaticField>,
    pub fields: Vec<String>,
    pub methods: Vec<Method>,
}

/// Whether `i` is the first method of `methods` that is called `name`.
pub open spec fn is_first_method(methods: Seq<Method>, name: Seq<char>, i: int) -> bool {
    &&& 0 <= i < methods.len()
    &&& methods[i].name@ == name
    &&& forall|k: int| 0 <= k < i ==> (#[trigger] methods[k]).name@ != name
}

/// The first method that is called `name`, if there is one.
pub open spec fn find_method(methods: Seq<Method>, name: Seq<char>) -> Option<int> {
    if exists|i: int| is_first_method(methods, name, i) {
        Some(choose|i: int| is_first_method(methods, name, i))
    } else {
        None
    }
}

/// Whether `i` is the first static field of `fields` that is called `name`.
pub open spec fn is_first_static(fields: Seq<StaticField>, name: Seq<char>, i: int) -> bool {
    &&& 0 <= i < fields.len()
    &&& fields[i].name@ == name
    &&& forall|k: int| 0 <= k < i ==> (#[trigger] fields[k]).name@ != name
}

/// The first static field that is called `name`, if there is one.
pub open spec fn find_static(fields: Seq<StaticField>, name: Seq<char>) -> Option<int> {
    if exists|i: int| is_first_static(fields, name, i) {
        Some(choose|i: int| is_first_static(fields, name, i))
    } else {
        None
    }
}

/// A class descriptor: a compiled class or one of the intrinsic classes.
/// Every variant offers the same operations; an intrinsic class answers
/// `NotImplemented` to those it does not model.
pub enum JavaClass {
    Bytecode(BytecodeClass),
    Object(NativeObjectClass),
    PrintStream(NativePrintStreamClass),
    System(NativeSystemClass),
    String(NativeStringClass),
    Integer(NativeIntegerClass),
    Arrays(NativeArraysClass),
    List(NativeListClass),
    ArrayList(NativeArrayListClass),
    Math(NativeMathClass),
    Enum(NativeEnumClass),
    NoSuchFieldError(NativeNoSuchFieldErrorClass),
    MethodHandlesLookup(NativeMethodHandlesLookupClass),
    MethodHandles(NativeMethodHandlesClass),
}

impl JavaClass {
    /// The name under which the class is looked up.
    pub open spec fn name(self) -> Seq<char> {
        match self {
            JavaClass::Bytecode(c) => c.name@,
            JavaClass::Object(_) => "java/lang/Object"@,
            JavaClass::PrintStream(_) => "java/io/PrintStream"@,
            JavaClass::System(_) => "java/lang/System"@,
            JavaClass::String(_) => "java/lang/String"@,
            JavaClass::Integer(_) => "java/lang/Integer"@,
            JavaClass::Arrays(_) => "java/util/Arrays"@,
            JavaClass::List(_) => "java/util/List"@,
            JavaClass::ArrayList(_) => "java/util/ArrayList"@,
            JavaClass::Math(_) => "java/lang/Math"@,
            JavaClass::Enum(_) => "java/lang/Enum"@,
            JavaClass::NoSuchFieldError(_) => "java/lang/NoSuchFieldError"@,
            JavaClass::MethodHandlesLookup(_) => "java/lang/invoke/MethodHandles$Lookup"@,
            JavaClass::MethodHandles(_) => "java/lang/invoke/MethodHandles"@,
        }
    }
}


/// There is at most one first method of a name, and it is the one that
/// `find_method` gives.
pub proof fn lemma_find_method(methods: Seq<Method>, name: Seq<char>, i: int)
    ensures
        is_first_method(methods, name, i) <==> find_method(methods, name) == Some(i),
{
    if is_first_method(methods, name, i) {
        let k = choose|k: int| is_first_method(methods, name, k);
        if i < k {
            assert(methods[i].name@ != name);
        } else if k < i {
            assert(methods[k].name@ != name);
        }
    }
}

/// There is at most one first static field of a name, and it is the one that
/// `find_static` gives.
pub proof fn lemma_find_static(fields: Seq<StaticField>, name: Seq<char>, i: int)
    ensures
        is_first_static(fields, name, i) <==> find_static(fields, name) == Some(i),
{
    if is_first_static(fields, name, i) {
        let k = choose|k: int| is_first_static(fields, name, k);
        if i < k {
            assert(fields[i].name@ != name);
        } else if k < i {
            assert(fields[k].name@ != name);
        }
    }
}

/// Whether `r` is `outcome`, with the machine `j1` after a success.
pub open spec fn reads_as(
    outcome: Result<(ValueView, JvmView), JvmError>,
    j1: JvmView,
    r: Result<Value, JvmError>,
) -> bool {
    match r {
        Ok(v) => outcome == Ok::<(ValueView, JvmView), JvmError>((v@, j1)),
        Err(e) => outcome == Err::<(ValueView, JvmView), JvmError>(e),
    }
}

impl BytecodeClass {
    /// The first method that is called `name`.
    pub fn find_method(&self, name: &str) -> (r: Option<usize>)
        ensures
            match r {
                Some(i) => find_method(self.methods@, name@) == Some(i as int) && i
                    < self.methods@.len(),
                None => find_method(self.methods@, name@) is None,
            },
    {
        let mut i: usize = 0;
        while i < self.methods.len()
            invariant
                i <= self.methods.len(),
                forall|k: int| 0 <= k < i ==> (#[trigger] self.methods@[k]).name@ != name@,
            decreases self.methods.len() - i,
        {
            if same_text(self.methods[i].name.as_str(), name) {
                proof {
                    lemma_find_method(self.methods@, name@, i as int);
                }
                return Some(i);
            }
            i += 1;
        }
        None
    }

    /// The value of the static field that is called `field_name`.
    pub fn get_static_object(&self, field_name: &str) -> (r: Result<Value, JvmError>)
        ensures
            match r {
                Ok(v) => find_static(self.static_fields@, field_name@) is Some
                    && self.static_fields@[find_static(
                    self.static_fields@,
                    field_name@,
                )->Some_0].value@ == v@,
                Err(e) => find_static(self.static_fields@, field_name@) is None && e
                    == JvmError::Link(LinkError::UnknownField),
            },
    {
        let mut i: usize = 0;
        while i < self.static_fields.len()
            invariant
                i <= self.static_fields.len(),
                forall|k: int|
                    0 <= k < i ==> (#[trigger] self.static_fields@[k]).name@ != field_name@,
            decreases self.static_fields.len() - i,
        {
            if same_text(self.static_fields[i].name.as_str(), field_name) {
                proof {
                    lemma_find_static(self.static_fields@, field_name@, i as int);
                }
                return Ok(self.static_fields[i].value.clone());
            }
            i += 1;
        }
        Err(JvmError::Link(LinkError::UnknownField))
    }

    /// Runs the static method `method_name`. Its `nb_args` arguments are taken
    /// from the operand stack of `sf` into the first local variables of a new
    /// frame; what the method leaves on its own operand stack is put on the
    /// stack of `sf`.
    pub fn execute_static_method(
        &self,
        sf: &mut StackFrame,
        jvm: &mut JVM,
        classes: &Classes,
        method_name: &str,
        nb_args: usize,
        fuel: u64,
    ) -> (r: Result<(), JvmError>)
        ensures
            ends_as(
                invoke_static_spec(
                    classes.classes@,
                    JavaClass::Bytecode(*self),
                    method_name@,
                    nb_args as nat,
                    old(sf)@,
                    old(jvm)@,
                    fuel as nat,
                ),
                final(sf)@,
                final(jvm)@,
                r,
            ),
            final(jvm)@.out == static_call_output(
                classes.classes@,
                JavaClass::Bytecode(*self),
                method_name@,
                nb_args as nat,
                old(sf)@,
                old(jvm)@,
                fuel as nat,
            ),
        decreases fuel, 1nat,
    {
        let m = match self.find_method(method_name) {
            Some(m) => m,
            None => return Err(JvmError::Link(LinkError::UnknownMethod)),
        };
        if nb_args > LOCALS {
            return Err(JvmError::Runtime(RuntimeError::BadLocal));
        }
        let args = match sf.pop_many(nb_args) {
            Ok(args) => args,
            Err(e) => return Err(JvmError::Runtime(e)),
        };
        let mut callee = match StackFrame::with_arguments(args) {
            Ok(callee) => callee,
            Err(e) => return Err(JvmError::Runtime(e)),
        };
        match self.methods[m].code.run(&mut callee, jvm, classes, fuel) {
            Err(e) => Err(e),
            Ok(()) => {
                sf.take_results(callee);
                Ok(())
            },
        }
    }

    /// Runs the instance method `method_name` on `this` with `args`, in a new
    /// frame that holds `this` in local variable 0 and the arguments after
    /// it; what the method leaves on its own operand stack is put on the
    /// stack of `sf`.
    pub fn execute_method(
        &self,
        sf: &mut StackFrame,
        jvm: &mut JVM,
        classes: &Classes,
        method_name: &str,
        this: Value,
        args: Vec<Value>,
        fuel: u64,
    ) -> (r: Result<(), JvmError>)
        ensures
            ends_as(
                invoke_instance_spec(
                    classes.classes@,
                    JavaClass::Bytecode(*self),
                    method_name@,
                    this@,
                    crate::jvm::values_view(args@),
                    old(sf)@,
                    old(jvm)@,
                    fuel as nat,
                ),
                final(sf)@,
                final(jvm)@,
                r,
            ),
            final(jvm)@.out == instance_call_output(
                classes.classes@,
                JavaClass::Bytecode(*self),
                method_name@,
                this@,
                crate::jvm::values_view(args@),
                old(sf)@,
                old(jvm)@,
                fuel as nat,
            ),
        decreases fuel, 1nat,
    {
        let m = match self.find_method(method_name) {
            Some(m) => m,
            None => return Err(JvmError::Link(LinkError::UnknownMethod)),
        };
        if args.len() >= LOCALS {
            return Err(JvmError::Runtime(RuntimeError::BadLocal));
        }
        let mut args = args;
        let ghost given = crate::jvm::values_view(args@);
        let mut all: Vec<Value> = Vec::new();
        all.push(this);
        all.append(&mut args);
        assert(crate::jvm::values_view(all@) =~= seq![this@] + given);
        let mut callee = match StackFrame::with_arguments(all) {
            Ok(callee) => callee,
            Err(e) => return Err(JvmError::Runtime(e)),
        };
        match self.methods[m].code.run(&mut callee, jvm, classes, fuel) {
            Err(e) => Err(e),
            Ok(()) => {
                sf.take_results(callee);
                Ok(())
            },
        }
    }
}

/// Making an instance of a class: a compiled class gives an object with its
/// instance fields, each `null`.
pub open spec fn make_instance_spec(class: JavaClass, j: JvmView) -> Result<
    (ValueView, JvmView),
    JvmError,
> {
    match class {
        JavaClass::Bytecode(c) => Ok(
            (
                ValueView::Instance(j.heap.instances.len() as usize),
                JvmView { heap: j.heap.alloc_instance(c.blank_instance()), ..j },
            ),
        ),
        JavaClass::Object(_) => Ok(
            (
                ValueView::Instance(j.heap.instances.len() as usize),
                JvmView {
                    heap: j.heap.alloc_instance(
                        crate::native_java_classes::plain_instance("java/lang/Object"@),
                    ),
                    ..j
                },
            ),
        ),
        JavaClass::ArrayList(_) => Ok(crate::native_java_classes::new_list(j)),
        JavaClass::Enum(_) => Ok(
            (
                ValueView::Instance(j.heap.instances.len() as usize),
                JvmView {
                    heap: j.heap.alloc_instance(
                        crate::native_java_classes::enum_instance(
                            "java/lang/Enum"@,
                            Seq::empty(),
                            0,
                        ),
                    ),
                    ..j
                },
            ),
        ),
        _ => Err(JvmError::NotImplemented),
    }
}

impl BytecodeClass {
    /// An instance of the class before any field was written.
    pub open spec fn blank_instance(self) -> InstanceView {
        InstanceView {
            class_name: self.name@,
            field_names: self.fields@.map_values(|n: String| n@),
            field_values: Seq::new(self.fields@.len(), |i: int| ValueView::Null),
        }
    }

    /// Allocates an instance of the class, every field `null`.
    pub fn new_instance(&self, jvm: &mut JVM) -> (reference: Value)
        ensures
            reference@ == ValueView::Instance(old(jvm)@.heap.instances.len() as usize),
            final(jvm)@ == (JvmView {
                heap: old(jvm)@.heap.alloc_instance(self.blank_instance()),
                ..old(jvm)@
            }),
    {
        let mut field_names: Vec<String> = Vec::new();
        let mut field_values: Vec<Value> = Vec::new();
        let mut i: usize = 0;
        while i < self.fields.len()
            invariant
                i <= self.fields.len(),
                field_names.len() == i,
                field_values.len() == i,
                forall|k: int| 0 <= k < i ==> field_names@[k]@ == self.fields@[k]@,
                forall|k: int| 0 <= k < i ==> field_values@[k]@ == ValueView::Null,
            decreases self.fields.len() - i,
        {
            field_names.push(self.fields[i].clone());
            field_values.push(Value::Null);
            i += 1;
        }
        let instance = Instance { class_name: self.name.clone(), field_names, field_values };
        assert(instance@.field_names =~= self.blank_instance().field_names);
        assert(instance@.field_values =~= self.blank_instance().field_values);
        Value::Instance(jvm.heap.alloc_instance(instance))
    }
}

impl JavaClass {
    /// The name under which the class is looked up.
    pub fn get_name(&self) -> (name: String)
        ensures
            name@ == self.name(),
    {
        match self {
            JavaClass::Bytecode(c) => c.name.clone(),
            JavaClass::Object(c) => c.get_name(),
            JavaClass::PrintStream(c) => c.get_name(),
            JavaClass::System(c) => c.get_name(),
            JavaClass::String(c) => c.get_name(),
            JavaClass::Integer(c) => c.get_name(),
            JavaClass::Arrays(c) => c.get_name(),
            JavaClass::List(c) => c.get_name(),
            JavaClass::ArrayList(c) => c.get_name(),
            JavaClass::Math(c) => c.get_name(),
            JavaClass::Enum(c) => c.get_name(),
            JavaClass::NoSuchFieldError(c) => c.get_name(),
            JavaClass::MethodHandlesLookup(c) => c.get_name(),
            JavaClass::MethodHandles(c) => c.get_name(),
        }
    }

    /// Makes an instance of the class.
    pub fn new_instance(&self, jvm: &mut JVM) -> (r: Result<Value, JvmError>)
        ensures
            reads_as(make_instance_spec(*self, old(jvm)@), final(jvm)@, r),
            r is Err ==> final(jvm)@ == old(jvm)@,
    {
        match self {
            JavaClass::Bytecode(c) => Ok(c.new_instance(jvm)),
            JavaClass::Object(c) => Ok(c.new_instance(jvm)),
            JavaClass::ArrayList(c) => Ok(c.new_instance(jvm)),
            JavaClass::Enum(c) => Ok(c.new_instance(jvm)),
            _ => Err(JvmError::NotImplemented),
        }
    }

    /// Whether the class is registered under `name`.
    pub fn has_name(&self, name: &str) -> (same: bool)
        ensures
            same == (self.name() == name@),
    {
        match self {
            JavaClass::Bytecode(c) => same_text(c.name.as_str(), name),
            JavaClass::Object(_) => same_text("java/lang/Object", name),
            JavaClass::PrintStream(_) => same_text("java/io/PrintStream", name),
            JavaClass::System(_) => same_text("java/lang/System", name),
            JavaClass::String(_) => same_text("java/lang/String", name),
            JavaClass::Integer(_) => same_text("java/lang/Integer", name),
            JavaClass::Arrays(_) => same_text("java/util/Arrays", name),
            JavaClass::List(_) => same_text("java/util/List", name),
            JavaClass::ArrayList(_) => same_text("java/util/ArrayList", name),
            JavaClass::Math(_) => same_text("java/lang/Math", name),
            JavaClass::Enum(_) => same_text("java/lang/Enum", name),
            JavaClass::NoSuchFieldError(_) => same_text("java/lang/NoSuchFieldError", name),
            JavaClass::MethodHandlesLookup(_) => same_text(
                "java/lang/invoke/MethodHandles$Lookup",
                name,
            ),
            JavaClass::MethodHandles(_) => same_text("java/lang/invoke/MethodHandles", name),
        }
    }

    /// Reads the static field `field_name` of the class.
    pub fn get_static_object(&self, field_name: &str, jvm: &mut JVM) -> (r: Result<Value, JvmError>)
        ensures
            reads_as(read_static_spec(*self, field_name@, old(jvm)@), final(jvm)@, r),
            r is Err ==> final(jvm)@ == old(jvm)@,
    {
        match self {
            JavaClass::Bytecode(c) => c.get_static_object(field_name),
            _ => native_get_static_object(self, field_name, jvm),
        }
    }

    /// Calls the static method `method_name` of the class. A compiled method
    /// is handed the `nb_args` topmost values of the operand stack of `sf`;
    /// an intrinsic method takes what it reads from that stack itself.
    pub fn execute_static_method(
        &self,
        sf: &mut StackFrame,
        jvm: &mut JVM,
        classes: &Classes,
        method_name: &str,
        nb_args: usize,
        fuel: u64,
    ) -> (r: Result<(), JvmError>)
        ensures
            ends_as(
                invoke_static_spec(
                    classes.classes@,
                    *self,
                    method_name@,
                    nb_args as nat,
                    old(sf)@,
                    old(jvm)@,
                    fuel as nat,
                ),
                final(sf)@,
                final(jvm)@,
                r,
            ),
            final(jvm)@.out == static_call_output(
                classes.classes@,
                *self,
                method_name@,
                nb_args as nat,
                old(sf)@,
                old(jvm)@,
                fuel as nat,
            ),
            !(self is Bytecode) ==> fails_cleanly(old(sf)@, old(jvm)@, final(sf)@, final(jvm)@, r),
        decreases fuel, 2nat,
    {
        match self {
            JavaClass::Bytecode(c) => c.execute_static_method(
                sf,
                jvm,
                classes,
                method_name,
                nb_args,
                fuel,
            ),
            _ => native_execute_static_method(self, sf, jvm, method_name),
        }
    }

    /// Calls the instance method `method_name` of the class on `this` with
    /// `args`.
    pub fn execute_method(
        &self,
        sf: &mut StackFrame,
        jvm: &mut JVM,
        classes: &Classes,
        method_name: &str,
        this: Value,
        args: Vec<Value>,
        fuel: u64,
    ) -> (r: Result<(), JvmError>)
        ensures
            ends_as(
                invoke_instance_spec(
                    classes.classes@,
                    *self,
                    method_name@,
                    this@,
                    crate::jvm::values_view(args@),
                    old(sf)@,
                    old(jvm)@,
                    fuel as nat,
                ),
                final(sf)@,
                final(jvm)@,
                r,
            ),
            final(jvm)@.out == instance_call_output(
                classes.classes@,
                *self,
                method_name@,
                this@,
                crate::jvm::values_view(args@),
                old(sf)@,
                old(jvm)@,
                fuel as nat,
            ),
            !(self is Bytecode) ==> fails_cleanly(old(sf)@, old(jvm)@, final(sf)@, final(jvm)@, r),
        decreases fuel, 2nat,
    {
        match self {
            JavaClass::Bytecode(c) => c.execute_method(
                sf,
                jvm,
                classes,
                method_name,
                this,
                args,
                fuel,
            ),
            _ => native_execute_method(self, sf, jvm, method_name, this, args),
        }
    }
}

} // verus!
