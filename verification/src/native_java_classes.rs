//! The intrinsic classes: classes whose behaviour the machine supplies itself
//! where a compiled class would run bytecode. Each class answers
//! `NotImplemented` to an operation it does not model.
//!
//! The values that the intrinsic classes work on are those of the machine: a
//! `Native...Instance` is the receiver of an instance method, taken out of
//! the `Value` that the caller holds.

use vstd::prelude::*;
use vstd::string::{StrSliceExecFns, StringExecFns};
use vstd::utf8::encode_utf8;
use crate::bytecode::{ends_as, fails_cleanly};
use crate::classes::Classes;
use crate::errors::{HostFunction, JvmError, LinkError, RuntimeError};
use crate::java_class::{reads_as, JavaClass};
use crate::semantics::CallOutcome;
use crate::jvm::{
    host_result, values_view, FrameView, HeapView, Instance, InstanceView, JvmView, StackFrame, Value,
    ValueView, JVM,
};
use crate::text::{
    decimal, decimal_text, hash_code, hash_text, lowercase_of, parse_int, parsed_int, push_char,
    same_text, starts_with, to_lowercase,
};

verus! {

/// An instance that has a class name and no fields.
pub open spec fn plain_instance(class_name: Seq<char>) -> InstanceView {
    InstanceView { class_name, field_names: Seq::empty(), field_values: Seq::empty() }
}

/// An instance of `java.util.ArrayList` whose elements are the slots of the
/// array `content`.
pub open spec fn list_instance(content: usize) -> InstanceView {
    InstanceView {
        class_name: "java/util/ArrayList"@,
        field_names: seq!["content"@],
        field_values: seq![ValueView::Array(content)],
    }
}

/// The array that holds the elements of the list `this`: the array itself
/// where `this` is one, the first field of the instance where `this` is a
/// list.
pub open spec fn list_storage(this: ValueView, heap: HeapView) -> Result<usize, RuntimeError> {
    match this {
        ValueView::Array(content) => Ok(content),
        ValueView::Instance(reference) => if reference >= heap.instances.len() {
            Err(RuntimeError::DanglingReference)
        } else if heap.instances[reference as int].field_values.len() == 0 {
            Err(RuntimeError::TypeMismatch)
        } else {
            match heap.instances[reference as int].field_values[0] {
                ValueView::Array(content) => Ok(content),
                _ => Err(RuntimeError::TypeMismatch),
            }
        },
        ValueView::Null => Err(RuntimeError::NullDereference),
        _ => Err(RuntimeError::TypeMismatch),
    }
}

/// The first argument, which must be a text.
pub open spec fn first_text(args: Seq<ValueView>) -> Result<Seq<char>, RuntimeError> {
    if args.len() == 0 {
        Err(RuntimeError::MissingArgument)
    } else {
        match args[0] {
            ValueView::String(text) => Ok(text),
            _ => Err(RuntimeError::TypeMismatch),
        }
    }
}

/// The text that the conversion `%c` puts in place of argument `used`.
pub open spec fn format_argument(c: char, used: int, args: Seq<ValueView>) -> Result<
    Seq<char>,
    RuntimeError,
> {
    if c != 'd' && c != 's' {
        Err(RuntimeError::BadFormat)
    } else if used < 0 || used >= args.len() {
        Err(RuntimeError::MissingArgument)
    } else if c == 'd' {
        match args[used].as_int() {
            Some(i) => Ok(decimal(i as int)),
            None => Err(RuntimeError::TypeMismatch),
        }
    } else {
        match args[used].as_text() {
            Some(text) => Ok(text),
            None => Err(RuntimeError::TypeMismatch),
        }
    }
}

/// `text` put in front of what the rest of the format expands to.
pub open spec fn text_then(text: Seq<char>, rest: Result<Seq<char>, RuntimeError>) -> Result<
    Seq<char>,
    RuntimeError,
> {
    match rest {
        Ok(rest) => Ok(text + rest),
        Err(e) => Err(e),
    }
}

/// What the format text expands to from position `at` on. `special` says
/// that the character before `at` was a `%`; `used` counts the arguments
/// that earlier conversions have taken. A `%` at the very end is dropped.
pub open spec fn format_from(
    format: Seq<char>,
    at: int,
    special: bool,
    used: int,
    args: Seq<ValueView>,
) -> Result<Seq<char>, RuntimeError>
    decreases format.len() - at,
{
    if at < 0 || at >= format.len() {
        Ok(Seq::empty())
    } else if special {
        match format_argument(format[at], used, args) {
            Err(e) => Err(e),
            Ok(text) => text_then(text, format_from(format, at + 1, false, used + 1, args)),
        }
    } else if format[at] == '%' {
        format_from(format, at + 1, true, used, args)
    } else {
        text_then(seq![format[at]], format_from(format, at + 1, false, used, args))
    }
}

/// `String.format`: the format text with each `%d` replaced by the next
/// argument in decimal and each `%s` by the next argument, a text.
pub open spec fn format_spec(format: Seq<char>, args: Seq<ValueView>) -> Result<
    Seq<char>,
    RuntimeError,
> {
    format_from(format, 0, false, 0, args)
}

/// Expands a format text: `String.format`.
pub fn format_text(pattern: &str, args: &Vec<Value>) -> (r: Result<String, RuntimeError>)
    ensures
        match r {
            Ok(text) => format_spec(pattern@, values_view(args@)) == Ok::<Seq<char>, RuntimeError>(
                text@,
            ),
            Err(e) => format_spec(pattern@, values_view(args@)) == Err::<Seq<char>, RuntimeError>(
                e,
            ),
        },
{
    let len: usize = pattern.unicode_len();
    let mut output = String::new();
    let mut special = false;
    let mut used: usize = 0;
    let mut at: usize = 0;
    assert(text_then(output@, format_spec(pattern@, values_view(args@))) == format_spec(
        pattern@,
        values_view(args@),
    )) by {
        if format_spec(pattern@, values_view(args@)) is Ok {
            assert(output@ + format_spec(pattern@, values_view(args@))->Ok_0 =~= format_spec(
                pattern@,
                values_view(args@),
            )->Ok_0);
        }
    }
    while at < len
        invariant
            len == pattern@.len(),
            at <= len,
            used <= at,
            format_spec(pattern@, values_view(args@)) == text_then(
                output@,
                format_from(pattern@, at as int, special, used as int, values_view(args@)),
            ),
        decreases len - at,
    {
        let c = pattern.get_char(at);
        let ghost rest = if special {
            format_from(pattern@, at + 1, false, used + 1, values_view(args@))
        } else {
            format_from(pattern@, at + 1, false, used as int, values_view(args@))
        };
        let ghost before = output@;
        if special {
            if c != 'd' && c != 's' {
                return Err(RuntimeError::BadFormat);
            }
            if used >= args.len() {
                return Err(RuntimeError::MissingArgument);
            }
            if c == 'd' {
                let i = match &args[used] {
                    Value::Integer(i) => *i,
                    Value::Bool(b) => if *b {
                        1
                    } else {
                        0
                    },
                    _ => return Err(RuntimeError::TypeMismatch),
                };
                let text = decimal_text(i);
                output.append(text.as_str());
                proof {
                    if rest is Ok {
                        assert(before + (decimal(i as int) + rest->Ok_0) =~= output@ + rest->Ok_0);
                    }
                }
            } else {
                match &args[used] {
                    Value::String(text) => {
                        output.append(text.as_str());
                        proof {
                            if rest is Ok {
                                assert(before + (text@ + rest->Ok_0) =~= output@ + rest->Ok_0);
                            }
                        }
                    },
                    _ => return Err(RuntimeError::TypeMismatch),
                }
            }
            special = false;
            used = used + 1;
        } else if c == '%' {
            special = true;
        } else {
            push_char(&mut output, c);
            proof {
                if rest is Ok {
                    assert(before + (seq![c] + rest->Ok_0) =~= output@ + rest->Ok_0);
                }
            }
        }
        at = at + 1;
    }
    assert(output@ + Seq::<char>::empty() =~= output@);
    Ok(output)
}

// java.lang.Object

/// An instance of `java.lang.Object`.
pub struct NativeObjectInstance {}

/// `java.lang.Object`.
pub struct NativeObjectClass {}

/// An instance method of `java.lang.Object`: the constructor, which does
/// nothing.
pub open spec fn object_method(method: Seq<char>, f: FrameView, j: JvmView) -> CallOutcome {
    if method == "<init>"@ {
        Ok((f, j))
    } else {
        Err(JvmError::NotImplemented)
    }
}

/// A static method of `java.lang.Object`: the class initialiser, which does
/// nothing.
pub open spec fn object_static(method: Seq<char>, f: FrameView, j: JvmView) -> CallOutcome {
    if method == "clinit"@ {
        Ok((f, j))
    } else {
        Err(JvmError::NotImplemented)
    }
}

impl NativeObjectInstance {
    pub fn get_class_name(&self) -> (name: String)
        ensures
            name@ == "java/lang/Object"@,
    {
        "java/lang/Object".to_owned()
    }

    pub fn execute_method(&self, sf: &mut StackFrame, jvm: &mut JVM, method_name: &str) -> (r:
        Result<(), JvmError>)
        ensures
            ends_as(object_method(method_name@, old(sf)@, old(jvm)@), final(sf)@, final(jvm)@, r),
            fails_cleanly(old(sf)@, old(jvm)@, final(sf)@, final(jvm)@, r),
    {
        if same_text(method_name, "<init>") {
            Ok(())
        } else {
            Err(JvmError::NotImplemented)
        }
    }
}

impl NativeObjectClass {
    pub fn get_name(&self) -> (name: String)
        ensures
            name@ == "java/lang/Object"@,
    {
        "java/lang/Object".to_owned()
    }

    /// A new instance of the class, as a value of its own on the heap.
    pub fn new_instance(&self, jvm: &mut JVM) -> (reference: Value)
        ensures
            reference@ == ValueView::Instance(old(jvm)@.heap.instances.len() as usize),
            final(jvm)@ == (JvmView {
                heap: old(jvm)@.heap.alloc_instance(plain_instance("java/lang/Object"@)),
                ..old(jvm)@
            }),
    {
        let instance = Instance {
            class_name: (NativeObjectInstance {  }).get_class_name(),
            field_names: Vec::new(),
            field_values: Vec::new(),
        };
        assert(instance@.field_names =~= Seq::empty());
        assert(instance@.field_values =~= Seq::empty());
        Value::Instance(jvm.heap.alloc_instance(instance))
    }

    pub fn execute_method(&self, sf: &mut StackFrame, jvm: &mut JVM, method_name: &str) -> (r:
        Result<(), JvmError>)
        ensures
            ends_as(object_method(method_name@, old(sf)@, old(jvm)@), final(sf)@, final(jvm)@, r),
            fails_cleanly(old(sf)@, old(jvm)@, final(sf)@, final(jvm)@, r),
    {
        (NativeObjectInstance {  }).execute_method(sf, jvm, method_name)
    }

    pub fn execute_static_method(&self, sf: &mut StackFrame, jvm: &mut JVM, method_name: &str) -> (r:
        Result<(), JvmError>)
        ensures
            ends_as(object_static(method_name@, old(sf)@, old(jvm)@), final(sf)@, final(jvm)@, r),
            fails_cleanly(old(sf)@, old(jvm)@, final(sf)@, final(jvm)@, r),
    {
        if same_text(method_name, "clinit") {
            Ok(())
        } else {
            Err(JvmError::NotImplemented)
        }
    }
}

// java.io.PrintStream

/// An instance of `java.io.PrintStream`: the standard output.
pub struct NativePrintStreamInstance {}

/// `java.io.PrintStream`.
pub struct NativePrintStreamClass {}

/// An instance method of the standard output: `println` writes the first
/// argument, a text, and a line feed; `print` writes the text alone.
pub open spec fn print_stream_method(
    method: Seq<char>,
    args: Seq<ValueView>,
    f: FrameView,
    j: JvmView,
) -> CallOutcome {
    if method == "println"@ {
        match first_text(args) {
            Err(e) => Err(JvmError::Runtime(e)),
            Ok(text) => Ok((f, JvmView { out: j.out + text + "\n"@, ..j })),
        }
    } else if method == "print"@ {
        match first_text(args) {
            Err(e) => Err(JvmError::Runtime(e)),
            Ok(text) => Ok((f, JvmView { out: j.out + text, ..j })),
        }
    } else {
        Err(JvmError::NotImplemented)
    }
}

/// The first argument, which must be a text.
fn first_argument_text(args: &Vec<Value>) -> (r: Result<&str, RuntimeError>)
    ensures
        match r {
            Ok(text) => first_text(values_view(args@)) == Ok::<Seq<char>, RuntimeError>(text@),
            Err(e) => first_text(values_view(args@)) == Err::<Seq<char>, RuntimeError>(e),
        },
{
    if args.len() == 0 {
        return Err(RuntimeError::MissingArgument);
    }
    match &args[0] {
        Value::String(text) => Ok(text.as_str()),
        _ => Err(RuntimeError::TypeMismatch),
    }
}

impl NativePrintStreamInstance {
    pub fn get_class_name(&self) -> (name: String)
        ensures
            name@ == "Stream"@,
    {
        "Stream".to_owned()
    }

    pub fn execute_method(
        &self,
        sf: &mut StackFrame,
        jvm: &mut JVM,
        method_name: &str,
        args: &Vec<Value>,
    ) -> (r: Result<(), JvmError>)
        ensures
            ends_as(
                print_stream_method(method_name@, values_view(args@), old(sf)@, old(jvm)@),
                final(sf)@,
                final(jvm)@,
                r,
            ),
            fails_cleanly(old(sf)@, old(jvm)@, final(sf)@, final(jvm)@, r),
    {
        if same_text(method_name, "println") {
            match first_argument_text(args) {
                Err(e) => Err(JvmError::Runtime(e)),
                Ok(text) => {
                    jvm.stdout.append(text);
                    jvm.stdout.append("\n");
                    assert(jvm@.out =~= old(jvm)@.out + text@ + "\n"@);
                    Ok(())
                },
            }
        } else if same_text(method_name, "print") {
            match first_argument_text(args) {
                Err(e) => Err(JvmError::Runtime(e)),
                Ok(text) => {
                    jvm.stdout.append(text);
                    Ok(())
                },
            }
        } else {
            Err(JvmError::NotImplemented)
        }
    }
}

impl NativePrintStreamClass {
    pub fn get_name(&self) -> (name: String)
        ensures
            name@ == "java/io/PrintStream"@,
    {
        "java/io/PrintStream".to_owned()
    }

    pub fn execute_method(
        &self,
        sf: &mut StackFrame,
        jvm: &mut JVM,
        method_name: &str,
        args: &Vec<Value>,
    ) -> (r: Result<(), JvmError>)
        ensures
            ends_as(
                print_stream_method(method_name@, values_view(args@), old(sf)@, old(jvm)@),
                final(sf)@,
                final(jvm)@,
                r,
            ),
            fails_cleanly(old(sf)@, old(jvm)@, final(sf)@, final(jvm)@, r),
    {
        (NativePrintStreamInstance {  }).execute_method(sf, jvm, method_name, args)
    }
}

// java.lang.System

/// `java.lang.System`.
pub struct NativeSystemClass {}

/// A static field of `java.lang.System`: `out` is a new instance of the
/// standard output.
pub open spec fn system_static_field(field: Seq<char>, j: JvmView) -> Result<
    (ValueView, JvmView),
    JvmError,
> {
    if field == "out"@ {
        Ok(
            (
                ValueView::Instance(j.heap.instances.len() as usize),
                JvmView { heap: j.heap.alloc_instance(plain_instance("Stream"@)), ..j },
            ),
        )
    } else {
        Err(JvmError::Link(LinkError::UnknownField))
    }
}

impl NativeSystemClass {
    pub fn get_name(&self) -> (name: String)
        ensures
            name@ == "java/lang/System"@,
    {
        "java/lang/System".to_owned()
    }

    pub fn get_static_object(&self, field_name: &str, jvm: &mut JVM) -> (r: Result<Value, JvmError>)
        ensures
            reads_as(system_static_field(field_name@, old(jvm)@), final(jvm)@, r),
            r is Err ==> final(jvm)@ == old(jvm)@,
    {
        if same_text(field_name, "out") {
            let instance = Instance {
                class_name: (NativePrintStreamInstance {  }).get_class_name(),
                field_names: Vec::new(),
                field_values: Vec::new(),
            };
            assert(instance@.field_names =~= Seq::empty());
            assert(instance@.field_values =~= Seq::empty());
            Ok(Value::Instance(jvm.heap.alloc_instance(instance)))
        } else {
            Err(JvmError::Link(LinkError::UnknownField))
        }
    }
}

// java.lang.Integer

/// An instance of `java.lang.Integer`.
pub struct NativeIntegerInstance {
    pub value: i32,
}

impl NativeIntegerInstance {
    pub fn new(value: i32) -> (instance: NativeIntegerInstance)
        ensures
            instance.value == value,
    {
        NativeIntegerInstance { value }
    }

    pub fn get_class_name(&self) -> (name: String)
        ensures
            name@ == "java/lang/Integer"@,
    {
        "java/lang/Integer".to_owned()
    }

    pub fn get_int(&self) -> (value: i32)
        ensures
            value == self.value,
    {
        self.value
    }

    /// The instance as a value of the machine.
    pub fn to_value(&self) -> (value: Value)
        ensures
            value@ == ValueView::Integer(self.value),
    {
        Value::Integer(self.value)
    }
}

/// `java.lang.Integer`.
pub struct NativeIntegerClass {}

/// A static method of `java.lang.Integer`: `parseInt` pops a text and pushes
/// the integer it denotes; `valueOf` pops an integer and pushes it again.
pub open spec fn integer_static(method: Seq<char>, f: FrameView, j: JvmView) -> CallOutcome {
    if method == "parseInt"@ {
        match f.pop_string() {
            Err(e) => Err(JvmError::Runtime(e)),
            Ok((text, rest)) => match parsed_int(text) {
                Some(value) => Ok((rest.push(ValueView::Integer(value)), j)),
                None => Err(JvmError::Runtime(RuntimeError::NumberFormat)),
            },
        }
    } else if method == "valueOf"@ {
        match f.pop_int() {
            Err(e) => Err(JvmError::Runtime(e)),
            Ok((value, rest)) => Ok((rest.push(ValueView::Integer(value)), j)),
        }
    } else {
        Err(JvmError::NotImplemented)
    }
}

impl NativeIntegerClass {
    pub fn get_name(&self) -> (name: String)
        ensures
            name@ == "java/lang/Integer"@,
    {
        "java/lang/Integer".to_owned()
    }

    pub fn execute_static_method(&self, sf: &mut StackFrame, jvm: &mut JVM, method_name: &str) -> (r:
        Result<(), JvmError>)
        ensures
            ends_as(integer_static(method_name@, old(sf)@, old(jvm)@), final(sf)@, final(jvm)@, r),
            fails_cleanly(old(sf)@, old(jvm)@, final(sf)@, final(jvm)@, r),
    {
        if same_text(method_name, "parseInt") {
            let text = match sf.pop_string() {
                Ok(text) => text,
                Err(e) => return Err(JvmError::Runtime(e)),
            };
            Self::push_parsed(sf, parse_int(text.as_str()))
        } else if same_text(method_name, "valueOf") {
            let value = match sf.pop_int() {
                Ok(value) => value,
                Err(e) => return Err(JvmError::Runtime(e)),
            };
            sf.push_int(NativeIntegerInstance::new(value).get_int());
            Ok(())
        } else {
            Err(JvmError::NotImplemented)
        }
    }

    /// Pushes the integer that a text was read as, or reports that the text
    /// denotes none.
    pub fn push_parsed(sf: &mut StackFrame, parsed: Option<i32>) -> (r: Result<(), JvmError>)
        ensures
            match parsed {
                Some(value) => r is Ok && final(sf)@ == old(sf)@.push(ValueView::Integer(value)),
                None => r == Err::<(), JvmError>(JvmError::Runtime(RuntimeError::NumberFormat))
                    && final(sf)@ == old(sf)@,
            },
    {
        match parsed {
            Some(value) => {
                sf.push_int(value);
                Ok(())
            },
            None => Err(JvmError::Runtime(RuntimeError::NumberFormat)),
        }
    }
}

// java.lang.Long, java.lang.Float, java.lang.Double, java.lang.Boolean

/// An instance of `java.lang.Long`.
pub struct NativeLongInstance {
    pub value: i64,
}

impl NativeLongInstance {
    pub fn new(value: i64) -> (instance: NativeLongInstance)
        ensures
            instance.value == value,
    {
        NativeLongInstance { value }
    }

    pub fn get_class_name(&self) -> (name: String)
        ensures
            name@ == "java/lang/Long"@,
    {
        "java/lang/Long".to_owned()
    }

    pub fn get_long(&self) -> (value: i64)
        ensures
            value == self.value,
    {
        self.value
    }

    /// The instance as a value of the machine.
    pub fn to_value(&self) -> (value: Value)
        ensures
            value@ == ValueView::Long(self.value),
    {
        Value::Long(self.value)
    }
}

/// An instance of `java.lang.Float`, held as its IEEE-754 bit pattern.
pub struct NativeFloatInstance {
    pub value: u32,
}

impl NativeFloatInstance {
    pub fn new(value: u32) -> (instance: NativeFloatInstance)
        ensures
            instance.value == value,
    {
        NativeFloatInstance { value }
    }

    pub fn get_class_name(&self) -> (name: String)
        ensures
            name@ == "java/lang/Float"@,
    {
        "java/lang/Float".to_owned()
    }

    /// The bit pattern of the number.
    pub fn get_float(&self) -> (value: u32)
        ensures
            value == self.value,
    {
        self.value
    }

    /// The instance as a value of the machine.
    pub fn to_value(&self) -> (value: Value)
        ensures
            value@ == ValueView::Float(self.value),
    {
        Value::Float(self.value)
    }
}

/// An instance of `java.lang.Double`, held as its IEEE-754 bit pattern.
pub struct NativeDoubleInstance {
    pub value: u64,
}

impl NativeDoubleInstance {
    pub fn new(value: u64) -> (instance: NativeDoubleInstance)
        ensures
            instance.value == value,
    {
        NativeDoubleInstance { value }
    }

    pub fn get_class_name(&self) -> (name: String)
        ensures
            name@ == "java/lang/Double"@,
    {
        "java/lang/Double".to_owned()
    }

    /// The bit pattern of the number.
    pub fn get_double(&self) -> (value: u64)
        ensures
            value == self.value,
    {
        self.value
    }

    /// The instance as a value of the machine.
    pub fn to_value(&self) -> (value: Value)
        ensures
            value@ == ValueView::Double(self.value),
    {
        Value::Double(self.value)
    }
}

/// An instance of `java.lang.Boolean`.
pub struct NativeBooleanInstance {
    pub value: bool,
}

impl NativeBooleanInstance {
    pub fn new(value: bool) -> (instance: NativeBooleanInstance)
        ensures
            instance.value == value,
    {
        NativeBooleanInstance { value }
    }

    pub fn get_class_name(&self) -> (name: String)
        ensures
            name@ == "java/lang/Boolean"@,
    {
        "java/lang/Boolean".to_owned()
    }

    pub fn get_bool(&self) -> (value: bool)
        ensures
            value == self.value,
    {
        self.value
    }

    /// The boolean as an integer: 1 for `true`, 0 for `false`.
    pub fn get_int(&self) -> (value: i32)
        ensures
            Some(value) == ValueView::Bool(self.value).as_int(),
    {
        if self.value {
            return 1;
        }
        return 0;
    }

    /// The instance as a value of the machine.
    pub fn to_value(&self) -> (value: Value)
        ensures
            value@ == ValueView::Bool(self.value),
    {
        Value::Bool(self.value)
    }
}

// java.lang.String

/// An instance of `java.lang.String`.
pub struct NativeStringInstance {
    pub value: String,
}

/// `java.lang.String`.
pub struct NativeStringClass {}

/// An instance method of a text. `startsWith` and `equals` compare the text
/// with the first argument and push a boolean; `toLowerCase` pushes the text
/// in lower case; `hashCode` pushes the hash of its UTF-8 bytes; the
/// constructor does nothing.
pub open spec fn string_method(
    this: Seq<char>,
    method: Seq<char>,
    args: Seq<ValueView>,
    f: FrameView,
    j: JvmView,
) -> CallOutcome {
    if method == "<init>"@ {
        Ok((f, j))
    } else if method == "startsWith"@ {
        match first_text(args) {
            Err(e) => Err(JvmError::Runtime(e)),
            Ok(prefix) => Ok((f.push(ValueView::Bool(prefix.is_prefix_of(this))), j)),
        }
    } else if method == "toLowerCase"@ {
        Ok((f.push(ValueView::String(lowercase_of(this))), j))
    } else if method == "hashCode"@ {
        Ok((f.push(ValueView::Integer(hash_code(encode_utf8(this)))), j))
    } else if method == "equals"@ {
        match first_text(args) {
            Err(e) => Err(JvmError::Runtime(e)),
            Ok(other) => Ok((f.push(ValueView::Bool(this == other)), j)),
        }
    } else {
        Err(JvmError::NotImplemented)
    }
}

/// An instance method of `java.lang.String` on the receiver `this`, which
/// must be a text.
pub open spec fn string_class_method(
    method: Seq<char>,
    this: ValueView,
    args: Seq<ValueView>,
    f: FrameView,
    j: JvmView,
) -> CallOutcome {
    match this {
        ValueView::String(text) => string_method(text, method, args, f, j),
        ValueView::Null => Err(JvmError::Runtime(RuntimeError::NullDereference)),
        _ => Err(JvmError::Runtime(RuntimeError::TypeMismatch)),
    }
}

/// A static method of `java.lang.String`: `format` pops an array of
/// arguments, then a format text, and pushes the expanded text.
pub open spec fn string_static(method: Seq<char>, f: FrameView, j: JvmView) -> CallOutcome {
    if method == "format"@ {
        match f.pop_array() {
            Err(e) => Err(JvmError::Runtime(e)),
            Ok((array, f1)) => match f1.pop_string() {
                Err(e) => Err(JvmError::Runtime(e)),
                Ok((text, rest)) => if array >= j.heap.arrays.len() {
                    Err(JvmError::Runtime(RuntimeError::DanglingReference))
                } else {
                    match format_spec(text, j.heap.arrays[array as int]) {
                        Err(e) => Err(JvmError::Runtime(e)),
                        Ok(expanded) => Ok((rest.push(ValueView::String(expanded)), j)),
                    }
                },
            },
        }
    } else {
        Err(JvmError::NotImplemented)
    }
}

impl NativeStringInstance {
    pub fn new(value: String) -> (instance: NativeStringInstance)
        ensures
            instance.value@ == value@,
    {
        NativeStringInstance { value }
    }

    pub fn get_class_name(&self) -> (name: String)
        ensures
            name@ == "java/lang/String"@,
    {
        "java/lang/String".to_owned()
    }

    pub fn get_string(&self) -> (value: String)
        ensures
            value@ == self.value@,
    {
        self.value.clone()
    }

    /// The instance as a value of the machine.
    pub fn to_value(&self) -> (value: Value)
        ensures
            value@ == ValueView::String(self.value@),
    {
        Value::String(self.value.clone())
    }

    pub fn execute_method(
        &self,
        sf: &mut StackFrame,
        jvm: &mut JVM,
        method_name: &str,
        args: &Vec<Value>,
    ) -> (r: Result<(), JvmError>)
        ensures
            ends_as(
                string_method(
                    self.value@,
                    method_name@,
                    values_view(args@),
                    old(sf)@,
                    old(jvm)@,
                ),
                final(sf)@,
                final(jvm)@,
                r,
            ),
            fails_cleanly(old(sf)@, old(jvm)@, final(sf)@, final(jvm)@, r),
    {
        if same_text(method_name, "<init>") {
            Ok(())
        } else if same_text(method_name, "startsWith") {
            match first_argument_text(args) {
                Err(e) => Err(JvmError::Runtime(e)),
                Ok(prefix) => {
                    sf.push_bool(starts_with(self.value.as_str(), prefix));
                    Ok(())
                },
            }
        } else if same_text(method_name, "toLowerCase") {
            sf.push_string(to_lowercase(self.value.as_str()));
            Ok(())
        } else if same_text(method_name, "hashCode") {
            sf.push_int(hash_text(self.value.as_str()));
            Ok(())
        } else if same_text(method_name, "equals") {
            match first_argument_text(args) {
                Err(e) => Err(JvmError::Runtime(e)),
                Ok(other) => {
                    sf.push_bool(same_text(self.value.as_str(), other));
                    Ok(())
                },
            }
        } else {
            Err(JvmError::NotImplemented)
        }
    }
}

impl NativeStringClass {
    pub fn get_name(&self) -> (name: String)
        ensures
            name@ == "java/lang/String"@,
    {
        "java/lang/String".to_owned()
    }

    pub fn execute_method(
        &self,
        sf: &mut StackFrame,
        jvm: &mut JVM,
        method_name: &str,
        this: Value,
        args: &Vec<Value>,
    ) -> (r: Result<(), JvmError>)
        ensures
            ends_as(
                string_class_method(
                    method_name@,
                    this@,
                    values_view(args@),
                    old(sf)@,
                    old(jvm)@,
                ),
                final(sf)@,
                final(jvm)@,
                r,
            ),
            fails_cleanly(old(sf)@, old(jvm)@, final(sf)@, final(jvm)@, r),
    {
        match this {
            Value::String(text) => NativeStringInstance::new(text).execute_method(
                sf,
                jvm,
                method_name,
                args,
            ),
            Value::Null => Err(JvmError::Runtime(RuntimeError::NullDereference)),
            _ => Err(JvmError::Runtime(RuntimeError::TypeMismatch)),
        }
    }

    pub fn execute_static_method(&self, sf: &mut StackFrame, jvm: &mut JVM, method_name: &str) -> (r:
        Result<(), JvmError>)
        ensures
            ends_as(string_static(method_name@, old(sf)@, old(jvm)@), final(sf)@, final(jvm)@, r),
            fails_cleanly(old(sf)@, old(jvm)@, final(sf)@, final(jvm)@, r),
    {
        if same_text(method_name, "format") {
            let array = match sf.pop_array() {
                Ok(array) => array,
                Err(e) => return Err(JvmError::Runtime(e)),
            };
            let text = match sf.pop_string() {
                Ok(text) => text,
                Err(e) => return Err(JvmError::Runtime(e)),
            };
            let args = match jvm.heap.array_values(array) {
                Ok(args) => args,
                Err(e) => return Err(JvmError::Runtime(e)),
            };
            match format_text(text.as_str(), &args) {
                Err(e) => Err(JvmError::Runtime(e)),
                Ok(expanded) => {
                    sf.push_string(expanded);
                    Ok(())
                },
            }
        } else {
            Err(JvmError::NotImplemented)
        }
    }
}

// java.util.Arrays

/// An array as the receiver of an instance method.
pub struct NativeArrayInstance {
    pub values: usize,
}

/// `java.util.Arrays`.
pub struct NativeArraysClass {}

/// An instance method of an array: `clone` pushes a new array with the same
/// slots.
pub open spec fn array_method(array: usize, method: Seq<char>, f: FrameView, j: JvmView) -> CallOutcome {
    if method == "clone"@ {
        if array >= j.heap.arrays.len() {
            Err(JvmError::Runtime(RuntimeError::DanglingReference))
        } else {
            Ok(
                (
                    f.push(ValueView::Array(j.heap.arrays.len() as usize)),
                    JvmView { heap: j.heap.alloc_filled(j.heap.arrays[array as int]), ..j },
                ),
            )
        }
    } else {
        Err(JvmError::NotImplemented)
    }
}

/// An instance method of `java.util.Arrays` on the receiver `this`, which
/// must be an array.
pub open spec fn arrays_class_method(
    method: Seq<char>,
    this: ValueView,
    f: FrameView,
    j: JvmView,
) -> CallOutcome {
    match this {
        ValueView::Array(array) => array_method(array, method, f, j),
        ValueView::Null => Err(JvmError::Runtime(RuntimeError::NullDereference)),
        _ => Err(JvmError::Runtime(RuntimeError::TypeMismatch)),
    }
}

/// A static method of `java.util.Arrays`: `asList` pops an array and pushes
/// a new list that holds a copy of its slots.
pub open spec fn arrays_static(method: Seq<char>, f: FrameView, j: JvmView) -> CallOutcome {
    if method == "asList"@ {
        match f.pop_array() {
            Err(e) => Err(JvmError::Runtime(e)),
            Ok((array, rest)) => if array >= j.heap.arrays.len() {
                Err(JvmError::Runtime(RuntimeError::DanglingReference))
            } else {
                Ok(
                    (
                        rest.push(ValueView::Instance(j.heap.instances.len() as usize)),
                        JvmView {
                            heap: j.heap.alloc_filled(j.heap.arrays[array as int]).alloc_instance(
                                list_instance(j.heap.arrays.len() as usize),
                            ),
                            ..j
                        },
                    ),
                )
            },
        }
    } else {
        Err(JvmError::NotImplemented)
    }
}

/// Allocates a list whose elements are the slots of the array `content`.
fn alloc_list(jvm: &mut JVM, content: usize) -> (reference: usize)
    ensures
        reference == old(jvm)@.heap.instances.len(),
        final(jvm)@ == (JvmView {
            heap: old(jvm)@.heap.alloc_instance(list_instance(content)),
            ..old(jvm)@
        }),
{
    let mut field_names: Vec<String> = Vec::new();
    field_names.push("content".to_owned());
    let mut field_values: Vec<Value> = Vec::new();
    field_values.push(Value::Array(content));
    let instance = Instance {
        class_name: "java/util/ArrayList".to_owned(),
        field_names,
        field_values,
    };
    assert(instance@.field_names =~= list_instance(content).field_names);
    assert(instance@.field_values =~= list_instance(content).field_values);
    jvm.heap.alloc_instance(instance)
}

impl NativeArrayInstance {
    pub fn get_class_name(&self) -> (name: String)
        ensures
            name@ == "java/util/Arrays"@,
    {
        "java/util/Arrays".to_owned()
    }

    /// The reference to the array.
    pub fn get_array(&self) -> (array: usize)
        ensures
            array == self.values,
    {
        self.values
    }

    pub fn execute_method(&self, sf: &mut StackFrame, jvm: &mut JVM, method_name: &str) -> (r:
        Result<(), JvmError>)
        ensures
            ends_as(
                array_method(self.values, method_name@, old(sf)@, old(jvm)@),
                final(sf)@,
                final(jvm)@,
                r,
            ),
            fails_cleanly(old(sf)@, old(jvm)@, final(sf)@, final(jvm)@, r),
    {
        if same_text(method_name, "clone") {
            let values = match jvm.heap.array_values(self.values) {
                Ok(values) => values,
                Err(e) => return Err(JvmError::Runtime(e)),
            };
            let copy = jvm.heap.alloc_filled(values);
            sf.push_array(copy);
            Ok(())
        } else {
            Err(JvmError::NotImplemented)
        }
    }
}

impl NativeArraysClass {
    pub fn get_name(&self) -> (name: String)
        ensures
            name@ == "java/util/Arrays"@,
    {
        "java/util/Arrays".to_owned()
    }

    pub fn execute_method(&self, sf: &mut StackFrame, jvm: &mut JVM, method_name: &str, this: Value) -> (r:
        Result<(), JvmError>)
        ensures
            ends_as(
                arrays_class_method(method_name@, this@, old(sf)@, old(jvm)@),
                final(sf)@,
                final(jvm)@,
                r,
            ),
            fails_cleanly(old(sf)@, old(jvm)@, final(sf)@, final(jvm)@, r),
    {
        match this {
            Value::Array(values) => (NativeArrayInstance { values }).execute_method(
                sf,
                jvm,
                method_name,
            ),
            Value::Null => Err(JvmError::Runtime(RuntimeError::NullDereference)),
            _ => Err(JvmError::Runtime(RuntimeError::TypeMismatch)),
        }
    }

    pub fn execute_static_method(&self, sf: &mut StackFrame, jvm: &mut JVM, method_name: &str) -> (r:
        Result<(), JvmError>)
        ensures
            ends_as(arrays_static(method_name@, old(sf)@, old(jvm)@), final(sf)@, final(jvm)@, r),
            fails_cleanly(old(sf)@, old(jvm)@, final(sf)@, final(jvm)@, r),
    {
        if same_text(method_name, "asList") {
            let array = match sf.pop_array() {
                Ok(array) => array,
                Err(e) => return Err(JvmError::Runtime(e)),
            };
            let values = match jvm.heap.array_values(array) {
                Ok(values) => values,
                Err(e) => return Err(JvmError::Runtime(e)),
            };
            let content = jvm.heap.alloc_filled(values);
            let list = alloc_list(jvm, content);
            sf.push(Value::Instance(list));
            Ok(())
        } else {
            Err(JvmError::NotImplemented)
        }
    }
}

// java.util.ArrayList, java.util.List

/// A list as the receiver of an instance method: `content` is the array that
/// holds its elements.
pub struct NativeArrayListInstance {
    pub content: usize,
}

/// `java.util.ArrayList`.
pub struct NativeArrayListClass {}

/// A receiver that is asked through the interface `java.util.List`.
pub struct NativeListInstance {}

/// `java.util.List`.
pub struct NativeListClass {}

/// `add`: appends the first argument to the array `content` and pushes
/// `true`.
pub open spec fn list_add(content: usize, args: Seq<ValueView>, f: FrameView, j: JvmView) -> CallOutcome {
    if args.len() == 0 {
        Err(JvmError::Runtime(RuntimeError::MissingArgument))
    } else {
        match j.heap.append(content, args[0]) {
            Err(e) => Err(JvmError::Runtime(e)),
            Ok(heap) => Ok((f.push(ValueView::Bool(true)), JvmView { heap, ..j })),
        }
    }
}

/// An instance method of a list whose elements the array `content` holds:
/// `add` appends; the constructor does nothing.
pub open spec fn array_list_method(
    content: usize,
    method: Seq<char>,
    args: Seq<ValueView>,
    f: FrameView,
    j: JvmView,
) -> CallOutcome {
    if method == "<init>"@ {
        Ok((f, j))
    } else if method == "add"@ {
        list_add(content, args, f, j)
    } else {
        Err(JvmError::NotImplemented)
    }
}

/// An instance method of `java.util.ArrayList` on the receiver `this`.
pub open spec fn array_list_class_method(
    method: Seq<char>,
    this: ValueView,
    args: Seq<ValueView>,
    f: FrameView,
    j: JvmView,
) -> CallOutcome {
    match list_storage(this, j.heap) {
        Err(e) => Err(JvmError::Runtime(e)),
        Ok(content) => array_list_method(content, method, args, f, j),
    }
}

/// An instance method asked through `java.util.List` on the receiver `this`:
/// `add` appends to the list.
pub open spec fn list_method(
    method: Seq<char>,
    this: ValueView,
    args: Seq<ValueView>,
    f: FrameView,
    j: JvmView,
) -> CallOutcome {
    if method == "add"@ {
        match list_storage(this, j.heap) {
            Err(e) => Err(JvmError::Runtime(e)),
            Ok(content) => list_add(content, args, f, j),
        }
    } else {
        Err(JvmError::NotImplemented)
    }
}

/// A new, empty list.
pub open spec fn new_list(j: JvmView) -> (ValueView, JvmView) {
    (
        ValueView::Instance(j.heap.instances.len() as usize),
        JvmView {
            heap: j.heap.alloc_filled(Seq::empty()).alloc_instance(
                list_instance(j.heap.arrays.len() as usize),
            ),
            ..j
        },
    )
}

/// The array that holds the elements of the list `this`.
fn storage_of(this: &Value, jvm: &JVM) -> (r: Result<usize, RuntimeError>)
    ensures
        r == list_storage(this@, jvm@.heap),
{
    match this {
        Value::Array(content) => Ok(*content),
        Value::Instance(reference) => {
            if *reference >= jvm.heap.instances.len() {
                return Err(RuntimeError::DanglingReference);
            }
            let instance = &jvm.heap.instances[*reference];
            if instance.field_values.len() == 0 {
                return Err(RuntimeError::TypeMismatch);
            }
            match &instance.field_values[0] {
                Value::Array(content) => Ok(*content),
                _ => Err(RuntimeError::TypeMismatch),
            }
        },
        Value::Null => Err(RuntimeError::NullDereference),
        _ => Err(RuntimeError::TypeMismatch),
    }
}

/// Appends the first argument to the array `content` and pushes `true`.
fn add_to_list(sf: &mut StackFrame, jvm: &mut JVM, content: usize, args: &Vec<Value>) -> (r: Result<
    (),
    JvmError,
>)
    ensures
        ends_as(
            list_add(content, values_view(args@), old(sf)@, old(jvm)@),
            final(sf)@,
            final(jvm)@,
            r,
        ),
        fails_cleanly(old(sf)@, old(jvm)@, final(sf)@, final(jvm)@, r),
{
    if args.len() == 0 {
        return Err(JvmError::Runtime(RuntimeError::MissingArgument));
    }
    match jvm.heap.append(content, args[0].clone()) {
        Err(e) => Err(JvmError::Runtime(e)),
        Ok(()) => {
            sf.push_bool(true);
            Ok(())
        },
    }
}

impl NativeArrayListInstance {
    pub fn get_class_name(&self) -> (name: String)
        ensures
            name@ == "java/util/ArrayList"@,
    {
        "java/util/ArrayList".to_owned()
    }

    /// The reference to the array that holds the elements.
    pub fn get_array(&self) -> (array: usize)
        ensures
            array == self.content,
    {
        self.content
    }

    /// Whether a list can be asked through the interface `interface_name`.
    pub fn supports_interface(&self, interface_name: &str) -> (supported: bool)
        ensures
            supported == (interface_name@ == "java/util/List"@),
    {
        same_text(interface_name, "java/util/List")
    }

    pub fn execute_method(
        &self,
        sf: &mut StackFrame,
        jvm: &mut JVM,
        method_name: &str,
        args: &Vec<Value>,
    ) -> (r: Result<(), JvmError>)
        ensures
            ends_as(
                array_list_method(
                    self.content,
                    method_name@,
                    values_view(args@),
                    old(sf)@,
                    old(jvm)@,
                ),
                final(sf)@,
                final(jvm)@,
                r,
            ),
            fails_cleanly(old(sf)@, old(jvm)@, final(sf)@, final(jvm)@, r),
    {
        if same_text(method_name, "<init>") {
            Ok(())
        } else if same_text(method_name, "add") {
            add_to_list(sf, jvm, self.content, args)
        } else {
            Err(JvmError::NotImplemented)
        }
    }
}

impl NativeArrayListClass {
    pub fn get_name(&self) -> (name: String)
        ensures
            name@ == "java/util/ArrayList"@,
    {
        "java/util/ArrayList".to_owned()
    }

    /// A new, empty list.
    pub fn new_instance(&self, jvm: &mut JVM) -> (reference: Value)
        ensures
            (reference@, final(jvm)@) == new_list(old(jvm)@),
    {
        let content = jvm.heap.alloc_filled(Vec::new());
        assert(values_view(Seq::<Value>::empty()) =~= Seq::<ValueView>::empty());
        let list = alloc_list(jvm, content);
        Value::Instance(list)
    }

    pub fn execute_method(
        &self,
        sf: &mut StackFrame,
        jvm: &mut JVM,
        method_name: &str,
        this: Value,
        args: &Vec<Value>,
    ) -> (r: Result<(), JvmError>)
        ensures
            ends_as(
                array_list_class_method(
                    method_name@,
                    this@,
                    values_view(args@),
                    old(sf)@,
                    old(jvm)@,
                ),
                final(sf)@,
                final(jvm)@,
                r,
            ),
            fails_cleanly(old(sf)@, old(jvm)@, final(sf)@, final(jvm)@, r),
    {
        match storage_of(&this, jvm) {
            Err(e) => Err(JvmError::Runtime(e)),
            Ok(content) => (NativeArrayListInstance { content }).execute_method(
                sf,
                jvm,
                method_name,
                args,
            ),
        }
    }
}

impl NativeListInstance {
    pub fn get_class_name(&self) -> (name: String)
        ensures
            name@ == "java/util/List"@,
    {
        "java/util/List".to_owned()
    }

    pub fn execute_method(
        &self,
        sf: &mut StackFrame,
        jvm: &mut JVM,
        method_name: &str,
        this: Value,
        args: &Vec<Value>,
    ) -> (r: Result<(), JvmError>)
        ensures
            ends_as(
                list_method(method_name@, this@, values_view(args@), old(sf)@, old(jvm)@),
                final(sf)@,
                final(jvm)@,
                r,
            ),
            fails_cleanly(old(sf)@, old(jvm)@, final(sf)@, final(jvm)@, r),
    {
        if same_text(method_name, "add") {
            match storage_of(&this, jvm) {
                Err(e) => Err(JvmError::Runtime(e)),
                Ok(content) => add_to_list(sf, jvm, content, args),
            }
        } else {
            Err(JvmError::NotImplemented)
        }
    }
}

impl NativeListClass {
    pub fn get_name(&self) -> (name: String)
        ensures
            name@ == "java/util/List"@,
    {
        "java/util/List".to_owned()
    }

    pub fn execute_method(
        &self,
        sf: &mut StackFrame,
        jvm: &mut JVM,
        method_name: &str,
        this: Value,
        args: &Vec<Value>,
    ) -> (r: Result<(), JvmError>)
        ensures
            ends_as(
                list_method(method_name@, this@, values_view(args@), old(sf)@, old(jvm)@),
                final(sf)@,
                final(jvm)@,
                r,
            ),
            fails_cleanly(old(sf)@, old(jvm)@, final(sf)@, final(jvm)@, r),
    {
        (NativeListInstance {  }).execute_method(sf, jvm, method_name, this, args)
    }
}

// java.lang.Enum

/// An instance of `java.lang.Enum`: the name and the ordinal of a constant.
pub struct NativeEnumInstance {
    pub name: String,
    pub ordinal: i32,
}

/// `java.lang.Enum`.
pub struct NativeEnumClass {}

/// An object that holds the name and the ordinal of an enum constant, in
/// that order.
pub open spec fn enum_instance(class_name: Seq<char>, name: Seq<char>, ordinal: i32) -> InstanceView {
    InstanceView {
        class_name,
        field_names: seq!["name"@, "ordinal"@],
        field_values: seq![ValueView::String(name), ValueView::Integer(ordinal)],
    }
}

/// The name and the ordinal that the constructor of an enum constant is
/// given: the second argument, a text, and the first, an integer.
pub open spec fn enum_arguments(args: Seq<ValueView>) -> Result<(Seq<char>, i32), RuntimeError> {
    if args.len() < 2 {
        Err(RuntimeError::MissingArgument)
    } else {
        match (args[1].as_text(), args[0].as_int()) {
            (Some(name), Some(ordinal)) => Ok((name, ordinal)),
            _ => Err(RuntimeError::TypeMismatch),
        }
    }
}

/// The ordinal that an object holds as its second field.
pub open spec fn ordinal_of(instance: InstanceView) -> Result<i32, RuntimeError> {
    if instance.field_values.len() >= 2 && instance.field_values[1] is Integer {
        Ok(instance.field_values[1]->Integer_0)
    } else {
        Err(RuntimeError::TypeMismatch)
    }
}

/// An instance method of `java.lang.Enum` on the receiver `this`: the
/// constructor writes name and ordinal into the object, which keeps its
/// class; `ordinal` pushes the ordinal.
pub open spec fn enum_method(
    method: Seq<char>,
    this: ValueView,
    args: Seq<ValueView>,
    f: FrameView,
    j: JvmView,
) -> CallOutcome {
    match this {
        ValueView::Instance(reference) => if reference >= j.heap.instances.len() {
            Err(JvmError::Runtime(RuntimeError::DanglingReference))
        } else if method == "<init>"@ {
            match enum_arguments(args) {
                Err(e) => Err(JvmError::Runtime(e)),
                Ok((name, ordinal)) => Ok(
                    (
                        f,
                        JvmView {
                            heap: HeapView {
                                instances: j.heap.instances.update(
                                    reference as int,
                                    enum_instance(
                                        j.heap.instances[reference as int].class_name,
                                        name,
                                        ordinal,
                                    ),
                                ),
                                ..j.heap
                            },
                            ..j
                        },
                    ),
                ),
            }
        } else if method == "ordinal"@ {
            match ordinal_of(j.heap.instances[reference as int]) {
                Err(e) => Err(JvmError::Runtime(e)),
                Ok(ordinal) => Ok((f.push(ValueView::Integer(ordinal)), j)),
            }
        } else {
            Err(JvmError::NotImplemented)
        },
        ValueView::Null => Err(JvmError::Runtime(RuntimeError::NullDereference)),
        _ => Err(JvmError::Runtime(RuntimeError::TypeMismatch)),
    }
}

impl NativeEnumInstance {
    pub fn get_class_name(&self) -> (name: String)
        ensures
            name@ == "java/lang/Enum"@,
    {
        "java/lang/Enum".to_owned()
    }

    /// The name and the ordinal that the constructor is given.
    pub fn from_arguments(args: &Vec<Value>) -> (r: Result<NativeEnumInstance, RuntimeError>)
        ensures
            match r {
                Ok(constant) => enum_arguments(values_view(args@)) == Ok::<
                    (Seq<char>, i32),
                    RuntimeError,
                >((constant.name@, constant.ordinal)),
                Err(e) => enum_arguments(values_view(args@)) == Err::<
                    (Seq<char>, i32),
                    RuntimeError,
                >(e),
            },
    {
        if args.len() < 2 {
            return Err(RuntimeError::MissingArgument);
        }
        let name = match &args[1] {
            Value::String(name) => name.clone(),
            _ => return Err(RuntimeError::TypeMismatch),
        };
        let ordinal = match &args[0] {
            Value::Integer(i) => *i,
            Value::Bool(b) => if *b {
                1
            } else {
                0
            },
            _ => return Err(RuntimeError::TypeMismatch),
        };
        Ok(NativeEnumInstance { name, ordinal })
    }

    /// The constant as an object of the class `class_name`.
    pub fn to_instance(self, class_name: String) -> (instance: Instance)
        ensures
            instance@ == enum_instance(class_name@, self.name@, self.ordinal),
    {
        let mut field_names: Vec<String> = Vec::new();
        field_names.push("name".to_owned());
        field_names.push("ordinal".to_owned());
        let mut field_values: Vec<Value> = Vec::new();
        let ghost name = self.name@;
        let ordinal = self.ordinal;
        field_values.push(Value::String(self.name));
        field_values.push(Value::Integer(ordinal));
        let instance = Instance { class_name, field_names, field_values };
        assert(instance@.field_names =~= enum_instance(class_name@, name, ordinal).field_names);
        assert(instance@.field_values =~= enum_instance(class_name@, name, ordinal).field_values);
        instance
    }
}

impl NativeEnumClass {
    pub fn get_name(&self) -> (name: String)
        ensures
            name@ == "java/lang/Enum"@,
    {
        "java/lang/Enum".to_owned()
    }

    /// A new constant with no name and the ordinal 0.
    pub fn new_instance(&self, jvm: &mut JVM) -> (reference: Value)
        ensures
            reference@ == ValueView::Instance(old(jvm)@.heap.instances.len() as usize),
            final(jvm)@ == (JvmView {
                heap: old(jvm)@.heap.alloc_instance(
                    enum_instance("java/lang/Enum"@, Seq::empty(), 0),
                ),
                ..old(jvm)@
            }),
    {
        let constant = NativeEnumInstance { name: String::new(), ordinal: 0 };
        let class_name = constant.get_class_name();
        Value::Instance(jvm.heap.alloc_instance(constant.to_instance(class_name)))
    }

    pub fn execute_method(
        &self,
        sf: &mut StackFrame,
        jvm: &mut JVM,
        method_name: &str,
        this: Value,
        args: &Vec<Value>,
    ) -> (r: Result<(), JvmError>)
        ensures
            ends_as(
                enum_method(method_name@, this@, values_view(args@), old(sf)@, old(jvm)@),
                final(sf)@,
                final(jvm)@,
                r,
            ),
            fails_cleanly(old(sf)@, old(jvm)@, final(sf)@, final(jvm)@, r),
    {
        let reference = match this {
            Value::Instance(reference) => reference,
            Value::Null => return Err(JvmError::Runtime(RuntimeError::NullDereference)),
            _ => return Err(JvmError::Runtime(RuntimeError::TypeMismatch)),
        };
        if reference >= jvm.heap.instances.len() {
            return Err(JvmError::Runtime(RuntimeError::DanglingReference));
        }
        if same_text(method_name, "<init>") {
            let constant = match NativeEnumInstance::from_arguments(args) {
                Ok(constant) => constant,
                Err(e) => return Err(JvmError::Runtime(e)),
            };
            let class_name = jvm.heap.instances[reference].class_name.clone();
            match jvm.heap.replace_instance(reference, constant.to_instance(class_name)) {
                Ok(()) => Ok(()),
                Err(e) => Err(JvmError::Runtime(e)),
            }
        } else if same_text(method_name, "ordinal") {
            let instance = &jvm.heap.instances[reference];
            if instance.field_values.len() < 2 {
                return Err(JvmError::Runtime(RuntimeError::TypeMismatch));
            }
            match &instance.field_values[1] {
                Value::Integer(ordinal) => {
                    sf.push_int(*ordinal);
                    Ok(())
                },
                _ => Err(JvmError::Runtime(RuntimeError::TypeMismatch)),
            }
        } else {
            Err(JvmError::NotImplemented)
        }
    }
}

// Classes that are known by name only

/// `java.lang.Math`. Its methods work on double-precision numbers, which
/// the machine holds as bit patterns only: the results come from the host.
pub struct NativeMathClass {}

/// A function of the host applied to the number on top of the stack: the
/// number is popped and what the machine was handed for it is pushed. Where
/// the machine was handed nothing for it, the call fails with `HostCall`.
pub open spec fn host_call(function: HostFunction, f: FrameView, j: JvmView) -> CallOutcome {
    match f.pop_double() {
        Err(e) => Err(JvmError::Runtime(e)),
        Ok((bits, rest)) => match host_result(j.host, function, bits) {
            Some(result) => Ok((rest.push(ValueView::Double(result)), j)),
            None => Err(JvmError::HostCall(function, bits)),
        },
    }
}

/// A static method of `java.lang.Math`: `sqrt` and `log`.
pub open spec fn math_static(method: Seq<char>, f: FrameView, j: JvmView) -> CallOutcome {
    if method == "sqrt"@ {
        host_call(HostFunction::Sqrt, f, j)
    } else if method == "log"@ {
        host_call(HostFunction::Log, f, j)
    } else {
        Err(JvmError::NotImplemented)
    }
}

/// `java.lang.NoSuchFieldError`.
pub struct NativeNoSuchFieldErrorClass {}

/// `java.lang.invoke.MethodHandles$Lookup`.
pub struct NativeMethodHandlesLookupClass {}

/// `java.lang.invoke.MethodHandles`.
pub struct NativeMethodHandlesClass {}

impl NativeMathClass {
    pub fn get_name(&self) -> (name: String)
        ensures
            name@ == "java/lang/Math"@,
    {
        "java/lang/Math".to_owned()
    }

    /// Pops a number and pushes what the machine was handed for `function`
    /// on it.
    pub fn call_host(function: HostFunction, sf: &mut StackFrame, jvm: &mut JVM) -> (r: Result<
        (),
        JvmError,
    >)
        ensures
            ends_as(host_call(function, old(sf)@, old(jvm)@), final(sf)@, final(jvm)@, r),
            final(jvm)@ == old(jvm)@,
    {
        let bits = match sf.pop_double() {
            Ok(bits) => bits,
            Err(e) => return Err(JvmError::Runtime(e)),
        };
        match jvm.host_result(function, bits) {
            Some(result) => {
                sf.push_double(result);
                Ok(())
            },
            None => Err(JvmError::HostCall(function, bits)),
        }
    }

    pub fn execute_static_method(&self, sf: &mut StackFrame, jvm: &mut JVM, method_name: &str) -> (r:
        Result<(), JvmError>)
        ensures
            ends_as(math_static(method_name@, old(sf)@, old(jvm)@), final(sf)@, final(jvm)@, r),
            fails_cleanly(old(sf)@, old(jvm)@, final(sf)@, final(jvm)@, r),
    {
        if same_text(method_name, "sqrt") {
            Self::call_host(HostFunction::Sqrt, sf, jvm)
        } else if same_text(method_name, "log") {
            Self::call_host(HostFunction::Log, sf, jvm)
        } else {
            Err(JvmError::NotImplemented)
        }
    }
}

impl NativeNoSuchFieldErrorClass {
    pub fn get_name(&self) -> (name: String)
        ensures
            name@ == "java/lang/NoSuchFieldError"@,
    {
        "java/lang/NoSuchFieldError".to_owned()
    }
}

impl NativeMethodHandlesLookupClass {
    pub fn get_name(&self) -> (name: String)
        ensures
            name@ == "java/lang/invoke/MethodHandles$Lookup"@,
    {
        "java/lang/invoke/MethodHandles$Lookup".to_owned()
    }
}

impl NativeMethodHandlesClass {
    pub fn get_name(&self) -> (name: String)
        ensures
            name@ == "java/lang/invoke/MethodHandles"@,
    {
        "java/lang/invoke/MethodHandles".to_owned()
    }
}

// The intrinsic classes as one family

/// Reading a static field of an intrinsic class.
pub open spec fn native_read_static(class: JavaClass, field: Seq<char>, j: JvmView) -> Result<
    (ValueView, JvmView),
    JvmError,
> {
    match class {
        JavaClass::System(_) => system_static_field(field, j),
        _ => Err(JvmError::NotImplemented),
    }
}

/// Calling a static method of an intrinsic class. The method takes its
/// arguments from the operand stack of `f` itself.
pub open spec fn native_invoke_static(
    class: JavaClass,
    method: Seq<char>,
    f: FrameView,
    j: JvmView,
) -> CallOutcome {
    match class {
        JavaClass::Object(_) => object_static(method, f, j),
        JavaClass::Integer(_) => integer_static(method, f, j),
        JavaClass::String(_) => string_static(method, f, j),
        JavaClass::Arrays(_) => arrays_static(method, f, j),
        JavaClass::Math(_) => math_static(method, f, j),
        _ => Err(JvmError::NotImplemented),
    }
}

/// Calling an instance method of an intrinsic class on `this` with `args`.
pub open spec fn native_invoke_instance(
    class: JavaClass,
    method: Seq<char>,
    this: ValueView,
    args: Seq<ValueView>,
    f: FrameView,
    j: JvmView,
) -> CallOutcome {
    match class {
        JavaClass::Object(_) => object_method(method, f, j),
        JavaClass::PrintStream(_) => print_stream_method(method, args, f, j),
        JavaClass::String(_) => string_class_method(method, this, args, f, j),
        JavaClass::Arrays(_) => arrays_class_method(method, this, f, j),
        JavaClass::ArrayList(_) => array_list_class_method(method, this, args, f, j),
        JavaClass::List(_) => list_method(method, this, args, f, j),
        JavaClass::Enum(_) => enum_method(method, this, args, f, j),
        _ => Err(JvmError::NotImplemented),
    }
}

/// Reads a static field of an intrinsic class.
pub fn native_get_static_object(class: &JavaClass, field_name: &str, jvm: &mut JVM) -> (r: Result<
    Value,
    JvmError,
>)
    ensures
        reads_as(native_read_static(*class, field_name@, old(jvm)@), final(jvm)@, r),
        r is Err ==> final(jvm)@ == old(jvm)@,
{
    match class {
        JavaClass::System(c) => c.get_static_object(field_name, jvm),
        _ => Err(JvmError::NotImplemented),
    }
}

/// Calls a static method of an intrinsic class.
pub fn native_execute_static_method(
    class: &JavaClass,
    sf: &mut StackFrame,
    jvm: &mut JVM,
    method_name: &str,
) -> (r: Result<(), JvmError>)
    ensures
        ends_as(
            native_invoke_static(*class, method_name@, old(sf)@, old(jvm)@),
            final(sf)@,
            final(jvm)@,
            r,
        ),
        fails_cleanly(old(sf)@, old(jvm)@, final(sf)@, final(jvm)@, r),
{
    match class {
        JavaClass::Object(c) => c.execute_static_method(sf, jvm, method_name),
        JavaClass::Integer(c) => c.execute_static_method(sf, jvm, method_name),
        JavaClass::String(c) => c.execute_static_method(sf, jvm, method_name),
        JavaClass::Arrays(c) => c.execute_static_method(sf, jvm, method_name),
        JavaClass::Math(c) => c.execute_static_method(sf, jvm, method_name),
        _ => Err(JvmError::NotImplemented),
    }
}

/// Calls an instance method of an intrinsic class.
pub fn native_execute_method(
    class: &JavaClass,
    sf: &mut StackFrame,
    jvm: &mut JVM,
    method_name: &str,
    this: Value,
    args: Vec<Value>,
) -> (r: Result<(), JvmError>)
    ensures
        ends_as(
            native_invoke_instance(
                *class,
                method_name@,
                this@,
                values_view(args@),
                old(sf)@,
                old(jvm)@,
            ),
            final(sf)@,
            final(jvm)@,
            r,
        ),
        fails_cleanly(old(sf)@, old(jvm)@, final(sf)@, final(jvm)@, r),
{
    match class {
        JavaClass::Object(c) => c.execute_method(sf, jvm, method_name),
        JavaClass::PrintStream(c) => c.execute_method(sf, jvm, method_name, &args),
        JavaClass::String(c) => c.execute_method(sf, jvm, method_name, this, &args),
        JavaClass::Arrays(c) => c.execute_method(sf, jvm, method_name, this),
        JavaClass::ArrayList(c) => c.execute_method(sf, jvm, method_name, this, &args),
        JavaClass::List(c) => c.execute_method(sf, jvm, method_name, this, &args),
        JavaClass::Enum(c) => c.execute_method(sf, jvm, method_name, this, &args),
        _ => Err(JvmError::NotImplemented),
    }
}

/// The intrinsic classes, in the order in which they are registered.
pub open spec fn native_classes() -> Seq<JavaClass> {
    seq![
        JavaClass::Object(NativeObjectClass {  }),
        JavaClass::PrintStream(NativePrintStreamClass {  }),
        JavaClass::System(NativeSystemClass {  }),
        JavaClass::String(NativeStringClass {  }),
        JavaClass::Integer(NativeIntegerClass {  }),
        JavaClass::Arrays(NativeArraysClass {  }),
        JavaClass::List(NativeListClass {  }),
        JavaClass::ArrayList(NativeArrayListClass {  }),
        JavaClass::Math(NativeMathClass {  }),
        JavaClass::Enum(NativeEnumClass {  }),
        JavaClass::NoSuchFieldError(NativeNoSuchFieldErrorClass {  }),
        JavaClass::MethodHandlesLookup(NativeMethodHandlesLookupClass {  }),
        JavaClass::MethodHandles(NativeMethodHandlesClass {  }),
    ]
}

/// Registers the intrinsic classes after the classes that are there.
pub fn register_native_classes(classes: &mut Classes)
    ensures
        final(classes).classes@ == old(classes).classes@ + native_classes(),
{
    classes.add(JavaClass::Object(NativeObjectClass {  }));
    classes.add(JavaClass::PrintStream(NativePrintStreamClass {  }));
    classes.add(JavaClass::System(NativeSystemClass {  }));
    classes.add(JavaClass::String(NativeStringClass {  }));
    classes.add(JavaClass::Integer(NativeIntegerClass {  }));
    classes.add(JavaClass::Arrays(NativeArraysClass {  }));
    classes.add(JavaClass::List(NativeListClass {  }));
    classes.add(JavaClass::ArrayList(NativeArrayListClass {  }));
    classes.add(JavaClass::Math(NativeMathClass {  }));
    classes.add(JavaClass::Enum(NativeEnumClass {  }));
    classes.add(JavaClass::NoSuchFieldError(NativeNoSuchFieldErrorClass {  }));
    classes.add(JavaClass::MethodHandlesLookup(NativeMethodHandlesLookupClass {  }));
    classes.add(JavaClass::MethodHandles(NativeMethodHandlesClass {  }));
    assert(classes.classes@ =~= old(classes).classes@ + native_classes());
}

} // verus!
