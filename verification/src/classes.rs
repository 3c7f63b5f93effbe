//! The class registry: every class the machine knows, by name.

use vstd::prelude::*;
use crate::bytecode::ends_as;
use crate::blob::Blob;
use crate::class_file::{class_spec, ClassView};
use crate::errors::{exit_code, JvmError, LinkError};
use crate::java_class::{BytecodeClass, JavaClass};
use crate::jvm::{values_view, FrameView, JvmView, StackFrame, Value, ValueView, JVM};
use crate::semantics::{invoke_static_spec, static_call_output};

verus! {

/// Whether `i` is the first class of `classes` that is called `name`.
pub open spec fn is_first_class(classes: Seq<JavaClass>, name: Seq<char>, i: int) -> bool {
    &&& 0 <= i < classes.len()
    &&& classes[i].name() == name
    &&& forall|k: int| 0 <= k < i ==> (#[trigger] classes[k]).name() != name
}

/// The class that `name` resolves to: the first that was registered under it.
pub open spec fn find_class(classes: Seq<JavaClass>, name: Seq<char>) -> Option<int> {
    if exists|i: int| is_first_class(classes, name, i) {
        Some(choose|i: int| is_first_class(classes, name, i))
    } else {
        None
    }
}

/// There is at most one first class of a name.
pub proof fn lemma_first_class_is_unique(classes: Seq<JavaClass>, name: Seq<char>, i: int, k: int)
    requires
        is_first_class(classes, name, i),
        is_first_class(classes, name, k),
    ensures
        i == k,
{
    if i < k {
        assert(classes[i].name() != name);
    } else if k < i {
        assert(classes[k].name() != name);
    }
}

/// A name resolves to the class at `i` exactly where `i` is the first class of
/// that name.
pub proof fn lemma_find_class(classes: Seq<JavaClass>, name: Seq<char>, i: int)
    ensures
        is_first_class(classes, name, i) <==> find_class(classes, name) == Some(i),
{
    if is_first_class(classes, name, i) {
        let k = choose|k: int| is_first_class(classes, name, k);
        lemma_first_class_is_unique(classes, name, i, k);
    }
}

/// Lookup depends on the name alone: two names with the same characters
/// resolve to the same class of a registry.
pub proof fn lemma_lookup_is_a_function(classes: Seq<JavaClass>, a: Seq<char>, b: Seq<char>)
    requires
        a =~= b,
    ensures
        find_class(classes, a) == find_class(classes, b),
{
}

/// Registration only appends: a name that resolved before a class was added
/// resolves to the same class after.
pub proof fn lemma_registration_keeps_lookups(
    classes: Seq<JavaClass>,
    added: JavaClass,
    name: Seq<char>,
)
    requires
        find_class(classes, name) is Some,
    ensures
        find_class(classes.push(added), name) == find_class(classes, name),
{
    let i = find_class(classes, name)->Some_0;
    lemma_find_class(classes, name, i);
    let after = classes.push(added);
    assert(after[i] == classes[i]);
    assert forall|k: int| 0 <= k < i implies (#[trigger] after[k]).name() != name by {
        assert(after[k] == classes[k]);
    }
    assert(is_first_class(after, name, i));
    lemma_find_class(after, name, i);
}

/// A name that resolved to nothing resolves, after a class of that name was
/// added, to the added class.
pub proof fn lemma_registration_adds_lookup(classes: Seq<JavaClass>, added: JavaClass)
    requires
        find_class(classes, added.name()) is None,
    ensures
        find_class(classes.push(added), added.name()) == Some(classes.len() as int),
{
    let name = added.name();
    let after = classes.push(added);
    let n = classes.len() as int;
    assert forall|k: int| 0 <= k < n implies (#[trigger] after[k]).name() != name by {
        assert(after[k] == classes[k]);
        if classes[k].name() == name {
            lemma_some_class_is_first(classes, name, k);
        }
    }
    assert(is_first_class(after, name, n));
    lemma_find_class(after, name, n);
}

/// Where some class has the name, some class is the first with it.
pub proof fn lemma_some_class_is_first(classes: Seq<JavaClass>, name: Seq<char>, i: int)
    requires
        0 <= i < classes.len(),
        classes[i].name() == name,
    ensures
        find_class(classes, name) is Some,
        find_class(classes, name)->Some_0 <= i,
    decreases i,
{
    if forall|k: int| 0 <= k < i ==> (#[trigger] classes[k]).name() != name {
        assert(is_first_class(classes, name, i));
        lemma_find_class(classes, name, i);
    } else {
        let k = choose|k: int| 0 <= k < i && (#[trigger] classes[k]).name() == name;
        lemma_some_class_is_first(classes, name, k);
    }
}

/// Calling the static method `method` of the class that `class_name`
/// resolves to.
pub open spec fn invoke_by_name(
    classes: Seq<JavaClass>,
    class_name: Seq<char>,
    method: Seq<char>,
    arity: nat,
    f: FrameView,
    j: JvmView,
    fuel: nat,
) -> Result<(FrameView, JvmView), JvmError> {
    match find_class(classes, class_name) {
        None => Err(JvmError::Link(LinkError::UnknownClass)),
        Some(c) => invoke_static_spec(classes, classes[c], method, arity, f, j, fuel),
    }
}

/// The text on standard output after the static method `method` of the class
/// that `class_name` resolves to was called, whether it has returned or
/// failed.
pub open spec fn output_by_name(
    classes: Seq<JavaClass>,
    class_name: Seq<char>,
    method: Seq<char>,
    arity: nat,
    f: FrameView,
    j: JvmView,
    fuel: nat,
) -> Seq<char> {
    match find_class(classes, class_name) {
        None => j.out,
        Some(c) => static_call_output(classes, classes[c], method, arity, f, j, fuel),
    }
}

/// A whole run: the static method `method` of the class `class_name` is
/// called on a new frame that holds `args` on its operand stack. What counts
/// of the outcome is the machine after the run.
pub open spec fn run_program(
    classes: Seq<JavaClass>,
    class_name: Seq<char>,
    method: Seq<char>,
    args: Seq<ValueView>,
    j: JvmView,
    fuel: nat,
) -> Result<JvmView, JvmError> {
    match invoke_by_name(
        classes,
        class_name,
        method,
        args.len(),
        FrameView { stack: args, ..FrameView::empty() },
        j,
        fuel,
    ) {
        Ok((f, j1)) => Ok(j1),
        Err(e) => Err(e),
    }
}

/// Whether `after` is `before` with one more class at its end, the compiled
/// class `class`.
pub open spec fn registers(before: Seq<JavaClass>, after: Seq<JavaClass>, class: ClassView) -> bool {
    &&& after.len() == before.len() + 1
    &&& after.drop_last() == before
    &&& after.last() matches JavaClass::Bytecode(added)
    &&& added@ == class
}

/// The registry: the classes in the order in which they were registered.
pub struct Classes {
    pub classes: Vec<JavaClass>,
}

impl Classes {
    /// An empty registry.
    pub fn new() -> (classes: Classes)
        ensures
            classes.classes@.len() == 0,
    {
        Classes { classes: Vec::new() }
    }

    /// Registers `class` after the classes that are there.
    pub fn add(&mut self, class: JavaClass)
        ensures
            final(self).classes@ == old(self).classes@.push(class),
    {
        self.classes.push(class);
    }

    /// Decodes the class file that `data` holds and registers the class after
    /// the classes that are there. A file that cannot be decoded leaves the
    /// registry as it is.
    pub fn load(&mut self, data: &mut Blob) -> (r: Result<(), JvmError>)
        ensures
            final(data)@.bytes == old(data)@.bytes,
            match class_spec(old(data)@.bytes) {
                Ok(class) => r is Ok && registers(old(self).classes@, final(self).classes@, class),
                Err(cause) => r == Err::<(), JvmError>(JvmError::Decode(cause))
                    && final(self).classes@ == old(self).classes@,
            },
    {
        match BytecodeClass::new(data) {
            Ok(class) => {
                self.add(JavaClass::Bytecode(class));
                assert(self.classes@.drop_last() =~= old(self).classes@);
                Ok(())
            },
            Err(e) => Err(JvmError::Decode(e)),
        }
    }

    /// The class that `name` resolves to, or `None` where no class of that
    /// name was registered.
    pub fn get_class(&self, name: &str) -> (r: Option<&JavaClass>)
        ensures
            match r {
                Some(class) => find_class(self.classes@, name@) is Some && self.classes@[find_class(
                    self.classes@,
                    name@,
                )->Some_0] == *class,
                None => find_class(self.classes@, name@) is None,
            },
    {
        let mut i: usize = 0;
        while i < self.classes.len()
            invariant
                i <= self.classes.len(),
                forall|k: int| 0 <= k < i ==> (#[trigger] self.classes@[k]).name() != name@,
            decreases self.classes.len() - i,
        {
            if self.classes[i].has_name(name) {
                proof {
                    lemma_find_class(self.classes@, name@, i as int);
                }
                return Some(&self.classes[i]);
            }
            i += 1;
        }
        None
    }

    /// Calls the static method `method_name` of the class `class_name`: the
    /// entry point of a run. A compiled method is handed the `nb_args`
    /// topmost values of the operand stack of `sf`; an intrinsic method
    /// takes what it reads from that stack itself. What the method returns
    /// is left on the stack.
    pub fn invoke_static(
        &self,
        class_name: &str,
        method_name: &str,
        nb_args: usize,
        sf: &mut StackFrame,
        jvm: &mut JVM,
        fuel: u64,
    ) -> (r: Result<(), JvmError>)
        ensures
            ends_as(
                invoke_by_name(
                    self.classes@,
                    class_name@,
                    method_name@,
                    nb_args as nat,
                    old(sf)@,
                    old(jvm)@,
                    fuel as nat,
                ),
                final(sf)@,
                final(jvm)@,
                r,
            ),
            final(jvm)@.out == output_by_name(
                self.classes@,
                class_name@,
                method_name@,
                nb_args as nat,
                old(sf)@,
                old(jvm)@,
                fuel as nat,
            ),
    {
        match self.get_class(class_name) {
            None => Err(JvmError::Link(LinkError::UnknownClass)),
            Some(class) => class.execute_static_method(sf, jvm, self, method_name, nb_args, fuel),
        }
    }

    /// Runs the static method `method_name` of the class `class_name` with
    /// the arguments `args` and returns the exit code of the run: 0 where the
    /// method returned, 1 where the run failed. After a failure the machine
    /// is unspecified but for the text on standard output, which is what the
    /// run wrote before it failed.
    pub fn run(
        &self,
        class_name: &str,
        method_name: &str,
        args: Vec<Value>,
        jvm: &mut JVM,
        fuel: u64,
    ) -> (code: i32)
        ensures
            match run_program(
                self.classes@,
                class_name@,
                method_name@,
                values_view(args@),
                old(jvm)@,
                fuel as nat,
            ) {
                Ok(j) => code == 0 && final(jvm)@ == j,
                Err(_) => code == 1,
            },
            final(jvm)@.out == output_by_name(
                self.classes@,
                class_name@,
                method_name@,
                args@.len(),
                FrameView { stack: values_view(args@), ..FrameView::empty() },
                old(jvm)@,
                fuel as nat,
            ),
    {
        let nb_args: usize = args.len();
        let mut sf = StackFrame::empty();
        let mut args = args;
        let ghost given = values_view(args@);
        sf.stack.append(&mut args);
        assert(sf@.stack =~= given);
        let outcome = self.invoke_static(class_name, method_name, nb_args, &mut sf, jvm, fuel);
        exit_code(&outcome)
    }
}

} // verus!
