//! The failures the machine can report. All of them are fatal to the run that
//! meets them: nothing in the library recovers from one.

use vstd::prelude::*;

verus! {

/// A class file or a code stream that cannot be decoded.
#[derive(Debug, Clone, Copy, PartialEq, Eq)]
pub enum DecodeError {
    /// The buffer ends before the value that is being read.
    Truncated,
    /// The first four bytes are not `CA FE BA BE`.
    BadMagic,
    /// A constant-pool entry starts with a tag that is not known.
    UnknownTag(u8),
    /// The code stream holds an opcode outside the supported set.
    UnknownOpcode(u8),
    /// An index into the constant pool names no entry of the kind asked for.
    UnresolvedReference,
    /// A length-prefixed text is not well-formed UTF-8.
    InvalidUtf8,
    /// A branch leads to a byte offset at which no instruction starts.
    UnknownBranchTarget,
}

/// A symbolic reference that resolves to nothing.
#[derive(Debug, Clone, Copy, PartialEq, Eq)]
pub enum LinkError {
    UnknownClass,
    UnknownMethod,
    UnknownField,
}

/// A violation met while an instruction runs.
#[derive(Debug, Clone, Copy, PartialEq, Eq)]
pub enum RuntimeError {
    /// A value was popped from an empty operand stack.
    StackUnderflow,
    /// A value of another kind than the expected one was found.
    TypeMismatch,
    /// An array was indexed outside `0..len`.
    IndexOutOfBounds,
    /// `idiv` or `irem` with a zero divisor.
    DivisionByZero,
    /// `null` was used where an object is needed.
    NullDereference,
    /// An array was asked for with a negative length.
    NegativeArraySize,
    /// A reference names no object of the heap.
    DanglingReference,
    /// A local variable outside the frame was addressed.
    BadLocal,
    /// The program counter left the instruction sequence.
    PcOutOfRange,
    /// A method descriptor is not of the form `(parameters)result`.
    BadDescriptor,
    /// An intrinsic method was called with fewer arguments than it reads.
    MissingArgument,
    /// A format text holds a conversion other than `%d` and `%s`.
    BadFormat,
    /// A text that is no decimal 32-bit integer was to be read as one.
    NumberFormat,
}

/// A function of `java.lang.Math` that only the host of the machine can
/// compute: the machine holds a double-precision number as its bit pattern
/// and does no arithmetic on it.
#[derive(Debug, Clone, Copy, PartialEq, Eq, Structural)]
pub enum HostFunction {
    /// The square root.
    Sqrt,
    /// The natural logarithm.
    Log,
}

/// Any failure of the machine.
#[derive(Debug, Clone, Copy, PartialEq, Eq)]
pub enum JvmError {
    Decode(DecodeError),
    Link(LinkError),
    Runtime(RuntimeError),
    /// An intrinsic class was asked for an operation it does not model.
    NotImplemented,
    /// The evaluation budget was used up before the method returned.
    OutOfFuel,
    /// The run needs what the function gives for the argument with this bit
    /// pattern, and the machine was not given it. The host computes it, hands
    /// it to the machine and runs the method again.
    HostCall(HostFunction, u64),
}

/// The exit code of a run: 0 where the method returned, 1 where the run
/// failed.
pub fn exit_code(outcome: &Result<(), JvmError>) -> (code: i32)
    ensures
        code == (if outcome is Ok {
            0i32
        } else {
            1i32
        }),
{
    match outcome {
        Ok(()) => 0,
        Err(_) => 1,
    }
}

} // verus!
