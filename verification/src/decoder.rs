//! What decoding a code stream means: the instruction that starts at a byte
//! offset, the sequence of all of them, the map from byte offsets to
//! instruction indices, and the relocation of branch targets.

use vstd::prelude::*;
use crate::blob::{be16, in_bounds};
use crate::bytecode::{relocate_spec, Instr};
use crate::errors::DecodeError;
use crate::java_class::{ConstantClass, ConstantField, ConstantMethod, ConstantStringRef};

verus! {

/// A resolved reference to a field or to a method: the class that owns it,
/// its name and its type descriptor.
pub struct MemberRef {
    pub class_name: Seq<char>,
    pub name: Seq<char>,
    pub type_desc: Seq<char>,
}

/// The entries of a constant pool that instructions refer to, by index.
pub struct Pool {
    /// The names of the classes.
    pub classes: Map<usize, Seq<char>>,
    /// The texts of the string constants.
    pub string_refs: Map<usize, Seq<char>>,
    pub methods: Map<usize, MemberRef>,
    pub fields: Map<usize, MemberRef>,
}

/// The pool that the resolved records of a constant pool stand for.
pub open spec fn pool_view(
    classes: Map<usize, ConstantClass>,
    string_refs: Map<usize, ConstantStringRef>,
    methods: Map<usize, ConstantMethod>,
    fields: Map<usize, ConstantField>,
) -> Pool {
    Pool {
        classes: Map::new(|i: usize| classes.contains_key(i), |i: usize| classes[i].name@),
        string_refs: Map::new(
            |i: usize| string_refs.contains_key(i),
            |i: usize| string_refs[i].value@,
        ),
        methods: Map::new(
            |i: usize| methods.contains_key(i),
            |i: usize|
                MemberRef {
                    class_name: methods[i].class_name@,
                    name: methods[i].method_name@,
                    type_desc: methods[i].type_desc@,
                },
        ),
        fields: Map::new(
            |i: usize| fields.contains_key(i),
            |i: usize|
                MemberRef {
                    class_name: fields[i].class_name@,
                    name: fields[i].field_name@,
                    type_desc: fields[i].type_desc@,
                },
        ),
    }
}

/// The instruction of an opcode that has no operand.
pub open spec fn plain_instr(opcode: u8) -> Option<Instr> {
    if opcode == 0x03 {
        Some(Instr::IConst0)
    } else if opcode == 0x04 {
        Some(Instr::IConst1)
    } else if opcode == 0x05 {
        Some(Instr::IConst2)
    } else if opcode == 0x1b {
        Some(Instr::ILoad1)
    } else if opcode == 0x1c {
        Some(Instr::ILoad2)
    } else if opcode == 0x2a {
        Some(Instr::ALoad0)
    } else if opcode == 0x32 {
        Some(Instr::AALoad)
    } else if opcode == 0x3c {
        Some(Instr::IStore1)
    } else if opcode == 0x3d {
        Some(Instr::IStore2)
    } else if opcode == 0x53 {
        Some(Instr::AAStore)
    } else if opcode == 0x59 {
        Some(Instr::Dup)
    } else if opcode == 0x60 {
        Some(Instr::IAdd)
    } else if opcode == 0x64 {
        Some(Instr::ISub)
    } else if opcode == 0x6c {
        Some(Instr::IDiv)
    } else if opcode == 0x70 {
        Some(Instr::IRem)
    } else if opcode == 0x78 {
        Some(Instr::IShl)
    } else if opcode == 0x79 {
        Some(Instr::LShl)
    } else if opcode == 0x7a {
        Some(Instr::IShr)
    } else if opcode == 0x7b {
        Some(Instr::LShr)
    } else if opcode == 0xb1 {
        Some(Instr::Return)
    } else {
        None
    }
}

/// The value of a 16-bit operand read as a signed number.
pub open spec fn signed16(v: int) -> int {
    if v >= 0x8000 {
        v - 0x1_0000
    } else {
        v
    }
}

/// The byte offset that a branch at `at` with the operand `operand` leads to,
/// where that is an offset at all.
pub open spec fn branch_target(at: int, operand: int) -> Result<usize, DecodeError> {
    let target = at + signed16(operand);
    if 0 <= target <= usize::MAX {
        Ok(target as usize)
    } else {
        Err(DecodeError::UnknownBranchTarget)
    }
}

/// The instruction of an opcode with a 16-bit operand.
pub open spec fn wide_instr(opcode: u8, at: int, operand: int, pool: Pool) -> Result<
    Instr,
    DecodeError,
> {
    let index = operand as usize;
    if opcode == 0x9a {
        match branch_target(at, operand) {
            Ok(target) => Ok(Instr::Ifne(target)),
            Err(e) => Err(e),
        }
    } else if opcode == 0xa7 {
        match branch_target(at, operand) {
            Ok(target) => Ok(Instr::Goto(target)),
            Err(e) => Err(e),
        }
    } else if opcode == 0xb2 {
        if pool.fields.contains_key(index) {
            Ok(
                Instr::GetStatic {
                    class_name: pool.fields[index].class_name,
                    field_name: pool.fields[index].name,
                    type_desc: pool.fields[index].type_desc,
                },
            )
        } else {
            Err(DecodeError::UnresolvedReference)
        }
    } else if opcode == 0xb6 || opcode == 0xb7 || opcode == 0xb8 {
        if pool.methods.contains_key(index) {
            let class_name = pool.methods[index].class_name;
            let method_name = pool.methods[index].name;
            let type_desc = pool.methods[index].type_desc;
            if opcode == 0xb6 {
                Ok(Instr::InvokeVirtual { class_name, method_name, type_desc })
            } else if opcode == 0xb7 {
                Ok(Instr::InvokeSpecial { class_name, method_name, type_desc })
            } else {
                Ok(Instr::InvokeStatic { class_name, method_name, type_desc })
            }
        } else {
            Err(DecodeError::UnresolvedReference)
        }
    } else if opcode == 0xbd {
        if pool.classes.contains_key(index) {
            Ok(Instr::ANewArray(pool.classes[index]))
        } else {
            Err(DecodeError::UnresolvedReference)
        }
    } else {
        Err(DecodeError::UnknownOpcode(opcode))
    }
}

/// Whether the opcode has a 16-bit operand.
pub open spec fn is_wide(opcode: u8) -> bool {
    opcode == 0x9a || opcode == 0xa7 || opcode == 0xb2 || opcode == 0xb6 || opcode == 0xb7
        || opcode == 0xb8 || opcode == 0xbd
}

/// Number of bytes that an instruction takes in the code stream.
pub open spec fn length_of(i: Instr) -> int {
    match i {
        Instr::Ldc(_) => 2,
        Instr::Ifne(_) | Instr::Goto(_) | Instr::ANewArray(_) => 3,
        Instr::GetStatic { .. } | Instr::InvokeVirtual { .. } | Instr::InvokeSpecial { .. }
        | Instr::InvokeStatic { .. } => 3,
        _ => 1,
    }
}

/// The instruction that starts at byte `at` of `code`. Branch targets are
/// byte offsets here.
pub open spec fn decode_at(code: Seq<u8>, at: int, pool: Pool) -> Result<Instr, DecodeError> {
    if !in_bounds(code, at, 1) {
        Err(DecodeError::Truncated)
    } else if plain_instr(code[at]) is Some {
        Ok(plain_instr(code[at])->Some_0)
    } else if code[at] == 0x12 {
        if !in_bounds(code, at + 1, 1) {
            Err(DecodeError::Truncated)
        } else if pool.string_refs.contains_key(code[at + 1] as usize) {
            Ok(Instr::Ldc(pool.string_refs[code[at + 1] as usize]))
        } else {
            Err(DecodeError::UnresolvedReference)
        }
    } else if is_wide(code[at]) {
        if !in_bounds(code, at + 1, 2) {
            Err(DecodeError::Truncated)
        } else {
            wide_instr(code[at], at, be16(code, at + 1), pool)
        }
    } else {
        Err(DecodeError::UnknownOpcode(code[at]))
    }
}

/// The instructions from byte `at` to the end of `code`, each with the byte
/// offset at which it starts.
pub open spec fn decode_all(code: Seq<u8>, at: int, pool: Pool) -> Result<
    Seq<(usize, Instr)>,
    DecodeError,
>
    decreases code.len() - at,
{
    if at < 0 || at >= code.len() {
        Ok(Seq::empty())
    } else {
        match decode_at(code, at, pool) {
            Err(e) => Err(e),
            Ok(i) => match decode_all(code, at + length_of(i), pool) {
                Err(e) => Err(e),
                Ok(rest) => Ok(seq![(at as usize, i)] + rest),
            },
        }
    }
}

/// `decoded` put in front of what the rest of the stream decodes to.
pub open spec fn prepend(
    decoded: Seq<(usize, Instr)>,
    rest: Result<Seq<(usize, Instr)>, DecodeError>,
) -> Result<Seq<(usize, Instr)>, DecodeError> {
    match rest {
        Ok(rest) => Ok(decoded + rest),
        Err(e) => Err(e),
    }
}

/// The instructions of a decoded stream, without their offsets.
pub open spec fn instrs_of(decoded: Seq<(usize, Instr)>) -> Seq<Instr> {
    decoded.map_values(|p: (usize, Instr)| p.1)
}

/// The address map of a decoded stream: the byte offset of each instruction
/// leads to the index of that instruction.
pub open spec fn address_map_of(decoded: Seq<(usize, Instr)>) -> Map<usize, usize>
    decreases decoded.len(),
{
    if decoded.len() == 0 {
        Map::empty()
    } else {
        address_map_of(decoded.drop_last()).insert(
            decoded.last().0,
            (decoded.len() - 1) as usize,
        )
    }
}

/// The instructions with every branch target replaced by the index that the
/// address map gives for it; a target that the map does not hold is an error.
pub open spec fn relocate_all(instrs: Seq<Instr>, address_map: Map<usize, usize>) -> Result<
    Seq<Instr>,
    DecodeError,
> {
    if forall|k: int| 0 <= k < instrs.len() ==> (#[trigger] relocate_spec(instrs[k], address_map))
        is Ok {
        Ok(Seq::new(instrs.len(), |k: int| relocate_spec(instrs[k], address_map)->Ok_0))
    } else {
        Err(DecodeError::UnknownBranchTarget)
    }
}

/// A decoded method as its contracts see it.
pub struct ByteCodeView {
    pub instructions: Seq<Instr>,
    pub address_map: Map<usize, usize>,
}

/// What a code stream decodes to: its instructions, with branch targets as
/// instruction indices, and its address map.
pub open spec fn decode_spec(code: Seq<u8>, pool: Pool) -> Result<ByteCodeView, DecodeError> {
    match decode_all(code, 0, pool) {
        Err(e) => Err(e),
        Ok(decoded) => match relocate_all(instrs_of(decoded), address_map_of(decoded)) {
            Err(e) => Err(e),
            Ok(instructions) => Ok(
                ByteCodeView { instructions, address_map: address_map_of(decoded) },
            ),
        },
    }
}

/// The index that a branch of `i` leads to, where `i` is a branch.
pub open spec fn target_of(i: Instr) -> Option<usize> {
    match i {
        Instr::Ifne(target) => Some(target),
        Instr::Goto(target) => Some(target),
        _ => None,
    }
}

/// Whether every branch leads to an instruction of the sequence.
pub open spec fn branches_resolve(instructions: Seq<Instr>) -> bool {
    forall|k: int|
        0 <= k < instructions.len() && (#[trigger] target_of(instructions[k])) is Some
            ==> target_of(instructions[k])->Some_0 < instructions.len()
}

/// The address map leads to indices of the decoded sequence only.
pub proof fn lemma_address_map_in_range(decoded: Seq<(usize, Instr)>, offset: usize)
    requires
        address_map_of(decoded).contains_key(offset),
    ensures
        address_map_of(decoded)[offset] < decoded.len(),
    decreases decoded.len(),
{
    if decoded.len() > 0 && decoded.last().0 != offset {
        lemma_address_map_in_range(decoded.drop_last(), offset);
    }
}

/// After relocation every branch target is the index of an instruction of
/// the method: `0 <= target < len`.
pub proof fn lemma_relocated_branches_resolve(code: Seq<u8>, pool: Pool)
    requires
        decode_spec(code, pool) is Ok,
    ensures
        branches_resolve(decode_spec(code, pool)->Ok_0.instructions),
{
    let decoded = decode_all(code, 0, pool)->Ok_0;
    let raw = instrs_of(decoded);
    let map = address_map_of(decoded);
    let instructions = decode_spec(code, pool)->Ok_0.instructions;
    assert forall|k: int|
        0 <= k < instructions.len() && (#[trigger] target_of(
            instructions[k],
        )) is Some implies target_of(instructions[k])->Some_0 < instructions.len() by {
        assert(relocate_spec(raw[k], map) is Ok);
        match raw[k] {
            Instr::Ifne(offset) => {
                lemma_address_map_in_range(decoded, offset);
            },
            Instr::Goto(offset) => {
                lemma_address_map_in_range(decoded, offset);
            },
            _ => {},
        }
    }
}

/// Decoding is a function of the code stream and the constant pool: two
/// decodings of the same method have the same instructions and the same
/// address map.
pub proof fn lemma_decoding_is_deterministic(
    code: Seq<u8>,
    pool: Pool,
    first: ByteCodeView,
    second: ByteCodeView,
)
    requires
        decode_spec(code, pool) == Ok::<ByteCodeView, DecodeError>(first),
        decode_spec(code, pool) == Ok::<ByteCodeView, DecodeError>(second),
    ensures
        first.instructions == second.instructions,
        first.address_map == second.address_map,
{
}

} // verus!
