//! Data model shared by the pipeline stages: opcodes, decoded operand
//! bundles, memory-operation descriptors and the four inter-stage latches.

use vstd::prelude::*;

verus! {

/// Every instruction the catalog recognizes.
#[derive(Clone, Copy, Debug, PartialEq, Eq, Structural)]
pub enum Opcode {
    Add,
    Sub,
    Xor,
    Or,
    And,
    Sll,
    Srl,
    Sra,
    Slt,
    Sltu,
    Addi,
    Xori,
    Ori,
    Andi,
    Slli,
    Srli,
    Srai,
    Slti,
    Sltiu,
    Lb,
    Lh,
    Lw,
    Lbu,
    Lhu,
    Sb,
    Beq,
    Bne,
    Lui,
    Auipc,
    Jal,
}

/// Operands of a decoded instruction, in the instruction's native encoding
/// format. Source register indices and the values read for them at decode
/// time are both kept, so the hazard controller can match indices and
/// forwarding can overwrite values.
#[derive(Clone, Copy, Debug)]
pub enum OperandsFormat {
    Rtype { rd: usize, r1: usize, r2: usize, r1_val: i32, r2_val: i32 },
    Itype { rd: usize, r1: usize, r1_val: i32, imm: i32 },
    Stype { r1: usize, r2: usize, r1_val: i32, r2_val: i32, imm: i32 },
    Btype { r1: usize, r2: usize, r1_val: i32, r2_val: i32, imm: i32 },
    Utype { rd: usize, imm: i32 },
    Jtype { rd: usize, imm: i32 },
}

/// One catalog entry. An instruction word is recognized by this entry when
/// `word & mask == match_val`; the opcode then selects the decoder and the
/// executor behaviour.
#[derive(Clone, Copy, Debug)]
pub struct InstructionDefinition {
    pub mask: u32,
    pub match_val: u32,
    pub opcode: Opcode,
}

/// What the execute stage hands onward: the EX/MEM latch contents, whether
/// the two younger in-flight instructions must be flushed, and a control
/// transfer target if the instruction took one.
#[derive(Clone, Copy, Debug)]
pub struct ExecuteResult {
    pub ex_mem: EXMEM,
    pub flush: bool,
    pub new_pc: Option<usize>,
}

/// Access width of a load or store, with signedness of the widening for
/// loads.
#[derive(Clone, Copy, Debug)]
pub enum MemoryRange {
    Byte,
    ByteUnsigned,
    Half,
    HalfUnsigned,
    Word,
}

/// Memory-operation descriptor attached at decode time to loads and stores.
#[derive(Clone, Copy, Debug)]
pub struct MemoryOperation {
    pub is_load: bool,
    pub memory_range: MemoryRange,
}

/// IF/ID latch: the raw fetched word and the address it was fetched from.
#[derive(Clone, Copy, Debug)]
pub struct IFID {
    pub instruction: u32,
    pub address: usize,
}

/// ID/EX latch: the decoded record.
#[derive(Clone, Copy, Debug)]
pub struct IDEX {
    pub opcode: Opcode,
    pub operands: Option<OperandsFormat>,
    pub memory_operation: Option<MemoryOperation>,
    pub address: usize,
}

/// EX/MEM latch: optional destination register, the ALU output or effective
/// address, and the operand bundle and memory descriptor kept alive for the
/// memory stage.
#[derive(Clone, Copy, Debug)]
pub struct EXMEM {
    pub rd: Option<usize>,
    pub calculation_result: i32,
    pub operands: Option<OperandsFormat>,
    pub memory_operation: Option<MemoryOperation>,
}

/// MEM/WB latch: destination register and the value to write back.
#[derive(Clone, Copy, Debug)]
pub struct MEMWB {
    pub rd: usize,
    pub value: i32,
}

/// What the hazard controller tells the decode stage to do: publish the
/// record as decoded, insert a bubble and hold the fetch, or overwrite the
/// decoded source values that read the producer's destination with its
/// result from a later stage. The boolean reports the matched source
/// position, `true` for the first source register; when both sources read
/// the same producer, both receive the forwarded value.
#[derive(Clone, Copy, Debug)]
pub enum HazardAction {
    NoAction,
    Stall,
    ForwardExecute(bool),
    ForwardMemory(bool),
}

/// Hazard mitigation strategy, fixed at machine construction: `Interlock`
/// only ever stalls; `Bypassing` forwards results from the EX/MEM and
/// MEM/WB latches where the data is already available.
#[derive(Clone, Copy, Debug, PartialEq, Eq, Structural)]
pub enum HazardStrategy {
    Interlock,
    Bypassing,
}

/// All register indices carried by an operand bundle name one of the 32
/// architectural registers.
pub open spec fn operands_wf(of: OperandsFormat) -> bool {
    match of {
        OperandsFormat::Rtype { rd, r1, r2, .. } => rd < 32 && r1 < 32 && r2 < 32,
        OperandsFormat::Itype { rd, r1, .. } => rd < 32 && r1 < 32,
        OperandsFormat::Stype { r1, r2, .. } => r1 < 32 && r2 < 32,
        OperandsFormat::Btype { r1, r2, .. } => r1 < 32 && r2 < 32,
        OperandsFormat::Utype { rd, .. } => rd < 32,
        OperandsFormat::Jtype { rd, .. } => rd < 32,
    }
}

/// Register-register ALU opcodes (R format).
pub open spec fn is_r_op(op: Opcode) -> bool {
    ||| op == Opcode::Add
    ||| op == Opcode::Sub
    ||| op == Opcode::Xor
    ||| op == Opcode::Or
    ||| op == Opcode::And
    ||| op == Opcode::Sll
    ||| op == Opcode::Srl
    ||| op == Opcode::Sra
    ||| op == Opcode::Slt
    ||| op == Opcode::Sltu
}

/// Register-immediate ALU opcodes (I format, no memory operation).
pub open spec fn is_i_alu_op(op: Opcode) -> bool {
    ||| op == Opcode::Addi
    ||| op == Opcode::Xori
    ||| op == Opcode::Ori
    ||| op == Opcode::Andi
    ||| op == Opcode::Slli
    ||| op == Opcode::Srli
    ||| op == Opcode::Srai
    ||| op == Opcode::Slti
    ||| op == Opcode::Sltiu
}

/// Load opcodes (I format with a load memory operation).
pub open spec fn is_load_op(op: Opcode) -> bool {
    ||| op == Opcode::Lb
    ||| op == Opcode::Lh
    ||| op == Opcode::Lw
    ||| op == Opcode::Lbu
    ||| op == Opcode::Lhu
}

/// Conditional branch opcodes (B format).
pub open spec fn is_b_op(op: Opcode) -> bool {
    op == Opcode::Beq || op == Opcode::Bne
}

/// Upper-immediate opcodes (U format).
pub open spec fn is_u_op(op: Opcode) -> bool {
    op == Opcode::Lui || op == Opcode::Auipc
}

/// A decoded record is well formed when its operand bundle is present, in
/// the variant its opcode decodes into, and names only real registers.
/// The decode stage establishes this for every record it publishes; the
/// executors rely on it, which is why a format/execute mismatch is
/// unreachable.
pub open spec fn idex_wf(d: IDEX) -> bool {
    match d.operands {
        None => false,
        Some(of) => operands_wf(of) && match of {
            OperandsFormat::Rtype { .. } => is_r_op(d.opcode),
            OperandsFormat::Itype { .. } => is_i_alu_op(d.opcode) || is_load_op(d.opcode),
            OperandsFormat::Stype { .. } => d.opcode == Opcode::Sb,
            OperandsFormat::Btype { .. } => is_b_op(d.opcode),
            OperandsFormat::Utype { .. } => is_u_op(d.opcode),
            OperandsFormat::Jtype { .. } => d.opcode == Opcode::Jal,
        },
    }
}

/// The EX/MEM latch never names a destination outside the register file.
pub open spec fn exmem_wf(e: EXMEM) -> bool {
    match e.rd {
        Some(rd) => rd < 32,
        None => true,
    }
}

/// The MEM/WB latch never names a destination outside the register file.
pub open spec fn memwb_wf(w: MEMWB) -> bool {
    w.rd < 32
}

} // verus!
