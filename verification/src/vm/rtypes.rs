//! Register-register instructions: recognition masks, operand extraction and
//! the R-format slice of the catalog.

use vstd::prelude::*;

use crate::vm::common::{InstructionDefinition, Opcode, OperandsFormat};

verus! {

pub const MASK_ADD: u32 = 0xfe00707f;
pub const MATCH_ADD: u32 = 0x00000033;
pub const MASK_SUB: u32 = 0xfe00707f;
pub const MATCH_SUB: u32 = 0x40000033;
pub const MASK_XOR: u32 = 0xfe00707f;
pub const MATCH_XOR: u32 = 0x00004033;
pub const MASK_OR: u32 = 0xfe00707f;
pub const MATCH_OR: u32 = 0x00006033;
pub const MASK_AND: u32 = 0xfe00707f;
pub const MATCH_AND: u32 = 0x00007033;
pub const MASK_SLL: u32 = 0xfe00707f;
pub const MATCH_SLL: u32 = 0x00001033;
pub const MASK_SRL: u32 = 0xfe00707f;
pub const MATCH_SRL: u32 = 0x00005033;
pub const MASK_SRA: u32 = 0xfe00707f;
pub const MATCH_SRA: u32 = 0x40005033;
pub const MASK_SLT: u32 = 0xfe00707f;
pub const MATCH_SLT: u32 = 0x00002033;
pub const MASK_SLTU: u32 = 0xfe00707f;
pub const MATCH_SLTU: u32 = 0x00003033;

/// Destination and source register fields of an R-format word.
pub open spec fn spec_extract_rtype(instruction: u32, regs: Seq<i32>) -> OperandsFormat {
    let r1 = ((instruction >> 15) & 0x1f) as usize;
    let r2 = ((instruction >> 20) & 0x1f) as usize;
    OperandsFormat::Rtype {
        rd: ((instruction >> 7) & 0x1f) as usize,
        r1,
        r2,
        r1_val: regs[r1 as int],
        r2_val: regs[r2 as int],
    }
}

/// The three register fields of an instruction word always lie below 32.
pub proof fn lemma_reg_field_bounds(instruction: u32)
    by (bit_vector)
    ensures
        (instruction >> 7) & 0x1f < 32,
        (instruction >> 15) & 0x1f < 32,
        (instruction >> 20) & 0x1f < 32,
{
}

/// Decode the R-format operand bundle of `instruction` against a snapshot of
/// the register file.
pub fn extract_rtype(instruction: u32, registers: &Vec<i32>) -> (r: OperandsFormat)
    requires
        registers@.len() == 32,
    ensures
        r == spec_extract_rtype(instruction, registers@),
{
    proof {
        lemma_reg_field_bounds(instruction);
    }
    let r1 = ((instruction >> 15) & 0x1f) as usize;
    let r2 = ((instruction >> 20) & 0x1f) as usize;

    let rs1_value = registers[r1];
    let rs2_value = registers[r2];

    OperandsFormat::Rtype {
        rd: ((instruction >> 7) & 0x1f) as usize,
        r1,
        r2,
        r1_val: rs1_value,
        r2_val: rs2_value,
    }
}

/// The R-format slice of the catalog, as the pipeline's specification sees
/// it.
pub open spec fn rtype_list() -> Seq<InstructionDefinition> {
    seq![
        InstructionDefinition { mask: MASK_ADD, match_val: MATCH_ADD, opcode: Opcode::Add },
        InstructionDefinition { mask: MASK_SUB, match_val: MATCH_SUB, opcode: Opcode::Sub },
        InstructionDefinition { mask: MASK_XOR, match_val: MATCH_XOR, opcode: Opcode::Xor },
        InstructionDefinition { mask: MASK_OR, match_val: MATCH_OR, opcode: Opcode::Or },
        InstructionDefinition { mask: MASK_AND, match_val: MATCH_AND, opcode: Opcode::And },
        InstructionDefinition { mask: MASK_SLL, match_val: MATCH_SLL, opcode: Opcode::Sll },
        InstructionDefinition { mask: MASK_SRL, match_val: MATCH_SRL, opcode: Opcode::Srl },
        InstructionDefinition { mask: MASK_SRA, match_val: MATCH_SRA, opcode: Opcode::Sra },
        InstructionDefinition { mask: MASK_SLT, match_val: MATCH_SLT, opcode: Opcode::Slt },
        InstructionDefinition { mask: MASK_SLTU, match_val: MATCH_SLTU, opcode: Opcode::Sltu },
    ]
}

/// Build the R-format catalog entries, in recognition order.
pub fn rtype_definitions() -> (v: Vec<InstructionDefinition>)
    ensures
        v@ == rtype_list(),
{
    let mut v: Vec<InstructionDefinition> = Vec::new();
    v.push(InstructionDefinition { mask: MASK_ADD, match_val: MATCH_ADD, opcode: Opcode::Add });
    v.push(InstructionDefinition { mask: MASK_SUB, match_val: MATCH_SUB, opcode: Opcode::Sub });
    v.push(InstructionDefinition { mask: MASK_XOR, match_val: MATCH_XOR, opcode: Opcode::Xor });
    v.push(InstructionDefinition { mask: MASK_OR, match_val: MATCH_OR, opcode: Opcode::Or });
    v.push(InstructionDefinition { mask: MASK_AND, match_val: MATCH_AND, opcode: Opcode::And });
    v.push(InstructionDefinition { mask: MASK_SLL, match_val: MATCH_SLL, opcode: Opcode::Sll });
    v.push(InstructionDefinition { mask: MASK_SRL, match_val: MATCH_SRL, opcode: Opcode::Srl });
    v.push(InstructionDefinition { mask: MASK_SRA, match_val: MATCH_SRA, opcode: Opcode::Sra });
    v.push(InstructionDefinition { mask: MASK_SLT, match_val: MATCH_SLT, opcode: Opcode::Slt });
    v.push(InstructionDefinition { mask: MASK_SLTU, match_val: MATCH_SLTU, opcode: Opcode::Sltu });
    proof {
        assert(v@ =~= rtype_list());
    }
    v
}

/// Re-assembling an R-format word from its extracted register fields and its
/// recognition bits restores the original word.
pub proof fn lemma_rtype_roundtrip(instruction: u32, regs: Seq<i32>)
    ensures
        spec_extract_rtype(instruction, regs) matches OperandsFormat::Rtype { rd, r1, r2, .. }
            ==> ((rd as u32) << 7) | ((r1 as u32) << 15) | ((r2 as u32) << 20)
                | (instruction & 0xfe00707f) == instruction,
{
    assert(((((instruction >> 7) & 0x1f) as usize as u32) << 7)
        | ((((instruction >> 15) & 0x1f) as usize as u32) << 15)
        | ((((instruction >> 20) & 0x1f) as usize as u32) << 20)
        | (instruction & 0xfe00707f) == instruction) by (bit_vector);
}

} // verus!
