//! Store instructions: recognition mask, S-format operand extraction and the
//! S-format slice of the catalog.

use vstd::prelude::*;

use crate::vm::common::{InstructionDefinition, Opcode, OperandsFormat};
use crate::vm::rtypes::lemma_reg_field_bounds;

verus! {

pub const MASK_SB: u32 = 0x0000707f;
pub const MATCH_SB: u32 = 0x00000023;

/// The S-format immediate: bits [31:25] and [11:7] concatenated, then
/// sign-extended from bit 11.
pub open spec fn spec_stype_imm(instruction: u32) -> i32 {
    let imm_11_5 = ((instruction >> 25) & 0x7f) as i32;
    let imm_4_0 = ((instruction >> 7) & 0x1f) as i32;
    let imm = (imm_11_5 << 5) | imm_4_0;
    (imm << 20) >> 20
}

/// Fields of an S-format word together with the values read for its source
/// registers.
pub open spec fn spec_extract_stype(instruction: u32, regs: Seq<i32>) -> OperandsFormat {
    let r1 = ((instruction >> 15) & 0x1f) as usize;
    let r2 = ((instruction >> 20) & 0x1f) as usize;
    OperandsFormat::Stype {
        r1,
        r2,
        r1_val: regs[r1 as int],
        r2_val: regs[r2 as int],
        imm: spec_stype_imm(instruction),
    }
}

/// Decode the S-format operand bundle of `instruction` against a snapshot of
/// the register file.
pub fn extract_stype(instruction: u32, registers: &Vec<i32>) -> (r: OperandsFormat)
    requires
        registers@.len() == 32,
    ensures
        r == spec_extract_stype(instruction, registers@),
{
    proof {
        lemma_reg_field_bounds(instruction);
    }
    let r1 = ((instruction >> 15) & 0x1f) as usize;
    let r2 = ((instruction >> 20) & 0x1f) as usize;

    let rs1_value = registers[r1];
    let rs2_value = registers[r2];

    let imm_11_5 = ((instruction >> 25) & 0x7f) as i32;
    let imm_4_0 = ((instruction >> 7) & 0x1f) as i32;
    let imm = (imm_11_5 << 5) | imm_4_0;

    let imm = (imm << 20) >> 20;

    OperandsFormat::Stype { r1, r2, r1_val: rs1_value, r2_val: rs2_value, imm }
}

/// The S-format slice of the catalog, as the pipeline's specification sees
/// it.
pub open spec fn stype_list() -> Seq<InstructionDefinition> {
    seq![InstructionDefinition { mask: MASK_SB, match_val: MATCH_SB, opcode: Opcode::Sb }]
}

/// Build the S-format catalog entries.
pub fn stype_definitions() -> (v: Vec<InstructionDefinition>)
    ensures
        v@ == stype_list(),
{
    let mut v: Vec<InstructionDefinition> = Vec::new();
    v.push(InstructionDefinition { mask: MASK_SB, match_val: MATCH_SB, opcode: Opcode::Sb });
    proof {
        assert(v@ =~= stype_list());
    }
    v
}

/// Re-assembling an S-format word from its extracted fields restores the
/// original word.
pub proof fn lemma_stype_roundtrip(instruction: u32, regs: Seq<i32>)
    ensures
        spec_extract_stype(instruction, regs) matches OperandsFormat::Stype { r1, r2, imm, .. }
            ==> ((((imm as u32) >> 5) & 0x7f) << 25) | (((imm as u32) & 0x1f) << 7)
                | ((r2 as u32) << 20) | ((r1 as u32) << 15) | (instruction & 0x7000)
                | (instruction & 0x7f) == instruction,
{
    assert({
        let imm_11_5 = ((instruction >> 25) & 0x7f) as i32;
        let imm_4_0 = ((instruction >> 7) & 0x1f) as i32;
        let imm = (((imm_11_5 << 5) | imm_4_0) << 20) >> 20;
        ((((imm as u32) >> 5) & 0x7f) << 25) | (((imm as u32) & 0x1f) << 7)
            | ((((instruction >> 20) & 0x1f) as usize as u32) << 20)
            | ((((instruction >> 15) & 0x1f) as usize as u32) << 15)
            | (instruction & 0x7000) | (instruction & 0x7f) == instruction
    }) by (bit_vector);
}

} // verus!
