//! Conditional branches: recognition masks, B-format operand extraction and
//! the B-format slice of the catalog.

use vstd::prelude::*;

use crate::vm::common::{InstructionDefinition, Opcode, OperandsFormat};
use crate::vm::rtypes::lemma_reg_field_bounds;

verus! {

pub const MASK_BEQ: u32 = 0x0000707f;
pub const MATCH_BEQ: u32 = 0x00000063;
pub const MASK_BNE: u32 = 0x0000707f;
pub const MATCH_BNE: u32 = 0x00001063;

/// The B-format immediate: bit 31, bit 7 and bit ranges [30:25], [11:8]
/// assembled into bits [12:1] (bit 0 is always zero), then sign-extended
/// from bit 12.
pub open spec fn spec_btype_imm(instruction: u32) -> i32 {
    let imm_11 = ((instruction >> 7) & 0x01) as i32;
    let imm_4_1 = ((instruction >> 8) & 0x0f) as i32;
    let imm_10_5 = ((instruction >> 25) & 0x3f) as i32;
    let imm_12 = ((instruction >> 31) & 0x01) as i32;
    let imm = (imm_12 << 12) | (imm_11 << 11) | (imm_10_5 << 5) | (imm_4_1 << 1);
    if imm & (1 << 12) != 0 {
        imm | ((!0) << 13)
    } else {
        imm
    }
}

/// Fields of a B-format word together with the values read for its source
/// registers.
pub open spec fn spec_extract_btype(instruction: u32, regs: Seq<i32>) -> OperandsFormat {
    let r1 = ((instruction >> 15) & 0x1f) as usize;
    let r2 = ((instruction >> 20) & 0x1f) as usize;
    OperandsFormat::Btype {
        r1,
        r2,
        r1_val: regs[r1 as int],
        r2_val: regs[r2 as int],
        imm: spec_btype_imm(instruction),
    }
}

/// Decode the B-format operand bundle of `instruction` against a snapshot of
/// the register file.
pub fn extract_btype(instruction: u32, registers: &Vec<i32>) -> (r: OperandsFormat)
    requires
        registers@.len() == 32,
    ensures
        r == spec_extract_btype(instruction, registers@),
{
    proof {
        lemma_reg_field_bounds(instruction);
    }
    let imm_11 = ((instruction >> 7) & 0x01) as i32;
    let imm_4_1 = ((instruction >> 8) & 0x0f) as i32;
    let imm_10_5 = ((instruction >> 25) & 0x3f) as i32;
    let imm_12 = ((instruction >> 31) & 0x01) as i32;

    let imm = (imm_12 << 12) | (imm_11 << 11) | (imm_10_5 << 5) | (imm_4_1 << 1);

    let imm = if imm & (1 << 12) != 0 {
        imm | ((!0) << 13)
    } else {
        imm
    };

    let r1 = ((instruction >> 15) & 0x1f) as usize;
    let r2 = ((instruction >> 20) & 0x1f) as usize;

    OperandsFormat::Btype {
        imm,
        r1_val: registers[r1],
        r2_val: registers[r2],
        r1,
        r2,
    }
}

/// The B-format slice of the catalog, as the pipeline's specification sees
/// it.
pub open spec fn btype_list() -> Seq<InstructionDefinition> {
    seq![
        InstructionDefinition { mask: MASK_BEQ, match_val: MATCH_BEQ, opcode: Opcode::Beq },
        InstructionDefinition { mask: MASK_BNE, match_val: MATCH_BNE, opcode: Opcode::Bne },
    ]
}

/// Build the B-format catalog entries, in recognition order.
pub fn btype_definitions() -> (v: Vec<InstructionDefinition>)
    ensures
        v@ == btype_list(),
{
    let mut v: Vec<InstructionDefinition> = Vec::new();
    v.push(InstructionDefinition { mask: MASK_BEQ, match_val: MATCH_BEQ, opcode: Opcode::Beq });
    v.push(InstructionDefinition { mask: MASK_BNE, match_val: MATCH_BNE, opcode: Opcode::Bne });
    proof {
        assert(v@ =~= btype_list());
    }
    v
}

/// Re-assembling a B-format word from its extracted fields restores the
/// original word.
pub proof fn lemma_btype_roundtrip(instruction: u32, regs: Seq<i32>)
    ensures
        spec_extract_btype(instruction, regs) matches OperandsFormat::Btype { r1, r2, imm, .. }
            ==> ((((imm as u32) >> 12) & 0x1) << 31) | ((((imm as u32) >> 5) & 0x3f) << 25)
                | ((((imm as u32) >> 1) & 0xf) << 8) | ((((imm as u32) >> 11) & 0x1) << 7)
                | ((r2 as u32) << 20) | ((r1 as u32) << 15) | (instruction & 0x7000)
                | (instruction & 0x7f) == instruction,
{
    assert({
        let imm_11 = ((instruction >> 7) & 0x01) as i32;
        let imm_4_1 = ((instruction >> 8) & 0x0f) as i32;
        let imm_10_5 = ((instruction >> 25) & 0x3f) as i32;
        let imm_12 = ((instruction >> 31) & 0x01) as i32;
        let raw = (imm_12 << 12) | (imm_11 << 11) | (imm_10_5 << 5) | (imm_4_1 << 1);
        let imm = if raw & (1 << 12) != 0 { raw | ((!0) << 13) } else { raw };
        ((((imm as u32) >> 12) & 0x1) << 31) | ((((imm as u32) >> 5) & 0x3f) << 25)
            | ((((imm as u32) >> 1) & 0xf) << 8) | ((((imm as u32) >> 11) & 0x1) << 7)
            | ((((instruction >> 20) & 0x1f) as usize as u32) << 20)
            | ((((instruction >> 15) & 0x1f) as usize as u32) << 15)
            | (instruction & 0x7000) | (instruction & 0x7f) == instruction
    }) by (bit_vector);
}

} // verus!
