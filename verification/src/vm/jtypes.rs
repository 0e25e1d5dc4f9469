//! The unconditional jump: recognition mask, J-format operand extraction and
//! the J-format slice of the catalog.

use vstd::prelude::*;

use crate::vm::common::{InstructionDefinition, Opcode, OperandsFormat};
use crate::vm::rtypes::lemma_reg_field_bounds;

verus! {

pub const MASK_JAL: u32 = 0x0000007f;
pub const MATCH_JAL: u32 = 0x0000006f;

/// The J-format immediate: bit 31, bit ranges [19:12], bit 20 and [30:21]
/// assembled into bits [20:1] (bit 0 is always zero), then sign-extended
/// from bit 20: the assembled value is pushed up so its bit 20 lands on the
/// sign bit, and an arithmetic shift brings it back down.
pub open spec fn spec_jtype_imm(instruction: u32) -> i32 {
    let imm20 = ((instruction >> 31) & 0x1) << 20;
    let imm10_1 = ((instruction >> 21) & 0x3ff) << 1;
    let imm11 = ((instruction >> 20) & 0x1) << 11;
    let imm19_12 = ((instruction >> 12) & 0xff) << 12;
    let raw_imm = imm20 | imm19_12 | imm11 | imm10_1;
    ((raw_imm << 11) as i32) >> 11
}

/// Fields of a J-format word.
pub open spec fn spec_extract_jtype(instruction: u32) -> OperandsFormat {
    OperandsFormat::Jtype {
        rd: ((instruction >> 7) & 0x1f) as usize,
        imm: spec_jtype_imm(instruction),
    }
}

/// Decode the J-format operand bundle of `instruction`.
pub fn extract_jtype(instruction: u32) -> (r: OperandsFormat)
    ensures
        r == spec_extract_jtype(instruction),
{
    proof {
        lemma_reg_field_bounds(instruction);
    }
    let imm20 = ((instruction >> 31) & 0x1) << 20;
    let imm10_1 = ((instruction >> 21) & 0x3ff) << 1;
    let imm11 = ((instruction >> 20) & 0x1) << 11;
    let imm19_12 = ((instruction >> 12) & 0xff) << 12;

    let raw_imm = imm20 | imm19_12 | imm11 | imm10_1;

    let imm = ((raw_imm << 11) as i32) >> 11;

    OperandsFormat::Jtype { rd: ((instruction >> 7) & 0x1f) as usize, imm }
}

/// The J-format slice of the catalog, as the pipeline's specification sees
/// it.
pub open spec fn jtype_list() -> Seq<InstructionDefinition> {
    seq![InstructionDefinition { mask: MASK_JAL, match_val: MATCH_JAL, opcode: Opcode::Jal }]
}

/// Build the J-format catalog entries.
pub fn jtype_definitions() -> (v: Vec<InstructionDefinition>)
    ensures
        v@ == jtype_list(),
{
    let mut v: Vec<InstructionDefinition> = Vec::new();
    v.push(InstructionDefinition { mask: MASK_JAL, match_val: MATCH_JAL, opcode: Opcode::Jal });
    proof {
        assert(v@ =~= jtype_list());
    }
    v
}

/// Re-assembling a J-format word from its extracted fields restores the
/// original word.
pub proof fn lemma_jtype_roundtrip(instruction: u32)
    ensures
        spec_extract_jtype(instruction) matches OperandsFormat::Jtype { rd, imm }
            ==> ((((imm as u32) >> 20) & 0x1) << 31) | ((((imm as u32) >> 1) & 0x3ff) << 21)
                | ((((imm as u32) >> 11) & 0x1) << 20) | ((((imm as u32) >> 12) & 0xff) << 12)
                | ((rd as u32) << 7) | (instruction & 0x7f) == instruction,
{
    assert({
        let raw = (((instruction >> 31) & 0x1) << 20) | (((instruction >> 12) & 0xff) << 12)
            | (((instruction >> 20) & 0x1) << 11) | (((instruction >> 21) & 0x3ff) << 1);
        let imm = ((raw << 11) as i32) >> 11;
        ((((imm as u32) >> 20) & 0x1) << 31) | ((((imm as u32) >> 1) & 0x3ff) << 21)
            | ((((imm as u32) >> 11) & 0x1) << 20) | ((((imm as u32) >> 12) & 0xff) << 12)
            | ((((instruction >> 7) & 0x1f) as usize as u32) << 7)
            | (instruction & 0x7f) == instruction
    }) by (bit_vector);
}

} // verus!
