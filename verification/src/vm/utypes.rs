//! Upper-immediate instructions: recognition masks, U-format operand
//! extraction and the U-format slice of the catalog.

use vstd::prelude::*;

use crate::vm::common::{InstructionDefinition, Opcode, OperandsFormat};
use crate::vm::rtypes::lemma_reg_field_bounds;

verus! {

pub const MASK_LUI: u32 = 0x0000007f;
pub const MATCH_LUI: u32 = 0x00000037;
pub const MASK_AUIPC: u32 = 0x0000007f;
pub const MATCH_AUIPC: u32 = 0x00000017;

/// The U-format immediate: bits [31:12], unshifted; the executor applies the
/// shift by 12.
pub open spec fn spec_utype_imm(instruction: u32) -> i32 {
    (instruction >> 12) as i32
}

/// Fields of a U-format word.
pub open spec fn spec_extract_utype(instruction: u32) -> OperandsFormat {
    OperandsFormat::Utype {
        rd: ((instruction >> 7) & 0x1f) as usize,
        imm: spec_utype_imm(instruction),
    }
}

/// Decode the U-format operand bundle of `instruction`.
pub fn extract_utype(instruction: u32) -> (r: OperandsFormat)
    ensures
        r == spec_extract_utype(instruction),
{
    proof {
        lemma_reg_field_bounds(instruction);
        assert(instruction >> 12 <= 0xfffff) by (bit_vector);
    }
    OperandsFormat::Utype {
        rd: ((instruction >> 7) & 0x1f) as usize,
        imm: (instruction >> 12) as i32,
    }
}

/// The U-format slice of the catalog, as the pipeline's specification sees
/// it.
pub open spec fn utype_list() -> Seq<InstructionDefinition> {
    seq![
        InstructionDefinition { mask: MASK_LUI, match_val: MATCH_LUI, opcode: Opcode::Lui },
        InstructionDefinition { mask: MASK_AUIPC, match_val: MATCH_AUIPC, opcode: Opcode::Auipc },
    ]
}

/// Build the U-format catalog entries, in recognition order.
pub fn utype_definitions() -> (v: Vec<InstructionDefinition>)
    ensures
        v@ == utype_list(),
{
    let mut v: Vec<InstructionDefinition> = Vec::new();
    v.push(InstructionDefinition { mask: MASK_LUI, match_val: MATCH_LUI, opcode: Opcode::Lui });
    v.push(InstructionDefinition { mask: MASK_AUIPC, match_val: MATCH_AUIPC, opcode: Opcode::Auipc });
    proof {
        assert(v@ =~= utype_list());
    }
    v
}

/// Re-assembling a U-format word from its extracted fields restores the
/// original word.
pub proof fn lemma_utype_roundtrip(instruction: u32)
    ensures
        spec_extract_utype(instruction) matches OperandsFormat::Utype { rd, imm }
            ==> ((imm as u32) << 12) | ((rd as u32) << 7) | (instruction & 0x7f) == instruction,
{
    assert((((instruction >> 12) as i32 as u32) << 12)
        | ((((instruction >> 7) & 0x1f) as usize as u32) << 7)
        | (instruction & 0x7f) == instruction) by (bit_vector);
}

} // verus!
