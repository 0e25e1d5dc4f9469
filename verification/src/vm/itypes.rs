//! Register-immediate instructions and loads: recognition masks, I-format
//! operand extraction and the I-format slice of the catalog.

use vstd::prelude::*;

use crate::vm::common::{InstructionDefinition, Opcode, OperandsFormat};
use crate::vm::rtypes::lemma_reg_field_bounds;

verus! {

pub const MASK_ADDI: u32 = 0x0000707f;
pub const MATCH_ADDI: u32 = 0x00000013;
pub const MASK_XORI: u32 = 0x0000707f;
pub const MATCH_XORI: u32 = 0x00004013;
pub const MASK_ORI: u32 = 0x0000707f;
pub const MATCH_ORI: u32 = 0x00006013;
pub const MASK_ANDI: u32 = 0x0000707f;
pub const MATCH_ANDI: u32 = 0x00007013;
pub const MASK_SLLI: u32 = 0xfe00707f;
pub const MATCH_SLLI: u32 = 0x00001013;
pub const MASK_SRLI: u32 = 0xfe00707f;
pub const MATCH_SRLI: u32 = 0x00005013;
pub const MASK_SRAI: u32 = 0xfe00707f;
pub const MATCH_SRAI: u32 = 0x40005013;
pub const MASK_SLTI: u32 = 0x0000707f;
pub const MATCH_SLTI: u32 = 0x00002013;
pub const MASK_SLTIU: u32 = 0x0000707f;
pub const MATCH_SLTIU: u32 = 0x00003013;
pub const MASK_LB: u32 = 0x0000707f;
pub const MATCH_LB: u32 = 0x00000003;
pub const MASK_LH: u32 = 0x0000707f;
pub const MATCH_LH: u32 = 0x00001003;
pub const MASK_LW: u32 = 0x0000707f;
pub const MATCH_LW: u32 = 0x00002003;
pub const MASK_LBU: u32 = 0x0000707f;
pub const MATCH_LBU: u32 = 0x00004003;
pub const MASK_LHU: u32 = 0x0000707f;
pub const MATCH_LHU: u32 = 0x00005003;

/// The I-format immediate: bits [31:20], sign-extended by an arithmetic
/// right shift of the whole word.
pub open spec fn spec_itype_imm(instruction: u32) -> i32 {
    (instruction as i32) >> 20
}

/// Fields of an I-format word together with the value read for its source
/// register.
pub open spec fn spec_extract_itype(instruction: u32, regs: Seq<i32>) -> OperandsFormat {
    let r1 = ((instruction >> 15) & 0x1f) as usize;
    OperandsFormat::Itype {
        rd: ((instruction >> 7) & 0x1f) as usize,
        r1,
        r1_val: regs[r1 as int],
        imm: spec_itype_imm(instruction),
    }
}

/// Decode the I-format operand bundle of `instruction` against a snapshot of
/// the register file.
pub fn extract_itype(instruction: u32, registers: &Vec<i32>) -> (r: OperandsFormat)
    requires
        registers@.len() == 32,
    ensures
        r == spec_extract_itype(instruction, registers@),
{
    proof {
        lemma_reg_field_bounds(instruction);
    }
    let r1 = ((instruction >> 15) & 0x1f) as usize;

    let rs1_value = registers[r1];

    OperandsFormat::Itype {
        rd: ((instruction >> 7) & 0x1f) as usize,
        r1,
        r1_val: rs1_value,
        imm: (instruction as i32) >> 20,
    }
}

/// The I-format slice of the catalog, as the pipeline's specification sees
/// it.
pub open spec fn itype_list() -> Seq<InstructionDefinition> {
    seq![
        InstructionDefinition { mask: MASK_ADDI, match_val: MATCH_ADDI, opcode: Opcode::Addi },
        InstructionDefinition { mask: MASK_XORI, match_val: MATCH_XORI, opcode: Opcode::Xori },
        InstructionDefinition { mask: MASK_ORI, match_val: MATCH_ORI, opcode: Opcode::Ori },
        InstructionDefinition { mask: MASK_ANDI, match_val: MATCH_ANDI, opcode: Opcode::Andi },
        InstructionDefinition { mask: MASK_SLLI, match_val: MATCH_SLLI, opcode: Opcode::Slli },
        InstructionDefinition { mask: MASK_SRLI, match_val: MATCH_SRLI, opcode: Opcode::Srli },
        InstructionDefinition { mask: MASK_SRAI, match_val: MATCH_SRAI, opcode: Opcode::Srai },
        InstructionDefinition { mask: MASK_SLTI, match_val: MATCH_SLTI, opcode: Opcode::Slti },
        InstructionDefinition { mask: MASK_SLTIU, match_val: MATCH_SLTIU, opcode: Opcode::Sltiu },
        InstructionDefinition { mask: MASK_LB, match_val: MATCH_LB, opcode: Opcode::Lb },
        InstructionDefinition { mask: MASK_LH, match_val: MATCH_LH, opcode: Opcode::Lh },
        InstructionDefinition { mask: MASK_LW, match_val: MATCH_LW, opcode: Opcode::Lw },
        InstructionDefinition { mask: MASK_LBU, match_val: MATCH_LBU, opcode: Opcode::Lbu },
        InstructionDefinition { mask: MASK_LHU, match_val: MATCH_LHU, opcode: Opcode::Lhu },
    ]
}

/// Build the I-format catalog entries, in recognition order.
pub fn itype_definitions() -> (v: Vec<InstructionDefinition>)
    ensures
        v@ == itype_list(),
{
    let mut v: Vec<InstructionDefinition> = Vec::new();
    v.push(InstructionDefinition { mask: MASK_ADDI, match_val: MATCH_ADDI, opcode: Opcode::Addi });
    v.push(InstructionDefinition { mask: MASK_XORI, match_val: MATCH_XORI, opcode: Opcode::Xori });
    v.push(InstructionDefinition { mask: MASK_ORI, match_val: MATCH_ORI, opcode: Opcode::Ori });
    v.push(InstructionDefinition { mask: MASK_ANDI, match_val: MATCH_ANDI, opcode: Opcode::Andi });
    v.push(InstructionDefinition { mask: MASK_SLLI, match_val: MATCH_SLLI, opcode: Opcode::Slli });
    v.push(InstructionDefinition { mask: MASK_SRLI, match_val: MATCH_SRLI, opcode: Opcode::Srli });
    v.push(InstructionDefinition { mask: MASK_SRAI, match_val: MATCH_SRAI, opcode: Opcode::Srai });
    v.push(InstructionDefinition { mask: MASK_SLTI, match_val: MATCH_SLTI, opcode: Opcode::Slti });
    v.push(InstructionDefinition { mask: MASK_SLTIU, match_val: MATCH_SLTIU, opcode: Opcode::Sltiu });
    v.push(InstructionDefinition { mask: MASK_LB, match_val: MATCH_LB, opcode: Opcode::Lb });
    v.push(InstructionDefinition { mask: MASK_LH, match_val: MATCH_LH, opcode: Opcode::Lh });
    v.push(InstructionDefinition { mask: MASK_LW, match_val: MATCH_LW, opcode: Opcode::Lw });
    v.push(InstructionDefinition { mask: MASK_LBU, match_val: MATCH_LBU, opcode: Opcode::Lbu });
    v.push(InstructionDefinition { mask: MASK_LHU, match_val: MATCH_LHU, opcode: Opcode::Lhu });
    proof {
        assert(v@ =~= itype_list());
    }
    v
}

/// Re-assembling an I-format word from its extracted fields restores the
/// original word.
pub proof fn lemma_itype_roundtrip(instruction: u32, regs: Seq<i32>)
    ensures
        spec_extract_itype(instruction, regs) matches OperandsFormat::Itype { rd, r1, imm, .. }
            ==> (((imm as u32) & 0xfff) << 20) | ((r1 as u32) << 15) | (instruction & 0x7000)
                | ((rd as u32) << 7) | (instruction & 0x7f) == instruction,
{
    assert(((((instruction as i32) >> 20) as u32 & 0xfff) << 20)
        | ((((instruction >> 15) & 0x1f) as usize as u32) << 15)
        | (instruction & 0x7000)
        | ((((instruction >> 7) & 0x1f) as usize as u32) << 7)
        | (instruction & 0x7f) == instruction) by (bit_vector);
}

} // verus!
