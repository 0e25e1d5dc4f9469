//! Mathematical model of the machine: an abstract state and one transition
//! function per pipeline stage. The executable stages in `vm::vm` are each
//! proved to realize their transition function exactly, so the behaviour of
//! `step`, `step_no_pipeline` and `run` is pinned down by the functions in
//! this module.

use vstd::prelude::*;

use crate::vm::btypes::{btype_list, spec_extract_btype};
use crate::vm::common::{
    EXMEM, ExecuteResult, HazardAction, HazardStrategy, IDEX, IFID, InstructionDefinition, MEMWB,
    MemoryOperation, MemoryRange, Opcode, OperandsFormat, exmem_wf, idex_wf, is_b_op, is_i_alu_op,
    is_load_op, is_r_op, is_u_op, memwb_wf,
};
use crate::vm::itypes::{itype_list, spec_extract_itype};
use crate::vm::jtypes::{jtype_list, spec_extract_jtype};
use crate::vm::rtypes::{rtype_list, spec_extract_rtype};
use crate::vm::stypes::{spec_extract_stype, stype_list};
use crate::vm::utypes::{spec_extract_utype, utype_list};

verus! {

/// Abstract machine state: architectural state (register file, memory,
/// program counter, cycle counter), the four pipeline latches, the stall
/// flag of the fetch stage, the fault flag raised by an out-of-range store,
/// and the hazard strategy chosen at construction.
#[verifier::ext_equal]
pub struct MachineState {
    pub regs: Seq<i32>,
    pub mem: Seq<u8>,
    pub pc: usize,
    pub cycle: usize,
    pub stall: bool,
    pub fault: bool,
    pub strategy: HazardStrategy,
    pub if_id: Option<IFID>,
    pub id_ex: Option<IDEX>,
    pub ex_mem: Option<EXMEM>,
    pub mem_wb: Option<MEMWB>,
}

/// The machine as constructed from a program image: program at address 0,
/// all registers zero, empty pipeline.
pub open spec fn init_state(mem: Seq<u8>, strategy: HazardStrategy) -> MachineState {
    MachineState {
        regs: Seq::new(32, |i: int| 0i32),
        mem,
        pc: 0,
        cycle: 0,
        stall: false,
        fault: false,
        strategy,
        if_id: None,
        id_ex: None,
        ex_mem: None,
        mem_wb: None,
    }
}

/// State invariant: 32 registers, register 0 reads as zero, and every
/// populated latch is well formed.
pub open spec fn inv(s: MachineState) -> bool {
    &&& s.regs.len() == 32
    &&& s.regs[0] == 0
    &&& match s.id_ex {
        Some(d) => idex_wf(d),
        None => true,
    }
    &&& match s.ex_mem {
        Some(e) => exmem_wf(e),
        None => true,
    }
    &&& match s.mem_wb {
        Some(w) => memwb_wf(w),
        None => true,
    }
}

/// The pipeline has drained: all four latches are empty in the same cycle.
pub open spec fn drained(s: MachineState) -> bool {
    s.if_id is None && s.id_ex is None && s.ex_mem is None && s.mem_wb is None
}

/// The condition on which `run` stops: the pipeline has drained, a fatal
/// out-of-range store has been flagged, or the cycle counter has reached
/// the machine limit.
pub open spec fn run_done(s: MachineState) -> bool {
    drained(s) || s.fault || s.cycle == usize::MAX
}

/// The whole catalog in recognition order: R, I, S, B, U, J.
pub open spec fn spec_catalog() -> Seq<InstructionDefinition> {
    rtype_list() + itype_list() + stype_list() + btype_list() + utype_list() + jtype_list()
}

/// First catalog entry from position `i` onward that recognizes
/// `instruction`, if any.
pub open spec fn match_from(
    defs: Seq<InstructionDefinition>,
    instruction: u32,
    i: int,
) -> Option<Opcode>
    decreases defs.len() - i,
{
    if i < 0 || i >= defs.len() {
        None
    } else if instruction & defs[i].mask == defs[i].match_val {
        Some(defs[i].opcode)
    } else {
        match_from(defs, instruction, i + 1)
    }
}

/// Memory-operation descriptor that decode attaches to an opcode: loads and
/// stores carry their width and direction, everything else carries none.
pub open spec fn memop_of(op: Opcode) -> Option<MemoryOperation> {
    match op {
        Opcode::Lb => Some(MemoryOperation { is_load: true, memory_range: MemoryRange::Byte }),
        Opcode::Lh => Some(MemoryOperation { is_load: true, memory_range: MemoryRange::Half }),
        Opcode::Lw => Some(MemoryOperation { is_load: true, memory_range: MemoryRange::Word }),
        Opcode::Lbu => Some(
            MemoryOperation { is_load: true, memory_range: MemoryRange::ByteUnsigned },
        ),
        Opcode::Lhu => Some(
            MemoryOperation { is_load: true, memory_range: MemoryRange::HalfUnsigned },
        ),
        Opcode::Sb => Some(MemoryOperation { is_load: false, memory_range: MemoryRange::Byte }),
        _ => None,
    }
}

/// Decoded record for a recognized opcode: operands extracted in the
/// opcode's format against the register snapshot, the memory descriptor,
/// and the instruction's own address.
pub open spec fn decode_op_spec(op: Opcode, instruction: u32, regs: Seq<i32>, address: usize)
    -> IDEX {
    let operands = if is_r_op(op) {
        spec_extract_rtype(instruction, regs)
    } else if is_i_alu_op(op) || is_load_op(op) {
        spec_extract_itype(instruction, regs)
    } else if op == Opcode::Sb {
        spec_extract_stype(instruction, regs)
    } else if is_b_op(op) {
        spec_extract_btype(instruction, regs)
    } else if is_u_op(op) {
        spec_extract_utype(instruction)
    } else {
        spec_extract_jtype(instruction)
    };
    IDEX { opcode: op, operands: Some(operands), memory_operation: memop_of(op), address }
}

/// What decode produces for a raw instruction word: the decoded record of
/// the first matching catalog entry, or nothing when no entry matches.
pub open spec fn spec_decode(instruction: u32, regs: Seq<i32>, address: usize) -> Option<IDEX> {
    match match_from(spec_catalog(), instruction, 0) {
        Some(op) => Some(decode_op_spec(op, instruction, regs, address)),
        None => None,
    }
}

/// Source register indices of an operand bundle, in operand order: R, S and
/// B formats read two registers, I reads one, U and J read none.
pub open spec fn operand_sources(of: OperandsFormat) -> Option<(usize, Option<usize>)> {
    match of {
        OperandsFormat::Rtype { r1, r2, .. } => Some((r1, Some(r2))),
        OperandsFormat::Itype { r1, .. } => Some((r1, None)),
        OperandsFormat::Stype { r1, r2, .. } => Some((r1, Some(r2))),
        OperandsFormat::Btype { r1, r2, .. } => Some((r1, Some(r2))),
        _ => None,
    }
}

/// The hazard decision for one pair of source indices against the EX/MEM
/// and MEM/WB latches. An EX/MEM producer whose destination is read is
/// forwarded, unless it is a load (its value arrives only after MEM), which
/// stalls; otherwise a MEM/WB producer is forwarded. Under `Interlock`
/// every hit stalls instead.
pub open spec fn check_steps_spec(
    first: usize,
    second: Option<usize>,
    ex_mem: Option<EXMEM>,
    mem_wb: Option<MEMWB>,
    strategy: HazardStrategy,
) -> HazardAction {
    if ex_mem matches Some(e) && e.rd matches Some(rd) && rd != 0 && (first == rd || second
        == Some(rd)) {
        let e = ex_mem->Some_0;
        let rd = e.rd->Some_0;
        if strategy == HazardStrategy::Interlock {
            HazardAction::Stall
        } else if e.memory_operation matches Some(m) && m.is_load {
            HazardAction::Stall
        } else {
            HazardAction::ForwardExecute(first == rd)
        }
    } else if mem_wb matches Some(w) && (first == w.rd || second == Some(w.rd)) {
        if strategy == HazardStrategy::Interlock {
            HazardAction::Stall
        } else {
            HazardAction::ForwardMemory(first == mem_wb->Some_0.rd)
        }
    } else {
        HazardAction::NoAction
    }
}

/// The hazard decision for a decoded record: its source indices, if it has
/// any, are checked against the in-flight destinations.
pub open spec fn hazard_action_spec(
    operands: Option<OperandsFormat>,
    ex_mem: Option<EXMEM>,
    mem_wb: Option<MEMWB>,
    strategy: HazardStrategy,
) -> HazardAction {
    match operands {
        Some(of) => match operand_sources(of) {
            Some((first, second)) => check_steps_spec(first, second, ex_mem, mem_wb, strategy),
            None => HazardAction::NoAction,
        },
        None => HazardAction::NoAction,
    }
}

/// Overwrite the forwarded source values of an operand bundle: every
/// source value whose register index reads the producing instruction's
/// destination `producer_rd` receives the forwarded result. When both
/// sources read the same producer, both are overwritten.
pub open spec fn apply_forward(of: OperandsFormat, producer_rd: usize, value: i32)
    -> OperandsFormat {
    match of {
        OperandsFormat::Rtype { rd, r1, r2, r1_val, r2_val } => OperandsFormat::Rtype {
            rd,
            r1,
            r2,
            r1_val: if r1 == producer_rd {
                value
            } else {
                r1_val
            },
            r2_val: if r2 == producer_rd {
                value
            } else {
                r2_val
            },
        },
        OperandsFormat::Stype { r1, r2, r1_val, r2_val, imm } => OperandsFormat::Stype {
            r1,
            r2,
            r1_val: if r1 == producer_rd {
                value
            } else {
                r1_val
            },
            r2_val: if r2 == producer_rd {
                value
            } else {
                r2_val
            },
            imm,
        },
        OperandsFormat::Btype { r1, r2, r1_val, r2_val, imm } => OperandsFormat::Btype {
            r1,
            r2,
            r1_val: if r1 == producer_rd {
                value
            } else {
                r1_val
            },
            r2_val: if r2 == producer_rd {
                value
            } else {
                r2_val
            },
            imm,
        },
        OperandsFormat::Itype { rd, r1, r1_val, imm } => OperandsFormat::Itype {
            rd,
            r1,
            r1_val: if r1 == producer_rd {
                value
            } else {
                r1_val
            },
            imm,
        },
        _ => of,
    }
}

/// A decoded record with the source values that read `producer_rd`
/// replaced by a forwarded result.
pub open spec fn forwarded(d: IDEX, producer_rd: usize, value: i32) -> IDEX {
    IDEX {
        operands: match d.operands {
            Some(of) => Some(apply_forward(of, producer_rd, value)),
            None => None,
        },
        ..d
    }
}

/// Result of a register-register ALU opcode, with bit-exact 32-bit
/// semantics: wrapping add and subtract, logical shifts on the unsigned
/// image, arithmetic right shift, shift amounts from the low five bits of
/// the second operand, and signed/unsigned compares yielding 0 or 1.
pub open spec fn alu_r_spec(op: Opcode, a: i32, b: i32) -> i32 {
    match op {
        Opcode::Add => a.wrapping_add(b),
        Opcode::Sub => a.wrapping_sub(b),
        Opcode::Xor => a ^ b,
        Opcode::Or => a | b,
        Opcode::And => a & b,
        Opcode::Sll => ((a as u32) << ((b & 0x1f) as u32)) as i32,
        Opcode::Srl => ((a as u32) >> ((b & 0x1f) as u32)) as i32,
        Opcode::Sra => a >> ((b & 0x1f) as u32),
        Opcode::Slt => if a < b {
            1
        } else {
            0
        },
        Opcode::Sltu => if (a as u32) < (b as u32) {
            1
        } else {
            0
        },
        _ => 0,
    }
}

/// Result of a register-immediate ALU opcode; the shift amount comes from
/// the low five bits of the immediate.
pub open spec fn alu_i_spec(op: Opcode, a: i32, imm: i32) -> i32 {
    match op {
        Opcode::Addi => a.wrapping_add(imm),
        Opcode::Xori => a ^ imm,
        Opcode::Ori => a | imm,
        Opcode::Andi => a & imm,
        Opcode::Slli => ((a as u32) << ((imm & 0x1f) as u32)) as i32,
        Opcode::Srli => ((a as u32) >> ((imm & 0x1f) as u32)) as i32,
        Opcode::Srai => a >> ((imm & 0x1f) as u32),
        Opcode::Slti => if a < imm {
            1
        } else {
            0
        },
        Opcode::Sltiu => if (a as u32) < (imm as u32) {
            1
        } else {
            0
        },
        _ => 0,
    }
}

/// Whether a conditional branch is taken.
pub open spec fn branch_taken(op: Opcode, a: i32, b: i32) -> bool {
    match op {
        Opcode::Beq => a == b,
        Opcode::Bne => a != b,
        _ => false,
    }
}

/// A control transfer target: the instruction's own address plus its
/// sign-extended immediate, with wraparound address arithmetic.
pub open spec fn branch_target(address: usize, imm: i32) -> usize {
    address.wrapping_add_signed(imm as isize)
}

/// A bubble: the execute result of an empty decoded record. Unreachable
/// from a well-formed pipeline; present only to make the model total.
pub open spec fn bubble_result() -> ExecuteResult {
    ExecuteResult {
        ex_mem: EXMEM {
            rd: None,
            calculation_result: 0,
            operands: None,
            memory_operation: None,
        },
        flush: false,
        new_pc: None,
    }
}

/// What the executor of each opcode produces from a decoded record:
/// ALU results, effective addresses for loads and stores, branch and jump
/// resolution with flush and target, the upper-immediate results, and the
/// link value of JAL. The operand bundle and memory descriptor are carried
/// through to the memory stage.
pub open spec fn execute_spec(d: IDEX) -> ExecuteResult {
    match d.operands {
        None => bubble_result(),
        Some(of) => match of {
            OperandsFormat::Rtype { rd, r1_val, r2_val, .. } => ExecuteResult {
                ex_mem: EXMEM {
                    rd: Some(rd),
                    calculation_result: alu_r_spec(d.opcode, r1_val, r2_val),
                    operands: d.operands,
                    memory_operation: d.memory_operation,
                },
                flush: false,
                new_pc: None,
            },
            OperandsFormat::Itype { rd, r1_val, imm, .. } => ExecuteResult {
                ex_mem: EXMEM {
                    rd: Some(rd),
                    calculation_result: if is_load_op(d.opcode) {
                        r1_val.wrapping_add(imm)
                    } else {
                        alu_i_spec(d.opcode, r1_val, imm)
                    },
                    operands: d.operands,
                    memory_operation: d.memory_operation,
                },
                flush: false,
                new_pc: None,
            },
            OperandsFormat::Stype { r1_val, imm, .. } => ExecuteResult {
                ex_mem: EXMEM {
                    rd: None,
                    calculation_result: r1_val.wrapping_add(imm),
                    operands: d.operands,
                    memory_operation: d.memory_operation,
                },
                flush: false,
                new_pc: None,
            },
            OperandsFormat::Btype { r1_val, r2_val, imm, .. } => {
                let taken = branch_taken(d.opcode, r1_val, r2_val);
                ExecuteResult {
                    ex_mem: EXMEM {
                        rd: None,
                        calculation_result: 0,
                        operands: d.operands,
                        memory_operation: d.memory_operation,
                    },
                    flush: taken,
                    new_pc: if taken {
                        Some(branch_target(d.address, imm))
                    } else {
                        None
                    },
                }
            },
            OperandsFormat::Utype { rd, imm } => ExecuteResult {
                ex_mem: EXMEM {
                    rd: Some(rd),
                    calculation_result: if d.opcode == Opcode::Lui {
                        imm << 12
                    } else {
                        (d.address as i32).wrapping_add(imm << 12)
                    },
                    operands: d.operands,
                    memory_operation: d.memory_operation,
                },
                flush: false,
                new_pc: None,
            },
            OperandsFormat::Jtype { rd, imm } => ExecuteResult {
                ex_mem: EXMEM {
                    rd: Some(rd),
                    calculation_result: d.address.wrapping_add(4) as i32,
                    operands: d.operands,
                    memory_operation: d.memory_operation,
                },
                flush: true,
                new_pc: Some(branch_target(d.address, imm)),
            },
        },
    }
}

/// Little-endian 16-bit read at `a`.
pub open spec fn half_at(mem: Seq<u8>, a: int) -> u16 {
    (mem[a] as u16) | ((mem[a + 1] as u16) << 8)
}

/// Little-endian 32-bit read at `a`.
pub open spec fn word_at(mem: Seq<u8>, a: int) -> u32 {
    (mem[a] as u32) | ((mem[a + 1] as u32) << 8) | ((mem[a + 2] as u32) << 16) | ((mem[a
        + 3] as u32) << 24)
}

/// What a load returns: the addressed bytes widened to 32 bits with the
/// width's signedness, or 0 when any addressed byte lies outside memory.
/// The address is the raw 32-bit calculation result; a negative one is
/// out of range.
pub open spec fn load_spec(mem: Seq<u8>, kind: MemoryRange, addr: i32) -> i32 {
    match kind {
        MemoryRange::Byte => if 0 <= addr && addr < mem.len() {
            (mem[addr as int] as i8) as i32
        } else {
            0
        },
        MemoryRange::ByteUnsigned => if 0 <= addr && addr < mem.len() {
            mem[addr as int] as i32
        } else {
            0
        },
        MemoryRange::Half => if 0 <= addr && addr + 2 <= mem.len() {
            (half_at(mem, addr as int) as i16) as i32
        } else {
            0
        },
        MemoryRange::HalfUnsigned => if 0 <= addr && addr + 2 <= mem.len() {
            half_at(mem, addr as int) as i32
        } else {
            0
        },
        MemoryRange::Word => if 0 <= addr && addr + 4 <= mem.len() {
            word_at(mem, addr as int) as i32
        } else {
            0
        },
    }
}

/// What a store does: the low bits of the value are written little-endian
/// at the effective address. A store with any addressed byte outside
/// memory writes nothing and raises the fault flag (second component).
pub open spec fn store_spec(mem: Seq<u8>, kind: MemoryRange, addr: i32, value: i32)
    -> (Seq<u8>, bool) {
    match kind {
        MemoryRange::Byte | MemoryRange::ByteUnsigned => if 0 <= addr && addr < mem.len() {
            (mem.update(addr as int, value as u8), false)
        } else {
            (mem, true)
        },
        MemoryRange::Half | MemoryRange::HalfUnsigned => if 0 <= addr && addr + 2 <= mem.len() {
            (
                mem.update(addr as int, value as u8).update(
                    addr + 1,
                    ((value as u16) >> 8) as u8,
                ),
                false,
            )
        } else {
            (mem, true)
        },
        MemoryRange::Word => if 0 <= addr && addr + 4 <= mem.len() {
            (
                mem.update(addr as int, value as u8).update(
                    addr + 1,
                    (((value as u32) >> 8) & 0xff) as u8,
                ).update(addr + 2, (((value as u32) >> 16) & 0xff) as u8).update(
                    addr + 3,
                    (((value as u32) >> 24) & 0xff) as u8,
                ),
                false,
            )
        } else {
            (mem, true)
        },
    }
}

/// Write-back stage: a populated MEM/WB latch with a non-zero destination
/// writes its value into the register file; register 0 is never written.
/// The latch itself is cleared by the next memory stage, not here.
pub open spec fn wb_step(s: MachineState) -> MachineState {
    match s.mem_wb {
        Some(w) => if w.rd != 0 {
            MachineState { regs: s.regs.update(w.rd as int, w.value), ..s }
        } else {
            s
        },
        None => s,
    }
}

/// Memory stage: consumes EX/MEM. A load reads memory at the calculation
/// result; a store writes the S-format second source value there, raising
/// the fault flag when out of range. With a destination register, MEM/WB
/// is published with the loaded value or the calculation result; without
/// one, MEM/WB is cleared.
pub open spec fn mem_step(s: MachineState) -> MachineState {
    match s.ex_mem {
        None => MachineState { mem_wb: None, ..s },
        Some(e) => {
            let value = match e.memory_operation {
                Some(m) => if m.is_load {
                    load_spec(s.mem, m.memory_range, e.calculation_result)
                } else {
                    e.calculation_result
                },
                None => e.calculation_result,
            };
            let stored = match e.memory_operation {
                Some(m) => if !m.is_load {
                    match e.operands {
                        Some(OperandsFormat::Stype { r2_val, .. }) => store_spec(
                            s.mem,
                            m.memory_range,
                            e.calculation_result,
                            r2_val,
                        ),
                        _ => (s.mem, false),
                    }
                } else {
                    (s.mem, false)
                },
                None => (s.mem, false),
            };
            MachineState {
                ex_mem: None,
                mem: stored.0,
                fault: s.fault || stored.1,
                mem_wb: match e.rd {
                    Some(rd) => Some(MEMWB { rd, value }),
                    None => None,
                },
                ..s
            }
        },
    }
}

/// Execute stage: consumes nothing (ID overwrites ID/EX each cycle) but
/// publishes EX/MEM. A resolved control transfer overwrites the program
/// counter; a flush empties IF/ID and ID/EX, discarding the two
/// wrong-path instructions fetched behind a taken branch or jump.
pub open spec fn ex_step(s: MachineState) -> MachineState {
    match s.id_ex {
        None => MachineState { ex_mem: None, ..s },
        Some(d) => {
            let r = execute_spec(d);
            MachineState {
                pc: match r.new_pc {
                    Some(p) => p,
                    None => s.pc,
                },
                if_id: if r.flush {
                    None
                } else {
                    s.if_id
                },
                id_ex: if r.flush {
                    None
                } else {
                    s.id_ex
                },
                ex_mem: Some(r.ex_mem),
                ..s
            }
        },
    }
}

/// Decode stage: clears the stall flag, decodes IF/ID against the catalog
/// and acts on the hazard decision. A stall publishes a bubble, leaves
/// IF/ID in place and sets the stall flag so the next fetch holds; a
/// forward overwrites, before publishing, every source value that reads
/// the producer's destination. An empty IF/ID, or a word no catalog entry
/// recognizes, publishes an empty ID/EX.
pub open spec fn id_step(s: MachineState) -> MachineState {
    let t = MachineState { stall: false, ..s };
    match t.if_id {
        None => MachineState { id_ex: None, ..t },
        Some(f) => match spec_decode(f.instruction, t.regs, f.address) {
            None => MachineState { id_ex: None, ..t },
            Some(d) => match hazard_action_spec(d.operands, t.ex_mem, t.mem_wb, t.strategy) {
                HazardAction::NoAction => MachineState { id_ex: Some(d), ..t },
                HazardAction::Stall => MachineState { id_ex: None, stall: true, ..t },
                HazardAction::ForwardExecute(_) => match t.ex_mem {
                    Some(e) => match e.rd {
                        Some(rd) => MachineState {
                            id_ex: Some(forwarded(d, rd, e.calculation_result)),
                            ..t
                        },
                        None => MachineState { id_ex: Some(d), ..t },
                    },
                    None => MachineState { id_ex: Some(d), ..t },
                },
                HazardAction::ForwardMemory(_) => match t.mem_wb {
                    Some(w) => MachineState { id_ex: Some(forwarded(d, w.rd, w.value)), ..t },
                    None => MachineState { id_ex: Some(d), ..t },
                },
            },
        },
    }
}

/// Fetch stage: unless stalled, reads the word at the program counter and
/// advances it by 4, speculatively; when fewer than four bytes remain,
/// IF/ID is cleared, which drains the pipeline.
pub open spec fn if_step(s: MachineState) -> MachineState {
    if s.stall {
        s
    } else if s.mem.len() >= 4 && s.pc <= s.mem.len() - 4 {
        MachineState {
            if_id: Some(IFID { instruction: word_at(s.mem, s.pc as int), address: s.pc }),
            pc: (s.pc + 4) as usize,
            ..s
        }
    } else {
        MachineState { if_id: None, ..s }
    }
}

/// One pipelined cycle: the stages run in reverse pipeline order, so each
/// stage consumes the latch its predecessor wrote in the previous cycle,
/// and the cycle counter advances by one.
pub open spec fn pipeline_step(s: MachineState) -> MachineState {
    let t = if_step(id_step(ex_step(mem_step(wb_step(s)))));
    MachineState { cycle: (t.cycle + 1) as usize, ..t }
}

/// One whole instruction without pipelining: the stages run in program
/// order within a single call, and the cycle counter advances by five.
pub open spec fn serial_step(s: MachineState) -> MachineState {
    let t = wb_step(mem_step(ex_step(id_step(if_step(s)))));
    MachineState { cycle: (t.cycle + 5) as usize, ..t }
}

/// `n` pipelined cycles from `s`.
pub open spec fn spec_steps(s: MachineState, n: nat) -> MachineState
    decreases n,
{
    if n == 0 {
        s
    } else {
        pipeline_step(spec_steps(s, (n - 1) as nat))
    }
}

} // verus!
