//! The executable machine. Every stage is proved to realize the transition
//! function of the same name in `vm::state`, so `step`, `step_no_pipeline`
//! and `run` have exact, closed-form contracts.

use vstd::prelude::*;

use crate::vm::btypes::{btype_definitions, extract_btype};
use crate::vm::common::{
    EXMEM, ExecuteResult, HazardAction, HazardStrategy, IDEX, IFID, InstructionDefinition, MEMWB,
    MemoryOperation, MemoryRange, Opcode, OperandsFormat, exmem_wf, idex_wf,
};
use crate::vm::itypes::{extract_itype, itype_definitions};
use crate::vm::jtypes::{extract_jtype, jtype_definitions};
use crate::vm::rtypes::{extract_rtype, rtype_definitions};
use crate::vm::state::{
    MachineState, alu_i_spec, alu_r_spec, branch_taken, check_steps_spec, decode_op_spec, drained,
    execute_spec, forwarded, hazard_action_spec, id_step, if_step, init_state, inv, load_spec,
    match_from, mem_step, pipeline_step, run_done, serial_step, spec_catalog, spec_steps,
    store_spec, wb_step,
};
use crate::vm::stypes::{extract_stype, stype_definitions};
use crate::vm::utypes::{extract_utype, utype_definitions};

verus! {

/// The simulated machine. The register file, memory, program counter and
/// cycle counter are the architectural state; the four latches carry the
/// instructions in flight. `fault` latches an out-of-range store, which the
/// specification treats as fatal.
pub struct VM {
    pub instruction_definitions: Vec<InstructionDefinition>,
    pub memory: Vec<u8>,
    pub registers: Vec<i32>,
    pub pc: usize,
    pub cycle: usize,
    pub stall: bool,
    pub fault: bool,
    pub strategy: HazardStrategy,
    pub if_id: Option<IFID>,
    pub id_ex: Option<IDEX>,
    pub ex_mem: Option<EXMEM>,
    pub mem_wb: Option<MEMWB>,
}

impl View for VM {
    type V = MachineState;

    open spec fn view(&self) -> MachineState {
        MachineState {
            regs: self.registers@,
            mem: self.memory@,
            pc: self.pc,
            cycle: self.cycle,
            stall: self.stall,
            fault: self.fault,
            strategy: self.strategy,
            if_id: self.if_id,
            id_ex: self.id_ex,
            ex_mem: self.ex_mem,
            mem_wb: self.mem_wb,
        }
    }
}

/// Shift amounts are the low five bits of the second operand, so they lie
/// below 32 and never make a shift panic.
proof fn lemma_shamt_bound(b: i32)
    by (bit_vector)
    ensures
        ((b & 0x1f) as u32) < 32,
{
}

/// Result of a register-register ALU opcode; realizes `alu_r_spec`.
fn alu_r(op: Opcode, a: i32, b: i32) -> (r: i32)
    requires
        crate::vm::common::is_r_op(op),
    ensures
        r == alu_r_spec(op, a, b),
{
    proof {
        lemma_shamt_bound(b);
    }
    match op {
        Opcode::Add => a.wrapping_add(b),
        Opcode::Sub => a.wrapping_sub(b),
        Opcode::Xor => a ^ b,
        Opcode::Or => a | b,
        Opcode::And => a & b,
        Opcode::Sll => ((a as u32) << ((b & 0x1f) as u32)) as i32,
        Opcode::Srl => ((a as u32) >> ((b & 0x1f) as u32)) as i32,
        Opcode::Sra => a >> ((b & 0x1f) as u32),
        Opcode::Slt => if a < b {
            1
        } else {
            0
        },
        Opcode::Sltu => if (a as u32) < (b as u32) {
            1
        } else {
            0
        },
        _ => unreached(),
    }
}

/// Result of a register-immediate ALU opcode; realizes `alu_i_spec`.
fn alu_i(op: Opcode, a: i32, imm: i32) -> (r: i32)
    requires
        crate::vm::common::is_i_alu_op(op),
    ensures
        r == alu_i_spec(op, a, imm),
{
    proof {
        lemma_shamt_bound(imm);
    }
    match op {
        Opcode::Addi => a.wrapping_add(imm),
        Opcode::Xori => a ^ imm,
        Opcode::Ori => a | imm,
        Opcode::Andi => a & imm,
        Opcode::Slli => ((a as u32) << ((imm & 0x1f) as u32)) as i32,
        Opcode::Srli => ((a as u32) >> ((imm & 0x1f) as u32)) as i32,
        Opcode::Srai => a >> ((imm & 0x1f) as u32),
        Opcode::Slti => if a < imm {
            1
        } else {
            0
        },
        Opcode::Sltiu => if (a as u32) < (imm as u32) {
            1
        } else {
            0
        },
        _ => unreached(),
    }
}

/// Decode a recognized opcode: extract the operands in the opcode's format
/// against the register snapshot and attach its memory descriptor.
/// Realizes `decode_op_spec` and always yields a well-formed record.
fn decode_op(op: Opcode, instruction: u32, registers: &Vec<i32>, address: usize) -> (d: IDEX)
    requires
        registers@.len() == 32,
    ensures
        d == decode_op_spec(op, instruction, registers@, address),
        idex_wf(d),
{
    proof {
        crate::vm::rtypes::lemma_reg_field_bounds(instruction);
    }
    match op {
        Opcode::Add | Opcode::Sub | Opcode::Xor | Opcode::Or | Opcode::And | Opcode::Sll
            | Opcode::Srl | Opcode::Sra | Opcode::Slt | Opcode::Sltu => IDEX {
            opcode: op,
            operands: Some(extract_rtype(instruction, registers)),
            memory_operation: None,
            address,
        },
        Opcode::Addi | Opcode::Xori | Opcode::Ori | Opcode::Andi | Opcode::Slli | Opcode::Srli
            | Opcode::Srai | Opcode::Slti | Opcode::Sltiu => IDEX {
            opcode: op,
            operands: Some(extract_itype(instruction, registers)),
            memory_operation: None,
            address,
        },
        Opcode::Lb => IDEX {
            opcode: op,
            operands: Some(extract_itype(instruction, registers)),
            memory_operation: Some(
                MemoryOperation { is_load: true, memory_range: MemoryRange::Byte },
            ),
            address,
        },
        Opcode::Lh => IDEX {
            opcode: op,
            operands: Some(extract_itype(instruction, registers)),
            memory_operation: Some(
                MemoryOperation { is_load: true, memory_range: MemoryRange::Half },
            ),
            address,
        },
        Opcode::Lw => IDEX {
            opcode: op,
            operands: Some(extract_itype(instruction, registers)),
            memory_operation: Some(
                MemoryOperation { is_load: true, memory_range: MemoryRange::Word },
            ),
            address,
        },
        Opcode::Lbu => IDEX {
            opcode: op,
            operands: Some(extract_itype(instruction, registers)),
            memory_operation: Some(
                MemoryOperation { is_load: true, memory_range: MemoryRange::ByteUnsigned },
            ),
            address,
        },
        Opcode::Lhu => IDEX {
            opcode: op,
            operands: Some(extract_itype(instruction, registers)),
            memory_operation: Some(
                MemoryOperation { is_load: true, memory_range: MemoryRange::HalfUnsigned },
            ),
            address,
        },
        Opcode::Sb => IDEX {
            opcode: op,
            operands: Some(extract_stype(instruction, registers)),
            memory_operation: Some(
                MemoryOperation { is_load: false, memory_range: MemoryRange::Byte },
            ),
            address,
        },
        Opcode::Beq | Opcode::Bne => IDEX {
            opcode: op,
            operands: Some(extract_btype(instruction, registers)),
            memory_operation: None,
            address,
        },
        Opcode::Lui | Opcode::Auipc => IDEX {
            opcode: op,
            operands: Some(extract_utype(instruction)),
            memory_operation: None,
            address,
        },
        Opcode::Jal => IDEX {
            opcode: op,
            operands: Some(extract_jtype(instruction)),
            memory_operation: None,
            address,
        },
    }
}

/// Run the executor of a decoded record; realizes `execute_spec`.
/// A record whose operand bundle does not fit its opcode's format would be
/// a program-logic violation; decode never produces one, which is what the
/// `idex_wf` precondition states, so those branches are proved unreachable.
fn execute_instruction(d: &IDEX) -> (r: ExecuteResult)
    requires
        idex_wf(*d),
    ensures
        r == execute_spec(*d),
        exmem_wf(r.ex_mem),
{
    match d.operands {
        Some(OperandsFormat::Rtype { rd, r1_val, r2_val, .. }) => ExecuteResult {
            ex_mem: EXMEM {
                rd: Some(rd),
                calculation_result: alu_r(d.opcode, r1_val, r2_val),
                operands: d.operands,
                memory_operation: d.memory_operation,
            },
            flush: false,
            new_pc: None,
        },
        Some(OperandsFormat::Itype { rd, r1_val, imm, .. }) => {
            let calc = match d.opcode {
                Opcode::Lb | Opcode::Lh | Opcode::Lw | Opcode::Lbu | Opcode::Lhu => r1_val
                    .wrapping_add(imm),
                _ => alu_i(d.opcode, r1_val, imm),
            };
            ExecuteResult {
                ex_mem: EXMEM {
                    rd: Some(rd),
                    calculation_result: calc,
                    operands: d.operands,
                    memory_operation: d.memory_operation,
                },
                flush: false,
                new_pc: None,
            }
        },
        Some(OperandsFormat::Stype { r1_val, imm, .. }) => ExecuteResult {
            ex_mem: EXMEM {
                rd: None,
                calculation_result: r1_val.wrapping_add(imm),
                operands: d.operands,
                memory_operation: d.memory_operation,
            },
            flush: false,
            new_pc: None,
        },
        Some(OperandsFormat::Btype { r1_val, r2_val, imm, .. }) => {
            let taken = match d.opcode {
                Opcode::Beq => r1_val == r2_val,
                Opcode::Bne => r1_val != r2_val,
                _ => unreached(),
            };
            proof {
                assert(taken == branch_taken(d.opcode, r1_val, r2_val));
            }
            ExecuteResult {
                ex_mem: EXMEM {
                    rd: None,
                    calculation_result: 0,
                    operands: d.operands,
                    memory_operation: d.memory_operation,
                },
                flush: taken,
                new_pc: if taken {
                    Some(d.address.wrapping_add_signed(imm as isize))
                } else {
                    None
                },
            }
        },
        Some(OperandsFormat::Utype { rd, imm }) => {
            let calc = match d.opcode {
                Opcode::Lui => imm << 12u32,
                Opcode::Auipc => (d.address as i32).wrapping_add(imm << 12u32),
                _ => unreached(),
            };
            ExecuteResult {
                ex_mem: EXMEM {
                    rd: Some(rd),
                    calculation_result: calc,
                    operands: d.operands,
                    memory_operation: d.memory_operation,
                },
                flush: false,
                new_pc: None,
            }
        },
        Some(OperandsFormat::Jtype { rd, imm }) => ExecuteResult {
            ex_mem: EXMEM {
                rd: Some(rd),
                calculation_result: d.address.wrapping_add(4) as i32,
                operands: d.operands,
                memory_operation: d.memory_operation,
            },
            flush: true,
            new_pc: Some(d.address.wrapping_add_signed(imm as isize)),
        },
        None => unreached(),
    }
}

/// Rebuild a decoded record with every source value that reads the
/// producing instruction's destination replaced by the forwarded result;
/// realizes `forwarded` and keeps the record well formed.
fn forward_operands(d: IDEX, producer_rd: usize, value: i32) -> (r: IDEX)
    ensures
        r == forwarded(d, producer_rd, value),
        idex_wf(d) ==> idex_wf(r),
{
    let operands = match d.operands {
        Some(OperandsFormat::Rtype { rd, r1, r2, r1_val, r2_val }) => Some(
            OperandsFormat::Rtype {
                rd,
                r1,
                r2,
                r1_val: if r1 == producer_rd {
                    value
                } else {
                    r1_val
                },
                r2_val: if r2 == producer_rd {
                    value
                } else {
                    r2_val
                },
            },
        ),
        Some(OperandsFormat::Stype { r1, r2, r1_val, r2_val, imm }) => Some(
            OperandsFormat::Stype {
                r1,
                r2,
                r1_val: if r1 == producer_rd {
                    value
                } else {
                    r1_val
                },
                r2_val: if r2 == producer_rd {
                    value
                } else {
                    r2_val
                },
                imm,
            },
        ),
        Some(OperandsFormat::Btype { r1, r2, r1_val, r2_val, imm }) => Some(
            OperandsFormat::Btype {
                r1,
                r2,
                r1_val: if r1 == producer_rd {
                    value
                } else {
                    r1_val
                },
                r2_val: if r2 == producer_rd {
                    value
                } else {
                    r2_val
                },
                imm,
            },
        ),
        Some(OperandsFormat::Itype { rd, r1, r1_val, imm }) => Some(
            OperandsFormat::Itype {
                rd,
                r1,
                r1_val: if r1 == producer_rd {
                    value
                } else {
                    r1_val
                },
                imm,
            },
        ),
        other => other,
    };
    IDEX { operands, ..d }
}

impl VM {
    /// The machine's well-formedness: its catalog is the canonical one and
    /// the state invariant holds, in particular register 0 reads as zero
    /// and every populated latch is well formed.
    pub open spec fn wf(&self) -> bool {
        &&& self.instruction_definitions@ == spec_catalog()
        &&& inv(self@)
    }

    /// Construct a machine with the given program image and hazard
    /// strategy: program at address 0, registers zeroed, empty pipeline.
    pub fn new_with_strategy(memory: Vec<u8>, strategy: HazardStrategy) -> (vm: VM)
        ensures
            vm@ == init_state(memory@, strategy),
            vm.wf(),
    {
        let mut instruction_definitions = rtype_definitions();
        let mut rest = itype_definitions();
        instruction_definitions.append(&mut rest);
        let mut rest = stype_definitions();
        instruction_definitions.append(&mut rest);
        let mut rest = btype_definitions();
        instruction_definitions.append(&mut rest);
        let mut rest = utype_definitions();
        instruction_definitions.append(&mut rest);
        let mut rest = jtype_definitions();
        instruction_definitions.append(&mut rest);

        let vm = VM {
            pc: 0,
            memory,
            registers: vec![0i32; 32],
            cycle: 0,
            if_id: None,
            id_ex: None,
            ex_mem: None,
            mem_wb: None,
            instruction_definitions,
            stall: false,
            fault: false,
            strategy,
        };
        proof {
            assert(vm.instruction_definitions@ =~= spec_catalog());
            assert(vm@ =~= init_state(memory@, strategy));
        }
        vm
    }

    /// Construct a machine with the default hazard strategy, operand
    /// forwarding.
    pub fn new(memory: Vec<u8>) -> (vm: VM)
        ensures
            vm@ == init_state(memory@, HazardStrategy::Bypassing),
            vm.wf(),
    {
        VM::new_with_strategy(memory, HazardStrategy::Bypassing)
    }

    /// One whole instruction, without pipelining: the five stages run in
    /// program order within this one call and the cycle counter advances
    /// by five.
    pub fn step_no_pipeline(&mut self)
        requires
            old(self).wf(),
            old(self)@.cycle + 5 <= usize::MAX,
        ensures
            final(self).wf(),
            final(self)@ == serial_step(old(self)@),
    {
        self.fetch();
        self.decode();
        self.execute();
        self.memory();
        self.writeback();
        self.cycle = self.cycle + 5;
        proof {
            assert(self@ =~= serial_step(old(self)@));
        }
    }

    /// Step the pipeline until it has drained (all four latches empty in
    /// the same cycle) or a fatal out-of-range store has been flagged; at
    /// least one step is always taken. The machine stops at the first such
    /// cycle: the final state is `n` pipelined cycles from the initial one,
    /// and no earlier cycle already satisfied the stopping condition. The
    /// cycle counter cannot pass the machine limit `usize::MAX`, where the
    /// run gives up.
    pub fn run(&mut self)
        requires
            old(self).wf(),
        ensures
            final(self).wf(),
            run_done(final(self)@),
            exists|n: nat|
                {
                    &&& final(self)@ == #[trigger] spec_steps(old(self)@, n)
                    &&& forall|k: nat| 1 <= k < n ==> !run_done(#[trigger] spec_steps(old(self)@, k))
                    &&& n == 0 ==> old(self)@.cycle == usize::MAX
                },
    {
        let ghost s0 = self@;
        let ghost mut n: nat = 0;
        loop
            invariant_except_break
                n >= 1 ==> !drained(self@) && !self@.fault,
            invariant
                self.wf(),
                self@ == spec_steps(s0, n),
                forall|k: nat| 1 <= k < n ==> !run_done(#[trigger] spec_steps(s0, k)),
            ensures
                self.wf(),
                self@ == spec_steps(s0, n),
                forall|k: nat| 1 <= k < n ==> !run_done(#[trigger] spec_steps(s0, k)),
                run_done(self@),
                n == 0 ==> s0.cycle == usize::MAX,
            decreases usize::MAX - self@.cycle,
        {
            if self.cycle == usize::MAX {
                break;
            }
            proof {
                if n >= 1 {
                    assert(!run_done(spec_steps(s0, n)));
                }
            }
            self.step();
            proof {
                n = n + 1;
            }
            if self.if_id.is_none() && self.id_ex.is_none() && self.ex_mem.is_none()
                && self.mem_wb.is_none() {
                break;
            }
            if self.fault {
                break;
            }
        }
    }

    /// One pipelined cycle: the stages run in reverse pipeline order (WB,
    /// MEM, EX, ID, IF), so each stage consumes the latch written in the
    /// previous cycle, and the cycle counter advances by one.
    pub fn step(&mut self)
        requires
            old(self).wf(),
            old(self)@.cycle < usize::MAX,
        ensures
            final(self).wf(),
            final(self)@ == pipeline_step(old(self)@),
    {
        self.writeback();
        self.memory();
        self.execute();
        self.decode();
        self.fetch();
        self.cycle = self.cycle + 1;
        proof {
            assert(self@ =~= pipeline_step(old(self)@));
        }
    }

    /// Fetch: unless stalled, read the four bytes at the program counter,
    /// assemble them little-endian, publish IF/ID and advance the counter
    /// by four, speculatively. When fewer than four bytes remain, clear
    /// IF/ID, which drains the pipeline.
    fn fetch(&mut self)
        requires
            old(self).wf(),
        ensures
            final(self).wf(),
            final(self)@ == if_step(old(self)@),
            final(self).instruction_definitions == old(self).instruction_definitions,
    {
        if self.stall {
            return;
        }
        let pc = self.pc;
        if self.memory.len() >= 4 && pc <= self.memory.len() - 4 {
            let b0 = self.memory[pc];
            let b1 = self.memory[pc + 1];
            let b2 = self.memory[pc + 2];
            let b3 = self.memory[pc + 3];
            let instruction = (b0 as u32) | ((b1 as u32) << 8u32) | ((b2 as u32) << 16u32) | ((
            b3 as u32) << 24u32);
            self.if_id = Some(IFID { instruction, address: pc });
            self.pc = pc + 4;
        } else {
            self.if_id = None;
        }
        proof {
            assert(self@ =~= if_step(old(self)@));
        }
    }

    /// Find the first catalog entry recognizing an instruction word.
    fn find_definition(&self, instruction: u32) -> (r: Option<Opcode>)
        requires
            self.instruction_definitions@ == spec_catalog(),
        ensures
            r == match_from(spec_catalog(), instruction, 0),
    {
        let mut i: usize = 0;
        while i < self.instruction_definitions.len()
            invariant
                self.instruction_definitions@ == spec_catalog(),
                i <= self.instruction_definitions@.len(),
                match_from(spec_catalog(), instruction, 0) == match_from(
                    spec_catalog(),
                    instruction,
                    i as int,
                ),
            decreases self.instruction_definitions@.len() - i,
        {
            let def = self.instruction_definitions[i];
            if instruction & def.mask == def.match_val {
                return Some(def.opcode);
            }
            i = i + 1;
        }
        None
    }

    /// Decode: clear the stall flag, find the catalog entry recognizing
    /// IF/ID's word and decode it against the current register file, then
    /// act on the hazard decision: publish, stall with a bubble (leaving
    /// IF/ID in place for the next cycle), or forward a later stage's
    /// result into every source value that reads its destination. An
    /// empty IF/ID or an unrecognized word publishes an empty ID/EX.
    fn decode(&mut self)
        requires
            old(self).wf(),
        ensures
            final(self).wf(),
            final(self)@ == id_step(old(self)@),
            final(self).instruction_definitions == old(self).instruction_definitions,
    {
        self.stall = false;

        let f_opt = self.if_id;
        match f_opt {
            None => {
                self.id_ex = None;
            },
            Some(f) => {
                match self.find_definition(f.instruction) {
                    None => {
                        self.id_ex = None;
                    },
                    Some(op) => {
                        let decoded = decode_op(op, f.instruction, &self.registers, f.address);
                        match self.detect_data_hazard(&decoded) {
                            HazardAction::ForwardExecute(_) => {
                                match self.ex_mem {
                                    Some(e) => {
                                        match e.rd {
                                            Some(rd) => {
                                                self.id_ex = Some(
                                                    forward_operands(
                                                        decoded,
                                                        rd,
                                                        e.calculation_result,
                                                    ),
                                                );
                                            },
                                            None => {
                                                self.id_ex = Some(decoded);
                                            },
                                        }
                                    },
                                    None => {
                                        self.id_ex = Some(decoded);
                                    },
                                }
                            },
                            HazardAction::ForwardMemory(_) => {
                                match self.mem_wb {
                                    Some(w) => {
                                        self.id_ex = Some(
                                            forward_operands(decoded, w.rd, w.value),
                                        );
                                    },
                                    None => {
                                        self.id_ex = Some(decoded);
                                    },
                                }
                            },
                            HazardAction::NoAction => {
                                self.id_ex = Some(decoded);
                            },
                            HazardAction::Stall => {
                                self.id_ex = None;
                                self.stall = true;
                            },
                        }
                    },
                }
            },
        }
        proof {
            assert(self@ =~= id_step(old(self)@));
        }
    }

    /// Execute: run the executor of the decoded record. A resolved control
    /// transfer overwrites the program counter; a flush empties IF/ID and
    /// ID/EX, discarding the two wrong-path instructions behind a taken
    /// branch or jump. An empty ID/EX publishes an empty EX/MEM.
    fn execute(&mut self)
        requires
            old(self).wf(),
        ensures
            final(self).wf(),
            final(self)@ == crate::vm::state::ex_step(old(self)@),
            final(self).instruction_definitions == old(self).instruction_definitions,
    {
        let d_opt = self.id_ex;
        match d_opt {
            None => {
                self.ex_mem = None;
            },
            Some(d) => {
                let result = execute_instruction(&d);

                match result.new_pc {
                    Some(new_pc) => {
                        self.pc = new_pc;
                    },
                    None => {},
                }

                if result.flush {
                    self.if_id = None;
                    self.id_ex = None;
                }

                self.ex_mem = Some(result.ex_mem);
            },
        }
        proof {
            assert(self@ =~= crate::vm::state::ex_step(old(self)@));
        }
    }

    /// Memory access: consume EX/MEM. A load reads memory at the
    /// calculation result; a store writes the S-format second source value
    /// there, raising the fault flag when the address is out of range.
    /// With a destination register, publish MEM/WB; without one, clear it.
    fn memory(&mut self)
        requires
            old(self).wf(),
        ensures
            final(self).wf(),
            final(self)@ == mem_step(old(self)@),
            final(self).instruction_definitions == old(self).instruction_definitions,
    {
        let e_opt = self.ex_mem;
        self.ex_mem = None;
        match e_opt {
            None => {
                self.mem_wb = None;
            },
            Some(e) => {
                let addr = e.calculation_result;
                let mut value = e.calculation_result;

                match e.memory_operation {
                    Some(m) => {
                        if m.is_load {
                            value = self.load_memory(m.memory_range, addr);
                        } else {
                            match e.operands {
                                Some(OperandsFormat::Stype { r2_val, .. }) => {
                                    let f = self.store_memory(m.memory_range, addr, r2_val);
                                    if f {
                                        self.fault = true;
                                    }
                                },
                                _ => {},
                            }
                        }
                    },
                    None => {},
                }

                match e.rd {
                    Some(rd) => {
                        self.mem_wb = Some(MEMWB { rd, value });
                    },
                    None => {
                        self.mem_wb = None;
                    },
                }
            },
        }
        proof {
            assert(self@ =~= mem_step(old(self)@));
        }
    }

    /// Load: read the addressed bytes little-endian and widen them to 32
    /// bits with the width's signedness; an out-of-range load, including
    /// one with a negative effective address, returns 0.
    fn load_memory(&self, kind: MemoryRange, addr: i32) -> (v: i32)
        ensures
            v == load_spec(self@.mem, kind, addr),
    {
        match kind {
            MemoryRange::Byte => {
                if addr >= 0 && (addr as usize) < self.memory.len() {
                    (self.memory[addr as usize] as i8) as i32
                } else {
                    0
                }
            },
            MemoryRange::ByteUnsigned => {
                if addr >= 0 && (addr as usize) < self.memory.len() {
                    self.memory[addr as usize] as i32
                } else {
                    0
                }
            },
            MemoryRange::Half => {
                if addr >= 0 && self.memory.len() >= 2 && (addr as usize) <= self.memory.len()
                    - 2 {
                    let a = addr as usize;
                    let half = (self.memory[a] as u16) | ((self.memory[a + 1] as u16) << 8u16);
                    (half as i16) as i32
                } else {
                    0
                }
            },
            MemoryRange::HalfUnsigned => {
                if addr >= 0 && self.memory.len() >= 2 && (addr as usize) <= self.memory.len()
                    - 2 {
                    let a = addr as usize;
                    let half = (self.memory[a] as u16) | ((self.memory[a + 1] as u16) << 8u16);
                    half as i32
                } else {
                    0
                }
            },
            MemoryRange::Word => {
                if addr >= 0 && self.memory.len() >= 4 && (addr as usize) <= self.memory.len()
                    - 4 {
                    let a = addr as usize;
                    let word = (self.memory[a] as u32) | ((self.memory[a + 1] as u32) << 8u32) | ((
                    self.memory[a + 2] as u32) << 16u32) | ((self.memory[a + 3] as u32) << 24u32);
                    word as i32
                } else {
                    0
                }
            },
        }
    }

    /// Store: write the low bits of `value` little-endian at the effective
    /// address. An out-of-range store, including one with a negative
    /// effective address, writes nothing and reports a fault, which the
    /// memory stage latches as fatal.
    fn store_memory(&mut self, kind: MemoryRange, addr: i32, value: i32) -> (fault: bool)
        ensures
            final(self)@ == (MachineState {
                mem: store_spec(old(self)@.mem, kind, addr, value).0,
                ..old(self)@
            }),
            fault == store_spec(old(self)@.mem, kind, addr, value).1,
            final(self).instruction_definitions == old(self).instruction_definitions,
    {
        let fault: bool;
        match kind {
            MemoryRange::Byte | MemoryRange::ByteUnsigned => {
                if addr >= 0 && (addr as usize) < self.memory.len() {
                    self.memory[addr as usize] = value as u8;
                    fault = false;
                } else {
                    fault = true;
                }
            },
            MemoryRange::Half | MemoryRange::HalfUnsigned => {
                if addr >= 0 && self.memory.len() >= 2 && (addr as usize) <= self.memory.len()
                    - 2 {
                    let a = addr as usize;
                    self.memory[a] = value as u8;
                    self.memory[a + 1] = ((value as u16) >> 8u16) as u8;
                    fault = false;
                } else {
                    fault = true;
                }
            },
            MemoryRange::Word => {
                if addr >= 0 && self.memory.len() >= 4 && (addr as usize) <= self.memory.len()
                    - 4 {
                    let a = addr as usize;
                    self.memory[a] = value as u8;
                    self.memory[a + 1] = (((value as u32) >> 8u32) & 0xff) as u8;
                    self.memory[a + 2] = (((value as u32) >> 16u32) & 0xff) as u8;
                    self.memory[a + 3] = (((value as u32) >> 24u32) & 0xff) as u8;
                    fault = false;
                } else {
                    fault = true;
                }
            },
        }
        proof {
            assert(self@ =~= (MachineState {
                mem: store_spec(old(self)@.mem, kind, addr, value).0,
                ..old(self)@
            }));
        }
        fault
    }

    /// Write-back: a populated MEM/WB latch with a non-zero destination
    /// writes its value into the register file. Register 0 is never
    /// written, whatever the latch holds, so it always reads as zero. The
    /// latch is cleared by the next memory stage, not here.
    fn writeback(&mut self)
        requires
            old(self).wf(),
        ensures
            final(self).wf(),
            final(self)@ == wb_step(old(self)@),
            final(self)@.regs[0] == old(self)@.regs[0],
            final(self).instruction_definitions == old(self).instruction_definitions,
    {
        let w_opt = self.mem_wb;
        match w_opt {
            None => {},
            Some(w) => {
                if w.rd != 0 {
                    self.registers[w.rd] = w.value;
                }
            },
        }
        proof {
            assert(self@ =~= wb_step(old(self)@));
        }
    }

    /// The hazard decision for a decoded record: its source register
    /// indices are checked against the destinations in the EX/MEM and
    /// MEM/WB latches; formats without source registers need no action.
    fn detect_data_hazard(&self, id_ex: &IDEX) -> (r: HazardAction)
        ensures
            r == hazard_action_spec(id_ex.operands, self@.ex_mem, self@.mem_wb, self@.strategy),
    {
        match id_ex.operands {
            Some(OperandsFormat::Rtype { r1, r2, .. }) => self.check_steps(r1, Some(r2)),
            Some(OperandsFormat::Itype { r1, .. }) => self.check_steps(r1, None),
            Some(OperandsFormat::Stype { r1, r2, .. }) => self.check_steps(r1, Some(r2)),
            Some(OperandsFormat::Btype { r1, r2, .. }) => self.check_steps(r1, Some(r2)),
            _ => HazardAction::NoAction,
        }
    }

    /// The hazard decision for one pair of source indices. A non-zero
    /// EX/MEM destination that is read stalls when it is a load (its value
    /// arrives only after MEM) and is forwarded otherwise; failing that, a
    /// MEM/WB destination that is read is forwarded. Under `Interlock`
    /// every hit stalls. The boolean in a forward names the matched source
    /// position: `true` for the first.
    fn check_steps(&self, first: usize, second: Option<usize>) -> (r: HazardAction)
        ensures
            r == check_steps_spec(first, second, self@.ex_mem, self@.mem_wb, self@.strategy),
    {
        match self.ex_mem {
            Some(e) => {
                match e.rd {
                    Some(rd) => {
                        if rd != 0 && (first == rd || second == Some(rd)) {
                            let interlock = match self.strategy {
                                HazardStrategy::Interlock => true,
                                HazardStrategy::Bypassing => false,
                            };
                            let loads = match e.memory_operation {
                                Some(m) => m.is_load,
                                None => false,
                            };
                            if interlock {
                                return HazardAction::Stall;
                            }
                            if loads {
                                return HazardAction::Stall;
                            }
                            return HazardAction::ForwardExecute(first == rd);
                        }
                    },
                    None => {},
                }
            },
            None => {},
        }
        match self.mem_wb {
            Some(w) => {
                if first == w.rd || second == Some(w.rd) {
                    let interlock = match self.strategy {
                        HazardStrategy::Interlock => true,
                        HazardStrategy::Bypassing => false,
                    };
                    if interlock {
                        return HazardAction::Stall;
                    }
                    return HazardAction::ForwardMemory(first == w.rd);
                }
            },
            None => {},
        }
        HazardAction::NoAction
    }
}

} // verus!
