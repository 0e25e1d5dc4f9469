//! Machine-wide laws, proved once over the transition functions of
//! `vm::state` and therefore holding for every program the simulator runs.

use vstd::prelude::*;

use crate::vm::common::{
    EXMEM, HazardAction, HazardStrategy, IDEX, IFID, MEMWB, Opcode, OperandsFormat, idex_wf,
};
use crate::vm::rtypes::lemma_reg_field_bounds;
use crate::vm::state::{
    MachineState, decode_op_spec, drained, ex_step, execute_spec, forwarded, hazard_action_spec,
    id_step, if_step, inv, mem_step, pipeline_step, serial_step, spec_steps, wb_step, word_at,
};

verus! {

/// Decoding any opcode against a 32-register snapshot yields a well-formed
/// record: the operand bundle is in the opcode's format and every register
/// index it carries lies below 32.
pub proof fn lemma_decode_op_wf(op: Opcode, instruction: u32, regs: Seq<i32>, address: usize)
    ensures
        idex_wf(decode_op_spec(op, instruction, regs, address)),
{
    lemma_reg_field_bounds(instruction);
}

/// Forwarding a value into a well-formed record keeps it well formed: only
/// source values change, never the format or a register index.
pub proof fn lemma_forwarded_wf(d: IDEX, producer_rd: usize, value: i32)
    ensures
        idex_wf(d) ==> idex_wf(forwarded(d, producer_rd, value)),
{
}

/// Every stage preserves the state invariant, so one pipelined cycle does.
pub proof fn lemma_inv_stages(s: MachineState)
    requires
        inv(s),
    ensures
        inv(wb_step(s)),
        inv(mem_step(s)),
        inv(ex_step(s)),
        inv(id_step(s)),
        inv(if_step(s)),
{
    match s.if_id {
        Some(f) => {
            match crate::vm::state::spec_decode(f.instruction, s.regs, f.address) {
                Some(d) => {
                    lemma_decode_op_wf(d.opcode, f.instruction, s.regs, f.address);
                    match hazard_action_spec(d.operands, s.ex_mem, s.mem_wb, s.strategy) {
                        HazardAction::ForwardExecute(_) => {
                            match s.ex_mem {
                                Some(e) => {
                                    match e.rd {
                                        Some(rd) => {
                                            lemma_forwarded_wf(d, rd, e.calculation_result);
                                        },
                                        None => {},
                                    }
                                },
                                None => {},
                            }
                        },
                        HazardAction::ForwardMemory(_) => {
                            match s.mem_wb {
                                Some(w) => {
                                    lemma_forwarded_wf(d, w.rd, w.value);
                                },
                                None => {},
                            }
                        },
                        _ => {},
                    }
                },
                None => {},
            }
        },
        None => {},
    }
}

/// The zero register is architecturally zero: from any state satisfying the
/// invariant, one pipelined cycle and one non-pipelined instruction both
/// preserve the invariant, and in particular `regs[0] == 0` after every
/// write-back.
pub proof fn lemma_zero_register_step(s: MachineState)
    requires
        inv(s),
    ensures
        inv(pipeline_step(s)),
        pipeline_step(s).regs[0] == 0,
        inv(serial_step(s)),
        serial_step(s).regs[0] == 0,
{
    lemma_inv_stages(s);
    let s1 = wb_step(s);
    lemma_inv_stages(s1);
    let s2 = mem_step(s1);
    lemma_inv_stages(s2);
    let s3 = ex_step(s2);
    lemma_inv_stages(s3);
    let s4 = id_step(s3);
    lemma_inv_stages(s4);

    let t1 = if_step(s);
    lemma_inv_stages(t1);
    let t2 = id_step(t1);
    lemma_inv_stages(t2);
    let t3 = ex_step(t2);
    lemma_inv_stages(t3);
    let t4 = mem_step(t3);
    lemma_inv_stages(t4);
}

/// The zero register stays zero over any number of pipelined cycles: for
/// all cycles and all writes, `regs[0] == 0`.
pub proof fn lemma_zero_register_run(s: MachineState, n: nat)
    requires
        inv(s),
    ensures
        inv(spec_steps(s, n)),
        spec_steps(s, n).regs[0] == 0,
    decreases n,
{
    if n == 0 {
    } else {
        lemma_zero_register_run(s, (n - 1) as nat);
        lemma_zero_register_step(spec_steps(s, (n - 1) as nat));
    }
}

/// A taken branch or jump redirects the front end within its own cycle:
/// when the instruction in ID/EX resolves to a taken control transfer with
/// target `target`, then after that cycle the two wrong-path instructions
/// fetched behind it are gone (ID/EX is empty, and IF/ID holds only what
/// was fetched from `target`), and the program counter continues from
/// `target`. The instructions at the two sequentially following addresses
/// therefore never reach execution, so they never commit a register or
/// memory effect.
pub proof fn lemma_taken_branch_redirect(s: MachineState, d: IDEX, target: usize)
    requires
        inv(s),
        s.mem.len() <= usize::MAX,
        s.id_ex == Some(d),
        execute_spec(d).flush,
        execute_spec(d).new_pc == Some(target),
    ensures
        pipeline_step(s).id_ex is None,
        ({
            let m = mem_step(wb_step(s)).mem;
            if m.len() >= 4 && target <= m.len() - 4 {
                pipeline_step(s).if_id == Some(
                    IFID { instruction: word_at(m, target as int), address: target },
                ) && pipeline_step(s).pc == target + 4
            } else {
                pipeline_step(s).if_id is None && pipeline_step(s).pc == target
            }
        }),
{
    let s2 = mem_step(wb_step(s));
    assert(s2.id_ex == Some(d));
    let s3 = ex_step(s2);
    assert(s3.pc == target && s3.if_id is None && s3.id_ex is None);
    let s4 = id_step(s3);
    assert(s4.pc == target && s4.if_id is None && s4.id_ex is None && !s4.stall);
    assert(s4.mem == s2.mem);
}

/// A drained machine commits nothing more: once all four latches are empty
/// and the program counter has run off the end of memory, every further
/// pipelined cycle advances only the cycle counter, and the pipeline stays
/// drained.
pub proof fn lemma_drained_machine_idle(s: MachineState)
    requires
        drained(s),
        !s.stall,
        s.mem.len() < 4 || s.pc > s.mem.len() - 4,
    ensures
        pipeline_step(s) == (MachineState { cycle: (s.cycle + 1) as usize, ..s }),
        drained(pipeline_step(s)),
{
    assert(pipeline_step(s) =~= (MachineState { cycle: (s.cycle + 1) as usize, ..s }));
}


/// The pipelined and the non-pipelined path agree instruction by
/// instruction: on a drained machine with exactly one fetchable
/// instruction left, and whose control transfer (if any) leaves the
/// image, five pipelined cycles produce the same registers, memory,
/// program counter, fault flag and cycle count as one non-pipelined
/// step, and the pipeline has drained again.
pub proof fn lemma_single_instruction_equivalence(s: MachineState)
    requires
        drained(s),
        !s.stall,
        s.cycle + 5 <= usize::MAX,
        4 <= s.mem.len() <= usize::MAX,
        s.pc == s.mem.len() - 4,
        (match crate::vm::state::spec_decode(word_at(s.mem, s.pc as int), s.regs, s.pc) {
            Some(d) => match execute_spec(d).new_pc {
                Some(p) => p + 4 > s.mem.len(),
                None => true,
            },
            None => true,
        }),
    ensures
        spec_steps(s, 5).regs == serial_step(s).regs,
        spec_steps(s, 5).mem == serial_step(s).mem,
        spec_steps(s, 5).pc == serial_step(s).pc,
        spec_steps(s, 5).fault == serial_step(s).fault,
        spec_steps(s, 5).cycle == serial_step(s).cycle,
        drained(spec_steps(s, 5)),
{
    let t1 = if_step(s);
    let t2 = id_step(t1);
    let t3 = ex_step(t2);
    let t4 = mem_step(t3);
    let t5 = wb_step(t4);

    let s1 = pipeline_step(s);
    assert(s1 =~= (MachineState { cycle: (s.cycle + 1) as usize, ..t1 }));

    let s2 = pipeline_step(s1);
    assert(s2 =~= (MachineState {
        if_id: None,
        id_ex: t2.id_ex,
        cycle: (s.cycle + 2) as usize,
        ..t1
    }));

    let s3 = pipeline_step(s2);
    assert(s3 =~= (MachineState {
        if_id: None,
        id_ex: None,
        ex_mem: t3.ex_mem,
        pc: t3.pc,
        cycle: (s.cycle + 3) as usize,
        ..t1
    }));

    let s4 = pipeline_step(s3);
    assert(s4 =~= (MachineState {
        if_id: None,
        id_ex: None,
        ex_mem: None,
        mem_wb: t4.mem_wb,
        mem: t4.mem,
        fault: t4.fault,
        pc: t3.pc,
        cycle: (s.cycle + 4) as usize,
        ..t1
    }));

    let s5 = pipeline_step(s4);
    assert(s5 =~= (MachineState {
        if_id: None,
        id_ex: None,
        ex_mem: None,
        mem_wb: None,
        regs: t5.regs,
        mem: t4.mem,
        fault: t4.fault,
        pc: t3.pc,
        stall: false,
        cycle: (s.cycle + 5) as usize,
        ..t1
    }));

    assert(spec_steps(s, 0) == s);
    assert(spec_steps(s, 1) == s1);
    assert(spec_steps(s, 2) == s2);
    assert(spec_steps(s, 3) == s3);
    assert(spec_steps(s, 4) == s4);
    assert(spec_steps(s, 5) == s5);
}

/// A forward is only ever issued soundly: `ForwardExecute` only for a
/// populated EX/MEM latch whose producer is not a load and writes a
/// non-zero register that the consumer actually reads, and `ForwardMemory`
/// only for a populated MEM/WB latch whose destination the consumer reads;
/// the carried boolean says whether the first source is the match. A load
/// producer in EX/MEM always stalls the consumer, since its value arrives
/// only after the memory stage.
pub proof fn lemma_forward_sound(
    first: usize,
    second: Option<usize>,
    ex_mem: Option<EXMEM>,
    mem_wb: Option<MEMWB>,
    strategy: HazardStrategy,
)
    ensures
        ({
            let action = crate::vm::state::check_steps_spec(first, second, ex_mem, mem_wb, strategy);
            &&& action matches HazardAction::ForwardExecute(to_first) ==> {
                &&& ex_mem matches Some(e)
                &&& ex_mem->Some_0.rd matches Some(rd)
                &&& ex_mem->Some_0.rd->Some_0 != 0
                &&& !(ex_mem->Some_0.memory_operation matches Some(m) && m.is_load)
                &&& to_first == (first == ex_mem->Some_0.rd->Some_0)
                &&& first == ex_mem->Some_0.rd->Some_0 || second == Some(ex_mem->Some_0.rd->Some_0)
            }
            &&& action matches HazardAction::ForwardMemory(to_first) ==> {
                &&& mem_wb matches Some(w)
                &&& to_first == (first == mem_wb->Some_0.rd)
                &&& first == mem_wb->Some_0.rd || second == Some(mem_wb->Some_0.rd)
            }
            &&& (ex_mem matches Some(e) && e.rd matches Some(rd) && rd != 0 && (first == rd
                || second == Some(rd)) && (e.memory_operation matches Some(m) && m.is_load))
                ==> action is Stall
        }),
{
}

/// The interlock strategy never forwards: whatever is in flight, its hazard
/// decision is to do nothing or to stall. Interlock and bypassing differ
/// only in how a hazard is mitigated, never in what the instruction
/// computes.
pub proof fn lemma_interlock_never_forwards(
    operands: Option<OperandsFormat>,
    ex_mem: Option<EXMEM>,
    mem_wb: Option<MEMWB>,
)
    ensures
        hazard_action_spec(operands, ex_mem, mem_wb, HazardStrategy::Interlock)
            is NoAction || hazard_action_spec(
            operands,
            ex_mem,
            mem_wb,
            HazardStrategy::Interlock,
        ) is Stall,
{
}

} // verus!
