use vstd::prelude::*;

use crate::instruction::{Opcode, Operands};
use crate::interpreter::{EmulationCPU, wf_instruction, add_tr, sub_tr, cmp_tr, logic_tr,
    LogicKind, mov_tr, movzx_tr, lea_tr, jmp_iml_tr, jcc_tr, cmov_tr, setcc_tr, call_tr,
    ret_tr, lret_tr, leave_tr, pushf_tr, popf_tr, push_tr, pop_tr, inc_tr, dec_tr, not_tr,
    neg_tr, shift_tr, xchg_tr, cmpxchg_tr, bt_tr, btx_tr, mul_tr, imul_tr, div_tr, ldt_tr,
    rdmsr_tr, cpuid_tr, movps_tr, movs_tr, scas_tr, arithmetic_tr, shift_rotate_tr,
    register_operation_tr, compare_mul_operation_tr, bit_manipulation_tr, Step,
    cond_o_sp, cond_no_sp, cond_b_sp, cond_ae_sp, cond_e_sp, cond_ne_sp, cond_be_sp, cond_a_sp, cond_s_sp, cond_ns_sp, cond_p_sp, cond_np_sp, cond_l_sp, cond_ge_sp, cond_le_sp, cond_g_sp};
use crate::machine_state::{MachineState, StateView, wf_state, set_flag_sp};
use crate::VmError;

verus! {

/// What the execution loop does after one instruction: go on to the
/// next one, or stop because the guest signalled success with `INT n`.
#[derive(Debug, Copy, Clone, PartialEq, Eq, Structural)]
pub enum Flow {
    Next,
    Terminated,
}

/// Lift a single-operation transition into a dispatch outcome.
pub open spec fn lift(step: Step) -> (Result<Flow, VmError>, StateView) {
    match step {
        (Ok(()), s) => (Ok(Flow::Next), s),
        (Err(e), s) => (Err(e), s),
    }
}

/// The transition of the dispatcher: the per-opcode transition of the
/// operation, `Terminated` for `INT n`, no effect for `NOP` and the
/// flag writes of `CLD`/`STD`, and a fault for the operations the
/// interpreter leaves out.
pub open spec fn dispatch_tr(s: StateView, opcode: Opcode, op: Operands) -> (
    Result<Flow, VmError>,
    StateView,
) {
    match opcode {
        Opcode::Add => lift(add_tr(s, op)),
        Opcode::Sub => lift(sub_tr(s, op)),
        Opcode::Sbb => lift(sub_tr(s, op)),
        Opcode::Cmp => lift(cmp_tr(s, op)),
        Opcode::And => lift(logic_tr(s, op, LogicKind::OpAnd, true)),
        Opcode::Or => lift(logic_tr(s, op, LogicKind::OpOr, true)),
        Opcode::Xor => lift(logic_tr(s, op, LogicKind::OpXor, true)),
        Opcode::Test => lift(logic_tr(s, op, LogicKind::OpAnd, false)),
        Opcode::Mov => lift(mov_tr(s, op)),
        Opcode::Movsx => lift(mov_tr(s, op)),
        Opcode::Movzx => lift(movzx_tr(s, op)),
        Opcode::Lea => lift(lea_tr(s, op)),
        Opcode::Jmp => lift(jmp_iml_tr(s, op)),
        Opcode::Call => lift(call_tr(s, op)),
        Opcode::Ret => lift(ret_tr(s)),
        Opcode::Lret => lift(lret_tr(s)),
        Opcode::Leave => lift(leave_tr(s)),
        Opcode::Pushf => lift(pushf_tr(s)),
        Opcode::Popf => lift(popf_tr(s)),
        Opcode::Push => lift(push_tr(s, op)),
        Opcode::Pop => lift(pop_tr(s, op)),
        Opcode::Xchg => lift(xchg_tr(s, op)),
        Opcode::Cmpxchg => lift(cmpxchg_tr(s, op)),
        Opcode::Bt => lift(bt_tr(s, op)),
        Opcode::Bts => lift(btx_tr(s, op, 0)),
        Opcode::Btr => lift(btx_tr(s, op, 1)),
        Opcode::Btc => lift(btx_tr(s, op, 2)),
        Opcode::Imul => lift(imul_tr(s, op)),
        Opcode::Movs => lift(movs_tr(s, op)),
        Opcode::Scas => lift(scas_tr(s, op)),
        Opcode::Lgdt => lift(ldt_tr(s, op, true)),
        Opcode::Lidt => lift(ldt_tr(s, op, false)),
        Opcode::Rdmsr => lift(rdmsr_tr(s)),
        Opcode::Cpuid => lift(cpuid_tr(s)),
        Opcode::Movps => lift(movps_tr(s, op)),
        Opcode::Movd => lift(movps_tr(s, op)),
        Opcode::Arithmetic => lift(arithmetic_tr(s, op)),
        Opcode::ShiftRotate => lift(shift_rotate_tr(s, op)),
        Opcode::RegisterOperation => lift(register_operation_tr(s, op)),
        Opcode::CompareMulOperation => lift(compare_mul_operation_tr(s, op)),
        Opcode::BitManipulation => lift(bit_manipulation_tr(s, op)),
        Opcode::Nop => (Ok(Flow::Next), s),
        Opcode::Wrmsr => (Ok(Flow::Next), s),
        Opcode::Out => (Ok(Flow::Next), s),
        Opcode::Cld => (
            Ok(Flow::Next),
            StateView {
                rflags: set_flag_sp(s.rflags, crate::instruction::Flags::Direction, false),
                ..s
            },
        ),
        Opcode::Std => (
            Ok(Flow::Next),
            StateView {
                rflags: set_flag_sp(s.rflags, crate::instruction::Flags::Direction, true),
                ..s
            },
        ),
        Opcode::Int => (Ok(Flow::Terminated), s),
        Opcode::Syscall => (Err(VmError::UnsupportedSyscall), s),
        Opcode::Adc => (Err(VmError::UnsupportedInstruction), s),
        Opcode::Stos => lift(crate::interpreter::stos_tr(s, op)),
        Opcode::Cmovo => lift(cmov_tr(s, op, cond_o_sp(s))),
        Opcode::Cmovno => lift(cmov_tr(s, op, cond_no_sp(s))),
        Opcode::Cmovb => lift(cmov_tr(s, op, cond_b_sp(s))),
        Opcode::Cmovae => lift(cmov_tr(s, op, cond_ae_sp(s))),
        Opcode::Cmove => lift(cmov_tr(s, op, cond_e_sp(s))),
        Opcode::Cmovne => lift(cmov_tr(s, op, cond_ne_sp(s))),
        Opcode::Cmovbe => lift(cmov_tr(s, op, cond_be_sp(s))),
        Opcode::Cmova => lift(cmov_tr(s, op, cond_a_sp(s))),
        Opcode::Cmovs => lift(cmov_tr(s, op, cond_s_sp(s))),
        Opcode::Cmovns => lift(cmov_tr(s, op, cond_ns_sp(s))),
        Opcode::Cmovp => lift(cmov_tr(s, op, cond_p_sp(s))),
        Opcode::Cmovnp => lift(cmov_tr(s, op, cond_np_sp(s))),
        Opcode::Cmovl => lift(cmov_tr(s, op, cond_l_sp(s))),
        Opcode::Cmovge => lift(cmov_tr(s, op, cond_ge_sp(s))),
        Opcode::Cmovle => lift(cmov_tr(s, op, cond_le_sp(s))),
        Opcode::Cmovg => lift(cmov_tr(s, op, cond_g_sp(s))),
        Opcode::Jo => lift(jcc_tr(s, op, cond_o_sp(s))),
        Opcode::Jno => lift(jcc_tr(s, op, cond_no_sp(s))),
        Opcode::Jb => lift(jcc_tr(s, op, cond_b_sp(s))),
        Opcode::Jae => lift(jcc_tr(s, op, cond_ae_sp(s))),
        Opcode::Je => lift(jcc_tr(s, op, cond_e_sp(s))),
        Opcode::Jne => lift(jcc_tr(s, op, cond_ne_sp(s))),
        Opcode::Jbe => lift(jcc_tr(s, op, cond_be_sp(s))),
        Opcode::Ja => lift(jcc_tr(s, op, cond_a_sp(s))),
        Opcode::Js => lift(jcc_tr(s, op, cond_s_sp(s))),
        Opcode::Jns => lift(jcc_tr(s, op, cond_ns_sp(s))),
        Opcode::Jp => lift(jcc_tr(s, op, cond_p_sp(s))),
        Opcode::Jnp => lift(jcc_tr(s, op, cond_np_sp(s))),
        Opcode::Jl => lift(jcc_tr(s, op, cond_l_sp(s))),
        Opcode::Jge => lift(jcc_tr(s, op, cond_ge_sp(s))),
        Opcode::Jle => lift(jcc_tr(s, op, cond_le_sp(s))),
        Opcode::Jg => lift(jcc_tr(s, op, cond_g_sp(s))),
        Opcode::Seto => lift(setcc_tr(s, op, cond_o_sp(s))),
        Opcode::Setno => lift(setcc_tr(s, op, cond_no_sp(s))),
        Opcode::Setb => lift(setcc_tr(s, op, cond_b_sp(s))),
        Opcode::Setae => lift(setcc_tr(s, op, cond_ae_sp(s))),
        Opcode::Sete => lift(setcc_tr(s, op, cond_e_sp(s))),
        Opcode::Setne => lift(setcc_tr(s, op, cond_ne_sp(s))),
        Opcode::Setbe => lift(setcc_tr(s, op, cond_be_sp(s))),
        Opcode::Seta => lift(setcc_tr(s, op, cond_a_sp(s))),
        Opcode::Sets => lift(setcc_tr(s, op, cond_s_sp(s))),
        Opcode::Setns => lift(setcc_tr(s, op, cond_ns_sp(s))),
        Opcode::Setp => lift(setcc_tr(s, op, cond_p_sp(s))),
        Opcode::Setnp => lift(setcc_tr(s, op, cond_np_sp(s))),
        Opcode::Setl => lift(setcc_tr(s, op, cond_l_sp(s))),
        Opcode::Setge => lift(setcc_tr(s, op, cond_ge_sp(s))),
        Opcode::Setle => lift(setcc_tr(s, op, cond_le_sp(s))),
        Opcode::Setg => lift(setcc_tr(s, op, cond_g_sp(s))),
        _ => (Err(VmError::UnsupportedInstruction), s),
    }
}

/// Apply one decoded operation to the machine state.
#[verifier::rlimit(100)]
#[verifier::spinoff_prover]
pub fn dispatch(machine_state: &mut MachineState, opcode: Opcode, op: &Operands) -> (r: Result<
    Flow,
    VmError,
>)
    requires
        wf_state(old(machine_state)@),
        wf_instruction(opcode, *op),
    ensures
        wf_state(final(machine_state)@),
        ({
            let (tr, post) = dispatch_tr(old(machine_state)@, opcode, *op);
            r == tr && final(machine_state)@ == post
        }),
{
    let cpu = EmulationCPU;
    match opcode {
        Opcode::Add => to_flow(cpu.add(machine_state, op)),
        Opcode::Sub => to_flow(cpu.sub(machine_state, op)),
        Opcode::Sbb => to_flow(cpu.sbb(machine_state, op)),
        Opcode::Cmp => to_flow(cpu.cmp(machine_state, op)),
        Opcode::And => to_flow(cpu.and(machine_state, op)),
        Opcode::Or => to_flow(cpu.or(machine_state, op)),
        Opcode::Xor => to_flow(cpu.xor(machine_state, op)),
        Opcode::Test => to_flow(cpu.test(machine_state, op)),
        Opcode::Mov => to_flow(cpu.mov(machine_state, op)),
        Opcode::Movsx => to_flow(cpu.movsx(machine_state, op)),
        Opcode::Movzx => to_flow(cpu.movzx(machine_state, op)),
        Opcode::Lea => to_flow(cpu.lea(machine_state, op)),
        Opcode::Jmp => to_flow(cpu.jmp(machine_state, op)),
        Opcode::Call => to_flow(cpu.call(machine_state, op)),
        Opcode::Ret => to_flow(cpu.ret(machine_state)),
        Opcode::Lret => to_flow(cpu.lret(machine_state)),
        Opcode::Leave => to_flow(cpu.leave(machine_state)),
        Opcode::Pushf => to_flow(cpu.pushf(machine_state)),
        Opcode::Popf => to_flow(cpu.popf(machine_state)),
        Opcode::Push => to_flow(cpu.push(machine_state, op)),
        Opcode::Pop => to_flow(cpu.pop(machine_state, op)),
        Opcode::Xchg => to_flow(cpu.xchg(machine_state, op)),
        Opcode::Cmpxchg => to_flow(cpu.cmpxchg(machine_state, op)),
        Opcode::Bt => to_flow(cpu.bt(machine_state, op)),
        Opcode::Bts => to_flow(cpu.bts(machine_state, op)),
        Opcode::Btr => to_flow(cpu.btr(machine_state, op)),
        Opcode::Btc => to_flow(cpu.btc(machine_state, op)),
        Opcode::Imul => to_flow(cpu.imul(machine_state, op)),
        Opcode::Movs => to_flow(cpu.movs(machine_state, op)),
        Opcode::Scas => to_flow(cpu.scas(machine_state, op)),
        Opcode::Lgdt => to_flow(cpu.lgdt(machine_state, op)),
        Opcode::Lidt => to_flow(cpu.lidt(machine_state, op)),
        Opcode::Rdmsr => to_flow(cpu.rdmsr(machine_state)),
        Opcode::Cpuid => to_flow(cpu.cpuid(machine_state)),
        Opcode::Movps => to_flow(cpu.movps(machine_state, op)),
        Opcode::Movd => to_flow(cpu.movd(machine_state, op)),
        Opcode::Arithmetic => to_flow(cpu.arithmetic(machine_state, op)),
        Opcode::ShiftRotate => to_flow(cpu.shift_rotate(machine_state, op)),
        Opcode::RegisterOperation => to_flow(cpu.register_operation(machine_state, op)),
        Opcode::CompareMulOperation => to_flow(cpu.compare_mul_operation(machine_state, op)),
        Opcode::BitManipulation => to_flow(cpu.bit_manipulation(machine_state, op)),
        Opcode::Nop => Ok(Flow::Next),
        Opcode::Wrmsr => to_flow(cpu.wrmsr(machine_state)),
        Opcode::Out => to_flow(cpu.out(machine_state)),
        Opcode::Cld => to_flow(cpu.cld(machine_state)),
        Opcode::Std => to_flow(cpu.set_direction(machine_state)),
        Opcode::Int => Ok(Flow::Terminated),
        Opcode::Syscall => to_flow(cpu.syscall(machine_state)),
        Opcode::Adc => to_flow(cpu.adc(machine_state, op)),
        Opcode::Stos => to_flow(cpu.stos(machine_state, op)),
        Opcode::Cmovo => to_flow(cpu.cmovo(machine_state, op)),
        Opcode::Cmovno => to_flow(cpu.cmovno(machine_state, op)),
        Opcode::Cmovb => to_flow(cpu.cmovb(machine_state, op)),
        Opcode::Cmovae => to_flow(cpu.cmovae(machine_state, op)),
        Opcode::Cmove => to_flow(cpu.cmove(machine_state, op)),
        Opcode::Cmovne => to_flow(cpu.cmovne(machine_state, op)),
        Opcode::Cmovbe => to_flow(cpu.cmovbe(machine_state, op)),
        Opcode::Cmova => to_flow(cpu.cmova(machine_state, op)),
        Opcode::Cmovs => to_flow(cpu.cmovs(machine_state, op)),
        Opcode::Cmovns => to_flow(cpu.cmovns(machine_state, op)),
        Opcode::Cmovp => to_flow(cpu.cmovp(machine_state, op)),
        Opcode::Cmovnp => to_flow(cpu.cmovnp(machine_state, op)),
        Opcode::Cmovl => to_flow(cpu.cmovl(machine_state, op)),
        Opcode::Cmovge => to_flow(cpu.cmovge(machine_state, op)),
        Opcode::Cmovle => to_flow(cpu.cmovle(machine_state, op)),
        Opcode::Cmovg => to_flow(cpu.cmovg(machine_state, op)),
        Opcode::Jo => to_flow(cpu.jo(machine_state, op)),
        Opcode::Jno => to_flow(cpu.jno(machine_state, op)),
        Opcode::Jb => to_flow(cpu.jb(machine_state, op)),
        Opcode::Jae => to_flow(cpu.jae(machine_state, op)),
        Opcode::Je => to_flow(cpu.je(machine_state, op)),
        Opcode::Jne => to_flow(cpu.jne(machine_state, op)),
        Opcode::Jbe => to_flow(cpu.jbe(machine_state, op)),
        Opcode::Ja => to_flow(cpu.ja(machine_state, op)),
        Opcode::Js => to_flow(cpu.js(machine_state, op)),
        Opcode::Jns => to_flow(cpu.jns(machine_state, op)),
        Opcode::Jp => to_flow(cpu.jp(machine_state, op)),
        Opcode::Jnp => to_flow(cpu.jnp(machine_state, op)),
        Opcode::Jl => to_flow(cpu.jl(machine_state, op)),
        Opcode::Jge => to_flow(cpu.jge(machine_state, op)),
        Opcode::Jle => to_flow(cpu.jle(machine_state, op)),
        Opcode::Jg => to_flow(cpu.jg(machine_state, op)),
        Opcode::Seto => to_flow(cpu.seto(machine_state, op)),
        Opcode::Setno => to_flow(cpu.setno(machine_state, op)),
        Opcode::Setb => to_flow(cpu.setb(machine_state, op)),
        Opcode::Setae => to_flow(cpu.setae(machine_state, op)),
        Opcode::Sete => to_flow(cpu.sete(machine_state, op)),
        Opcode::Setne => to_flow(cpu.setne(machine_state, op)),
        Opcode::Setbe => to_flow(cpu.setbe(machine_state, op)),
        Opcode::Seta => to_flow(cpu.seta(machine_state, op)),
        Opcode::Sets => to_flow(cpu.sets(machine_state, op)),
        Opcode::Setns => to_flow(cpu.setns(machine_state, op)),
        Opcode::Setp => to_flow(cpu.setp(machine_state, op)),
        Opcode::Setnp => to_flow(cpu.setnp(machine_state, op)),
        Opcode::Setl => to_flow(cpu.setl(machine_state, op)),
        Opcode::Setge => to_flow(cpu.setge(machine_state, op)),
        Opcode::Setle => to_flow(cpu.setle(machine_state, op)),
        Opcode::Setg => to_flow(cpu.setg(machine_state, op)),
        _ => Err(VmError::UnsupportedInstruction),
    }
}

/// Turn an operation outcome into a dispatch outcome.
fn to_flow(r: Result<(), VmError>) -> (out: Result<Flow, VmError>)
    ensures
        out == (match r {
            Ok(()) => Ok::<Flow, VmError>(Flow::Next),
            Err(e) => Err(e),
        }),
{
    match r {
        Ok(()) => Ok(Flow::Next),
        Err(e) => Err(e),
    }
}

} // verus!
