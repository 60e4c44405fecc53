use vstd::prelude::*;

use crate::instruction::{Flags, Opcode, Operand, Operands, OperandSize, Register,
    operand_readable, operand_writable};
use crate::machine_state::{MachineState, StateView, wf_state, get_value_sp, set_value_sp,
    get_register_value_sp, set_register_value_sp, get_flag_sp, set_flag_sp, compute_flags_sp,
    ea_sp};
use crate::memory::{mem_range_mapped, mem_write_bytes, mem_u64_le, le_bytes_u64};
use crate::VmError;

verus! {

/// The per-opcode semantics of the emulator. Each method applies one
/// operation to the machine state; its contract gives the exact
/// transition as a function of the state and the operands.
pub struct EmulationCPU;

/// A decoded record with source and destination: both operand slots
/// filled, the source readable, the destination writable, and an
/// integer operand width.
pub open spec fn wf_two(op: Operands) -> bool {
    &&& op.operands.0 is Some
    &&& op.operands.1 is Some
    &&& operand_readable(op.operands.0.unwrap())
    &&& operand_writable(op.operands.1.unwrap())
    &&& op.spec_size() != OperandSize::Bit128
}

/// A decoded record with one readable operand.
pub open spec fn wf_one_read(op: Operands) -> bool {
    &&& op.operands.0 is Some
    &&& op.operands.1 is None
    &&& operand_readable(op.operands.0.unwrap())
    &&& op.spec_size() != OperandSize::Bit128
}

/// A decoded record with one writable operand.
pub open spec fn wf_one_write(op: Operands) -> bool {
    &&& wf_one_read(op)
    &&& operand_writable(op.operands.0.unwrap())
}

/// Reading an operand: the value, or the fault with the address that
/// misses.
pub open spec fn rd(s: StateView, o: Operand, w: OperandSize) -> Result<i64, VmError> {
    match get_value_sp(s, o, w) {
        Some(v) => Ok(v),
        None => Err(VmError::UnmappedPage(ea_sp(s, o))),
    }
}

/// Writing an operand: the new state, or the fault with the address
/// that misses.
pub open spec fn wr(s: StateView, v: i64, o: Operand, w: OperandSize) -> Result<
    StateView,
    VmError,
> {
    match set_value_sp(s, v, o, w) {
        Some(s1) => Ok(s1),
        None => Err(VmError::UnmappedPage(ea_sp(s, o))),
    }
}

/// Outcome of one operation: what the caller is told, and the state
/// the machine is left in (unchanged whenever the outcome is an
/// error, except where a transition says otherwise).
pub type Step = (Result<(), VmError>, StateView);

/// The wrapped sum of two values at a width, zero-extended back into
/// an `i64` for widths below 64 bits.
pub open spec fn add_result_sp(v0: i64, v1: i64, w: OperandSize) -> i64 {
    match w {
        OperandSize::Bit8 => (v1 as u8).wrapping_add(v0 as u8) as i64,
        OperandSize::Bit16 => (v1 as u16).wrapping_add(v0 as u16) as i64,
        OperandSize::Bit32 => (v1 as u32).wrapping_add(v0 as u32) as i64,
        OperandSize::Bit64 => (v1 as u64).wrapping_add(v0 as u64) as i64,
        OperandSize::Bit128 => 0,
    }
}

/// Unsigned overflow of the sum at a width: the Carry flag of an add.
pub open spec fn add_carry_sp(v0: i64, v1: i64, w: OperandSize) -> bool {
    match w {
        OperandSize::Bit8 => (v1 as u8).checked_add(v0 as u8) is None,
        OperandSize::Bit16 => (v1 as u16).checked_add(v0 as u16) is None,
        OperandSize::Bit32 => (v1 as u32).checked_add(v0 as u32) is None,
        OperandSize::Bit64 => (v1 as u64).checked_add(v0 as u64) is None,
        OperandSize::Bit128 => false,
    }
}

/// Signed overflow of the sum at a width: the Overflow flag of an add.
pub open spec fn add_overflow_sp(v0: i64, v1: i64, w: OperandSize) -> bool {
    match w {
        OperandSize::Bit8 => (v1 as i8).checked_add(v0 as i8) is None,
        OperandSize::Bit16 => (v1 as i16).checked_add(v0 as i16) is None,
        OperandSize::Bit32 => (v1 as i32).checked_add(v0 as i32) is None,
        OperandSize::Bit64 => (v1 as i64).checked_add(v0 as i64) is None,
        OperandSize::Bit128 => false,
    }
}

/// The wrapped difference `v1 - v0` at a width, zero-extended back
/// into an `i64` for widths below 64 bits.
pub open spec fn sub_result_sp(v0: i64, v1: i64, w: OperandSize) -> i64 {
    match w {
        OperandSize::Bit8 => (v1 as u8).wrapping_sub(v0 as u8) as i64,
        OperandSize::Bit16 => (v1 as u16).wrapping_sub(v0 as u16) as i64,
        OperandSize::Bit32 => (v1 as u32).wrapping_sub(v0 as u32) as i64,
        OperandSize::Bit64 => (v1 as u64).wrapping_sub(v0 as u64) as i64,
        OperandSize::Bit128 => 0,
    }
}

/// Unsigned borrow of `v1 - v0` at a width: the Carry flag of a sub.
pub open spec fn sub_carry_sp(v0: i64, v1: i64, w: OperandSize) -> bool {
    match w {
        OperandSize::Bit8 => (v1 as u8).checked_sub(v0 as u8) is None,
        OperandSize::Bit16 => (v1 as u16).checked_sub(v0 as u16) is None,
        OperandSize::Bit32 => (v1 as u32).checked_sub(v0 as u32) is None,
        OperandSize::Bit64 => (v1 as u64).checked_sub(v0 as u64) is None,
        OperandSize::Bit128 => false,
    }
}

/// Signed overflow of `v1 - v0` at a width: the Overflow flag of a
/// sub.
pub open spec fn sub_overflow_sp(v0: i64, v1: i64, w: OperandSize) -> bool {
    match w {
        OperandSize::Bit8 => (v1 as i8).checked_sub(v0 as i8) is None,
        OperandSize::Bit16 => (v1 as i16).checked_sub(v0 as i16) is None,
        OperandSize::Bit32 => (v1 as i32).checked_sub(v0 as i32) is None,
        OperandSize::Bit64 => (v1 as i64).checked_sub(v0 as i64) is None,
        OperandSize::Bit128 => false,
    }
}

/// RFLAGS after an add: Carry and Overflow from the sum's unsigned and
/// signed overflow, then Zero/Sign/Parity from the result.
pub open spec fn add_flags_sp(rflags: i64, v0: i64, v1: i64, w: OperandSize) -> i64 {
    compute_flags_sp(
        set_flag_sp(
            set_flag_sp(rflags, Flags::Carry, add_carry_sp(v0, v1, w)),
            Flags::Overflow,
            add_overflow_sp(v0, v1, w),
        ),
        add_result_sp(v0, v1, w),
        w,
    )
}

/// RFLAGS after a sub or compare: Carry and Overflow from the
/// difference's unsigned borrow and signed overflow, then
/// Zero/Sign/Parity from the result.
pub open spec fn sub_flags_sp(rflags: i64, v0: i64, v1: i64, w: OperandSize) -> i64 {
    compute_flags_sp(
        set_flag_sp(
            set_flag_sp(rflags, Flags::Carry, sub_carry_sp(v0, v1, w)),
            Flags::Overflow,
            sub_overflow_sp(v0, v1, w),
        ),
        sub_result_sp(v0, v1, w),
        w,
    )
}

/// RFLAGS after a bitwise operation: Zero/Sign/Parity from the result,
/// Carry and Overflow cleared.
pub open spec fn logic_flags_sp(rflags: i64, result: i64, w: OperandSize) -> i64 {
    set_flag_sp(
        set_flag_sp(compute_flags_sp(rflags, result, w), Flags::Carry, false),
        Flags::Overflow,
        false,
    )
}

/// The transition of a two-operand add: read source and destination,
/// store the wrapped sum, fold the flags in.
pub open spec fn add_tr(s: StateView, op: Operands) -> Step {
    let w = op.spec_size();
    let src = op.operands.0.unwrap();
    let dst = op.operands.1.unwrap();
    match rd(s, src, w) {
        Err(e) => (Err(e), s),
        Ok(v0) => match rd(s, dst, w) {
            Err(e) => (Err(e), s),
            Ok(v1) => match wr(s, add_result_sp(v0, v1, w), dst, w) {
                Err(e) => (Err(e), s),
                Ok(s1) => (
                    Ok(()),
                    StateView { rflags: add_flags_sp(s1.rflags, v0, v1, w), ..s1 },
                ),
            },
        },
    }
}

/// The transition of a two-operand sub: read source and destination,
/// store the wrapped difference `dst - src`, fold the flags in.
pub open spec fn sub_tr(s: StateView, op: Operands) -> Step {
    let w = op.spec_size();
    let src = op.operands.0.unwrap();
    let dst = op.operands.1.unwrap();
    match rd(s, src, w) {
        Err(e) => (Err(e), s),
        Ok(v0) => match rd(s, dst, w) {
            Err(e) => (Err(e), s),
            Ok(v1) => match wr(s, sub_result_sp(v0, v1, w), dst, w) {
                Err(e) => (Err(e), s),
                Ok(s1) => (
                    Ok(()),
                    StateView { rflags: sub_flags_sp(s1.rflags, v0, v1, w), ..s1 },
                ),
            },
        },
    }
}

/// The transition of a compare: the flags of `dst - src`, nothing
/// stored.
pub open spec fn cmp_tr(s: StateView, op: Operands) -> Step {
    let w = op.spec_size();
    let src = op.operands.0.unwrap();
    let dst = op.operands.1.unwrap();
    match rd(s, src, w) {
        Err(e) => (Err(e), s),
        Ok(v0) => match rd(s, dst, w) {
            Err(e) => (Err(e), s),
            Ok(v1) => (Ok(()), StateView { rflags: sub_flags_sp(s.rflags, v0, v1, w), ..s }),
        },
    }
}

/// Which bitwise operation a logic transition performs.
pub enum LogicKind {
    OpAnd,
    OpOr,
    OpXor,
}

/// The result of a bitwise operation on the raw 64-bit values.
pub open spec fn logic_result_sp(kind: LogicKind, v0: i64, v1: i64) -> i64 {
    match kind {
        LogicKind::OpAnd => v0 & v1,
        LogicKind::OpOr => v0 | v1,
        LogicKind::OpXor => v0 ^ v1,
    }
}

/// The transition of a two-operand bitwise operation: store the
/// result (unless it is a test), set Zero/Sign/Parity from it and
/// clear Carry and Overflow.
pub open spec fn logic_tr(s: StateView, op: Operands, kind: LogicKind, store: bool) -> Step {
    let w = op.spec_size();
    let src = op.operands.0.unwrap();
    let dst = op.operands.1.unwrap();
    match rd(s, src, w) {
        Err(e) => (Err(e), s),
        Ok(v0) => match rd(s, dst, w) {
            Err(e) => (Err(e), s),
            Ok(v1) => {
                let result = logic_result_sp(kind, v0, v1);
                if store {
                    match wr(s, result, dst, w) {
                        Err(e) => (Err(e), s),
                        Ok(s1) => (
                            Ok(()),
                            StateView { rflags: logic_flags_sp(s1.rflags, result, w), ..s1 },
                        ),
                    }
                } else {
                    (Ok(()), StateView { rflags: logic_flags_sp(s.rflags, result, w), ..s })
                }
            },
        },
    }
}

/// The sum, carry and overflow of an add at a width.
fn arith_add(value0: i64, value1: i64, operand_size: OperandSize) -> (r: (i64, bool, bool))
    requires
        operand_size != OperandSize::Bit128,
    ensures
        r.0 == add_result_sp(value0, value1, operand_size),
        r.1 == add_carry_sp(value0, value1, operand_size),
        r.2 == add_overflow_sp(value0, value1, operand_size),
{
    match operand_size {
        OperandSize::Bit8 => (
            (value1 as u8).wrapping_add(value0 as u8) as i64,
            (value1 as u8).checked_add(value0 as u8).is_none(),
            (value1 as i8).checked_add(value0 as i8).is_none(),
        ),
        OperandSize::Bit16 => (
            (value1 as u16).wrapping_add(value0 as u16) as i64,
            (value1 as u16).checked_add(value0 as u16).is_none(),
            (value1 as i16).checked_add(value0 as i16).is_none(),
        ),
        OperandSize::Bit32 => (
            (value1 as u32).wrapping_add(value0 as u32) as i64,
            (value1 as u32).checked_add(value0 as u32).is_none(),
            (value1 as i32).checked_add(value0 as i32).is_none(),
        ),
        OperandSize::Bit64 => (
            (value1 as u64).wrapping_add(value0 as u64) as i64,
            (value1 as u64).checked_add(value0 as u64).is_none(),
            (value1 as i64).checked_add(value0 as i64).is_none(),
        ),
        OperandSize::Bit128 => unreached(),
    }
}

/// The difference `value1 - value0`, borrow and overflow at a width.
fn arith_sub(value0: i64, value1: i64, operand_size: OperandSize) -> (r: (i64, bool, bool))
    requires
        operand_size != OperandSize::Bit128,
    ensures
        r.0 == sub_result_sp(value0, value1, operand_size),
        r.1 == sub_carry_sp(value0, value1, operand_size),
        r.2 == sub_overflow_sp(value0, value1, operand_size),
{
    match operand_size {
        OperandSize::Bit8 => (
            (value1 as u8).wrapping_sub(value0 as u8) as i64,
            (value1 as u8).checked_sub(value0 as u8).is_none(),
            (value1 as i8).checked_sub(value0 as i8).is_none(),
        ),
        OperandSize::Bit16 => (
            (value1 as u16).wrapping_sub(value0 as u16) as i64,
            (value1 as u16).checked_sub(value0 as u16).is_none(),
            (value1 as i16).checked_sub(value0 as i16).is_none(),
        ),
        OperandSize::Bit32 => (
            (value1 as u32).wrapping_sub(value0 as u32) as i64,
            (value1 as u32).checked_sub(value0 as u32).is_none(),
            (value1 as i32).checked_sub(value0 as i32).is_none(),
        ),
        OperandSize::Bit64 => (
            (value1 as u64).wrapping_sub(value0 as u64) as i64,
            (value1 as u64).checked_sub(value0 as u64).is_none(),
            (value1 as i64).checked_sub(value0 as i64).is_none(),
        ),
        OperandSize::Bit128 => unreached(),
    }
}

impl EmulationCPU {
    /// Two-operand add: `dst <- dst + src`, Carry/Overflow from the
    /// sum, Zero/Sign/Parity from the result.
    pub fn add(&self, machine_state: &mut MachineState, op: &Operands) -> (r: Result<
        (),
        VmError,
    >)
        requires
            wf_state(old(machine_state)@),
            wf_two(*op),
        ensures
            wf_state(final(machine_state)@),
            ({
                let (tr, post) = add_tr(old(machine_state)@, *op);
                r == tr && final(machine_state)@ == post
            }),
    {
        let operand_size = op.size();
        let (first_operand, second_operand) = op.operands();
        let dst = *second_operand;
        let value0 = machine_state.get_value(first_operand, operand_size)?;
        let value1 = machine_state.get_value(&dst, operand_size)?;
        let (result, carry, overflow) = arith_add(value0, value1, operand_size);
        machine_state.set_value(result, &dst, operand_size)?;
        machine_state.set_flag(Flags::Carry, carry);
        machine_state.set_flag(Flags::Overflow, overflow);
        machine_state.compute_flags(result, operand_size);
        Ok(())
    }

    /// Two-operand sub: `dst <- dst - src`, Carry from the borrow,
    /// Overflow from signed overflow, Zero/Sign/Parity from the
    /// result.
    pub fn sub(&self, machine_state: &mut MachineState, op: &Operands) -> (r: Result<
        (),
        VmError,
    >)
        requires
            wf_state(old(machine_state)@),
            wf_two(*op),
        ensures
            wf_state(final(machine_state)@),
            ({
                let (tr, post) = sub_tr(old(machine_state)@, *op);
                r == tr && final(machine_state)@ == post
            }),
    {
        let operand_size = op.size();
        let (first_operand, second_operand) = op.operands();
        let dst = *second_operand;
        let value0 = machine_state.get_value(first_operand, operand_size)?;
        let value1 = machine_state.get_value(&dst, operand_size)?;
        let (result, carry, overflow) = arith_sub(value0, value1, operand_size);
        machine_state.set_value(result, &dst, operand_size)?;
        machine_state.set_flag(Flags::Carry, carry);
        machine_state.set_flag(Flags::Overflow, overflow);
        machine_state.compute_flags(result, operand_size);
        Ok(())
    }

    /// Compare: the flags of `dst - src` with nothing stored.
    pub fn cmp(&self, machine_state: &mut MachineState, op: &Operands) -> (r: Result<
        (),
        VmError,
    >)
        requires
            wf_state(old(machine_state)@),
            wf_two(*op),
        ensures
            wf_state(final(machine_state)@),
            ({
                let (tr, post) = cmp_tr(old(machine_state)@, *op);
                r == tr && final(machine_state)@ == post
            }),
    {
        let operand_size = op.size();
        let (first_operand, second_operand) = op.operands();
        let value0 = machine_state.get_value(first_operand, operand_size)?;
        let value1 = machine_state.get_value(second_operand, operand_size)?;
        let (result, carry, overflow) = arith_sub(value0, value1, operand_size);
        machine_state.set_flag(Flags::Carry, carry);
        machine_state.set_flag(Flags::Overflow, overflow);
        machine_state.compute_flags(result, operand_size);
        Ok(())
    }

    /// Subtract with borrow. The borrow input is deliberately left
    /// out: this emulator computes `SBB` exactly like `SUB`.
    pub fn sbb(&self, machine_state: &mut MachineState, op: &Operands) -> (r: Result<
        (),
        VmError,
    >)
        requires
            wf_state(old(machine_state)@),
            wf_two(*op),
        ensures
            wf_state(final(machine_state)@),
            ({
                let (tr, post) = sub_tr(old(machine_state)@, *op);
                r == tr && final(machine_state)@ == post
            }),
    {
        self.sub(machine_state, op)
    }

    /// Add with carry is not implemented: it fails without touching
    /// the state.
    pub fn adc(&self, machine_state: &mut MachineState, op: &Operands) -> (r: Result<
        (),
        VmError,
    >)
        ensures
            final(machine_state)@ == old(machine_state)@,
            r == Err::<(), VmError>(VmError::UnsupportedInstruction),
    {
        Err(VmError::UnsupportedInstruction)
    }

    /// Two-operand bitwise and: `dst <- dst & src`.
    pub fn and(&self, machine_state: &mut MachineState, op: &Operands) -> (r: Result<
        (),
        VmError,
    >)
        requires
            wf_state(old(machine_state)@),
            wf_two(*op),
        ensures
            wf_state(final(machine_state)@),
            ({
                let (tr, post) = logic_tr(old(machine_state)@, *op, LogicKind::OpAnd, true);
                r == tr && final(machine_state)@ == post
            }),
    {
        self.logic_impl(machine_state, op, 0, true)
    }

    /// Two-operand bitwise or: `dst <- dst | src`.
    pub fn or(&self, machine_state: &mut MachineState, op: &Operands) -> (r: Result<
        (),
        VmError,
    >)
        requires
            wf_state(old(machine_state)@),
            wf_two(*op),
        ensures
            wf_state(final(machine_state)@),
            ({
                let (tr, post) = logic_tr(old(machine_state)@, *op, LogicKind::OpOr, true);
                r == tr && final(machine_state)@ == post
            }),
    {
        self.logic_impl(machine_state, op, 1, true)
    }

    /// Two-operand bitwise exclusive or: `dst <- dst ^ src`.
    pub fn xor(&self, machine_state: &mut MachineState, op: &Operands) -> (r: Result<
        (),
        VmError,
    >)
        requires
            wf_state(old(machine_state)@),
            wf_two(*op),
        ensures
            wf_state(final(machine_state)@),
            ({
                let (tr, post) = logic_tr(old(machine_state)@, *op, LogicKind::OpXor, true);
                r == tr && final(machine_state)@ == post
            }),
    {
        self.logic_impl(machine_state, op, 2, true)
    }

    /// Bit test of `dst & src`: only the flags change.
    pub fn test(&self, machine_state: &mut MachineState, op: &Operands) -> (r: Result<
        (),
        VmError,
    >)
        requires
            wf_state(old(machine_state)@),
            wf_two(*op),
        ensures
            wf_state(final(machine_state)@),
            ({
                let (tr, post) = logic_tr(old(machine_state)@, *op, LogicKind::OpAnd, false);
                r == tr && final(machine_state)@ == post
            }),
    {
        self.logic_impl(machine_state, op, 0, false)
    }

    /// Shared body of the bitwise operations: `kind` selects and (0),
    /// or (1) or exclusive or (2).
    fn logic_impl(&self, machine_state: &mut MachineState, op: &Operands, kind: u8, store:
        bool) -> (r: Result<(), VmError>)
        requires
            wf_state(old(machine_state)@),
            wf_two(*op),
            kind <= 2,
        ensures
            wf_state(final(machine_state)@),
            ({
                let k = if kind == 0 {
                    LogicKind::OpAnd
                } else if kind == 1 {
                    LogicKind::OpOr
                } else {
                    LogicKind::OpXor
                };
                let (tr, post) = logic_tr(old(machine_state)@, *op, k, store);
                r == tr && final(machine_state)@ == post
            }),
    {
        let operand_size = op.size();
        let (first_operand, second_operand) = op.operands();
        let dst = *second_operand;
        let value0 = machine_state.get_value(first_operand, operand_size)?;
        let value1 = machine_state.get_value(&dst, operand_size)?;
        let result = if kind == 0 {
            value0 & value1
        } else if kind == 1 {
            value0 | value1
        } else {
            value0 ^ value1
        };
        if store {
            machine_state.set_value(result, &dst, operand_size)?;
        }
        machine_state.compute_flags(result, operand_size);
        machine_state.set_flag(Flags::Carry, false);
        machine_state.set_flag(Flags::Overflow, false);
        Ok(())
    }
}

/// Stack push of a 64-bit value: eight bytes at `rsp - 8`, then the
/// stack pointer moves down.
pub open spec fn stack_push_sp(s: StateView, value: i64) -> (Result<(), VmError>, StateView) {
    let new_rsp = s.rsp.wrapping_sub(8);
    let address = new_rsp as u64;
    if mem_range_mapped(s.mem, address, 8) {
        (
            Ok(()),
            StateView {
                rsp: new_rsp,
                mem: mem_write_bytes(s.mem, address, le_bytes_u64(value as u64)),
                ..s
            },
        )
    } else {
        (Err(VmError::UnmappedPage(address)), s)
    }
}

/// Stack push of a 32-bit value: four bytes at `rsp - 4`.
pub open spec fn stack_push32_sp(s: StateView, value: i32) -> (Result<(), VmError>, StateView) {
    let new_rsp = s.rsp.wrapping_sub(4);
    let address = new_rsp as u64;
    if mem_range_mapped(s.mem, address, 4) {
        (
            Ok(()),
            StateView {
                rsp: new_rsp,
                mem: mem_write_bytes(
                    s.mem,
                    address,
                    crate::memory::le_bytes_u32(value as u32),
                ),
                ..s
            },
        )
    } else {
        (Err(VmError::UnmappedPage(address)), s)
    }
}

/// Stack pop of a 64-bit value: read eight bytes at `rsp`, then the
/// stack pointer moves up.
pub open spec fn stack_pop_sp(s: StateView) -> (Result<i64, VmError>, StateView) {
    let address = s.rsp as u64;
    if mem_range_mapped(s.mem, address, 8) {
        (
            Ok(mem_u64_le(s.mem, address) as i64),
            StateView { rsp: s.rsp.wrapping_add(8), ..s },
        )
    } else {
        (Err(VmError::UnmappedPage(address)), s)
    }
}

/// Push a 64-bit value onto the guest stack.
pub fn stack_push(state: &mut MachineState, value: i64) -> (r: Result<(), VmError>)
    requires
        wf_state(old(state)@),
    ensures
        wf_state(final(state)@),
        ({
            let (tr, post) = stack_push_sp(old(state)@, value);
            r == tr && final(state)@ == post
        }),
{
    let new_rsp = state.rsp.wrapping_sub(8);
    if state.memory.try_write_u64(new_rsp as u64, value as u64) {
        state.rsp = new_rsp;
        Ok(())
    } else {
        Err(VmError::UnmappedPage(new_rsp as u64))
    }
}

/// Push a 32-bit value onto the guest stack.
pub fn stack_push32(state: &mut MachineState, value: i32) -> (r: Result<(), VmError>)
    requires
        wf_state(old(state)@),
    ensures
        wf_state(final(state)@),
        ({
            let (tr, post) = stack_push32_sp(old(state)@, value);
            r == tr && final(state)@ == post
        }),
{
    let new_rsp = state.rsp.wrapping_sub(4);
    if state.memory.try_write_u32(new_rsp as u64, value as u32) {
        state.rsp = new_rsp;
        Ok(())
    } else {
        Err(VmError::UnmappedPage(new_rsp as u64))
    }
}

/// Pop a 64-bit value off the guest stack.
pub fn stack_pop(state: &mut MachineState) -> (r: Result<i64, VmError>)
    requires
        wf_state(old(state)@),
    ensures
        wf_state(final(state)@),
        ({
            let (tr, post) = stack_pop_sp(old(state)@);
            r == tr && final(state)@ == post
        }),
{
    match state.memory.try_read_u64(state.rsp as u64) {
        Some(v) => {
            state.rsp = state.rsp.wrapping_add(8);
            Ok(v as i64)
        },
        None => Err(VmError::UnmappedPage(state.rsp as u64)),
    }
}

/// The transition of a plain move: read the source, store it into the
/// destination. Flags never change.
pub open spec fn mov_tr(s: StateView, op: Operands) -> Step {
    let w = op.spec_size();
    let src = op.operands.0.unwrap();
    let dst = op.operands.1.unwrap();
    match rd(s, src, w) {
        Err(e) => (Err(e), s),
        Ok(v) => match wr(s, v, dst, w) {
            Err(e) => (Err(e), s),
            Ok(s1) => (Ok(()), s1),
        },
    }
}

/// Zero-extension of the low part of a value at a width.
pub open spec fn zext_sp(v: i64, w: OperandSize) -> i64 {
    match w {
        OperandSize::Bit8 => (v as u8) as i64,
        OperandSize::Bit16 => (v as u16) as i64,
        OperandSize::Bit32 => (v as u32) as i64,
        OperandSize::Bit64 => (v as u64) as i64,
        OperandSize::Bit128 => v,
    }
}

/// The transition of a zero-extending move: read the source at the
/// source width, zero-extend, store 64 bits wide.
pub open spec fn movzx_tr(s: StateView, op: Operands) -> Step {
    let w = op.spec_size();
    let src = op.operands.0.unwrap();
    let dst = op.operands.1.unwrap();
    match rd(s, src, w) {
        Err(e) => (Err(e), s),
        Ok(v) => match wr(s, zext_sp(v, w), dst, OperandSize::Bit64) {
            Err(e) => (Err(e), s),
            Ok(s1) => (Ok(()), s1),
        },
    }
}

/// The transition of `LEA`: store the computed effective address into
/// the destination register. Memory is never touched and flags never
/// change.
pub open spec fn lea_tr(s: StateView, op: Operands) -> Step {
    let w = op.spec_size();
    let src = op.operands.0.unwrap();
    let dst = op.operands.1.unwrap();
    let address = ea_sp(s, src);
    match wr(s, address as i64, dst, w) {
        Err(e) => (Err(e), s),
        Ok(s1) => (Ok(()), s1),
    }
}

/// The transition of a jump target: a register or memory operand
/// replaces RIP, an immediate is a displacement added to RIP.
pub open spec fn jmp_iml_tr(s: StateView, op: Operands) -> Step {
    let w = op.spec_size();
    let target = op.operands.0.unwrap();
    match rd(s, target, w) {
        Err(e) => (Err(e), s),
        Ok(v) => match target {
            Operand::Immediate(_) => (Ok(()), StateView { rip: s.rip.wrapping_add(v), ..s }),
            _ => (Ok(()), StateView { rip: v, ..s }),
        },
    }
}

/// The transition of a conditional jump: jump when the condition
/// holds, else nothing.
pub open spec fn jcc_tr(s: StateView, op: Operands, cond: bool) -> Step {
    if cond {
        jmp_iml_tr(s, op)
    } else {
        (Ok(()), s)
    }
}

/// The transition of a conditional move: move when the condition
/// holds, else nothing. The miss path has no side effects.
pub open spec fn cmov_tr(s: StateView, op: Operands, cond: bool) -> Step {
    if cond {
        mov_tr(s, op)
    } else {
        (Ok(()), s)
    }
}

/// The transition of a conditional set: store 1 or 0 into the byte
/// operand.
pub open spec fn setcc_tr(s: StateView, op: Operands, cond: bool) -> Step {
    let v: i64 = if cond {
        1
    } else {
        0
    };
    match wr(s, v, op.operands.0.unwrap(), OperandSize::Bit8) {
        Err(e) => (Err(e), s),
        Ok(s1) => (Ok(()), s1),
    }
}

/// The transition of `CALL`: push the address of the next instruction,
/// then branch like a jump.
pub open spec fn call_tr(s: StateView, op: Operands) -> Step {
    match stack_push_sp(s, s.rip) {
        (Err(e), s1) => (Err(e), s1),
        (Ok(()), s1) => jmp_iml_tr(s1, op),
    }
}

/// The transition of `RET`: pop the return address into RIP.
pub open spec fn ret_tr(s: StateView) -> Step {
    match stack_pop_sp(s) {
        (Err(e), s1) => (Err(e), s1),
        (Ok(v), s1) => (Ok(()), StateView { rip: v, ..s1 }),
    }
}

/// The transition of `LRET`: pop the return address, pop and discard
/// the code-segment word, branch.
pub open spec fn lret_tr(s: StateView) -> Step {
    match stack_pop_sp(s) {
        (Err(e), s1) => (Err(e), s1),
        (Ok(v), s1) => match stack_pop_sp(s1) {
            (Err(e), s2) => (Err(e), s2),
            (Ok(_), s2) => (Ok(()), StateView { rip: v, ..s2 }),
        },
    }
}

/// The transition of `LEAVE`: copy RBP into RSP, pop RBP.
pub open spec fn leave_tr(s: StateView) -> Step {
    let s1 = set_register_value_sp(s, Register::RSP, s.rbp);
    match stack_pop_sp(s1) {
        (Err(e), s2) => (Err(e), s2),
        (Ok(v), s2) => (Ok(()), set_register_value_sp(s2, Register::RBP, v)),
    }
}

/// The transition of `PUSHF`: push the whole RFLAGS word.
pub open spec fn pushf_tr(s: StateView) -> Step {
    stack_push_sp(s, s.rflags)
}

/// The transition of `POPF`: pop into the whole RFLAGS word.
pub open spec fn popf_tr(s: StateView) -> Step {
    match stack_pop_sp(s) {
        (Err(e), s1) => (Err(e), s1),
        (Ok(v), s1) => (Ok(()), StateView { rflags: v, ..s1 }),
    }
}

/// The transition of `PUSH`: push the operand at its width (32- or
/// 64-bit).
pub open spec fn push_tr(s: StateView, op: Operands) -> Step {
    let w = op.spec_size();
    match rd(s, op.operands.0.unwrap(), w) {
        Err(e) => (Err(e), s),
        Ok(v) => match w {
            OperandSize::Bit32 => stack_push32_sp(s, v as i32),
            _ => stack_push_sp(s, v),
        },
    }
}

/// Stack pop at a width: read the element at RSP and move the stack
/// pointer up by the element size, so pops match the push widths.
pub open spec fn stack_pop_width_sp(s: StateView, w: OperandSize) -> (
    Result<i64, VmError>,
    StateView,
) {
    let sz = crate::instruction::spec_size_bytes(w) as u64;
    let address = s.rsp as u64;
    if mem_range_mapped(s.mem, address, sz) {
        let value: i64 = match w {
            OperandSize::Bit8 => crate::memory::mem_byte(s.mem, address) as i64,
            OperandSize::Bit16 => crate::memory::mem_u16_le(s.mem, address) as i64,
            OperandSize::Bit32 => crate::memory::mem_u32_le(s.mem, address) as i64,
            _ => mem_u64_le(s.mem, address) as i64,
        };
        (Ok(value), StateView { rsp: s.rsp.wrapping_add(sz as i64), ..s })
    } else {
        (Err(VmError::UnmappedPage(address)), s)
    }
}

/// The transition of `POP`: pop one element at the operand width,
/// store it into the operand.
pub open spec fn pop_tr(s: StateView, op: Operands) -> Step {
    let w = op.spec_size();
    match stack_pop_width_sp(s, w) {
        (Err(e), s1) => (Err(e), s1),
        (Ok(v), s1) => match wr(s1, v, op.operands.0.unwrap(), w) {
            Err(e) => (Err(e), s1),
            Ok(s2) => (Ok(()), s2),
        },
    }
}

/// Condition `o`: Overflow.
pub open spec fn cond_o_sp(s: StateView) -> bool {
    get_flag_sp(s.rflags, Flags::Overflow)
}

/// Condition `no`: not Overflow.
pub open spec fn cond_no_sp(s: StateView) -> bool {
    !get_flag_sp(s.rflags, Flags::Overflow)
}

/// Condition `b`: Carry.
pub open spec fn cond_b_sp(s: StateView) -> bool {
    get_flag_sp(s.rflags, Flags::Carry)
}

/// Condition `ae`: not Carry.
pub open spec fn cond_ae_sp(s: StateView) -> bool {
    !get_flag_sp(s.rflags, Flags::Carry)
}

/// Condition `e`: Zero.
pub open spec fn cond_e_sp(s: StateView) -> bool {
    get_flag_sp(s.rflags, Flags::Zero)
}

/// Condition `ne`: not Zero.
pub open spec fn cond_ne_sp(s: StateView) -> bool {
    !get_flag_sp(s.rflags, Flags::Zero)
}

/// Condition `be`: Carry or Zero.
pub open spec fn cond_be_sp(s: StateView) -> bool {
    get_flag_sp(s.rflags, Flags::Carry) || get_flag_sp(s.rflags, Flags::Zero)
}

/// Condition `a`: neither Carry nor Zero.
pub open spec fn cond_a_sp(s: StateView) -> bool {
    !get_flag_sp(s.rflags, Flags::Carry) && !get_flag_sp(s.rflags, Flags::Zero)
}

/// Condition `s`: Sign.
pub open spec fn cond_s_sp(s: StateView) -> bool {
    get_flag_sp(s.rflags, Flags::Sign)
}

/// Condition `ns`: not Sign.
pub open spec fn cond_ns_sp(s: StateView) -> bool {
    !get_flag_sp(s.rflags, Flags::Sign)
}

/// Condition `p`: Parity.
pub open spec fn cond_p_sp(s: StateView) -> bool {
    get_flag_sp(s.rflags, Flags::Parity)
}

/// Condition `np`: not Parity.
pub open spec fn cond_np_sp(s: StateView) -> bool {
    !get_flag_sp(s.rflags, Flags::Parity)
}

/// Condition `l`: Sign differs from Overflow.
pub open spec fn cond_l_sp(s: StateView) -> bool {
    get_flag_sp(s.rflags, Flags::Sign) != get_flag_sp(s.rflags, Flags::Overflow)
}

/// Condition `ge`: Sign equals Overflow.
pub open spec fn cond_ge_sp(s: StateView) -> bool {
    get_flag_sp(s.rflags, Flags::Sign) == get_flag_sp(s.rflags, Flags::Overflow)
}

/// Condition `le`: Zero, or Sign differs from Overflow.
pub open spec fn cond_le_sp(s: StateView) -> bool {
    get_flag_sp(s.rflags, Flags::Zero) || (get_flag_sp(s.rflags, Flags::Sign) != get_flag_sp(s.rflags, Flags::Overflow))
}

/// Condition `g`: not Zero, and Sign equals Overflow.
pub open spec fn cond_g_sp(s: StateView) -> bool {
    !get_flag_sp(s.rflags, Flags::Zero) && (get_flag_sp(s.rflags, Flags::Sign) == get_flag_sp(s.rflags, Flags::Overflow))
}


impl EmulationCPU {
    /// Plain move: `dst <- src` at the operand width.
    pub fn mov(&self, machine_state: &mut MachineState, op: &Operands) -> (r: Result<(), VmError>)
        requires
            wf_state(old(machine_state)@),
            wf_two(*op),
        ensures
            wf_state(final(machine_state)@),
            ({
                let (tr, post) = mov_tr(old(machine_state)@, *op);
                r == tr && final(machine_state)@ == post
            }),
    {
        self.mov_impl(machine_state, op)
    }

    /// Sign-extending move: the integer read path already widens the
    /// source value, so the body is the plain move.
    pub fn movsx(&self, machine_state: &mut MachineState, op: &Operands) -> (r: Result<
        (),
        VmError,
    >)
        requires
            wf_state(old(machine_state)@),
            wf_two(*op),
        ensures
            wf_state(final(machine_state)@),
            ({
                let (tr, post) = mov_tr(old(machine_state)@, *op);
                r == tr && final(machine_state)@ == post
            }),
    {
        self.mov_impl(machine_state, op)
    }

    /// Zero-extending move: the source width's low bits, zero-extended
    /// into a 64-bit store.
    pub fn movzx(&self, machine_state: &mut MachineState, op: &Operands) -> (r: Result<
        (),
        VmError,
    >)
        requires
            wf_state(old(machine_state)@),
            wf_two(*op),
        ensures
            wf_state(final(machine_state)@),
            ({
                let (tr, post) = movzx_tr(old(machine_state)@, *op);
                r == tr && final(machine_state)@ == post
            }),
    {
        let operand_size = op.size();
        let (first_operand, second_operand) = op.operands();
        let dst = *second_operand;
        let value = machine_state.get_value(first_operand, operand_size)?;
        let value = match operand_size {
            OperandSize::Bit8 => (value as u8) as i64,
            OperandSize::Bit16 => (value as u16) as i64,
            OperandSize::Bit32 => (value as u32) as i64,
            OperandSize::Bit64 => (value as u64) as i64,
            OperandSize::Bit128 => unreached(),
        };
        machine_state.set_value(value, &dst, OperandSize::Bit64)?;
        Ok(())
    }

    fn mov_impl(&self, machine_state: &mut MachineState, op: &Operands) -> (r: Result<
        (),
        VmError,
    >)
        requires
            wf_state(old(machine_state)@),
            wf_two(*op),
        ensures
            wf_state(final(machine_state)@),
            ({
                let (tr, post) = mov_tr(old(machine_state)@, *op);
                r == tr && final(machine_state)@ == post
            }),
    {
        let operand_size = op.size();
        let (first_operand, second_operand) = op.operands();
        let dst = *second_operand;
        let value = machine_state.get_value(first_operand, operand_size)?;
        machine_state.set_value(value, &dst, operand_size)?;
        Ok(())
    }

    /// `LEA`: store the effective address of the first operand into
    /// the destination register; no memory access, no flags.
    pub fn lea(&self, machine_state: &mut MachineState, op: &Operands) -> (r: Result<(), VmError>)
        requires
            wf_state(old(machine_state)@),
            op.operands.0 is Some,
            op.operands.1 is Some,
            op.operands.0.unwrap() is EffectiveAddress,
            operand_readable(op.operands.0.unwrap()),
            op.operands.1.unwrap() is Register,
            operand_writable(op.operands.1.unwrap()),
            op.spec_size() != OperandSize::Bit128,
        ensures
            wf_state(final(machine_state)@),
            ({
                let (tr, post) = lea_tr(old(machine_state)@, *op);
                r == tr && final(machine_state)@ == post
            }),
    {
        let operand_size = op.size();
        let (first_operand, second_operand) = op.operands();
        let dst = *second_operand;
        let value = machine_state.calculate_effective_address(first_operand) as i64;
        machine_state.set_value(value, &dst, operand_size)?;
        Ok(())
    }

    /// Unconditional jump through the first operand.
    pub fn jmp(&self, machine_state: &mut MachineState, op: &Operands) -> (r: Result<(), VmError>)
        requires
            wf_state(old(machine_state)@),
            wf_one_read(*op),
        ensures
            wf_state(final(machine_state)@),
            ({
                let (tr, post) = jmp_iml_tr(old(machine_state)@, *op);
                r == tr && final(machine_state)@ == post
            }),
    {
        self.jmp_cond(machine_state, op, true)
    }

    /// Shared body of the jumps: branch exactly when `cond` holds.
    fn jmp_cond(&self, machine_state: &mut MachineState, op: &Operands, cond: bool) -> (r: Result<
        (),
        VmError,
    >)
        requires
            wf_state(old(machine_state)@),
            wf_one_read(*op),
        ensures
            wf_state(final(machine_state)@),
            ({
                let (tr, post) = jcc_tr(old(machine_state)@, *op, cond);
                r == tr && final(machine_state)@ == post
            }),
    {
        if !cond {
            return Ok(());
        }
        let first_operand = op.op();
        let target = *first_operand;
        let value = machine_state.get_value(&target, op.size())?;
        match target {
            Operand::Immediate(_) => {
                machine_state.rip = machine_state.rip.wrapping_add(value);
            },
            _ => {
                machine_state.rip = value;
            },
        }
        Ok(())
    }

    /// Shared body of the conditional moves: move exactly when `cond`
    /// holds.
    fn mov_cond(&self, machine_state: &mut MachineState, op: &Operands, cond: bool) -> (r: Result<
        (),
        VmError,
    >)
        requires
            wf_state(old(machine_state)@),
            wf_two(*op),
        ensures
            wf_state(final(machine_state)@),
            ({
                let (tr, post) = cmov_tr(old(machine_state)@, *op, cond);
                r == tr && final(machine_state)@ == post
            }),
    {
        if cond {
            self.mov_impl(machine_state, op)
        } else {
            Ok(())
        }
    }

    /// Shared body of the conditional byte sets.
    fn set_byte(&self, machine_state: &mut MachineState, op: &Operands, cond: bool) -> (r: Result<
        (),
        VmError,
    >)
        requires
            wf_state(old(machine_state)@),
            wf_one_write(*op),
        ensures
            wf_state(final(machine_state)@),
            ({
                let (tr, post) = setcc_tr(old(machine_state)@, *op, cond);
                r == tr && final(machine_state)@ == post
            }),
    {
        let first_operand = op.op();
        let target = *first_operand;
        let value: i64 = if cond {
            1
        } else {
            0
        };
        machine_state.set_value(value, &target, OperandSize::Bit8)?;
        Ok(())
    }

    /// `CALL`: push the return address, then branch through the
    /// operand.
    pub fn call(&self, machine_state: &mut MachineState, op: &Operands) -> (r: Result<(), VmError>)
        requires
            wf_state(old(machine_state)@),
            wf_one_read(*op),
        ensures
            wf_state(final(machine_state)@),
            ({
                let (tr, post) = call_tr(old(machine_state)@, *op);
                r == tr && final(machine_state)@ == post
            }),
    {
        let value = machine_state.rip;
        stack_push(machine_state, value)?;
        self.jmp_cond(machine_state, op, true)
    }

    /// `RET`: pop the return address into RIP.
    pub fn ret(&self, machine_state: &mut MachineState) -> (r: Result<(), VmError>)
        requires
            wf_state(old(machine_state)@),
        ensures
            wf_state(final(machine_state)@),
            ({
                let (tr, post) = ret_tr(old(machine_state)@);
                r == tr && final(machine_state)@ == post
            }),
    {
        let value = stack_pop(machine_state)?;
        machine_state.rip = value;
        Ok(())
    }

    /// `LRET`: pop the return address and the code-segment word, then
    /// branch to the return address.
    pub fn lret(&self, machine_state: &mut MachineState) -> (r: Result<(), VmError>)
        requires
            wf_state(old(machine_state)@),
        ensures
            wf_state(final(machine_state)@),
            ({
                let (tr, post) = lret_tr(old(machine_state)@);
                r == tr && final(machine_state)@ == post
            }),
    {
        let value = stack_pop(machine_state)?;
        let _ = stack_pop(machine_state)?;
        machine_state.rip = value;
        Ok(())
    }

    /// `LEAVE`: copy RBP into RSP, pop RBP.
    pub fn leave(&self, machine_state: &mut MachineState) -> (r: Result<(), VmError>)
        requires
            wf_state(old(machine_state)@),
        ensures
            wf_state(final(machine_state)@),
            ({
                let (tr, post) = leave_tr(old(machine_state)@);
                r == tr && final(machine_state)@ == post
            }),
    {
        let value = machine_state.get_register_value(Register::RBP);
        machine_state.set_register_value(Register::RSP, value);
        let value = stack_pop(machine_state)?;
        machine_state.set_register_value(Register::RBP, value);
        Ok(())
    }

    /// `PUSHF`: push the whole RFLAGS word.
    pub fn pushf(&self, machine_state: &mut MachineState) -> (r: Result<(), VmError>)
        requires
            wf_state(old(machine_state)@),
        ensures
            wf_state(final(machine_state)@),
            ({
                let (tr, post) = pushf_tr(old(machine_state)@);
                r == tr && final(machine_state)@ == post
            }),
    {
        let value = machine_state.rflags;
        stack_push(machine_state, value)
    }

    /// `POPF`: pop into the whole RFLAGS word.
    pub fn popf(&self, machine_state: &mut MachineState) -> (r: Result<(), VmError>)
        requires
            wf_state(old(machine_state)@),
        ensures
            wf_state(final(machine_state)@),
            ({
                let (tr, post) = popf_tr(old(machine_state)@);
                r == tr && final(machine_state)@ == post
            }),
    {
        let value = stack_pop(machine_state)?;
        machine_state.rflags = value;
        Ok(())
    }

    /// `PUSH` of a 32- or 64-bit operand.
    pub fn push(&self, machine_state: &mut MachineState, op: &Operands) -> (r: Result<(), VmError>)
        requires
            wf_state(old(machine_state)@),
            wf_one_read(*op),
            op.spec_size() == OperandSize::Bit32 || op.spec_size() == OperandSize::Bit64,
        ensures
            wf_state(final(machine_state)@),
            ({
                let (tr, post) = push_tr(old(machine_state)@, *op);
                r == tr && final(machine_state)@ == post
            }),
    {
        let first_operand = op.op();
        let target = *first_operand;
        let value = machine_state.get_value(&target, op.size())?;
        match op.size() {
            OperandSize::Bit32 => stack_push32(machine_state, value as i32),
            OperandSize::Bit64 => stack_push(machine_state, value),
            _ => unreached(),
        }
    }

    /// `POP` into the operand: the element is read at the operand
    /// width and the stack pointer moves up by the element size.
    pub fn pop(&self, machine_state: &mut MachineState, op: &Operands) -> (r: Result<(), VmError>)
        requires
            wf_state(old(machine_state)@),
            wf_one_write(*op),
        ensures
            wf_state(final(machine_state)@),
            ({
                let (tr, post) = pop_tr(old(machine_state)@, *op);
                r == tr && final(machine_state)@ == post
            }),
    {
        let first_operand = op.op();
        let target = *first_operand;
        let operand_size = op.size();
        let address = machine_state.rsp as u64;
        let value: i64 = match operand_size {
            OperandSize::Bit8 => match machine_state.memory.try_read_byte(address) {
                Some(v) => {
                    proof {
                        assert(address.wrapping_add(0) == address);
                    }
                    v as i64
                },
                None => {
                    proof {
                        assert(address.wrapping_add(0) == address);
                    }
                    return Err(VmError::UnmappedPage(address));
                },
            },
            OperandSize::Bit16 => match machine_state.memory.try_read_u16(address) {
                Some(v) => v as i64,
                None => {
                    return Err(VmError::UnmappedPage(address));
                },
            },
            OperandSize::Bit32 => match machine_state.memory.try_read_u32(address) {
                Some(v) => v as i64,
                None => {
                    return Err(VmError::UnmappedPage(address));
                },
            },
            OperandSize::Bit64 => match machine_state.memory.try_read_u64(address) {
                Some(v) => v as i64,
                None => {
                    return Err(VmError::UnmappedPage(address));
                },
            },
            OperandSize::Bit128 => unreached(),
        };
        let size = crate::instruction::size_bytes(operand_size);
        machine_state.rsp = machine_state.rsp.wrapping_add(size as i64);
        machine_state.set_value(value, &target, operand_size)?;
        Ok(())
    }

    /// Conditional jump when Overflow.
    pub fn jo(&self, machine_state: &mut MachineState, op: &Operands) -> (r: Result<(), VmError>)
        requires
            wf_state(old(machine_state)@),
            wf_one_read(*op),
        ensures
            wf_state(final(machine_state)@),
            ({
                let (tr, post) = jcc_tr(old(machine_state)@, *op, cond_o_sp(old(machine_state)@));
                r == tr && final(machine_state)@ == post
            }),
    {
        let state = &*machine_state;
        let cond = state.get_flag(Flags::Overflow);
        self.jmp_cond(machine_state, op, cond)
    }

    /// Conditional jump when not Overflow.
    pub fn jno(&self, machine_state: &mut MachineState, op: &Operands) -> (r: Result<(), VmError>)
        requires
            wf_state(old(machine_state)@),
            wf_one_read(*op),
        ensures
            wf_state(final(machine_state)@),
            ({
                let (tr, post) = jcc_tr(old(machine_state)@, *op, cond_no_sp(old(machine_state)@));
                r == tr && final(machine_state)@ == post
            }),
    {
        let state = &*machine_state;
        let cond = !state.get_flag(Flags::Overflow);
        self.jmp_cond(machine_state, op, cond)
    }

    /// Conditional jump when Carry.
    pub fn jb(&self, machine_state: &mut MachineState, op: &Operands) -> (r: Result<(), VmError>)
        requires
            wf_state(old(machine_state)@),
            wf_one_read(*op),
        ensures
            wf_state(final(machine_state)@),
            ({
                let (tr, post) = jcc_tr(old(machine_state)@, *op, cond_b_sp(old(machine_state)@));
                r == tr && final(machine_state)@ == post
            }),
    {
        let state = &*machine_state;
        let cond = state.get_flag(Flags::Carry);
        self.jmp_cond(machine_state, op, cond)
    }

    /// Conditional jump when not Carry.
    pub fn jae(&self, machine_state: &mut MachineState, op: &Operands) -> (r: Result<(), VmError>)
        requires
            wf_state(old(machine_state)@),
            wf_one_read(*op),
        ensures
            wf_state(final(machine_state)@),
            ({
                let (tr, post) = jcc_tr(old(machine_state)@, *op, cond_ae_sp(old(machine_state)@));
                r == tr && final(machine_state)@ == post
            }),
    {
        let state = &*machine_state;
        let cond = !state.get_flag(Flags::Carry);
        self.jmp_cond(machine_state, op, cond)
    }

    /// Conditional jump when Zero.
    pub fn je(&self, machine_state: &mut MachineState, op: &Operands) -> (r: Result<(), VmError>)
        requires
            wf_state(old(machine_state)@),
            wf_one_read(*op),
        ensures
            wf_state(final(machine_state)@),
            ({
                let (tr, post) = jcc_tr(old(machine_state)@, *op, cond_e_sp(old(machine_state)@));
                r == tr && final(machine_state)@ == post
            }),
    {
        let state = &*machine_state;
        let cond = state.get_flag(Flags::Zero);
        self.jmp_cond(machine_state, op, cond)
    }

    /// Conditional jump when not Zero.
    pub fn jne(&self, machine_state: &mut MachineState, op: &Operands) -> (r: Result<(), VmError>)
        requires
            wf_state(old(machine_state)@),
            wf_one_read(*op),
        ensures
            wf_state(final(machine_state)@),
            ({
                let (tr, post) = jcc_tr(old(machine_state)@, *op, cond_ne_sp(old(machine_state)@));
                r == tr && final(machine_state)@ == post
            }),
    {
        let state = &*machine_state;
        let cond = !state.get_flag(Flags::Zero);
        self.jmp_cond(machine_state, op, cond)
    }

    /// Conditional jump when Carry or Zero.
    pub fn jbe(&self, machine_state: &mut MachineState, op: &Operands) -> (r: Result<(), VmError>)
        requires
            wf_state(old(machine_state)@),
            wf_one_read(*op),
        ensures
            wf_state(final(machine_state)@),
            ({
                let (tr, post) = jcc_tr(old(machine_state)@, *op, cond_be_sp(old(machine_state)@));
                r == tr && final(machine_state)@ == post
            }),
    {
        let state = &*machine_state;
        let cond = state.get_flag(Flags::Carry) || state.get_flag(Flags::Zero);
        self.jmp_cond(machine_state, op, cond)
    }

    /// Conditional jump when neither Carry nor Zero.
    pub fn ja(&self, machine_state: &mut MachineState, op: &Operands) -> (r: Result<(), VmError>)
        requires
            wf_state(old(machine_state)@),
            wf_one_read(*op),
        ensures
            wf_state(final(machine_state)@),
            ({
                let (tr, post) = jcc_tr(old(machine_state)@, *op, cond_a_sp(old(machine_state)@));
                r == tr && final(machine_state)@ == post
            }),
    {
        let state = &*machine_state;
        let cond = !state.get_flag(Flags::Carry) && !state.get_flag(Flags::Zero);
        self.jmp_cond(machine_state, op, cond)
    }

    /// Conditional jump when Sign.
    pub fn js(&self, machine_state: &mut MachineState, op: &Operands) -> (r: Result<(), VmError>)
        requires
            wf_state(old(machine_state)@),
            wf_one_read(*op),
        ensures
            wf_state(final(machine_state)@),
            ({
                let (tr, post) = jcc_tr(old(machine_state)@, *op, cond_s_sp(old(machine_state)@));
                r == tr && final(machine_state)@ == post
            }),
    {
        let state = &*machine_state;
        let cond = state.get_flag(Flags::Sign);
        self.jmp_cond(machine_state, op, cond)
    }

    /// Conditional jump when not Sign.
    pub fn jns(&self, machine_state: &mut MachineState, op: &Operands) -> (r: Result<(), VmError>)
        requires
            wf_state(old(machine_state)@),
            wf_one_read(*op),
        ensures
            wf_state(final(machine_state)@),
            ({
                let (tr, post) = jcc_tr(old(machine_state)@, *op, cond_ns_sp(old(machine_state)@));
                r == tr && final(machine_state)@ == post
            }),
    {
        let state = &*machine_state;
        let cond = !state.get_flag(Flags::Sign);
        self.jmp_cond(machine_state, op, cond)
    }

    /// Conditional jump when Parity.
    pub fn jp(&self, machine_state: &mut MachineState, op: &Operands) -> (r: Result<(), VmError>)
        requires
            wf_state(old(machine_state)@),
            wf_one_read(*op),
        ensures
            wf_state(final(machine_state)@),
            ({
                let (tr, post) = jcc_tr(old(machine_state)@, *op, cond_p_sp(old(machine_state)@));
                r == tr && final(machine_state)@ == post
            }),
    {
        let state = &*machine_state;
        let cond = state.get_flag(Flags::Parity);
        self.jmp_cond(machine_state, op, cond)
    }

    /// Conditional jump when not Parity.
    pub fn jnp(&self, machine_state: &mut MachineState, op: &Operands) -> (r: Result<(), VmError>)
        requires
            wf_state(old(machine_state)@),
            wf_one_read(*op),
        ensures
            wf_state(final(machine_state)@),
            ({
                let (tr, post) = jcc_tr(old(machine_state)@, *op, cond_np_sp(old(machine_state)@));
                r == tr && final(machine_state)@ == post
            }),
    {
        let state = &*machine_state;
        let cond = !state.get_flag(Flags::Parity);
        self.jmp_cond(machine_state, op, cond)
    }

    /// Conditional jump when Sign differs from Overflow.
    pub fn jl(&self, machine_state: &mut MachineState, op: &Operands) -> (r: Result<(), VmError>)
        requires
            wf_state(old(machine_state)@),
            wf_one_read(*op),
        ensures
            wf_state(final(machine_state)@),
            ({
                let (tr, post) = jcc_tr(old(machine_state)@, *op, cond_l_sp(old(machine_state)@));
                r == tr && final(machine_state)@ == post
            }),
    {
        let state = &*machine_state;
        let cond = state.get_flag(Flags::Sign) != state.get_flag(Flags::Overflow);
        self.jmp_cond(machine_state, op, cond)
    }

    /// Conditional jump when Sign equals Overflow.
    pub fn jge(&self, machine_state: &mut MachineState, op: &Operands) -> (r: Result<(), VmError>)
        requires
            wf_state(old(machine_state)@),
            wf_one_read(*op),
        ensures
            wf_state(final(machine_state)@),
            ({
                let (tr, post) = jcc_tr(old(machine_state)@, *op, cond_ge_sp(old(machine_state)@));
                r == tr && final(machine_state)@ == post
            }),
    {
        let state = &*machine_state;
        let cond = state.get_flag(Flags::Sign) == state.get_flag(Flags::Overflow);
        self.jmp_cond(machine_state, op, cond)
    }

    /// Conditional jump when Zero, or Sign differs from Overflow.
    pub fn jle(&self, machine_state: &mut MachineState, op: &Operands) -> (r: Result<(), VmError>)
        requires
            wf_state(old(machine_state)@),
            wf_one_read(*op),
        ensures
            wf_state(final(machine_state)@),
            ({
                let (tr, post) = jcc_tr(old(machine_state)@, *op, cond_le_sp(old(machine_state)@));
                r == tr && final(machine_state)@ == post
            }),
    {
        let state = &*machine_state;
        let cond = state.get_flag(Flags::Zero) || (state.get_flag(Flags::Sign) != state.get_flag(Flags::Overflow));
        self.jmp_cond(machine_state, op, cond)
    }

    /// Conditional jump when not Zero, and Sign equals Overflow.
    pub fn jg(&self, machine_state: &mut MachineState, op: &Operands) -> (r: Result<(), VmError>)
        requires
            wf_state(old(machine_state)@),
            wf_one_read(*op),
        ensures
            wf_state(final(machine_state)@),
            ({
                let (tr, post) = jcc_tr(old(machine_state)@, *op, cond_g_sp(old(machine_state)@));
                r == tr && final(machine_state)@ == post
            }),
    {
        let state = &*machine_state;
        let cond = !state.get_flag(Flags::Zero) && (state.get_flag(Flags::Sign) == state.get_flag(Flags::Overflow));
        self.jmp_cond(machine_state, op, cond)
    }

    /// Conditional move when Overflow.
    pub fn cmovo(&self, machine_state: &mut MachineState, op: &Operands) -> (r: Result<(), VmError>)
        requires
            wf_state(old(machine_state)@),
            wf_two(*op),
        ensures
            wf_state(final(machine_state)@),
            ({
                let (tr, post) = cmov_tr(old(machine_state)@, *op, cond_o_sp(old(machine_state)@));
                r == tr && final(machine_state)@ == post
            }),
    {
        let state = &*machine_state;
        let cond = state.get_flag(Flags::Overflow);
        self.mov_cond(machine_state, op, cond)
    }

    /// Conditional move when not Overflow.
    pub fn cmovno(&self, machine_state: &mut MachineState, op: &Operands) -> (r: Result<(), VmError>)
        requires
            wf_state(old(machine_state)@),
            wf_two(*op),
        ensures
            wf_state(final(machine_state)@),
            ({
                let (tr, post) = cmov_tr(old(machine_state)@, *op, cond_no_sp(old(machine_state)@));
                r == tr && final(machine_state)@ == post
            }),
    {
        let state = &*machine_state;
        let cond = !state.get_flag(Flags::Overflow);
        self.mov_cond(machine_state, op, cond)
    }

    /// Conditional move when Carry.
    pub fn cmovb(&self, machine_state: &mut MachineState, op: &Operands) -> (r: Result<(), VmError>)
        requires
            wf_state(old(machine_state)@),
            wf_two(*op),
        ensures
            wf_state(final(machine_state)@),
            ({
                let (tr, post) = cmov_tr(old(machine_state)@, *op, cond_b_sp(old(machine_state)@));
                r == tr && final(machine_state)@ == post
            }),
    {
        let state = &*machine_state;
        let cond = state.get_flag(Flags::Carry);
        self.mov_cond(machine_state, op, cond)
    }

    /// Conditional move when not Carry.
    pub fn cmovae(&self, machine_state: &mut MachineState, op: &Operands) -> (r: Result<(), VmError>)
        requires
            wf_state(old(machine_state)@),
            wf_two(*op),
        ensures
            wf_state(final(machine_state)@),
            ({
                let (tr, post) = cmov_tr(old(machine_state)@, *op, cond_ae_sp(old(machine_state)@));
                r == tr && final(machine_state)@ == post
            }),
    {
        let state = &*machine_state;
        let cond = !state.get_flag(Flags::Carry);
        self.mov_cond(machine_state, op, cond)
    }

    /// Conditional move when Zero.
    pub fn cmove(&self, machine_state: &mut MachineState, op: &Operands) -> (r: Result<(), VmError>)
        requires
            wf_state(old(machine_state)@),
            wf_two(*op),
        ensures
            wf_state(final(machine_state)@),
            ({
                let (tr, post) = cmov_tr(old(machine_state)@, *op, cond_e_sp(old(machine_state)@));
                r == tr && final(machine_state)@ == post
            }),
    {
        let state = &*machine_state;
        let cond = state.get_flag(Flags::Zero);
        self.mov_cond(machine_state, op, cond)
    }

    /// Conditional move when not Zero.
    pub fn cmovne(&self, machine_state: &mut MachineState, op: &Operands) -> (r: Result<(), VmError>)
        requires
            wf_state(old(machine_state)@),
            wf_two(*op),
        ensures
            wf_state(final(machine_state)@),
            ({
                let (tr, post) = cmov_tr(old(machine_state)@, *op, cond_ne_sp(old(machine_state)@));
                r == tr && final(machine_state)@ == post
            }),
    {
        let state = &*machine_state;
        let cond = !state.get_flag(Flags::Zero);
        self.mov_cond(machine_state, op, cond)
    }

    /// Conditional move when Carry or Zero.
    pub fn cmovbe(&self, machine_state: &mut MachineState, op: &Operands) -> (r: Result<(), VmError>)
        requires
            wf_state(old(machine_state)@),
            wf_two(*op),
        ensures
            wf_state(final(machine_state)@),
            ({
                let (tr, post) = cmov_tr(old(machine_state)@, *op, cond_be_sp(old(machine_state)@));
                r == tr && final(machine_state)@ == post
            }),
    {
        let state = &*machine_state;
        let cond = state.get_flag(Flags::Carry) || state.get_flag(Flags::Zero);
        self.mov_cond(machine_state, op, cond)
    }

    /// Conditional move when neither Carry nor Zero.
    pub fn cmova(&self, machine_state: &mut MachineState, op: &Operands) -> (r: Result<(), VmError>)
        requires
            wf_state(old(machine_state)@),
            wf_two(*op),
        ensures
            wf_state(final(machine_state)@),
            ({
                let (tr, post) = cmov_tr(old(machine_state)@, *op, cond_a_sp(old(machine_state)@));
                r == tr && final(machine_state)@ == post
            }),
    {
        let state = &*machine_state;
        let cond = !state.get_flag(Flags::Carry) && !state.get_flag(Flags::Zero);
        self.mov_cond(machine_state, op, cond)
    }

    /// Conditional move when Sign.
    pub fn cmovs(&self, machine_state: &mut MachineState, op: &Operands) -> (r: Result<(), VmError>)
        requires
            wf_state(old(machine_state)@),
            wf_two(*op),
        ensures
            wf_state(final(machine_state)@),
            ({
                let (tr, post) = cmov_tr(old(machine_state)@, *op, cond_s_sp(old(machine_state)@));
                r == tr && final(machine_state)@ == post
            }),
    {
        let state = &*machine_state;
        let cond = state.get_flag(Flags::Sign);
        self.mov_cond(machine_state, op, cond)
    }

    /// Conditional move when not Sign.
    pub fn cmovns(&self, machine_state: &mut MachineState, op: &Operands) -> (r: Result<(), VmError>)
        requires
            wf_state(old(machine_state)@),
            wf_two(*op),
        ensures
            wf_state(final(machine_state)@),
            ({
                let (tr, post) = cmov_tr(old(machine_state)@, *op, cond_ns_sp(old(machine_state)@));
                r == tr && final(machine_state)@ == post
            }),
    {
        let state = &*machine_state;
        let cond = !state.get_flag(Flags::Sign);
        self.mov_cond(machine_state, op, cond)
    }

    /// Conditional move when Parity.
    pub fn cmovp(&self, machine_state: &mut MachineState, op: &Operands) -> (r: Result<(), VmError>)
        requires
            wf_state(old(machine_state)@),
            wf_two(*op),
        ensures
            wf_state(final(machine_state)@),
            ({
                let (tr, post) = cmov_tr(old(machine_state)@, *op, cond_p_sp(old(machine_state)@));
                r == tr && final(machine_state)@ == post
            }),
    {
        let state = &*machine_state;
        let cond = state.get_flag(Flags::Parity);
        self.mov_cond(machine_state, op, cond)
    }

    /// Conditional move when not Parity.
    pub fn cmovnp(&self, machine_state: &mut MachineState, op: &Operands) -> (r: Result<(), VmError>)
        requires
            wf_state(old(machine_state)@),
            wf_two(*op),
        ensures
            wf_state(final(machine_state)@),
            ({
                let (tr, post) = cmov_tr(old(machine_state)@, *op, cond_np_sp(old(machine_state)@));
                r == tr && final(machine_state)@ == post
            }),
    {
        let state = &*machine_state;
        let cond = !state.get_flag(Flags::Parity);
        self.mov_cond(machine_state, op, cond)
    }

    /// Conditional move when Sign differs from Overflow.
    pub fn cmovl(&self, machine_state: &mut MachineState, op: &Operands) -> (r: Result<(), VmError>)
        requires
            wf_state(old(machine_state)@),
            wf_two(*op),
        ensures
            wf_state(final(machine_state)@),
            ({
                let (tr, post) = cmov_tr(old(machine_state)@, *op, cond_l_sp(old(machine_state)@));
                r == tr && final(machine_state)@ == post
            }),
    {
        let state = &*machine_state;
        let cond = state.get_flag(Flags::Sign) != state.get_flag(Flags::Overflow);
        self.mov_cond(machine_state, op, cond)
    }

    /// Conditional move when Sign equals Overflow.
    pub fn cmovge(&self, machine_state: &mut MachineState, op: &Operands) -> (r: Result<(), VmError>)
        requires
            wf_state(old(machine_state)@),
            wf_two(*op),
        ensures
            wf_state(final(machine_state)@),
            ({
                let (tr, post) = cmov_tr(old(machine_state)@, *op, cond_ge_sp(old(machine_state)@));
                r == tr && final(machine_state)@ == post
            }),
    {
        let state = &*machine_state;
        let cond = state.get_flag(Flags::Sign) == state.get_flag(Flags::Overflow);
        self.mov_cond(machine_state, op, cond)
    }

    /// Conditional move when Zero, or Sign differs from Overflow.
    pub fn cmovle(&self, machine_state: &mut MachineState, op: &Operands) -> (r: Result<(), VmError>)
        requires
            wf_state(old(machine_state)@),
            wf_two(*op),
        ensures
            wf_state(final(machine_state)@),
            ({
                let (tr, post) = cmov_tr(old(machine_state)@, *op, cond_le_sp(old(machine_state)@));
                r == tr && final(machine_state)@ == post
            }),
    {
        let state = &*machine_state;
        let cond = state.get_flag(Flags::Zero) || (state.get_flag(Flags::Sign) != state.get_flag(Flags::Overflow));
        self.mov_cond(machine_state, op, cond)
    }

    /// Conditional move when not Zero, and Sign equals Overflow.
    pub fn cmovg(&self, machine_state: &mut MachineState, op: &Operands) -> (r: Result<(), VmError>)
        requires
            wf_state(old(machine_state)@),
            wf_two(*op),
        ensures
            wf_state(final(machine_state)@),
            ({
                let (tr, post) = cmov_tr(old(machine_state)@, *op, cond_g_sp(old(machine_state)@));
                r == tr && final(machine_state)@ == post
            }),
    {
        let state = &*machine_state;
        let cond = !state.get_flag(Flags::Zero) && (state.get_flag(Flags::Sign) == state.get_flag(Flags::Overflow));
        self.mov_cond(machine_state, op, cond)
    }

    /// Store 1 into the byte operand when Overflow, else 0.
    pub fn seto(&self, machine_state: &mut MachineState, op: &Operands) -> (r: Result<(), VmError>)
        requires
            wf_state(old(machine_state)@),
            wf_one_write(*op),
        ensures
            wf_state(final(machine_state)@),
            ({
                let (tr, post) = setcc_tr(old(machine_state)@, *op, cond_o_sp(old(machine_state)@));
                r == tr && final(machine_state)@ == post
            }),
    {
        let state = &*machine_state;
        let cond = state.get_flag(Flags::Overflow);
        self.set_byte(machine_state, op, cond)
    }

    /// Store 1 into the byte operand when not Overflow, else 0.
    pub fn setno(&self, machine_state: &mut MachineState, op: &Operands) -> (r: Result<(), VmError>)
        requires
            wf_state(old(machine_state)@),
            wf_one_write(*op),
        ensures
            wf_state(final(machine_state)@),
            ({
                let (tr, post) = setcc_tr(old(machine_state)@, *op, cond_no_sp(old(machine_state)@));
                r == tr && final(machine_state)@ == post
            }),
    {
        let state = &*machine_state;
        let cond = !state.get_flag(Flags::Overflow);
        self.set_byte(machine_state, op, cond)
    }

    /// Store 1 into the byte operand when Carry, else 0.
    pub fn setb(&self, machine_state: &mut MachineState, op: &Operands) -> (r: Result<(), VmError>)
        requires
            wf_state(old(machine_state)@),
            wf_one_write(*op),
        ensures
            wf_state(final(machine_state)@),
            ({
                let (tr, post) = setcc_tr(old(machine_state)@, *op, cond_b_sp(old(machine_state)@));
                r == tr && final(machine_state)@ == post
            }),
    {
        let state = &*machine_state;
        let cond = state.get_flag(Flags::Carry);
        self.set_byte(machine_state, op, cond)
    }

    /// Store 1 into the byte operand when not Carry, else 0.
    pub fn setae(&self, machine_state: &mut MachineState, op: &Operands) -> (r: Result<(), VmError>)
        requires
            wf_state(old(machine_state)@),
            wf_one_write(*op),
        ensures
            wf_state(final(machine_state)@),
            ({
                let (tr, post) = setcc_tr(old(machine_state)@, *op, cond_ae_sp(old(machine_state)@));
                r == tr && final(machine_state)@ == post
            }),
    {
        let state = &*machine_state;
        let cond = !state.get_flag(Flags::Carry);
        self.set_byte(machine_state, op, cond)
    }

    /// Store 1 into the byte operand when Zero, else 0.
    pub fn sete(&self, machine_state: &mut MachineState, op: &Operands) -> (r: Result<(), VmError>)
        requires
            wf_state(old(machine_state)@),
            wf_one_write(*op),
        ensures
            wf_state(final(machine_state)@),
            ({
                let (tr, post) = setcc_tr(old(machine_state)@, *op, cond_e_sp(old(machine_state)@));
                r == tr && final(machine_state)@ == post
            }),
    {
        let state = &*machine_state;
        let cond = state.get_flag(Flags::Zero);
        self.set_byte(machine_state, op, cond)
    }

    /// Store 1 into the byte operand when not Zero, else 0.
    pub fn setne(&self, machine_state: &mut MachineState, op: &Operands) -> (r: Result<(), VmError>)
        requires
            wf_state(old(machine_state)@),
            wf_one_write(*op),
        ensures
            wf_state(final(machine_state)@),
            ({
                let (tr, post) = setcc_tr(old(machine_state)@, *op, cond_ne_sp(old(machine_state)@));
                r == tr && final(machine_state)@ == post
            }),
    {
        let state = &*machine_state;
        let cond = !state.get_flag(Flags::Zero);
        self.set_byte(machine_state, op, cond)
    }

    /// Store 1 into the byte operand when Carry or Zero, else 0.
    pub fn setbe(&self, machine_state: &mut MachineState, op: &Operands) -> (r: Result<(), VmError>)
        requires
            wf_state(old(machine_state)@),
            wf_one_write(*op),
        ensures
            wf_state(final(machine_state)@),
            ({
                let (tr, post) = setcc_tr(old(machine_state)@, *op, cond_be_sp(old(machine_state)@));
                r == tr && final(machine_state)@ == post
            }),
    {
        let state = &*machine_state;
        let cond = state.get_flag(Flags::Carry) || state.get_flag(Flags::Zero);
        self.set_byte(machine_state, op, cond)
    }

    /// Store 1 into the byte operand when neither Carry nor Zero, else 0.
    pub fn seta(&self, machine_state: &mut MachineState, op: &Operands) -> (r: Result<(), VmError>)
        requires
            wf_state(old(machine_state)@),
            wf_one_write(*op),
        ensures
            wf_state(final(machine_state)@),
            ({
                let (tr, post) = setcc_tr(old(machine_state)@, *op, cond_a_sp(old(machine_state)@));
                r == tr && final(machine_state)@ == post
            }),
    {
        let state = &*machine_state;
        let cond = !state.get_flag(Flags::Carry) && !state.get_flag(Flags::Zero);
        self.set_byte(machine_state, op, cond)
    }

    /// Store 1 into the byte operand when Sign, else 0.
    pub fn sets(&self, machine_state: &mut MachineState, op: &Operands) -> (r: Result<(), VmError>)
        requires
            wf_state(old(machine_state)@),
            wf_one_write(*op),
        ensures
            wf_state(final(machine_state)@),
            ({
                let (tr, post) = setcc_tr(old(machine_state)@, *op, cond_s_sp(old(machine_state)@));
                r == tr && final(machine_state)@ == post
            }),
    {
        let state = &*machine_state;
        let cond = state.get_flag(Flags::Sign);
        self.set_byte(machine_state, op, cond)
    }

    /// Store 1 into the byte operand when not Sign, else 0.
    pub fn setns(&self, machine_state: &mut MachineState, op: &Operands) -> (r: Result<(), VmError>)
        requires
            wf_state(old(machine_state)@),
            wf_one_write(*op),
        ensures
            wf_state(final(machine_state)@),
            ({
                let (tr, post) = setcc_tr(old(machine_state)@, *op, cond_ns_sp(old(machine_state)@));
                r == tr && final(machine_state)@ == post
            }),
    {
        let state = &*machine_state;
        let cond = !state.get_flag(Flags::Sign);
        self.set_byte(machine_state, op, cond)
    }

    /// Store 1 into the byte operand when Parity, else 0.
    pub fn setp(&self, machine_state: &mut MachineState, op: &Operands) -> (r: Result<(), VmError>)
        requires
            wf_state(old(machine_state)@),
            wf_one_write(*op),
        ensures
            wf_state(final(machine_state)@),
            ({
                let (tr, post) = setcc_tr(old(machine_state)@, *op, cond_p_sp(old(machine_state)@));
                r == tr && final(machine_state)@ == post
            }),
    {
        let state = &*machine_state;
        let cond = state.get_flag(Flags::Parity);
        self.set_byte(machine_state, op, cond)
    }

    /// Store 1 into the byte operand when not Parity, else 0.
    pub fn setnp(&self, machine_state: &mut MachineState, op: &Operands) -> (r: Result<(), VmError>)
        requires
            wf_state(old(machine_state)@),
            wf_one_write(*op),
        ensures
            wf_state(final(machine_state)@),
            ({
                let (tr, post) = setcc_tr(old(machine_state)@, *op, cond_np_sp(old(machine_state)@));
                r == tr && final(machine_state)@ == post
            }),
    {
        let state = &*machine_state;
        let cond = !state.get_flag(Flags::Parity);
        self.set_byte(machine_state, op, cond)
    }

    /// Store 1 into the byte operand when Sign differs from Overflow, else 0.
    pub fn setl(&self, machine_state: &mut MachineState, op: &Operands) -> (r: Result<(), VmError>)
        requires
            wf_state(old(machine_state)@),
            wf_one_write(*op),
        ensures
            wf_state(final(machine_state)@),
            ({
                let (tr, post) = setcc_tr(old(machine_state)@, *op, cond_l_sp(old(machine_state)@));
                r == tr && final(machine_state)@ == post
            }),
    {
        let state = &*machine_state;
        let cond = state.get_flag(Flags::Sign) != state.get_flag(Flags::Overflow);
        self.set_byte(machine_state, op, cond)
    }

    /// Store 1 into the byte operand when Sign equals Overflow, else 0.
    pub fn setge(&self, machine_state: &mut MachineState, op: &Operands) -> (r: Result<(), VmError>)
        requires
            wf_state(old(machine_state)@),
            wf_one_write(*op),
        ensures
            wf_state(final(machine_state)@),
            ({
                let (tr, post) = setcc_tr(old(machine_state)@, *op, cond_ge_sp(old(machine_state)@));
                r == tr && final(machine_state)@ == post
            }),
    {
        let state = &*machine_state;
        let cond = state.get_flag(Flags::Sign) == state.get_flag(Flags::Overflow);
        self.set_byte(machine_state, op, cond)
    }

    /// Store 1 into the byte operand when Zero, or Sign differs from Overflow, else 0.
    pub fn setle(&self, machine_state: &mut MachineState, op: &Operands) -> (r: Result<(), VmError>)
        requires
            wf_state(old(machine_state)@),
            wf_one_write(*op),
        ensures
            wf_state(final(machine_state)@),
            ({
                let (tr, post) = setcc_tr(old(machine_state)@, *op, cond_le_sp(old(machine_state)@));
                r == tr && final(machine_state)@ == post
            }),
    {
        let state = &*machine_state;
        let cond = state.get_flag(Flags::Zero) || (state.get_flag(Flags::Sign) != state.get_flag(Flags::Overflow));
        self.set_byte(machine_state, op, cond)
    }

    /// Store 1 into the byte operand when not Zero, and Sign equals Overflow, else 0.
    pub fn setg(&self, machine_state: &mut MachineState, op: &Operands) -> (r: Result<(), VmError>)
        requires
            wf_state(old(machine_state)@),
            wf_one_write(*op),
        ensures
            wf_state(final(machine_state)@),
            ({
                let (tr, post) = setcc_tr(old(machine_state)@, *op, cond_g_sp(old(machine_state)@));
                r == tr && final(machine_state)@ == post
            }),
    {
        let state = &*machine_state;
        let cond = !state.get_flag(Flags::Zero) && (state.get_flag(Flags::Sign) == state.get_flag(Flags::Overflow));
        self.set_byte(machine_state, op, cond)
    }

}

/// RFLAGS after a shift: a count of one defines Overflow, a nonzero
/// count sets Carry and folds the result into Zero/Sign/Parity, a
/// count of zero leaves every flag unchanged.
pub open spec fn shift_flags_sp(
    rflags: i64,
    result: i64,
    carry: bool,
    overflow: bool,
    count: u64,
    w: OperandSize,
) -> i64 {
    let f1 = if count == 1 {
        set_flag_sp(rflags, Flags::Overflow, overflow)
    } else {
        rflags
    };
    if count != 0 {
        compute_flags_sp(set_flag_sp(f1, Flags::Carry, carry), result, w)
    } else {
        f1
    }
}

/// Shift left at a width, count masked (0x1F below 64 bits, 0x3F at 64). The result, the Carry flag value, the
/// Overflow flag value (meaningful for a count of one), and the
/// masked count.
pub open spec fn shl_parts_sp(v0: i64, v1: i64, w: OperandSize) -> (i64, bool, bool, u64) {
    match w {
        OperandSize::Bit8 => {
            let c = (v0 as u64) % 0x20;
            if c > 8 {
                (0, false, false, c)
            } else if c == 8 {
                (0, v1 & 1 == 1, false, c)
            } else {
                let result = ((v1 as u8) << c) as i64;
                let carry = if c == 0 {
                    false
                } else {
                    ((v1 as u8) >> ((8 - c) as u8)) & 1 == 1
                };
                let overflow = (((result as u8) & 0x80) != 0) != carry;
                (result, carry, overflow, c)
            }
        },
        OperandSize::Bit16 => {
            let c = (v0 as u64) % 0x20;
            if c > 16 {
                (0, false, false, c)
            } else if c == 16 {
                (0, v1 & 1 == 1, false, c)
            } else {
                let result = ((v1 as u16) << c) as i64;
                let carry = if c == 0 {
                    false
                } else {
                    ((v1 as u16) >> ((16 - c) as u16)) & 1 == 1
                };
                let overflow = (((result as u16) & 0x8000) != 0) != carry;
                (result, carry, overflow, c)
            }
        },
        OperandSize::Bit32 => {
            let c = (v0 as u64) % 0x20;
            if c > 32 {
                (0, false, false, c)
            } else if c == 32 {
                (0, v1 & 1 == 1, false, c)
            } else {
                let result = ((v1 as u32) << c) as i64;
                let carry = if c == 0 {
                    false
                } else {
                    ((v1 as u32) >> ((32 - c) as u32)) & 1 == 1
                };
                let overflow = (((result as u32) & 0x8000_0000) != 0) != carry;
                (result, carry, overflow, c)
            }
        },
        OperandSize::Bit64 => {
            let c = (v0 as u64) & 0x3F;
            if c > 64 {
                (0, false, false, c)
            } else if c == 64 {
                (0, v1 & 1 == 1, false, c)
            } else {
                let result = ((v1 as u64) << c) as i64;
                let carry = if c == 0 {
                    false
                } else {
                    ((v1 as u64) >> ((64 - c) as u64)) & 1 == 1
                };
                let overflow = (((result as u64) & 0x8000_0000_0000_0000) != 0) != carry;
                (result, carry, overflow, c)
            }
        },
        OperandSize::Bit128 => (0, false, false, 0),
    }
}

fn shl_parts(v0: i64, v1: i64, w: OperandSize) -> (r: (i64, bool, bool, u64))
    requires
        w != OperandSize::Bit128,
    ensures
        r == shl_parts_sp(v0, v1, w),
{
    match w {
        OperandSize::Bit8 => {
            let c = (v0 as u64) % 0x20;
            if c > 8 {
                (0, false, false, c)
            } else if c == 8 {
                (0, v1 & 1 == 1, false, c)
            } else {
                let result = ((v1 as u8) << c) as i64;
                let carry = if c == 0 {
                    false
                } else {
                    ((v1 as u8) >> ((8 - c) as u8)) & 1 == 1
                };
                let overflow = (((result as u8) & 0x80) != 0) != carry;
                (result, carry, overflow, c)
            }
        },
        OperandSize::Bit16 => {
            let c = (v0 as u64) % 0x20;
            if c > 16 {
                (0, false, false, c)
            } else if c == 16 {
                (0, v1 & 1 == 1, false, c)
            } else {
                let result = ((v1 as u16) << c) as i64;
                let carry = if c == 0 {
                    false
                } else {
                    ((v1 as u16) >> ((16 - c) as u16)) & 1 == 1
                };
                let overflow = (((result as u16) & 0x8000) != 0) != carry;
                (result, carry, overflow, c)
            }
        },
        OperandSize::Bit32 => {
            let c = (v0 as u64) % 0x20;
            if c > 32 {
                (0, false, false, c)
            } else if c == 32 {
                (0, v1 & 1 == 1, false, c)
            } else {
                let result = ((v1 as u32) << c) as i64;
                let carry = if c == 0 {
                    false
                } else {
                    ((v1 as u32) >> ((32 - c) as u32)) & 1 == 1
                };
                let overflow = (((result as u32) & 0x8000_0000) != 0) != carry;
                (result, carry, overflow, c)
            }
        },
        OperandSize::Bit64 => {
            let c = (v0 as u64) & 0x3F;
            if c > 64 {
                (0, false, false, c)
            } else if c == 64 {
                (0, v1 & 1 == 1, false, c)
            } else {
                let result = ((v1 as u64) << c) as i64;
                let carry = if c == 0 {
                    false
                } else {
                    ((v1 as u64) >> ((64 - c) as u64)) & 1 == 1
                };
                let overflow = (((result as u64) & 0x8000_0000_0000_0000) != 0) != carry;
                (result, carry, overflow, c)
            }
        },
        OperandSize::Bit128 => unreached(),
    }
}
/// Logical shift right at a width, count masked. The result, the Carry flag value, the
/// Overflow flag value (meaningful for a count of one), and the
/// masked count.
pub open spec fn shr_parts_sp(v0: i64, v1: i64, w: OperandSize) -> (i64, bool, bool, u64) {
    match w {
        OperandSize::Bit8 => {
            let c = (v0 as u64) % 0x20;
            if c > 8 {
                (0, false, false, c)
            } else if c == 8 {
                (0, (v1 as u8) & 0x80 != 0, false, c)
            } else {
                let result = ((v1 as u8) >> c) as i64;
                let carry = if c == 0 {
                    false
                } else {
                    ((v1 as u8) >> ((c - 1) as u8)) & 1 == 1
                };
                let overflow = (v1 as u8) & 0x80 != 0;
                (result, carry, overflow, c)
            }
        },
        OperandSize::Bit16 => {
            let c = (v0 as u64) % 0x20;
            if c > 16 {
                (0, false, false, c)
            } else if c == 16 {
                (0, (v1 as u16) & 0x8000 != 0, false, c)
            } else {
                let result = ((v1 as u16) >> c) as i64;
                let carry = if c == 0 {
                    false
                } else {
                    ((v1 as u16) >> ((c - 1) as u16)) & 1 == 1
                };
                let overflow = (v1 as u16) & 0x8000 != 0;
                (result, carry, overflow, c)
            }
        },
        OperandSize::Bit32 => {
            let c = (v0 as u64) % 0x20;
            if c > 32 {
                (0, false, false, c)
            } else if c == 32 {
                (0, (v1 as u32) & 0x8000_0000 != 0, false, c)
            } else {
                let result = ((v1 as u32) >> c) as i64;
                let carry = if c == 0 {
                    false
                } else {
                    ((v1 as u32) >> ((c - 1) as u32)) & 1 == 1
                };
                let overflow = (v1 as u32) & 0x8000_0000 != 0;
                (result, carry, overflow, c)
            }
        },
        OperandSize::Bit64 => {
            let c = (v0 as u64) & 0x3F;
            if c > 64 {
                (0, false, false, c)
            } else if c == 64 {
                (0, (v1 as u64) & 0x8000_0000_0000_0000 != 0, false, c)
            } else {
                let result = ((v1 as u64) >> c) as i64;
                let carry = if c == 0 {
                    false
                } else {
                    ((v1 as u64) >> ((c - 1) as u64)) & 1 == 1
                };
                let overflow = (v1 as u64) & 0x8000_0000_0000_0000 != 0;
                (result, carry, overflow, c)
            }
        },
        OperandSize::Bit128 => (0, false, false, 0),
    }
}

fn shr_parts(v0: i64, v1: i64, w: OperandSize) -> (r: (i64, bool, bool, u64))
    requires
        w != OperandSize::Bit128,
    ensures
        r == shr_parts_sp(v0, v1, w),
{
    match w {
        OperandSize::Bit8 => {
            let c = (v0 as u64) % 0x20;
            if c > 8 {
                (0, false, false, c)
            } else if c == 8 {
                (0, (v1 as u8) & 0x80 != 0, false, c)
            } else {
                let result = ((v1 as u8) >> c) as i64;
                let carry = if c == 0 {
                    false
                } else {
                    ((v1 as u8) >> ((c - 1) as u8)) & 1 == 1
                };
                let overflow = (v1 as u8) & 0x80 != 0;
                (result, carry, overflow, c)
            }
        },
        OperandSize::Bit16 => {
            let c = (v0 as u64) % 0x20;
            if c > 16 {
                (0, false, false, c)
            } else if c == 16 {
                (0, (v1 as u16) & 0x8000 != 0, false, c)
            } else {
                let result = ((v1 as u16) >> c) as i64;
                let carry = if c == 0 {
                    false
                } else {
                    ((v1 as u16) >> ((c - 1) as u16)) & 1 == 1
                };
                let overflow = (v1 as u16) & 0x8000 != 0;
                (result, carry, overflow, c)
            }
        },
        OperandSize::Bit32 => {
            let c = (v0 as u64) % 0x20;
            if c > 32 {
                (0, false, false, c)
            } else if c == 32 {
                (0, (v1 as u32) & 0x8000_0000 != 0, false, c)
            } else {
                let result = ((v1 as u32) >> c) as i64;
                let carry = if c == 0 {
                    false
                } else {
                    ((v1 as u32) >> ((c - 1) as u32)) & 1 == 1
                };
                let overflow = (v1 as u32) & 0x8000_0000 != 0;
                (result, carry, overflow, c)
            }
        },
        OperandSize::Bit64 => {
            let c = (v0 as u64) & 0x3F;
            if c > 64 {
                (0, false, false, c)
            } else if c == 64 {
                (0, (v1 as u64) & 0x8000_0000_0000_0000 != 0, false, c)
            } else {
                let result = ((v1 as u64) >> c) as i64;
                let carry = if c == 0 {
                    false
                } else {
                    ((v1 as u64) >> ((c - 1) as u64)) & 1 == 1
                };
                let overflow = (v1 as u64) & 0x8000_0000_0000_0000 != 0;
                (result, carry, overflow, c)
            }
        },
        OperandSize::Bit128 => unreached(),
    }
}
/// Arithmetic shift right at a width, count masked. The result, the Carry flag value, the
/// Overflow flag value (meaningful for a count of one), and the
/// masked count.
pub open spec fn sar_parts_sp(v0: i64, v1: i64, w: OperandSize) -> (i64, bool, bool, u64) {
    match w {
        OperandSize::Bit8 => {
            let c = (v0 as u64) % 0x20;
            if c > 8 {
                (0, false, false, c)
            } else if c == 8 {
                (0, (v1 as u8) & 0x80 != 0, false, c)
            } else {
                let result = ((v1 as i8) >> c) as i64;
                let carry = if c == 0 {
                    false
                } else {
                    ((v1 as u8) >> ((c - 1) as u8)) & 1 == 1
                };
                (result, carry, false, c)
            }
        },
        OperandSize::Bit16 => {
            let c = (v0 as u64) % 0x20;
            if c > 16 {
                (0, false, false, c)
            } else if c == 16 {
                (0, (v1 as u16) & 0x8000 != 0, false, c)
            } else {
                let result = ((v1 as i16) >> c) as i64;
                let carry = if c == 0 {
                    false
                } else {
                    ((v1 as u16) >> ((c - 1) as u16)) & 1 == 1
                };
                (result, carry, false, c)
            }
        },
        OperandSize::Bit32 => {
            let c = (v0 as u64) % 0x20;
            if c > 32 {
                (0, false, false, c)
            } else if c == 32 {
                (0, (v1 as u32) & 0x8000_0000 != 0, false, c)
            } else {
                let result = ((v1 as i32) >> c) as i64;
                let carry = if c == 0 {
                    false
                } else {
                    ((v1 as u32) >> ((c - 1) as u32)) & 1 == 1
                };
                (result, carry, false, c)
            }
        },
        OperandSize::Bit64 => {
            let c = (v0 as u64) & 0x3F;
            if c > 64 {
                (0, false, false, c)
            } else if c == 64 {
                (0, (v1 as u64) & 0x8000_0000_0000_0000 != 0, false, c)
            } else {
                let result = ((v1 as i64) >> c) as i64;
                let carry = if c == 0 {
                    false
                } else {
                    ((v1 as u64) >> ((c - 1) as u64)) & 1 == 1
                };
                (result, carry, false, c)
            }
        },
        OperandSize::Bit128 => (0, false, false, 0),
    }
}

fn sar_parts(v0: i64, v1: i64, w: OperandSize) -> (r: (i64, bool, bool, u64))
    requires
        w != OperandSize::Bit128,
    ensures
        r == sar_parts_sp(v0, v1, w),
{
    match w {
        OperandSize::Bit8 => {
            let c = (v0 as u64) % 0x20;
            if c > 8 {
                (0, false, false, c)
            } else if c == 8 {
                (0, (v1 as u8) & 0x80 != 0, false, c)
            } else {
                let result = ((v1 as i8) >> c) as i64;
                let carry = if c == 0 {
                    false
                } else {
                    ((v1 as u8) >> ((c - 1) as u8)) & 1 == 1
                };
                (result, carry, false, c)
            }
        },
        OperandSize::Bit16 => {
            let c = (v0 as u64) % 0x20;
            if c > 16 {
                (0, false, false, c)
            } else if c == 16 {
                (0, (v1 as u16) & 0x8000 != 0, false, c)
            } else {
                let result = ((v1 as i16) >> c) as i64;
                let carry = if c == 0 {
                    false
                } else {
                    ((v1 as u16) >> ((c - 1) as u16)) & 1 == 1
                };
                (result, carry, false, c)
            }
        },
        OperandSize::Bit32 => {
            let c = (v0 as u64) % 0x20;
            if c > 32 {
                (0, false, false, c)
            } else if c == 32 {
                (0, (v1 as u32) & 0x8000_0000 != 0, false, c)
            } else {
                let result = ((v1 as i32) >> c) as i64;
                let carry = if c == 0 {
                    false
                } else {
                    ((v1 as u32) >> ((c - 1) as u32)) & 1 == 1
                };
                (result, carry, false, c)
            }
        },
        OperandSize::Bit64 => {
            let c = (v0 as u64) & 0x3F;
            if c > 64 {
                (0, false, false, c)
            } else if c == 64 {
                (0, (v1 as u64) & 0x8000_0000_0000_0000 != 0, false, c)
            } else {
                let result = ((v1 as i64) >> c) as i64;
                let carry = if c == 0 {
                    false
                } else {
                    ((v1 as u64) >> ((c - 1) as u64)) & 1 == 1
                };
                (result, carry, false, c)
            }
        },
        OperandSize::Bit128 => unreached(),
    }
}


/// The transition of a shift: the first operand is the count, the
/// second the value; store the shifted value and update the flags.
pub open spec fn shift_tr(s: StateView, op: Operands, kind: u8) -> Step {
    let w = op.spec_size();
    let src = op.operands.0.unwrap();
    let dst = op.operands.1.unwrap();
    match rd(s, src, w) {
        Err(e) => (Err(e), s),
        Ok(v0) => match rd(s, dst, w) {
            Err(e) => (Err(e), s),
            Ok(v1) => {
                let (result, carry, overflow, count) = if kind == 4 {
                    shl_parts_sp(v0, v1, w)
                } else if kind == 5 {
                    shr_parts_sp(v0, v1, w)
                } else {
                    sar_parts_sp(v0, v1, w)
                };
                match wr(s, result, dst, w) {
                    Err(e) => (Err(e), s),
                    Ok(s1) => (
                        Ok(()),
                        StateView {
                            rflags: shift_flags_sp(s1.rflags, result, carry, overflow, count, w),
                            ..s1
                        },
                    ),
                }
            },
        },
    }
}

/// The transition of `INC`: add one at the width, Carry preserved.
pub open spec fn inc_tr(s: StateView, op: Operands) -> Step {
    let w = op.spec_size();
    let dst = op.operands.0.unwrap();
    let saved_carry = get_flag_sp(s.rflags, Flags::Carry);
    match rd(s, dst, w) {
        Err(e) => (Err(e), s),
        Ok(v) => match wr(s, add_result_sp(v, 1, w), dst, w) {
            Err(e) => (Err(e), s),
            Ok(s1) => (
                Ok(()),
                StateView {
                    rflags: set_flag_sp(
                        add_flags_sp(s1.rflags, v, 1, w),
                        Flags::Carry,
                        saved_carry,
                    ),
                    ..s1
                },
            ),
        },
    }
}

/// The transition of `DEC`: subtract one at the width, Carry
/// preserved.
pub open spec fn dec_tr(s: StateView, op: Operands) -> Step {
    let w = op.spec_size();
    let dst = op.operands.0.unwrap();
    let saved_carry = get_flag_sp(s.rflags, Flags::Carry);
    match rd(s, dst, w) {
        Err(e) => (Err(e), s),
        Ok(v) => match wr(s, sub_result_sp(1, v, w), dst, w) {
            Err(e) => (Err(e), s),
            Ok(s1) => (
                Ok(()),
                StateView {
                    rflags: set_flag_sp(
                        sub_flags_sp(s1.rflags, 1, v, w),
                        Flags::Carry,
                        saved_carry,
                    ),
                    ..s1
                },
            ),
        },
    }
}

/// The transition of `NOT`: store the bitwise complement; flags do not
/// change.
pub open spec fn not_tr(s: StateView, op: Operands) -> Step {
    let w = op.spec_size();
    let dst = op.operands.0.unwrap();
    match rd(s, dst, w) {
        Err(e) => (Err(e), s),
        Ok(v) => match wr(s, !v, dst, w) {
            Err(e) => (Err(e), s),
            Ok(s1) => (Ok(()), s1),
        },
    }
}

/// The transition of `NEG`: store `0 - value` at the width with the
/// flags of the subtraction.
pub open spec fn neg_tr(s: StateView, op: Operands) -> Step {
    let w = op.spec_size();
    let dst = op.operands.0.unwrap();
    match rd(s, dst, w) {
        Err(e) => (Err(e), s),
        Ok(v) => match wr(s, sub_result_sp(v, 0, w), dst, w) {
            Err(e) => (Err(e), s),
            Ok(s1) => (
                Ok(()),
                StateView { rflags: sub_flags_sp(s1.rflags, v, 0, w), ..s1 },
            ),
        },
    }
}

/// The transition of `XCHG`: read both operands, then write each value
/// into the other operand.
pub open spec fn xchg_tr(s: StateView, op: Operands) -> Step {
    let w = op.spec_size();
    let first = op.operands.0.unwrap();
    let second = op.operands.1.unwrap();
    match rd(s, first, w) {
        Err(e) => (Err(e), s),
        Ok(v0) => match rd(s, second, w) {
            Err(e) => (Err(e), s),
            Ok(v1) => match wr(s, v1, first, w) {
                Err(e) => (Err(e), s),
                Ok(s1) => match wr(s1, v0, second, w) {
                    Err(e) => (Err(e), s1),
                    Ok(s2) => (Ok(()), s2),
                },
            },
        },
    }
}

/// The accumulator register of a width: AL, AX, EAX or RAX.
pub open spec fn accumulator_sp(w: OperandSize) -> Register {
    match w {
        OperandSize::Bit8 => Register::AL,
        OperandSize::Bit16 => Register::AX,
        OperandSize::Bit32 => Register::EAX,
        OperandSize::Bit64 => Register::RAX,
        OperandSize::Bit128 => Register::RAX,
    }
}

/// The transition of `CMPXCHG`: when the accumulator equals the
/// destination, set Zero and store the source; otherwise clear Zero
/// and load the destination into the accumulator.
pub open spec fn cmpxchg_tr(s: StateView, op: Operands) -> Step {
    let w = op.spec_size();
    let src = op.operands.0.unwrap();
    let dst = op.operands.1.unwrap();
    match rd(s, src, w) {
        Err(e) => (Err(e), s),
        Ok(source) => match rd(s, dst, w) {
            Err(e) => (Err(e), s),
            Ok(destination) => {
                let acc = accumulator_sp(w);
                let accumulator = get_register_value_sp(s, acc);
                if accumulator == destination {
                    let s1 = StateView {
                        rflags: set_flag_sp(s.rflags, Flags::Zero, true),
                        ..s
                    };
                    match wr(s1, source, dst, w) {
                        Err(e) => (Err(e), s1),
                        Ok(s2) => (Ok(()), s2),
                    }
                } else {
                    let s1 = StateView {
                        rflags: set_flag_sp(s.rflags, Flags::Zero, false),
                        ..s
                    };
                    (Ok(()), set_register_value_sp(s1, acc, destination))
                }
            },
        },
    }
}

/// The number of value bits at a width, for bit-index normalization.
pub open spec fn bit_width_sp(w: OperandSize) -> u64 {
    match w {
        OperandSize::Bit8 => 8,
        OperandSize::Bit16 => 16,
        OperandSize::Bit32 => 32,
        OperandSize::Bit64 => 64,
        OperandSize::Bit128 => 64,
    }
}

/// A bit index normalized modulo the operand width.
pub open spec fn bt_pos_sp(position: i64, w: OperandSize) -> u64 {
    (position as u64) % bit_width_sp(w)
}

/// The selected bit of a value.
pub open spec fn bt_bit_sp(v: i64, pos: u64) -> bool {
    ((v as u64) >> pos) & 1 == 1
}

/// The transition of `BT`: Carry takes the selected bit of the second
/// operand; nothing is stored.
pub open spec fn bt_tr(s: StateView, op: Operands) -> Step {
    let w = op.spec_size();
    let src = op.operands.0.unwrap();
    let dst = op.operands.1.unwrap();
    match rd(s, src, w) {
        Err(e) => (Err(e), s),
        Ok(position) => match rd(s, dst, w) {
            Err(e) => (Err(e), s),
            Ok(v) => {
                let bit = bt_bit_sp(v, bt_pos_sp(position, w));
                (Ok(()), StateView { rflags: set_flag_sp(s.rflags, Flags::Carry, bit), ..s })
            },
        },
    }
}

/// The transition of `BTS`/`BTR`/`BTC`: Carry takes the selected bit,
/// then the bit is set (mode 0), cleared (mode 1) or toggled (mode 2)
/// in the destination.
pub open spec fn btx_tr(s: StateView, op: Operands, mode: u8) -> Step {
    let w = op.spec_size();
    let src = op.operands.0.unwrap();
    let dst = op.operands.1.unwrap();
    match rd(s, src, w) {
        Err(e) => (Err(e), s),
        Ok(position) => match rd(s, dst, w) {
            Err(e) => (Err(e), s),
            Ok(v) => {
                let pos = bt_pos_sp(position, w);
                let bit = bt_bit_sp(v, pos);
                let new_bit = if mode == 0 {
                    true
                } else if mode == 1 {
                    false
                } else {
                    !bit
                };
                let result = if new_bit {
                    v | (1i64 << pos)
                } else {
                    v & !(1i64 << pos)
                };
                let s1 = StateView { rflags: set_flag_sp(s.rflags, Flags::Carry, bit), ..s };
                match wr(s1, result, dst, w) {
                    Err(e) => (Err(e), s1),
                    Ok(s2) => (Ok(()), s2),
                }
            },
        },
    }
}

/// The widening unsigned product of the width-truncated accumulator
/// and the width-truncated operand.
pub open spec fn mul_product_sp(s: StateView, v: i64, w: OperandSize) -> u128 {
    let a = width_trunc_sp(get_register_value_sp(s, accumulator_sp(w)), w);
    let b = width_trunc_sp(v, w);
    ((a as u128) * (b as u128)) as u128
}

/// The transition of `MUL`: the accumulator takes the low half of the
/// widening product; DX/EDX/RDX takes the high half at 16 bits and
/// above; Zero/Sign/Parity follow the width-truncated low half.
pub open spec fn mul_tr(s: StateView, op: Operands) -> Step {
    let w = op.spec_size();
    match rd(s, op.operands.0.unwrap(), w) {
        Err(e) => (Err(e), s),
        Ok(v) => {
            let product = mul_product_sp(s, v, w);
            let truncated = match w {
                OperandSize::Bit8 => (product as u8) as i64,
                OperandSize::Bit16 => (product as u16) as i64,
                OperandSize::Bit32 => (product as u32) as i64,
                _ => product as i64,
            };
            let s1 = StateView {
                rflags: compute_flags_sp(s.rflags, truncated, w),
                ..s
            };
            let s2 = set_register_value_sp(s1, accumulator_sp(w), product as i64);
            let s3 = match w {
                OperandSize::Bit16 => set_register_value_sp(
                    s2,
                    Register::DX,
                    (product >> 16u128) as i64,
                ),
                OperandSize::Bit32 => set_register_value_sp(
                    s2,
                    Register::EDX,
                    (product >> 32u128) as i64,
                ),
                OperandSize::Bit64 => set_register_value_sp(
                    s2,
                    Register::RDX,
                    (product >> 64u128) as i64,
                ),
                _ => s2,
            };
            (Ok(()), s3)
        },
    }
}

/// The wrapped signed product of two operand values.
pub open spec fn imul_result_sp(v0: i64, v1: i64) -> i64 {
    v0.wrapping_mul(v1)
}

/// The transition of the two- and three-operand `IMUL`: the wrapped
/// signed product of the first two operands, stored into the third
/// operand when there is one, else into the second;
/// Zero/Sign/Parity follow the width-truncated product.
pub open spec fn imul_tr(s: StateView, op: Operands) -> Step {
    let w = op.spec_size();
    let src = op.operands.0.unwrap();
    let dst = op.operands.1.unwrap();
    match rd(s, src, w) {
        Err(e) => (Err(e), s),
        Ok(v0) => match rd(s, dst, w) {
            Err(e) => (Err(e), s),
            Ok(v1) => {
                let result = imul_result_sp(v0, v1);
                let s1 = StateView {
                    rflags: compute_flags_sp(s.rflags, zext_sp(result, w), w),
                    ..s
                };
                let target = match op.operands.2 {
                    Some(t) => t,
                    None => dst,
                };
                match wr(s1, result, target, w) {
                    Err(e) => (Err(e), s1),
                    Ok(s2) => (Ok(()), s2),
                }
            },
        },
    }
}

/// The divider register pair of a width: the low and high halves of
/// the dividend.
pub open spec fn div_regs_sp(w: OperandSize) -> (Register, Register) {
    match w {
        OperandSize::Bit8 => (Register::AL, Register::AH),
        OperandSize::Bit16 => (Register::AX, Register::DX),
        OperandSize::Bit32 => (Register::EAX, Register::EDX),
        OperandSize::Bit64 => (Register::RAX, Register::RDX),
        OperandSize::Bit128 => (Register::RAX, Register::RDX),
    }
}

/// A value truncated to the unsigned word of a width.
pub open spec fn width_trunc_sp(v: i64, w: OperandSize) -> u64 {
    match w {
        OperandSize::Bit8 => (v as u8) as u64,
        OperandSize::Bit16 => (v as u16) as u64,
        OperandSize::Bit32 => (v as u32) as u64,
        _ => v as u64,
    }
}

/// The largest unsigned value a width holds: the quotient bound of a
/// divide.
pub open spec fn width_max_sp(w: OperandSize) -> u128 {
    match w {
        OperandSize::Bit8 => 0xFF,
        OperandSize::Bit16 => 0xFFFF,
        OperandSize::Bit32 => 0xFFFF_FFFF,
        _ => 0xFFFF_FFFF_FFFF_FFFF,
    }
}

/// The dividend of `DIV` at a width: the width-truncated high register
/// shifted up by the width, over the width-truncated low register
/// (AH:AL, DX:AX, EDX:EAX or RDX:RAX).
pub open spec fn div_dividend_sp(s: StateView, w: OperandSize) -> u128 {
    let (lo, hi) = div_regs_sp(w);
    let lo_value = width_trunc_sp(get_register_value_sp(s, lo), w) as u128;
    let hi_value = width_trunc_sp(get_register_value_sp(s, hi), w) as u128;
    match w {
        OperandSize::Bit8 => (hi_value << 8u128) | lo_value,
        OperandSize::Bit16 => (hi_value << 16u128) | lo_value,
        OperandSize::Bit32 => (hi_value << 32u128) | lo_value,
        _ => (hi_value << 64u128) | lo_value,
    }
}

/// The transition of `DIV`: divide the width-paired register dividend
/// by the width-truncated operand; quotient to the low register,
/// remainder to the high one. A zero divisor or a quotient beyond the
/// width is a divide fault that changes nothing.
pub open spec fn div_tr(s: StateView, op: Operands) -> Step {
    let w = op.spec_size();
    match rd(s, op.operands.0.unwrap(), w) {
        Err(e) => (Err(e), s),
        Ok(divisor) => {
            let d = width_trunc_sp(divisor, w) as u128;
            if d == 0 {
                (Err(VmError::DivideOverflow), s)
            } else {
                let dividend = div_dividend_sp(s, w);
                let quotient = dividend / d;
                if quotient > width_max_sp(w) {
                    (Err(VmError::DivideOverflow), s)
                } else {
                    let remainder = dividend % d;
                    let (lo, hi) = div_regs_sp(w);
                    let s1 = set_register_value_sp(s, lo, quotient as i64);
                    let s2 = set_register_value_sp(s1, hi, remainder as i64);
                    (Ok(()), s2)
                }
            }
        },
    }
}

/// The transition of `LGDT`/`LIDT`: record the 64-bit operand in the
/// descriptor-table slot (`true` selects the GDT slot).
pub open spec fn ldt_tr(s: StateView, op: Operands, gdt: bool) -> Step {
    match rd(s, op.operands.0.unwrap(), OperandSize::Bit64) {
        Err(e) => (Err(e), s),
        Ok(v) => if gdt {
            (Ok(()), StateView { gdt: v, ..s })
        } else {
            (Ok(()), StateView { idt: v, ..s })
        },
    }
}

/// The transition of `RDMSR`: only the EFER register (ECX =
/// 0xC0000080) is known; it reads as 0x500 with RDX cleared. Every
/// other selector is a fault.
pub open spec fn rdmsr_tr(s: StateView) -> Step {
    let ecx = get_register_value_sp(s, Register::RCX);
    if ecx == 0xC0000080 {
        let s1 = set_register_value_sp(s, Register::RAX, 0x500);
        let s2 = set_register_value_sp(s1, Register::RDX, 0);
        (Ok(()), s2)
    } else {
        (Err(VmError::UnsupportedMsr(ecx as u32)), s)
    }
}

/// The transition of `CPUID`: fixed vendor and feature words selected
/// by RAX; an unknown leaf is a fault.
pub open spec fn cpuid_tr(s: StateView) -> Step {
    let leaf = get_register_value_sp(s, Register::RAX);
    if leaf == 0 {
        let s1 = set_register_value_sp(s, Register::EAX, 1000);
        let s2 = set_register_value_sp(s1, Register::EBX, 0x756e6547);
        let s3 = set_register_value_sp(s2, Register::EDX, 0x49656e69);
        let s4 = set_register_value_sp(s3, Register::ECX, 0x6c65746e);
        (Ok(()), s4)
    } else if leaf == 1 {
        let s1 = set_register_value_sp(s, Register::EAX, 0);
        let s2 = set_register_value_sp(s1, Register::EBX, 0);
        let s3 = set_register_value_sp(s2, Register::ECX, cpuid_leaf1_ecx());
        let s4 = set_register_value_sp(s3, Register::EDX, cpuid_leaf1_edx());
        (Ok(()), s4)
    } else if leaf == 0x80000000 {
        (Ok(()), set_register_value_sp(s, Register::EAX, 0x80000001))
    } else if leaf == 0x80000001 {
        let s1 = set_register_value_sp(s, Register::RAX, 0x663);
        let s2 = set_register_value_sp(s1, Register::RBX, 0);
        let s3 = set_register_value_sp(s2, Register::RCX, 0x5);
        let s4 = set_register_value_sp(s3, Register::RDX, 0x2193fbfd);
        (Ok(()), s4)
    } else {
        (Err(VmError::UnsupportedInstruction), s)
    }
}

/// The ECX feature word of CPUID leaf 1: no optional features.
pub open spec fn cpuid_leaf1_ecx() -> i64 {
    0
}

/// The EDX feature word of CPUID leaf 1: FPU, PSE, MSR, PAE,
/// CMPXCHG8B, APIC, CMOV, FXSAVE, SSE and SSE2.
pub open spec fn cpuid_leaf1_edx() -> i64 {
    0x0700_8369
}

/// The transition of a vector move (`MOVAPS`/`MOVUPS`/`MOVD`): copy
/// 128 bits from the first operand to the second.
pub open spec fn movps_tr(s: StateView, op: Operands) -> Step {
    let src = op.operands.0.unwrap();
    let dst = op.operands.1.unwrap();
    match crate::machine_state::get_xmm_sp(s, src) {
        None => (Err(VmError::UnmappedPage(ea_sp(s, src))), s),
        Some(v) => match crate::machine_state::set_xmm_sp(s, v, dst) {
            None => (Err(VmError::UnmappedPage(ea_sp(s, dst))), s),
            Some(s1) => (Ok(()), s1),
        },
    }
}

impl EmulationCPU {
    /// `INC`: add one, leaving Carry as it was.
    pub fn inc(&self, machine_state: &mut MachineState, op: &Operands) -> (r: Result<(), VmError>)
        requires
            wf_state(old(machine_state)@),
            wf_one_write(*op),
        ensures
            wf_state(final(machine_state)@),
            ({
                let (tr, post) = inc_tr(old(machine_state)@, *op);
                r == tr && final(machine_state)@ == post
            }),
    {
        let first_operand = op.op();
        let target = *first_operand;
        let operand_size = op.size();
        let saved_carry = machine_state.get_flag(Flags::Carry);
        let value = machine_state.get_value(&target, operand_size)?;
        let (result, carry, overflow) = arith_add(value, 1, operand_size);
        machine_state.set_value(result, &target, operand_size)?;
        machine_state.set_flag(Flags::Carry, carry);
        machine_state.set_flag(Flags::Overflow, overflow);
        machine_state.compute_flags(result, operand_size);
        machine_state.set_flag(Flags::Carry, saved_carry);
        Ok(())
    }

    /// `DEC`: subtract one, leaving Carry as it was.
    pub fn dec(&self, machine_state: &mut MachineState, op: &Operands) -> (r: Result<(), VmError>)
        requires
            wf_state(old(machine_state)@),
            wf_one_write(*op),
        ensures
            wf_state(final(machine_state)@),
            ({
                let (tr, post) = dec_tr(old(machine_state)@, *op);
                r == tr && final(machine_state)@ == post
            }),
    {
        let first_operand = op.op();
        let target = *first_operand;
        let operand_size = op.size();
        let saved_carry = machine_state.get_flag(Flags::Carry);
        let value = machine_state.get_value(&target, operand_size)?;
        let (result, carry, overflow) = arith_sub(1, value, operand_size);
        machine_state.set_value(result, &target, operand_size)?;
        machine_state.set_flag(Flags::Carry, carry);
        machine_state.set_flag(Flags::Overflow, overflow);
        machine_state.compute_flags(result, operand_size);
        machine_state.set_flag(Flags::Carry, saved_carry);
        Ok(())
    }

    /// `NOT`: store the bitwise complement; flags unchanged.
    pub fn not(&self, machine_state: &mut MachineState, op: &Operands) -> (r: Result<(), VmError>)
        requires
            wf_state(old(machine_state)@),
            wf_one_write(*op),
        ensures
            wf_state(final(machine_state)@),
            ({
                let (tr, post) = not_tr(old(machine_state)@, *op);
                r == tr && final(machine_state)@ == post
            }),
    {
        let first_operand = op.op();
        let target = *first_operand;
        let operand_size = op.size();
        let value = machine_state.get_value(&target, operand_size)?;
        machine_state.set_value(!value, &target, operand_size)?;
        Ok(())
    }

    /// `NEG`: store `0 - value` with the subtraction's flags.
    pub fn neg(&self, machine_state: &mut MachineState, op: &Operands) -> (r: Result<(), VmError>)
        requires
            wf_state(old(machine_state)@),
            wf_one_write(*op),
        ensures
            wf_state(final(machine_state)@),
            ({
                let (tr, post) = neg_tr(old(machine_state)@, *op);
                r == tr && final(machine_state)@ == post
            }),
    {
        let first_operand = op.op();
        let target = *first_operand;
        let operand_size = op.size();
        let value = machine_state.get_value(&target, operand_size)?;
        let (result, carry, overflow) = arith_sub(value, 0, operand_size);
        machine_state.set_value(result, &target, operand_size)?;
        machine_state.set_flag(Flags::Carry, carry);
        machine_state.set_flag(Flags::Overflow, overflow);
        machine_state.compute_flags(result, operand_size);
        Ok(())
    }

    /// `SHL`/`SAL`: shift left; Carry takes the last bit shifted out.
    pub fn shl(&self, machine_state: &mut MachineState, op: &Operands) -> (r: Result<(), VmError>)
        requires
            wf_state(old(machine_state)@),
            wf_two(*op),
        ensures
            wf_state(final(machine_state)@),
            ({
                let (tr, post) = shift_tr(old(machine_state)@, *op, 4);
                r == tr && final(machine_state)@ == post
            }),
    {
        self.shift_impl(machine_state, op, 4)
    }

    /// `SHR`: logical shift right; Carry takes the last bit shifted
    /// out.
    pub fn shr(&self, machine_state: &mut MachineState, op: &Operands) -> (r: Result<(), VmError>)
        requires
            wf_state(old(machine_state)@),
            wf_two(*op),
        ensures
            wf_state(final(machine_state)@),
            ({
                let (tr, post) = shift_tr(old(machine_state)@, *op, 5);
                r == tr && final(machine_state)@ == post
            }),
    {
        self.shift_impl(machine_state, op, 5)
    }

    /// `SAR`: arithmetic shift right; Carry takes the last bit shifted
    /// out, Overflow cleared for a count of one.
    pub fn sar(&self, machine_state: &mut MachineState, op: &Operands) -> (r: Result<(), VmError>)
        requires
            wf_state(old(machine_state)@),
            wf_two(*op),
        ensures
            wf_state(final(machine_state)@),
            ({
                let (tr, post) = shift_tr(old(machine_state)@, *op, 7);
                r == tr && final(machine_state)@ == post
            }),
    {
        self.shift_impl(machine_state, op, 7)
    }

    /// Shared body of the shifts: `kind` is the ModR/M extension (4 or
    /// 6 shift left, 5 logical right, 7 arithmetic right).
    fn shift_impl(&self, machine_state: &mut MachineState, op: &Operands, kind: u8) -> (r: Result<
        (),
        VmError,
    >)
        requires
            wf_state(old(machine_state)@),
            wf_two(*op),
            kind == 4 || kind == 5 || kind == 7,
        ensures
            wf_state(final(machine_state)@),
            ({
                let (tr, post) = shift_tr(old(machine_state)@, *op, kind);
                r == tr && final(machine_state)@ == post
            }),
    {
        let operand_size = op.size();
        let (first_operand, second_operand) = op.operands();
        let dst = *second_operand;
        let value0 = machine_state.get_value(first_operand, operand_size)?;
        let value1 = machine_state.get_value(&dst, operand_size)?;
        let (result, carry, overflow, count) = if kind == 4 {
            shl_parts(value0, value1, operand_size)
        } else if kind == 5 {
            shr_parts(value0, value1, operand_size)
        } else {
            sar_parts(value0, value1, operand_size)
        };
        machine_state.set_value(result, &dst, operand_size)?;
        if count == 1 {
            machine_state.set_flag(Flags::Overflow, overflow);
        }
        if count != 0 {
            machine_state.set_flag(Flags::Carry, carry);
            machine_state.compute_flags(result, operand_size);
        }
        Ok(())
    }

    /// `XCHG`: swap the two operands as a pair of reads then a pair of
    /// writes.
    pub fn xchg(&self, machine_state: &mut MachineState, op: &Operands) -> (r: Result<(), VmError>)
        requires
            wf_state(old(machine_state)@),
            op.operands.0 is Some,
            op.operands.1 is Some,
            operand_writable(op.operands.0.unwrap()),
            operand_writable(op.operands.1.unwrap()),
            op.spec_size() != OperandSize::Bit128,
        ensures
            wf_state(final(machine_state)@),
            ({
                let (tr, post) = xchg_tr(old(machine_state)@, *op);
                r == tr && final(machine_state)@ == post
            }),
    {
        let operand_size = op.size();
        let (first_operand, second_operand) = op.operands();
        let a = *first_operand;
        let b = *second_operand;
        let value0 = machine_state.get_value(&a, operand_size)?;
        let value1 = machine_state.get_value(&b, operand_size)?;
        machine_state.set_value(value1, &a, operand_size)?;
        machine_state.set_value(value0, &b, operand_size)?;
        Ok(())
    }

    /// `CMPXCHG`: compare the accumulator with the destination; on
    /// equal store the source and set Zero, else load the destination
    /// into the accumulator and clear Zero.
    pub fn cmpxchg(&self, machine_state: &mut MachineState, op: &Operands) -> (r: Result<
        (),
        VmError,
    >)
        requires
            wf_state(old(machine_state)@),
            wf_two(*op),
        ensures
            wf_state(final(machine_state)@),
            ({
                let (tr, post) = cmpxchg_tr(old(machine_state)@, *op);
                r == tr && final(machine_state)@ == post
            }),
    {
        let operand_size = op.size();
        let (first_operand, second_operand) = op.operands();
        let dst = *second_operand;
        let source = machine_state.get_value(first_operand, operand_size)?;
        let destination = machine_state.get_value(&dst, operand_size)?;
        let accumulator_register = match operand_size {
            OperandSize::Bit8 => Register::AL,
            OperandSize::Bit16 => Register::AX,
            OperandSize::Bit32 => Register::EAX,
            OperandSize::Bit64 => Register::RAX,
            OperandSize::Bit128 => unreached(),
        };
        let accumulator = machine_state.get_register_value(accumulator_register);
        if accumulator == destination {
            machine_state.set_flag(Flags::Zero, true);
            machine_state.set_value(source, &dst, operand_size)?;
        } else {
            machine_state.set_flag(Flags::Zero, false);
            machine_state.set_register_value(accumulator_register, destination);
        }
        Ok(())
    }

    /// `BT`: Carry takes the selected bit.
    pub fn bt(&self, machine_state: &mut MachineState, op: &Operands) -> (r: Result<(), VmError>)
        requires
            wf_state(old(machine_state)@),
            wf_two(*op),
        ensures
            wf_state(final(machine_state)@),
            ({
                let (tr, post) = bt_tr(old(machine_state)@, *op);
                r == tr && final(machine_state)@ == post
            }),
    {
        let operand_size = op.size();
        let (first_operand, second_operand) = op.operands();
        let position = machine_state.get_value(first_operand, operand_size)?;
        let value = machine_state.get_value(second_operand, operand_size)?;
        let pos = bt_pos(position, operand_size);
        let bit = ((value as u64) >> pos) & 1 == 1;
        machine_state.set_flag(Flags::Carry, bit);
        Ok(())
    }

    /// `BTS`: Carry takes the selected bit, which is then set.
    pub fn bts(&self, machine_state: &mut MachineState, op: &Operands) -> (r: Result<(), VmError>)
        requires
            wf_state(old(machine_state)@),
            wf_two(*op),
        ensures
            wf_state(final(machine_state)@),
            ({
                let (tr, post) = btx_tr(old(machine_state)@, *op, 0);
                r == tr && final(machine_state)@ == post
            }),
    {
        self.btx_impl(machine_state, op, 0)
    }

    /// `BTR`: Carry takes the selected bit, which is then cleared.
    pub fn btr(&self, machine_state: &mut MachineState, op: &Operands) -> (r: Result<(), VmError>)
        requires
            wf_state(old(machine_state)@),
            wf_two(*op),
        ensures
            wf_state(final(machine_state)@),
            ({
                let (tr, post) = btx_tr(old(machine_state)@, *op, 1);
                r == tr && final(machine_state)@ == post
            }),
    {
        self.btx_impl(machine_state, op, 1)
    }

    /// `BTC`: Carry takes the selected bit, which is then toggled.
    pub fn btc(&self, machine_state: &mut MachineState, op: &Operands) -> (r: Result<(), VmError>)
        requires
            wf_state(old(machine_state)@),
            wf_two(*op),
        ensures
            wf_state(final(machine_state)@),
            ({
                let (tr, post) = btx_tr(old(machine_state)@, *op, 2);
                r == tr && final(machine_state)@ == post
            }),
    {
        self.btx_impl(machine_state, op, 2)
    }

    /// Shared body of the storing bit operations.
    fn btx_impl(&self, machine_state: &mut MachineState, op: &Operands, mode: u8) -> (r: Result<
        (),
        VmError,
    >)
        requires
            wf_state(old(machine_state)@),
            wf_two(*op),
            mode <= 2,
        ensures
            wf_state(final(machine_state)@),
            ({
                let (tr, post) = btx_tr(old(machine_state)@, *op, mode);
                r == tr && final(machine_state)@ == post
            }),
    {
        let operand_size = op.size();
        let (first_operand, second_operand) = op.operands();
        let dst = *second_operand;
        let position = machine_state.get_value(first_operand, operand_size)?;
        let value = machine_state.get_value(&dst, operand_size)?;
        let pos = bt_pos(position, operand_size);
        let bit = ((value as u64) >> pos) & 1 == 1;
        let new_bit = if mode == 0 {
            true
        } else if mode == 1 {
            false
        } else {
            !bit
        };
        let result = if new_bit {
            value | (1i64 << pos)
        } else {
            value & !(1i64 << pos)
        };
        machine_state.set_flag(Flags::Carry, bit);
        machine_state.set_value(result, &dst, operand_size)?;
        Ok(())
    }

    /// `MUL`: unsigned widening multiply of the accumulator by the
    /// operand.
    pub fn mul(&self, machine_state: &mut MachineState, op: &Operands) -> (r: Result<(), VmError>)
        requires
            wf_state(old(machine_state)@),
            wf_one_read(*op),
        ensures
            wf_state(final(machine_state)@),
            ({
                let (tr, post) = mul_tr(old(machine_state)@, *op);
                r == tr && final(machine_state)@ == post
            }),
    {
        let operand_size = op.size();
        let first_operand = op.op();
        let target = *first_operand;
        let accumulator_register = match operand_size {
            OperandSize::Bit8 => Register::AL,
            OperandSize::Bit16 => Register::AX,
            OperandSize::Bit32 => Register::EAX,
            OperandSize::Bit64 => Register::RAX,
            OperandSize::Bit128 => unreached(),
        };
        let acc_raw = machine_state.get_register_value(accumulator_register);
        let value = machine_state.get_value(&target, operand_size)?;
        let source0: u64 = match operand_size {
            OperandSize::Bit8 => (acc_raw as u8) as u64,
            OperandSize::Bit16 => (acc_raw as u16) as u64,
            OperandSize::Bit32 => (acc_raw as u32) as u64,
            OperandSize::Bit64 => acc_raw as u64,
            OperandSize::Bit128 => unreached(),
        };
        let source1: u64 = match operand_size {
            OperandSize::Bit8 => (value as u8) as u64,
            OperandSize::Bit16 => (value as u16) as u64,
            OperandSize::Bit32 => (value as u32) as u64,
            OperandSize::Bit64 => value as u64,
            OperandSize::Bit128 => unreached(),
        };
        proof {
            assert((source0 as u128) * (source1 as u128) <= 0xFFFF_FFFF_FFFF_FFFF_FFFF_FFFF_FFFF_FFFF)
                by (nonlinear_arith)
                requires source0 <= 0xFFFF_FFFF_FFFF_FFFF, source1 <= 0xFFFF_FFFF_FFFF_FFFF,
            ;
        }
        let product = (source0 as u128) * (source1 as u128);
        let truncated: i64 = match operand_size {
            OperandSize::Bit8 => (product as u8) as i64,
            OperandSize::Bit16 => (product as u16) as i64,
            OperandSize::Bit32 => (product as u32) as i64,
            OperandSize::Bit64 => product as i64,
            OperandSize::Bit128 => unreached(),
        };
        machine_state.compute_flags(truncated, operand_size);
        machine_state.set_register_value(accumulator_register, product as i64);
        match operand_size {
            OperandSize::Bit16 => machine_state.set_register_value(
                Register::DX,
                (product >> 16u128) as i64,
            ),
            OperandSize::Bit32 => machine_state.set_register_value(
                Register::EDX,
                (product >> 32u128) as i64,
            ),
            OperandSize::Bit64 => machine_state.set_register_value(
                Register::RDX,
                (product >> 64u128) as i64,
            ),
            _ => {},
        };
        Ok(())
    }

    /// Two- and three-operand `IMUL`: the wrapped signed product.
    pub fn imul(&self, machine_state: &mut MachineState, op: &Operands) -> (r: Result<(), VmError>)
        requires
            wf_state(old(machine_state)@),
            wf_two(*op),
            op.operands.2 is Some ==> operand_writable(op.operands.2.unwrap()),
        ensures
            wf_state(final(machine_state)@),
            ({
                let (tr, post) = imul_tr(old(machine_state)@, *op);
                r == tr && final(machine_state)@ == post
            }),
    {
        let operand_size = op.size();
        let (first_operand, second_operand) = op.operands();
        let second = *second_operand;
        let source0 = machine_state.get_value(first_operand, operand_size)?;
        let source1 = machine_state.get_value(&second, operand_size)?;
        let result = source0.wrapping_mul(source1);
        let truncated: i64 = match operand_size {
            OperandSize::Bit8 => (result as u8) as i64,
            OperandSize::Bit16 => (result as u16) as i64,
            OperandSize::Bit32 => (result as u32) as i64,
            OperandSize::Bit64 => (result as u64) as i64,
            OperandSize::Bit128 => unreached(),
        };
        machine_state.compute_flags(truncated, operand_size);
        match op.operands.2 {
            Some(target) => machine_state.set_value(result, &target, operand_size)?,
            None => machine_state.set_value(result, &second, operand_size)?,
        };
        Ok(())
    }

    /// `DIV`: unsigned divide of the 128-bit register pair by the
    /// operand.
    pub fn div(&self, machine_state: &mut MachineState, op: &Operands) -> (r: Result<(), VmError>)
        requires
            wf_state(old(machine_state)@),
            wf_one_read(*op),
        ensures
            wf_state(final(machine_state)@),
            ({
                let (tr, post) = div_tr(old(machine_state)@, *op);
                r == tr && final(machine_state)@ == post
            }),
    {
        let operand_size = op.size();
        let first_operand = op.op();
        let target = *first_operand;
        let divisor = machine_state.get_value(&target, operand_size)?;
        let d: u128 = match operand_size {
            OperandSize::Bit8 => ((divisor as u8) as u64) as u128,
            OperandSize::Bit16 => ((divisor as u16) as u64) as u128,
            OperandSize::Bit32 => ((divisor as u32) as u64) as u128,
            OperandSize::Bit64 => (divisor as u64) as u128,
            OperandSize::Bit128 => unreached(),
        };
        if d == 0 {
            return Err(VmError::DivideOverflow);
        }
        let (reg_lower, reg_upper) = match operand_size {
            OperandSize::Bit8 => (Register::AL, Register::AH),
            OperandSize::Bit16 => (Register::AX, Register::DX),
            OperandSize::Bit32 => (Register::EAX, Register::EDX),
            OperandSize::Bit64 => (Register::RAX, Register::RDX),
            OperandSize::Bit128 => unreached(),
        };
        let lo_raw = machine_state.get_register_value(reg_lower);
        let hi_raw = machine_state.get_register_value(reg_upper);
        let dividend: u128 = match operand_size {
            OperandSize::Bit8 => ((((hi_raw as u8) as u64) as u128) << 8u128) | (((
            lo_raw as u8) as u64) as u128),
            OperandSize::Bit16 => ((((hi_raw as u16) as u64) as u128) << 16u128) | (((
            lo_raw as u16) as u64) as u128),
            OperandSize::Bit32 => ((((hi_raw as u32) as u64) as u128) << 32u128) | (((
            lo_raw as u32) as u64) as u128),
            OperandSize::Bit64 => (((hi_raw as u64) as u128) << 64u128) | ((lo_raw as u64) as u128),
            OperandSize::Bit128 => unreached(),
        };
        let quotient = dividend / d;
        let fits = match operand_size {
            OperandSize::Bit8 => quotient <= 0xFF,
            OperandSize::Bit16 => quotient <= 0xFFFF,
            OperandSize::Bit32 => quotient <= 0xFFFF_FFFF,
            OperandSize::Bit64 => quotient <= 0xFFFF_FFFF_FFFF_FFFF,
            OperandSize::Bit128 => unreached(),
        };
        if !fits {
            return Err(VmError::DivideOverflow);
        }
        let remainder = dividend % d;
        machine_state.set_register_value(reg_lower, quotient as i64);
        machine_state.set_register_value(reg_upper, remainder as i64);
        Ok(())
    }

    /// `IDIV` is not implemented: it fails without touching the state.
    pub fn idiv(&self, machine_state: &mut MachineState, op: &Operands) -> (r: Result<(), VmError>)
        ensures
            final(machine_state)@ == old(machine_state)@,
            r == Err::<(), VmError>(VmError::UnsupportedInstruction),
    {
        Err(VmError::UnsupportedInstruction)
    }

    /// The rotates are not implemented: they fail without touching the
    /// state.
    pub fn rol(&self, machine_state: &mut MachineState, op: &Operands) -> (r: Result<(), VmError>)
        ensures
            final(machine_state)@ == old(machine_state)@,
            r == Err::<(), VmError>(VmError::UnsupportedInstruction),
    {
        Err(VmError::UnsupportedInstruction)
    }

    /// See `rol`.
    pub fn ror(&self, machine_state: &mut MachineState, op: &Operands) -> (r: Result<(), VmError>)
        ensures
            final(machine_state)@ == old(machine_state)@,
            r == Err::<(), VmError>(VmError::UnsupportedInstruction),
    {
        Err(VmError::UnsupportedInstruction)
    }

    /// See `rol`.
    pub fn rcl(&self, machine_state: &mut MachineState, op: &Operands) -> (r: Result<(), VmError>)
        ensures
            final(machine_state)@ == old(machine_state)@,
            r == Err::<(), VmError>(VmError::UnsupportedInstruction),
    {
        Err(VmError::UnsupportedInstruction)
    }

    /// See `rol`.
    pub fn rcr(&self, machine_state: &mut MachineState, op: &Operands) -> (r: Result<(), VmError>)
        ensures
            final(machine_state)@ == old(machine_state)@,
            r == Err::<(), VmError>(VmError::UnsupportedInstruction),
    {
        Err(VmError::UnsupportedInstruction)
    }

    /// `SYSCALL` reaches a host that defines no syscalls: it fails
    /// without touching the state.
    pub fn syscall(&self, machine_state: &mut MachineState) -> (r: Result<(), VmError>)
        ensures
            final(machine_state)@ == old(machine_state)@,
            r == Err::<(), VmError>(VmError::UnsupportedSyscall),
    {
        Err(VmError::UnsupportedSyscall)
    }

    /// `LGDT`: record the operand in the GDT slot.
    pub fn lgdt(&self, machine_state: &mut MachineState, op: &Operands) -> (r: Result<(), VmError>)
        requires
            wf_state(old(machine_state)@),
            op.operands.0 is Some,
            op.operands.1 is None,
            operand_readable(op.operands.0.unwrap()),
        ensures
            wf_state(final(machine_state)@),
            ({
                let (tr, post) = ldt_tr(old(machine_state)@, *op, true);
                r == tr && final(machine_state)@ == post
            }),
    {
        let first_operand = op.op();
        let target = *first_operand;
        let value = machine_state.get_value(&target, OperandSize::Bit64)?;
        machine_state.gdt = value;
        Ok(())
    }

    /// `LIDT`: record the operand in the IDT slot.
    pub fn lidt(&self, machine_state: &mut MachineState, op: &Operands) -> (r: Result<(), VmError>)
        requires
            wf_state(old(machine_state)@),
            op.operands.0 is Some,
            op.operands.1 is None,
            operand_readable(op.operands.0.unwrap()),
        ensures
            wf_state(final(machine_state)@),
            ({
                let (tr, post) = ldt_tr(old(machine_state)@, *op, false);
                r == tr && final(machine_state)@ == post
            }),
    {
        let first_operand = op.op();
        let target = *first_operand;
        let value = machine_state.get_value(&target, OperandSize::Bit64)?;
        machine_state.idt = value;
        Ok(())
    }

    /// `CLD`: clear the Direction flag.
    pub fn cld(&self, machine_state: &mut MachineState) -> (r: Result<(), VmError>)
        ensures
            final(machine_state)@ == (StateView {
                rflags: set_flag_sp(old(machine_state)@.rflags, Flags::Direction, false),
                ..old(machine_state)@
            }),
            r == Ok::<(), VmError>(()),
    {
        machine_state.set_flag(Flags::Direction, false);
        Ok(())
    }

    /// `STD`: set the Direction flag.
    pub fn set_direction(&self, machine_state: &mut MachineState) -> (r: Result<(), VmError>)
        ensures
            final(machine_state)@ == (StateView {
                rflags: set_flag_sp(old(machine_state)@.rflags, Flags::Direction, true),
                ..old(machine_state)@
            }),
            r == Ok::<(), VmError>(()),
    {
        machine_state.set_flag(Flags::Direction, true);
        Ok(())
    }

    /// `OUT` has no effect in this emulator.
    pub fn out(&self, machine_state: &mut MachineState) -> (r: Result<(), VmError>)
        ensures
            final(machine_state)@ == old(machine_state)@,
            r == Ok::<(), VmError>(()),
    {
        Ok(())
    }

    /// `WRMSR` has no effect in this emulator.
    pub fn wrmsr(&self, machine_state: &mut MachineState) -> (r: Result<(), VmError>)
        ensures
            final(machine_state)@ == old(machine_state)@,
            r == Ok::<(), VmError>(()),
    {
        Ok(())
    }

    /// `RDMSR`: only the EFER register is known.
    pub fn rdmsr(&self, machine_state: &mut MachineState) -> (r: Result<(), VmError>)
        requires
            wf_state(old(machine_state)@),
        ensures
            wf_state(final(machine_state)@),
            ({
                let (tr, post) = rdmsr_tr(old(machine_state)@);
                r == tr && final(machine_state)@ == post
            }),
    {
        let ecx = machine_state.get_register_value(Register::RCX);
        if ecx == 0xC0000080 {
            machine_state.set_register_value(Register::RAX, 0x500);
            machine_state.set_register_value(Register::RDX, 0x0);
            Ok(())
        } else {
            Err(VmError::UnsupportedMsr(ecx as u32))
        }
    }

    /// `CPUID`: fixed vendor and feature words.
    pub fn cpuid(&self, machine_state: &mut MachineState) -> (r: Result<(), VmError>)
        requires
            wf_state(old(machine_state)@),
        ensures
            wf_state(final(machine_state)@),
            ({
                let (tr, post) = cpuid_tr(old(machine_state)@);
                r == tr && final(machine_state)@ == post
            }),
    {
        let value = machine_state.get_register_value(Register::RAX);
        if value == 0 {
            machine_state.set_register_value(Register::EAX, 1000);
            machine_state.set_register_value(Register::EBX, 0x756e6547);
            machine_state.set_register_value(Register::EDX, 0x49656e69);
            machine_state.set_register_value(Register::ECX, 0x6c65746e);
            Ok(())
        } else if value == 1 {
            machine_state.set_register_value(Register::EAX, 0);
            machine_state.set_register_value(Register::EBX, 0);
            machine_state.set_register_value(Register::ECX, 0);
            machine_state.set_register_value(Register::EDX, 0x0700_8369);
            Ok(())
        } else if value == 0x80000000 {
            machine_state.set_register_value(Register::EAX, 0x80000001);
            Ok(())
        } else if value == 0x80000001 {
            machine_state.set_register_value(Register::RAX, 0x663);
            machine_state.set_register_value(Register::RBX, 0x0);
            machine_state.set_register_value(Register::RCX, 0x5);
            machine_state.set_register_value(Register::RDX, 0x2193fbfd);
            Ok(())
        } else {
            Err(VmError::UnsupportedInstruction)
        }
    }

    /// Vector move: copy 128 bits between vector registers or memory.
    pub fn movps(&self, machine_state: &mut MachineState, op: &Operands) -> (r: Result<
        (),
        VmError,
    >)
        requires
            wf_state(old(machine_state)@),
            op.operands.0 is Some,
            op.operands.1 is Some,
            wf_xmm_operand(op.operands.0.unwrap()),
            wf_xmm_operand(op.operands.1.unwrap()),
            op.spec_size() == OperandSize::Bit128,
        ensures
            wf_state(final(machine_state)@),
            ({
                let (tr, post) = movps_tr(old(machine_state)@, *op);
                r == tr && final(machine_state)@ == post
            }),
    {
        let (first_operand, second_operand) = op.operands();
        let dst = *second_operand;
        let value = machine_state.get_xmm(first_operand, OperandSize::Bit128)?;
        machine_state.set_xmm(value, &dst, OperandSize::Bit128)?;
        Ok(())
    }

    /// `MOVD` is handled as a vector-register move.
    pub fn movd(&self, machine_state: &mut MachineState, op: &Operands) -> (r: Result<(), VmError>)
        requires
            wf_state(old(machine_state)@),
            op.operands.0 is Some,
            op.operands.1 is Some,
            wf_xmm_operand(op.operands.0.unwrap()),
            wf_xmm_operand(op.operands.1.unwrap()),
            op.spec_size() == OperandSize::Bit128,
        ensures
            wf_state(final(machine_state)@),
            ({
                let (tr, post) = movps_tr(old(machine_state)@, *op);
                r == tr && final(machine_state)@ == post
            }),
    {
        self.movps(machine_state, op)
    }
}

/// An operand the vector path accepts: a vector register or a
/// well-formed memory operand.
pub open spec fn wf_xmm_operand(o: Operand) -> bool {
    match o {
        Operand::Register(register) => crate::instruction::is_xmm_register(register),
        Operand::Immediate(_) => false,
        Operand::EffectiveAddress { .. } => operand_readable(o),
    }
}

/// The masked shift count at a width.
fn bt_pos(position: i64, w: OperandSize) -> (r: u64)
    requires
        w != OperandSize::Bit128,
    ensures
        r == bt_pos_sp(position, w),
        r < 64,
{
    match w {
        OperandSize::Bit8 => (position as u64) % 8,
        OperandSize::Bit16 => (position as u64) % 16,
        OperandSize::Bit32 => (position as u64) % 32,
        OperandSize::Bit64 => (position as u64) % 64,
        OperandSize::Bit128 => unreached(),
    }
}

/// A nonzero counter, decremented with wrap, strictly decreases as an
/// unsigned value.
pub proof fn lemma_countdown(x: i64)
    ensures
        x != 0 ==> (x.wrapping_sub(1) as u64) < (x as u64),
{
    assert(x != 0 ==> (x.wrapping_sub(1) as u64) < (x as u64)) by (bit_vector);
}

/// One element of `MOVS`: copy one element of the given width from
/// `[RSI]` to `[RDI]`, then advance both by the element size (backward
/// when Direction is set).
pub open spec fn movs_once_sp(s: StateView, w: OperandSize) -> Step {
    let sz = crate::instruction::spec_size_bytes(w) as u64;
    let from = s.rsi as u64;
    let to = s.rdi as u64;
    if !mem_range_mapped(s.mem, from, sz) {
        (Err(VmError::UnmappedPage(from)), s)
    } else if !mem_range_mapped(s.mem, to, sz) {
        (Err(VmError::UnmappedPage(to)), s)
    } else {
        let bytes = match w {
            OperandSize::Bit8 => seq![crate::memory::mem_byte(s.mem, from)],
            OperandSize::Bit16 => crate::memory::le_bytes_u16(crate::memory::mem_u16_le(s.mem, from)),
            OperandSize::Bit32 => crate::memory::le_bytes_u32(crate::memory::mem_u32_le(s.mem, from)),
            _ => le_bytes_u64(mem_u64_le(s.mem, from)),
        };
        let delta: i64 = if get_flag_sp(s.rflags, Flags::Direction) {
            (0 - sz as i64) as i64
        } else {
            sz as i64
        };
        (
            Ok(()),
            StateView {
                rsi: s.rsi.wrapping_add(delta),
                rdi: s.rdi.wrapping_add(delta),
                mem: mem_write_bytes(s.mem, to, bytes),
                ..s
            },
        )
    }
}

/// `MOVS` under a repeat prefix: copy elements while RCX is not zero,
/// decrementing RCX after each element.
pub open spec fn rep_movs_sp(s: StateView, w: OperandSize) -> Step
    decreases s.rcx as u64,
{
    if s.rcx == 0 {
        (Ok(()), s)
    } else {
        match movs_once_sp(s, w) {
            (Err(e), s1) => (Err(e), s1),
            (Ok(()), s1) => {
                let s2 = set_register_value_sp(s1, Register::RCX, s.rcx.wrapping_sub(1));
                proof {
                    lemma_countdown(s.rcx);
                }
                rep_movs_sp(s2, w)
            },
        }
    }
}

/// The transition of `MOVS`: one element without a repeat prefix, an
/// RCX-counted loop with one.
pub open spec fn movs_tr(s: StateView, op: Operands) -> Step {
    let w = op.explicit_size.unwrap();
    match op.repeat {
        crate::instruction::Repeat::Once => movs_once_sp(s, w),
        _ => rep_movs_sp(s, w),
    }
}

/// One element of `SCAS` at byte width: set the flags of
/// `AL - [RDI]`, then advance RDI by one (backward when Direction is
/// set).
pub open spec fn scas_once_sp(s: StateView, op: Operands) -> Step {
    let src = op.operands.0.unwrap();
    let needle_op = op.operands.1.unwrap();
    match rd(s, src, OperandSize::Bit8) {
        Err(e) => (Err(e), s),
        Ok(source) => match rd(s, needle_op, OperandSize::Bit8) {
            Err(e) => (Err(e), s),
            Ok(needle) => {
                let s1 = StateView {
                    rflags: sub_flags_sp(s.rflags, source, needle, OperandSize::Bit8),
                    ..s
                };
                let delta: i64 = if get_flag_sp(s1.rflags, Flags::Direction) {
                    (-1) as i64
                } else {
                    1
                };
                (
                    Ok(()),
                    set_register_value_sp(
                        s1,
                        Register::RDI,
                        get_register_value_sp(s1, Register::RDI).wrapping_add(delta),
                    ),
                )
            },
        },
    }
}

/// `SCAS` under a repeat prefix: scan elements while RCX is not zero,
/// decrementing RCX for every element scanned; `REPE` stops once Zero
/// goes false, `REPNE` once Zero goes true.
pub open spec fn rep_scas_sp(s: StateView, op: Operands, continue_on_zero: bool) -> Step
    decreases s.rcx as u64,
{
    if s.rcx == 0 {
        (Ok(()), s)
    } else {
        match scas_once_sp(s, op) {
            (Err(e), s1) => (Err(e), s1),
            (Ok(()), s1) => {
                let s2 = set_register_value_sp(s1, Register::RCX, s.rcx.wrapping_sub(1));
                if get_flag_sp(s2.rflags, Flags::Zero) != continue_on_zero {
                    (Ok(()), s2)
                } else {
                    proof {
                        lemma_countdown(s.rcx);
                    }
                    rep_scas_sp(s2, op, continue_on_zero)
                }
            },
        }
    }
}

/// The transition of `SCAS`: one element without a repeat prefix, an
/// RCX-counted loop with one; the repeat kind decides which Zero value
/// stops the scan.
pub open spec fn scas_tr(s: StateView, op: Operands) -> Step {
    match op.repeat {
        crate::instruction::Repeat::Once => scas_once_sp(s, op),
        crate::instruction::Repeat::Equal => rep_scas_sp(s, op, true),
        crate::instruction::Repeat::NotEqual => rep_scas_sp(s, op, false),
    }
}

/// Shape of a `SCAS` record: both operands readable at byte width.
pub open spec fn wf_scas(op: Operands) -> bool {
    &&& op.operands.0 is Some
    &&& op.operands.1 is Some
    &&& operand_readable(op.operands.0.unwrap())
    &&& operand_readable(op.operands.1.unwrap())
    &&& op.spec_size() == OperandSize::Bit8
}

/// One `MOVS` element as executable code.
fn movs_step(machine_state: &mut MachineState, w: OperandSize) -> (r: Result<(), VmError>)
    requires
        wf_state(old(machine_state)@),
        w != OperandSize::Bit128,
    ensures
        wf_state(final(machine_state)@),
        ({
            let (tr, post) = movs_once_sp(old(machine_state)@, w);
            r == tr && final(machine_state)@ == post
        }),
{
    let from = machine_state.rsi as u64;
    let to = machine_state.rdi as u64;
    let sz: u64 = crate::instruction::size_bytes(w);
    match w {
        OperandSize::Bit8 => {
            let b = match machine_state.memory.try_read_byte(from) {
                Some(b) => b,
                None => {
                    proof {
                        assert(from.wrapping_add(0) == from);
                    }
                    return Err(VmError::UnmappedPage(from));
                },
            };
            proof {
                assert forall|i: u64| i < 1 implies crate::memory::mem_mapped(
                    old(machine_state)@.mem,
                    #[trigger] from.wrapping_add(i),
                ) by {
                    assert(from.wrapping_add(0) == from);
                }
            }
            if !machine_state.memory.try_write_byte(to, b) {
                proof {
                    assert(to.wrapping_add(0) == to);
                }
                return Err(VmError::UnmappedPage(to));
            }
            proof {
                assert(to.wrapping_add(0) == to);
                crate::memory::lemma_mem_write_single(old(machine_state)@.mem, to, b);
            }
        },
        OperandSize::Bit16 => {
            let v = match machine_state.memory.try_read_u16(from) {
                Some(v) => v,
                None => {
                    return Err(VmError::UnmappedPage(from));
                },
            };
            if !machine_state.memory.try_write_u16(to, v) {
                return Err(VmError::UnmappedPage(to));
            }
        },
        OperandSize::Bit32 => {
            let v = match machine_state.memory.try_read_u32(from) {
                Some(v) => v,
                None => {
                    return Err(VmError::UnmappedPage(from));
                },
            };
            if !machine_state.memory.try_write_u32(to, v) {
                return Err(VmError::UnmappedPage(to));
            }
        },
        _ => {
            let v = match machine_state.memory.try_read_u64(from) {
                Some(v) => v,
                None => {
                    return Err(VmError::UnmappedPage(from));
                },
            };
            if !machine_state.memory.try_write_u64(to, v) {
                return Err(VmError::UnmappedPage(to));
            }
        },
    }
    let delta: i64 = if machine_state.get_flag(Flags::Direction) {
        0i64 - (sz as i64)
    } else {
        sz as i64
    };
    machine_state.rsi = machine_state.rsi.wrapping_add(delta);
    machine_state.rdi = machine_state.rdi.wrapping_add(delta);
    Ok(())
}

/// One `SCAS` element as executable code.
fn scas_step(machine_state: &mut MachineState, op: &Operands) -> (r: Result<(), VmError>)
    requires
        wf_state(old(machine_state)@),
        wf_scas(*op),
    ensures
        wf_state(final(machine_state)@),
        ({
            let (tr, post) = scas_once_sp(old(machine_state)@, *op);
            r == tr && final(machine_state)@ == post
        }),
{
    let (source_op, needle_op) = op.operands();
    let needle_operand = *needle_op;
    let source = machine_state.get_value(source_op, OperandSize::Bit8)?;
    let needle = machine_state.get_value(&needle_operand, OperandSize::Bit8)?;
    let (result, carry, overflow) = arith_sub(source, needle, OperandSize::Bit8);
    machine_state.set_flag(Flags::Carry, carry);
    machine_state.set_flag(Flags::Overflow, overflow);
    machine_state.compute_flags(result, OperandSize::Bit8);
    let delta: i64 = if machine_state.get_flag(Flags::Direction) {
        -1i64
    } else {
        1i64
    };
    let rdi = machine_state.get_register_value(Register::RDI);
    machine_state.set_register_value(Register::RDI, rdi.wrapping_add(delta));
    Ok(())
}

impl EmulationCPU {
    /// `MOVS`: copy elements from `[RSI]` to `[RDI]`; a repeat prefix
    /// turns it into an RCX-counted loop.
    pub fn movs(&self, machine_state: &mut MachineState, op: &Operands) -> (r: Result<(), VmError>)
        requires
            wf_state(old(machine_state)@),
            op.explicit_size is Some,
            op.explicit_size.unwrap() != OperandSize::Bit128,
        ensures
            wf_state(final(machine_state)@),
            ({
                let (tr, post) = movs_tr(old(machine_state)@, *op);
                r == tr && final(machine_state)@ == post
            }),
    {
        let w = match op.explicit_size {
            Some(w) => w,
            None => unreached(),
        };
        match op.repeat {
            crate::instruction::Repeat::Once => movs_step(machine_state, w),
            _ => {
                let ghost s0 = machine_state@;
                proof {
                    assert(!(op.repeat is Once));
                    assert(movs_tr(s0, *op) == rep_movs_sp(s0, w));
                }
                loop
                    invariant
                        wf_state(machine_state@),
                        w == op.explicit_size.unwrap(),
                        w != OperandSize::Bit128,
                        movs_tr(old(machine_state)@, *op) == rep_movs_sp(s0, w),
                        rep_movs_sp(s0, w) == rep_movs_sp(machine_state@, w),
                    ensures
                        wf_state(machine_state@),
                        rep_movs_sp(s0, w) == (Ok::<(), VmError>(()), machine_state@),
                    decreases machine_state@.rcx as u64,
                {
                    let ghost pre_iter = machine_state@;
                    let rcx = machine_state.get_register_value(Register::RCX);
                    if rcx == 0 {
                        proof {
                            assert(rep_movs_sp(machine_state@, w) == (
                                Ok::<(), VmError>(()),
                                machine_state@,
                            ));
                        }
                        break;
                    }
                    match movs_step(machine_state, w) {
                        Err(e) => {
                            proof {
                                assert(rep_movs_sp(pre_iter, w) == (
                                    Err::<(), VmError>(e),
                                    machine_state@,
                                ));
                            }
                            return Err(e);
                        },
                        Ok(()) => {},
                    }
                    machine_state.set_register_value(Register::RCX, rcx.wrapping_sub(1));
                    proof {
                        lemma_countdown(rcx);
                        assert(machine_state@.rcx == rcx.wrapping_sub(1));
                        assert(rep_movs_sp(pre_iter, w) == rep_movs_sp(machine_state@, w));
                    }
                }
                Ok(())
            },
        }
    }

    /// `SCAS`: compare AL with the byte at `[RDI]` and advance RDI; a
    /// repeat prefix scans until RCX runs out or the Zero flag stops
    /// it.
    pub fn scas(&self, machine_state: &mut MachineState, op: &Operands) -> (r: Result<(), VmError>)
        requires
            wf_state(old(machine_state)@),
            wf_scas(*op),
        ensures
            wf_state(final(machine_state)@),
            ({
                let (tr, post) = scas_tr(old(machine_state)@, *op);
                r == tr && final(machine_state)@ == post
            }),
    {
        let continue_on_zero = match op.repeat {
            crate::instruction::Repeat::Once => {
                return scas_step(machine_state, op);
            },
            crate::instruction::Repeat::Equal => true,
            crate::instruction::Repeat::NotEqual => false,
        };
        let ghost s0 = machine_state@;
        loop
            invariant
                wf_state(machine_state@),
                wf_scas(*op),
                continue_on_zero == (op.repeat == crate::instruction::Repeat::Equal),
                op.repeat != crate::instruction::Repeat::Once,
                scas_tr(old(machine_state)@, *op) == rep_scas_sp(s0, *op, continue_on_zero),
                rep_scas_sp(s0, *op, continue_on_zero) == rep_scas_sp(
                    machine_state@,
                    *op,
                    continue_on_zero,
                ),
            ensures
                wf_state(machine_state@),
                rep_scas_sp(s0, *op, continue_on_zero) == (
                    Ok::<(), VmError>(()),
                    machine_state@,
                ),
            decreases machine_state@.rcx as u64,
        {
            let ghost pre_iter = machine_state@;
            let rcx = machine_state.get_register_value(Register::RCX);
            if rcx == 0 {
                proof {
                    assert(rep_scas_sp(machine_state@, *op, continue_on_zero) == (
                        Ok::<(), VmError>(()),
                        machine_state@,
                    ));
                }
                break;
            }
            match scas_step(machine_state, op) {
                Err(e) => {
                    proof {
                        assert(rep_scas_sp(pre_iter, *op, continue_on_zero) == (
                            Err::<(), VmError>(e),
                            machine_state@,
                        ));
                    }
                    return Err(e);
                },
                Ok(()) => {},
            }
            machine_state.set_register_value(Register::RCX, rcx.wrapping_sub(1));
            if machine_state.get_flag(Flags::Zero) != continue_on_zero {
                proof {
                    assert(rep_scas_sp(pre_iter, *op, continue_on_zero) == (
                        Ok::<(), VmError>(()),
                        machine_state@,
                    ));
                }
                return Ok(());
            }
            proof {
                lemma_countdown(rcx);
                assert(machine_state@.rcx == rcx.wrapping_sub(1));
                assert(rep_scas_sp(pre_iter, *op, continue_on_zero) == rep_scas_sp(
                    machine_state@,
                    *op,
                    continue_on_zero,
                ));
            }
        }
        Ok(())
    }
}

/// Shapes required of a record dispatched through the multiplexed
/// arithmetic opcode: source and destination with an extension of at
/// most 7.
pub open spec fn wf_arith_group(op: Operands) -> bool {
    &&& op.opcode is Some
    &&& op.opcode.unwrap() <= 7
    &&& wf_two(op)
}

/// The transition of the multiplexed arithmetic opcode: the ModR/M
/// extension selects add, or, adc, sbb, and, sub, xor or cmp.
pub open spec fn arithmetic_tr(s: StateView, op: Operands) -> Step {
    let ext = op.opcode.unwrap();
    if ext == 0 {
        add_tr(s, op)
    } else if ext == 1 {
        logic_tr(s, op, LogicKind::OpOr, true)
    } else if ext == 2 {
        (Err(VmError::UnsupportedInstruction), s)
    } else if ext == 3 {
        sub_tr(s, op)
    } else if ext == 4 {
        logic_tr(s, op, LogicKind::OpAnd, true)
    } else if ext == 5 {
        sub_tr(s, op)
    } else if ext == 6 {
        logic_tr(s, op, LogicKind::OpXor, true)
    } else {
        cmp_tr(s, op)
    }
}

/// The transition of the multiplexed shift opcode: the extension
/// selects a rotate (not implemented) or a shift.
pub open spec fn shift_rotate_tr(s: StateView, op: Operands) -> Step {
    let ext = op.opcode.unwrap();
    if ext <= 3 {
        (Err(VmError::UnsupportedInstruction), s)
    } else if ext == 4 || ext == 6 {
        shift_tr(s, op, 4)
    } else if ext == 5 {
        shift_tr(s, op, 5)
    } else {
        shift_tr(s, op, 7)
    }
}

/// Shapes required of a record dispatched through the multiplexed
/// inc/dec/call/jmp/push opcode.
pub open spec fn wf_register_group(op: Operands) -> bool {
    &&& op.opcode is Some
    &&& op.opcode.unwrap() <= 6
    &&& (op.opcode.unwrap() <= 1 ==> wf_one_write(op))
    &&& (op.opcode.unwrap() >= 2 ==> wf_one_read(op))
    &&& (op.opcode.unwrap() == 6 ==> op.spec_size() == OperandSize::Bit32 || op.spec_size()
        == OperandSize::Bit64)
}

/// The transition of the multiplexed inc/dec/call/jmp/push opcode.
pub open spec fn register_operation_tr(s: StateView, op: Operands) -> Step {
    let ext = op.opcode.unwrap();
    if ext == 0 {
        inc_tr(s, op)
    } else if ext == 1 {
        dec_tr(s, op)
    } else if ext == 2 || ext == 3 {
        call_tr(s, op)
    } else if ext == 4 || ext == 5 {
        jmp_iml_tr(s, op)
    } else {
        push_tr(s, op)
    }
}

/// Shapes required of a record dispatched through the multiplexed
/// test/not/neg/mul/imul/div/idiv opcode.
pub open spec fn wf_compare_mul_group(op: Operands) -> bool {
    &&& op.opcode is Some
    &&& op.opcode.unwrap() <= 7
    &&& (op.opcode.unwrap() <= 1 ==> wf_two(op))
    &&& (op.opcode.unwrap() == 2 || op.opcode.unwrap() == 3 ==> wf_one_write(op))
    &&& (op.opcode.unwrap() == 4 || op.opcode.unwrap() == 6 ==> wf_one_read(op))
    &&& (op.opcode.unwrap() == 5 && op.operands.1 is Some ==> wf_two(op) && (op.operands.2
        is Some ==> crate::instruction::operand_writable(op.operands.2.unwrap())))
}

/// The transition of the multiplexed test/not/neg/mul/imul/div/idiv
/// opcode. The one-operand `IMUL` and `IDIV` are not implemented.
pub open spec fn compare_mul_operation_tr(s: StateView, op: Operands) -> Step {
    let ext = op.opcode.unwrap();
    if ext <= 1 {
        logic_tr(s, op, LogicKind::OpAnd, false)
    } else if ext == 2 {
        not_tr(s, op)
    } else if ext == 3 {
        neg_tr(s, op)
    } else if ext == 4 {
        mul_tr(s, op)
    } else if ext == 5 {
        if op.operands.1 is Some {
            imul_tr(s, op)
        } else {
            (Err(VmError::UnsupportedInstruction), s)
        }
    } else if ext == 6 {
        div_tr(s, op)
    } else {
        (Err(VmError::UnsupportedInstruction), s)
    }
}

/// Shapes required of a record dispatched through the bit-test
/// opcode.
pub open spec fn wf_bit_group(op: Operands) -> bool {
    &&& op.opcode is Some
    &&& op.opcode.unwrap() <= 7
    &&& (op.opcode.unwrap() >= 4 ==> wf_two(op))
}

/// The transition of the bit-test opcode with immediate index: the
/// extension selects bt, bts, btr or btc; lower extensions are not
/// defined for it.
pub open spec fn bit_manipulation_tr(s: StateView, op: Operands) -> Step {
    let ext = op.opcode.unwrap();
    if ext == 4 {
        bt_tr(s, op)
    } else if ext == 5 {
        btx_tr(s, op, 0)
    } else if ext == 6 {
        btx_tr(s, op, 1)
    } else if ext == 7 {
        btx_tr(s, op, 2)
    } else {
        (Err(VmError::UnsupportedInstruction), s)
    }
}

impl EmulationCPU {
    /// Dispatch of the multiplexed arithmetic opcode (`80`..`83`).
    pub fn arithmetic(&self, machine_state: &mut MachineState, op: &Operands) -> (r: Result<
        (),
        VmError,
    >)
        requires
            wf_state(old(machine_state)@),
            wf_arith_group(*op),
        ensures
            wf_state(final(machine_state)@),
            ({
                let (tr, post) = arithmetic_tr(old(machine_state)@, *op);
                r == tr && final(machine_state)@ == post
            }),
    {
        let ext = match op.opcode {
            Some(ext) => ext,
            None => unreached(),
        };
        if ext == 0 {
            self.add(machine_state, op)
        } else if ext == 1 {
            self.or(machine_state, op)
        } else if ext == 2 {
            self.adc(machine_state, op)
        } else if ext == 3 {
            self.sbb(machine_state, op)
        } else if ext == 4 {
            self.and(machine_state, op)
        } else if ext == 5 {
            self.sub(machine_state, op)
        } else if ext == 6 {
            self.xor(machine_state, op)
        } else {
            self.cmp(machine_state, op)
        }
    }

    /// Dispatch of the multiplexed shift opcode (`C0`/`C1`,
    /// `D1`..`D3`).
    pub fn shift_rotate(&self, machine_state: &mut MachineState, op: &Operands) -> (r: Result<
        (),
        VmError,
    >)
        requires
            wf_state(old(machine_state)@),
            op.opcode is Some,
            op.opcode.unwrap() <= 7,
            wf_two(*op),
        ensures
            wf_state(final(machine_state)@),
            ({
                let (tr, post) = shift_rotate_tr(old(machine_state)@, *op);
                r == tr && final(machine_state)@ == post
            }),
    {
        let ext = match op.opcode {
            Some(ext) => ext,
            None => unreached(),
        };
        if ext <= 3 {
            Err(VmError::UnsupportedInstruction)
        } else if ext == 4 || ext == 6 {
            self.shl(machine_state, op)
        } else if ext == 5 {
            self.shr(machine_state, op)
        } else {
            self.sar(machine_state, op)
        }
    }

    /// Dispatch of the multiplexed inc/dec/call/jmp/push opcode
    /// (`FE`/`FF`).
    pub fn register_operation(&self, machine_state: &mut MachineState, op: &Operands) -> (r:
        Result<(), VmError>)
        requires
            wf_state(old(machine_state)@),
            wf_register_group(*op),
        ensures
            wf_state(final(machine_state)@),
            ({
                let (tr, post) = register_operation_tr(old(machine_state)@, *op);
                r == tr && final(machine_state)@ == post
            }),
    {
        let ext = match op.opcode {
            Some(ext) => ext,
            None => unreached(),
        };
        if ext == 0 {
            self.inc(machine_state, op)
        } else if ext == 1 {
            self.dec(machine_state, op)
        } else if ext == 2 || ext == 3 {
            self.call(machine_state, op)
        } else if ext == 4 || ext == 5 {
            self.jmp(machine_state, op)
        } else {
            self.push(machine_state, op)
        }
    }

    /// Dispatch of the multiplexed test/not/neg/mul/imul/div/idiv
    /// opcode (`F6`/`F7`).
    pub fn compare_mul_operation(&self, machine_state: &mut MachineState, op: &Operands) -> (r:
        Result<(), VmError>)
        requires
            wf_state(old(machine_state)@),
            wf_compare_mul_group(*op),
        ensures
            wf_state(final(machine_state)@),
            ({
                let (tr, post) = compare_mul_operation_tr(old(machine_state)@, *op);
                r == tr && final(machine_state)@ == post
            }),
    {
        let ext = match op.opcode {
            Some(ext) => ext,
            None => unreached(),
        };
        if ext <= 1 {
            self.test(machine_state, op)
        } else if ext == 2 {
            self.not(machine_state, op)
        } else if ext == 3 {
            self.neg(machine_state, op)
        } else if ext == 4 {
            self.mul(machine_state, op)
        } else if ext == 5 {
            if op.operands.1.is_some() {
                self.imul(machine_state, op)
            } else {
                Err(VmError::UnsupportedInstruction)
            }
        } else if ext == 6 {
            self.div(machine_state, op)
        } else {
            Err(VmError::UnsupportedInstruction)
        }
    }

    /// Dispatch of the bit-test opcode with immediate index (`0F BA`).
    pub fn bit_manipulation(&self, machine_state: &mut MachineState, op: &Operands) -> (r: Result<
        (),
        VmError,
    >)
        requires
            wf_state(old(machine_state)@),
            wf_bit_group(*op),
        ensures
            wf_state(final(machine_state)@),
            ({
                let (tr, post) = bit_manipulation_tr(old(machine_state)@, *op);
                r == tr && final(machine_state)@ == post
            }),
    {
        let ext = match op.opcode {
            Some(ext) => ext,
            None => unreached(),
        };
        if ext == 4 {
            self.bt(machine_state, op)
        } else if ext == 5 {
            self.bts(machine_state, op)
        } else if ext == 6 {
            self.btr(machine_state, op)
        } else if ext == 7 {
            self.btc(machine_state, op)
        } else {
            Err(VmError::UnsupportedInstruction)
        }
    }
}

/// What the decoder guarantees of every record it hands the
/// dispatcher: the operand shape each operation's contract needs.
pub open spec fn wf_instruction(opcode: Opcode, op: Operands) -> bool {
    match opcode {
        Opcode::Add | Opcode::Or | Opcode::Adc | Opcode::Sbb | Opcode::And | Opcode::Sub
        | Opcode::Xor | Opcode::Cmp | Opcode::Test | Opcode::Mov | Opcode::Movsx
        | Opcode::Movzx | Opcode::Cmpxchg => wf_two(op),
        Opcode::Cmova | Opcode::Cmovae | Opcode::Cmovb | Opcode::Cmovbe | Opcode::Cmove
        | Opcode::Cmovg | Opcode::Cmovge | Opcode::Cmovl | Opcode::Cmovle | Opcode::Cmovne
        | Opcode::Cmovno | Opcode::Cmovnp | Opcode::Cmovns | Opcode::Cmovo | Opcode::Cmovp
        | Opcode::Cmovs => wf_two(op),
        Opcode::Bt | Opcode::Bts | Opcode::Btr | Opcode::Btc => wf_two(op),
        Opcode::Imul => wf_two(op) && (op.operands.2 is Some
            ==> crate::instruction::operand_writable(op.operands.2.unwrap())),
        Opcode::Xchg => {
            &&& op.operands.0 is Some
            &&& op.operands.1 is Some
            &&& crate::instruction::operand_writable(op.operands.0.unwrap())
            &&& crate::instruction::operand_writable(op.operands.1.unwrap())
            &&& op.spec_size() != OperandSize::Bit128
        },
        Opcode::Lea => {
            &&& op.operands.0 is Some
            &&& op.operands.1 is Some
            &&& op.operands.0.unwrap() is EffectiveAddress
            &&& operand_readable(op.operands.0.unwrap())
            &&& op.operands.1.unwrap() is Register
            &&& crate::instruction::operand_writable(op.operands.1.unwrap())
            &&& op.spec_size() != OperandSize::Bit128
        },
        Opcode::Seta | Opcode::Setae | Opcode::Setb | Opcode::Setbe | Opcode::Sete
        | Opcode::Setg | Opcode::Setge | Opcode::Setl | Opcode::Setle | Opcode::Setne
        | Opcode::Setno | Opcode::Setnp | Opcode::Setns | Opcode::Seto | Opcode::Setp
        | Opcode::Sets => wf_one_write(op),
        Opcode::Pop => wf_one_write(op),
        Opcode::Ja | Opcode::Jae | Opcode::Jb | Opcode::Jbe | Opcode::Je | Opcode::Jg
        | Opcode::Jge | Opcode::Jl | Opcode::Jle | Opcode::Jne | Opcode::Jno | Opcode::Jnp
        | Opcode::Jns | Opcode::Jo | Opcode::Jp | Opcode::Js | Opcode::Jmp | Opcode::Call
            => wf_one_read(op),
        Opcode::Push => wf_one_read(op) && (op.spec_size() == OperandSize::Bit32
            || op.spec_size() == OperandSize::Bit64),
        Opcode::Arithmetic => wf_arith_group(op),
        Opcode::ShiftRotate => op.opcode is Some && op.opcode.unwrap() <= 7 && wf_two(op),
        Opcode::RegisterOperation => wf_register_group(op),
        Opcode::CompareMulOperation => wf_compare_mul_group(op),
        Opcode::BitManipulation => wf_bit_group(op),
        Opcode::Movs | Opcode::Stos => op.explicit_size is Some && op.explicit_size.unwrap()
            != OperandSize::Bit128,
        Opcode::Scas => wf_scas(op),
        Opcode::Lgdt | Opcode::Lidt => op.operands.0 is Some && op.operands.1 is None
            && operand_readable(op.operands.0.unwrap()),
        Opcode::Movps | Opcode::Movd => {
            &&& op.operands.0 is Some
            &&& op.operands.1 is Some
            &&& wf_xmm_operand(op.operands.0.unwrap())
            &&& wf_xmm_operand(op.operands.1.unwrap())
            &&& op.spec_size() == OperandSize::Bit128
        },
        _ => true,
    }
}

/// One element of `STOS`: store the accumulator of the given width at
/// `[RDI]`, then advance RDI by the element size (backward when
/// Direction is set). Flags do not change.
pub open spec fn stos_once_sp(s: StateView, w: OperandSize) -> Step {
    let sz = crate::instruction::spec_size_bytes(w) as u64;
    let to = s.rdi as u64;
    if !mem_range_mapped(s.mem, to, sz) {
        (Err(VmError::UnmappedPage(to)), s)
    } else {
        let acc = get_register_value_sp(s, accumulator_sp(w));
        let bytes = match w {
            OperandSize::Bit8 => seq![acc as u8],
            OperandSize::Bit16 => crate::memory::le_bytes_u16(acc as u16),
            OperandSize::Bit32 => crate::memory::le_bytes_u32(acc as u32),
            _ => le_bytes_u64(acc as u64),
        };
        let delta: i64 = if get_flag_sp(s.rflags, Flags::Direction) {
            (0 - sz as i64) as i64
        } else {
            sz as i64
        };
        (
            Ok(()),
            StateView {
                rdi: s.rdi.wrapping_add(delta),
                mem: mem_write_bytes(s.mem, to, bytes),
                ..s
            },
        )
    }
}

/// `STOS` under a repeat prefix: store elements while RCX is not zero,
/// decrementing RCX after each element.
pub open spec fn rep_stos_sp(s: StateView, w: OperandSize) -> Step
    decreases s.rcx as u64,
{
    if s.rcx == 0 {
        (Ok(()), s)
    } else {
        match stos_once_sp(s, w) {
            (Err(e), s1) => (Err(e), s1),
            (Ok(()), s1) => {
                let s2 = set_register_value_sp(s1, Register::RCX, s.rcx.wrapping_sub(1));
                proof {
                    lemma_countdown(s.rcx);
                }
                rep_stos_sp(s2, w)
            },
        }
    }
}

/// The transition of `STOS`: one element without a repeat prefix, an
/// RCX-counted loop with one.
pub open spec fn stos_tr(s: StateView, op: Operands) -> Step {
    let w = op.explicit_size.unwrap();
    match op.repeat {
        crate::instruction::Repeat::Once => stos_once_sp(s, w),
        _ => rep_stos_sp(s, w),
    }
}

/// One `STOS` element as executable code.
fn stos_step(machine_state: &mut MachineState, w: OperandSize) -> (r: Result<(), VmError>)
    requires
        wf_state(old(machine_state)@),
        w != OperandSize::Bit128,
    ensures
        wf_state(final(machine_state)@),
        ({
            let (tr, post) = stos_once_sp(old(machine_state)@, w);
            r == tr && final(machine_state)@ == post
        }),
{
    let to = machine_state.rdi as u64;
    let sz: u64 = crate::instruction::size_bytes(w);
    let accumulator_register = match w {
        OperandSize::Bit8 => Register::AL,
        OperandSize::Bit16 => Register::AX,
        OperandSize::Bit32 => Register::EAX,
        OperandSize::Bit64 => Register::RAX,
        OperandSize::Bit128 => unreached(),
    };
    let acc = machine_state.get_register_value(accumulator_register);
    match w {
        OperandSize::Bit8 => {
            if !machine_state.memory.try_write_byte(to, acc as u8) {
                proof {
                    assert(to.wrapping_add(0) == to);
                }
                return Err(VmError::UnmappedPage(to));
            }
            proof {
                assert(to.wrapping_add(0) == to);
                crate::memory::lemma_mem_write_single(old(machine_state)@.mem, to, acc as u8);
            }
        },
        OperandSize::Bit16 => {
            if !machine_state.memory.try_write_u16(to, acc as u16) {
                return Err(VmError::UnmappedPage(to));
            }
        },
        OperandSize::Bit32 => {
            if !machine_state.memory.try_write_u32(to, acc as u32) {
                return Err(VmError::UnmappedPage(to));
            }
        },
        _ => {
            if !machine_state.memory.try_write_u64(to, acc as u64) {
                return Err(VmError::UnmappedPage(to));
            }
        },
    }
    let delta: i64 = if machine_state.get_flag(Flags::Direction) {
        0i64 - (sz as i64)
    } else {
        sz as i64
    };
    machine_state.rdi = machine_state.rdi.wrapping_add(delta);
    Ok(())
}

impl EmulationCPU {
    /// `STOS`: store the accumulator element at `[RDI]`; a repeat
    /// prefix turns it into an RCX-counted fill.
    pub fn stos(&self, machine_state: &mut MachineState, op: &Operands) -> (r: Result<(), VmError>)
        requires
            wf_state(old(machine_state)@),
            op.explicit_size is Some,
            op.explicit_size.unwrap() != OperandSize::Bit128,
        ensures
            wf_state(final(machine_state)@),
            ({
                let (tr, post) = stos_tr(old(machine_state)@, *op);
                r == tr && final(machine_state)@ == post
            }),
    {
        let w = match op.explicit_size {
            Some(w) => w,
            None => unreached(),
        };
        match op.repeat {
            crate::instruction::Repeat::Once => stos_step(machine_state, w),
            _ => {
                let ghost s0 = machine_state@;
                proof {
                    assert(!(op.repeat is Once));
                    assert(stos_tr(s0, *op) == rep_stos_sp(s0, w));
                }
                loop
                    invariant
                        wf_state(machine_state@),
                        w == op.explicit_size.unwrap(),
                        w != OperandSize::Bit128,
                        stos_tr(old(machine_state)@, *op) == rep_stos_sp(s0, w),
                        rep_stos_sp(s0, w) == rep_stos_sp(machine_state@, w),
                    ensures
                        wf_state(machine_state@),
                        rep_stos_sp(s0, w) == (Ok::<(), VmError>(()), machine_state@),
                    decreases machine_state@.rcx as u64,
                {
                    let ghost pre_iter = machine_state@;
                    let rcx = machine_state.get_register_value(Register::RCX);
                    if rcx == 0 {
                        proof {
                            assert(rep_stos_sp(machine_state@, w) == (
                                Ok::<(), VmError>(()),
                                machine_state@,
                            ));
                        }
                        break;
                    }
                    match stos_step(machine_state, w) {
                        Err(e) => {
                            proof {
                                assert(rep_stos_sp(pre_iter, w) == (
                                    Err::<(), VmError>(e),
                                    machine_state@,
                                ));
                            }
                            return Err(e);
                        },
                        Ok(()) => {},
                    }
                    machine_state.set_register_value(Register::RCX, rcx.wrapping_sub(1));
                    proof {
                        lemma_countdown(rcx);
                        assert(machine_state@.rcx == rcx.wrapping_sub(1));
                        assert(rep_stos_sp(pre_iter, w) == rep_stos_sp(machine_state@, w));
                    }
                }
                Ok(())
            },
        }
    }
}

} // verus!
