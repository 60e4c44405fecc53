use vstd::prelude::*;

use crate::instruction::{Flags, Operands, OperandSize, Register, spec_flag_mask,
    spec_register_size, is_integer_register};
use crate::interpreter::{add_result_sp, add_flags_sp, sub_result_sp, sub_flags_sp,
    logic_result_sp, logic_flags_sp, logic_tr, LogicKind, zext_sp, lea_tr, call_tr, ret_tr,
    pushf_tr, popf_tr, stack_push_sp, shift_flags_sp, shl_parts_sp, wf_two};
use crate::machine_state::{StateView, wf_state, get_flag_sp, set_flag_sp, compute_flags_sp,
    sign_of, parity_low_byte, get_register_value_sp, set_register_value_sp};
use crate::memory::{mem_range_mapped, le_bytes_u64, lemma_mem_write_bytes,
    lemma_u64_write_read};
use crate::VmError;

verus! {

/// The six flag masks are nonzero and pairwise disjoint.
proof fn lemma_flag_masks()
    ensures
        forall|f: Flags, g: Flags| f != g ==> #[trigger] (spec_flag_mask(f) & spec_flag_mask(
            g,
        )) == 0,
        forall|f: Flags| #[trigger] spec_flag_mask(f) != 0 && spec_flag_mask(f) <= 0x800,
{
    assert(0x1u64 & 0x4u64 == 0 && 0x1u64 & 0x40u64 == 0 && 0x1u64 & 0x80u64 == 0 && 0x1u64
        & 0x400u64 == 0 && 0x1u64 & 0x800u64 == 0 && 0x4u64 & 0x1u64 == 0 && 0x4u64 & 0x40u64
        == 0 && 0x4u64 & 0x80u64 == 0 && 0x4u64 & 0x400u64 == 0 && 0x4u64 & 0x800u64 == 0
        && 0x40u64 & 0x1u64 == 0 && 0x40u64 & 0x4u64 == 0 && 0x40u64 & 0x80u64 == 0 && 0x40u64
        & 0x400u64 == 0 && 0x40u64 & 0x800u64 == 0 && 0x80u64 & 0x1u64 == 0 && 0x80u64
        & 0x4u64 == 0 && 0x80u64 & 0x40u64 == 0 && 0x80u64 & 0x400u64 == 0 && 0x80u64
        & 0x800u64 == 0 && 0x400u64 & 0x1u64 == 0 && 0x400u64 & 0x4u64 == 0 && 0x400u64
        & 0x40u64 == 0 && 0x400u64 & 0x80u64 == 0 && 0x400u64 & 0x800u64 == 0 && 0x800u64
        & 0x1u64 == 0 && 0x800u64 & 0x4u64 == 0 && 0x800u64 & 0x40u64 == 0 && 0x800u64
        & 0x80u64 == 0 && 0x800u64 & 0x400u64 == 0) by (bit_vector);
}

/// Setting one flag bit and reading one back: the same flag reads the
/// written value, a different flag keeps its old value.
proof fn lemma_mask_get_set(r: i64, m1: u64, m2: u64, v: bool)
    requires
        0 < m1 <= 0x800,
        0 < m2 <= 0x800,
    ensures
        m1 == m2 ==> ((if v {
            r | (m1 as i64)
        } else {
            r & !(m1 as i64)
        }) & (m2 as i64) == (m2 as i64)) == v,
        m1 & m2 == 0 ==> ((if v {
            r | (m1 as i64)
        } else {
            r & !(m1 as i64)
        }) & (m2 as i64) == (m2 as i64)) == (r & (m2 as i64) == (m2 as i64)),
{
    assert((0 < m1 <= 0x800 && 0 < m2 <= 0x800) ==> ((m1 == m2 ==> ((if v {
        r | (m1 as i64)
    } else {
        r & !(m1 as i64)
    }) & (m2 as i64) == (m2 as i64)) == v) && (m1 & m2 == 0 ==> ((if v {
        r | (m1 as i64)
    } else {
        r & !(m1 as i64)
    }) & (m2 as i64) == (m2 as i64)) == (r & (m2 as i64) == (m2 as i64))))) by (bit_vector);
}

/// Reading a flag after a flag write: the written flag reads the new
/// value, every other flag keeps its old value.
pub proof fn lemma_flag_ops(r: i64, f: Flags, g: Flags, v: bool)
    ensures
        get_flag_sp(set_flag_sp(r, f, v), g) == if f == g {
            v
        } else {
            get_flag_sp(r, g)
        },
{
    lemma_flag_masks();
    lemma_mask_get_set(r, spec_flag_mask(f), spec_flag_mask(g), v);
}

/// Reading any flag after a result is folded in: Zero, Sign and
/// Parity take the result's values, the other flags keep theirs.
pub proof fn lemma_compute_flags(rflags: i64, result: i64, w: OperandSize)
    ensures
        get_flag_sp(compute_flags_sp(rflags, result, w), Flags::Zero) == (result == 0),
        get_flag_sp(compute_flags_sp(rflags, result, w), Flags::Sign) == sign_of(result, w),
        get_flag_sp(compute_flags_sp(rflags, result, w), Flags::Parity) == (parity_low_byte(
            result,
        ) != 1),
        forall|g: Flags|
            g != Flags::Zero && g != Flags::Sign && g != Flags::Parity ==> #[trigger]
                get_flag_sp(compute_flags_sp(rflags, result, w), g) == get_flag_sp(rflags, g),
{
    let f1 = set_flag_sp(rflags, Flags::Zero, result == 0);
    let f2 = set_flag_sp(f1, Flags::Sign, sign_of(result, w));
    assert forall|g: Flags| true implies #[trigger] get_flag_sp(
        compute_flags_sp(rflags, result, w),
        g,
    ) == (if g == Flags::Parity {
        parity_low_byte(result) != 1
    } else if g == Flags::Sign {
        sign_of(result, w)
    } else if g == Flags::Zero {
        result == 0
    } else {
        get_flag_sp(rflags, g)
    }) by {
        lemma_flag_ops(f2, Flags::Parity, g, parity_low_byte(result) != 1);
        lemma_flag_ops(f1, Flags::Sign, g, sign_of(result, w));
        lemma_flag_ops(rflags, Flags::Zero, g, result == 0);
    }
}

/// The Sign flag of a width is exactly the result's top bit at that
/// width.
pub proof fn lemma_sign_is_top_bit(result: i64, w: OperandSize)
    requires
        w != OperandSize::Bit128,
    ensures
        sign_of(result, w) == (((result as u64) >> ((crate::instruction::spec_size_bits(w)
            - 1) as u64)) & 1 == 1),
{
    let x = result as u64;
    assert(((x & 0x80 != 0) == ((x >> 7u64) & 1 == 1)) && ((x & 0x8000 != 0) == ((x
        >> 15u64) & 1 == 1)) && ((x & 0x8000_0000 != 0) == ((x >> 31u64) & 1 == 1)) && ((x
        & 0x8000_0000_0000_0000 != 0) == ((x >> 63u64) & 1 == 1))) by (bit_vector);
}

/// After an add or a sub at width `w`, the Sign flag equals the top
/// bit of the width-truncated result and the Zero flag holds exactly
/// when the truncated result is zero.
pub proof fn lemma_arithmetic_sign_zero(rflags: i64, v0: i64, v1: i64, w: OperandSize)
    requires
        w != OperandSize::Bit128,
    ensures
        get_flag_sp(add_flags_sp(rflags, v0, v1, w), Flags::Zero) == (add_result_sp(
            v0,
            v1,
            w,
        ) == 0),
        get_flag_sp(add_flags_sp(rflags, v0, v1, w), Flags::Sign) == (((add_result_sp(
            v0,
            v1,
            w,
        ) as u64) >> ((crate::instruction::spec_size_bits(w) - 1) as u64)) & 1 == 1),
        get_flag_sp(sub_flags_sp(rflags, v0, v1, w), Flags::Zero) == (sub_result_sp(
            v0,
            v1,
            w,
        ) == 0),
        get_flag_sp(sub_flags_sp(rflags, v0, v1, w), Flags::Sign) == (((sub_result_sp(
            v0,
            v1,
            w,
        ) as u64) >> ((crate::instruction::spec_size_bits(w) - 1) as u64)) & 1 == 1),
{
    let fa = set_flag_sp(
        set_flag_sp(rflags, Flags::Carry, crate::interpreter::add_carry_sp(v0, v1, w)),
        Flags::Overflow,
        crate::interpreter::add_overflow_sp(v0, v1, w),
    );
    lemma_compute_flags(fa, add_result_sp(v0, v1, w), w);
    lemma_sign_is_top_bit(add_result_sp(v0, v1, w), w);
    let fs = set_flag_sp(
        set_flag_sp(rflags, Flags::Carry, crate::interpreter::sub_carry_sp(v0, v1, w)),
        Flags::Overflow,
        crate::interpreter::sub_overflow_sp(v0, v1, w),
    );
    lemma_compute_flags(fs, sub_result_sp(v0, v1, w), w);
    lemma_sign_is_top_bit(sub_result_sp(v0, v1, w), w);
}

/// Casting a register word to an address and back is the identity.
pub proof fn lemma_i64_u64_roundtrip(x: i64, y: u64)
    ensures
        ((x as u64) as i64) == x,
        ((y as i64) as u64) == y,
{
    assert(((x as u64) as i64) == x && ((y as i64) as u64) == y) by (bit_vector);
}

/// `PUSHF` followed by `POPF` leaves RFLAGS unchanged and restores the
/// stack pointer.
pub proof fn lemma_pushf_popf(s: StateView)
    requires
        wf_state(s),
        mem_range_mapped(s.mem, s.rsp.wrapping_sub(8) as u64, 8),
    ensures
        ({
            let (r1, s1) = pushf_tr(s);
            let (r2, s2) = popf_tr(s1);
            r1 == Ok::<(), VmError>(()) && r2 == Ok::<(), VmError>(()) && s2.rflags
                == s.rflags && s2.rsp == s.rsp
        }),
{
    let address = s.rsp.wrapping_sub(8) as u64;
    let (r1, s1) = pushf_tr(s);
    lemma_mem_write_bytes(s.mem, address, le_bytes_u64(s.rflags as u64));
    lemma_u64_write_read(s.mem, address, s.rflags as u64);
    assert(mem_range_mapped(s1.mem, address, 8)) by {
        assert forall|i: u64| i < 8 implies crate::memory::mem_mapped(
            s1.mem,
            #[trigger] address.wrapping_add(i),
        ) by {
            assert(crate::memory::mem_mapped(s.mem, address.wrapping_add(i)));
            assert(s1.mem.dom() == s.mem.dom());
        }
    }
    lemma_i64_u64_roundtrip(s.rflags, 0);
}

/// `CALL target; RET` leaves RSP unchanged and leaves RIP at the
/// instruction after the call.
pub proof fn lemma_call_ret(s: StateView, op: Operands)
    requires
        wf_state(s),
        mem_range_mapped(s.mem, s.rsp.wrapping_sub(8) as u64, 8),
        op.operands.0 is Some,
        op.operands.0.unwrap() is Immediate,
        op.operands.1 is None,
    ensures
        ({
            let (r1, s1) = call_tr(s, op);
            let (r2, s2) = ret_tr(s1);
            r1 == Ok::<(), VmError>(()) && r2 == Ok::<(), VmError>(()) && s2.rsp == s.rsp
                && s2.rip == s.rip
        }),
{
    let address = s.rsp.wrapping_sub(8) as u64;
    let (rp, sp) = stack_push_sp(s, s.rip);
    lemma_mem_write_bytes(s.mem, address, le_bytes_u64(s.rip as u64));
    lemma_u64_write_read(s.mem, address, s.rip as u64);
    let (r1, s1) = call_tr(s, op);
    assert(s1.mem == sp.mem && s1.rsp == sp.rsp);
    assert(mem_range_mapped(s1.mem, address, 8)) by {
        assert forall|i: u64| i < 8 implies crate::memory::mem_mapped(
            s1.mem,
            #[trigger] address.wrapping_add(i),
        ) by {
            assert(crate::memory::mem_mapped(s.mem, address.wrapping_add(i)));
            assert(s1.mem.dom() == s.mem.dom());
        }
    }
    lemma_i64_u64_roundtrip(s.rip, 0);
}

/// The 64-bit parent of a register alias: the word its writes land in.
pub open spec fn backing_register(r: Register) -> Register {
    match r {
        Register::EAX | Register::AX | Register::AL | Register::AH => Register::RAX,
        Register::EBX | Register::BX | Register::BL | Register::BH => Register::RBX,
        Register::ECX | Register::CX | Register::CL | Register::CH => Register::RCX,
        Register::EDX | Register::DX | Register::DL | Register::DH => Register::RDX,
        Register::ESP | Register::SP | Register::SPL => Register::RSP,
        Register::EBP | Register::BP | Register::BPL => Register::RBP,
        Register::ESI | Register::SI | Register::SIL => Register::RSI,
        Register::EDI | Register::DI | Register::DIL => Register::RDI,
        Register::R8D | Register::R8W | Register::R8B => Register::R8,
        Register::R9D | Register::R9W | Register::R9B => Register::R9,
        Register::R10D | Register::R10W | Register::R10B => Register::R10,
        Register::R11D | Register::R11W | Register::R11B => Register::R11,
        Register::R12D | Register::R12W | Register::R12B => Register::R12,
        Register::R13D | Register::R13W | Register::R13B => Register::R13,
        Register::R14D | Register::R14W | Register::R14B => Register::R14,
        Register::R15D | Register::R15W | Register::R15B => Register::R15,
        _ => r,
    }
}

/// Writing a 32-bit register alias zero-extends: the 64-bit backing
/// word becomes the written value's low 32 bits and its upper 32 bits
/// are zero.
pub proof fn lemma_write32_zero_extends(s: StateView, r32: Register, v: i64)
    requires
        spec_register_size(r32) == OperandSize::Bit32,
    ensures
        get_register_value_sp(set_register_value_sp(s, r32, v), backing_register(r32)) == ((
        v as u32) as i64),
        0 <= get_register_value_sp(set_register_value_sp(s, r32, v), backing_register(r32))
            < 0x1_0000_0000,
{
}

/// Writing a 16-bit register alias does not zero the upper bits: the
/// top 48 bits of the backing word stay what they were.
pub proof fn lemma_write16_preserves_upper(s: StateView, r16: Register, v: i64)
    requires
        spec_register_size(r16) == OperandSize::Bit16,
        is_integer_register(r16),
        r16 != Register::ES && r16 != Register::CS && r16 != Register::SS && r16
            != Register::DS && r16 != Register::FS && r16 != Register::GS,
    ensures
        (get_register_value_sp(set_register_value_sp(s, r16, v), backing_register(r16)) as u64)
            & 0xFFFF_FFFF_FFFF_0000 == (get_register_value_sp(s, backing_register(r16)) as u64)
            & 0xFFFF_FFFF_FFFF_0000,
{
    let x = get_register_value_sp(s, backing_register(r16)) as u64;
    let w = ((x & 0xFFFF_FFFF_FFFF_0000) | (v as u16 as u64)) as i64;
    assert((w as u64) & 0xFFFF_FFFF_FFFF_0000 == x & 0xFFFF_FFFF_FFFF_0000) by (bit_vector)
        requires w == ((x & 0xFFFF_FFFF_FFFF_0000) | (v as u16 as u64)) as i64,
    ;
}

/// `AH`, `CH`, `DH` and `BH` read and write bits 15..8 of the backing
/// word: the written byte reads back through the alias and the low
/// byte is untouched.
pub proof fn lemma_high_byte_alias(s: StateView, rh: Register, rl: Register, v: i64)
    requires
        rh == Register::AH && rl == Register::AL || rh == Register::CH && rl == Register::CL
            || rh == Register::DH && rl == Register::DL || rh == Register::BH && rl
            == Register::BL,
    ensures
        (get_register_value_sp(set_register_value_sp(s, rh, v), rh) as u8) == (v as u8),
        get_register_value_sp(set_register_value_sp(s, rh, v), rl) == get_register_value_sp(
            s,
            rl,
        ),
        (get_register_value_sp(set_register_value_sp(s, rh, v), backing_register(rh)) as u64)
            >> 16u64 == (get_register_value_sp(s, backing_register(rh)) as u64) >> 16u64,
{
    let y = get_register_value_sp(s, backing_register(rh));
    let x = y as u64;
    let w = ((x & 0xFFFF_FFFF_FFFF_00FF) | ((v as u8 as u64) << 8u64)) as i64;
    assert(((((w as i16) >> 8u16) as i64) as u8 == v as u8) && (w as i8 == y as i8) && ((
    w as u64) >> 16u64 == x >> 16u64)) by (bit_vector)
        requires
            x == y as u64,
            w == ((x & 0xFFFF_FFFF_FFFF_00FF) | ((v as u8 as u64) << 8u64)) as i64,
    ;
}

/// Negating twice at a width returns the value modulo the width: the
/// double negation is the zero-extended truncation of the input.
pub proof fn lemma_neg_twice(x: i64, w: OperandSize)
    requires
        w != OperandSize::Bit128,
    ensures
        sub_result_sp(sub_result_sp(x, 0, w), 0, w) == zext_sp(x, w),
{
    let inner = sub_result_sp(x, 0, w);
    match w {
        OperandSize::Bit8 => {
            let a = x as u8;
            let b = (0 as u8).wrapping_sub(a);
            assert(inner == b as i64);
            assert(inner as u8 == b);
            assert((0 as u8).wrapping_sub(b) == a);
        },
        OperandSize::Bit16 => {
            let a = x as u16;
            let b = (0 as u16).wrapping_sub(a);
            assert(inner == b as i64);
            assert(inner as u16 == b);
            assert((0 as u16).wrapping_sub(b) == a);
        },
        OperandSize::Bit32 => {
            let a = x as u32;
            let b = (0 as u32).wrapping_sub(a);
            assert(inner == b as i64);
            assert(inner as u32 == b);
            assert((0 as u32).wrapping_sub(b) == a);
        },
        OperandSize::Bit64 => {
            let a = x as u64;
            let b = (0 as u64).wrapping_sub(a);
            assert(inner == b as i64);
            assert(inner as u64 == b) by {
                lemma_i64_u64_roundtrip(0, b);
            }
            assert((0 as u64).wrapping_sub(b) == a);
        },
        OperandSize::Bit128 => {},
    }
}

/// `XOR r, r` yields zero and sets Zero, clears Sign, Carry and
/// Overflow, and sets Parity.
pub proof fn lemma_xor_register_self(s: StateView, op: Operands)
    requires
        wf_state(s),
        wf_two(op),
        op.operands.0 == op.operands.1,
        op.operands.0.unwrap() is Register,
    ensures
        ({
            let (r, s1) = logic_tr(s, op, LogicKind::OpXor, true);
            let w = op.spec_size();
            let value = get_register_value_sp(s, op.operands.0.unwrap()->Register_0);
            &&& r == Ok::<(), VmError>(())
            &&& logic_result_sp(LogicKind::OpXor, value, value) == 0
            &&& s1 == (StateView {
                rflags: logic_flags_sp(s.rflags, 0, w),
                ..set_register_value_sp(s, op.operands.0.unwrap()->Register_0, 0)
            })
            &&& get_flag_sp(s1.rflags, Flags::Zero)
            &&& !get_flag_sp(s1.rflags, Flags::Sign)
            &&& !get_flag_sp(s1.rflags, Flags::Carry)
            &&& !get_flag_sp(s1.rflags, Flags::Overflow)
            &&& get_flag_sp(s1.rflags, Flags::Parity)
        }),
{
    let w = op.spec_size();
    let register = op.operands.0.unwrap()->Register_0;
    let value = get_register_value_sp(s, register);
    assert(value ^ value == 0) by (bit_vector);
    assert((0u64 & 0x80 == 0) && (0u64 & 0x8000 == 0) && (0u64 & 0x8000_0000 == 0) && (0u64
        & 0x8000_0000_0000_0000 == 0) && parity_low_byte(0) == 0) by (bit_vector);
    lemma_compute_flags(s.rflags, 0, w);
    lemma_flag_ops(compute_flags_sp(s.rflags, 0, w), Flags::Carry, Flags::Zero, false);
    lemma_flag_ops(compute_flags_sp(s.rflags, 0, w), Flags::Carry, Flags::Sign, false);
    lemma_flag_ops(compute_flags_sp(s.rflags, 0, w), Flags::Carry, Flags::Carry, false);
    lemma_flag_ops(compute_flags_sp(s.rflags, 0, w), Flags::Carry, Flags::Parity, false);
    lemma_flag_ops(compute_flags_sp(s.rflags, 0, w), Flags::Carry, Flags::Overflow, false);
    let f1 = set_flag_sp(compute_flags_sp(s.rflags, 0, w), Flags::Carry, false);
    lemma_flag_ops(f1, Flags::Overflow, Flags::Zero, false);
    lemma_flag_ops(f1, Flags::Overflow, Flags::Sign, false);
    lemma_flag_ops(f1, Flags::Overflow, Flags::Carry, false);
    lemma_flag_ops(f1, Flags::Overflow, Flags::Parity, false);
    lemma_flag_ops(f1, Flags::Overflow, Flags::Overflow, false);
}

/// `SHL` flag behavior: a masked count of zero leaves the flags
/// unchanged, a count of one defines Overflow, and a masked count at
/// or beyond the width yields zero.
pub proof fn lemma_shl_flags(rflags: i64, v0: i64, v1: i64, w: OperandSize)
    requires
        w != OperandSize::Bit128,
    ensures
        ({
            let (result, carry, overflow, count) = shl_parts_sp(v0, v1, w);
            &&& (count == 0 ==> shift_flags_sp(rflags, result, carry, overflow, count, w)
                == rflags)
            &&& (count == 1 ==> get_flag_sp(
                shift_flags_sp(rflags, result, carry, overflow, count, w),
                Flags::Overflow,
            ) == overflow)
            &&& (count >= crate::instruction::spec_size_bits(w) ==> result == 0)
        }),
{
    let (result, carry, overflow, count) = shl_parts_sp(v0, v1, w);
    if count == 1 {
        let f1 = set_flag_sp(rflags, Flags::Overflow, overflow);
        let f2 = set_flag_sp(f1, Flags::Carry, carry);
        lemma_compute_flags(f2, result, w);
        lemma_flag_ops(f1, Flags::Carry, Flags::Overflow, carry);
        lemma_flag_ops(rflags, Flags::Overflow, Flags::Overflow, overflow);
    }
}

/// `LEA` never touches memory and never changes the flags.
pub proof fn lemma_lea_frame(s: StateView, op: Operands)
    requires
        op.operands.0 is Some,
        op.operands.1 is Some,
        op.operands.0.unwrap() is EffectiveAddress,
        op.operands.1.unwrap() is Register,
        is_integer_register(op.operands.1.unwrap()->Register_0),
    ensures
        ({
            let (r, s1) = lea_tr(s, op);
            r == Ok::<(), VmError>(()) && s1.mem == s.mem && s1.rflags == s.rflags
        }),
{
}

/// The byte length the execution loop caches for a decoded
/// instruction replays exactly: advancing the cursor by the cached
/// length lands on the same address the decoder left it at, so a
/// cache hit moves the cursor over precisely the bytes the decoder
/// consumed.
pub proof fn lemma_cached_length_replays(s: StateView, opcode:
    crate::instruction::Opcode, ops: Operands, new_rip: i64)
    requires
        crate::decoder::spec_decode(s.mem, s.rip) == Ok::<
            (crate::instruction::Opcode, Operands, i64),
            VmError,
        >((opcode, ops, new_rip)),
    ensures
        crate::execution::advanced_sp(
            s,
            (new_rip as u64).wrapping_sub(s.rip as u64),
        ).rip == new_rip,
{
    crate::execution::lemma_rip_roundtrip(s.rip, new_rip);
}

/// Bit facts of the alias writes: writing a low byte, a high byte, a
/// 16-bit half or a 32-bit half and reading the same lane back gives
/// the value truncated to the lane.
proof fn lemma_alias_bits(x: i64, v: i64)
    ensures
        ((((x as u64) & 0xFFFF_FFFF_FFFF_FF00) | ((v as u8) as u64)) as i64) as i8 == v as i8,
        (((((x as u64) & 0xFFFF_FFFF_FFFF_00FF) | (((v as u8) as u64) << 8u64)) as i64) as i16
            >> 8u16) as i64 == v as i8 as i64,
        ((((x as u64) & 0xFFFF_FFFF_FFFF_0000) | ((v as u16) as u64)) as i64) as i16 == v
            as i16,
        ((((v as u32) as u64) as i64) as i32) == v as i32,
{
    assert((((((x as u64) & 0xFFFF_FFFF_FFFF_FF00) | ((v as u8) as u64)) as i64) as i8 == v
        as i8) && ((((((x as u64) & 0xFFFF_FFFF_FFFF_00FF) | (((v as u8) as u64) << 8u64))
        as i64) as i16 >> 8u16) as i64 == v as i8 as i64) && (((((x as u64)
        & 0xFFFF_FFFF_FFFF_0000) | ((v as u16) as u64)) as i64) as i16 == v as i16) && (((((
    v as u32) as u64) as i64) as i32) == v as i32)) by (bit_vector);
}

/// Sign extension of a value's low part at a width.
pub open spec fn sext_sp(v: i64, w: OperandSize) -> i64 {
    match w {
        OperandSize::Bit8 => v as i8 as i64,
        OperandSize::Bit16 => v as i16 as i64,
        OperandSize::Bit32 => v as i32 as i64,
        _ => v,
    }
}

/// Writing a register and reading the same register back gives the
/// written value truncated to the register's width and sign-extended,
/// for every general-purpose register and alias (segment selectors,
/// which read zero, excluded).
#[verifier::rlimit(100)]
pub proof fn lemma_alias_write_read(s: StateView, r: Register, v: i64)
    requires
        is_integer_register(r),
        r != Register::ES && r != Register::CS && r != Register::SS && r != Register::DS
            && r != Register::FS && r != Register::GS,
    ensures
        get_register_value_sp(set_register_value_sp(s, r, v), r) == sext_sp(
            v,
            spec_register_size(r),
        ),
{
    lemma_alias_bits(get_register_value_sp(s, backing_register(r)), v);
}

/// Truncating after a sign extension is truncating the original, and
/// sign extension is stable across a zero extension at the same
/// width.
proof fn lemma_sext_trunc(v: i64)
    ensures
        ((v as i8 as i64) as u8) == v as u8,
        ((v as i16 as i64) as u16) == v as u16,
        ((v as i32 as i64) as u32) == v as u32,
        ((v as u8 as i64) as i8 as i64) == v as i8 as i64,
        ((v as u16 as i64) as i16 as i64) == v as i16 as i64,
        ((v as u32 as i64) as i32 as i64) == v as i32 as i64,
{
    assert((((v as i8 as i64) as u8) == v as u8) && (((v as i16 as i64) as u16) == v as u16)
        && (((v as i32 as i64) as u32) == v as u32) && (((v as u8 as i64) as i8 as i64) == v
        as i8 as i64) && (((v as u16 as i64) as i16 as i64) == v as i16 as i64) && (((
    v as u32 as i64) as i32 as i64) == v as i32 as i64)) by (bit_vector);
}

/// Negating a register operand twice returns the register to its
/// original value at the operand width (sign-extended through the
/// alias read), at every width: the register-level round trip of the
/// double negation.
#[verifier::rlimit(100)]
pub proof fn lemma_neg_twice_register(s: StateView, op: Operands, r: Register)
    requires
        wf_state(s),
        crate::interpreter::wf_one_write(op),
        op.operands.0 == Some(crate::instruction::Operand::Register(r)),
        op.explicit_size is None,
        r != Register::ES && r != Register::CS && r != Register::SS && r != Register::DS
            && r != Register::FS && r != Register::GS,
    ensures
        ({
            let (r1, s1) = crate::interpreter::neg_tr(s, op);
            let (r2, s2) = crate::interpreter::neg_tr(s1, op);
            let w = op.spec_size();
            r1 == Ok::<(), VmError>(()) && r2 == Ok::<(), VmError>(())
                && get_register_value_sp(s2, r) == sext_sp(get_register_value_sp(s, r), w)
        }),
{
    let w = op.spec_size();
    let x = get_register_value_sp(s, r);
    let result1 = sub_result_sp(x, 0, w);
    let (r1, s1) = crate::interpreter::neg_tr(s, op);
    lemma_alias_write_read(s, r, result1);
    assert(get_register_value_sp(s1, r) == sext_sp(result1, w));
    let y = get_register_value_sp(s1, r);
    let result2 = sub_result_sp(y, 0, w);
    lemma_sext_trunc(result1);
    assert(result2 == sub_result_sp(result1, 0, w));
    let (r2, s2) = crate::interpreter::neg_tr(s1, op);
    lemma_alias_write_read(s1, r, result2);
    assert(get_register_value_sp(s2, r) == sext_sp(result2, w));
    lemma_neg_twice(x, w);
    assert(sub_result_sp(result1, 0, w) == zext_sp(x, w));
    lemma_sext_trunc(x);
    lemma_i64_u64_roundtrip(x, 0);
    assert(sext_sp(zext_sp(x, w), w) == sext_sp(x, w));
}

} // verus!
