use vstd::prelude::*;

use crate::instruction::{Opcode, Operand, Operands, OperandSize, Register, RegisterSize, Repeat,
    is_xmm_register, spec_register_size, operand_readable};
use crate::interpreter::{wf_instruction, wf_one_write};
use crate::memory::{Memory, MemView, mem_inv};
use crate::VmError;

verus! {

/// Whether the register side and the memory side of a ModR/M byte are
/// read in source or destination position.
#[derive(PartialEq, Eq, Structural, Copy, Clone)]
pub enum RegOrOpcode {
    Register,
    Opcode,
}

/// Width of the immediate a table entry carries.
#[derive(PartialEq, Eq, Structural, Copy, Clone)]
pub enum ImmediateSize {
    NoImm,
    Bit8,
    Bit32,
}

/// The prefix and ModR/M state the decoder threads through one
/// instruction.
#[derive(Copy, Clone)]
pub struct DecFlags {
    pub reversed: bool,
    pub address_size_override: bool,
    pub new_64bit_register: bool,
    pub new_8bit_register: bool,
    pub mod_rm_extension: bool,
    pub sib_extension: bool,
    pub operand_16_bit: bool,
    pub operand_64_bit: bool,
    pub sib_displacement_only: bool,
    pub op1_xmm: bool,
    pub op2_xmm: bool,
}

fn flags_none() -> (r: DecFlags)
    ensures
        r == spec_flags_none(),
        !r.reversed && !r.address_size_override && !r.new_64bit_register
            && !r.new_8bit_register && !r.mod_rm_extension && !r.sib_extension
            && !r.operand_16_bit && !r.operand_64_bit && !r.sib_displacement_only
            && !r.op1_xmm && !r.op2_xmm,
{
    DecFlags {
        reversed: false,
        address_size_override: false,
        new_64bit_register: false,
        new_8bit_register: false,
        mod_rm_extension: false,
        sib_extension: false,
        operand_16_bit: false,
        operand_64_bit: false,
        sib_displacement_only: false,
        op1_xmm: false,
        op2_xmm: false,
    }
}

fn with_reversed(flags: DecFlags) -> (r: DecFlags)
    ensures
        r == spec_with_reversed(flags),
        r == (DecFlags { reversed: true, ..flags }),
{
    DecFlags { reversed: true, ..flags }
}

fn with_xmm_both(flags: DecFlags) -> (r: DecFlags)
    ensures
        r == spec_with_xmm_both(flags),
        r == (DecFlags { op1_xmm: true, op2_xmm: true, ..flags }),
{
    DecFlags { op1_xmm: true, op2_xmm: true, ..flags }
}

/// The decoder state with every prefix flag clear.
pub open spec fn spec_flags_none() -> DecFlags {
    DecFlags {
        reversed: false,
        address_size_override: false,
        new_64bit_register: false,
        new_8bit_register: false,
        mod_rm_extension: false,
        sib_extension: false,
        operand_16_bit: false,
        operand_64_bit: false,
        sib_displacement_only: false,
        op1_xmm: false,
        op2_xmm: false,
    }
}

/// What reading one instruction byte at `base + offset` gives: the
/// byte, or the unmapped fault.
pub open spec fn spec_get_u8(mem: MemView, base: i64, offset: i64) -> Result<u8, VmError> {
    let address = base.wrapping_add(offset) as u64;
    if crate::memory::mem_mapped(mem, address) {
        Ok(crate::memory::mem_byte(mem, address))
    } else {
        Err(VmError::UnmappedPage(address))
    }
}

/// One signed instruction byte.
pub open spec fn spec_get_i8(mem: MemView, base: i64, offset: i64) -> Result<i8, VmError> {
    match spec_get_u8(mem, base, offset) {
        Ok(b) => Ok(b as i8),
        Err(e) => Err(e),
    }
}

/// One little-endian 16-bit immediate.
pub open spec fn spec_get_i16(mem: MemView, base: i64, offset: i64) -> Result<i16, VmError> {
    let address = base.wrapping_add(offset) as u64;
    if crate::memory::mem_range_mapped(mem, address, 2) {
        Ok(crate::memory::mem_u16_le(mem, address) as i16)
    } else {
        Err(VmError::UnmappedPage(address))
    }
}

/// One little-endian 32-bit immediate.
pub open spec fn spec_get_i32(mem: MemView, base: i64, offset: i64) -> Result<i32, VmError> {
    let address = base.wrapping_add(offset) as u64;
    if crate::memory::mem_range_mapped(mem, address, 4) {
        Ok(crate::memory::mem_u32_le(mem, address) as i32)
    } else {
        Err(VmError::UnmappedPage(address))
    }
}

/// One little-endian 64-bit immediate.
pub open spec fn spec_get_i64(mem: MemView, base: i64, offset: i64) -> Result<i64, VmError> {
    let address = base.wrapping_add(offset) as u64;
    if crate::memory::mem_range_mapped(mem, address, 8) {
        Ok(crate::memory::mem_u64_le(mem, address) as i64)
    } else {
        Err(VmError::UnmappedPage(address))
    }
}

/// A record with no operands, as a specification value.
pub open spec fn spec_ops0() -> Operands {
    Operands {
        operands: (None, None, None),
        opcode: None,
        explicit_size: None,
        repeat: Repeat::Once,
    }
}

/// A record with one operand, as a specification value.
pub open spec fn spec_ops1(op0: Operand) -> Operands {
    Operands {
        operands: (Some(op0), None, None),
        opcode: None,
        explicit_size: None,
        repeat: Repeat::Once,
    }
}

/// A record with two operands, as a specification value.
pub open spec fn spec_ops2(op0: Operand, op1: Operand) -> Operands {
    Operands {
        operands: (Some(op0), Some(op1), None),
        opcode: None,
        explicit_size: None,
        repeat: Repeat::Once,
    }
}

/// Advance the instruction cursor, wrapping at the end of the address
/// space.
fn advance(rip: &mut i64, count: i64)
    ensures
        *final(rip) == old(rip).wrapping_add(count),
{
    *rip = rip.wrapping_add(count);
}

/// Read one byte of the instruction stream at `base + offset`.
fn get_u8(memory: &Memory, base: i64, offset: i64) -> (r: Result<u8, VmError>)
    requires
        mem_inv(memory@),
    ensures
        r == spec_get_u8(memory@, base, offset),
{
    let address = base.wrapping_add(offset) as u64;
    match memory.try_read_byte(address) {
        Some(b) => Ok(b),
        None => Err(VmError::UnmappedPage(address)),
    }
}

/// Read one signed byte of the instruction stream.
fn get_i8(memory: &Memory, base: i64, offset: i64) -> (r: Result<i8, VmError>)
    requires
        mem_inv(memory@),
    ensures
        r == spec_get_i8(memory@, base, offset),
{
    match get_u8(memory, base, offset) {
        Ok(b) => Ok(b as i8),
        Err(e) => Err(e),
    }
}

/// Read a little-endian 16-bit immediate of the instruction stream.
fn get_i16(memory: &Memory, base: i64, offset: i64) -> (r: Result<i16, VmError>)
    requires
        mem_inv(memory@),
    ensures
        r == spec_get_i16(memory@, base, offset),
{
    let address = base.wrapping_add(offset) as u64;
    match memory.try_read_u16(address) {
        Some(v) => Ok(v as i16),
        None => Err(VmError::UnmappedPage(address)),
    }
}

/// Read a little-endian 32-bit immediate of the instruction stream.
fn get_i32(memory: &Memory, base: i64, offset: i64) -> (r: Result<i32, VmError>)
    requires
        mem_inv(memory@),
    ensures
        r == spec_get_i32(memory@, base, offset),
{
    let address = base.wrapping_add(offset) as u64;
    match memory.try_read_u32(address) {
        Some(v) => Ok(v as i32),
        None => Err(VmError::UnmappedPage(address)),
    }
}

/// Read a little-endian 64-bit immediate of the instruction stream.
fn get_i64(memory: &Memory, base: i64, offset: i64) -> (r: Result<i64, VmError>)
    requires
        mem_inv(memory@),
    ensures
        r == spec_get_i64(memory@, base, offset),
{
    let address = base.wrapping_add(offset) as u64;
    match memory.try_read_u64(address) {
        Some(v) => Ok(v as i64),
        None => Err(VmError::UnmappedPage(address)),
    }
}

/// A record with no operands.
fn ops0() -> (r: Operands)
    ensures
        r == spec_ops0(),
        r.operands.0 is None,
        r.operands.1 is None,
        r.operands.2 is None,
        r.opcode is None,
        r.explicit_size is None,
        r.repeat == Repeat::Once,
{
    Operands::empty()
}

/// A record with one operand.
fn ops1(op0: Operand) -> (r: Operands)
    ensures
        r == spec_ops1(op0),
        r.operands.0 == Some(op0),
        r.operands.1 is None,
        r.operands.2 is None,
        r.opcode is None,
        r.explicit_size is None,
        r.repeat == Repeat::Once,
{
    Operands {
        operands: (Some(op0), None, None),
        opcode: None,
        explicit_size: None,
        repeat: Repeat::Once,
    }
}

/// A record with two operands.
fn ops2(op0: Operand, op1: Operand) -> (r: Operands)
    ensures
        r == spec_ops2(op0, op1),
        r.operands.0 == Some(op0),
        r.operands.1 == Some(op1),
        r.operands.2 is None,
        r.opcode is None,
        r.explicit_size is None,
        r.repeat == Repeat::Once,
{
    Operands {
        operands: (Some(op0), Some(op1), None),
        opcode: None,
        explicit_size: None,
        repeat: Repeat::Once,
    }
}

/// The operand width a register width class decodes to.
pub open spec fn rs_size(rs: RegisterSize) -> OperandSize {
    match rs {
        RegisterSize::Bit8 => OperandSize::Bit8,
        RegisterSize::Bit16 => OperandSize::Bit16,
        RegisterSize::Bit32 => OperandSize::Bit32,
        RegisterSize::Bit64 => OperandSize::Bit64,
        RegisterSize::Bit128 => OperandSize::Bit128,
        RegisterSize::Segment => OperandSize::Bit16,
    }
}

/// What a decoded operand slot may hold: a readable memory reference,
/// or a register of the width class the table asked for.
pub open spec fn slot_ok(o: Operand, rs: RegisterSize) -> bool {
    match o {
        Operand::EffectiveAddress { .. } => operand_readable(o),
        Operand::Register(r) => spec_register_size(r) == rs_size(rs) && (is_xmm_register(r)
            <==> rs == RegisterSize::Bit128),
        Operand::Immediate(_) => false,
    }
}

/// The register a 3-bit number selects at a width class, with the
/// REX extension bits.
pub open spec fn spec_get_register(num: u8, size: RegisterSize, new_64bit_register: bool,
    new_8bit_register: bool) -> Register {
    match size {
        RegisterSize::Bit128 => {
            if new_64bit_register {
                match num {
                    0 => Register::XMM8,
                    1 => Register::XMM9,
                    2 => Register::XMM10,
                    3 => Register::XMM11,
                    4 => Register::XMM12,
                    5 => Register::XMM13,
                    6 => Register::XMM14,
                    _ => Register::XMM15,
                }
            } else {
                match num {
                    0 => Register::XMM0,
                    1 => Register::XMM1,
                    2 => Register::XMM2,
                    3 => Register::XMM3,
                    4 => Register::XMM4,
                    5 => Register::XMM5,
                    6 => Register::XMM6,
                    _ => Register::XMM7,
                }
            }
        },
        RegisterSize::Bit64 => {
            if new_64bit_register {
                match num {
                    0 => Register::R8,
                    1 => Register::R9,
                    2 => Register::R10,
                    3 => Register::R11,
                    4 => Register::R12,
                    5 => Register::R13,
                    6 => Register::R14,
                    _ => Register::R15,
                }
            } else {
                match num {
                    0 => Register::RAX,
                    1 => Register::RCX,
                    2 => Register::RDX,
                    3 => Register::RBX,
                    4 => Register::RSP,
                    5 => Register::RBP,
                    6 => Register::RSI,
                    _ => Register::RDI,
                }
            }
        },
        RegisterSize::Bit32 => {
            if new_64bit_register {
                match num {
                    0 => Register::R8D,
                    1 => Register::R9D,
                    2 => Register::R10D,
                    3 => Register::R11D,
                    4 => Register::R12D,
                    5 => Register::R13D,
                    6 => Register::R14D,
                    _ => Register::R15D,
                }
            } else {
                match num {
                    0 => Register::EAX,
                    1 => Register::ECX,
                    2 => Register::EDX,
                    3 => Register::EBX,
                    4 => Register::ESP,
                    5 => Register::EBP,
                    6 => Register::ESI,
                    _ => Register::EDI,
                }
            }
        },
        RegisterSize::Bit16 => {
            if new_64bit_register {
                match num {
                    0 => Register::R8W,
                    1 => Register::R9W,
                    2 => Register::R10W,
                    3 => Register::R11W,
                    4 => Register::R12W,
                    5 => Register::R13W,
                    6 => Register::R14W,
                    _ => Register::R15W,
                }
            } else {
                match num {
                    0 => Register::AX,
                    1 => Register::CX,
                    2 => Register::DX,
                    3 => Register::BX,
                    4 => Register::SP,
                    5 => Register::BP,
                    6 => Register::SI,
                    _ => Register::DI,
                }
            }
        },
        RegisterSize::Bit8 => {
            if new_64bit_register {
                match num {
                    0 => Register::R8B,
                    1 => Register::R9B,
                    2 => Register::R10B,
                    3 => Register::R11B,
                    4 => Register::R12B,
                    5 => Register::R13B,
                    6 => Register::R14B,
                    _ => Register::R15B,
                }
            } else if new_8bit_register {
                match num {
                    0 => Register::AL,
                    1 => Register::CL,
                    2 => Register::DL,
                    3 => Register::BL,
                    4 => Register::SPL,
                    5 => Register::BPL,
                    6 => Register::SIL,
                    _ => Register::DIL,
                }
            } else {
                match num {
                    0 => Register::AL,
                    1 => Register::CL,
                    2 => Register::DL,
                    3 => Register::BL,
                    4 => Register::AH,
                    5 => Register::CH,
                    6 => Register::DH,
                    _ => Register::BH,
                }
            }
        },
        RegisterSize::Segment => {
            match num {
                0 => Register::ES,
                1 => Register::CS,
                2 => Register::SS,
                3 => Register::DS,
                4 => Register::FS,
                _ => Register::GS,
            }
        },
    }
}

/// The vector register a 3-bit number selects.
pub open spec fn spec_get_xmm_register(num: u8, new_64bit_register: bool) -> Register {
    if new_64bit_register {
        match num {
            0 => Register::XMM8,
            1 => Register::XMM9,
            2 => Register::XMM10,
            3 => Register::XMM11,
            4 => Register::XMM12,
            5 => Register::XMM13,
            6 => Register::XMM14,
            _ => Register::XMM15,
        }
    } else {
        match num {
            0 => Register::XMM0,
            1 => Register::XMM1,
            2 => Register::XMM2,
            3 => Register::XMM3,
            4 => Register::XMM4,
            5 => Register::XMM5,
            6 => Register::XMM6,
            _ => Register::XMM7,
        }
    }
}

/// A register number resolved as integer or vector register.
pub open spec fn spec_get_register_or_xmm(num: u8, size: RegisterSize, new_64bit_register:
    bool, new_8bit_register: bool, xmm: bool) -> Register {
    if xmm {
        spec_get_xmm_register(num, new_64bit_register)
    } else {
        spec_get_register(num, size, new_64bit_register, new_8bit_register)
    }
}

/// The memory operand a ModR/M byte (and SIB byte, where present)
/// describes.
pub open spec fn spec_effective_address(sib: Option<u8>, register: Register, displacement:
    i32, flags: DecFlags) -> Operand {
    match sib {
        None => Operand::EffectiveAddress {
            base: Some(register),
            index: None,
            scale: None,
            displacement,
        },
        Some(sib) => {
            let base_num = sib & 0b0000_0111;
            let index = (sib & 0b0011_1000) >> 3u8;
            let scale_bits = (sib & 0b1100_0000) >> 6u8;
            let scale: u8 = 1u8 << scale_bits;
            let register_size = if flags.address_size_override {
                RegisterSize::Bit32
            } else {
                RegisterSize::Bit64
            };
            let base = spec_get_register(base_num, register_size, flags.new_64bit_register,
                false);
            if index == 0x4 {
                if base_num == 0x5 && flags.sib_displacement_only {
                    Operand::EffectiveAddress {
                        base: None,
                        displacement,
                        scale: None,
                        index: None,
                    }
                } else {
                    Operand::EffectiveAddress {
                        base: Some(base),
                        displacement,
                        scale: None,
                        index: None,
                    }
                }
            } else if base_num == 0x5 && flags.sib_displacement_only {
                Operand::EffectiveAddress {
                    base: None,
                    displacement,
                    scale: Some(scale),
                    index: Some(
                        spec_get_register(index, register_size, flags.sib_extension, false),
                    ),
                }
            } else {
                Operand::EffectiveAddress {
                    base: Some(base),
                    displacement,
                    scale: Some(scale),
                    index: Some(
                        spec_get_register(index, register_size, flags.sib_extension, false),
                    ),
                }
            }
        },
    }
}

/// Map a 3-bit register number to a register identifier of the asked
/// width class, honoring the REX extension bits.
fn get_register(num: u8, size: RegisterSize, new_64bit_register: bool, new_8bit_register:
    bool) -> (r: Register)
    requires
        num < 8,
        size == RegisterSize::Segment ==> num < 6,
    ensures
        r == spec_get_register(num, size, new_64bit_register, new_8bit_register),
        spec_register_size(r) == rs_size(size),
        is_xmm_register(r) <==> size == RegisterSize::Bit128,
{
    match size {
        RegisterSize::Bit128 => {
            if new_64bit_register {
                match num {
                    0 => Register::XMM8,
                    1 => Register::XMM9,
                    2 => Register::XMM10,
                    3 => Register::XMM11,
                    4 => Register::XMM12,
                    5 => Register::XMM13,
                    6 => Register::XMM14,
                    _ => Register::XMM15,
                }
            } else {
                match num {
                    0 => Register::XMM0,
                    1 => Register::XMM1,
                    2 => Register::XMM2,
                    3 => Register::XMM3,
                    4 => Register::XMM4,
                    5 => Register::XMM5,
                    6 => Register::XMM6,
                    _ => Register::XMM7,
                }
            }
        },
        RegisterSize::Bit64 => {
            if new_64bit_register {
                match num {
                    0 => Register::R8,
                    1 => Register::R9,
                    2 => Register::R10,
                    3 => Register::R11,
                    4 => Register::R12,
                    5 => Register::R13,
                    6 => Register::R14,
                    _ => Register::R15,
                }
            } else {
                match num {
                    0 => Register::RAX,
                    1 => Register::RCX,
                    2 => Register::RDX,
                    3 => Register::RBX,
                    4 => Register::RSP,
                    5 => Register::RBP,
                    6 => Register::RSI,
                    _ => Register::RDI,
                }
            }
        },
        RegisterSize::Bit32 => {
            if new_64bit_register {
                match num {
                    0 => Register::R8D,
                    1 => Register::R9D,
                    2 => Register::R10D,
                    3 => Register::R11D,
                    4 => Register::R12D,
                    5 => Register::R13D,
                    6 => Register::R14D,
                    _ => Register::R15D,
                }
            } else {
                match num {
                    0 => Register::EAX,
                    1 => Register::ECX,
                    2 => Register::EDX,
                    3 => Register::EBX,
                    4 => Register::ESP,
                    5 => Register::EBP,
                    6 => Register::ESI,
                    _ => Register::EDI,
                }
            }
        },
        RegisterSize::Bit16 => {
            if new_64bit_register {
                match num {
                    0 => Register::R8W,
                    1 => Register::R9W,
                    2 => Register::R10W,
                    3 => Register::R11W,
                    4 => Register::R12W,
                    5 => Register::R13W,
                    6 => Register::R14W,
                    _ => Register::R15W,
                }
            } else {
                match num {
                    0 => Register::AX,
                    1 => Register::CX,
                    2 => Register::DX,
                    3 => Register::BX,
                    4 => Register::SP,
                    5 => Register::BP,
                    6 => Register::SI,
                    _ => Register::DI,
                }
            }
        },
        RegisterSize::Bit8 => {
            if new_64bit_register {
                match num {
                    0 => Register::R8B,
                    1 => Register::R9B,
                    2 => Register::R10B,
                    3 => Register::R11B,
                    4 => Register::R12B,
                    5 => Register::R13B,
                    6 => Register::R14B,
                    _ => Register::R15B,
                }
            } else if new_8bit_register {
                match num {
                    0 => Register::AL,
                    1 => Register::CL,
                    2 => Register::DL,
                    3 => Register::BL,
                    4 => Register::SPL,
                    5 => Register::BPL,
                    6 => Register::SIL,
                    _ => Register::DIL,
                }
            } else {
                match num {
                    0 => Register::AL,
                    1 => Register::CL,
                    2 => Register::DL,
                    3 => Register::BL,
                    4 => Register::AH,
                    5 => Register::CH,
                    6 => Register::DH,
                    _ => Register::BH,
                }
            }
        },
        RegisterSize::Segment => {
            match num {
                0 => Register::ES,
                1 => Register::CS,
                2 => Register::SS,
                3 => Register::DS,
                4 => Register::FS,
                _ => Register::GS,
            }
        },
    }
}

/// Map a 3-bit register number to a vector register.
fn get_xmm_register(num: u8, new_64bit_register: bool) -> (r: Register)
    requires
        num < 8,
    ensures
        r == spec_get_xmm_register(num, new_64bit_register),
        is_xmm_register(r),
        spec_register_size(r) == OperandSize::Bit128,
{
    if new_64bit_register {
        match num {
            0 => Register::XMM8,
            1 => Register::XMM9,
            2 => Register::XMM10,
            3 => Register::XMM11,
            4 => Register::XMM12,
            5 => Register::XMM13,
            6 => Register::XMM14,
            _ => Register::XMM15,
        }
    } else {
        match num {
            0 => Register::XMM0,
            1 => Register::XMM1,
            2 => Register::XMM2,
            3 => Register::XMM3,
            4 => Register::XMM4,
            5 => Register::XMM5,
            6 => Register::XMM6,
            _ => Register::XMM7,
        }
    }
}

/// A register number as either an integer register of the asked class
/// or, when the lane flag is set, a vector register.
fn get_register_or_xmm(num: u8, size: RegisterSize, new_64bit_register: bool,
    new_8bit_register: bool, xmm: bool) -> (r: Register)
    requires
        num < 8,
        size == RegisterSize::Segment ==> num < 6,
    ensures
        r == spec_get_register_or_xmm(num, size, new_64bit_register, new_8bit_register, xmm),
        xmm ==> is_xmm_register(r) && spec_register_size(r) == OperandSize::Bit128,
        !xmm ==> spec_register_size(r) == rs_size(size) && (is_xmm_register(r) <==> size
            == RegisterSize::Bit128),
        is_xmm_register(r) <==> (xmm || size == RegisterSize::Bit128),
{
    if xmm {
        get_xmm_register(num, new_64bit_register)
    } else {
        get_register(num, size, new_64bit_register, new_8bit_register)
    }
}

/// Build the memory operand a ModR/M byte describes, with or without
/// a SIB byte.
fn effective_address(sib: Option<u8>, register: Register, displacement: i32, flags:
    DecFlags) -> (r: Operand)
    requires
        !is_xmm_register(register),
    ensures
        r == spec_effective_address(sib, register, displacement, flags),
        r is EffectiveAddress,
        operand_readable(r),
{
    match sib {
        None => Operand::EffectiveAddress {
            base: Some(register),
            index: None,
            scale: None,
            displacement,
        },
        Some(sib) => {
            let base_num = sib & 0b0000_0111;
            let index = (sib & 0b0011_1000) >> 3u8;
            let scale_bits = (sib & 0b1100_0000) >> 6u8;
            proof {
                assert(base_num < 8 && index < 8 && scale_bits < 4) by (bit_vector)
                    requires
                        base_num == sib & 0b0000_0111,
                        index == (sib & 0b0011_1000) >> 3u8,
                        scale_bits == (sib & 0b1100_0000) >> 6u8,
                ;
            }
            let scale: u8 = 1u8 << scale_bits;
            let register_size = if flags.address_size_override {
                RegisterSize::Bit32
            } else {
                RegisterSize::Bit64
            };
            let base = get_register(base_num, register_size, flags.new_64bit_register, false);
            if index == 0x4 {
                if base_num == 0x5 && flags.sib_displacement_only {
                    Operand::EffectiveAddress {
                        base: None,
                        displacement,
                        scale: None,
                        index: None,
                    }
                } else {
                    Operand::EffectiveAddress {
                        base: Some(base),
                        displacement,
                        scale: None,
                        index: None,
                    }
                }
            } else if base_num == 0x5 && flags.sib_displacement_only {
                Operand::EffectiveAddress {
                    base: None,
                    displacement,
                    scale: Some(scale),
                    index: Some(
                        get_register(index, register_size, flags.sib_extension, false),
                    ),
                }
            } else {
                Operand::EffectiveAddress {
                    base: Some(base),
                    displacement,
                    scale: Some(scale),
                    index: Some(
                        get_register(index, register_size, flags.sib_extension, false),
                    ),
                }
            }
        },
    }
}

/// Shape of a two-operand record out of the ModR/M parser: two filled
/// slots, each a readable memory reference or a register of the asked
/// width class, at least one of them a register, and nothing else
/// set.
pub open spec fn shape_two(ops: Operands, rs: RegisterSize) -> bool {
    &&& ops.operands.0 is Some
    &&& ops.operands.1 is Some
    &&& ops.operands.2 is None
    &&& ops.opcode is None
    &&& ops.explicit_size is None
    &&& ops.repeat == Repeat::Once
    &&& slot_ok(ops.operands.0.unwrap(), rs)
    &&& slot_ok(ops.operands.1.unwrap(), rs)
    &&& (ops.operands.0.unwrap() is Register || ops.operands.1.unwrap() is Register)
}

/// Shape of an immediate-to-target record out of the ModR/M parser:
/// an immediate source, a writable target, and the ModR/M extension.
pub open spec fn shape_imm(ops: Operands, rs: RegisterSize) -> bool {
    &&& ops.operands.0 is Some
    &&& ops.operands.0.unwrap() is Immediate
    &&& ops.operands.1 is Some
    &&& slot_ok(ops.operands.1.unwrap(), rs)
    &&& ops.operands.2 is None
    &&& ops.opcode is Some
    &&& ops.opcode.unwrap() <= 7
    &&& (ops.explicit_size is None || ops.explicit_size == Some(rs_size(rs)))
    &&& ops.repeat == Repeat::Once
}

/// Shape of a single-target record out of the ModR/M parser: one
/// writable target and the ModR/M extension; the explicit size is
/// either absent or the forced 64-bit width of the memory forms.
pub open spec fn shape_ext(ops: Operands, rs: RegisterSize) -> bool {
    &&& ops.operands.0 is Some
    &&& slot_ok(ops.operands.0.unwrap(), rs)
    &&& ops.operands.1 is None
    &&& ops.operands.2 is None
    &&& ops.opcode is Some
    &&& ops.opcode.unwrap() <= 7
    &&& (ops.explicit_size is None || ops.explicit_size == Some(OperandSize::Bit64))
    &&& (ops.explicit_size is None ==> ops.operands.0.unwrap() is Register)
    &&& ops.repeat == Repeat::Once
}

/// The operand record and byte length the ModR/M parser produces for
/// one instruction: the specification the executable parser is held
/// to, byte for byte.
pub open spec fn spec_get_operands(mem: MemView, rip: i64, register_size: RegisterSize,
    reg_or_opcode: RegOrOpcode, immediate_size: ImmediateSize, flags_in: DecFlags) -> Result<
    (Operands, i64),
    VmError,
> {
    match spec_get_u8(mem, rip, 1) {
        Err(e) => Err(e),
        Ok(modrm) => {
            let address_mod = modrm >> 6u8;
            let rm = modrm & 0b0000_0111;
            let field = (modrm & 0b0011_1000) >> 3u8;
            if address_mod <= 2 {
                spec_get_operands_memory(mem, rip, register_size, reg_or_opcode,
                    immediate_size, flags_in, modrm, address_mod, rm, field)
            } else {
                spec_get_operands_registers(mem, rip, register_size, reg_or_opcode,
                    immediate_size, flags_in, modrm, rm, field)
            }
        },
    }
}

/// The memory-operand half of the ModR/M parser: SIB and displacement
/// bytes, then the immediate the table asks for.
pub open spec fn spec_get_operands_memory(mem: MemView, rip: i64, register_size:
    RegisterSize, reg_or_opcode: RegOrOpcode, immediate_size: ImmediateSize, flags_in:
    DecFlags, modrm: u8, address_mod: u8, rm: u8, field: u8) -> Result<(Operands, i64), VmError> {
    let rip_relative = address_mod == 0 && rm == 0x5;
    let sib_step: Result<(Option<u8>, i64), VmError> = if rm == 0b100 {
        match spec_get_u8(mem, rip, 2) {
            Err(e) => Err(e),
            Ok(sib) => Ok((Some(sib), 3)),
        }
    } else {
        Ok((None, 2))
    };
    match sib_step {
        Err(e) => Err(e),
        Ok((sib, offset)) => {
            let disp_step: Result<(i32, i64, DecFlags), VmError> = if rip_relative {
                match spec_get_i32(mem, rip, offset) {
                    Err(e) => Err(e),
                    Ok(displacement) => Ok((displacement, 4, flags_in)),
                }
            } else if address_mod == 0 {
                match sib {
                    Some(sib_byte) => if sib_byte & 0b0000_0111 == 0x5 {
                        match spec_get_i32(mem, rip, offset) {
                            Err(e) => Err(e),
                            Ok(displacement) => Ok(
                                (
                                    displacement,
                                    4,
                                    DecFlags { sib_displacement_only: true, ..flags_in },
                                ),
                            ),
                        }
                    } else {
                        Ok((0, 0, flags_in))
                    },
                    None => Ok((0, 0, flags_in)),
                }
            } else if address_mod == 1 {
                match spec_get_i8(mem, rip, offset) {
                    Err(e) => Err(e),
                    Ok(b) => Ok((b as i32, 1, flags_in)),
                }
            } else {
                match spec_get_i32(mem, rip, offset) {
                    Err(e) => Err(e),
                    Ok(displacement) => Ok((displacement, 4, flags_in)),
                }
            };
            match disp_step {
                Err(e) => Err(e),
                Ok((displacement, ip_offset0, flags)) => {
                    let ip_offset: i64 = (ip_offset0 + offset) as i64;
                    let base_size = if flags.address_size_override {
                        RegisterSize::Bit32
                    } else {
                        RegisterSize::Bit64
                    };
                    let register = if rip_relative {
                        Register::RIP
                    } else {
                        spec_get_register(rm, base_size, flags.new_64bit_register,
                            flags.new_8bit_register)
                    };
                    match immediate_size {
                        ImmediateSize::Bit8 => spec_memory_imm8(mem, rip, register_size,
                            flags, sib, register, displacement, field, ip_offset),
                        ImmediateSize::Bit32 => spec_memory_imm32(mem, rip, register_size,
                            flags, sib, register, displacement, field, ip_offset),
                        ImmediateSize::NoImm => spec_memory_noimm(register_size,
                            reg_or_opcode, flags, modrm, sib, register, displacement, field,
                            ip_offset),
                    }
                },
            }
        },
    }
}

/// A memory target with a byte immediate.
pub open spec fn spec_memory_imm8(mem: MemView, rip: i64, register_size: RegisterSize,
    flags: DecFlags, sib: Option<u8>, register: Register, displacement: i32, field: u8,
    ip_offset: i64) -> Result<(Operands, i64), VmError> {
    match spec_get_u8(mem, rip, ip_offset) {
        Err(e) => Err(e),
        Ok(immediate) => Ok(
            (
                Operands {
                    operands: (
                        Some(Operand::Immediate(immediate as i64)),
                        Some(spec_effective_address(sib, register, displacement, flags)),
                        None,
                    ),
                    opcode: Some(field),
                    explicit_size: Some(rs_size(register_size)),
                    repeat: Repeat::Once,
                },
                (ip_offset + 1) as i64,
            ),
        ),
    }
}

/// A memory target with a 16- or 32-bit immediate (16 under the
/// operand-size prefix).
pub open spec fn spec_memory_imm32(mem: MemView, rip: i64, register_size: RegisterSize,
    flags: DecFlags, sib: Option<u8>, register: Register, displacement: i32, field: u8,
    ip_offset: i64) -> Result<(Operands, i64), VmError> {
    let imm_step: Result<(i64, i64), VmError> = if flags.operand_16_bit {
        match spec_get_i16(mem, rip, ip_offset) {
            Err(e) => Err(e),
            Ok(value) => Ok((value as i64, (ip_offset + 2) as i64)),
        }
    } else {
        match spec_get_i32(mem, rip, ip_offset) {
            Err(e) => Err(e),
            Ok(value) => Ok((value as i64, (ip_offset + 4) as i64)),
        }
    };
    match imm_step {
        Err(e) => Err(e),
        Ok((immediate, ip_offset2)) => Ok(
            (
                Operands {
                    operands: (
                        Some(Operand::Immediate(immediate)),
                        Some(spec_effective_address(sib, register, displacement, flags)),
                        None,
                    ),
                    opcode: Some(field),
                    explicit_size: Some(rs_size(register_size)),
                    repeat: Repeat::Once,
                },
                ip_offset2,
            ),
        ),
    }
}

/// A memory operand without an immediate: paired with the ModR/M
/// register, or alone with the extension recorded.
pub open spec fn spec_memory_noimm(register_size: RegisterSize, reg_or_opcode: RegOrOpcode,
    flags: DecFlags, modrm: u8, sib: Option<u8>, register: Register, displacement: i32,
    field: u8, ip_offset: i64) -> Result<(Operands, i64), VmError> {
    match reg_or_opcode {
        RegOrOpcode::Register => {
            if register_size == RegisterSize::Segment && field >= 6 {
                Err(VmError::UnknownOpcode(modrm))
            } else {
                let register2 = spec_get_register_or_xmm(field, register_size,
                    flags.mod_rm_extension, flags.new_8bit_register, flags.op2_xmm);
                let ops = if flags.reversed {
                    spec_ops2(
                        spec_effective_address(sib, register, displacement, flags),
                        Operand::Register(register2),
                    )
                } else {
                    spec_ops2(
                        Operand::Register(register2),
                        spec_effective_address(sib, register, displacement, flags),
                    )
                };
                Ok((ops, ip_offset))
            }
        },
        RegOrOpcode::Opcode => Ok(
            (
                Operands {
                    operands: (
                        Some(spec_effective_address(sib, register, displacement, flags)),
                        None,
                        None,
                    ),
                    opcode: Some(field),
                    explicit_size: Some(OperandSize::Bit64),
                    repeat: Repeat::Once,
                },
                ip_offset,
            ),
        ),
    }
}

/// The register-operand half of the ModR/M parser (both sides are
/// registers).
pub open spec fn spec_get_operands_registers(mem: MemView, rip: i64, register_size:
    RegisterSize, reg_or_opcode: RegOrOpcode, immediate_size: ImmediateSize, flags:
    DecFlags, modrm: u8, rm: u8, field: u8) -> Result<(Operands, i64), VmError> {
    if register_size == RegisterSize::Segment && rm >= 6 {
        Err(VmError::UnknownOpcode(modrm))
    } else {
        let register = spec_get_register_or_xmm(rm, register_size, flags.new_64bit_register,
            flags.new_8bit_register, flags.op1_xmm);
        match reg_or_opcode {
            RegOrOpcode::Register => {
                if register_size == RegisterSize::Segment && field >= 6 {
                    Err(VmError::UnknownOpcode(modrm))
                } else {
                    let register2 = spec_get_register_or_xmm(field, register_size,
                        flags.mod_rm_extension, flags.new_8bit_register, flags.op2_xmm);
                    let ops = if flags.reversed {
                        spec_ops2(
                            Operand::Register(register),
                            Operand::Register(register2),
                        )
                    } else {
                        spec_ops2(
                            Operand::Register(register2),
                            Operand::Register(register),
                        )
                    };
                    Ok((ops, 2))
                }
            },
            RegOrOpcode::Opcode => match immediate_size {
                ImmediateSize::Bit8 => match spec_get_i8(mem, rip, 2) {
                    Err(e) => Err(e),
                    Ok(immediate) => Ok(
                        (
                            Operands {
                                operands: (
                                    Some(Operand::Immediate(immediate as i64)),
                                    Some(Operand::Register(register)),
                                    None,
                                ),
                                opcode: Some(field),
                                explicit_size: None,
                                repeat: Repeat::Once,
                            },
                            3,
                        ),
                    ),
                },
                ImmediateSize::Bit32 => match spec_get_i32(mem, rip, 2) {
                    Err(e) => Err(e),
                    Ok(immediate) => Ok(
                        (
                            Operands {
                                operands: (
                                    Some(Operand::Immediate(immediate as i64)),
                                    Some(Operand::Register(register)),
                                    None,
                                ),
                                opcode: Some(field),
                                explicit_size: None,
                                repeat: Repeat::Once,
                            },
                            6,
                        ),
                    ),
                },
                ImmediateSize::NoImm => Ok(
                    (
                        Operands {
                            operands: (Some(Operand::Register(register)), None, None),
                            opcode: Some(field),
                            explicit_size: None,
                            repeat: Repeat::Once,
                        },
                        2,
                    ),
                ),
            },
        }
    }
}

/// Parse the ModR/M byte (and SIB, displacement and immediate where
/// the table asks for them) into an operand record, and report how
/// many bytes the whole instruction occupies up to and including what
/// was parsed.
fn get_operands(memory: &Memory, rip: i64, register_size: RegisterSize, reg_or_opcode:
    RegOrOpcode, immediate_size: ImmediateSize, flags_in: DecFlags) -> (r: Result<
    (Operands, i64),
    VmError,
>)
    requires
        mem_inv(memory@),
        immediate_size != ImmediateSize::NoImm ==> reg_or_opcode == RegOrOpcode::Opcode
            && register_size != RegisterSize::Bit128 && register_size != RegisterSize::Segment,
        reg_or_opcode == RegOrOpcode::Opcode ==> register_size != RegisterSize::Bit128
            && register_size != RegisterSize::Segment && !flags_in.op1_xmm
            && !flags_in.op2_xmm,
    ensures
        r == spec_get_operands(memory@, rip, register_size, reg_or_opcode, immediate_size,
            flags_in),
        match r {
            Ok((ops, ip_offset)) => {
                &&& 2 <= ip_offset <= 12
                &&& (reg_or_opcode == RegOrOpcode::Register && (register_size
                    == RegisterSize::Bit128 || (!flags_in.op1_xmm && !flags_in.op2_xmm))
                    ==> shape_two(ops, register_size))
                &&& (reg_or_opcode == RegOrOpcode::Opcode && immediate_size
                    != ImmediateSize::NoImm ==> shape_imm(ops, register_size))
                &&& (reg_or_opcode == RegOrOpcode::Opcode && immediate_size
                    == ImmediateSize::NoImm ==> shape_ext(ops, register_size))
            },
            Err(_) => true,
        },
{
    let modrm = get_u8(memory, rip, 1)?;
    let address_mod = modrm >> 6u8;
    let rm = modrm & 0b0000_0111;
    let field = (modrm & 0b0011_1000) >> 3u8;
    proof {
        assert(address_mod <= 3 && rm < 8 && field < 8) by (bit_vector)
            requires
                address_mod == modrm >> 6u8,
                rm == modrm & 0b0000_0111,
                field == (modrm & 0b0011_1000) >> 3u8,
        ;
    }
    if address_mod <= 2 {
        get_operands_memory(memory, rip, register_size, reg_or_opcode, immediate_size,
            flags_in, modrm, address_mod, rm, field)
    } else {
        get_operands_registers(memory, rip, register_size, reg_or_opcode, immediate_size,
            flags_in, modrm, rm, field)
    }
}

/// The memory-operand half of the ModR/M parser.
#[verifier::rlimit(100)]
#[verifier::spinoff_prover]
fn get_operands_memory(memory: &Memory, rip: i64, register_size: RegisterSize,
    reg_or_opcode: RegOrOpcode, immediate_size: ImmediateSize, flags_in: DecFlags, modrm: u8,
    address_mod: u8, rm: u8, field: u8) -> (r: Result<(Operands, i64), VmError>)
    requires
        mem_inv(memory@),
        immediate_size != ImmediateSize::NoImm ==> reg_or_opcode == RegOrOpcode::Opcode
            && register_size != RegisterSize::Bit128 && register_size != RegisterSize::Segment,
        reg_or_opcode == RegOrOpcode::Opcode ==> register_size != RegisterSize::Bit128
            && register_size != RegisterSize::Segment && !flags_in.op1_xmm
            && !flags_in.op2_xmm,
        rm == modrm & 0b0000_0111,
        field == (modrm & 0b0011_1000) >> 3u8,
        rm < 8,
        field < 8,
        address_mod == modrm >> 6u8,
        address_mod <= 2,
    ensures
        r == spec_get_operands_memory(memory@, rip, register_size, reg_or_opcode,
            immediate_size, flags_in, modrm, address_mod, rm, field),
        match r {
            Ok((ops, ip_offset)) => {
                &&& 2 <= ip_offset <= 12
                &&& (reg_or_opcode == RegOrOpcode::Register && (register_size
                    == RegisterSize::Bit128 || (!flags_in.op1_xmm && !flags_in.op2_xmm))
                    ==> shape_two(ops, register_size))
                &&& (reg_or_opcode == RegOrOpcode::Opcode && immediate_size
                    != ImmediateSize::NoImm ==> shape_imm(ops, register_size))
                &&& (reg_or_opcode == RegOrOpcode::Opcode && immediate_size
                    == ImmediateSize::NoImm ==> shape_ext(ops, register_size))
            },
            Err(_) => true,
        },
{
    let mut flags = flags_in;
    let rip_relative = address_mod == 0 && rm == 0x5;
    let (sib, offset): (Option<u8>, i64) = if rm == 0b100 {
        (Some(get_u8(memory, rip, 2)?), 3)
    } else {
        (None, 2)
    };
    let (displacement, ip_offset0): (i32, i64) = if rip_relative {
        (get_i32(memory, rip, offset)?, 4)
    } else if address_mod == 0 {
        match sib {
            Some(sib_byte) => {
                if sib_byte & 0b0000_0111 == 0x5 {
                    let displacement = get_i32(memory, rip, offset)?;
                    flags.sib_displacement_only = true;
                    (displacement, 4)
                } else {
                    (0, 0)
                }
            },
            None => (0, 0),
        }
    } else if address_mod == 1 {
        (get_i8(memory, rip, offset)? as i32, 1)
    } else {
        (get_i32(memory, rip, offset)?, 4)
    };
    let ip_offset: i64 = ip_offset0 + offset;
    let register = if rip_relative {
        Register::RIP
    } else {
        let base_size = if flags.address_size_override {
            RegisterSize::Bit32
        } else {
            RegisterSize::Bit64
        };
        get_register(rm, base_size, flags.new_64bit_register, flags.new_8bit_register)
    };
    match immediate_size {
        ImmediateSize::Bit8 => memory_imm8(memory, rip, register_size, flags, sib, register,
            displacement, field, ip_offset),
        ImmediateSize::Bit32 => memory_imm32(memory, rip, register_size, flags, sib,
            register, displacement, field, ip_offset),
        ImmediateSize::NoImm => memory_noimm(register_size, reg_or_opcode, flags, modrm, sib,
            register, displacement, field, ip_offset),
    }
}

/// A memory target with a byte immediate.
#[verifier::rlimit(100)]
#[verifier::spinoff_prover]
fn memory_imm8(memory: &Memory, rip: i64, register_size: RegisterSize, flags: DecFlags, sib:
    Option<u8>, register: Register, displacement: i32, field: u8, ip_offset: i64) -> (r:
    Result<(Operands, i64), VmError>)
    requires
        mem_inv(memory@),
        register_size != RegisterSize::Bit128 && register_size != RegisterSize::Segment,
        !is_xmm_register(register),
        field < 8,
        2 <= ip_offset <= 7,
    ensures
        r == spec_memory_imm8(memory@, rip, register_size, flags, sib, register,
            displacement, field, ip_offset),
        match r {
            Ok((ops, off)) => 2 <= off <= 12 && shape_imm(ops, register_size),
            Err(_) => true,
        },
{
    let immediate = get_u8(memory, rip, ip_offset)?;
    let operand_size = match register_size {
        RegisterSize::Bit8 => OperandSize::Bit8,
        RegisterSize::Bit16 => OperandSize::Bit16,
        RegisterSize::Bit32 => OperandSize::Bit32,
        RegisterSize::Bit64 => OperandSize::Bit64,
        _ => unreached(),
    };
    let ops = Operands {
        operands: (
            Some(Operand::Immediate(immediate as i64)),
            Some(effective_address(sib, register, displacement, flags)),
            None,
        ),
        opcode: Some(field),
        explicit_size: Some(operand_size),
        repeat: Repeat::Once,
    };
    Ok((ops, ip_offset + 1))
}

/// A memory target with a 16- or 32-bit immediate.
#[verifier::rlimit(100)]
#[verifier::spinoff_prover]
fn memory_imm32(memory: &Memory, rip: i64, register_size: RegisterSize, flags: DecFlags,
    sib: Option<u8>, register: Register, displacement: i32, field: u8, ip_offset: i64) -> (r:
    Result<(Operands, i64), VmError>)
    requires
        mem_inv(memory@),
        register_size != RegisterSize::Bit128 && register_size != RegisterSize::Segment,
        !is_xmm_register(register),
        field < 8,
        2 <= ip_offset <= 7,
    ensures
        r == spec_memory_imm32(memory@, rip, register_size, flags, sib, register,
            displacement, field, ip_offset),
        match r {
            Ok((ops, off)) => 2 <= off <= 12 && shape_imm(ops, register_size),
            Err(_) => true,
        },
{
    let (immediate, ip_offset2): (i64, i64) = if flags.operand_16_bit {
        let value = get_i16(memory, rip, ip_offset)?;
        (value as i64, ip_offset + 2)
    } else {
        let value = get_i32(memory, rip, ip_offset)?;
        (value as i64, ip_offset + 4)
    };
    let operand_size = match register_size {
        RegisterSize::Bit8 => OperandSize::Bit8,
        RegisterSize::Bit16 => OperandSize::Bit16,
        RegisterSize::Bit32 => OperandSize::Bit32,
        RegisterSize::Bit64 => OperandSize::Bit64,
        _ => unreached(),
    };
    let ops = Operands {
        operands: (
            Some(Operand::Immediate(immediate)),
            Some(effective_address(sib, register, displacement, flags)),
            None,
        ),
        opcode: Some(field),
        explicit_size: Some(operand_size),
        repeat: Repeat::Once,
    };
    Ok((ops, ip_offset2))
}

/// A memory operand without an immediate.
#[verifier::rlimit(100)]
#[verifier::spinoff_prover]
fn memory_noimm(register_size: RegisterSize, reg_or_opcode: RegOrOpcode, flags: DecFlags,
    modrm: u8, sib: Option<u8>, register: Register, displacement: i32, field: u8, ip_offset:
    i64) -> (r: Result<(Operands, i64), VmError>)
    requires
        reg_or_opcode == RegOrOpcode::Opcode ==> register_size != RegisterSize::Bit128
            && register_size != RegisterSize::Segment && !flags.op1_xmm && !flags.op2_xmm,
        !is_xmm_register(register),
        field < 8,
        2 <= ip_offset <= 12,
    ensures
        r == spec_memory_noimm(register_size, reg_or_opcode, flags, modrm, sib, register,
            displacement, field, ip_offset),
        match r {
            Ok((ops, off)) => {
                &&& 2 <= off <= 12
                &&& (reg_or_opcode == RegOrOpcode::Register && (register_size
                    == RegisterSize::Bit128 || (!flags.op1_xmm && !flags.op2_xmm))
                    ==> shape_two(ops, register_size))
                &&& (reg_or_opcode == RegOrOpcode::Opcode ==> shape_ext(ops, register_size))
            },
            Err(_) => true,
        },
{
    match reg_or_opcode {
        RegOrOpcode::Register => {
            if register_size == RegisterSize::Segment && field >= 6 {
                return Err(VmError::UnknownOpcode(modrm));
            }
            let register2 = get_register_or_xmm(field, register_size, flags.mod_rm_extension,
                flags.new_8bit_register, flags.op2_xmm);
            let ops = if flags.reversed {
                ops2(
                    effective_address(sib, register, displacement, flags),
                    Operand::Register(register2),
                )
            } else {
                ops2(
                    Operand::Register(register2),
                    effective_address(sib, register, displacement, flags),
                )
            };
            Ok((ops, ip_offset))
        },
        RegOrOpcode::Opcode => {
            let ops = Operands {
                operands: (
                    Some(effective_address(sib, register, displacement, flags)),
                    None,
                    None,
                ),
                opcode: Some(field),
                explicit_size: Some(OperandSize::Bit64),
                repeat: Repeat::Once,
            };
            Ok((ops, ip_offset))
        },
    }
}

/// The register-operand half of the ModR/M parser.
#[verifier::rlimit(100)]
#[verifier::spinoff_prover]
fn get_operands_registers(memory: &Memory, rip: i64, register_size: RegisterSize,
    reg_or_opcode: RegOrOpcode, immediate_size: ImmediateSize, flags_in: DecFlags, modrm: u8,
    rm: u8, field: u8) -> (r: Result<(Operands, i64), VmError>)
    requires
        mem_inv(memory@),
        immediate_size != ImmediateSize::NoImm ==> reg_or_opcode == RegOrOpcode::Opcode
            && register_size != RegisterSize::Bit128 && register_size != RegisterSize::Segment,
        reg_or_opcode == RegOrOpcode::Opcode ==> register_size != RegisterSize::Bit128
            && register_size != RegisterSize::Segment && !flags_in.op1_xmm
            && !flags_in.op2_xmm,
        rm == modrm & 0b0000_0111,
        field == (modrm & 0b0011_1000) >> 3u8,
        rm < 8,
        field < 8,
    ensures
        r == spec_get_operands_registers(memory@, rip, register_size, reg_or_opcode,
            immediate_size, flags_in, modrm, rm, field),
        match r {
            Ok((ops, ip_offset)) => {
                &&& 2 <= ip_offset <= 12
                &&& (reg_or_opcode == RegOrOpcode::Register && (register_size
                    == RegisterSize::Bit128 || (!flags_in.op1_xmm && !flags_in.op2_xmm))
                    ==> shape_two(ops, register_size))
                &&& (reg_or_opcode == RegOrOpcode::Opcode && immediate_size
                    != ImmediateSize::NoImm ==> shape_imm(ops, register_size))
                &&& (reg_or_opcode == RegOrOpcode::Opcode && immediate_size
                    == ImmediateSize::NoImm ==> shape_ext(ops, register_size))
            },
            Err(_) => true,
        },
{
    let flags = flags_in;
    if register_size == RegisterSize::Segment && rm >= 6 {
        return Err(VmError::UnknownOpcode(modrm));
    }
    let register = get_register_or_xmm(rm, register_size, flags.new_64bit_register,
        flags.new_8bit_register, flags.op1_xmm);
    match reg_or_opcode {
        RegOrOpcode::Register => {
            if register_size == RegisterSize::Segment && field >= 6 {
                return Err(VmError::UnknownOpcode(modrm));
            }
            let register2 = get_register_or_xmm(field, register_size,
                flags.mod_rm_extension, flags.new_8bit_register, flags.op2_xmm);
            let ops = if flags.reversed {
                Operands {
                    operands: (
                        Some(Operand::Register(register)),
                        Some(Operand::Register(register2)),
                        None,
                    ),
                    opcode: None,
                    explicit_size: None,
                    repeat: Repeat::Once,
                }
            } else {
                Operands {
                    operands: (
                        Some(Operand::Register(register2)),
                        Some(Operand::Register(register)),
                        None,
                    ),
                    opcode: None,
                    explicit_size: None,
                    repeat: Repeat::Once,
                }
            };
            Ok((ops, 2))
        },
        RegOrOpcode::Opcode => {
            match immediate_size {
                ImmediateSize::Bit8 => {
                    let immediate = get_i8(memory, rip, 2)?;
                    let ops = Operands {
                        operands: (
                            Some(Operand::Immediate(immediate as i64)),
                            Some(Operand::Register(register)),
                            None,
                        ),
                        opcode: Some(field),
                        explicit_size: None,
                        repeat: Repeat::Once,
                    };
                    Ok((ops, 3))
                },
                ImmediateSize::Bit32 => {
                    let immediate = get_i32(memory, rip, 2)?;
                    let ops = Operands {
                        operands: (
                            Some(Operand::Immediate(immediate as i64)),
                            Some(Operand::Register(register)),
                            None,
                        ),
                        opcode: Some(field),
                        explicit_size: None,
                        repeat: Repeat::Once,
                    };
                    Ok((ops, 6))
                },
                ImmediateSize::NoImm => {
                    let ops = Operands {
                        operands: (Some(Operand::Register(register)), None, None),
                        opcode: Some(field),
                        explicit_size: None,
                        repeat: Repeat::Once,
                    };
                    Ok((ops, 2))
                },
            }
        },
    }}

/// The flags with the reversed-direction bit set.
pub open spec fn spec_with_reversed(flags: DecFlags) -> DecFlags {
    DecFlags { reversed: true, ..flags }
}

/// The flags with both vector-lane bits set.
pub open spec fn spec_with_xmm_both(flags: DecFlags) -> DecFlags {
    DecFlags { op1_xmm: true, op2_xmm: true, ..flags }
}

/// Package a parsed record as a decoded instruction, advancing the
/// cursor by the record's byte length.
pub open spec fn spec_emit(opcode: Opcode, r: Result<(Operands, i64), VmError>, rip: i64) -> Result<
    (Opcode, Operands, i64),
    VmError,
> {
    match r {
        Ok((ops, ip_offset)) => Ok((opcode, ops, rip.wrapping_add(ip_offset))),
        Err(e) => Err(e),
    }
}

/// Package a record whose helper already advanced the cursor.
pub open spec fn spec_emit2(opcode: Opcode, r: Result<(Operands, i64), VmError>) -> Result<
    (Opcode, Operands, i64),
    VmError,
> {
    match r {
        Ok((ops, new_rip)) => Ok((opcode, ops, new_rip)),
        Err(e) => Err(e),
    }
}

/// One signed displacement byte as a single-operand record; two bytes
/// consumed.
pub open spec fn spec_read_immediate_8bit(mem: MemView, rip: i64) -> Result<
    (Operands, i64),
    VmError,
> {
    match spec_get_i8(mem, rip, 1) {
        Err(e) => Err(e),
        Ok(immediate) => Ok(
            (spec_ops1(Operand::Immediate(immediate as i64)), rip.wrapping_add(2)),
        ),
    }
}

/// An `AL, imm8` pair; two bytes consumed.
pub open spec fn spec_decode_al_immediate(mem: MemView, rip: i64) -> Result<
    (Operands, i64),
    VmError,
> {
    match spec_get_i8(mem, rip, 1) {
        Err(e) => Err(e),
        Ok(immediate) => Ok(
            (
                spec_ops2(
                    Operand::Immediate(immediate as i64),
                    Operand::Register(Register::AL),
                ),
                rip.wrapping_add(2),
            ),
        ),
    }
}

/// An `rAX, imm` pair at the current register width.
pub open spec fn spec_decode_ax_immediate(mem: MemView, rip: i64, register_size:
    RegisterSize, flags: DecFlags) -> Result<(Operands, i64), VmError> {
    let imm_step: Result<(i64, i64), VmError> = if flags.operand_16_bit {
        match spec_get_i16(mem, rip, 1) {
            Err(e) => Err(e),
            Ok(v) => Ok((v as i64, 3)),
        }
    } else {
        match spec_get_i32(mem, rip, 1) {
            Err(e) => Err(e),
            Ok(v) => Ok((v as i64, 5)),
        }
    };
    match imm_step {
        Err(e) => Err(e),
        Ok((immediate, ip_offset)) => {
            let register = spec_get_register(0, register_size, flags.new_64bit_register,
                false);
            Ok(
                (
                    spec_ops2(Operand::Immediate(immediate), Operand::Register(register)),
                    rip.wrapping_add(ip_offset),
                ),
            )
        },
    }
}

/// A two-operand byte-width form built from the ModR/M byte, cursor
/// advanced.
pub open spec fn spec_decode_8bit_reg_8bit_immediate(mem: MemView, rip: i64, flags:
    DecFlags) -> Result<(Operands, i64), VmError> {
    match spec_get_operands(mem, rip, RegisterSize::Bit8, RegOrOpcode::Register,
        ImmediateSize::NoImm, flags) {
        Err(e) => Err(e),
        Ok((ops, ip_offset)) => Ok((ops, rip.wrapping_add(ip_offset))),
    }
}

/// A two-operand form at the current register width, cursor advanced.
pub open spec fn spec_decode_reg_reg(mem: MemView, rip: i64, register_size: RegisterSize,
    flags: DecFlags) -> Result<(Operands, i64), VmError> {
    match spec_get_operands(mem, rip, register_size, RegOrOpcode::Register,
        ImmediateSize::NoImm, flags) {
        Err(e) => Err(e),
        Ok((ops, ip_offset)) => Ok((ops, rip.wrapping_add(ip_offset))),
    }
}

/// The byte target of a conditional set, cursor advanced.
pub open spec fn spec_decode_setcc_operand(mem: MemView, rip: i64, flags: DecFlags) -> Result<
    (Operands, i64),
    VmError,
> {
    match spec_get_operands(mem, rip, RegisterSize::Bit8, RegOrOpcode::Register,
        ImmediateSize::NoImm, flags) {
        Err(e) => Err(e),
        Ok((ops, ip_offset)) => Ok(
            (
                Operands {
                    operands: (ops.operands.1, None, None),
                    opcode: ops.opcode,
                    explicit_size: ops.explicit_size,
                    repeat: ops.repeat,
                },
                rip.wrapping_add(ip_offset),
            ),
        ),
    }
}

/// The record with its first operand re-read at a narrower width.
pub open spec fn spec_override_operand_size(mem: MemView, rip: i64, ops: Operands, size:
    OperandSize, flags: DecFlags) -> Result<Operands, VmError> {
    match ops.operands.0 {
        Some(Operand::Register(..)) => {
            let register_size = match size {
                OperandSize::Bit8 => RegisterSize::Bit8,
                OperandSize::Bit16 => RegisterSize::Bit16,
                OperandSize::Bit32 => RegisterSize::Bit32,
                _ => RegisterSize::Bit64,
            };
            match spec_get_u8(mem, rip, 1) {
                Err(e) => Err(e),
                Ok(modrm) => {
                    let register = spec_get_register(modrm & 0b0000_0111, register_size,
                        flags.new_64bit_register, flags.new_8bit_register);
                    Ok(
                        Operands {
                            operands: (
                                Some(Operand::Register(register)),
                                ops.operands.1,
                                ops.operands.2,
                            ),
                            opcode: ops.opcode,
                            explicit_size: ops.explicit_size,
                            repeat: ops.repeat,
                        },
                    )
                },
            }
        },
        Some(Operand::EffectiveAddress { .. }) => Ok(
            Operands { explicit_size: Some(size), ..ops },
        ),
        _ => Ok(ops),
    }
}

/// Narrow the width the first operand is read at: re-select the
/// register at the smaller width, or record an explicit size for a
/// memory operand.
fn override_operand_size(memory: &Memory, rip: i64, ops: &mut Operands, size: OperandSize,
    flags: &DecFlags) -> (r: Result<(), VmError>)
    requires
        mem_inv(memory@),
        size != OperandSize::Bit128,
        old(ops).operands.0 is Some,
        !(old(ops).operands.0.unwrap() is Immediate),
        old(ops).operands.0.unwrap() is EffectiveAddress ==> operand_readable(
            old(ops).operands.0.unwrap(),
        ),
    ensures
        match r {
            Ok(()) => spec_override_operand_size(memory@, rip, *old(ops), size, *flags)
                == Ok::<Operands, VmError>(*final(ops)),
            Err(e) => spec_override_operand_size(memory@, rip, *old(ops), size, *flags)
                == Err::<Operands, VmError>(e),
        },
        r is Ok ==> {
            &&& final(ops).operands.0 is Some
            &&& match final(ops).operands.0.unwrap() {
                Operand::Register(reg) => spec_register_size(reg) == size
                    && !is_xmm_register(reg) && final(ops).explicit_size == old(
                    ops,
                ).explicit_size,
                Operand::EffectiveAddress { .. } => operand_readable(
                    final(ops).operands.0.unwrap(),
                ) && final(ops).explicit_size == Some(size),
                Operand::Immediate(_) => false,
            }
            &&& final(ops).operands.1 == old(ops).operands.1
            &&& final(ops).operands.2 == old(ops).operands.2
            &&& final(ops).opcode == old(ops).opcode
            &&& final(ops).repeat == old(ops).repeat
        },
{
    match ops.operands.0 {
        Some(Operand::Register(..)) => {
            let register_size = match size {
                OperandSize::Bit8 => RegisterSize::Bit8,
                OperandSize::Bit16 => RegisterSize::Bit16,
                OperandSize::Bit32 => RegisterSize::Bit32,
                OperandSize::Bit64 => RegisterSize::Bit64,
                OperandSize::Bit128 => unreached(),
            };
            let modrm = get_u8(memory, rip, 1)?;
            let register_num = modrm & 0b0000_0111;
            proof {
                assert(register_num < 8) by (bit_vector)
                    requires register_num == modrm & 0b0000_0111,
                ;
            }
            let register = get_register(register_num, register_size,
                flags.new_64bit_register, flags.new_8bit_register);
            ops.operands.0 = Some(Operand::Register(register));
            Ok(())
        },
        Some(Operand::EffectiveAddress { .. }) => {
            ops.explicit_size = Some(size);
            Ok(())
        },
        _ => unreached(),
    }
}

/// One signed displacement byte as a single-operand record, consuming
/// two bytes.
fn read_immediate_8bit(memory: &Memory, rip: &mut i64) -> (r: Result<Operands, VmError>)
    requires
        mem_inv(memory@),
    ensures
        match r {
            Ok(ops) => spec_read_immediate_8bit(memory@, *old(rip)) == Ok::<
                (Operands, i64),
                VmError,
            >((ops, *final(rip))),
            Err(e) => spec_read_immediate_8bit(memory@, *old(rip)) == Err::<
                (Operands, i64),
                VmError,
            >(e),
        },
        match r {
            Ok(ops) => {
                &&& ops.operands.0 is Some
                &&& ops.operands.0.unwrap() is Immediate
                &&& ops.operands.1 is None
                &&& ops.operands.2 is None
                &&& ops.opcode is None
                &&& ops.explicit_size is None
                &&& ops.repeat == Repeat::Once
            },
            Err(_) => true,
        },
{
    let immediate = get_i8(memory, *rip, 1)?;
    advance(rip, 2);
    Ok(ops1(Operand::Immediate(immediate as i64)))
}

/// A two-operand byte-width form built from the ModR/M byte.
fn decode_8bit_reg_8bit_immediate(memory: &Memory, rip: &mut i64, flags: DecFlags) -> (r: Result<
    Operands,
    VmError,
>)
    requires
        mem_inv(memory@),
        !flags.op1_xmm && !flags.op2_xmm,
    ensures
        match r {
            Ok(ops) => spec_decode_8bit_reg_8bit_immediate(memory@, *old(rip), flags) == Ok::<
                (Operands, i64),
                VmError,
            >((ops, *final(rip))),
            Err(e) => spec_decode_8bit_reg_8bit_immediate(memory@, *old(rip), flags) == Err::<
                (Operands, i64),
                VmError,
            >(e),
        },
        r is Ok ==> shape_two(r.unwrap(), RegisterSize::Bit8),
{
    let (ops, ip_offset) = get_operands(memory, *rip, RegisterSize::Bit8,
        RegOrOpcode::Register, ImmediateSize::NoImm, flags)?;
    advance(rip, ip_offset);
    Ok(ops)
}

/// A two-operand form at the current register width built from the
/// ModR/M byte.
fn decode_reg_reg(memory: &Memory, rip: &mut i64, register_size: RegisterSize, flags:
    DecFlags) -> (r: Result<Operands, VmError>)
    requires
        mem_inv(memory@),
        !flags.op1_xmm && !flags.op2_xmm,
    ensures
        match r {
            Ok(ops) => spec_decode_reg_reg(memory@, *old(rip), register_size, flags) == Ok::<
                (Operands, i64),
                VmError,
            >((ops, *final(rip))),
            Err(e) => spec_decode_reg_reg(memory@, *old(rip), register_size, flags) == Err::<
                (Operands, i64),
                VmError,
            >(e),
        },
        r is Ok ==> shape_two(r.unwrap(), register_size),
{
    let (ops, ip_offset) = get_operands(memory, *rip, register_size, RegOrOpcode::Register,
        ImmediateSize::NoImm, flags)?;
    advance(rip, ip_offset);
    Ok(ops)
}

/// An `AL, imm8` pair.
fn decode_al_immediate(memory: &Memory, rip: &mut i64) -> (r: Result<Operands, VmError>)
    requires
        mem_inv(memory@),
    ensures
        match r {
            Ok(ops) => spec_decode_al_immediate(memory@, *old(rip)) == Ok::<
                (Operands, i64),
                VmError,
            >((ops, *final(rip))),
            Err(e) => spec_decode_al_immediate(memory@, *old(rip)) == Err::<
                (Operands, i64),
                VmError,
            >(e),
        },
        match r {
            Ok(ops) => {
                &&& ops.operands.0 is Some
                &&& ops.operands.0.unwrap() is Immediate
                &&& ops.operands.1 == Some(Operand::Register(Register::AL))
                &&& ops.operands.2 is None
                &&& ops.opcode is None
                &&& ops.explicit_size is None
                &&& ops.repeat == Repeat::Once
            },
            Err(_) => true,
        },
{
    let immediate = get_i8(memory, *rip, 1)?;
    let ops = ops2(Operand::Immediate(immediate as i64), Operand::Register(Register::AL));
    advance(rip, 2);
    Ok(ops)
}

/// An `rAX, imm` pair at the current register width.
fn decode_ax_immediate(memory: &Memory, rip: &mut i64, register_size: RegisterSize, flags:
    DecFlags) -> (r: Result<Operands, VmError>)
    requires
        mem_inv(memory@),
        register_size != RegisterSize::Bit128,
        register_size != RegisterSize::Segment,
    ensures
        match r {
            Ok(ops) => spec_decode_ax_immediate(memory@, *old(rip), register_size, flags)
                == Ok::<(Operands, i64), VmError>((ops, *final(rip))),
            Err(e) => spec_decode_ax_immediate(memory@, *old(rip), register_size, flags)
                == Err::<(Operands, i64), VmError>(e),
        },
        match r {
            Ok(ops) => {
                &&& ops.operands.0 is Some
                &&& ops.operands.0.unwrap() is Immediate
                &&& ops.operands.1 is Some
                &&& ops.operands.1.unwrap() is Register
                &&& slot_ok(ops.operands.1.unwrap(), register_size)
                &&& ops.operands.2 is None
                &&& ops.opcode is None
                &&& ops.explicit_size is None
                &&& ops.repeat == Repeat::Once
            },
            Err(_) => true,
        },
{
    let (immediate, ip_offset): (i64, i64) = if flags.operand_16_bit {
        (get_i16(memory, *rip, 1)? as i64, 3)
    } else {
        (get_i32(memory, *rip, 1)? as i64, 5)
    };
    let register = get_register(0, register_size, flags.new_64bit_register, false);
    let ops = ops2(Operand::Immediate(immediate), Operand::Register(register));
    advance(rip, ip_offset);
    Ok(ops)
}

/// Which bytes the prefix loop consumes.
pub open spec fn spec_is_prefix(byte: u8) -> bool {
    ||| byte == 0xF0
    ||| byte == 0xF2
    ||| byte == 0xF3
    ||| byte == 0x2E
    ||| byte == 0x3E
    ||| byte == 0x36
    ||| byte == 0x26
    ||| byte == 0x64
    ||| byte == 0x65
    ||| byte == 0x66
    ||| byte == 0x67
    ||| (0x40 <= byte <= 0x4F)
}

/// What one prefix byte does to the decoder flags.
pub open spec fn spec_apply_prefix(flags: DecFlags, byte: u8) -> DecFlags {
    if byte == 0x66 {
        DecFlags { operand_16_bit: true, ..flags }
    } else if byte == 0x67 {
        DecFlags { address_size_override: true, ..flags }
    } else if 0x40 <= byte <= 0x4F {
        DecFlags {
            new_64bit_register: if byte & 0x1 != 0 {
                true
            } else {
                flags.new_64bit_register
            },
            mod_rm_extension: if byte & 0x4 != 0 {
                true
            } else {
                flags.mod_rm_extension
            },
            sib_extension: if byte & 0x2 != 0 {
                true
            } else {
                flags.sib_extension
            },
            operand_64_bit: if byte & 0x8 != 0 {
                true
            } else {
                flags.operand_64_bit
            },
            new_8bit_register: true,
            ..flags
        }
    } else {
        flags
    }
}

/// What one prefix byte does to the repeat kind.
pub open spec fn spec_apply_repeat(repeat: Repeat, byte: u8) -> Repeat {
    if byte == 0xF2 {
        Repeat::NotEqual
    } else if byte == 0xF3 {
        Repeat::Equal
    } else {
        repeat
    }
}

/// The prefix loop: consume prefix bytes, folding them into the flags
/// and the repeat kind, stopping at the first non-prefix byte. The
/// fuel is the fifteen-byte instruction length bound.
pub open spec fn spec_prefixes(mem: MemView, rip: i64, flags: DecFlags, repeat: Repeat,
    fuel: u64) -> Result<(i64, DecFlags, Repeat), VmError>
    decreases fuel,
{
    match spec_get_u8(mem, rip, 0) {
        Err(e) => Err(e),
        Ok(byte) => {
            if !spec_is_prefix(byte) {
                Ok((rip, flags, repeat))
            } else if fuel == 0 {
                Err(VmError::UnknownOpcode(byte))
            } else {
                spec_prefixes(
                    mem,
                    rip.wrapping_add(1),
                    spec_apply_prefix(flags, byte),
                    spec_apply_repeat(repeat, byte),
                    (fuel - 1) as u64,
                )
            }
        },
    }
}

/// The register width the prefixes select.
pub open spec fn spec_register_width(flags: DecFlags) -> RegisterSize {
    if flags.operand_64_bit {
        RegisterSize::Bit64
    } else if flags.operand_16_bit {
        RegisterSize::Bit16
    } else {
        RegisterSize::Bit32
    }
}

/// What decoding one instruction at a cursor yields: the operation,
/// its operand record, and the cursor moved past every byte of the
/// instruction. This is the function the executable decoder is held
/// to.
pub open spec fn spec_decode(mem: MemView, rip: i64) -> Result<(Opcode, Operands, i64), VmError> {
    match spec_prefixes(mem, rip, spec_flags_none(), Repeat::Once, 15) {
        Err(e) => Err(e),
        Ok((rip1, flags, repeat)) => {
            let register_size = spec_register_width(flags);
            match spec_get_u8(mem, rip1, 0) {
                Err(e) => Err(e),
                Ok(byte) => if byte == 0x0F {
                    spec_decode_two_byte(mem, rip1.wrapping_add(1), register_size, flags)
                } else if byte < 0x40 {
                    spec_decode_arith_family(mem, rip1, byte, register_size, flags)
                } else {
                    spec_decode_one_byte(mem, rip1, byte, register_size, flags, repeat)
                },
            }
        },
    }
}

/// The dense two-operand arithmetic family of the one-byte table.
pub open spec fn spec_decode_arith_family(mem: MemView, rip: i64, opcode_byte: u8,
    register_size: RegisterSize, flags: DecFlags) -> Result<(Opcode, Operands, i64), VmError> {
    match opcode_byte {
        0x00 => spec_emit2(Opcode::Add, spec_decode_8bit_reg_8bit_immediate(mem, rip, flags)),
        0x01 => spec_emit2(Opcode::Add, spec_decode_reg_reg(mem, rip, register_size, flags)),
        0x02 => spec_emit2(Opcode::Add, spec_decode_8bit_reg_8bit_immediate(mem, rip, spec_with_reversed(flags))),
        0x03 => spec_emit2(Opcode::Add, spec_decode_reg_reg(mem, rip, register_size, spec_with_reversed(flags))),
        0x04 => spec_emit2(Opcode::Add, spec_decode_al_immediate(mem, rip)),
        0x05 => spec_emit2(Opcode::Add, spec_decode_ax_immediate(mem, rip, register_size, flags)),
        0x08 => spec_emit2(Opcode::Or, spec_decode_8bit_reg_8bit_immediate(mem, rip, flags)),
        0x09 => spec_emit2(Opcode::Or, spec_decode_reg_reg(mem, rip, register_size, flags)),
        0x0A => spec_emit2(Opcode::Or, spec_decode_8bit_reg_8bit_immediate(mem, rip, spec_with_reversed(flags))),
        0x0B => spec_emit2(Opcode::Or, spec_decode_reg_reg(mem, rip, register_size, spec_with_reversed(flags))),
        0x0C => spec_emit2(Opcode::Or, spec_decode_al_immediate(mem, rip)),
        0x0D => spec_emit2(Opcode::Or, spec_decode_ax_immediate(mem, rip, register_size, flags)),
        0x10 => spec_emit2(Opcode::Adc, spec_decode_8bit_reg_8bit_immediate(mem, rip, flags)),
        0x11 => spec_emit2(Opcode::Adc, spec_decode_reg_reg(mem, rip, register_size, flags)),
        0x12 => spec_emit2(Opcode::Adc, spec_decode_8bit_reg_8bit_immediate(mem, rip, spec_with_reversed(flags))),
        0x13 => spec_emit2(Opcode::Adc, spec_decode_reg_reg(mem, rip, register_size, spec_with_reversed(flags))),
        0x14 => spec_emit2(Opcode::Adc, spec_decode_al_immediate(mem, rip)),
        0x15 => spec_emit2(Opcode::Adc, spec_decode_ax_immediate(mem, rip, register_size, flags)),
        0x18 => spec_emit2(Opcode::Sbb, spec_decode_8bit_reg_8bit_immediate(mem, rip, flags)),
        0x19 => spec_emit2(Opcode::Sbb, spec_decode_reg_reg(mem, rip, register_size, flags)),
        0x1A => spec_emit2(Opcode::Sbb, spec_decode_8bit_reg_8bit_immediate(mem, rip, spec_with_reversed(flags))),
        0x1B => spec_emit2(Opcode::Sbb, spec_decode_reg_reg(mem, rip, register_size, spec_with_reversed(flags))),
        0x1C => spec_emit2(Opcode::Sbb, spec_decode_al_immediate(mem, rip)),
        0x1D => spec_emit2(Opcode::Sbb, spec_decode_ax_immediate(mem, rip, register_size, flags)),
        0x20 => spec_emit2(Opcode::And, spec_decode_8bit_reg_8bit_immediate(mem, rip, flags)),
        0x21 => spec_emit2(Opcode::And, spec_decode_reg_reg(mem, rip, register_size, flags)),
        0x22 => spec_emit2(Opcode::And, spec_decode_8bit_reg_8bit_immediate(mem, rip, spec_with_reversed(flags))),
        0x23 => spec_emit2(Opcode::And, spec_decode_reg_reg(mem, rip, register_size, spec_with_reversed(flags))),
        0x24 => spec_emit2(Opcode::And, spec_decode_al_immediate(mem, rip)),
        0x25 => spec_emit2(Opcode::And, spec_decode_ax_immediate(mem, rip, register_size, flags)),
        0x28 => spec_emit2(Opcode::Sub, spec_decode_8bit_reg_8bit_immediate(mem, rip, flags)),
        0x29 => spec_emit2(Opcode::Sub, spec_decode_reg_reg(mem, rip, register_size, flags)),
        0x2A => spec_emit2(Opcode::Sub, spec_decode_8bit_reg_8bit_immediate(mem, rip, spec_with_reversed(flags))),
        0x2B => spec_emit2(Opcode::Sub, spec_decode_reg_reg(mem, rip, register_size, spec_with_reversed(flags))),
        0x2C => spec_emit2(Opcode::Sub, spec_decode_al_immediate(mem, rip)),
        0x2D => spec_emit2(Opcode::Sub, spec_decode_ax_immediate(mem, rip, register_size, flags)),
        0x30 => spec_emit2(Opcode::Xor, spec_decode_8bit_reg_8bit_immediate(mem, rip, flags)),
        0x31 => spec_emit2(Opcode::Xor, spec_decode_reg_reg(mem, rip, register_size, flags)),
        0x32 => spec_emit2(Opcode::Xor, spec_decode_8bit_reg_8bit_immediate(mem, rip, spec_with_reversed(flags))),
        0x33 => spec_emit2(Opcode::Xor, spec_decode_reg_reg(mem, rip, register_size, spec_with_reversed(flags))),
        0x34 => spec_emit2(Opcode::Xor, spec_decode_al_immediate(mem, rip)),
        0x35 => spec_emit2(Opcode::Xor, spec_decode_ax_immediate(mem, rip, register_size, flags)),
        0x38 => spec_emit2(Opcode::Cmp, spec_decode_8bit_reg_8bit_immediate(mem, rip, flags)),
        0x39 => spec_emit2(Opcode::Cmp, spec_decode_reg_reg(mem, rip, register_size, flags)),
        0x3A => spec_emit2(Opcode::Cmp, spec_decode_8bit_reg_8bit_immediate(mem, rip, spec_with_reversed(flags))),
        0x3B => spec_emit2(Opcode::Cmp, spec_decode_reg_reg(mem, rip, register_size, spec_with_reversed(flags))),
        0x3C => spec_emit2(Opcode::Cmp, spec_decode_al_immediate(mem, rip)),
        0x3D => spec_emit2(Opcode::Cmp, spec_decode_ax_immediate(mem, rip, register_size, flags)),
        _ => Err(VmError::UnknownOpcode(opcode_byte)),
    }
}

/// The lower rest of the one-byte table.
pub open spec fn spec_decode_one_byte(mem: MemView, rip: i64, opcode_byte: u8,
    register_size: RegisterSize, flags: DecFlags, repeat: Repeat) -> Result<
    (Opcode, Operands, i64),
    VmError,
> {
    if 0x50 <= opcode_byte <= 0x57 {
        Ok(
            (
                Opcode::Push,
                spec_ops1(
                    Operand::Register(
                        spec_get_register((opcode_byte - 0x50) as u8, RegisterSize::Bit64,
                            flags.new_64bit_register, flags.new_8bit_register),
                    ),
                ),
                rip.wrapping_add(1),
            ),
        )
    } else if 0x58 <= opcode_byte <= 0x5F {
        Ok(
            (
                Opcode::Pop,
                spec_ops1(
                    Operand::Register(
                        spec_get_register((opcode_byte - 0x58) as u8, RegisterSize::Bit64,
                            flags.new_64bit_register, flags.new_8bit_register),
                    ),
                ),
                rip.wrapping_add(1),
            ),
        )
    } else if opcode_byte == 0x63 {
        match spec_get_operands(mem, rip, register_size, RegOrOpcode::Register,
            ImmediateSize::NoImm, spec_with_reversed(flags)) {
            Err(e) => Err(e),
            Ok((ops_in, ip_offset)) => match spec_override_operand_size(mem, rip, ops_in,
                OperandSize::Bit32, flags) {
                Err(e) => Err(e),
                Ok(ops) => Ok((Opcode::Movsx, ops, rip.wrapping_add(ip_offset))),
            },
        }
    } else if opcode_byte == 0x68 {
        if flags.operand_16_bit {
            match spec_get_i16(mem, rip, 1) {
                Err(e) => Err(e),
                Ok(v) => Ok(
                    (
                        Opcode::Push,
                        spec_ops1(Operand::Immediate(v as i64)),
                        rip.wrapping_add(3),
                    ),
                ),
            }
        } else {
            match spec_get_i32(mem, rip, 1) {
                Err(e) => Err(e),
                Ok(v) => Ok(
                    (
                        Opcode::Push,
                        spec_ops1(Operand::Immediate(v as i64)),
                        rip.wrapping_add(5),
                    ),
                ),
            }
        }
    } else if opcode_byte == 0x69 {
        match spec_get_operands(mem, rip, register_size, RegOrOpcode::Register,
            ImmediateSize::NoImm, spec_with_reversed(flags)) {
            Err(e) => Err(e),
            Ok((ops_in, ip_offset)) => {
                let rip1 = rip.wrapping_add(ip_offset);
                let imm_step: Result<(i64, i64), VmError> = if flags.operand_16_bit {
                    match spec_get_i16(mem, rip1, 0) {
                        Err(e) => Err(e),
                        Ok(v) => Ok((v as i64, rip1.wrapping_add(2))),
                    }
                } else {
                    match spec_get_i32(mem, rip1, 0) {
                        Err(e) => Err(e),
                        Ok(v) => Ok((v as i64, rip1.wrapping_add(4))),
                    }
                };
                match imm_step {
                    Err(e) => Err(e),
                    Ok((immediate, rip2)) => Ok(
                        (
                            Opcode::Imul,
                            Operands {
                                operands: (
                                    Some(Operand::Immediate(immediate)),
                                    ops_in.operands.0,
                                    ops_in.operands.1,
                                ),
                                opcode: None,
                                explicit_size: None,
                                repeat: Repeat::Once,
                            },
                            rip2,
                        ),
                    ),
                }
            },
        }
    } else if opcode_byte == 0x6A {
        spec_emit2(Opcode::Push, spec_read_immediate_8bit(mem, rip))
    } else if opcode_byte == 0x6B {
        match spec_get_operands(mem, rip, register_size, RegOrOpcode::Register,
            ImmediateSize::NoImm, spec_with_reversed(flags)) {
            Err(e) => Err(e),
            Ok((ops_in, ip_offset)) => {
                let rip1 = rip.wrapping_add(ip_offset);
                match spec_get_i8(mem, rip1, 0) {
                    Err(e) => Err(e),
                    Ok(v) => Ok(
                        (
                            Opcode::Imul,
                            Operands {
                                operands: (
                                    Some(Operand::Immediate(v as i64)),
                                    ops_in.operands.0,
                                    ops_in.operands.1,
                                ),
                                opcode: None,
                                explicit_size: None,
                                repeat: Repeat::Once,
                            },
                            rip1.wrapping_add(1),
                        ),
                    ),
                }
            },
        }
    } else {
        match opcode_byte {
        0x70 => spec_emit2(Opcode::Jo, spec_read_immediate_8bit(mem, rip)),
        0x71 => spec_emit2(Opcode::Jno, spec_read_immediate_8bit(mem, rip)),
        0x72 => spec_emit2(Opcode::Jb, spec_read_immediate_8bit(mem, rip)),
        0x73 => spec_emit2(Opcode::Jae, spec_read_immediate_8bit(mem, rip)),
        0x74 => spec_emit2(Opcode::Je, spec_read_immediate_8bit(mem, rip)),
        0x75 => spec_emit2(Opcode::Jne, spec_read_immediate_8bit(mem, rip)),
        0x76 => spec_emit2(Opcode::Jbe, spec_read_immediate_8bit(mem, rip)),
        0x77 => spec_emit2(Opcode::Ja, spec_read_immediate_8bit(mem, rip)),
        0x78 => spec_emit2(Opcode::Js, spec_read_immediate_8bit(mem, rip)),
        0x79 => spec_emit2(Opcode::Jns, spec_read_immediate_8bit(mem, rip)),
        0x7a => spec_emit2(Opcode::Jp, spec_read_immediate_8bit(mem, rip)),
        0x7b => spec_emit2(Opcode::Jnp, spec_read_immediate_8bit(mem, rip)),
        0x7c => spec_emit2(Opcode::Jl, spec_read_immediate_8bit(mem, rip)),
        0x7d => spec_emit2(Opcode::Jge, spec_read_immediate_8bit(mem, rip)),
        0x7e => spec_emit2(Opcode::Jle, spec_read_immediate_8bit(mem, rip)),
        0x7f => spec_emit2(Opcode::Jg, spec_read_immediate_8bit(mem, rip)),
            _ => spec_decode_one_byte_modrm(mem, rip, opcode_byte, register_size, flags,
                repeat),
        }
    }
}

/// The ModR/M block of the one-byte table.
pub open spec fn spec_decode_one_byte_modrm(mem: MemView, rip: i64, opcode_byte: u8,
    register_size: RegisterSize, flags: DecFlags, repeat: Repeat) -> Result<
    (Opcode, Operands, i64),
    VmError,
> {
    match opcode_byte {
        0x80 => spec_emit(Opcode::Arithmetic, spec_get_operands(mem, rip,
            RegisterSize::Bit8, RegOrOpcode::Opcode, ImmediateSize::Bit8, flags), rip),
        0x81 => spec_emit(Opcode::Arithmetic, spec_get_operands(mem, rip, register_size,
            RegOrOpcode::Opcode, ImmediateSize::Bit32, flags), rip),
        0x83 => spec_emit(Opcode::Arithmetic, spec_get_operands(mem, rip, register_size,
            RegOrOpcode::Opcode, ImmediateSize::Bit8, flags), rip),
        0x84 => spec_emit(Opcode::Test, spec_get_operands(mem, rip, RegisterSize::Bit8,
            RegOrOpcode::Register, ImmediateSize::NoImm, flags), rip),
        0x85 => spec_emit(Opcode::Test, spec_get_operands(mem, rip, register_size,
            RegOrOpcode::Register, ImmediateSize::NoImm, flags), rip),
        0x86 => spec_emit(Opcode::Xchg, spec_get_operands(mem, rip, RegisterSize::Bit8,
            RegOrOpcode::Register, ImmediateSize::NoImm, flags), rip),
        0x87 => spec_emit(Opcode::Xchg, spec_get_operands(mem, rip, register_size,
            RegOrOpcode::Register, ImmediateSize::NoImm, flags), rip),
        _ => spec_decode_one_byte_modrm_mov(mem, rip, opcode_byte, register_size, flags,
            repeat),
    }
}

/// The move/LEA/POP block of the one-byte table.
pub open spec fn spec_decode_one_byte_modrm_mov(mem: MemView, rip: i64, opcode_byte: u8,
    register_size: RegisterSize, flags: DecFlags, repeat: Repeat) -> Result<
    (Opcode, Operands, i64),
    VmError,
> {
    match opcode_byte {
        0x88 => spec_emit(Opcode::Mov, spec_get_operands(mem, rip, RegisterSize::Bit8,
            RegOrOpcode::Register, ImmediateSize::NoImm, flags), rip),
        0x89 => spec_emit(Opcode::Mov, spec_get_operands(mem, rip, register_size,
            RegOrOpcode::Register, ImmediateSize::NoImm, flags), rip),
        0x8A => spec_emit(Opcode::Mov, spec_get_operands(mem, rip, RegisterSize::Bit8,
            RegOrOpcode::Register, ImmediateSize::NoImm, spec_with_reversed(flags)), rip),
        0x8B => spec_emit(Opcode::Mov, spec_get_operands(mem, rip, register_size,
            RegOrOpcode::Register, ImmediateSize::NoImm, spec_with_reversed(flags)), rip),
        0x8D => match spec_get_operands(mem, rip, register_size, RegOrOpcode::Register,
            ImmediateSize::NoImm, spec_with_reversed(flags)) {
            Err(e) => Err(e),
            Ok((ops, ip_offset)) => match ops.operands.0 {
                Some(Operand::EffectiveAddress { .. }) => Ok(
                    (Opcode::Lea, ops, rip.wrapping_add(ip_offset)),
                ),
                _ => Err(VmError::UnknownOpcode(opcode_byte)),
            },
        },
        0x8E => spec_emit(Opcode::Mov, spec_get_operands(mem, rip, RegisterSize::Segment,
            RegOrOpcode::Register, ImmediateSize::NoImm, spec_with_reversed(flags)), rip),
        0x8F => match spec_get_operands(mem, rip, register_size, RegOrOpcode::Register,
            ImmediateSize::NoImm, spec_with_reversed(flags)) {
            Err(e) => Err(e),
            Ok((ops_in, ip_offset)) => Ok(
                (
                    Opcode::Pop,
                    Operands {
                        operands: (ops_in.operands.0, None, ops_in.operands.2),
                        opcode: ops_in.opcode,
                        explicit_size: ops_in.explicit_size,
                        repeat: ops_in.repeat,
                    },
                    rip.wrapping_add(ip_offset),
                ),
            ),
        },
        _ => spec_decode_one_byte_mid(mem, rip, opcode_byte, register_size, flags, repeat),
    }
}

/// The middle of the one-byte table.
pub open spec fn spec_decode_one_byte_mid(mem: MemView, rip: i64, opcode_byte: u8,
    register_size: RegisterSize, flags: DecFlags, repeat: Repeat) -> Result<
    (Opcode, Operands, i64),
    VmError,
> {
    if opcode_byte == 0x90 {
        Ok((Opcode::Nop, spec_ops0(), rip.wrapping_add(1)))
    } else if 0x91 <= opcode_byte <= 0x97 {
        let register1 = spec_get_register(0, register_size, flags.new_64bit_register,
            flags.new_8bit_register);
        let register2 = spec_get_register((opcode_byte - 0x90) as u8, register_size,
            flags.new_64bit_register, flags.new_8bit_register);
        Ok(
            (
                Opcode::Xchg,
                spec_ops2(Operand::Register(register1), Operand::Register(register2)),
                rip.wrapping_add(1),
            ),
        )
    } else if opcode_byte == 0x98 {
        let pair = if flags.operand_16_bit {
            (Register::AL, Register::AX)
        } else if flags.operand_64_bit {
            (Register::EAX, Register::RAX)
        } else {
            (Register::AX, Register::EAX)
        };
        Ok(
            (
                Opcode::Mov,
                spec_ops2(Operand::Register(pair.0), Operand::Register(pair.1)),
                rip.wrapping_add(1),
            ),
        )
    } else if opcode_byte == 0x99 {
        let pair = if flags.operand_16_bit {
            (Register::AX, Register::DX)
        } else if flags.operand_64_bit {
            (Register::RAX, Register::RDX)
        } else {
            (Register::EAX, Register::EDX)
        };
        Ok(
            (
                Opcode::Mov,
                spec_ops2(Operand::Register(pair.0), Operand::Register(pair.1)),
                rip.wrapping_add(1),
            ),
        )
    } else if opcode_byte == 0x9C {
        Ok((Opcode::Pushf, spec_ops0(), rip.wrapping_add(1)))
    } else if opcode_byte == 0x9D {
        Ok((Opcode::Popf, spec_ops0(), rip.wrapping_add(1)))
    } else if opcode_byte == 0xA4 {
        Ok(
            (
                Opcode::Movs,
                Operands {
                    operands: (None, None, None),
                    opcode: None,
                    explicit_size: Some(OperandSize::Bit8),
                    repeat,
                },
                rip.wrapping_add(1),
            ),
        )
    } else if opcode_byte == 0xA5 {
        let operand_size = if flags.operand_16_bit {
            OperandSize::Bit16
        } else if flags.operand_64_bit {
            OperandSize::Bit64
        } else {
            OperandSize::Bit32
        };
        Ok(
            (
                Opcode::Movs,
                Operands {
                    operands: (None, None, None),
                    opcode: None,
                    explicit_size: Some(operand_size),
                    repeat,
                },
                rip.wrapping_add(1),
            ),
        )
    } else if opcode_byte == 0xA8 {
        spec_emit2(Opcode::Test, spec_decode_al_immediate(mem, rip))
    } else if opcode_byte == 0xA9 {
        spec_emit2(Opcode::Test, spec_decode_ax_immediate(mem, rip, register_size, flags))
    } else if opcode_byte == 0xAA {
        Ok(
            (
                Opcode::Stos,
                Operands {
                    operands: (None, None, None),
                    opcode: None,
                    explicit_size: Some(OperandSize::Bit8),
                    repeat,
                },
                rip.wrapping_add(1),
            ),
        )
    } else if opcode_byte == 0xAB {
        Ok(
            (
                Opcode::Stos,
                Operands {
                    operands: (None, None, None),
                    opcode: None,
                    explicit_size: Some(rs_size(register_size)),
                    repeat,
                },
                rip.wrapping_add(1),
            ),
        )
    } else if opcode_byte == 0xAE {
        Ok(
            (
                Opcode::Scas,
                Operands {
                    operands: (
                        Some(
                            Operand::EffectiveAddress {
                                base: Some(Register::RDI),
                                index: None,
                                scale: None,
                                displacement: 0,
                            },
                        ),
                        Some(Operand::Register(Register::AL)),
                        None,
                    ),
                    opcode: None,
                    explicit_size: None,
                    repeat,
                },
                rip.wrapping_add(1),
            ),
        )
    } else if 0xB0 <= opcode_byte <= 0xB7 {
        match spec_get_u8(mem, rip, 1) {
            Err(e) => Err(e),
            Ok(immediate) => Ok(
                (
                    Opcode::Mov,
                    spec_ops2(
                        Operand::Immediate(immediate as i64),
                        Operand::Register(
                            spec_get_register((opcode_byte - 0xB0) as u8,
                                RegisterSize::Bit8, flags.new_64bit_register,
                                flags.new_8bit_register),
                        ),
                    ),
                    rip.wrapping_add(2),
                ),
            ),
        }
    } else if 0xB8 <= opcode_byte <= 0xBF {
        let imm_step: Result<(i64, i64), VmError> = if flags.operand_64_bit {
            match spec_get_i64(mem, rip, 1) {
                Err(e) => Err(e),
                Ok(v) => Ok((v, 9)),
            }
        } else if flags.operand_16_bit {
            match spec_get_i16(mem, rip, 1) {
                Err(e) => Err(e),
                Ok(v) => Ok((v as i64, 3)),
            }
        } else {
            match spec_get_i32(mem, rip, 1) {
                Err(e) => Err(e),
                Ok(v) => Ok((v as i64, 5)),
            }
        };
        match imm_step {
            Err(e) => Err(e),
            Ok((immediate, ip_offset)) => Ok(
                (
                    Opcode::Mov,
                    spec_ops2(
                        Operand::Immediate(immediate),
                        Operand::Register(
                            spec_get_register((opcode_byte - 0xB8) as u8, register_size,
                                flags.new_64bit_register, flags.new_8bit_register),
                        ),
                    ),
                    rip.wrapping_add(ip_offset),
                ),
            ),
        }
    } else {
        spec_decode_one_byte_high(mem, rip, opcode_byte, register_size, flags)
    }
}

/// The top quarter of the one-byte table.
pub open spec fn spec_decode_one_byte_high(mem: MemView, rip: i64, opcode_byte: u8,
    register_size: RegisterSize, flags: DecFlags) -> Result<(Opcode, Operands, i64), VmError> {
    match opcode_byte {
        0xC0 => spec_emit(Opcode::ShiftRotate, spec_get_operands(mem, rip,
            RegisterSize::Bit8, RegOrOpcode::Opcode, ImmediateSize::Bit8, flags), rip),
        0xC1 => spec_emit(Opcode::ShiftRotate, spec_get_operands(mem, rip, register_size,
            RegOrOpcode::Opcode, ImmediateSize::Bit8, flags), rip),
        0xC3 => Ok((Opcode::Ret, spec_ops0(), rip.wrapping_add(1))),
        0xC6 => spec_emit(Opcode::Mov, spec_get_operands(mem, rip, RegisterSize::Bit8,
            RegOrOpcode::Opcode, ImmediateSize::Bit8, flags), rip),
        0xC7 => spec_emit(Opcode::Mov, spec_get_operands(mem, rip, register_size,
            RegOrOpcode::Opcode, ImmediateSize::Bit32, flags), rip),
        0xC9 => Ok((Opcode::Leave, spec_ops0(), rip.wrapping_add(1))),
        0xCB => Ok((Opcode::Lret, spec_ops0(), rip.wrapping_add(1))),
        0xCC => Err(VmError::IntThree),
        0xCD => Ok((Opcode::Int, spec_ops0(), rip.wrapping_add(1))),
        0xD1 => match spec_get_operands(mem, rip, register_size, RegOrOpcode::Opcode,
            ImmediateSize::NoImm, flags) {
            Err(e) => Err(e),
            Ok((ops_in, ip_offset)) => Ok(
                (
                    Opcode::ShiftRotate,
                    Operands {
                        operands: (Some(Operand::Immediate(1)), ops_in.operands.0, None),
                        opcode: ops_in.opcode,
                        explicit_size: ops_in.explicit_size,
                        repeat: Repeat::Once,
                    },
                    rip.wrapping_add(ip_offset),
                ),
            ),
        },
        0xD2 => match spec_get_operands(mem, rip, RegisterSize::Bit8, RegOrOpcode::Opcode,
            ImmediateSize::NoImm, flags) {
            Err(e) => Err(e),
            Ok((ops_in, ip_offset)) => Ok(
                (
                    Opcode::ShiftRotate,
                    Operands {
                        operands: (
                            Some(Operand::Register(Register::CL)),
                            ops_in.operands.0,
                            None,
                        ),
                        opcode: ops_in.opcode,
                        explicit_size: ops_in.explicit_size,
                        repeat: Repeat::Once,
                    },
                    rip.wrapping_add(ip_offset),
                ),
            ),
        },
        0xD3 => match spec_get_operands(mem, rip, register_size, RegOrOpcode::Opcode,
            ImmediateSize::NoImm, flags) {
            Err(e) => Err(e),
            Ok((ops_in, ip_offset)) => Ok(
                (
                    Opcode::ShiftRotate,
                    Operands {
                        operands: (
                            Some(Operand::Register(Register::CL)),
                            ops_in.operands.0,
                            None,
                        ),
                        opcode: ops_in.opcode,
                        explicit_size: Some(ops_in.spec_size()),
                        repeat: Repeat::Once,
                    },
                    rip.wrapping_add(ip_offset),
                ),
            ),
        },
        _ => spec_decode_one_byte_top(mem, rip, opcode_byte, register_size, flags),
    }
}

/// The top of the one-byte table.
pub open spec fn spec_decode_one_byte_top(mem: MemView, rip: i64, opcode_byte: u8,
    register_size: RegisterSize, flags: DecFlags) -> Result<(Opcode, Operands, i64), VmError> {
    match opcode_byte {
        0xE8 => match spec_get_i32(mem, rip, 1) {
            Err(e) => Err(e),
            Ok(immediate) => Ok(
                (
                    Opcode::Call,
                    spec_ops1(Operand::Immediate(immediate as i64)),
                    rip.wrapping_add(5),
                ),
            ),
        },
        0xE9 => match spec_get_i32(mem, rip, 1) {
            Err(e) => Err(e),
            Ok(immediate) => Ok(
                (
                    Opcode::Jmp,
                    spec_ops1(Operand::Immediate(immediate as i64)),
                    rip.wrapping_add(5),
                ),
            ),
        },
        0xEB => spec_emit2(Opcode::Jmp, spec_read_immediate_8bit(mem, rip)),
        0xEE => Ok((Opcode::Out, spec_ops0(), rip.wrapping_add(1))),
        _ => spec_decode_one_byte_mux(mem, rip, opcode_byte, register_size, flags),
    }
}

/// The multiplexed groups at the top of the one-byte table.
pub open spec fn spec_decode_one_byte_mux(mem: MemView, rip: i64, opcode_byte: u8,
    register_size: RegisterSize, flags: DecFlags) -> Result<(Opcode, Operands, i64), VmError> {
    match opcode_byte {
        0xF6 => match spec_get_u8(mem, rip, 1) {
            Err(e) => Err(e),
            Ok(modrm) => {
                let ext = (modrm & 0b0011_1000) >> 3u8;
                let step: Result<(Operands, i64), VmError> = if ext <= 1 {
                    spec_get_operands(mem, rip, RegisterSize::Bit8, RegOrOpcode::Opcode,
                        ImmediateSize::Bit8, flags)
                } else if ext == 2 || ext == 3 {
                    spec_get_operands(mem, rip, RegisterSize::Bit8, RegOrOpcode::Opcode,
                        ImmediateSize::NoImm, flags)
                } else {
                    Err(VmError::UnknownOpcode(opcode_byte))
                };
                match step {
                    Err(e) => Err(e),
                    Ok((ops, ip_offset)) => {
                        let recorded = ops.opcode.unwrap();
                        if ext <= 1 && recorded > 1 {
                            Err(VmError::UnknownOpcode(opcode_byte))
                        } else if ext > 1 && (recorded <= 1 || recorded > 3) {
                            Err(VmError::UnknownOpcode(opcode_byte))
                        } else {
                            Ok(
                                (
                                    Opcode::CompareMulOperation,
                                    ops,
                                    rip.wrapping_add(ip_offset),
                                ),
                            )
                        }
                    },
                }
            },
        },
        0xF7 => match spec_get_u8(mem, rip, 1) {
            Err(e) => Err(e),
            Ok(modrm) => {
                let ext = (modrm & 0b0011_1000) >> 3u8;
                let step: Result<(Operands, i64), VmError> = if ext <= 1 {
                    spec_get_operands(mem, rip, register_size, RegOrOpcode::Opcode,
                        ImmediateSize::Bit32, flags)
                } else {
                    spec_get_operands(mem, rip, register_size, RegOrOpcode::Opcode,
                        ImmediateSize::NoImm, flags)
                };
                match step {
                    Err(e) => Err(e),
                    Ok((ops, ip_offset)) => {
                        let recorded = ops.opcode.unwrap();
                        if ext <= 1 && recorded > 1 {
                            Err(VmError::UnknownOpcode(opcode_byte))
                        } else if ext > 1 && recorded <= 1 {
                            Err(VmError::UnknownOpcode(opcode_byte))
                        } else {
                            Ok(
                                (
                                    Opcode::CompareMulOperation,
                                    ops,
                                    rip.wrapping_add(ip_offset),
                                ),
                            )
                        }
                    },
                }
            },
        },
        _ => spec_decode_one_byte_flags_group(mem, rip, opcode_byte, register_size, flags),
    }
}

/// The direction-flag writes and the inc/dec/call/jmp/push group at
/// the very top of the one-byte table.
pub open spec fn spec_decode_one_byte_flags_group(mem: MemView, rip: i64, opcode_byte: u8,
    register_size: RegisterSize, flags: DecFlags) -> Result<(Opcode, Operands, i64), VmError> {
    match opcode_byte {
        0xFA => Ok((Opcode::Nop, spec_ops0(), rip.wrapping_add(1))),
        0xFB => Ok((Opcode::Nop, spec_ops0(), rip.wrapping_add(1))),
        0xFC => Ok((Opcode::Cld, spec_ops0(), rip.wrapping_add(1))),
        0xFD => Ok((Opcode::Std, spec_ops0(), rip.wrapping_add(1))),
        0xFE => match spec_get_operands(mem, rip, RegisterSize::Bit8, RegOrOpcode::Opcode,
            ImmediateSize::NoImm, flags) {
            Err(e) => Err(e),
            Ok((ops, ip_offset)) => {
                let ext = ops.opcode.unwrap();
                if ext > 1 {
                    Err(VmError::UnknownOpcode(opcode_byte))
                } else {
                    Ok((Opcode::RegisterOperation, ops, rip.wrapping_add(ip_offset)))
                }
            },
        },
        0xFF => match spec_get_u8(mem, rip, 1) {
            Err(e) => Err(e),
            Ok(modrm) => {
                let ext = (modrm & 0b0011_1000) >> 3u8;
                if ext == 7 {
                    Err(VmError::UnknownOpcode(opcode_byte))
                } else {
                    let target_size = if ext == 2 || ext == 4 {
                        RegisterSize::Bit64
                    } else {
                        register_size
                    };
                    match spec_get_operands(mem, rip, target_size, RegOrOpcode::Register,
                        ImmediateSize::NoImm, spec_with_reversed(flags)) {
                        Err(e) => Err(e),
                        Ok((ops_in, ip_offset)) => {
                            let ops = Operands {
                                operands: (ops_in.operands.0, None, None),
                                opcode: Some(ext),
                                explicit_size: None,
                                repeat: Repeat::Once,
                            };
                            let bad = if ext == 6 {
                                match ops.operands.0 {
                                    Some(Operand::Register(register)) => spec_register_size(
                                        register,
                                    ) != OperandSize::Bit32 && spec_register_size(register)
                                        != OperandSize::Bit64,
                                    _ => false,
                                }
                            } else {
                                false
                            };
                            if bad {
                                Err(VmError::UnsupportedInstruction)
                            } else {
                                Ok(
                                    (
                                        Opcode::RegisterOperation,
                                        ops,
                                        rip.wrapping_add(ip_offset),
                                    ),
                                )
                            }
                        },
                    }
                }
            },
        },
        _ => Err(VmError::UnknownOpcode(opcode_byte)),
    }
}

/// The lower two-byte table (after the 0x0F escape byte).
pub open spec fn spec_decode_two_byte(mem: MemView, rip: i64, register_size: RegisterSize,
    flags: DecFlags) -> Result<(Opcode, Operands, i64), VmError> {
    match spec_get_u8(mem, rip, 0) {
        Err(e) => Err(e),
        Ok(second) => {
            if second == 0x01 {
                match spec_get_u8(mem, rip, 1) {
                    Err(e) => Err(e),
                    Ok(modrm) => {
                        let ext = (modrm & 0b0011_1000) >> 3u8;
                        if ext == 2 || ext == 3 {
                            match spec_get_operands(mem, rip, register_size,
                                RegOrOpcode::Opcode, ImmediateSize::Bit32, flags) {
                                Err(e) => Err(e),
                                Ok((ops_in, ip_offset)) => {
                                    let ops = Operands {
                                        operands: (ops_in.operands.1, None, None),
                                        opcode: ops_in.opcode,
                                        explicit_size: ops_in.explicit_size,
                                        repeat: Repeat::Once,
                                    };
                                    let oc = if ext == 2 {
                                        Opcode::Lgdt
                                    } else {
                                        Opcode::Lidt
                                    };
                                    Ok((oc, ops, rip.wrapping_add((ip_offset - 4) as i64)))
                                },
                            }
                        } else {
                            Err(VmError::UnknownOpcode(second))
                        }
                    },
                }
            } else if second == 0x05 {
                Ok((Opcode::Syscall, spec_ops0(), rip.wrapping_add(1)))
            } else if second == 0x0B {
                Ok((Opcode::Ud2, spec_ops0(), rip.wrapping_add(1)))
            } else if second == 0x10 || second == 0x28 {
                spec_emit(Opcode::Movps, spec_get_operands(mem, rip, RegisterSize::Bit128,
                    RegOrOpcode::Register, ImmediateSize::NoImm, spec_with_xmm_both(flags)),
                    rip)
            } else if second == 0x11 || second == 0x29 {
                spec_emit(Opcode::Movps, spec_get_operands(mem, rip, RegisterSize::Bit128,
                    RegOrOpcode::Register, ImmediateSize::NoImm,
                    spec_with_reversed(spec_with_xmm_both(flags))), rip)
            } else if second == 0x1F {
                match spec_get_operands(mem, rip, register_size, RegOrOpcode::Register,
                    ImmediateSize::NoImm, spec_with_reversed(flags)) {
                    Err(e) => Err(e),
                    Ok((ops, ip_offset)) => Ok(
                        (Opcode::Nop, spec_ops0(), rip.wrapping_add(ip_offset)),
                    ),
                }
            } else if second == 0x20 {
                match spec_get_operands(mem, rip, RegisterSize::Bit64, RegOrOpcode::Register,
                    ImmediateSize::NoImm, flags) {
                    Err(e) => Err(e),
                    Ok((ops_in, ip_offset)) => {
                        let cr: Result<Register, VmError> = match ops_in.operands.0 {
                            Some(Operand::Register(Register::R8)) => Ok(Register::CR8),
                            Some(Operand::Register(Register::RAX)) => Ok(Register::CR0),
                            Some(Operand::Register(Register::RDX)) => Ok(Register::CR2),
                            Some(Operand::Register(Register::RBX)) => Ok(Register::CR3),
                            Some(Operand::Register(Register::RSP)) => Ok(Register::CR4),
                            _ => Err(VmError::UnknownOpcode(second)),
                        };
                        match cr {
                            Err(e) => Err(e),
                            Ok(register) => Ok(
                                (
                                    Opcode::Mov,
                                    Operands {
                                        operands: (
                                            Some(Operand::Register(register)),
                                            ops_in.operands.1,
                                            None,
                                        ),
                                        opcode: None,
                                        explicit_size: None,
                                        repeat: Repeat::Once,
                                    },
                                    rip.wrapping_add(ip_offset),
                                ),
                            ),
                        }
                    },
                }
            } else if second == 0x22 {
                match spec_get_operands(mem, rip, RegisterSize::Bit64, RegOrOpcode::Register,
                    ImmediateSize::NoImm, spec_with_reversed(flags)) {
                    Err(e) => Err(e),
                    Ok((ops_in, ip_offset)) => {
                        let cr: Result<Register, VmError> = match ops_in.operands.1 {
                            Some(Operand::Register(Register::R8)) => Ok(Register::CR8),
                            Some(Operand::Register(Register::RAX)) => Ok(Register::CR0),
                            Some(Operand::Register(Register::RDX)) => Ok(Register::CR2),
                            Some(Operand::Register(Register::RBX)) => Ok(Register::CR3),
                            Some(Operand::Register(Register::RSP)) => Ok(Register::CR4),
                            _ => Err(VmError::UnknownOpcode(second)),
                        };
                        match cr {
                            Err(e) => Err(e),
                            Ok(register) => Ok(
                                (
                                    Opcode::Mov,
                                    Operands {
                                        operands: (
                                            ops_in.operands.0,
                                            Some(Operand::Register(register)),
                                            None,
                                        ),
                                        opcode: None,
                                        explicit_size: None,
                                        repeat: Repeat::Once,
                                    },
                                    rip.wrapping_add(ip_offset),
                                ),
                            ),
                        }
                    },
                }
            } else if second == 0x2A {
                spec_emit(Opcode::Cvtpi2ps, spec_get_operands(mem, rip, register_size,
                    RegOrOpcode::Register, ImmediateSize::NoImm,
                    DecFlags { op1_xmm: true, ..flags }), rip)
            } else if second == 0x2C {
                spec_emit(Opcode::Cvttps2pi, spec_get_operands(mem, rip, register_size,
                    RegOrOpcode::Register, ImmediateSize::NoImm, spec_with_xmm_both(flags)),
                    rip)
            } else if second == 0x30 {
                Ok((Opcode::Wrmsr, spec_ops0(), rip.wrapping_add(1)))
            } else if second == 0x32 {
                Ok((Opcode::Rdmsr, spec_ops0(), rip.wrapping_add(1)))
            } else if 0x80 <= second <= 0xBF {
                spec_decode_two_byte_high(mem, rip, second, register_size, flags)
            } else {
                spec_decode_two_byte_cmov(mem, rip, second, register_size, flags)
            }
        },
    }
}

/// The conditional moves and the packed group of the two-byte table.
pub open spec fn spec_decode_two_byte_cmov(mem: MemView, rip: i64, second: u8,
    register_size: RegisterSize, flags: DecFlags) -> Result<(Opcode, Operands, i64), VmError> {
    if second == 0x6E {
        if !flags.operand_16_bit {
            Err(VmError::UnknownOpcode(second))
        } else {
            spec_emit(Opcode::Movd, spec_get_operands(mem, rip, RegisterSize::Bit128,
                RegOrOpcode::Register, ImmediateSize::NoImm, DecFlags { op1_xmm: true, ..flags }),
                rip)
        }
    } else if second == 0x7E {
        if !flags.operand_16_bit {
            Err(VmError::UnknownOpcode(second))
        } else {
            spec_emit(Opcode::Movd, spec_get_operands(mem, rip, RegisterSize::Bit128,
                RegOrOpcode::Register, ImmediateSize::NoImm,
                DecFlags { op1_xmm: true, reversed: true, ..flags }), rip)
        }
    } else if second == 0x55 || second == 0x56 || second == 0x57 || second == 0x58 || second
        == 0x59 || second == 0x5C || second == 0x5E {
        let oc = if second == 0x59 {
            Opcode::Fmul
        } else if second == 0x5C {
            Opcode::Fsub
        } else if second == 0x5E {
            Opcode::Fdiv
        } else {
            Opcode::Fadd
        };
        spec_emit(oc, spec_get_operands(mem, rip, RegisterSize::Bit128,
            RegOrOpcode::Register, ImmediateSize::NoImm, spec_with_xmm_both(flags)), rip)
    } else {
        match second {
        0x40 => spec_emit(Opcode::Cmovo, spec_get_operands(mem, rip, register_size,
            RegOrOpcode::Register, ImmediateSize::NoImm, spec_with_reversed(flags)), rip),
        0x41 => spec_emit(Opcode::Cmovno, spec_get_operands(mem, rip, register_size,
            RegOrOpcode::Register, ImmediateSize::NoImm, spec_with_reversed(flags)), rip),
        0x42 => spec_emit(Opcode::Cmovb, spec_get_operands(mem, rip, register_size,
            RegOrOpcode::Register, ImmediateSize::NoImm, spec_with_reversed(flags)), rip),
        0x43 => spec_emit(Opcode::Cmovae, spec_get_operands(mem, rip, register_size,
            RegOrOpcode::Register, ImmediateSize::NoImm, spec_with_reversed(flags)), rip),
        0x44 => spec_emit(Opcode::Cmove, spec_get_operands(mem, rip, register_size,
            RegOrOpcode::Register, ImmediateSize::NoImm, spec_with_reversed(flags)), rip),
        0x45 => spec_emit(Opcode::Cmovne, spec_get_operands(mem, rip, register_size,
            RegOrOpcode::Register, ImmediateSize::NoImm, spec_with_reversed(flags)), rip),
        0x46 => spec_emit(Opcode::Cmovbe, spec_get_operands(mem, rip, register_size,
            RegOrOpcode::Register, ImmediateSize::NoImm, spec_with_reversed(flags)), rip),
        0x47 => spec_emit(Opcode::Cmova, spec_get_operands(mem, rip, register_size,
            RegOrOpcode::Register, ImmediateSize::NoImm, spec_with_reversed(flags)), rip),
        0x48 => spec_emit(Opcode::Cmovs, spec_get_operands(mem, rip, register_size,
            RegOrOpcode::Register, ImmediateSize::NoImm, spec_with_reversed(flags)), rip),
        0x49 => spec_emit(Opcode::Cmovns, spec_get_operands(mem, rip, register_size,
            RegOrOpcode::Register, ImmediateSize::NoImm, spec_with_reversed(flags)), rip),
        0x4a => spec_emit(Opcode::Cmovp, spec_get_operands(mem, rip, register_size,
            RegOrOpcode::Register, ImmediateSize::NoImm, spec_with_reversed(flags)), rip),
        0x4b => spec_emit(Opcode::Cmovnp, spec_get_operands(mem, rip, register_size,
            RegOrOpcode::Register, ImmediateSize::NoImm, spec_with_reversed(flags)), rip),
        0x4c => spec_emit(Opcode::Cmovl, spec_get_operands(mem, rip, register_size,
            RegOrOpcode::Register, ImmediateSize::NoImm, spec_with_reversed(flags)), rip),
        0x4d => spec_emit(Opcode::Cmovge, spec_get_operands(mem, rip, register_size,
            RegOrOpcode::Register, ImmediateSize::NoImm, spec_with_reversed(flags)), rip),
        0x4e => spec_emit(Opcode::Cmovle, spec_get_operands(mem, rip, register_size,
            RegOrOpcode::Register, ImmediateSize::NoImm, spec_with_reversed(flags)), rip),
        0x4f => spec_emit(Opcode::Cmovg, spec_get_operands(mem, rip, register_size,
            RegOrOpcode::Register, ImmediateSize::NoImm, spec_with_reversed(flags)), rip),
            _ => Err(VmError::UnknownOpcode(second)),
        }
    }
}

/// The conditional jumps of the two-byte table.
pub open spec fn spec_decode_two_byte_high(mem: MemView, rip: i64, second: u8,
    register_size: RegisterSize, flags: DecFlags) -> Result<(Opcode, Operands, i64), VmError> {
    match second {
        0x80 => match spec_get_i32(mem, rip, 1) {
            Err(e) => Err(e),
            Ok(immediate) => Ok(
                (
                    Opcode::Jo,
                    spec_ops1(Operand::Immediate(immediate as i64)),
                    rip.wrapping_add(5),
                ),
            ),
        },
        0x81 => match spec_get_i32(mem, rip, 1) {
            Err(e) => Err(e),
            Ok(immediate) => Ok(
                (
                    Opcode::Jno,
                    spec_ops1(Operand::Immediate(immediate as i64)),
                    rip.wrapping_add(5),
                ),
            ),
        },
        0x82 => match spec_get_i32(mem, rip, 1) {
            Err(e) => Err(e),
            Ok(immediate) => Ok(
                (
                    Opcode::Jb,
                    spec_ops1(Operand::Immediate(immediate as i64)),
                    rip.wrapping_add(5),
                ),
            ),
        },
        0x83 => match spec_get_i32(mem, rip, 1) {
            Err(e) => Err(e),
            Ok(immediate) => Ok(
                (
                    Opcode::Jae,
                    spec_ops1(Operand::Immediate(immediate as i64)),
                    rip.wrapping_add(5),
                ),
            ),
        },
        0x84 => match spec_get_i32(mem, rip, 1) {
            Err(e) => Err(e),
            Ok(immediate) => Ok(
                (
                    Opcode::Je,
                    spec_ops1(Operand::Immediate(immediate as i64)),
                    rip.wrapping_add(5),
                ),
            ),
        },
        0x85 => match spec_get_i32(mem, rip, 1) {
            Err(e) => Err(e),
            Ok(immediate) => Ok(
                (
                    Opcode::Jne,
                    spec_ops1(Operand::Immediate(immediate as i64)),
                    rip.wrapping_add(5),
                ),
            ),
        },
        0x86 => match spec_get_i32(mem, rip, 1) {
            Err(e) => Err(e),
            Ok(immediate) => Ok(
                (
                    Opcode::Jbe,
                    spec_ops1(Operand::Immediate(immediate as i64)),
                    rip.wrapping_add(5),
                ),
            ),
        },
        0x87 => match spec_get_i32(mem, rip, 1) {
            Err(e) => Err(e),
            Ok(immediate) => Ok(
                (
                    Opcode::Ja,
                    spec_ops1(Operand::Immediate(immediate as i64)),
                    rip.wrapping_add(5),
                ),
            ),
        },
        0x88 => match spec_get_i32(mem, rip, 1) {
            Err(e) => Err(e),
            Ok(immediate) => Ok(
                (
                    Opcode::Js,
                    spec_ops1(Operand::Immediate(immediate as i64)),
                    rip.wrapping_add(5),
                ),
            ),
        },
        0x89 => match spec_get_i32(mem, rip, 1) {
            Err(e) => Err(e),
            Ok(immediate) => Ok(
                (
                    Opcode::Jns,
                    spec_ops1(Operand::Immediate(immediate as i64)),
                    rip.wrapping_add(5),
                ),
            ),
        },
        0x8a => match spec_get_i32(mem, rip, 1) {
            Err(e) => Err(e),
            Ok(immediate) => Ok(
                (
                    Opcode::Jp,
                    spec_ops1(Operand::Immediate(immediate as i64)),
                    rip.wrapping_add(5),
                ),
            ),
        },
        0x8b => match spec_get_i32(mem, rip, 1) {
            Err(e) => Err(e),
            Ok(immediate) => Ok(
                (
                    Opcode::Jnp,
                    spec_ops1(Operand::Immediate(immediate as i64)),
                    rip.wrapping_add(5),
                ),
            ),
        },
        0x8c => match spec_get_i32(mem, rip, 1) {
            Err(e) => Err(e),
            Ok(immediate) => Ok(
                (
                    Opcode::Jl,
                    spec_ops1(Operand::Immediate(immediate as i64)),
                    rip.wrapping_add(5),
                ),
            ),
        },
        0x8d => match spec_get_i32(mem, rip, 1) {
            Err(e) => Err(e),
            Ok(immediate) => Ok(
                (
                    Opcode::Jge,
                    spec_ops1(Operand::Immediate(immediate as i64)),
                    rip.wrapping_add(5),
                ),
            ),
        },
        0x8e => match spec_get_i32(mem, rip, 1) {
            Err(e) => Err(e),
            Ok(immediate) => Ok(
                (
                    Opcode::Jle,
                    spec_ops1(Operand::Immediate(immediate as i64)),
                    rip.wrapping_add(5),
                ),
            ),
        },
        0x8f => match spec_get_i32(mem, rip, 1) {
            Err(e) => Err(e),
            Ok(immediate) => Ok(
                (
                    Opcode::Jg,
                    spec_ops1(Operand::Immediate(immediate as i64)),
                    rip.wrapping_add(5),
                ),
            ),
        },
        _ => spec_decode_two_byte_setcc(mem, rip, second, register_size, flags),
    }
}

/// The conditional byte sets of the two-byte table.
pub open spec fn spec_decode_two_byte_setcc(mem: MemView, rip: i64, second: u8,
    register_size: RegisterSize, flags: DecFlags) -> Result<(Opcode, Operands, i64), VmError> {
    match second {
        0x90 => spec_emit2(Opcode::Seto, spec_decode_setcc_operand(mem, rip, flags)),
        0x91 => spec_emit2(Opcode::Setno, spec_decode_setcc_operand(mem, rip, flags)),
        0x92 => spec_emit2(Opcode::Setb, spec_decode_setcc_operand(mem, rip, flags)),
        0x93 => spec_emit2(Opcode::Setae, spec_decode_setcc_operand(mem, rip, flags)),
        0x94 => spec_emit2(Opcode::Sete, spec_decode_setcc_operand(mem, rip, flags)),
        0x95 => spec_emit2(Opcode::Setne, spec_decode_setcc_operand(mem, rip, flags)),
        0x96 => spec_emit2(Opcode::Setbe, spec_decode_setcc_operand(mem, rip, flags)),
        0x97 => spec_emit2(Opcode::Seta, spec_decode_setcc_operand(mem, rip, flags)),
        0x98 => spec_emit2(Opcode::Sets, spec_decode_setcc_operand(mem, rip, flags)),
        0x99 => spec_emit2(Opcode::Setns, spec_decode_setcc_operand(mem, rip, flags)),
        0x9a => spec_emit2(Opcode::Setp, spec_decode_setcc_operand(mem, rip, flags)),
        0x9b => spec_emit2(Opcode::Setnp, spec_decode_setcc_operand(mem, rip, flags)),
        0x9c => spec_emit2(Opcode::Setl, spec_decode_setcc_operand(mem, rip, flags)),
        0x9d => spec_emit2(Opcode::Setge, spec_decode_setcc_operand(mem, rip, flags)),
        0x9e => spec_emit2(Opcode::Setle, spec_decode_setcc_operand(mem, rip, flags)),
        0x9f => spec_emit2(Opcode::Setg, spec_decode_setcc_operand(mem, rip, flags)),
        _ => spec_decode_two_byte_top(mem, rip, second, register_size, flags),
    }
}

/// The top of the two-byte table.
pub open spec fn spec_decode_two_byte_top(mem: MemView, rip: i64, second: u8, register_size:
    RegisterSize, flags: DecFlags) -> Result<(Opcode, Operands, i64), VmError> {
    match second {
        0xA2 => Ok((Opcode::Cpuid, spec_ops0(), rip.wrapping_add(1))),
        0xA3 => spec_emit2(Opcode::Bt, spec_decode_reg_reg(mem, rip, register_size, flags)),
        0xAB => spec_emit2(Opcode::Bts, spec_decode_reg_reg(mem, rip, register_size, flags)),
        0xAF => spec_emit(Opcode::Imul, spec_get_operands(mem, rip, register_size,
            RegOrOpcode::Register, ImmediateSize::NoImm, spec_with_reversed(flags)), rip),
        0xB0 => spec_emit(Opcode::Cmpxchg, spec_get_operands(mem, rip, RegisterSize::Bit8,
            RegOrOpcode::Register, ImmediateSize::NoImm, flags), rip),
        0xB1 => spec_emit(Opcode::Cmpxchg, spec_get_operands(mem, rip, register_size,
            RegOrOpcode::Register, ImmediateSize::NoImm, flags), rip),
        0xB3 => spec_emit2(Opcode::Btr, spec_decode_reg_reg(mem, rip, register_size, flags)),
        0xB6 => match spec_get_operands(mem, rip, register_size, RegOrOpcode::Register,
            ImmediateSize::NoImm, spec_with_reversed(flags)) {
            Err(e) => Err(e),
            Ok((ops_in, ip_offset)) => match spec_override_operand_size(mem, rip, ops_in,
                OperandSize::Bit8, flags) {
                Err(e) => Err(e),
                Ok(ops) => Ok((Opcode::Movzx, ops, rip.wrapping_add(ip_offset))),
            },
        },
        0xB7 => match spec_get_operands(mem, rip, register_size, RegOrOpcode::Register,
            ImmediateSize::NoImm, spec_with_reversed(flags)) {
            Err(e) => Err(e),
            Ok((ops_in, ip_offset)) => match spec_override_operand_size(mem, rip, ops_in,
                OperandSize::Bit16, flags) {
                Err(e) => Err(e),
                Ok(ops) => Ok((Opcode::Movzx, ops, rip.wrapping_add(ip_offset))),
            },
        },
        0xBA => spec_emit(Opcode::BitManipulation, spec_get_operands(mem, rip,
            register_size, RegOrOpcode::Opcode, ImmediateSize::Bit8, flags), rip),
        0xBB => spec_emit2(Opcode::Btc, spec_decode_reg_reg(mem, rip, register_size, flags)),
        0xBE => match spec_get_operands(mem, rip, register_size, RegOrOpcode::Register,
            ImmediateSize::NoImm, spec_with_reversed(flags)) {
            Err(e) => Err(e),
            Ok((ops_in, ip_offset)) => match spec_override_operand_size(mem, rip, ops_in,
                OperandSize::Bit8, flags) {
                Err(e) => Err(e),
                Ok(ops) => Ok((Opcode::Movsx, ops, rip.wrapping_add(ip_offset))),
            },
        },
        0xBF => match spec_get_operands(mem, rip, register_size, RegOrOpcode::Register,
            ImmediateSize::NoImm, spec_with_reversed(flags)) {
            Err(e) => Err(e),
            Ok((ops_in, ip_offset)) => match spec_override_operand_size(mem, rip, ops_in,
                OperandSize::Bit16, flags) {
                Err(e) => Err(e),
                Ok(ops) => Ok((Opcode::Movsx, ops, rip.wrapping_add(ip_offset))),
            },
        },
        _ => Err(VmError::UnknownOpcode(second)),
    }
}

/// Decode one instruction at the cursor: consume prefixes, the opcode
/// bytes and the operand bytes, advancing the cursor past them, and
/// return the operation with its operand record. The result and the
/// new cursor are exactly what `spec_decode` gives for the memory
/// bytes at the old cursor, and every record handed back satisfies
/// the shape its operation's contract asks for.
#[verifier::rlimit(100)]
#[verifier::spinoff_prover]
pub fn decode(rip: &mut i64, memory: &Memory) -> (r: Result<(Opcode, Operands), VmError>)
    requires
        mem_inv(memory@),
    ensures
        match r {
            Ok((opcode, ops)) => spec_decode(memory@, *old(rip)) == Ok::<
                (Opcode, Operands, i64),
                VmError,
            >((opcode, ops, *final(rip))) && wf_instruction(opcode, ops),
            Err(e) => spec_decode(memory@, *old(rip)) == Err::<
                (Opcode, Operands, i64),
                VmError,
            >(e),
        },
{
    let mut flags = flags_none();
    let mut repeat = Repeat::Once;
    let mut prefix_count: u64 = 0;
    loop
        invariant
            mem_inv(memory@),
            prefix_count <= 15,
            !flags.op1_xmm,
            !flags.op2_xmm,
            !flags.reversed,
            !flags.sib_displacement_only,
            spec_prefixes(memory@, *old(rip), spec_flags_none(), Repeat::Once, 15)
                == spec_prefixes(memory@, *rip, flags, repeat, (15 - prefix_count) as u64),
        ensures
            mem_inv(memory@),
            !flags.op1_xmm,
            !flags.op2_xmm,
            !flags.reversed,
            !flags.sib_displacement_only,
            spec_prefixes(memory@, *old(rip), spec_flags_none(), Repeat::Once, 15) == Ok::<
                (i64, DecFlags, Repeat),
                VmError,
            >((*rip, flags, repeat)),
        decreases 15 - prefix_count,
    {
        let ghost pre_rip = *rip;
        let ghost pre_flags = flags;
        let ghost pre_repeat = repeat;
        let ghost pre_fuel = (15 - prefix_count) as u64;
        let byte = match get_u8(memory, *rip, 0) {
            Ok(byte) => byte,
            Err(e) => {
                proof {
                    assert(spec_prefixes(memory@, pre_rip, pre_flags, pre_repeat, pre_fuel)
                        == Err::<(i64, DecFlags, Repeat), VmError>(e));
                    assert(spec_decode(memory@, *old(rip)) == Err::<
                        (Opcode, Operands, i64),
                        VmError,
                    >(e));
                }
                return Err(e);
            },
        };
        match byte {
            0xF0 => {
                // lock prefix, accepted and ignored
            },
            0xF2 => {
                repeat = Repeat::NotEqual;
            },
            0xF3 => {
                repeat = Repeat::Equal;
            },
            0x2E | 0x3E | 0x36 | 0x26 | 0x64 | 0x65 => {
                // segment overrides, accepted and ignored
            },
            0x66 => {
                flags.operand_16_bit = true;
            },
            0x67 => {
                flags.address_size_override = true;
            },
            bits @ 0x40..=0x4F => {
                if bits & 0x1 != 0 {
                    flags.new_64bit_register = true;
                }
                if bits & 0x4 != 0 {
                    flags.mod_rm_extension = true;
                }
                if bits & 0x2 != 0 {
                    flags.sib_extension = true;
                }
                if bits & 0x8 != 0 {
                    flags.operand_64_bit = true;
                }
                flags.new_8bit_register = true;
            },
            _ => {
                proof {
                    assert(!spec_is_prefix(byte));
                    assert(spec_prefixes(memory@, pre_rip, pre_flags, pre_repeat, pre_fuel)
                        == Ok::<(i64, DecFlags, Repeat), VmError>((
                        *rip,
                        flags,
                        repeat,
                    )));
                }
                break;
            },
        }
        proof {
            assert(spec_is_prefix(byte));
            assert(flags == spec_apply_prefix(pre_flags, byte));
            assert(repeat == spec_apply_repeat(pre_repeat, byte));
        }
        advance(rip, 1);
        if prefix_count >= 15 {
            // an instruction is at most fifteen bytes long
            proof {
                assert(pre_fuel == 0);
                assert(spec_prefixes(memory@, pre_rip, pre_flags, pre_repeat, pre_fuel)
                    == Err::<(i64, DecFlags, Repeat), VmError>(VmError::UnknownOpcode(byte)));
                assert(spec_decode(memory@, *old(rip)) == Err::<
                    (Opcode, Operands, i64),
                    VmError,
                >(VmError::UnknownOpcode(byte)));
            }
            return Err(VmError::UnknownOpcode(byte));
        }
        prefix_count = prefix_count + 1;
        proof {
            assert(spec_prefixes(memory@, pre_rip, pre_flags, pre_repeat, pre_fuel)
                == spec_prefixes(memory@, *rip, flags, repeat, (15 - prefix_count) as u64));
        }
    }
    let register_size = if flags.operand_64_bit {
        RegisterSize::Bit64
    } else if flags.operand_16_bit {
        RegisterSize::Bit16
    } else {
        RegisterSize::Bit32
    };
    proof {
        assert(register_size == spec_register_width(flags));
    }
    let opcode_byte = match get_u8(memory, *rip, 0) {
        Ok(byte) => byte,
        Err(e) => {
            proof {
                assert(spec_decode(memory@, *old(rip)) == Err::<
                    (Opcode, Operands, i64),
                    VmError,
                >(e));
            }
            return Err(e);
        },
    };
    if opcode_byte == 0x0F {
        advance(rip, 1);
        decode_two_byte(rip, memory, register_size, flags)
    } else if opcode_byte < 0x40 {
        decode_arith_family(rip, memory, opcode_byte, register_size, flags)
    } else {
        decode_one_byte(rip, memory, opcode_byte, register_size, flags, repeat)
    }
}

/// Decode the dense two-operand arithmetic family (first byte below
/// 0x40).
#[verifier::rlimit(100)]
#[verifier::spinoff_prover]
fn decode_arith_family(rip: &mut i64, memory: &Memory, opcode_byte: u8, register_size:
    RegisterSize, flags: DecFlags) -> (r: Result<(Opcode, Operands), VmError>)
    requires
        mem_inv(memory@),
        register_size == RegisterSize::Bit16 || register_size == RegisterSize::Bit32
            || register_size == RegisterSize::Bit64,
        !flags.op1_xmm && !flags.op2_xmm && !flags.reversed,
    ensures
        match r {
            Ok((opcode, ops)) => spec_decode_arith_family(memory@, *old(rip), opcode_byte,
                register_size, flags) == Ok::<(Opcode, Operands, i64), VmError>((
                opcode,
                ops,
                *final(rip),
            )) && wf_instruction(opcode, ops),
            Err(e) => spec_decode_arith_family(memory@, *old(rip), opcode_byte,
                register_size, flags) == Err::<(Opcode, Operands, i64), VmError>(e),
        },
{
    match opcode_byte {
        0x00 => {
            let ops = decode_8bit_reg_8bit_immediate(memory, rip, flags)?;
            Ok((Opcode::Add, ops))
        },
        0x01 => {
            let ops = decode_reg_reg(memory, rip, register_size, flags)?;
            Ok((Opcode::Add, ops))
        },
        0x02 => {
            let ops = decode_8bit_reg_8bit_immediate(memory, rip, with_reversed(flags))?;
            Ok((Opcode::Add, ops))
        },
        0x03 => {
            let ops = decode_reg_reg(memory, rip, register_size, with_reversed(flags))?;
            Ok((Opcode::Add, ops))
        },
        0x04 => {
            let ops = decode_al_immediate(memory, rip)?;
            Ok((Opcode::Add, ops))
        },
        0x05 => {
            let ops = decode_ax_immediate(memory, rip, register_size, flags)?;
            Ok((Opcode::Add, ops))
        },
        0x08 => {
            let ops = decode_8bit_reg_8bit_immediate(memory, rip, flags)?;
            Ok((Opcode::Or, ops))
        },
        0x09 => {
            let ops = decode_reg_reg(memory, rip, register_size, flags)?;
            Ok((Opcode::Or, ops))
        },
        0x0A => {
            let ops = decode_8bit_reg_8bit_immediate(memory, rip, with_reversed(flags))?;
            Ok((Opcode::Or, ops))
        },
        0x0B => {
            let ops = decode_reg_reg(memory, rip, register_size, with_reversed(flags))?;
            Ok((Opcode::Or, ops))
        },
        0x0C => {
            let ops = decode_al_immediate(memory, rip)?;
            Ok((Opcode::Or, ops))
        },
        0x0D => {
            let ops = decode_ax_immediate(memory, rip, register_size, flags)?;
            Ok((Opcode::Or, ops))
        },
        0x10 => {
            let ops = decode_8bit_reg_8bit_immediate(memory, rip, flags)?;
            Ok((Opcode::Adc, ops))
        },
        0x11 => {
            let ops = decode_reg_reg(memory, rip, register_size, flags)?;
            Ok((Opcode::Adc, ops))
        },
        0x12 => {
            let ops = decode_8bit_reg_8bit_immediate(memory, rip, with_reversed(flags))?;
            Ok((Opcode::Adc, ops))
        },
        0x13 => {
            let ops = decode_reg_reg(memory, rip, register_size, with_reversed(flags))?;
            Ok((Opcode::Adc, ops))
        },
        0x14 => {
            let ops = decode_al_immediate(memory, rip)?;
            Ok((Opcode::Adc, ops))
        },
        0x15 => {
            let ops = decode_ax_immediate(memory, rip, register_size, flags)?;
            Ok((Opcode::Adc, ops))
        },
        0x18 => {
            let ops = decode_8bit_reg_8bit_immediate(memory, rip, flags)?;
            Ok((Opcode::Sbb, ops))
        },
        0x19 => {
            let ops = decode_reg_reg(memory, rip, register_size, flags)?;
            Ok((Opcode::Sbb, ops))
        },
        0x1A => {
            let ops = decode_8bit_reg_8bit_immediate(memory, rip, with_reversed(flags))?;
            Ok((Opcode::Sbb, ops))
        },
        0x1B => {
            let ops = decode_reg_reg(memory, rip, register_size, with_reversed(flags))?;
            Ok((Opcode::Sbb, ops))
        },
        0x1C => {
            let ops = decode_al_immediate(memory, rip)?;
            Ok((Opcode::Sbb, ops))
        },
        0x1D => {
            let ops = decode_ax_immediate(memory, rip, register_size, flags)?;
            Ok((Opcode::Sbb, ops))
        },
        0x20 => {
            let ops = decode_8bit_reg_8bit_immediate(memory, rip, flags)?;
            Ok((Opcode::And, ops))
        },
        0x21 => {
            let ops = decode_reg_reg(memory, rip, register_size, flags)?;
            Ok((Opcode::And, ops))
        },
        0x22 => {
            let ops = decode_8bit_reg_8bit_immediate(memory, rip, with_reversed(flags))?;
            Ok((Opcode::And, ops))
        },
        0x23 => {
            let ops = decode_reg_reg(memory, rip, register_size, with_reversed(flags))?;
            Ok((Opcode::And, ops))
        },
        0x24 => {
            let ops = decode_al_immediate(memory, rip)?;
            Ok((Opcode::And, ops))
        },
        0x25 => {
            let ops = decode_ax_immediate(memory, rip, register_size, flags)?;
            Ok((Opcode::And, ops))
        },
        0x28 => {
            let ops = decode_8bit_reg_8bit_immediate(memory, rip, flags)?;
            Ok((Opcode::Sub, ops))
        },
        0x29 => {
            let ops = decode_reg_reg(memory, rip, register_size, flags)?;
            Ok((Opcode::Sub, ops))
        },
        0x2A => {
            let ops = decode_8bit_reg_8bit_immediate(memory, rip, with_reversed(flags))?;
            Ok((Opcode::Sub, ops))
        },
        0x2B => {
            let ops = decode_reg_reg(memory, rip, register_size, with_reversed(flags))?;
            Ok((Opcode::Sub, ops))
        },
        0x2C => {
            let ops = decode_al_immediate(memory, rip)?;
            Ok((Opcode::Sub, ops))
        },
        0x2D => {
            let ops = decode_ax_immediate(memory, rip, register_size, flags)?;
            Ok((Opcode::Sub, ops))
        },
        0x30 => {
            let ops = decode_8bit_reg_8bit_immediate(memory, rip, flags)?;
            Ok((Opcode::Xor, ops))
        },
        0x31 => {
            let ops = decode_reg_reg(memory, rip, register_size, flags)?;
            Ok((Opcode::Xor, ops))
        },
        0x32 => {
            let ops = decode_8bit_reg_8bit_immediate(memory, rip, with_reversed(flags))?;
            Ok((Opcode::Xor, ops))
        },
        0x33 => {
            let ops = decode_reg_reg(memory, rip, register_size, with_reversed(flags))?;
            Ok((Opcode::Xor, ops))
        },
        0x34 => {
            let ops = decode_al_immediate(memory, rip)?;
            Ok((Opcode::Xor, ops))
        },
        0x35 => {
            let ops = decode_ax_immediate(memory, rip, register_size, flags)?;
            Ok((Opcode::Xor, ops))
        },
        0x38 => {
            let ops = decode_8bit_reg_8bit_immediate(memory, rip, flags)?;
            Ok((Opcode::Cmp, ops))
        },
        0x39 => {
            let ops = decode_reg_reg(memory, rip, register_size, flags)?;
            Ok((Opcode::Cmp, ops))
        },
        0x3A => {
            let ops = decode_8bit_reg_8bit_immediate(memory, rip, with_reversed(flags))?;
            Ok((Opcode::Cmp, ops))
        },
        0x3B => {
            let ops = decode_reg_reg(memory, rip, register_size, with_reversed(flags))?;
            Ok((Opcode::Cmp, ops))
        },
        0x3C => {
            let ops = decode_al_immediate(memory, rip)?;
            Ok((Opcode::Cmp, ops))
        },
        0x3D => {
            let ops = decode_ax_immediate(memory, rip, register_size, flags)?;
            Ok((Opcode::Cmp, ops))
        },
        _ => Err(VmError::UnknownOpcode(opcode_byte)),
    }
}

/// Decode the rest of the one-byte table (first byte 0x40..0xFF,
/// prefixes and the two-byte escape handled by the caller).
#[verifier::rlimit(100)]
#[verifier::spinoff_prover]
fn decode_one_byte(rip: &mut i64, memory: &Memory, opcode_byte: u8, register_size:
    RegisterSize, flags: DecFlags, repeat: Repeat) -> (r: Result<(Opcode, Operands), VmError>)
    requires
        mem_inv(memory@),
        register_size == RegisterSize::Bit16 || register_size == RegisterSize::Bit32
            || register_size == RegisterSize::Bit64,
        !flags.op1_xmm && !flags.op2_xmm && !flags.reversed && !flags.sib_displacement_only,
    ensures
        match r {
            Ok((opcode, ops)) => spec_decode_one_byte(memory@, *old(rip), opcode_byte,
                register_size, flags, repeat) == Ok::<(Opcode, Operands, i64), VmError>((
                opcode,
                ops,
                *final(rip),
            )) && wf_instruction(opcode, ops),
            Err(e) => spec_decode_one_byte(memory@, *old(rip), opcode_byte,
                register_size, flags, repeat) == Err::<(Opcode, Operands, i64), VmError>(e),
        },
{
    match opcode_byte {
        opcode_byte @ 0x50..=0x57 => {
            let register = get_register(opcode_byte - 0x50, RegisterSize::Bit64,
                flags.new_64bit_register, flags.new_8bit_register);
            advance(rip, 1);
            Ok((Opcode::Push, ops1(Operand::Register(register))))
        },
        opcode_byte @ 0x58..=0x5F => {
            let register = get_register(opcode_byte - 0x58, RegisterSize::Bit64,
                flags.new_64bit_register, flags.new_8bit_register);
            advance(rip, 1);
            Ok((Opcode::Pop, ops1(Operand::Register(register))))
        },
        0x63 => {
            let (mut ops, ip_offset) = get_operands(memory, *rip, register_size,
                RegOrOpcode::Register, ImmediateSize::NoImm, with_reversed(flags))?;
            override_operand_size(memory, *rip, &mut ops, OperandSize::Bit32, &flags)?;
            advance(rip, ip_offset);
            Ok((Opcode::Movsx, ops))
        },
        0x68 => {
            let immediate: i64 = if flags.operand_16_bit {
                let immediate = get_i16(memory, *rip, 1)? as i64;
                advance(rip, 3);
                immediate
            } else {
                let immediate = get_i32(memory, *rip, 1)? as i64;
                advance(rip, 5);
                immediate
            };
            Ok((Opcode::Push, ops1(Operand::Immediate(immediate))))
        },
        0x69 => {
            let (ops_in, ip_offset) = get_operands(memory, *rip, register_size,
                RegOrOpcode::Register, ImmediateSize::NoImm, with_reversed(flags))?;
            advance(rip, ip_offset);
            let immediate: i64 = if flags.operand_16_bit {
                let immediate = get_i16(memory, *rip, 0)? as i64;
                advance(rip, 2);
                immediate
            } else {
                let immediate = get_i32(memory, *rip, 0)? as i64;
                advance(rip, 4);
                immediate
            };
            let ops = Operands {
                operands: (
                    Some(Operand::Immediate(immediate)),
                    ops_in.operands.0,
                    ops_in.operands.1,
                ),
                opcode: None,
                explicit_size: None,
                repeat: Repeat::Once,
            };
            Ok((Opcode::Imul, ops))
        },
        0x6A => {
            let ops = read_immediate_8bit(memory, rip)?;
            Ok((Opcode::Push, ops))
        },
        0x6B => {
            let (ops_in, ip_offset) = get_operands(memory, *rip, register_size,
                RegOrOpcode::Register, ImmediateSize::NoImm, with_reversed(flags))?;
            advance(rip, ip_offset);
            let immediate = get_i8(memory, *rip, 0)? as i64;
            advance(rip, 1);
            let ops = Operands {
                operands: (
                    Some(Operand::Immediate(immediate)),
                    ops_in.operands.0,
                    ops_in.operands.1,
                ),
                opcode: None,
                explicit_size: None,
                repeat: Repeat::Once,
            };
            Ok((Opcode::Imul, ops))
        },
            0x70 => {
                let ops = read_immediate_8bit(memory, rip)?;
                Ok((Opcode::Jo, ops))
            },
            0x71 => {
                let ops = read_immediate_8bit(memory, rip)?;
                Ok((Opcode::Jno, ops))
            },
            0x72 => {
                let ops = read_immediate_8bit(memory, rip)?;
                Ok((Opcode::Jb, ops))
            },
            0x73 => {
                let ops = read_immediate_8bit(memory, rip)?;
                Ok((Opcode::Jae, ops))
            },
            0x74 => {
                let ops = read_immediate_8bit(memory, rip)?;
                Ok((Opcode::Je, ops))
            },
            0x75 => {
                let ops = read_immediate_8bit(memory, rip)?;
                Ok((Opcode::Jne, ops))
            },
            0x76 => {
                let ops = read_immediate_8bit(memory, rip)?;
                Ok((Opcode::Jbe, ops))
            },
            0x77 => {
                let ops = read_immediate_8bit(memory, rip)?;
                Ok((Opcode::Ja, ops))
            },
            0x78 => {
                let ops = read_immediate_8bit(memory, rip)?;
                Ok((Opcode::Js, ops))
            },
            0x79 => {
                let ops = read_immediate_8bit(memory, rip)?;
                Ok((Opcode::Jns, ops))
            },
            0x7a => {
                let ops = read_immediate_8bit(memory, rip)?;
                Ok((Opcode::Jp, ops))
            },
            0x7b => {
                let ops = read_immediate_8bit(memory, rip)?;
                Ok((Opcode::Jnp, ops))
            },
            0x7c => {
                let ops = read_immediate_8bit(memory, rip)?;
                Ok((Opcode::Jl, ops))
            },
            0x7d => {
                let ops = read_immediate_8bit(memory, rip)?;
                Ok((Opcode::Jge, ops))
            },
            0x7e => {
                let ops = read_immediate_8bit(memory, rip)?;
                Ok((Opcode::Jle, ops))
            },
            0x7f => {
                let ops = read_immediate_8bit(memory, rip)?;
                Ok((Opcode::Jg, ops))
            },
        _ => decode_one_byte_modrm(rip, memory, opcode_byte, register_size, flags, repeat),
    }
}

/// Decode the ModR/M block of the one-byte table (the multiplexed
/// arithmetic group, tests, exchanges, moves, LEA and POP).
#[verifier::rlimit(100)]
#[verifier::spinoff_prover]
fn decode_one_byte_modrm(rip: &mut i64, memory: &Memory, opcode_byte: u8, register_size:
    RegisterSize, flags: DecFlags, repeat: Repeat) -> (r: Result<(Opcode, Operands), VmError>)
    requires
        mem_inv(memory@),
        register_size == RegisterSize::Bit16 || register_size == RegisterSize::Bit32
            || register_size == RegisterSize::Bit64,
        !flags.op1_xmm && !flags.op2_xmm && !flags.reversed && !flags.sib_displacement_only,
    ensures
        match r {
            Ok((opcode, ops)) => spec_decode_one_byte_modrm(memory@, *old(rip), opcode_byte,
                register_size, flags, repeat) == Ok::<(Opcode, Operands, i64), VmError>((
                opcode,
                ops,
                *final(rip),
            )) && wf_instruction(opcode, ops),
            Err(e) => spec_decode_one_byte_modrm(memory@, *old(rip), opcode_byte,
                register_size, flags, repeat) == Err::<(Opcode, Operands, i64), VmError>(e),
        },
{
    match opcode_byte {
        0x80 => {
            let (ops, ip_offset) = get_operands(memory, *rip, RegisterSize::Bit8,
                RegOrOpcode::Opcode, ImmediateSize::Bit8, flags)?;
            advance(rip, ip_offset);
            Ok((Opcode::Arithmetic, ops))
        },
        0x81 => {
            let (ops, ip_offset) = get_operands(memory, *rip, register_size,
                RegOrOpcode::Opcode, ImmediateSize::Bit32, flags)?;
            advance(rip, ip_offset);
            Ok((Opcode::Arithmetic, ops))
        },
        0x83 => {
            let (ops, ip_offset) = get_operands(memory, *rip, register_size,
                RegOrOpcode::Opcode, ImmediateSize::Bit8, flags)?;
            advance(rip, ip_offset);
            Ok((Opcode::Arithmetic, ops))
        },
        0x84 => {
            let (ops, ip_offset) = get_operands(memory, *rip, RegisterSize::Bit8,
                RegOrOpcode::Register, ImmediateSize::NoImm, flags)?;
            advance(rip, ip_offset);
            Ok((Opcode::Test, ops))
        },
        0x85 => {
            let (ops, ip_offset) = get_operands(memory, *rip, register_size,
                RegOrOpcode::Register, ImmediateSize::NoImm, flags)?;
            advance(rip, ip_offset);
            Ok((Opcode::Test, ops))
        },
        0x86 => {
            let (ops, ip_offset) = get_operands(memory, *rip, RegisterSize::Bit8,
                RegOrOpcode::Register, ImmediateSize::NoImm, flags)?;
            advance(rip, ip_offset);
            Ok((Opcode::Xchg, ops))
        },
        0x87 => {
            let (ops, ip_offset) = get_operands(memory, *rip, register_size,
                RegOrOpcode::Register, ImmediateSize::NoImm, flags)?;
            advance(rip, ip_offset);
            Ok((Opcode::Xchg, ops))
        },
        _ => decode_one_byte_modrm_mov(rip, memory, opcode_byte, register_size, flags, repeat),
    }
}

/// Decode the move/LEA/POP block of the one-byte table.
#[verifier::rlimit(100)]
#[verifier::spinoff_prover]
fn decode_one_byte_modrm_mov(rip: &mut i64, memory: &Memory, opcode_byte: u8, register_size:
    RegisterSize, flags: DecFlags, repeat: Repeat) -> (r: Result<(Opcode, Operands), VmError>)
    requires
        mem_inv(memory@),
        register_size == RegisterSize::Bit16 || register_size == RegisterSize::Bit32
            || register_size == RegisterSize::Bit64,
        !flags.op1_xmm && !flags.op2_xmm && !flags.reversed && !flags.sib_displacement_only,
    ensures
        match r {
            Ok((opcode, ops)) => spec_decode_one_byte_modrm_mov(memory@, *old(rip), opcode_byte,
                register_size, flags, repeat) == Ok::<(Opcode, Operands, i64), VmError>((
                opcode,
                ops,
                *final(rip),
            )) && wf_instruction(opcode, ops),
            Err(e) => spec_decode_one_byte_modrm_mov(memory@, *old(rip), opcode_byte, register_size,
                flags, repeat) == Err::<(Opcode, Operands, i64), VmError>(e),
        },
{
    match opcode_byte {
        0x88 => {
            let (ops, ip_offset) = get_operands(memory, *rip, RegisterSize::Bit8,
                RegOrOpcode::Register, ImmediateSize::NoImm, flags)?;
            advance(rip, ip_offset);
            Ok((Opcode::Mov, ops))
        },
        0x89 => {
            let (ops, ip_offset) = get_operands(memory, *rip, register_size,
                RegOrOpcode::Register, ImmediateSize::NoImm, flags)?;
            advance(rip, ip_offset);
            Ok((Opcode::Mov, ops))
        },
        0x8A => {
            let (ops, ip_offset) = get_operands(memory, *rip, RegisterSize::Bit8,
                RegOrOpcode::Register, ImmediateSize::NoImm, with_reversed(flags))?;
            advance(rip, ip_offset);
            Ok((Opcode::Mov, ops))
        },
        0x8B => {
            let (ops, ip_offset) = get_operands(memory, *rip, register_size,
                RegOrOpcode::Register, ImmediateSize::NoImm, with_reversed(flags))?;
            advance(rip, ip_offset);
            Ok((Opcode::Mov, ops))
        },
        0x8D => {
            let (ops, ip_offset) = get_operands(memory, *rip, register_size,
                RegOrOpcode::Register, ImmediateSize::NoImm, with_reversed(flags))?;
            match ops.operands.0 {
                Some(Operand::EffectiveAddress { .. }) => {},
                _ => {
                    // LEA needs a memory source
                    return Err(VmError::UnknownOpcode(opcode_byte));
                },
            }
            advance(rip, ip_offset);
            Ok((Opcode::Lea, ops))
        },
        0x8E => {
            let (ops, ip_offset) = get_operands(memory, *rip, RegisterSize::Segment,
                RegOrOpcode::Register, ImmediateSize::NoImm, with_reversed(flags))?;
            advance(rip, ip_offset);
            Ok((Opcode::Mov, ops))
        },
        0x8F => {
            let (mut ops, ip_offset) = get_operands(memory, *rip, register_size,
                RegOrOpcode::Register, ImmediateSize::NoImm, with_reversed(flags))?;
            ops.operands.1 = None;
            advance(rip, ip_offset);
            Ok((Opcode::Pop, ops))
        },
        _ => decode_one_byte_mid(rip, memory, opcode_byte, register_size, flags, repeat),
    }
}

/// Decode the middle of the one-byte table (exchanges, sign
/// extensions, string operations, moves with immediate).
#[verifier::rlimit(100)]
#[verifier::spinoff_prover]
fn decode_one_byte_mid(rip: &mut i64, memory: &Memory, opcode_byte: u8, register_size:
    RegisterSize, flags: DecFlags, repeat: Repeat) -> (r: Result<(Opcode, Operands), VmError>)
    requires
        mem_inv(memory@),
        register_size == RegisterSize::Bit16 || register_size == RegisterSize::Bit32
            || register_size == RegisterSize::Bit64,
        !flags.op1_xmm && !flags.op2_xmm && !flags.reversed && !flags.sib_displacement_only,
    ensures
        match r {
            Ok((opcode, ops)) => spec_decode_one_byte_mid(memory@, *old(rip), opcode_byte,
                register_size, flags, repeat) == Ok::<(Opcode, Operands, i64), VmError>((
                opcode,
                ops,
                *final(rip),
            )) && wf_instruction(opcode, ops),
            Err(e) => spec_decode_one_byte_mid(memory@, *old(rip), opcode_byte,
                register_size, flags, repeat) == Err::<(Opcode, Operands, i64), VmError>(e),
        },
{
    match opcode_byte {
        0x90 => {
            advance(rip, 1);
            Ok((Opcode::Nop, ops0()))
        },
        opcode_byte @ 0x91..=0x97 => {
            let register1 = get_register(0, register_size, flags.new_64bit_register,
                flags.new_8bit_register);
            let register2 = get_register(opcode_byte - 0x90, register_size,
                flags.new_64bit_register, flags.new_8bit_register);
            advance(rip, 1);
            Ok((
                Opcode::Xchg,
                ops2(Operand::Register(register1), Operand::Register(register2)),
            ))
        },
        0x98 => {
            let (register1, register2) = if flags.operand_16_bit {
                (Register::AL, Register::AX)
            } else if flags.operand_64_bit {
                (Register::EAX, Register::RAX)
            } else {
                (Register::AX, Register::EAX)
            };
            advance(rip, 1);
            Ok((
                Opcode::Mov,
                ops2(Operand::Register(register1), Operand::Register(register2)),
            ))
        },
        0x99 => {
            let (register1, register2) = if flags.operand_16_bit {
                (Register::AX, Register::DX)
            } else if flags.operand_64_bit {
                (Register::RAX, Register::RDX)
            } else {
                (Register::EAX, Register::EDX)
            };
            advance(rip, 1);
            Ok((
                Opcode::Mov,
                ops2(Operand::Register(register1), Operand::Register(register2)),
            ))
        },
        0x9C => {
            advance(rip, 1);
            Ok((Opcode::Pushf, ops0()))
        },
        0x9D => {
            advance(rip, 1);
            Ok((Opcode::Popf, ops0()))
        },
        0xA4 => {
            advance(rip, 1);
            let mut ops = ops0();
            ops.repeat = repeat;
            ops.explicit_size = Some(OperandSize::Bit8);
            Ok((Opcode::Movs, ops))
        },
        0xA5 => {
            let operand_size = if flags.operand_16_bit {
                OperandSize::Bit16
            } else if flags.operand_64_bit {
                OperandSize::Bit64
            } else {
                OperandSize::Bit32
            };
            advance(rip, 1);
            let mut ops = ops0();
            ops.repeat = repeat;
            ops.explicit_size = Some(operand_size);
            Ok((Opcode::Movs, ops))
        },
        0xA8 => {
            let ops = decode_al_immediate(memory, rip)?;
            Ok((Opcode::Test, ops))
        },
        0xA9 => {
            let ops = decode_ax_immediate(memory, rip, register_size, flags)?;
            Ok((Opcode::Test, ops))
        },
        0xAA => {
            advance(rip, 1);
            let mut ops = ops0();
            ops.repeat = repeat;
            ops.explicit_size = Some(OperandSize::Bit8);
            Ok((Opcode::Stos, ops))
        },
        0xAB => {
            advance(rip, 1);
            let operand_size = match register_size {
                RegisterSize::Bit8 => OperandSize::Bit8,
                RegisterSize::Bit16 => OperandSize::Bit16,
                RegisterSize::Bit32 => OperandSize::Bit32,
                RegisterSize::Bit64 => OperandSize::Bit64,
                _ => unreached(),
            };
            let mut ops = ops0();
            ops.repeat = repeat;
            ops.explicit_size = Some(operand_size);
            Ok((Opcode::Stos, ops))
        },
        0xAE => {
            advance(rip, 1);
            let ops = Operands {
                operands: (
                    Some(
                        Operand::EffectiveAddress {
                            base: Some(Register::RDI),
                            index: None,
                            scale: None,
                            displacement: 0,
                        },
                    ),
                    Some(Operand::Register(Register::AL)),
                    None,
                ),
                opcode: None,
                explicit_size: None,
                repeat,
            };
            Ok((Opcode::Scas, ops))
        },
        opcode_byte @ 0xB0..=0xB7 => {
            let immediate = get_u8(memory, *rip, 1)? as i64;
            let register = get_register(opcode_byte - 0xB0, RegisterSize::Bit8,
                flags.new_64bit_register, flags.new_8bit_register);
            advance(rip, 2);
            Ok((
                Opcode::Mov,
                ops2(Operand::Immediate(immediate), Operand::Register(register)),
            ))
        },
        opcode_byte @ 0xB8..=0xBF => {
            let (immediate, ip_offset): (i64, i64) = if flags.operand_64_bit {
                (get_i64(memory, *rip, 1)?, 9)
            } else if flags.operand_16_bit {
                (get_i16(memory, *rip, 1)? as i64, 3)
            } else {
                (get_i32(memory, *rip, 1)? as i64, 5)
            };
            let register = get_register(opcode_byte - 0xB8, register_size,
                flags.new_64bit_register, flags.new_8bit_register);
            advance(rip, ip_offset);
            Ok((
                Opcode::Mov,
                ops2(Operand::Immediate(immediate), Operand::Register(register)),
            ))
        },
        _ => decode_one_byte_high(rip, memory, opcode_byte, register_size, flags),
    }
}

/// Decode the top quarter of the one-byte table (shifts, returns,
/// moves with immediate, the multiplexed groups).
#[verifier::rlimit(100)]
#[verifier::spinoff_prover]
fn decode_one_byte_high(rip: &mut i64, memory: &Memory, opcode_byte: u8, register_size:
    RegisterSize, flags: DecFlags) -> (r: Result<(Opcode, Operands), VmError>)
    requires
        mem_inv(memory@),
        register_size == RegisterSize::Bit16 || register_size == RegisterSize::Bit32
            || register_size == RegisterSize::Bit64,
        !flags.op1_xmm && !flags.op2_xmm && !flags.reversed && !flags.sib_displacement_only,
    ensures
        match r {
            Ok((opcode, ops)) => spec_decode_one_byte_high(memory@, *old(rip), opcode_byte,
                register_size, flags) == Ok::<(Opcode, Operands, i64), VmError>((
                opcode,
                ops,
                *final(rip),
            )) && wf_instruction(opcode, ops),
            Err(e) => spec_decode_one_byte_high(memory@, *old(rip), opcode_byte,
                register_size, flags) == Err::<(Opcode, Operands, i64), VmError>(e),
        },
{
    match opcode_byte {
        0xC0 => {
            let (ops, ip_offset) = get_operands(memory, *rip, RegisterSize::Bit8,
                RegOrOpcode::Opcode, ImmediateSize::Bit8, flags)?;
            advance(rip, ip_offset);
            Ok((Opcode::ShiftRotate, ops))
        },
        0xC1 => {
            let (ops, ip_offset) = get_operands(memory, *rip, register_size,
                RegOrOpcode::Opcode, ImmediateSize::Bit8, flags)?;
            advance(rip, ip_offset);
            Ok((Opcode::ShiftRotate, ops))
        },
        0xC3 => {
            advance(rip, 1);
            Ok((Opcode::Ret, ops0()))
        },
        0xC6 => {
            let (ops, ip_offset) = get_operands(memory, *rip, RegisterSize::Bit8,
                RegOrOpcode::Opcode, ImmediateSize::Bit8, flags)?;
            advance(rip, ip_offset);
            Ok((Opcode::Mov, ops))
        },
        0xC7 => {
            let (ops, ip_offset) = get_operands(memory, *rip, register_size,
                RegOrOpcode::Opcode, ImmediateSize::Bit32, flags)?;
            advance(rip, ip_offset);
            Ok((Opcode::Mov, ops))
        },
        0xC9 => {
            advance(rip, 1);
            Ok((Opcode::Leave, ops0()))
        },
        0xCB => {
            advance(rip, 1);
            Ok((Opcode::Lret, ops0()))
        },
        0xCC => {
            // the in-guest test-failure signal
            Err(VmError::IntThree)
        },
        0xCD => {
            advance(rip, 1);
            Ok((Opcode::Int, ops0()))
        },
        0xD1 => {
            let (ops_in, ip_offset) = get_operands(memory, *rip, register_size,
                RegOrOpcode::Opcode, ImmediateSize::NoImm, flags)?;
            let ops = Operands {
                operands: (Some(Operand::Immediate(1)), ops_in.operands.0, None),
                opcode: ops_in.opcode,
                explicit_size: ops_in.explicit_size,
                repeat: Repeat::Once,
            };
            advance(rip, ip_offset);
            Ok((Opcode::ShiftRotate, ops))
        },
        0xD2 => {
            let (ops_in, ip_offset) = get_operands(memory, *rip, RegisterSize::Bit8,
                RegOrOpcode::Opcode, ImmediateSize::NoImm, flags)?;
            let ops = Operands {
                operands: (
                    Some(Operand::Register(Register::CL)),
                    ops_in.operands.0,
                    None,
                ),
                opcode: ops_in.opcode,
                explicit_size: ops_in.explicit_size,
                repeat: Repeat::Once,
            };
            advance(rip, ip_offset);
            Ok((Opcode::ShiftRotate, ops))
        },
        0xD3 => {
            let (ops_in, ip_offset) = get_operands(memory, *rip, register_size,
                RegOrOpcode::Opcode, ImmediateSize::NoImm, flags)?;
            let size = ops_in.size();
            let ops = Operands {
                operands: (
                    Some(Operand::Register(Register::CL)),
                    ops_in.operands.0,
                    None,
                ),
                opcode: ops_in.opcode,
                explicit_size: Some(size),
                repeat: Repeat::Once,
            };
            advance(rip, ip_offset);
            Ok((Opcode::ShiftRotate, ops))
        },
        _ => decode_one_byte_top(rip, memory, opcode_byte, register_size, flags),
    }
}

/// Decode the top of the one-byte table (relative branches and the
/// multiplexed groups).
#[verifier::rlimit(100)]
#[verifier::spinoff_prover]
fn decode_one_byte_top(rip: &mut i64, memory: &Memory, opcode_byte: u8, register_size:
    RegisterSize, flags: DecFlags) -> (r: Result<(Opcode, Operands), VmError>)
    requires
        mem_inv(memory@),
        register_size == RegisterSize::Bit16 || register_size == RegisterSize::Bit32
            || register_size == RegisterSize::Bit64,
        !flags.op1_xmm && !flags.op2_xmm && !flags.reversed && !flags.sib_displacement_only,
    ensures
        match r {
            Ok((opcode, ops)) => spec_decode_one_byte_top(memory@, *old(rip), opcode_byte,
                register_size, flags) == Ok::<(Opcode, Operands, i64), VmError>((
                opcode,
                ops,
                *final(rip),
            )) && wf_instruction(opcode, ops),
            Err(e) => spec_decode_one_byte_top(memory@, *old(rip), opcode_byte,
                register_size, flags) == Err::<(Opcode, Operands, i64), VmError>(e),
        },
{
    match opcode_byte {
        0xE8 => {
            let immediate = get_i32(memory, *rip, 1)?;
            advance(rip, 5);
            Ok((Opcode::Call, ops1(Operand::Immediate(immediate as i64))))
        },
        0xE9 => {
            let immediate = get_i32(memory, *rip, 1)?;
            advance(rip, 5);
            Ok((Opcode::Jmp, ops1(Operand::Immediate(immediate as i64))))
        },
        0xEB => {
            let ops = read_immediate_8bit(memory, rip)?;
            Ok((Opcode::Jmp, ops))
        },
        0xEE => {
            advance(rip, 1);
            Ok((Opcode::Out, ops0()))
        },
        _ => decode_one_byte_mux(rip, memory, opcode_byte, register_size, flags),
    }
}

/// Decode the multiplexed groups at the top of the one-byte table.
#[verifier::rlimit(100)]
#[verifier::spinoff_prover]
fn decode_one_byte_mux(rip: &mut i64, memory: &Memory, opcode_byte: u8, register_size:
    RegisterSize, flags: DecFlags) -> (r: Result<(Opcode, Operands), VmError>)
    requires
        mem_inv(memory@),
        register_size == RegisterSize::Bit16 || register_size == RegisterSize::Bit32
            || register_size == RegisterSize::Bit64,
        !flags.op1_xmm && !flags.op2_xmm && !flags.reversed && !flags.sib_displacement_only,
    ensures
        match r {
            Ok((opcode, ops)) => spec_decode_one_byte_mux(memory@, *old(rip), opcode_byte,
                register_size, flags) == Ok::<(Opcode, Operands, i64), VmError>((
                opcode,
                ops,
                *final(rip),
            )) && wf_instruction(opcode, ops),
            Err(e) => spec_decode_one_byte_mux(memory@, *old(rip), opcode_byte, register_size,
                flags) == Err::<(Opcode, Operands, i64), VmError>(e),
        },
{
    match opcode_byte {
        0xF6 => {
            let modrm = get_u8(memory, *rip, 1)?;
            let ext = (modrm & 0b0011_1000) >> 3u8;
            proof {
                assert(ext <= 7) by (bit_vector)
                    requires ext == (modrm & 0b0011_1000) >> 3u8,
                ;
            }
            let (ops, ip_offset) = if ext <= 1 {
                get_operands(memory, *rip, RegisterSize::Bit8, RegOrOpcode::Opcode,
                    ImmediateSize::Bit8, flags)?
            } else if ext == 2 || ext == 3 {
                get_operands(memory, *rip, RegisterSize::Bit8, RegOrOpcode::Opcode,
                    ImmediateSize::NoImm, flags)?
            } else {
                return Err(VmError::UnknownOpcode(opcode_byte));
            };
            let recorded = match ops.opcode {
                Some(recorded) => recorded,
                None => unreached(),
            };
            if ext <= 1 {
                if recorded > 1 {
                    return Err(VmError::UnknownOpcode(opcode_byte));
                }
            } else {
                if recorded <= 1 || recorded > 3 {
                    return Err(VmError::UnknownOpcode(opcode_byte));
                }
            }
            advance(rip, ip_offset);
            Ok((Opcode::CompareMulOperation, ops))
        },
        0xF7 => {
            let modrm = get_u8(memory, *rip, 1)?;
            let ext = (modrm & 0b0011_1000) >> 3u8;
            proof {
                assert(ext <= 7) by (bit_vector)
                    requires ext == (modrm & 0b0011_1000) >> 3u8,
                ;
            }
            let (ops, ip_offset) = if ext <= 1 {
                get_operands(memory, *rip, register_size, RegOrOpcode::Opcode,
                    ImmediateSize::Bit32, flags)?
            } else {
                get_operands(memory, *rip, register_size, RegOrOpcode::Opcode,
                    ImmediateSize::NoImm, flags)?
            };
            let recorded = match ops.opcode {
                Some(recorded) => recorded,
                None => unreached(),
            };
            if ext <= 1 {
                if recorded > 1 {
                    return Err(VmError::UnknownOpcode(opcode_byte));
                }
            } else {
                if recorded <= 1 {
                    return Err(VmError::UnknownOpcode(opcode_byte));
                }
            }
            advance(rip, ip_offset);
            Ok((Opcode::CompareMulOperation, ops))
        },
        _ => decode_one_byte_flags_group(rip, memory, opcode_byte, register_size, flags),
    }
}

/// Decode the direction-flag writes and the inc/dec/call/jmp/push
/// group at the very top of the one-byte table.
#[verifier::rlimit(100)]
#[verifier::spinoff_prover]
fn decode_one_byte_flags_group(rip: &mut i64, memory: &Memory, opcode_byte: u8,
    register_size: RegisterSize, flags: DecFlags) -> (r: Result<(Opcode, Operands), VmError>)
    requires
        mem_inv(memory@),
        register_size == RegisterSize::Bit16 || register_size == RegisterSize::Bit32
            || register_size == RegisterSize::Bit64,
        !flags.op1_xmm && !flags.op2_xmm && !flags.reversed && !flags.sib_displacement_only,
    ensures
        match r {
            Ok((opcode, ops)) => spec_decode_one_byte_flags_group(memory@, *old(rip),
                opcode_byte, register_size, flags) == Ok::<(Opcode, Operands, i64), VmError>((
                opcode,
                ops,
                *final(rip),
            )) && wf_instruction(opcode, ops),
            Err(e) => spec_decode_one_byte_flags_group(memory@, *old(rip), opcode_byte,
                register_size, flags) == Err::<(Opcode, Operands, i64), VmError>(e),
        },
{
    match opcode_byte {
        0xFA => {
            advance(rip, 1);
            Ok((Opcode::Nop, ops0()))
        },
        0xFB => {
            advance(rip, 1);
            Ok((Opcode::Nop, ops0()))
        },
        0xFC => {
            advance(rip, 1);
            Ok((Opcode::Cld, ops0()))
        },
        0xFD => {
            advance(rip, 1);
            Ok((Opcode::Std, ops0()))
        },
        0xFE => {
            let (ops, ip_offset) = get_operands(memory, *rip, RegisterSize::Bit8,
                RegOrOpcode::Opcode, ImmediateSize::NoImm, flags)?;
            let ext = match ops.opcode {
                Some(ext) => ext,
                None => unreached(),
            };
            if ext > 1 {
                return Err(VmError::UnknownOpcode(opcode_byte));
            }
            advance(rip, ip_offset);
            Ok((Opcode::RegisterOperation, ops))
        },
        0xFF => {
            let modrm = get_u8(memory, *rip, 1)?;
            let ext = (modrm & 0b0011_1000) >> 3u8;
            proof {
                assert(ext <= 7) by (bit_vector)
                    requires ext == (modrm & 0b0011_1000) >> 3u8,
                ;
            }
            if ext == 7 {
                return Err(VmError::UnknownOpcode(opcode_byte));
            }
            // an indirect near call or jump always works on 64 bits
            let target_size = if ext == 2 || ext == 4 {
                RegisterSize::Bit64
            } else {
                register_size
            };
            let (ops_in, ip_offset) = get_operands(memory, *rip, target_size,
                RegOrOpcode::Register, ImmediateSize::NoImm, with_reversed(flags))?;
            let ops = Operands {
                operands: (ops_in.operands.0, None, None),
                opcode: Some(ext),
                explicit_size: None,
                repeat: Repeat::Once,
            };
            if ext == 6 {
                let bad = match ops.operands.0 {
                    Some(Operand::Register(register)) => {
                        let rs = crate::instruction::get_register_size(register);
                        rs != OperandSize::Bit32 && rs != OperandSize::Bit64
                    },
                    _ => false,
                };
                if bad {
                    // a 16-bit push is not supported
                    return Err(VmError::UnsupportedInstruction);
                }
            }
            advance(rip, ip_offset);
            Ok((Opcode::RegisterOperation, ops))
        },
        _ => Err(VmError::UnknownOpcode(opcode_byte)),
    }
}

/// Decode the two-byte table (after the 0x0F escape byte).
#[verifier::rlimit(100)]
#[verifier::spinoff_prover]
fn decode_two_byte(rip: &mut i64, memory: &Memory, register_size: RegisterSize, flags:
    DecFlags) -> (r: Result<(Opcode, Operands), VmError>)
    requires
        mem_inv(memory@),
        register_size == RegisterSize::Bit16 || register_size == RegisterSize::Bit32
            || register_size == RegisterSize::Bit64,
        !flags.op1_xmm && !flags.op2_xmm && !flags.reversed && !flags.sib_displacement_only,
    ensures
        match r {
            Ok((opcode, ops)) => spec_decode_two_byte(memory@, *old(rip), register_size, flags) == Ok::<(Opcode, Operands, i64), VmError>((
                opcode,
                ops,
                *final(rip),
            )) && wf_instruction(opcode, ops),
            Err(e) => spec_decode_two_byte(memory@, *old(rip), register_size, flags) == Err::<(Opcode, Operands, i64), VmError>(e),
        },
{
    let second = get_u8(memory, *rip, 0)?;
    match second {
        0x01 => {
            let modrm = get_u8(memory, *rip, 1)?;
            let ext = (modrm & 0b0011_1000) >> 3u8;
            if ext == 2 || ext == 3 {
                let (ops_in, ip_offset) = get_operands(memory, *rip, register_size,
                    RegOrOpcode::Opcode, ImmediateSize::Bit32, flags)?;
                let target = match ops_in.operands.1 {
                    Some(o) => o,
                    None => unreached(),
                };
                let ops = Operands {
                    operands: (Some(target), None, None),
                    opcode: ops_in.opcode,
                    explicit_size: ops_in.explicit_size,
                    repeat: Repeat::Once,
                };
                advance(rip, ip_offset - 4);
                if ext == 2 {
                    Ok((Opcode::Lgdt, ops))
                } else {
                    Ok((Opcode::Lidt, ops))
                }
            } else {
                Err(VmError::UnknownOpcode(second))
            }
        },
        0x05 => {
            advance(rip, 1);
            Ok((Opcode::Syscall, ops0()))
        },
        0x0B => {
            advance(rip, 1);
            Ok((Opcode::Ud2, ops0()))
        },
        0x10 | 0x28 => {
            let (ops, ip_offset) = get_operands(memory, *rip, RegisterSize::Bit128,
                RegOrOpcode::Register, ImmediateSize::NoImm, with_xmm_both(flags))?;
            advance(rip, ip_offset);
            Ok((Opcode::Movps, ops))
        },
        0x11 | 0x29 => {
            let (ops, ip_offset) = get_operands(memory, *rip, RegisterSize::Bit128,
                RegOrOpcode::Register, ImmediateSize::NoImm,
                with_reversed(with_xmm_both(flags)))?;
            advance(rip, ip_offset);
            Ok((Opcode::Movps, ops))
        },
        0x1F => {
            let (_ops, ip_offset) = get_operands(memory, *rip, register_size,
                RegOrOpcode::Register, ImmediateSize::NoImm, with_reversed(flags))?;
            advance(rip, ip_offset);
            Ok((Opcode::Nop, ops0()))
        },
        0x20 => {
            let (ops_in, ip_offset) = get_operands(memory, *rip, RegisterSize::Bit64,
                RegOrOpcode::Register, ImmediateSize::NoImm, flags)?;
            let register = match ops_in.operands.0 {
                Some(Operand::Register(Register::R8)) => Register::CR8,
                Some(Operand::Register(Register::RAX)) => Register::CR0,
                Some(Operand::Register(Register::RDX)) => Register::CR2,
                Some(Operand::Register(Register::RBX)) => Register::CR3,
                Some(Operand::Register(Register::RSP)) => Register::CR4,
                _ => {
                    return Err(VmError::UnknownOpcode(second));
                },
            };
            let ops = Operands {
                operands: (
                    Some(Operand::Register(register)),
                    ops_in.operands.1,
                    None,
                ),
                opcode: None,
                explicit_size: None,
                repeat: Repeat::Once,
            };
            advance(rip, ip_offset);
            Ok((Opcode::Mov, ops))
        },
        0x22 => {
            let (ops_in, ip_offset) = get_operands(memory, *rip, RegisterSize::Bit64,
                RegOrOpcode::Register, ImmediateSize::NoImm, with_reversed(flags))?;
            let register = match ops_in.operands.1 {
                Some(Operand::Register(Register::R8)) => Register::CR8,
                Some(Operand::Register(Register::RAX)) => Register::CR0,
                Some(Operand::Register(Register::RDX)) => Register::CR2,
                Some(Operand::Register(Register::RBX)) => Register::CR3,
                Some(Operand::Register(Register::RSP)) => Register::CR4,
                _ => {
                    return Err(VmError::UnknownOpcode(second));
                },
            };
            let ops = Operands {
                operands: (
                    ops_in.operands.0,
                    Some(Operand::Register(register)),
                    None,
                ),
                opcode: None,
                explicit_size: None,
                repeat: Repeat::Once,
            };
            advance(rip, ip_offset);
            Ok((Opcode::Mov, ops))
        },
        0x2A => {
            let mut f = flags;
            f.op1_xmm = true;
            let (ops, ip_offset) = get_operands(memory, *rip, register_size,
                RegOrOpcode::Register, ImmediateSize::NoImm, f)?;
            advance(rip, ip_offset);
            Ok((Opcode::Cvtpi2ps, ops))
        },
        0x2C => {
            let (ops, ip_offset) = get_operands(memory, *rip, register_size,
                RegOrOpcode::Register, ImmediateSize::NoImm, with_xmm_both(flags))?;
            advance(rip, ip_offset);
            Ok((Opcode::Cvttps2pi, ops))
        },
        0x30 => {
            advance(rip, 1);
            Ok((Opcode::Wrmsr, ops0()))
        },
        0x32 => {
            advance(rip, 1);
            Ok((Opcode::Rdmsr, ops0()))
        },
        second @ 0x80..=0xBF => decode_two_byte_high(rip, memory, second, register_size,
            flags),
        _ => decode_two_byte_cmov(rip, memory, second, register_size, flags),
    }
}

/// Decode the conditional moves and the packed group of the two-byte
/// table.
#[verifier::rlimit(100)]
#[verifier::spinoff_prover]
fn decode_two_byte_cmov(rip: &mut i64, memory: &Memory, second: u8, register_size:
    RegisterSize, flags: DecFlags) -> (r: Result<(Opcode, Operands), VmError>)
    requires
        mem_inv(memory@),
        register_size == RegisterSize::Bit16 || register_size == RegisterSize::Bit32
            || register_size == RegisterSize::Bit64,
        !flags.op1_xmm && !flags.op2_xmm && !flags.reversed && !flags.sib_displacement_only,
    ensures
        match r {
            Ok((opcode, ops)) => spec_decode_two_byte_cmov(memory@, *old(rip), second,
                register_size, flags) == Ok::<(Opcode, Operands, i64), VmError>((
                opcode,
                ops,
                *final(rip),
            )) && wf_instruction(opcode, ops),
            Err(e) => spec_decode_two_byte_cmov(memory@, *old(rip), second,
                register_size, flags) == Err::<(Opcode, Operands, i64), VmError>(e),
        },
{
    match second {
            0x40 => {
                let (ops, ip_offset) = get_operands(memory, *rip, register_size,
                    RegOrOpcode::Register, ImmediateSize::NoImm, with_reversed(flags))?;
                advance(rip, ip_offset);
                Ok((Opcode::Cmovo, ops))
            },
            0x41 => {
                let (ops, ip_offset) = get_operands(memory, *rip, register_size,
                    RegOrOpcode::Register, ImmediateSize::NoImm, with_reversed(flags))?;
                advance(rip, ip_offset);
                Ok((Opcode::Cmovno, ops))
            },
            0x42 => {
                let (ops, ip_offset) = get_operands(memory, *rip, register_size,
                    RegOrOpcode::Register, ImmediateSize::NoImm, with_reversed(flags))?;
                advance(rip, ip_offset);
                Ok((Opcode::Cmovb, ops))
            },
            0x43 => {
                let (ops, ip_offset) = get_operands(memory, *rip, register_size,
                    RegOrOpcode::Register, ImmediateSize::NoImm, with_reversed(flags))?;
                advance(rip, ip_offset);
                Ok((Opcode::Cmovae, ops))
            },
            0x44 => {
                let (ops, ip_offset) = get_operands(memory, *rip, register_size,
                    RegOrOpcode::Register, ImmediateSize::NoImm, with_reversed(flags))?;
                advance(rip, ip_offset);
                Ok((Opcode::Cmove, ops))
            },
            0x45 => {
                let (ops, ip_offset) = get_operands(memory, *rip, register_size,
                    RegOrOpcode::Register, ImmediateSize::NoImm, with_reversed(flags))?;
                advance(rip, ip_offset);
                Ok((Opcode::Cmovne, ops))
            },
            0x46 => {
                let (ops, ip_offset) = get_operands(memory, *rip, register_size,
                    RegOrOpcode::Register, ImmediateSize::NoImm, with_reversed(flags))?;
                advance(rip, ip_offset);
                Ok((Opcode::Cmovbe, ops))
            },
            0x47 => {
                let (ops, ip_offset) = get_operands(memory, *rip, register_size,
                    RegOrOpcode::Register, ImmediateSize::NoImm, with_reversed(flags))?;
                advance(rip, ip_offset);
                Ok((Opcode::Cmova, ops))
            },
            0x48 => {
                let (ops, ip_offset) = get_operands(memory, *rip, register_size,
                    RegOrOpcode::Register, ImmediateSize::NoImm, with_reversed(flags))?;
                advance(rip, ip_offset);
                Ok((Opcode::Cmovs, ops))
            },
            0x49 => {
                let (ops, ip_offset) = get_operands(memory, *rip, register_size,
                    RegOrOpcode::Register, ImmediateSize::NoImm, with_reversed(flags))?;
                advance(rip, ip_offset);
                Ok((Opcode::Cmovns, ops))
            },
            0x4a => {
                let (ops, ip_offset) = get_operands(memory, *rip, register_size,
                    RegOrOpcode::Register, ImmediateSize::NoImm, with_reversed(flags))?;
                advance(rip, ip_offset);
                Ok((Opcode::Cmovp, ops))
            },
            0x4b => {
                let (ops, ip_offset) = get_operands(memory, *rip, register_size,
                    RegOrOpcode::Register, ImmediateSize::NoImm, with_reversed(flags))?;
                advance(rip, ip_offset);
                Ok((Opcode::Cmovnp, ops))
            },
            0x4c => {
                let (ops, ip_offset) = get_operands(memory, *rip, register_size,
                    RegOrOpcode::Register, ImmediateSize::NoImm, with_reversed(flags))?;
                advance(rip, ip_offset);
                Ok((Opcode::Cmovl, ops))
            },
            0x4d => {
                let (ops, ip_offset) = get_operands(memory, *rip, register_size,
                    RegOrOpcode::Register, ImmediateSize::NoImm, with_reversed(flags))?;
                advance(rip, ip_offset);
                Ok((Opcode::Cmovge, ops))
            },
            0x4e => {
                let (ops, ip_offset) = get_operands(memory, *rip, register_size,
                    RegOrOpcode::Register, ImmediateSize::NoImm, with_reversed(flags))?;
                advance(rip, ip_offset);
                Ok((Opcode::Cmovle, ops))
            },
            0x4f => {
                let (ops, ip_offset) = get_operands(memory, *rip, register_size,
                    RegOrOpcode::Register, ImmediateSize::NoImm, with_reversed(flags))?;
                advance(rip, ip_offset);
                Ok((Opcode::Cmovg, ops))
            },
        // the packed logical and arithmetic group: decoded, not
        // interpreted (its semantics are floating point)
        second @ (0x55 | 0x56 | 0x57 | 0x58 | 0x59 | 0x5C | 0x5E) => {
            let (ops, ip_offset) = get_operands(memory, *rip, RegisterSize::Bit128,
                RegOrOpcode::Register, ImmediateSize::NoImm, with_xmm_both(flags))?;
            advance(rip, ip_offset);
            let opcode = if second == 0x59 {
                Opcode::Fmul
            } else if second == 0x5C {
                Opcode::Fsub
            } else if second == 0x5E {
                Opcode::Fdiv
            } else {
                Opcode::Fadd
            };
            Ok((opcode, ops))
        },
        0x6E => {
            if !flags.operand_16_bit {
                return Err(VmError::UnknownOpcode(second));
            }
            let mut f = flags;
            f.op1_xmm = true;
            let (ops, ip_offset) = get_operands(memory, *rip, RegisterSize::Bit128,
                RegOrOpcode::Register, ImmediateSize::NoImm, f)?;
            advance(rip, ip_offset);
            Ok((Opcode::Movd, ops))
        },
        0x7E => {
            if !flags.operand_16_bit {
                return Err(VmError::UnknownOpcode(second));
            }
            let mut f = flags;
            f.op1_xmm = true;
            f.reversed = true;
            let (ops, ip_offset) = get_operands(memory, *rip, RegisterSize::Bit128,
                RegOrOpcode::Register, ImmediateSize::NoImm, f)?;
            advance(rip, ip_offset);
            Ok((Opcode::Movd, ops))
        },
            _ => Err(VmError::UnknownOpcode(second)),
    }
}

/// Decode the upper half of the two-byte table (conditional jumps and
/// sets, bit tests, widening moves).
#[verifier::rlimit(100)]
#[verifier::spinoff_prover]
fn decode_two_byte_high(rip: &mut i64, memory: &Memory, second: u8, register_size:
    RegisterSize, flags: DecFlags) -> (r: Result<(Opcode, Operands), VmError>)
    requires
        mem_inv(memory@),
        register_size == RegisterSize::Bit16 || register_size == RegisterSize::Bit32
            || register_size == RegisterSize::Bit64,
        !flags.op1_xmm && !flags.op2_xmm && !flags.reversed && !flags.sib_displacement_only,
    ensures
        match r {
            Ok((opcode, ops)) => spec_decode_two_byte_high(memory@, *old(rip), second,
                register_size, flags) == Ok::<(Opcode, Operands, i64), VmError>((
                opcode,
                ops,
                *final(rip),
            )) && wf_instruction(opcode, ops),
            Err(e) => spec_decode_two_byte_high(memory@, *old(rip), second,
                register_size, flags) == Err::<(Opcode, Operands, i64), VmError>(e),
        },
{
    match second {
        0x80 => {
                let immediate = get_i32(memory, *rip, 1)? as i64;
                advance(rip, 5);
                Ok((Opcode::Jo, ops1(Operand::Immediate(immediate))))
            },
            0x81 => {
                let immediate = get_i32(memory, *rip, 1)? as i64;
                advance(rip, 5);
                Ok((Opcode::Jno, ops1(Operand::Immediate(immediate))))
            },
            0x82 => {
                let immediate = get_i32(memory, *rip, 1)? as i64;
                advance(rip, 5);
                Ok((Opcode::Jb, ops1(Operand::Immediate(immediate))))
            },
            0x83 => {
                let immediate = get_i32(memory, *rip, 1)? as i64;
                advance(rip, 5);
                Ok((Opcode::Jae, ops1(Operand::Immediate(immediate))))
            },
            0x84 => {
                let immediate = get_i32(memory, *rip, 1)? as i64;
                advance(rip, 5);
                Ok((Opcode::Je, ops1(Operand::Immediate(immediate))))
            },
            0x85 => {
                let immediate = get_i32(memory, *rip, 1)? as i64;
                advance(rip, 5);
                Ok((Opcode::Jne, ops1(Operand::Immediate(immediate))))
            },
            0x86 => {
                let immediate = get_i32(memory, *rip, 1)? as i64;
                advance(rip, 5);
                Ok((Opcode::Jbe, ops1(Operand::Immediate(immediate))))
            },
            0x87 => {
                let immediate = get_i32(memory, *rip, 1)? as i64;
                advance(rip, 5);
                Ok((Opcode::Ja, ops1(Operand::Immediate(immediate))))
            },
            0x88 => {
                let immediate = get_i32(memory, *rip, 1)? as i64;
                advance(rip, 5);
                Ok((Opcode::Js, ops1(Operand::Immediate(immediate))))
            },
            0x89 => {
                let immediate = get_i32(memory, *rip, 1)? as i64;
                advance(rip, 5);
                Ok((Opcode::Jns, ops1(Operand::Immediate(immediate))))
            },
            0x8a => {
                let immediate = get_i32(memory, *rip, 1)? as i64;
                advance(rip, 5);
                Ok((Opcode::Jp, ops1(Operand::Immediate(immediate))))
            },
            0x8b => {
                let immediate = get_i32(memory, *rip, 1)? as i64;
                advance(rip, 5);
                Ok((Opcode::Jnp, ops1(Operand::Immediate(immediate))))
            },
            0x8c => {
                let immediate = get_i32(memory, *rip, 1)? as i64;
                advance(rip, 5);
                Ok((Opcode::Jl, ops1(Operand::Immediate(immediate))))
            },
            0x8d => {
                let immediate = get_i32(memory, *rip, 1)? as i64;
                advance(rip, 5);
                Ok((Opcode::Jge, ops1(Operand::Immediate(immediate))))
            },
            0x8e => {
                let immediate = get_i32(memory, *rip, 1)? as i64;
                advance(rip, 5);
                Ok((Opcode::Jle, ops1(Operand::Immediate(immediate))))
            },
            0x8f => {
                let immediate = get_i32(memory, *rip, 1)? as i64;
                advance(rip, 5);
                Ok((Opcode::Jg, ops1(Operand::Immediate(immediate))))
            },
            _ => decode_two_byte_setcc(rip, memory, second, register_size, flags),
    }
}

/// The byte target of a conditional set: the register side of the
/// ModR/M byte is discarded and the r/m side becomes the single
/// operand.
fn decode_setcc_operand(rip: &mut i64, memory: &Memory, flags: DecFlags) -> (r: Result<
    Operands,
    VmError,
>)
    requires
        mem_inv(memory@),
        !flags.op1_xmm && !flags.op2_xmm,
    ensures
        match r {
            Ok(ops) => spec_decode_setcc_operand(memory@, *old(rip), flags) == Ok::<
                (Operands, i64),
                VmError,
            >((ops, *final(rip))),
            Err(e) => spec_decode_setcc_operand(memory@, *old(rip), flags) == Err::<
                (Operands, i64),
                VmError,
            >(e),
        },
        match r {
            Ok(ops) => wf_one_write(ops),
            Err(_) => true,
        },
{
    let (mut ops, ip_offset) = get_operands(memory, *rip, RegisterSize::Bit8,
        RegOrOpcode::Register, ImmediateSize::NoImm, flags)?;
    ops.operands.0 = match ops.operands.1 {
        Some(o) => Some(o),
        None => unreached(),
    };
    ops.operands.1 = None;
    advance(rip, ip_offset);
    Ok(ops)
}

/// Decode the conditional byte sets of the two-byte table.
#[verifier::rlimit(100)]
#[verifier::spinoff_prover]
fn decode_two_byte_setcc(rip: &mut i64, memory: &Memory, second: u8, register_size:
    RegisterSize, flags: DecFlags) -> (r: Result<(Opcode, Operands), VmError>)
    requires
        mem_inv(memory@),
        register_size == RegisterSize::Bit16 || register_size == RegisterSize::Bit32
            || register_size == RegisterSize::Bit64,
        !flags.op1_xmm && !flags.op2_xmm && !flags.reversed && !flags.sib_displacement_only,
    ensures
        match r {
            Ok((opcode, ops)) => spec_decode_two_byte_setcc(memory@, *old(rip), second,
                register_size, flags) == Ok::<(Opcode, Operands, i64), VmError>((
                opcode,
                ops,
                *final(rip),
            )) && wf_instruction(opcode, ops),
            Err(e) => spec_decode_two_byte_setcc(memory@, *old(rip), second,
                register_size, flags) == Err::<(Opcode, Operands, i64), VmError>(e),
        },
{
    match second {
        0x90 => {
            let ops = decode_setcc_operand(rip, memory, flags)?;
            Ok((Opcode::Seto, ops))
        },
        0x91 => {
            let ops = decode_setcc_operand(rip, memory, flags)?;
            Ok((Opcode::Setno, ops))
        },
        0x92 => {
            let ops = decode_setcc_operand(rip, memory, flags)?;
            Ok((Opcode::Setb, ops))
        },
        0x93 => {
            let ops = decode_setcc_operand(rip, memory, flags)?;
            Ok((Opcode::Setae, ops))
        },
        0x94 => {
            let ops = decode_setcc_operand(rip, memory, flags)?;
            Ok((Opcode::Sete, ops))
        },
        0x95 => {
            let ops = decode_setcc_operand(rip, memory, flags)?;
            Ok((Opcode::Setne, ops))
        },
        0x96 => {
            let ops = decode_setcc_operand(rip, memory, flags)?;
            Ok((Opcode::Setbe, ops))
        },
        0x97 => {
            let ops = decode_setcc_operand(rip, memory, flags)?;
            Ok((Opcode::Seta, ops))
        },
        0x98 => {
            let ops = decode_setcc_operand(rip, memory, flags)?;
            Ok((Opcode::Sets, ops))
        },
        0x99 => {
            let ops = decode_setcc_operand(rip, memory, flags)?;
            Ok((Opcode::Setns, ops))
        },
        0x9a => {
            let ops = decode_setcc_operand(rip, memory, flags)?;
            Ok((Opcode::Setp, ops))
        },
        0x9b => {
            let ops = decode_setcc_operand(rip, memory, flags)?;
            Ok((Opcode::Setnp, ops))
        },
        0x9c => {
            let ops = decode_setcc_operand(rip, memory, flags)?;
            Ok((Opcode::Setl, ops))
        },
        0x9d => {
            let ops = decode_setcc_operand(rip, memory, flags)?;
            Ok((Opcode::Setge, ops))
        },
        0x9e => {
            let ops = decode_setcc_operand(rip, memory, flags)?;
            Ok((Opcode::Setle, ops))
        },
        0x9f => {
            let ops = decode_setcc_operand(rip, memory, flags)?;
            Ok((Opcode::Setg, ops))
        },
        _ => decode_two_byte_top(rip, memory, second, register_size, flags),
    }
}

/// Decode the top of the two-byte table (bit tests, exchanges and
/// widening moves).
#[verifier::rlimit(100)]
#[verifier::spinoff_prover]
fn decode_two_byte_top(rip: &mut i64, memory: &Memory, second: u8, register_size:
    RegisterSize, flags: DecFlags) -> (r: Result<(Opcode, Operands), VmError>)
    requires
        mem_inv(memory@),
        register_size == RegisterSize::Bit16 || register_size == RegisterSize::Bit32
            || register_size == RegisterSize::Bit64,
        !flags.op1_xmm && !flags.op2_xmm && !flags.reversed && !flags.sib_displacement_only,
    ensures
        match r {
            Ok((opcode, ops)) => spec_decode_two_byte_top(memory@, *old(rip), second,
                register_size, flags) == Ok::<(Opcode, Operands, i64), VmError>((
                opcode,
                ops,
                *final(rip),
            )) && wf_instruction(opcode, ops),
            Err(e) => spec_decode_two_byte_top(memory@, *old(rip), second,
                register_size, flags) == Err::<(Opcode, Operands, i64), VmError>(e),
        },
{
    match second {
        0xA2 => {
            advance(rip, 1);
            Ok((Opcode::Cpuid, ops0()))
        },
        0xA3 => {
            let ops = decode_reg_reg(memory, rip, register_size, flags)?;
            Ok((Opcode::Bt, ops))
        },
        0xAB => {
            let ops = decode_reg_reg(memory, rip, register_size, flags)?;
            Ok((Opcode::Bts, ops))
        },
        0xAF => {
            let (ops, ip_offset) = get_operands(memory, *rip, register_size,
                RegOrOpcode::Register, ImmediateSize::NoImm, with_reversed(flags))?;
            advance(rip, ip_offset);
            Ok((Opcode::Imul, ops))
        },
        0xB0 => {
            let (ops, ip_offset) = get_operands(memory, *rip, RegisterSize::Bit8,
                RegOrOpcode::Register, ImmediateSize::NoImm, flags)?;
            advance(rip, ip_offset);
            Ok((Opcode::Cmpxchg, ops))
        },
        0xB1 => {
            let (ops, ip_offset) = get_operands(memory, *rip, register_size,
                RegOrOpcode::Register, ImmediateSize::NoImm, flags)?;
            advance(rip, ip_offset);
            Ok((Opcode::Cmpxchg, ops))
        },
        0xB3 => {
            let ops = decode_reg_reg(memory, rip, register_size, flags)?;
            Ok((Opcode::Btr, ops))
        },
        0xB6 => {
            let (mut ops, ip_offset) = get_operands(memory, *rip, register_size,
                RegOrOpcode::Register, ImmediateSize::NoImm, with_reversed(flags))?;
            override_operand_size(memory, *rip, &mut ops, OperandSize::Bit8, &flags)?;
            advance(rip, ip_offset);
            Ok((Opcode::Movzx, ops))
        },
        0xB7 => {
            let (mut ops, ip_offset) = get_operands(memory, *rip, register_size,
                RegOrOpcode::Register, ImmediateSize::NoImm, with_reversed(flags))?;
            override_operand_size(memory, *rip, &mut ops, OperandSize::Bit16, &flags)?;
            advance(rip, ip_offset);
            Ok((Opcode::Movzx, ops))
        },
        0xBA => {
            let (ops, ip_offset) = get_operands(memory, *rip, register_size,
                RegOrOpcode::Opcode, ImmediateSize::Bit8, flags)?;
            advance(rip, ip_offset);
            Ok((Opcode::BitManipulation, ops))
        },
        0xBB => {
            let ops = decode_reg_reg(memory, rip, register_size, flags)?;
            Ok((Opcode::Btc, ops))
        },
        0xBE => {
            let (mut ops, ip_offset) = get_operands(memory, *rip, register_size,
                RegOrOpcode::Register, ImmediateSize::NoImm, with_reversed(flags))?;
            override_operand_size(memory, *rip, &mut ops, OperandSize::Bit8, &flags)?;
            advance(rip, ip_offset);
            Ok((Opcode::Movsx, ops))
        },
        0xBF => {
            let (mut ops, ip_offset) = get_operands(memory, *rip, register_size,
                RegOrOpcode::Register, ImmediateSize::NoImm, with_reversed(flags))?;
            override_operand_size(memory, *rip, &mut ops, OperandSize::Bit16, &flags)?;
            advance(rip, ip_offset);
            Ok((Opcode::Movsx, ops))
        },
        _ => Err(VmError::UnknownOpcode(second)),
    }
}

} // verus!
