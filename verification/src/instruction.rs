use vstd::prelude::*;

verus! {

/// Identifier for every architectural register the emulator knows:
/// the sixteen 64-bit general-purpose registers and RIP, the control
/// registers, the 32/16/8-bit aliases, the segment selectors and the
/// sixteen 128-bit vector registers.
#[derive(Debug, Copy, Clone, PartialEq, Eq, Structural)]
pub enum Register {
    // 128 bit
    XMM0, XMM1, XMM2, XMM3, XMM4, XMM5, XMM6, XMM7,
    XMM8, XMM9, XMM10, XMM11, XMM12, XMM13, XMM14, XMM15,
    // 64 bit
    RAX, RBX, RCX, RDX, RSP, RBP, RSI, RDI,
    R8, R9, R10, R11, R12, R13, R14, R15,
    RIP,
    CR0, CR2, CR3, CR4, CR8,
    // 32 bit
    EAX, EBX, ECX, EDX, ESP, EBP, ESI, EDI,
    R8D, R9D, R10D, R11D, R12D, R13D, R14D, R15D,
    // 16 bit
    AX, CX, DX, BX, SP, BP, SI, DI,
    R8W, R9W, R10W, R11W, R12W, R13W, R14W, R15W,
    // 8 bit
    AL, CL, DL, BL, AH, CH, DH, BH,
    SPL, BPL, SIL, DIL,
    R8B, R9B, R10B, R11B, R12B, R13B, R14B, R15B,
    ES, CS, SS, DS, FS, GS,
}

/// The status bits of RFLAGS that the interpreter computes or reads.
#[derive(Debug, Copy, Clone, PartialEq, Eq, Structural)]
pub enum Flags {
    Carry,
    Parity,
    Zero,
    Sign,
    Direction,
    Overflow,
}

/// Bit mask of a flag inside RFLAGS: Carry=bit 0, Parity=bit 2,
/// Zero=bit 6, Sign=bit 7, Direction=bit 10, Overflow=bit 11.
pub open spec fn spec_flag_mask(flag: Flags) -> u64 {
    match flag {
        Flags::Carry => 0x1,
        Flags::Parity => 0x4,
        Flags::Zero => 0x40,
        Flags::Sign => 0x80,
        Flags::Direction => 0x400,
        Flags::Overflow => 0x800,
    }
}

#[verifier::when_used_as_spec(spec_flag_mask)]
pub fn flag_mask(flag: Flags) -> (r: u64)
    ensures
        r == spec_flag_mask(flag),
{
    match flag {
        Flags::Carry => 0x1,
        Flags::Parity => 0x4,
        Flags::Zero => 0x40,
        Flags::Sign => 0x80,
        Flags::Direction => 0x400,
        Flags::Overflow => 0x800,
    }
}

/// Repeat prefix carried from the decoder into string operations.
#[derive(Debug, Copy, Clone, PartialEq, Eq, Structural)]
pub enum Repeat {
    Once,
    Equal,
    NotEqual,
}

/// Register width class used while decoding.
#[derive(Debug, Copy, Clone, PartialEq, Eq, Structural)]
pub enum RegisterSize {
    Bit8,
    Bit16,
    Bit32,
    Bit64,
    Bit128,
    Segment,
}

/// Width at which an operation reads, computes and writes.
#[derive(Debug, Copy, Clone, PartialEq, Eq, Structural)]
pub enum OperandSize {
    Bit128,
    Bit64,
    Bit32,
    Bit16,
    Bit8,
}

/// Number of bits of an operand size.
pub open spec fn spec_size_bits(size: OperandSize) -> int {
    match size {
        OperandSize::Bit8 => 8,
        OperandSize::Bit16 => 16,
        OperandSize::Bit32 => 32,
        OperandSize::Bit64 => 64,
        OperandSize::Bit128 => 128,
    }
}

/// Number of bytes of an operand size.
pub open spec fn spec_size_bytes(size: OperandSize) -> int {
    spec_size_bits(size) / 8
}

pub fn size_bytes(size: OperandSize) -> (r: u64)
    ensures
        r == spec_size_bytes(size),
{
    match size {
        OperandSize::Bit8 => 1,
        OperandSize::Bit16 => 2,
        OperandSize::Bit32 => 4,
        OperandSize::Bit64 => 8,
        OperandSize::Bit128 => 16,
    }
}

/// The natural width of each register identifier.
pub open spec fn spec_register_size(reg: Register) -> OperandSize {
    match reg {
        Register::XMM0 | Register::XMM1 | Register::XMM2 | Register::XMM3
        | Register::XMM4 | Register::XMM5 | Register::XMM6 | Register::XMM7
        | Register::XMM8 | Register::XMM9 | Register::XMM10 | Register::XMM11
        | Register::XMM12 | Register::XMM13 | Register::XMM14 | Register::XMM15
            => OperandSize::Bit128,
        Register::RAX | Register::RBX | Register::RCX | Register::RDX | Register::RSP
        | Register::RBP | Register::RSI | Register::RDI | Register::RIP | Register::R8
        | Register::R9 | Register::R10 | Register::R11 | Register::R12 | Register::R13
        | Register::R14 | Register::R15 | Register::CR0 | Register::CR2 | Register::CR3
        | Register::CR4 | Register::CR8
            => OperandSize::Bit64,
        Register::EAX | Register::EBX | Register::ECX | Register::EDX | Register::ESP
        | Register::EBP | Register::ESI | Register::EDI | Register::R8D | Register::R9D
        | Register::R10D | Register::R11D | Register::R12D | Register::R13D
        | Register::R14D | Register::R15D
            => OperandSize::Bit32,
        Register::AX | Register::CX | Register::DX | Register::BX | Register::SP
        | Register::BP | Register::SI | Register::DI | Register::R8W | Register::R9W
        | Register::R10W | Register::R11W | Register::R12W | Register::R13W
        | Register::R14W | Register::R15W | Register::ES | Register::CS | Register::SS
        | Register::DS | Register::FS | Register::GS
            => OperandSize::Bit16,
        Register::AL | Register::CL | Register::DL | Register::BL | Register::AH
        | Register::CH | Register::DH | Register::BH | Register::SPL | Register::BPL
        | Register::SIL | Register::DIL | Register::R8B | Register::R9B
        | Register::R10B | Register::R11B | Register::R12B | Register::R13B
        | Register::R14B | Register::R15B
            => OperandSize::Bit8,
    }
}

#[verifier::when_used_as_spec(spec_register_size)]
pub fn get_register_size(reg: Register) -> (r: OperandSize)
    ensures
        r == spec_register_size(reg),
{
    match reg {
        Register::XMM0 | Register::XMM1 | Register::XMM2 | Register::XMM3
        | Register::XMM4 | Register::XMM5 | Register::XMM6 | Register::XMM7
        | Register::XMM8 | Register::XMM9 | Register::XMM10 | Register::XMM11
        | Register::XMM12 | Register::XMM13 | Register::XMM14 | Register::XMM15
            => OperandSize::Bit128,
        Register::RAX | Register::RBX | Register::RCX | Register::RDX | Register::RSP
        | Register::RBP | Register::RSI | Register::RDI | Register::RIP | Register::R8
        | Register::R9 | Register::R10 | Register::R11 | Register::R12 | Register::R13
        | Register::R14 | Register::R15 | Register::CR0 | Register::CR2 | Register::CR3
        | Register::CR4 | Register::CR8
            => OperandSize::Bit64,
        Register::EAX | Register::EBX | Register::ECX | Register::EDX | Register::ESP
        | Register::EBP | Register::ESI | Register::EDI | Register::R8D | Register::R9D
        | Register::R10D | Register::R11D | Register::R12D | Register::R13D
        | Register::R14D | Register::R15D
            => OperandSize::Bit32,
        Register::AX | Register::CX | Register::DX | Register::BX | Register::SP
        | Register::BP | Register::SI | Register::DI | Register::R8W | Register::R9W
        | Register::R10W | Register::R11W | Register::R12W | Register::R13W
        | Register::R14W | Register::R15W | Register::ES | Register::CS | Register::SS
        | Register::DS | Register::FS | Register::GS
            => OperandSize::Bit16,
        Register::AL | Register::CL | Register::DL | Register::BL | Register::AH
        | Register::CH | Register::DH | Register::BH | Register::SPL | Register::BPL
        | Register::SIL | Register::DIL | Register::R8B | Register::R9B
        | Register::R10B | Register::R11B | Register::R12B | Register::R13B
        | Register::R14B | Register::R15B
            => OperandSize::Bit8,
    }
}

/// True of the sixteen vector registers.
pub open spec fn is_xmm_register(reg: Register) -> bool {
    spec_register_size(reg) == OperandSize::Bit128
}

/// True of every register the integer access path accepts: the
/// general-purpose registers and their aliases, RIP, the control
/// registers and the segment selectors.
pub open spec fn is_integer_register(reg: Register) -> bool {
    !is_xmm_register(reg)
}

/// One operand of a decoded instruction: an immediate already
/// sign-extended to 64 bits, a register, or a memory reference of the
/// form `base + index * scale + displacement`.
#[derive(Debug, Copy, Clone)]
pub enum Operand {
    Immediate(i64),
    Register(Register),
    EffectiveAddress {
        base: Option<Register>,
        index: Option<Register>,
        scale: Option<u8>,
        displacement: i32,
    },
}

/// An operand that the integer read path `get_value` accepts.
pub open spec fn operand_readable(op: Operand) -> bool {
    match op {
        Operand::Immediate(_) => true,
        Operand::Register(reg) => is_integer_register(reg),
        Operand::EffectiveAddress { base, index, scale, .. } => {
            &&& (base is Some ==> is_integer_register(base.unwrap()))
            &&& (index is Some ==> is_integer_register(index.unwrap()))
            &&& (index is Some ==> scale is Some)
        },
    }
}

/// An operand that the integer write path `set_value` accepts:
/// immediates cannot be written to.
pub open spec fn operand_writable(op: Operand) -> bool {
    operand_readable(op) && !(op is Immediate)
}

/// The operands of one decoded instruction: up to three operands, the
/// ModR/M opcode extension for the multiplexed opcodes, an explicit
/// operand size where the encoding forces one, and the repeat prefix.
#[derive(Debug, Copy, Clone)]
pub struct Operands {
    pub operands: (Option<Operand>, Option<Operand>, Option<Operand>),
    pub opcode: Option<u8>,
    pub explicit_size: Option<OperandSize>,
    pub repeat: Repeat,
}

impl Operands {
    /// An instruction record with no operands.
    pub fn empty() -> (r: Operands)
        ensures
            r.operands.0 is None,
            r.operands.1 is None,
            r.operands.2 is None,
            r.opcode is None,
            r.explicit_size is None,
            r.repeat == Repeat::Once,
    {
        Operands {
            operands: (None, None, None),
            opcode: None,
            explicit_size: None,
            repeat: Repeat::Once,
        }
    }

    /// The operand of a one-operand instruction.
    pub fn op(&self) -> (r: &Operand)
        requires
            self.operands.0 is Some,
            self.operands.1 is None,
        ensures
            *r == self.operands.0.unwrap(),
    {
        match &self.operands.0 {
            Some(op) => op,
            None => unreached(),
        }
    }

    /// Source and destination of a two-operand instruction.
    pub fn operands(&self) -> (r: (&Operand, &Operand))
        requires
            self.operands.0 is Some,
            self.operands.1 is Some,
        ensures
            *r.0 == self.operands.0.unwrap(),
            *r.1 == self.operands.1.unwrap(),
    {
        match (&self.operands.0, &self.operands.1) {
            (Some(a), Some(b)) => (a, b),
            _ => unreached(),
        }
    }

    /// The operand size of the record: the explicit size where one was
    /// decoded, else the width of the first register operand, else the
    /// width of a register in the second slot, else 64 bits.
    pub open spec fn spec_size(&self) -> OperandSize {
        if self.explicit_size is Some {
            self.explicit_size.unwrap()
        } else {
            match self.operands.0 {
                Some(Operand::Register(register)) => spec_register_size(register),
                _ => match self.operands.1 {
                    Some(Operand::Register(register)) => spec_register_size(register),
                    _ => OperandSize::Bit64,
                },
            }
        }
    }

    #[verifier::when_used_as_spec(spec_size)]
    pub fn size(&self) -> (r: OperandSize)
        requires
            self.operands.0 is Some || self.explicit_size is Some,
        ensures
            r == self.spec_size(),
    {
        if let Some(explicit_size) = self.explicit_size {
            return explicit_size;
        }
        match self.operands.0 {
            Some(Operand::Register(register)) => get_register_size(register),
            _ => {
                if let Some(Operand::Register(register)) = self.operands.1 {
                    return get_register_size(register);
                }
                OperandSize::Bit64
            },
        }
    }
}

/// A value read out of the register file: a full 64-bit word, a 32-bit
/// word, a vector word, or a single byte.
#[derive(Debug, Copy, Clone)]
pub enum Value {
    I64(i64),
    I32(i32),
    XMM(u128),
    U8(u8),
}

/// Every operation the interpreter can dispatch. The multiplexed
/// pseudo-opcodes `Arithmetic`, `ShiftRotate`, `RegisterOperation`,
/// `CompareMulOperation` and `BitManipulation` take their concrete
/// meaning from the ModR/M opcode extension.
#[derive(Debug, Copy, Clone, PartialEq, Eq, Structural)]
pub enum Opcode {
    Adc,
    Add,
    And,
    Arithmetic,
    BitManipulation,
    Bt,
    Bts,
    Btr,
    Btc,
    Call,
    Cld,
    Cmova,
    Cmovae,
    Cmovb,
    Cmovbe,
    Cmove,
    Cmovg,
    Cmovge,
    Cmovl,
    Cmovle,
    Cmovne,
    Cmovno,
    Cmovnp,
    Cmovns,
    Cmovo,
    Cmovp,
    Cmovs,
    Cmp,
    CompareMulOperation,
    Cpuid,
    Cvtpi2ps,
    Cvttps2pi,
    Fadd,
    Fsub,
    Fmul,
    Fdiv,
    Imul,
    Int,
    Ja,
    Jae,
    Jb,
    Jbe,
    Je,
    Jg,
    Jge,
    Jl,
    Jle,
    Jmp,
    Jne,
    Jno,
    Jnp,
    Jns,
    Jo,
    Jp,
    Js,
    Lea,
    Leave,
    Lidt,
    Lgdt,
    Mov,
    Movs,
    Movd,
    Movps,
    Movss,
    Movsx,
    Movzx,
    Nop,
    Or,
    Out,
    Pop,
    Popf,
    Push,
    Pushf,
    Rdmsr,
    RegisterOperation,
    Ret,
    Lret,
    Sbb,
    ShiftRotate,
    Std,
    Stos,
    Sub,
    Test,
    Wrmsr,
    Xor,
    Scas,
    Cmpxchg,
    Xchg,
    Syscall,
    Seto,
    Setno,
    Setb,
    Setae,
    Sete,
    Setne,
    Setbe,
    Seta,
    Sets,
    Setns,
    Setp,
    Setnp,
    Setl,
    Setge,
    Setle,
    Setg,
    Ud2,
}

} // verus!
