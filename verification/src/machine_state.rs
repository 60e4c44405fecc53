use vstd::prelude::*;

use crate::instruction::{Flags, Operand, OperandSize, Register, spec_flag_mask, flag_mask,
    is_xmm_register, is_integer_register, spec_register_size};
use crate::memory::{Memory, MemView, mem_inv, mem_mapped, mem_byte, mem_range_mapped,
    mem_write_bytes, mem_u16_le, mem_u32_le, mem_u64_le, mem_u128_le, le_bytes_u16,
    le_bytes_u32, le_bytes_u64, le_bytes_u128};
use crate::VmError;

verus! {

/// The machine state as the specifications see it: every register as
/// a plain value and the guest memory as a page map.
pub ghost struct StateView {
    pub rip: i64,
    pub rax: i64,
    pub rbx: i64,
    pub rcx: i64,
    pub rdx: i64,
    pub rsp: i64,
    pub rbp: i64,
    pub rsi: i64,
    pub rdi: i64,
    pub r8: i64,
    pub r9: i64,
    pub r10: i64,
    pub r11: i64,
    pub r12: i64,
    pub r13: i64,
    pub r14: i64,
    pub r15: i64,
    pub rflags: i64,
    pub cr0: i64,
    pub cr2: i64,
    pub cr3: i64,
    pub cr4: i64,
    pub cr8: i64,
    pub gdt: i64,
    pub idt: i64,
    pub xmm: Seq<u128>,
    pub mem: MemView,
    pub print_instructions: bool,
}

/// Well-formedness of a state: the page map holds whole pages and the
/// vector register file has sixteen entries.
pub open spec fn wf_state(s: StateView) -> bool {
    &&& mem_inv(s.mem)
    &&& s.xmm.len() == 16
}

/// The register file (general-purpose, vector, segment and control
/// registers, RFLAGS, RIP), the descriptor-table slots, the guest
/// memory, and the instruction-print switch.
pub struct MachineState {
    pub rip: i64,
    pub rax: i64,
    pub rbx: i64,
    pub rcx: i64,
    pub rdx: i64,
    pub rsp: i64,
    pub rbp: i64,
    pub rsi: i64,
    pub rdi: i64,
    pub r8: i64,
    pub r9: i64,
    pub r10: i64,
    pub r11: i64,
    pub r12: i64,
    pub r13: i64,
    pub r14: i64,
    pub r15: i64,
    pub rflags: i64,
    pub cr0: i64,
    pub cr2: i64,
    pub cr3: i64,
    pub cr4: i64,
    pub cr8: i64,
    pub gdt: i64,
    pub idt: i64,
    pub xmm: [u128; 16],
    pub memory: Memory,
    pub print_instructions: bool,
}

impl View for MachineState {
    type V = StateView;

    open spec fn view(&self) -> StateView {
        StateView {
            rip: self.rip,
            rax: self.rax,
            rbx: self.rbx,
            rcx: self.rcx,
            rdx: self.rdx,
            rsp: self.rsp,
            rbp: self.rbp,
            rsi: self.rsi,
            rdi: self.rdi,
            r8: self.r8,
            r9: self.r9,
            r10: self.r10,
            r11: self.r11,
            r12: self.r12,
            r13: self.r13,
            r14: self.r14,
            r15: self.r15,
            rflags: self.rflags,
            cr0: self.cr0,
            cr2: self.cr2,
            cr3: self.cr3,
            cr4: self.cr4,
            cr8: self.cr8,
            gdt: self.gdt,
            idt: self.idt,
            xmm: self.xmm@,
            mem: self.memory@,
            print_instructions: self.print_instructions,
        }
    }
}

/// What reading a register returns: 64-bit registers give their whole
/// word, 32/16/8-bit aliases sign-extend their part, `AH`..`BH` read
/// bits 15..8, segment selectors read zero.
pub open spec fn get_register_value_sp(s: StateView, register: Register) -> i64 {
    match register {
        Register::RAX => s.rax,
        Register::RBX => s.rbx,
        Register::RCX => s.rcx,
        Register::RDX => s.rdx,
        Register::RSP => s.rsp,
        Register::RBP => s.rbp,
        Register::RSI => s.rsi,
        Register::RDI => s.rdi,
        Register::R8 => s.r8,
        Register::R9 => s.r9,
        Register::R10 => s.r10,
        Register::R11 => s.r11,
        Register::R12 => s.r12,
        Register::R13 => s.r13,
        Register::R14 => s.r14,
        Register::R15 => s.r15,
        Register::CR0 => s.cr0,
        Register::CR2 => s.cr2,
        Register::CR3 => s.cr3,
        Register::CR4 => s.cr4,
        Register::CR8 => s.cr8,
        Register::RIP => s.rip,
        Register::EAX => s.rax as i32 as i64,
        Register::EBX => s.rbx as i32 as i64,
        Register::ECX => s.rcx as i32 as i64,
        Register::EDX => s.rdx as i32 as i64,
        Register::ESP => s.rsp as i32 as i64,
        Register::EBP => s.rbp as i32 as i64,
        Register::ESI => s.rsi as i32 as i64,
        Register::EDI => s.rdi as i32 as i64,
        Register::R8D => s.r8 as i32 as i64,
        Register::R9D => s.r9 as i32 as i64,
        Register::R10D => s.r10 as i32 as i64,
        Register::R11D => s.r11 as i32 as i64,
        Register::R12D => s.r12 as i32 as i64,
        Register::R13D => s.r13 as i32 as i64,
        Register::R14D => s.r14 as i32 as i64,
        Register::R15D => s.r15 as i32 as i64,
        Register::AX => s.rax as i16 as i64,
        Register::BX => s.rbx as i16 as i64,
        Register::CX => s.rcx as i16 as i64,
        Register::DX => s.rdx as i16 as i64,
        Register::SP => s.rsp as i16 as i64,
        Register::BP => s.rbp as i16 as i64,
        Register::SI => s.rsi as i16 as i64,
        Register::DI => s.rdi as i16 as i64,
        Register::R8W => s.r8 as i16 as i64,
        Register::R9W => s.r9 as i16 as i64,
        Register::R10W => s.r10 as i16 as i64,
        Register::R11W => s.r11 as i16 as i64,
        Register::R12W => s.r12 as i16 as i64,
        Register::R13W => s.r13 as i16 as i64,
        Register::R14W => s.r14 as i16 as i64,
        Register::R15W => s.r15 as i16 as i64,
        Register::AL => s.rax as i8 as i64,
        Register::CL => s.rcx as i8 as i64,
        Register::DL => s.rdx as i8 as i64,
        Register::BL => s.rbx as i8 as i64,
        Register::SPL => s.rsp as i8 as i64,
        Register::BPL => s.rbp as i8 as i64,
        Register::SIL => s.rsi as i8 as i64,
        Register::DIL => s.rdi as i8 as i64,
        Register::R8B => s.r8 as i8 as i64,
        Register::R9B => s.r9 as i8 as i64,
        Register::R10B => s.r10 as i8 as i64,
        Register::R11B => s.r11 as i8 as i64,
        Register::R12B => s.r12 as i8 as i64,
        Register::R13B => s.r13 as i8 as i64,
        Register::R14B => s.r14 as i8 as i64,
        Register::R15B => s.r15 as i8 as i64,
        Register::AH => ((s.rax as i16) >> 8u16) as i64,
        Register::CH => ((s.rcx as i16) >> 8u16) as i64,
        Register::DH => ((s.rdx as i16) >> 8u16) as i64,
        Register::BH => ((s.rbx as i16) >> 8u16) as i64,
        Register::ES => 0,
        Register::CS => 0,
        Register::SS => 0,
        Register::DS => 0,
        Register::FS => 0,
        Register::GS => 0,
        Register::XMM0 => 0,
        Register::XMM1 => 0,
        Register::XMM2 => 0,
        Register::XMM3 => 0,
        Register::XMM4 => 0,
        Register::XMM5 => 0,
        Register::XMM6 => 0,
        Register::XMM7 => 0,
        Register::XMM8 => 0,
        Register::XMM9 => 0,
        Register::XMM10 => 0,
        Register::XMM11 => 0,
        Register::XMM12 => 0,
        Register::XMM13 => 0,
        Register::XMM14 => 0,
        Register::XMM15 => 0,
    }
}

/// What writing a register leaves in the state: a 64-bit write
/// replaces the word, a 32-bit write zero-extends into the word, 16-
/// and 8-bit writes keep the other bits, `AH`..`BH` write bits 15..8,
/// and writes to segment selectors or vector registers through the
/// integer path change nothing.
pub open spec fn set_register_value_sp(s: StateView, register: Register, value: i64) -> StateView {
    match register {
        Register::RAX => StateView { rax: value, ..s },
        Register::RBX => StateView { rbx: value, ..s },
        Register::RCX => StateView { rcx: value, ..s },
        Register::RDX => StateView { rdx: value, ..s },
        Register::RSP => StateView { rsp: value, ..s },
        Register::RBP => StateView { rbp: value, ..s },
        Register::RSI => StateView { rsi: value, ..s },
        Register::RDI => StateView { rdi: value, ..s },
        Register::R8 => StateView { r8: value, ..s },
        Register::R9 => StateView { r9: value, ..s },
        Register::R10 => StateView { r10: value, ..s },
        Register::R11 => StateView { r11: value, ..s },
        Register::R12 => StateView { r12: value, ..s },
        Register::R13 => StateView { r13: value, ..s },
        Register::R14 => StateView { r14: value, ..s },
        Register::R15 => StateView { r15: value, ..s },
        Register::CR0 => StateView { cr0: value, ..s },
        Register::CR2 => StateView { cr2: value, ..s },
        Register::CR3 => StateView { cr3: value, ..s },
        Register::CR4 => StateView { cr4: value, ..s },
        Register::CR8 => StateView { cr8: value, ..s },
        Register::RIP => StateView { rip: value, ..s },
        Register::EAX => StateView { rax: value as u32 as u64 as i64, ..s },
        Register::EBX => StateView { rbx: value as u32 as u64 as i64, ..s },
        Register::ECX => StateView { rcx: value as u32 as u64 as i64, ..s },
        Register::EDX => StateView { rdx: value as u32 as u64 as i64, ..s },
        Register::ESP => StateView { rsp: value as u32 as u64 as i64, ..s },
        Register::EBP => StateView { rbp: value as u32 as u64 as i64, ..s },
        Register::ESI => StateView { rsi: value as u32 as u64 as i64, ..s },
        Register::EDI => StateView { rdi: value as u32 as u64 as i64, ..s },
        Register::R8D => StateView { r8: value as u32 as u64 as i64, ..s },
        Register::R9D => StateView { r9: value as u32 as u64 as i64, ..s },
        Register::R10D => StateView { r10: value as u32 as u64 as i64, ..s },
        Register::R11D => StateView { r11: value as u32 as u64 as i64, ..s },
        Register::R12D => StateView { r12: value as u32 as u64 as i64, ..s },
        Register::R13D => StateView { r13: value as u32 as u64 as i64, ..s },
        Register::R14D => StateView { r14: value as u32 as u64 as i64, ..s },
        Register::R15D => StateView { r15: value as u32 as u64 as i64, ..s },
        Register::AX => StateView { rax: ((s.rax as u64 & 0xFFFF_FFFF_FFFF_0000) | (value as u16 as u64)) as i64, ..s },
        Register::BX => StateView { rbx: ((s.rbx as u64 & 0xFFFF_FFFF_FFFF_0000) | (value as u16 as u64)) as i64, ..s },
        Register::CX => StateView { rcx: ((s.rcx as u64 & 0xFFFF_FFFF_FFFF_0000) | (value as u16 as u64)) as i64, ..s },
        Register::DX => StateView { rdx: ((s.rdx as u64 & 0xFFFF_FFFF_FFFF_0000) | (value as u16 as u64)) as i64, ..s },
        Register::SP => StateView { rsp: ((s.rsp as u64 & 0xFFFF_FFFF_FFFF_0000) | (value as u16 as u64)) as i64, ..s },
        Register::BP => StateView { rbp: ((s.rbp as u64 & 0xFFFF_FFFF_FFFF_0000) | (value as u16 as u64)) as i64, ..s },
        Register::SI => StateView { rsi: ((s.rsi as u64 & 0xFFFF_FFFF_FFFF_0000) | (value as u16 as u64)) as i64, ..s },
        Register::DI => StateView { rdi: ((s.rdi as u64 & 0xFFFF_FFFF_FFFF_0000) | (value as u16 as u64)) as i64, ..s },
        Register::R8W => StateView { r8: ((s.r8 as u64 & 0xFFFF_FFFF_FFFF_0000) | (value as u16 as u64)) as i64, ..s },
        Register::R9W => StateView { r9: ((s.r9 as u64 & 0xFFFF_FFFF_FFFF_0000) | (value as u16 as u64)) as i64, ..s },
        Register::R10W => StateView { r10: ((s.r10 as u64 & 0xFFFF_FFFF_FFFF_0000) | (value as u16 as u64)) as i64, ..s },
        Register::R11W => StateView { r11: ((s.r11 as u64 & 0xFFFF_FFFF_FFFF_0000) | (value as u16 as u64)) as i64, ..s },
        Register::R12W => StateView { r12: ((s.r12 as u64 & 0xFFFF_FFFF_FFFF_0000) | (value as u16 as u64)) as i64, ..s },
        Register::R13W => StateView { r13: ((s.r13 as u64 & 0xFFFF_FFFF_FFFF_0000) | (value as u16 as u64)) as i64, ..s },
        Register::R14W => StateView { r14: ((s.r14 as u64 & 0xFFFF_FFFF_FFFF_0000) | (value as u16 as u64)) as i64, ..s },
        Register::R15W => StateView { r15: ((s.r15 as u64 & 0xFFFF_FFFF_FFFF_0000) | (value as u16 as u64)) as i64, ..s },
        Register::AL => StateView { rax: ((s.rax as u64 & 0xFFFF_FFFF_FFFF_FF00) | (value as u8 as u64)) as i64, ..s },
        Register::CL => StateView { rcx: ((s.rcx as u64 & 0xFFFF_FFFF_FFFF_FF00) | (value as u8 as u64)) as i64, ..s },
        Register::DL => StateView { rdx: ((s.rdx as u64 & 0xFFFF_FFFF_FFFF_FF00) | (value as u8 as u64)) as i64, ..s },
        Register::BL => StateView { rbx: ((s.rbx as u64 & 0xFFFF_FFFF_FFFF_FF00) | (value as u8 as u64)) as i64, ..s },
        Register::SPL => StateView { rsp: ((s.rsp as u64 & 0xFFFF_FFFF_FFFF_FF00) | (value as u8 as u64)) as i64, ..s },
        Register::BPL => StateView { rbp: ((s.rbp as u64 & 0xFFFF_FFFF_FFFF_FF00) | (value as u8 as u64)) as i64, ..s },
        Register::SIL => StateView { rsi: ((s.rsi as u64 & 0xFFFF_FFFF_FFFF_FF00) | (value as u8 as u64)) as i64, ..s },
        Register::DIL => StateView { rdi: ((s.rdi as u64 & 0xFFFF_FFFF_FFFF_FF00) | (value as u8 as u64)) as i64, ..s },
        Register::R8B => StateView { r8: ((s.r8 as u64 & 0xFFFF_FFFF_FFFF_FF00) | (value as u8 as u64)) as i64, ..s },
        Register::R9B => StateView { r9: ((s.r9 as u64 & 0xFFFF_FFFF_FFFF_FF00) | (value as u8 as u64)) as i64, ..s },
        Register::R10B => StateView { r10: ((s.r10 as u64 & 0xFFFF_FFFF_FFFF_FF00) | (value as u8 as u64)) as i64, ..s },
        Register::R11B => StateView { r11: ((s.r11 as u64 & 0xFFFF_FFFF_FFFF_FF00) | (value as u8 as u64)) as i64, ..s },
        Register::R12B => StateView { r12: ((s.r12 as u64 & 0xFFFF_FFFF_FFFF_FF00) | (value as u8 as u64)) as i64, ..s },
        Register::R13B => StateView { r13: ((s.r13 as u64 & 0xFFFF_FFFF_FFFF_FF00) | (value as u8 as u64)) as i64, ..s },
        Register::R14B => StateView { r14: ((s.r14 as u64 & 0xFFFF_FFFF_FFFF_FF00) | (value as u8 as u64)) as i64, ..s },
        Register::R15B => StateView { r15: ((s.r15 as u64 & 0xFFFF_FFFF_FFFF_FF00) | (value as u8 as u64)) as i64, ..s },
        Register::AH => StateView { rax: ((s.rax as u64 & 0xFFFF_FFFF_FFFF_00FF) | ((value as u8 as u64) << 8)) as i64, ..s },
        Register::CH => StateView { rcx: ((s.rcx as u64 & 0xFFFF_FFFF_FFFF_00FF) | ((value as u8 as u64) << 8)) as i64, ..s },
        Register::DH => StateView { rdx: ((s.rdx as u64 & 0xFFFF_FFFF_FFFF_00FF) | ((value as u8 as u64) << 8)) as i64, ..s },
        Register::BH => StateView { rbx: ((s.rbx as u64 & 0xFFFF_FFFF_FFFF_00FF) | ((value as u8 as u64) << 8)) as i64, ..s },
        Register::ES => s,
        Register::CS => s,
        Register::SS => s,
        Register::DS => s,
        Register::FS => s,
        Register::GS => s,
        Register::XMM0 => s,
        Register::XMM1 => s,
        Register::XMM2 => s,
        Register::XMM3 => s,
        Register::XMM4 => s,
        Register::XMM5 => s,
        Register::XMM6 => s,
        Register::XMM7 => s,
        Register::XMM8 => s,
        Register::XMM9 => s,
        Register::XMM10 => s,
        Register::XMM11 => s,
        Register::XMM12 => s,
        Register::XMM13 => s,
        Register::XMM14 => s,
        Register::XMM15 => s,
    }
}

impl MachineState {
    /// A machine state with every register zero and no memory mapped.
    pub fn new() -> (r: MachineState)
        ensures
            wf_state(r@),
            r@.mem == Map::<u64, Seq<u8>>::empty(),
            r@.rip == 0 && r@.rax == 0 && r@.rbx == 0 && r@.rcx == 0 && r@.rdx == 0,
            r@.rsp == 0 && r@.rbp == 0 && r@.rsi == 0 && r@.rdi == 0,
            r@.r8 == 0 && r@.r9 == 0 && r@.r10 == 0 && r@.r11 == 0,
            r@.r12 == 0 && r@.r13 == 0 && r@.r14 == 0 && r@.r15 == 0,
            r@.rflags == 0,
            r@.cr0 == 0 && r@.cr2 == 0 && r@.cr3 == 0 && r@.cr4 == 0 && r@.cr8 == 0,
            r@.gdt == 0 && r@.idt == 0,
            forall|i: int| 0 <= i < 16 ==> r@.xmm[i] == 0,
            !r@.print_instructions,
    {
        MachineState {
            rip: 0,
            rax: 0,
            rbx: 0,
            rcx: 0,
            rdx: 0,
            rsp: 0,
            rbp: 0,
            rsi: 0,
            rdi: 0,
            r8: 0,
            r9: 0,
            r10: 0,
            r11: 0,
            r12: 0,
            r13: 0,
            r14: 0,
            r15: 0,
            rflags: 0,
            cr0: 0,
            cr2: 0,
            cr3: 0,
            cr4: 0,
            cr8: 0,
            gdt: 0,
            idt: 0,
            xmm: [0; 16],
            memory: Memory::new(),
            print_instructions: false,
        }
    }

    /// Read an integer register, following the alias rules.
    pub fn get_register_value(&self, register: Register) -> (r: i64)
        requires
            is_integer_register(register),
        ensures
            r == get_register_value_sp(self@, register),
    {
        match register {
        Register::RAX => self.rax,
        Register::RBX => self.rbx,
        Register::RCX => self.rcx,
        Register::RDX => self.rdx,
        Register::RSP => self.rsp,
        Register::RBP => self.rbp,
        Register::RSI => self.rsi,
        Register::RDI => self.rdi,
        Register::R8 => self.r8,
        Register::R9 => self.r9,
        Register::R10 => self.r10,
        Register::R11 => self.r11,
        Register::R12 => self.r12,
        Register::R13 => self.r13,
        Register::R14 => self.r14,
        Register::R15 => self.r15,
        Register::CR0 => self.cr0,
        Register::CR2 => self.cr2,
        Register::CR3 => self.cr3,
        Register::CR4 => self.cr4,
        Register::CR8 => self.cr8,
        Register::RIP => self.rip,
        Register::EAX => self.rax as i32 as i64,
        Register::EBX => self.rbx as i32 as i64,
        Register::ECX => self.rcx as i32 as i64,
        Register::EDX => self.rdx as i32 as i64,
        Register::ESP => self.rsp as i32 as i64,
        Register::EBP => self.rbp as i32 as i64,
        Register::ESI => self.rsi as i32 as i64,
        Register::EDI => self.rdi as i32 as i64,
        Register::R8D => self.r8 as i32 as i64,
        Register::R9D => self.r9 as i32 as i64,
        Register::R10D => self.r10 as i32 as i64,
        Register::R11D => self.r11 as i32 as i64,
        Register::R12D => self.r12 as i32 as i64,
        Register::R13D => self.r13 as i32 as i64,
        Register::R14D => self.r14 as i32 as i64,
        Register::R15D => self.r15 as i32 as i64,
        Register::AX => self.rax as i16 as i64,
        Register::BX => self.rbx as i16 as i64,
        Register::CX => self.rcx as i16 as i64,
        Register::DX => self.rdx as i16 as i64,
        Register::SP => self.rsp as i16 as i64,
        Register::BP => self.rbp as i16 as i64,
        Register::SI => self.rsi as i16 as i64,
        Register::DI => self.rdi as i16 as i64,
        Register::R8W => self.r8 as i16 as i64,
        Register::R9W => self.r9 as i16 as i64,
        Register::R10W => self.r10 as i16 as i64,
        Register::R11W => self.r11 as i16 as i64,
        Register::R12W => self.r12 as i16 as i64,
        Register::R13W => self.r13 as i16 as i64,
        Register::R14W => self.r14 as i16 as i64,
        Register::R15W => self.r15 as i16 as i64,
        Register::AL => self.rax as i8 as i64,
        Register::CL => self.rcx as i8 as i64,
        Register::DL => self.rdx as i8 as i64,
        Register::BL => self.rbx as i8 as i64,
        Register::SPL => self.rsp as i8 as i64,
        Register::BPL => self.rbp as i8 as i64,
        Register::SIL => self.rsi as i8 as i64,
        Register::DIL => self.rdi as i8 as i64,
        Register::R8B => self.r8 as i8 as i64,
        Register::R9B => self.r9 as i8 as i64,
        Register::R10B => self.r10 as i8 as i64,
        Register::R11B => self.r11 as i8 as i64,
        Register::R12B => self.r12 as i8 as i64,
        Register::R13B => self.r13 as i8 as i64,
        Register::R14B => self.r14 as i8 as i64,
        Register::R15B => self.r15 as i8 as i64,
        Register::AH => ((self.rax as i16) >> 8u16) as i64,
        Register::CH => ((self.rcx as i16) >> 8u16) as i64,
        Register::DH => ((self.rdx as i16) >> 8u16) as i64,
        Register::BH => ((self.rbx as i16) >> 8u16) as i64,
        Register::ES => 0,
        Register::CS => 0,
        Register::SS => 0,
        Register::DS => 0,
        Register::FS => 0,
        Register::GS => 0,
        Register::XMM0 => 0,
        Register::XMM1 => 0,
        Register::XMM2 => 0,
        Register::XMM3 => 0,
        Register::XMM4 => 0,
        Register::XMM5 => 0,
        Register::XMM6 => 0,
        Register::XMM7 => 0,
        Register::XMM8 => 0,
        Register::XMM9 => 0,
        Register::XMM10 => 0,
        Register::XMM11 => 0,
        Register::XMM12 => 0,
        Register::XMM13 => 0,
        Register::XMM14 => 0,
        Register::XMM15 => 0,
        }
    }

    /// Write an integer register, following the alias rules.
    pub fn set_register_value(&mut self, register: Register, value: i64)
        requires
            is_integer_register(register),
        ensures
            final(self)@ == set_register_value_sp(old(self)@, register, value),
    {
        match register {
        Register::RAX => { self.rax = value; },
        Register::RBX => { self.rbx = value; },
        Register::RCX => { self.rcx = value; },
        Register::RDX => { self.rdx = value; },
        Register::RSP => { self.rsp = value; },
        Register::RBP => { self.rbp = value; },
        Register::RSI => { self.rsi = value; },
        Register::RDI => { self.rdi = value; },
        Register::R8 => { self.r8 = value; },
        Register::R9 => { self.r9 = value; },
        Register::R10 => { self.r10 = value; },
        Register::R11 => { self.r11 = value; },
        Register::R12 => { self.r12 = value; },
        Register::R13 => { self.r13 = value; },
        Register::R14 => { self.r14 = value; },
        Register::R15 => { self.r15 = value; },
        Register::CR0 => { self.cr0 = value; },
        Register::CR2 => { self.cr2 = value; },
        Register::CR3 => { self.cr3 = value; },
        Register::CR4 => { self.cr4 = value; },
        Register::CR8 => { self.cr8 = value; },
        Register::RIP => { self.rip = value; },
        Register::EAX => { self.rax = value as u32 as u64 as i64; },
        Register::EBX => { self.rbx = value as u32 as u64 as i64; },
        Register::ECX => { self.rcx = value as u32 as u64 as i64; },
        Register::EDX => { self.rdx = value as u32 as u64 as i64; },
        Register::ESP => { self.rsp = value as u32 as u64 as i64; },
        Register::EBP => { self.rbp = value as u32 as u64 as i64; },
        Register::ESI => { self.rsi = value as u32 as u64 as i64; },
        Register::EDI => { self.rdi = value as u32 as u64 as i64; },
        Register::R8D => { self.r8 = value as u32 as u64 as i64; },
        Register::R9D => { self.r9 = value as u32 as u64 as i64; },
        Register::R10D => { self.r10 = value as u32 as u64 as i64; },
        Register::R11D => { self.r11 = value as u32 as u64 as i64; },
        Register::R12D => { self.r12 = value as u32 as u64 as i64; },
        Register::R13D => { self.r13 = value as u32 as u64 as i64; },
        Register::R14D => { self.r14 = value as u32 as u64 as i64; },
        Register::R15D => { self.r15 = value as u32 as u64 as i64; },
        Register::AX => { self.rax = ((self.rax as u64 & 0xFFFF_FFFF_FFFF_0000) | (value as u16 as u64)) as i64; },
        Register::BX => { self.rbx = ((self.rbx as u64 & 0xFFFF_FFFF_FFFF_0000) | (value as u16 as u64)) as i64; },
        Register::CX => { self.rcx = ((self.rcx as u64 & 0xFFFF_FFFF_FFFF_0000) | (value as u16 as u64)) as i64; },
        Register::DX => { self.rdx = ((self.rdx as u64 & 0xFFFF_FFFF_FFFF_0000) | (value as u16 as u64)) as i64; },
        Register::SP => { self.rsp = ((self.rsp as u64 & 0xFFFF_FFFF_FFFF_0000) | (value as u16 as u64)) as i64; },
        Register::BP => { self.rbp = ((self.rbp as u64 & 0xFFFF_FFFF_FFFF_0000) | (value as u16 as u64)) as i64; },
        Register::SI => { self.rsi = ((self.rsi as u64 & 0xFFFF_FFFF_FFFF_0000) | (value as u16 as u64)) as i64; },
        Register::DI => { self.rdi = ((self.rdi as u64 & 0xFFFF_FFFF_FFFF_0000) | (value as u16 as u64)) as i64; },
        Register::R8W => { self.r8 = ((self.r8 as u64 & 0xFFFF_FFFF_FFFF_0000) | (value as u16 as u64)) as i64; },
        Register::R9W => { self.r9 = ((self.r9 as u64 & 0xFFFF_FFFF_FFFF_0000) | (value as u16 as u64)) as i64; },
        Register::R10W => { self.r10 = ((self.r10 as u64 & 0xFFFF_FFFF_FFFF_0000) | (value as u16 as u64)) as i64; },
        Register::R11W => { self.r11 = ((self.r11 as u64 & 0xFFFF_FFFF_FFFF_0000) | (value as u16 as u64)) as i64; },
        Register::R12W => { self.r12 = ((self.r12 as u64 & 0xFFFF_FFFF_FFFF_0000) | (value as u16 as u64)) as i64; },
        Register::R13W => { self.r13 = ((self.r13 as u64 & 0xFFFF_FFFF_FFFF_0000) | (value as u16 as u64)) as i64; },
        Register::R14W => { self.r14 = ((self.r14 as u64 & 0xFFFF_FFFF_FFFF_0000) | (value as u16 as u64)) as i64; },
        Register::R15W => { self.r15 = ((self.r15 as u64 & 0xFFFF_FFFF_FFFF_0000) | (value as u16 as u64)) as i64; },
        Register::AL => { self.rax = ((self.rax as u64 & 0xFFFF_FFFF_FFFF_FF00) | (value as u8 as u64)) as i64; },
        Register::CL => { self.rcx = ((self.rcx as u64 & 0xFFFF_FFFF_FFFF_FF00) | (value as u8 as u64)) as i64; },
        Register::DL => { self.rdx = ((self.rdx as u64 & 0xFFFF_FFFF_FFFF_FF00) | (value as u8 as u64)) as i64; },
        Register::BL => { self.rbx = ((self.rbx as u64 & 0xFFFF_FFFF_FFFF_FF00) | (value as u8 as u64)) as i64; },
        Register::SPL => { self.rsp = ((self.rsp as u64 & 0xFFFF_FFFF_FFFF_FF00) | (value as u8 as u64)) as i64; },
        Register::BPL => { self.rbp = ((self.rbp as u64 & 0xFFFF_FFFF_FFFF_FF00) | (value as u8 as u64)) as i64; },
        Register::SIL => { self.rsi = ((self.rsi as u64 & 0xFFFF_FFFF_FFFF_FF00) | (value as u8 as u64)) as i64; },
        Register::DIL => { self.rdi = ((self.rdi as u64 & 0xFFFF_FFFF_FFFF_FF00) | (value as u8 as u64)) as i64; },
        Register::R8B => { self.r8 = ((self.r8 as u64 & 0xFFFF_FFFF_FFFF_FF00) | (value as u8 as u64)) as i64; },
        Register::R9B => { self.r9 = ((self.r9 as u64 & 0xFFFF_FFFF_FFFF_FF00) | (value as u8 as u64)) as i64; },
        Register::R10B => { self.r10 = ((self.r10 as u64 & 0xFFFF_FFFF_FFFF_FF00) | (value as u8 as u64)) as i64; },
        Register::R11B => { self.r11 = ((self.r11 as u64 & 0xFFFF_FFFF_FFFF_FF00) | (value as u8 as u64)) as i64; },
        Register::R12B => { self.r12 = ((self.r12 as u64 & 0xFFFF_FFFF_FFFF_FF00) | (value as u8 as u64)) as i64; },
        Register::R13B => { self.r13 = ((self.r13 as u64 & 0xFFFF_FFFF_FFFF_FF00) | (value as u8 as u64)) as i64; },
        Register::R14B => { self.r14 = ((self.r14 as u64 & 0xFFFF_FFFF_FFFF_FF00) | (value as u8 as u64)) as i64; },
        Register::R15B => { self.r15 = ((self.r15 as u64 & 0xFFFF_FFFF_FFFF_FF00) | (value as u8 as u64)) as i64; },
        Register::AH => { self.rax = ((self.rax as u64 & 0xFFFF_FFFF_FFFF_00FF) | ((value as u8 as u64) << 8u64)) as i64; },
        Register::CH => { self.rcx = ((self.rcx as u64 & 0xFFFF_FFFF_FFFF_00FF) | ((value as u8 as u64) << 8u64)) as i64; },
        Register::DH => { self.rdx = ((self.rdx as u64 & 0xFFFF_FFFF_FFFF_00FF) | ((value as u8 as u64) << 8u64)) as i64; },
        Register::BH => { self.rbx = ((self.rbx as u64 & 0xFFFF_FFFF_FFFF_00FF) | ((value as u8 as u64) << 8u64)) as i64; },
        Register::ES => { },
        Register::CS => { },
        Register::SS => { },
        Register::DS => { },
        Register::FS => { },
        Register::GS => { },
        Register::XMM0 => { },
        Register::XMM1 => { },
        Register::XMM2 => { },
        Register::XMM3 => { },
        Register::XMM4 => { },
        Register::XMM5 => { },
        Register::XMM6 => { },
        Register::XMM7 => { },
        Register::XMM8 => { },
        Register::XMM9 => { },
        Register::XMM10 => { },
        Register::XMM11 => { },
        Register::XMM12 => { },
        Register::XMM13 => { },
        Register::XMM14 => { },
        Register::XMM15 => { },
        }
    }
}

/// Whether a flag bit is set in an RFLAGS word.
pub open spec fn get_flag_sp(rflags: i64, flag: Flags) -> bool {
    rflags & (spec_flag_mask(flag) as i64) == spec_flag_mask(flag) as i64
}

/// An RFLAGS word with one flag bit forced to a value.
pub open spec fn set_flag_sp(rflags: i64, flag: Flags, value: bool) -> i64 {
    if value {
        rflags | (spec_flag_mask(flag) as i64)
    } else {
        rflags & !(spec_flag_mask(flag) as i64)
    }
}

/// The sign bit of a result at a width: bit 7, 15, 31 or 63. The
/// 128-bit case reads bit 63, as the interpreter never computes
/// integer flags at that width.
pub open spec fn sign_of(result: i64, operand_size: OperandSize) -> bool {
    match operand_size {
        OperandSize::Bit8 => (result as u64) & 0x80 != 0,
        OperandSize::Bit16 => (result as u64) & 0x8000 != 0,
        OperandSize::Bit32 => (result as u64) & 0x8000_0000 != 0,
        OperandSize::Bit64 => (result as u64) & 0x8000_0000_0000_0000 != 0,
        OperandSize::Bit128 => (result as u64) & 0x8000_0000_0000_0000 != 0,
    }
}

/// The exclusive-or of the eight bits of the low byte of a result: 0
/// when the byte has even parity.
pub open spec fn parity_low_byte(result: i64) -> u8 {
    let byte = result as u8;
    (byte & 1) ^ ((byte >> 1u8) & 1) ^ ((byte >> 2u8) & 1) ^ ((byte >> 3u8) & 1) ^ ((byte
        >> 4u8) & 1) ^ ((byte >> 5u8) & 1) ^ ((byte >> 6u8) & 1) ^ ((byte >> 7u8) & 1)
}

/// The RFLAGS word after an operation's result is folded in: Zero set
/// iff the result is zero, Sign set to the top bit at the operation
/// width, Parity set iff the low byte has even parity.
pub open spec fn compute_flags_sp(rflags: i64, result: i64, operand_size: OperandSize) -> i64 {
    let with_zero = set_flag_sp(rflags, Flags::Zero, result == 0);
    let with_sign = set_flag_sp(with_zero, Flags::Sign, sign_of(result, operand_size));
    set_flag_sp(with_sign, Flags::Parity, parity_low_byte(result) != 1)
}

/// The effective address `base + index * scale + displacement`, with
/// absent parts contributing zero and 64-bit wrapping arithmetic.
pub open spec fn ea_parts_sp(
    s: StateView,
    base: Option<Register>,
    index: Option<Register>,
    scale: Option<u8>,
    displacement: i32,
) -> u64 {
    let base_value = match base {
        Some(register) => get_register_value_sp(s, register),
        None => 0,
    };
    let index_value = match index {
        Some(register) => get_register_value_sp(s, register).wrapping_mul(
            scale.unwrap() as i64,
        ),
        None => 0,
    };
    base_value.wrapping_add(index_value).wrapping_add(displacement as i64) as u64
}

/// The effective address of a memory operand.
pub open spec fn ea_sp(s: StateView, operand: Operand) -> u64 {
    match operand {
        Operand::EffectiveAddress { base, index, scale, displacement } => ea_parts_sp(
            s,
            base,
            index,
            scale,
            displacement,
        ),
        _ => 0,
    }
}

/// What the integer read path returns for an operand at a width, or
/// nothing when it touches an unmapped page: registers follow the
/// alias rules, immediates pass through unchanged, memory operands
/// read at the effective address, sign-extended to 64 bits.
pub open spec fn get_value_sp(s: StateView, operand: Operand, operand_size: OperandSize) -> Option<
    i64,
> {
    match operand {
        Operand::Register(register) => Some(get_register_value_sp(s, register)),
        Operand::Immediate(immediate) => Some(immediate),
        Operand::EffectiveAddress { .. } => {
            let address = ea_sp(s, operand);
            match operand_size {
                OperandSize::Bit8 => if mem_mapped(s.mem, address) {
                    Some(mem_byte(s.mem, address) as i8 as i64)
                } else {
                    None
                },
                OperandSize::Bit16 => if mem_range_mapped(s.mem, address, 2) {
                    Some(mem_u16_le(s.mem, address) as i16 as i64)
                } else {
                    None
                },
                OperandSize::Bit32 => if mem_range_mapped(s.mem, address, 4) {
                    Some(mem_u32_le(s.mem, address) as i32 as i64)
                } else {
                    None
                },
                OperandSize::Bit64 => if mem_range_mapped(s.mem, address, 8) {
                    Some(mem_u64_le(s.mem, address) as i64)
                } else {
                    None
                },
                OperandSize::Bit128 => None,
            }
        },
    }
}

/// The state after the integer write path stores a value to an operand
/// at a width, or nothing when it touches an unmapped page: register
/// writes follow the alias rules, memory writes store the value's low
/// bytes little-endian at the effective address.
pub open spec fn set_value_sp(
    s: StateView,
    value: i64,
    operand: Operand,
    operand_size: OperandSize,
) -> Option<StateView> {
    match operand {
        Operand::Register(register) => Some(set_register_value_sp(s, register, value)),
        Operand::Immediate(_) => None,
        Operand::EffectiveAddress { .. } => {
            let address = ea_sp(s, operand);
            let bytes = match operand_size {
                OperandSize::Bit8 => seq![value as u8],
                OperandSize::Bit16 => le_bytes_u16(value as u16),
                OperandSize::Bit32 => le_bytes_u32(value as u32),
                OperandSize::Bit64 => le_bytes_u64(value as u64),
                OperandSize::Bit128 => le_bytes_u64(value as u64),
            };
            if mem_range_mapped(s.mem, address, bytes.len() as u64) {
                Some(StateView { mem: mem_write_bytes(s.mem, address, bytes), ..s })
            } else {
                None
            }
        },
    }
}

/// Index of a vector register inside the vector file.
pub open spec fn xmm_index_sp(register: Register) -> int {
    match register {
        Register::XMM0 => 0,
        Register::XMM1 => 1,
        Register::XMM2 => 2,
        Register::XMM3 => 3,
        Register::XMM4 => 4,
        Register::XMM5 => 5,
        Register::XMM6 => 6,
        Register::XMM7 => 7,
        Register::XMM8 => 8,
        Register::XMM9 => 9,
        Register::XMM10 => 10,
        Register::XMM11 => 11,
        Register::XMM12 => 12,
        Register::XMM13 => 13,
        Register::XMM14 => 14,
        Register::XMM15 => 15,
        _ => 0,
    }
}

/// What the vector read path returns for an operand, or nothing when
/// it touches an unmapped page.
pub open spec fn get_xmm_sp(s: StateView, operand: Operand) -> Option<u128> {
    match operand {
        Operand::Register(register) => Some(s.xmm[xmm_index_sp(register)]),
        Operand::Immediate(_) => None,
        Operand::EffectiveAddress { .. } => {
            let address = ea_sp(s, operand);
            if mem_range_mapped(s.mem, address, 8) && mem_range_mapped(
                s.mem,
                address.wrapping_add(8),
                8,
            ) {
                Some(mem_u128_le(s.mem, address))
            } else {
                None
            }
        },
    }
}

/// The state after the vector write path stores a 128-bit value to an
/// operand, or nothing when it touches an unmapped page.
pub open spec fn set_xmm_sp(s: StateView, value: u128, operand: Operand) -> Option<StateView> {
    match operand {
        Operand::Register(register) => Some(
            StateView { xmm: s.xmm.update(xmm_index_sp(register), value), ..s },
        ),
        Operand::Immediate(_) => None,
        Operand::EffectiveAddress { .. } => {
            let address = ea_sp(s, operand);
            if mem_range_mapped(s.mem, address, 16) {
                Some(StateView { mem: mem_write_bytes(s.mem, address, le_bytes_u128(value)), ..s })
            } else {
                None
            }
        },
    }
}

impl MachineState {
    /// Whether a flag is set in RFLAGS.
    pub fn get_flag(&self, flag: Flags) -> (r: bool)
        ensures
            r == get_flag_sp(self@.rflags, flag),
    {
        let mask = flag_mask(flag) as i64;
        self.rflags & mask == mask
    }

    /// Force one flag in RFLAGS to a value.
    pub fn set_flag(&mut self, flag: Flags, value: bool)
        ensures
            final(self)@ == (StateView {
                rflags: set_flag_sp(old(self)@.rflags, flag, value),
                ..old(self)@
            }),
    {
        let mask = flag_mask(flag) as i64;
        if value {
            self.rflags = self.rflags | mask;
        } else {
            self.rflags = self.rflags & !mask;
        }
    }

    /// Fold a result into the Zero, Sign and Parity flags at the given
    /// width.
    pub fn compute_flags(&mut self, result: i64, operand_size: OperandSize)
        ensures
            final(self)@ == (StateView {
                rflags: compute_flags_sp(old(self)@.rflags, result, operand_size),
                ..old(self)@
            }),
    {
        self.set_flag(Flags::Zero, result == 0);
        let sign = match operand_size {
            OperandSize::Bit8 => (result as u64) & 0x80 != 0,
            OperandSize::Bit16 => (result as u64) & 0x8000 != 0,
            OperandSize::Bit32 => (result as u64) & 0x8000_0000 != 0,
            OperandSize::Bit64 => (result as u64) & 0x8000_0000_0000_0000 != 0,
            OperandSize::Bit128 => (result as u64) & 0x8000_0000_0000_0000 != 0,
        };
        self.set_flag(Flags::Sign, sign);
        let byte = result as u8;
        let parity = (byte & 1) ^ ((byte >> 1u8) & 1) ^ ((byte >> 2u8) & 1) ^ ((byte >> 3u8)
            & 1) ^ ((byte >> 4u8) & 1) ^ ((byte >> 5u8) & 1) ^ ((byte >> 6u8) & 1) ^ ((byte
            >> 7u8) & 1);
        self.set_flag(Flags::Parity, parity != 1);
    }

    /// The effective address of a memory operand.
    pub fn calculate_effective_address(&self, arg: &Operand) -> (r: u64)
        requires
            arg is EffectiveAddress,
            crate::instruction::operand_readable(*arg),
        ensures
            r == ea_sp(self@, *arg),
    {
        match *arg {
            Operand::EffectiveAddress { ref base, ref index, scale, displacement } => {
                let base_value: i64 = match *base {
                    Some(register) => self.get_register_value(register),
                    None => 0,
                };
                let index_value: i64 = match *index {
                    Some(register) => {
                        let scale_value = match scale {
                            Some(sc) => sc,
                            None => unreached(),
                        };
                        self.get_register_value(register).wrapping_mul(scale_value as i64)
                    },
                    None => 0,
                };
                base_value.wrapping_add(index_value).wrapping_add(displacement as i64) as u64
            },
            _ => unreached(),
        }
    }

    /// Read an operand through the integer path at a width. Fails with
    /// the faulting address when a memory operand touches an unmapped
    /// page.
    pub fn get_value(&self, arg: &Operand, operand_size: OperandSize) -> (r: Result<i64, VmError>)
        requires
            wf_state(self@),
            crate::instruction::operand_readable(*arg),
            operand_size != OperandSize::Bit128,
        ensures
            match r {
                Ok(v) => get_value_sp(self@, *arg, operand_size) == Some(v),
                Err(e) => get_value_sp(self@, *arg, operand_size) is None && e
                    == VmError::UnmappedPage(ea_sp(self@, *arg)),
            },
    {
        match *arg {
            Operand::Register(register) => Ok(self.get_register_value(register)),
            Operand::Immediate(immediate) => Ok(immediate),
            Operand::EffectiveAddress { .. } => {
                let address = self.calculate_effective_address(arg);
                match operand_size {
                    OperandSize::Bit8 => match self.memory.try_read_byte(address) {
                        Some(b) => Ok(b as i8 as i64),
                        None => Err(VmError::UnmappedPage(address)),
                    },
                    OperandSize::Bit16 => match self.memory.try_read_u16(address) {
                        Some(v) => Ok(v as i16 as i64),
                        None => Err(VmError::UnmappedPage(address)),
                    },
                    OperandSize::Bit32 => match self.memory.try_read_u32(address) {
                        Some(v) => Ok(v as i32 as i64),
                        None => Err(VmError::UnmappedPage(address)),
                    },
                    OperandSize::Bit64 => match self.memory.try_read_u64(address) {
                        Some(v) => Ok(v as i64),
                        None => Err(VmError::UnmappedPage(address)),
                    },
                    OperandSize::Bit128 => unreached(),
                }
            },
        }
    }

    /// Store a value through the integer path at a width. Fails with
    /// the faulting address, changing nothing, when a memory operand
    /// touches an unmapped page.
    pub fn set_value(&mut self, value: i64, arg: &Operand, operand_size: OperandSize) -> (r:
        Result<(), VmError>)
        requires
            wf_state(old(self)@),
            crate::instruction::operand_writable(*arg),
            operand_size != OperandSize::Bit128,
        ensures
            wf_state(final(self)@),
            match r {
                Ok(()) => set_value_sp(old(self)@, value, *arg, operand_size) == Some(
                    final(self)@,
                ),
                Err(e) => set_value_sp(old(self)@, value, *arg, operand_size) is None
                    && final(self)@ == old(self)@ && e == VmError::UnmappedPage(
                    ea_sp(old(self)@, *arg),
                ),
            },
    {
        match *arg {
            Operand::Register(register) => {
                self.set_register_value(register, value);
                Ok(())
            },
            Operand::EffectiveAddress { .. } => {
                let address = self.calculate_effective_address(arg);
                let ok = match operand_size {
                    OperandSize::Bit8 => {
                        let r = self.memory.try_write_byte(address, value as u8);
                        proof {
                            if r {
                                let s = seq![value as u8];
                                let m0 = old(self)@.mem;
                                let m1 = crate::memory::mem_write_byte(m0, address, value as u8);
                                assert(s.len() == 1 && s[0] == value as u8);
                                assert(s.skip(1) =~= Seq::<u8>::empty());
                                assert(mem_write_bytes(m1, address.wrapping_add(1), s.skip(1))
                                    == m1);
                                assert(mem_write_bytes(m0, address, s) == m1);
                                assert(mem_range_mapped(old(self)@.mem, address, 1)) by {
                                    assert(address.wrapping_add(0) == address);
                                }
                            } else {
                                assert(!mem_range_mapped(old(self)@.mem, address, 1)) by {
                                    assert(address.wrapping_add(0) == address);
                                }
                            }
                        }
                        r
                    },
                    OperandSize::Bit16 => self.memory.try_write_u16(address, value as u16),
                    OperandSize::Bit32 => self.memory.try_write_u32(address, value as u32),
                    OperandSize::Bit64 => self.memory.try_write_u64(address, value as u64),
                    OperandSize::Bit128 => unreached(),
                };
                if ok {
                    Ok(())
                } else {
                    Err(VmError::UnmappedPage(address))
                }
            },
            Operand::Immediate { .. } => unreached(),
        }
    }

    /// Read a vector register.
    pub fn get_register_xmm(&self, register: Register) -> (r: u128)
        requires
            is_xmm_register(register),
        ensures
            r == self@.xmm[xmm_index_sp(register)],
    {
        let index: usize = match register {
            Register::XMM0 => 0,
            Register::XMM1 => 1,
            Register::XMM2 => 2,
            Register::XMM3 => 3,
            Register::XMM4 => 4,
            Register::XMM5 => 5,
            Register::XMM6 => 6,
            Register::XMM7 => 7,
            Register::XMM8 => 8,
            Register::XMM9 => 9,
            Register::XMM10 => 10,
            Register::XMM11 => 11,
            Register::XMM12 => 12,
            Register::XMM13 => 13,
            Register::XMM14 => 14,
            Register::XMM15 => 15,
            _ => unreached(),
        };
        self.xmm[index]
    }

    /// Write a vector register.
    pub fn set_register_xmm(&mut self, register: Register, value: u128)
        requires
            is_xmm_register(register),
        ensures
            final(self)@ == (StateView {
                xmm: old(self)@.xmm.update(xmm_index_sp(register), value),
                ..old(self)@
            }),
    {
        let index: usize = match register {
            Register::XMM0 => 0,
            Register::XMM1 => 1,
            Register::XMM2 => 2,
            Register::XMM3 => 3,
            Register::XMM4 => 4,
            Register::XMM5 => 5,
            Register::XMM6 => 6,
            Register::XMM7 => 7,
            Register::XMM8 => 8,
            Register::XMM9 => 9,
            Register::XMM10 => 10,
            Register::XMM11 => 11,
            Register::XMM12 => 12,
            Register::XMM13 => 13,
            Register::XMM14 => 14,
            Register::XMM15 => 15,
            _ => unreached(),
        };
        self.xmm.set(index, value);
    }

    /// Read an operand through the vector path. Fails with the
    /// faulting address when a memory operand touches an unmapped
    /// page.
    pub fn get_xmm(&self, arg: &Operand, operand_size: OperandSize) -> (r: Result<u128, VmError>)
        requires
            wf_state(self@),
            !(*arg is Immediate),
            *arg is Register ==> is_xmm_register(arg->Register_0),
            *arg is EffectiveAddress ==> operand_size == OperandSize::Bit128
                && crate::instruction::operand_readable(*arg),
        ensures
            match r {
                Ok(v) => get_xmm_sp(self@, *arg) == Some(v),
                Err(e) => get_xmm_sp(self@, *arg) is None && e == VmError::UnmappedPage(
                    ea_sp(self@, *arg),
                ),
            },
    {
        match *arg {
            Operand::Register(register) => Ok(self.get_register_xmm(register)),
            Operand::Immediate(_) => unreached(),
            Operand::EffectiveAddress { .. } => {
                let address = self.calculate_effective_address(arg);
                match self.memory.try_read_u128(address) {
                    Some(v) => Ok(v),
                    None => Err(VmError::UnmappedPage(address)),
                }
            },
        }
    }

    /// Store a 128-bit value through the vector path. Fails with the
    /// faulting address, changing nothing, when a memory operand
    /// touches an unmapped page.
    pub fn set_xmm(&mut self, value: u128, arg: &Operand, operand_size: OperandSize) -> (r:
        Result<(), VmError>)
        requires
            wf_state(old(self)@),
            !(*arg is Immediate),
            *arg is Register ==> is_xmm_register(arg->Register_0),
            *arg is EffectiveAddress ==> operand_size == OperandSize::Bit128
                && crate::instruction::operand_readable(*arg),
        ensures
            wf_state(final(self)@),
            match r {
                Ok(()) => set_xmm_sp(old(self)@, value, *arg) == Some(final(self)@),
                Err(e) => set_xmm_sp(old(self)@, value, *arg) is None && final(self)@
                    == old(self)@ && e == VmError::UnmappedPage(ea_sp(old(self)@, *arg)),
            },
    {
        match *arg {
            Operand::Register(register) => {
                self.set_register_xmm(register, value);
                Ok(())
            },
            Operand::Immediate(_) => unreached(),
            Operand::EffectiveAddress { .. } => {
                let address = self.calculate_effective_address(arg);
                if self.memory.try_write_u128(address, value) {
                    Ok(())
                } else {
                    Err(VmError::UnmappedPage(address))
                }
            },
        }
    }

    /// Read a run of bytes from guest memory, or nothing when it
    /// crosses an unmapped page.
    pub fn mem_read(&self, virtual_address: u64, length: u64) -> (r: Option<Vec<u8>>)
        requires
            wf_state(self@),
        ensures
            match r {
                Some(v) => {
                    &&& mem_range_mapped(self@.mem, virtual_address, length)
                    &&& v@.len() == length
                    &&& forall|i: u64| i < length ==> v@[i as int] == mem_byte(
                        self@.mem,
                        #[trigger] virtual_address.wrapping_add(i),
                    )
                },
                None => !mem_range_mapped(self@.mem, virtual_address, length),
            },
    {
        self.memory.try_read_bytes(virtual_address, length)
    }

    /// Read one byte of guest memory, or nothing when its page is not
    /// mapped.
    pub fn mem_read_byte(&self, address: u64) -> (r: Option<u8>)
        requires
            wf_state(self@),
        ensures
            match r {
                Some(b) => mem_mapped(self@.mem, address) && b == mem_byte(self@.mem, address),
                None => !mem_mapped(self@.mem, address),
            },
    {
        self.memory.try_read_byte(address)
    }

    /// Write a run of bytes into guest memory, installing zero-filled
    /// pages where the range is not mapped yet.
    pub fn mem_write(&mut self, address: u64, data: &[u8])
        requires
            wf_state(old(self)@),
            data@.len() < 0x1_0000_0000,
        ensures
            wf_state(final(self)@),
            final(self)@ == (StateView {
                mem: mem_write_bytes(
                    alloc_range_sp(old(self)@.mem, address, data@.len() as u64),
                    address,
                    data@,
                ),
                ..old(self)@
            }),
            mem_range_mapped(final(self)@.mem, address, data@.len() as u64),
    {
        let n = data.len() as u64;
        let ghost pre = self@.mem;
        let mut i: u64 = 0;
        while i < n
            invariant
                i <= n,
                wf_state(self@),
                self@ == (StateView { mem: alloc_prefix_sp(pre, address, i), ..old(self)@ }),
            decreases n - i,
        {
            let a = address.wrapping_add(i);
            let page_index = a / crate::memory::PAGE_SIZE;
            if !self.memory.contains_page(page_index) {
                self.memory.insert_page(page_index, crate::memory::zero_page_vec());
            }
            proof {
                assert(self@.mem =~= alloc_prefix_sp(pre, address, (i + 1) as u64));
            }
            i = i + 1;
        }
        proof {
            lemma_alloc_prefix_mapped(pre, address, n);
        }
        self.memory.write_unaligned_bytes(address, data);
        proof {
            crate::memory::lemma_mem_write_bytes(alloc_range_sp(pre, address, n), address, data@);
        }
    }
}

/// The page map with zero pages installed under the first `n` bytes
/// starting at `address`, where no page was mapped.
pub open spec fn alloc_prefix_sp(m: MemView, address: u64, n: u64) -> MemView
    decreases n,
{
    if n == 0 {
        m
    } else {
        let prev = alloc_prefix_sp(m, address, (n - 1) as u64);
        let page = address.wrapping_add((n - 1) as u64) / crate::memory::PAGE_SIZE;
        if prev.contains_key(page) {
            prev
        } else {
            prev.insert(page, crate::memory::zero_page())
        }
    }
}

/// The page map with zero pages installed under a whole byte range.
pub open spec fn alloc_range_sp(m: MemView, address: u64, n: u64) -> MemView {
    alloc_prefix_sp(m, address, n)
}

/// After installing zero pages under a range, the whole range is
/// mapped and the map is still well formed.
pub proof fn lemma_alloc_prefix_mapped(m: MemView, address: u64, n: u64)
    requires
        mem_inv(m),
    ensures
        mem_inv(alloc_prefix_sp(m, address, n)),
        mem_range_mapped(alloc_prefix_sp(m, address, n), address, n),
    decreases n,
{
    if n == 0 {
    } else {
        lemma_alloc_prefix_mapped(m, address, (n - 1) as u64);
        let prev = alloc_prefix_sp(m, address, (n - 1) as u64);
        let post = alloc_prefix_sp(m, address, n);
        assert forall|i: u64| i < n implies mem_mapped(
            post,
            #[trigger] address.wrapping_add(i),
        ) by {
            if i < n - 1 {
                assert(mem_mapped(prev, address.wrapping_add(i)));
            }
        }
    }
}

/// A page mapped before the zero-fill keeps its contents.
pub proof fn lemma_alloc_prefix_preserves(m: MemView, address: u64, n: u64, k: u64)
    requires
        m.contains_key(k),
    ensures
        alloc_prefix_sp(m, address, n).contains_key(k),
        alloc_prefix_sp(m, address, n)[k] == m[k],
    decreases n,
{
    if n != 0 {
        lemma_alloc_prefix_preserves(m, address, (n - 1) as u64, k);
    }
}

} // verus!
