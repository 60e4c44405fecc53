use x86emu::dispatch::Flow;
use x86emu::execution::{InstructionCache, RunOutcome};
use x86emu::instruction::{Flags, Operand, Operands, OperandSize, Register, Repeat};
use x86emu::interpreter::EmulationCPU;
use x86emu::machine_state::MachineState;
use x86emu::VmError;

fn fresh_state() -> MachineState {
    let mut state = MachineState::new();
    x86emu::allocate_stack(&mut state);
    state
}

fn run(state: &mut MachineState, code: &[u8], steps: u64) -> Option<RunOutcome> {
    x86emu::load(state, code);
    let mut cache = InstructionCache::new();
    state.execute(&mut cache, steps)
}

fn reg_operand(register: Register) -> Operands {
    Operands {
        operands: (Some(Operand::Register(register)), None, None),
        opcode: None,
        explicit_size: None,
        repeat: Repeat::Once,
    }
}

fn two_regs(src: Register, dst: Register) -> Operands {
    Operands {
        operands: (Some(Operand::Register(src)), Some(Operand::Register(dst)), None),
        opcode: None,
        explicit_size: None,
        repeat: Repeat::Once,
    }
}

#[test]
fn add_constants() {
    // mov eax, 3; add eax, 4; ret
    let mut state = fresh_state();
    x86emu::interpreter::stack_push(&mut state, 0x1000).unwrap();
    let outcome = run(&mut state, &[0xB8, 3, 0, 0, 0, 0x05, 4, 0, 0, 0, 0xC3], 3);
    assert!(outcome.is_none());
    assert_eq!(state.rax as u32, 7);
    assert!(!state.get_flag(Flags::Carry));
    assert!(!state.get_flag(Flags::Overflow));
    assert!(!state.get_flag(Flags::Zero));
    assert_eq!(state.rip, 0x1000);
}

#[test]
fn signed_overflow() {
    // mov eax, 0x7FFFFFFF; add eax, 1
    let mut state = fresh_state();
    let outcome = run(
        &mut state,
        &[0xB8, 0xFF, 0xFF, 0xFF, 0x7F, 0x05, 0x01, 0, 0, 0, 0xF4],
        2,
    );
    assert!(outcome.is_none());
    assert_eq!(state.rax as u32, 0x8000_0000);
    assert!(state.get_flag(Flags::Overflow));
    assert!(state.get_flag(Flags::Sign));
    assert!(!state.get_flag(Flags::Carry));
}

#[test]
fn halt_byte_is_unknown_opcode() {
    let mut state = fresh_state();
    let outcome = run(
        &mut state,
        &[0xB8, 0xFF, 0xFF, 0xFF, 0x7F, 0x05, 0x01, 0, 0, 0, 0xF4],
        5,
    );
    assert_eq!(outcome, Some(RunOutcome::Fault(10, VmError::UnknownOpcode(0xF4))));
}

#[test]
fn unsigned_borrow() {
    // mov eax, 0; sub eax, 1
    let mut state = fresh_state();
    let outcome = run(&mut state, &[0xB8, 0, 0, 0, 0, 0x2D, 0x01, 0, 0, 0], 2);
    assert!(outcome.is_none());
    assert_eq!(state.rax as u32, 0xFFFF_FFFF);
    assert!(state.get_flag(Flags::Carry));
    assert!(!state.get_flag(Flags::Overflow));
    assert!(state.get_flag(Flags::Sign));
}

#[test]
fn conditional_move() {
    // xor eax, eax; cmp eax, 0; cmove eax, ebx  with ebx = 42
    let mut state = fresh_state();
    state.rbx = 42;
    let outcome = run(&mut state, &[0x31, 0xC0, 0x83, 0xF8, 0x00, 0x0F, 0x44, 0xC3], 3);
    assert!(outcome.is_none());
    assert_eq!(state.rax, 42);
    assert!(state.get_flag(Flags::Zero));
}

#[test]
fn string_move() {
    // rep movsb copying "hello" between two buffers
    let mut state = fresh_state();
    let source: u64 = 0x5000;
    let dest: u64 = 0x7000;
    state.mem_write(source, b"hello");
    state.mem_write(dest, &[0u8; 5]);
    state.rsi = source as i64;
    state.rdi = dest as i64;
    state.rcx = 5;
    state.set_flag(Flags::Direction, false);
    let outcome = run(&mut state, &[0xF3, 0xA4], 1);
    assert!(outcome.is_none());
    let copied = state.mem_read(dest, 5).unwrap();
    assert_eq!(copied, b"hello".to_vec());
    assert_eq!(state.rcx, 0);
    assert_eq!(state.rsi as u64, source + 5);
    assert_eq!(state.rdi as u64, dest + 5);
}

#[test]
fn rip_relative_load() {
    // mov rax, [rip + 2]; two filler bytes; then the 8-byte datum
    let mut state = fresh_state();
    let mut code: Vec<u8> = vec![0x48, 0x8B, 0x05, 0x02, 0x00, 0x00, 0x00, 0x90, 0x90];
    let datum: u64 = 0x1122_3344_5566_7788;
    code.extend_from_slice(&datum.to_le_bytes());
    let outcome = run(&mut state, &code, 1);
    assert!(outcome.is_none());
    assert_eq!(state.rax as u64, datum);
}

#[test]
fn terminate_on_int() {
    let mut state = fresh_state();
    let outcome = run(&mut state, &[0xCD, 0x80], 4);
    assert_eq!(outcome, Some(RunOutcome::Terminated));
}

#[test]
fn int3_is_fatal() {
    let mut state = fresh_state();
    let outcome = run(&mut state, &[0xCC], 4);
    assert_eq!(outcome, Some(RunOutcome::Fault(0, VmError::IntThree)));
}

#[test]
fn self_loop_halts() {
    // jmp -2: jumps to itself
    let mut state = fresh_state();
    let outcome = run(&mut state, &[0xEB, 0xFE], 4);
    assert_eq!(outcome, Some(RunOutcome::Halt(0)));
}

#[test]
fn fault_reports_unmapped_page() {
    // mov rax, [0x123456780] via absolute-ish addressing: use mov rax, [rbx]
    let mut state = fresh_state();
    state.rbx = 0x1_2345_6000;
    let outcome = run(&mut state, &[0x48, 0x8B, 0x03], 1);
    assert_eq!(
        outcome,
        Some(RunOutcome::Fault(0, VmError::UnmappedPage(0x1_2345_6000)))
    );
}

#[test]
fn divide_by_zero_faults() {
    // xor ecx, ecx; div ecx
    let mut state = fresh_state();
    let outcome = run(&mut state, &[0x31, 0xC9, 0xF7, 0xF1], 2);
    assert_eq!(outcome, Some(RunOutcome::Fault(2, VmError::DivideOverflow)));
}

#[test]
fn adc_is_unsupported() {
    // adc al, al
    let mut state = fresh_state();
    let outcome = run(&mut state, &[0x10, 0xC0], 1);
    assert_eq!(
        outcome,
        Some(RunOutcome::Fault(0, VmError::UnsupportedInstruction))
    );
}

#[test]
fn syscall_is_unsupported() {
    let mut state = fresh_state();
    let outcome = run(&mut state, &[0x0F, 0x05], 1);
    assert_eq!(outcome, Some(RunOutcome::Fault(0, VmError::UnsupportedSyscall)));
}

#[test]
fn rdmsr_reads_efer_and_rejects_others() {
    let mut state = fresh_state();
    state.rcx = 0xC000_0080;
    let outcome = run(&mut state, &[0x0F, 0x32], 1);
    assert!(outcome.is_none());
    assert_eq!(state.rax, 0x500);
    assert_eq!(state.rdx, 0);

    let mut state2 = fresh_state();
    state2.rcx = 0x1234;
    let outcome2 = run(&mut state2, &[0x0F, 0x32], 1);
    assert_eq!(
        outcome2,
        Some(RunOutcome::Fault(0, VmError::UnsupportedMsr(0x1234)))
    );
}

#[test]
fn call_and_ret_restore_stack() {
    // call +3; jmp self (never reached twice); target: ret
    // layout: 0: call rel32(+3) -> 8; 5: jmp self; 8: ret
    let mut state = fresh_state();
    let code = [0xE8, 0x03, 0x00, 0x00, 0x00, 0xEB, 0xFE, 0x90, 0xC3];
    let rsp_before = state.rsp;
    let outcome = run(&mut state, &code, 2);
    assert!(outcome.is_none());
    assert_eq!(state.rsp, rsp_before);
    assert_eq!(state.rip, 5);
}

#[test]
fn pushf_popf_roundtrip() {
    let mut state = fresh_state();
    state.rflags = 0x8D5;
    let rsp_before = state.rsp;
    let cpu = EmulationCPU;
    cpu.pushf(&mut state).unwrap();
    state.rflags = 0;
    cpu.popf(&mut state).unwrap();
    assert_eq!(state.rflags, 0x8D5);
    assert_eq!(state.rsp, rsp_before);
}

#[test]
fn write32_zeroes_upper_bits() {
    let mut state = MachineState::new();
    state.rax = -1;
    state.set_register_value(Register::EAX, -1);
    assert_eq!(state.rax as u64, 0x0000_0000_FFFF_FFFF);
}

#[test]
fn write16_and_write8_keep_upper_bits() {
    let mut state = MachineState::new();
    state.rax = 0x1122_3344_5566_7788;
    state.set_register_value(Register::AX, 0x99AA);
    assert_eq!(state.rax as u64, 0x1122_3344_5566_99AA);
    state.set_register_value(Register::AL, 0x11);
    assert_eq!(state.rax as u64, 0x1122_3344_5566_9911);
}

#[test]
fn high_byte_aliases_use_bits_15_to_8() {
    let mut state = MachineState::new();
    state.rax = 0x1122_3344_5566_7788;
    assert_eq!(state.get_register_value(Register::AH) as u8, 0x77);
    state.set_register_value(Register::AH, 0x5A);
    assert_eq!(state.rax as u64, 0x1122_3344_5566_5A88);
    assert_eq!(state.get_register_value(Register::AL) as u8, 0x88);
}

#[test]
fn unaligned_read_across_pages() {
    let mut state = MachineState::new();
    let boundary: u64 = 0x2000;
    let bytes: [u8; 8] = [0x11, 0x22, 0x33, 0x44, 0x55, 0x66, 0x77, 0x88];
    state.mem_write(boundary - 4, &bytes);
    let value = state.memory.try_read_u64(boundary - 4).unwrap();
    assert_eq!(value, u64::from_le_bytes(bytes));
}

#[test]
fn neg_twice_round_trips() {
    let cases: [i64; 10] = [
        0,
        1,
        0x7F,
        0x80,
        0xFF,
        0x7FFF,
        0x7FFF_FFFF,
        -1,
        i64::MAX,
        i64::MIN,
    ];
    let cpu = EmulationCPU;
    for &x in cases.iter() {
        for size in [
            OperandSize::Bit8,
            OperandSize::Bit16,
            OperandSize::Bit32,
            OperandSize::Bit64,
        ] {
            let mut state = MachineState::new();
            state.rbx = x;
            let mut op = reg_operand(Register::RBX);
            op.explicit_size = Some(size);
            cpu.neg(&mut state, &op).unwrap();
            cpu.neg(&mut state, &op).unwrap();
            let mask: u64 = match size {
                OperandSize::Bit8 => 0xFF,
                OperandSize::Bit16 => 0xFFFF,
                OperandSize::Bit32 => 0xFFFF_FFFF,
                _ => u64::MAX,
            };
            assert_eq!((state.rbx as u64) & mask, (x as u64) & mask);
        }
    }
}

#[test]
fn xor_register_with_itself() {
    let cpu = EmulationCPU;
    let mut state = MachineState::new();
    state.rax = 0x1234_5678_9ABC_DEF0;
    state.rflags = 0x801;
    let op = two_regs(Register::EAX, Register::EAX);
    cpu.xor(&mut state, &op).unwrap();
    assert_eq!(state.rax, 0);
    assert!(state.get_flag(Flags::Zero));
    assert!(!state.get_flag(Flags::Sign));
    assert!(!state.get_flag(Flags::Carry));
    assert!(!state.get_flag(Flags::Overflow));
    assert!(state.get_flag(Flags::Parity));
}

#[test]
fn shl_flag_behavior() {
    let cpu = EmulationCPU;
    // count 0: flags stay as they were
    let mut state = MachineState::new();
    state.rflags = 0x8D5;
    state.rbx = 5;
    let op = two_regs(Register::RCX, Register::RBX);
    state.rcx = 0;
    cpu.shl(&mut state, &op).unwrap();
    assert_eq!(state.rflags, 0x8D5);
    assert_eq!(state.rbx, 5);
    // count 1 defines Overflow: shifting the top bit out of bit 62
    state.rcx = 1;
    state.rbx = 0x4000_0000_0000_0000;
    cpu.shl(&mut state, &op).unwrap();
    assert_eq!(state.rbx as u64, 0x8000_0000_0000_0000);
    assert!(state.get_flag(Flags::Overflow));
    // shifting a 32-bit value by its width yields zero
    let mut op32 = two_regs(Register::RCX, Register::RBX);
    op32.explicit_size = Some(OperandSize::Bit32);
    state.rcx = 0x20 + 3;
    state.rbx = 0xFFFF_FFFF;
    cpu.shl(&mut state, &op32).unwrap();
    assert_eq!(state.rbx as u32, 0xFFFF_FFF8);
    state.rcx = 31;
    state.rbx = 0xFFFF_FFFF;
    cpu.shl(&mut state, &op32).unwrap();
    assert_eq!(state.rbx as u32, 0x8000_0000);
}

#[test]
fn sign_and_zero_flags_follow_result() {
    let cpu = EmulationCPU;
    let mut state = MachineState::new();
    state.rax = 0x7F;
    state.rbx = 1;
    let mut op = two_regs(Register::RBX, Register::RAX);
    op.explicit_size = Some(OperandSize::Bit8);
    cpu.add(&mut state, &op).unwrap();
    assert_eq!(state.rax as u8, 0x80);
    assert!(state.get_flag(Flags::Sign));
    assert!(!state.get_flag(Flags::Zero));
    assert!(state.get_flag(Flags::Overflow));

    let mut state2 = MachineState::new();
    state2.rax = 1;
    state2.rbx = 1;
    let op2 = two_regs(Register::RBX, Register::RAX);
    cpu.sub(&mut state2, &op2).unwrap();
    assert_eq!(state2.rax, 0);
    assert!(state2.get_flag(Flags::Zero));
    assert!(!state2.get_flag(Flags::Sign));
}

#[test]
fn inc_and_dec_preserve_carry() {
    let cpu = EmulationCPU;
    let mut state = MachineState::new();
    state.set_flag(Flags::Carry, true);
    state.rax = 41;
    let op = reg_operand(Register::RAX);
    cpu.inc(&mut state, &op).unwrap();
    assert_eq!(state.rax, 42);
    assert!(state.get_flag(Flags::Carry));
    cpu.dec(&mut state, &op).unwrap();
    assert_eq!(state.rax, 41);
    assert!(state.get_flag(Flags::Carry));
}

#[test]
fn lea_leaves_memory_and_flags_alone() {
    let cpu = EmulationCPU;
    let mut state = MachineState::new();
    state.rflags = 0x8D5;
    state.rbx = 0x100;
    state.rcx = 0x20;
    let op = Operands {
        operands: (
            Some(Operand::EffectiveAddress {
                base: Some(Register::RBX),
                index: Some(Register::RCX),
                scale: Some(4),
                displacement: 8,
            }),
            Some(Operand::Register(Register::RAX)),
            None,
        ),
        opcode: None,
        explicit_size: Some(OperandSize::Bit64),
        repeat: Repeat::Once,
    };
    cpu.lea(&mut state, &op).unwrap();
    assert_eq!(state.rax, 0x100 + 0x20 * 4 + 8);
    assert_eq!(state.rflags, 0x8D5);
}

#[test]
fn decoder_gives_same_record_for_same_bytes() {
    let mut state = MachineState::new();
    state.mem_write(0, &[0x48, 0x01, 0xD8, 0x90]);
    let mut rip1: i64 = 0;
    let (op1, ops1) = x86emu::decoder::decode(&mut rip1, &state.memory).unwrap();
    let mut rip2: i64 = 0;
    let (op2, ops2) = x86emu::decoder::decode(&mut rip2, &state.memory).unwrap();
    assert_eq!(op1, op2);
    assert_eq!(rip1, rip2);
    assert_eq!(rip1, 3);
    match (ops1.operands.0, ops2.operands.0) {
        (Some(Operand::Register(a)), Some(Operand::Register(b))) => assert_eq!(a, b),
        _ => panic!("expected register operands"),
    }
}

#[test]
fn cache_reuses_and_keeps_entries() {
    // a two-instruction loop: inc rax; jmp -6 — every later iteration
    // hits the cache
    let mut state = fresh_state();
    x86emu::load(&mut state, &[0x48, 0xFF, 0xC0, 0xEB, 0xFB]);
    let mut cache = InstructionCache::new();
    let outcome = state.execute(&mut cache, 10);
    assert!(outcome.is_none());
    assert_eq!(state.rax, 5);
    let entry = cache.get(0).unwrap();
    assert_eq!(entry.2, 3);
    let outcome2 = state.execute(&mut cache, 10);
    assert!(outcome2.is_none());
    assert_eq!(state.rax, 10);
    let entry_after = cache.get(0).unwrap();
    assert_eq!(entry_after.0, entry.0);
    assert_eq!(entry_after.2, entry.2);
}

#[test]
fn step_advances_by_cached_length() {
    let mut state = fresh_state();
    x86emu::load(&mut state, &[0x48, 0xFF, 0xC0, 0xEB, 0xFB]);
    let mut cache = InstructionCache::new();
    assert_eq!(state.step(&mut cache), Ok(Flow::Next));
    let after_first = state.rip;
    let entry = cache.get(0).unwrap();
    assert_eq!(after_first as u64, entry.2);
}

#[test]
fn cpuid_vendor_words() {
    let mut state = fresh_state();
    state.rax = 0;
    let outcome = run(&mut state, &[0x0F, 0xA2], 1);
    assert!(outcome.is_none());
    assert_eq!(state.rax as u32, 1000);
    assert_eq!(state.rbx as u32, 0x756e6547);
    assert_eq!(state.rdx as u32, 0x49656e69);
    assert_eq!(state.rcx as u32, 0x6c65746e);
}

#[test]
fn scas_repne_finds_byte()
{
    // repne scasb over "hello\0" looking for 'l'
    let mut state = fresh_state();
    let buffer: u64 = 0x5000;
    state.mem_write(buffer, b"hello\0");
    state.rdi = buffer as i64;
    state.rax = 'l' as i64;
    state.rcx = 6;
    let outcome = run(&mut state, &[0xF2, 0xAE], 1);
    assert!(outcome.is_none());
    // stops after the first 'l' at offset 2; three elements were
    // scanned, so RCX dropped from 6 to 3
    assert_eq!(state.rdi as u64, buffer + 3);
    assert_eq!(state.rcx, 3);
    assert!(state.get_flag(Flags::Zero));
}

#[test]
fn movzx_and_movsx_extend() {
    let mut state = fresh_state();
    // mov bl, 0x80; movzx eax, bl; movsx rcx, bl
    let code = [0xB3, 0x80, 0x0F, 0xB6, 0xC3, 0x48, 0x0F, 0xBE, 0xCB];
    let outcome = run(&mut state, &code, 3);
    assert!(outcome.is_none());
    assert_eq!(state.rax, 0x80);
    assert_eq!(state.rcx, -128);
}

#[test]
fn push_pop_through_memory() {
    let mut state = fresh_state();
    // mov rax, 7; push rax; pop rbx
    let code = [0x48, 0xB8, 7, 0, 0, 0, 0, 0, 0, 0, 0x50, 0x5B];
    let rsp_before = state.rsp;
    let outcome = run(&mut state, &code, 3);
    assert!(outcome.is_none());
    assert_eq!(state.rbx, 7);
    assert_eq!(state.rsp, rsp_before);
}

#[test]
fn bit_test_and_set() {
    let mut state = fresh_state();
    // bts rbx, rcx with rcx = 70 (normalized to 6)
    state.rbx = 0;
    state.rcx = 70;
    let outcome = run(&mut state, &[0x48, 0x0F, 0xAB, 0xCB], 1);
    assert!(outcome.is_none());
    assert_eq!(state.rbx, 1 << 6);
    assert!(!state.get_flag(Flags::Carry));
}

#[test]
fn cmpxchg_equal_and_unequal() {
    let mut state = fresh_state();
    // cmpxchg rbx, rcx: rax == rbx so rbx <- rcx, ZF set
    state.rax = 5;
    state.rbx = 5;
    state.rcx = 9;
    let outcome = run(&mut state, &[0x48, 0x0F, 0xB1, 0xCB], 1);
    assert!(outcome.is_none());
    assert_eq!(state.rbx, 9);
    assert!(state.get_flag(Flags::Zero));

    let mut state2 = fresh_state();
    state2.rax = 4;
    state2.rbx = 5;
    state2.rcx = 9;
    let outcome2 = run(&mut state2, &[0x48, 0x0F, 0xB1, 0xCB], 1);
    assert!(outcome2.is_none());
    assert_eq!(state2.rax, 5);
    assert_eq!(state2.rbx, 5);
    assert!(!state2.get_flag(Flags::Zero));
}

#[test]
fn heap_hands_out_consecutive_addresses() {
    let mut state = MachineState::new();
    let mut heap = x86emu::Heap::new(&mut state);
    let a = heap.push_slice(&mut state, b"abc");
    let b = heap.push_slice(&mut state, b"defg");
    assert_eq!(b, a + 3);
    assert_eq!(state.mem_read(a, 7).unwrap(), b"abcdefg".to_vec());
}

#[test]
fn mul_widens_into_rdx() {
    let mut state = fresh_state();
    // mov rax, 2^63; mul rbx (rbx = 4): product = 2^65
    state.rbx = 4;
    let mut code: Vec<u8> = vec![0x48, 0xB8];
    code.extend_from_slice(&(1u64 << 63).to_le_bytes());
    code.extend_from_slice(&[0x48, 0xF7, 0xE3]);
    let outcome = run(&mut state, &code, 2);
    assert!(outcome.is_none());
    assert_eq!(state.rax, 0);
    assert_eq!(state.rdx, 2);
}

#[test]
fn conditional_jump_taken_and_not_taken() {
    // cmp eax, 0; jne +1; inc rbx; (target) nop — with eax = 0 the
    // jump is not taken and rbx is incremented
    let mut state = fresh_state();
    let code = [0x83, 0xF8, 0x00, 0x75, 0x03, 0x48, 0xFF, 0xC3, 0x90];
    let outcome = run(&mut state, &code, 3);
    assert!(outcome.is_none());
    assert_eq!(state.rbx, 1);

    let mut state2 = fresh_state();
    state2.rax = 7;
    let outcome2 = run(&mut state2, &code, 3);
    assert!(outcome2.is_none());
    // the jump was taken, skipping the increment and executing the nop
    assert_eq!(state2.rbx, 0);
    assert_eq!(state2.rip, 9);
}

#[test]
fn leave_unwinds_frame() {
    let cpu = EmulationCPU;
    let mut state = fresh_state();
    // build a frame: push a saved base pointer, point rbp at it
    x86emu::interpreter::stack_push(&mut state, 0x1111_2222).unwrap();
    state.rbp = state.rsp;
    let frame_rsp = state.rsp;
    state.rsp -= 32;
    cpu.leave(&mut state).unwrap();
    assert_eq!(state.rbp, 0x1111_2222);
    assert_eq!(state.rsp, frame_rsp + 8);
}

#[test]
fn movs_single_dword() {
    // movsd (A5 without a repeat prefix) copies one 32-bit element
    let mut state = fresh_state();
    let source: u64 = 0x5000;
    let dest: u64 = 0x7000;
    state.mem_write(source, &[1, 2, 3, 4, 5, 6, 7, 8]);
    state.mem_write(dest, &[0u8; 8]);
    state.rsi = source as i64;
    state.rdi = dest as i64;
    let outcome = run(&mut state, &[0xA5], 1);
    assert!(outcome.is_none());
    assert_eq!(state.mem_read(dest, 8).unwrap(), vec![1, 2, 3, 4, 0, 0, 0, 0]);
    assert_eq!(state.rsi as u64, source + 4);
    assert_eq!(state.rdi as u64, dest + 4);
}

#[test]
fn lgdt_records_operand() {
    let mut state = fresh_state();
    let table: u64 = 0x5000;
    state.mem_write(table, &0x1234_5678_9ABC_DEF0u64.to_le_bytes());
    state.rbx = table as i64;
    // lgdt [rbx]
    let outcome = run(&mut state, &[0x0F, 0x01, 0x13], 1);
    assert!(outcome.is_none());
    assert_eq!(state.gdt as u64, 0x1234_5678_9ABC_DEF0);
}

#[test]
fn test_sets_zero_without_store() {
    let mut state = fresh_state();
    state.rax = 0;
    // test eax, eax
    let outcome = run(&mut state, &[0x85, 0xC0], 1);
    assert!(outcome.is_none());
    assert!(state.get_flag(Flags::Zero));
    assert_eq!(state.rax, 0);
}

#[test]
fn xchg_swaps_registers() {
    let mut state = fresh_state();
    state.rax = 3;
    state.rbx = 9;
    // xchg rax, rbx
    let outcome = run(&mut state, &[0x48, 0x87, 0xD8], 1);
    assert!(outcome.is_none());
    assert_eq!(state.rax, 9);
    assert_eq!(state.rbx, 3);
}

#[test]
fn not_and_neg_through_the_multiplexed_opcode() {
    let mut state = fresh_state();
    state.rbx = 5;
    // not rbx; neg rbx
    let outcome = run(&mut state, &[0x48, 0xF7, 0xD3, 0x48, 0xF7, 0xDB], 2);
    assert!(outcome.is_none());
    assert_eq!(state.rbx, 6);
}

#[test]
fn imul_three_operand() {
    let mut state = fresh_state();
    state.rbx = 6;
    // imul eax, ebx, 7
    let outcome = run(&mut state, &[0x6B, 0xC3, 0x07], 1);
    assert!(outcome.is_none());
    assert_eq!(state.rax, 42);
}

#[test]
fn indirect_jump_through_register() {
    let mut state = fresh_state();
    state.rax = 0x40;
    // jmp rax
    let outcome = run(&mut state, &[0xFF, 0xE0], 1);
    assert!(outcome.is_none());
    assert_eq!(state.rip, 0x40);
}

#[test]
fn vector_move_between_registers() {
    let mut state = fresh_state();
    state.xmm[1] = 0x1122_3344_5566_7788_99AA_BBCC_DDEE_FF00;
    // movaps xmm0, xmm1
    let outcome = run(&mut state, &[0x0F, 0x28, 0xC1], 1);
    assert!(outcome.is_none());
    assert_eq!(state.xmm[0], state.xmm[1]);
}

#[test]
fn setcc_stores_condition_byte() {
    let mut state = fresh_state();
    state.rax = 1;
    state.rbx = 0xFF;
    // cmp eax, 1; sete bl
    let outcome = run(&mut state, &[0x83, 0xF8, 0x01, 0x0F, 0x94, 0xC3], 2);
    assert!(outcome.is_none());
    assert_eq!(state.rbx, 1);
}

#[test]
fn sar_keeps_the_sign() {
    let mut state = fresh_state();
    state.rbx = -16;
    // sar rbx, 2
    let outcome = run(&mut state, &[0x48, 0xC1, 0xFB, 0x02], 1);
    assert!(outcome.is_none());
    assert_eq!(state.rbx, -4);
}

#[test]
fn shr_is_logical() {
    let mut state = fresh_state();
    state.rbx = -16;
    // shr rbx, 2
    let outcome = run(&mut state, &[0x48, 0xC1, 0xEB, 0x02], 1);
    assert!(outcome.is_none());
    assert_eq!(state.rbx as u64, 0x3FFF_FFFF_FFFF_FFFC);
}

#[test]
fn mov_to_memory_and_back() {
    let mut state = fresh_state();
    state.mem_write(0x5000, &[0u8; 8]);
    state.rbx = 0x5000;
    state.rax = 0x0102_0304_0506_0708;
    // mov [rbx], rax; mov rcx, [rbx]
    let outcome = run(&mut state, &[0x48, 0x89, 0x03, 0x48, 0x8B, 0x0B], 2);
    assert!(outcome.is_none());
    assert_eq!(state.rcx, 0x0102_0304_0506_0708);
}

#[test]
fn div_uses_width_paired_dividend() {
    // edx:eax = 0:0xFFFFFFFF divided by ecx = 2
    let mut state = fresh_state();
    state.rdx = 0;
    state.rcx = 2;
    // mov eax, 0xFFFFFFFF; div ecx
    let outcome = run(&mut state, &[0xB8, 0xFF, 0xFF, 0xFF, 0xFF, 0xF7, 0xF1], 2);
    assert!(outcome.is_none());
    assert_eq!(state.rax as u32, 0x7FFF_FFFF);
    assert_eq!(state.rdx as u32, 1);
}

#[test]
fn div_quotient_overflow_faults() {
    // edx:eax = 1:0 divided by ecx = 1: the quotient 2^32 does not
    // fit 32 bits
    let mut state = fresh_state();
    state.rax = 0;
    state.rdx = 1;
    state.rcx = 1;
    let outcome = run(&mut state, &[0xF7, 0xF1], 1);
    assert_eq!(outcome, Some(RunOutcome::Fault(0, VmError::DivideOverflow)));
}

#[test]
fn rep_stos_fills_buffer() {
    // rep stosb writing AL = 0xAB five times
    let mut state = fresh_state();
    let dest: u64 = 0x7000;
    state.mem_write(dest, &[0u8; 8]);
    state.rax = 0xAB;
    state.rdi = dest as i64;
    state.rcx = 5;
    let outcome = run(&mut state, &[0xF3, 0xAA], 1);
    assert!(outcome.is_none());
    assert_eq!(
        state.mem_read(dest, 8).unwrap(),
        vec![0xAB, 0xAB, 0xAB, 0xAB, 0xAB, 0, 0, 0]
    );
    assert_eq!(state.rcx, 0);
    assert_eq!(state.rdi as u64, dest + 5);
}

#[test]
fn stos_single_dword() {
    // stosd (AB without a repeat prefix) stores one 32-bit element
    let mut state = fresh_state();
    let dest: u64 = 0x7000;
    state.mem_write(dest, &[0u8; 8]);
    state.rax = 0x0102_0304;
    state.rdi = dest as i64;
    let outcome = run(&mut state, &[0xAB], 1);
    assert!(outcome.is_none());
    assert_eq!(
        state.mem_read(dest, 8).unwrap(),
        vec![0x04, 0x03, 0x02, 0x01, 0, 0, 0, 0]
    );
    assert_eq!(state.rdi as u64, dest + 4);
}

#[test]
fn mul_flags_follow_truncated_product() {
    // eax = 2^31 times ebx = 2: the 32-bit low half is zero, so the
    // Zero flag is set even though the full product is not zero
    let mut state = fresh_state();
    state.rbx = 2;
    // mov eax, 0x80000000; mul ebx
    let outcome = run(&mut state, &[0xB8, 0, 0, 0, 0x80, 0xF7, 0xE3], 2);
    assert!(outcome.is_none());
    assert_eq!(state.rax, 0);
    assert_eq!(state.rdx, 1);
    assert!(state.get_flag(Flags::Zero));
}

#[test]
fn movsx_from_memory_sign_extends() {
    // mov rbx, 0x5000; movsx rax, byte [rbx]; movsx rcx, word [rbx]
    let mut state = fresh_state();
    state.mem_write(0x5000, &[0x80, 0x80]);
    state.rbx = 0x5000;
    let code = [0x48, 0x0F, 0xBE, 0x03, 0x48, 0x0F, 0xBF, 0x0B];
    let outcome = run(&mut state, &code, 2);
    assert!(outcome.is_none());
    assert_eq!(state.rax, -128);
    assert_eq!(state.rcx, -32640);
}

#[test]
fn byte_memory_operands_sign_extend() {
    // cmp byte [rbx], 0xFF with the byte 0xFF: both sides read as -1,
    // so the comparison is equal
    let mut state = fresh_state();
    state.mem_write(0x5000, &[0xFF]);
    state.rbx = 0x5000;
    // cmp byte [rbx], 0xFF  (80 /7 ib)
    let outcome = run(&mut state, &[0x80, 0x3B, 0xFF], 1);
    assert!(outcome.is_none());
    assert!(state.get_flag(Flags::Zero));
}

#[test]
fn cpuid_leaf1_features() {
    let mut state = fresh_state();
    state.rax = 1;
    let outcome = run(&mut state, &[0x0F, 0xA2], 1);
    assert!(outcome.is_none());
    assert_eq!(state.rdx as u32, 0x0700_8369);
    // the CMOV feature bit is set
    assert_ne!(state.rdx & (1 << 15), 0);
    assert_eq!(state.rcx, 0);
}

#[test]
fn pop_matches_operand_width() {
    // two 16-bit pops (66 8F /0): RSP moves by two each time, matching
    // the operand width
    let mut state = fresh_state();
    x86emu::interpreter::stack_push(&mut state, 0x1111_2222_3333_4444).unwrap();
    let rsp_before = state.rsp;
    let outcome = run(&mut state, &[0x66, 0x8F, 0xC0, 0x66, 0x8F, 0xC3], 2);
    assert!(outcome.is_none());
    assert_eq!(state.rsp, rsp_before + 4);
    assert_eq!(state.rax as u16, 0x4444);
    assert_eq!(state.rbx as u16, 0x3333);
}

#[test]
fn decode_fault_preserves_state() {
    // a lone unknown byte: the fault leaves every register, including
    // the cursor, as it was
    let mut state = fresh_state();
    state.rax = 77;
    let outcome = run(&mut state, &[0xF4], 3);
    assert_eq!(outcome, Some(RunOutcome::Fault(0, VmError::UnknownOpcode(0xF4))));
    assert_eq!(state.rip, 0);
    assert_eq!(state.rax, 77);
}
