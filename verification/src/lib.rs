pub mod decoder;
pub mod dispatch;
pub mod execution;
pub mod instruction;
pub mod interpreter;
pub mod laws;
pub mod machine_state;
pub mod memory;

pub use memory::PAGE_SIZE;

use vstd::prelude::*;

use machine_state::{MachineState, StateView, wf_state, alloc_range_sp};
use memory::{mem_range_mapped, mem_write_bytes, zero_page};

verus! {

/// Why execution cannot go on: the fatal conditions of the emulator.
/// Each carries what a host needs to report the fault.
#[derive(Debug, Copy, Clone, PartialEq, Eq, Structural)]
pub enum VmError {
    /// A read or write touched a virtual address whose page has not
    /// been installed; carries the faulting address.
    UnmappedPage(u64),
    /// The decoder met a byte it has no table entry for; carries the
    /// byte.
    UnknownOpcode(u8),
    /// `RDMSR`/`WRMSR` with an ECX value the emulator does not know;
    /// carries the ECX value.
    UnsupportedMsr(u32),
    /// `SYSCALL` reached the interpreter, which defines no syscalls.
    UnsupportedSyscall,
    /// The guest executed `INT3`, the in-guest test-failure signal.
    IntThree,
    /// A division whose quotient does not fit the destination width,
    /// or whose divisor is zero.
    DivideOverflow,
    /// An operation the interpreter deliberately leaves out (`ADC`,
    /// rotates, `IDIV`, one-operand `IMUL`, `UD2`, the packed
    /// floating-point group, unknown `CPUID` leaves).
    UnsupportedInstruction,
}

/// Lowest address of the guest stack pages the default layout maps.
pub const STACK_BASE: u64 = 0x8000_0000_0000;

/// Size of the guest stack the default layout maps.
pub const STACK_SIZE: u64 = 0x0000_0010_0000;

/// Map the default guest stack and point RSP at its top.
pub fn allocate_stack(state: &mut MachineState)
    requires
        wf_state(old(state)@),
    ensures
        wf_state(final(state)@),
        final(state)@.rsp == STACK_BASE as i64,
        mem_range_mapped(final(state)@.mem, (STACK_BASE - 8) as u64, 8),
        final(state)@.rip == old(state)@.rip,
        final(state)@.rflags == old(state)@.rflags,
        final(state)@.rax == old(state)@.rax,
        forall|p: u64|
            ((STACK_BASE - STACK_SIZE) as u64) / PAGE_SIZE <= p < STACK_BASE / PAGE_SIZE
                ==> #[trigger] final(state)@.mem.contains_key(p) && final(state)@.mem[p]
                == zero_page(),
        forall|p: u64|
            !(((STACK_BASE - STACK_SIZE) as u64) / PAGE_SIZE <= p < STACK_BASE / PAGE_SIZE)
                ==> #[trigger] final(state)@.mem.contains_key(p) == old(
                state,
            )@.mem.contains_key(p) && (old(state)@.mem.contains_key(p)
                ==> final(state)@.mem[p] == old(state)@.mem[p]),
{
    state.memory.host_allocate_physical(STACK_BASE - STACK_SIZE, STACK_SIZE as usize);
    state.rsp = STACK_BASE as i64;
    proof {
        assert forall|i: u64| i < 8 implies memory::mem_mapped(
            state@.mem,
            #[trigger] ((STACK_BASE - 8) as u64).wrapping_add(i),
        ) by {
            let a = ((STACK_BASE - 8) as u64).wrapping_add(i);
            assert(a == STACK_BASE - 8 + i);
            assert(((STACK_BASE - STACK_SIZE) as u64) / PAGE_SIZE <= a / PAGE_SIZE < STACK_BASE
                / PAGE_SIZE) by (nonlinear_arith)
                requires a == STACK_BASE - 8 + i, i < 8,
            ;
        }
    }
}

/// Address at which `load` places a raw code image.
pub const LOADER_BASE: u64 = 0;

/// Place a raw code image at the loader base, installing zero-filled
/// pages under it, and point RIP at its first byte.
pub fn load(state: &mut MachineState, function: &[u8])
    requires
        wf_state(old(state)@),
        function@.len() < 0x1_0000_0000,
    ensures
        wf_state(final(state)@),
        final(state)@ == (StateView {
            rip: LOADER_BASE as i64,
            mem: mem_write_bytes(
                alloc_range_sp(old(state)@.mem, LOADER_BASE, function@.len() as u64),
                LOADER_BASE,
                function@,
            ),
            ..old(state)@
        }),
{
    state.mem_write(LOADER_BASE, function);
    state.rip = LOADER_BASE as i64;
}

/// A bump allocator over a fixed guest heap region: hands out
/// consecutive addresses and copies the pushed bytes into guest
/// memory.
pub struct Heap {
    next: u64,
}

/// Address of the guest heap region.
pub const HEAP_BASE: u64 = 0x2_0000_0000;

/// Size of the guest heap region.
pub const HEAP_SIZE: u64 = 0x0_0010_0000;

impl Heap {
    /// The offset the next push will be placed at.
    pub closed spec fn spec_next(&self) -> u64 {
        self.next
    }

    /// Map the heap region zero-filled and start handing addresses
    /// out at its base; the rest of the state is untouched.
    pub fn new(state: &mut MachineState) -> (r: Heap)
        requires
            wf_state(old(state)@),
        ensures
            wf_state(final(state)@),
            r.spec_next() == 0,
            final(state)@ == (StateView { mem: final(state)@.mem, ..old(state)@ }),
            forall|p: u64|
                HEAP_BASE / PAGE_SIZE <= p < ((HEAP_BASE + HEAP_SIZE) as u64) / PAGE_SIZE
                    ==> #[trigger] final(state)@.mem.contains_key(p) && final(state)@.mem[p]
                    == zero_page(),
            forall|p: u64|
                !(HEAP_BASE / PAGE_SIZE <= p < ((HEAP_BASE + HEAP_SIZE) as u64) / PAGE_SIZE)
                    ==> #[trigger] final(state)@.mem.contains_key(p) == old(
                    state,
                )@.mem.contains_key(p) && (old(state)@.mem.contains_key(p)
                    ==> final(state)@.mem[p] == old(state)@.mem[p]),
    {
        state.memory.host_allocate_physical(HEAP_BASE, HEAP_SIZE as usize);
        proof {
            assert(((HEAP_BASE + HEAP_SIZE as u64 + PAGE_SIZE - 1) as u64) / PAGE_SIZE == ((
            HEAP_BASE + HEAP_SIZE) as u64) / PAGE_SIZE);
        }
        Heap { next: 0 }
    }

    /// Copy a byte slice onto the heap and give back its guest
    /// address.
    pub fn push_slice(&mut self, state: &mut MachineState, slice: &[u8]) -> (r: u64)
        requires
            wf_state(old(state)@),
            old(self).spec_next() + slice@.len() <= HEAP_SIZE,
        ensures
            wf_state(final(state)@),
            r == HEAP_BASE + old(self).spec_next(),
            final(self).spec_next() == old(self).spec_next() + slice@.len(),
            final(state)@ == (StateView {
                mem: mem_write_bytes(
                    alloc_range_sp(old(state)@.mem, r, slice@.len() as u64),
                    r,
                    slice@,
                ),
                ..old(state)@
            }),
    {
        let offset = HEAP_BASE + self.next;
        state.mem_write(offset, slice);
        self.next = self.next + slice.len() as u64;
        offset
    }
}

/// Push raw bytes onto the guest stack: the stack pointer moves down
/// by the byte count and the bytes land at the new top. Fails, with
/// nothing changed, when the target is not mapped.
pub fn stack_push_bytes(state: &mut MachineState, bytes: &[u8]) -> (r: Result<(), VmError>)
    requires
        wf_state(old(state)@),
        bytes@.len() < 0x1_0000_0000,
    ensures
        wf_state(final(state)@),
        ({
            let new_rsp = old(state)@.rsp.wrapping_sub(bytes@.len() as i64);
            match r {
                Ok(()) => mem_range_mapped(
                    old(state)@.mem,
                    new_rsp as u64,
                    bytes@.len() as u64,
                ) && final(state)@ == (StateView {
                    rsp: new_rsp,
                    mem: mem_write_bytes(old(state)@.mem, new_rsp as u64, bytes@),
                    ..old(state)@
                }),
                Err(e) => !mem_range_mapped(
                    old(state)@.mem,
                    new_rsp as u64,
                    bytes@.len() as u64,
                ) && final(state)@ == old(state)@ && e == VmError::UnmappedPage(
                    new_rsp as u64,
                ),
            }
        }),
{
    let new_rsp = state.rsp.wrapping_sub(bytes.len() as i64);
    if state.memory.try_write_bytes(new_rsp as u64, bytes) {
        state.rsp = new_rsp;
        Ok(())
    } else {
        Err(VmError::UnmappedPage(new_rsp as u64))
    }
}

} // verus!
