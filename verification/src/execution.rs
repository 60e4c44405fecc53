use vstd::prelude::*;
use std::collections::HashMap;

use crate::decoder::{decode, spec_decode};
use crate::dispatch::{dispatch, dispatch_tr, Flow};
use crate::instruction::{Opcode, Operands};
use crate::interpreter::{stack_pop_sp, wf_instruction};
use crate::machine_state::{MachineState, StateView, wf_state};
use crate::VmError;

verus! {

broadcast use vstd::std_specs::hash::group_hash_axioms;

/// A record the execution loop caches for one instruction address:
/// the decoded operation, its operands, and how many bytes the
/// instruction occupies.
pub type CachedInstruction = (Opcode, Operands, u64);

/// The instruction cache: decoded records by guest instruction
/// address. An entry, once inserted, is never changed — the loop
/// assumes guest code does not modify itself.
pub struct InstructionCache {
    map: HashMap<u64, CachedInstruction>,
}

/// Every cached record satisfies the decoder's shape guarantee.
pub open spec fn wf_cache(c: Map<u64, CachedInstruction>) -> bool {
    forall|a: u64| c.contains_key(a) ==> wf_instruction(
        (#[trigger] c[a]).0,
        c[a].1,
    )
}

impl View for InstructionCache {
    type V = Map<u64, CachedInstruction>;

    closed spec fn view(&self) -> Map<u64, CachedInstruction> {
        self.map@
    }
}

impl InstructionCache {
    /// An empty cache.
    pub fn new() -> (r: InstructionCache)
        ensures
            r@ == Map::<u64, CachedInstruction>::empty(),
            wf_cache(r@),
    {
        InstructionCache { map: HashMap::new() }
    }

    /// The record cached for an instruction address, if any.
    pub fn get(&self, instruction_start: u64) -> (r: Option<CachedInstruction>)
        ensures
            match r {
                Some(e) => self@.contains_key(instruction_start)
                    && e == self@[instruction_start],
                None => !self@.contains_key(instruction_start),
            },
    {
        match self.map.get(&instruction_start) {
            Some(e) => Some(*e),
            None => None,
        }
    }

    /// Cache a record for an instruction address.
    pub fn insert(&mut self, instruction_start: u64, entry: CachedInstruction)
        ensures
            final(self)@ == old(self)@.insert(instruction_start, entry),
    {
        let _ = self.map.insert(instruction_start, entry);
    }
}

/// The state after the cursor was advanced past a cached instruction.
pub open spec fn advanced_sp(s: StateView, length: u64) -> StateView {
    StateView { rip: ((s.rip as u64).wrapping_add(length)) as i64, ..s }
}

/// What one step of the execution loop does, as a function of the
/// state and the cache: the dispatch outcome, the state it leaves,
/// and the cache it leaves. A cached record drives the step directly;
/// otherwise the instruction is decoded and the record cached with
/// the byte length the cursor moved over.
pub open spec fn step_tr(s: StateView, c: Map<u64, CachedInstruction>) -> (
    Result<Flow, VmError>,
    StateView,
    Map<u64, CachedInstruction>,
) {
    let start = s.rip as u64;
    if c.contains_key(start) {
        let entry = c[start];
        let (tr, post) = dispatch_tr(advanced_sp(s, entry.2), entry.0, entry.1);
        (tr, post, c)
    } else {
        match spec_decode(s.mem, s.rip) {
            Err(e) => (Err(e), s, c),
            Ok((opcode, ops, new_rip)) => {
                let length = (new_rip as u64).wrapping_sub(start);
                let c1 = c.insert(start, (opcode, ops, length));
                let (tr, post) = dispatch_tr(StateView { rip: new_rip, ..s }, opcode, ops);
                (tr, post, c1)
            },
        }
    }
}

/// What one step of the execution loop did.
#[derive(Debug, Copy, Clone, PartialEq, Eq, Structural)]
pub enum RunOutcome {
    /// The guest reached an instruction that jumps to itself: no
    /// forward progress is possible. Carries the looping address.
    Halt(u64),
    /// The guest executed `INT n`, the success signal.
    Terminated,
    /// A fatal condition; carries the address of the instruction that
    /// caused it.
    Fault(u64, VmError),
}

/// What running the loop for at most `max_steps` instructions does:
/// the result (the guest's success signal, a self-loop halt, a fault
/// carrying the failing instruction's address, or nothing when the
/// budget runs out first), the machine state the run ends in, and the
/// cache it leaves behind. Effects of every executed instruction
/// persist in the state.
pub open spec fn run_tr(s: StateView, c: Map<u64, CachedInstruction>, max_steps: u64) -> (
    Option<RunOutcome>,
    StateView,
    Map<u64, CachedInstruction>,
)
    decreases max_steps,
{
    if max_steps == 0 {
        (None, s, c)
    } else {
        let start = s.rip as u64;
        let (outcome, post, c1) = step_tr(s, c);
        match outcome {
            Err(e) => (Some(RunOutcome::Fault(start, e)), post, c1),
            Ok(Flow::Terminated) => (Some(RunOutcome::Terminated), post, c1),
            Ok(Flow::Next) => if post.rip as u64 == start {
                (Some(RunOutcome::Halt(start)), post, c1)
            } else {
                run_tr(post, c1, (max_steps - 1) as u64)
            },
        }
    }
}

impl MachineState {
    /// Fetch, decode (or reuse the cached record), and dispatch one
    /// instruction: exactly the `step_tr` transition. On a miss the
    /// freshly decoded record is cached, and its byte length is
    /// exactly the distance the cursor moved; cache entries never
    /// change once written. On a decode fault the cursor is restored,
    /// so the state is exactly what it was.
    pub fn step(&mut self, cache: &mut InstructionCache) -> (r: Result<Flow, VmError>)
        requires
            wf_state(old(self)@),
            wf_cache(old(cache)@),
        ensures
            wf_state(final(self)@),
            wf_cache(final(cache)@),
            forall|a: u64| old(cache)@.contains_key(a) ==> final(cache)@.contains_key(a)
                && #[trigger] final(cache)@[a] == old(cache)@[a],
            ({
                let (tr, post, c1) = step_tr(old(self)@, old(cache)@);
                r == tr && final(self)@ == post && final(cache)@ == c1
            }),
    {
        let instruction_start = self.rip as u64;
        let (opcode, operands, length) = match cache.get(instruction_start) {
            Some(entry) => {
                self.rip = ((self.rip as u64).wrapping_add(entry.2)) as i64;
                entry
            },
            None => {
                let ghost pre = self@;
                let rip_before = self.rip;
                let (opcode, operands) = match decode(&mut self.rip, &self.memory) {
                    Ok(i) => i,
                    Err(e) => {
                        self.rip = rip_before;
                        return Err(e);
                    },
                };
                let length = (self.rip as u64).wrapping_sub(instruction_start);
                let entry = (opcode, operands, length);
                cache.insert(instruction_start, entry);
                proof {
                    crate::execution::lemma_rip_roundtrip(pre.rip, self.rip);
                    assert(self@ == advanced_sp(pre, length));
                }
                entry
            },
        };
        dispatch(self, opcode, &operands)
    }

    /// Run the fetch–decode–dispatch loop for at most `max_steps`
    /// instructions: exactly the `run_tr` transition — the result (the
    /// guest's success signal, a self-loop halt, a fault, or nothing
    /// when the budget runs out), the machine state the run ends in,
    /// and the cache it leaves.
    pub fn execute(&mut self, cache: &mut InstructionCache, max_steps: u64) -> (r: Option<
        RunOutcome,
    >)
        requires
            wf_state(old(self)@),
            wf_cache(old(cache)@),
        ensures
            wf_state(final(self)@),
            wf_cache(final(cache)@),
            ({
                let (outcome, post, c1) = run_tr(old(self)@, old(cache)@, max_steps);
                r == outcome && final(self)@ == post && final(cache)@ == c1
            }),
    {
        let mut steps: u64 = 0;
        loop
            invariant
                wf_state(self@),
                wf_cache(cache@),
                steps <= max_steps,
                run_tr(old(self)@, old(cache)@, max_steps) == run_tr(
                    self@,
                    cache@,
                    (max_steps - steps) as u64,
                ),
            ensures
                wf_state(self@),
                wf_cache(cache@),
                run_tr(old(self)@, old(cache)@, max_steps) == (
                    None::<RunOutcome>,
                    self@,
                    cache@,
                ),
            decreases max_steps - steps,
        {
            if steps >= max_steps {
                proof {
                    assert(run_tr(self@, cache@, 0) == (None::<RunOutcome>, self@, cache@));
                }
                break;
            }
            let ghost pre = self@;
            let ghost pre_cache = cache@;
            let ghost pre_fuel = (max_steps - steps) as u64;
            let instruction_start = self.rip as u64;
            match self.step(cache) {
                Ok(Flow::Next) => {},
                Ok(Flow::Terminated) => {
                    proof {
                        assert(run_tr(pre, pre_cache, pre_fuel) == (
                            Some(RunOutcome::Terminated),
                            self@,
                            cache@,
                        ));
                    }
                    return Some(RunOutcome::Terminated);
                },
                Err(e) => {
                    proof {
                        assert(run_tr(pre, pre_cache, pre_fuel) == (
                            Some(RunOutcome::Fault(instruction_start, e)),
                            self@,
                            cache@,
                        ));
                    }
                    return Some(RunOutcome::Fault(instruction_start, e));
                },
            }
            if self.rip as u64 == instruction_start {
                proof {
                    assert(run_tr(pre, pre_cache, pre_fuel) == (
                        Some(RunOutcome::Halt(instruction_start)),
                        self@,
                        cache@,
                    ));
                }
                return Some(RunOutcome::Halt(instruction_start));
            }
            steps = steps + 1;
            proof {
                assert(run_tr(pre, pre_cache, pre_fuel) == run_tr(
                    self@,
                    cache@,
                    (max_steps - steps) as u64,
                ));
            }
        }
        None
    }

    /// What a host trap does when the loop lands on a registered
    /// address: the callback's return value goes to RAX and one stack
    /// frame is unwound, as if the guest had executed a `ret`.
    pub fn trap_return(&mut self, value: u64) -> (r: Result<(), VmError>)
        requires
            wf_state(old(self)@),
        ensures
            wf_state(final(self)@),
            ({
                let s1 = StateView { rax: value as i64, ..old(self)@ };
                match stack_pop_sp(s1) {
                    (Err(e), s2) => r == Err::<(), VmError>(e) && final(self)@ == s2,
                    (Ok(v), s2) => r == Ok::<(), VmError>(()) && final(self)@ == (StateView {
                        rip: v,
                        ..s2
                    }),
                }
            }),
    {
        self.rax = value as i64;
        let cpu = crate::interpreter::EmulationCPU;
        cpu.ret(self)
    }
}

/// Casting the cursor to an address and back is the identity.
pub proof fn lemma_rip_roundtrip(start: i64, after: i64)
    ensures
        ((start as u64).wrapping_add((after as u64).wrapping_sub(start as u64))) as i64
            == after,
{
    assert(((start as u64).wrapping_add((after as u64).wrapping_sub(start as u64))) as i64
        == after) by (bit_vector);
}

} // verus!
