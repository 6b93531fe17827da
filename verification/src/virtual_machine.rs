//! The cooperative scheduler.
//!
//! A machine owns the currently running process, an unordered collection of
//! waiting processes, a monotonically increasing spawn counter (purely
//! diagnostic), and the memory arena that all processes of the machine
//! share.  Exactly one process executes at any instant; switches happen
//! only when the current process terminates, and `spawn` hands control to
//! the new child at once.
//!
//! The scheduler keeps the baseline invariant that at most one process in
//! the collection is `Waiting` when a successor must be picked; a second
//! simultaneously waiting process is reported as a
//! `SchedulerInvariantViolated` fault rather than resolved by a queue.

use vstd::prelude::*;

use crate::fault::Fault;
use crate::instrs::Instr;
use crate::process::ProcView;
use crate::process::Process;
use crate::state::State;
use crate::vm::evaluate_spec;
use crate::vm::step_spec;
use crate::vm::StepEvent;
use vstd::wrapping::usize_specs;

verus! {

/// The waiting collection with every `Terminated` process removed, in
/// order.
pub open spec fn purge(s: Seq<Process>) -> Seq<Process>
    decreases s.len(),
{
    if s.len() == 0 {
        Seq::empty()
    } else if s.first().state == State::Terminated {
        purge(s.skip(1))
    } else {
        seq![s.first()] + purge(s.skip(1))
    }
}

/// The view of a process freshly spawned at `target` over `program`.
pub open spec fn spawned_view(program: Seq<u8>, target: u64) -> ProcView {
    ProcView {
        state: State::Waiting,
        program_counter: target,
        program: program,
        stack: Seq::<u8>::empty(),
        function_stack: Seq::<u64>::empty(),
        regs: Seq::new(32, |i: int| 0u64),
    }
}

/// The abstraction of a whole machine: the current process, the parked
/// process views, and the shared arena.  The diagnostic spawn counter is
/// not part of it.
#[verifier::ext_equal]
pub ghost struct MachineView {
    pub current: ProcView,
    pub parked: Seq<ProcView>,
    pub memory: Seq<u8>,
}

/// [`purge`] over process views: the parked views with every `Terminated`
/// one removed, in order.
pub open spec fn purge_views(s: Seq<ProcView>) -> Seq<ProcView>
    decreases s.len(),
{
    if s.len() == 0 {
        Seq::empty()
    } else if s.first().state == State::Terminated {
        purge_views(s.skip(1))
    } else {
        seq![s.first()] + purge_views(s.skip(1))
    }
}

/// Purging commutes with abstraction to views.
proof fn lemma_purge_views(s: Seq<Process>)
    ensures
        purge(s).map_values(|p: Process| p@) == purge_views(s.map_values(|p: Process| p@)),
    decreases s.len(),
{
    let f = |p: Process| p@;
    if s.len() == 0 {
        assert(purge(s).map_values(f) =~= purge_views(s.map_values(f)));
    } else {
        lemma_purge_views(s.skip(1));
        assert(s.map_values(f).skip(1) =~= s.skip(1).map_values(f));
        if s.first().state == State::Terminated {
            assert(purge(s).map_values(f) =~= purge_views(s.map_values(f)));
        } else {
            assert((seq![s.first()] + purge(s.skip(1))).map_values(f) =~= seq![s.first()@]
                + purge(s.skip(1)).map_values(f));
            assert(purge(s).map_values(f) =~= purge_views(s.map_values(f)));
        }
    }
}

/// One step of the machine.  A non-terminated current process is marked
/// `Running` and dispatched one instruction; a `spawn` event parks it as
/// `Waiting` and makes the fresh child current; a deferred floating-point
/// instruction, which this verified scheduler cannot execute, is the
/// `InvalidOpcode` fault.  For a terminated current process a successor is
/// picked exactly as [`VirtualMachine::switch`] specifies.
pub open spec fn machine_step(m: MachineView) -> Result<MachineView, Fault> {
    if m.current.state != State::Terminated {
        match step_spec(ProcView { state: State::Running, ..m.current }, m.memory) {
            Ok(o) => match o.2 {
                StepEvent::Ran => Ok(
                    MachineView { current: o.0, parked: m.parked, memory: o.1 },
                ),
                StepEvent::Spawn(t) => Ok(
                    MachineView {
                        current: spawned_view(o.0.program, t),
                        parked: m.parked.push(ProcView { state: State::Waiting, ..o.0 }),
                        memory: o.1,
                    },
                ),
                StepEvent::Float(_) => Err(Fault::InvalidOpcode),
            },
            Err(f) => Err(f),
        }
    } else {
        let kept = purge_views(m.parked);
        if kept.len() == 0 {
            Ok(MachineView { current: m.current, parked: Seq::empty(), memory: m.memory })
        } else if kept.len() == 1 && kept[0].state == State::Waiting {
            Ok(
                MachineView {
                    current: ProcView { state: State::Running, ..kept[0] },
                    parked: seq![m.current],
                    memory: m.memory,
                },
            )
        } else {
            Err(Fault::SchedulerInvariantViolated)
        }
    }
}

/// The machine after up to `fuel` steps: the final configuration and
/// whether it finished — the current process `Terminated` with nobody
/// waiting — or the first fault along the way.
#[verifier::opaque]
pub open spec fn machine_trace(m: MachineView, fuel: nat) -> Result<(MachineView, bool), Fault>
    decreases fuel,
{
    if m.current.state == State::Terminated && m.parked.len() == 0 {
        Ok((m, true))
    } else if fuel == 0 {
        Ok((m, false))
    } else {
        match machine_step(m) {
            Ok(m2) => machine_trace(m2, (fuel - 1) as nat),
            Err(f) => Err(f),
        }
    }
}

/// One machine: the current process, the parked processes, the spawn
/// counter, and the shared memory arena.
#[derive(Debug)]
pub struct VirtualMachine {
    /// Spawn counter; ids are diagnostic only.
    pub id: usize,
    /// The process that executes next.
    pub process: Process,
    /// Parked processes, awaiting a switch or disposal.
    pub processes: Vec<Process>,
    /// The bounds-checked memory arena all processes of this machine
    /// share.  Any process can read or write any address in it; the arena
    /// is deliberately global to the machine.
    pub memory: Vec<u8>,
}

impl View for VirtualMachine {
    type V = MachineView;

    open spec fn view(&self) -> MachineView {
        MachineView {
            current: self.process@,
            parked: self.processes@.map_values(|p: Process| p@),
            memory: self.memory@,
        }
    }
}

impl VirtualMachine {
    /// A machine over `program`, with an empty arena: one `New` process at
    /// offset zero and nobody waiting.
    pub fn new(program: &[u8]) -> (r: VirtualMachine)
        ensures
            r.id == 0,
            r.process@.state == State::New,
            r.process@.program_counter == 0,
            r.process@.program == program@,
            r.process@.stack == Seq::<u8>::empty(),
            r.process@.function_stack == Seq::<u64>::empty(),
            r.processes@ == Seq::<Process>::empty(),
            r.memory@ == Seq::<u8>::empty(),
    {
        VirtualMachine {
            id: 0,
            process: Process::new(program),
            processes: Vec::new(),
            memory: Vec::new(),
        }
    }

    /// A machine over `program` with a caller-supplied memory arena, for
    /// programs that use the pointer addressing modes or `load`/`save`.
    pub fn with_memory(program: &[u8], memory: Vec<u8>) -> (r: VirtualMachine)
        ensures
            r.id == 0,
            r.process@.state == State::New,
            r.process@.program_counter == 0,
            r.process@.program == program@,
            r.process@.stack == Seq::<u8>::empty(),
            r.process@.function_stack == Seq::<u64>::empty(),
            r.processes@ == Seq::<Process>::empty(),
            r.memory@ == memory@,
    {
        VirtualMachine { id: 0, process: Process::new(program), processes: Vec::new(), memory }
    }

    /// Advance the diagnostic spawn counter.
    fn next_id(&mut self) -> (r: usize)
        ensures
            final(self).id == usize_specs::wrapping_add(old(self).id, 1),
            r == final(self).id,
            final(self).process == old(self).process,
            final(self).processes == old(self).processes,
            final(self).memory == old(self).memory,
    {
        self.id = self.id.wrapping_add(1);
        self.id
    }

    /// `spawn`: park the current process as `Waiting` and hand control to
    /// a fresh child at `target`; the child shares the program and the
    /// arena but gets empty stacks and zeroed registers.
    pub fn spawn(&mut self, target: u64)
        ensures
            final(self).process@ == spawned_view(old(self).process@.program, target),
            final(self).processes@.len() == old(self).processes@.len() + 1,
            final(self).processes@.subrange(0, old(self).processes@.len() as int) == old(self).processes@,
            final(self).processes@.last()@ == (ProcView {
                state: State::Waiting,
                ..old(self).process@
            }),
            final(self).memory == old(self).memory,
            final(self).id == usize_specs::wrapping_add(old(self).id, 1),
    {
        self.next_id();
        let mut child = self.process.spawn(target);
        self.process.set_state(State::Waiting);
        core::mem::swap(&mut self.process, &mut child);
        self.processes.push(child);
        proof {
            assert(self.processes@.subrange(0, old(self).processes@.len() as int) =~= old(self).processes@);
        }
    }

    /// Pick a successor for a terminated current process.
    ///
    /// Terminated processes are purged from the collection; this is their
    /// single point of disposal.  What remains must be at most one process,
    /// and it must be `Waiting`: that one is promoted to `Running` and
    /// swapped with the outgoing current process, which is parked for the
    /// next purge.  Anything else violates the scheduler invariant and is
    /// a fault.  If nothing remains, the current process stays as it is.
    pub fn switch(&mut self) -> (r: Result<(), Fault>)
        ensures
            purge(old(self).processes@).len() == 0 ==> r == Ok::<(), Fault>(()) && final(self).process == old(self).process && final(self).processes@ == Seq::<Process>::empty(),
            purge(old(self).processes@).len() == 1 && purge(old(self).processes@)[0].state
                == State::Waiting ==> r == Ok::<(), Fault>(()) && final(self).process@ == (ProcView {
                state: State::Running,
                ..purge(old(self).processes@)[0]@
            }) && final(self).processes@ == seq![old(self).process],
            purge(old(self).processes@).len() > 1 || (purge(old(self).processes@).len() == 1
                && purge(old(self).processes@)[0].state != State::Waiting) ==> r == Err::<
                (),
                Fault,
            >(Fault::SchedulerInvariantViolated),
            final(self).memory == old(self).memory,
            final(self).id == old(self).id,
    {
        let ghost orig = self.processes@;
        let mut work: Vec<Process> = Vec::new();
        core::mem::swap(&mut self.processes, &mut work);
        let mut kept: Vec<Process> = Vec::new();
        while work.len() > 0
            invariant
                purge(orig) == kept@ + purge(work@),
            decreases work@.len(),
        {
            let ghost w0 = work@;
            let p = work.remove(0);
            proof {
                assert(work@ =~= w0.skip(1));
            }
            if p.get_state() != State::Terminated {
                kept.push(p);
                proof {
                    assert(kept@ + purge(work@) =~= purge(orig));
                }
            }
        }
        proof {
            assert(purge(work@) =~= Seq::<Process>::empty());
            assert(kept@ =~= purge(orig));
        }
        core::mem::swap(&mut self.processes, &mut kept);
        if self.processes.len() == 0 {
            return Ok(());
        }
        if self.processes.len() == 1 {
            let mut cand = self.processes.remove(0);
            if cand.get_state() == State::Waiting {
                cand.set_state(State::Running);
                core::mem::swap(&mut self.process, &mut cand);
                self.processes.push(cand);
                proof {
                    assert(self.processes@ =~= seq![old(self).process]);
                }
                Ok(())
            } else {
                Err(Fault::SchedulerInvariantViolated)
            }
        } else {
            Err(Fault::SchedulerInvariantViolated)
        }
    }

    /// Apply one already-decoded instruction to the current process
    /// against the shared arena, performing the context switch that a
    /// `spawn` event asks for.
    pub fn evaluate_instr(&mut self, instr: Instr) -> (r: Result<StepEvent, Fault>)
        ensures
            evaluate_spec(old(self).process@, old(self).memory@, instr) matches Ok(o) ==> (match o.2 {
                StepEvent::Spawn(t) => r == Ok::<StepEvent, Fault>(StepEvent::Spawn(t)) && final(self).process@ == spawned_view(o.0.program, t) && final(self).processes@.len() == old(self).processes@.len() + 1 && final(self).processes@.last()@ == (ProcView {
                    state: State::Waiting,
                    ..o.0
                }) && final(self).processes@.subrange(0, old(self).processes@.len() as int) == old(self).processes@ && final(self).memory@ == o.1 && final(self).id == usize_specs::wrapping_add(old(self).id, 1),
                _ => r == Ok::<StepEvent, Fault>(o.2) && final(self).process@ == o.0 && final(self).memory@ == o.1 && final(self).processes@ == old(self).processes@ && final(self).id == old(self).id,
            }),
            evaluate_spec(old(self).process@, old(self).memory@, instr) matches Err(f) ==> r
                == Err::<StepEvent, Fault>(f) && final(self).process@.state == old(self).process@.state
                && final(self).process@.program == old(self).process@.program
                && final(self).process@.regs == old(self).process@.regs
                && final(self).process@.function_stack == old(self).process@.function_stack
                && final(self).processes@ == old(self).processes@
                && final(self).memory@ == old(self).memory@
                && final(self).id == old(self).id,
    {
        match crate::vm::evaluate_instr(&mut self.process, &mut self.memory, instr) {
            Ok(StepEvent::Spawn(t)) => {
                self.spawn(t);
                Ok(StepEvent::Spawn(t))
            },
            Ok(e) => Ok(e),
            Err(f) => Err(f),
        }
    }

    /// One full fetch-decode-execute step of the current process against
    /// the shared arena, performing the context switch that a `spawn`
    /// event asks for.
    pub fn execute_one(&mut self) -> (r: Result<StepEvent, Fault>)
        ensures
            step_spec(old(self).process@, old(self).memory@) matches Ok(o) ==> (match o.2 {
                StepEvent::Spawn(t) => r == Ok::<StepEvent, Fault>(StepEvent::Spawn(t)) && final(self).process@ == spawned_view(o.0.program, t) && final(self).processes@.len() == old(self).processes@.len() + 1 && final(self).processes@.last()@ == (ProcView {
                    state: State::Waiting,
                    ..o.0
                }) && final(self).processes@.subrange(0, old(self).processes@.len() as int) == old(self).processes@ && final(self).memory@ == o.1 && final(self).id == usize_specs::wrapping_add(old(self).id, 1),
                _ => r == Ok::<StepEvent, Fault>(o.2) && final(self).process@ == o.0 && final(self).memory@ == o.1 && final(self).processes@ == old(self).processes@ && final(self).id == old(self).id,
            }),
            step_spec(old(self).process@, old(self).memory@) matches Err(f) ==> r == Err::<
                StepEvent,
                Fault,
            >(f) && final(self).process@.state == old(self).process@.state
                && final(self).process@.program == old(self).process@.program
                && final(self).process@.regs == old(self).process@.regs
                && final(self).process@.function_stack == old(self).process@.function_stack
                && final(self).processes@ == old(self).processes@
                && final(self).memory@ == old(self).memory@
                && final(self).id == old(self).id,
    {
        match crate::vm::execute_one(&mut self.process, &mut self.memory) {
            Ok(StepEvent::Spawn(t)) => {
                self.spawn(t);
                Ok(StepEvent::Spawn(t))
            },
            Ok(e) => Ok(e),
            Err(f) => Err(f),
        }
    }

    /// Drive the machine for up to `max_steps` steps: dispatched
    /// instructions and context switches both count.  A non-terminated
    /// current process is marked `Running` as it is dispatched (a
    /// cooperative `wait` therefore shows as `Waiting` only until its next
    /// dispatch); a terminated one triggers a switch; the run finishes
    /// when the current process is `Terminated` and nobody is waiting.
    ///
    /// The contract is exact: the result and the final machine are those
    /// of [`machine_trace`] — `Ok(true)` with the trace's end
    /// configuration when every process has terminated within the budget,
    /// `Ok(false)` with the configuration after exactly `max_steps` steps
    /// when not, and the first fault of the trace otherwise (including the
    /// `InvalidOpcode` report for a deferred floating-point instruction,
    /// which this verified runner cannot execute itself).  A program that
    /// never halts can thus be probed with a bounded step count.
    pub fn run(&mut self, max_steps: u64) -> (r: Result<bool, Fault>)
        ensures
            machine_trace(old(self)@, max_steps as nat) matches Ok(o) ==> r == Ok::<bool, Fault>(
                o.1,
            ) && final(self)@ == o.0,
            machine_trace(old(self)@, max_steps as nat) matches Err(f) ==> r == Err::<
                bool,
                Fault,
            >(f),
            r == Ok::<bool, Fault>(true) ==> final(self).process@.state == State::Terminated
                && final(self).processes@.len() == 0,
    {
        let mut steps: u64 = 0;
        while steps < max_steps
            invariant
                steps <= max_steps,
                machine_trace(old(self)@, max_steps as nat) == machine_trace(
                    self@,
                    (max_steps - steps) as nat,
                ),
            decreases max_steps - steps,
        {
            let ghost m0 = self@;
            let ghost fuel = (max_steps - steps) as nat;
            if self.process.get_state() == State::Terminated && self.processes.len() == 0 {
                proof {
                    reveal_with_fuel(machine_trace, 1);
                }
                return Ok(true);
            }
            if self.process.get_state() != State::Terminated {
                self.process.set_state(State::Running);
                match self.execute_one() {
                    Ok(StepEvent::Float(_)) => {
                        proof {
                            reveal_with_fuel(machine_trace, 1);
                        }
                        return Err(Fault::InvalidOpcode);
                    },
                    Ok(_) => {
                        proof {
                            reveal_with_fuel(machine_trace, 1);
                            match step_spec(
                                ProcView { state: State::Running, ..m0.current },
                                m0.memory,
                            ) {
                                Ok(o) => match o.2 {
                                    StepEvent::Ran => {
                                        assert(self@ =~= (MachineView {
                                            current: o.0,
                                            parked: m0.parked,
                                            memory: o.1,
                                        }));
                                    },
                                    StepEvent::Spawn(t) => {
                                        assert(self@.parked =~= m0.parked.push(
                                            ProcView { state: State::Waiting, ..o.0 },
                                        ));
                                        assert(self@ =~= (MachineView {
                                            current: spawned_view(o.0.program, t),
                                            parked: m0.parked.push(
                                                ProcView { state: State::Waiting, ..o.0 },
                                            ),
                                            memory: o.1,
                                        }));
                                    },
                                    StepEvent::Float(_) => {},
                                },
                                Err(_) => {},
                            }
                            assert(machine_trace(m0, fuel) == machine_trace(
                                self@,
                                (fuel - 1) as nat,
                            ));
                        }
                    },
                    Err(f) => {
                        proof {
                            reveal_with_fuel(machine_trace, 1);
                        }
                        return Err(f);
                    },
                }
            } else {
                let ghost pre_procs = self.processes@;
                match self.switch() {
                    Ok(()) => {
                        proof {
                            reveal_with_fuel(machine_trace, 1);
                            lemma_purge_views(pre_procs);
                            let kept = purge_views(m0.parked);
                            if kept.len() == 0 {
                                assert(self@ =~= (MachineView {
                                    current: m0.current,
                                    parked: Seq::<ProcView>::empty(),
                                    memory: m0.memory,
                                }));
                            } else if kept.len() == 1 && kept[0].state == State::Waiting {
                                assert(kept[0] == purge(pre_procs)[0]@);
                                assert(self@.parked =~= seq![m0.current]);
                                assert(self@ =~= (MachineView {
                                    current: (ProcView { state: State::Running, ..kept[0] }),
                                    parked: seq![m0.current],
                                    memory: m0.memory,
                                }));
                            }
                            assert(machine_trace(m0, fuel) == machine_trace(
                                self@,
                                (fuel - 1) as nat,
                            ));
                        }
                    },
                    Err(f) => {
                        proof {
                            reveal_with_fuel(machine_trace, 1);
                            lemma_purge_views(pre_procs);
                        }
                        return Err(f);
                    },
                }
            }
            steps = steps + 1;
        }
        proof {
            reveal_with_fuel(machine_trace, 1);
        }
        if self.process.get_state() == State::Terminated && self.processes.len() == 0 {
            Ok(true)
        } else {
            Ok(false)
        }
    }
}

} // verus!
