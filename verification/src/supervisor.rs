//! The supervisor of the enclave's service processes, as a state machine:
//! it is told what happened and answers what to do next. Spawning, waiting
//! and exiting are left to the caller.

use crate::process::{critical_flags, table_view, Failure, ManagedProcess, ProcessView};
use vstd::prelude::*;

verus! {

/// The exit code with which the supervisor ends once the critical process
/// has exited.
pub const EXIT_SUCCESS: i32 = 0;

/// Where the supervisor stands.
#[derive(Clone, Copy, Debug, PartialEq, Eq)]
pub enum Phase {
    /// Nothing has been launched.
    Idle,
    /// The process at `index` is being spawned; those before it are running
    /// unobserved.
    Launching { index: usize },
    /// The critical process at `index` runs and the supervisor waits for its
    /// exit.
    AwaitingCritical { index: usize },
    /// The supervisor has ended, by exit or by abort. Nothing follows.
    Terminating,
}

/// What the caller reports to the supervisor.
#[derive(Clone, Copy, Debug, PartialEq, Eq)]
pub enum Event {
    /// The init process has started.
    Start,
    /// The process that was to be spawned runs.
    Spawned,
    /// The process that was to be spawned could not be created.
    SpawnFailed,
    /// The critical process has exited, with this code if it had one.
    CriticalExited { status: Option<i32> },
    /// Waiting for the critical process failed.
    WaitFailed,
}

/// What the supervisor asks of the caller.
#[derive(Clone, Copy, Debug, PartialEq, Eq)]
pub enum Action {
    /// Spawn the process at `index` of the table.
    Spawn { index: usize },
    /// Block until the process at `index` exits.
    Wait { index: usize },
    /// End the init process with exit code `code`.
    Exit { code: i32 },
    /// End the init process abruptly, over the failure of the process at
    /// `index`.
    Abort { index: usize, failure: Failure },
}

/// A table that the supervisor can run: it ends with the critical process
/// and holds no other. (Its length fits the machine's index type, as that of
/// every table in memory does.)
pub open spec fn valid_plan(critical: Seq<bool>) -> bool {
    &&& 1 <= critical.len() <= usize::MAX
    &&& forall|i: int| 0 <= i < critical.len() ==> critical[i] == (i == critical.len() - 1)
}

/// Whether `phase` points into the table, and waits only for a critical
/// process.
pub open spec fn phase_fits(critical: Seq<bool>, phase: Phase) -> bool {
    match phase {
        Phase::Idle => true,
        Phase::Launching { index } => index < critical.len(),
        Phase::AwaitingCritical { index } => index < critical.len() && critical[index as int],
        Phase::Terminating => true,
    }
}

/// One move of the supervisor: the phase that follows, and what the caller
/// is to do, if anything.
pub struct Transition {
    pub phase: Phase,
    pub action: Option<Action>,
}

/// The transition of the supervisor. An event that the phase does not expect
/// changes nothing and asks for nothing.
pub open spec fn next(critical: Seq<bool>, phase: Phase, event: Event) -> Transition {
    match (phase, event) {
        (Phase::Idle, Event::Start) => Transition {
            phase: Phase::Launching { index: 0 },
            action: Some(Action::Spawn { index: 0 }),
        },
        (Phase::Launching { index }, Event::Spawned) => if critical[index as int] {
            Transition {
                phase: Phase::AwaitingCritical { index },
                action: Some(Action::Wait { index }),
            }
        } else {
            Transition {
                phase: Phase::Launching { index: (index + 1) as usize },
                action: Some(Action::Spawn { index: (index + 1) as usize }),
            }
        },
        (Phase::Launching { index }, Event::SpawnFailed) => Transition {
            phase: Phase::Terminating,
            action: Some(Action::Abort { index, failure: Failure::Spawn }),
        },
        (Phase::AwaitingCritical { index }, Event::CriticalExited { status }) => Transition {
            phase: Phase::Terminating,
            action: Some(Action::Exit { code: EXIT_SUCCESS }),
        },
        (Phase::AwaitingCritical { index }, Event::WaitFailed) => Transition {
            phase: Phase::Terminating,
            action: Some(Action::Abort { index, failure: Failure::Wait }),
        },
        _ => Transition { phase, action: None },
    }
}

/// What a `Supervisor` stands for: its table and its phase.
pub struct SupervisorView {
    pub table: Seq<ProcessView>,
    pub phase: Phase,
}

impl SupervisorView {
    /// The criticality flags of the table.
    pub open spec fn critical(self) -> Seq<bool> {
        critical_flags(self.table)
    }

    /// The table can be run and the phase points into it.
    pub open spec fn valid(self) -> bool {
        valid_plan(self.critical()) && phase_fits(self.critical(), self.phase)
    }
}

/// The supervisor of one run of the init process.
#[derive(Debug)]
pub struct Supervisor {
    table: Vec<ManagedProcess>,
    phase: Phase,
}

impl View for Supervisor {
    type V = SupervisorView;

    closed spec fn view(&self) -> SupervisorView {
        SupervisorView { table: table_view(self.table@), phase: self.phase }
    }
}

impl Supervisor {
    #[verifier::type_invariant]
    spec fn well_formed(self) -> bool {
        self@.valid()
    }

    /// A supervisor for `table`, not yet started; none where the table does
    /// not end with its one critical process.
    pub fn new(table: Vec<ManagedProcess>) -> (made: Option<Supervisor>)
        ensures
            made is Some <==> valid_plan(critical_flags(table_view(table@))),
            made is Some ==> made->0@ == (SupervisorView {
                table: table_view(table@),
                phase: Phase::Idle,
            }),
    {
        let ghost flags = critical_flags(table_view(table@));
        let count = table.len();
        if count == 0 {
            return None;
        }
        let mut index: usize = 0;
        while index < count
            invariant
                index <= count,
                count == table.len(),
                flags == critical_flags(table_view(table@)),
                forall|i: int| 0 <= i < index ==> flags[i] == (i == count - 1),
            decreases count - index,
        {
            if table[index].critical != (index == count - 1) {
                assert(flags[index as int] != (index == flags.len() - 1));
                return None;
            }
            index = index + 1;
        }
        Some(Supervisor { table, phase: Phase::Idle })
    }

    /// Where the supervisor stands.
    pub fn phase(&self) -> (phase: Phase)
        ensures
            phase == self@.phase,
    {
        self.phase
    }

    /// The process at `index` of the table, if there is one.
    pub fn process(&self, index: usize) -> (found: Option<&ManagedProcess>)
        ensures
            found is Some <==> index < self@.table.len(),
            found is Some ==> found->0@ == self@.table[index as int],
    {
        if index < self.table.len() {
            Some(&self.table[index])
        } else {
            None
        }
    }

    /// Takes in `event` and answers what the caller is to do.
    ///
    /// The supervisor moves as `next` says. It asks for each process of the
    /// table to be spawned in order, waits for the critical one only, aborts
    /// on the first spawn that fails, and ends with `EXIT_SUCCESS` when the
    /// critical process exits, whatever its status.
    pub fn step(&mut self, event: Event) -> (action: Option<Action>)
        ensures
            final(self)@.table == old(self)@.table,
            old(self)@.valid(),
            final(self)@.valid(),
            final(self)@.phase == next(old(self)@.critical(), old(self)@.phase, event).phase,
            action == next(old(self)@.critical(), old(self)@.phase, event).action,
    {
        proof {
            use_type_invariant(&*self);
        }
        match (self.phase, event) {
            (Phase::Idle, Event::Start) => {
                self.phase = Phase::Launching { index: 0 };
                Some(Action::Spawn { index: 0 })
            },
            (Phase::Launching { index }, Event::Spawned) => {
                assert(self@.critical()[index as int] == self.table[index as int].critical);
                if self.table[index].critical {
                    self.phase = Phase::AwaitingCritical { index };
                    Some(Action::Wait { index })
                } else {
                    self.phase = Phase::Launching { index: index + 1 };
                    Some(Action::Spawn { index: index + 1 })
                }
            },
            (Phase::Launching { index }, Event::SpawnFailed) => {
                self.phase = Phase::Terminating;
                Some(Action::Abort { index, failure: Failure::Spawn })
            },
            (Phase::AwaitingCritical { index }, Event::CriticalExited { status }) => {
                self.phase = Phase::Terminating;
                Some(Action::Exit { code: EXIT_SUCCESS })
            },
            (Phase::AwaitingCritical { index }, Event::WaitFailed) => {
                self.phase = Phase::Terminating;
                Some(Action::Abort { index, failure: Failure::Wait })
            },
            _ => None,
        }
    }
}

} // verus!
