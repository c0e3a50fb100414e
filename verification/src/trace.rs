//! Runs of the supervisor: what it answers to a whole sequence of events,
//! and what holds of every run.

use crate::process::{critical_flags, fixed_table, Failure};
use crate::supervisor::{next, phase_fits, valid_plan, Action, Event, Phase, EXIT_SUCCESS};
use vstd::prelude::*;

verus! {

/// The phase in which the supervisor stands after `events`.
pub open spec fn phase_after(critical: Seq<bool>, phase: Phase, events: Seq<Event>) -> Phase
    decreases events.len(),
{
    if events.len() == 0 {
        phase
    } else {
        phase_after(critical, next(critical, phase, events[0]).phase, events.drop_first())
    }
}

/// What the supervisor asks for, in order, while it takes in `events`.
pub open spec fn actions_of(critical: Seq<bool>, phase: Phase, events: Seq<Event>) -> Seq<Action>
    decreases events.len(),
{
    if events.len() == 0 {
        Seq::empty()
    } else {
        let step = next(critical, phase, events[0]);
        let rest = actions_of(critical, step.phase, events.drop_first());
        match step.action {
            Some(action) => seq![action] + rest,
            None => rest,
        }
    }
}

/// The least table index that can still be spawned from `phase`; the length
/// of the table where nothing can.
pub open spec fn launch_floor(critical: Seq<bool>, phase: Phase) -> int {
    match phase {
        Phase::Idle => 0,
        Phase::Launching { index } => index + 1,
        Phase::AwaitingCritical { index } => critical.len() as int,
        Phase::Terminating => critical.len() as int,
    }
}

/// A run over `first + second` is the run over `first` followed by the run
/// over `second` from where the first one ended.
pub proof fn lemma_run_splits(
    critical: Seq<bool>,
    phase: Phase,
    first: Seq<Event>,
    second: Seq<Event>,
)
    ensures
        phase_after(critical, phase, first + second) == phase_after(
            critical,
            phase_after(critical, phase, first),
            second,
        ),
        actions_of(critical, phase, first + second) == actions_of(critical, phase, first)
            + actions_of(critical, phase_after(critical, phase, first), second),
    decreases first.len(),
{
    if first.len() == 0 {
        assert(first + second =~= second);
        assert(actions_of(critical, phase, first) + actions_of(critical, phase, second)
            =~= actions_of(critical, phase, second));
    } else {
        let step = next(critical, phase, first[0]);
        assert((first + second)[0] == first[0]);
        assert((first + second).drop_first() =~= first.drop_first() + second);
        lemma_run_splits(critical, step.phase, first.drop_first(), second);
        let head = actions_of(critical, step.phase, first.drop_first());
        let tail = actions_of(
            critical,
            phase_after(critical, step.phase, first.drop_first()),
            second,
        );
        match step.action {
            Some(action) => {
                assert(seq![action] + (head + tail) =~= (seq![action] + head) + tail);
            },
            None => {},
        }
    }
}

/// A run over one event is one transition.
pub proof fn lemma_run_of_one_event(critical: Seq<bool>, phase: Phase, event: Event)
    ensures
        phase_after(critical, phase, seq![event]) == next(critical, phase, event).phase,
        actions_of(critical, phase, seq![event]) == match next(critical, phase, event).action {
            Some(action) => seq![action],
            None => Seq::empty(),
        },
{
    let events = seq![event];
    let step = next(critical, phase, event);
    assert(events[0] == event);
    assert(events.drop_first() =~= Seq::<Event>::empty());
    assert(phase_after(critical, step.phase, Seq::<Event>::empty()) == step.phase);
    assert(actions_of(critical, step.phase, Seq::<Event>::empty()) =~= Seq::<Action>::empty());
    match step.action {
        Some(action) => {
            assert(seq![action] + Seq::<Action>::empty() =~= seq![action]);
        },
        None => {},
    }
}

/// Once the supervisor is terminating, nothing that is reported to it moves
/// it or makes it ask for anything.
pub proof fn lemma_terminating_is_final(critical: Seq<bool>, events: Seq<Event>)
    ensures
        phase_after(critical, Phase::Terminating, events) == Phase::Terminating,
        actions_of(critical, Phase::Terminating, events) == Seq::<Action>::empty(),
    decreases events.len(),
{
    if events.len() > 0 {
        lemma_terminating_is_final(critical, events.drop_first());
    }
}

/// A spawn that fails ends the run at once: the supervisor aborts over the
/// process that failed and, whatever follows, asks for nothing more. No
/// process after it in the table is launched or waited for.
pub proof fn lemma_failed_spawn_ends_the_run(critical: Seq<bool>, index: usize, later: Seq<Event>)
    ensures
        phase_after(critical, Phase::Launching { index }, seq![Event::SpawnFailed] + later)
            == Phase::Terminating,
        actions_of(critical, Phase::Launching { index }, seq![Event::SpawnFailed] + later)
            == seq![Action::Abort { index, failure: Failure::Spawn }],
{
    let events = seq![Event::SpawnFailed] + later;
    assert(events[0] == Event::SpawnFailed);
    assert(events.drop_first() =~= later);
    lemma_terminating_is_final(critical, later);
    assert(seq![Action::Abort { index, failure: Failure::Spawn }] + Seq::<Action>::empty()
        =~= seq![Action::Abort { index, failure: Failure::Spawn }]);
}

/// When the critical process exits, the supervisor ends with `EXIT_SUCCESS`,
/// the same for every exit status, and asks for nothing after that.
pub proof fn lemma_critical_exit_ends_in_success(
    critical: Seq<bool>,
    index: usize,
    status: Option<i32>,
    later: Seq<Event>,
)
    ensures
        phase_after(
            critical,
            Phase::AwaitingCritical { index },
            seq![Event::CriticalExited { status }] + later,
        ) == Phase::Terminating,
        actions_of(
            critical,
            Phase::AwaitingCritical { index },
            seq![Event::CriticalExited { status }] + later,
        ) == seq![Action::Exit { code: EXIT_SUCCESS }],
        EXIT_SUCCESS == 0,
{
    let events = seq![Event::CriticalExited { status }] + later;
    assert(events[0] == Event::CriticalExited { status });
    assert(events.drop_first() =~= later);
    lemma_terminating_is_final(critical, later);
    assert(seq![Action::Exit { code: EXIT_SUCCESS }] + Seq::<Action>::empty()
        =~= seq![Action::Exit { code: EXIT_SUCCESS }]);
}

/// The supervisor keeps its phase within the table, and never lowers the
/// floor of what can still be spawned.
pub proof fn lemma_next_keeps_phase_fit(critical: Seq<bool>, phase: Phase, event: Event)
    requires
        valid_plan(critical),
        phase_fits(critical, phase),
    ensures
        phase_fits(critical, next(critical, phase, event).phase),
        launch_floor(critical, phase) <= launch_floor(
            critical,
            next(critical, phase, event).phase,
        ),
        next(critical, phase, event).action matches Some(Action::Spawn { index }) ==> launch_floor(
            critical,
            phase,
        ) <= index < critical.len() && launch_floor(critical, next(critical, phase, event).phase)
            == index + 1,
{
    if let Phase::Launching { index } = phase {
        assert(critical[index as int] == (index == critical.len() - 1));
    }
}

/// What holds of every run from the start, whatever is reported: the phase
/// stays within the table; every process that was launched lies below the
/// floor of the phase reached; and the launches go up the table, so that no
/// process is launched twice.
pub proof fn lemma_launches_follow_the_table(critical: Seq<bool>, events: Seq<Event>)
    requires
        valid_plan(critical),
    ensures
        phase_fits(critical, phase_after(critical, Phase::Idle, events)),
        forall|k: int|
            0 <= k < actions_of(critical, Phase::Idle, events).len() ==> (#[trigger] actions_of(
                critical,
                Phase::Idle,
                events,
            )[k] matches Action::Spawn { index } ==> index < launch_floor(
                critical,
                phase_after(critical, Phase::Idle, events),
            )),
        forall|i: int, j: int|
            0 <= i < j < actions_of(critical, Phase::Idle, events).len() ==> (#[trigger] actions_of(
                critical,
                Phase::Idle,
                events,
            )[i] matches Action::Spawn { index: earlier } ==> (#[trigger] actions_of(
                critical,
                Phase::Idle,
                events,
            )[j] matches Action::Spawn { index: later } ==> earlier < later)),
    decreases events.len(),
{
    let all = actions_of(critical, Phase::Idle, events);
    if events.len() > 0 {
        let front = events.drop_last();
        let last = events.last();
        assert(events =~= front + seq![last]);
        lemma_run_splits(critical, Phase::Idle, front, seq![last]);
        lemma_launches_follow_the_table(critical, front);
        let middle = phase_after(critical, Phase::Idle, front);
        let head = actions_of(critical, Phase::Idle, front);
        let tail = actions_of(critical, middle, seq![last]);
        let reached = next(critical, middle, last).phase;
        lemma_run_of_one_event(critical, middle, last);
        lemma_next_keeps_phase_fit(critical, middle, last);
        assert(all =~= head + tail);
        assert forall|k: int| 0 <= k < all.len() implies (#[trigger] all[k] matches Action::Spawn {
            index,
        } ==> index < launch_floor(critical, reached)) by {
            if k < head.len() {
                assert(all[k] == head[k]);
            }
        }
        assert forall|i: int, j: int| 0 <= i < j < all.len() implies (#[trigger] all[i] matches Action::Spawn {
            index: earlier,
        } ==> (#[trigger] all[j] matches Action::Spawn { index: later } ==> earlier < later)) by {
            assert(all[i] == head[i]);
            if j < head.len() {
                assert(all[j] == head[j]);
            }
        }
    } else {
        assert(all.len() == 0);
    }
}

/// If the spawn of a process other than the critical one fails, at whatever
/// point of a run from the start, the supervisor aborts over it and the
/// critical process is never launched: not before the failure, not after.
pub proof fn lemma_failed_spawn_precedes_critical_launch(
    critical: Seq<bool>,
    before: Seq<Event>,
    index: usize,
    later: Seq<Event>,
)
    requires
        valid_plan(critical),
        phase_after(critical, Phase::Idle, before) == (Phase::Launching { index }),
        !critical[index as int],
    ensures
        phase_after(critical, Phase::Idle, before + (seq![Event::SpawnFailed] + later))
            == Phase::Terminating,
        actions_of(critical, Phase::Idle, before + (seq![Event::SpawnFailed] + later))
            == actions_of(critical, Phase::Idle, before).push(
            Action::Abort { index, failure: Failure::Spawn },
        ),
        forall|k: int|
            0 <= k < actions_of(
                critical,
                Phase::Idle,
                before + (seq![Event::SpawnFailed] + later),
            ).len() ==> (#[trigger] actions_of(
                critical,
                Phase::Idle,
                before + (seq![Event::SpawnFailed] + later),
            )[k] matches Action::Spawn { index: launched } ==> launched < critical.len()
                && !critical[launched as int]),
{
    let failing = seq![Event::SpawnFailed] + later;
    let all = actions_of(critical, Phase::Idle, before + failing);
    let head = actions_of(critical, Phase::Idle, before);
    let abort = Action::Abort { index, failure: Failure::Spawn };
    lemma_run_splits(critical, Phase::Idle, before, failing);
    lemma_failed_spawn_ends_the_run(critical, index, later);
    assert(all =~= head.push(abort));
    // Up to the failure the run has only launched what lies at or below
    // `index`, and the critical process lies above it.
    lemma_launches_follow_the_table(critical, before);
    assert forall|k: int| 0 <= k < all.len() implies (#[trigger] all[k] matches Action::Spawn {
        index: launched,
    } ==> launched < critical.len() && !critical[launched as int]) by {
        if k < head.len() {
            assert(all[k] == head[k]);
        }
    }
}

/// The run of the enclave's own table when both processes start: the
/// token-exposure server is spawned, then the provisioning server, which
/// alone is waited for; when it exits the supervisor ends with
/// `EXIT_SUCCESS`, whatever the status.
pub proof fn lemma_run_of_the_fixed_table(status: Option<i32>)
    ensures
        valid_plan(critical_flags(fixed_table())),
        actions_of(
            critical_flags(fixed_table()),
            Phase::Idle,
            seq![Event::Start, Event::Spawned, Event::Spawned, Event::CriticalExited { status }],
        ) == seq![
            Action::Spawn { index: 0 },
            Action::Spawn { index: 1 },
            Action::Wait { index: 1 },
            Action::Exit { code: 0 },
        ],
        phase_after(
            critical_flags(fixed_table()),
            Phase::Idle,
            seq![Event::Start, Event::Spawned, Event::Spawned, Event::CriticalExited { status }],
        ) == Phase::Terminating,
{
    let critical = critical_flags(fixed_table());
    assert(critical =~= seq![false, true]);
    let whole = seq![Event::Start, Event::Spawned, Event::Spawned, Event::CriticalExited { status }];
    let spawned_first = seq![Event::Spawned, Event::Spawned, Event::CriticalExited { status }];
    let spawned_last = seq![Event::Spawned, Event::CriticalExited { status }];
    let exited = seq![Event::CriticalExited { status }];
    assert(whole.drop_first() =~= spawned_first);
    assert(spawned_first.drop_first() =~= spawned_last);
    assert(spawned_last.drop_first() =~= exited);
    assert(exited.drop_first() =~= Seq::<Event>::empty());
    let first = Phase::Launching { index: 0 };
    let second = Phase::Launching { index: 1 };
    let waiting = Phase::AwaitingCritical { index: 1 };
    assert(actions_of(critical, Phase::Terminating, Seq::<Event>::empty()) =~= Seq::empty());
    assert(actions_of(critical, waiting, exited) =~= seq![Action::Exit { code: 0 }]);
    assert(actions_of(critical, second, spawned_last) =~= seq![
        Action::Wait { index: 1 },
        Action::Exit { code: 0 },
    ]);
    assert(actions_of(critical, first, spawned_first) =~= seq![
        Action::Spawn { index: 1 },
        Action::Wait { index: 1 },
        Action::Exit { code: 0 },
    ]);
    assert(actions_of(critical, Phase::Idle, whole) =~= seq![
        Action::Spawn { index: 0 },
        Action::Spawn { index: 1 },
        Action::Wait { index: 1 },
        Action::Exit { code: 0 },
    ]);
    assert(phase_after(critical, Phase::Terminating, Seq::<Event>::empty()) == Phase::Terminating);
    assert(phase_after(critical, waiting, exited) == Phase::Terminating);
    assert(phase_after(critical, second, spawned_last) == Phase::Terminating);
    assert(phase_after(critical, first, spawned_first) == Phase::Terminating);
}

} // verus!
