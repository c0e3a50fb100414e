use vtok_init::process::{process_table, Failure, ManagedProcess};
use vtok_init::supervisor::{Action, Event, Phase, Supervisor, EXIT_SUCCESS};

fn process(name: &str, critical: bool) -> ManagedProcess {
    ManagedProcess {
        name: name.to_string(),
        program: name.to_string(),
        args: Vec::new(),
        env: Vec::new(),
        critical,
    }
}

fn table(flags: &[bool]) -> Vec<ManagedProcess> {
    flags.iter().enumerate().map(|(i, c)| process(&format!("p{}", i), *c)).collect()
}

fn enclave() -> Supervisor {
    Supervisor::new(process_table()).unwrap()
}

fn run(supervisor: &mut Supervisor, events: &[Event]) -> Vec<Action> {
    let mut actions = Vec::new();
    for event in events {
        if let Some(action) = supervisor.step(*event) {
            actions.push(action);
        }
    }
    actions
}

#[test]
fn supervisor_starts_idle() {
    assert_eq!(enclave().phase(), Phase::Idle);
}

#[test]
fn start_launches_the_first_process() {
    let mut supervisor = enclave();
    assert_eq!(supervisor.step(Event::Start), Some(Action::Spawn { index: 0 }));
    assert_eq!(supervisor.phase(), Phase::Launching { index: 0 });
}

#[test]
fn both_processes_are_launched_in_order_and_the_critical_one_awaited() {
    let mut supervisor = enclave();
    assert_eq!(supervisor.step(Event::Start), Some(Action::Spawn { index: 0 }));
    assert_eq!(supervisor.step(Event::Spawned), Some(Action::Spawn { index: 1 }));
    assert_eq!(supervisor.phase(), Phase::Launching { index: 1 });
    assert_eq!(supervisor.step(Event::Spawned), Some(Action::Wait { index: 1 }));
    assert_eq!(supervisor.phase(), Phase::AwaitingCritical { index: 1 });
}

#[test]
fn failed_spawn_of_the_first_process_aborts_before_the_critical_launch() {
    let mut supervisor = enclave();
    let actions = run(&mut supervisor, &[Event::Start, Event::SpawnFailed]);
    assert_eq!(
        actions,
        vec![Action::Spawn { index: 0 }, Action::Abort { index: 0, failure: Failure::Spawn }]
    );
    assert_eq!(supervisor.phase(), Phase::Terminating);
    // Nothing that follows brings the critical process up.
    let later = run(
        &mut supervisor,
        &[
            Event::Spawned,
            Event::Start,
            Event::SpawnFailed,
            Event::CriticalExited { status: Some(0) },
            Event::WaitFailed,
        ],
    );
    assert_eq!(later, Vec::new());
    assert_eq!(supervisor.phase(), Phase::Terminating);
}

#[test]
fn failed_spawn_of_the_first_process_reports_the_token_server() {
    let mut supervisor = enclave();
    run(&mut supervisor, &[Event::Start]);
    match supervisor.step(Event::SpawnFailed) {
        Some(Action::Abort { index, failure }) => {
            let message = supervisor.process(index).unwrap().failure_message(failure);
            assert_eq!(message, "p11-kit server failed to start.");
        }
        other => panic!("{:?}", other),
    }
}

#[test]
fn failed_spawn_of_the_critical_process_aborts() {
    let mut supervisor = enclave();
    let actions = run(&mut supervisor, &[Event::Start, Event::Spawned, Event::SpawnFailed]);
    assert_eq!(
        actions,
        vec![
            Action::Spawn { index: 0 },
            Action::Spawn { index: 1 },
            Action::Abort { index: 1, failure: Failure::Spawn },
        ]
    );
    assert_eq!(supervisor.phase(), Phase::Terminating);
    let message = supervisor.process(1).unwrap().failure_message(Failure::Spawn);
    assert_eq!(message, "provisioning server failed to start.");
}

#[test]
fn exit_of_the_critical_process_ends_in_success_whatever_its_status() {
    for status in [Some(0), Some(1), Some(2), Some(-1), Some(127), Some(255), Some(i32::MIN),
        Some(i32::MAX), None] {
        let mut supervisor = enclave();
        let actions = run(
            &mut supervisor,
            &[Event::Start, Event::Spawned, Event::Spawned, Event::CriticalExited { status }],
        );
        assert_eq!(
            actions,
            vec![
                Action::Spawn { index: 0 },
                Action::Spawn { index: 1 },
                Action::Wait { index: 1 },
                Action::Exit { code: 0 },
            ]
        );
        assert_eq!(supervisor.phase(), Phase::Terminating);
    }
}

#[test]
fn success_code_is_zero() {
    assert_eq!(EXIT_SUCCESS, 0);
}

#[test]
fn failed_wait_aborts_over_the_critical_process() {
    let mut supervisor = enclave();
    let actions =
        run(&mut supervisor, &[Event::Start, Event::Spawned, Event::Spawned, Event::WaitFailed]);
    assert_eq!(actions.last(), Some(&Action::Abort { index: 1, failure: Failure::Wait }));
    assert_eq!(supervisor.phase(), Phase::Terminating);
    let message = supervisor.process(1).unwrap().failure_message(Failure::Wait);
    assert_eq!(message, "provisioning server has exited.");
}

#[test]
fn nothing_happens_before_start() {
    let mut supervisor = enclave();
    let actions = run(
        &mut supervisor,
        &[
            Event::Spawned,
            Event::SpawnFailed,
            Event::CriticalExited { status: Some(0) },
            Event::WaitFailed,
        ],
    );
    assert_eq!(actions, Vec::new());
    assert_eq!(supervisor.phase(), Phase::Idle);
}

#[test]
fn second_start_is_ignored() {
    let mut supervisor = enclave();
    assert_eq!(supervisor.step(Event::Start), Some(Action::Spawn { index: 0 }));
    assert_eq!(supervisor.step(Event::Start), None);
    assert_eq!(supervisor.phase(), Phase::Launching { index: 0 });
}

#[test]
fn exit_reports_are_ignored_while_launching() {
    let mut supervisor = enclave();
    run(&mut supervisor, &[Event::Start]);
    assert_eq!(supervisor.step(Event::CriticalExited { status: Some(1) }), None);
    assert_eq!(supervisor.step(Event::WaitFailed), None);
    assert_eq!(supervisor.phase(), Phase::Launching { index: 0 });
}

#[test]
fn spawn_reports_are_ignored_while_waiting() {
    let mut supervisor = enclave();
    run(&mut supervisor, &[Event::Start, Event::Spawned, Event::Spawned]);
    assert_eq!(supervisor.step(Event::Spawned), None);
    assert_eq!(supervisor.step(Event::SpawnFailed), None);
    assert_eq!(supervisor.step(Event::Start), None);
    assert_eq!(supervisor.phase(), Phase::AwaitingCritical { index: 1 });
}

#[test]
fn non_critical_process_is_never_waited_for() {
    let mut supervisor = enclave();
    let actions = run(
        &mut supervisor,
        &[Event::Start, Event::Spawned, Event::Spawned, Event::CriticalExited { status: None }],
    );
    assert!(!actions.contains(&Action::Wait { index: 0 }));
}

#[test]
fn table_must_end_with_its_one_critical_process() {
    assert!(Supervisor::new(table(&[true])).is_some());
    assert!(Supervisor::new(table(&[false, true])).is_some());
    assert!(Supervisor::new(table(&[false, false, false, true])).is_some());
    assert!(Supervisor::new(table(&[])).is_none());
    assert!(Supervisor::new(table(&[false])).is_none());
    assert!(Supervisor::new(table(&[true, false])).is_none());
    assert!(Supervisor::new(table(&[true, true])).is_none());
    assert!(Supervisor::new(table(&[false, true, false])).is_none());
    assert!(Supervisor::new(table(&[false, false])).is_none());
    assert!(Supervisor::new(table(&[true, false, true])).is_none());
}

#[test]
fn process_lookup_follows_the_table() {
    let supervisor = enclave();
    assert_eq!(supervisor.process(0).unwrap().program, "p11-kit");
    assert_eq!(supervisor.process(1).unwrap().program, "p11ne-server");
    assert!(supervisor.process(2).is_none());
    assert!(supervisor.process(usize::MAX).is_none());
}

#[test]
fn single_process_table_waits_for_it() {
    let mut supervisor = Supervisor::new(table(&[true])).unwrap();
    let actions =
        run(&mut supervisor, &[Event::Start, Event::Spawned, Event::CriticalExited { status: Some(9) }]);
    assert_eq!(
        actions,
        vec![Action::Spawn { index: 0 }, Action::Wait { index: 0 }, Action::Exit { code: 0 }]
    );
}

#[test]
fn longer_table_is_launched_in_order() {
    let mut supervisor = Supervisor::new(table(&[false, false, false, true])).unwrap();
    let actions = run(
        &mut supervisor,
        &[Event::Start, Event::Spawned, Event::Spawned, Event::Spawned, Event::Spawned],
    );
    assert_eq!(
        actions,
        vec![
            Action::Spawn { index: 0 },
            Action::Spawn { index: 1 },
            Action::Spawn { index: 2 },
            Action::Spawn { index: 3 },
            Action::Wait { index: 3 },
        ]
    );
}

#[test]
fn failure_in_the_middle_stops_the_launch() {
    let mut supervisor = Supervisor::new(table(&[false, false, false, true])).unwrap();
    let actions = run(
        &mut supervisor,
        &[
            Event::Start,
            Event::Spawned,
            Event::SpawnFailed,
            Event::Spawned,
            Event::Spawned,
            Event::Spawned,
        ],
    );
    assert_eq!(
        actions,
        vec![
            Action::Spawn { index: 0 },
            Action::Spawn { index: 1 },
            Action::Abort { index: 1, failure: Failure::Spawn },
        ]
    );
}

fn event_of(code: u32) -> Event {
    match code % 6 {
        0 => Event::Start,
        1 | 2 => Event::Spawned,
        3 => Event::SpawnFailed,
        4 => Event::CriticalExited { status: Some(code as i32) },
        _ => Event::WaitFailed,
    }
}

#[test]
fn every_process_is_launched_at_most_once() {
    let mut seed: u32 = 0x2545_f491;
    for round in 0..2000u32 {
        let size = 1 + (round % 5) as usize;
        let mut flags = vec![false; size];
        flags[size - 1] = true;
        let mut supervisor = Supervisor::new(table(&flags)).unwrap();
        let mut launched = vec![0u32; size];
        let mut waited = 0u32;
        let mut ended = 0u32;
        for _ in 0..24 {
            seed ^= seed << 13;
            seed ^= seed >> 17;
            seed ^= seed << 5;
            match supervisor.step(event_of(seed)) {
                Some(Action::Spawn { index }) => {
                    assert_eq!(ended, 0);
                    assert_eq!(waited, 0);
                    assert_eq!(launched[index], 0);
                    assert!(launched[..index].iter().all(|n| *n == 1));
                    launched[index] += 1;
                }
                Some(Action::Wait { index }) => {
                    assert_eq!(index, size - 1);
                    assert_eq!(launched[index], 1);
                    assert_eq!(waited, 0);
                    waited += 1;
                }
                Some(Action::Exit { code }) => {
                    assert_eq!(code, 0);
                    assert_eq!(waited, 1);
                    assert_eq!(ended, 0);
                    ended += 1;
                }
                Some(Action::Abort { index, .. }) => {
                    assert_eq!(launched[index], 1);
                    assert_eq!(ended, 0);
                    ended += 1;
                }
                None => {}
            }
        }
        assert!(launched.iter().all(|n| *n <= 1));
    }
}
