//! Tests of the process registry's bookkeeping and termination decisions.

use benchmark_runner::process_manager::{
    kill_process, KillAction, ManagedProcess, ProcessManager, ProcessManagerError, ProcessState,
};

fn running(pid: u32) -> ManagedProcess {
    ManagedProcess {
        pid,
        state: ProcessState::Running,
    }
}

#[test]
fn kill_of_an_unregistered_handle_reports_child_not_found() {
    let mut manager = ProcessManager::new();
    match manager.kill(7, false) {
        Err(ProcessManagerError::ChildNotFound(pid)) => assert_eq!(pid, 7),
        _ => panic!("an unknown handle must report ChildNotFound"),
    }

    manager.push(running(1));
    match manager.kill(2, false) {
        Err(ProcessManagerError::ChildNotFound(pid)) => assert_eq!(pid, 2),
        _ => panic!("an unknown handle must report ChildNotFound"),
    }
    assert_eq!(manager.len(), 1);
}

#[test]
fn kill_of_an_already_exited_process_is_a_success_without_a_signal() {
    let mut manager = ProcessManager::new();
    manager.push(running(11));
    let (process, action) = manager
        .kill(11, true)
        .expect("a registered process that already exited must not be an error");
    assert_eq!(process.pid, 11);
    assert_eq!(process.state, ProcessState::Exited);
    assert_eq!(action, KillAction::AlreadyExited);
    assert_eq!(manager.len(), 0);
}

#[test]
fn kill_of_a_running_process_signals_and_waits() {
    let mut manager = ProcessManager::new();
    manager.push(running(11));
    let (process, action) = manager.kill(11, false).expect("registered");
    assert_eq!(process.state, ProcessState::Exited);
    assert_eq!(action, KillAction::SignalAndWait);
    assert_eq!(manager.len(), 0);
}

#[test]
fn kill_removes_only_the_named_process() {
    let mut manager = ProcessManager::new();
    manager.push(running(1));
    manager.push(running(2));
    manager.push(running(3));
    let (process, _) = manager.kill(2, false).expect("registered");
    assert_eq!(process.pid, 2);
    assert_eq!(manager.len(), 2);
    assert!(matches!(
        manager.kill(2, false),
        Err(ProcessManagerError::ChildNotFound(2))
    ));
    assert!(manager.kill(1, false).is_ok());
    assert!(manager.kill(3, false).is_ok());
    assert_eq!(manager.len(), 0);
}

#[test]
fn kill_all_empties_the_registry_and_every_process_ends_exited() {
    let mut manager = ProcessManager::new();
    manager.push(running(10));
    manager.push(running(20));
    manager.push(running(30));

    let removed = manager.kill_all();
    assert_eq!(manager.len(), 0, "the registry must be empty afterwards");
    let pids: Vec<u32> = removed.iter().map(|p| p.pid).collect();
    assert_eq!(pids, vec![30, 20, 10], "slots are popped newest first");

    // One process is observed to have exited on its own, the others still
    // run; terminating leaves each of them exited either way.
    for (i, process) in removed.into_iter().enumerate() {
        let already_exited = i == 1;
        let (terminated, action) = kill_process(process, already_exited);
        assert_eq!(terminated.state, ProcessState::Exited);
        assert_eq!(
            action,
            if already_exited {
                KillAction::AlreadyExited
            } else {
                KillAction::SignalAndWait
            }
        );
    }

    // A second drain finds nothing: the first pass already emptied it.
    assert!(manager.kill_all().is_empty());
    assert_eq!(manager.len(), 0);
}
