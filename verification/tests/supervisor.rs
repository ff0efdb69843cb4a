use firecracker_poc::plan::Flow;
use firecracker_poc::runner::LifecycleEvent;
use firecracker_poc::supervisor::{
    removal_errors, removal_step_error, socket_timeout_error, CleanupPlan, LaunchOutcome,
    RemovalOutcome, SocketStep, SOCKET_POLL_MS, SOCKET_WAIT_CHECKS,
};
use firecracker_poc::{ExecutionError, Status, VMManager};

const SAMPLE: &str = "deadbeef-1234-4abc-8def-0123456789ab";
const SOCKET: &str = "/tmp/firecracker-deadbeef-1234-4abc-8def-0123456789ab.socket";
const STDOUT_LOG: &str = "/tmp/fc-stdout-deadbeef-1234-4abc-8def-0123456789ab.log";
const STDERR_LOG: &str = "/tmp/fc-stderr-deadbeef-1234-4abc-8def-0123456789ab.log";

fn sample() -> VMManager {
    VMManager::from_id(SAMPLE.to_string()).unwrap()
}

/// A host that holds some files, and may refuse to remove some of them.
struct Host {
    present: Vec<String>,
    stuck: Vec<String>,
}

impl Host {
    fn remove_if_present(&mut self, path: &str) -> RemovalOutcome {
        if !self.present.iter().any(|p| p == path) {
            RemovalOutcome::Absent
        } else if self.stuck.iter().any(|p| p == path) {
            RemovalOutcome::Failed("Operation not permitted (os error 1)".to_string())
        } else {
            self.present.retain(|p| p != path);
            RemovalOutcome::Removed
        }
    }

    fn clean(&mut self, plan: &CleanupPlan) -> Vec<RemovalOutcome> {
        let mut outcomes = Vec::new();
        loop {
            match plan.remove_files(&outcomes) {
                Flow::Perform(path) => outcomes.push(self.remove_if_present(&path)),
                Flow::Finished => return outcomes,
                Flow::Aborted(error) => panic!("cleanup never aborts, got {error:?}"),
            }
            assert!(outcomes.len() <= 3);
        }
    }
}

#[test]
fn the_hypervisor_is_launched_on_the_control_socket() {
    let launch = sample().launch();
    assert_eq!(launch.command.program, "firecracker");
    assert_eq!(launch.command.args, vec!["--api-sock", SOCKET]);
    assert_eq!(launch.stdout_log_path, STDOUT_LOG);
    assert_eq!(launch.stderr_log_path, STDERR_LOG);
}

#[test]
fn the_control_socket_is_looked_for_every_100_ms() {
    let vm = sample();
    let mut seen = Vec::new();
    for _ in 0..3 {
        match vm.await_socket(&seen) {
            SocketStep::Check { delay_ms, path } => {
                assert_eq!(delay_ms, 100);
                assert_eq!(path, SOCKET);
            }
            other => panic!("expected a look, got {other:?}"),
        }
        seen.push(false);
    }
    seen.push(true);
    assert!(matches!(vm.await_socket(&seen), SocketStep::Ready));
    assert!(matches!(vm.await_socket(&vec![true]), SocketStep::Ready));
}

#[test]
fn a_hypervisor_without_a_socket_is_given_up_after_five_seconds() {
    let vm = sample();
    assert_eq!(SOCKET_POLL_MS * SOCKET_WAIT_CHECKS, 5_000);
    let mut seen = vec![false; 49];
    assert!(matches!(vm.await_socket(&seen), SocketStep::Check { delay_ms: 100, .. }));
    seen.push(false);
    assert!(matches!(vm.await_socket(&seen), SocketStep::GiveUp));
    seen.push(true);
    assert!(matches!(vm.await_socket(&seen), SocketStep::GiveUp));
    seen[49] = true;
    assert!(matches!(vm.await_socket(&seen), SocketStep::Ready));
    match socket_timeout_error() {
        ExecutionError::ProcessSpawnError(text) => assert_eq!(
            text,
            "Firecracker did not create its API socket within 5 seconds"
        ),
        other => panic!("expected a spawn error, got {other:?}"),
    }
}

#[test]
fn a_failed_launch_is_reported_by_its_kind() {
    let mut vm = sample();
    match vm.start_firecracker(LaunchOutcome::StdoutLogFailed("denied".to_string())) {
        Err(ExecutionError::ResourceError(text)) => {
            assert_eq!(text, "cannot create stdout log: denied")
        }
        other => panic!("expected a resource error, got {other:?}"),
    }
    match vm.start_firecracker(LaunchOutcome::StderrLogFailed("denied".to_string())) {
        Err(ExecutionError::ResourceError(text)) => {
            assert_eq!(text, "cannot create stderr log: denied")
        }
        other => panic!("expected a resource error, got {other:?}"),
    }
    match vm.start_firecracker(LaunchOutcome::SpawnFailed(
        "No such file or directory (os error 2)".to_string(),
    )) {
        Err(ExecutionError::ProcessSpawnError(text)) => assert_eq!(
            text,
            "Failed to start Firecracker: No such file or directory (os error 2)"
        ),
        other => panic!("expected a spawn error, got {other:?}"),
    }
    assert!(!vm.has_process());
    assert_eq!(vm.status(), Status::Created);
}

#[test]
fn shutdown_without_a_process_hands_out_none() {
    let mut vm = sample();
    let (request, process) = vm.shutdown_vm();
    assert_eq!(request.url, "http://172.16.140.2:8080/shutdown");
    assert_eq!(request.body, None);
    assert_eq!(request.timeout_seconds, 5);
    assert!(process.is_none());
    assert!(!vm.has_process());
    assert!(vm.take_process().is_none());
}

#[test]
fn retiring_an_instance_names_everything_it_leaves_behind() {
    let plan = sample().cleanup();
    assert!(plan.process.is_none());
    assert_eq!(plan.link_removal.program, "sudo");
    assert_eq!(plan.link_removal.args, vec!["ip", "link", "delete", "tap-deadbeef"]);
    assert_eq!(plan.socket_path, SOCKET);
    assert_eq!(plan.stdout_log_path, STDOUT_LOG);
    assert_eq!(plan.stderr_log_path, STDERR_LOG);
    assert_eq!(plan.paths(), vec![SOCKET, STDOUT_LOG, STDERR_LOG]);
}

#[test]
fn files_are_removed_in_order() {
    let plan = sample().cleanup();
    let mut outcomes = Vec::new();
    for path in [SOCKET, STDOUT_LOG, STDERR_LOG] {
        match plan.remove_files(&outcomes) {
            Flow::Perform(next) => assert_eq!(next, path),
            other => panic!("expected a removal, got {other:?}"),
        }
        outcomes.push(RemovalOutcome::Removed);
    }
    assert!(matches!(plan.remove_files(&outcomes), Flow::Finished));
}

#[test]
fn cleanup_removes_every_file_that_exists() {
    let plan = sample().cleanup();
    let mut host = Host {
        present: vec![
            SOCKET.to_string(),
            "/tmp/keep-me".to_string(),
            STDERR_LOG.to_string(),
            STDOUT_LOG.to_string(),
        ],
        stuck: Vec::new(),
    };
    let outcomes = host.clean(&plan);
    assert!(outcomes.iter().all(|o| matches!(o, RemovalOutcome::Removed)));
    assert!(removal_errors(&outcomes).is_empty());
    assert_eq!(host.present, vec!["/tmp/keep-me"]);
}

#[test]
fn cleanup_twice_finds_nothing_and_fails_on_nothing() {
    let plan = sample().cleanup();
    let mut host = Host {
        present: vec![SOCKET.to_string(), STDOUT_LOG.to_string(), STDERR_LOG.to_string()],
        stuck: Vec::new(),
    };
    host.clean(&plan);
    assert!(host.present.is_empty());
    let again = host.clean(&plan);
    assert_eq!(again.len(), 3);
    assert!(again.iter().all(|o| matches!(o, RemovalOutcome::Absent)));
    assert!(removal_errors(&again).is_empty());
    assert!(host.present.is_empty());
}

#[test]
fn cleanup_of_an_instance_that_never_started_is_no_error() {
    let plan = sample().cleanup();
    let mut host = Host { present: vec![STDOUT_LOG.to_string()], stuck: Vec::new() };
    let outcomes = host.clean(&plan);
    assert!(matches!(outcomes[0], RemovalOutcome::Absent));
    assert!(matches!(outcomes[1], RemovalOutcome::Removed));
    assert!(matches!(outcomes[2], RemovalOutcome::Absent));
    assert!(removal_errors(&outcomes).is_empty());
    assert!(host.present.is_empty());
}

#[test]
fn a_removal_that_fails_does_not_stop_the_others() {
    let plan = sample().cleanup();
    let mut host = Host {
        present: vec![SOCKET.to_string(), STDOUT_LOG.to_string(), STDERR_LOG.to_string()],
        stuck: vec![SOCKET.to_string()],
    };
    let outcomes = host.clean(&plan);
    assert_eq!(outcomes.len(), 3);
    assert!(matches!(outcomes[0], RemovalOutcome::Failed(_)));
    assert!(matches!(outcomes[1], RemovalOutcome::Removed));
    assert!(matches!(outcomes[2], RemovalOutcome::Removed));
    assert_eq!(host.present, vec![SOCKET]);
    let errors: Vec<String> = removal_errors(&outcomes).iter().map(|e| e.to_string()).collect();
    assert_eq!(
        errors,
        vec!["Resource management error: Failed to remove socket: Operation not permitted (os error 1)"]
    );
}

#[test]
fn cleanup_after_a_partial_failure_removes_the_rest() {
    let plan = sample().cleanup();
    let mut host = Host {
        present: vec![SOCKET.to_string(), STDOUT_LOG.to_string(), STDERR_LOG.to_string()],
        stuck: vec![STDOUT_LOG.to_string(), STDERR_LOG.to_string()],
    };
    let outcomes = host.clean(&plan);
    let errors: Vec<String> = removal_errors(&outcomes).iter().map(|e| e.to_string()).collect();
    assert_eq!(
        errors,
        vec![
            "Resource management error: Failed to remove stdout log: Operation not permitted (os error 1)",
            "Resource management error: Failed to remove stderr log: Operation not permitted (os error 1)",
        ]
    );
    assert_eq!(host.present, vec![STDOUT_LOG, STDERR_LOG]);
    host.stuck.clear();
    let outcomes = host.clean(&plan);
    assert!(matches!(outcomes[0], RemovalOutcome::Absent));
    assert!(matches!(outcomes[1], RemovalOutcome::Removed));
    assert!(matches!(outcomes[2], RemovalOutcome::Removed));
    assert!(removal_errors(&outcomes).is_empty());
    assert!(host.present.is_empty());
}

#[test]
fn an_instance_is_terminated_once_cleanup_has_tried_everything() {
    let mut vm = sample();
    assert!(vm.record(LifecycleEvent::StepFailed));
    assert_eq!(vm.status(), Status::Failed);
    let plan = vm.cleanup();
    let outcomes = vec![
        RemovalOutcome::Failed("busy".to_string()),
        RemovalOutcome::Absent,
        RemovalOutcome::Removed,
    ];
    assert!(matches!(plan.remove_files(&outcomes), Flow::Finished));
    let (vm, errors) = plan.finish(&outcomes);
    assert_eq!(vm.status(), Status::Terminated);
    assert_eq!(vm.vm_id(), SAMPLE);
    assert!(!vm.has_process());
    assert_eq!(errors.len(), 1);
    assert_eq!(
        errors[0].to_string(),
        "Resource management error: Failed to remove socket: busy"
    );
}

#[test]
fn an_instance_whose_cleanup_is_not_done_is_not_terminated() {
    let plan = sample().cleanup();
    let outcomes = vec![RemovalOutcome::Removed, RemovalOutcome::Removed];
    assert!(matches!(plan.remove_files(&outcomes), Flow::Perform(_)));
    let (vm, errors) = plan.finish(&outcomes);
    assert_eq!(vm.status(), Status::Created);
    assert!(errors.is_empty());
    // Outcomes beyond the third are not looked at.
    let plan = vm.cleanup();
    let outcomes = vec![
        RemovalOutcome::Absent,
        RemovalOutcome::Absent,
        RemovalOutcome::Absent,
        RemovalOutcome::Failed("late".to_string()),
    ];
    let (vm, errors) = plan.finish(&outcomes);
    assert_eq!(vm.status(), Status::Terminated);
    assert!(errors.is_empty());
}

#[test]
fn every_file_has_its_own_failure_text() {
    let failed = RemovalOutcome::Failed("busy".to_string());
    let text = |step: usize| match removal_step_error(step, &failed) {
        Some(ExecutionError::ResourceError(text)) => text,
        other => panic!("expected a resource error, got {other:?}"),
    };
    assert_eq!(text(0), "Failed to remove socket: busy");
    assert_eq!(text(1), "Failed to remove stdout log: busy");
    assert_eq!(text(2), "Failed to remove stderr log: busy");
    assert!(removal_step_error(0, &RemovalOutcome::Absent).is_none());
    assert!(removal_step_error(1, &RemovalOutcome::Removed).is_none());
}
