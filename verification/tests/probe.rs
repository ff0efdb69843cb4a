use firecracker_poc::control::HttpStatus;
use firecracker_poc::probe::{
    backoff_delay_ms, health_check_passed, HealthReply, ProbeStep, BOOT_DEADLINE_MS,
    HEALTH_CHECK_TIMEOUT_MS, MAX_HEALTH_CHECKS,
};
use firecracker_poc::{ExecutionError, VMManager};

const SAMPLE: &str = "deadbeef-1234-4abc-8def-0123456789ab";

fn sample() -> VMManager {
    VMManager::from_id(SAMPLE.to_string()).unwrap()
}

fn failed() -> HealthReply {
    HealthReply::Unreachable("connection refused".to_string())
}

fn answered(code: u16) -> HealthReply {
    HealthReply::Answered(HttpStatus::new(code).unwrap())
}

fn delay_before_check(vm: &VMManager, replies: &Vec<HealthReply>) -> u64 {
    match vm.wait_for_api_server(replies) {
        ProbeStep::Check { delay_ms, url } => {
            assert_eq!(url, "http://172.16.140.2:8080/health");
            delay_ms
        }
        other => panic!("expected a check, got {other:?}"),
    }
}

#[test]
fn backoff_doubles_up_to_the_cap() {
    let expected = [0u64, 100, 200, 400, 800, 1000, 1000, 1000];
    for (failures, delay) in expected.iter().enumerate() {
        assert_eq!(backoff_delay_ms(failures as u64), *delay);
    }
    assert_eq!(backoff_delay_ms(150), 1000);
    assert_eq!(backoff_delay_ms(u64::MAX), 1000);
}

#[test]
fn readiness_after_five_failures_comes_with_the_sixth_check() {
    let vm = sample();
    let mut replies = Vec::new();
    let mut waited = 0;
    let schedule = [0u64, 100, 200, 400, 800];
    for delay in schedule {
        assert_eq!(delay_before_check(&vm, &replies), delay);
        waited += delay;
        replies.push(failed());
        assert!(!matches!(vm.wait_for_api_server(&replies), ProbeStep::Ready));
    }
    assert_eq!(delay_before_check(&vm, &replies), 1000);
    waited += 1000;
    replies.push(answered(200));
    assert!(matches!(vm.wait_for_api_server(&replies), ProbeStep::Ready));
    assert_eq!(replies.len(), 6);
    assert_eq!(waited, 2500);
}

#[test]
fn a_guest_that_answers_at_once_is_ready_at_once() {
    let vm = sample();
    assert_eq!(delay_before_check(&vm, &Vec::new()), 0);
    assert!(matches!(vm.wait_for_api_server(&vec![answered(204)]), ProbeStep::Ready));
}

#[test]
fn only_a_success_status_means_ready() {
    assert!(health_check_passed(&answered(200)));
    assert!(health_check_passed(&answered(299)));
    assert!(!health_check_passed(&answered(199)));
    assert!(!health_check_passed(&answered(300)));
    assert!(!health_check_passed(&answered(404)));
    assert!(!health_check_passed(&answered(503)));
    assert!(!health_check_passed(&failed()));
    let vm = sample();
    assert_eq!(delay_before_check(&vm, &vec![answered(503)]), 100);
    assert_eq!(delay_before_check(&vm, &vec![answered(503), failed()]), 200);
}

#[test]
fn the_prober_gives_up_after_150_checks() {
    let vm = sample();
    let mut replies = Vec::new();
    let mut waited = 0;
    for _ in 0..MAX_HEALTH_CHECKS {
        waited += delay_before_check(&vm, &replies) + HEALTH_CHECK_TIMEOUT_MS;
        replies.push(failed());
    }
    match vm.wait_for_api_server(&replies) {
        ProbeStep::GiveUp { delay_ms } => waited += delay_ms,
        other => panic!("expected the prober to give up, got {other:?}"),
    }
    assert_eq!(replies.len(), 150);
    assert_eq!(waited, BOOT_DEADLINE_MS);
    assert_eq!(waited, 447_500);
    // Further replies change nothing, not even a late success.
    replies.push(answered(200));
    assert!(matches!(
        vm.wait_for_api_server(&replies),
        ProbeStep::GiveUp { delay_ms: 1000 }
    ));
}

#[test]
fn the_150th_check_still_counts() {
    let vm = sample();
    let mut replies: Vec<HealthReply> = (0..149).map(|_| failed()).collect();
    assert_eq!(delay_before_check(&vm, &replies), 1000);
    replies.push(answered(200));
    assert!(matches!(vm.wait_for_api_server(&replies), ProbeStep::Ready));
}

#[test]
fn boot_timeout_carries_both_logs() {
    let vm = sample();
    let error = vm.boot_timeout_error(
        &Ok("booting\nkernel panic\n".to_string()),
        &Err("No such file or directory (os error 2)".to_string()),
    );
    let details = match &error {
        ExecutionError::TimeoutErrorWithLogs(details) => details.clone(),
        other => panic!("expected a timeout with logs, got {other:?}"),
    };
    assert_eq!(
        details,
        "VM API server at 172.16.140.2 did not become ready within 15 seconds\n\nFirecracker stdout:\nbooting\nkernel panic\n\n\nFirecracker stderr:\nFailed to read stderr log: No such file or directory (os error 2)"
    );
    assert_eq!(
        error.to_string(),
        format!("Execution timed out. Logs:\n{details}")
    );
    let error = vm.boot_timeout_error(&Err("denied".to_string()), &Ok(String::new()));
    match error {
        ExecutionError::TimeoutErrorWithLogs(details) => assert_eq!(
            details,
            "VM API server at 172.16.140.2 did not become ready within 15 seconds\n\nFirecracker stdout:\nFailed to read stdout log: denied\n\nFirecracker stderr:\n"
        ),
        other => panic!("expected a timeout with logs, got {other:?}"),
    }
}
