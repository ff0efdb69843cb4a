use firecracker_poc::network::{delete_link, list_links, provision_step_error};
use firecracker_poc::plan::{Command, CommandOutcome, Flow};
use firecracker_poc::{ExecutionError, VMManager};

const SAMPLE: &str = "deadbeef-1234-4abc-8def-0123456789ab";

fn sample() -> VMManager {
    VMManager::from_id(SAMPLE.to_string()).unwrap()
}

fn line(command: &Command) -> String {
    let mut words = vec![command.program.clone()];
    words.extend(command.args.iter().cloned());
    words.join(" ")
}

fn next_command(vm: &VMManager, outcomes: &Vec<CommandOutcome>) -> String {
    match vm.setup_networking(outcomes) {
        Flow::Perform(command) => line(&command),
        other => panic!("expected a command, got {other:?}"),
    }
}

fn resource_error(vm: &VMManager, outcomes: &Vec<CommandOutcome>) -> String {
    match vm.setup_networking(outcomes) {
        Flow::Aborted(ExecutionError::ResourceError(text)) => text,
        other => panic!("expected a resource error, got {other:?}"),
    }
}

#[test]
fn provisioning_creates_addresses_and_raises_the_link() {
    let vm = sample();
    let mut outcomes = Vec::new();
    assert_eq!(next_command(&vm, &outcomes), "sudo ip tuntap add dev tap-deadbeef mode tap");
    outcomes.push(CommandOutcome::Succeeded);
    assert_eq!(
        next_command(&vm, &outcomes),
        "sudo ip addr add 172.16.140.1/24 dev tap-deadbeef"
    );
    outcomes.push(CommandOutcome::Succeeded);
    assert_eq!(next_command(&vm, &outcomes), "sudo ip link set dev tap-deadbeef up");
    outcomes.push(CommandOutcome::Succeeded);
    assert!(matches!(vm.setup_networking(&outcomes), Flow::Finished));
    outcomes.push(CommandOutcome::Failed("late".to_string()));
    assert!(matches!(vm.setup_networking(&outcomes), Flow::Finished));
}

#[test]
fn provisioning_commands_keep_their_arguments_apart() {
    let vm = sample();
    let command = vm.provision_step(1);
    assert_eq!(command.program, "sudo");
    assert_eq!(
        command.args,
        vec!["ip", "addr", "add", "172.16.140.1/24", "dev", "tap-deadbeef"]
    );
    assert_eq!(
        vm.provision_step(0).args,
        vec!["ip", "tuntap", "add", "dev", "tap-deadbeef", "mode", "tap"]
    );
    assert_eq!(
        vm.provision_step(2).args,
        vec!["ip", "link", "set", "dev", "tap-deadbeef", "up"]
    );
}

#[test]
fn first_failed_step_aborts_provisioning() {
    let vm = sample();
    let failed = || CommandOutcome::Failed("RTNETLINK answers: Operation not permitted".to_string());
    assert_eq!(
        resource_error(&vm, &vec![failed()]),
        "Failed to create TAP interface: RTNETLINK answers: Operation not permitted"
    );
    assert_eq!(
        resource_error(&vm, &vec![CommandOutcome::Succeeded, failed()]),
        "Failed to configure TAP interface: RTNETLINK answers: Operation not permitted"
    );
    assert_eq!(
        resource_error(
            &vm,
            &vec![CommandOutcome::Succeeded, CommandOutcome::Succeeded, failed()]
        ),
        "Failed to bring up TAP interface: RTNETLINK answers: Operation not permitted"
    );
    // What follows the failure in the history changes nothing.
    assert_eq!(
        resource_error(
            &vm,
            &vec![
                CommandOutcome::Failed("ioctl(TUNSETIFF): Device or resource busy".to_string()),
                CommandOutcome::Succeeded,
                CommandOutcome::Succeeded
            ]
        ),
        "Failed to create TAP interface: ioctl(TUNSETIFF): Device or resource busy"
    );
    // A command that failed without a word is still a failure.
    assert_eq!(
        resource_error(&vm, &vec![CommandOutcome::Failed(String::new())]),
        "Failed to create TAP interface: "
    );
}

#[test]
fn a_command_that_cannot_run_is_reported_with_the_os_error() {
    let vm = sample();
    assert_eq!(
        resource_error(
            &vm,
            &vec![CommandOutcome::SpawnFailed("No such file or directory (os error 2)".to_string())]
        ),
        "Failed to create TAP interface: No such file or directory (os error 2)"
    );
    assert_eq!(
        resource_error(
            &vm,
            &vec![
                CommandOutcome::Succeeded,
                CommandOutcome::SpawnFailed("denied".to_string())
            ]
        ),
        "Failed to configure TAP interface: denied"
    );
    assert_eq!(
        resource_error(
            &vm,
            &vec![
                CommandOutcome::Succeeded,
                CommandOutcome::Succeeded,
                CommandOutcome::SpawnFailed("denied".to_string())
            ]
        ),
        "Failed to bring up TAP interface: denied"
    );
}

#[test]
fn a_step_that_succeeded_is_no_error() {
    assert!(provision_step_error(0, &CommandOutcome::Succeeded).is_none());
    assert!(provision_step_error(2, &CommandOutcome::Succeeded).is_none());
    assert!(provision_step_error(1, &CommandOutcome::Failed("no".to_string())).is_some());
}

#[test]
fn link_commands_are_exact() {
    assert_eq!(line(&delete_link("tap-0badcafe")), "sudo ip link delete tap-0badcafe");
    assert_eq!(line(&list_links()), "ip link show type tun");
    assert_eq!(line(&sample().cleanup_networking()), "sudo ip link delete tap-deadbeef");
}

#[test]
fn stale_links_are_those_nobody_uses() {
    let vm = sample();
    let listing = "\
5: tap-deadbeef: <BROADCAST,MULTICAST,UP,LOWER_UP> mtu 1500 qdisc fq_codel state UP mode DEFAULT group default qlen 1000
    link/ether 5e:7a:11:22:33:44 brd ff:ff:ff:ff:ff:ff
6: tap-0badcafe: <NO-CARRIER,BROADCAST,MULTICAST,UP> mtu 1500 qdisc fq_codel state DOWN mode DEFAULT group default qlen 1000
    link/ether 5e:7a:11:22:33:45 brd ff:ff:ff:ff:ff:ff
7: tun0: <POINTOPOINT,MULTICAST,NOARP,UP,LOWER_UP> mtu 1500 qdisc fq_codel state UNKNOWN mode DEFAULT group default qlen 500
8: tap-11111111: <BROADCAST,MULTICAST,UP,LOWER_UP> mtu 1500 qdisc fq_codel state UP mode DEFAULT group default qlen 1000
9: tap-22222222: <BROADCAST,MULTICAST> mtu 1500 qdisc noop state DOWN mode DEFAULT group default qlen 1000
";
    let active = vec!["tap-11111111".to_string()];
    assert_eq!(
        vm.stale_tap_interfaces(listing, &active),
        vec!["tap-0badcafe", "tap-22222222"]
    );
    assert_eq!(
        vm.stale_tap_interfaces(listing, &Vec::new()),
        vec!["tap-0badcafe", "tap-11111111", "tap-22222222"]
    );
    let everyone = vec![
        "tap-0badcafe".to_string(),
        "tap-11111111".to_string(),
        "tap-22222222".to_string(),
    ];
    assert!(vm.stale_tap_interfaces(listing, &everyone).is_empty());
}

#[test]
fn link_names_are_read_line_by_line() {
    let vm = sample();
    let none: Vec<String> = Vec::new();
    assert!(vm.stale_tap_interfaces("", &none).is_empty());
    assert!(vm.stale_tap_interfaces("\n\n", &none).is_empty());
    assert!(vm.stale_tap_interfaces("1: lo: <LOOPBACK>\n", &none).is_empty());
    // No colon after the prefix on the same line: no name.
    assert!(vm.stale_tap_interfaces("tap-aaaa\n: <UP>\n", &none).is_empty());
    // The colon must follow the prefix.
    assert!(vm.stale_tap_interfaces("3: tap-aaaa", &none).is_empty());
    // Only the first name of a line counts, and a last line needs no line feed.
    assert_eq!(
        vm.stale_tap_interfaces("3: tap-aaaa: tap-bbbb: x\r\n4: tap-cccc:", &none),
        vec!["tap-aaaa", "tap-cccc"]
    );
    // The name starts at the prefix, wherever it stands, and may be empty but for it.
    assert_eq!(
        vm.stale_tap_interfaces("9: vtap-x@if2: <UP>\n10: tap-: <UP>", &none),
        vec!["tap-x@if2", "tap-"]
    );
    // A name that is listed twice is reported twice.
    assert_eq!(
        vm.stale_tap_interfaces("tap-a:\ntap-a:\n", &none),
        vec!["tap-a", "tap-a"]
    );
    // Text beyond ASCII is carried through.
    assert_eq!(
        vm.stale_tap_interfaces("\u{e9}\u{e9} tap-\u{e9}t\u{e9}: \u{1f600}\n", &none),
        vec!["tap-\u{e9}t\u{e9}"]
    );
}
