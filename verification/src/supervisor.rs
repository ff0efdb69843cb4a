//! Supervision of the hypervisor process and teardown of an instance: how
//! the hypervisor is launched, what a failed launch means, and what is left
//! to reclaim when an instance is retired.
use vstd::prelude::*;
use vstd::string::*;
use crate::channel::{shutdown_url_of, GuestRequest, GuestRequestView};
use crate::identity::{
    socket_path_of, stderr_log_path_of, stdout_log_path_of, tap_interface_of,
};
use crate::network::delete_link_command;
use crate::plan::{
    command, push_text, texts, views, Command, CommandView, Flow, FlowView,
};
use crate::runner::{LifecycleEvent, Status, VMManager, VmView};
use crate::text::join2;
use crate::{ErrorView, ExecutionError};

verus! {

/// Milliseconds between two looks for the hypervisor's control socket, and
/// before the first.
pub const SOCKET_POLL_MS: u64 = 100;

/// Number of looks after which a hypervisor that has not created its control
/// socket counts as not started: five seconds in all.
pub const SOCKET_WAIT_CHECKS: u64 = 50;

/// Number of files an instance leaves on the host.
pub const CLEANUP_FILES: usize = 3;

/// How the hypervisor is launched: the command, with no standard input, and
/// the files that receive its output.
#[derive(Debug, Clone)]
pub struct Launch {
    pub command: Command,
    pub stdout_log_path: String,
    pub stderr_log_path: String,
}

/// The command that runs the hypervisor on an instance's control socket.
pub open spec fn launch_command(id: Seq<char>) -> CommandView {
    CommandView { program: "firecracker"@, args: seq!["--api-sock"@, socket_path_of(id)] }
}

/// How launching the hypervisor ended.
pub enum LaunchOutcome {
    /// The file for standard output could not be created.
    StdoutLogFailed(String),
    /// The file for standard error could not be created.
    StderrLogFailed(String),
    /// The process could not be spawned.
    SpawnFailed(String),
    /// The process runs; its handle.
    Spawned(tokio::process::Child),
}

/// A launch's end as contracts see it.
pub enum LaunchOutcomeView {
    StdoutLogFailed(Seq<char>),
    StderrLogFailed(Seq<char>),
    SpawnFailed(Seq<char>),
    Spawned,
}

impl View for LaunchOutcome {
    type V = LaunchOutcomeView;

    open spec fn view(&self) -> LaunchOutcomeView {
        match self {
            LaunchOutcome::StdoutLogFailed(e) => LaunchOutcomeView::StdoutLogFailed(e@),
            LaunchOutcome::StderrLogFailed(e) => LaunchOutcomeView::StderrLogFailed(e@),
            LaunchOutcome::SpawnFailed(e) => LaunchOutcomeView::SpawnFailed(e@),
            LaunchOutcome::Spawned(_) => LaunchOutcomeView::Spawned,
        }
    }
}

/// The error that a launch's end amounts to, if any: a log file that could
/// not be created is a resource error, a process that could not be spawned a
/// spawn error.
pub open spec fn launch_error(outcome: LaunchOutcomeView) -> Option<ErrorView> {
    match outcome {
        LaunchOutcomeView::StdoutLogFailed(e) => Some(
            ErrorView::ResourceError("cannot create stdout log: "@ + e),
        ),
        LaunchOutcomeView::StderrLogFailed(e) => Some(
            ErrorView::ResourceError("cannot create stderr log: "@ + e),
        ),
        LaunchOutcomeView::SpawnFailed(e) => Some(
            ErrorView::ProcessSpawnError("Failed to start Firecracker: "@ + e),
        ),
        LaunchOutcomeView::Spawned => None,
    }
}

/// What waiting for the control socket does next.
#[derive(Debug)]
pub enum SocketStep {
    /// Wait `delay_ms`, then look whether the file at `path` exists.
    Check { delay_ms: u64, path: String },
    /// The socket is there.
    Ready,
    /// The socket did not appear in time: kill the hypervisor.
    GiveUp,
}

/// The socket wait's answer as contracts see it.
pub enum SocketStepView {
    Check { delay_ms: nat, path: Seq<char> },
    Ready,
    GiveUp,
}

impl View for SocketStep {
    type V = SocketStepView;

    open spec fn view(&self) -> SocketStepView {
        match self {
            SocketStep::Check { delay_ms, path } => SocketStepView::Check {
                delay_ms: *delay_ms as nat,
                path: path@,
            },
            SocketStep::Ready => SocketStepView::Ready,
            SocketStep::GiveUp => SocketStepView::GiveUp,
        }
    }
}

/// What waiting for the control socket does next, from look number `attempt`
/// on (counted from zero), given what the looks so far found: the first look
/// that found the socket ends the wait; after 50 looks that found nothing
/// the wait is given up; otherwise the next look is due in 100 milliseconds.
pub open spec fn socket_wait_from(id: Seq<char>, seen: Seq<bool>, attempt: int) -> SocketStepView
    decreases 50 - attempt,
{
    if attempt >= 50 {
        SocketStepView::GiveUp
    } else if attempt >= seen.len() || attempt < 0 {
        SocketStepView::Check { delay_ms: 100, path: socket_path_of(id) }
    } else if seen[attempt] {
        SocketStepView::Ready
    } else {
        socket_wait_from(id, seen, attempt + 1)
    }
}

/// What waiting for the control socket does next given what the looks so far
/// found.
pub open spec fn socket_wait(id: Seq<char>, seen: Seq<bool>) -> SocketStepView {
    socket_wait_from(id, seen, 0)
}

/// The error for a hypervisor that did not create its control socket in
/// time.
pub fn socket_timeout_error() -> (error: ExecutionError)
    ensures
        error@ == ErrorView::ProcessSpawnError(
            "Firecracker did not create its API socket within 5 seconds"@,
        ),
{
    ExecutionError::ProcessSpawnError(
        String::from_str("Firecracker did not create its API socket within 5 seconds"),
    )
}

/// How removing one of an instance's files ended.
#[derive(Debug, Clone)]
pub enum RemovalOutcome {
    /// The file did not exist.
    Absent,
    /// The file existed and was removed.
    Removed,
    /// The file existed and could not be removed.
    Failed(String),
}

/// A removal's end as contracts see it.
pub enum RemovalOutcomeView {
    Absent,
    Removed,
    Failed(Seq<char>),
}

impl View for RemovalOutcome {
    type V = RemovalOutcomeView;

    open spec fn view(&self) -> RemovalOutcomeView {
        match self {
            RemovalOutcome::Absent => RemovalOutcomeView::Absent,
            RemovalOutcome::Removed => RemovalOutcomeView::Removed,
            RemovalOutcome::Failed(e) => RemovalOutcomeView::Failed(e@),
        }
    }
}

/// What the file of a cleanup step is called in an error: the control
/// socket, then the two logs.
pub open spec fn removal_label(step: int) -> Seq<char> {
    if step == 0 {
        "Failed to remove socket: "@
    } else if step == 1 {
        "Failed to remove stdout log: "@
    } else {
        "Failed to remove stderr log: "@
    }
}

/// The error that a removal's end amounts to, if any. A file that does not
/// exist is no error.
pub open spec fn removal_error(step: int, outcome: RemovalOutcomeView) -> Option<ErrorView> {
    match outcome {
        RemovalOutcomeView::Failed(e) => Some(ErrorView::ResourceError(removal_label(step) + e)),
        _ => None,
    }
}

/// What removing an instance's files does next, given how the removals made
/// so far ended: the file to remove if it exists, until all three have been
/// tried. However a removal ended, the next file is still tried: a failure
/// never ends cleanup.
pub open spec fn removal_flow(paths: Seq<Seq<char>>, outcomes: Seq<RemovalOutcomeView>) -> FlowView<
    Seq<char>,
> {
    if outcomes.len() >= 3 {
        FlowView::Finished
    } else {
        FlowView::Perform(paths[outcomes.len() as int])
    }
}

/// The errors of the removals that failed, from step `step` on, in the order
/// of the steps.
pub open spec fn removal_failures_from(outcomes: Seq<RemovalOutcomeView>, step: int) -> Seq<
    ErrorView,
>
    decreases 3 - step,
{
    if step >= 3 || step >= outcomes.len() || step < 0 {
        Seq::empty()
    } else {
        match removal_error(step, outcomes[step]) {
            Some(e) => seq![e] + removal_failures_from(outcomes, step + 1),
            None => removal_failures_from(outcomes, step + 1),
        }
    }
}

/// The errors of the removals that failed, in the order of the steps.
pub open spec fn removal_failures(outcomes: Seq<RemovalOutcomeView>) -> Seq<ErrorView> {
    removal_failures_from(outcomes, 0)
}

/// The files an instance leaves on the host, in the order of their removal.
pub open spec fn cleanup_paths(id: Seq<char>) -> Seq<Seq<char>> {
    seq![socket_path_of(id), stdout_log_path_of(id), stderr_log_path_of(id)]
}

/// The status of an instance whose cleanup has come as far as `outcomes`
/// tell: terminated once all three removals have been tried, unchanged
/// before.
pub open spec fn status_after_cleanup(status: Status, outcomes: Seq<RemovalOutcomeView>) -> Status {
    if outcomes.len() >= 3 {
        Status::Terminated
    } else {
        status
    }
}

/// Everything that is left to reclaim of a retired instance. Making the plan
/// consumes the instance: whoever holds the plan is the only one who can
/// still reach the process, and gets the instance back, terminated, when
/// cleanup is done.
pub struct CleanupPlan {
    /// The hypervisor process to kill and wait for, if one was spawned.
    pub process: Option<tokio::process::Child>,
    /// The command that deletes the network link; its outcome is ignored.
    pub link_removal: Command,
    pub socket_path: String,
    pub stdout_log_path: String,
    pub stderr_log_path: String,
    instance: VMManager,
}

/// A cleanup plan as contracts see it.
pub struct CleanupPlanView {
    pub has_process: bool,
    pub link_removal: CommandView,
    pub paths: Seq<Seq<char>>,
    /// The instance being retired; it holds no process any more.
    pub instance: VmView,
}

impl View for CleanupPlan {
    type V = CleanupPlanView;

    closed spec fn view(&self) -> CleanupPlanView {
        CleanupPlanView {
            has_process: self.process.is_some(),
            link_removal: self.link_removal@,
            paths: seq![self.socket_path@, self.stdout_log_path@, self.stderr_log_path@],
            instance: self.instance@,
        }
    }
}

fn removal_label_text(step: usize) -> (label: &'static str)
    ensures
        label@ == removal_label(step as int),
{
    if step == 0 {
        "Failed to remove socket: "
    } else if step == 1 {
        "Failed to remove stdout log: "
    } else {
        "Failed to remove stderr log: "
    }
}

/// Judges how the removal of a cleanup step ended.
pub fn removal_step_error(step: usize, outcome: &RemovalOutcome) -> (error: Option<
    ExecutionError,
>)
    ensures
        match removal_error(step as int, outcome@) {
            Some(e) => error matches Some(got) && got@ == e,
            None => error.is_none(),
        },
{
    match outcome {
        RemovalOutcome::Failed(e) => Some(
            ExecutionError::ResourceError(join2(removal_label_text(step), e.as_str())),
        ),
        _ => None,
    }
}

/// Lists the errors of the removals that failed, in the order of the steps.
pub fn removal_errors(outcomes: &Vec<RemovalOutcome>) -> (errors: Vec<ExecutionError>)
    ensures
        views(errors@) == removal_failures(views(outcomes@)),
{
    let mut errors: Vec<ExecutionError> = Vec::new();
    let mut step: usize = 0;
    assert(views(errors@) =~= Seq::<ErrorView>::empty());
    while step < CLEANUP_FILES && step < outcomes.len()
        invariant
            step <= 3,
            step <= outcomes@.len(),
            removal_failures(views(outcomes@)) == views(errors@) + removal_failures_from(
                views(outcomes@),
                step as int,
            ),
        decreases 3 - step,
    {
        assert(views(outcomes@)[step as int] == outcomes@[step as int]@);
        let ghost before = views(errors@);
        let ghost rest = removal_failures_from(views(outcomes@), step + 1);
        match removal_step_error(step, &outcomes[step]) {
            Some(e) => {
                errors.push(e);
                assert(views(errors@) =~= before.push(e@));
                assert(before + (seq![e@] + rest) =~= before.push(e@) + rest);
            },
            None => {},
        }
        step += 1;
    }
    assert(views(errors@) + Seq::<ErrorView>::empty() =~= views(errors@));
    errors
}

impl CleanupPlan {
    /// The paths of the three files, in the order of their removal.
    pub fn paths(&self) -> (paths: Vec<String>)
        ensures
            texts(paths@) == self@.paths,
    {
        let mut paths: Vec<String> = Vec::new();
        assert(texts(paths@) =~= Seq::<Seq<char>>::empty());
        push_text(&mut paths, self.socket_path.as_str());
        push_text(&mut paths, self.stdout_log_path.as_str());
        push_text(&mut paths, self.stderr_log_path.as_str());
        assert(texts(paths@) =~= self@.paths);
        paths
    }

    /// Decides what removing the instance's files does next, given how the
    /// removals made so far ended, in order. The answer names the file to
    /// remove if it exists. A file that does not exist is passed over, and
    /// one that cannot be removed does not keep the others from being
    /// tried: the answer is never an abort.
    pub fn remove_files(&self, outcomes: &Vec<RemovalOutcome>) -> (flow: Flow<String>)
        ensures
            flow@ == removal_flow(self@.paths, views(outcomes@)),
            !(flow is Aborted),
    {
        let done = outcomes.len();
        if done >= CLEANUP_FILES {
            Flow::Finished
        } else if done == 0 {
            Flow::Perform(self.socket_path.clone())
        } else if done == 1 {
            Flow::Perform(self.stdout_log_path.clone())
        } else {
            Flow::Perform(self.stderr_log_path.clone())
        }
    }

    /// Ends cleanup: hands back the instance and the errors of the removals
    /// that failed. Once all three removals have been tried the instance is
    /// terminated, whether or not any of them failed; before that its status
    /// is left as it was.
    pub fn finish(self, outcomes: &Vec<RemovalOutcome>) -> (done: (VMManager, Vec<ExecutionError>))
        ensures
            done.0@ == (VmView {
                status: status_after_cleanup(self@.instance.status, views(outcomes@)),
                ..self@.instance
            }),
            removal_flow(self@.paths, views(outcomes@)) is Finished ==> done.0@.status
                == Status::Terminated,
            views(done.1@) == removal_failures(views(outcomes@)),
    {
        let mut instance = self.instance;
        let errors = removal_errors(outcomes);
        if outcomes.len() >= CLEANUP_FILES {
            let _ = instance.record(LifecycleEvent::CleanedUp);
        }
        (instance, errors)
    }
}

impl VMManager {
    /// Says how to launch the hypervisor for this instance.
    pub fn launch(&self) -> (launch: Launch)
        ensures
            launch.command@ == launch_command(self@.vm_id),
            launch.stdout_log_path@ == stdout_log_path_of(self@.vm_id),
            launch.stderr_log_path@ == stderr_log_path_of(self@.vm_id),
    {
        let mut args: Vec<String> = Vec::new();
        assert(texts(args@) =~= Seq::<Seq<char>>::empty());
        push_text(&mut args, "--api-sock");
        push_text(&mut args, self.socket_path());
        let command = command("firecracker", args);
        assert(command@.args =~= launch_command(self@.vm_id).args);
        Launch {
            command,
            stdout_log_path: String::from_str(self.stdout_log_path()),
            stderr_log_path: String::from_str(self.stderr_log_path()),
        }
    }

    /// Decides what waiting for the hypervisor's control socket does next,
    /// given what the looks for it found so far, in order.
    pub fn await_socket(&self, seen: &Vec<bool>) -> (step: SocketStep)
        ensures
            step@ == socket_wait(self@.vm_id, seen@),
    {
        let mut attempt: u64 = 0;
        while attempt < SOCKET_WAIT_CHECKS
            invariant
                attempt <= 50,
                socket_wait(self@.vm_id, seen@) == socket_wait_from(
                    self@.vm_id,
                    seen@,
                    attempt as int,
                ),
            decreases 50 - attempt,
        {
            if attempt >= seen.len() as u64 {
                return SocketStep::Check {
                    delay_ms: SOCKET_POLL_MS,
                    path: String::from_str(self.socket_path()),
                };
            }
            if seen[attempt as usize] {
                return SocketStep::Ready;
            }
            attempt += 1;
        }
        SocketStep::GiveUp
    }

    /// Takes in how the launch of the hypervisor ended. A spawned process is
    /// owned by the instance from here on; a failed launch leaves the
    /// instance as it was and is reported.
    pub fn start_firecracker(&mut self, outcome: LaunchOutcome) -> (result: Result<
        (),
        ExecutionError,
    >)
        ensures
            match launch_error(outcome@) {
                Some(e) => result matches Err(got) && got@ == e && final(self)@ == old(self)@,
                None => result is Ok && final(self)@ == (VmView {
                    has_process: true,
                    ..old(self)@
                }),
            },
    {
        match outcome {
            LaunchOutcome::StdoutLogFailed(e) => Err(
                ExecutionError::ResourceError(join2("cannot create stdout log: ", e.as_str())),
            ),
            LaunchOutcome::StderrLogFailed(e) => Err(
                ExecutionError::ResourceError(join2("cannot create stderr log: ", e.as_str())),
            ),
            LaunchOutcome::SpawnFailed(e) => Err(
                ExecutionError::ProcessSpawnError(
                    join2("Failed to start Firecracker: ", e.as_str()),
                ),
            ),
            LaunchOutcome::Spawned(process) => {
                let _ = self.attach_process(process);
                Ok(())
            },
        }
    }

    /// Begins the guest's shutdown: builds the request that asks the guest
    /// to halt and hands out the process to wait for. The instance holds no
    /// process afterwards.
    pub fn shutdown_vm(&mut self) -> (shutdown: (GuestRequest, Option<tokio::process::Child>))
        ensures
            shutdown.0@ == (GuestRequestView {
                url: shutdown_url_of(old(self)@.vm_id),
                body: None,
                timeout_seconds: 5,
            }),
            shutdown.1.is_some() == old(self)@.has_process,
            final(self)@ == (VmView { has_process: false, ..old(self)@ }),
    {
        let request = self.shutdown_request();
        let process = self.take_process();
        (request, process)
    }

    /// Retires the instance: hands out everything that is left to reclaim,
    /// the process to kill, the link to delete and the files to remove.
    pub fn cleanup(self) -> (plan: CleanupPlan)
        ensures
            plan@ == (CleanupPlanView {
                has_process: self@.has_process,
                link_removal: delete_link_command(tap_interface_of(self@.vm_id)),
                paths: cleanup_paths(self@.vm_id),
                instance: VmView { has_process: false, ..self@ },
            }),
    {
        let mut vm = self;
        let link_removal = vm.cleanup_networking();
        let socket_path = String::from_str(vm.socket_path());
        let stdout_log_path = String::from_str(vm.stdout_log_path());
        let stderr_log_path = String::from_str(vm.stderr_log_path());
        let process = vm.take_process();
        let plan = CleanupPlan {
            process,
            link_removal,
            socket_path,
            stdout_log_path,
            stderr_log_path,
            instance: vm,
        };
        assert(plan@.paths =~= cleanup_paths(self@.vm_id));
        plan
    }
}

/// Whether what a removal reported is true of a host on which the files in
/// `present` exist: only a file that exists can be removed or resist
/// removal, and only one that does not exist is reported absent.
pub open spec fn is_truthful(present: Set<Seq<char>>, path: Seq<char>, outcome: RemovalOutcomeView) -> bool {
    match outcome {
        RemovalOutcomeView::Absent => !present.contains(path),
        _ => present.contains(path),
    }
}

/// The files that exist after a removal ended as reported.
pub open spec fn after_removal(
    present: Set<Seq<char>>,
    path: Seq<char>,
    outcome: RemovalOutcomeView,
) -> Set<Seq<char>> {
    match outcome {
        RemovalOutcomeView::Removed => present.remove(path),
        _ => present,
    }
}

/// A run of the file removals from step `step` on: how each of the steps
/// ended. The run is faithful where all three steps were tried and every
/// report is true of the host at its time.
pub open spec fn is_faithful_run(
    present: Set<Seq<char>>,
    paths: Seq<Seq<char>>,
    outcomes: Seq<RemovalOutcomeView>,
    step: int,
) -> bool
    decreases 3 - step,
{
    if step >= 3 || step < 0 {
        true
    } else if step >= outcomes.len() {
        false
    } else {
        &&& is_truthful(present, paths[step], outcomes[step])
        &&& is_faithful_run(
            after_removal(present, paths[step], outcomes[step]),
            paths,
            outcomes,
            step + 1,
        )
    }
}

/// The files that exist after a run of the file removals from step `step`
/// on.
pub open spec fn after_run(
    present: Set<Seq<char>>,
    paths: Seq<Seq<char>>,
    outcomes: Seq<RemovalOutcomeView>,
    step: int,
) -> Set<Seq<char>>
    decreases 3 - step,
{
    if step >= 3 || step < 0 || step >= outcomes.len() {
        present
    } else {
        after_run(after_removal(present, paths[step], outcomes[step]), paths, outcomes, step + 1)
    }
}

/// Cleanup is best-effort. Whatever the removals report, all three files are
/// tried and cleanup finishes; every file whose removal did not fail is
/// absent afterwards, also where the removal of another one failed; and no
/// other file is touched.
pub proof fn lemma_cleanup_is_best_effort(
    present: Set<Seq<char>>,
    paths: Seq<Seq<char>>,
    outcomes: Seq<RemovalOutcomeView>,
    step: int,
)
    requires
        0 <= step <= 3,
        paths.len() == 3,
        is_faithful_run(present, paths, outcomes, step),
    ensures
        outcomes.len() >= 3 || step == 3,
        step < 3 ==> removal_flow(paths, outcomes) is Finished,
        forall|i: int|
            step <= i < 3 && !(outcomes[i] is Failed) ==> !after_run(
                present,
                paths,
                outcomes,
                step,
            ).contains(paths[i]),
        after_run(present, paths, outcomes, step).subset_of(present),
        forall|p: Seq<char>|
            present.contains(p) && (forall|i: int| step <= i < 3 ==> paths[i] != p)
                ==> after_run(present, paths, outcomes, step).contains(p),
    decreases 3 - step,
{
    if step < 3 {
        let next = after_removal(present, paths[step], outcomes[step]);
        lemma_cleanup_is_best_effort(next, paths, outcomes, step + 1);
        assert(!(outcomes[step] is Failed) ==> !next.contains(paths[step]));
        assert(after_run(present, paths, outcomes, step) == after_run(
            next,
            paths,
            outcomes,
            step + 1,
        ));
    }
}

/// Cleanup reports exactly the removals that failed: it has no error to
/// report where none failed, and never fails on a file that is absent.
pub proof fn lemma_cleanup_reports_failures_only(outcomes: Seq<RemovalOutcomeView>, step: int)
    requires
        0 <= step,
    ensures
        removal_failures_from(outcomes, step).len() == 0 <==> (forall|i: int|
            step <= i < outcomes.len() && i < 3 ==> !(#[trigger] outcomes[i] is Failed)),
    decreases 3 - step,
{
    if step < 3 && step < outcomes.len() {
        lemma_cleanup_reports_failures_only(outcomes, step + 1);
        if outcomes[step] is Failed {
            assert(removal_failures_from(outcomes, step).len() > 0);
        } else {
            assert(removal_failures_from(outcomes, step) == removal_failures_from(
                outcomes,
                step + 1,
            ));
            if removal_failures_from(outcomes, step).len() == 0 {
                assert forall|i: int| step <= i < outcomes.len() && i < 3 implies !(
                #[trigger] outcomes[i] is Failed) by {
                    if i > step {
                        assert(step + 1 <= i);
                    }
                }
            }
        }
    }
}

/// Cleanup is idempotent: on a host where a cleanup has removed what was
/// there, a second cleanup finds every file absent, has no error to report,
/// and changes nothing.
pub proof fn lemma_cleanup_idempotent(
    present: Set<Seq<char>>,
    paths: Seq<Seq<char>>,
    first: Seq<RemovalOutcomeView>,
    second: Seq<RemovalOutcomeView>,
)
    requires
        paths.len() == 3,
        is_faithful_run(present, paths, first, 0),
        removal_failures(first).len() == 0,
        is_faithful_run(after_run(present, paths, first, 0), paths, second, 0),
    ensures
        forall|i: int| 0 <= i < 3 ==> second[i] is Absent,
        removal_flow(paths, second) is Finished,
        removal_failures(second).len() == 0,
        after_run(after_run(present, paths, first, 0), paths, second, 0) == after_run(
            present,
            paths,
            first,
            0,
        ),
{
    lemma_cleanup_reports_failures_only(first, 0);
    lemma_cleanup_is_best_effort(present, paths, first, 0);
    let clean = after_run(present, paths, first, 0);
    assert(!(first[0] is Failed) && !(first[1] is Failed) && !(first[2] is Failed));
    assert(!clean.contains(paths[0]));
    assert(!clean.contains(paths[1]));
    assert(!clean.contains(paths[2]));
    assert(second.len() > 0);
    assert(second[0] is Absent);
    assert(after_removal(clean, paths[0], second[0]) == clean);
    assert(is_faithful_run(clean, paths, second, 1));
    assert(second[1] is Absent);
    assert(after_removal(clean, paths[1], second[1]) == clean);
    assert(is_faithful_run(clean, paths, second, 2));
    assert(second[2] is Absent);
    assert(after_removal(clean, paths[2], second[2]) == clean);
    assert(after_run(clean, paths, second, 3) == clean);
    assert(after_run(clean, paths, second, 2) == clean);
    assert(after_run(clean, paths, second, 1) == clean);
    lemma_cleanup_reports_failures_only(second, 0);
}

/// The wait for the control socket never hangs: after 50 looks that found
/// nothing it is given up, whatever is reported after them.
pub proof fn lemma_socket_wait_is_bounded(id: Seq<char>, seen: Seq<bool>, attempt: int)
    requires
        0 <= attempt <= 50,
        seen.len() >= 50,
        forall|i: int| attempt <= i < 50 ==> !seen[i],
    ensures
        socket_wait_from(id, seen, attempt) == SocketStepView::GiveUp,
    decreases 50 - attempt,
{
    if attempt < 50 {
        lemma_socket_wait_is_bounded(id, seen, attempt + 1);
    }
}

} // verus!
