//! The readiness prober: when to check the guest's health, how long to wait
//! between checks, and when to give up.
use vstd::prelude::*;
use vstd::string::*;
use crate::control::{is_success_code, HttpStatus};
use crate::identity::guest_ip_of;
use crate::plan::views;
use crate::runner::VMManager;
use crate::text::join3;
use crate::{ErrorView, ExecutionError};

verus! {

/// Seconds the guest is nominally given to boot.
pub const VM_BOOT_TIMEOUT_SECONDS: u64 = 15;

/// Number of health checks after which the prober gives up: ten for every
/// second of the nominal boot time.
pub const MAX_HEALTH_CHECKS: u64 = VM_BOOT_TIMEOUT_SECONDS * 10;

/// Milliseconds waited before the second health check.
pub const INITIAL_DELAY_MS: u64 = 100;

/// The longest wait between two health checks, in milliseconds.
pub const MAX_DELAY_MS: u64 = 1000;

/// Milliseconds one health check may take before it counts as failed.
pub const HEALTH_CHECK_TIMEOUT_MS: u64 = 2000;

/// The wait, in milliseconds, that follows the `failures`-th failed check:
/// nothing before the first check, then 100, doubled after every further
/// failure, and never more than 1000.
pub open spec fn backoff_delay(failures: nat) -> nat
    decreases failures,
{
    if failures == 0 {
        0
    } else if failures == 1 {
        100
    } else if 2 * backoff_delay((failures - 1) as nat) < 1000 {
        2 * backoff_delay((failures - 1) as nat)
    } else {
        1000
    }
}

/// The total wait scheduled after `failures` failed checks.
pub open spec fn scheduled_wait(failures: nat) -> nat
    decreases failures,
{
    if failures == 0 {
        0
    } else {
        scheduled_wait((failures - 1) as nat) + backoff_delay(failures)
    }
}

/// How one health check ended.
#[derive(Debug)]
pub enum HealthReply {
    /// The guest answered with this status.
    Answered(HttpStatus),
    /// No answer came in time; the error's text.
    Unreachable(String),
}

/// A health check's end as contracts see it.
pub enum HealthReplyView {
    Answered(u16),
    Unreachable(Seq<char>),
}

impl View for HealthReply {
    type V = HealthReplyView;

    open spec fn view(&self) -> HealthReplyView {
        match self {
            HealthReply::Answered(status) => HealthReplyView::Answered(status@),
            HealthReply::Unreachable(e) => HealthReplyView::Unreachable(e@),
        }
    }
}

/// Whether a health check found the guest ready: it answered with a success
/// status.
pub open spec fn is_ready(reply: HealthReplyView) -> bool {
    match reply {
        HealthReplyView::Answered(code) => is_success_code(code),
        HealthReplyView::Unreachable(_) => false,
    }
}

/// What the prober does next.
#[derive(Debug)]
pub enum ProbeStep {
    /// Wait `delay_ms`, then check the guest's health at `url`.
    Check { delay_ms: u64, url: String },
    /// The guest is ready.
    Ready,
    /// Wait `delay_ms`, then give up: the guest did not become ready.
    GiveUp { delay_ms: u64 },
}

/// The prober's answer as contracts see it.
pub enum ProbeStepView {
    Check { delay_ms: nat, url: Seq<char> },
    Ready,
    GiveUp { delay_ms: nat },
}

impl View for ProbeStep {
    type V = ProbeStepView;

    open spec fn view(&self) -> ProbeStepView {
        match self {
            ProbeStep::Check { delay_ms, url } => ProbeStepView::Check {
                delay_ms: *delay_ms as nat,
                url: url@,
            },
            ProbeStep::Ready => ProbeStepView::Ready,
            ProbeStep::GiveUp { delay_ms } => ProbeStepView::GiveUp { delay_ms: *delay_ms as nat },
        }
    }
}

/// The address of the guest's health check.
pub open spec fn health_url_of(id: Seq<char>) -> Seq<char> {
    "http://"@ + guest_ip_of(id) + ":8080/health"@
}

/// What the prober does next, from check number `attempt` on (counted from
/// zero), given how the checks made so far ended: the first check that found
/// the guest ready ends probing; after 150 failed checks the prober gives
/// up; otherwise the next check is due after the wait that the number of
/// failures calls for.
pub open spec fn probe_from(id: Seq<char>, replies: Seq<HealthReplyView>, attempt: int) -> ProbeStepView
    decreases 150 - attempt,
{
    if attempt >= 150 {
        ProbeStepView::GiveUp { delay_ms: backoff_delay(150) }
    } else if attempt >= replies.len() || attempt < 0 {
        ProbeStepView::Check { delay_ms: backoff_delay(attempt as nat), url: health_url_of(id) }
    } else if is_ready(replies[attempt]) {
        ProbeStepView::Ready
    } else {
        probe_from(id, replies, attempt + 1)
    }
}

/// What the prober does next given how the checks made so far ended.
pub open spec fn probe(id: Seq<char>, replies: Seq<HealthReplyView>) -> ProbeStepView {
    probe_from(id, replies, 0)
}

/// Once the wait has reached its cap it stays there.
pub proof fn lemma_backoff_capped(from: nat, to: nat)
    requires
        1 <= from <= to,
        backoff_delay(from) == 1000,
    ensures
        backoff_delay(to) == 1000,
    decreases to - from,
{
    if from < to {
        lemma_backoff_capped(from, (to - 1) as nat);
    }
}

/// The wait is never longer than the cap.
pub proof fn lemma_backoff_bounded(failures: nat)
    ensures
        backoff_delay(failures) <= 1000,
    decreases failures,
{
    if failures > 1 {
        lemma_backoff_bounded((failures - 1) as nat);
    }
}

/// Computes the wait that follows the `failures`-th failed check.
pub fn backoff_delay_ms(failures: u64) -> (delay: u64)
    ensures
        delay == backoff_delay(failures as nat),
        delay <= MAX_DELAY_MS,
{
    if failures == 0 {
        return 0;
    }
    let mut delay: u64 = INITIAL_DELAY_MS;
    let mut k: u64 = 1;
    while k < failures && delay < MAX_DELAY_MS
        invariant
            1 <= k <= failures,
            delay == backoff_delay(k as nat),
            delay <= 1000,
        decreases failures - k,
    {
        delay = if delay * 2 < MAX_DELAY_MS {
            delay * 2
        } else {
            MAX_DELAY_MS
        };
        k += 1;
    }
    proof {
        if k < failures {
            lemma_backoff_capped(k as nat, failures as nat);
        }
    }
    delay
}

/// Whether a health check found the guest ready.
pub fn health_check_passed(reply: &HealthReply) -> (ready: bool)
    ensures
        ready == is_ready(reply@),
{
    match reply {
        HealthReply::Answered(status) => status.is_success(),
        HealthReply::Unreachable(_) => false,
    }
}

/// The text that stands for a log in the timeout's diagnosis: the log's
/// contents, or a note that it could not be read.
pub open spec fn log_text(stream: Seq<char>, log: Result<Seq<char>, Seq<char>>) -> Seq<char> {
    match log {
        Ok(contents) => contents,
        Err(e) => "Failed to read "@ + stream + " log: "@ + e,
    }
}

/// The diagnosis attached to a boot timeout: which guest did not become
/// ready, and both hypervisor logs in full.
pub open spec fn boot_timeout_details(
    id: Seq<char>,
    stdout_log: Result<Seq<char>, Seq<char>>,
    stderr_log: Result<Seq<char>, Seq<char>>,
) -> Seq<char> {
    "VM API server at "@ + guest_ip_of(id) + " did not become ready within 15 seconds"@
        + "\n\nFirecracker stdout:\n"@ + log_text("stdout"@, stdout_log)
        + "\n\nFirecracker stderr:\n"@ + log_text("stderr"@, stderr_log)
}

/// The view of a log that was read, or of the error met while reading it.
pub open spec fn log_view(log: Result<String, String>) -> Result<Seq<char>, Seq<char>> {
    match log {
        Ok(contents) => Ok(contents@),
        Err(e) => Err(e@),
    }
}

fn log_or_note(stream: &str, log: &Result<String, String>) -> (text: String)
    ensures
        text@ == log_text(stream@, log_view(*log)),
{
    match log {
        Ok(contents) => contents.clone(),
        Err(e) => {
            let mut note = join3("Failed to read ", stream, " log: ");
            note.append(e.as_str());
            note
        },
    }
}

impl VMManager {
    /// The address of the guest's health check.
    pub fn health_url(&self) -> (url: String)
        ensures
            url@ == health_url_of(self@.vm_id),
    {
        join3("http://", self.vm_ip(), ":8080/health")
    }

    /// Decides what the readiness prober does next, given how the health
    /// checks made so far ended, in order.
    pub fn wait_for_api_server(&self, replies: &Vec<HealthReply>) -> (step: ProbeStep)
        ensures
            step@ == probe(self@.vm_id, views(replies@)),
    {
        let mut attempt: u64 = 0;
        while attempt < MAX_HEALTH_CHECKS
            invariant
                attempt <= 150,
                probe(self@.vm_id, views(replies@)) == probe_from(
                    self@.vm_id,
                    views(replies@),
                    attempt as int,
                ),
            decreases 150 - attempt,
        {
            if attempt >= replies.len() as u64 {
                return ProbeStep::Check {
                    delay_ms: backoff_delay_ms(attempt),
                    url: self.health_url(),
                };
            }
            assert(views(replies@)[attempt as int] == replies@[attempt as int]@);
            if health_check_passed(&replies[attempt as usize]) {
                return ProbeStep::Ready;
            }
            attempt += 1;
        }
        ProbeStep::GiveUp { delay_ms: backoff_delay_ms(MAX_HEALTH_CHECKS) }
    }

    /// Builds the error that ends probing when the guest did not become
    /// ready. Each log is given as its contents or as the error met while
    /// reading it.
    pub fn boot_timeout_error(
        &self,
        stdout_log: &Result<String, String>,
        stderr_log: &Result<String, String>,
    ) -> (error: ExecutionError)
        ensures
            error@ == ErrorView::TimeoutErrorWithLogs(
                boot_timeout_details(self@.vm_id, log_view(*stdout_log), log_view(*stderr_log)),
            ),
    {
        let out = log_or_note("stdout", stdout_log);
        let err = log_or_note("stderr", stderr_log);
        let mut details = join3(
            "VM API server at ",
            self.vm_ip(),
            " did not become ready within 15 seconds",
        );
        details.append("\n\nFirecracker stdout:\n");
        details.append(out.as_str());
        details.append("\n\nFirecracker stderr:\n");
        details.append(err.as_str());
        ExecutionError::TimeoutErrorWithLogs(details)
    }
}

/// The longest a guest is waited for, in milliseconds: 150 health checks of
/// at most two seconds each and the waits scheduled between them.
pub const BOOT_DEADLINE_MS: u64 = 447500;

/// From the fifth failure on, every wait is the cap, and the waits add up
/// accordingly.
pub proof fn lemma_schedule(failures: nat)
    requires
        failures >= 5,
    ensures
        backoff_delay(failures) == 1000,
        scheduled_wait(failures) == 1500 + 1000 * (failures - 4),
    decreases failures,
{
    if failures == 5 {
        assert(backoff_delay(1) == 100);
        assert(backoff_delay(2) == 200);
        assert(backoff_delay(3) == 400);
        assert(backoff_delay(4) == 800);
        assert(backoff_delay(5) == 1000);
        assert(scheduled_wait(0) == 0);
        assert(scheduled_wait(1) == 100);
        assert(scheduled_wait(2) == 300);
        assert(scheduled_wait(3) == 700);
        assert(scheduled_wait(4) == 1500);
        assert(scheduled_wait(5) == 2500);
    } else {
        lemma_schedule((failures - 1) as nat);
    }
}

/// The waits scheduled after any number of failures add up to no more than
/// the cap for each.
pub proof fn lemma_scheduled_wait_bounded(failures: nat)
    ensures
        scheduled_wait(failures) <= 1000 * failures,
    decreases failures,
{
    if failures > 0 {
        lemma_scheduled_wait_bounded((failures - 1) as nat);
        lemma_backoff_bounded(failures);
    }
}

/// The prober never hangs. Where no check finds the guest ready, it gives up
/// after 150 checks, however many replies it is shown; and up to then the
/// checks and the waits between them take no longer than the boot deadline.
pub proof fn lemma_probe_gives_up(id: Seq<char>, replies: Seq<HealthReplyView>, attempt: int)
    requires
        0 <= attempt <= 150,
        replies.len() >= 150,
        forall|i: int| attempt <= i < 150 ==> !is_ready(#[trigger] replies[i]),
    ensures
        probe_from(id, replies, attempt) == (ProbeStepView::GiveUp { delay_ms: 1000 }),
        150 * HEALTH_CHECK_TIMEOUT_MS + scheduled_wait(150) == BOOT_DEADLINE_MS,
    decreases 150 - attempt,
{
    lemma_schedule(150);
    if attempt < 150 {
        lemma_probe_gives_up(id, replies, attempt + 1);
    }
}

/// The prober reports readiness only on the strength of a check that found
/// the guest ready, and never asks for a check after such a one.
pub proof fn lemma_ready_needs_a_passed_check(id: Seq<char>, replies: Seq<HealthReplyView>, attempt: int)
    requires
        0 <= attempt,
    ensures
        probe_from(id, replies, attempt) is Ready ==> exists|i: int|
            attempt <= i < replies.len() && i < 150 && is_ready(#[trigger] replies[i]),
        (forall|i: int| attempt <= i < replies.len() && i < 150 ==> !is_ready(#[trigger] replies[i]))
            ==> !(probe_from(id, replies, attempt) is Ready),
        (exists|i: int| attempt <= i < replies.len() && i < 150 && is_ready(#[trigger] replies[i]))
            ==> probe_from(id, replies, attempt) is Ready,
    decreases 150 - attempt,
{
    if attempt < 150 && attempt < replies.len() {
        lemma_ready_needs_a_passed_check(id, replies, attempt + 1);
        if !is_ready(replies[attempt]) {
            if exists|i: int|
                attempt <= i < replies.len() && i < 150 && is_ready(#[trigger] replies[i]) {
                let i = choose|i: int|
                    attempt <= i < replies.len() && i < 150 && is_ready(#[trigger] replies[i]);
                assert(attempt + 1 <= i);
            }
        }
    }
}

} // verus!
