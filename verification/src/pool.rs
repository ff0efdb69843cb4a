//! The instance pool: a bounded queue of warm instances that are ready for
//! work, and the rules by which instances leave and re-enter it.
use std::collections::VecDeque;
use vstd::prelude::*;
use vstd::string::*;
use crate::channel::{
    exchange_outcome, exchange_result, execution_outcome, execution_result, file_view,
    outcome_matches, GuestReply,
};
use crate::identity::{is_vm_id, tap_interface_of};
use crate::plan::{texts, views, Flow, FlowView};
use crate::probe::{
    boot_timeout_details, is_ready, lemma_probe_gives_up, probe, HealthReplyView, ProbeStepView,
};
use crate::runner::{next_status, LifecycleEvent, Status, VMManager, VmView};
use crate::{ErrorView, ExecuteResponse, ExecutionError};

verus! {

/// Number of instances the pool keeps at most.
pub const VM_POOL_SIZE: usize = 3;

/// Number of instances to build ahead of the first request.
pub const VM_PREWARM_COUNT: usize = 2;

/// Whether a queue of instances is a pool within `limit`: no more than
/// `limit` members, every one of them ready.
pub open spec fn is_pool(members: Seq<VmView>, limit: nat) -> bool {
    &&& members.len() <= limit
    &&& forall|i: int| 0 <= i < members.len() ==> (#[trigger] members[i]).status == Status::Ready
}

/// Whether an instance that comes back from an execution is kept: the
/// execution succeeded, the pool has room, and the instance was busy.
pub open spec fn is_kept(members: Seq<VmView>, limit: nat, vm: VmView, succeeded: bool) -> bool {
    succeeded && members.len() < limit && vm.status == Status::Busy
}

/// The pool after an instance came back: with the instance, ready again, at
/// its end where the instance is kept, unchanged where it is not.
pub open spec fn after_checkin(members: Seq<VmView>, limit: nat, vm: VmView, succeeded: bool) -> Seq<
    VmView,
> {
    if is_kept(members, limit, vm, succeeded) {
        members.push(VmView { status: Status::Ready, ..vm })
    } else {
        members
    }
}

/// The status with which an instance that is not kept goes to retirement: a
/// failed execution marks it failed, a successful one leaves it as it is.
pub open spec fn retiring_status(status: Status, succeeded: bool) -> Status {
    if succeeded {
        status
    } else {
        match next_status(status, LifecycleEvent::StepFailed) {
            Some(next) => next,
            None => status,
        }
    }
}

/// The instance to retire after an instance came back, if any.
pub open spec fn to_retire(members: Seq<VmView>, limit: nat, vm: VmView, succeeded: bool) -> Option<
    VmView,
> {
    if is_kept(members, limit, vm, succeeded) {
        None
    } else {
        Some(VmView { status: retiring_status(vm.status, succeeded), ..vm })
    }
}

/// The instance that a checkout hands out: the pool's first member, now
/// busy.
pub open spec fn checked_out(members: Seq<VmView>) -> Option<VmView> {
    if members.len() > 0 {
        Some(VmView { status: Status::Busy, ..members[0] })
    } else {
        None
    }
}

/// The pool after a checkout: without its first member.
pub open spec fn after_checkout(members: Seq<VmView>) -> Seq<VmView> {
    if members.len() > 0 {
        members.drop_first()
    } else {
        members
    }
}

/// The instance that an execution is bound to.
pub enum Checkout {
    /// A warm instance from the pool, busy from here on.
    Pooled(VMManager),
    /// A new instance, because the pool had none: it is yet to be built.
    Fresh(VMManager),
}

/// A bounded queue of ready instances.
pub struct VmPool {
    queue: VecDeque<VMManager>,
    limit: usize,
}

impl View for VmPool {
    type V = Seq<VmView>;

    closed spec fn view(&self) -> Seq<VmView> {
        views(self.queue@)
    }
}

impl VmPool {
    /// The most instances the pool keeps.
    pub closed spec fn limit(&self) -> nat {
        self.limit as nat
    }

    #[verifier::type_invariant]
    spec fn well_formed(self) -> bool {
        is_pool(views(self.queue@), self.limit as nat)
    }

    /// An empty pool of the standard size.
    pub fn new() -> (pool: VmPool)
        ensures
            pool@.len() == 0,
            pool.limit() == VM_POOL_SIZE,
    {
        VmPool::with_limit(VM_POOL_SIZE)
    }

    /// An empty pool that keeps at most `limit` instances. With a limit of
    /// zero no instance is ever kept: every instance serves one execution
    /// and is retired.
    pub fn with_limit(limit: usize) -> (pool: VmPool)
        ensures
            pool@.len() == 0,
            pool.limit() == limit,
    {
        let queue: VecDeque<VMManager> = VecDeque::new();
        assert(views(queue@) =~= Seq::<VmView>::empty());
        VmPool { queue, limit }
    }

    /// The number of pooled instances. It never exceeds the limit.
    pub fn len(&self) -> (n: usize)
        ensures
            n == self@.len(),
            n <= self.limit(),
            is_pool(self@, self.limit()),
    {
        proof {
            use_type_invariant(self);
        }
        self.queue.len()
    }

    /// The most instances the pool keeps.
    pub fn capacity(&self) -> (limit: usize)
        ensures
            limit == self.limit(),
    {
        self.limit
    }

    /// The link names of the pooled instances, in the pool's order.
    pub fn active_interfaces(&self) -> (names: Vec<String>)
        ensures
            texts(names@) == Seq::new(self@.len(), |i: int| tap_interface_of(self@[i].vm_id)),
    {
        let ghost want = Seq::new(self@.len(), |i: int| tap_interface_of(self@[i].vm_id));
        let mut names: Vec<String> = Vec::new();
        let mut i: usize = 0;
        while i < self.queue.len()
            invariant
                i <= self.queue@.len(),
                self@ == views(self.queue@),
                want == Seq::new(self@.len(), |i: int| tap_interface_of(self@[i].vm_id)),
                texts(names@) == want.subrange(0, i as int),
            decreases self.queue@.len() - i,
        {
            let name = String::from_str(self.queue[i].tap_interface());
            assert(self@[i as int] == self.queue@[i as int]@);
            let ghost before = texts(names@);
            names.push(name);
            assert(texts(names@) =~= before.push(name@));
            assert(texts(names@) =~= want.subrange(0, i + 1));
            i += 1;
        }
        assert(want.subrange(0, i as int) =~= want);
        names
    }

    /// Takes the first pooled instance, if there is one, and binds it to an
    /// execution: it leaves the pool and is busy from here on.
    pub fn checkout(&mut self) -> (vm: Option<VMManager>)
        ensures
            match checked_out(old(self)@) {
                Some(v) => vm matches Some(got) && got@ == v,
                None => vm.is_none(),
            },
            final(self)@ == after_checkout(old(self)@),
            final(self).limit() == old(self).limit(),
            is_pool(final(self)@, final(self).limit()),
    {
        proof {
            use_type_invariant(&*self);
        }
        let mut queue: VecDeque<VMManager> = VecDeque::new();
        assert(views(queue@) =~= Seq::<VmView>::empty());
        core::mem::swap(&mut self.queue, &mut queue);
        let ghost before = views(queue@);
        let first = queue.pop_front();
        proof {
            if before.len() > 0 {
                assert(views(queue@) =~= before.drop_first());
                assert(first.unwrap()@ == before[0]);
            } else {
                assert(views(queue@) =~= before);
            }
        }
        core::mem::swap(&mut self.queue, &mut queue);
        match first {
            Some(mut vm) => {
                let bound = vm.record(LifecycleEvent::CheckedOut);
                assert(bound);
                Some(vm)
            },
            None => None,
        }
    }

    /// Binds an instance to an execution: the first pooled instance where
    /// there is one, a new one where there is none.
    pub fn checkout_or_create(&mut self) -> (bound: Checkout)
        ensures
            match checked_out(old(self)@) {
                Some(v) => bound matches Checkout::Pooled(got) && got@ == v,
                None => bound matches Checkout::Fresh(got) && is_vm_id(got@.vm_id) && got@.status
                    == Status::Created && !got@.has_process,
            },
            final(self)@ == after_checkout(old(self)@),
            final(self).limit() == old(self).limit(),
            is_pool(final(self)@, final(self).limit()),
    {
        match self.checkout() {
            Some(vm) => Checkout::Pooled(vm),
            None => Checkout::Fresh(create_new_vm()),
        }
    }

    /// Takes back an instance after an execution. Where the execution
    /// succeeded, the pool has room and the instance was busy, the instance
    /// becomes ready and joins the pool's end. In every other case the pool
    /// stays as it is and the instance is handed back for retirement.
    pub fn checkin(&mut self, vm: VMManager, succeeded: bool) -> (retire: Option<VMManager>)
        ensures
            final(self)@ == after_checkin(old(self)@, old(self).limit(), vm@, succeeded),
            match to_retire(old(self)@, old(self).limit(), vm@, succeeded) {
                Some(v) => retire matches Some(got) && got@ == v,
                None => retire.is_none(),
            },
            final(self).limit() == old(self).limit(),
            is_pool(final(self)@, final(self).limit()),
    {
        proof {
            use_type_invariant(&*self);
        }
        let mut vm = vm;
        if !succeeded {
            let _ = vm.record(LifecycleEvent::StepFailed);
            return Some(vm);
        }
        if self.queue.len() >= self.limit {
            return Some(vm);
        }
        match vm.status() {
            Status::Busy => {},
            _ => {
                return Some(vm);
            },
        }
        let kept = vm.record(LifecycleEvent::CheckedIn);
        assert(kept);
        let mut queue: VecDeque<VMManager> = VecDeque::new();
        assert(views(queue@) =~= Seq::<VmView>::empty());
        core::mem::swap(&mut self.queue, &mut queue);
        let ghost before = views(queue@);
        queue.push_back(vm);
        assert(views(queue@) =~= before.push(vm@));
        core::mem::swap(&mut self.queue, &mut queue);
        None
    }

    /// Empties the pool and hands out its instances, in the pool's order,
    /// for retirement.
    pub fn drain(&mut self) -> (drained: Vec<VMManager>)
        ensures
            views(drained@) == old(self)@,
            final(self)@.len() == 0,
            final(self).limit() == old(self).limit(),
    {
        let mut queue: VecDeque<VMManager> = VecDeque::new();
        assert(views(queue@) =~= Seq::<VmView>::empty());
        core::mem::swap(&mut self.queue, &mut queue);
        let ghost all = views(queue@);
        let ghost limit = self.limit;
        let mut drained: Vec<VMManager> = Vec::new();
        assert(views(drained@) + views(queue@) =~= all);
        loop
            invariant
                views(drained@) + views(queue@) == all,
                all == old(self)@,
                self.queue@.len() == 0,
                self.limit == limit,
                limit == old(self).limit,
            decreases queue@.len(),
        {
            let ghost rest = views(queue@);
            let ghost done = views(drained@);
            match queue.pop_front() {
                Some(vm) => {
                    drained.push(vm);
                    assert(views(drained@) =~= done.push(rest[0]));
                    assert(views(queue@) =~= rest.drop_first());
                    assert(views(drained@) + views(queue@) =~= done + rest);
                },
                None => {
                    assert(views(drained@) =~= done + rest);
                    return drained;
                },
            }
        }
    }
}

/// Allocates the instance that is built when the pool has none to offer. It
/// is yet to be provisioned, launched, configured and probed.
pub fn create_new_vm() -> (vm: VMManager)
    ensures
        is_vm_id(vm@.vm_id),
        vm@.status == Status::Created,
        !vm@.has_process,
{
    VMManager::new()
}

/// Ends one execution with the outcome its channel gave: checks the instance
/// in if the channel succeeded, hands it back for retirement if it did not,
/// and passes the outcome on unchanged.
pub fn settle(
    pool: &mut VmPool,
    vm: VMManager,
    outcome: Result<ExecuteResponse, ExecutionError>,
) -> (ended: (Result<ExecuteResponse, ExecutionError>, Option<VMManager>))
    ensures
        ended.0 == outcome,
        final(pool)@ == after_checkin(old(pool)@, old(pool).limit(), vm@, outcome is Ok),
        match to_retire(old(pool)@, old(pool).limit(), vm@, outcome is Ok) {
            Some(v) => ended.1 matches Some(got) && got@ == v,
            None => ended.1.is_none(),
        },
        final(pool).limit() == old(pool).limit(),
        is_pool(final(pool)@, final(pool).limit()),
{
    let succeeded = outcome.is_ok();
    let retire = pool.checkin(vm, succeeded);
    (outcome, retire)
}

/// Ends one execution over the guest's agent: turns the agent's reply into
/// the execution's outcome and checks the instance in accordingly. The
/// outcome is what the channel gave, unchanged; the instance handed back, if
/// any, is to be retired.
pub fn run_in_vm(pool: &mut VmPool, vm: VMManager, reply: &GuestReply) -> (ended: (
    Result<ExecuteResponse, ExecutionError>,
    Option<VMManager>,
))
    ensures
        outcome_matches(ended.0, execution_outcome(reply@)),
        final(pool)@ == after_checkin(old(pool)@, old(pool).limit(), vm@, ended.0 is Ok),
        match to_retire(old(pool)@, old(pool).limit(), vm@, ended.0 is Ok) {
            Some(v) => ended.1 matches Some(got) && got@ == v,
            None => ended.1.is_none(),
        },
        final(pool).limit() == old(pool).limit(),
        is_pool(final(pool)@, final(pool).limit()),
{
    settle(pool, vm, execution_result(reply))
}

/// Ends one execution over a shared block exchange: turns the result files
/// the guest left into the execution's result and checks the instance in.
/// Reading the files cannot fail the channel, so the outcome is never an
/// error: a guest that left no file is a failed execution.
pub fn run_in_vm_exchange(
    pool: &mut VmPool,
    vm: VMManager,
    stdout: Option<String>,
    stderr: Option<String>,
) -> (ended: (Result<ExecuteResponse, ExecutionError>, Option<VMManager>))
    ensures
        ended.0 matches Ok(response) && response@ == exchange_outcome(
            file_view(stdout),
            file_view(stderr),
        ),
        final(pool)@ == after_checkin(old(pool)@, old(pool).limit(), vm@, true),
        match to_retire(old(pool)@, old(pool).limit(), vm@, true) {
            Some(v) => ended.1 matches Some(got) && got@ == v,
            None => ended.1.is_none(),
        },
        final(pool).limit() == old(pool).limit(),
        is_pool(final(pool)@, final(pool).limit()),
{
    settle(pool, vm, Ok(exchange_result(stdout, stderr)))
}

/// One step of building an instance.
#[derive(Debug, Clone, Copy, PartialEq, Eq, Structural)]
pub enum BuildAction {
    /// Provision the network link.
    Provision,
    /// Launch the hypervisor.
    Launch,
    /// Wait for the hypervisor's control socket.
    AwaitSocket,
    /// Configure and start the guest.
    Configure,
    /// Probe the guest until it is ready.
    Probe,
}

impl View for BuildAction {
    type V = BuildAction;

    open spec fn view(&self) -> BuildAction {
        *self
    }
}

/// The build step that follows `finished` finished steps: provision, launch,
/// await the socket, configure, probe.
pub open spec fn build_action(finished: nat) -> BuildAction {
    if finished == 0 {
        BuildAction::Provision
    } else if finished == 1 {
        BuildAction::Launch
    } else if finished == 2 {
        BuildAction::AwaitSocket
    } else if finished == 3 {
        BuildAction::Configure
    } else {
        BuildAction::Probe
    }
}

/// What a build does next after `finished` steps have finished, the last
/// step tried having failed with `failed` or not at all: the first error
/// ends the build and is handed on unchanged; without an error the steps
/// follow each other in their order, and after the fifth the build is
/// finished.
pub open spec fn build_flow(finished: nat, failed: Option<ErrorView>) -> FlowView<BuildAction> {
    match failed {
        Some(e) => FlowView::Aborted(e),
        None => if finished >= 5 {
            FlowView::Finished
        } else {
            FlowView::Perform(build_action(finished))
        },
    }
}

/// The view of an error that may have occurred.
pub open spec fn failure_view(failed: Option<ExecutionError>) -> Option<ErrorView> {
    match failed {
        Some(e) => Some(e@),
        None => None,
    }
}

/// The lifecycle event that the end of a build step amounts to, if any.
pub open spec fn build_event(action: BuildAction) -> Option<LifecycleEvent> {
    match action {
        BuildAction::Provision => Some(LifecycleEvent::NetworkProvisioned),
        BuildAction::Launch => Some(LifecycleEvent::ProcessSpawned),
        BuildAction::Probe => Some(LifecycleEvent::BecameReady),
        _ => None,
    }
}

/// Decides what a build does next.
pub fn build_step(finished: usize, failed: Option<ExecutionError>) -> (next: Flow<BuildAction>)
    ensures
        next@ == build_flow(finished as nat, failure_view(failed)),
{
    match failed {
        Some(e) => Flow::Aborted(e),
        None => {
            if finished >= 5 {
                Flow::Finished
            } else if finished == 0 {
                Flow::Perform(BuildAction::Provision)
            } else if finished == 1 {
                Flow::Perform(BuildAction::Launch)
            } else if finished == 2 {
                Flow::Perform(BuildAction::AwaitSocket)
            } else if finished == 3 {
                Flow::Perform(BuildAction::Configure)
            } else {
                Flow::Perform(BuildAction::Probe)
            }
        },
    }
}

/// Says which lifecycle event the end of a build step amounts to, if any.
pub fn build_step_event(action: BuildAction) -> (event: Option<LifecycleEvent>)
    ensures
        event == build_event(action),
{
    match action {
        BuildAction::Provision => Some(LifecycleEvent::NetworkProvisioned),
        BuildAction::Launch => Some(LifecycleEvent::ProcessSpawned),
        BuildAction::Probe => Some(LifecycleEvent::BecameReady),
        _ => None,
    }
}

/// The status of an instance on which the first `finished` build steps have
/// finished.
pub open spec fn status_after_build(finished: nat) -> Status {
    if finished == 0 {
        Status::Created
    } else if finished == 1 {
        Status::NetworkReady
    } else if finished < 5 {
        Status::Booting
    } else {
        Status::Ready
    }
}

/// A build that runs its steps in order takes the instance through its
/// lifecycle: each step's event is allowed where the step stands, and an
/// instance whose five steps have finished is ready. A build whose steps
/// are not all finished never is.
pub proof fn lemma_build_reaches_ready(finished: nat)
    requires
        finished < 5,
    ensures
        match build_event(build_action(finished)) {
            Some(event) => next_status(status_after_build(finished), event) == Some(
                status_after_build(finished + 1),
            ),
            None => status_after_build(finished + 1) == status_after_build(finished),
        },
        status_after_build(finished) != Status::Ready,
        status_after_build(5) == Status::Ready,
        build_flow(5, None) is Finished,
{
}

/// Once a step has failed nothing further is performed: the build ends
/// with that step's error, whatever the number of steps that finished
/// before it. A guest that never becomes ready is thus never handed code.
pub proof fn lemma_failed_build_performs_nothing(finished: nat, error: ErrorView)
    ensures
        build_flow(finished, Some(error)) == FlowView::<BuildAction>::Aborted(error),
        !(build_flow(finished, Some(error)) is Perform),
        !(build_flow(finished, Some(error)) is Finished),
{
}

/// A guest that never becomes ready fails the run with the prober's error
/// and nothing else happens: the prober gives up after its 150 checks, the
/// build ends with the boot timeout unchanged, no further step is
/// performed, and a pool that was empty is still empty.
pub proof fn lemma_unready_guest_fails_the_run(
    id: Seq<char>,
    replies: Seq<HealthReplyView>,
    stdout_log: Result<Seq<char>, Seq<char>>,
    stderr_log: Result<Seq<char>, Seq<char>>,
)
    requires
        replies.len() >= 150,
        forall|i: int| 0 <= i < 150 ==> !is_ready(#[trigger] replies[i]),
    ensures
        probe(id, replies) == (ProbeStepView::GiveUp { delay_ms: 1000 }),
        build_flow(
            4,
            Some(ErrorView::TimeoutErrorWithLogs(boot_timeout_details(id, stdout_log, stderr_log))),
        ) == FlowView::<BuildAction>::Aborted(
            ErrorView::TimeoutErrorWithLogs(boot_timeout_details(id, stdout_log, stderr_log)),
        ),
        checked_out(Seq::<VmView>::empty()) is None,
        after_checkout(Seq::<VmView>::empty()) == Seq::<VmView>::empty(),
{
    lemma_probe_gives_up(id, replies, 0);
}

/// One operation on the pool.
pub enum PoolOp {
    /// An instance is taken out for an execution.
    Checkout,
    /// An instance comes back from an execution that succeeded or did not.
    Checkin(VmView, bool),
}

/// The pool after one operation.
pub open spec fn after_op(members: Seq<VmView>, limit: nat, op: PoolOp) -> Seq<VmView> {
    match op {
        PoolOp::Checkout => after_checkout(members),
        PoolOp::Checkin(vm, succeeded) => after_checkin(members, limit, vm, succeeded),
    }
}

/// The pool after a sequence of operations, applied in order.
pub open spec fn after_ops(members: Seq<VmView>, limit: nat, ops: Seq<PoolOp>) -> Seq<VmView>
    decreases ops.len(),
{
    if ops.len() == 0 {
        members
    } else {
        after_op(after_ops(members, limit, ops.drop_last()), limit, ops.last())
    }
}

/// Whatever is checked out of a pool or checked in to it, and in whatever
/// order, the pool never holds more than its limit, and every member is
/// ready: none is busy, failed or terminated.
pub proof fn lemma_pool_bound(members: Seq<VmView>, limit: nat, ops: Seq<PoolOp>)
    requires
        is_pool(members, limit),
    ensures
        is_pool(after_ops(members, limit, ops), limit),
        after_ops(members, limit, ops).len() <= limit,
        forall|i: int|
            0 <= i < after_ops(members, limit, ops).len() ==> (#[trigger] after_ops(
                members,
                limit,
                ops,
            )[i]).status != Status::Busy,
    decreases ops.len(),
{
    if ops.len() > 0 {
        lemma_pool_bound(members, limit, ops.drop_last());
    }
}

/// An instance that comes back to a full pool is retired, not enqueued, even
/// after a success; so is every instance that comes back from a failure.
pub proof fn lemma_excess_is_retired(members: Seq<VmView>, limit: nat, vm: VmView, succeeded: bool)
    requires
        members.len() >= limit || !succeeded,
    ensures
        after_checkin(members, limit, vm, succeeded) == members,
        to_retire(members, limit, vm, succeeded) is Some,
{
}

/// An instance that comes back goes to exactly one place: into the pool or
/// to retirement.
pub proof fn lemma_checkin_is_exclusive(members: Seq<VmView>, limit: nat, vm: VmView, succeeded: bool)
    ensures
        to_retire(members, limit, vm, succeeded) is None <==> after_checkin(
            members,
            limit,
            vm,
            succeeded,
        ).len() == members.len() + 1,
        to_retire(members, limit, vm, succeeded) is Some <==> after_checkin(
            members,
            limit,
            vm,
            succeeded,
        ) == members,
{
}

} // verus!
