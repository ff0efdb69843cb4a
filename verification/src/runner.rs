//! The instance: its identity, the names derived from it, the handle of its
//! hypervisor process and its place in the lifecycle.
use vstd::prelude::*;
use vstd::string::*;
use crate::identity::{
    guest_ip_of, is_valid_vm_id, is_vm_id, socket_path_of, stderr_log_path_of, stdout_log_path_of,
    subnet_id, subnet_octet, tap_interface_of, host_ip_of,
};
use crate::text::{decimal_text, join2, join3};
use crate::generate_vm_id;

verus! {

/// The handle of a spawned hypervisor process. Its contents are opaque here:
/// the library only stores it, hands it out and drops it.
#[verifier::external_type_specification]
#[verifier::external_body]
pub struct ExChild(tokio::process::Child);

/// Where an instance stands in its lifecycle.
#[derive(Debug, Clone, Copy, PartialEq, Eq, Structural)]
pub enum Status {
    /// Names allocated, nothing provisioned yet.
    Created,
    /// The network link exists and is up.
    NetworkReady,
    /// The hypervisor runs and the guest is being configured or is booting.
    Booting,
    /// The guest answers health checks and waits for work.
    Ready,
    /// An execution is in flight.
    Busy,
    /// A step failed; the instance awaits cleanup.
    Failed,
    /// Cleanup is complete.
    Terminated,
}

/// What happened to an instance.
#[derive(Debug, Clone, Copy, PartialEq, Eq, Structural)]
pub enum LifecycleEvent {
    /// The network link was created, addressed and brought up.
    NetworkProvisioned,
    /// The hypervisor process was spawned.
    ProcessSpawned,
    /// The readiness probe succeeded.
    BecameReady,
    /// The instance was bound to an execution.
    CheckedOut,
    /// The execution ended well and the instance is kept.
    CheckedIn,
    /// A step failed.
    StepFailed,
    /// Cleanup finished.
    CleanedUp,
}

/// The status that follows `status` on `event`, or `None` where the event is
/// not allowed there. Nothing leaves `Terminated`; a failure and the end of
/// cleanup are allowed in every other status.
pub open spec fn next_status(status: Status, event: LifecycleEvent) -> Option<Status> {
    match (status, event) {
        (Status::Terminated, _) => None,
        (_, LifecycleEvent::StepFailed) => Some(Status::Failed),
        (_, LifecycleEvent::CleanedUp) => Some(Status::Terminated),
        (Status::Created, LifecycleEvent::NetworkProvisioned) => Some(Status::NetworkReady),
        (Status::NetworkReady, LifecycleEvent::ProcessSpawned) => Some(Status::Booting),
        (Status::Booting, LifecycleEvent::BecameReady) => Some(Status::Ready),
        (Status::Ready, LifecycleEvent::CheckedOut) => Some(Status::Busy),
        (Status::Busy, LifecycleEvent::CheckedIn) => Some(Status::Ready),
        _ => None,
    }
}

/// Computes the status that follows `status` on `event`.
pub fn advance_status(status: Status, event: LifecycleEvent) -> (next: Option<Status>)
    ensures
        next == next_status(status, event),
{
    match (status, event) {
        (Status::Terminated, _) => None,
        (_, LifecycleEvent::StepFailed) => Some(Status::Failed),
        (_, LifecycleEvent::CleanedUp) => Some(Status::Terminated),
        (Status::Created, LifecycleEvent::NetworkProvisioned) => Some(Status::NetworkReady),
        (Status::NetworkReady, LifecycleEvent::ProcessSpawned) => Some(Status::Booting),
        (Status::Booting, LifecycleEvent::BecameReady) => Some(Status::Ready),
        (Status::Ready, LifecycleEvent::CheckedOut) => Some(Status::Busy),
        (Status::Busy, LifecycleEvent::CheckedIn) => Some(Status::Ready),
        _ => None,
    }
}

/// What contracts say of an instance: its identity, its status and whether it
/// holds a process handle. Every derived name is a function of the identity.
pub struct VmView {
    pub vm_id: Seq<char>,
    pub status: Status,
    pub has_process: bool,
}

/// One microVM instance.
pub struct VMManager {
    vm_id: String,
    socket_path: String,
    process: Option<tokio::process::Child>,
    stdout_log_path: String,
    stderr_log_path: String,
    vm_ip: String,
    tap_interface: String,
    status: Status,
}

impl View for VMManager {
    type V = VmView;

    closed spec fn view(&self) -> VmView {
        VmView {
            vm_id: self.vm_id@,
            status: self.status,
            has_process: self.process.is_some(),
        }
    }
}

impl VMManager {
    #[verifier::type_invariant]
    spec fn well_formed(self) -> bool {
        &&& is_vm_id(self.vm_id@)
        &&& self.socket_path@ == socket_path_of(self.vm_id@)
        &&& self.stdout_log_path@ == stdout_log_path_of(self.vm_id@)
        &&& self.stderr_log_path@ == stderr_log_path_of(self.vm_id@)
        &&& self.vm_ip@ == guest_ip_of(self.vm_id@)
        &&& self.tap_interface@ == tap_interface_of(self.vm_id@)
    }

    /// Allocates a fresh identity and derives the instance's names from it.
    pub fn new() -> (vm: VMManager)
        ensures
            is_vm_id(vm@.vm_id),
            vm@.status == Status::Created,
            !vm@.has_process,
    {
        let vm_id = generate_vm_id();
        VMManager::derive(vm_id)
    }

    /// Derives the instance that belongs to a given identity, or `None` where
    /// the text is not an identity.
    pub fn from_id(vm_id: String) -> (made: Option<VMManager>)
        ensures
            made.is_some() == is_vm_id(vm_id@),
            made matches Some(vm) ==> vm@ == (VmView {
                vm_id: vm_id@,
                status: Status::Created,
                has_process: false,
            }),
    {
        if is_valid_vm_id(vm_id.as_str()) {
            Some(VMManager::derive(vm_id))
        } else {
            None
        }
    }

    fn derive(vm_id: String) -> (vm: VMManager)
        requires
            is_vm_id(vm_id@),
        ensures
            vm@ == (VmView { vm_id: vm_id@, status: Status::Created, has_process: false }),
    {
        let id = vm_id.as_str();
        let octet = decimal_text(subnet_id(id) as u64);
        let tap_interface = join2("tap-", id.substring_char(0, 8));
        let vm_ip = join3("172.16.", octet.as_str(), ".2");
        let socket_path = join3("/tmp/firecracker-", id, ".socket");
        let stdout_log_path = join3("/tmp/fc-stdout-", id, ".log");
        let stderr_log_path = join3("/tmp/fc-stderr-", id, ".log");
        VMManager {
            vm_id,
            socket_path,
            process: None,
            stdout_log_path,
            stderr_log_path,
            vm_ip,
            tap_interface,
            status: Status::Created,
        }
    }

    /// The instance's identity.
    pub fn vm_id(&self) -> (id: &str)
        ensures
            id@ == self@.vm_id,
            is_vm_id(id@),
    {
        proof {
            use_type_invariant(self);
        }
        self.vm_id.as_str()
    }

    /// The path of the hypervisor's control socket.
    pub fn socket_path(&self) -> (path: &str)
        ensures
            path@ == socket_path_of(self@.vm_id),
    {
        proof {
            use_type_invariant(self);
        }
        self.socket_path.as_str()
    }

    /// The path of the file that receives the hypervisor's standard output.
    pub fn stdout_log_path(&self) -> (path: &str)
        ensures
            path@ == stdout_log_path_of(self@.vm_id),
    {
        proof {
            use_type_invariant(self);
        }
        self.stdout_log_path.as_str()
    }

    /// The path of the file that receives the hypervisor's standard error.
    pub fn stderr_log_path(&self) -> (path: &str)
        ensures
            path@ == stderr_log_path_of(self@.vm_id),
    {
        proof {
            use_type_invariant(self);
        }
        self.stderr_log_path.as_str()
    }

    /// The address the guest is booted with.
    pub fn vm_ip(&self) -> (ip: &str)
        ensures
            ip@ == guest_ip_of(self@.vm_id),
    {
        proof {
            use_type_invariant(self);
        }
        self.vm_ip.as_str()
    }

    /// The address of the host's end of the link.
    pub fn host_ip(&self) -> (ip: String)
        ensures
            ip@ == host_ip_of(self@.vm_id),
    {
        proof {
            use_type_invariant(self);
        }
        let octet = decimal_text(subnet_id(self.vm_id.as_str()) as u64);
        join3("172.16.", octet.as_str(), ".1")
    }

    /// The name of the instance's network link.
    pub fn tap_interface(&self) -> (name: &str)
        ensures
            name@ == tap_interface_of(self@.vm_id),
    {
        proof {
            use_type_invariant(self);
        }
        self.tap_interface.as_str()
    }

    /// The third octet of the instance's network.
    pub fn subnet(&self) -> (octet: u32)
        ensures
            octet == subnet_octet(self@.vm_id),
            1 <= octet <= 254,
    {
        proof {
            use_type_invariant(self);
        }
        subnet_id(self.vm_id.as_str())
    }

    /// Where the instance stands in its lifecycle.
    pub fn status(&self) -> (status: Status)
        ensures
            status == self@.status,
    {
        self.status
    }

    /// Whether the instance holds the handle of a hypervisor process.
    pub fn has_process(&self) -> (held: bool)
        ensures
            held == self@.has_process,
    {
        self.process.is_some()
    }

    /// Stores the handle of the instance's hypervisor process and hands back
    /// the handle held before, if any.
    pub fn attach_process(&mut self, process: tokio::process::Child) -> (previous: Option<
        tokio::process::Child,
    >)
        ensures
            final(self)@ == (VmView { has_process: true, ..old(self)@ }),
            previous.is_some() == old(self)@.has_process,
    {
        proof {
            use_type_invariant(&*self);
        }
        let mut held: Option<tokio::process::Child> = Some(process);
        core::mem::swap(&mut self.process, &mut held);
        held
    }

    /// Hands out the handle of the instance's hypervisor process. The
    /// instance holds none afterwards.
    pub fn take_process(&mut self) -> (process: Option<tokio::process::Child>)
        ensures
            final(self)@ == (VmView { has_process: false, ..old(self)@ }),
            process.is_some() == old(self)@.has_process,
    {
        proof {
            use_type_invariant(&*self);
        }
        let mut held: Option<tokio::process::Child> = None;
        core::mem::swap(&mut self.process, &mut held);
        held
    }

    /// Applies a lifecycle event. Where the event is allowed in the current
    /// status, the status changes and the answer is `true`; otherwise nothing
    /// changes.
    pub fn record(&mut self, event: LifecycleEvent) -> (applied: bool)
        ensures
            applied == next_status(old(self)@.status, event).is_some(),
            final(self)@.vm_id == old(self)@.vm_id,
            final(self)@.has_process == old(self)@.has_process,
            final(self)@.status == match next_status(old(self)@.status, event) {
                Some(next) => next,
                None => old(self)@.status,
            },
    {
        proof {
            use_type_invariant(&*self);
        }
        match advance_status(self.status, event) {
            Some(next) => {
                self.status = next;
                true
            },
            None => false,
        }
    }
}

impl Default for VMManager {
    /// A new instance with a fresh identity.
    fn default() -> (vm: VMManager)
        ensures
            is_vm_id(vm@.vm_id),
            vm@.status == Status::Created,
            !vm@.has_process,
    {
        VMManager::new()
    }
}

} // verus!
