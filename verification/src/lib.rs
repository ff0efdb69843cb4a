//! Lifecycle orchestration for sandboxed code execution in microVMs.
//!
//! The crate holds the decisions of the engine as verified functions on plain
//! values: what an instance's resources are called, which commands provision
//! its network link, which control calls configure the guest and in what order,
//! when the readiness prober gives up, how a guest reply becomes a result, and
//! which instances a bounded pool keeps. Performing the effects themselves
//! (running a command, sending a request, sleeping) is left to the caller, who
//! feeds the observed outcomes back in.
use vstd::prelude::*;
use vstd::string::*;

pub mod channel;
pub mod control;
pub mod frontend;
pub mod identity;
pub mod json;
pub mod network;
pub mod plan;
pub mod pool;
pub mod probe;
pub mod runner;
pub mod supervisor;
pub mod text;

pub use pool::{build_step, create_new_vm, run_in_vm, run_in_vm_exchange, VmPool};
pub use runner::{Status, VMManager};

verus! {

/// Request body for code execution.
pub struct ExecuteRequest {
    /// Code to execute in the microVM.
    pub code: String,
}

/// Result of one execution inside a guest.
#[derive(Debug, Clone)]
pub struct ExecuteResponse {
    /// Standard output captured from the guest.
    pub stdout: String,
    /// Standard error captured from the guest.
    pub stderr: String,
    /// Whether the execution was successful.
    pub success: bool,
}

/// What can go wrong while an instance is built, used or torn down.
#[derive(Debug, Clone)]
pub enum ExecutionError {
    /// A control-socket or guest call failed or was answered with a failure.
    ApiCommunicationError(String),
    /// The execution exceeded its bound.
    TimeoutError,
    /// The guest never became ready; the hypervisor's logs are attached.
    TimeoutErrorWithLogs(String),
    /// A payload could not be encoded or decoded.
    SerializationError(String),
    /// A socket, file or network operation failed.
    ResourceError(String),
    /// The hypervisor process could not be started.
    ProcessSpawnError(String),
}

/// An error as contracts see it: the kind, and the detail as a sequence of
/// characters.
pub enum ErrorView {
    ApiCommunicationError(Seq<char>),
    TimeoutError,
    TimeoutErrorWithLogs(Seq<char>),
    SerializationError(Seq<char>),
    ResourceError(Seq<char>),
    ProcessSpawnError(Seq<char>),
}

impl ErrorView {
    /// The text shown for this error.
    pub open spec fn message(self) -> Seq<char> {
        match self {
            ErrorView::ApiCommunicationError(m) => "API communication error: "@ + m,
            ErrorView::TimeoutError => "Execution timed out after 30 seconds"@,
            ErrorView::TimeoutErrorWithLogs(m) => "Execution timed out. Logs:\n"@ + m,
            ErrorView::SerializationError(m) => "Serialization error: "@ + m,
            ErrorView::ResourceError(m) => "Resource management error: "@ + m,
            ErrorView::ProcessSpawnError(m) => "Process spawning error: "@ + m,
        }
    }

    /// The status code a front end answers with when an execution ends in this
    /// error: 400 for an undecodable payload, 500 for everything else.
    pub open spec fn status(self) -> u16 {
        match self {
            ErrorView::SerializationError(_) => 400,
            _ => 500,
        }
    }
}

impl View for ExecutionError {
    type V = ErrorView;

    open spec fn view(&self) -> ErrorView {
        match self {
            ExecutionError::ApiCommunicationError(m) => ErrorView::ApiCommunicationError(m@),
            ExecutionError::TimeoutError => ErrorView::TimeoutError,
            ExecutionError::TimeoutErrorWithLogs(m) => ErrorView::TimeoutErrorWithLogs(m@),
            ExecutionError::SerializationError(m) => ErrorView::SerializationError(m@),
            ExecutionError::ResourceError(m) => ErrorView::ResourceError(m@),
            ExecutionError::ProcessSpawnError(m) => ErrorView::ProcessSpawnError(m@),
        }
    }
}

/// A response as contracts see it.
pub struct ResponseView {
    pub stdout: Seq<char>,
    pub stderr: Seq<char>,
    pub success: bool,
}

impl View for ExecuteResponse {
    type V = ResponseView;

    open spec fn view(&self) -> ResponseView {
        ResponseView { stdout: self.stdout@, stderr: self.stderr@, success: self.success }
    }
}

impl ExecutionError {

    /// Renders the error as text.
    pub fn to_string(&self) -> (s: String)
        ensures
            s@ == self@.message(),
    {
        match self {
            ExecutionError::ApiCommunicationError(m) => crate::text::join2(
                "API communication error: ",
                m.as_str(),
            ),
            ExecutionError::TimeoutError => String::from_str(
                "Execution timed out after 30 seconds",
            ),
            ExecutionError::TimeoutErrorWithLogs(m) => crate::text::join2(
                "Execution timed out. Logs:\n",
                m.as_str(),
            ),
            ExecutionError::SerializationError(m) => crate::text::join2(
                "Serialization error: ",
                m.as_str(),
            ),
            ExecutionError::ResourceError(m) => crate::text::join2(
                "Resource management error: ",
                m.as_str(),
            ),
            ExecutionError::ProcessSpawnError(m) => crate::text::join2(
                "Process spawning error: ",
                m.as_str(),
            ),
        }
    }

    /// The status code for this error.
    pub fn status_code(&self) -> (code: u16)
        ensures
            code == self@.status(),
    {
        match self {
            ExecutionError::SerializationError(_) => 400,
            _ => 500,
        }
    }
}

/// Generates the identity of a new instance.
///
/// The body draws a random 128-bit value with `uuid::Uuid::new_v4` and renders
/// it with the value's `Display` impl, which writes the hyphenated lower-case
/// form. The contract is not proved; it claims the shape of the text and
/// nothing of which value was drawn. Where the operating system cannot
/// supply random bytes the call panics: identity generation that fails is
/// fatal.
#[verifier::external_body]
pub fn generate_vm_id() -> (id: String)
    ensures
        crate::identity::is_vm_id(id@),
{
    uuid::Uuid::new_v4().to_string()
}

/// Builds the response of a successful execution.
pub fn create_success_response(stdout: String, stderr: String) -> (response: ExecuteResponse)
    ensures
        response.stdout == stdout,
        response.stderr == stderr,
        response.success,
        response@ == (ResponseView { stdout: stdout@, stderr: stderr@, success: true }),
{
    ExecuteResponse { stdout, stderr, success: true }
}

/// Builds the response of a failed execution: no output, the message as
/// standard error.
pub fn create_error_response(error_message: String) -> (response: ExecuteResponse)
    ensures
        response.stderr == error_message,
        response@ == (ResponseView {
            stdout: Seq::<char>::empty(),
            stderr: error_message@,
            success: false,
        }),
{
    ExecuteResponse { stdout: String::new(), stderr: error_message, success: false }
}

} // verus!
