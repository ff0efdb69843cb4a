//! The code channel: how code is posted to the guest's agent, and how the
//! agent's reply becomes a result.
use vstd::prelude::*;
use vstd::string::*;
use crate::control::{is_success_code, status_line, HttpStatus};
use crate::identity::guest_ip_of;
use crate::json::{
    bool_member, flag_member, json_bool_member, json_string_member, json_syntax_error,
    keys_ascending, lemma_text_before, object_text, string_member, syntax_error, text_member,
    write_object, JsonMember, MemberView, ScalarView,
};
use crate::plan::views;
use crate::runner::VMManager;
use crate::text::{join2, join3};
use crate::{ErrorView, ExecuteRequest, ExecuteResponse, ExecutionError, ResponseView};

verus! {

/// Seconds an execution may take before the host gives up: the guest's own
/// bound of 30 seconds and five seconds of slack.
pub const VM_EXECUTE_TIMEOUT_SECONDS: u64 = 35;

/// Seconds the request that asks the guest to halt may take.
pub const VM_SHUTDOWN_TIMEOUT_SECONDS: u64 = 5;

/// Seconds the hypervisor is given to exit after the guest was asked to halt.
pub const VM_EXIT_TIMEOUT_SECONDS: u64 = 10;

/// A request to the guest's agent.
#[derive(Debug, Clone)]
pub struct GuestRequest {
    pub url: String,
    /// The JSON body, if the request has one.
    pub body: Option<String>,
    pub timeout_seconds: u64,
}

/// A guest request as contracts see it.
pub struct GuestRequestView {
    pub url: Seq<char>,
    pub body: Option<Seq<char>>,
    pub timeout_seconds: nat,
}

impl View for GuestRequest {
    type V = GuestRequestView;

    open spec fn view(&self) -> GuestRequestView {
        GuestRequestView {
            url: self.url@,
            body: match self.body {
                Some(b) => Some(b@),
                None => None,
            },
            timeout_seconds: self.timeout_seconds as nat,
        }
    }
}

/// How a request to the guest's agent ended.
#[derive(Debug)]
pub enum GuestReply {
    /// The request could not be sent, or no response came in time.
    SendFailed(String),
    /// A response came: its status, and its body or the error met while
    /// reading it.
    Answered(HttpStatus, Result<String, String>),
}

/// A guest's reply as contracts see it.
pub enum GuestReplyView {
    SendFailed(Seq<char>),
    Answered(u16, Result<Seq<char>, Seq<char>>),
}

impl View for GuestReply {
    type V = GuestReplyView;

    open spec fn view(&self) -> GuestReplyView {
        match self {
            GuestReply::SendFailed(e) => GuestReplyView::SendFailed(e@),
            GuestReply::Answered(status, body) => GuestReplyView::Answered(
                status@,
                match body {
                    Ok(text) => Ok(text@),
                    Err(e) => Err(e@),
                },
            ),
        }
    }
}

/// The JSON text of an execution request: an object with the code as its
/// only member.
pub open spec fn request_text(code: Seq<char>) -> Seq<char> {
    object_text(seq![MemberView { key: "code"@, value: ScalarView::Text(code) }])
}

/// The JSON text of a response: its three members in the order of their
/// keys.
pub open spec fn response_text(response: ResponseView) -> Seq<char> {
    object_text(
        seq![
            MemberView { key: "stderr"@, value: ScalarView::Text(response.stderr) },
            MemberView { key: "stdout"@, value: ScalarView::Text(response.stdout) },
            MemberView { key: "success"@, value: ScalarView::Flag(response.success) },
        ],
    )
}

/// The response that a reply's members make: absent output is empty, and an
/// absent success flag means failure.
pub open spec fn response_of_members(
    stdout: Option<Seq<char>>,
    stderr: Option<Seq<char>>,
    success: Option<bool>,
) -> ResponseView {
    ResponseView {
        stdout: match stdout {
            Some(s) => s,
            None => Seq::empty(),
        },
        stderr: match stderr {
            Some(s) => s,
            None => Seq::empty(),
        },
        success: match success {
            Some(b) => b,
            None => false,
        },
    }
}

/// What the body of a successful reply amounts to: the response that its
/// members make, or a communication error where it is no JSON document.
pub open spec fn decoded_body(body: Seq<char>) -> Result<ResponseView, ErrorView> {
    match json_syntax_error(body) {
        Some(e) => Err(ErrorView::ApiCommunicationError("Failed to parse response: "@ + e)),
        None => Ok(
            response_of_members(
                json_string_member(body, "stdout"@),
                json_string_member(body, "stderr"@),
                json_bool_member(body, "success"@),
            ),
        ),
    }
}

/// What a reply to an execution request amounts to. Every failure of the
/// transport is a communication error: a request that could not be sent, a
/// status that is no success, a body that could not be read or decoded.
pub open spec fn execution_outcome(reply: GuestReplyView) -> Result<ResponseView, ErrorView> {
    match reply {
        GuestReplyView::SendFailed(e) => Err(
            ErrorView::ApiCommunicationError("Failed to send request: "@ + e),
        ),
        GuestReplyView::Answered(code, body) => if !is_success_code(code) {
            Err(
                ErrorView::ApiCommunicationError(
                    "API request failed with status: "@ + status_line(code),
                ),
            )
        } else {
            match body {
                Err(e) => Err(ErrorView::ApiCommunicationError("Failed to parse response: "@ + e)),
                Ok(text) => decoded_body(text),
            }
        },
    }
}

/// The address of the guest's execute endpoint.
pub open spec fn execute_url_of(id: Seq<char>) -> Seq<char> {
    "http://"@ + guest_ip_of(id) + ":8080/execute"@
}

/// The address of the guest's shutdown endpoint.
pub open spec fn shutdown_url_of(id: Seq<char>) -> Seq<char> {
    "http://"@ + guest_ip_of(id) + ":8080/shutdown"@
}

/// Whether an outcome is the given result, view for view.
pub open spec fn outcome_matches(
    got: Result<ExecuteResponse, ExecutionError>,
    expected: Result<ResponseView, ErrorView>,
) -> bool {
    match expected {
        Ok(response) => got matches Ok(r) && r@ == response,
        Err(error) => got matches Err(e) && e@ == error,
    }
}

impl ExecuteRequest {
    /// Writes the request as JSON.
    pub fn to_json(&self) -> (text: String)
        ensures
            text@ == request_text(self.code@),
    {
        let mut members: Vec<JsonMember> = Vec::new();
        members.push(text_member("code", self.code.as_str()));
        assert(views(members@) =~= seq![
            MemberView { key: "code"@, value: ScalarView::Text(self.code@) },
        ]);
        assert(keys_ascending(views(members@)));
        write_object(&members)
    }

    /// Reads a request from JSON: `Some` where the text is an object whose
    /// member `code` is a string.
    pub fn from_json(text: &str) -> (request: Option<ExecuteRequest>)
        ensures
            match json_string_member(text@, "code"@) {
                Some(code) => request matches Some(r) && r.code@ == code,
                None => request.is_none(),
            },
    {
        match string_member(text, "code") {
            Some(code) => Some(ExecuteRequest { code }),
            None => None,
        }
    }
}

impl ExecuteResponse {
    /// Writes the response as JSON.
    pub fn to_json(&self) -> (text: String)
        ensures
            text@ == response_text(self@),
    {
        let mut members: Vec<JsonMember> = Vec::new();
        members.push(text_member("stderr", self.stderr.as_str()));
        members.push(text_member("stdout", self.stdout.as_str()));
        members.push(flag_member("success", self.success));
        assert(views(members@) =~= seq![
            MemberView { key: "stderr"@, value: ScalarView::Text(self.stderr@) },
            MemberView { key: "stdout"@, value: ScalarView::Text(self.stdout@) },
            MemberView { key: "success"@, value: ScalarView::Flag(self.success) },
        ]);
        proof {
            reveal_strlit("stderr");
            reveal_strlit("stdout");
            reveal_strlit("success");
            lemma_text_before("stderr"@, "stdout"@, 3);
            lemma_text_before("stderr"@, "success"@, 1);
            lemma_text_before("stdout"@, "success"@, 1);
            assert(keys_ascending(views(members@)));
        }
        write_object(&members)
    }

    /// Makes the response that a reply's members stand for: absent output is
    /// empty, and an absent success flag means failure.
    pub fn from_members(stdout: Option<String>, stderr: Option<String>, success: Option<bool>) -> (response:
        ExecuteResponse)
        ensures
            response@ == response_of_members(
                match stdout {
                    Some(s) => Some(s@),
                    None => None,
                },
                match stderr {
                    Some(s) => Some(s@),
                    None => None,
                },
                success,
            ),
    {
        ExecuteResponse {
            stdout: match stdout {
                Some(s) => s,
                None => String::new(),
            },
            stderr: match stderr {
                Some(s) => s,
                None => String::new(),
            },
            success: match success {
                Some(b) => b,
                None => false,
            },
        }
    }
}

/// Decodes the body of a successful reply to an execution request.
pub fn decode_response(body: &str) -> (outcome: Result<ExecuteResponse, ExecutionError>)
    ensures
        outcome_matches(outcome, decoded_body(body@)),
{
    match syntax_error(body) {
        Some(e) => Err(
            ExecutionError::ApiCommunicationError(join2("Failed to parse response: ", e.as_str())),
        ),
        None => {
            let stdout = string_member(body, "stdout");
            let stderr = string_member(body, "stderr");
            let success = bool_member(body, "success");
            Ok(ExecuteResponse::from_members(stdout, stderr, success))
        },
    }
}

/// Turns the reply to an execution request into the execution's outcome.
pub fn execution_result(reply: &GuestReply) -> (outcome: Result<ExecuteResponse, ExecutionError>)
    ensures
        outcome_matches(outcome, execution_outcome(reply@)),
{
    match reply {
        GuestReply::SendFailed(e) => Err(
            ExecutionError::ApiCommunicationError(join2("Failed to send request: ", e.as_str())),
        ),
        GuestReply::Answered(status, body) => {
            if !status.is_success() {
                let line = status.to_string();
                Err(
                    ExecutionError::ApiCommunicationError(
                        join2("API request failed with status: ", line.as_str()),
                    ),
                )
            } else {
                match body {
                    Err(e) => Err(
                        ExecutionError::ApiCommunicationError(
                            join2("Failed to parse response: ", e.as_str()),
                        ),
                    ),
                    Ok(text) => decode_response(text.as_str()),
                }
            }
        },
    }
}

impl VMManager {
    /// Builds the request that delivers `code` to the guest for execution.
    pub fn execute_code_via_api(&self, code: &str) -> (request: GuestRequest)
        ensures
            request@ == (GuestRequestView {
                url: execute_url_of(self@.vm_id),
                body: Some(request_text(code@)),
                timeout_seconds: 35,
            }),
    {
        let payload = ExecuteRequest { code: String::from_str(code) };
        GuestRequest {
            url: join3("http://", self.vm_ip(), ":8080/execute"),
            body: Some(payload.to_json()),
            timeout_seconds: VM_EXECUTE_TIMEOUT_SECONDS,
        }
    }

    /// Builds the request that asks the guest to halt. Its reply is not
    /// waited for beyond the request's own bound, and not looked at.
    pub fn shutdown_request(&self) -> (request: GuestRequest)
        ensures
            request@ == (GuestRequestView {
                url: shutdown_url_of(self@.vm_id),
                body: None,
                timeout_seconds: 5,
            }),
    {
        GuestRequest {
            url: join3("http://", self.vm_ip(), ":8080/shutdown"),
            body: None,
            timeout_seconds: VM_SHUTDOWN_TIMEOUT_SECONDS,
        }
    }
}

/// The view of a result file that was read, or of its absence.
pub open spec fn file_view(file: Option<String>) -> Option<Seq<char>> {
    match file {
        Some(contents) => Some(contents@),
        None => None,
    }
}

/// What is reported as standard error where a guest left no result file.
pub open spec fn guest_crash_diagnostic() -> Seq<char> {
    "Guest exited without writing any result; it may have crashed before the code ran"@
}

/// What the result files of a shared block exchange amount to. A guest that
/// left neither file has crashed: that is a failed execution with a
/// diagnosis, not an error. Otherwise a file that is missing counts as
/// empty, and the execution succeeded where nothing was written to standard
/// error.
pub open spec fn exchange_outcome(stdout: Option<Seq<char>>, stderr: Option<Seq<char>>) -> ResponseView {
    if stdout is None && stderr is None {
        ResponseView {
            stdout: Seq::empty(),
            stderr: guest_crash_diagnostic(),
            success: false,
        }
    } else {
        let captured = response_of_members(stdout, stderr, None);
        ResponseView { success: captured.stderr.len() == 0, ..captured }
    }
}

/// Turns the result files that a guest left on a shared block exchange into
/// the execution's result. Each file is given as its contents, or as `None`
/// where it does not exist.
pub fn exchange_result(stdout: Option<String>, stderr: Option<String>) -> (response:
    ExecuteResponse)
    ensures
        response@ == exchange_outcome(file_view(stdout), file_view(stderr)),
{
    if stdout.is_none() && stderr.is_none() {
        ExecuteResponse {
            stdout: String::new(),
            stderr: String::from_str(
                "Guest exited without writing any result; it may have crashed before the code ran",
            ),
            success: false,
        }
    } else {
        let captured = ExecuteResponse::from_members(stdout, stderr, None);
        let success = captured.stderr.as_str().is_empty();
        ExecuteResponse { stdout: captured.stdout, stderr: captured.stderr, success }
    }
}

/// A guest that left no result file never counts as a success, and its
/// result always carries a diagnosis.
pub proof fn lemma_guest_crash_is_reported()
    ensures
        !exchange_outcome(None, None).success,
        exchange_outcome(None, None).stderr.len() > 0,
{
    reveal_strlit(
        "Guest exited without writing any result; it may have crashed before the code ran",
    );
}

} // verus!
