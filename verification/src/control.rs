//! The control protocol: the calls that configure a guest before boot, their
//! fixed order, and what the hypervisor's replies mean.
use vstd::prelude::*;
use vstd::string::*;
use crate::identity::{guest_ip_of, host_ip_of, socket_path_of, tap_interface_of};
use crate::json::{
    flag_member, keys_ascending, lemma_text_before, number_member, object_text, push_member,
    text_member, write_object, JsonMember, MemberView, ScalarView,
};
use crate::plan::{views, Flow, FlowView};
use crate::runner::VMManager;
use crate::text::{decimal, join2, join3, occurs_at};
use crate::{ErrorView, ExecutionError};

verus! {

/// The status line that the `http` crate writes for a status code: the code,
/// a space, and the code's standard reason phrase or a placeholder.
pub uninterp spec fn status_line(code: u16) -> Seq<char>;

/// Whether `s` begins with `prefix`.
pub open spec fn begins_with(s: Seq<char>, prefix: Seq<char>) -> bool {
    prefix.len() <= s.len() && s.subrange(0, prefix.len() as int) == prefix
}

/// Renders a status code as its status line.
///
/// The body makes a `hyper::StatusCode` with `from_u16`, which accepts the
/// codes from 100 to 999, and renders it with its `Display` impl, which
/// writes the code in decimal, a space, and the reason phrase. The contract
/// is not proved: it gives the result its name and claims that it begins
/// with the code and the space.
#[verifier::external_body]
fn status_text(code: u16) -> (line: String)
    requires
        100 <= code <= 999,
    ensures
        line@ == status_line(code),
        begins_with(line@, decimal(code as nat) + " "@),
{
    match hyper::StatusCode::from_u16(code) {
        Ok(status) => status.to_string(),
        Err(_) => String::new(),
    }
}

/// The status of an HTTP response: a code from 100 to 999.
#[derive(Debug, Clone, Copy)]
pub struct HttpStatus {
    code: u16,
}

impl View for HttpStatus {
    type V = u16;

    closed spec fn view(&self) -> u16 {
        self.code
    }
}

/// Whether a status code reports success: 200 to 299.
pub open spec fn is_success_code(code: u16) -> bool {
    200 <= code < 300
}

impl HttpStatus {
    #[verifier::type_invariant]
    spec fn in_range(self) -> bool {
        100 <= self.code <= 999
    }

    /// Makes a status from its code; `None` where the code is not one.
    pub fn new(code: u16) -> (status: Option<HttpStatus>)
        ensures
            status.is_some() == (100 <= code <= 999),
            status matches Some(s) ==> s@ == code,
    {
        if 100 <= code && code <= 999 {
            Some(HttpStatus { code })
        } else {
            None
        }
    }

    /// The numeric code.
    pub fn code(&self) -> (code: u16)
        ensures
            code == self@,
            100 <= code <= 999,
    {
        proof {
            use_type_invariant(self);
        }
        self.code
    }

    /// Whether the status reports success.
    pub fn is_success(&self) -> (yes: bool)
        ensures
            yes == is_success_code(self@),
    {
        200 <= self.code && self.code < 300
    }

    /// The status line. It begins with the code in decimal and a space.
    pub fn to_string(&self) -> (line: String)
        ensures
            line@ == status_line(self@),
            begins_with(status_line(self@), decimal(self@ as nat) + " "@),
    {
        proof {
            use_type_invariant(self);
        }
        status_text(self.code)
    }
}

/// One call of the control protocol.
#[derive(Debug, Clone)]
pub struct ApiCall {
    /// The control socket to send the call to.
    pub socket_path: String,
    pub method: String,
    pub path: String,
    /// The JSON body, if the call has one.
    pub body: Option<String>,
}

/// A control call as contracts see it.
pub struct ApiCallView {
    pub socket_path: Seq<char>,
    pub method: Seq<char>,
    pub path: Seq<char>,
    pub body: Option<Seq<char>>,
}

impl View for ApiCall {
    type V = ApiCallView;

    open spec fn view(&self) -> ApiCallView {
        ApiCallView {
            socket_path: self.socket_path@,
            method: self.method@,
            path: self.path@,
            body: match self.body {
                Some(b) => Some(b@),
                None => None,
            },
        }
    }
}

impl ApiCall {
    /// The content type to declare: JSON where the call has a body, none
    /// where it has not.
    pub fn content_type(&self) -> (header: Option<&'static str>)
        ensures
            header.is_some() == self@.body.is_some(),
            header matches Some(h) ==> h@ == "application/json"@,
    {
        match self.body {
            Some(_) => Some("application/json"),
            None => None,
        }
    }
}

/// How one control call ended.
#[derive(Debug)]
pub enum ApiReply {
    /// The request could not be built.
    BuildFailed(String),
    /// The request could not be sent, or no response came.
    SendFailed(String),
    /// A response came. The body is read only to explain a failure: it holds
    /// the text, or the error met while reading it.
    Answered(HttpStatus, Result<String, String>),
}

/// A reply as contracts see it.
pub enum ApiReplyView {
    BuildFailed(Seq<char>),
    SendFailed(Seq<char>),
    Answered(u16, Result<Seq<char>, Seq<char>>),
}

impl View for ApiReply {
    type V = ApiReplyView;

    open spec fn view(&self) -> ApiReplyView {
        match self {
            ApiReply::BuildFailed(e) => ApiReplyView::BuildFailed(e@),
            ApiReply::SendFailed(e) => ApiReplyView::SendFailed(e@),
            ApiReply::Answered(status, body) => ApiReplyView::Answered(
                status@,
                match body {
                    Ok(text) => Ok(text@),
                    Err(e) => Err(e@),
                },
            ),
        }
    }
}

/// The detail reported for a response whose status is no success: the status
/// line, the method, the path and the response's body.
pub open spec fn rejection_text(
    code: u16,
    method: Seq<char>,
    path: Seq<char>,
    body: Seq<char>,
) -> Seq<char> {
    "API returned error status: "@ + status_line(code) + " for "@ + method + " "@ + path
        + ". Error details: "@ + body
}

/// The error that a reply to a control call amounts to, if any. Only a
/// response with a success status is no error.
pub open spec fn api_error(method: Seq<char>, path: Seq<char>, reply: ApiReplyView) -> Option<
    ErrorView,
> {
    match reply {
        ApiReplyView::BuildFailed(e) => Some(
            ErrorView::ApiCommunicationError("Request build failed: "@ + e),
        ),
        ApiReplyView::SendFailed(e) => Some(
            ErrorView::ApiCommunicationError("API request failed: "@ + e),
        ),
        ApiReplyView::Answered(code, body) => if is_success_code(code) {
            None
        } else {
            match body {
                Ok(text) => Some(
                    ErrorView::ApiCommunicationError(rejection_text(code, method, path, text)),
                ),
                Err(e) => Some(
                    ErrorView::ApiCommunicationError("Failed to read error response: "@ + e),
                ),
            }
        },
    }
}

/// Where the status line of a rejection begins with the code, the
/// rejection's text holds the code right after its opening words, and the
/// path after the method.
pub proof fn lemma_rejection_holds_code_and_path(
    line: Seq<char>,
    code: Seq<char>,
    method: Seq<char>,
    path: Seq<char>,
    body: Seq<char>,
)
    requires
        begins_with(line, code),
    ensures
        occurs_at(
            "API returned error status: "@ + line + " for "@ + method + " "@ + path
                + ". Error details: "@ + body,
            code,
            27,
        ),
        occurs_at(
            "API returned error status: "@ + line + " for "@ + method + " "@ + path
                + ". Error details: "@ + body,
            path,
            (33 + line.len() + method.len()) as int,
        ),
{
    reveal_strlit("API returned error status: ");
    reveal_strlit(" for ");
    reveal_strlit(" ");
    let text = "API returned error status: "@ + line + " for "@ + method + " "@ + path
        + ". Error details: "@ + body;
    let at: int = (33 + line.len() + method.len()) as int;
    assert(text.subrange(27, 27 + code.len() as int) =~= line.subrange(0, code.len() as int));
    assert(text.subrange(at, at + path.len() as int) =~= path);
}

/// Judges the reply to a control call with the given method and path. The
/// text of a rejection holds the status code, in decimal, right after its
/// opening words.
pub fn api_reply_error(method: &str, path: &str, reply: &ApiReply) -> (error: Option<
    ExecutionError,
>)
    ensures
        match api_error(method@, path@, reply@) {
            Some(e) => error matches Some(got) && got@ == e,
            None => error.is_none(),
        },
        match reply@ {
            ApiReplyView::Answered(code, Ok(text)) => is_success_code(code) || occurs_at(
                rejection_text(code, method@, path@, text),
                decimal(code as nat) + " "@,
                27,
            ),
            _ => true,
        },
{
    match reply {
        ApiReply::BuildFailed(e) => Some(
            ExecutionError::ApiCommunicationError(join2("Request build failed: ", e.as_str())),
        ),
        ApiReply::SendFailed(e) => Some(
            ExecutionError::ApiCommunicationError(join2("API request failed: ", e.as_str())),
        ),
        ApiReply::Answered(status, body) => {
            if status.is_success() {
                None
            } else {
                match body {
                    Ok(text) => {
                        let line = status.to_string();
                        proof {
                            lemma_rejection_holds_code_and_path(
                                line@,
                                decimal(status@ as nat) + " "@,
                                method@,
                                path@,
                                text@,
                            );
                        }
                        let mut detail = join3("API returned error status: ", line.as_str(), " for ");
                        detail.append(method);
                        detail.append(" ");
                        detail.append(path);
                        detail.append(". Error details: ");
                        detail.append(text.as_str());
                        Some(ExecutionError::ApiCommunicationError(detail))
                    },
                    Err(e) => Some(
                        ExecutionError::ApiCommunicationError(
                            join2("Failed to read error response: ", e.as_str()),
                        ),
                    ),
                }
            }
        },
    }
}

/// The machine resources of a guest.
#[derive(Debug, Clone, Copy)]
pub struct MachineConfig {
    pub vcpu_count: u64,
    pub mem_size_mib: u64,
    pub ht_enabled: bool,
}

/// Number of calls that configure and start a guest.
pub const CONFIG_STEPS: usize = 5;

/// The kernel command line: console and reboot behaviour, the init command,
/// and the guest's static network configuration (guest address, gateway,
/// mask, device).
pub open spec fn boot_args_of(id: Seq<char>) -> Seq<char> {
    "console=ttyS0 reboot=k panic=1 pci=off init=/usr/local/bin/startup.sh ip="@ + guest_ip_of(id)
        + "::"@ + host_ip_of(id) + ":255.255.255.0::eth0:off"@
}

/// The body that sets the machine resources.
pub open spec fn machine_config_body(machine: MachineConfig) -> Seq<char> {
    object_text(
        seq![
            MemberView { key: "ht_enabled"@, value: ScalarView::Flag(machine.ht_enabled) },
            MemberView {
                key: "mem_size_mib"@,
                value: ScalarView::Number(machine.mem_size_mib as nat),
            },
            MemberView { key: "vcpu_count"@, value: ScalarView::Number(machine.vcpu_count as nat) },
        ],
    )
}

/// The body that sets the boot source.
pub open spec fn boot_source_body(id: Seq<char>) -> Seq<char> {
    object_text(
        seq![
            MemberView { key: "boot_args"@, value: ScalarView::Text(boot_args_of(id)) },
            MemberView {
                key: "kernel_image_path"@,
                value: ScalarView::Text("./hello-vmlinux.bin"@),
            },
        ],
    )
}

/// The body that attaches the root drive, writable.
pub open spec fn root_drive_body() -> Seq<char> {
    object_text(
        seq![
            MemberView { key: "drive_id"@, value: ScalarView::Text("rootfs"@) },
            MemberView { key: "is_read_only"@, value: ScalarView::Flag(false) },
            MemberView { key: "is_root_device"@, value: ScalarView::Flag(true) },
            MemberView {
                key: "path_on_host"@,
                value: ScalarView::Text("./alpine-python-api.ext4"@),
            },
        ],
    )
}

/// The body that binds the guest's network interface to the instance's link.
pub open spec fn network_interface_body(id: Seq<char>) -> Seq<char> {
    object_text(
        seq![
            MemberView { key: "guest_mac"@, value: ScalarView::Text("AA:FC:00:00:00:01"@) },
            MemberView { key: "host_dev_name"@, value: ScalarView::Text(tap_interface_of(id)) },
            MemberView { key: "iface_id"@, value: ScalarView::Text("eth0"@) },
        ],
    )
}

/// The body that starts the guest.
pub open spec fn start_action_body() -> Seq<char> {
    object_text(
        seq![MemberView { key: "action_type"@, value: ScalarView::Text("InstanceStart"@) }],
    )
}

/// The path of a configuration step: machine resources, boot source, storage,
/// network interface, start action.
pub open spec fn config_path(step: int) -> Seq<char> {
    if step == 0 {
        "/machine-config"@
    } else if step == 1 {
        "/boot-source"@
    } else if step == 2 {
        "/drives/rootfs"@
    } else if step == 3 {
        "/network-interfaces/eth0"@
    } else {
        "/actions"@
    }
}

/// The body of a configuration step.
pub open spec fn config_body(id: Seq<char>, machine: MachineConfig, step: int) -> Seq<char> {
    if step == 0 {
        machine_config_body(machine)
    } else if step == 1 {
        boot_source_body(id)
    } else if step == 2 {
        root_drive_body()
    } else if step == 3 {
        network_interface_body(id)
    } else {
        start_action_body()
    }
}

/// The call of a configuration step: a `PUT` of the step's body to the step's
/// path on the instance's control socket.
pub open spec fn config_call(id: Seq<char>, machine: MachineConfig, step: int) -> ApiCallView {
    ApiCallView {
        socket_path: socket_path_of(id),
        method: "PUT"@,
        path: config_path(step),
        body: Some(config_body(id, machine, step)),
    }
}

/// What a failure of a configuration step is introduced with.
pub open spec fn config_failure(step: int) -> Seq<char> {
    if step == 0 {
        "Machine config failed: "@
    } else if step == 1 {
        "Boot source config failed: "@
    } else if step == 2 {
        "Rootfs config failed: "@
    } else if step == 3 {
        "Network config failed: "@
    } else {
        "VM start failed: "@
    }
}

/// The error that a configuration step's reply amounts to, if any: the text
/// of the call's own error, introduced by the step.
pub open spec fn config_error(step: int, reply: ApiReplyView) -> Option<ErrorView> {
    match api_error("PUT"@, config_path(step), reply) {
        Some(inner) => Some(
            ErrorView::ApiCommunicationError(config_failure(step) + inner.message()),
        ),
        None => None,
    }
}

/// What configuration does next, from step `step` on, given the replies to
/// the calls made so far: the first reply that is no success aborts; once
/// all five calls have succeeded configuration is finished; otherwise the
/// next call is due.
pub open spec fn config_flow_from(
    id: Seq<char>,
    machine: MachineConfig,
    replies: Seq<ApiReplyView>,
    step: int,
) -> FlowView<ApiCallView>
    decreases 5 - step,
{
    if step >= 5 {
        FlowView::Finished
    } else if step >= replies.len() || step < 0 {
        FlowView::Perform(config_call(id, machine, step))
    } else {
        match config_error(step, replies[step]) {
            Some(e) => FlowView::Aborted(e),
            None => config_flow_from(id, machine, replies, step + 1),
        }
    }
}

/// What configuration does next given the replies to the calls made so far.
pub open spec fn config_flow(
    id: Seq<char>,
    machine: MachineConfig,
    replies: Seq<ApiReplyView>,
) -> FlowView<ApiCallView> {
    config_flow_from(id, machine, replies, 0)
}

/// The path of a configuration step.
pub fn config_step_path(step: usize) -> (path: &'static str)
    ensures
        path@ == config_path(step as int),
{
    if step == 0 {
        "/machine-config"
    } else if step == 1 {
        "/boot-source"
    } else if step == 2 {
        "/drives/rootfs"
    } else if step == 3 {
        "/network-interfaces/eth0"
    } else {
        "/actions"
    }
}

fn config_failure_text(step: usize) -> (label: &'static str)
    ensures
        label@ == config_failure(step as int),
{
    if step == 0 {
        "Machine config failed: "
    } else if step == 1 {
        "Boot source config failed: "
    } else if step == 2 {
        "Rootfs config failed: "
    } else if step == 3 {
        "Network config failed: "
    } else {
        "VM start failed: "
    }
}

/// Judges the reply to a configuration step.
pub fn config_step_error(step: usize, reply: &ApiReply) -> (error: Option<ExecutionError>)
    ensures
        match config_error(step as int, reply@) {
            Some(e) => error matches Some(got) && got@ == e,
            None => error.is_none(),
        },
{
    match api_reply_error("PUT", config_step_path(step), reply) {
        Some(inner) => {
            let text = inner.to_string();
            Some(
                ExecutionError::ApiCommunicationError(
                    join2(config_failure_text(step), text.as_str()),
                ),
            )
        },
        None => None,
    }
}

/// Writes the body that sets the machine resources.
pub fn write_machine_config(machine: &MachineConfig) -> (body: String)
    ensures
        body@ == machine_config_body(*machine),
{
    let mut members: Vec<JsonMember> = Vec::new();
    assert(views(members@) =~= Seq::<MemberView>::empty());
    push_member(&mut members, flag_member("ht_enabled", machine.ht_enabled));
    push_member(&mut members, number_member("mem_size_mib", machine.mem_size_mib));
    push_member(&mut members, number_member("vcpu_count", machine.vcpu_count));
    assert(views(members@) =~= seq![
        MemberView { key: "ht_enabled"@, value: ScalarView::Flag(machine.ht_enabled) },
        MemberView { key: "mem_size_mib"@, value: ScalarView::Number(machine.mem_size_mib as nat) },
        MemberView { key: "vcpu_count"@, value: ScalarView::Number(machine.vcpu_count as nat) },
    ]);
    proof {
        reveal_strlit("ht_enabled");
        reveal_strlit("mem_size_mib");
        reveal_strlit("vcpu_count");
        lemma_text_before("ht_enabled"@, "mem_size_mib"@, 0);
        lemma_text_before("ht_enabled"@, "vcpu_count"@, 0);
        lemma_text_before("mem_size_mib"@, "vcpu_count"@, 0);
        assert(keys_ascending(views(members@)));
    }
    write_object(&members)
}

impl VMManager {
    /// Addresses a call to this instance's control socket.
    pub fn send_api_request(&self, method: &str, path: &str, body: Option<String>) -> (call:
        ApiCall)
        ensures
            call@ == (ApiCallView {
                socket_path: socket_path_of(self@.vm_id),
                method: method@,
                path: path@,
                body: match body {
                    Some(b) => Some(b@),
                    None => None,
                },
            }),
    {
        ApiCall {
            socket_path: String::from_str(self.socket_path()),
            method: String::from_str(method),
            path: String::from_str(path),
            body,
        }
    }

    /// The kernel command line the guest is booted with.
    pub fn boot_args(&self) -> (args: String)
        ensures
            args@ == boot_args_of(self@.vm_id),
    {
        let host = self.host_ip();
        let mut args = join2(
            "console=ttyS0 reboot=k panic=1 pci=off init=/usr/local/bin/startup.sh ip=",
            self.vm_ip(),
        );
        args.append("::");
        args.append(host.as_str());
        args.append(":255.255.255.0::eth0:off");
        args
    }

    /// Writes the body of a configuration step.
    pub fn config_step_body(&self, machine: &MachineConfig, step: usize) -> (body: String)
        ensures
            body@ == config_body(self@.vm_id, *machine, step as int),
    {
        let mut members: Vec<JsonMember> = Vec::new();
        assert(views(members@) =~= Seq::<MemberView>::empty());
        if step == 0 {
            write_machine_config(machine)
        } else if step == 1 {
            let args = self.boot_args();
            push_member(&mut members, text_member("boot_args", args.as_str()));
            push_member(&mut members, text_member("kernel_image_path", "./hello-vmlinux.bin"));
            assert(views(members@) =~= seq![
                MemberView { key: "boot_args"@, value: ScalarView::Text(boot_args_of(self@.vm_id)) },
                MemberView {
                    key: "kernel_image_path"@,
                    value: ScalarView::Text("./hello-vmlinux.bin"@),
                },
            ]);
            proof {
                reveal_strlit("boot_args");
                reveal_strlit("kernel_image_path");
                lemma_text_before("boot_args"@, "kernel_image_path"@, 0);
                assert(keys_ascending(views(members@)));
            }
            write_object(&members)
        } else if step == 2 {
            push_member(&mut members, text_member("drive_id", "rootfs"));
            push_member(&mut members, flag_member("is_read_only", false));
            push_member(&mut members, flag_member("is_root_device", true));
            push_member(&mut members, text_member("path_on_host", "./alpine-python-api.ext4"));
            assert(views(members@) =~= seq![
                MemberView { key: "drive_id"@, value: ScalarView::Text("rootfs"@) },
                MemberView { key: "is_read_only"@, value: ScalarView::Flag(false) },
                MemberView { key: "is_root_device"@, value: ScalarView::Flag(true) },
                MemberView {
                    key: "path_on_host"@,
                    value: ScalarView::Text("./alpine-python-api.ext4"@),
                },
            ]);
            proof {
                reveal_strlit("drive_id");
                reveal_strlit("is_read_only");
                reveal_strlit("is_root_device");
                reveal_strlit("path_on_host");
                lemma_text_before("drive_id"@, "is_read_only"@, 0);
                lemma_text_before("drive_id"@, "is_root_device"@, 0);
                lemma_text_before("drive_id"@, "path_on_host"@, 0);
                lemma_text_before("is_read_only"@, "is_root_device"@, 4);
                lemma_text_before("is_read_only"@, "path_on_host"@, 0);
                lemma_text_before("is_root_device"@, "path_on_host"@, 0);
                assert(keys_ascending(views(members@)));
            }
            write_object(&members)
        } else if step == 3 {
            push_member(&mut members, text_member("guest_mac", "AA:FC:00:00:00:01"));
            push_member(&mut members, text_member("host_dev_name", self.tap_interface()));
            push_member(&mut members, text_member("iface_id", "eth0"));
            assert(views(members@) =~= seq![
                MemberView { key: "guest_mac"@, value: ScalarView::Text("AA:FC:00:00:00:01"@) },
                MemberView {
                    key: "host_dev_name"@,
                    value: ScalarView::Text(tap_interface_of(self@.vm_id)),
                },
                MemberView { key: "iface_id"@, value: ScalarView::Text("eth0"@) },
            ]);
            proof {
                reveal_strlit("guest_mac");
                reveal_strlit("host_dev_name");
                reveal_strlit("iface_id");
                lemma_text_before("guest_mac"@, "host_dev_name"@, 0);
                lemma_text_before("guest_mac"@, "iface_id"@, 0);
                lemma_text_before("host_dev_name"@, "iface_id"@, 0);
                assert(keys_ascending(views(members@)));
            }
            write_object(&members)
        } else {
            push_member(&mut members, text_member("action_type", "InstanceStart"));
            assert(views(members@) =~= seq![
                MemberView { key: "action_type"@, value: ScalarView::Text("InstanceStart"@) },
            ]);
            assert(keys_ascending(views(members@)));
            write_object(&members)
        }
    }

    /// Decides what configuring the guest does next, given the replies to the
    /// configuration calls made so far, in order.
    ///
    /// The calls go out in a fixed order, each only after the one before it
    /// has succeeded. The first reply that is no success aborts: nothing is
    /// retried and no later call is asked for.
    pub fn configure_and_run_vm(&self, machine: &MachineConfig, replies: &Vec<ApiReply>) -> (flow:
        Flow<ApiCall>)
        ensures
            flow@ == config_flow(self@.vm_id, *machine, views(replies@)),
    {
        let mut step: usize = 0;
        while step < CONFIG_STEPS
            invariant
                step <= 5,
                config_flow(self@.vm_id, *machine, views(replies@)) == config_flow_from(
                    self@.vm_id,
                    *machine,
                    views(replies@),
                    step as int,
                ),
            decreases 5 - step,
        {
            if step >= replies.len() {
                let body = self.config_step_body(machine, step);
                return Flow::Perform(
                    self.send_api_request("PUT", config_step_path(step), Some(body)),
                );
            }
            assert(views(replies@)[step as int] == replies@[step as int]@);
            match config_step_error(step, &replies[step]) {
                Some(e) => {
                    return Flow::Aborted(e);
                },
                None => {},
            }
            step += 1;
        }
        Flow::Finished
    }
}

/// The start action is asked for only after the four configuration calls
/// before it have all succeeded: where any of them failed, the hypervisor is
/// never told to start the guest.
pub proof fn lemma_start_needs_configuration(
    id: Seq<char>,
    machine: MachineConfig,
    replies: Seq<ApiReplyView>,
)
    requires
        config_flow(id, machine, replies) matches FlowView::Perform(call) && call.path
            == "/actions"@,
    ensures
        replies.len() >= 4,
        forall|i: int| 0 <= i < 4 ==> config_error(i, replies[i]) is None,
{
    reveal_strlit("/machine-config");
    reveal_strlit("/boot-source");
    reveal_strlit("/drives/rootfs");
    reveal_strlit("/network-interfaces/eth0");
    reveal_strlit("/actions");
    assert("/machine-config"@[1] != "/actions"@[1]);
    assert("/boot-source"@[1] != "/actions"@[1]);
    assert("/drives/rootfs"@[1] != "/actions"@[1]);
    assert("/network-interfaces/eth0"@[1] != "/actions"@[1]);
    let f0 = config_flow_from(id, machine, replies, 0);
    let f1 = config_flow_from(id, machine, replies, 1);
    let f2 = config_flow_from(id, machine, replies, 2);
    let f3 = config_flow_from(id, machine, replies, 3);
    let f4 = config_flow_from(id, machine, replies, 4);
    assert(replies.len() > 0 && config_error(0, replies[0]) is None && f0 == f1);
    assert(replies.len() > 1 && config_error(1, replies[1]) is None && f1 == f2);
    assert(replies.len() > 2 && config_error(2, replies[2]) is None && f2 == f3);
    assert(replies.len() > 3 && config_error(3, replies[3]) is None && f3 == f4);
}

/// A configuration call that is answered with a failure ends configuration
/// at once, whatever replies follow it in the history.
pub proof fn lemma_first_failure_aborts(
    id: Seq<char>,
    machine: MachineConfig,
    replies: Seq<ApiReplyView>,
    step: int,
    failed: int,
)
    requires
        0 <= step <= failed < 5,
        failed < replies.len(),
        config_error(failed, replies[failed]) is Some,
        forall|i: int| step <= i < failed ==> config_error(i, replies[i]) is None,
    ensures
        config_flow_from(id, machine, replies, step) == FlowView::<ApiCallView>::Aborted(
            config_error(failed, replies[failed])->0,
        ),
    decreases failed - step,
{
    if step < failed {
        lemma_first_failure_aborts(id, machine, replies, step + 1, failed);
    }
}

} // verus!
