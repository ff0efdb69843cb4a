//! Provisioning of an instance's network link: the three commands that
//! create, address and raise it, and what their outcomes mean.
use vstd::prelude::*;
use vstd::string::*;
use crate::identity::{host_ip_of, tap_interface_of};
use crate::plan::{
    command, push_text, views, Command, CommandOutcome, CommandOutcomeView, CommandView, Flow,
    FlowView,
};
use crate::runner::VMManager;
use crate::plan::texts;
use crate::text::{chars_of, contains_text, find, find_in_window, join2};
use crate::{ErrorView, ExecutionError};

verus! {

/// Number of commands that provision a link.
pub const PROVISION_STEPS: usize = 3;

/// The command that creates the link.
pub open spec fn create_link_command(id: Seq<char>) -> CommandView {
    CommandView {
        program: "sudo"@,
        args: seq!["ip"@, "tuntap"@, "add"@, "dev"@, tap_interface_of(id), "mode"@, "tap"@],
    }
}

/// The command that gives the host's end of the link its address, with a
/// 24-bit mask.
pub open spec fn assign_address_command(id: Seq<char>) -> CommandView {
    CommandView {
        program: "sudo"@,
        args: seq!["ip"@, "addr"@, "add"@, host_ip_of(id) + "/24"@, "dev"@, tap_interface_of(id)],
    }
}

/// The command that brings the link up.
pub open spec fn link_up_command(id: Seq<char>) -> CommandView {
    CommandView {
        program: "sudo"@,
        args: seq!["ip"@, "link"@, "set"@, "dev"@, tap_interface_of(id), "up"@],
    }
}

/// The command that deletes a link.
pub open spec fn delete_link_command(name: Seq<char>) -> CommandView {
    CommandView { program: "sudo"@, args: seq!["ip"@, "link"@, "delete"@, name] }
}

/// The command that lists the host's links of the kind that instances use.
pub open spec fn list_links_command() -> CommandView {
    CommandView { program: "ip"@, args: seq!["link"@, "show"@, "type"@, "tun"@] }
}

/// The provisioning command of a step: create, then address, then raise.
pub open spec fn provision_command(id: Seq<char>, step: int) -> CommandView {
    if step == 0 {
        create_link_command(id)
    } else if step == 1 {
        assign_address_command(id)
    } else {
        link_up_command(id)
    }
}

/// What is reported when a provisioning step fails.
pub open spec fn provision_failure(step: int) -> Seq<char> {
    if step == 0 {
        "Failed to create TAP interface"@
    } else if step == 1 {
        "Failed to configure TAP interface"@
    } else {
        "Failed to bring up TAP interface"@
    }
}

/// The error that a provisioning step's outcome amounts to, if any. A command
/// that could not be run and one that ran and failed are both reported with
/// the error text that came with the failure.
pub open spec fn provision_error(step: int, outcome: CommandOutcomeView) -> Option<ErrorView> {
    match outcome {
        CommandOutcomeView::Succeeded => None,
        CommandOutcomeView::Failed(e) => Some(
            ErrorView::ResourceError(provision_failure(step) + ": "@ + e),
        ),
        CommandOutcomeView::SpawnFailed(e) => Some(
            ErrorView::ResourceError(provision_failure(step) + ": "@ + e),
        ),
    }
}

/// What provisioning does next, from step `step` on, given the outcomes of the
/// commands run so far: the first failed step aborts; once all three have
/// succeeded provisioning is finished; otherwise the next command is due.
pub open spec fn provision_flow_from(
    id: Seq<char>,
    outcomes: Seq<CommandOutcomeView>,
    step: int,
) -> FlowView<CommandView>
    decreases 3 - step,
{
    if step >= 3 {
        FlowView::Finished
    } else if step >= outcomes.len() || step < 0 {
        FlowView::Perform(provision_command(id, step))
    } else {
        match provision_error(step, outcomes[step]) {
            Some(e) => FlowView::Aborted(e),
            None => provision_flow_from(id, outcomes, step + 1),
        }
    }
}

/// What provisioning does next given the outcomes of the commands run so far.
pub open spec fn provision_flow(id: Seq<char>, outcomes: Seq<CommandOutcomeView>) -> FlowView<
    CommandView,
> {
    provision_flow_from(id, outcomes, 0)
}

/// The end of the first line of `text`: the position of its first line feed,
/// or its length where it has none.
pub open spec fn line_end(text: Seq<char>) -> int {
    match find(text, seq!['\n']) {
        Some(k) => if 0 <= k < text.len() {
            k
        } else {
            text.len() as int
        },
        None => text.len() as int,
    }
}

/// The link that one line of a link listing names: the text from the first
/// `tap-` up to the colon that follows it. A line without the prefix, or
/// without a colon after it, names none.
pub open spec fn link_name_in(line: Seq<char>) -> Option<Seq<char>> {
    match find(line, "tap-"@) {
        None => None,
        Some(start) => match find(line.subrange(start, line.len() as int), ":"@) {
            None => None,
            Some(len) => Some(line.subrange(start, start + len)),
        },
    }
}

/// Whether a listed link is stale: no pooled instance uses it and it is not
/// the link of the instance being provisioned.
pub open spec fn is_stale(name: Seq<char>, active: Seq<Seq<char>>, own: Seq<char>) -> bool {
    !active.contains(name) && name != own
}

/// The stale links that a link listing names, line by line, in the order of
/// the listing.
pub open spec fn stale_links(text: Seq<char>, active: Seq<Seq<char>>, own: Seq<char>) -> Seq<
    Seq<char>,
>
    decreases text.len(),
{
    if text.len() == 0 {
        Seq::empty()
    } else {
        let end = line_end(text);
        let rest = if 0 <= end < text.len() {
            stale_links(text.subrange(end + 1, text.len() as int), active, own)
        } else {
            Seq::empty()
        };
        match link_name_in(text.subrange(0, end)) {
            Some(name) => if is_stale(name, active, own) {
                seq![name] + rest
            } else {
                rest
            },
            None => rest,
        }
    }
}

/// Builds the text reported for a failed provisioning step.
fn provision_failure_text(step: usize) -> (s: &'static str)
    ensures
        s@ == provision_failure(step as int),
{
    if step == 0 {
        "Failed to create TAP interface"
    } else if step == 1 {
        "Failed to configure TAP interface"
    } else {
        "Failed to bring up TAP interface"
    }
}

/// Judges the outcome of one provisioning step.
pub fn provision_step_error(step: usize, outcome: &CommandOutcome) -> (error: Option<
    ExecutionError,
>)
    ensures
        match provision_error(step as int, outcome@) {
            Some(e) => error matches Some(got) && got@ == e,
            None => error.is_none(),
        },
{
    match outcome {
        CommandOutcome::Succeeded => None,
        CommandOutcome::Failed(e) => {
            let text = join2(provision_failure_text(step), ": ").concat(e.as_str());
            Some(ExecutionError::ResourceError(text))
        },
        CommandOutcome::SpawnFailed(e) => {
            let text = join2(provision_failure_text(step), ": ").concat(e.as_str());
            Some(ExecutionError::ResourceError(text))
        },
    }
}

/// Builds the command that deletes the link called `name`.
pub fn delete_link(name: &str) -> (c: Command)
    ensures
        c@ == delete_link_command(name@),
{
    let mut args: Vec<String> = Vec::new();
    assert(crate::plan::texts(args@) =~= Seq::<Seq<char>>::empty());
    push_text(&mut args, "ip");
    push_text(&mut args, "link");
    push_text(&mut args, "delete");
    push_text(&mut args, name);
    let c = command("sudo", args);
    assert(c@.args =~= delete_link_command(name@).args);
    c
}

/// Builds the command that lists the links instances could have left behind.
pub fn list_links() -> (c: Command)
    ensures
        c@ == list_links_command(),
{
    let mut args: Vec<String> = Vec::new();
    assert(crate::plan::texts(args@) =~= Seq::<Seq<char>>::empty());
    push_text(&mut args, "link");
    push_text(&mut args, "show");
    push_text(&mut args, "type");
    push_text(&mut args, "tun");
    let c = command("ip", args);
    assert(c@.args =~= list_links_command().args);
    c
}

impl VMManager {
    /// Builds the provisioning command of a step.
    pub fn provision_step(&self, step: usize) -> (c: Command)
        ensures
            c@ == provision_command(self@.vm_id, step as int),
    {
        let tap = self.tap_interface();
        let mut args: Vec<String> = Vec::new();
        assert(crate::plan::texts(args@) =~= Seq::<Seq<char>>::empty());
        push_text(&mut args, "ip");
        if step == 0 {
            push_text(&mut args, "tuntap");
            push_text(&mut args, "add");
            push_text(&mut args, "dev");
            push_text(&mut args, tap);
            push_text(&mut args, "mode");
            push_text(&mut args, "tap");
            let c = command("sudo", args);
            assert(c@.args =~= create_link_command(self@.vm_id).args);
            c
        } else if step == 1 {
            let address = self.host_ip().concat("/24");
            push_text(&mut args, "addr");
            push_text(&mut args, "add");
            push_text(&mut args, address.as_str());
            push_text(&mut args, "dev");
            push_text(&mut args, tap);
            let c = command("sudo", args);
            assert(c@.args =~= assign_address_command(self@.vm_id).args);
            c
        } else {
            push_text(&mut args, "link");
            push_text(&mut args, "set");
            push_text(&mut args, "dev");
            push_text(&mut args, tap);
            push_text(&mut args, "up");
            let c = command("sudo", args);
            assert(c@.args =~= link_up_command(self@.vm_id).args);
            c
        }
    }

    /// Decides what provisioning the network does next, given the outcomes of
    /// the provisioning commands run so far, in order.
    ///
    /// All three steps must succeed. The first failure aborts with a resource
    /// error; no later command is asked for.
    pub fn setup_networking(&self, outcomes: &Vec<CommandOutcome>) -> (flow: Flow<Command>)
        ensures
            flow@ == provision_flow(self@.vm_id, views(outcomes@)),
    {
        let mut step: usize = 0;
        while step < PROVISION_STEPS
            invariant
                step <= 3,
                provision_flow(self@.vm_id, views(outcomes@)) == provision_flow_from(
                    self@.vm_id,
                    views(outcomes@),
                    step as int,
                ),
            decreases 3 - step,
        {
            if step >= outcomes.len() {
                return Flow::Perform(self.provision_step(step));
            }
            assert(views(outcomes@)[step as int] == outcomes@[step as int]@);
            match provision_step_error(step, &outcomes[step]) {
                Some(e) => {
                    return Flow::Aborted(e);
                },
                None => {},
            }
            step += 1;
        }
        Flow::Finished
    }

    /// Reads a link listing and picks the links to reclaim before this
    /// instance's own link is created: every listed link that neither a pooled
    /// instance (`active` holds their link names) nor this instance uses.
    pub fn stale_tap_interfaces(&self, listing: &str, active: &Vec<String>) -> (stale: Vec<
        String,
    >)
        ensures
            texts(stale@) == stale_links(
                listing@,
                texts(active@),
                tap_interface_of(self@.vm_id),
            ),
    {
        let own = String::from_str(self.tap_interface());
        let chars = chars_of(listing);
        let n = chars.len();
        let feed = chars_of("\n");
        let prefix = chars_of("tap-");
        let colon = chars_of(":");
        proof {
            reveal_strlit("\n");
            assert(feed@ =~= seq!['\n']);
        }
        let ghost text = listing@;
        let ghost act = texts(active@);
        let mut stale: Vec<String> = Vec::new();
        let mut pos: usize = 0;
        assert(texts(stale@) =~= Seq::<Seq<char>>::empty());
        assert(text.subrange(0, n as int) =~= text);
        while pos < n
            invariant
                pos <= n,
                n == text.len(),
                text == listing@,
                chars@ == text,
                act == texts(active@),
                feed@ == seq!['\n'],
                prefix@ == "tap-"@,
                colon@ == ":"@,
                own@ == tap_interface_of(self@.vm_id),
                stale_links(text, act, own@) == texts(stale@) + stale_links(
                    text.subrange(pos as int, n as int),
                    act,
                    own@,
                ),
            decreases n - pos,
        {
            let ghost rem = text.subrange(pos as int, n as int);
            let end = match find_in_window(&chars, pos, n, &feed) {
                Some(e) => e,
                None => n,
            };
            assert(line_end(rem) == end - pos);
            let ghost line = rem.subrange(0, end - pos);
            assert(line =~= text.subrange(pos as int, end as int));
            let ghost before = texts(stale@);
            match find_in_window(&chars, pos, end, &prefix) {
                Some(start) => {
                    assert(line.subrange(start - pos, line.len() as int) =~= text.subrange(
                        start as int,
                        end as int,
                    ));
                    match find_in_window(&chars, start, end, &colon) {
                        Some(stop) => {
                            let name = String::from_str(listing.substring_char(start, stop));
                            assert(line.subrange(start - pos, start - pos + (stop - start))
                                =~= text.subrange(start as int, stop as int));
                            assert(link_name_in(line) == Some(name@));
                            if !contains_text(active, &name) && name != own {
                                stale.push(name);
                                assert(texts(stale@) =~= before + seq![name@]);
                            }
                        },
                        None => {
                            assert(link_name_in(line) is None);
                        },
                    }
                },
                None => {
                    assert(link_name_in(line) is None);
                },
            }
            let next = if end < n {
                end + 1
            } else {
                n
            };
            proof {
                if end < n {
                    assert(rem.subrange(end - pos + 1, rem.len() as int) =~= text.subrange(
                        next as int,
                        n as int,
                    ));
                } else {
                    assert(text.subrange(next as int, n as int).len() == 0);
                }
                let rest = stale_links(text.subrange(next as int, n as int), act, own@);
                assert(stale_links(rem, act, own@) == match link_name_in(line) {
                    Some(name) => if is_stale(name, act, own@) {
                        seq![name] + rest
                    } else {
                        rest
                    },
                    None => rest,
                });
                assert(before + (seq![link_name_in(line).unwrap()] + rest) =~= (before
                    + seq![link_name_in(line).unwrap()]) + rest);
            }
            pos = next;
        }
        assert(texts(stale@) + Seq::<Seq<char>>::empty() =~= texts(stale@));
        stale
    }

    /// Builds the command that removes the instance's link. Removal is
    /// best-effort: whatever its outcome, teardown goes on.
    pub fn cleanup_networking(&self) -> (c: Command)
        ensures
            c@ == delete_link_command(tap_interface_of(self@.vm_id)),
    {
        delete_link(self.tap_interface())
    }
}

} // verus!
