//! What a front end needs around an execution: the checks on a payload
//! before it is run, and the shape of a reported failure.
use vstd::prelude::*;
use vstd::string::*;
use crate::json::{
    keys_ascending, object_text, text_member, write_object, JsonMember, MemberView, ScalarView,
};
use crate::plan::views;
use crate::text::join2;
use crate::{
    create_error_response, ErrorView, ExecuteResponse, ExecutionError, ResponseView,
};

verus! {

/// The most bytes of code one request may carry.
pub const MAX_CODE_LENGTH: usize = 10000;

/// The text that `str::trim` leaves of `s`: `s` without its leading and
/// trailing white space.
pub uninterp spec fn trimmed_text(s: Seq<char>) -> Seq<char>;

/// Whether `t` is a piece of `s`: what is left of `s` when some of its
/// beginning and some of its end are taken away.
pub open spec fn is_piece_of(t: Seq<char>, s: Seq<char>) -> bool {
    exists|from: int, to: int| 0 <= from <= to <= s.len() && t == #[trigger] s.subrange(from, to)
}

/// Strips leading and trailing white space.
///
/// The body calls `str::trim`, which returns a slice of its argument. The
/// contract is not proved: it gives the result its name and claims that it
/// is a piece of the argument. Which characters count as white space it
/// leaves to the name.
#[verifier::external_body]
fn trimmed(s: &str) -> (t: &str)
    ensures
        t@ == trimmed_text(s@),
        is_piece_of(t@, s@),
{
    s.trim()
}

/// Why a payload is refused, if it is: code that is blank, or longer than
/// the limit.
pub open spec fn payload_fault(code: &str) -> Option<Seq<char>> {
    if trimmed_text(code@).len() == 0 {
        Some("Empty code provided"@)
    } else if code.spec_bytes().len() > 10000 {
        Some("Code exceeds maximum length of 10,000 characters"@)
    } else {
        None
    }
}

/// Checks a payload before it is run. A refused payload is answered with a
/// failed response that carries the reason and no output.
pub fn validate_code(code: &str) -> (refusal: Option<ExecuteResponse>)
    ensures
        match payload_fault(code) {
            Some(reason) => refusal matches Some(r) && r@ == (ResponseView {
                stdout: Seq::<char>::empty(),
                stderr: reason,
                success: false,
            }),
            None => refusal.is_none(),
        },
        is_piece_of(trimmed_text(code@), code@),
{
    if trimmed(code).is_empty() {
        Some(create_error_response(String::from_str("Empty code provided")))
    } else if code.as_bytes().len() > MAX_CODE_LENGTH {
        Some(
            create_error_response(
                String::from_str("Code exceeds maximum length of 10,000 characters"),
            ),
        )
    } else {
        None
    }
}

/// Builds the response that reports a failed execution: no output, and the
/// error's text as standard error.
pub fn failure_response(error: &ExecutionError) -> (response: ExecuteResponse)
    ensures
        response@ == (ResponseView {
            stdout: Seq::<char>::empty(),
            stderr: "Execution failed: "@ + error@.message(),
            success: false,
        }),
{
    let text = error.to_string();
    create_error_response(join2("Execution failed: ", text.as_str()))
}

/// The JSON text that reports an error on its own: an object whose only
/// member holds the error's text.
pub open spec fn error_text(error: ErrorView) -> Seq<char> {
    object_text(seq![MemberView { key: "error"@, value: ScalarView::Text(error.message()) }])
}

/// Writes the JSON body that reports an error on its own.
pub fn error_body(error: &ExecutionError) -> (body: String)
    ensures
        body@ == error_text(error@),
{
    let text = error.to_string();
    let mut members: Vec<JsonMember> = Vec::new();
    members.push(text_member("error", text.as_str()));
    assert(views(members@) =~= seq![
        MemberView { key: "error"@, value: ScalarView::Text(error@.message()) },
    ]);
    assert(keys_ascending(views(members@)));
    write_object(&members)
}

/// Builds the error for a machine configuration that could not be read.
pub fn machine_config_unreadable(reason: &str) -> (error: ExecutionError)
    ensures
        error@ == ErrorView::ResourceError("Failed to read machine config: "@ + reason@),
{
    ExecutionError::ResourceError(join2("Failed to read machine config: ", reason))
}

/// Builds the error for a machine configuration that is no valid
/// configuration.
pub fn machine_config_malformed(reason: &str) -> (error: ExecutionError)
    ensures
        error@ == ErrorView::SerializationError("Malformed machine config: "@ + reason@),
{
    ExecutionError::SerializationError(join2("Malformed machine config: ", reason))
}

} // verus!
