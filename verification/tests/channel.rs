use firecracker_poc::channel::{decode_response, execution_result, GuestReply};
use firecracker_poc::control::HttpStatus;
use firecracker_poc::{ExecutionError, VMManager};

const SAMPLE: &str = "deadbeef-1234-4abc-8def-0123456789ab";

fn sample() -> VMManager {
    VMManager::from_id(SAMPLE.to_string()).unwrap()
}

fn answered(code: u16, body: &str) -> GuestReply {
    GuestReply::Answered(HttpStatus::new(code).unwrap(), Ok(body.to_string()))
}

fn communication_error(reply: &GuestReply) -> String {
    match execution_result(reply) {
        Err(ExecutionError::ApiCommunicationError(text)) => text,
        other => panic!("expected a communication error, got {other:?}"),
    }
}

/// A guest that behaves: it reads the request as the agent does and answers
/// the one program it knows.
fn mock_guest(request_body: &str) -> GuestReply {
    let request: serde_json::Value = serde_json::from_str(request_body).unwrap();
    match request.get("code").and_then(|c| c.as_str()) {
        Some("print(2 + 2)") => answered(200, "{\"stdout\": \"4\\n\", \"stderr\": \"\", \"success\": true}"),
        _ => answered(400, "unknown program"),
    }
}

#[test]
fn round_trip_through_a_well_behaved_guest() {
    let vm = sample();
    let request = vm.execute_code_via_api("print(2 + 2)");
    assert_eq!(request.url, "http://172.16.140.2:8080/execute");
    assert_eq!(request.body.as_deref(), Some("{\"code\":\"print(2 + 2)\"}"));
    assert_eq!(request.timeout_seconds, 35);
    let reply = mock_guest(request.body.as_deref().unwrap());
    let response = execution_result(&reply).unwrap();
    assert_eq!(response.stdout, "4\n");
    assert_eq!(response.stderr, "");
    assert!(response.success);
}

#[test]
fn code_is_escaped_on_its_way_to_the_guest() {
    let vm = sample();
    let code = "print(\"he said \\\"hi\\\"\")\n";
    let request = vm.execute_code_via_api(code);
    assert_eq!(
        request.body.as_deref(),
        Some("{\"code\":\"print(\\\"he said \\\\\\\"hi\\\\\\\"\\\")\\n\"}")
    );
    let parsed: serde_json::Value = serde_json::from_str(request.body.as_deref().unwrap()).unwrap();
    assert_eq!(parsed.get("code").and_then(|c| c.as_str()), Some(code));
}

#[test]
fn a_failed_program_is_a_result_not_an_error() {
    let reply = answered(
        200,
        "{\"stdout\":\"\",\"stderr\":\"NameError: name 'x' is not defined\\n\",\"success\":false}",
    );
    let response = execution_result(&reply).unwrap();
    assert_eq!(response.stdout, "");
    assert_eq!(response.stderr, "NameError: name 'x' is not defined\n");
    assert!(!response.success);
}

#[test]
fn members_of_the_wrong_kind_count_as_absent() {
    let response = decode_response("{\"stdout\": 4, \"stderr\": null, \"success\": \"true\"}").unwrap();
    assert_eq!(response.stdout, "");
    assert_eq!(response.stderr, "");
    assert!(!response.success);
    let response = decode_response("{}").unwrap();
    assert_eq!(response.stdout, "");
    assert_eq!(response.stderr, "");
    assert!(!response.success);
    let response = decode_response("[1, 2]").unwrap();
    assert_eq!(response.stdout, "");
    assert!(!response.success);
    let response = decode_response("{\"stdout\":\"caf\\u00e9\",\"success\":true,\"extra\":1}").unwrap();
    assert_eq!(response.stdout, "caf\u{e9}");
    assert_eq!(response.stderr, "");
    assert!(response.success);
}

#[test]
fn transport_failures_are_communication_errors() {
    assert_eq!(
        communication_error(&GuestReply::SendFailed("operation timed out".to_string())),
        "Failed to send request: operation timed out"
    );
    assert_eq!(
        communication_error(&answered(500, "{\"stdout\":\"4\\n\",\"success\":true}")),
        "API request failed with status: 500 Internal Server Error"
    );
    assert_eq!(
        communication_error(&answered(404, "")),
        "API request failed with status: 404 Not Found"
    );
    assert_eq!(
        communication_error(&GuestReply::Answered(
            HttpStatus::new(200).unwrap(),
            Err("connection reset".to_string())
        )),
        "Failed to parse response: connection reset"
    );
    // A body that is unread does not matter where the status is no success.
    assert_eq!(
        communication_error(&GuestReply::Answered(
            HttpStatus::new(502).unwrap(),
            Err("connection reset".to_string())
        )),
        "API request failed with status: 502 Bad Gateway"
    );
}

#[test]
fn a_body_that_is_no_json_is_a_communication_error() {
    let text = communication_error(&answered(200, "<html>oops</html>"));
    let expected = serde_json::from_str::<serde_json::Value>("<html>oops</html>")
        .unwrap_err()
        .to_string();
    assert_eq!(text, format!("Failed to parse response: {expected}"));
    assert_eq!(text, "Failed to parse response: expected value at line 1 column 1");
    assert!(matches!(
        decode_response(""),
        Err(ExecutionError::ApiCommunicationError(_))
    ));
    assert!(matches!(
        decode_response("{\"stdout\":\"x\""),
        Err(ExecutionError::ApiCommunicationError(_))
    ));
}

#[test]
fn shutdown_is_asked_for_without_a_body() {
    let vm = sample();
    let request = vm.shutdown_request();
    assert_eq!(request.url, "http://172.16.140.2:8080/shutdown");
    assert_eq!(request.body, None);
    assert_eq!(request.timeout_seconds, 5);
    assert_eq!(vm.health_url(), "http://172.16.140.2:8080/health");
}
