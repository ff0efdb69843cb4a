use firecracker_poc::channel::exchange_result;
use firecracker_poc::{
    create_error_response, create_success_response, generate_vm_id, ExecuteRequest,
    ExecuteResponse, ExecutionError,
};

#[test]
fn test_execute_request_deserialization() {
    let json = r#"{"code": "print('Hello, World!')"}"#;
    let request: ExecuteRequest = ExecuteRequest::from_json(json).unwrap();
    assert_eq!(request.code, "print('Hello, World!')");
}

#[test]
fn test_execute_response_serialization() {
    let response = ExecuteResponse {
        stdout: "Hello, World!\n".to_string(),
        stderr: String::new(),
        success: true,
    };
    let json = response.to_json();
    assert!(json.contains("Hello, World!"));
    assert!(json.contains("\"success\":true"));
}

#[test]
fn test_vm_id_generation() {
    let id1 = generate_vm_id();
    let id2 = generate_vm_id();

    // IDs should be different
    assert_ne!(id1, id2);

    // IDs should be valid UUID format (36 characters with dashes)
    assert_eq!(id1.len(), 36);
    assert!(id1.contains('-'));
}

#[test]
fn test_success_response_creation() {
    let response = create_success_response("output".to_string(), "".to_string());
    assert_eq!(response.stdout, "output");
    assert_eq!(response.stderr, "");
    assert!(response.success);
}

#[test]
fn test_error_response_creation() {
    let response = create_error_response("error message".to_string());
    assert_eq!(response.stdout, "");
    assert_eq!(response.stderr, "error message");
    assert!(!response.success);
}

#[test]
fn test_execution_error_display() {
    let error = ExecutionError::ProcessSpawnError("failed to start".to_string());
    assert_eq!(
        format!("{}", error.to_string()),
        "Process spawning error: failed to start"
    );

    let timeout_error = ExecutionError::TimeoutError;
    assert_eq!(
        format!("{}", timeout_error.to_string()),
        "Execution timed out after 30 seconds"
    );
}

#[test]
fn every_error_kind_has_its_text() {
    let cases = vec![
        (
            ExecutionError::ApiCommunicationError("x".to_string()),
            "API communication error: x",
        ),
        (ExecutionError::TimeoutError, "Execution timed out after 30 seconds"),
        (
            ExecutionError::TimeoutErrorWithLogs("boot log".to_string()),
            "Execution timed out. Logs:\nboot log",
        ),
        (
            ExecutionError::SerializationError("bad".to_string()),
            "Serialization error: bad",
        ),
        (
            ExecutionError::ResourceError("no space".to_string()),
            "Resource management error: no space",
        ),
        (
            ExecutionError::ProcessSpawnError("gone".to_string()),
            "Process spawning error: gone",
        ),
    ];
    for (error, text) in cases {
        assert_eq!(error.to_string(), text);
    }
}

#[test]
fn only_serialization_errors_blame_the_caller() {
    assert_eq!(ExecutionError::SerializationError("bad".to_string()).status_code(), 400);
    assert_eq!(ExecutionError::ApiCommunicationError("x".to_string()).status_code(), 500);
    assert_eq!(ExecutionError::TimeoutError.status_code(), 500);
    assert_eq!(ExecutionError::TimeoutErrorWithLogs("l".to_string()).status_code(), 500);
    assert_eq!(ExecutionError::ResourceError("r".to_string()).status_code(), 500);
    assert_eq!(ExecutionError::ProcessSpawnError("p".to_string()).status_code(), 500);
}

#[test]
fn request_json_round_trips_through_the_parser() {
    let code = "print(\"a\\b\")\n\t# caf\u{e9} \u{1}";
    let request = ExecuteRequest { code: code.to_string() };
    let json = request.to_json();
    assert_eq!(
        json,
        "{\"code\":\"print(\\\"a\\\\b\\\")\\n\\t# caf\u{e9} \\u0001\"}"
    );
    let parsed: serde_json::Value = serde_json::from_str(&json).unwrap();
    assert_eq!(parsed.get("code").and_then(|c| c.as_str()), Some(code));
    assert_eq!(ExecuteRequest::from_json(&json).unwrap().code, code);
}

#[test]
fn request_without_a_code_string_is_refused() {
    assert!(ExecuteRequest::from_json("{\"code\": 7}").is_none());
    assert!(ExecuteRequest::from_json("{\"other\": \"x\"}").is_none());
    assert!(ExecuteRequest::from_json("[\"code\"]").is_none());
    assert!(ExecuteRequest::from_json("{\"code\": \"x\"").is_none());
    assert!(ExecuteRequest::from_json("").is_none());
}

#[test]
fn response_json_is_exact() {
    let response = ExecuteResponse {
        stdout: "4\n".to_string(),
        stderr: "warn: \"x\"".to_string(),
        success: false,
    };
    assert_eq!(
        response.to_json(),
        "{\"stderr\":\"warn: \\\"x\\\"\",\"stdout\":\"4\\n\",\"success\":false}"
    );
}

#[test]
fn missing_members_default_to_empty_and_failure() {
    let response = ExecuteResponse::from_members(None, None, None);
    assert_eq!(response.stdout, "");
    assert_eq!(response.stderr, "");
    assert!(!response.success);
    let response = ExecuteResponse::from_members(Some("o".to_string()), None, Some(true));
    assert_eq!(response.stdout, "o");
    assert_eq!(response.stderr, "");
    assert!(response.success);
}

#[test]
fn guest_crash_is_a_failed_result_not_an_error() {
    let response = exchange_result(None, None);
    assert!(!response.success);
    assert_eq!(response.stdout, "");
    assert!(!response.stderr.is_empty());
    assert_eq!(
        response.stderr,
        "Guest exited without writing any result; it may have crashed before the code ran"
    );
}

#[test]
fn exchange_success_means_empty_stderr() {
    let ok = exchange_result(Some("4\n".to_string()), Some(String::new()));
    assert_eq!(ok.stdout, "4\n");
    assert_eq!(ok.stderr, "");
    assert!(ok.success);

    let only_stdout = exchange_result(Some("4\n".to_string()), None);
    assert_eq!(only_stdout.stdout, "4\n");
    assert!(only_stdout.success);

    let failed = exchange_result(Some("".to_string()), Some("Traceback".to_string()));
    assert_eq!(failed.stderr, "Traceback");
    assert!(!failed.success);

    let only_stderr = exchange_result(None, Some("boom".to_string()));
    assert_eq!(only_stderr.stdout, "");
    assert_eq!(only_stderr.stderr, "boom");
    assert!(!only_stderr.success);
}
