use kube_agent::kubelet_health::{connection_error_json_text, response_json_text, KubeletHealth};

#[test]
fn kubelet_health_response_wire_shape() {
    let health = KubeletHealth::Response {
        status_code: 200,
        response: "ok".to_string(),
    };
    assert_eq!(
        health.to_json().expect("KubeletHealth always serializes"),
        r#"{"status_code":200,"response":"ok"}"#
    );
}

#[test]
fn kubelet_health_connection_error_wire_shape() {
    let health = KubeletHealth::ConnectionError {
        message: "connection refused".to_string(),
    };
    assert_eq!(
        health.to_json().expect("KubeletHealth always serializes"),
        r#"{"message":"connection refused"}"#
    );
}

#[test]
fn bodies_are_written_as_escaped_json_strings() {
    let health = KubeletHealth::Response {
        status_code: 503,
        response: "not \"ok\"\n".to_string(),
    };
    assert_eq!(
        health.to_json().expect("KubeletHealth always serializes"),
        r#"{"status_code":503,"response":"not \"ok\"\n"}"#
    );
}

#[test]
fn status_codes_are_written_in_decimal() {
    assert_eq!(response_json_text(0, "\"\""), r#"{"status_code":0,"response":""}"#);
    assert_eq!(response_json_text(65535, "\"x\""), r#"{"status_code":65535,"response":"x"}"#);
    assert_eq!(connection_error_json_text("\"m\""), r#"{"message":"m"}"#);
}

#[test]
fn the_outcome_decides_the_variant() {
    match KubeletHealth::from_outcome(Ok((404, "missing".to_string()))) {
        KubeletHealth::Response { status_code, response } => {
            assert_eq!(status_code, 404);
            assert_eq!(response, "missing");
        }
        other => panic!("unexpected {other:?}"),
    }
    match KubeletHealth::from_outcome(Err("timed out".to_string())) {
        KubeletHealth::ConnectionError { message } => assert_eq!(message, "timed out"),
        other => panic!("unexpected {other:?}"),
    }
}

#[test]
fn control_characters_are_escaped_as_serde_json_escapes_them() {
    let health = KubeletHealth::ConnectionError {
        message: "a\u{1}b\u{8}\u{c}\r\t\\/é\u{1f}".to_string(),
    };
    assert_eq!(
        health.to_json().expect("KubeletHealth always serializes"),
        "{\"message\":\"a\\u0001b\\b\\f\\r\\t\\\\/é\\u001f\"}"
    );
}
