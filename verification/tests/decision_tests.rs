use tool_proxy::decision::{decide_for_tool, evaluate_candidate, judge_candidate, render_name_list,
    RejectKind, Verdict};
use tool_proxy::schema::{compile_validators, find_tool, Tool};

fn stock_schema() -> serde_json::Value {
    serde_json::from_str(
        "{\"type\":\"object\",\"properties\":{\"symbol\":{\"type\":\"string\"}},\"required\":[\"symbol\"]}",
    )
    .unwrap()
}

fn stock_catalog() -> Vec<Tool> {
    vec![Tool {
        name: String::from("get_stock_price"),
        description: Some(String::from("Quote a ticker symbol")),
        parameters: stock_schema(),
    }]
}

#[test]
fn find_tool_by_name() {
    let tools = stock_catalog();
    assert_eq!(find_tool(&tools, "get_stock_price"), Some(0));
    assert_eq!(find_tool(&tools, "other"), None);
}

#[test]
fn render_name_list_quotes_and_brackets() {
    let tools = stock_catalog();
    assert_eq!(render_name_list(&tools), "[\"get_stock_price\"]");
}

#[test]
fn compile_validators_one_per_tool() {
    let tools = stock_catalog();
    let validators = compile_validators(&tools).unwrap();
    assert_eq!(validators.len(), 1);
}

#[test]
fn compile_validators_rejects_bad_schema() {
    let tools = vec![Tool {
        name: String::from("broken"),
        description: None,
        parameters: serde_json::from_str("{\"type\": 5}").unwrap(),
    }];
    let err = match compile_validators(&tools) {
        Err(e) => e,
        Ok(_) => panic!("expected the schema to be refused"),
    };
    assert!(err.starts_with("Invalid schema for tool broken: "));
}

#[test]
fn accepting_candidate_names_catalog_tool() {
    let tools = stock_catalog();
    let validators = compile_validators(&tools).unwrap();
    let parsed: serde_json::Value =
        serde_json::from_str("{\"name\":\"get_stock_price\",\"arguments\":{\"symbol\":\"AAPL\"}}")
            .unwrap();
    match evaluate_candidate(&parsed, &tools, &validators) {
        Verdict::Accept { tool_name, arguments_text } => {
            assert_eq!(tool_name, "get_stock_price");
            let args: serde_json::Value = serde_json::from_str(&arguments_text).unwrap();
            let expected: serde_json::Value =
                serde_json::from_str("{\"symbol\":\"AAPL\"}").unwrap();
            assert_eq!(args, expected);
        }
        other => panic!("expected acceptance, got {:?}", other),
    }
}

#[test]
fn non_object_candidate_is_rejected() {
    let tools = stock_catalog();
    let validators = compile_validators(&tools).unwrap();
    let parsed: serde_json::Value = serde_json::from_str("[1, 2]").unwrap();
    match evaluate_candidate(&parsed, &tools, &validators) {
        Verdict::Reject { kind, message } => {
            assert_eq!(kind, RejectKind::NotAnObject);
            assert_eq!(message, "Output is not a valid JSON object.");
        }
        other => panic!("expected rejection, got {:?}", other),
    }
}

#[test]
fn missing_name_is_rejected() {
    let tools = stock_catalog();
    let validators = compile_validators(&tools).unwrap();
    let parsed: serde_json::Value =
        serde_json::from_str("{\"arguments\":{\"symbol\":\"AAPL\"}}").unwrap();
    match evaluate_candidate(&parsed, &tools, &validators) {
        Verdict::Reject { kind, message } => {
            assert_eq!(kind, RejectKind::MissingName);
            assert_eq!(message, "JSON missing 'name' field.");
        }
        other => panic!("expected rejection, got {:?}", other),
    }
}

#[test]
fn unknown_tool_rejection_lists_catalog_names() {
    let tools = stock_catalog();
    let validators = compile_validators(&tools).unwrap();
    let parsed: serde_json::Value =
        serde_json::from_str("{\"name\":\"unknown_tool\",\"arguments\":{}}").unwrap();
    match evaluate_candidate(&parsed, &tools, &validators) {
        Verdict::Reject { kind, message } => {
            assert_eq!(kind, RejectKind::UnknownTool);
            assert_eq!(
                message,
                "Tool 'unknown_tool' does not exist. Available tools: [\"get_stock_price\"]"
            );
        }
        other => panic!("expected rejection, got {:?}", other),
    }
}

#[test]
fn schema_violation_is_rejected_with_details() {
    let tools = stock_catalog();
    let validators = compile_validators(&tools).unwrap();
    let parsed: serde_json::Value =
        serde_json::from_str("{\"name\":\"get_stock_price\",\"arguments\":{}}").unwrap();
    match evaluate_candidate(&parsed, &tools, &validators) {
        Verdict::Reject { kind, message } => {
            assert_eq!(kind, RejectKind::SchemaViolation);
            assert!(message.starts_with("Arguments failed validation: "));
            assert!(message.contains("symbol"));
        }
        other => panic!("expected rejection, got {:?}", other),
    }
}

#[test]
fn absent_arguments_default_to_empty_object() {
    let tools = vec![Tool {
        name: String::from("ping"),
        description: None,
        parameters: serde_json::from_str("{\"type\":\"object\"}").unwrap(),
    }];
    let validators = compile_validators(&tools).unwrap();
    let parsed: serde_json::Value = serde_json::from_str("{\"name\":\"ping\"}").unwrap();
    match evaluate_candidate(&parsed, &tools, &validators) {
        Verdict::Accept { tool_name, arguments_text } => {
            assert_eq!(tool_name, "ping");
            assert_eq!(arguments_text, "{}");
        }
        other => panic!("expected acceptance, got {:?}", other),
    }
}

#[test]
fn decide_for_tool_joins_violations() {
    let violations = vec![String::from("first"), String::from("second")];
    match decide_for_tool(String::from("t"), String::from("{}"), &violations) {
        Verdict::Reject { kind, message } => {
            assert_eq!(kind, RejectKind::SchemaViolation);
            assert_eq!(message, "Arguments failed validation: first; second");
        }
        other => panic!("expected rejection, got {:?}", other),
    }
}

#[test]
fn judge_accepts_known_tool_without_violations() {
    let tools = stock_catalog();
    let violations: Vec<String> = Vec::new();
    match judge_candidate(
        true,
        Some(String::from("get_stock_price")),
        String::from("{\"symbol\":\"AAPL\"}"),
        &tools,
        &violations,
    ) {
        Verdict::Accept { tool_name, arguments_text } => {
            assert_eq!(tool_name, "get_stock_price");
            assert_eq!(arguments_text, "{\"symbol\":\"AAPL\"}");
        }
        other => panic!("expected acceptance, got {:?}", other),
    }
}

#[test]
fn judge_rejects_each_defect_in_order() {
    let tools = stock_catalog();
    let violations: Vec<String> = Vec::new();
    match judge_candidate(false, None, String::new(), &tools, &violations) {
        Verdict::Reject { kind, message } => {
            assert_eq!(kind, RejectKind::NotAnObject);
            assert_eq!(message, "Output is not a valid JSON object.");
        }
        other => panic!("expected rejection, got {:?}", other),
    }
    match judge_candidate(true, None, String::new(), &tools, &violations) {
        Verdict::Reject { kind, message } => {
            assert_eq!(kind, RejectKind::MissingName);
            assert_eq!(message, "JSON missing 'name' field.");
        }
        other => panic!("expected rejection, got {:?}", other),
    }
    match judge_candidate(
        true,
        Some(String::from("unknown_tool")),
        String::new(),
        &tools,
        &violations,
    ) {
        Verdict::Reject { kind, message } => {
            assert_eq!(kind, RejectKind::UnknownTool);
            assert_eq!(
                message,
                "Tool 'unknown_tool' does not exist. Available tools: [\"get_stock_price\"]"
            );
        }
        other => panic!("expected rejection, got {:?}", other),
    }
    let some_violations = vec![String::from("first"), String::from("second")];
    match judge_candidate(
        true,
        Some(String::from("get_stock_price")),
        String::from("{}"),
        &tools,
        &some_violations,
    ) {
        Verdict::Reject { kind, message } => {
            assert_eq!(kind, RejectKind::SchemaViolation);
            assert_eq!(message, "Arguments failed validation: first; second");
        }
        other => panic!("expected rejection, got {:?}", other),
    }
}

#[test]
fn remote_reference_schema_is_refused_without_retrieval() {
    let tools = vec![Tool {
        name: String::from("remote"),
        description: None,
        parameters: serde_json::from_str("{\"$ref\": \"http://example.invalid/schema.json\"}")
            .unwrap(),
    }];
    assert!(matches!(compile_validators(&tools), Err(_)));
}
