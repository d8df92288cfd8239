//! Workload tests: many requests, long lists, mixed kinds of request. They
//! check what comes back, not how fast.

use p4_mcp::mcp::codec::parse_message;
use p4_mcp::mcp::{
    CallToolParams, Dispatch, MCPMessage, MCPResponse, MCPServer, RequestId, ToolContent,
};

fn call(id: &str, name: &str, arguments: &str) -> MCPMessage {
    MCPMessage::CallTool {
        id: RequestId::Text(id.to_string()),
        params: CallToolParams {
            name: name.to_string(),
            arguments: serde_json::from_str(arguments).unwrap(),
        },
    }
}

fn text_of(server: &mut MCPServer, message: MCPMessage) -> (RequestId, String) {
    match server.handle_message(message) {
        Dispatch::Reply(MCPResponse::CallToolResult { id, result }) => {
            assert_eq!(result.content.len(), 1);
            match &result.content[0] {
                ToolContent::Text { text } => (id, text.clone()),
                _ => panic!("Expected a text block"),
            }
        }
        _ => panic!("Expected CallToolResult"),
    }
}

#[test]
fn test_high_volume_message_processing() {
    let mut server = MCPServer::new(true);
    let message_count = 1000;
    let mut success_count = 0;

    for i in 0..message_count {
        let message = call(
            &format!("perf-test-{}", i),
            "p4_status",
            &format!(r#"{{"path": "//depot/test/{}/..."}}"#, i),
        );
        let (id, text) = text_of(&mut server, message);
        assert_eq!(id, RequestId::Text(format!("perf-test-{}", i)));
        assert!(text.contains(&format!("//depot/test/{}/...", i)));
        success_count += 1;
    }

    assert_eq!(success_count, message_count);
}

#[test]
fn test_large_file_lists_performance() {
    let mut server = MCPServer::new(true);
    let file_counts = vec![10, 100, 1000, 5000];

    for file_count in file_counts {
        let files: Vec<String> = (0..file_count)
            .map(|i| format!("large_test_file_{}.cpp", i))
            .collect();
        let arguments = serde_json::Value::Object(
            vec![(
                "files".to_string(),
                serde_json::Value::Array(
                    files
                        .iter()
                        .map(|f| serde_json::Value::String(f.clone()))
                        .collect(),
                ),
            )]
            .into_iter()
            .collect(),
        );
        let message = MCPMessage::CallTool {
            id: RequestId::Text(format!("large-files-{}", file_count)),
            params: CallToolParams {
                name: "p4_edit".to_string(),
                arguments,
            },
        };

        let (_, text) = text_of(&mut server, message);
        assert!(text.contains(&format!("{} file(s) opened for edit", file_count)));
        assert!(text.contains(&files.join(", ")));
    }
}

#[test]
fn test_concurrent_message_processing() {
    // One server handles the requests of many callers one after another.
    let mut server = MCPServer::new(true);
    let concurrent_requests = 50;
    let messages: Vec<MCPMessage> = (0..concurrent_requests)
        .map(|i| {
            call(
                &format!("concurrent-{}", i),
                "p4_status",
                &format!(r#"{{"path": "//depot/concurrent/{}/..."}}"#, i),
            )
        })
        .collect();

    let answers = server.handle_all(messages);
    assert_eq!(answers.len(), concurrent_requests);
    for (i, answer) in answers.iter().enumerate() {
        match answer {
            Dispatch::Reply(MCPResponse::CallToolResult { id, .. }) => {
                assert_eq!(*id, RequestId::Text(format!("concurrent-{}", i)));
            }
            _ => panic!("Expected CallToolResult"),
        }
    }
}

#[test]
fn test_memory_usage_with_large_responses() {
    let mut server = MCPServer::new(true);

    for i in 0..100 {
        let message = call(
            &format!("memory-test-{}", i),
            "p4_changes",
            &format!(r#"{{"max": 10, "path": "//depot/memory-test/{}/..."}}"#, i),
        );
        let (_, text) = text_of(&mut server, message);
        assert!(text.contains("Mock P4 Changes"));
        assert_eq!(text.lines().count(), 6);
    }
}

#[test]
fn test_response_time_consistency() {
    // The same request gets the same answer every time.
    let mut server = MCPServer::new(true);
    let (_, first) = text_of(
        &mut server,
        call("timing-test-0", "p4_status", r#"{"path": "//depot/timing-test/..."}"#),
    );
    for i in 1..100 {
        let (_, text) = text_of(
            &mut server,
            call(
                &format!("timing-test-{}", i),
                "p4_status",
                r#"{"path": "//depot/timing-test/..."}"#,
            ),
        );
        assert_eq!(text, first);
    }
}

#[test]
fn test_timeout_handling() {
    let mut server = MCPServer::new(true);
    let message = call(
        "timeout-test",
        "p4_sync",
        r#"{"path": "//depot/timeout-test/...", "force": false}"#,
    );
    let (id, text) = text_of(&mut server, message);
    assert_eq!(id, RequestId::Text("timeout-test".to_string()));
    assert!(text.contains("//depot/timeout-test/..."));
    assert!(!text.contains("(forced)"));
}

#[test]
fn test_all_tools_performance() {
    let mut server = MCPServer::new(true);
    let tools_and_args = vec![
        ("p4_status", r#"{"path": "//depot/perf/..."}"#),
        ("p4_sync", r#"{"path": "//depot/perf/...", "force": false}"#),
        ("p4_edit", r#"{"files": ["file1.cpp", "file2.h"]}"#),
        ("p4_add", r#"{"files": ["new_file.cpp"]}"#),
        (
            "p4_submit",
            r#"{"description": "Performance test submit", "files": ["file1.cpp"]}"#,
        ),
        ("p4_revert", r#"{"files": ["file1.cpp"]}"#),
        ("p4_opened", r#"{}"#),
        ("p4_changes", r#"{"max": 10}"#),
    ];

    for round in 0..100 {
        for (tool_name, args) in tools_and_args.iter() {
            let message = call(&format!("all-tools-{}", round), tool_name, args);
            let (_, text) = text_of(&mut server, message);
            assert!(text.starts_with("Mock P4 "));
        }
    }
}

#[test]
fn test_mixed_workload_performance() {
    let mut server = MCPServer::new(true);
    let total_operations = 200;

    for i in 0..total_operations {
        let line = match i % 6 {
            0 => format!(
                r#"{{"method": "initialize", "id": "mixed-{}", "params": {{"protocolVersion": "2024-11-05", "capabilities": {{"roots": {{"listChanged": false}}}}, "clientInfo": {{"name": "perf-test", "version": "1.0"}}}}}}"#,
                i
            ),
            1 => format!(r#"{{"method": "tools/list", "id": "mixed-{}"}}"#, i),
            2 => format!(
                r#"{{"method": "tools/call", "id": "mixed-{}", "params": {{"name": "p4_status", "arguments": {{"path": "//depot/mixed/..."}}}}}}"#,
                i
            ),
            3 => format!(
                r#"{{"method": "tools/call", "id": "mixed-{}", "params": {{"name": "p4_edit", "arguments": {{"files": ["file{}.cpp"]}}}}}}"#,
                i, i
            ),
            4 => format!(
                r#"{{"method": "tools/call", "id": "mixed-{}", "params": {{"name": "p4_changes", "arguments": {{"max": 10}}}}}}"#,
                i
            ),
            _ => format!(r#"{{"method": "ping", "id": "mixed-{}"}}"#, i),
        };
        let message = parse_message(&line).unwrap();
        let response = match server.handle_message(message) {
            Dispatch::Reply(response) => response,
            Dispatch::Spawn(_) => panic!("Expected a reply from the mock backend"),
        };
        let expected = RequestId::Text(format!("mixed-{}", i));
        match (i % 6, response) {
            (0, MCPResponse::InitializeResult { id, .. }) => assert_eq!(id, expected),
            (1, MCPResponse::ListToolsResult { id, .. }) => assert_eq!(id, expected),
            (2, MCPResponse::CallToolResult { id, .. }) => assert_eq!(id, expected),
            (3, MCPResponse::CallToolResult { id, .. }) => assert_eq!(id, expected),
            (4, MCPResponse::CallToolResult { id, .. }) => assert_eq!(id, expected),
            (5, MCPResponse::Pong { id }) => assert_eq!(id, expected),
            (kind, other) => panic!("Unexpected response {:?} for kind {}", other, kind),
        }
    }
}

#[test]
fn test_stress_test_rapid_fire() {
    let mut server = MCPServer::new(true);
    let rapid_fire_count = 500;

    for i in 0..rapid_fire_count {
        let tool = if i % 10 == 0 { "p4_opened" } else { "p4_status" };
        let (id, text) = text_of(&mut server, call(&format!("rapid-{}", i), tool, "{}"));
        assert_eq!(id, RequestId::Text(format!("rapid-{}", i)));
        if i % 10 == 0 {
            assert!(text.starts_with("Mock P4 Opened:"));
        } else {
            assert!(text.starts_with("Mock P4 Status for current directory:"));
        }
    }
}
