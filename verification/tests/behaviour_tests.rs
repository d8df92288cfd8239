//! Exact expected values for the command model, the mock strategy, the
//! argument decoder, the wire format and the text helpers.

use p4_mcp::mcp::arguments::{command_for, count_arg, flag_arg, list_arg, text_arg};
use p4_mcp::mcp::codec::{
    encode_message, encode_response, message_from_value, message_value, parse_message,
    response_value, DecodeError,
};
use p4_mcp::mcp::registry::ToolRegistry;
use p4_mcp::mcp::{
    CallToolParams, CallToolResult, ClientCapabilities, ClientInfo, InitializeParams,
    InitializeResult, MCPError, MCPMessage, MCPResponse, MCPServer, RequestId,
    ResourcesCapability, PromptsCapability, LoggingCapability, RootsCapability,
    SamplingCapability, ServerCapabilities, ServerInfo, ToolContent, ToolsCapability,
};
use p4_mcp::p4::mock::mock_output;
use p4_mcp::p4::{
    Execution, ExecutionError, Invocation, P4Command, P4Handler, ProcessOutcome,
};
use p4_mcp::text::{decimal_string, join_strings};

fn json(text: &str) -> serde_json::Value {
    serde_json::from_str(text).unwrap()
}

fn strings(items: &[&str]) -> Vec<String> {
    items.iter().map(|s| s.to_string()).collect()
}

#[test]
fn test_decimal_string_values() {
    assert_eq!(decimal_string(0), "0");
    assert_eq!(decimal_string(7), "7");
    assert_eq!(decimal_string(10), "10");
    assert_eq!(decimal_string(12345), "12345");
    assert_eq!(decimal_string(4294967295), "4294967295");
    assert_eq!(decimal_string(u64::MAX), "18446744073709551615");
}

#[test]
fn test_join_strings_values() {
    assert_eq!(join_strings(&strings(&[]), ", "), "");
    assert_eq!(join_strings(&strings(&["a"]), ", "), "a");
    assert_eq!(join_strings(&strings(&["a", "b", "c"]), ", "), "a, b, c");
    assert_eq!(join_strings(&strings(&["", ""]), "-"), "-");
}

#[test]
fn test_program_is_p4_for_every_command() {
    let commands = vec![
        P4Command::Status { path: None },
        P4Command::Sync {
            path: "...".to_string(),
            force: false,
        },
        P4Command::Edit { files: vec![] },
        P4Command::Add { files: vec![] },
        P4Command::Submit {
            description: String::new(),
            files: None,
        },
        P4Command::Revert { files: vec![] },
        P4Command::Opened { changelist: None },
        P4Command::Changes { max: 0, path: None },
        P4Command::Info,
    ];
    for command in commands {
        let (program, _) = command.to_command_args();
        assert_eq!(program, "p4");
    }
}

#[test]
fn test_arguments_stay_separate_and_unquoted() {
    let command = P4Command::Submit {
        description: "a \"quoted\" change; rm -rf /".to_string(),
        files: Some(strings(&["my file.txt", "$HOME"])),
    };
    let (_, args) = command.to_command_args();
    assert_eq!(
        args,
        vec![
            "submit",
            "-d",
            "a \"quoted\" change; rm -rf /",
            "my file.txt",
            "$HOME"
        ]
    );

    let command = P4Command::Sync {
        path: "//depot/main/...".to_string(),
        force: false,
    };
    let (_, args) = command.to_command_args();
    assert_eq!(args, vec!["sync", "//depot/main/..."]);

    let command = P4Command::Submit {
        description: "d".to_string(),
        files: Some(vec![]),
    };
    let (_, args) = command.to_command_args();
    assert_eq!(args, vec!["submit", "-d", "d"]);

    let command = P4Command::Changes {
        max: u32::MAX,
        path: None,
    };
    let (_, args) = command.to_command_args();
    assert_eq!(args, vec!["changes", "-m", "4294967295"]);
}

#[test]
fn test_mock_status_text() {
    assert_eq!(
        mock_output(&P4Command::Status {
            path: Some("//depot/a/...".to_string())
        }),
        "Mock P4 Status for //depot/a/...:\n//depot/main/file1.txt#1 - edit default change (text)\n//depot/main/file2.cpp#2 - add default change (text)\n... (mock data)"
    );
    assert_eq!(
        mock_output(&P4Command::Status { path: None }),
        "Mock P4 Status for current directory:\n//depot/main/file1.txt#1 - edit default change (text)\n//depot/main/file2.cpp#2 - add default change (text)\n... (mock data)"
    );
}

#[test]
fn test_mock_sync_text() {
    assert_eq!(
        mock_output(&P4Command::Sync {
            path: "dir/...".to_string(),
            force: true
        }),
        "Mock P4 Sync (forced):\n//depot/main/dir/...#1 - updating /local/workspace/file1.txt\n//depot/main/dir/...#2 - updating /local/workspace/file2.cpp\n... synced 15 files"
    );
    assert_eq!(
        mock_output(&P4Command::Sync {
            path: "...".to_string(),
            force: false
        }),
        "Mock P4 Sync:\n//depot/main/...#1 - updating /local/workspace/file1.txt\n//depot/main/...#2 - updating /local/workspace/file2.cpp\n... synced 15 files"
    );
}

#[test]
fn test_mock_file_report_texts() {
    assert_eq!(
        mock_output(&P4Command::Edit {
            files: strings(&["a.cpp", "b.h"])
        }),
        "Mock P4 Edit:\nFiles opened for edit:\na.cpp, b.h\n... 2 file(s) opened for edit"
    );
    assert_eq!(
        mock_output(&P4Command::Add {
            files: strings(&["new.cpp"])
        }),
        "Mock P4 Add:\nFiles opened for add:\nnew.cpp\n... 1 file(s) opened for add"
    );
    assert_eq!(
        mock_output(&P4Command::Revert {
            files: strings(&["a", "b", "c"])
        }),
        "Mock P4 Revert:\nFiles reverted:\na, b, c\n... 3 file(s) reverted"
    );
}

#[test]
fn test_mock_edit_with_no_files() {
    assert_eq!(
        mock_output(&P4Command::Edit { files: vec![] }),
        "Mock P4 Edit:\nFiles opened for edit:\n\n... 0 file(s) opened for edit"
    );
    let mut server = MCPServer::new(true);
    let message = parse_message(
        r#"{"method":"tools/call","id":1,"params":{"name":"p4_edit","arguments":{"files":[]}}}"#,
    )
    .unwrap();
    match server.handle_message(message) {
        p4_mcp::mcp::Dispatch::Reply(MCPResponse::CallToolResult { result, .. }) => {
            match &result.content[0] {
                ToolContent::Text { text } => assert!(text.contains("0 file(s)")),
                _ => panic!("Expected a text block"),
            }
        }
        _ => panic!("Expected CallToolResult"),
    }
}

#[test]
fn test_mock_submit_texts() {
    assert_eq!(
        mock_output(&P4Command::Submit {
            description: "Fix bug".to_string(),
            files: Some(strings(&["a", "b"]))
        }),
        "Mock P4 Submit:\nChange description: Fix bug\nFiles: Specific files: a, b\nChange 12345 submitted successfully"
    );
    assert_eq!(
        mock_output(&P4Command::Submit {
            description: String::new(),
            files: None
        }),
        "Mock P4 Submit:\nChange description: \nFiles: All opened files\nChange 12345 submitted successfully"
    );
}

#[test]
fn test_mock_opened_texts() {
    assert_eq!(
        mock_output(&P4Command::Opened {
            changelist: Some("12346".to_string())
        }),
        "Mock P4 Opened in changelist 12346:\n//depot/main/file1.txt#1 - edit default change (text)\n//depot/main/file2.cpp#2 - add default change (text)\n//depot/main/file3.h#1 - edit change 12346 (text)"
    );
    assert_eq!(
        mock_output(&P4Command::Opened { changelist: None }),
        "Mock P4 Opened:\n//depot/main/file1.txt#1 - edit default change (text)\n//depot/main/file2.cpp#2 - add default change (text)\n//depot/main/file3.h#1 - edit change 12346 (text)"
    );
}

#[test]
fn test_mock_changes_texts() {
    assert_eq!(
        mock_output(&P4Command::Changes { max: 0, path: None }),
        "Mock P4 Changes (max: 0):\n"
    );
    assert_eq!(
        mock_output(&P4Command::Changes {
            max: 2,
            path: Some("//depot/x/...".to_string())
        }),
        "Mock P4 Changes (max: 2) for path //depot/x/...:\nChange 12350 on 2024/01/115 by user@workspace 'Sample change description 1'\nChange 12349 on 2024/01/116 by user@workspace 'Sample change description 2'\n"
    );
    let many = mock_output(&P4Command::Changes {
        max: 1000,
        path: None,
    });
    assert_eq!(
        many,
        "Mock P4 Changes (max: 1000):\nChange 12350 on 2024/01/115 by user@workspace 'Sample change description 1'\nChange 12349 on 2024/01/116 by user@workspace 'Sample change description 2'\nChange 12348 on 2024/01/117 by user@workspace 'Sample change description 3'\nChange 12347 on 2024/01/118 by user@workspace 'Sample change description 4'\nChange 12346 on 2024/01/119 by user@workspace 'Sample change description 5'\n"
    );
}

#[test]
fn test_mock_info_text() {
    assert_eq!(
        mock_output(&P4Command::Info),
        "Mock P4 Info:\nUser name: testuser\nClient name: test-client\nClient host: test-host\nClient root: C:\\workspace\\p4\\test-client\nCurrent directory: C:\\workspace\\p4\\test-client\\main\nPeer address: ssl:perforce.example.com:1666\nClient address: 192.168.1.100\nServer address: perforce.example.com:1666\nServer root: /opt/perforce/depot\nServer date: 2024/01/15 12:30:45 -0800 PST\nServer uptime: 15:32:18\nServer version: P4D/LINUX26X86_64/2023.1/2553040 (2023/06/15)\nServerID: perforce-server\nCase Handling: insensitive"
    );
}

#[test]
fn test_mock_answers_the_same_every_time() {
    let mut handler = P4Handler::new(true);
    let command = P4Command::Changes {
        max: 4,
        path: Some("//depot/...".to_string()),
    };
    let first = handler.execute(command.clone());
    let second = handler.execute(command.clone());
    assert_eq!(first, second);
    assert_eq!(first, Execution::Done(mock_output(&command)));
    assert_eq!(handler, P4Handler::new(true));
}

#[test]
fn test_real_strategy_gives_the_invocation() {
    let mut handler = P4Handler::new(false);
    let execution = handler.execute(P4Command::Opened {
        changelist: Some("77".to_string()),
    });
    assert_eq!(
        execution,
        Execution::Spawn(Invocation {
            program: "p4".to_string(),
            args: strings(&["opened", "-c", "77"]),
        })
    );
}

#[test]
fn test_conclude_results() {
    assert_eq!(
        P4Handler::conclude(ProcessOutcome::Exited {
            success: true,
            stdout: b"out".to_vec(),
            stderr: b"err".to_vec()
        }),
        Ok("out".to_string())
    );
    assert_eq!(
        P4Handler::conclude(ProcessOutcome::Exited {
            success: false,
            stdout: b"out".to_vec(),
            stderr: b"err".to_vec()
        }),
        Err(ExecutionError::ToolFailed("err".to_string()))
    );
    assert_eq!(
        P4Handler::conclude(ProcessOutcome::SpawnFailed {
            reason: "not found".to_string()
        }),
        Err(ExecutionError::SpawnFailed("not found".to_string()))
    );
    // Bytes that are not UTF-8 are replaced, not passed through.
    assert_eq!(
        P4Handler::conclude(ProcessOutcome::Exited {
            success: true,
            stdout: vec![b'a', 0xff, b'b'],
            stderr: Vec::new()
        }),
        Ok("a\u{fffd}b".to_string())
    );
    assert_eq!(
        P4Handler::result_of_exit(true, "o".to_string(), "e".to_string()),
        Ok("o".to_string())
    );
    assert_eq!(
        P4Handler::result_of_exit(false, "o".to_string(), "e".to_string()),
        Err(ExecutionError::ToolFailed("e".to_string()))
    );
}

#[test]
fn test_respond_values() {
    let ok = MCPServer::respond(RequestId::Number(5), Ok("text".to_string()));
    assert_eq!(
        ok,
        MCPResponse::CallToolResult {
            id: RequestId::Number(5),
            result: CallToolResult {
                content: vec![ToolContent::Text {
                    text: "text".to_string()
                }]
            }
        }
    );
    let failed = MCPServer::respond(
        RequestId::Text("x".to_string()),
        Err(ExecutionError::ToolFailed("boom".to_string())),
    );
    assert_eq!(
        failed,
        MCPResponse::Error {
            id: RequestId::Text("x".to_string()),
            error: MCPError {
                code: -32603,
                message: "p4 command failed: boom".to_string(),
                data: None
            }
        }
    );
}

#[test]
fn test_typed_accessors() {
    let bag = json(
        r#"{"s": "text", "b": true, "n": 42, "neg": -1, "real": 1.5, "big": 18446744073709551615,
            "list": ["a", 1, "b", null, ["c"], "d"], "null": null}"#,
    );
    assert_eq!(text_arg(&bag, "s"), Some("text".to_string()));
    assert_eq!(text_arg(&bag, "b"), None);
    assert_eq!(text_arg(&bag, "missing"), None);
    assert_eq!(text_arg(&bag, "null"), None);

    assert_eq!(flag_arg(&bag, "b"), Some(true));
    assert_eq!(flag_arg(&bag, "s"), None);
    assert_eq!(flag_arg(&bag, "missing"), None);

    assert_eq!(count_arg(&bag, "n"), Some(42));
    assert_eq!(count_arg(&bag, "big"), Some(u64::MAX));
    assert_eq!(count_arg(&bag, "neg"), None);
    assert_eq!(count_arg(&bag, "real"), None);
    assert_eq!(count_arg(&bag, "s"), None);

    assert_eq!(list_arg(&bag, "list"), Some(strings(&["a", "b", "d"])));
    assert_eq!(list_arg(&bag, "s"), None);
    assert_eq!(list_arg(&bag, "missing"), None);

    // A bag that is no object has no members.
    let not_a_bag = json(r#"["s"]"#);
    assert_eq!(text_arg(&not_a_bag, "s"), None);
    assert_eq!(text_arg(&serde_json::Value::Null, "s"), None);
}

#[test]
fn test_command_for_defaults() {
    let empty = json("{}");
    assert_eq!(
        command_for("p4_status", &empty),
        Some(P4Command::Status { path: None })
    );
    assert_eq!(
        command_for("p4_sync", &empty),
        Some(P4Command::Sync {
            path: "...".to_string(),
            force: false
        })
    );
    assert_eq!(
        command_for("p4_edit", &empty),
        Some(P4Command::Edit { files: vec![] })
    );
    assert_eq!(
        command_for("p4_add", &empty),
        Some(P4Command::Add { files: vec![] })
    );
    assert_eq!(
        command_for("p4_submit", &empty),
        Some(P4Command::Submit {
            description: String::new(),
            files: None
        })
    );
    assert_eq!(
        command_for("p4_revert", &empty),
        Some(P4Command::Revert { files: vec![] })
    );
    assert_eq!(
        command_for("p4_opened", &empty),
        Some(P4Command::Opened { changelist: None })
    );
    assert_eq!(
        command_for("p4_changes", &empty),
        Some(P4Command::Changes {
            max: 10,
            path: None
        })
    );
    assert_eq!(command_for("p4_info", &empty), None);
    assert_eq!(command_for("", &empty), None);
    assert_eq!(command_for("P4_STATUS", &empty), None);
}

#[test]
fn test_command_for_given_arguments() {
    assert_eq!(
        command_for("p4_sync", &json(r#"{"path": "//depot/a/...", "force": true}"#)),
        Some(P4Command::Sync {
            path: "//depot/a/...".to_string(),
            force: true
        })
    );
    // A value of the wrong type counts as absent.
    assert_eq!(
        command_for("p4_sync", &json(r#"{"path": 5, "force": "yes"}"#)),
        Some(P4Command::Sync {
            path: "...".to_string(),
            force: false
        })
    );
    assert_eq!(
        command_for(
            "p4_submit",
            &json(r#"{"description": "d", "files": ["a", 2, "b"]}"#)
        ),
        Some(P4Command::Submit {
            description: "d".to_string(),
            files: Some(strings(&["a", "b"]))
        })
    );
    assert_eq!(
        command_for("p4_changes", &json(r#"{"max": 0, "path": "p"}"#)),
        Some(P4Command::Changes {
            max: 0,
            path: Some("p".to_string())
        })
    );
    // Of a count beyond 32 bits the low 32 bits are kept.
    assert_eq!(
        command_for("p4_changes", &json(r#"{"max": 4294967296}"#)),
        Some(P4Command::Changes { max: 0, path: None })
    );
    assert_eq!(
        command_for("p4_changes", &json(r#"{"max": 4294967303}"#)),
        Some(P4Command::Changes { max: 7, path: None })
    );
    assert_eq!(
        command_for("p4_changes", &json(r#"{"max": -3}"#)),
        Some(P4Command::Changes {
            max: 10,
            path: None
        })
    );
}

#[test]
fn test_changes_with_max_zero_through_the_server() {
    let mut server = MCPServer::new(true);
    let message = parse_message(
        r#"{"method":"tools/call","id":1,"params":{"name":"p4_changes","arguments":{"max":0}}}"#,
    )
    .unwrap();
    match server.handle_message(message) {
        p4_mcp::mcp::Dispatch::Reply(MCPResponse::CallToolResult { result, .. }) => {
            assert_eq!(
                result.content,
                vec![ToolContent::Text {
                    text: "Mock P4 Changes (max: 0):\n".to_string()
                }]
            );
        }
        _ => panic!("Expected CallToolResult"),
    }
}

#[test]
fn test_registry_contents() {
    let registry = ToolRegistry::new();
    for name in [
        "p4_status",
        "p4_sync",
        "p4_edit",
        "p4_add",
        "p4_submit",
        "p4_revert",
        "p4_opened",
        "p4_changes",
    ] {
        assert!(registry.contains(name));
    }
    assert!(!registry.contains("p4_info"));
    assert!(!registry.contains("p4_statu"));
    assert!(!registry.contains("p4_status "));
    assert!(!registry.contains(""));

    let tools = registry.list();
    assert_eq!(tools.len(), 8);
    assert_eq!(tools[0].name, "p4_status");
    assert_eq!(tools[0].description, "Get Perforce workspace status");
    assert_eq!(
        tools[0].input_schema,
        json(
            r#"{"type": "object", "properties": {"path": {"type": "string",
                "description": "Optional path to check status for"}}}"#
        )
    );
    assert_eq!(
        tools[1].input_schema,
        json(
            r#"{"type": "object", "properties": {
                "path": {"type": "string", "description": "Path to sync (e.g., //depot/main/...)"},
                "force": {"type": "boolean", "description": "Force sync (overwrite local changes)"}}}"#
        )
    );
    assert_eq!(
        tools[2].input_schema,
        json(
            r#"{"type": "object", "properties": {"files": {"type": "array",
                "items": {"type": "string"}, "description": "Files to open for edit"}},
                "required": ["files"]}"#
        )
    );
    assert_eq!(tools[3].description, "Add new file(s) to Perforce");
    assert_eq!(
        tools[4].input_schema,
        json(
            r#"{"type": "object", "properties": {
                "description": {"type": "string", "description": "Change description"},
                "files": {"type": "array", "items": {"type": "string"},
                    "description": "Optional specific files to submit"}},
                "required": ["description"]}"#
        )
    );
    assert_eq!(tools[5].description, "Revert files in Perforce");
    assert_eq!(
        tools[6].input_schema,
        json(
            r#"{"type": "object", "properties": {"changelist": {"type": "string",
                "description": "Optional changelist number"}}}"#
        )
    );
    assert_eq!(
        tools[7].input_schema,
        json(
            r#"{"type": "object", "properties": {
                "max": {"type": "integer", "description": "Maximum number of changes to return",
                    "default": 10},
                "path": {"type": "string", "description": "Optional path to filter changes"}}}"#
        )
    );
}

#[test]
fn test_request_ids_keep_their_form() {
    assert_eq!(
        parse_message(r#"{"method":"ping","id":7}"#),
        Ok(MCPMessage::Ping {
            id: RequestId::Number(7)
        })
    );
    assert_eq!(
        parse_message(r#"{"method":"ping","id":"7"}"#),
        Ok(MCPMessage::Ping {
            id: RequestId::Text("7".to_string())
        })
    );
    assert_eq!(
        parse_message(r#"{"method":"ping","id":-9223372036854775808}"#),
        Ok(MCPMessage::Ping {
            id: RequestId::Number(i64::MIN)
        })
    );
    assert_eq!(
        parse_message(r#"{"method":"ping","id":9223372036854775807}"#),
        Ok(MCPMessage::Ping {
            id: RequestId::Number(i64::MAX)
        })
    );
    for line in [
        r#"{"method":"ping","id":9223372036854775808}"#,
        r#"{"method":"ping","id":1.5}"#,
        r#"{"method":"ping","id":null}"#,
        r#"{"method":"ping","id":true}"#,
        r#"{"method":"ping","id":[1]}"#,
        r#"{"method":"ping"}"#,
    ] {
        assert_eq!(parse_message(line), Err(DecodeError::Unrecognized));
    }
}

#[test]
fn test_decode_errors() {
    for line in ["", "not json", "{", r#"{"method":"ping","id":1"#, "{} {}"] {
        assert_eq!(parse_message(line), Err(DecodeError::Malformed));
    }
    for line in [
        "null",
        "[]",
        "5",
        "{}",
        r#"{"id":1}"#,
        r#"{"method":5,"id":1}"#,
        r#"{"method":"Ping","id":1}"#,
        r#"{"method":"tools/call","id":1}"#,
        r#"{"method":"tools/call","id":1,"params":{"name":"p4_status"}}"#,
        r#"{"method":"tools/call","id":1,"params":{"arguments":{}}}"#,
        r#"{"method":"tools/call","id":1,"params":{"name":1,"arguments":{}}}"#,
        r#"{"method":"tools/call","id":1,"params":[]}"#,
        r#"{"method":"initialize","id":1,"params":{}}"#,
        r#"{"method":"initialize","id":1,"params":{"protocolVersion":"v","capabilities":{}}}"#,
        r#"{"method":"initialize","id":1,"params":{"protocolVersion":"v","clientInfo":{"name":"n","version":"v"}}}"#,
        r#"{"method":"initialize","id":1,"params":{"protocolVersion":"v","capabilities":[],"clientInfo":{"name":"n","version":"v"}}}"#,
        r#"{"method":"initialize","id":1,"params":{"protocolVersion":"v","capabilities":null,"clientInfo":{"name":"n","version":"v"}}}"#,
        r#"{"method":"initialize","id":1,"params":{"protocolVersion":"v","capabilities":{"roots":{}},"clientInfo":{"name":"n","version":"v"}}}"#,
        r#"{"method":"initialize","id":1,"params":{"protocolVersion":"v","capabilities":{"roots":{"listChanged":1}},"clientInfo":{"name":"n","version":"v"}}}"#,
        r#"{"method":"initialize","id":1,"params":{"protocolVersion":"v","capabilities":{"sampling":5},"clientInfo":{"name":"n","version":"v"}}}"#,
        r#"{"method":"initialize","id":1,"params":{"protocolVersion":"v","capabilities":{},"clientInfo":{"name":"n"}}}"#,
        r#"{"method":"initialize","id":1,"params":{"protocolVersion":2,"capabilities":{},"clientInfo":{"name":"n","version":"v"}}}"#,
    ] {
        assert_eq!(
            parse_message(line),
            Err(DecodeError::Unrecognized),
            "line: {}",
            line
        );
    }
}

#[test]
fn test_initialize_params_are_read() {
    let message = parse_message(
        r#"{"method":"initialize","id":1,"extra":true,"params":{"protocolVersion":"2024-11-05",
            "capabilities":{"roots":{"listChanged":true},"sampling":{}},
            "clientInfo":{"name":"n","version":"v"}}}"#,
    );
    assert_eq!(
        message,
        Ok(MCPMessage::Initialize {
            id: RequestId::Number(1),
            params: InitializeParams {
                protocol_version: "2024-11-05".to_string(),
                capabilities: ClientCapabilities {
                    roots: Some(RootsCapability { list_changed: true }),
                    sampling: Some(SamplingCapability {}),
                },
                client_info: ClientInfo {
                    name: "n".to_string(),
                    version: "v".to_string()
                },
            }
        })
    );
    let message = parse_message(
        r#"{"method":"initialize","id":1,"params":{"protocolVersion":"p",
            "capabilities":{"roots":null,"sampling":null},
            "clientInfo":{"name":"n","version":"v"}}}"#,
    )
    .unwrap();
    match message {
        MCPMessage::Initialize { params, .. } => {
            assert_eq!(
                params.capabilities,
                ClientCapabilities {
                    roots: None,
                    sampling: None
                }
            );
        }
        _ => panic!("Expected Initialize message"),
    }
}

#[test]
fn test_call_tool_keeps_any_arguments() {
    let message = parse_message(
        r#"{"method":"tools/call","id":"c","params":{"name":"anything","arguments":null}}"#,
    );
    assert_eq!(
        message,
        Ok(MCPMessage::CallTool {
            id: RequestId::Text("c".to_string()),
            params: CallToolParams {
                name: "anything".to_string(),
                arguments: serde_json::Value::Null
            }
        })
    );
}

#[test]
fn test_message_values() {
    let message = MCPMessage::Initialize {
        id: RequestId::Text("i".to_string()),
        params: InitializeParams {
            protocol_version: "2024-11-05".to_string(),
            capabilities: ClientCapabilities {
                roots: Some(RootsCapability {
                    list_changed: false,
                }),
                sampling: None,
            },
            client_info: ClientInfo {
                name: "n".to_string(),
                version: "v".to_string(),
            },
        },
    };
    assert_eq!(
        message_value(&message),
        json(
            r#"{"method":"initialize","id":"i","params":{"protocolVersion":"2024-11-05",
                "capabilities":{"roots":{"listChanged":false},"sampling":null},
                "clientInfo":{"name":"n","version":"v"}}}"#
        )
    );
    assert_eq!(message_from_value(&message_value(&message)), Some(message));

    let message = MCPMessage::ListTools {
        id: RequestId::Number(2),
    };
    assert_eq!(
        message_value(&message),
        json(r#"{"method":"tools/list","id":2}"#)
    );
    assert_eq!(message_from_value(&message_value(&message)), Some(message));

    let message = MCPMessage::Ping {
        id: RequestId::Number(-2),
    };
    assert_eq!(message_value(&message), json(r#"{"method":"ping","id":-2}"#));
    assert_eq!(message_from_value(&message_value(&message)), Some(message));

    let message = MCPMessage::CallTool {
        id: RequestId::Number(3),
        params: CallToolParams {
            name: "p4_edit".to_string(),
            arguments: json(r#"{"files":["a"],"deep":{"x":[1,2.5,null]}}"#),
        },
    };
    assert_eq!(
        message_value(&message),
        json(
            r#"{"method":"tools/call","id":3,"params":{"name":"p4_edit",
                "arguments":{"files":["a"],"deep":{"x":[1,2.5,null]}}}}"#
        )
    );
    assert_eq!(message_from_value(&message_value(&message)), Some(message));
}

#[test]
fn test_response_values() {
    assert_eq!(
        response_value(&MCPResponse::Pong {
            id: RequestId::Text("p".to_string())
        }),
        json(r#"{"id":"p"}"#)
    );
    assert_eq!(
        response_value(&MCPResponse::Error {
            id: RequestId::Number(1),
            error: MCPError {
                code: -32602,
                message: "Unknown tool: x".to_string(),
                data: None
            }
        }),
        json(r#"{"id":1,"error":{"code":-32602,"message":"Unknown tool: x","data":null}}"#)
    );
    assert_eq!(
        response_value(&MCPResponse::CallToolResult {
            id: RequestId::Number(1),
            result: CallToolResult {
                content: vec![
                    ToolContent::Text {
                        text: "t".to_string()
                    },
                    ToolContent::Image {
                        data: "d".to_string(),
                        mime_type: "image/png".to_string()
                    }
                ]
            }
        }),
        json(
            r#"{"id":1,"result":{"content":[{"type":"text","text":"t"},
                {"type":"image","data":"d","mimeType":"image/png"}]}}"#
        )
    );
    assert_eq!(
        response_value(&MCPResponse::InitializeResult {
            id: RequestId::Number(1),
            result: InitializeResult {
                protocol_version: "2024-11-05".to_string(),
                capabilities: ServerCapabilities {
                    logging: Some(LoggingCapability {}),
                    prompts: Some(PromptsCapability { list_changed: true }),
                    resources: Some(ResourcesCapability {
                        subscribe: true,
                        list_changed: false
                    }),
                    tools: Some(ToolsCapability {
                        list_changed: false
                    }),
                },
                server_info: ServerInfo {
                    name: "p4-mcp".to_string(),
                    version: "0.1.0".to_string()
                }
            }
        }),
        json(
            r#"{"id":1,"result":{"protocolVersion":"2024-11-05","capabilities":{"logging":{},
                "prompts":{"listChanged":true},"resources":{"subscribe":true,"listChanged":false},
                "tools":{"listChanged":false}},"serverInfo":{"name":"p4-mcp","version":"0.1.0"}}}"#
        )
    );
}

#[test]
fn test_encoded_lines() {
    assert_eq!(
        encode_response(&MCPResponse::Pong {
            id: RequestId::Number(456)
        }),
        Some(r#"{"id":456}"#.to_string())
    );
    assert_eq!(
        encode_message(&MCPMessage::Ping {
            id: RequestId::Text("a\"b".to_string())
        }),
        Some(r#"{"id":"a\"b","method":"ping"}"#.to_string())
    );
    let line = encode_response(&MCPServer::respond(
        RequestId::Number(1),
        Ok("line one\nline two".to_string()),
    ))
    .unwrap();
    assert!(!line.contains('\n'));
    assert_eq!(
        line,
        r#"{"id":1,"result":{"content":[{"text":"line one\nline two","type":"text"}]}}"#
    );
}
