use recordscreen::mcp::{
    classify_method, mcp_error, mcp_line_action, mcp_tools, negotiate_protocol_version,
    plan_tool_call, tool_response, tool_unavailable, unknown_method_message, wants_mcp_mode,
    HttpMethod, HwndArgument, McpLineAction, McpMethod, McpReply, ToolBody, ToolInput,
    ToolRequest, ToolResult,
};

fn req(method: HttpMethod, path: &str, body: ToolBody) -> ToolRequest {
    ToolRequest { method, url: format!("http://127.0.0.1:17321{path}"), body }
}

#[test]
fn mcp_mode_flag() {
    assert!(wants_mcp_mode(&["recordscreen.exe".to_string(), "--mcp".to_string()]));
    assert!(!wants_mcp_mode(&["recordscreen.exe".to_string(), "--mcp2".to_string()]));
    assert!(!wants_mcp_mode(&[]));
}

#[test]
fn protocol_versions() {
    assert_eq!(negotiate_protocol_version(None), "2024-11-05");
    assert_eq!(negotiate_protocol_version(Some("2025-06-18")), "2025-06-18");
    assert_eq!(negotiate_protocol_version(Some("2025-11-25")), "2025-11-25");
    assert_eq!(negotiate_protocol_version(Some("2025-03-26")), "2025-03-26");
    assert_eq!(negotiate_protocol_version(Some("1999-01-01")), "2024-11-05");
}

#[test]
fn methods() {
    assert_eq!(classify_method("notifications/initialized"), McpMethod::Notification);
    assert_eq!(classify_method("initialize"), McpMethod::Initialize);
    assert_eq!(classify_method("ping"), McpMethod::Ping);
    assert_eq!(classify_method("tools/list"), McpMethod::ToolsList);
    assert_eq!(classify_method("tools/call"), McpMethod::ToolsCall);
    assert_eq!(classify_method("resources/list"), McpMethod::Unknown);
    assert_eq!(unknown_method_message("resources/list"), "Unknown method: resources/list");
}

#[test]
fn tools_are_listed_and_callable() {
    let tools = mcp_tools();
    let names: Vec<&str> = tools.iter().map(|t| t.name).collect();
    assert_eq!(
        names,
        vec!["get_status", "list_windows", "select_window", "take_screenshot", "start_recording", "stop_recording"]
    );
    assert_eq!(
        tools[2].description,
        "Lock capture to a window handle returned by list_windows; pass null to capture the whole desktop."
    );
    assert_eq!(tools[5].description, "Stop desktop recording and finalize the MP4 file.");
    assert_eq!(tools[2].input, ToolInput::WindowHandle);
    assert_eq!(tools[4].input, ToolInput::FrameRate);
    for t in &tools {
        assert!(plan_tool_call(Some(t.name), HwndArgument::Null, None).is_ok(), "{}", t.name);
    }
}

#[test]
fn tool_calls_become_requests() {
    assert_eq!(
        plan_tool_call(Some("get_status"), HwndArgument::Null, None),
        Ok(req(HttpMethod::Get, "/api/v1/status", ToolBody::Empty))
    );
    assert_eq!(
        plan_tool_call(Some("list_windows"), HwndArgument::Null, None),
        Ok(req(HttpMethod::Get, "/api/v1/windows", ToolBody::Empty))
    );
    assert_eq!(
        plan_tool_call(Some("select_window"), HwndArgument::Integer(1234), None),
        Ok(req(HttpMethod::Post, "/api/v1/target", ToolBody::Target(Some(1234))))
    );
    assert_eq!(
        plan_tool_call(Some("select_window"), HwndArgument::Null, None),
        Ok(req(HttpMethod::Post, "/api/v1/target", ToolBody::Target(None)))
    );
    assert_eq!(
        plan_tool_call(Some("select_window"), HwndArgument::Other, None),
        Err("hwnd must be an integer returned by list_windows, or null".to_string())
    );
    assert_eq!(
        plan_tool_call(Some("take_screenshot"), HwndArgument::Null, None),
        Ok(req(HttpMethod::Post, "/api/v1/screenshot", ToolBody::Empty))
    );
    assert_eq!(
        plan_tool_call(Some("start_recording"), HwndArgument::Null, None),
        Ok(req(HttpMethod::Post, "/api/v1/recording/start", ToolBody::Fps(30)))
    );
    assert_eq!(
        plan_tool_call(Some("start_recording"), HwndArgument::Null, Some(60)),
        Ok(req(HttpMethod::Post, "/api/v1/recording/start", ToolBody::Fps(60)))
    );
    assert_eq!(
        plan_tool_call(Some("start_recording"), HwndArgument::Null, Some(5)),
        Err("fps must be between 10 and 60".to_string())
    );
    assert_eq!(
        plan_tool_call(Some("stop_recording"), HwndArgument::Null, None),
        Ok(req(HttpMethod::Post, "/api/v1/recording/stop", ToolBody::Empty))
    );
    assert_eq!(plan_tool_call(None, HwndArgument::Null, None), Err("tool name is required".to_string()));
    assert_eq!(
        plan_tool_call(Some("delete_all"), HwndArgument::Null, None),
        Err("unknown tool: delete_all".to_string())
    );
}

#[test]
fn tool_results() {
    assert_eq!(mcp_error("bad"), ToolResult { text: "bad".into(), is_error: true });
    assert_eq!(tool_response(200, Ok("{}".into())), ToolResult { text: "{}".into(), is_error: false });
    assert_eq!(tool_response(299, Ok("x".into())).is_error, false);
    assert_eq!(tool_response(409, Ok("x".into())).is_error, true);
    assert_eq!(tool_response(199, Ok("x".into())).is_error, true);
    assert_eq!(
        tool_response(200, Err("eof".into())),
        ToolResult { text: "HTTP read error: eof".into(), is_error: false }
    );
    assert_eq!(
        tool_unavailable("refused"),
        ToolResult {
            text: "RecordScreen is unavailable at 127.0.0.1:17321. Start the desktop app first. (refused)".into(),
            is_error: true
        }
    );
}

#[test]
fn lines_that_are_not_requests_are_skipped() {
    assert_eq!(mcp_line_action("not json"), McpLineAction::Skip);
    assert_eq!(mcp_line_action(r#"{"id":1}"#), McpLineAction::Skip);
    assert_eq!(mcp_line_action(r#"{"id":1,"method":5}"#), McpLineAction::Skip);
    assert_eq!(mcp_line_action(r#"[1,2]"#), McpLineAction::Skip);
    assert_eq!(
        mcp_line_action(r#"{"jsonrpc":"2.0","method":"notifications/initialized"}"#),
        McpLineAction::Skip
    );
    assert_eq!(mcp_line_action(r#"{"method":"ping"}"#), McpLineAction::Skip);
    assert_eq!(mcp_line_action(r#"{"method":"bogus"}"#), McpLineAction::Skip);
}

#[test]
fn requests_with_id_are_answered() {
    assert_eq!(
        mcp_line_action(r#"{"jsonrpc":"2.0","id":1,"method":"initialize","params":{"protocolVersion":"2025-06-18"}}"#),
        McpLineAction::Reply {
            id: "1".into(),
            reply: McpReply::Initialize { protocol_version: "2025-06-18".into() }
        }
    );
    assert_eq!(
        mcp_line_action(r#"{"id":"a","method":"initialize"}"#),
        McpLineAction::Reply {
            id: "\"a\"".into(),
            reply: McpReply::Initialize { protocol_version: "2024-11-05".into() }
        }
    );
    assert_eq!(
        mcp_line_action(r#"{"id":null,"method":"ping"}"#),
        McpLineAction::Reply { id: "null".into(), reply: McpReply::Pong }
    );
    assert_eq!(
        mcp_line_action(r#"{"id":7,"method":"tools/list"}"#),
        McpLineAction::Reply { id: "7".into(), reply: McpReply::Tools }
    );
    assert_eq!(
        mcp_line_action(r#"{"id":8,"method":"resources/list"}"#),
        McpLineAction::Error {
            id: "8".into(),
            code: -32601,
            message: "Unknown method: resources/list".into()
        }
    );
}

#[test]
fn tool_calls_are_planned_from_the_line() {
    assert_eq!(
        mcp_line_action(r#"{"id":2,"method":"tools/call","params":{"name":"select_window","arguments":{"hwnd":1234}}}"#),
        McpLineAction::CallTool {
            id: Some("2".into()),
            plan: Ok(req(HttpMethod::Post, "/api/v1/target", ToolBody::Target(Some(1234))))
        }
    );
    assert_eq!(
        mcp_line_action(r#"{"id":3,"method":"tools/call","params":{"name":"select_window","arguments":{"hwnd":null}}}"#),
        McpLineAction::CallTool {
            id: Some("3".into()),
            plan: Ok(req(HttpMethod::Post, "/api/v1/target", ToolBody::Target(None)))
        }
    );
    assert_eq!(
        mcp_line_action(r#"{"id":4,"method":"tools/call","params":{"name":"select_window","arguments":{"hwnd":"x"}}}"#),
        McpLineAction::CallTool {
            id: Some("4".into()),
            plan: Err("hwnd must be an integer returned by list_windows, or null".into())
        }
    );
    assert_eq!(
        mcp_line_action(r#"{"id":5,"method":"tools/call","params":{"name":"start_recording","arguments":{"fps":45}}}"#),
        McpLineAction::CallTool {
            id: Some("5".into()),
            plan: Ok(req(HttpMethod::Post, "/api/v1/recording/start", ToolBody::Fps(45)))
        }
    );
    assert_eq!(
        mcp_line_action(r#"{"id":6,"method":"tools/call","params":{"name":"start_recording","arguments":{"fps":"fast"}}}"#),
        McpLineAction::CallTool {
            id: Some("6".into()),
            plan: Ok(req(HttpMethod::Post, "/api/v1/recording/start", ToolBody::Fps(30)))
        }
    );
    assert_eq!(
        mcp_line_action(r#"{"method":"tools/call","params":{"name":"stop_recording"}}"#),
        McpLineAction::CallTool {
            id: None,
            plan: Ok(req(HttpMethod::Post, "/api/v1/recording/stop", ToolBody::Empty))
        }
    );
    assert_eq!(
        mcp_line_action(r#"{"id":9,"method":"tools/call"}"#),
        McpLineAction::CallTool { id: Some("9".into()), plan: Err("tool name is required".into()) }
    );
}
