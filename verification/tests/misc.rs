use agx::domain::debug::{DebugEvent, DebugEventPayload};
use agx::domain::message::{Message, ToolCall};
use agx::env::get_env_var;
use agx::helpers::context::{
    read_file_with_limit, ContextError, AGENTS_CONTEXT_FILE, AGENTS_CONTEXT_FILE_MAX_SIZE,
};
use agx::providers::copilot::{get_headers, CopilotAuth, CopilotEndpoints};
use agx::session::hitl::{Hitl, HitlDecision};

#[test]
fn read_file_with_limit_works_when_limit_is_equal_to_size() {
    // GIVEN
    let contents = b"context goes here\n".to_vec();
    let limit = 18;

    // WHEN
    let result = read_file_with_limit(contents, limit)
        .expect("result should've been ok")
        .expect("result should've been some");

    // THEN
    assert_eq!(result.trim_end(), "context goes here");
}

#[test]
fn read_file_with_limit_works_when_limit_is_greater_than_size() {
    // GIVEN
    let contents = b"context goes here\n".to_vec();
    let limit = 20;

    // WHEN
    let result = read_file_with_limit(contents, limit)
        .expect("result should've been ok")
        .expect("result should've been some");

    // THEN
    assert_eq!(result, "context goes here\n");
}

#[test]
fn read_file_with_limit_works_for_empty_file() {
    // GIVEN
    let limit = 20;

    // WHEN
    let result = read_file_with_limit(Vec::new(), limit).expect("result should've been ok");

    // THEN
    assert!(result.is_none());
}

#[test]
fn read_file_with_limit_fails_when_limit_is_less_than_size() {
    // GIVEN
    let contents = b"co".to_vec();
    let limit = 1;

    // WHEN
    let result = read_file_with_limit(contents, limit).expect_err("result should've been an error");

    // THEN
    assert_eq!(result.message(), "file is too large; max size allowed is 1 bytes");
}

#[test]
fn a_context_file_that_is_no_text_is_refused() {
    let result = read_file_with_limit(vec![0x66, 0xff, 0x6f], 20);
    match result {
        Err(e) => {
            assert!(matches!(e, ContextError::NotUtf8));
            assert_eq!(e.message(), "file contents are not valid utf-8");
        }
        other => panic!("{:?}", other),
    }
    let text = read_file_with_limit("héllo".as_bytes().to_vec(), 20)
        .expect("ok")
        .expect("some");
    assert_eq!(text, "héllo");
    assert_eq!(AGENTS_CONTEXT_FILE, "AGENTS.md");
    assert_eq!(AGENTS_CONTEXT_FILE_MAX_SIZE, 50 * 1024);
}

#[test]
fn a_missing_environment_variable_is_named() {
    assert_eq!(get_env_var("MODEL_NAME", Some("m".to_string())), Ok("m".to_string()));
    assert_eq!(
        get_env_var("API_KEY", None),
        Err("environment variable \"API_KEY\" is not set".to_string())
    );
}

#[test]
fn copilot_requests_carry_four_headers() {
    assert_eq!(
        get_headers(),
        vec![
            ("User-Agent", "GitHubCopilotChat/0.32.4"),
            ("Editor-Version", "vscode/1.105.1"),
            ("Editor-Plugin-Version", "copilot-chat/0.32.4"),
            ("Copilot-Integration-Id", "vscode-chat"),
        ]
    );
    let auth = CopilotAuth {
        endpoints: CopilotEndpoints { api: "https://api".to_string() },
        token: "t".to_string(),
        expires_at: 1,
    };
    assert_eq!(auth.endpoints.api, "https://api");
}

#[test]
fn the_hook_asks_only_for_tools_that_change_something() {
    let mut hook = Hitl::new();
    assert!(Hitl::asks_for("run_cmd"));
    assert!(!Hitl::asks_for("read_file"));
    assert_eq!(hook.on_tool_call("read_file", Some("no")), HitlDecision::Proceed);
    assert_eq!(hook.on_tool_call("run_cmd", None), HitlDecision::Proceed);
    assert_eq!(hook.on_tool_call("run_cmd", Some("  \n")), HitlDecision::Proceed);
    assert_eq!(hook.take_feedback(), None);
    for no in ["n", "N", "no", "No", "nO", "NO", " no\n"] {
        assert_eq!(hook.on_tool_call("edit_file", Some(no)), HitlDecision::Cancel);
        assert_eq!(hook.take_feedback(), None);
    }
    assert_eq!(
        hook.on_tool_call("create_file", Some("  put it under src/ \n")),
        HitlDecision::Cancel
    );
    assert_eq!(hook.take_feedback(), Some("put it under src/".to_string()));
    assert_eq!(hook.take_feedback(), None);
    assert_eq!(hook.on_tool_call("run_cmd", Some("nope")), HitlDecision::Cancel);
    assert_eq!(hook.take_feedback(), Some("nope".to_string()));
}

#[test]
fn events_carry_their_kind_and_time() {
    let call = ToolCall {
        id: "a".to_string(),
        call_id: None,
        name: "read_file".to_string(),
        arguments: "{}".to_string(),
    };
    let result = call.result("x".to_string());
    let events = vec![
        (DebugEvent::llm_request(1, Message::user_text("p".to_string()), Vec::new()), "llm_request"),
        (DebugEvent::assistant_text(2, "hi"), "assistant_text"),
        (DebugEvent::tool_call(3, call), "tool_call"),
        (DebugEvent::reasoning(4, "hm".to_string()), "reasoning"),
        (DebugEvent::tool_result(5, &result), "tool_result"),
        (DebugEvent::stream_complete(6), "stream_complete"),
        (DebugEvent::turn_complete(7, Vec::new()), "turn_complete"),
        (DebugEvent::interrupted(8), "interrupted"),
        (DebugEvent::new_session(9), "new_session"),
    ];
    let mut time = 1;
    for (event, kind) in events {
        assert_eq!(event.timestamp_millis, time);
        assert_eq!(event.payload.kind(), kind);
        time += 1;
    }
    match DebugEvent::assistant_text(1, "hi").payload {
        DebugEventPayload::AssistantText { text } => assert_eq!(text, "hi"),
        other => panic!("{:?}", other),
    }
    match DebugEvent::tool_result(1, &result).payload {
        DebugEventPayload::ToolResult(r) => {
            assert_eq!(r.id, "a");
            assert_eq!(r.text, "x");
        }
        other => panic!("{:?}", other),
    }
}
