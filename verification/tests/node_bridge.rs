use codex_code_mode::{
    BridgeAction, BridgePhase, CellId, CodeModeNestedToolCall, CodeModeToolKind, EnabledTool,
    ExecuteRequest, FunctionCallOutputContentItem, InProcessCodeModeSession, JsonValue,
    NodeBridge, RuntimeResponse, StoredValues,
};

fn s(text: &str) -> String {
    text.to_string()
}

fn text(t: &str) -> JsonValue {
    JsonValue::String(s(t))
}

fn object(entries: Vec<(&str, JsonValue)>) -> JsonValue {
    JsonValue::Object(entries.into_iter().map(|(k, v)| (s(k), v)).collect())
}

fn request() -> ExecuteRequest {
    ExecuteRequest {
        tool_call_id: s("call-1"),
        source: s("text(1)"),
        enabled_tools: vec![
            EnabledTool {
                name: s("search"),
                description: s("Searches"),
                tool_name: s("web_search"),
                kind: CodeModeToolKind::Function,
            },
            EnabledTool {
                name: s("apply"),
                description: s("Applies a patch"),
                tool_name: s("apply_patch"),
                kind: CodeModeToolKind::Freeform,
            },
        ],
    }
}

fn started() -> NodeBridge {
    let mut bridge = NodeBridge::new(CellId::new(s("ios-node-call-1")), request());
    let store = StoredValues::new();
    let _ = bridge.start(&store);
    bridge
}

#[test]
fn start_sends_source_tools_and_stored_values() {
    let mut bridge = NodeBridge::new(CellId::new(s("c")), request());
    let mut store = StoredValues::new();
    store.insert(s("k"), JsonValue::Number(s("5")));
    let action = bridge.start(&store);
    let expected = object(vec![
        ("source", text("text(1)")),
        (
            "tools",
            JsonValue::Array(vec![
                object(vec![("name", text("search")), ("description", text("Searches"))]),
                object(vec![("name", text("apply")), ("description", text("Applies a patch"))]),
            ]),
        ),
        ("stored_values", object(vec![("k", JsonValue::Number(s("5")))])),
    ]);
    assert_eq!(action, BridgeAction::Send(expected));
    assert_eq!(bridge.phase, BridgePhase::ReadingLines);
}

#[test]
fn known_tool_is_invoked_and_reply_carries_result() {
    let mut bridge = started();
    let msg = object(vec![
        ("type", text("tool")),
        ("id", text("1")),
        ("name", text("apply")),
        ("input", object(vec![("patch", text("diff"))])),
    ]);
    let action = bridge.on_line(msg);
    assert_eq!(
        action,
        BridgeAction::InvokeTool(CodeModeNestedToolCall {
            cell_id: CellId::new(s("ios-node-call-1")),
            runtime_tool_call_id: s("1"),
            tool_name: s("apply_patch"),
            tool_kind: CodeModeToolKind::Freeform,
            input: Some(object(vec![("patch", text("diff"))])),
        })
    );
    assert_eq!(bridge.phase, BridgePhase::AwaitingTool { reply_id: s("1") });
    let reply = bridge.on_tool_result(Ok(text("done")));
    assert_eq!(
        reply,
        BridgeAction::Send(object(vec![
            ("id", text("1")),
            ("ok", JsonValue::Bool(true)),
            ("result", text("done")),
        ]))
    );
    assert_eq!(bridge.phase, BridgePhase::ReadingLines);
}

#[test]
fn tool_without_input_gets_none() {
    let mut bridge = started();
    let msg = object(vec![("type", text("tool")), ("id", text("2")), ("name", text("search"))]);
    match bridge.on_line(msg) {
        BridgeAction::InvokeTool(call) => {
            assert_eq!(call.input, None);
            assert_eq!(call.tool_name, s("web_search"));
        }
        other => panic!("unexpected {other:?}"),
    }
}

#[test]
fn failed_tool_call_is_reported_to_the_cell() {
    let mut bridge = started();
    let msg = object(vec![("type", text("tool")), ("id", text("9")), ("name", text("search"))]);
    let _ = bridge.on_line(msg);
    let reply = bridge.on_tool_result(Err(s("boom")));
    assert_eq!(
        reply,
        BridgeAction::Send(object(vec![
            ("id", text("9")),
            ("ok", JsonValue::Bool(false)),
            ("error", text("boom")),
        ]))
    );
}

#[test]
fn unknown_tool_is_refused() {
    let mut bridge = started();
    let msg = object(vec![("type", text("tool")), ("id", text("4")), ("name", text("rm"))]);
    let action = bridge.on_line(msg);
    assert_eq!(
        action,
        BridgeAction::Send(object(vec![
            ("id", text("4")),
            ("ok", JsonValue::Bool(false)),
            ("error", text("unknown tool rm")),
        ]))
    );
    assert_eq!(bridge.phase, BridgePhase::ReadingLines);
}

#[test]
fn tool_message_without_id_ends_run() {
    let mut bridge = started();
    let msg = object(vec![("type", text("tool")), ("name", text("search"))]);
    assert_eq!(
        bridge.on_line(msg),
        BridgeAction::Finish(Err(s("Node code-mode message is missing string field id")))
    );
    assert_eq!(bridge.phase, BridgePhase::Stopped);
}

#[test]
fn tool_message_without_name_ends_run() {
    let mut bridge = started();
    let msg = object(vec![("type", text("tool")), ("id", text("1"))]);
    assert_eq!(
        bridge.on_line(msg),
        BridgeAction::Finish(Err(s("Node code-mode message is missing string field name")))
    );
}

#[test]
fn notify_is_delivered_and_acknowledged() {
    let mut bridge = started();
    let msg = object(vec![("type", text("notify")), ("id", text("3")), ("text", text("50%"))]);
    assert_eq!(
        bridge.on_line(msg),
        BridgeAction::Notify {
            call_id: s("call-1"),
            cell_id: CellId::new(s("ios-node-call-1")),
            text: s("50%"),
        }
    );
    assert_eq!(
        bridge.on_notify_result(Ok(())),
        BridgeAction::Send(object(vec![("id", text("3")), ("ok", JsonValue::Bool(true))]))
    );
}

#[test]
fn failed_notify_is_reported() {
    let mut bridge = started();
    let msg = object(vec![("type", text("notify")), ("id", text("3")), ("text", text("x"))]);
    let _ = bridge.on_line(msg);
    assert_eq!(
        bridge.on_notify_result(Err(s("closed"))),
        BridgeAction::Send(object(vec![
            ("id", text("3")),
            ("ok", JsonValue::Bool(false)),
            ("error", text("closed")),
        ]))
    );
}

#[test]
fn notify_without_text_ends_run() {
    let mut bridge = started();
    let msg = object(vec![("type", text("notify")), ("id", text("3"))]);
    assert_eq!(
        bridge.on_line(msg),
        BridgeAction::Finish(Err(s("Node code-mode message is missing string field text")))
    );
}

#[test]
fn unknown_message_type_ends_run() {
    let mut bridge = started();
    let msg = object(vec![("type", text("progress"))]);
    assert_eq!(
        bridge.on_line(msg),
        BridgeAction::Finish(Err(s("unknown Node code-mode message: Some(\"progress\")")))
    );
    let mut bridge = started();
    assert_eq!(
        bridge.on_line(object(vec![("type", JsonValue::Number(s("1")))])),
        BridgeAction::Finish(Err(s("unknown Node code-mode message: None")))
    );
}

#[test]
fn invalid_line_ends_run() {
    let mut bridge = started();
    assert_eq!(
        bridge.on_invalid_line(s("expected value at line 1 column 1")),
        BridgeAction::Finish(Err(s(
            "invalid Node code-mode response: expected value at line 1 column 1"
        )))
    );
    assert_eq!(bridge.phase, BridgePhase::Stopped);
}

#[test]
fn result_is_decoded_stored_and_returned_after_exit() {
    let mut bridge = started();
    let mut session = InProcessCodeModeSession::new();
    let msg = object(vec![
        ("type", text("result")),
        ("content_items", JsonValue::Array(vec![])),
        ("stored_value_writes", object(vec![("k", text("v"))])),
        ("error_text", JsonValue::Null),
    ]);
    assert_eq!(
        bridge.on_line(msg),
        BridgeAction::DecodeResult {
            content_items: JsonValue::Array(vec![]),
            stored_value_writes: object(vec![("k", text("v"))]),
        }
    );
    let items = vec![FunctionCallOutputContentItem::InputText { text: s("1") }];
    let action = bridge.on_result_decoded(
        &mut session.stored_values,
        Ok(items),
        Ok(vec![(s("k"), text("v"))]),
    );
    assert_eq!(action, BridgeAction::AwaitExit);
    assert_eq!(session.stored_values.get("k"), Some(text("v")));
    let done = bridge.on_exit(s("exit status: 0"), s("ignored"));
    assert_eq!(
        done,
        BridgeAction::Finish(Ok(RuntimeResponse::Result {
            cell_id: CellId::new(s("ios-node-call-1")),
            content_items: vec![FunctionCallOutputContentItem::InputText { text: s("1") }],
            error_text: None,
        }))
    );
    assert_eq!(bridge.phase, BridgePhase::Stopped);
}

#[test]
fn result_without_members_asks_to_decode_nulls() {
    let mut bridge = started();
    let msg = object(vec![("type", text("result")), ("error_text", text("ReferenceError: x"))]);
    assert_eq!(
        bridge.on_line(msg),
        BridgeAction::DecodeResult {
            content_items: JsonValue::Null,
            stored_value_writes: JsonValue::Null,
        }
    );
    assert_eq!(
        bridge.phase,
        BridgePhase::AwaitingResult { error_text: Some(s("ReferenceError: x")) }
    );
}

#[test]
fn bad_content_items_end_run_without_storing() {
    let mut bridge = started();
    let mut store = StoredValues::new();
    let _ = bridge.on_line(object(vec![("type", text("result"))]));
    let action = bridge.on_result_decoded(
        &mut store,
        Err(s("invalid type: null, expected a sequence")),
        Ok(vec![(s("k"), text("v"))]),
    );
    assert_eq!(
        action,
        BridgeAction::Finish(Err(s(
            "invalid Node code-mode content: invalid type: null, expected a sequence"
        )))
    );
    assert_eq!(store.get("k"), None);
}

#[test]
fn bad_writes_end_run_without_storing() {
    let mut bridge = started();
    let mut store = StoredValues::new();
    let _ = bridge.on_line(object(vec![("type", text("result"))]));
    let action =
        bridge.on_result_decoded(&mut store, Ok(vec![]), Err(s("invalid type: null, expected a map")));
    assert_eq!(
        action,
        BridgeAction::Finish(Err(s(
            "invalid Node code-mode stored values: invalid type: null, expected a map"
        )))
    );
    assert_eq!(bridge.phase, BridgePhase::Stopped);
}

#[test]
fn exit_without_result_reports_status_and_stderr() {
    let mut bridge = started();
    assert_eq!(bridge.on_output_closed(), BridgeAction::AwaitExit);
    assert_eq!(bridge.phase, BridgePhase::AwaitingExit { response: None });
    assert_eq!(
        bridge.on_exit(s("exit status: 1"), s("\nSyntaxError: bad\n  ")),
        BridgeAction::Finish(Err(s(
            "Node code-mode bridge exited with exit status: 1: SyntaxError: bad"
        )))
    );
}
