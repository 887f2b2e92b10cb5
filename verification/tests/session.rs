use codex_code_mode::{
    initialize_v8, BridgePhase, CellId, ExecuteRequest, InProcessCodeModeSession,
    InProcessCodeModeSessionProvider, NoopCodeModeSessionDelegate, RuntimeResponse, V8JitMode,
    WaitOutcome, WaitRequest,
};

fn s(text: &str) -> String {
    text.to_string()
}

fn missing(id: &str) -> WaitOutcome {
    WaitOutcome::MissingCell(RuntimeResponse::Result {
        cell_id: CellId::new(s(id)),
        content_items: vec![],
        error_text: Some(format!("exec cell {id} not found")),
    })
}

#[test]
fn execute_names_cell_after_tool_call() {
    let session = InProcessCodeModeSession::new();
    let request = ExecuteRequest { tool_call_id: s("abc"), source: s(""), enabled_tools: vec![] };
    let started = session.execute(request).unwrap();
    assert_eq!(started.cell_id, CellId::new(s("ios-node-abc")));
    assert_eq!(started.bridge.cell_id, CellId::new(s("ios-node-abc")));
    assert_eq!(started.bridge.phase, BridgePhase::Starting);
}

#[test]
fn wait_reports_missing_cell() {
    let session = InProcessCodeModeSession::default();
    let outcome = session.wait(WaitRequest { cell_id: CellId::new(s("ios-node-1")) });
    assert_eq!(outcome, Ok(missing("ios-node-1")));
}

#[test]
fn terminate_reports_missing_cell() {
    let session = InProcessCodeModeSession::with_delegate(NoopCodeModeSessionDelegate);
    assert_eq!(session.terminate(CellId::new(s("x"))), Ok(missing("x")));
}

#[test]
fn shutdown_succeeds() {
    let session = InProcessCodeModeSession::with_delegate_and_task_failure_handler(7u8, ());
    assert_eq!(session.delegate, 7u8);
    assert_eq!(session.shutdown(), Ok(()));
}

#[test]
fn provider_creates_empty_session() {
    let provider = InProcessCodeModeSessionProvider::default();
    let session = provider.create_session(NoopCodeModeSessionDelegate).unwrap();
    assert_eq!(session.stored_values.get("anything"), None);
}

#[test]
fn noop_delegate_refuses_tools_and_accepts_notifications() {
    let d = NoopCodeModeSessionDelegate;
    let call = codex_code_mode::CodeModeNestedToolCall {
        cell_id: CellId::new(s("c")),
        runtime_tool_call_id: s("1"),
        tool_name: s("t"),
        tool_kind: codex_code_mode::CodeModeToolKind::Function,
        input: None,
    };
    assert_eq!(d.invoke_tool(call), Err(s("code mode nested tools are unavailable")));
    assert_eq!(d.notify(s("call"), CellId::new(s("c")), s("hi")), Ok(()));
    d.cell_closed(&CellId::new(s("c")));
}

#[test]
fn v8_needs_no_setup() {
    assert_eq!(initialize_v8(V8JitMode::Enabled), Ok(()));
    assert_eq!(initialize_v8(V8JitMode::Disabled), Ok(()));
    assert_eq!(V8JitMode::default(), V8JitMode::Enabled);
}

#[test]
fn stored_values_outlive_a_cell() {
    let mut session = InProcessCodeModeSession::new();
    let request = ExecuteRequest { tool_call_id: s("1"), source: s(""), enabled_tools: vec![] };
    let mut first = session.execute(request).unwrap().bridge;
    let _ = first.start(&session.stored_values);
    let _ = first.on_line(codex_code_mode::JsonValue::Object(vec![(
        s("type"),
        codex_code_mode::JsonValue::String(s("result")),
    )]));
    let _ = first.on_result_decoded(
        &mut session.stored_values,
        Ok(vec![]),
        Ok(vec![(s("count"), codex_code_mode::JsonValue::Number(s("1")))]),
    );
    let request = ExecuteRequest { tool_call_id: s("2"), source: s(""), enabled_tools: vec![] };
    let mut second = session.execute(request).unwrap().bridge;
    match second.start(&session.stored_values) {
        codex_code_mode::BridgeAction::Send(m) => {
            let stored = m.get("stored_values").unwrap();
            assert_eq!(
                stored.get("count"),
                Some(&codex_code_mode::JsonValue::Number(s("1")))
            );
        }
        other => panic!("unexpected {other:?}"),
    }
}

#[test]
fn different_tool_calls_get_different_cells() {
    let session = InProcessCodeModeSession::new();
    let a = session
        .execute(ExecuteRequest { tool_call_id: s("1"), source: s(""), enabled_tools: vec![] })
        .unwrap();
    let b = session
        .execute(ExecuteRequest { tool_call_id: s("2"), source: s(""), enabled_tools: vec![] })
        .unwrap();
    assert_ne!(a.cell_id, b.cell_id);
    assert_eq!(a.cell_id.as_str(), "ios-node-1");
}
