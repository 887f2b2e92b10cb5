use vstd::prelude::*;

use crate::bridge::NodeBridge;
use crate::json::JsonValue;
use crate::protocol::{
    CellId, CodeModeNestedToolCall, ExecuteRequest, RuntimeResponse, WaitOutcome, WaitRequest,
};
use crate::store::StoredValues;
use crate::text::joined;

verus! {

/// The error of a nested tool call when no delegate can carry it out.
pub open spec fn tools_unavailable() -> Seq<char> {
    "code mode nested tools are unavailable"@
}

/// A delegate that carries out no nested tool call and accepts every notification.
#[derive(Debug)]
pub struct NoopCodeModeSessionDelegate;

impl NoopCodeModeSessionDelegate {
    /// Every nested tool call fails, once the call has been cancelled.
    pub fn invoke_tool(&self, _invocation: CodeModeNestedToolCall) -> (r: Result<JsonValue, String>)
        ensures
            r matches Err(e) && e@ == tools_unavailable(),
    {
        Err(String::from_str("code mode nested tools are unavailable"))
    }

    /// Every notification is accepted.
    pub fn notify(&self, _call_id: String, _cell_id: CellId, _text: String) -> (r: Result<(), String>)
        ensures
            r is Ok,
    {
        Ok(())
    }

    /// Nothing is kept per cell, so nothing is released.
    pub fn cell_closed(&self, _cell_id: &CellId) {
    }
}

/// Creates sessions that run cells through the Node bridge.
#[derive(Debug)]
pub struct InProcessCodeModeSessionProvider;

impl InProcessCodeModeSessionProvider {
    /// A session with `delegate` and no stored values.
    pub fn create_session<D>(&self, delegate: D) -> (r: Result<InProcessCodeModeSession<D>, String>)
        ensures
            r matches Ok(s) && s.delegate == delegate && s.stored_values@ == Map::<
                Seq<char>,
                crate::json::JsonView,
            >::empty(),
    {
        Ok(InProcessCodeModeSession::with_delegate(delegate))
    }
}

impl Default for InProcessCodeModeSessionProvider {
    fn default() -> (r: Self) {
        InProcessCodeModeSessionProvider
    }
}

/// A cell that has been started: its identifier and the run that produces its result.
#[derive(Debug)]
pub struct StartedCell {
    pub cell_id: CellId,
    pub bridge: NodeBridge,
}

/// The identifier of the cell started for the tool call `tool_call_id`.
pub open spec fn node_cell_id(tool_call_id: Seq<char>) -> Seq<char> {
    "ios-node-"@ + tool_call_id
}

/// Different tool calls start cells with different identifiers.
pub proof fn lemma_cell_ids_distinct(a: Seq<char>, b: Seq<char>)
    requires
        a != b,
    ensures
        node_cell_id(a) != node_cell_id(b),
{
    let p = "ios-node-"@;
    if node_cell_id(a) == node_cell_id(b) {
        assert(a =~= node_cell_id(a).skip(p.len() as int));
        assert(b =~= node_cell_id(b).skip(p.len() as int));
    }
}

/// The error text of a response for a cell that does not exist.
pub open spec fn missing_cell_text(cell_id: Seq<char>) -> Seq<char> {
    "exec cell "@ + cell_id + " not found"@
}

/// The response for the cell `cell_id`, which does not exist: no content, an error text that
/// names it.
pub fn missing_cell_response(cell_id: CellId) -> (r: RuntimeResponse)
    ensures
        r matches RuntimeResponse::Result { cell_id: c, content_items, error_text } && {
            &&& c@ == cell_id@
            &&& content_items@.len() == 0
            &&& error_text matches Some(t) && t@ == missing_cell_text(cell_id@)
        },
{
    let mut text = String::from_str("exec cell ");
    text.append(cell_id.as_str());
    text.append(" not found");
    RuntimeResponse::Result { error_text: Some(text), cell_id, content_items: Vec::new() }
}

/// A code-mode session whose cells run in a Node bridge; it keeps the values that cells store,
/// and hands nested tool calls and notifications to `delegate`.
pub struct InProcessCodeModeSession<D> {
    pub delegate: D,
    pub stored_values: StoredValues,
}

impl InProcessCodeModeSession<NoopCodeModeSessionDelegate> {
    /// A session with the delegate that carries out no nested tool call.
    pub fn new() -> (r: Self)
        ensures
            r.stored_values@ == Map::<Seq<char>, crate::json::JsonView>::empty(),
    {
        Self::with_delegate(NoopCodeModeSessionDelegate)
    }
}

impl Default for InProcessCodeModeSession<NoopCodeModeSessionDelegate> {
    fn default() -> (r: Self)
        ensures
            r.stored_values@ == Map::<Seq<char>, crate::json::JsonView>::empty(),
    {
        Self::new()
    }
}

impl<D> InProcessCodeModeSession<D> {
    /// A session with `delegate` and no stored values.
    pub fn with_delegate(delegate: D) -> (r: Self)
        ensures
            r.delegate == delegate,
            r.stored_values@ == Map::<Seq<char>, crate::json::JsonView>::empty(),
    {
        InProcessCodeModeSession { delegate, stored_values: StoredValues::new() }
    }

    /// As `with_delegate`; this session has no background task that could fail, so the handler
    /// is not kept.
    pub fn with_delegate_and_task_failure_handler<H>(delegate: D, _task_failure_handler: H) -> (r: Self)
        ensures
            r.delegate == delegate,
            r.stored_values@ == Map::<Seq<char>, crate::json::JsonView>::empty(),
    {
        Self::with_delegate(delegate)
    }

    /// Starts a cell for `request`: its identifier is `ios-node-` and the tool call id, and its
    /// run has sent nothing yet.
    pub fn execute(&self, request: ExecuteRequest) -> (r: Result<StartedCell, String>)
        ensures
            r matches Ok(started) && {
                &&& started.cell_id@ == node_cell_id(request.tool_call_id@)
                &&& started.bridge.cell_id@ == started.cell_id@
                &&& started.bridge.request == request
                &&& started.bridge.phase is Starting
            },
    {
        let cell_id = CellId::new(joined("ios-node-", request.tool_call_id.as_str()));
        let bridge = NodeBridge::new(cell_id.clone(), request);
        Ok(StartedCell { cell_id, bridge })
    }

    /// Cells are not kept after they finish, so the one waited for is reported missing.
    pub fn wait(&self, request: WaitRequest) -> (r: Result<WaitOutcome, String>)
        ensures
            r matches Ok(WaitOutcome::MissingCell(
                RuntimeResponse::Result { cell_id, content_items, error_text },
            )) && {
                &&& cell_id@ == request.cell_id@
                &&& content_items@.len() == 0
                &&& error_text matches Some(t) && t@ == missing_cell_text(request.cell_id@)
            },
    {
        Ok(WaitOutcome::MissingCell(missing_cell_response(request.cell_id)))
    }

    /// Cells are not kept after they finish, so the one to terminate is reported missing.
    pub fn terminate(&self, cell_id: CellId) -> (r: Result<WaitOutcome, String>)
        ensures
            r matches Ok(WaitOutcome::MissingCell(
                RuntimeResponse::Result { cell_id: c, content_items, error_text },
            )) && {
                &&& c@ == cell_id@
                &&& content_items@.len() == 0
                &&& error_text matches Some(t) && t@ == missing_cell_text(cell_id@)
            },
    {
        Ok(WaitOutcome::MissingCell(missing_cell_response(cell_id)))
    }

    /// Nothing runs between cells, so there is nothing to shut down.
    pub fn shutdown(&self) -> (r: Result<(), String>)
        ensures
            r is Ok,
    {
        Ok(())
    }
}

/// Controls whether embedded V8 may generate executable code at runtime.
#[derive(Clone, Copy, Debug, PartialEq, Eq, Structural)]
pub enum V8JitMode {
    Enabled,
    Disabled,
}

impl Default for V8JitMode {
    fn default() -> (r: Self)
        ensures
            r == V8JitMode::Enabled,
    {
        V8JitMode::Enabled
    }
}

/// This build drives an external Node bridge instead of embedded V8, so there is nothing to set up.
pub fn initialize_v8(_jit_mode: V8JitMode) -> (r: Result<(), String>)
    ensures
        r is Ok,
{
    Ok(())
}

} // verus!
