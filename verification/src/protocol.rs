use vstd::prelude::*;

use crate::json::JsonValue;

verus! {

/// The identifier of one code cell run.
#[derive(Debug, PartialEq)]
pub struct CellId {
    id: String,
}

impl View for CellId {
    type V = Seq<char>;

    closed spec fn view(&self) -> Seq<char> {
        self.id@
    }
}

impl CellId {
    pub fn new(id: String) -> (r: CellId)
        ensures
            r@ == id@,
    {
        CellId { id }
    }

    /// The text of the identifier, as it is displayed.
    pub fn as_str(&self) -> (r: &str)
        ensures
            r@ == self@,
    {
        self.id.as_str()
    }
}

impl Clone for CellId {
    fn clone(&self) -> (r: CellId)
        ensures
            r@ == self@,
    {
        CellId { id: self.id.clone() }
    }
}

/// How a nested tool takes its input.
#[derive(Clone, Copy, Debug, PartialEq, Eq, Structural)]
pub enum CodeModeToolKind {
    Function,
    Freeform,
}

/// A tool that code running in a cell may call by `name`.
#[derive(Debug, PartialEq)]
pub struct EnabledTool {
    /// The name under which the cell's code sees the tool.
    pub name: String,
    pub description: String,
    /// The name of the tool that the delegate runs.
    pub tool_name: String,
    pub kind: CodeModeToolKind,
}

/// A request to run `source` in a new cell.
#[derive(Debug, PartialEq)]
pub struct ExecuteRequest {
    pub tool_call_id: String,
    pub source: String,
    pub enabled_tools: Vec<EnabledTool>,
}

/// A request to wait for a cell.
#[derive(Debug, PartialEq)]
pub struct WaitRequest {
    pub cell_id: CellId,
}

/// A call of a nested tool, made by the code of a cell, that the session's delegate carries out.
#[derive(Debug, PartialEq)]
pub struct CodeModeNestedToolCall {
    pub cell_id: CellId,
    pub runtime_tool_call_id: String,
    pub tool_name: String,
    pub tool_kind: CodeModeToolKind,
    pub input: Option<JsonValue>,
}

/// The detail level asked for an image.
#[derive(Clone, Copy, Debug, PartialEq, Eq, Structural)]
pub enum ImageDetail {
    Auto,
    Low,
    High,
    Original,
}

/// One item of a cell's output.
#[derive(Debug, PartialEq)]
pub enum FunctionCallOutputContentItem {
    InputText { text: String },
    InputImage { image_url: String, detail: Option<ImageDetail> },
}

/// What a cell produced.
#[derive(Debug, PartialEq)]
pub enum RuntimeResponse {
    Result {
        cell_id: CellId,
        content_items: Vec<FunctionCallOutputContentItem>,
        error_text: Option<String>,
    },
}

/// The outcome of waiting for a cell.
#[derive(Debug, PartialEq)]
pub enum WaitOutcome {
    MissingCell(RuntimeResponse),
}

} // verus!
