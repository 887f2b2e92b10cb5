//! Code mode on a platform without embedded V8: each cell's code runs in a Node bridge process,
//! which talks to the session one JSON message per line. The library holds the decisions of that
//! exchange and the values that cells store; the process, the pipes and the delegate's calls are
//! driven from outside.

pub mod bridge;
pub mod json;
pub mod protocol;
pub mod session;
pub mod store;
pub mod text;

pub use bridge::{BridgeAction, BridgePhase, NodeBridge};
pub use json::{JsonValue, JsonView};
pub use protocol::{
    CellId, CodeModeNestedToolCall, CodeModeToolKind, EnabledTool, ExecuteRequest,
    FunctionCallOutputContentItem, ImageDetail, RuntimeResponse, WaitOutcome, WaitRequest,
};
pub use session::{
    initialize_v8, InProcessCodeModeSession, InProcessCodeModeSessionProvider,
    NoopCodeModeSessionDelegate, StartedCell, V8JitMode,
};
pub use store::StoredValues;
