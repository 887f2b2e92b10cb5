use vstd::prelude::*;

use crate::json::{distinct_keys, entries_view, lemma_lookup_first, JsonValue, JsonView};
use crate::protocol::{
    CellId, CodeModeNestedToolCall, EnabledTool, ExecuteRequest, FunctionCallOutputContentItem,
    RuntimeResponse,
};
use crate::store::{apply_writes, represents, StoredValues};
use crate::text::{joined, trim_whitespace, trimmed, unknown_message, unknown_message_error};

verus! {

/// The error for a message that lacks the string member `key`.
pub open spec fn missing_field(key: Seq<char>) -> Seq<char> {
    "Node code-mode message is missing string field "@ + key
}

/// The reply to a call that failed with `error`.
pub open spec fn failure_reply(id: Seq<char>, error: Seq<char>) -> JsonView {
    JsonView::Object(
        seq![
            ("id"@, JsonView::Str(id)),
            ("ok"@, JsonView::Bool(false)),
            ("error"@, JsonView::Str(error)),
        ],
    )
}

/// The reply to a tool call that returned `result`.
pub open spec fn tool_success_reply(id: Seq<char>, result: JsonView) -> JsonView {
    JsonView::Object(
        seq![("id"@, JsonView::Str(id)), ("ok"@, JsonView::Bool(true)), ("result"@, result)],
    )
}

/// The reply to a notification that was delivered.
pub open spec fn notify_success_reply(id: Seq<char>) -> JsonView {
    JsonView::Object(seq![("id"@, JsonView::Str(id)), ("ok"@, JsonView::Bool(true))])
}

/// Every reply names the message that it answers and says whether the call succeeded.
pub proof fn lemma_replies_carry_id(id: Seq<char>, error: Seq<char>, result: JsonView)
    ensures
        failure_reply(id, error).field("id"@) == Some(JsonView::Str(id)),
        failure_reply(id, error).field("ok"@) == Some(JsonView::Bool(false)),
        failure_reply(id, error).field("error"@) == Some(JsonView::Str(error)),
        tool_success_reply(id, result).field("id"@) == Some(JsonView::Str(id)),
        tool_success_reply(id, result).field("ok"@) == Some(JsonView::Bool(true)),
        tool_success_reply(id, result).field("result"@) == Some(result),
        notify_success_reply(id).field("id"@) == Some(JsonView::Str(id)),
        notify_success_reply(id).field("ok"@) == Some(JsonView::Bool(true)),
{
    reveal_strlit("id");
    reveal_strlit("ok");
    reveal_strlit("error");
    reveal_strlit("result");
    assert("id"@[0] != "ok"@[0] && "id"@[0] != "error"@[0] && "ok"@[0] != "error"@[0]);
    assert("id"@[0] != "result"@[0] && "ok"@[0] != "result"@[0]);
    assert("id"@ != "ok"@);
    assert("id"@ != "error"@ && "ok"@ != "error"@);
    assert("id"@ != "result"@ && "ok"@ != "result"@);
    let f = failure_reply(id, error)->Object_0;
    lemma_lookup_first(f, "id"@, 0);
    lemma_lookup_first(f, "ok"@, 1);
    lemma_lookup_first(f, "error"@, 2);
    let t = tool_success_reply(id, result)->Object_0;
    lemma_lookup_first(t, "id"@, 0);
    lemma_lookup_first(t, "ok"@, 1);
    lemma_lookup_first(t, "result"@, 2);
    let n = notify_success_reply(id)->Object_0;
    lemma_lookup_first(n, "id"@, 0);
    lemma_lookup_first(n, "ok"@, 1);
}

/// Every reply has its members once each: `id`, `ok`, and `error` or `result` where it has one.
pub proof fn lemma_reply_keys_distinct(id: Seq<char>, error: Seq<char>, result: JsonView)
    ensures
        failure_reply(id, error)->Object_0.len() == 3,
        distinct_keys(failure_reply(id, error)->Object_0),
        tool_success_reply(id, result)->Object_0.len() == 3,
        distinct_keys(tool_success_reply(id, result)->Object_0),
        notify_success_reply(id)->Object_0.len() == 2,
        distinct_keys(notify_success_reply(id)->Object_0),
{
    reveal_strlit("id");
    reveal_strlit("ok");
    reveal_strlit("error");
    reveal_strlit("result");
    assert("id"@[0] != "ok"@[0] && "id"@[0] != "error"@[0] && "ok"@[0] != "error"@[0]);
    assert("id"@[0] != "result"@[0] && "ok"@[0] != "result"@[0]);
}

/// The listing of the tools has one entry per enabled tool, in their order, and each entry
/// gives exactly that tool's name and description.
pub proof fn lemma_tool_listing_entries(tools: Seq<EnabledTool>)
    ensures
        tool_listing(tools) is Array,
        tool_listing(tools)->Array_0.len() == tools.len(),
        forall|i: int|
            0 <= i < tools.len() ==> {
                let entry = #[trigger] tool_listing(tools)->Array_0[i];
                &&& entry is Object
                &&& entry->Object_0.len() == 2
                &&& distinct_keys(entry->Object_0)
                &&& entry.field("name"@) == Some(JsonView::Str(tools[i].name@))
                &&& entry.field("description"@) == Some(JsonView::Str(tools[i].description@))
            },
{
    reveal_strlit("name");
    reveal_strlit("description");
    assert("name"@[0] != "description"@[0]);
    assert forall|i: int| 0 <= i < tools.len() implies {
        let entry = #[trigger] tool_listing(tools)->Array_0[i];
        &&& entry is Object
        &&& entry->Object_0.len() == 2
        &&& distinct_keys(entry->Object_0)
        &&& entry.field("name"@) == Some(JsonView::Str(tools[i].name@))
        &&& entry.field("description"@) == Some(JsonView::Str(tools[i].description@))
    } by {
        let e = tool_listing(tools)->Array_0[i]->Object_0;
        lemma_lookup_first(e, "name"@, 0);
        lemma_lookup_first(e, "description"@, 1);
    }
}

/// The first line gives the cell its source, every enabled tool (in order, by name and
/// description) and exactly the stored values.
pub proof fn lemma_initial_message_members(
    m: JsonView,
    request: ExecuteRequest,
    stored: Map<Seq<char>, JsonView>,
)
    requires
        is_initial_message(m, request, stored),
    ensures
        distinct_keys(m->Object_0),
        m.field("source"@) == Some(JsonView::Str(request.source@)),
        m.field("tools"@) == Some(tool_listing(request.enabled_tools@)),
        m.field("stored_values"@) matches Some(o) && represents(o, stored),
{
    reveal_strlit("source");
    reveal_strlit("tools");
    reveal_strlit("stored_values");
    assert("source"@[0] != "tools"@[0] && "source"@[1] != "stored_values"@[1]);
    assert("tools"@[0] != "stored_values"@[0]);
    let e = m->Object_0;
    lemma_lookup_first(e, "source"@, 0);
    lemma_lookup_first(e, "tools"@, 1);
    lemma_lookup_first(e, "stored_values"@, 2);
}

/// A nested tool call goes to the first enabled tool with the name the cell used, under that
/// tool's own name and kind, in the cell of the run, with the message's id, and with the
/// message's `input` member as it is, of whatever kind, or none when the message has none.
pub proof fn lemma_tool_call_routing(before: NodeBridge, m: JsonView, phase: BridgePhase, a: BridgeAction)
    requires
        tool_step(before, m, phase, a),
        a is InvokeTool,
    ensures
        ({
            let call = a->InvokeTool_0;
            let tools = before.request.enabled_tools@;
            &&& opt_json_view(call.input) == m.field("input"@)
            &&& call.cell_id@ == before.cell_id@
            &&& m.str_field("id"@) == Some(call.runtime_tool_call_id@)
            &&& m.str_field("name"@) is Some
            &&& exists|i: int|
                first_tool_named(tools, m.str_field("name"@)->0, i) && call.tool_name@
                    == tools[i].tool_name@ && call.tool_kind == tools[i].kind
        }),
        phase matches BridgePhase::AwaitingTool { reply_id } && m.str_field("id"@) == Some(
            reply_id@,
        ),
{
}

/// A notification is delivered with the message's text in full, under the request's tool call
/// id and in the cell of the run.
pub proof fn lemma_notification_delivery(
    before: NodeBridge,
    m: JsonView,
    phase: BridgePhase,
    a: BridgeAction,
)
    requires
        notify_step(before, m, phase, a),
        a is Notify,
    ensures
        m.str_field("text"@) == Some(a->Notify_text@),
        a->Notify_call_id@ == before.request.tool_call_id@,
        a->Notify_cell_id@ == before.cell_id@,
        phase matches BridgePhase::AwaitingNotify { reply_id } && m.str_field("id"@) == Some(
            reply_id@,
        ),
{
}

/// The tools as the cell's code sees them: their names and descriptions.
pub open spec fn tool_listing(tools: Seq<EnabledTool>) -> JsonView {
    JsonView::Array(
        Seq::new(
            tools.len(),
            |i: int|
                JsonView::Object(
                    seq![
                        ("name"@, JsonView::Str(tools[i].name@)),
                        ("description"@, JsonView::Str(tools[i].description@)),
                    ],
                ),
        ),
    )
}

/// `m` is the first line sent to the bridge: the source, the tools and the stored values.
pub open spec fn is_initial_message(
    m: JsonView,
    request: ExecuteRequest,
    stored: Map<Seq<char>, JsonView>,
) -> bool {
    &&& m is Object
    &&& m->Object_0.len() == 3
    &&& m->Object_0[0] == ("source"@, JsonView::Str(request.source@))
    &&& m->Object_0[1] == ("tools"@, tool_listing(request.enabled_tools@))
    &&& m->Object_0[2].0 == "stored_values"@
    &&& represents(m->Object_0[2].1, stored)
}

/// `tools[i]` is the first tool named `name`.
pub open spec fn first_tool_named(tools: Seq<EnabledTool>, name: Seq<char>, i: int) -> bool {
    &&& 0 <= i < tools.len()
    &&& tools[i].name@ == name
    &&& forall|j: int| 0 <= j < i ==> tools[j].name@ != name
}

pub open spec fn opt_json_view(v: Option<JsonValue>) -> Option<JsonView> {
    match v {
        Some(x) => Some(x@),
        None => None,
    }
}

pub open spec fn opt_text_view(v: Option<String>) -> Option<Seq<char>> {
    match v {
        Some(x) => Some(x@),
        None => None,
    }
}

/// The error when the bridge's output ends before a result.
pub open spec fn exit_error(status: Seq<char>, stderr: Seq<char>) -> Seq<char> {
    "Node code-mode bridge exited with "@ + status + ": "@ + trimmed(stderr)
}

/// The string member `key` of `message`, or the error that names it.
pub fn required_string(message: &JsonValue, key: &str) -> (r: Result<String, String>)
    ensures
        match r {
            Ok(s) => message@.str_field(key@) == Some(s@),
            Err(e) => message@.str_field(key@) is None && e@ == missing_field(key@),
        },
{
    match message.string_field(key) {
        Some(s) => Ok(s),
        None => Err(joined("Node code-mode message is missing string field ", key)),
    }
}

/// Builds the reply to a call that failed with `error`.
pub fn failure_reply_value(id: String, error: String) -> (r: JsonValue)
    ensures
        r@ == failure_reply(id@, error@),
        r@ == JsonView::Object(
            seq![
                ("id"@, JsonView::Str(id@)),
                ("ok"@, JsonView::Bool(false)),
                ("error"@, JsonView::Str(error@)),
            ],
        ),
        distinct_keys(r@->Object_0),
{
    proof {
        lemma_reply_keys_distinct(id@, error@, JsonView::Null);
    }
    let mut entries: Vec<(String, JsonValue)> = Vec::new();
    entries.push((String::from_str("id"), JsonValue::String(id)));
    entries.push((String::from_str("ok"), JsonValue::Bool(false)));
    entries.push((String::from_str("error"), JsonValue::String(error)));
    let r = JsonValue::Object(entries);
    proof {
        reveal_with_fuel(JsonValue::view, 2);
    }
    assert(r@->Object_0 =~= failure_reply(id@, error@)->Object_0);
    r
}

/// Builds the reply to a tool call that returned `result`.
pub fn tool_success_value(id: String, result: JsonValue) -> (r: JsonValue)
    ensures
        r@ == tool_success_reply(id@, result@),
        r@ == JsonView::Object(
            seq![
                ("id"@, JsonView::Str(id@)),
                ("ok"@, JsonView::Bool(true)),
                ("result"@, result@),
            ],
        ),
        distinct_keys(r@->Object_0),
{
    proof {
        lemma_reply_keys_distinct(id@, Seq::empty(), result@);
    }
    let ghost rv = result@;
    let mut entries: Vec<(String, JsonValue)> = Vec::new();
    entries.push((String::from_str("id"), JsonValue::String(id)));
    entries.push((String::from_str("ok"), JsonValue::Bool(true)));
    entries.push((String::from_str("result"), result));
    let r = JsonValue::Object(entries);
    proof {
        reveal_with_fuel(JsonValue::view, 2);
    }
    assert(r@->Object_0 =~= tool_success_reply(id@, rv)->Object_0);
    r
}

/// Builds the reply to a notification that was delivered.
pub fn notify_success_value(id: String) -> (r: JsonValue)
    ensures
        r@ == notify_success_reply(id@),
        r@ == JsonView::Object(seq![("id"@, JsonView::Str(id@)), ("ok"@, JsonView::Bool(true))]),
        distinct_keys(r@->Object_0),
{
    proof {
        lemma_reply_keys_distinct(id@, Seq::empty(), JsonView::Null);
    }
    let mut entries: Vec<(String, JsonValue)> = Vec::new();
    entries.push((String::from_str("id"), JsonValue::String(id)));
    entries.push((String::from_str("ok"), JsonValue::Bool(true)));
    let r = JsonValue::Object(entries);
    proof {
        reveal_with_fuel(JsonValue::view, 2);
    }
    assert(r@->Object_0 =~= notify_success_reply(id@)->Object_0);
    r
}

/// Builds the listing of the enabled tools.
pub fn tool_listing_value(tools: &Vec<EnabledTool>) -> (r: JsonValue)
    ensures
        r@ == tool_listing(tools@),
        r@ is Array,
        r@->Array_0.len() == tools@.len(),
        forall|i: int|
            0 <= i < tools@.len() ==> #[trigger] r@->Array_0[i] == JsonView::Object(
                seq![
                    ("name"@, JsonView::Str(tools@[i].name@)),
                    ("description"@, JsonView::Str(tools@[i].description@)),
                ],
            ),
{
    let mut items: Vec<JsonValue> = Vec::new();
    let mut i: usize = 0;
    while i < tools.len()
        invariant
            i <= tools.len(),
            items.len() == i,
            forall|j: int| 0 <= j < i ==> #[trigger] items[j]@ == tool_listing(tools@)->Array_0[j],
        decreases tools.len() - i,
    {
        let mut entries: Vec<(String, JsonValue)> = Vec::new();
        entries.push((String::from_str("name"), JsonValue::String(tools[i].name.clone())));
        entries.push(
            (String::from_str("description"), JsonValue::String(tools[i].description.clone())),
        );
        let item = JsonValue::Object(entries);
        proof {
            reveal_with_fuel(JsonValue::view, 2);
        }
        assert(item@->Object_0 =~= tool_listing(tools@)->Array_0[i as int]->Object_0);
        items.push(item);
        i = i + 1;
    }
    let r = JsonValue::Array(items);
    assert forall|j: int| 0 <= j < items.len() implies r@->Array_0[j] == tool_listing(tools@)->Array_0[j] by {
        assert(r@->Array_0[j] == items[j]@);
    }
    assert(r@->Array_0 =~= tool_listing(tools@)->Array_0);
    r
}

/// Builds the first line sent to the bridge.
pub fn initial_message_value(request: &ExecuteRequest, stored: &StoredValues) -> (r: JsonValue)
    ensures
        is_initial_message(r@, *request, stored@),
{
    let snapshot = stored.snapshot();
    let ghost sv = snapshot@;
    let mut entries: Vec<(String, JsonValue)> = Vec::new();
    entries.push((String::from_str("source"), JsonValue::String(request.source.clone())));
    entries.push((String::from_str("tools"), tool_listing_value(&request.enabled_tools)));
    entries.push((String::from_str("stored_values"), snapshot));
    let r = JsonValue::Object(entries);
    assert(r@->Object_0 =~= entries_view(entries@));
    assert(r@->Object_0[2].1 == sv);
    r
}

/// Where a run of the Node bridge stands.
#[derive(Debug, PartialEq)]
pub enum BridgePhase {
    /// The first line has not been sent yet.
    Starting,
    /// Waiting for the next line of the bridge's output.
    ReadingLines,
    /// A nested tool call is being carried out; its reply goes to the message `reply_id`.
    AwaitingTool { reply_id: String },
    /// A notification is being delivered; its reply goes to the message `reply_id`.
    AwaitingNotify { reply_id: String },
    /// The content items and stored-value writes of the result are being decoded.
    AwaitingResult { error_text: Option<String> },
    /// The output has ended; `response` is the cell's result, if the bridge sent one.
    AwaitingExit { response: Option<RuntimeResponse> },
    /// The run is over.
    Stopped,
}

/// What the driver of a run does next.
#[derive(Debug, PartialEq)]
pub enum BridgeAction {
    /// Write this message as one line, then read the next line.
    Send(JsonValue),
    /// Have the session's delegate carry out this call, then report its outcome.
    InvokeTool(CodeModeNestedToolCall),
    /// Have the session's delegate deliver this notification, then report its outcome.
    Notify { call_id: String, cell_id: CellId, text: String },
    /// Decode these as the cell's content items and its stored-value writes, then report them.
    DecodeResult { content_items: JsonValue, stored_value_writes: JsonValue },
    /// Close the bridge's input, wait for it to exit, then report its status and its stderr.
    AwaitExit,
    /// The run is over with this outcome.
    Finish(Result<RuntimeResponse, String>),
}

/// One run of a cell's code through the Node bridge: the decisions of the exchange, from the
/// first line sent to the outcome of the cell.
#[derive(Debug, PartialEq)]
pub struct NodeBridge {
    pub cell_id: CellId,
    pub request: ExecuteRequest,
    pub phase: BridgePhase,
}

/// The step taken on a `tool` message `m`.
pub open spec fn tool_step(
    before: NodeBridge,
    m: JsonView,
    phase: BridgePhase,
    a: BridgeAction,
) -> bool {
    let tools = before.request.enabled_tools@;
    match (m.str_field("id"@), m.str_field("name"@)) {
        (None, _) => {
            &&& a matches BridgeAction::Finish(Err(e)) && e@ == missing_field("id"@)
            &&& phase is Stopped
        },
        (Some(_), None) => {
            &&& a matches BridgeAction::Finish(Err(e)) && e@ == missing_field("name"@)
            &&& phase is Stopped
        },
        (Some(id), Some(name)) => if forall|j: int| 0 <= j < tools.len() ==> tools[j].name@ != name {
            &&& a matches BridgeAction::Send(v) && v@ == failure_reply(id, "unknown tool "@ + name)
            &&& phase is ReadingLines
        } else {
            &&& exists|i: int|
                first_tool_named(tools, name, i) && (a matches BridgeAction::InvokeTool(call) && {
                    &&& call.cell_id@ == before.cell_id@
                    &&& call.runtime_tool_call_id@ == id
                    &&& call.tool_name@ == tools[i].tool_name@
                    &&& call.tool_kind == tools[i].kind
                    &&& opt_json_view(call.input) == m.field("input"@)
                })
            &&& phase matches BridgePhase::AwaitingTool { reply_id } && reply_id@ == id
        },
    }
}

/// The step taken on a `notify` message `m`.
pub open spec fn notify_step(
    before: NodeBridge,
    m: JsonView,
    phase: BridgePhase,
    a: BridgeAction,
) -> bool {
    match (m.str_field("id"@), m.str_field("text"@)) {
        (None, _) => {
            &&& a matches BridgeAction::Finish(Err(e)) && e@ == missing_field("id"@)
            &&& phase is Stopped
        },
        (Some(_), None) => {
            &&& a matches BridgeAction::Finish(Err(e)) && e@ == missing_field("text"@)
            &&& phase is Stopped
        },
        (Some(id), Some(text)) => {
            &&& a matches BridgeAction::Notify { call_id, cell_id, text: t } && {
                &&& call_id@ == before.request.tool_call_id@
                &&& cell_id@ == before.cell_id@
                &&& t@ == text
            }
            &&& phase matches BridgePhase::AwaitingNotify { reply_id } && reply_id@ == id
        },
    }
}

/// The member `key` of `m`, or null when it is absent.
pub open spec fn field_or_null(m: JsonView, key: Seq<char>) -> JsonView {
    match m.field(key) {
        Some(v) => v,
        None => JsonView::Null,
    }
}

/// The step taken on a `result` message `m`.
pub open spec fn result_step(m: JsonView, phase: BridgePhase, a: BridgeAction) -> bool {
    &&& a matches BridgeAction::DecodeResult { content_items, stored_value_writes } && {
        &&& content_items@ == field_or_null(m, "content_items"@)
        &&& stored_value_writes@ == field_or_null(m, "stored_value_writes"@)
    }
    &&& phase matches BridgePhase::AwaitingResult { error_text } && opt_text_view(error_text)
        == m.str_field("error_text"@)
}

/// The step taken on a line `m` of the bridge's output, by the message's `type`.
pub open spec fn line_step(before: NodeBridge, m: JsonView, phase: BridgePhase, a: BridgeAction) -> bool {
    let kind = m.str_field("type"@);
    if kind == Some("tool"@) {
        tool_step(before, m, phase, a)
    } else if kind == Some("notify"@) {
        notify_step(before, m, phase, a)
    } else if kind == Some("result"@) {
        result_step(m, phase, a)
    } else {
        &&& a matches BridgeAction::Finish(Err(e)) && e@ == unknown_message(kind)
        &&& phase is Stopped
    }
}

impl NodeBridge {
    /// A run of `request` in the cell `cell_id`, before anything is sent.
    pub fn new(cell_id: CellId, request: ExecuteRequest) -> (r: NodeBridge)
        ensures
            r.cell_id == cell_id,
            r.request == request,
            r.phase is Starting,
    {
        NodeBridge { cell_id, request, phase: BridgePhase::Starting }
    }

    /// Sends the source, the tools and the session's stored values.
    pub fn start(&mut self, stored: &StoredValues) -> (a: BridgeAction)
        requires
            old(self).phase is Starting,
        ensures
            final(self).cell_id == old(self).cell_id,
            final(self).request == old(self).request,
            final(self).phase is ReadingLines,
            a matches BridgeAction::Send(m) && is_initial_message(m@, old(self).request, stored@),
            a matches BridgeAction::Send(m) && {
                &&& distinct_keys(m@->Object_0)
                &&& m@.field("source"@) == Some(JsonView::Str(old(self).request.source@))
                &&& m@.field("stored_values"@) matches Some(o) && represents(o, stored@)
                &&& m@.field("tools"@) matches Some(JsonView::Array(listed)) && {
                    &&& listed.len() == old(self).request.enabled_tools@.len()
                    &&& forall|i: int|
                        0 <= i < listed.len() ==> {
                            let entry = #[trigger] listed[i];
                            let tool = old(self).request.enabled_tools@[i];
                            &&& entry is Object
                            &&& entry->Object_0.len() == 2
                            &&& distinct_keys(entry->Object_0)
                            &&& entry.field("name"@) == Some(JsonView::Str(tool.name@))
                            &&& entry.field("description"@) == Some(
                                JsonView::Str(tool.description@),
                            )
                        }
                }
            },
    {
        let m = initial_message_value(&self.request, stored);
        proof {
            lemma_initial_message_members(m@, self.request, stored@);
            lemma_tool_listing_entries(self.request.enabled_tools@);
        }
        self.phase = BridgePhase::ReadingLines;
        BridgeAction::Send(m)
    }

    /// Handles a line of the bridge's output.
    pub fn on_line(&mut self, message: JsonValue) -> (a: BridgeAction)
        requires
            old(self).phase is ReadingLines,
        ensures
            final(self).cell_id == old(self).cell_id,
            final(self).request == old(self).request,
            line_step(*old(self), message@, final(self).phase, a),
            a matches BridgeAction::InvokeTool(call) ==> {
                let tools = old(self).request.enabled_tools@;
                &&& message@.str_field("type"@) == Some("tool"@)
                &&& opt_json_view(call.input) == message@.field("input"@)
                &&& call.cell_id@ == old(self).cell_id@
                &&& message@.str_field("id"@) == Some(call.runtime_tool_call_id@)
                &&& message@.str_field("name"@) is Some
                &&& exists|i: int|
                    first_tool_named(tools, message@.str_field("name"@)->0, i) && call.tool_name@
                        == tools[i].tool_name@ && call.tool_kind == tools[i].kind
            },
            a matches BridgeAction::Notify { call_id, cell_id, text } ==> {
                &&& message@.str_field("type"@) == Some("notify"@)
                &&& message@.str_field("text"@) == Some(text@)
                &&& call_id@ == old(self).request.tool_call_id@
                &&& cell_id@ == old(self).cell_id@
            },
    {
        let kind = message.string_field("type");
        let is_tool = match &kind {
            Some(k) => *k == String::from_str("tool"),
            None => false,
        };
        let is_notify = match &kind {
            Some(k) => *k == String::from_str("notify"),
            None => false,
        };
        let is_result = match &kind {
            Some(k) => *k == String::from_str("result"),
            None => false,
        };
        if is_tool {
            self.on_tool_message(&message)
        } else if is_notify {
            self.on_notify_message(&message)
        } else if is_result {
            self.on_result_message(&message)
        } else {
            self.phase = BridgePhase::Stopped;
            let e = match &kind {
                Some(k) => unknown_message_error(Some(k.as_str())),
                None => unknown_message_error(None),
            };
            BridgeAction::Finish(Err(e))
        }
    }

    /// Handles a line of output that is not JSON; `error` is the parser's description.
    pub fn on_invalid_line(&mut self, error: String) -> (a: BridgeAction)
        requires
            old(self).phase is ReadingLines,
        ensures
            final(self).cell_id == old(self).cell_id,
            final(self).request == old(self).request,
            final(self).phase is Stopped,
            a matches BridgeAction::Finish(Err(e)) && e@ == "invalid Node code-mode response: "@
                + error@,
    {
        self.phase = BridgePhase::Stopped;
        BridgeAction::Finish(Err(joined("invalid Node code-mode response: ", error.as_str())))
    }

    /// Handles the end of the bridge's output before a result.
    pub fn on_output_closed(&mut self) -> (a: BridgeAction)
        requires
            old(self).phase is ReadingLines,
        ensures
            final(self).cell_id == old(self).cell_id,
            final(self).request == old(self).request,
            final(self).phase == (BridgePhase::AwaitingExit { response: None }),
            a is AwaitExit,
    {
        self.phase = BridgePhase::AwaitingExit { response: None };
        BridgeAction::AwaitExit
    }

    /// Replies to the tool call with what the delegate returned.
    pub fn on_tool_result(&mut self, result: Result<JsonValue, String>) -> (a: BridgeAction)
        requires
            old(self).phase is AwaitingTool,
        ensures
            final(self).cell_id == old(self).cell_id,
            final(self).request == old(self).request,
            final(self).phase is ReadingLines,
            a matches BridgeAction::Send(v) && v@ == match result {
                Ok(r) => tool_success_reply(old(self).phase->AwaitingTool_reply_id@, r@),
                Err(e) => failure_reply(old(self).phase->AwaitingTool_reply_id@, e@),
            },
            a matches BridgeAction::Send(v) && distinct_keys(v@->Object_0) && v@ == match result {
                Ok(r) => JsonView::Object(
                    seq![
                        ("id"@, JsonView::Str(old(self).phase->AwaitingTool_reply_id@)),
                        ("ok"@, JsonView::Bool(true)),
                        ("result"@, r@),
                    ],
                ),
                Err(e) => JsonView::Object(
                    seq![
                        ("id"@, JsonView::Str(old(self).phase->AwaitingTool_reply_id@)),
                        ("ok"@, JsonView::Bool(false)),
                        ("error"@, JsonView::Str(e@)),
                    ],
                ),
            },
    {
        let mut phase = BridgePhase::ReadingLines;
        std::mem::swap(&mut phase, &mut self.phase);
        let id = match phase {
            BridgePhase::AwaitingTool { reply_id } => reply_id,
            _ => String::new(),
        };
        match result {
            Ok(r) => BridgeAction::Send(tool_success_value(id, r)),
            Err(e) => BridgeAction::Send(failure_reply_value(id, e)),
        }
    }

    /// Replies to the notification with what the delegate returned.
    pub fn on_notify_result(&mut self, result: Result<(), String>) -> (a: BridgeAction)
        requires
            old(self).phase is AwaitingNotify,
        ensures
            final(self).cell_id == old(self).cell_id,
            final(self).request == old(self).request,
            final(self).phase is ReadingLines,
            a matches BridgeAction::Send(v) && v@ == match result {
                Ok(_) => notify_success_reply(old(self).phase->AwaitingNotify_reply_id@),
                Err(e) => failure_reply(old(self).phase->AwaitingNotify_reply_id@, e@),
            },
            a matches BridgeAction::Send(v) && distinct_keys(v@->Object_0) && v@ == match result {
                Ok(_) => JsonView::Object(
                    seq![
                        ("id"@, JsonView::Str(old(self).phase->AwaitingNotify_reply_id@)),
                        ("ok"@, JsonView::Bool(true)),
                    ],
                ),
                Err(e) => JsonView::Object(
                    seq![
                        ("id"@, JsonView::Str(old(self).phase->AwaitingNotify_reply_id@)),
                        ("ok"@, JsonView::Bool(false)),
                        ("error"@, JsonView::Str(e@)),
                    ],
                ),
            },
    {
        let mut phase = BridgePhase::ReadingLines;
        std::mem::swap(&mut phase, &mut self.phase);
        let id = match phase {
            BridgePhase::AwaitingNotify { reply_id } => reply_id,
            _ => String::new(),
        };
        match result {
            Ok(()) => BridgeAction::Send(notify_success_value(id)),
            Err(e) => BridgeAction::Send(failure_reply_value(id, e)),
        }
    }

    /// Takes the decoded result: on success the writes go into `stored` and the run waits for
    /// the bridge to exit; a decoding error ends the run.
    pub fn on_result_decoded(
        &mut self,
        stored: &mut StoredValues,
        content_items: Result<Vec<FunctionCallOutputContentItem>, String>,
        stored_value_writes: Result<Vec<(String, JsonValue)>, String>,
    ) -> (a: BridgeAction)
        requires
            old(self).phase is AwaitingResult,
        ensures
            final(self).cell_id == old(self).cell_id,
            final(self).request == old(self).request,
            match (content_items, stored_value_writes) {
                (Err(e), _) => {
                    &&& a matches BridgeAction::Finish(Err(m)) && m@
                        == "invalid Node code-mode content: "@ + e@
                    &&& final(self).phase is Stopped
                    &&& final(stored)@ == old(stored)@
                },
                (Ok(_), Err(e)) => {
                    &&& a matches BridgeAction::Finish(Err(m)) && m@
                        == "invalid Node code-mode stored values: "@ + e@
                    &&& final(self).phase is Stopped
                    &&& final(stored)@ == old(stored)@
                },
                (Ok(items), Ok(writes)) => {
                    &&& a is AwaitExit
                    &&& final(stored)@ == apply_writes(old(stored)@, entries_view(writes@))
                    &&& final(self).phase matches BridgePhase::AwaitingExit {
                        response: Some(RuntimeResponse::Result { cell_id, content_items: c, error_text }),
                    } && {
                        &&& cell_id@ == old(self).cell_id@
                        &&& c == items
                        &&& opt_text_view(error_text) == opt_text_view(
                            old(self).phase->AwaitingResult_error_text,
                        )
                    }
                },
            },
    {
        let mut phase = BridgePhase::Stopped;
        std::mem::swap(&mut phase, &mut self.phase);
        let error_text = match phase {
            BridgePhase::AwaitingResult { error_text } => error_text,
            _ => None,
        };
        match content_items {
            Err(e) => BridgeAction::Finish(
                Err(joined("invalid Node code-mode content: ", e.as_str())),
            ),
            Ok(items) => match stored_value_writes {
                Err(e) => BridgeAction::Finish(
                    Err(joined("invalid Node code-mode stored values: ", e.as_str())),
                ),
                Ok(writes) => {
                    stored.store_writes(writes);
                    let response = RuntimeResponse::Result {
                        cell_id: self.cell_id.clone(),
                        content_items: items,
                        error_text,
                    };
                    self.phase = BridgePhase::AwaitingExit { response: Some(response) };
                    BridgeAction::AwaitExit
                },
            },
        }
    }

    /// Ends the run once the bridge has exited: with the result it sent, or else with an error
    /// that gives the exit `status` and the bridge's `stderr`, trimmed.
    pub fn on_exit(&mut self, status: String, stderr: String) -> (a: BridgeAction)
        requires
            old(self).phase is AwaitingExit,
        ensures
            final(self).cell_id == old(self).cell_id,
            final(self).request == old(self).request,
            final(self).phase is Stopped,
            match old(self).phase->response {
                Some(r) => a == BridgeAction::Finish(Ok(r)),
                None => a matches BridgeAction::Finish(Err(e)) && e@ == exit_error(
                    status@,
                    stderr@,
                ),
            },
    {
        let mut phase = BridgePhase::Stopped;
        std::mem::swap(&mut phase, &mut self.phase);
        let response = match phase {
            BridgePhase::AwaitingExit { response } => response,
            _ => None,
        };
        match response {
            Some(r) => BridgeAction::Finish(Ok(r)),
            None => {
                let mut e = String::from_str("Node code-mode bridge exited with ");
                e.append(status.as_str());
                e.append(": ");
                let trimmed_stderr = trim_whitespace(stderr.as_str());
                e.append(trimmed_stderr.as_str());
                BridgeAction::Finish(Err(e))
            },
        }
    }

    fn on_tool_message(&mut self, message: &JsonValue) -> (a: BridgeAction)
        ensures
            final(self).cell_id == old(self).cell_id,
            final(self).request == old(self).request,
            tool_step(*old(self), message@, final(self).phase, a),
            a matches BridgeAction::InvokeTool(call) ==> {
                let tools = old(self).request.enabled_tools@;
                &&& opt_json_view(call.input) == message@.field("input"@)
                &&& call.cell_id@ == old(self).cell_id@
                &&& message@.str_field("id"@) == Some(call.runtime_tool_call_id@)
                &&& message@.str_field("name"@) is Some
                &&& exists|i: int|
                    first_tool_named(tools, message@.str_field("name"@)->0, i) && call.tool_name@
                        == tools[i].tool_name@ && call.tool_kind == tools[i].kind
            },
    {
        let id = match required_string(message, "id") {
            Ok(id) => id,
            Err(e) => {
                self.phase = BridgePhase::Stopped;
                return BridgeAction::Finish(Err(e));
            },
        };
        let name = match required_string(message, "name") {
            Ok(name) => name,
            Err(e) => {
                self.phase = BridgePhase::Stopped;
                return BridgeAction::Finish(Err(e));
            },
        };
        let ghost tools = self.request.enabled_tools@;
        let mut i: usize = 0;
        while i < self.request.enabled_tools.len()
            invariant
                tools == self.request.enabled_tools@,
                i <= tools.len(),
                forall|j: int| 0 <= j < i ==> tools[j].name@ != name@,
            ensures
                i <= tools.len(),
                forall|j: int| 0 <= j < i ==> tools[j].name@ != name@,
                i < tools.len() ==> tools[i as int].name@ == name@,
            decreases tools.len() - i,
        {
            if self.request.enabled_tools[i].name == name {
                break;
            }
            i = i + 1;
        }
        if i < self.request.enabled_tools.len() {
            let tool = &self.request.enabled_tools[i];
            let input = match message.get("input") {
                Some(v) => Some(v.deep_copy()),
                None => None,
            };
            let call = CodeModeNestedToolCall {
                cell_id: self.cell_id.clone(),
                runtime_tool_call_id: id.clone(),
                tool_name: tool.tool_name.clone(),
                tool_kind: tool.kind,
                input,
            };
            assert(first_tool_named(tools, name@, i as int));
            self.phase = BridgePhase::AwaitingTool { reply_id: id };
            BridgeAction::InvokeTool(call)
        } else {
            let error = joined("unknown tool ", name.as_str());
            self.phase = BridgePhase::ReadingLines;
            BridgeAction::Send(failure_reply_value(id, error))
        }
    }

    fn on_notify_message(&mut self, message: &JsonValue) -> (a: BridgeAction)
        ensures
            final(self).cell_id == old(self).cell_id,
            final(self).request == old(self).request,
            notify_step(*old(self), message@, final(self).phase, a),
            a matches BridgeAction::Notify { call_id, cell_id, text } ==> {
                &&& message@.str_field("text"@) == Some(text@)
                &&& call_id@ == old(self).request.tool_call_id@
                &&& cell_id@ == old(self).cell_id@
            },
    {
        let id = match required_string(message, "id") {
            Ok(id) => id,
            Err(e) => {
                self.phase = BridgePhase::Stopped;
                return BridgeAction::Finish(Err(e));
            },
        };
        let text = match required_string(message, "text") {
            Ok(text) => text,
            Err(e) => {
                self.phase = BridgePhase::Stopped;
                return BridgeAction::Finish(Err(e));
            },
        };
        let call_id = self.request.tool_call_id.clone();
        let cell_id = self.cell_id.clone();
        self.phase = BridgePhase::AwaitingNotify { reply_id: id };
        BridgeAction::Notify { call_id, cell_id, text }
    }

    fn on_result_message(&mut self, message: &JsonValue) -> (a: BridgeAction)
        ensures
            final(self).cell_id == old(self).cell_id,
            final(self).request == old(self).request,
            result_step(message@, final(self).phase, a),
    {
        let content_items = match message.get("content_items") {
            Some(v) => v.deep_copy(),
            None => JsonValue::Null,
        };
        let stored_value_writes = match message.get("stored_value_writes") {
            Some(v) => v.deep_copy(),
            None => JsonValue::Null,
        };
        let error_text = message.string_field("error_text");
        self.phase = BridgePhase::AwaitingResult { error_text };
        BridgeAction::DecodeResult { content_items, stored_value_writes }
    }
}

} // verus!
