//! The JSON shape of hook payloads. Programs outside this library read it, so it is stable: the
//! names of the fields, their order, and the text that stands for each choice.
use crate::json::{self, Json, JsonObject, JsonView};
use crate::payload::{HookApprovalKind, HookEvent, HookEventAfterAgent, HookEventAfterToolUse};
use crate::payload::{HookEventApprovalRequested, HookEventBeforeToolUse, HookEventSessionStart};
use crate::payload::{HookEventSubagentStart, HookEventSubagentStop, HookEventUserPromptSubmit};
use crate::payload::{HookPath, HookPayload, HookToolInput, HookToolInputLocalShell, HookToolKind};
use crate::payload::{SandboxPermissions, UserInput};
use crate::time;
use crate::types::HookError;
use vstd::prelude::*;

verus! {

/// The message of the error where a payload cannot be written.
pub const PATH_IS_NOT_TEXT: &'static str = "path contains invalid UTF-8 characters";

// Parts that several shapes share.

/// Text, or null where there is none.
pub open spec fn optional_text(text: Option<String>) -> JsonView {
    match text {
        Some(present) => JsonView::Text(present@),
        None => JsonView::Null,
    }
}

/// An array of text.
pub open spec fn texts(items: Seq<String>) -> JsonView {
    JsonView::Array(items.map_values(|item: String| JsonView::Text(item@)))
}

/// An array of text, or null where there is none.
pub open spec fn optional_texts(items: Option<Vec<String>>) -> JsonView {
    match items {
        Some(present) => texts(present@),
        None => JsonView::Null,
    }
}

/// A number, or null where there is none.
pub open spec fn optional_number(number: Option<u64>) -> JsonView {
    match number {
        Some(present) => JsonView::Number(present),
        None => JsonView::Null,
    }
}

/// A path, or null where there is none.
pub open spec fn optional_path(path: Option<HookPath>) -> JsonView {
    match path {
        Some(present) => JsonView::Text(present.text()),
        None => JsonView::Null,
    }
}

/// An array of paths, or null where there is none.
pub open spec fn optional_paths(paths: Option<Vec<HookPath>>) -> JsonView {
    match paths {
        Some(present) => JsonView::Array(
            present@.map_values(|path: HookPath| JsonView::Text(path.text())),
        ),
        None => JsonView::Null,
    }
}

// The text that stands for each choice.

/// The name of the event in payloads.
pub open spec fn event_type(event: HookEvent) -> Seq<char> {
    match event {
        HookEvent::SessionStart { .. } => "session_start"@,
        HookEvent::ApprovalRequested { .. } => "approval_requested"@,
        HookEvent::UserPromptSubmit { .. } => "user_prompt_submit"@,
        HookEvent::BeforeToolUse { .. } => "before_tool_use"@,
        HookEvent::ToolUseFailure { .. } => "tool_use_failure"@,
        HookEvent::AfterAgent { .. } => "after_agent"@,
        HookEvent::SubagentStart { .. } => "subagent_start"@,
        HookEvent::SubagentStop { .. } => "subagent_stop"@,
        HookEvent::CompactStart => "compact_start"@,
        HookEvent::AfterToolUse { .. } => "after_tool_use"@,
    }
}

/// The name of the kind of approval in payloads.
pub open spec fn approval_kind(kind: HookApprovalKind) -> Seq<char> {
    match kind {
        HookApprovalKind::ExecCommand => "exec_command"@,
    }
}

/// The name of the kind of tool in payloads.
pub open spec fn tool_kind(kind: HookToolKind) -> Seq<char> {
    match kind {
        HookToolKind::Function => "function"@,
        HookToolKind::Custom => "custom"@,
        HookToolKind::LocalShell => "local_shell"@,
        HookToolKind::Mcp => "mcp"@,
    }
}

/// The name of sandbox permissions in payloads.
pub open spec fn permissions_name(permissions: SandboxPermissions) -> Seq<char> {
    match permissions {
        SandboxPermissions::UseDefault => "use_default"@,
        SandboxPermissions::Other { name } => name@,
    }
}

// The shapes.

/// The shape of sandbox permissions.
pub open spec fn optional_permissions(permissions: Option<SandboxPermissions>) -> JsonView {
    match permissions {
        Some(present) => JsonView::Text(permissions_name(present)),
        None => JsonView::Null,
    }
}

/// The fields of a shell call.
pub open spec fn local_shell_fields(params: HookToolInputLocalShell) -> Seq<
    (Seq<char>, JsonView),
> {
    seq![
        ("command"@, texts(params.command@)),
        ("workdir"@, optional_text(params.workdir)),
        ("timeout_ms"@, optional_number(params.timeout_ms)),
        ("sandbox_permissions"@, optional_permissions(params.sandbox_permissions)),
        ("prefix_rule"@, optional_texts(params.prefix_rule)),
        ("justification"@, optional_text(params.justification)),
    ]
}

/// The fields of the input of a tool call.
pub open spec fn tool_input_fields(input: HookToolInput) -> Seq<(Seq<char>, JsonView)> {
    match input {
        HookToolInput::Function { arguments } => seq![
            ("input_type"@, JsonView::Text("function"@)),
            ("arguments"@, JsonView::Text(arguments@)),
        ],
        HookToolInput::Custom { input } => seq![
            ("input_type"@, JsonView::Text("custom"@)),
            ("input"@, JsonView::Text(input@)),
        ],
        HookToolInput::LocalShell { params } => seq![
            ("input_type"@, JsonView::Text("local_shell"@)),
            ("params"@, JsonView::Object(local_shell_fields(params))),
        ],
        HookToolInput::Mcp { server, tool, arguments } => seq![
            ("input_type"@, JsonView::Text("mcp"@)),
            ("server"@, JsonView::Text(server@)),
            ("tool"@, JsonView::Text(tool@)),
            ("arguments"@, JsonView::Text(arguments@)),
        ],
    }
}

/// The shape of an item of what the user submitted.
pub open spec fn user_input_json(input: UserInput) -> JsonView {
    match input {
        UserInput::Text { text, text_elements } => JsonView::Object(
            seq![
                ("type"@, JsonView::Text("text"@)),
                ("text"@, JsonView::Text(text@)),
                ("text_elements"@, JsonView::Array(json::item_views(text_elements@))),
            ],
        ),
        UserInput::Other { item } => item@,
    }
}

/// The fields of an event: its name, and what is told of it.
pub open spec fn event_fields(event: HookEvent) -> Seq<(Seq<char>, JsonView)> {
    let tag = ("event_type"@, JsonView::Text(event_type(event)));
    match event {
        HookEvent::SessionStart { event } => seq![
            tag,
            ("thread_id"@, JsonView::Text(event.thread_id.text@)),
            ("session_source"@, JsonView::Text(event.session_source@)),
            ("model"@, JsonView::Text(event.model@)),
            ("model_provider_id"@, JsonView::Text(event.model_provider_id@)),
            ("approval_policy"@, JsonView::Text(event.approval_policy@)),
            ("sandbox_policy"@, JsonView::Text(event.sandbox_policy@)),
        ],
        HookEvent::ApprovalRequested { event } => seq![
            tag,
            ("turn_id"@, JsonView::Text(event.turn_id@)),
            ("approval_id"@, JsonView::Text(event.approval_id@)),
            ("kind"@, JsonView::Text(approval_kind(event.kind))),
            ("call_id"@, optional_text(event.call_id)),
            ("reason"@, optional_text(event.reason)),
            ("command"@, optional_texts(event.command)),
            ("cwd"@, optional_path(event.cwd)),
            ("changed_paths"@, optional_paths(event.changed_paths)),
            ("server_name"@, optional_text(event.server_name)),
            ("request_id"@, optional_text(event.request_id)),
        ],
        HookEvent::UserPromptSubmit { event } => seq![
            tag,
            ("turn_id"@, JsonView::Text(event.turn_id@)),
            (
                "items"@,
                JsonView::Array(event.items@.map_values(|item: UserInput| user_input_json(item))),
            ),
            ("model"@, JsonView::Text(event.model@)),
            ("approval_policy"@, JsonView::Text(event.approval_policy@)),
            ("sandbox_policy"@, JsonView::Text(event.sandbox_policy@)),
        ],
        HookEvent::BeforeToolUse { event } => seq![
            tag,
            ("turn_id"@, JsonView::Text(event.turn_id@)),
            ("call_id"@, JsonView::Text(event.call_id@)),
            ("tool_name"@, JsonView::Text(event.tool_name@)),
            ("tool_kind"@, JsonView::Text(tool_kind(event.tool_kind))),
            ("tool_input"@, JsonView::Object(tool_input_fields(event.tool_input))),
            ("mutating"@, JsonView::Bool(event.mutating)),
            ("sandbox"@, JsonView::Text(event.sandbox@)),
            ("sandbox_policy"@, JsonView::Text(event.sandbox_policy@)),
        ],
        HookEvent::AfterAgent { event } => seq![
            tag,
            ("thread_id"@, JsonView::Text(event.thread_id.text@)),
            ("turn_id"@, JsonView::Text(event.turn_id@)),
            ("input_messages"@, texts(event.input_messages@)),
            ("last_assistant_message"@, optional_text(event.last_assistant_message)),
        ],
        HookEvent::SubagentStart { event } => seq![
            tag,
            ("parent_thread_id"@, JsonView::Text(event.parent_thread_id.text@)),
            ("child_thread_id"@, JsonView::Text(event.child_thread_id.text@)),
            ("agent_nickname"@, optional_text(event.agent_nickname)),
            ("agent_role"@, optional_text(event.agent_role)),
            ("prompt"@, JsonView::Text(event.prompt@)),
        ],
        HookEvent::SubagentStop { event } => seq![
            tag,
            ("parent_thread_id"@, JsonView::Text(event.parent_thread_id.text@)),
            ("child_thread_id"@, JsonView::Text(event.child_thread_id.text@)),
            ("agent_nickname"@, optional_text(event.agent_nickname)),
            ("agent_role"@, optional_text(event.agent_role)),
            ("status"@, JsonView::Text(event.status@)),
        ],
        HookEvent::CompactStart => seq![tag],
        HookEvent::ToolUseFailure { event } => tool_result_fields(tag, event),
        HookEvent::AfterToolUse { event } => tool_result_fields(tag, event),
    }
}

/// The fields of an event that follows a tool call.
pub open spec fn tool_result_fields(
    tag: (Seq<char>, JsonView),
    event: HookEventAfterToolUse,
) -> Seq<(Seq<char>, JsonView)> {
    seq![
        tag,
        ("turn_id"@, JsonView::Text(event.turn_id@)),
        ("call_id"@, JsonView::Text(event.call_id@)),
        ("tool_name"@, JsonView::Text(event.tool_name@)),
        ("tool_kind"@, JsonView::Text(tool_kind(event.tool_kind))),
        ("tool_input"@, JsonView::Object(tool_input_fields(event.tool_input))),
        ("executed"@, JsonView::Bool(event.executed)),
        ("success"@, JsonView::Bool(event.success)),
        ("duration_ms"@, JsonView::Number(event.duration_ms)),
        ("mutating"@, JsonView::Bool(event.mutating)),
        ("sandbox"@, JsonView::Text(event.sandbox@)),
        ("sandbox_policy"@, JsonView::Text(event.sandbox_policy@)),
        ("output_preview"@, JsonView::Text(event.output_preview@)),
    ]
}

/// Whether every path that is told of the event is text, as JSON needs it.
pub open spec fn event_paths_are_text(event: HookEvent) -> bool {
    match event {
        HookEvent::ApprovalRequested { event } => {
            &&& event.cwd matches Some(cwd) ==> cwd.is_text()
            &&& event.changed_paths matches Some(paths) ==> forall|i: int|
                0 <= i < paths@.len() ==> (#[trigger] paths@[i]).is_text()
        },
        _ => true,
    }
}

/// Whether every path in the payload is text, as JSON needs it.
pub open spec fn paths_are_text(payload: HookPayload) -> bool {
    payload.cwd.is_text() && event_paths_are_text(payload.hook_event)
}

/// The shape of a payload whose instant reads `triggered_at`. A client that is not known is left
/// out.
pub open spec fn payload_shape(payload: HookPayload, triggered_at: Seq<char>) -> JsonView {
    let head = seq![
        ("session_id"@, JsonView::Text(payload.session_id.text@)),
        ("cwd"@, JsonView::Text(payload.cwd.text())),
    ];
    let client = match payload.client {
        Some(client) => head.push(("client"@, JsonView::Text(client@))),
        None => head,
    };
    JsonView::Object(
        client.push(("triggered_at"@, JsonView::Text(triggered_at))).push(
            ("hook_event"@, JsonView::Object(event_fields(payload.hook_event))),
        ),
    )
}

/// The shape of a payload.
pub open spec fn payload_json(payload: HookPayload) -> JsonView {
    let instant = payload.triggered_at;
    payload_shape(payload, time::rfc3339(instant.spec_seconds(), instant.spec_nanos()))
}

// Writing the shapes.

/// The names of `fields`.
spec fn names(fields: Seq<(Seq<char>, JsonView)>) -> Set<Seq<char>> {
    Set::new(|name: Seq<char>| json::has_field(fields, name))
}

/// A number that tells the names of fields apart.
spec fn code(name: Seq<char>) -> int {
    name.len() * 0x1000000 + (name[0] as int) * 0x10000 + (name[1] as int) * 0x100
        + name[name.len() - 1] as int
}

/// The numbers of the names of fields.
proof fn lemma_codes()
    ensures
        code("session_id"@) == 0xa736564,
        code("cwd"@) == 0x3637764,
        code("client"@) == 0x6636c74,
        code("triggered_at"@) == 0xc747274,
        code("hook_event"@) == 0xa686f74,
        code("event_type"@) == 0xa657665,
        code("thread_id"@) == 0x9746864,
        code("turn_id"@) == 0x7747564,
        code("input_messages"@) == 0xe696e73,
        code("last_assistant_message"@) == 0x166c6165,
        code("session_source"@) == 0xe736565,
        code("model"@) == 0x56d6f6c,
        code("model_provider_id"@) == 0x116d6f64,
        code("approval_policy"@) == 0xf617079,
        code("sandbox_policy"@) == 0xe736179,
        code("items"@) == 0x5697473,
        code("call_id"@) == 0x7636164,
        code("tool_name"@) == 0x9746f65,
        code("tool_kind"@) == 0x9746f64,
        code("tool_input"@) == 0xa746f74,
        code("mutating"@) == 0x86d7567,
        code("sandbox"@) == 0x7736178,
        code("executed"@) == 0x8657864,
        code("success"@) == 0x7737573,
        code("duration_ms"@) == 0xb647573,
        code("output_preview"@) == 0xe6f7577,
        code("input_type"@) == 0xa696e65,
        code("arguments"@) == 0x9617273,
        code("input"@) == 0x5696e74,
        code("params"@) == 0x6706173,
        code("server"@) == 0x6736572,
        code("tool"@) == 0x4746f6c,
        code("command"@) == 0x7636f64,
        code("workdir"@) == 0x7776f72,
        code("timeout_ms"@) == 0xa746973,
        code("sandbox_permissions"@) == 0x13736173,
        code("prefix_rule"@) == 0xb707265,
        code("justification"@) == 0xd6a756e,
        code("approval_id"@) == 0xb617064,
        code("kind"@) == 0x46b6964,
        code("reason"@) == 0x672656e,
        code("changed_paths"@) == 0xd636873,
        code("server_name"@) == 0xb736565,
        code("request_id"@) == 0xa726564,
        code("parent_thread_id"@) == 0x10706164,
        code("child_thread_id"@) == 0xf636864,
        code("agent_nickname"@) == 0xe616765,
        code("agent_role"@) == 0xa616765,
        code("prompt"@) == 0x6707274,
        code("status"@) == 0x6737473,
        code("type"@) == 0x4747965,
        code("text"@) == 0x4746574,
        code("text_elements"@) == 0xd746573,
{
    reveal_strlit("session_id");
    reveal_strlit("cwd");
    reveal_strlit("client");
    reveal_strlit("triggered_at");
    reveal_strlit("hook_event");
    reveal_strlit("event_type");
    reveal_strlit("thread_id");
    reveal_strlit("turn_id");
    reveal_strlit("input_messages");
    reveal_strlit("last_assistant_message");
    reveal_strlit("session_source");
    reveal_strlit("model");
    reveal_strlit("model_provider_id");
    reveal_strlit("approval_policy");
    reveal_strlit("sandbox_policy");
    reveal_strlit("items");
    reveal_strlit("call_id");
    reveal_strlit("tool_name");
    reveal_strlit("tool_kind");
    reveal_strlit("tool_input");
    reveal_strlit("mutating");
    reveal_strlit("sandbox");
    reveal_strlit("executed");
    reveal_strlit("success");
    reveal_strlit("duration_ms");
    reveal_strlit("output_preview");
    reveal_strlit("input_type");
    reveal_strlit("arguments");
    reveal_strlit("input");
    reveal_strlit("params");
    reveal_strlit("server");
    reveal_strlit("tool");
    reveal_strlit("command");
    reveal_strlit("workdir");
    reveal_strlit("timeout_ms");
    reveal_strlit("sandbox_permissions");
    reveal_strlit("prefix_rule");
    reveal_strlit("justification");
    reveal_strlit("approval_id");
    reveal_strlit("kind");
    reveal_strlit("reason");
    reveal_strlit("changed_paths");
    reveal_strlit("server_name");
    reveal_strlit("request_id");
    reveal_strlit("parent_thread_id");
    reveal_strlit("child_thread_id");
    reveal_strlit("agent_nickname");
    reveal_strlit("agent_role");
    reveal_strlit("prompt");
    reveal_strlit("status");
    reveal_strlit("type");
    reveal_strlit("text");
    reveal_strlit("text_elements");
}

/// Puts a field behind the others.
fn put(object: &mut JsonObject, name: &str, value: Json)
    requires
        !names(old(object)@).contains(name@),
    ensures
        final(object)@ == old(object)@.push((name@, value@)),
        names(final(object)@) == names(old(object)@).insert(name@),
{
    let ghost before = object@;
    object.insert(name.to_string(), value);
    proof {
        let after = before.push((name@, value@));
        assert forall|other: Seq<char>| json::has_field(after, other) <==> (other == name@
            || json::has_field(before, other)) by {
            if json::has_field(before, other) {
                let i = choose|i: int| 0 <= i < before.len() && (#[trigger] before[i]).0 == other;
                assert(after[i].0 == other);
            }
            if other == name@ {
                assert(after[before.len() as int].0 == other);
            }
        }
        assert(names(after) =~= names(before).insert(name@));
    }
}

fn text_json(text: &String) -> (document: Json)
    ensures
        document@ == JsonView::Text(text@),
{
    Json::Text(text.clone())
}

fn name_json(name: &str) -> (document: Json)
    ensures
        document@ == JsonView::Text(name@),
{
    Json::Text(name.to_string())
}

fn optional_text_json(text: &Option<String>) -> (document: Json)
    ensures
        document@ == optional_text(*text),
{
    match text {
        Some(present) => text_json(present),
        None => Json::Null,
    }
}

fn texts_json(items: &Vec<String>) -> (document: Json)
    ensures
        document@ == texts(items@),
{
    let mut documents: Vec<Json> = Vec::new();
    for i in 0..items.len()
        invariant
            documents@.len() == i,
            forall|j: int|
                0 <= j < i ==> (#[trigger] documents@[j])@ == JsonView::Text(items@[j]@),
    {
        documents.push(text_json(&items[i]));
    }
    proof {
        json::lemma_array_view(documents);
        assert(json::item_views(documents@) =~= texts(items@)->Array_0);
    }
    Json::Array(documents)
}

fn optional_texts_json(items: &Option<Vec<String>>) -> (document: Json)
    ensures
        document@ == optional_texts(*items),
{
    match items {
        Some(present) => texts_json(present),
        None => Json::Null,
    }
}

fn optional_number_json(number: &Option<u64>) -> (document: Json)
    ensures
        document@ == optional_number(*number),
{
    match number {
        Some(present) => Json::Number(*present),
        None => Json::Null,
    }
}

/// An object without fields.
fn fresh() -> (object: JsonObject)
    ensures
        object@ == Seq::<(Seq<char>, JsonView)>::empty(),
        names(object@) == Set::<Seq<char>>::empty(),
{
    let object = JsonObject::new();
    assert(names(object@) =~= Set::<Seq<char>>::empty());
    object
}

fn tool_kind_name(kind: &HookToolKind) -> (name: &'static str)
    ensures
        name@ == tool_kind(*kind),
{
    match kind {
        HookToolKind::Function => "function",
        HookToolKind::Custom => "custom",
        HookToolKind::LocalShell => "local_shell",
        HookToolKind::Mcp => "mcp",
    }
}

fn approval_kind_name(kind: &HookApprovalKind) -> (name: &'static str)
    ensures
        name@ == approval_kind(*kind),
{
    match kind {
        HookApprovalKind::ExecCommand => "exec_command",
    }
}

fn optional_permissions_json(permissions: &Option<SandboxPermissions>) -> (document: Json)
    ensures
        document@ == optional_permissions(*permissions),
{
    match permissions {
        Some(SandboxPermissions::UseDefault) => name_json("use_default"),
        Some(SandboxPermissions::Other { name }) => text_json(name),
        None => Json::Null,
    }
}

fn local_shell_json(params: &HookToolInputLocalShell) -> (document: Json)
    ensures
        document@ == JsonView::Object(local_shell_fields(*params)),
{
    proof {
        lemma_codes();
    }
    let mut object = fresh();
    put(&mut object, "command", texts_json(&params.command));
    put(&mut object, "workdir", optional_text_json(&params.workdir));
    put(&mut object, "timeout_ms", optional_number_json(&params.timeout_ms));
    put(
        &mut object,
        "sandbox_permissions",
        optional_permissions_json(&params.sandbox_permissions),
    );
    put(&mut object, "prefix_rule", optional_texts_json(&params.prefix_rule));
    put(&mut object, "justification", optional_text_json(&params.justification));
    assert(object@ =~= local_shell_fields(*params));
    Json::Object(object)
}

fn tool_input_json(input: &HookToolInput) -> (document: Json)
    ensures
        document@ == JsonView::Object(tool_input_fields(*input)),
{
    proof {
        lemma_codes();
    }
    let mut object = fresh();
    match input {
        HookToolInput::Function { arguments } => {
            put(&mut object, "input_type", name_json("function"));
            put(&mut object, "arguments", text_json(arguments));
        },
        HookToolInput::Custom { input } => {
            put(&mut object, "input_type", name_json("custom"));
            put(&mut object, "input", text_json(input));
        },
        HookToolInput::LocalShell { params } => {
            put(&mut object, "input_type", name_json("local_shell"));
            put(&mut object, "params", local_shell_json(params));
        },
        HookToolInput::Mcp { server, tool, arguments } => {
            put(&mut object, "input_type", name_json("mcp"));
            put(&mut object, "server", text_json(server));
            put(&mut object, "tool", text_json(tool));
            put(&mut object, "arguments", text_json(arguments));
        },
    }
    assert(object@ =~= tool_input_fields(*input));
    Json::Object(object)
}

fn items_json(items: &Vec<Json>) -> (document: Json)
    ensures
        document@ == JsonView::Array(json::item_views(items@)),
{
    let mut documents: Vec<Json> = Vec::new();
    for i in 0..items.len()
        invariant
            documents@.len() == i,
            forall|j: int| 0 <= j < i ==> (#[trigger] documents@[j])@ == items@[j]@,
    {
        documents.push(items[i].clone());
    }
    proof {
        json::lemma_array_view(documents);
        assert(json::item_views(documents@) =~= json::item_views(items@));
    }
    Json::Array(documents)
}

fn input_json(input: &UserInput) -> (document: Json)
    ensures
        document@ == user_input_json(*input),
{
    match input {
        UserInput::Text { text, text_elements } => {
            proof {
                lemma_codes();
            }
            let mut object = fresh();
            put(&mut object, "type", name_json("text"));
            put(&mut object, "text", text_json(text));
            put(&mut object, "text_elements", items_json(text_elements));
            assert(object@ =~= user_input_json(*input)->Object_0);
            Json::Object(object)
        },
        UserInput::Other { item } => item.clone(),
    }
}

fn inputs_json(items: &Vec<UserInput>) -> (document: Json)
    ensures
        document@ == JsonView::Array(items@.map_values(|item: UserInput| user_input_json(item))),
{
    let mut documents: Vec<Json> = Vec::new();
    for i in 0..items.len()
        invariant
            documents@.len() == i,
            forall|j: int|
                0 <= j < i ==> (#[trigger] documents@[j])@ == user_input_json(items@[j]),
    {
        documents.push(input_json(&items[i]));
    }
    proof {
        json::lemma_array_view(documents);
        assert(json::item_views(documents@) =~= items@.map_values(
            |item: UserInput| user_input_json(item),
        ));
    }
    Json::Array(documents)
}

fn optional_path_json(path: &Option<HookPath>) -> (document: Option<Json>)
    ensures
        document is Some <==> (path matches Some(present) ==> present.is_text()),
        document matches Some(shape) ==> shape@ == optional_path(*path),
{
    match path {
        Some(present) => match present.to_text() {
            Some(text) => Some(Json::Text(text)),
            None => None,
        },
        None => Some(Json::Null),
    }
}

fn optional_paths_json(paths: &Option<Vec<HookPath>>) -> (document: Option<Json>)
    ensures
        document is Some <==> (paths matches Some(present) ==> forall|i: int|
            0 <= i < present@.len() ==> (#[trigger] present@[i]).is_text()),
        document matches Some(shape) ==> shape@ == optional_paths(*paths),
{
    match paths {
        Some(present) => {
            let mut documents: Vec<Json> = Vec::new();
            for i in 0..present.len()
                invariant
                    *paths == Some(*present),
                    documents@.len() == i,
                    forall|j: int| 0 <= j < i ==> (#[trigger] present@[j]).is_text(),
                    forall|j: int|
                        0 <= j < i ==> (#[trigger] documents@[j])@ == JsonView::Text(
                            present@[j].text(),
                        ),
            {
                match present[i].to_text() {
                    Some(text) => documents.push(Json::Text(text)),
                    None => {
                        return None;
                    },
                }
            }
            proof {
                json::lemma_array_view(documents);
                assert(json::item_views(documents@) =~= optional_paths(*paths)->Array_0);
            }
            Some(Json::Array(documents))
        },
        None => Some(Json::Null),
    }
}

/// The object of an event, with the fields that follow a tool call.
fn tool_result_json(object: JsonObject, event: &HookEventAfterToolUse) -> (document: JsonObject)
    requires
        object@.len() == 1,
        object@[0].0 == "event_type"@,
        names(object@) == Set::<Seq<char>>::empty().insert("event_type"@),
    ensures
        document@ == tool_result_fields(object@[0], *event),
{
    proof {
        lemma_codes();
    }
    let mut fields = object;
    put(&mut fields, "turn_id", text_json(&event.turn_id));
    put(&mut fields, "call_id", text_json(&event.call_id));
    put(&mut fields, "tool_name", text_json(&event.tool_name));
    put(&mut fields, "tool_kind", name_json(tool_kind_name(&event.tool_kind)));
    put(&mut fields, "tool_input", tool_input_json(&event.tool_input));
    put(&mut fields, "executed", Json::Bool(event.executed));
    put(&mut fields, "success", Json::Bool(event.success));
    put(&mut fields, "duration_ms", Json::Number(event.duration_ms));
    put(&mut fields, "mutating", Json::Bool(event.mutating));
    put(&mut fields, "sandbox", text_json(&event.sandbox));
    put(&mut fields, "sandbox_policy", text_json(&event.sandbox_policy));
    put(&mut fields, "output_preview", text_json(&event.output_preview));
    assert(fields@ =~= tool_result_fields(object@[0], *event));
    fields
}

impl HookEvent {
    /// The name of the event in payloads.
    pub fn event_type(&self) -> (name: &'static str)
        ensures
            name@ == event_type(*self),
    {
        match self {
            HookEvent::SessionStart { .. } => "session_start",
            HookEvent::ApprovalRequested { .. } => "approval_requested",
            HookEvent::UserPromptSubmit { .. } => "user_prompt_submit",
            HookEvent::BeforeToolUse { .. } => "before_tool_use",
            HookEvent::ToolUseFailure { .. } => "tool_use_failure",
            HookEvent::AfterAgent { .. } => "after_agent",
            HookEvent::SubagentStart { .. } => "subagent_start",
            HookEvent::SubagentStop { .. } => "subagent_stop",
            HookEvent::CompactStart => "compact_start",
            HookEvent::AfterToolUse { .. } => "after_tool_use",
        }
    }

    /// The event as payloads have it, if every path in it is text.
    pub fn to_json(&self) -> (document: Option<Json>)
        ensures
            document is Some <==> event_paths_are_text(*self),
            document matches Some(shape) ==> shape@ == JsonView::Object(event_fields(*self)),
    {
        proof {
            lemma_codes();
        }
        let mut object = fresh();
        put(&mut object, "event_type", name_json(self.event_type()));
        match self {
            HookEvent::SessionStart { event } => {
                put(&mut object, "thread_id", text_json(&event.thread_id.text));
                put(&mut object, "session_source", text_json(&event.session_source));
                put(&mut object, "model", text_json(&event.model));
                put(&mut object, "model_provider_id", text_json(&event.model_provider_id));
                put(&mut object, "approval_policy", text_json(&event.approval_policy));
                put(&mut object, "sandbox_policy", text_json(&event.sandbox_policy));
            },
            HookEvent::ApprovalRequested { event } => {
                let cwd = match optional_path_json(&event.cwd) {
                    Some(cwd) => cwd,
                    None => {
                        return None;
                    },
                };
                let changed_paths = match optional_paths_json(&event.changed_paths) {
                    Some(changed_paths) => changed_paths,
                    None => {
                        return None;
                    },
                };
                put(&mut object, "turn_id", text_json(&event.turn_id));
                put(&mut object, "approval_id", text_json(&event.approval_id));
                put(&mut object, "kind", name_json(approval_kind_name(&event.kind)));
                put(&mut object, "call_id", optional_text_json(&event.call_id));
                put(&mut object, "reason", optional_text_json(&event.reason));
                put(&mut object, "command", optional_texts_json(&event.command));
                put(&mut object, "cwd", cwd);
                put(&mut object, "changed_paths", changed_paths);
                put(&mut object, "server_name", optional_text_json(&event.server_name));
                put(&mut object, "request_id", optional_text_json(&event.request_id));
            },
            HookEvent::UserPromptSubmit { event } => {
                put(&mut object, "turn_id", text_json(&event.turn_id));
                put(&mut object, "items", inputs_json(&event.items));
                put(&mut object, "model", text_json(&event.model));
                put(&mut object, "approval_policy", text_json(&event.approval_policy));
                put(&mut object, "sandbox_policy", text_json(&event.sandbox_policy));
            },
            HookEvent::BeforeToolUse { event } => {
                put(&mut object, "turn_id", text_json(&event.turn_id));
                put(&mut object, "call_id", text_json(&event.call_id));
                put(&mut object, "tool_name", text_json(&event.tool_name));
                put(&mut object, "tool_kind", name_json(tool_kind_name(&event.tool_kind)));
                put(&mut object, "tool_input", tool_input_json(&event.tool_input));
                put(&mut object, "mutating", Json::Bool(event.mutating));
                put(&mut object, "sandbox", text_json(&event.sandbox));
                put(&mut object, "sandbox_policy", text_json(&event.sandbox_policy));
            },
            HookEvent::AfterAgent { event } => {
                put(&mut object, "thread_id", text_json(&event.thread_id.text));
                put(&mut object, "turn_id", text_json(&event.turn_id));
                put(&mut object, "input_messages", texts_json(&event.input_messages));
                put(
                    &mut object,
                    "last_assistant_message",
                    optional_text_json(&event.last_assistant_message),
                );
            },
            HookEvent::SubagentStart { event } => {
                put(&mut object, "parent_thread_id", text_json(&event.parent_thread_id.text));
                put(&mut object, "child_thread_id", text_json(&event.child_thread_id.text));
                put(&mut object, "agent_nickname", optional_text_json(&event.agent_nickname));
                put(&mut object, "agent_role", optional_text_json(&event.agent_role));
                put(&mut object, "prompt", text_json(&event.prompt));
            },
            HookEvent::SubagentStop { event } => {
                put(&mut object, "parent_thread_id", text_json(&event.parent_thread_id.text));
                put(&mut object, "child_thread_id", text_json(&event.child_thread_id.text));
                put(&mut object, "agent_nickname", optional_text_json(&event.agent_nickname));
                put(&mut object, "agent_role", optional_text_json(&event.agent_role));
                put(&mut object, "status", text_json(&event.status));
            },
            HookEvent::CompactStart => {},
            HookEvent::ToolUseFailure { event } => {
                object = tool_result_json(object, event);
            },
            HookEvent::AfterToolUse { event } => {
                object = tool_result_json(object, event);
            },
        }
        assert(object@ =~= event_fields(*self));
        Some(Json::Object(object))
    }
}

impl HookPayload {
    /// The payload as a JSON document. It fails where a path in the payload is not text.
    pub fn to_json(&self) -> (document: Result<Json, HookError>)
        ensures
            document is Ok <==> paths_are_text(*self),
            document matches Ok(shape) ==> shape@ == payload_json(*self),
            document matches Err(error) ==> error.message@ == PATH_IS_NOT_TEXT@,
    {
        self.to_json_at(self.triggered_at.to_rfc3339())
    }

    /// The payload as a JSON document in which its instant reads `triggered_at`. It fails where a
    /// path in the payload is not text.
    pub fn to_json_at(&self, triggered_at: String) -> (document: Result<Json, HookError>)
        ensures
            document is Ok <==> paths_are_text(*self),
            document matches Ok(shape) ==> shape@ == payload_shape(*self, triggered_at@),
            document matches Err(error) ==> error.message@ == PATH_IS_NOT_TEXT@,
    {
        proof {
            lemma_codes();
        }
        let (cwd, hook_event) = match (self.cwd.to_text(), self.hook_event.to_json()) {
            (Some(cwd), Some(hook_event)) => (cwd, hook_event),
            _ => {
                return Err(HookError { message: PATH_IS_NOT_TEXT.to_string() });
            },
        };
        let mut object = fresh();
        put(&mut object, "session_id", text_json(&self.session_id.text));
        put(&mut object, "cwd", Json::Text(cwd));
        match &self.client {
            Some(client) => {
                put(&mut object, "client", text_json(client));
            },
            None => {},
        }
        put(&mut object, "triggered_at", Json::Text(triggered_at));
        put(&mut object, "hook_event", hook_event);
        assert(object@ =~= payload_shape(*self, triggered_at@)->Object_0);
        Ok(Json::Object(object))
    }

    /// The payload in writing, as a hook command reads it: compact JSON text, in UTF-8. It fails
    /// where a path in the payload is not text.
    pub fn to_vec(&self) -> (written: Result<Vec<u8>, HookError>)
        ensures
            written is Ok <==> paths_are_text(*self),
            written matches Ok(bytes) ==> bytes@ == json::json_bytes(payload_json(*self)),
            written matches Err(error) ==> error.message@ == PATH_IS_NOT_TEXT@,
    {
        match self.to_json() {
            Ok(document) => Ok(document.to_vec()),
            Err(error) => Err(error),
        }
    }
}

/// Whether two events are of the same kind.
pub open spec fn same_kind(one: HookEvent, other: HookEvent) -> bool {
    &&& one is SessionStart <==> other is SessionStart
    &&& one is ApprovalRequested <==> other is ApprovalRequested
    &&& one is UserPromptSubmit <==> other is UserPromptSubmit
    &&& one is BeforeToolUse <==> other is BeforeToolUse
    &&& one is ToolUseFailure <==> other is ToolUseFailure
    &&& one is AfterAgent <==> other is AfterAgent
    &&& one is SubagentStart <==> other is SubagentStart
    &&& one is SubagentStop <==> other is SubagentStop
    &&& one is CompactStart <==> other is CompactStart
    &&& one is AfterToolUse <==> other is AfterToolUse
}

/// The name of an event in payloads tells its kind.
pub proof fn law_event_type_tells_kind(one: HookEvent, other: HookEvent)
    ensures
        event_type(one) == event_type(other) <==> same_kind(one, other),
{
    reveal_strlit("session_start");
    reveal_strlit("approval_requested");
    reveal_strlit("user_prompt_submit");
    reveal_strlit("before_tool_use");
    reveal_strlit("tool_use_failure");
    reveal_strlit("after_agent");
    reveal_strlit("subagent_start");
    reveal_strlit("subagent_stop");
    reveal_strlit("compact_start");
    reveal_strlit("after_tool_use");
    assert(code("session_start"@) == 0xd736574);
    assert(code("approval_requested"@) == 0x12617064);
    assert(code("user_prompt_submit"@) == 0x12757374);
    assert(code("before_tool_use"@) == 0xf626565);
    assert(code("tool_use_failure"@) == 0x10746f65);
    assert(code("after_agent"@) == 0xb616674);
    assert(code("subagent_start"@) == 0xe737574);
    assert(code("subagent_stop"@) == 0xd737570);
    assert(code("compact_start"@) == 0xd636f74);
    assert(code("after_tool_use"@) == 0xe616665);
}

/// A payload says which client started the turn exactly where the client is known.
pub proof fn law_client_is_told_where_known(payload: HookPayload)
    ensures
        json::has_field(payload_json(payload)->Object_0, "client"@) <==> payload.client is Some,
{
    lemma_codes();
    let fields = payload_json(payload)->Object_0;
    if payload.client is Some {
        assert(fields[2].0 == "client"@);
    }
}

/// A payload ends with the event, and the event begins with its name.
pub proof fn law_event_is_named(payload: HookPayload)
    ensures
        payload_json(payload)->Object_0.last() == (
            "hook_event"@,
            JsonView::Object(event_fields(payload.hook_event)),
        ),
        event_fields(payload.hook_event).first() == (
            "event_type"@,
            JsonView::Text(event_type(payload.hook_event)),
        ),
{
}

/// What is told of the start of a session is what the event holds, each under its name, and nothing else.
pub proof fn law_told_of_session_start(event: HookEventSessionStart)
    ensures
        ({
            let fields = event_fields(HookEvent::SessionStart { event });
            &&& json::field_names(fields) == seq![
                "event_type"@,
                "thread_id"@,
                "session_source"@,
                "model"@,
                "model_provider_id"@,
                "approval_policy"@,
                "sandbox_policy"@,
            ]
            &&& json::tells(fields, "event_type"@, JsonView::Text("session_start"@))
            &&& json::tells(fields, "thread_id"@, JsonView::Text(event.thread_id.text@))
            &&& json::tells(fields, "session_source"@, JsonView::Text(event.session_source@))
            &&& json::tells(fields, "model"@, JsonView::Text(event.model@))
            &&& json::tells(fields, "model_provider_id"@, JsonView::Text(event.model_provider_id@))
            &&& json::tells(fields, "approval_policy"@, JsonView::Text(event.approval_policy@))
            &&& json::tells(fields, "sandbox_policy"@, JsonView::Text(event.sandbox_policy@))
        }),
{
    let fields = event_fields(HookEvent::SessionStart { event });
    assert(json::field_names(fields) =~= seq![
        "event_type"@,
        "thread_id"@,
        "session_source"@,
        "model"@,
        "model_provider_id"@,
        "approval_policy"@,
        "sandbox_policy"@,
    ]);
    assert(fields[0] == ("event_type"@, JsonView::Text("session_start"@)));
    assert(fields[1] == ("thread_id"@, JsonView::Text(event.thread_id.text@)));
    assert(fields[2] == ("session_source"@, JsonView::Text(event.session_source@)));
    assert(fields[3] == ("model"@, JsonView::Text(event.model@)));
    assert(fields[4] == ("model_provider_id"@, JsonView::Text(event.model_provider_id@)));
    assert(fields[5] == ("approval_policy"@, JsonView::Text(event.approval_policy@)));
    assert(fields[6] == ("sandbox_policy"@, JsonView::Text(event.sandbox_policy@)));
}

/// What is told of a request for approval is what the event holds, each under its name, and nothing else.
pub proof fn law_told_of_approval_requested(event: HookEventApprovalRequested)
    ensures
        ({
            let fields = event_fields(HookEvent::ApprovalRequested { event });
            &&& json::field_names(fields) == seq![
                "event_type"@,
                "turn_id"@,
                "approval_id"@,
                "kind"@,
                "call_id"@,
                "reason"@,
                "command"@,
                "cwd"@,
                "changed_paths"@,
                "server_name"@,
                "request_id"@,
            ]
            &&& json::tells(fields, "event_type"@, JsonView::Text("approval_requested"@))
            &&& json::tells(fields, "turn_id"@, JsonView::Text(event.turn_id@))
            &&& json::tells(fields, "approval_id"@, JsonView::Text(event.approval_id@))
            &&& json::tells(fields, "kind"@, JsonView::Text(approval_kind(event.kind)))
            &&& json::tells(fields, "call_id"@, optional_text(event.call_id))
            &&& json::tells(fields, "reason"@, optional_text(event.reason))
            &&& json::tells(fields, "command"@, optional_texts(event.command))
            &&& json::tells(fields, "cwd"@, optional_path(event.cwd))
            &&& json::tells(fields, "changed_paths"@, optional_paths(event.changed_paths))
            &&& json::tells(fields, "server_name"@, optional_text(event.server_name))
            &&& json::tells(fields, "request_id"@, optional_text(event.request_id))
        }),
{
    let fields = event_fields(HookEvent::ApprovalRequested { event });
    assert(json::field_names(fields) =~= seq![
        "event_type"@,
        "turn_id"@,
        "approval_id"@,
        "kind"@,
        "call_id"@,
        "reason"@,
        "command"@,
        "cwd"@,
        "changed_paths"@,
        "server_name"@,
        "request_id"@,
    ]);
    assert(fields[0] == ("event_type"@, JsonView::Text("approval_requested"@)));
    assert(fields[1] == ("turn_id"@, JsonView::Text(event.turn_id@)));
    assert(fields[2] == ("approval_id"@, JsonView::Text(event.approval_id@)));
    assert(fields[3] == ("kind"@, JsonView::Text(approval_kind(event.kind))));
    assert(fields[4] == ("call_id"@, optional_text(event.call_id)));
    assert(fields[5] == ("reason"@, optional_text(event.reason)));
    assert(fields[6] == ("command"@, optional_texts(event.command)));
    assert(fields[7] == ("cwd"@, optional_path(event.cwd)));
    assert(fields[8] == ("changed_paths"@, optional_paths(event.changed_paths)));
    assert(fields[9] == ("server_name"@, optional_text(event.server_name)));
    assert(fields[10] == ("request_id"@, optional_text(event.request_id)));
}

/// What is told of a prompt of the user is what the event holds, each under its name, and nothing else.
pub proof fn law_told_of_user_prompt_submit(event: HookEventUserPromptSubmit)
    ensures
        ({
            let fields = event_fields(HookEvent::UserPromptSubmit { event });
            &&& json::field_names(fields) == seq![
                "event_type"@,
                "turn_id"@,
                "items"@,
                "model"@,
                "approval_policy"@,
                "sandbox_policy"@,
            ]
            &&& json::tells(fields, "event_type"@, JsonView::Text("user_prompt_submit"@))
            &&& json::tells(fields, "turn_id"@, JsonView::Text(event.turn_id@))
            &&& json::tells(fields, "model"@, JsonView::Text(event.model@))
            &&& json::tells(fields, "approval_policy"@, JsonView::Text(event.approval_policy@))
            &&& json::tells(fields, "sandbox_policy"@, JsonView::Text(event.sandbox_policy@))
            &&& fields[2].1 is Array
            &&& fields[2].1->Array_0.len() == event.items@.len()
            &&& forall|i: int|
                0 <= i < event.items@.len() ==> #[trigger] fields[2].1->Array_0[i]
                    == user_input_json(event.items@[i])
        }),
{
    let fields = event_fields(HookEvent::UserPromptSubmit { event });
    assert(json::field_names(fields) =~= seq![
        "event_type"@,
        "turn_id"@,
        "items"@,
        "model"@,
        "approval_policy"@,
        "sandbox_policy"@,
    ]);
    assert(fields[0] == ("event_type"@, JsonView::Text("user_prompt_submit"@)));
    assert(fields[1] == ("turn_id"@, JsonView::Text(event.turn_id@)));
    assert(fields[3] == ("model"@, JsonView::Text(event.model@)));
    assert(fields[4] == ("approval_policy"@, JsonView::Text(event.approval_policy@)));
    assert(fields[5] == ("sandbox_policy"@, JsonView::Text(event.sandbox_policy@)));
}

/// What is told of a tool call that is about to execute is what the event holds, each under its name, and nothing else.
pub proof fn law_told_of_before_tool_use(event: HookEventBeforeToolUse)
    ensures
        ({
            let fields = event_fields(HookEvent::BeforeToolUse { event });
            &&& json::field_names(fields) == seq![
                "event_type"@,
                "turn_id"@,
                "call_id"@,
                "tool_name"@,
                "tool_kind"@,
                "tool_input"@,
                "mutating"@,
                "sandbox"@,
                "sandbox_policy"@,
            ]
            &&& json::tells(fields, "event_type"@, JsonView::Text("before_tool_use"@))
            &&& json::tells(fields, "turn_id"@, JsonView::Text(event.turn_id@))
            &&& json::tells(fields, "call_id"@, JsonView::Text(event.call_id@))
            &&& json::tells(fields, "tool_name"@, JsonView::Text(event.tool_name@))
            &&& json::tells(fields, "tool_kind"@, JsonView::Text(tool_kind(event.tool_kind)))
            &&& json::tells(fields, "tool_input"@, JsonView::Object(tool_input_fields(event.tool_input)))
            &&& json::tells(fields, "mutating"@, JsonView::Bool(event.mutating))
            &&& json::tells(fields, "sandbox"@, JsonView::Text(event.sandbox@))
            &&& json::tells(fields, "sandbox_policy"@, JsonView::Text(event.sandbox_policy@))
        }),
{
    let fields = event_fields(HookEvent::BeforeToolUse { event });
    assert(json::field_names(fields) =~= seq![
        "event_type"@,
        "turn_id"@,
        "call_id"@,
        "tool_name"@,
        "tool_kind"@,
        "tool_input"@,
        "mutating"@,
        "sandbox"@,
        "sandbox_policy"@,
    ]);
    assert(fields[0] == ("event_type"@, JsonView::Text("before_tool_use"@)));
    assert(fields[1] == ("turn_id"@, JsonView::Text(event.turn_id@)));
    assert(fields[2] == ("call_id"@, JsonView::Text(event.call_id@)));
    assert(fields[3] == ("tool_name"@, JsonView::Text(event.tool_name@)));
    assert(fields[4] == ("tool_kind"@, JsonView::Text(tool_kind(event.tool_kind))));
    assert(fields[5] == ("tool_input"@, JsonView::Object(tool_input_fields(event.tool_input))));
    assert(fields[6] == ("mutating"@, JsonView::Bool(event.mutating)));
    assert(fields[7] == ("sandbox"@, JsonView::Text(event.sandbox@)));
    assert(fields[8] == ("sandbox_policy"@, JsonView::Text(event.sandbox_policy@)));
}

/// What is told of a tool call that failed is what the event holds, each under its name, and nothing else.
pub proof fn law_told_of_tool_use_failure(event: HookEventAfterToolUse)
    ensures
        ({
            let fields = event_fields(HookEvent::ToolUseFailure { event });
            &&& json::field_names(fields) == seq![
                "event_type"@,
                "turn_id"@,
                "call_id"@,
                "tool_name"@,
                "tool_kind"@,
                "tool_input"@,
                "executed"@,
                "success"@,
                "duration_ms"@,
                "mutating"@,
                "sandbox"@,
                "sandbox_policy"@,
                "output_preview"@,
            ]
            &&& json::tells(fields, "event_type"@, JsonView::Text("tool_use_failure"@))
            &&& json::tells(fields, "turn_id"@, JsonView::Text(event.turn_id@))
            &&& json::tells(fields, "call_id"@, JsonView::Text(event.call_id@))
            &&& json::tells(fields, "tool_name"@, JsonView::Text(event.tool_name@))
            &&& json::tells(fields, "tool_kind"@, JsonView::Text(tool_kind(event.tool_kind)))
            &&& json::tells(fields, "tool_input"@, JsonView::Object(tool_input_fields(event.tool_input)))
            &&& json::tells(fields, "executed"@, JsonView::Bool(event.executed))
            &&& json::tells(fields, "success"@, JsonView::Bool(event.success))
            &&& json::tells(fields, "duration_ms"@, JsonView::Number(event.duration_ms))
            &&& json::tells(fields, "mutating"@, JsonView::Bool(event.mutating))
            &&& json::tells(fields, "sandbox"@, JsonView::Text(event.sandbox@))
            &&& json::tells(fields, "sandbox_policy"@, JsonView::Text(event.sandbox_policy@))
            &&& json::tells(fields, "output_preview"@, JsonView::Text(event.output_preview@))
        }),
{
    let fields = event_fields(HookEvent::ToolUseFailure { event });
    assert(json::field_names(fields) =~= seq![
        "event_type"@,
        "turn_id"@,
        "call_id"@,
        "tool_name"@,
        "tool_kind"@,
        "tool_input"@,
        "executed"@,
        "success"@,
        "duration_ms"@,
        "mutating"@,
        "sandbox"@,
        "sandbox_policy"@,
        "output_preview"@,
    ]);
    assert(fields[0] == ("event_type"@, JsonView::Text("tool_use_failure"@)));
    assert(fields[1] == ("turn_id"@, JsonView::Text(event.turn_id@)));
    assert(fields[2] == ("call_id"@, JsonView::Text(event.call_id@)));
    assert(fields[3] == ("tool_name"@, JsonView::Text(event.tool_name@)));
    assert(fields[4] == ("tool_kind"@, JsonView::Text(tool_kind(event.tool_kind))));
    assert(fields[5] == ("tool_input"@, JsonView::Object(tool_input_fields(event.tool_input))));
    assert(fields[6] == ("executed"@, JsonView::Bool(event.executed)));
    assert(fields[7] == ("success"@, JsonView::Bool(event.success)));
    assert(fields[8] == ("duration_ms"@, JsonView::Number(event.duration_ms)));
    assert(fields[9] == ("mutating"@, JsonView::Bool(event.mutating)));
    assert(fields[10] == ("sandbox"@, JsonView::Text(event.sandbox@)));
    assert(fields[11] == ("sandbox_policy"@, JsonView::Text(event.sandbox_policy@)));
    assert(fields[12] == ("output_preview"@, JsonView::Text(event.output_preview@)));
}

/// What is told of the end of a turn is what the event holds, each under its name, and nothing else.
pub proof fn law_told_of_after_agent(event: HookEventAfterAgent)
    ensures
        ({
            let fields = event_fields(HookEvent::AfterAgent { event });
            &&& json::field_names(fields) == seq![
                "event_type"@,
                "thread_id"@,
                "turn_id"@,
                "input_messages"@,
                "last_assistant_message"@,
            ]
            &&& json::tells(fields, "event_type"@, JsonView::Text("after_agent"@))
            &&& json::tells(fields, "thread_id"@, JsonView::Text(event.thread_id.text@))
            &&& json::tells(fields, "turn_id"@, JsonView::Text(event.turn_id@))
            &&& json::tells(fields, "input_messages"@, texts(event.input_messages@))
            &&& json::tells(fields, "last_assistant_message"@, optional_text(event.last_assistant_message))
        }),
{
    let fields = event_fields(HookEvent::AfterAgent { event });
    assert(json::field_names(fields) =~= seq![
        "event_type"@,
        "thread_id"@,
        "turn_id"@,
        "input_messages"@,
        "last_assistant_message"@,
    ]);
    assert(fields[0] == ("event_type"@, JsonView::Text("after_agent"@)));
    assert(fields[1] == ("thread_id"@, JsonView::Text(event.thread_id.text@)));
    assert(fields[2] == ("turn_id"@, JsonView::Text(event.turn_id@)));
    assert(fields[3] == ("input_messages"@, texts(event.input_messages@)));
    assert(fields[4] == ("last_assistant_message"@, optional_text(event.last_assistant_message)));
}

/// What is told of a subagent that is spawned is what the event holds, each under its name, and nothing else.
pub proof fn law_told_of_subagent_start(event: HookEventSubagentStart)
    ensures
        ({
            let fields = event_fields(HookEvent::SubagentStart { event });
            &&& json::field_names(fields) == seq![
                "event_type"@,
                "parent_thread_id"@,
                "child_thread_id"@,
                "agent_nickname"@,
                "agent_role"@,
                "prompt"@,
            ]
            &&& json::tells(fields, "event_type"@, JsonView::Text("subagent_start"@))
            &&& json::tells(fields, "parent_thread_id"@, JsonView::Text(event.parent_thread_id.text@))
            &&& json::tells(fields, "child_thread_id"@, JsonView::Text(event.child_thread_id.text@))
            &&& json::tells(fields, "agent_nickname"@, optional_text(event.agent_nickname))
            &&& json::tells(fields, "agent_role"@, optional_text(event.agent_role))
            &&& json::tells(fields, "prompt"@, JsonView::Text(event.prompt@))
        }),
{
    let fields = event_fields(HookEvent::SubagentStart { event });
    assert(json::field_names(fields) =~= seq![
        "event_type"@,
        "parent_thread_id"@,
        "child_thread_id"@,
        "agent_nickname"@,
        "agent_role"@,
        "prompt"@,
    ]);
    assert(fields[0] == ("event_type"@, JsonView::Text("subagent_start"@)));
    assert(fields[1] == ("parent_thread_id"@, JsonView::Text(event.parent_thread_id.text@)));
    assert(fields[2] == ("child_thread_id"@, JsonView::Text(event.child_thread_id.text@)));
    assert(fields[3] == ("agent_nickname"@, optional_text(event.agent_nickname)));
    assert(fields[4] == ("agent_role"@, optional_text(event.agent_role)));
    assert(fields[5] == ("prompt"@, JsonView::Text(event.prompt@)));
}

/// What is told of a subagent that has stopped is what the event holds, each under its name, and nothing else.
pub proof fn law_told_of_subagent_stop(event: HookEventSubagentStop)
    ensures
        ({
            let fields = event_fields(HookEvent::SubagentStop { event });
            &&& json::field_names(fields) == seq![
                "event_type"@,
                "parent_thread_id"@,
                "child_thread_id"@,
                "agent_nickname"@,
                "agent_role"@,
                "status"@,
            ]
            &&& json::tells(fields, "event_type"@, JsonView::Text("subagent_stop"@))
            &&& json::tells(fields, "parent_thread_id"@, JsonView::Text(event.parent_thread_id.text@))
            &&& json::tells(fields, "child_thread_id"@, JsonView::Text(event.child_thread_id.text@))
            &&& json::tells(fields, "agent_nickname"@, optional_text(event.agent_nickname))
            &&& json::tells(fields, "agent_role"@, optional_text(event.agent_role))
            &&& json::tells(fields, "status"@, JsonView::Text(event.status@))
        }),
{
    let fields = event_fields(HookEvent::SubagentStop { event });
    assert(json::field_names(fields) =~= seq![
        "event_type"@,
        "parent_thread_id"@,
        "child_thread_id"@,
        "agent_nickname"@,
        "agent_role"@,
        "status"@,
    ]);
    assert(fields[0] == ("event_type"@, JsonView::Text("subagent_stop"@)));
    assert(fields[1] == ("parent_thread_id"@, JsonView::Text(event.parent_thread_id.text@)));
    assert(fields[2] == ("child_thread_id"@, JsonView::Text(event.child_thread_id.text@)));
    assert(fields[3] == ("agent_nickname"@, optional_text(event.agent_nickname)));
    assert(fields[4] == ("agent_role"@, optional_text(event.agent_role)));
    assert(fields[5] == ("status"@, JsonView::Text(event.status@)));
}

/// What is told of a tool call that finished is what the event holds, each under its name, and nothing else.
pub proof fn law_told_of_after_tool_use(event: HookEventAfterToolUse)
    ensures
        ({
            let fields = event_fields(HookEvent::AfterToolUse { event });
            &&& json::field_names(fields) == seq![
                "event_type"@,
                "turn_id"@,
                "call_id"@,
                "tool_name"@,
                "tool_kind"@,
                "tool_input"@,
                "executed"@,
                "success"@,
                "duration_ms"@,
                "mutating"@,
                "sandbox"@,
                "sandbox_policy"@,
                "output_preview"@,
            ]
            &&& json::tells(fields, "event_type"@, JsonView::Text("after_tool_use"@))
            &&& json::tells(fields, "turn_id"@, JsonView::Text(event.turn_id@))
            &&& json::tells(fields, "call_id"@, JsonView::Text(event.call_id@))
            &&& json::tells(fields, "tool_name"@, JsonView::Text(event.tool_name@))
            &&& json::tells(fields, "tool_kind"@, JsonView::Text(tool_kind(event.tool_kind)))
            &&& json::tells(fields, "tool_input"@, JsonView::Object(tool_input_fields(event.tool_input)))
            &&& json::tells(fields, "executed"@, JsonView::Bool(event.executed))
            &&& json::tells(fields, "success"@, JsonView::Bool(event.success))
            &&& json::tells(fields, "duration_ms"@, JsonView::Number(event.duration_ms))
            &&& json::tells(fields, "mutating"@, JsonView::Bool(event.mutating))
            &&& json::tells(fields, "sandbox"@, JsonView::Text(event.sandbox@))
            &&& json::tells(fields, "sandbox_policy"@, JsonView::Text(event.sandbox_policy@))
            &&& json::tells(fields, "output_preview"@, JsonView::Text(event.output_preview@))
        }),
{
    let fields = event_fields(HookEvent::AfterToolUse { event });
    assert(json::field_names(fields) =~= seq![
        "event_type"@,
        "turn_id"@,
        "call_id"@,
        "tool_name"@,
        "tool_kind"@,
        "tool_input"@,
        "executed"@,
        "success"@,
        "duration_ms"@,
        "mutating"@,
        "sandbox"@,
        "sandbox_policy"@,
        "output_preview"@,
    ]);
    assert(fields[0] == ("event_type"@, JsonView::Text("after_tool_use"@)));
    assert(fields[1] == ("turn_id"@, JsonView::Text(event.turn_id@)));
    assert(fields[2] == ("call_id"@, JsonView::Text(event.call_id@)));
    assert(fields[3] == ("tool_name"@, JsonView::Text(event.tool_name@)));
    assert(fields[4] == ("tool_kind"@, JsonView::Text(tool_kind(event.tool_kind))));
    assert(fields[5] == ("tool_input"@, JsonView::Object(tool_input_fields(event.tool_input))));
    assert(fields[6] == ("executed"@, JsonView::Bool(event.executed)));
    assert(fields[7] == ("success"@, JsonView::Bool(event.success)));
    assert(fields[8] == ("duration_ms"@, JsonView::Number(event.duration_ms)));
    assert(fields[9] == ("mutating"@, JsonView::Bool(event.mutating)));
    assert(fields[10] == ("sandbox"@, JsonView::Text(event.sandbox@)));
    assert(fields[11] == ("sandbox_policy"@, JsonView::Text(event.sandbox_policy@)));
    assert(fields[12] == ("output_preview"@, JsonView::Text(event.output_preview@)));
}

/// Of a compaction nothing is told but its name.
pub proof fn law_told_of_compact_start()
    ensures
        event_fields(HookEvent::CompactStart).len() == 1,
        json::tells(
            event_fields(HookEvent::CompactStart),
            "event_type"@,
            JsonView::Text("compact_start"@),
        ),
{
    assert(event_fields(HookEvent::CompactStart)[0] == (
        "event_type"@,
        JsonView::Text("compact_start"@),
    ));
}

/// What is told of a shell call is what it asks for, each under its name, and nothing else.
pub proof fn law_told_of_shell_call(params: HookToolInputLocalShell)
    ensures
        ({
            let fields = local_shell_fields(params);
            &&& json::field_names(fields) == seq!["command"@, "workdir"@, "timeout_ms"@, "sandbox_permissions"@, "prefix_rule"@, "justification"@]
            &&& json::tells(fields, "command"@, texts(params.command@))
            &&& json::tells(fields, "workdir"@, optional_text(params.workdir))
            &&& json::tells(fields, "timeout_ms"@, optional_number(params.timeout_ms))
            &&& json::tells(fields, "sandbox_permissions"@, optional_permissions(params.sandbox_permissions))
            &&& json::tells(fields, "prefix_rule"@, optional_texts(params.prefix_rule))
            &&& json::tells(fields, "justification"@, optional_text(params.justification))
        }),
{
    let fields = local_shell_fields(params);
    assert(json::field_names(fields) =~= seq!["command"@, "workdir"@, "timeout_ms"@, "sandbox_permissions"@, "prefix_rule"@, "justification"@]);
    assert(fields[0] == ("command"@, texts(params.command@)));
    assert(fields[1] == ("workdir"@, optional_text(params.workdir)));
    assert(fields[2] == ("timeout_ms"@, optional_number(params.timeout_ms)));
    assert(fields[3] == ("sandbox_permissions"@, optional_permissions(params.sandbox_permissions)));
    assert(fields[4] == ("prefix_rule"@, optional_texts(params.prefix_rule)));
    assert(fields[5] == ("justification"@, optional_text(params.justification)));
}

/// What is told of the input of a function is its arguments.
pub proof fn law_told_of_function_input(arguments: String)
    ensures
        ({
            let fields = tool_input_fields(HookToolInput::Function { arguments });
            &&& json::field_names(fields) == seq!["input_type"@, "arguments"@]
            &&& json::tells(fields, "input_type"@, JsonView::Text("function"@))
            &&& json::tells(fields, "arguments"@, JsonView::Text(arguments@))
        }),
{
    let fields = tool_input_fields(HookToolInput::Function { arguments });
    assert(json::field_names(fields) =~= seq!["input_type"@, "arguments"@]);
    assert(fields[0] == ("input_type"@, JsonView::Text("function"@)));
    assert(fields[1] == ("arguments"@, JsonView::Text(arguments@)));
}

/// What is told of the input of a custom tool is that input.
pub proof fn law_told_of_custom_input(input: String)
    ensures
        ({
            let fields = tool_input_fields(HookToolInput::Custom { input });
            &&& json::field_names(fields) == seq!["input_type"@, "input"@]
            &&& json::tells(fields, "input_type"@, JsonView::Text("custom"@))
            &&& json::tells(fields, "input"@, JsonView::Text(input@))
        }),
{
    let fields = tool_input_fields(HookToolInput::Custom { input });
    assert(json::field_names(fields) =~= seq!["input_type"@, "input"@]);
    assert(fields[0] == ("input_type"@, JsonView::Text("custom"@)));
    assert(fields[1] == ("input"@, JsonView::Text(input@)));
}

/// What is told of the input of the shell is the shell call.
pub proof fn law_told_of_shell_input(params: HookToolInputLocalShell)
    ensures
        ({
            let fields = tool_input_fields(HookToolInput::LocalShell { params });
            &&& json::field_names(fields) == seq!["input_type"@, "params"@]
            &&& json::tells(fields, "input_type"@, JsonView::Text("local_shell"@))
            &&& json::tells(fields, "params"@, JsonView::Object(local_shell_fields(params)))
        }),
{
    let fields = tool_input_fields(HookToolInput::LocalShell { params });
    assert(json::field_names(fields) =~= seq!["input_type"@, "params"@]);
    assert(fields[0] == ("input_type"@, JsonView::Text("local_shell"@)));
    assert(fields[1] == ("params"@, JsonView::Object(local_shell_fields(params))));
}

/// What is told of the input of an MCP tool is its server, its name and its arguments.
pub proof fn law_told_of_mcp_input(server: String, tool: String, arguments: String)
    ensures
        ({
            let fields = tool_input_fields(HookToolInput::Mcp { server, tool, arguments });
            &&& json::field_names(fields) == seq!["input_type"@, "server"@, "tool"@, "arguments"@]
            &&& json::tells(fields, "input_type"@, JsonView::Text("mcp"@))
            &&& json::tells(fields, "server"@, JsonView::Text(server@))
            &&& json::tells(fields, "tool"@, JsonView::Text(tool@))
            &&& json::tells(fields, "arguments"@, JsonView::Text(arguments@))
        }),
{
    let fields = tool_input_fields(HookToolInput::Mcp { server, tool, arguments });
    assert(json::field_names(fields) =~= seq!["input_type"@, "server"@, "tool"@, "arguments"@]);
    assert(fields[0] == ("input_type"@, JsonView::Text("mcp"@)));
    assert(fields[1] == ("server"@, JsonView::Text(server@)));
    assert(fields[2] == ("tool"@, JsonView::Text(tool@)));
    assert(fields[3] == ("arguments"@, JsonView::Text(arguments@)));
}

/// What is told of an item that the user submitted: of text the text and its elements, in their
/// order, and of any other item the item itself.
pub proof fn law_told_of_user_input(input: UserInput)
    ensures
        input matches UserInput::Text { text, text_elements } ==> {
            let fields = user_input_json(input)->Object_0;
            &&& user_input_json(input) is Object
            &&& json::field_names(fields) == seq!["type"@, "text"@, "text_elements"@]
            &&& json::tells(fields, "type"@, JsonView::Text("text"@))
            &&& json::tells(fields, "text"@, JsonView::Text(text@))
            &&& fields[2].1 is Array
            &&& fields[2].1->Array_0.len() == text_elements@.len()
            &&& forall|i: int|
                0 <= i < text_elements@.len() ==> #[trigger] fields[2].1->Array_0[i]
                    == text_elements@[i]@
        },
        input matches UserInput::Other { item } ==> user_input_json(input) == item@,
{
    if let UserInput::Text { text, text_elements } = input {
        let fields = user_input_json(input)->Object_0;
        assert(json::field_names(fields) =~= seq!["type"@, "text"@, "text_elements"@]);
        assert(fields[0] == ("type"@, JsonView::Text("text"@)));
        assert(fields[1] == ("text"@, JsonView::Text(text@)));
    }
}

/// What is absent is told as null, and nothing else is: not text that is empty, nor a number that
/// is zero, nor a list without items.
pub proof fn law_absence_is_null(
    text: Option<String>,
    items: Option<Vec<String>>,
    number: Option<u64>,
    path: Option<HookPath>,
    paths: Option<Vec<HookPath>>,
    permissions: Option<SandboxPermissions>,
)
    ensures
        text is None ==> optional_text(text) is Null,
        text matches Some(present) ==> optional_text(text) == JsonView::Text(present@),
        items is None ==> optional_texts(items) is Null,
        items matches Some(present) ==> optional_texts(items) == texts(present@),
        number is None ==> optional_number(number) is Null,
        number matches Some(present) ==> optional_number(number) == JsonView::Number(present),
        path is None ==> optional_path(path) is Null,
        path matches Some(present) ==> optional_path(path) == JsonView::Text(present.text()),
        paths is None ==> optional_paths(paths) is Null,
        paths matches Some(present) ==> {
            &&& optional_paths(paths) is Array
            &&& optional_paths(paths)->Array_0.len() == present@.len()
            &&& forall|i: int|
                0 <= i < present@.len() ==> #[trigger] optional_paths(paths)->Array_0[i]
                    == JsonView::Text(present@[i].text())
        },
        permissions is None ==> optional_permissions(permissions) is Null,
        permissions matches Some(SandboxPermissions::UseDefault) ==> optional_permissions(
            permissions,
        ) == JsonView::Text("use_default"@),
        permissions matches Some(SandboxPermissions::Other { name }) ==> optional_permissions(
            permissions,
        ) == JsonView::Text(name@),
{
}

/// A list of text is told whole and in its order.
pub proof fn law_texts_are_told_whole(items: Seq<String>)
    ensures
        texts(items) is Array,
        texts(items)->Array_0.len() == items.len(),
        forall|i: int|
            0 <= i < items.len() ==> #[trigger] texts(items)->Array_0[i] == JsonView::Text(
                items[i]@,
            ),
{
}

/// The names that tool kinds and kinds of approval have in payloads. No two tool kinds share one.
pub proof fn law_kinds_are_named(kind: HookToolKind, other: HookToolKind, approval: HookApprovalKind)
    ensures
        kind is Function ==> tool_kind(kind) == "function"@,
        kind is Custom ==> tool_kind(kind) == "custom"@,
        kind is LocalShell ==> tool_kind(kind) == "local_shell"@,
        kind is Mcp ==> tool_kind(kind) == "mcp"@,
        tool_kind(kind) == tool_kind(other) <==> kind == other,
        approval is ExecCommand ==> approval_kind(approval) == "exec_command"@,
{
    reveal_strlit("function");
    reveal_strlit("custom");
    reveal_strlit("local_shell");
    reveal_strlit("mcp");
    assert("function"@.len() == 8);
    assert("custom"@.len() == 6);
    assert("local_shell"@.len() == 11);
    assert("mcp"@.len() == 3);
}

/// What the events after a tool call have in common: the same JSON means the same call, with the
/// same outcome.
pub proof fn law_tool_outcome_is_told(
    one: HookEventAfterToolUse,
    other: HookEventAfterToolUse,
    failed: bool,
)
    requires
        ({
            let told = |event: HookEventAfterToolUse|
                event_fields(
                    if failed {
                        HookEvent::ToolUseFailure { event }
                    } else {
                        HookEvent::AfterToolUse { event }
                    },
                );
            told(one) == told(other)
        }),
    ensures
        one.turn_id@ == other.turn_id@,
        one.call_id@ == other.call_id@,
        one.tool_name@ == other.tool_name@,
        one.tool_kind == other.tool_kind,
        one.executed == other.executed,
        one.success == other.success,
        one.duration_ms == other.duration_ms,
        one.mutating == other.mutating,
        one.sandbox@ == other.sandbox@,
        one.sandbox_policy@ == other.sandbox_policy@,
        one.output_preview@ == other.output_preview@,
{
    let tag = (
        "event_type"@,
        JsonView::Text(
            if failed {
                "tool_use_failure"@
            } else {
                "after_tool_use"@
            },
        ),
    );
    let (a, b) = (tool_result_fields(tag, one), tool_result_fields(tag, other));
    assert(a == b);
    assert(a[1] == b[1] && a[2] == b[2] && a[3] == b[3] && a[4] == b[4]);
    assert(a[6] == b[6] && a[7] == b[7] && a[8] == b[8] && a[9] == b[9]);
    assert(a[10] == b[10] && a[11] == b[11] && a[12] == b[12]);
    law_kinds_are_named(one.tool_kind, other.tool_kind, HookApprovalKind::ExecCommand);
}

/// Whether the bytes of a path are UTF-8.
pub open spec fn is_utf8(path: HookPath) -> bool {
    vstd::utf8::valid_utf8(path.bytes@)
}

/// A payload can be written exactly where its directory is UTF-8, and so are, of a request for
/// approval, the directory and each of the changed paths, where they are given.
pub proof fn law_utf8_paths_can_be_written(payload: HookPayload)
    ensures
        paths_are_text(payload) <==> {
            &&& is_utf8(payload.cwd)
            &&& payload.hook_event matches HookEvent::ApprovalRequested { event } ==> {
                &&& event.cwd matches Some(cwd) ==> is_utf8(cwd)
                &&& event.changed_paths matches Some(paths) ==> forall|i: int|
                    0 <= i < paths@.len() ==> is_utf8(#[trigger] paths@[i])
            }
        },
        paths_are_text(payload) <==> payload.cwd.is_text() && event_paths_are_text(
            payload.hook_event,
        ),
{
    if let HookEvent::ApprovalRequested { event } = payload.hook_event {
        if let Some(paths) = event.changed_paths {
            assert(forall|i: int|
                0 <= i < paths@.len() ==> (#[trigger] paths@[i]).is_text() == is_utf8(paths@[i]));
        }
    }
}

/// What a payload tells is what it holds, each under its name, and nothing else: the session, the
/// directory, the client where it is known, the event, and the instant as RFC 3339 has it.
pub proof fn law_payload_tells_what_it_holds(payload: HookPayload)
    ensures
        payload_json(payload) is Object,
        ({
            let fields = payload_json(payload)->Object_0;
            let instant = payload.triggered_at;
            let read = time::rfc3339(instant.spec_seconds(), instant.spec_nanos());
            &&& json::field_names(fields) == if payload.client is Some {
                seq!["session_id"@, "cwd"@, "client"@, "triggered_at"@, "hook_event"@]
            } else {
                seq!["session_id"@, "cwd"@, "triggered_at"@, "hook_event"@]
            }
            &&& json::tells(fields, "session_id"@, JsonView::Text(payload.session_id.text@))
            &&& json::tells(fields, "cwd"@, JsonView::Text(payload.cwd.text()))
            &&& payload.client matches Some(client) ==> json::tells(
                fields,
                "client"@,
                JsonView::Text(client@),
            )
            &&& json::tells(fields, "triggered_at"@, JsonView::Text(read))
            &&& json::tells(
                fields,
                "hook_event"@,
                JsonView::Object(event_fields(payload.hook_event)),
            )
        }),
{
    let instant = payload.triggered_at;
    law_shape_tells_what_it_holds(
        payload,
        time::rfc3339(instant.spec_seconds(), instant.spec_nanos()),
    );
}

/// What a payload tells whose instant reads `triggered_at`: that text, and what else it holds.
pub proof fn law_shape_tells_what_it_holds(payload: HookPayload, triggered_at: Seq<char>)
    ensures
        payload_shape(payload, triggered_at) is Object,
        ({
            let fields = payload_shape(payload, triggered_at)->Object_0;
            &&& json::field_names(fields) == if payload.client is Some {
                seq!["session_id"@, "cwd"@, "client"@, "triggered_at"@, "hook_event"@]
            } else {
                seq!["session_id"@, "cwd"@, "triggered_at"@, "hook_event"@]
            }
            &&& json::tells(fields, "session_id"@, JsonView::Text(payload.session_id.text@))
            &&& json::tells(fields, "cwd"@, JsonView::Text(payload.cwd.text()))
            &&& payload.client matches Some(client) ==> json::tells(
                fields,
                "client"@,
                JsonView::Text(client@),
            )
            &&& json::tells(fields, "triggered_at"@, JsonView::Text(triggered_at))
            &&& json::tells(
                fields,
                "hook_event"@,
                JsonView::Object(event_fields(payload.hook_event)),
            )
        }),
{
    let fields = payload_shape(payload, triggered_at)->Object_0;
    let late: int = if payload.client is Some {
        3
    } else {
        2
    };
    assert(fields[0] == ("session_id"@, JsonView::Text(payload.session_id.text@)));
    assert(fields[1] == ("cwd"@, JsonView::Text(payload.cwd.text())));
    assert(fields[late] == ("triggered_at"@, JsonView::Text(triggered_at)));
    assert(fields[late + 1] == (
        "hook_event"@,
        JsonView::Object(event_fields(payload.hook_event)),
    ));
    if payload.client is Some {
        assert(fields[2] == ("client"@, JsonView::Text(payload.client->0@)));
        assert(json::field_names(fields) =~= seq![
            "session_id"@,
            "cwd"@,
            "client"@,
            "triggered_at"@,
            "hook_event"@,
        ]);
    } else {
        assert(json::field_names(fields) =~= seq![
            "session_id"@,
            "cwd"@,
            "triggered_at"@,
            "hook_event"@,
        ]);
    }
}

/// The instant that a payload tells is its own: payloads that tell the same instant were triggered
/// in the same second, in the years 0 to 9999 and leap seconds aside.
pub proof fn law_payload_tells_its_second(one: HookPayload, other: HookPayload, read: Seq<char>)
    requires
        time::is_instant(one.triggered_at.spec_seconds(), one.triggered_at.spec_nanos()),
        time::is_instant(other.triggered_at.spec_seconds(), other.triggered_at.spec_nanos()),
        time::has_plain_year(one.triggered_at.spec_seconds()),
        time::has_plain_year(other.triggered_at.spec_seconds()),
        one.triggered_at.spec_nanos() < 1_000_000_000,
        other.triggered_at.spec_nanos() < 1_000_000_000,
        json::tells(payload_json(one)->Object_0, "triggered_at"@, JsonView::Text(read)),
        json::tells(payload_json(other)->Object_0, "triggered_at"@, JsonView::Text(read)),
    ensures
        one.triggered_at.spec_seconds() == other.triggered_at.spec_seconds(),
        time::is_plain_form(read),
{
    let (a, b) = (one.triggered_at, other.triggered_at);
    lemma_told_instant(one, read);
    lemma_told_instant(other, read);
    time::law_plain_form(a.spec_seconds(), a.spec_nanos());
    time::law_text_tells_second(a.spec_seconds(), a.spec_nanos(), b.spec_seconds(), b.spec_nanos());
}

/// A payload tells no instant but its own.
proof fn lemma_told_instant(payload: HookPayload, read: Seq<char>)
    requires
        json::tells(payload_json(payload)->Object_0, "triggered_at"@, JsonView::Text(read)),
    ensures
        read == time::rfc3339(
            payload.triggered_at.spec_seconds(),
            payload.triggered_at.spec_nanos(),
        ),
{
    lemma_codes();
    let fields = payload_json(payload)->Object_0;
    let at = fields.index_of(("triggered_at"@, JsonView::Text(read)));
    assert(fields[at].0 == "triggered_at"@);
}

} // verus!
