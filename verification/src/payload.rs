//! What a hook is told about the event that triggered it.
use crate::json::Json;
use crate::text::utf8_text;
use crate::time::Timestamp;
use vstd::prelude::*;
use vstd::string::StrSliceExecFns;
use vstd::utf8::*;

verus! {

/// The identifier of a conversation thread.
#[derive(Debug, Clone, PartialEq, Eq)]
pub struct ThreadId {
    pub text: String,
}

/// A path in the file system, in the platform's encoding of paths. A path that is text is
/// encoded in UTF-8, and no other path is.
#[derive(Debug, Clone, PartialEq, Eq)]
pub struct HookPath {
    pub bytes: Vec<u8>,
}

impl HookPath {
    /// Whether the path is text.
    pub open spec fn is_text(self) -> bool {
        valid_utf8(self.bytes@)
    }

    /// The path as text, where it is text.
    pub open spec fn text(self) -> Seq<char> {
        decode_utf8(self.bytes@)
    }

    /// The path that reads `text`.
    pub fn from_text(text: &str) -> (path: HookPath)
        ensures
            path.is_text(),
            path.text() == text@,
            path.bytes@ == encode_utf8(text@),
    {
        proof {
            encode_utf8_valid_utf8(text@);
            encode_utf8_decode_utf8(text@);
        }
        HookPath { bytes: text.as_bytes_vec() }
    }

    /// The path as text, if it is text.
    pub fn to_text(&self) -> (text: Option<String>)
        ensures
            text is Some <==> self.is_text(),
            text matches Some(read) ==> read@ == self.text(),
            text matches Some(read) ==> encode_utf8(read@) == self.bytes@,
    {
        proof {
            if valid_utf8(self.bytes@) {
                decode_utf8_encode_utf8(self.bytes@);
            }
        }
        utf8_text(&self.bytes)
    }
}

/// What a hook is told when it runs.
#[derive(Debug, Clone)]
pub struct HookPayload {
    pub session_id: ThreadId,
    /// The working directory. A hook command runs in it.
    pub cwd: HookPath,
    /// The client that started the turn, where it is known.
    pub client: Option<String>,
    pub triggered_at: Timestamp,
    pub hook_event: HookEvent,
}

/// An event in the life of a session that can trigger hooks.
#[derive(Debug, Clone)]
pub enum HookEvent {
    /// A session is created.
    SessionStart { event: HookEventSessionStart },
    /// The user is asked to approve an action.
    ApprovalRequested { event: HookEventApprovalRequested },
    /// The user submits a prompt for a turn.
    UserPromptSubmit { event: HookEventUserPromptSubmit },
    /// A tool call is about to execute.
    BeforeToolUse { event: HookEventBeforeToolUse },
    /// A tool call has failed.
    ToolUseFailure { event: HookEventAfterToolUse },
    /// A turn has finished successfully.
    AfterAgent { event: HookEventAfterAgent },
    /// A subagent is spawned.
    SubagentStart { event: HookEventSubagentStart },
    /// A spawned subagent has reached a final status.
    SubagentStop { event: HookEventSubagentStop },
    /// A compaction task is about to start.
    CompactStart,
    /// A tool call has finished.
    AfterToolUse { event: HookEventAfterToolUse },
}

#[derive(Debug, Clone)]
pub struct HookEventSessionStart {
    pub thread_id: ThreadId,
    pub session_source: String,
    pub model: String,
    pub model_provider_id: String,
    pub approval_policy: String,
    pub sandbox_policy: String,
}

/// What kind of action needs approval.
#[derive(Debug, Clone, PartialEq, Eq)]
pub enum HookApprovalKind {
    ExecCommand,
}

#[derive(Debug, Clone)]
pub struct HookEventApprovalRequested {
    pub turn_id: String,
    pub approval_id: String,
    pub kind: HookApprovalKind,
    pub call_id: Option<String>,
    pub reason: Option<String>,
    pub command: Option<Vec<String>>,
    pub cwd: Option<HookPath>,
    pub changed_paths: Option<Vec<HookPath>>,
    pub server_name: Option<String>,
    pub request_id: Option<String>,
}

#[derive(Debug, Clone)]
pub struct HookEventAfterAgent {
    pub thread_id: ThreadId,
    pub turn_id: String,
    pub input_messages: Vec<String>,
    pub last_assistant_message: Option<String>,
}

#[derive(Debug, Clone)]
pub struct HookEventSubagentStart {
    pub parent_thread_id: ThreadId,
    pub child_thread_id: ThreadId,
    pub agent_nickname: Option<String>,
    pub agent_role: Option<String>,
    pub prompt: String,
}

#[derive(Debug, Clone)]
pub struct HookEventSubagentStop {
    pub parent_thread_id: ThreadId,
    pub child_thread_id: ThreadId,
    pub agent_nickname: Option<String>,
    pub agent_role: Option<String>,
    pub status: String,
}

#[derive(Debug, Clone, PartialEq, Eq)]
pub enum HookToolKind {
    Function,
    Custom,
    LocalShell,
    Mcp,
}

/// The sandbox permissions that a shell call asks for.
#[derive(Debug, Clone, PartialEq, Eq)]
pub enum SandboxPermissions {
    UseDefault,
    /// Any other permissions, by the name that payloads have for them.
    Other { name: String },
}

#[derive(Debug, Clone, PartialEq, Eq)]
pub struct HookToolInputLocalShell {
    pub command: Vec<String>,
    pub workdir: Option<String>,
    pub timeout_ms: Option<u64>,
    pub sandbox_permissions: Option<SandboxPermissions>,
    pub prefix_rule: Option<Vec<String>>,
    pub justification: Option<String>,
}

#[derive(Debug, Clone, PartialEq, Eq)]
pub enum HookToolInput {
    Function { arguments: String },
    Custom { input: String },
    LocalShell { params: HookToolInputLocalShell },
    Mcp { server: String, tool: String, arguments: String },
}

/// One item of what the user submitted.
#[derive(Debug, Clone, PartialEq, Eq)]
pub enum UserInput {
    /// Text, with the elements that are marked in it.
    Text { text: String, text_elements: Vec<Json> },
    /// Any other item, as payloads have it.
    Other { item: Json },
}

#[derive(Debug, Clone, PartialEq, Eq)]
pub struct HookEventUserPromptSubmit {
    pub turn_id: String,
    pub items: Vec<UserInput>,
    pub model: String,
    pub approval_policy: String,
    pub sandbox_policy: String,
}

#[derive(Debug, Clone, PartialEq, Eq)]
pub struct HookEventBeforeToolUse {
    pub turn_id: String,
    pub call_id: String,
    pub tool_name: String,
    pub tool_kind: HookToolKind,
    pub tool_input: HookToolInput,
    pub mutating: bool,
    pub sandbox: String,
    pub sandbox_policy: String,
}

#[derive(Debug, Clone, PartialEq, Eq)]
pub struct HookEventAfterToolUse {
    pub turn_id: String,
    pub call_id: String,
    pub tool_name: String,
    pub tool_kind: HookToolKind,
    pub tool_input: HookToolInput,
    pub executed: bool,
    pub success: bool,
    pub duration_ms: u64,
    pub mutating: bool,
    pub sandbox: String,
    pub sandbox_policy: String,
    pub output_preview: String,
}

/// A path is text exactly where its bytes encode some text, and reads as that text.
pub proof fn law_path_reads_as_its_bytes(path: HookPath, read: Seq<char>)
    ensures
        path.is_text() && path.text() == read <==> path.bytes@ == encode_utf8(read),
        path.is_text() <==> valid_utf8(path.bytes@),
{
    encode_utf8_valid_utf8(read);
    encode_utf8_decode_utf8(read);
    if valid_utf8(path.bytes@) {
        decode_utf8_encode_utf8(path.bytes@);
    }
}

} // verus!
