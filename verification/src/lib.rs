//! Lifecycle hooks for an agent: which hooks a configuration yields, which of them an event
//! triggers, in what order they run and when a run stops, what each hook command reads on its
//! standard input, and what its outcome means for the operation that triggered it.
//!
//! The library decides and computes. Launching processes, waiting for them and calling handlers
//! is left to the embedding program, which performs the actions that a [`Dispatch`] and a
//! [`CommandRun`] ask for, and reports back what happened.
pub mod calendar;
pub mod command;
pub mod dispatch;
pub mod json;
pub mod payload;
pub mod registry;
pub mod text;
pub mod time;
pub mod types;
pub mod wire;

pub use command::{command_from_argv, command_hook, failure_result, notify_hook};
pub use command::{CommandAction, CommandEvent, CommandRun, HookStart};
pub use dispatch::Dispatch;
pub use json::{Json, JsonObject};
pub use payload::{HookApprovalKind, HookEvent, HookEventAfterAgent, HookEventAfterToolUse};
pub use payload::{HookEventApprovalRequested, HookEventBeforeToolUse, HookEventSessionStart};
pub use payload::{HookEventSubagentStart, HookEventSubagentStop, HookEventUserPromptSubmit};
pub use payload::{HookPath, HookPayload, HookToolInput, HookToolInputLocalShell, HookToolKind};
pub use payload::{SandboxPermissions, ThreadId, UserInput};
pub use registry::{CommandShell, ConfigLayerStack, EngineSetup, Hooks, HooksConfig};
pub use time::Timestamp;
pub use types::{Hook, HookCommandConfig, HookCommandFailureMode, HookError, HookFn, HookResponse};
pub use types::{HookResult, HooksToml};
