//! The settings of hooks, and what comes of running them.
use vstd::prelude::*;

verus! {

/// Whether the failure of a hook aborts the operation that triggered it, or is merely reported
/// and lets the operation continue.
#[derive(Debug, Clone, Copy, PartialEq, Eq, Structural)]
pub enum HookCommandFailureMode {
    Continue,
    Abort,
}

impl Default for HookCommandFailureMode {
    fn default() -> (mode: HookCommandFailureMode)
        ensures
            mode == HookCommandFailureMode::Continue,
    {
        HookCommandFailureMode::Continue
    }
}

/// The settings of a hook that runs a command.
#[derive(Debug, Clone, PartialEq, Eq)]
pub struct HookCommandConfig {
    /// Optional name used in logs and surfaced hook outcomes. Defaults to the executable path
    /// when omitted.
    pub name: Option<String>,
    /// Full argv vector for the hook command.
    pub command: Vec<String>,
    /// Optional timeout. When omitted, the hook may run until completion.
    pub timeout_ms: Option<u64>,
    /// Whether failures should abort the current operation or merely be reported and allow
    /// execution to continue.
    pub on_failure: HookCommandFailureMode,
}

impl Default for HookCommandConfig {
    fn default() -> (config: HookCommandConfig)
        ensures
            config.name is None,
            config.command@ == Seq::<String>::empty(),
            config.timeout_ms is None,
            config.on_failure == HookCommandFailureMode::Continue,
    {
        HookCommandConfig {
            name: None,
            command: Vec::new(),
            timeout_ms: None,
            on_failure: HookCommandFailureMode::Continue,
        }
    }
}

/// The `[hooks]` section of a configuration file: the hook commands for each event.
#[derive(Debug, Clone, PartialEq, Eq)]
pub struct HooksToml {
    /// Hooks that run when a session is created.
    pub session_start: Vec<HookCommandConfig>,
    /// Hooks that run when the user is asked to approve an action.
    pub approval_requested: Vec<HookCommandConfig>,
    /// Hooks that run when a user submits a prompt for a turn.
    pub user_prompt_submit: Vec<HookCommandConfig>,
    /// Hooks that run after a tool call fails.
    pub tool_use_failure: Vec<HookCommandConfig>,
    /// Hooks that run before a tool call executes.
    pub pre_tool_use: Vec<HookCommandConfig>,
    /// Hooks that run when a subagent is spawned.
    pub subagent_start: Vec<HookCommandConfig>,
    /// Hooks that run when a spawned subagent reaches a final status.
    pub subagent_stop: Vec<HookCommandConfig>,
    /// Hooks that run before a compaction task starts.
    pub compact_start: Vec<HookCommandConfig>,
    /// Hooks that run after a turn completes successfully.
    pub agent_turn_complete: Vec<HookCommandConfig>,
    /// Hooks that run after a tool call finishes.
    pub tool_use_complete: Vec<HookCommandConfig>,
}

impl Default for HooksToml {
    fn default() -> (hooks: HooksToml)
        ensures
            hooks.session_start@.len() == 0,
            hooks.approval_requested@.len() == 0,
            hooks.user_prompt_submit@.len() == 0,
            hooks.tool_use_failure@.len() == 0,
            hooks.pre_tool_use@.len() == 0,
            hooks.subagent_start@.len() == 0,
            hooks.subagent_stop@.len() == 0,
            hooks.compact_start@.len() == 0,
            hooks.agent_turn_complete@.len() == 0,
            hooks.tool_use_complete@.len() == 0,
    {
        HooksToml {
            session_start: Vec::new(),
            approval_requested: Vec::new(),
            user_prompt_submit: Vec::new(),
            tool_use_failure: Vec::new(),
            pre_tool_use: Vec::new(),
            subagent_start: Vec::new(),
            subagent_stop: Vec::new(),
            compact_start: Vec::new(),
            agent_turn_complete: Vec::new(),
            tool_use_complete: Vec::new(),
        }
    }
}

/// Why a hook failed.
#[derive(Debug, Clone, PartialEq, Eq)]
pub struct HookError {
    pub message: String,
}

/// What came of a hook.
#[derive(Debug)]
pub enum HookResult {
    /// Success: hook completed successfully.
    Success,
    /// FailedContinue: hook failed, but other subsequent hooks should still execute and the
    /// operation should continue.
    FailedContinue(HookError),
    /// FailedAbort: hook failed, other subsequent hooks should not execute, and the operation
    /// should be aborted.
    FailedAbort(HookError),
}

/// What came of a hook, with the message of its error where it failed.
pub enum HookResultView {
    Success,
    FailedContinue(Seq<char>),
    FailedAbort(Seq<char>),
}

impl View for HookResult {
    type V = HookResultView;

    open spec fn view(&self) -> HookResultView {
        match self {
            HookResult::Success => HookResultView::Success,
            HookResult::FailedContinue(error) => HookResultView::FailedContinue(error.message@),
            HookResult::FailedAbort(error) => HookResultView::FailedAbort(error.message@),
        }
    }
}

impl HookResult {
    /// Whether the operation is to be aborted, and no further hook to be executed.
    pub fn should_abort_operation(&self) -> (abort: bool)
        ensures
            abort == self@ is FailedAbort,
            abort == *self is FailedAbort,
    {
        matches!(self, HookResult::FailedAbort(_))
    }
}

/// The outcome of one hook.
#[derive(Debug)]
pub struct HookResponse {
    pub hook_name: String,
    pub result: HookResult,
}

/// The outcome of one hook: its name, and what came of it.
pub struct HookResponseView {
    pub hook_name: Seq<char>,
    pub result: HookResultView,
}

impl View for HookResponse {
    type V = HookResponseView;

    open spec fn view(&self) -> HookResponseView {
        HookResponseView { hook_name: self.hook_name@, result: self.result@ }
    }
}

/// What a hook does when it runs.
#[derive(Debug, Clone)]
pub enum HookFn {
    /// Nothing: it succeeds at once.
    Noop,
    /// It runs a command, which reads the payload as JSON on its standard input.
    Command(HookCommandConfig),
    /// It runs the program of the legacy `notify` setting, which is this argv vector.
    Notify(Vec<String>),
    /// It calls the handler that the embedding program keeps under this key.
    Handler(u64),
}

/// A hook.
#[derive(Debug, Clone)]
pub struct Hook {
    /// The name under which outcomes of the hook are reported.
    pub name: String,
    pub func: HookFn,
}

/// A hook: its name, and what it does.
pub struct HookView {
    pub name: Seq<char>,
    pub func: HookFn,
}

impl View for Hook {
    type V = HookView;

    open spec fn view(&self) -> HookView {
        HookView { name: self.name@, func: self.func }
    }
}

impl Default for Hook {
    fn default() -> (hook: Hook)
        ensures
            hook@ == (HookView { name: "default"@, func: HookFn::Noop }),
    {
        Hook { name: "default".to_string(), func: HookFn::Noop }
    }
}

impl Hook {
    /// The response to an execution of the hook that ended in `result`.
    pub fn execute(&self, result: HookResult) -> (response: HookResponse)
        ensures
            response.hook_name@ == self.name@,
            response.result == result,
    {
        HookResponse { hook_name: self.name.clone(), result }
    }
}

/// The view of a result keeps its kind and the message of its error.
pub proof fn law_result_is_seen(result: HookResult)
    ensures
        result@ is Success <==> result is Success,
        result is FailedContinue ==> result@ == HookResultView::FailedContinue(
            result->FailedContinue_0.message@,
        ),
        result is FailedAbort ==> result@ == HookResultView::FailedAbort(
            result->FailedAbort_0.message@,
        ),
{
}

/// The view of a response keeps the name of the hook and what came of it.
pub proof fn law_response_is_seen(response: HookResponse)
    ensures
        response@.hook_name == response.hook_name@,
        response@.result == response.result@,
{
}

/// The view of a hook keeps its name and all that it does.
pub proof fn law_hook_is_seen(hook: Hook)
    ensures
        hook@.name == hook.name@,
        hook@.func == hook.func,
{
}

} // verus!
