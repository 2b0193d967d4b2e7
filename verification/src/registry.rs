//! Which hooks a configuration yields, and which of them an event triggers.
use crate::command::{self, command_hook, names_program, notify_hook};
use crate::dispatch::{self, Dispatch};
use crate::payload::{HookEvent, HookPayload};
use crate::types::{Hook, HookCommandConfig, HookFn, HookView};
use crate::wire;
use vstd::prelude::*;

verus! {

/// The layers of configuration files, by their folders, the lowest precedence first.
#[derive(Debug, Clone, PartialEq, Eq)]
pub struct ConfigLayerStack {
    pub folders: Vec<String>,
}

/// The shell through which the hooks engine runs its commands.
#[derive(Debug, Clone, PartialEq, Eq)]
pub struct CommandShell {
    pub program: String,
    pub args: Vec<String>,
}

/// What the hooks engine is set up with.
#[derive(Debug, Clone, PartialEq, Eq)]
pub struct EngineSetup {
    pub feature_enabled: bool,
    pub config_layer_stack: Option<ConfigLayerStack>,
    pub shell: CommandShell,
}

/// The settings of all hooks.
#[derive(Clone)]
pub struct HooksConfig {
    /// The argv vector of the legacy `notify` setting.
    pub legacy_notify_argv: Option<Vec<String>>,
    pub feature_enabled: bool,
    pub config_layer_stack: Option<ConfigLayerStack>,
    pub shell_program: Option<String>,
    pub shell_args: Vec<String>,
    pub session_start: Vec<HookCommandConfig>,
    pub approval_requested: Vec<HookCommandConfig>,
    pub user_prompt_submit: Vec<HookCommandConfig>,
    pub tool_use_failure: Vec<HookCommandConfig>,
    pub pre_tool_use: Vec<HookCommandConfig>,
    pub agent_turn_complete: Vec<HookCommandConfig>,
    pub subagent_start: Vec<HookCommandConfig>,
    pub subagent_stop: Vec<HookCommandConfig>,
    pub compact_start: Vec<HookCommandConfig>,
    pub tool_use_complete: Vec<HookCommandConfig>,
}

impl HooksConfig {
    /// Whether nothing is configured.
    pub open spec fn is_blank(self) -> bool {
        &&& self.legacy_notify_argv is None
        &&& !self.feature_enabled
        &&& self.config_layer_stack is None
        &&& self.shell_program is None
        &&& self.shell_args@.len() == 0
        &&& self.session_start@.len() == 0
        &&& self.approval_requested@.len() == 0
        &&& self.user_prompt_submit@.len() == 0
        &&& self.tool_use_failure@.len() == 0
        &&& self.pre_tool_use@.len() == 0
        &&& self.agent_turn_complete@.len() == 0
        &&& self.subagent_start@.len() == 0
        &&& self.subagent_stop@.len() == 0
        &&& self.compact_start@.len() == 0
        &&& self.tool_use_complete@.len() == 0
    }

    /// The hook commands that are set for the event.
    pub open spec fn commands_for(self, event: HookEvent) -> Seq<HookCommandConfig> {
        match event {
            HookEvent::SessionStart { .. } => self.session_start@,
            HookEvent::ApprovalRequested { .. } => self.approval_requested@,
            HookEvent::UserPromptSubmit { .. } => self.user_prompt_submit@,
            HookEvent::ToolUseFailure { .. } => self.tool_use_failure@,
            HookEvent::BeforeToolUse { .. } => self.pre_tool_use@,
            HookEvent::AfterAgent { .. } => self.agent_turn_complete@,
            HookEvent::SubagentStart { .. } => self.subagent_start@,
            HookEvent::SubagentStop { .. } => self.subagent_stop@,
            HookEvent::CompactStart => self.compact_start@,
            HookEvent::AfterToolUse { .. } => self.tool_use_complete@,
        }
    }

    /// The hooks that the configuration yields for the event: those of its commands that have a
    /// program, in their order. At the end of a turn the legacy `notify` setting follows, if it
    /// names a program.
    pub open spec fn hooks_for(self, event: HookEvent) -> Seq<HookView> {
        let commands = command_hook_views(self.commands_for(event));
        if event is AfterAgent {
            commands + notify_hook_views(self.legacy_notify_argv)
        } else {
            commands
        }
    }
}

impl Default for HooksConfig {
    fn default() -> (config: HooksConfig)
        ensures
            config.is_blank(),
    {
        HooksConfig {
            legacy_notify_argv: None,
            feature_enabled: false,
            config_layer_stack: None,
            shell_program: None,
            shell_args: Vec::new(),
            session_start: Vec::new(),
            approval_requested: Vec::new(),
            user_prompt_submit: Vec::new(),
            tool_use_failure: Vec::new(),
            pre_tool_use: Vec::new(),
            agent_turn_complete: Vec::new(),
            subagent_start: Vec::new(),
            subagent_stop: Vec::new(),
            compact_start: Vec::new(),
            tool_use_complete: Vec::new(),
        }
    }
}

/// The names and the functions of `hooks`.
pub open spec fn hook_views(hooks: Seq<Hook>) -> Seq<HookView> {
    hooks.map_values(|hook: Hook| hook@)
}

/// The hooks that `configs` yield: one for each that has a program, in their order.
pub open spec fn command_hook_views(configs: Seq<HookCommandConfig>) -> Seq<HookView> {
    configs.filter(
        |config: HookCommandConfig| command::has_program(config.command@),
    ).map_values(|config: HookCommandConfig| command::command_hook_view(config))
}

/// The hook that the legacy `notify` setting yields, if it names a program.
pub open spec fn notify_hook_views(argv: Option<Vec<String>>) -> Seq<HookView> {
    match argv {
        Some(argv) => if command::has_program(argv@) {
            seq![HookView { name: command::LEGACY_NOTIFY@, func: HookFn::Notify(argv) }]
        } else {
            Seq::empty()
        },
        None => Seq::empty(),
    }
}

/// The hooks that `configs` yield: one for each that has a program, in their order.
fn command_hooks(configs: Vec<HookCommandConfig>) -> (hooks: Vec<Hook>)
    ensures
        hook_views(hooks@) == command_hook_views(configs@),
{
    let ghost runnable = |config: HookCommandConfig| command::has_program(config.command@);
    let ghost made = |config: HookCommandConfig| command::command_hook_view(config);
    let mut hooks: Vec<Hook> = Vec::new();
    proof {
        reveal(Seq::filter);
        assert(hook_views(hooks@) =~= configs@.take(0).filter(runnable).map_values(made));
    }
    for config in iter: configs.into_iter()
        invariant
            iter.seq() == configs@,
            hook_views(hooks@) == configs@.take(iter.index()).filter(runnable).map_values(made),
            runnable == (|config: HookCommandConfig| command::has_program(config.command@)),
            made == (|config: HookCommandConfig| command::command_hook_view(config)),
    {
        let ghost before = configs@.take(iter.index());
        let ghost after = configs@.take(iter.index() + 1);
        proof {
            reveal(Seq::filter);
            assert(after.drop_last() =~= before);
            assert(after.last() == config);
        }
        match command_hook(config) {
            Some(hook) => {
                let ghost former = hooks@;
                hooks.push(hook);
                assert(after.filter(runnable) == before.filter(runnable).push(config));
                assert(hook_views(hooks@) =~= hook_views(former).push(hook@));
                assert(hook_views(hooks@) =~= after.filter(runnable).map_values(made));
            },
            None => {},
        }
    }
    assert(configs@.take(configs@.len() as int) =~= configs@);
    hooks
}

/// The hooks for each event, and what the hooks engine is set up with.
#[derive(Clone)]
pub struct Hooks {
    pub engine: EngineSetup,
    pub session_start: Vec<Hook>,
    pub approval_requested: Vec<Hook>,
    pub user_prompt_submit: Vec<Hook>,
    pub tool_use_failure: Vec<Hook>,
    pub pre_tool_use: Vec<Hook>,
    pub agent_turn_complete: Vec<Hook>,
    pub subagent_start: Vec<Hook>,
    pub subagent_stop: Vec<Hook>,
    pub compact_start: Vec<Hook>,
    pub tool_use_complete: Vec<Hook>,
}

/// What the hooks engine is set up with under `config`. A shell that is not set has no program.
pub open spec fn engine_follows(engine: EngineSetup, config: HooksConfig) -> bool {
    &&& engine.feature_enabled == config.feature_enabled
    &&& engine.config_layer_stack == config.config_layer_stack
    &&& match config.shell_program {
        Some(program) => engine.shell.program == program,
        None => engine.shell.program@.len() == 0,
    }
    &&& engine.shell.args == config.shell_args
}

impl Hooks {
    /// The hooks that the event triggers.
    pub open spec fn listed(self, event: HookEvent) -> Seq<Hook> {
        match event {
            HookEvent::SessionStart { .. } => self.session_start@,
            HookEvent::ApprovalRequested { .. } => self.approval_requested@,
            HookEvent::UserPromptSubmit { .. } => self.user_prompt_submit@,
            HookEvent::ToolUseFailure { .. } => self.tool_use_failure@,
            HookEvent::BeforeToolUse { .. } => self.pre_tool_use@,
            HookEvent::AfterAgent { .. } => self.agent_turn_complete@,
            HookEvent::SubagentStart { .. } => self.subagent_start@,
            HookEvent::SubagentStop { .. } => self.subagent_stop@,
            HookEvent::CompactStart => self.compact_start@,
            HookEvent::AfterToolUse { .. } => self.tool_use_complete@,
        }
    }

    /// The hooks that `config` yields. A command without a program yields none.
    pub fn new(config: HooksConfig) -> (hooks: Hooks)
        ensures
            hook_views(hooks.session_start@) == command_hook_views(config.session_start@),
            hook_views(hooks.approval_requested@) == command_hook_views(config.approval_requested@),
            hook_views(hooks.user_prompt_submit@) == command_hook_views(config.user_prompt_submit@),
            hook_views(hooks.tool_use_failure@) == command_hook_views(config.tool_use_failure@),
            hook_views(hooks.pre_tool_use@) == command_hook_views(config.pre_tool_use@),
            hook_views(hooks.agent_turn_complete@) == command_hook_views(config.agent_turn_complete@)
                + notify_hook_views(config.legacy_notify_argv),
            hook_views(hooks.subagent_start@) == command_hook_views(config.subagent_start@),
            hook_views(hooks.subagent_stop@) == command_hook_views(config.subagent_stop@),
            hook_views(hooks.compact_start@) == command_hook_views(config.compact_start@),
            hook_views(hooks.tool_use_complete@) == command_hook_views(config.tool_use_complete@),
            forall|event: HookEvent|
                hook_views(#[trigger] hooks.listed(event)) == config.hooks_for(event),
            engine_follows(hooks.engine, config),
    {
        let mut agent_turn_complete = command_hooks(config.agent_turn_complete);
        match config.legacy_notify_argv {
            Some(argv) => {
                if names_program(argv.as_slice()) {
                    let ghost commands = agent_turn_complete@;
                    agent_turn_complete.push(notify_hook(argv));
                    assert(hook_views(agent_turn_complete@) =~= hook_views(commands)
                        + notify_hook_views(Some(argv)));
                }
            },
            None => {},
        }
        assert(hook_views(agent_turn_complete@) =~= command_hook_views(config.agent_turn_complete@)
            + notify_hook_views(config.legacy_notify_argv));
        let program = match config.shell_program {
            Some(program) => program,
            None => String::new(),
        };
        Hooks {
            engine: EngineSetup {
                feature_enabled: config.feature_enabled,
                config_layer_stack: config.config_layer_stack,
                shell: CommandShell { program, args: config.shell_args },
            },
            session_start: command_hooks(config.session_start),
            approval_requested: command_hooks(config.approval_requested),
            user_prompt_submit: command_hooks(config.user_prompt_submit),
            tool_use_failure: command_hooks(config.tool_use_failure),
            pre_tool_use: command_hooks(config.pre_tool_use),
            agent_turn_complete,
            subagent_start: command_hooks(config.subagent_start),
            subagent_stop: command_hooks(config.subagent_stop),
            compact_start: command_hooks(config.compact_start),
            tool_use_complete: command_hooks(config.tool_use_complete),
        }
    }

    /// The hooks that the event triggers.
    pub fn hooks_for_event(&self, hook_event: &HookEvent) -> (hooks: &[Hook])
        ensures
            hooks@ == self.listed(*hook_event),
    {
        match hook_event {
            HookEvent::SessionStart { .. } => self.session_start.as_slice(),
            HookEvent::ApprovalRequested { .. } => self.approval_requested.as_slice(),
            HookEvent::UserPromptSubmit { .. } => self.user_prompt_submit.as_slice(),
            HookEvent::ToolUseFailure { .. } => self.tool_use_failure.as_slice(),
            HookEvent::BeforeToolUse { .. } => self.pre_tool_use.as_slice(),
            HookEvent::AfterAgent { .. } => self.agent_turn_complete.as_slice(),
            HookEvent::SubagentStart { .. } => self.subagent_start.as_slice(),
            HookEvent::SubagentStop { .. } => self.subagent_stop.as_slice(),
            HookEvent::CompactStart => self.compact_start.as_slice(),
            HookEvent::AfterToolUse { .. } => self.tool_use_complete.as_slice(),
        }
    }

    /// Starts to run the hooks that the payload's event triggers.
    pub fn dispatch(&self, hook_payload: &HookPayload) -> (dispatch: Dispatch<'_>)
        ensures
            dispatch@ == dispatch::begun(hook_views(self.listed(hook_payload.hook_event))),
    {
        Dispatch::new(self.hooks_for_event(&hook_payload.hook_event))
    }
}

impl Default for Hooks {
    fn default() -> (hooks: Hooks)
        ensures
            forall|event: HookEvent| (#[trigger] hooks.listed(event)).len() == 0,
            !hooks.engine.feature_enabled,
            hooks.engine.config_layer_stack is None,
            hooks.engine.shell.program@.len() == 0,
            hooks.engine.shell.args@.len() == 0,
    {
        let config = HooksConfig::default();
        proof {
            assert forall|event: HookEvent| config.hooks_for(event).len() == 0 by {
                law_blank_config_has_no_hooks(config, event);
            }
        }
        let hooks = Hooks::new(config);
        proof {
            assert forall|event: HookEvent| (#[trigger] hooks.listed(event)).len() == 0 by {
                assert(hook_views(hooks.listed(event)).len() == 0);
            }
        }
        hooks
    }
}

/// Without configuration no event triggers a hook.
pub proof fn law_blank_config_has_no_hooks(config: HooksConfig, event: HookEvent)
    requires
        config.is_blank(),
    ensures
        config.hooks_for(event) == Seq::<HookView>::empty(),
{
    reveal(Seq::filter);
    assert(config.hooks_for(event) =~= Seq::<HookView>::empty());
}

/// Events of the same name in payloads trigger the same hooks.
pub proof fn law_event_type_tells_hooks(hooks: Hooks, one: HookEvent, other: HookEvent)
    requires
        wire::event_type(one) == wire::event_type(other),
    ensures
        hooks.listed(one) == hooks.listed(other),
{
    wire::law_event_type_tells_kind(one, other);
}

/// Whether the hook runs a program that is named.
pub open spec fn runs_program(hook: HookView) -> bool {
    match hook.func {
        HookFn::Command(config) => command::has_program(config.command@),
        HookFn::Notify(argv) => command::has_program(argv@),
        _ => false,
    }
}

/// Every hook that a configuration yields runs a program that is named.
pub proof fn law_configured_hooks_run_programs(config: HooksConfig, event: HookEvent, i: int)
    requires
        0 <= i < config.hooks_for(event).len(),
    ensures
        runs_program(config.hooks_for(event)[i]),
{
    let commands = config.commands_for(event);
    let runnable = |config: HookCommandConfig| command::has_program(config.command@);
    if i < command_hook_views(commands).len() {
        lemma_filter_keeps(commands, runnable, i);
    }
}

/// Every command that is set for an event, and has a program, yields a hook for that event.
pub proof fn law_configured_commands_are_hooked(config: HooksConfig, event: HookEvent, i: int)
    requires
        0 <= i < config.commands_for(event).len(),
        command::has_program(config.commands_for(event)[i].command@),
    ensures
        config.hooks_for(event).contains(
            command::command_hook_view(config.commands_for(event)[i]),
        ),
{
    let commands = config.commands_for(event);
    let runnable = |config: HookCommandConfig| command::has_program(config.command@);
    let kept = commands.filter(runnable);
    lemma_filter_finds(commands, runnable, i);
    let at = kept.index_of(commands[i]);
    assert(config.hooks_for(event)[at] == command::command_hook_view(commands[i]));
}

/// The legacy `notify` setting, if it names a program, is the last hook at the end of a turn, and
/// is no hook for any other event.
pub proof fn law_notify_ends_turn(config: HooksConfig, event: HookEvent, argv: Vec<String>)
    requires
        config.legacy_notify_argv == Some(argv),
        command::has_program(argv@),
    ensures
        event is AfterAgent ==> config.hooks_for(event).last() == (HookView {
            name: command::LEGACY_NOTIFY@,
            func: HookFn::Notify(argv),
        }),
        !(event is AfterAgent) ==> forall|i: int|
            0 <= i < config.hooks_for(event).len() ==> !((#[trigger] config.hooks_for(
                event,
            )[i]).func is Notify),
{
}

/// What a filter keeps, it has found good.
proof fn lemma_filter_keeps<T>(items: Seq<T>, good: spec_fn(T) -> bool, i: int)
    requires
        0 <= i < items.filter(good).len(),
    ensures
        good(items.filter(good)[i]),
    decreases items.len(),
{
    reveal(Seq::filter);
    if items.len() > 0 {
        if i < items.drop_last().filter(good).len() {
            lemma_filter_keeps(items.drop_last(), good, i);
        }
    }
}

/// What a filter finds good, it keeps.
proof fn lemma_filter_finds<T>(items: Seq<T>, good: spec_fn(T) -> bool, i: int)
    requires
        0 <= i < items.len(),
        good(items[i]),
    ensures
        items.filter(good).contains(items[i]),
    decreases items.len(),
{
    reveal(Seq::filter);
    let front = items.drop_last();
    if i < front.len() {
        lemma_filter_finds(front, good, i);
        let at = front.filter(good).index_of(items[i]);
        assert(items.filter(good)[at] == items[i]);
    } else {
        assert(items.filter(good)[front.filter(good).len() as int] == items[i]);
    }
}

/// Each event has a list of commands of its own.
pub proof fn law_commands_stand_by_event(config: HooksConfig, event: HookEvent)
    ensures
        event is SessionStart ==> config.commands_for(event) == config.session_start@,
        event is ApprovalRequested ==> config.commands_for(event) == config.approval_requested@,
        event is UserPromptSubmit ==> config.commands_for(event) == config.user_prompt_submit@,
        event is BeforeToolUse ==> config.commands_for(event) == config.pre_tool_use@,
        event is ToolUseFailure ==> config.commands_for(event) == config.tool_use_failure@,
        event is AfterAgent ==> config.commands_for(event) == config.agent_turn_complete@,
        event is SubagentStart ==> config.commands_for(event) == config.subagent_start@,
        event is SubagentStop ==> config.commands_for(event) == config.subagent_stop@,
        event is CompactStart ==> config.commands_for(event) == config.compact_start@,
        event is AfterToolUse ==> config.commands_for(event) == config.tool_use_complete@,
{
}

/// Each event triggers the hooks of its own list, and no others.
pub proof fn law_hooks_stand_by_event(hooks: Hooks, event: HookEvent)
    ensures
        event is SessionStart ==> hooks.listed(event) == hooks.session_start@,
        event is ApprovalRequested ==> hooks.listed(event) == hooks.approval_requested@,
        event is UserPromptSubmit ==> hooks.listed(event) == hooks.user_prompt_submit@,
        event is BeforeToolUse ==> hooks.listed(event) == hooks.pre_tool_use@,
        event is ToolUseFailure ==> hooks.listed(event) == hooks.tool_use_failure@,
        event is AfterAgent ==> hooks.listed(event) == hooks.agent_turn_complete@,
        event is SubagentStart ==> hooks.listed(event) == hooks.subagent_start@,
        event is SubagentStop ==> hooks.listed(event) == hooks.subagent_stop@,
        event is CompactStart ==> hooks.listed(event) == hooks.compact_start@,
        event is AfterToolUse ==> hooks.listed(event) == hooks.tool_use_complete@,
{
}

/// Whether `hook` is the one that runs the command `config`, under its settings and its name.
pub open spec fn is_hook_of(hook: HookView, config: HookCommandConfig) -> bool {
    &&& hook.func == HookFn::Command(config)
    &&& config.name matches Some(name) ==> hook.name == name@
    &&& config.name is None ==> hook.name == config.command@[0]@
}

/// An event triggers only hooks that are configured for that very event: each is the hook of one
/// of the event's own commands, or, at the end of a turn and behind all others, the legacy
/// `notify` hook.
pub proof fn law_only_own_commands_are_hooked(config: HooksConfig, event: HookEvent, i: int)
    requires
        0 <= i < config.hooks_for(event).len(),
    ensures
        ({
            let hook = config.hooks_for(event)[i];
            ||| exists|j: int|
                {
                    &&& 0 <= j < config.commands_for(event).len()
                    &&& is_hook_of(hook, #[trigger] config.commands_for(event)[j])
                }
            ||| {
                &&& event is AfterAgent
                &&& i == config.hooks_for(event).len() - 1
                &&& config.legacy_notify_argv is Some
                &&& hook.func == HookFn::Notify(config.legacy_notify_argv->0)
            }
        }),
{
    let commands = config.commands_for(event);
    let runnable = |config: HookCommandConfig| command::has_program(config.command@);
    if i < command_hook_views(commands).len() {
        lemma_filter_comes_from(commands, runnable, i);
    }
}

/// Where none of the event's own commands has a program, the event triggers no hook, but at the
/// end of a turn the legacy `notify` hook.
pub proof fn law_no_command_no_hook(config: HooksConfig, event: HookEvent)
    requires
        forall|j: int|
            0 <= j < config.commands_for(event).len() ==> (#[trigger] config.commands_for(
                event,
            )[j]).command@.len() == 0 || config.commands_for(event)[j].command@[0]@.len() == 0,
        !(event is AfterAgent) || config.legacy_notify_argv is None,
    ensures
        config.hooks_for(event).len() == 0,
{
    let commands = config.commands_for(event);
    let runnable = |config: HookCommandConfig| command::has_program(config.command@);
    if commands.filter(runnable).len() > 0 {
        lemma_filter_comes_from(commands, runnable, 0);
        lemma_filter_keeps(commands, runnable, 0);
    }
}

/// One command yields one hook, which runs it under its settings, or none if it has no program.
pub proof fn law_one_command_one_hook(config: HookCommandConfig)
    ensures
        ({
            let hooks = command_hook_views(seq![config]);
            if config.command@.len() > 0 && config.command@[0]@.len() > 0 {
                hooks.len() == 1 && is_hook_of(hooks[0], config)
            } else {
                hooks.len() == 0
            }
        }),
{
    reveal_with_fuel(Seq::filter, 2);
    assert(seq![config].drop_last() =~= Seq::<HookCommandConfig>::empty());
}

/// The commands of a list yield their hooks each for itself and in their order: whatever stands
/// before or behind them.
pub proof fn law_commands_yield_hooks_in_order(
    front: Seq<HookCommandConfig>,
    back: Seq<HookCommandConfig>,
)
    ensures
        command_hook_views(front + back) == command_hook_views(front) + command_hook_views(back),
        command_hook_views(Seq::empty()).len() == 0,
    decreases back.len(),
{
    reveal(Seq::filter);
    if back.len() == 0 {
        assert(front + back =~= front);
        assert(command_hook_views(front) + command_hook_views(back) =~= command_hook_views(front));
    } else {
        assert((front + back).drop_last() =~= front + back.drop_last());
        law_commands_yield_hooks_in_order(front, back.drop_last());
        let made = command::command_hook_view(back.last());
        lemma_last_command(front + back);
        lemma_last_command(back);
        assert(command_hook_views(front + back) =~= command_hook_views(front)
            + command_hook_views(back));
    }
}

/// What the last command of a list adds to its hooks.
proof fn lemma_last_command(configs: Seq<HookCommandConfig>)
    requires
        configs.len() > 0,
    ensures
        command_hook_views(configs) == if command::has_program(configs.last().command@) {
            command_hook_views(configs.drop_last()).push(
                command::command_hook_view(configs.last()),
            )
        } else {
            command_hook_views(configs.drop_last())
        },
{
    reveal(Seq::filter);
    let runnable = |config: HookCommandConfig| command::has_program(config.command@);
    let kept = configs.drop_last().filter(runnable);
    if runnable(configs.last()) {
        assert(configs.filter(runnable) =~= kept.push(configs.last()));
        assert(command_hook_views(configs) =~= command_hook_views(configs.drop_last()).push(
            command::command_hook_view(configs.last()),
        ));
    }
}

/// The hooks of an event are those that its own commands yield. At the end of a turn one more
/// follows, if the legacy `notify` setting names a program: the hook that runs it.
pub proof fn law_hooks_come_from_commands(config: HooksConfig, event: HookEvent)
    ensures
        ({
            let hooks = config.hooks_for(event);
            let commands = command_hook_views(config.commands_for(event));
            let notified = event is AfterAgent && config.legacy_notify_argv is Some
                && config.legacy_notify_argv->0@.len() > 0
                && config.legacy_notify_argv->0@[0]@.len() > 0;
            if notified {
                &&& hooks.len() == commands.len() + 1
                &&& hooks.drop_last() == commands
                &&& hooks.last().func == HookFn::Notify(config.legacy_notify_argv->0)
                &&& hooks.last().name == "legacy_notify"@
            } else {
                hooks == commands
            }
        }),
{
    let commands = command_hook_views(config.commands_for(event));
    if event is AfterAgent {
        let notify = notify_hook_views(config.legacy_notify_argv);
        assert((commands + notify).len() == commands.len() + notify.len());
        if notify.len() == 0 {
            assert(commands + notify =~= commands);
        } else {
            assert((commands + notify).drop_last() =~= commands);
        }
    }
}

/// The hooks of an event depend on its own commands and on the legacy `notify` setting alone:
/// nothing else that is set changes them.
pub proof fn law_events_are_apart(config: HooksConfig, changed: HooksConfig, event: HookEvent)
    requires
        config.commands_for(event) == changed.commands_for(event),
        config.legacy_notify_argv == changed.legacy_notify_argv,
    ensures
        config.hooks_for(event) == changed.hooks_for(event),
{
}

/// The engine has the feature switch, the layers and the shell arguments that are set, and the
/// shell program that is set, else none.
pub proof fn law_engine_has_what_is_set(engine: EngineSetup, config: HooksConfig)
    requires
        engine_follows(engine, config),
    ensures
        engine.feature_enabled == config.feature_enabled,
        engine.config_layer_stack == config.config_layer_stack,
        engine.shell.args == config.shell_args,
        config.shell_program matches Some(program) ==> engine.shell.program@ == program@,
        config.shell_program is None ==> engine.shell.program@.len() == 0,
{
}

/// A blank configuration sets nothing.
pub proof fn law_blank_config_sets_nothing(config: HooksConfig, event: HookEvent)
    requires
        config.is_blank(),
    ensures
        config.legacy_notify_argv is None,
        !config.feature_enabled,
        config.config_layer_stack is None,
        config.shell_program is None,
        config.shell_args@.len() == 0,
        config.commands_for(event).len() == 0,
{
}

/// What a filter keeps, it has taken from the list.
proof fn lemma_filter_comes_from<T>(items: Seq<T>, good: spec_fn(T) -> bool, i: int)
    requires
        0 <= i < items.filter(good).len(),
    ensures
        exists|j: int| 0 <= j < items.len() && #[trigger] items[j] == items.filter(good)[i],
    decreases items.len(),
{
    reveal(Seq::filter);
    if items.len() > 0 {
        let front = items.drop_last();
        if i < front.filter(good).len() {
            lemma_filter_comes_from(front, good, i);
            let j = choose|j: int|
                0 <= j < front.len() && #[trigger] front[j] == front.filter(good)[i];
            assert(items[j] == items.filter(good)[i]);
        } else {
            assert(items[items.len() - 1] == items.filter(good)[i]);
        }
    }
}

} // verus!
