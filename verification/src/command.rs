//! Hooks that run a command: which settings yield one, and how a run of it goes.
use crate::json;
use crate::payload::HookPayload;
use crate::text::{self, decimal_text, lossy_text, trim_text};
use crate::types::{Hook, HookCommandConfig, HookCommandFailureMode, HookError, HookFn, HookResult};
use crate::types::{HookResultView, HookView};
use crate::wire;
use vstd::prelude::*;
use vstd::slice::slice_subrange;
use vstd::string::StringExecFns;

verus! {

/// The text of each of `items`.
pub open spec fn text_views(items: Seq<String>) -> Seq<Seq<char>> {
    items.map_values(|item: String| item@)
}

/// Whether an argv vector names a program.
pub open spec fn has_program(argv: Seq<String>) -> bool {
    argv.len() > 0 && argv[0]@.len() > 0
}

/// Says whether an argv vector names a program.
pub(crate) fn names_program(argv: &[String]) -> (named: bool)
    ensures
        named == has_program(argv@),
{
    argv.len() > 0 && !argv[0].as_str().is_empty()
}

/// `tokio`'s builder of processes.
#[verifier::external_type_specification]
#[verifier::external_body]
pub struct ExCommand(tokio::process::Command);

/// What a `tokio::process::Command` was given to launch: the program, then its arguments. A word
/// that no process can be given, such as one with a NUL in it, is refused at launch.
pub uninterp spec fn command_line(command: tokio::process::Command) -> Seq<Seq<char>>;

/// Calls [`tokio::process::Command::new`]. Trusted: the command is given the program, and no
/// arguments. Whether there is such a program shows only when the command is launched.
#[verifier::external_body]
fn command_new(program: &String) -> (command: tokio::process::Command)
    ensures
        command_line(command) == seq![program@],
{
    tokio::process::Command::new(program)
}

/// Calls [`tokio::process::Command::args`]. Trusted: the arguments are added behind those that
/// the command has, in their order.
#[verifier::external_body]
fn command_args(command: &mut tokio::process::Command, args: &[String])
    ensures
        command_line(*final(command)) == command_line(*old(command)) + text_views(args@),
{
    command.args(args);
}

/// The command that launches `argv`, if `argv` names a program.
pub fn command_from_argv(argv: &[String]) -> (command: Option<tokio::process::Command>)
    ensures
        command is Some <==> has_program(argv@),
        command is Some <==> argv@.len() > 0 && argv@[0]@.len() > 0,
        command matches Some(built) ==> command_line(built) == text_views(argv@),
{
    if !names_program(argv) {
        return None;
    }
    let mut command = command_new(&argv[0]);
    command_args(&mut command, slice_subrange(argv, 1, argv.len()));
    assert(command_line(command) =~= text_views(argv@));
    Some(command)
}

/// What a failure means under the setting `on_failure`.
pub open spec fn failure(on_failure: HookCommandFailureMode, message: Seq<char>) -> HookResultView {
    match on_failure {
        HookCommandFailureMode::Continue => HookResultView::FailedContinue(message),
        HookCommandFailureMode::Abort => HookResultView::FailedAbort(message),
    }
}

/// The result of a hook that failed with `error`.
pub fn failure_result(on_failure: HookCommandFailureMode, error: HookError) -> (result: HookResult)
    ensures
        result@ == failure(on_failure, error.message@),
        on_failure == HookCommandFailureMode::Continue ==> result == HookResult::FailedContinue(
            error,
        ),
        on_failure == HookCommandFailureMode::Abort ==> result == HookResult::FailedAbort(error),
{
    match on_failure {
        HookCommandFailureMode::Continue => HookResult::FailedContinue(error),
        HookCommandFailureMode::Abort => HookResult::FailedAbort(error),
    }
}

/// The name under which outcomes of the configured hook are reported: the one that is set, else
/// that of the program.
pub open spec fn hook_name(config: HookCommandConfig) -> Seq<char> {
    match config.name {
        Some(name) => name@,
        None => config.command@[0]@,
    }
}

/// The hook that runs the configured command.
pub open spec fn command_hook_view(config: HookCommandConfig) -> HookView {
    HookView { name: hook_name(config), func: HookFn::Command(config) }
}

/// The hook that runs the configured command, if a program is configured.
pub fn command_hook(config: HookCommandConfig) -> (hook: Option<Hook>)
    ensures
        hook is Some <==> has_program(config.command@),
        hook matches Some(made) ==> made@ == command_hook_view(config),
        hook is Some <==> config.command@.len() > 0 && config.command@[0]@.len() > 0,
        hook matches Some(made) ==> {
            &&& made.func == HookFn::Command(config)
            &&& config.name matches Some(name) ==> made.name@ == name@
            &&& config.name is None ==> made.name@ == config.command@[0]@
        },
{
    if !names_program(config.command.as_slice()) {
        return None;
    }
    let name = match &config.name {
        Some(name) => name.clone(),
        None => config.command[0].clone(),
    };
    Some(Hook { name, func: HookFn::Command(config) })
}

/// The name of the hook that stands for the legacy `notify` setting.
pub const LEGACY_NOTIFY: &'static str = "legacy_notify";

/// The hook that runs the program of the legacy `notify` setting.
pub fn notify_hook(argv: Vec<String>) -> (hook: Hook)
    ensures
        hook@ == (HookView { name: LEGACY_NOTIFY@, func: HookFn::Notify(argv) }),
{
    Hook { name: LEGACY_NOTIFY.to_string(), func: HookFn::Notify(argv) }
}

/// What the embedding program is to do next for a run of a hook command.
#[derive(Debug)]
pub enum CommandAction {
    /// Launch `argv` in the directory `cwd`, with all three standard streams piped. From here on
    /// the run has `timeout_ms` milliseconds, where that is set, until it counts as timed out.
    Spawn { argv: Vec<String>, cwd: String, timeout_ms: Option<u64> },
    /// Write `payload` to the standard input of the command, and close it.
    WriteStdin { payload: Vec<u8> },
    /// Wait until the command has exited, and collect its output.
    AwaitOutput,
    /// Nothing: the run is over.
    Finish { result: HookResult },
}

/// What happened upon an action.
#[derive(Debug)]
pub enum CommandEvent {
    /// The command was launched. `has_stdin` says whether its standard input can be written to.
    Spawned { has_stdin: bool },
    /// The command could not be launched.
    SpawnFailed { error: HookError },
    /// The payload was written.
    StdinWritten,
    /// The payload could not be written.
    StdinFailed { error: HookError },
    /// The command has exited: whether with success, with what status, and with what on its
    /// standard error.
    Exited { success: bool, status: String, stderr: Vec<u8> },
    /// The output of the command could not be collected.
    OutputFailed { error: HookError },
    /// The time that the run has is over.
    TimedOut,
}

/// How far a run of a hook command has come.
#[derive(Debug)]
pub enum CommandPhase {
    /// The command is being launched, and is to read `payload`.
    Spawning { payload: Vec<u8> },
    /// The payload is being written.
    Writing,
    /// The exit of the command is awaited.
    Waiting,
    /// The run is over.
    Finished,
}

/// A run of a hook command.
#[derive(Debug)]
pub struct CommandRun {
    pub on_failure: HookCommandFailureMode,
    pub timeout_ms: Option<u64>,
    pub phase: CommandPhase,
}

/// An action, see [`CommandAction`].
pub enum CommandActionView {
    Spawn { argv: Seq<Seq<char>>, cwd: Seq<char>, timeout_ms: Option<u64> },
    WriteStdin { payload: Seq<u8> },
    AwaitOutput,
    Finish { result: HookResultView },
}

/// An event, see [`CommandEvent`].
pub enum CommandEventView {
    Spawned { has_stdin: bool },
    SpawnFailed { error: Seq<char> },
    StdinWritten,
    StdinFailed { error: Seq<char> },
    Exited { success: bool, status: Seq<char>, stderr: Seq<u8> },
    OutputFailed { error: Seq<char> },
    TimedOut,
}

/// A phase, see [`CommandPhase`].
pub enum CommandPhaseView {
    Spawning { payload: Seq<u8> },
    Writing,
    Waiting,
    Finished,
}

/// A run, see [`CommandRun`].
pub struct CommandRunView {
    pub on_failure: HookCommandFailureMode,
    pub timeout_ms: Option<u64>,
    pub phase: CommandPhaseView,
}

impl View for CommandAction {
    type V = CommandActionView;

    open spec fn view(&self) -> CommandActionView {
        match self {
            CommandAction::Spawn { argv, cwd, timeout_ms } => CommandActionView::Spawn {
                argv: text_views(argv@),
                cwd: cwd@,
                timeout_ms: *timeout_ms,
            },
            CommandAction::WriteStdin { payload } => CommandActionView::WriteStdin {
                payload: payload@,
            },
            CommandAction::AwaitOutput => CommandActionView::AwaitOutput,
            CommandAction::Finish { result } => CommandActionView::Finish { result: result@ },
        }
    }
}

impl View for CommandEvent {
    type V = CommandEventView;

    open spec fn view(&self) -> CommandEventView {
        match self {
            CommandEvent::Spawned { has_stdin } => CommandEventView::Spawned {
                has_stdin: *has_stdin,
            },
            CommandEvent::SpawnFailed { error } => CommandEventView::SpawnFailed {
                error: error.message@,
            },
            CommandEvent::StdinWritten => CommandEventView::StdinWritten,
            CommandEvent::StdinFailed { error } => CommandEventView::StdinFailed {
                error: error.message@,
            },
            CommandEvent::Exited { success, status, stderr } => CommandEventView::Exited {
                success: *success,
                status: status@,
                stderr: stderr@,
            },
            CommandEvent::OutputFailed { error } => CommandEventView::OutputFailed {
                error: error.message@,
            },
            CommandEvent::TimedOut => CommandEventView::TimedOut,
        }
    }
}

impl View for CommandPhase {
    type V = CommandPhaseView;

    open spec fn view(&self) -> CommandPhaseView {
        match self {
            CommandPhase::Spawning { payload } => CommandPhaseView::Spawning { payload: payload@ },
            CommandPhase::Writing => CommandPhaseView::Writing,
            CommandPhase::Waiting => CommandPhaseView::Waiting,
            CommandPhase::Finished => CommandPhaseView::Finished,
        }
    }
}

impl View for CommandRun {
    type V = CommandRunView;

    open spec fn view(&self) -> CommandRunView {
        CommandRunView {
            on_failure: self.on_failure,
            timeout_ms: self.timeout_ms,
            phase: self.phase@,
        }
    }
}

/// The message of the error where a command exited without success, and wrote `stderr` to its
/// standard error.
pub open spec fn exit_detail(status: Seq<char>, stderr: Seq<char>) -> Seq<char> {
    let said = text::trimmed(stderr);
    if said.len() == 0 {
        "hook exited with status "@ + status
    } else {
        "hook exited with status "@ + status + ": "@ + said
    }
}

/// The message of the error where a command exited without success, and wrote these bytes to its
/// standard error.
pub open spec fn exit_message(status: Seq<char>, stderr: Seq<u8>) -> Seq<char> {
    exit_detail(status, text::decoded(stderr))
}

/// The message of the error where a run timed out.
pub open spec fn timeout_message(timeout_ms: u64) -> Seq<char> {
    "hook timed out after "@ + text::decimal(timeout_ms as nat) + "ms"@
}

/// How a run starts, and with what action.
pub struct CommandStartView {
    pub run: CommandRunView,
    pub action: CommandActionView,
}

/// A run of the command that `config` sets, in the phase `phase`, with this action.
pub open spec fn run_of(
    config: HookCommandConfig,
    phase: CommandPhaseView,
    action: CommandActionView,
) -> CommandStartView {
    CommandStartView {
        run: CommandRunView { on_failure: config.on_failure, timeout_ms: config.timeout_ms, phase },
        action,
    }
}

/// A run of the command that `config` sets, in the directory `cwd`, that is to read `payload`: how
/// it starts, and with what action. A run without a program succeeds at once.
pub open spec fn launched(
    config: HookCommandConfig,
    cwd: Seq<char>,
    payload: Seq<u8>,
) -> CommandStartView {
    if !has_program(config.command@) {
        run_of(
            config,
            CommandPhaseView::Finished,
            CommandActionView::Finish { result: HookResultView::Success },
        )
    } else {
        run_of(
            config,
            CommandPhaseView::Spawning { payload },
            CommandActionView::Spawn {
                argv: text_views(config.command@),
                cwd,
                timeout_ms: config.timeout_ms,
            },
        )
    }
}

/// A run of the command that `config` sets, for `payload`: how it starts, and with what action.
/// One that has a program, but whose payload cannot be written as JSON, fails before anything is
/// launched.
pub open spec fn started(config: HookCommandConfig, payload: HookPayload) -> CommandStartView {
    if has_program(config.command@) && !wire::paths_are_text(payload) {
        run_of(
            config,
            CommandPhaseView::Finished,
            CommandActionView::Finish {
                result: failure(config.on_failure, wire::PATH_IS_NOT_TEXT@),
            },
        )
    } else {
        launched(
            config,
            payload.cwd.text(),
            json::json_bytes(wire::payload_json(payload)),
        )
    }
}

/// What follows upon an event: the phase that the run is then in, and the next action.
pub struct CommandStepView {
    pub phase: CommandPhaseView,
    pub action: CommandActionView,
}

/// The step that ends a run with `result`.
pub open spec fn finish(result: HookResultView) -> CommandStepView {
    CommandStepView {
        phase: CommandPhaseView::Finished,
        action: CommandActionView::Finish { result },
    }
}

/// What follows upon `event`, unless the event does not fit the phase of the run. A run can time
/// out at any point, if it has a limit at all.
pub open spec fn next_step(run: CommandRunView, event: CommandEventView) -> Option<
    CommandStepView,
> {
    match (run.phase, event) {
        (CommandPhaseView::Finished, _) => None,
        (_, CommandEventView::TimedOut) => match run.timeout_ms {
            Some(timeout_ms) => Some(
                finish(failure(run.on_failure, timeout_message(timeout_ms))),
            ),
            None => None,
        },
        (CommandPhaseView::Spawning { payload }, CommandEventView::Spawned { has_stdin }) => Some(
            if has_stdin {
                CommandStepView {
                    phase: CommandPhaseView::Writing,
                    action: CommandActionView::WriteStdin { payload },
                }
            } else {
                CommandStepView {
                    phase: CommandPhaseView::Waiting,
                    action: CommandActionView::AwaitOutput,
                }
            },
        ),
        (CommandPhaseView::Spawning { .. }, CommandEventView::SpawnFailed { error }) => Some(
            finish(failure(run.on_failure, error)),
        ),
        (CommandPhaseView::Writing, CommandEventView::StdinWritten) => Some(
            CommandStepView {
                phase: CommandPhaseView::Waiting,
                action: CommandActionView::AwaitOutput,
            },
        ),
        (CommandPhaseView::Writing, CommandEventView::StdinFailed { error }) => Some(
            finish(failure(run.on_failure, error)),
        ),
        (CommandPhaseView::Waiting, CommandEventView::Exited { success, status, stderr }) => Some(
            if success {
                finish(HookResultView::Success)
            } else {
                finish(failure(run.on_failure, exit_message(status, stderr)))
            },
        ),
        (CommandPhaseView::Waiting, CommandEventView::OutputFailed { error }) => Some(
            finish(failure(run.on_failure, error)),
        ),
        _ => None,
    }
}

/// The error of a command that exited without success, and wrote these bytes to its standard
/// error.
pub fn exit_error(status: &String, stderr: &Vec<u8>) -> (error: HookError)
    ensures
        error.message@ == exit_message(status@, stderr@),
{
    detailed_exit_error(status, &lossy_text(stderr))
}

/// The error of a command that exited without success, and wrote `stderr` to its standard error.
pub fn detailed_exit_error(status: &String, stderr: &String) -> (error: HookError)
    ensures
        error.message@ == exit_detail(status@, stderr@),
{
    let said = trim_text(stderr);
    let mut message = "hook exited with status ".to_string();
    message.append(status.as_str());
    if !said.as_str().is_empty() {
        message.append(": ");
        message.append(said.as_str());
    }
    HookError { message }
}

/// The error of a run that timed out.
pub fn timeout_error(timeout_ms: u64) -> (error: HookError)
    ensures
        error.message@ == timeout_message(timeout_ms),
{
    let mut message = "hook timed out after ".to_string();
    message.append(decimal_text(timeout_ms).as_str());
    message.append("ms");
    HookError { message }
}

impl CommandRun {
    /// Starts a run of the command that `config` sets, for `payload`.
    pub fn start(config: &HookCommandConfig, payload: &HookPayload) -> (start: (
        CommandRun,
        CommandAction,
    ))
        ensures
            start.0@ == started(*config, *payload).run,
            start.1@ == started(*config, *payload).action,
    {
        match payload.to_vec() {
            Ok(bytes) => CommandRun::launch(config, payload.cwd.to_text().unwrap(), bytes),
            Err(error) => {
                let result = if names_program(config.command.as_slice()) {
                    failure_result(config.on_failure, error)
                } else {
                    HookResult::Success
                };
                CommandRun::ended(config, result)
            },
        }
    }

    /// Starts a run of the command that `config` sets, in the directory `cwd`. The command is to
    /// read `payload`.
    pub fn launch(config: &HookCommandConfig, cwd: String, payload: Vec<u8>) -> (start: (
        CommandRun,
        CommandAction,
    ))
        ensures
            start.0@ == launched(*config, cwd@, payload@).run,
            start.1@ == launched(*config, cwd@, payload@).action,
    {
        if !names_program(config.command.as_slice()) {
            return CommandRun::ended(config, HookResult::Success);
        }
        let argv = config.command.clone();
        assert(text_views(argv@) =~= text_views(config.command@));
        let run = CommandRun {
            on_failure: config.on_failure,
            timeout_ms: config.timeout_ms,
            phase: CommandPhase::Spawning { payload },
        };
        (run, CommandAction::Spawn { argv, cwd, timeout_ms: config.timeout_ms })
    }

    /// A run that is over before anything was launched.
    fn ended(config: &HookCommandConfig, result: HookResult) -> (start: (CommandRun, CommandAction))
        ensures
            start.0@ == (CommandRunView {
                on_failure: config.on_failure,
                timeout_ms: config.timeout_ms,
                phase: CommandPhaseView::Finished,
            }),
            start.1@ == (CommandActionView::Finish { result: result@ }),
    {
        let run = CommandRun {
            on_failure: config.on_failure,
            timeout_ms: config.timeout_ms,
            phase: CommandPhase::Finished,
        };
        (run, CommandAction::Finish { result })
    }

    /// Takes the run on upon `event`, and says what to do next. An event that does not fit the
    /// phase of the run leaves it as it is.
    pub fn step(&mut self, event: CommandEvent) -> (action: Option<CommandAction>)
        ensures
            final(self)@.on_failure == old(self)@.on_failure,
            final(self)@.timeout_ms == old(self)@.timeout_ms,
            match next_step(old(self)@, event@) {
                Some(next) => {
                    &&& final(self)@.phase == next.phase
                    &&& action matches Some(taken) && taken@ == next.action
                },
                None => *final(self) == *old(self) && action is None,
            },
    {
        let mut phase = CommandPhase::Finished;
        std::mem::swap(&mut phase, &mut self.phase);
        match (phase, event) {
            (CommandPhase::Spawning { payload }, CommandEvent::Spawned { has_stdin }) => {
                if has_stdin {
                    self.phase = CommandPhase::Writing;
                    Some(CommandAction::WriteStdin { payload })
                } else {
                    self.phase = CommandPhase::Waiting;
                    Some(CommandAction::AwaitOutput)
                }
            },
            (CommandPhase::Spawning { .. }, CommandEvent::SpawnFailed { error }) => Some(
                CommandAction::Finish { result: failure_result(self.on_failure, error) },
            ),
            (CommandPhase::Writing, CommandEvent::StdinWritten) => {
                self.phase = CommandPhase::Waiting;
                Some(CommandAction::AwaitOutput)
            },
            (CommandPhase::Writing, CommandEvent::StdinFailed { error }) => Some(
                CommandAction::Finish { result: failure_result(self.on_failure, error) },
            ),
            (CommandPhase::Waiting, CommandEvent::Exited { success, status, stderr }) => {
                if success {
                    Some(CommandAction::Finish { result: HookResult::Success })
                } else {
                    let error = exit_error(&status, &stderr);
                    Some(CommandAction::Finish { result: failure_result(self.on_failure, error) })
                }
            },
            (CommandPhase::Waiting, CommandEvent::OutputFailed { error }) => Some(
                CommandAction::Finish { result: failure_result(self.on_failure, error) },
            ),
            (CommandPhase::Finished, _) => None,
            (unfinished, CommandEvent::TimedOut) => {
                match self.timeout_ms {
                    Some(timeout_ms) => {
                        let error = timeout_error(timeout_ms);
                        Some(
                            CommandAction::Finish {
                                result: failure_result(self.on_failure, error),
                            },
                        )
                    },
                    None => {
                        self.phase = unfinished;
                        None
                    },
                }
            },
            (unfitting, _) => {
                self.phase = unfitting;
                None
            },
        }
    }
}

/// How many events a run takes at most from a phase on.
pub open spec fn events_left(phase: CommandPhaseView) -> nat {
    match phase {
        CommandPhaseView::Spawning { .. } => 3,
        CommandPhaseView::Writing => 2,
        CommandPhaseView::Waiting => 1,
        CommandPhaseView::Finished => 0,
    }
}

/// A run after some events: how far it has come, and the actions that it asked for.
pub struct CommandTrace {
    pub run: CommandRunView,
    pub actions: Seq<CommandActionView>,
}

/// The run and the actions that follow upon `events`, one after the other, unless one of them
/// does not fit.
pub open spec fn replay(run: CommandRunView, events: Seq<CommandEventView>) -> Option<CommandTrace>
    decreases events.len(),
{
    if events.len() == 0 {
        Some(CommandTrace { run, actions: Seq::empty() })
    } else {
        match replay(run, events.drop_last()) {
            Some(before) => match next_step(before.run, events.last()) {
                Some(next) => Some(
                    CommandTrace {
                        run: CommandRunView { phase: next.phase, ..before.run },
                        actions: before.actions.push(next.action),
                    },
                ),
                None => None,
            },
            None => None,
        }
    }
}

/// Every run of a hook command ends: each event that fits brings it nearer to its end, and the
/// run is over exactly when the action says so.
pub proof fn law_run_ends(run: CommandRunView, event: CommandEventView)
    ensures
        next_step(run, event) matches Some(next) ==> {
            &&& events_left(next.phase) < events_left(run.phase)
            &&& next.phase is Finished <==> next.action is Finish
        },
{
}

/// A run takes no more events than its phase allows, asks for one action upon each, and keeps its
/// settings.
pub proof fn law_run_is_bounded(run: CommandRunView, events: Seq<CommandEventView>)
    ensures
        replay(run, events) matches Some(trace) ==> {
            &&& events.len() + events_left(trace.run.phase) <= events_left(run.phase)
            &&& trace.actions.len() == events.len()
            &&& trace.run.on_failure == run.on_failure
            &&& trace.run.timeout_ms == run.timeout_ms
        },
    decreases events.len(),
{
    if events.len() > 0 {
        law_run_is_bounded(run, events.drop_last());
    }
}

/// The actions upon which a launched command succeeds.
pub open spec fn actions_of_success(has_stdin: bool, payload: Seq<u8>) -> Seq<CommandActionView> {
    let awaited = seq![
        CommandActionView::AwaitOutput,
        CommandActionView::Finish { result: HookResultView::Success },
    ];
    if has_stdin {
        seq![CommandActionView::WriteStdin { payload }] + awaited
    } else {
        awaited
    }
}

/// A launched run that succeeds has exited with success, and had its payload written before its
/// output was awaited, unless the command has no standard input to write to.
pub proof fn law_success_follows_payload(
    run: CommandRunView,
    events: Seq<CommandEventView>,
    payload: Seq<u8>,
)
    requires
        run.phase == (CommandPhaseView::Spawning { payload }),
    ensures
        replay(run, events) matches Some(trace) ==> trace.actions.contains(
            CommandActionView::Finish { result: HookResultView::Success },
        ) ==> {
            &&& events.last() is Exited
            &&& events.last()->success
            &&& events.first() is Spawned
            &&& trace.actions == actions_of_success(events.first()->has_stdin, payload)
        },
{
    law_run_is_bounded(run, events);
    reveal_with_fuel(replay, 4);
}

/// A hook command receives the payload as JSON on its standard input: nothing else is written to
/// it, and, once the command is launched, this is the first that happens.
pub proof fn law_command_reads_payload(
    config: HookCommandConfig,
    payload: HookPayload,
    events: Seq<CommandEventView>,
)
    ensures
        replay(started(config, payload).run, events) matches Some(trace) ==> {
            let written = CommandActionView::WriteStdin {
                payload: json::json_bytes(wire::payload_json(payload)),
            };
            &&& forall|i: int|
                0 <= i < trace.actions.len() && (#[trigger] trace.actions[i]) is WriteStdin
                    ==> i == 0 && trace.actions[i] == written
            &&& events.len() > 0 && events[0] == (CommandEventView::Spawned { has_stdin: true })
                ==> trace.actions[0] == written
        },
{
    law_run_is_bounded(started(config, payload).run, events);
    reveal_with_fuel(replay, 4);
}

/// Whether `result` is one that a hook with the setting `on_failure` may have: under `Abort` a
/// failure never lets the operation continue, under `Continue` it never aborts it.
pub open spec fn follows_setting(
    result: HookResultView,
    on_failure: HookCommandFailureMode,
) -> bool {
    &&& result is FailedAbort ==> on_failure == HookCommandFailureMode::Abort
    &&& result is FailedContinue ==> on_failure == HookCommandFailureMode::Continue
}

/// However a run goes, its result follows its setting.
pub proof fn law_result_follows_setting(
    config: HookCommandConfig,
    payload: HookPayload,
    events: Seq<CommandEventView>,
)
    ensures
        started(config, payload).action is Finish ==> follows_setting(
            started(config, payload).action->result,
            config.on_failure,
        ),
        replay(started(config, payload).run, events) matches Some(trace) ==> forall|i: int|
            0 <= i < trace.actions.len() && (#[trigger] trace.actions[i]) is Finish
                ==> follows_setting(trace.actions[i]->result, config.on_failure),
    decreases events.len(),
{
    law_run_is_bounded(started(config, payload).run, events);
    if events.len() > 0 {
        law_result_follows_setting(config, payload, events.drop_last());
        law_run_is_bounded(started(config, payload).run, events.drop_last());
    }
}

/// A command hook launches its command: settings of which a hook is made never end a run at once
/// for want of a program.
pub proof fn law_command_hook_launches(config: HookCommandConfig, payload: HookPayload)
    requires
        has_program(config.command@),
        wire::paths_are_text(payload),
    ensures
        started(config, payload).action == (CommandActionView::Spawn {
            argv: text_views(config.command@),
            cwd: payload.cwd.text(),
            timeout_ms: config.timeout_ms,
        }),
{
}

/// What is to be done first when a hook runs.
#[derive(Debug)]
pub enum HookStart {
    /// Nothing: the hook is done.
    Done(HookResult),
    /// Perform the action, and take the run on with what happens.
    Command(CommandRun, CommandAction),
    /// Run the program of the legacy `notify` setting.
    Notify,
    /// Call the handler that is kept under this key.
    Handler(u64),
}

impl HookFn {
    /// Starts to run what the hook does, for `payload`.
    pub fn begin(&self, payload: &HookPayload) -> (start: HookStart)
        ensures
            match self {
                HookFn::Noop => start == HookStart::Done(HookResult::Success),
                HookFn::Command(config) => {
                    &&& start is Command
                    &&& start->Command_0@ == started(*config, *payload).run
                    &&& start->Command_1@ == started(*config, *payload).action
                },
                HookFn::Notify(_) => start == HookStart::Notify,
                HookFn::Handler(key) => start == HookStart::Handler(*key),
            },
    {
        match self {
            HookFn::Noop => HookStart::Done(HookResult::Success),
            HookFn::Command(config) => {
                let (run, action) = CommandRun::start(config, payload);
                HookStart::Command(run, action)
            },
            HookFn::Notify(_) => HookStart::Notify,
            HookFn::Handler(key) => HookStart::Handler(*key),
        }
    }
}

/// Words are seen in their number and order, each as its text.
pub proof fn law_words_are_seen_whole(words: Seq<String>)
    ensures
        text_views(words).len() == words.len(),
        forall|i: int| 0 <= i < words.len() ==> #[trigger] text_views(words)[i] == words[i]@,
{
}

/// An argv vector names a program exactly where it has a first word, and that word is not empty.
/// The words behind it do not matter.
pub proof fn law_first_word_is_program(argv: Seq<String>, more: Seq<String>)
    ensures
        has_program(argv) <==> argv.len() > 0 && argv[0]@.len() > 0,
        argv.len() > 0 ==> has_program(argv + more) == has_program(argv),
        !has_program(Seq::empty()),
{
}

/// A hook runs under exactly the settings that it was made of, and is reported under the name that
/// is set, else under its program.
pub proof fn law_hook_keeps_settings(config: HookCommandConfig)
    requires
        config.command@.len() > 0,
    ensures
        command_hook_view(config).func is Command,
        ({
            let kept = command_hook_view(config).func->Command_0;
            &&& kept.command == config.command
            &&& kept.timeout_ms == config.timeout_ms
            &&& kept.on_failure == config.on_failure
            &&& kept.name == config.name
        }),
        config.name matches Some(name) ==> command_hook_view(config).name == name@,
        config.name is None ==> command_hook_view(config).name == config.command@[0]@,
{
}

/// A run has the limit and the failure mode of the hook's settings, from its start to its end.
pub proof fn law_run_keeps_settings(
    config: HookCommandConfig,
    payload: HookPayload,
    events: Seq<CommandEventView>,
)
    ensures
        started(config, payload).run.timeout_ms == config.timeout_ms,
        started(config, payload).run.on_failure == config.on_failure,
        replay(started(config, payload).run, events) matches Some(trace) ==> {
            &&& trace.run.timeout_ms == config.timeout_ms
            &&& trace.run.on_failure == config.on_failure
        },
{
    law_run_is_bounded(started(config, payload).run, events);
}

/// Whether `result` is the failure `message` under the setting `on_failure`.
pub open spec fn fails_with(
    result: HookResultView,
    on_failure: HookCommandFailureMode,
    message: Seq<char>,
) -> bool {
    match on_failure {
        HookCommandFailureMode::Abort => result == HookResultView::FailedAbort(message),
        HookCommandFailureMode::Continue => result == HookResultView::FailedContinue(message),
    }
}

/// A hook of which a run is started launches every word of its command, in the directory of the
/// payload and with the limit that is set, and is to read the payload as JSON. Only where there is
/// no program, or a path in the payload is not text, nothing is launched: the one succeeds, the
/// other fails as the settings have it.
pub proof fn law_run_starts_as_set(config: HookCommandConfig, payload: HookPayload)
    ensures
        ({
            let start = started(config, payload);
            let named = config.command@.len() > 0 && config.command@[0]@.len() > 0;
            &&& !named ==> {
                &&& start.run.phase is Finished
                &&& start.action == (CommandActionView::Finish { result: HookResultView::Success })
            }
            &&& named && !wire::paths_are_text(payload) ==> {
                &&& start.run.phase is Finished
                &&& start.action is Finish
                &&& fails_with(
                    start.action->result,
                    config.on_failure,
                    "path contains invalid UTF-8 characters"@,
                )
            }
            &&& named && wire::paths_are_text(payload) ==> {
                &&& start.run.phase == (CommandPhaseView::Spawning {
                    payload: json::json_bytes(wire::payload_json(payload)),
                })
                &&& start.action is Spawn
                &&& start.action->argv.len() == config.command@.len()
                &&& forall|i: int|
                    0 <= i < config.command@.len() ==> #[trigger] start.action->argv[i]
                        == config.command@[i]@
                &&& vstd::utf8::encode_utf8(start.action->cwd) == payload.cwd.bytes@
                &&& start.action->Spawn_timeout_ms == config.timeout_ms
            }
        }),
{
    if wire::paths_are_text(payload) {
        crate::payload::law_path_reads_as_its_bytes(payload.cwd, payload.cwd.text());
    }
}

/// A run that is launched for bytes launches every word of its command, in the given directory and
/// with the limit that is set, and is to read those bytes. Without a program it succeeds.
pub proof fn law_launch_follows_settings(
    config: HookCommandConfig,
    cwd: Seq<char>,
    payload: Seq<u8>,
)
    ensures
        ({
            let start = launched(config, cwd, payload);
            let named = config.command@.len() > 0 && config.command@[0]@.len() > 0;
            &&& start.run.timeout_ms == config.timeout_ms
            &&& start.run.on_failure == config.on_failure
            &&& !named ==> {
                &&& start.run.phase is Finished
                &&& start.action == (CommandActionView::Finish { result: HookResultView::Success })
            }
            &&& named ==> {
                &&& start.run.phase == (CommandPhaseView::Spawning { payload })
                &&& start.action is Spawn
                &&& start.action->argv.len() == config.command@.len()
                &&& forall|i: int|
                    0 <= i < config.command@.len() ==> #[trigger] start.action->argv[i]
                        == config.command@[i]@
                &&& start.action->cwd == cwd
                &&& start.action->Spawn_timeout_ms == config.timeout_ms
            }
        }),
{
}

/// Whether the step ends the run with `result`.
pub open spec fn ends_with(step: Option<CommandStepView>, result: HookResultView) -> bool {
    &&& step is Some
    &&& step->0.phase is Finished
    &&& step->0.action == (CommandActionView::Finish { result })
}

/// Whether the step ends the run with the failure `message`.
pub open spec fn ends_failed(
    step: Option<CommandStepView>,
    on_failure: HookCommandFailureMode,
    message: Seq<char>,
) -> bool {
    &&& step is Some
    &&& step->0.phase is Finished
    &&& step->0.action is Finish
    &&& fails_with(step->0.action->result, on_failure, message)
}

/// A command that exits with success makes its hook succeed, whatever the text of the status and
/// whatever was written to standard error.
pub proof fn law_success_succeeds(run: CommandRunView, status: Seq<char>, stderr: Seq<u8>)
    requires
        run.phase is Waiting,
    ensures
        ends_with(
            next_step(run, CommandEventView::Exited { success: true, status, stderr }),
            HookResultView::Success,
        ),
{
}

/// A command that exits without success fails its hook, and the message says the status. What the
/// command said on standard error follows, without the white space round it, unless it said
/// nothing.
pub proof fn law_failure_says_why(
    run: CommandRunView,
    status: Seq<char>,
    stderr: Seq<u8>,
    lead: Seq<char>,
    said: Seq<char>,
    trail: Seq<char>,
)
    requires
        run.phase is Waiting,
        lead + said + trail == if vstd::utf8::valid_utf8(stderr) {
            vstd::utf8::decode_utf8(stderr)
        } else {
            text::utf8_lossy(stderr)
        },
        text::is_blank(lead),
        text::is_blank(trail),
        said.len() > 0 ==> !text::is_white_space(said.first()) && !text::is_white_space(
            said.last(),
        ),
    ensures
        ends_failed(
            next_step(run, CommandEventView::Exited { success: false, status, stderr }),
            run.on_failure,
            if said.len() == 0 {
                "hook exited with status "@ + status
            } else {
                "hook exited with status "@ + status + ": "@ + said
            },
        ),
{
    text::law_trimming_keeps_what_is_said(lead, said, trail);
}

/// An error in launching the command, in writing its payload or in collecting its output fails the
/// hook with that very error.
pub proof fn law_errors_fail_the_run(run: CommandRunView, error: Seq<char>)
    ensures
        run.phase is Spawning ==> ends_failed(
            next_step(run, CommandEventView::SpawnFailed { error }),
            run.on_failure,
            error,
        ),
        run.phase is Writing ==> ends_failed(
            next_step(run, CommandEventView::StdinFailed { error }),
            run.on_failure,
            error,
        ),
        run.phase is Waiting ==> ends_failed(
            next_step(run, CommandEventView::OutputFailed { error }),
            run.on_failure,
            error,
        ),
{
}

/// A run that has a limit fails when its time is over, at any point before its end, and the message
/// says the limit in milliseconds. A run without a limit does not time out.
pub proof fn law_limit_ends_the_run(run: CommandRunView)
    requires
        !(run.phase is Finished),
    ensures
        run.timeout_ms is None ==> next_step(run, CommandEventView::TimedOut) is None,
        run.timeout_ms matches Some(limit) ==> exists|digits: Seq<char>|
            {
                &&& #[trigger] text::read_decimal(digits) == limit
                &&& digits.len() > 0
                &&& digits[0] == '0' ==> digits.len() == 1
                &&& forall|i: int| 0 <= i < digits.len() ==> '0' <= #[trigger] digits[i] <= '9'
                &&& ends_failed(
                    next_step(run, CommandEventView::TimedOut),
                    run.on_failure,
                    "hook timed out after "@ + digits + "ms"@,
                )
            },
{
    if run.timeout_ms is Some {
        let limit = run.timeout_ms->0;
        text::law_decimal_reads_back(limit as nat);
        assert(text::read_decimal(text::decimal(limit as nat)) == limit);
    }
}

/// A launched command has the payload written to its standard input, if it has one, and its exit
/// awaited after that.
pub proof fn law_launched_command_is_fed(run: CommandRunView, payload: Seq<u8>)
    ensures
        run.phase == (CommandPhaseView::Spawning { payload }) ==> {
            &&& next_step(run, CommandEventView::Spawned { has_stdin: true }) == Some(
                CommandStepView {
                    phase: CommandPhaseView::Writing,
                    action: CommandActionView::WriteStdin { payload },
                },
            )
            &&& next_step(run, CommandEventView::Spawned { has_stdin: false }) == Some(
                CommandStepView {
                    phase: CommandPhaseView::Waiting,
                    action: CommandActionView::AwaitOutput,
                },
            )
        },
        run.phase is Writing ==> next_step(run, CommandEventView::StdinWritten) == Some(
            CommandStepView {
                phase: CommandPhaseView::Waiting,
                action: CommandActionView::AwaitOutput,
            },
        ),
{
}

/// Each phase takes the answers to its own action, and the end of the time, if that is limited. A
/// run that is over takes nothing.
pub proof fn law_phase_takes_its_answers(run: CommandRunView, event: CommandEventView)
    ensures
        next_step(run, event) is Some <==> match run.phase {
            CommandPhaseView::Spawning { .. } => event is Spawned || event is SpawnFailed || (
            event is TimedOut && run.timeout_ms is Some),
            CommandPhaseView::Writing => event is StdinWritten || event is StdinFailed || (
            event is TimedOut && run.timeout_ms is Some),
            CommandPhaseView::Waiting => event is Exited || event is OutputFailed || (
            event is TimedOut && run.timeout_ms is Some),
            CommandPhaseView::Finished => false,
        },
{
}

/// A command that is launched, reads its payload and exits with success, has its hook succeed,
/// however it was set.
pub proof fn law_successful_command_succeeds(
    config: HookCommandConfig,
    payload: HookPayload,
    has_stdin: bool,
    status: Seq<char>,
    stderr: Seq<u8>,
)
    requires
        config.command@.len() > 0,
        config.command@[0]@.len() > 0,
        wire::paths_are_text(payload),
    ensures
        ({
            let launch = CommandEventView::Spawned { has_stdin };
            let exit = CommandEventView::Exited { success: true, status, stderr };
            let events = if has_stdin {
                seq![launch, CommandEventView::StdinWritten, exit]
            } else {
                seq![launch, exit]
            };
            let trace = replay(started(config, payload).run, events);
            &&& trace is Some
            &&& trace->0.run.phase is Finished
            &&& trace->0.actions.last() == (CommandActionView::Finish {
                result: HookResultView::Success,
            })
        }),
{
    let launch = CommandEventView::Spawned { has_stdin };
    let exit = CommandEventView::Exited { success: true, status, stderr };
    reveal_with_fuel(replay, 4);
    assert(seq![launch, CommandEventView::StdinWritten, exit].drop_last() =~= seq![
        launch,
        CommandEventView::StdinWritten,
    ]);
    assert(seq![launch, CommandEventView::StdinWritten].drop_last() =~= seq![launch]);
    assert(seq![launch, exit].drop_last() =~= seq![launch]);
    assert(seq![launch].drop_last() =~= Seq::<CommandEventView>::empty());
}

/// An action is seen with all that it asks for.
pub proof fn law_action_is_seen(action: CommandAction)
    ensures
        action matches CommandAction::Spawn { argv, cwd, timeout_ms } ==> {
            &&& action@ is Spawn
            &&& action@->argv == text_views(argv@)
            &&& action@->cwd == cwd@
            &&& action@->Spawn_timeout_ms == timeout_ms
        },
        action matches CommandAction::WriteStdin { payload } ==> action@ is WriteStdin
            && action@->payload == payload@,
        action is AwaitOutput <==> action@ is AwaitOutput,
        action matches CommandAction::Finish { result } ==> action@ is Finish && action@->result
            == result@,
{
}

/// An event is seen with all that happened.
pub proof fn law_event_is_seen(event: CommandEvent)
    ensures
        event matches CommandEvent::Spawned { has_stdin } ==> event@ is Spawned
            && event@->has_stdin == has_stdin,
        event matches CommandEvent::SpawnFailed { error } ==> event@ is SpawnFailed
            && event@->SpawnFailed_error == error.message@,
        event is StdinWritten <==> event@ is StdinWritten,
        event matches CommandEvent::StdinFailed { error } ==> event@ is StdinFailed
            && event@->StdinFailed_error == error.message@,
        event matches CommandEvent::Exited { success, status, stderr } ==> {
            &&& event@ is Exited
            &&& event@->success == success
            &&& event@->status == status@
            &&& event@->stderr == stderr@
        },
        event matches CommandEvent::OutputFailed { error } ==> event@ is OutputFailed
            && event@->OutputFailed_error == error.message@,
        event is TimedOut <==> event@ is TimedOut,
{
}

/// A run is seen with its settings and its phase.
pub proof fn law_run_is_seen(run: CommandRun)
    ensures
        run@.on_failure == run.on_failure,
        run@.timeout_ms == run.timeout_ms,
        run.phase matches CommandPhase::Spawning { payload } ==> run@.phase is Spawning
            && run@.phase->payload == payload@,
        run.phase is Writing <==> run@.phase is Writing,
        run.phase is Waiting <==> run@.phase is Waiting,
        run.phase is Finished <==> run@.phase is Finished,
{
}

/// The words for a failed exit and for a run out of time, see [`law_failure_says_why`] and
/// [`law_limit_ends_the_run`].
pub proof fn law_errors_are_worded(status: Seq<char>, said: Seq<char>, limit: u64)
    requires
        said.len() > 0,
        !text::is_white_space(said.first()),
        !text::is_white_space(said.last()),
    ensures
        exit_detail(status, said) == "hook exited with status "@ + status + ": "@ + said,
        exit_detail(status, Seq::empty()) == "hook exited with status "@ + status,
        exit_message(status, vstd::utf8::encode_utf8(said)) == exit_detail(status, said),
        timeout_message(limit) == "hook timed out after "@ + text::decimal(limit as nat) + "ms"@,
{
    let none = Seq::<char>::empty();
    text::law_trimming_keeps_what_is_said(none, said, none);
    assert(none + said + none =~= said);
    text::law_trimming_keeps_what_is_said(none, none, none);
    assert(none + none + none =~= none);
    text::law_encoded_text_is_heard(said);
}

} // verus!
