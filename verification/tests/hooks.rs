//! Which hooks there are, which of them run, and what comes of it.
use std::cell::Cell;
use std::io::{Read, Write};
use std::time::Duration;

use chrono::{TimeZone, Utc};
use codex_hooks::command::{detailed_exit_error, exit_error, timeout_error};
use codex_hooks::{command_from_argv, command_hook, failure_result, notify_hook};
use codex_hooks::{CommandAction, CommandEvent, CommandRun, CommandShell, ConfigLayerStack};
use codex_hooks::{Hook, HookApprovalKind, HookCommandConfig, HookCommandFailureMode, HookError};
use codex_hooks::{HookEvent, HookEventAfterAgent, HookEventAfterToolUse};
use codex_hooks::{HookEventApprovalRequested, HookEventBeforeToolUse, HookEventSessionStart};
use codex_hooks::{HookEventSubagentStart, HookEventSubagentStop, HookEventUserPromptSubmit};
use codex_hooks::{HookFn, HookPath, HookPayload, HookResponse, HookResult, HookStart};
use codex_hooks::{HookToolInput, HookToolKind, Hooks, HooksConfig, HooksToml, ThreadId};
use codex_hooks::{Timestamp, UserInput};

const CWD: &str = "/tmp";
const INPUT_MESSAGE: &str = "hello";
const THREAD: &str = "0194f3a2-7c1e-7d20-9b1a-5a3c6f0e1d2b";

fn thread() -> ThreadId {
    ThreadId { text: THREAD.to_string() }
}

fn payload(hook_event: HookEvent) -> HookPayload {
    let instant = Utc.with_ymd_and_hms(2025, 1, 1, 0, 0, 0).single().expect("valid timestamp");
    HookPayload {
        session_id: thread(),
        cwd: HookPath::from_text(CWD),
        client: None,
        triggered_at: Timestamp::new(instant.timestamp(), 0).expect("an instant"),
        hook_event,
    }
}

fn hook_payload(label: &str) -> HookPayload {
    payload(HookEvent::AfterAgent {
        event: HookEventAfterAgent {
            thread_id: thread(),
            turn_id: format!("turn-{label}"),
            input_messages: vec![INPUT_MESSAGE.to_string()],
            last_assistant_message: Some("hi".to_string()),
        },
    })
}

fn session_start_payload(label: &str) -> HookPayload {
    payload(HookEvent::SessionStart {
        event: HookEventSessionStart {
            thread_id: thread(),
            session_source: format!("cli-{label}"),
            model: "gpt-5-codex".to_string(),
            model_provider_id: "openai".to_string(),
            approval_policy: "on-request".to_string(),
            sandbox_policy: "workspace-write".to_string(),
        },
    })
}

fn approval_requested_payload(label: &str) -> HookPayload {
    payload(HookEvent::ApprovalRequested {
        event: HookEventApprovalRequested {
            turn_id: format!("turn-{label}"),
            approval_id: format!("approval-{label}"),
            kind: HookApprovalKind::ExecCommand,
            call_id: Some(format!("call-{label}")),
            reason: Some("need approval".to_string()),
            command: Some(vec!["git".to_string(), "commit".to_string()]),
            cwd: Some(HookPath::from_text("repo")),
            changed_paths: None,
            server_name: None,
            request_id: None,
        },
    })
}

fn subagent_start_payload(label: &str) -> HookPayload {
    payload(HookEvent::SubagentStart {
        event: HookEventSubagentStart {
            parent_thread_id: thread(),
            child_thread_id: thread(),
            agent_nickname: Some("Scout".to_string()),
            agent_role: Some("explorer".to_string()),
            prompt: format!("prompt-{label}"),
        },
    })
}

fn subagent_stop_payload(_label: &str) -> HookPayload {
    payload(HookEvent::SubagentStop {
        event: HookEventSubagentStop {
            parent_thread_id: thread(),
            child_thread_id: thread(),
            agent_nickname: Some("Scout".to_string()),
            agent_role: Some("explorer".to_string()),
            status: "completed".to_string(),
        },
    })
}

fn tool_result(label: &str, success: bool, output_preview: &str) -> HookEventAfterToolUse {
    HookEventAfterToolUse {
        turn_id: format!("turn-{label}"),
        call_id: format!("call-{label}"),
        tool_name: "apply_patch".to_string(),
        tool_kind: HookToolKind::Custom,
        tool_input: HookToolInput::Custom { input: "*** Begin Patch".to_string() },
        executed: true,
        success,
        duration_ms: 1,
        mutating: true,
        sandbox: "none".to_string(),
        sandbox_policy: "danger-full-access".to_string(),
        output_preview: output_preview.to_string(),
    }
}

fn after_tool_use_payload(label: &str) -> HookPayload {
    payload(HookEvent::AfterToolUse { event: tool_result(label, true, "ok") })
}

fn tool_use_failure_payload(label: &str) -> HookPayload {
    payload(HookEvent::ToolUseFailure { event: tool_result(label, false, "failed") })
}

fn before_tool_use_payload(label: &str) -> HookPayload {
    payload(HookEvent::BeforeToolUse {
        event: HookEventBeforeToolUse {
            turn_id: format!("turn-{label}"),
            call_id: format!("call-{label}"),
            tool_name: "apply_patch".to_string(),
            tool_kind: HookToolKind::Custom,
            tool_input: HookToolInput::Custom { input: "*** Begin Patch".to_string() },
            mutating: true,
            sandbox: "none".to_string(),
            sandbox_policy: "danger-full-access".to_string(),
        },
    })
}

fn user_prompt_submit_payload(label: &str) -> HookPayload {
    payload(HookEvent::UserPromptSubmit {
        event: HookEventUserPromptSubmit {
            turn_id: format!("turn-{label}"),
            items: vec![UserInput::Text {
                text: INPUT_MESSAGE.to_string(),
                text_elements: Vec::new(),
            }],
            model: "gpt-5-codex".to_string(),
            approval_policy: "on-request".to_string(),
            sandbox_policy: "workspace-write".to_string(),
        },
    })
}

/// The handlers of a test, by their keys. Each counts its calls.
struct Handlers {
    calls: Cell<usize>,
    results: Vec<(bool, Option<HookError>)>,
}

impl Handlers {
    fn new() -> Handlers {
        Handlers { calls: Cell::new(0), results: Vec::new() }
    }

    fn hook(&mut self, name: &str, aborts: bool, message: Option<&str>) -> Hook {
        let error = message.map(|message| HookError { message: message.to_string() });
        self.results.push((aborts, error));
        Hook { name: name.to_string(), func: HookFn::Handler(self.results.len() as u64 - 1) }
    }

    fn counting_success_hook(&mut self, name: &str) -> Hook {
        self.hook(name, false, None)
    }

    fn failing_continue_hook(&mut self, name: &str, message: &str) -> Hook {
        self.hook(name, false, Some(message))
    }

    fn failing_abort_hook(&mut self, name: &str, message: &str) -> Hook {
        self.hook(name, true, Some(message))
    }

    fn call(&self, key: u64) -> HookResult {
        self.calls.set(self.calls.get() + 1);
        match &self.results[key as usize] {
            (_, None) => HookResult::Success,
            (false, Some(error)) => HookResult::FailedContinue(error.clone()),
            (true, Some(error)) => HookResult::FailedAbort(error.clone()),
        }
    }

    fn calls(&self) -> usize {
        self.calls.get()
    }

    fn run(&self, hook: &Hook, payload: &HookPayload) -> HookResult {
        match hook.func.begin(payload) {
            HookStart::Done(result) => result,
            HookStart::Handler(key) => self.call(key),
            HookStart::Command(run, action) => run_command(run, action),
            HookStart::Notify => HookResult::Success,
        }
    }

    fn dispatch(&self, hooks: &Hooks, payload: HookPayload) -> Vec<HookResponse> {
        let mut dispatch = hooks.dispatch(&payload);
        while let Some(hook) = dispatch.next_hook() {
            assert!(dispatch.record(self.run(hook, &payload)));
        }
        dispatch.into_outcomes()
    }
}

/// Performs the actions of a run.
fn run_command(run: CommandRun, action: CommandAction) -> HookResult {
    runtime().block_on(perform(run, action))
}

async fn perform(mut run: CommandRun, mut action: CommandAction) -> HookResult {
    let mut limit = Duration::from_secs(10);
    let mut launched = None;
    loop {
        let event = match action {
            CommandAction::Finish { result } => return result,
            CommandAction::Spawn { argv, cwd, timeout_ms } => {
                limit = timeout_ms.map(Duration::from_millis).unwrap_or(limit);
                let (stdin, payload) = std::io::pipe().expect("a pipe");
                let (messages, stderr) = std::io::pipe().expect("a pipe");
                let mut command = command_from_argv(&argv).expect("a program");
                command.current_dir(cwd).stdin(stdin).stderr(stderr).kill_on_drop(true);
                match command.spawn() {
                    Ok(child) => {
                        launched = Some((child, Some(payload), messages));
                        CommandEvent::Spawned { has_stdin: true }
                    }
                    Err(error) => CommandEvent::SpawnFailed { error: hook_error(error) },
                }
            }
            CommandAction::WriteStdin { payload } => {
                let (_, stdin, _) = launched.as_mut().expect("a child");
                match stdin.take().expect("a pipe").write_all(&payload) {
                    Ok(()) => CommandEvent::StdinWritten,
                    Err(error) => CommandEvent::StdinFailed { error: hook_error(error) },
                }
            }
            CommandAction::AwaitOutput => {
                let (mut child, _, mut messages) = launched.take().expect("a child");
                match tokio::time::timeout(limit, child.wait()).await {
                    Err(_) => CommandEvent::TimedOut,
                    Ok(Err(error)) => CommandEvent::OutputFailed { error: hook_error(error) },
                    Ok(Ok(status)) => {
                        let mut stderr = Vec::new();
                        messages.read_to_end(&mut stderr).expect("messages");
                        CommandEvent::Exited {
                            success: status.success(),
                            status: status.to_string(),
                            stderr,
                        }
                    }
                }
            }
        };
        action = run.step(event).expect("a fitting event");
    }
}

fn hook_error(error: std::io::Error) -> HookError {
    HookError { message: error.to_string() }
}

fn runtime() -> tokio::runtime::Runtime {
    tokio::runtime::Builder::new_current_thread().enable_all().build().expect("a runtime")
}

fn json_text(payload: &HookPayload) -> String {
    let bytes = payload.to_vec().expect("serialize hook payload");
    String::from_utf8(bytes).expect("text")
}

fn file_text(path: &std::path::Path) -> String {
    runtime().block_on(async { tokio::fs::read_to_string(path).await }).expect("a file")
}

fn command(words: &[&str]) -> Vec<String> {
    words.iter().map(|word| word.to_string()).collect()
}

fn config(words: &[&str]) -> HookCommandConfig {
    HookCommandConfig { command: command(words), ..HookCommandConfig::default() }
}

#[test]
fn command_from_argv_returns_none_for_empty_args() {
    assert!(command_from_argv(&[]).is_none());
    assert!(command_from_argv(&["".to_string()]).is_none());
}

#[test]
fn command_from_argv_builds_command() {
    let argv = vec!["echo".to_string(), "hello".to_string(), "world".to_string()];
    let mut command = command_from_argv(&argv).expect("command");
    let output = runtime().block_on(async { command.output().await }).expect("output");

    let stdout = String::from_utf8_lossy(&output.stdout);
    let trimmed = stdout.trim_end_matches(['\r', '\n']);
    assert_eq!(trimmed, "hello world");
}

#[test]
fn command_from_argv_holds_the_words() {
    let built = command_from_argv(&command(&["prog", "-a", ""])).expect("command");
    assert_eq!(built.as_std().get_program(), "prog");
    let args: Vec<_> = built.as_std().get_args().collect();
    assert_eq!(args, ["-a", ""]);
}

#[test]
fn hooks_new_requires_program_name() {
    assert!(Hooks::new(HooksConfig::default()).agent_turn_complete.is_empty());
    assert!(Hooks::new(HooksConfig {
        legacy_notify_argv: Some(vec![]),
        ..HooksConfig::default()
    })
    .agent_turn_complete
    .is_empty());
    assert!(Hooks::new(HooksConfig {
        legacy_notify_argv: Some(vec!["".to_string()]),
        ..HooksConfig::default()
    })
    .agent_turn_complete
    .is_empty());
    assert_eq!(
        Hooks::new(HooksConfig {
            legacy_notify_argv: Some(vec!["notify-send".to_string()]),
            ..HooksConfig::default()
        })
        .agent_turn_complete
        .len(),
        1
    );
}

#[test]
fn dispatch_executes_hook() {
    let mut handlers = Handlers::new();
    let hooks = Hooks {
        agent_turn_complete: vec![handlers.counting_success_hook("counting")],
        ..Hooks::default()
    };

    let outcomes = handlers.dispatch(&hooks, hook_payload("1"));
    assert_eq!(outcomes.len(), 1);
    assert_eq!(outcomes[0].hook_name, "counting");
    assert!(matches!(outcomes[0].result, HookResult::Success));
    assert_eq!(handlers.calls(), 1);
}

#[test]
fn dispatch_executes_session_start_hooks() {
    let mut handlers = Handlers::new();
    let hooks = Hooks {
        session_start: vec![handlers.counting_success_hook("counting")],
        ..Hooks::default()
    };

    let outcomes = handlers.dispatch(&hooks, session_start_payload("session"));
    assert_eq!(outcomes.len(), 1);
    assert_eq!(outcomes[0].hook_name, "counting");
    assert!(matches!(outcomes[0].result, HookResult::Success));
    assert_eq!(handlers.calls(), 1);
}

#[test]
fn dispatch_executes_subagent_start_hooks() {
    let mut handlers = Handlers::new();
    let hooks = Hooks {
        subagent_start: vec![handlers.counting_success_hook("counting")],
        ..Hooks::default()
    };

    let outcomes = handlers.dispatch(&hooks, subagent_start_payload("start"));
    assert_eq!(outcomes.len(), 1);
    assert_eq!(outcomes[0].hook_name, "counting");
    assert!(matches!(outcomes[0].result, HookResult::Success));
    assert_eq!(handlers.calls(), 1);
}

#[test]
fn dispatch_executes_subagent_stop_hooks() {
    let mut handlers = Handlers::new();
    let hooks = Hooks {
        subagent_stop: vec![handlers.counting_success_hook("counting")],
        ..Hooks::default()
    };

    let outcomes = handlers.dispatch(&hooks, subagent_stop_payload("stop"));
    assert_eq!(outcomes.len(), 1);
    assert_eq!(outcomes[0].hook_name, "counting");
    assert!(matches!(outcomes[0].result, HookResult::Success));
    assert_eq!(handlers.calls(), 1);
}

#[test]
fn dispatch_executes_approval_requested_hooks() {
    let mut handlers = Handlers::new();
    let hooks = Hooks {
        approval_requested: vec![handlers.counting_success_hook("counting")],
        ..Hooks::default()
    };

    let outcomes = handlers.dispatch(&hooks, approval_requested_payload("approval"));
    assert_eq!(outcomes.len(), 1);
    assert_eq!(outcomes[0].hook_name, "counting");
    assert!(matches!(outcomes[0].result, HookResult::Success));
    assert_eq!(handlers.calls(), 1);
}

#[test]
fn dispatch_executes_user_prompt_submit_hooks() {
    let mut handlers = Handlers::new();
    let hooks = Hooks {
        user_prompt_submit: vec![handlers.counting_success_hook("counting")],
        ..Hooks::default()
    };

    let outcomes = handlers.dispatch(&hooks, user_prompt_submit_payload("user"));
    assert_eq!(outcomes.len(), 1);
    assert_eq!(outcomes[0].hook_name, "counting");
    assert!(matches!(outcomes[0].result, HookResult::Success));
    assert_eq!(handlers.calls(), 1);
}

#[test]
fn default_hook_is_noop_and_continues() {
    let payload = hook_payload("d");
    let hook = Hook::default();
    let outcome = hook.execute(Handlers::new().run(&hook, &payload));
    assert_eq!(outcome.hook_name, "default");
    assert!(matches!(outcome.result, HookResult::Success));
}

#[test]
fn dispatch_executes_multiple_hooks_for_same_event() {
    let mut handlers = Handlers::new();
    let hooks = Hooks {
        agent_turn_complete: vec![
            handlers.counting_success_hook("counting-1"),
            handlers.counting_success_hook("counting-2"),
        ],
        ..Hooks::default()
    };

    let outcomes = handlers.dispatch(&hooks, hook_payload("2"));
    assert_eq!(outcomes.len(), 2);
    assert_eq!(outcomes[0].hook_name, "counting-1");
    assert_eq!(outcomes[1].hook_name, "counting-2");
    assert!(matches!(outcomes[0].result, HookResult::Success));
    assert!(matches!(outcomes[1].result, HookResult::Success));
    assert_eq!(handlers.calls(), 2);
}

#[test]
fn dispatch_stops_when_hook_requests_abort() {
    let mut handlers = Handlers::new();
    let hooks = Hooks {
        agent_turn_complete: vec![
            handlers.failing_abort_hook("abort", "hook failed"),
            handlers.counting_success_hook("counting"),
        ],
        ..Hooks::default()
    };

    let outcomes = handlers.dispatch(&hooks, hook_payload("3"));
    assert_eq!(outcomes.len(), 1);
    assert_eq!(outcomes[0].hook_name, "abort");
    assert!(matches!(outcomes[0].result, HookResult::FailedAbort(_)));
    assert_eq!(handlers.calls(), 1);
}

#[test]
fn dispatch_executes_after_tool_use_hooks() {
    let mut handlers = Handlers::new();
    let hooks = Hooks {
        tool_use_complete: vec![handlers.counting_success_hook("counting")],
        ..Hooks::default()
    };

    let outcomes = handlers.dispatch(&hooks, after_tool_use_payload("p"));
    assert_eq!(outcomes.len(), 1);
    assert_eq!(outcomes[0].hook_name, "counting");
    assert!(matches!(outcomes[0].result, HookResult::Success));
    assert_eq!(handlers.calls(), 1);
}

#[test]
fn dispatch_executes_tool_use_failure_hooks() {
    let mut handlers = Handlers::new();
    let hooks = Hooks {
        tool_use_failure: vec![handlers.counting_success_hook("counting")],
        ..Hooks::default()
    };

    let outcomes = handlers.dispatch(&hooks, tool_use_failure_payload("fail"));
    assert_eq!(outcomes.len(), 1);
    assert_eq!(outcomes[0].hook_name, "counting");
    assert!(matches!(outcomes[0].result, HookResult::Success));
    assert_eq!(handlers.calls(), 1);
}

#[test]
fn dispatch_executes_pre_tool_use_hooks() {
    let mut handlers = Handlers::new();
    let hooks = Hooks {
        pre_tool_use: vec![handlers.counting_success_hook("counting")],
        ..Hooks::default()
    };

    let outcomes = handlers.dispatch(&hooks, before_tool_use_payload("pre"));
    assert_eq!(outcomes.len(), 1);
    assert_eq!(outcomes[0].hook_name, "counting");
    assert!(matches!(outcomes[0].result, HookResult::Success));
    assert_eq!(handlers.calls(), 1);
}

#[test]
fn dispatch_executes_compact_start_hooks() {
    let mut handlers = Handlers::new();
    let hooks = Hooks {
        compact_start: vec![handlers.counting_success_hook("counting")],
        ..Hooks::default()
    };

    let outcomes = handlers.dispatch(&hooks, payload(HookEvent::CompactStart));
    assert_eq!(outcomes.len(), 1);
    assert_eq!(outcomes[0].hook_name, "counting");
    assert_eq!(handlers.calls(), 1);
}

#[test]
fn dispatch_continues_after_continueable_failure() {
    let mut handlers = Handlers::new();
    let hooks = Hooks {
        agent_turn_complete: vec![
            handlers.failing_continue_hook("failing", "hook failed"),
            handlers.counting_success_hook("counting"),
        ],
        ..Hooks::default()
    };

    let outcomes = handlers.dispatch(&hooks, hook_payload("err"));
    assert_eq!(outcomes.len(), 2);
    assert_eq!(outcomes[0].hook_name, "failing");
    assert!(matches!(outcomes[0].result, HookResult::FailedContinue(_)));
    assert_eq!(outcomes[1].hook_name, "counting");
    assert!(matches!(outcomes[1].result, HookResult::Success));
    assert_eq!(handlers.calls(), 2);
}

#[test]
fn dispatch_returns_after_tool_use_failure_outcome() {
    let mut handlers = Handlers::new();
    let hooks = Hooks {
        tool_use_complete: vec![
            handlers.failing_continue_hook("failing", "after_tool_use hook failed")
        ],
        ..Hooks::default()
    };

    let outcomes = handlers.dispatch(&hooks, after_tool_use_payload("err-tool"));
    assert_eq!(outcomes.len(), 1);
    assert_eq!(outcomes[0].hook_name, "failing");
    assert!(matches!(outcomes[0].result, HookResult::FailedContinue(_)));
    assert_eq!(handlers.calls(), 1);
}

#[test]
fn command_hook_abort_mode_returns_failed_abort() {
    let hooks = Hooks::new(HooksConfig {
        agent_turn_complete: vec![HookCommandConfig {
            name: Some("missing".to_string()),
            command: vec!["definitely-missing-codex-hook-command".to_string()],
            timeout_ms: None,
            on_failure: HookCommandFailureMode::Abort,
        }],
        ..HooksConfig::default()
    });

    let outcomes = Handlers::new().dispatch(&hooks, hook_payload("abort-mode"));
    assert_eq!(outcomes.len(), 1);
    assert_eq!(outcomes[0].hook_name, "missing");
    assert!(matches!(outcomes[0].result, HookResult::FailedAbort(_)));
}

#[test]
fn command_hook_reads_payload_from_stdin_unix() {
    let temp_dir = tempfile::tempdir().expect("a directory");
    let payload_path = temp_dir.path().join("payload.json");
    let payload_path_arg = payload_path.to_string_lossy().into_owned();
    let payload = hook_payload("stdin-unix");
    let expected = json_text(&payload);
    let hooks = Hooks::new(HooksConfig {
        agent_turn_complete: vec![HookCommandConfig {
            name: Some("stdin-writer".to_string()),
            command: vec![
                "/bin/sh".to_string(),
                "-c".to_string(),
                "cat > \"$1\"".to_string(),
                "sh".to_string(),
                payload_path_arg,
            ],
            timeout_ms: Some(2_000),
            on_failure: HookCommandFailureMode::Abort,
        }],
        ..HooksConfig::default()
    });

    let outcomes = Handlers::new().dispatch(&hooks, payload);
    assert_eq!(outcomes.len(), 1);
    assert!(matches!(outcomes[0].result, HookResult::Success));
    assert_eq!(file_text(&payload_path), expected);
}

#[test]
fn command_run_hands_over_what_is_configured() {
    let words = ["/bin/sh", "-c", "true"];
    let limited = HookCommandConfig { timeout_ms: Some(2_000), ..config(&words) };
    let payload = hook_payload("run");
    let (mut run, action) = CommandRun::start(&limited, &payload);
    let CommandAction::Spawn { argv, cwd, timeout_ms } = action else {
        panic!("a launch");
    };
    assert_eq!(argv, command(&words));
    assert_eq!(cwd, CWD);
    assert_eq!(timeout_ms, Some(2_000));
    let Some(CommandAction::WriteStdin { payload: written }) =
        run.step(CommandEvent::Spawned { has_stdin: true })
    else {
        panic!("the payload");
    };
    assert_eq!(written, payload.to_vec().expect("serialize hook payload"));
}

#[test]
fn failing_programs_are_reported_with_their_messages() {
    let failing = HookCommandConfig {
        timeout_ms: Some(5_000),
        ..config(&["/bin/sh", "-c", "cat > /dev/null; echo ' boom ' >&2; exit 3"])
    };
    let hooks = Hooks::new(HooksConfig { session_start: vec![failing], ..HooksConfig::default() });
    let mut outcomes = Handlers::new().dispatch(&hooks, session_start_payload("fails"));
    assert_eq!(outcomes.len(), 1);
    assert_eq!(outcomes[0].hook_name, "/bin/sh");
    let result = outcomes.remove(0).result;
    assert_eq!(message(result), "hook exited with status exit status: 3: boom");
}

#[test]
fn slow_programs_time_out() {
    let slow = HookCommandConfig {
        timeout_ms: Some(50),
        ..config(&["/bin/sh", "-c", "cat > /dev/null; sleep 5"])
    };
    let hooks = Hooks::new(HooksConfig { session_start: vec![slow], ..HooksConfig::default() });
    let mut outcomes = Handlers::new().dispatch(&hooks, session_start_payload("slow"));
    assert_eq!(message(outcomes.remove(0).result), "hook timed out after 50ms");
}

#[test]
fn hook_executes_program_with_payload_argument_unix() {
    let temp_dir = tempfile::tempdir().expect("a directory");
    let payload_path = temp_dir.path().join("payload.json");
    let payload_path_arg = payload_path.to_string_lossy().into_owned();
    let payload = hook_payload("4");
    let json = json_text(&payload);
    let hooks = Hooks {
        agent_turn_complete: vec![Hook {
            name: "write_payload".to_string(),
            func: HookFn::Handler(0),
        }],
        ..Hooks::default()
    };

    let mut dispatch = hooks.dispatch(&payload);
    while let Some(hook) = dispatch.next_hook() {
        assert!(matches!(hook.func.begin(&payload), HookStart::Handler(0)));
        let argv = command(&[
            "/bin/sh",
            "-c",
            "printf '%s' \"$2\" > \"$1\"",
            "sh",
            &payload_path_arg,
            &json,
        ]);
        let mut command = command_from_argv(&argv).expect("build command");
        runtime().block_on(async { command.status().await }).expect("run hook command");
        dispatch.record(HookResult::Success);
    }
    let outcomes = dispatch.into_outcomes();
    assert_eq!(outcomes.len(), 1);
    assert!(matches!(outcomes[0].result, HookResult::Success));

    assert_eq!(file_text(&payload_path), json);
}

#[test]
fn configured_commands_become_hooks_in_order() {
    let named = HookCommandConfig { name: Some("audit".to_string()), ..config(&["./b", "x"]) };
    let hooks = Hooks::new(HooksConfig {
        legacy_notify_argv: Some(command(&["notify-send", "done"])),
        agent_turn_complete: vec![config(&["./a"]), config(&[]), named.clone(), config(&["", "y"])],
        ..HooksConfig::default()
    });
    let names: Vec<&str> = hooks.agent_turn_complete.iter().map(|hook| hook.name.as_str()).collect();
    assert_eq!(names, ["./a", "audit", "legacy_notify"]);
    assert!(matches!(&hooks.agent_turn_complete[1].func, HookFn::Command(kept) if *kept == named));
    let HookFn::Notify(argv) = &hooks.agent_turn_complete[2].func else {
        panic!("the legacy hook");
    };
    assert_eq!(*argv, command(&["notify-send", "done"]));
}

#[test]
fn every_list_of_the_configuration_has_its_event() {
    let hooks = Hooks::new(HooksConfig {
        session_start: vec![config(&["session_start"])],
        approval_requested: vec![config(&["approval_requested"])],
        user_prompt_submit: vec![config(&["user_prompt_submit"])],
        tool_use_failure: vec![config(&["tool_use_failure"])],
        pre_tool_use: vec![config(&["pre_tool_use"])],
        agent_turn_complete: vec![config(&["agent_turn_complete"])],
        subagent_start: vec![config(&["subagent_start"])],
        subagent_stop: vec![config(&["subagent_stop"])],
        compact_start: vec![config(&["compact_start"])],
        tool_use_complete: vec![config(&["tool_use_complete"])],
        ..HooksConfig::default()
    });
    let cases = vec![
        (session_start_payload("x"), "session_start"),
        (approval_requested_payload("x"), "approval_requested"),
        (user_prompt_submit_payload("x"), "user_prompt_submit"),
        (tool_use_failure_payload("x"), "tool_use_failure"),
        (before_tool_use_payload("x"), "pre_tool_use"),
        (hook_payload("x"), "agent_turn_complete"),
        (subagent_start_payload("x"), "subagent_start"),
        (subagent_stop_payload("x"), "subagent_stop"),
        (payload(HookEvent::CompactStart), "compact_start"),
        (after_tool_use_payload("x"), "tool_use_complete"),
    ];
    for (payload, name) in cases {
        let listed = hooks.hooks_for_event(&payload.hook_event);
        assert_eq!(listed.len(), 1);
        assert_eq!(listed[0].name, name);
    }
}

#[test]
fn engine_is_set_up_as_configured() {
    let layers = ConfigLayerStack { folders: command(&["/etc/codex", "/home/me/.codex"]) };
    let hooks = Hooks::new(HooksConfig {
        feature_enabled: true,
        config_layer_stack: Some(layers.clone()),
        shell_program: Some("/bin/sh".to_string()),
        shell_args: command(&["-c"]),
        ..HooksConfig::default()
    });
    assert!(hooks.engine.feature_enabled);
    assert_eq!(hooks.engine.config_layer_stack, Some(layers));
    let shell = CommandShell { program: "/bin/sh".to_string(), args: command(&["-c"]) };
    assert_eq!(hooks.engine.shell, shell);

    let blank = Hooks::default().engine;
    assert!(!blank.feature_enabled);
    assert_eq!(blank.config_layer_stack, None);
    assert_eq!(blank.shell, CommandShell { program: String::new(), args: Vec::new() });
}

#[test]
fn without_hooks_nothing_runs() {
    let handlers = Handlers::new();
    assert!(handlers.dispatch(&Hooks::default(), hook_payload("none")).is_empty());
}

#[test]
fn nothing_is_recorded_after_the_end() {
    let mut handlers = Handlers::new();
    let hooks = Hooks {
        session_start: vec![
            handlers.failing_abort_hook("abort", "no"),
            handlers.counting_success_hook("never"),
        ],
        ..Hooks::default()
    };
    let payload = session_start_payload("end");
    let mut dispatch = hooks.dispatch(&payload);
    assert!(dispatch.record(handlers.call(0)));
    assert!(dispatch.next_hook().is_none());
    assert!(!dispatch.record(HookResult::Success));
    assert_eq!(dispatch.into_outcomes().len(), 1);
}

#[test]
fn results_that_abort() {
    let error = HookError { message: "no".to_string() };
    assert!(!HookResult::Success.should_abort_operation());
    assert!(!HookResult::FailedContinue(error.clone()).should_abort_operation());
    assert!(HookResult::FailedAbort(error).should_abort_operation());
}

#[test]
fn failures_follow_the_setting() {
    let error = HookError { message: "no".to_string() };
    let result = failure_result(HookCommandFailureMode::Continue, error.clone());
    assert!(matches!(result, HookResult::FailedContinue(kept) if kept == error));
    let result = failure_result(HookCommandFailureMode::Abort, error.clone());
    assert!(matches!(result, HookResult::FailedAbort(kept) if kept == error));
}

#[test]
fn defaults_are_blank() {
    assert_eq!(HookCommandFailureMode::default(), HookCommandFailureMode::Continue);
    let config = HookCommandConfig::default();
    assert_eq!(config.name, None);
    assert!(config.command.is_empty());
    assert_eq!(config.timeout_ms, None);
    assert_eq!(config.on_failure, HookCommandFailureMode::Continue);
    let toml = HooksToml::default();
    assert!(toml.session_start.is_empty() && toml.compact_start.is_empty());
    assert_eq!(toml, toml.clone());
}

#[test]
fn command_hook_needs_a_program() {
    assert!(command_hook(config(&[])).is_none());
    assert!(command_hook(config(&["", "x"])).is_none());
    assert_eq!(command_hook(config(&["run", "x"])).expect("a hook").name, "run");
    assert_eq!(notify_hook(command(&["n"])).name, "legacy_notify");
}

fn started(config: &HookCommandConfig) -> CommandRun {
    let (run, action) = CommandRun::start(config, &hook_payload("run"));
    assert!(matches!(action, CommandAction::Spawn { .. }));
    run
}

fn finished(action: Option<CommandAction>) -> HookResult {
    match action {
        Some(CommandAction::Finish { result }) => result,
        other => panic!("not the end: {other:?}"),
    }
}

fn message(result: HookResult) -> String {
    match result {
        HookResult::FailedContinue(error) => error.message,
        other => panic!("not a failure that continues: {other:?}"),
    }
}

fn exit(success: bool, status: &str, stderr: &[u8]) -> CommandEvent {
    CommandEvent::Exited { success, status: status.to_string(), stderr: stderr.to_vec() }
}

#[test]
fn run_without_program_succeeds_at_once() {
    let (_, action) = CommandRun::start(&config(&[""]), &hook_payload("run"));
    assert!(matches!(finished(Some(action)), HookResult::Success));
}

#[test]
fn run_fails_where_the_payload_cannot_be_written() {
    let mut payload = hook_payload("run");
    payload.cwd = HookPath { bytes: vec![0xff] };
    let (mut run, action) = CommandRun::start(&config(&["run"]), &payload);
    assert_eq!(message(finished(Some(action))), "path contains invalid UTF-8 characters");
    assert!(run.step(CommandEvent::Spawned { has_stdin: true }).is_none());
}

#[test]
fn exit_messages() {
    let cases: [(&[u8], &str); 6] = [
        (b"", "hook exited with status exit status: 1"),
        (b" \t\r\n", "hook exited with status exit status: 1"),
        (b"  boom \n", "hook exited with status exit status: 1: boom"),
        (b"a\n b\n", "hook exited with status exit status: 1: a\n b"),
        (b"\xff!\n", "hook exited with status exit status: 1: \u{fffd}!"),
        ("\u{3000}nein\u{a0}\u{85}".as_bytes(), "hook exited with status exit status: 1: nein"),
    ];
    for (stderr, expected) in cases {
        let mut run = started(&config(&["run"]));
        let action = run.step(CommandEvent::Spawned { has_stdin: false });
        assert!(matches!(action, Some(CommandAction::AwaitOutput)));
        let result = finished(run.step(exit(false, "exit status: 1", stderr)));
        assert_eq!(message(result), expected);
    }
}

#[test]
fn errors_of_every_phase_are_reported() {
    let error = || HookError { message: "broken".to_string() };
    let mut run = started(&config(&["run"]));
    let action = run.step(CommandEvent::SpawnFailed { error: error() });
    assert_eq!(message(finished(action)), "broken");

    let mut run = started(&config(&["run"]));
    run.step(CommandEvent::Spawned { has_stdin: true });
    let action = run.step(CommandEvent::StdinFailed { error: error() });
    assert_eq!(message(finished(action)), "broken");

    let mut run = started(&config(&["run"]));
    run.step(CommandEvent::Spawned { has_stdin: true });
    run.step(CommandEvent::StdinWritten);
    let action = run.step(CommandEvent::OutputFailed { error: error() });
    assert_eq!(message(finished(action)), "broken");
}

#[test]
fn runs_time_out_where_they_have_a_limit() {
    for (timeout_ms, expected) in [
        (0, "hook timed out after 0ms"),
        (5000, "hook timed out after 5000ms"),
        (u64::MAX, "hook timed out after 18446744073709551615ms"),
    ] {
        let limited = HookCommandConfig { timeout_ms: Some(timeout_ms), ..config(&["run"]) };
        for events in 0..3 {
            let mut run = started(&limited);
            if events > 0 {
                run.step(CommandEvent::Spawned { has_stdin: true });
            }
            if events > 1 {
                run.step(CommandEvent::StdinWritten);
            }
            let result = finished(run.step(CommandEvent::TimedOut));
            assert_eq!(message(result), expected);
            assert!(run.step(CommandEvent::TimedOut).is_none());
        }
    }
    let mut run = started(&config(&["run"]));
    assert!(run.step(CommandEvent::TimedOut).is_none());
}

#[test]
fn events_that_do_not_fit_change_nothing() {
    let mut run = started(&config(&["run"]));
    assert!(run.step(CommandEvent::StdinWritten).is_none());
    assert!(run.step(exit(true, "exit status: 0", b"")).is_none());
    let action = run.step(CommandEvent::Spawned { has_stdin: true });
    assert!(matches!(action, Some(CommandAction::WriteStdin { .. })));
    assert!(run.step(CommandEvent::Spawned { has_stdin: true }).is_none());
    assert!(matches!(run.step(CommandEvent::StdinWritten), Some(CommandAction::AwaitOutput)));
    let result = finished(run.step(exit(true, "exit status: 0", b"")));
    assert!(matches!(result, HookResult::Success));
    assert!(run.step(exit(true, "exit status: 0", b"")).is_none());
}

#[test]
fn abort_setting_stops_the_dispatch() {
    let aborting = HookCommandConfig {
        on_failure: HookCommandFailureMode::Abort,
        ..config(&["definitely-missing-hook-command"])
    };
    let hooks = Hooks::new(HooksConfig {
        session_start: vec![
            config(&["definitely-missing-hook-command"]),
            aborting,
            config(&["definitely-missing-hook-command"]),
        ],
        ..HooksConfig::default()
    });
    let outcomes = Handlers::new().dispatch(&hooks, session_start_payload("stop"));
    assert_eq!(outcomes.len(), 2);
    assert!(matches!(outcomes[0].result, HookResult::FailedContinue(_)));
    assert!(matches!(outcomes[1].result, HookResult::FailedAbort(_)));
}

#[test]
fn errors_are_worded_from_their_parts() {
    let status = "signal: 9".to_string();
    assert_eq!(
        detailed_exit_error(&status, &" no \n".to_string()).message,
        "hook exited with status signal: 9: no"
    );
    assert_eq!(
        exit_error(&status, &b"\xf0\x9f".to_vec()).message,
        "hook exited with status signal: 9: \u{fffd}"
    );
    assert_eq!(timeout_error(10).message, "hook timed out after 10ms");
}

#[test]
fn launched_run_writes_the_given_bytes() {
    let (mut run, action) =
        CommandRun::launch(&config(&["run"]), "/work".to_string(), b"{}".to_vec());
    assert!(matches!(action, CommandAction::Spawn { cwd, .. } if cwd == "/work"));
    let action = run.step(CommandEvent::Spawned { has_stdin: true });
    assert!(matches!(action, Some(CommandAction::WriteStdin { payload }) if payload == b"{}"));
    let (_, action) = CommandRun::launch(&config(&[]), "/work".to_string(), b"{}".to_vec());
    assert!(matches!(finished(Some(action)), HookResult::Success));
}

#[test]
fn run_without_program_succeeds_whatever_the_payload() {
    let mut payload = hook_payload("run");
    payload.cwd = HookPath { bytes: vec![0xff] };
    let (_, action) = CommandRun::start(&config(&[]), &payload);
    assert!(matches!(finished(Some(action)), HookResult::Success));
}
