//! The JSON shape of hook payloads.
use chrono::{TimeZone, Utc};
use codex_hooks::{HookApprovalKind, HookEvent, HookEventAfterAgent, HookEventAfterToolUse};
use codex_hooks::{HookEventApprovalRequested, HookEventBeforeToolUse, HookEventSessionStart};
use codex_hooks::{HookEventSubagentStart, HookEventSubagentStop, HookEventUserPromptSubmit};
use codex_hooks::{HookPath, HookPayload, HookToolInput, HookToolInputLocalShell, HookToolKind};
use codex_hooks::{Json, JsonObject, SandboxPermissions, ThreadId, Timestamp, UserInput};
use serde_json::Value;

const SESSION: &str = "0194f3a2-7c1e-7d20-9b1a-5a3c6f0e1d2b";
const THREAD: &str = "0194f3a2-7c1e-7d20-9b1a-0123456789ab";

fn text(text: &str) -> Value {
    Value::from(text)
}

fn array(items: Vec<Value>) -> Value {
    Value::from(items)
}

fn object(fields: Vec<(&str, Value)>) -> Value {
    let fields = fields.into_iter().map(|(name, value)| (name.to_string(), value));
    Value::from(fields.collect::<serde_json::Map<String, Value>>())
}

fn thread(text: &str) -> ThreadId {
    ThreadId { text: text.to_string() }
}

fn new_year() -> Timestamp {
    let instant = Utc.with_ymd_and_hms(2025, 1, 1, 0, 0, 0).single().expect("valid timestamp");
    Timestamp::new(instant.timestamp(), instant.timestamp_subsec_nanos()).expect("an instant")
}

fn payload(hook_event: HookEvent) -> HookPayload {
    HookPayload {
        session_id: thread(SESSION),
        cwd: HookPath::from_text("tmp"),
        client: None,
        triggered_at: new_year(),
        hook_event,
    }
}

fn expected(hook_event: Value) -> Value {
    object(vec![
        ("session_id", text(SESSION)),
        ("cwd", text("tmp")),
        ("triggered_at", text("2025-01-01T00:00:00Z")),
        ("hook_event", hook_event),
    ])
}

fn written(payload: &HookPayload) -> Value {
    let bytes = payload.to_vec().expect("serialize hook payload");
    serde_json::from_slice(&bytes).expect("JSON")
}

fn shell_input() -> HookToolInput {
    HookToolInput::LocalShell {
        params: HookToolInputLocalShell {
            command: vec!["cargo".to_string(), "fmt".to_string()],
            workdir: Some("codex-rs".to_string()),
            timeout_ms: Some(60_000),
            sandbox_permissions: Some(SandboxPermissions::UseDefault),
            justification: None,
            prefix_rule: None,
        },
    }
}

fn shell_input_shape() -> Value {
    object(vec![
        ("input_type", text("local_shell")),
        (
            "params",
            object(vec![
                ("command", array(vec![text("cargo"), text("fmt")])),
                ("workdir", text("codex-rs")),
                ("timeout_ms", Value::from(60000)),
                ("sandbox_permissions", text("use_default")),
                ("justification", Value::Null),
                ("prefix_rule", Value::Null),
            ]),
        ),
    ])
}

fn after_agent() -> HookEvent {
    HookEvent::AfterAgent {
        event: HookEventAfterAgent {
            thread_id: thread(THREAD),
            turn_id: "turn-1".to_string(),
            input_messages: vec!["hello".to_string()],
            last_assistant_message: Some("hi".to_string()),
        },
    }
}

#[test]
fn hook_payload_serializes_stable_wire_shape() {
    let shape = object(vec![
        ("event_type", text("after_agent")),
        ("thread_id", text(THREAD)),
        ("turn_id", text("turn-1")),
        ("input_messages", array(vec![text("hello")])),
        ("last_assistant_message", text("hi")),
    ]);
    assert_eq!(written(&payload(after_agent())), expected(shape));
}

#[test]
fn session_start_payload_serializes_stable_wire_shape() {
    let event = HookEvent::SessionStart {
        event: HookEventSessionStart {
            thread_id: thread(SESSION),
            session_source: "cli".to_string(),
            model: "gpt-5-codex".to_string(),
            model_provider_id: "openai".to_string(),
            approval_policy: "on-request".to_string(),
            sandbox_policy: "workspace-write".to_string(),
        },
    };
    let shape = object(vec![
        ("event_type", text("session_start")),
        ("thread_id", text(SESSION)),
        ("session_source", text("cli")),
        ("model", text("gpt-5-codex")),
        ("model_provider_id", text("openai")),
        ("approval_policy", text("on-request")),
        ("sandbox_policy", text("workspace-write")),
    ]);
    assert_eq!(written(&payload(event)), expected(shape));
}

#[test]
fn after_tool_use_payload_serializes_stable_wire_shape() {
    let event = HookEvent::AfterToolUse {
        event: HookEventAfterToolUse {
            turn_id: "turn-2".to_string(),
            call_id: "call-1".to_string(),
            tool_name: "local_shell".to_string(),
            tool_kind: HookToolKind::LocalShell,
            tool_input: shell_input(),
            executed: true,
            success: true,
            duration_ms: 42,
            mutating: true,
            sandbox: "none".to_string(),
            sandbox_policy: "danger-full-access".to_string(),
            output_preview: "ok".to_string(),
        },
    };
    let shape = object(vec![
        ("event_type", text("after_tool_use")),
        ("turn_id", text("turn-2")),
        ("call_id", text("call-1")),
        ("tool_name", text("local_shell")),
        ("tool_kind", text("local_shell")),
        ("tool_input", shell_input_shape()),
        ("executed", Value::from(true)),
        ("success", Value::from(true)),
        ("duration_ms", Value::from(42)),
        ("mutating", Value::from(true)),
        ("sandbox", text("none")),
        ("sandbox_policy", text("danger-full-access")),
        ("output_preview", text("ok")),
    ]);
    assert_eq!(written(&payload(event)), expected(shape));
}

#[test]
fn tool_use_failure_payload_serializes_stable_wire_shape() {
    let event = HookEvent::ToolUseFailure {
        event: HookEventAfterToolUse {
            turn_id: "turn-fail".to_string(),
            call_id: "call-fail".to_string(),
            tool_name: "local_shell".to_string(),
            tool_kind: HookToolKind::LocalShell,
            tool_input: shell_input(),
            executed: true,
            success: false,
            duration_ms: 42,
            mutating: true,
            sandbox: "none".to_string(),
            sandbox_policy: "danger-full-access".to_string(),
            output_preview: "failed".to_string(),
        },
    };
    let shape = object(vec![
        ("event_type", text("tool_use_failure")),
        ("turn_id", text("turn-fail")),
        ("call_id", text("call-fail")),
        ("tool_name", text("local_shell")),
        ("tool_kind", text("local_shell")),
        ("tool_input", shell_input_shape()),
        ("executed", Value::from(true)),
        ("success", Value::from(false)),
        ("duration_ms", Value::from(42)),
        ("mutating", Value::from(true)),
        ("sandbox", text("none")),
        ("sandbox_policy", text("danger-full-access")),
        ("output_preview", text("failed")),
    ]);
    assert_eq!(written(&payload(event)), expected(shape));
}

#[test]
fn before_tool_use_payload_serializes_stable_wire_shape() {
    let event = HookEvent::BeforeToolUse {
        event: HookEventBeforeToolUse {
            turn_id: "turn-0".to_string(),
            call_id: "call-0".to_string(),
            tool_name: "local_shell".to_string(),
            tool_kind: HookToolKind::LocalShell,
            tool_input: shell_input(),
            mutating: true,
            sandbox: "none".to_string(),
            sandbox_policy: "danger-full-access".to_string(),
        },
    };
    let shape = object(vec![
        ("event_type", text("before_tool_use")),
        ("turn_id", text("turn-0")),
        ("call_id", text("call-0")),
        ("tool_name", text("local_shell")),
        ("tool_kind", text("local_shell")),
        ("tool_input", shell_input_shape()),
        ("mutating", Value::from(true)),
        ("sandbox", text("none")),
        ("sandbox_policy", text("danger-full-access")),
    ]);
    assert_eq!(written(&payload(event)), expected(shape));
}

#[test]
fn user_prompt_submit_payload_serializes_stable_wire_shape() {
    let event = HookEvent::UserPromptSubmit {
        event: HookEventUserPromptSubmit {
            turn_id: "turn-user".to_string(),
            items: vec![UserInput::Text { text: "hello".to_string(), text_elements: Vec::new() }],
            model: "gpt-5-codex".to_string(),
            approval_policy: "on-request".to_string(),
            sandbox_policy: "workspace-write".to_string(),
        },
    };
    let item = object(vec![
        ("type", text("text")),
        ("text", text("hello")),
        ("text_elements", array(Vec::new())),
    ]);
    let shape = object(vec![
        ("event_type", text("user_prompt_submit")),
        ("turn_id", text("turn-user")),
        ("items", array(vec![item])),
        ("model", text("gpt-5-codex")),
        ("approval_policy", text("on-request")),
        ("sandbox_policy", text("workspace-write")),
    ]);
    assert_eq!(written(&payload(event)), expected(shape));
}

#[test]
fn payload_text_keeps_order_and_escapes() {
    let mut told = payload(after_agent());
    told.client = Some("codex-tui \"x\"\n".to_string());
    let bytes = told.to_vec().expect("serialize hook payload");
    let document = String::from_utf8(bytes).expect("UTF-8");
    let parts = [
        "{\"session_id\":\"0194f3a2-7c1e-7d20-9b1a-5a3c6f0e1d2b\",\"cwd\":\"tmp\",",
        "\"client\":\"codex-tui \\\"x\\\"\\n\",\"triggered_at\":\"2025-01-01T00:00:00Z\",",
        "\"hook_event\":{\"event_type\":\"after_agent\",",
        "\"thread_id\":\"0194f3a2-7c1e-7d20-9b1a-0123456789ab\",\"turn_id\":\"turn-1\",",
        "\"input_messages\":[\"hello\"],\"last_assistant_message\":\"hi\"}}",
    ];
    assert_eq!(document, parts.concat());
}

#[test]
fn client_is_left_out_where_unknown() {
    let mut told = payload(HookEvent::CompactStart);
    assert!(written(&told).get("client").is_none());
    told.client = Some("codex-tui".to_string());
    assert_eq!(written(&told).get("client"), Some(&text("codex-tui")));
}

#[test]
fn compact_start_has_only_its_name() {
    let shape = object(vec![("event_type", text("compact_start"))]);
    assert_eq!(written(&payload(HookEvent::CompactStart)), expected(shape));
}

fn approval() -> HookEventApprovalRequested {
    HookEventApprovalRequested {
        turn_id: "turn-a".to_string(),
        approval_id: "approval-a".to_string(),
        kind: HookApprovalKind::ExecCommand,
        call_id: Some("call-a".to_string()),
        reason: Some("need approval".to_string()),
        command: Some(vec!["git".to_string(), "commit".to_string()]),
        cwd: Some(HookPath::from_text("repo")),
        changed_paths: Some(vec![HookPath::from_text("a"), HookPath::from_text("b")]),
        server_name: None,
        request_id: None,
    }
}

#[test]
fn approval_requested_shape() {
    let shape = object(vec![
        ("event_type", text("approval_requested")),
        ("turn_id", text("turn-a")),
        ("approval_id", text("approval-a")),
        ("kind", text("exec_command")),
        ("call_id", text("call-a")),
        ("reason", text("need approval")),
        ("command", array(vec![text("git"), text("commit")])),
        ("cwd", text("repo")),
        ("changed_paths", array(vec![text("a"), text("b")])),
        ("server_name", Value::Null),
        ("request_id", Value::Null),
    ]);
    let event = HookEvent::ApprovalRequested { event: approval() };
    assert_eq!(written(&payload(event)), expected(shape));
}

#[test]
fn subagent_shapes() {
    let start = HookEvent::SubagentStart {
        event: HookEventSubagentStart {
            parent_thread_id: thread(SESSION),
            child_thread_id: thread(THREAD),
            agent_nickname: Some("Scout".to_string()),
            agent_role: None,
            prompt: "look".to_string(),
        },
    };
    let shape = object(vec![
        ("event_type", text("subagent_start")),
        ("parent_thread_id", text(SESSION)),
        ("child_thread_id", text(THREAD)),
        ("agent_nickname", text("Scout")),
        ("agent_role", Value::Null),
        ("prompt", text("look")),
    ]);
    assert_eq!(written(&payload(start)), expected(shape));
    let stop = HookEvent::SubagentStop {
        event: HookEventSubagentStop {
            parent_thread_id: thread(SESSION),
            child_thread_id: thread(THREAD),
            agent_nickname: None,
            agent_role: Some("explorer".to_string()),
            status: "completed".to_string(),
        },
    };
    let shape = object(vec![
        ("event_type", text("subagent_stop")),
        ("parent_thread_id", text(SESSION)),
        ("child_thread_id", text(THREAD)),
        ("agent_nickname", Value::Null),
        ("agent_role", text("explorer")),
        ("status", text("completed")),
    ]);
    assert_eq!(written(&payload(stop)), expected(shape));
}

#[test]
fn tool_inputs_of_every_kind() {
    let cases = vec![
        (
            HookToolKind::Function,
            HookToolInput::Function { arguments: "{}".to_string() },
            "function",
            object(vec![("input_type", text("function")), ("arguments", text("{}"))]),
        ),
        (
            HookToolKind::Custom,
            HookToolInput::Custom { input: "*** Begin Patch".to_string() },
            "custom",
            object(vec![("input_type", text("custom")), ("input", text("*** Begin Patch"))]),
        ),
        (
            HookToolKind::Mcp,
            HookToolInput::Mcp {
                server: "s".to_string(),
                tool: "t".to_string(),
                arguments: "a".to_string(),
            },
            "mcp",
            object(vec![
                ("input_type", text("mcp")),
                ("server", text("s")),
                ("tool", text("t")),
                ("arguments", text("a")),
            ]),
        ),
    ];
    for (tool_kind, tool_input, kind, shape) in cases {
        let event = HookEvent::BeforeToolUse {
            event: HookEventBeforeToolUse {
                turn_id: "t".to_string(),
                call_id: "c".to_string(),
                tool_name: "n".to_string(),
                tool_kind,
                tool_input,
                mutating: false,
                sandbox: "none".to_string(),
                sandbox_policy: "read-only".to_string(),
            },
        };
        let told = written(&payload(event));
        assert_eq!(told["hook_event"]["tool_kind"], text(kind));
        assert_eq!(told["hook_event"]["tool_input"], shape);
        assert_eq!(told["hook_event"]["mutating"], Value::from(false));
    }
}

#[test]
fn other_inputs_are_told_as_they_are() {
    let mut image = JsonObject::new();
    image.insert("type".to_string(), Json::Text("image".to_string()));
    image.insert("size".to_string(), Json::Array(vec![Json::Number(3), Json::Null]));
    image.insert("shown".to_string(), Json::Bool(false));
    image.insert("type".to_string(), Json::Text("local_image".to_string()));
    let event = HookEvent::UserPromptSubmit {
        event: HookEventUserPromptSubmit {
            turn_id: "turn-user".to_string(),
            items: vec![
                UserInput::Other { item: Json::Object(image) },
                UserInput::Text {
                    text: "see @a".to_string(),
                    text_elements: vec![Json::Text("@a".to_string())],
                },
            ],
            model: "m".to_string(),
            approval_policy: "p".to_string(),
            sandbox_policy: "s".to_string(),
        },
    };
    let shape = array(vec![
        object(vec![
            ("type", text("local_image")),
            ("size", array(vec![Value::from(3), Value::Null])),
            ("shown", Value::from(false)),
        ]),
        object(vec![
            ("type", text("text")),
            ("text", text("see @a")),
            ("text_elements", array(vec![text("@a")])),
        ]),
    ]);
    assert_eq!(written(&payload(event))["hook_event"]["items"], shape);
}

#[test]
fn replaced_field_keeps_its_place() {
    let mut fields = JsonObject::new();
    fields.insert("b".to_string(), Json::Number(1));
    fields.insert("a".to_string(), Json::Number(2));
    fields.insert("b".to_string(), Json::Number(u64::MAX));
    let bytes = Json::Object(fields).to_vec();
    assert_eq!(String::from_utf8(bytes).expect("UTF-8"), "{\"b\":18446744073709551615,\"a\":2}");
}

#[test]
fn copied_document_is_the_same() {
    let mut fields = JsonObject::new();
    fields.insert("a".to_string(), Json::Array(vec![Json::Bool(true), Json::Null]));
    let document = Json::Object(fields);
    assert_eq!(document.clone(), document);
    assert_ne!(document, Json::Null);
}

#[test]
fn path_that_is_not_text_is_refused() {
    let mut told = payload(HookEvent::CompactStart);
    told.cwd = HookPath { bytes: vec![b'a', 0xff] };
    let error = told.to_vec().expect_err("not text");
    assert_eq!(error.message, "path contains invalid UTF-8 characters");

    let mut event = approval();
    event.cwd = Some(HookPath { bytes: vec![0x80] });
    let told = payload(HookEvent::ApprovalRequested { event });
    assert_eq!(
        told.to_json().expect_err("not text").message,
        "path contains invalid UTF-8 characters"
    );

    let mut event = approval();
    event.changed_paths = Some(vec![HookPath::from_text("a"), HookPath { bytes: vec![0xc3] }]);
    let told = payload(HookEvent::ApprovalRequested { event });
    assert!(told.to_vec().is_err());
}

#[test]
fn paths_are_text_where_their_bytes_are() {
    let path = HookPath::from_text("Grüße");
    assert_eq!(path.bytes, "Grüße".as_bytes());
    assert_eq!(path.to_text(), Some("Grüße".to_string()));
    assert_eq!(HookPath { bytes: vec![0xff] }.to_text(), None);
    assert_eq!(HookPath { bytes: Vec::new() }.to_text(), Some(String::new()));
}

#[test]
fn timestamps_are_written_to_the_second() {
    let cases = [
        (0, 0, "1970-01-01T00:00:00Z"),
        (1_735_689_600, 999_999_999, "2025-01-01T00:00:00Z"),
        (-1, 0, "1969-12-31T23:59:59Z"),
        // A leap second.
        (1_483_228_799, 1_500_000_000, "2016-12-31T23:59:60Z"),
        (951_782_400, 0, "2000-02-29T00:00:00Z"),
        (-2_203_891_201, 0, "1900-02-28T23:59:59Z"),
        (-2_203_891_200, 0, "1900-03-01T00:00:00Z"),
        (1_735_645_507, 0, "2024-12-31T11:45:07Z"),
        (-62_167_219_200, 0, "0000-01-01T00:00:00Z"),
        (-62_167_219_201, 0, "-0001-12-31T23:59:59Z"),
        (-93_724_128_000, 0, "-1000-01-01T00:00:00Z"),
        (-377_722_396_800, 0, "-10000-06-15T00:00:00Z"),
        (253_402_300_799, 0, "9999-12-31T23:59:59Z"),
        (253_402_300_800, 0, "+10000-01-01T00:00:00Z"),
        (-8_334_601_228_800, 0, "-262143-01-01T00:00:00Z"),
        (8_210_266_876_799, 1_999_999_999, "+262142-12-31T23:59:60Z"),
    ];
    for (seconds, nanos, expected) in cases {
        let instant = Timestamp::new(seconds, nanos).expect("an instant");
        assert_eq!(instant.to_rfc3339(), expected);
    }
}

#[test]
fn timestamps_are_those_of_chrono() {
    let seconds = [
        i64::MIN,
        -8_334_601_228_801,
        -8_334_601_228_800,
        -61,
        -60,
        -2,
        -1,
        0,
        59,
        60,
        8_210_266_876_798,
        8_210_266_876_799,
        8_210_266_876_800,
        i64::MAX,
    ];
    for second in seconds {
        for nanos in [0, 999_999_999, 1_000_000_000, 1_999_999_999, 2_000_000_000, u32::MAX] {
            let known = chrono::DateTime::from_timestamp(second, nanos);
            assert_eq!(Timestamp::new(second, nanos).is_some(), known.is_some());
        }
    }
}

#[test]
fn instant_is_written_as_given() {
    let told = payload(HookEvent::CompactStart);
    let document = told.to_json_at("now".to_string()).expect("JSON");
    let value: Value = serde_json::from_slice(&document.to_vec()).expect("JSON");
    assert_eq!(value["triggered_at"], text("now"));
}

#[test]
fn events_are_told_by_their_names() {
    assert_eq!(HookEvent::CompactStart.event_type(), "compact_start");
    assert_eq!(after_agent().event_type(), "after_agent");
    assert_ne!(after_agent().event_type(), HookEvent::CompactStart.event_type());
}

fn instant_text(seconds: i64, nanos: u32) -> String {
    Timestamp::new(seconds, nanos).expect("an instant").to_rfc3339()
}

#[test]
fn fractions_of_a_second_are_cut_off() {
    for seconds in [-62_167_219_200, -1, 0, 1_483_228_799, 253_402_300_799, 8_210_266_876_799] {
        let whole = instant_text(seconds, 0);
        assert_eq!(instant_text(seconds, 1), whole);
        assert_eq!(instant_text(seconds, 500_000_000), whole);
        assert_eq!(instant_text(seconds, 999_999_999), whole);
    }
}

#[test]
fn later_instants_never_read_smaller() {
    // About every 97 days, over the years 0 to 9999.
    let mut before = instant_text(-62_167_219_200, 0);
    let mut seconds = -62_167_219_200 + 8_381_603;
    while seconds <= 253_402_300_799 {
        let text = instant_text(seconds, 0);
        assert_eq!(text.len(), 20);
        assert!(text.ends_with('Z'));
        assert!(before < text);
        before = text;
        seconds += 8_381_603;
    }
    // A leap second lies between the second before it and the next minute.
    let leap = instant_text(1_483_228_799, 1_000_000_000);
    assert!(instant_text(1_483_228_799, 999_999_999) < leap);
    assert!(leap < instant_text(1_483_228_800, 0));
}
