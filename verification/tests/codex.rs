use mobailmux::api::{
    codex_models_from_payload, codex_rate_window, codex_reset_credits_summary,
    codex_usage_from_payload,
};
use mobailmux::codex::{codex_conversation_from_lines, codex_transcript_messages, CodexThreadName};
use mobailmux::harness::AgentHarness;
use mobailmux::jobs::{codex_stdout_agent_message, harness_session_id, harness_stdout_agent_message};

fn lines_of(text: &str) -> Vec<String> {
    text.lines().map(|line| line.to_string()).collect()
}

fn percent(text: &Option<String>) -> f64 {
    text.as_deref().map(|t| t.parse::<f64>().unwrap()).unwrap_or(0.0)
}

#[test]
fn codex_conversation_parser_uses_index_title_and_visible_messages() {
    let path = "/tmp/mobailmux-test/rollout-2026-06-23T09-24-22-thread-1.jsonl";
    let lines = lines_of(
        r#"{"timestamp":"2026-06-23T07:24:22Z","type":"session_meta","payload":{"id":"thread-1","cwd":"/work/app","timestamp":"2026-06-23T07:24:22Z"}}
{"timestamp":"2026-06-23T07:24:23Z","type":"response_item","payload":{"type":"message","role":"developer","content":[{"type":"input_text","text":"secret instructions"}]}}
{"timestamp":"2026-06-23T07:24:24Z","type":"response_item","payload":{"type":"message","role":"user","content":[{"type":"input_text","text":"load this project"}]}}
{"timestamp":"2026-06-23T07:24:25Z","type":"response_item","payload":{"type":"message","role":"assistant","content":[{"type":"output_text","text":"done"}]}}
"#,
    );
    let names = vec![CodexThreadName {
        id: "thread-1".into(),
        title: "Indexed title".into(),
        updated_at: "2026-06-23T07:30:00Z".into(),
    }];
    let conversation =
        codex_conversation_from_lines(path, &lines, &names, "2026-06-23T07:24:25Z").unwrap();
    assert_eq!(conversation.title, "Indexed title");

    let messages = codex_transcript_messages(&lines);
    assert_eq!(messages.len(), 2);
    assert_eq!(messages[0].role, "assistant");
    assert_eq!(messages[1].role, "user");
}

#[test]
fn codex_conversation_parser_filters_synthetic_codex_context() {
    let path = "/tmp/mobailmux-test/rollout-2026-06-23T09-24-22-thread-2.jsonl";
    let lines = lines_of(
        r##"{"timestamp":"2026-06-23T07:24:22Z","type":"session_meta","payload":{"id":"thread-2","cwd":"/work/app","timestamp":"2026-06-23T07:24:22Z"}}
{"timestamp":"2026-06-23T07:24:23Z","type":"response_item","payload":{"type":"message","role":"user","content":[{"type":"input_text","text":"# AGENTS.md instructions for /work/app"}]}}
{"timestamp":"2026-06-23T07:24:24Z","type":"response_item","payload":{"type":"message","role":"user","content":[{"type":"input_text","text":"fix mobailmux loading"}]}}
{"timestamp":"2026-06-23T07:24:25Z","type":"response_item","payload":{"type":"message","role":"assistant","content":[{"type":"output_text","text":"done"}]}}
"##,
    );
    let names = vec![CodexThreadName {
        id: "thread-2".into(),
        title: "# AGENTS.md instructions for /work/app".into(),
        updated_at: "2026-06-23T07:30:00Z".into(),
    }];
    let conversation =
        codex_conversation_from_lines(path, &lines, &names, "2026-06-23T07:24:25Z").unwrap();
    assert_eq!(conversation.title, "fix mobailmux loading");

    let messages = codex_transcript_messages(&lines);
    assert_eq!(messages.len(), 2);
    assert_eq!(messages[0].role, "assistant");
    assert_eq!(messages[1].role, "user");
}

#[test]
fn codex_conversation_parser_reads_event_messages_without_duplicates() {
    let path = "/tmp/mobailmux-test/rollout-2026-06-23T09-24-22-thread-3.jsonl";
    let lines = lines_of(
        r#"{"timestamp":"2026-06-23T07:24:22Z","type":"session_meta","payload":{"id":"thread-3","cwd":"/work/app","timestamp":"2026-06-23T07:24:22Z"}}
{"timestamp":"2026-06-23T07:24:23.000Z","type":"event_msg","payload":{"type":"user_message","message":"fix the web chat"}}
{"timestamp":"2026-06-23T07:24:23.001Z","type":"response_item","payload":{"type":"message","role":"user","content":[{"type":"input_text","text":"fix the web chat"}]}}
{"timestamp":"2026-06-23T07:24:24Z","type":"event_msg","payload":{"type":"agent_message","message":"I am checking the UI now.","phase":"commentary"}}
{"timestamp":"2026-06-23T07:24:25Z","type":"event_msg","payload":{"type":"agent_message","message":"Done.","phase":"final_answer"}}
"#,
    );
    let conversation =
        codex_conversation_from_lines(path, &lines, &Vec::new(), "2026-06-23T07:24:25Z").unwrap();
    assert_eq!(conversation.title, "fix the web chat");

    let messages = codex_transcript_messages(&lines);
    assert_eq!(messages.len(), 3);
    assert_eq!(messages[0].body, "Done.");
    assert_eq!(messages[1].body, "I am checking the UI now.");
    assert_eq!(messages[2].body, "fix the web chat");
}

#[test]
fn codex_conversation_parser_marks_interrupted_transcripts() {
    let lines = lines_of(
        r#"{"timestamp":"2026-06-23T07:24:22Z","type":"session_meta","payload":{"id":"thread-4","cwd":"/work/app","timestamp":"2026-06-23T07:24:22Z"}}
{"timestamp":"2026-06-23T07:24:23.000Z","type":"event_msg","payload":{"type":"user_message","message":"fix the web chat"}}
{"timestamp":"2026-06-23T07:24:24Z","type":"event_msg","payload":{"type":"agent_message","message":"I am checking the UI now.","phase":"commentary"}}
"#,
    );

    let messages = codex_transcript_messages(&lines);
    assert_eq!(messages.len(), 3);
    assert!(messages[0]
        .body
        .contains("ended before Codex returned a final answer"));
    assert_eq!(messages[1].body, "I am checking the UI now.");
    assert_eq!(messages[2].body, "fix the web chat");
}

#[test]
fn codex_stdout_agent_message_reads_commentary_and_final_text() {
    let commentary = r#"{"type":"event_msg","payload":{"type":"agent_message","message":"checking layout","phase":"commentary"}}"#;
    assert_eq!(
        codex_stdout_agent_message(commentary),
        Some(("checking layout".into(), false))
    );

    let final_answer = r#"{"type":"agent_message","message":"fixed","phase":"final_answer"}"#;
    assert_eq!(
        codex_stdout_agent_message(final_answer),
        Some(("fixed".into(), true))
    );
}

#[test]
fn codex_usage_parser_reads_rate_limits() {
    let payload = r#"{"type":"token_count","info":{"total_token_usage":{"total_tokens":619644,"cached_input_tokens":528640},"last_token_usage":{"total_tokens":109315},"model_context_window":258400},"rate_limits":{"primary":{"used_percent":14.0,"window_minutes":300,"resets_at":1782210186},"secondary":{"used_percent":38.0,"window_minutes":10080,"resets_at":1782380596},"rate_limit_reset_credits":{"available_count":2},"credits":null,"plan_type":"prolite"}}"#;
    let usage = codex_usage_from_payload("2026-06-23T07:29:57Z", payload);
    assert_eq!(usage.plan_type, "prolite");
    assert_eq!(usage.total_units, 619644);
    assert_eq!(usage.last_units, 109315);
    assert_eq!(100.0 - percent(&usage.primary.unwrap().used_percent), 86.0);
    assert_eq!(100.0 - percent(&usage.secondary.unwrap().used_percent), 62.0);
    assert_eq!(usage.reset_credits.unwrap().available_count, 2);

    let window = r#"{"usedPercent":35,"windowDurationMins":300,"resetsAt":1782210186}"#;
    let window = codex_rate_window("Primary", Some(window)).unwrap();
    assert_eq!(percent(&window.used_percent), 35.0);
    assert_eq!(window.window_minutes, 300);
    assert_eq!(window.resets_at, Some(1782210186));

    let reset_credits = r#"{"availableCount":1,"credits":[{"status":"available","title":"Full reset (Weekly + 5 hr)","expiresAt":1785527935}]}"#;
    let summary = codex_reset_credits_summary(Some(reset_credits)).unwrap();
    assert_eq!(summary.available_count, 1);
    assert_eq!(summary.credits.len(), 1);
    assert_eq!(summary.credits[0].expires_at, Some(1785527935));
}

#[test]
fn harness_json_parsers_keep_sessions_and_final_text() {
    let pi_session = r#"{"type":"session","id":"pi-session"}"#;
    let pi_message = r#"{"type":"message_end","message":{"role":"assistant","content":[{"type":"text","text":"Pi done"}]}}"#;
    assert_eq!(
        harness_session_id(AgentHarness::Pi, pi_session).as_deref(),
        Some("pi-session")
    );
    assert_eq!(
        harness_stdout_agent_message(AgentHarness::Pi, pi_message),
        Some(("Pi done".into(), true))
    );

    let opencode_message = r#"{"type":"text","sessionID":"oc-session","part":{"text":"OpenCode done","metadata":{"openai":{"phase":"final_answer"}}}}"#;
    assert_eq!(
        harness_session_id(AgentHarness::OpenCode, opencode_message).as_deref(),
        Some("oc-session")
    );
    assert_eq!(
        harness_stdout_agent_message(AgentHarness::OpenCode, opencode_message),
        Some(("OpenCode done".into(), true))
    );
}

#[test]
fn codex_model_catalog_keeps_supported_thinking_levels() {
    let payload = r#"{"data":[{"model":"gpt-test","displayName":"GPT Test","description":"Test model","isDefault":true,"defaultReasoningEffort":"medium","supportedReasoningEfforts":[{"reasoningEffort":"low","description":"Fast"},{"reasoningEffort":"medium","description":"Balanced"},{"reasoningEffort":"high","description":"Deep"}]}]}"#;

    let models = codex_models_from_payload(payload);

    assert_eq!(models.len(), 1);
    assert_eq!(models[0].model, "gpt-test");
    assert_eq!(models[0].default_reasoning_effort, "medium");
    assert_eq!(
        models[0]
            .supported_reasoning_efforts
            .iter()
            .map(|effort| effort.effort.as_str())
            .collect::<Vec<_>>(),
        vec!["low", "medium", "high"]
    );
}
