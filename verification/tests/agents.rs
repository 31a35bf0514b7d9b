use mobailmux::composer::{
    command_arg, discover_codex_plugin_suggestions, discover_codex_skill_suggestions,
    looks_like_agent_control_request, normalize_agent_command_text, SkillFile,
};
use mobailmux::control::{apply_agent_run_settings, validate_agent_run_settings};
use mobailmux::harness::AgentHarness;
use mobailmux::html::json_for_inline_script;
use mobailmux::runtime::build_agent_prompt;
use mobailmux::shared::{agent_command_label, agent_execution_mode_html, Config};
use mobailmux::types::{
    AgentMessageRow, AgentRunSettings, AgentSlotRow, CodexModel, CodexReasoningEffort,
};
use mobailmux::views::{agent_messages_html, message_body_html};

fn test_message(role: &str, body: &str) -> AgentMessageRow {
    AgentMessageRow {
        id: 1,
        role: role.into(),
        body: body.into(),
        created_at: "2026-06-29T12:00:00Z".into(),
    }
}

#[test]
fn slash_command_prefixes_autocorrect_when_unambiguous() {
    assert_eq!(normalize_agent_command_text("go ship it"), "goal ship it");
    assert_eq!(normalize_agent_command_text("mod"), "model");
    assert_eq!(normalize_agent_command_text("sta"), "status");
}

#[test]
fn agent_run_settings_only_accept_catalog_options() {
    let models = vec![CodexModel {
        model: "gpt-test".into(),
        display_name: "GPT Test".into(),
        description: String::new(),
        default_reasoning_effort: "medium".into(),
        supported_reasoning_efforts: vec![
            CodexReasoningEffort {
                effort: "low".into(),
                description: String::new(),
            },
            CodexReasoningEffort {
                effort: "high".into(),
                description: String::new(),
            },
        ],
        is_default: true,
    }];

    let settings = validate_agent_run_settings(&models, "gpt-test", "high");
    assert_eq!(settings.model.as_deref(), Some("gpt-test"));
    assert_eq!(settings.reasoning_effort.as_deref(), Some("high"));
    assert_eq!(
        validate_agent_run_settings(&models, "gpt-test", "ultra").reasoning_effort,
        None
    );
    assert_eq!(
        validate_agent_run_settings(&models, "other", "high"),
        AgentRunSettings::default()
    );

    let mut args: Vec<String> = Vec::new();
    apply_agent_run_settings(&mut args, &settings, AgentHarness::Pi);
    assert_eq!(args, vec!["--model", "gpt-test", "--thinking", "high"]);
}

fn label_config() -> Config {
    Config {
        bind: "127.0.0.1:0".into(),
        db_path: String::new(),
        agent_default_workdir: String::new(),
        default_harness: AgentHarness::Pi,
        pi_bin: "/usr/local/bin/pi".into(),
        pi_args: vec!["--approve".into()],
        opencode_bin: "/usr/local/bin/opencode".into(),
        opencode_args: vec!["--auto".into()],
        agent_progress_notes: false,
        legacy_codex_bin: "codex".into(),
        legacy_codex_args: Vec::new(),
        legacy_codex_home: String::new(),
        legacy_codex_reset_command: None,
        agent_slots: Vec::new(),
        user: "mobailmux".into(),
        password_hash: None,
        cookie_secret: vec![2u8; 32],
        auth_disabled: true,
    }
}

#[test]
fn harness_command_labels_are_explicit() {
    let config = label_config();
    assert_eq!(
        agent_command_label(&config, AgentHarness::Pi),
        "/usr/local/bin/pi --approve"
    );
    assert!(agent_execution_mode_html(&config, AgentHarness::OpenCode).contains("OpenCode"));
}

#[test]
fn inline_script_json_escapes_html_terminators() {
    let json = json_for_inline_script(r#"{"name":"</script>&"}"#);
    assert!(!json.contains("</script>"));
    assert!(json.contains("\\u003c/script\\u003e\\u0026"));
}

#[test]
fn agent_prompt_uses_plain_request_without_slot_context_by_default() {
    let slot = AgentSlotRow {
        id: 1,
        name: "codex".into(),
        workdir: "/work/app".into(),
        goal: String::new(),
        harness: AgentHarness::Pi,
    };

    let prompt = build_agent_prompt(&slot, "fix the bug", false);

    assert_eq!(prompt, "fix the bug");
    assert!(!prompt.contains("Mobailmux"));
    assert!(!prompt.contains("User request:"));
}

#[test]
fn agent_prompt_includes_slot_goal_and_optional_progress_notes() {
    let slot = AgentSlotRow {
        id: 1,
        name: "codex".into(),
        workdir: "/work/app".into(),
        goal: "Keep the app deployable.".into(),
        harness: AgentHarness::Pi,
    };

    let prompt = build_agent_prompt(&slot, "fix the bug", false);

    assert!(prompt.contains("Current slot goal:\nKeep the app deployable."));
    assert!(prompt.ends_with("fix the bug"));
    assert!(!prompt.contains("User request:"));
    let prompt_with_progress = build_agent_prompt(&slot, "fix the bug", true);
    assert!(prompt_with_progress.contains("aiprogress 'message'"));
}

#[test]
fn agent_messages_group_command_activity() {
    let messages = vec![
        test_message("assistant", "Done with the requested change."),
        test_message("assistant", "running: `/bin/bash -lc 'cargo test'`"),
        test_message("assistant", "running: `/bin/bash -lc 'cargo fmt'`"),
        test_message("assistant", "codex started in `/work/app`."),
        test_message("user", "please fix this"),
    ];

    let html = agent_messages_html(&messages);

    assert_eq!(html.matches("message-activity").count(), 1);
    assert_eq!(html.matches("tool-fold").count(), 1);
    assert!(html.contains(r#"data-fold-key="activity-1""#));
    assert!(html.contains("3 events"));
    assert_eq!(html.matches("tool-row-run").count(), 2);
    assert!(html.contains("message-user"));
    assert!(html.contains("message-assistant"));
    assert!(
        html.find("message-user").unwrap() < html.find("message-activity").unwrap()
            && html.find("message-activity").unwrap() < html.find("Done with").unwrap()
    );
}

#[test]
fn agent_messages_keep_progress_notes_outside_activity_folds() {
    let messages = vec![
        test_message("assistant", "Done."),
        test_message("assistant", "running: `/bin/bash -lc 'cargo test'`"),
        test_message("assistant", "note: finished investigation"),
        test_message("assistant", "running: `/bin/bash -lc 'rg bug'`"),
        test_message("assistant", "codex started in `/work/app`."),
        test_message("user", "please fix this"),
    ];

    let html = agent_messages_html(&messages);

    assert_eq!(html.matches("message-activity").count(), 2);
    assert_eq!(html.matches("tool-fold").count(), 2);
    assert!(html.contains("note: finished investigation"));
    let first_activity = html.find("message-activity").unwrap();
    let note = html.find("note: finished investigation").unwrap();
    let second_activity = html.rfind("message-activity").unwrap();
    assert!(first_activity < note && note < second_activity);
}

#[test]
fn agent_messages_render_markdown_code_blocks_with_copy() {
    let html = agent_messages_html(&[test_message(
        "assistant",
        "Run this:\n\n```bash\ncargo test\n```",
    )]);

    assert!(html.contains(r#"<div class="message-content">"#));
    assert!(html.contains(r#"<div class="message-code">"#));
    assert!(html.contains(r#"data-copy-code"#));
    assert!(html.contains(r#"class="language-bash""#));
    assert!(html.contains("cargo test"));
    assert!(!html.contains("```bash"));
}

#[test]
fn agent_messages_accept_single_quote_code_fences() {
    let html = message_body_html("Run this:\n\n'''bash\ncargo test\n'''\n");

    assert!(html.contains(r#"<div class="message-code">"#));
    assert!(html.contains("cargo test"));
    assert!(!html.contains("'''bash"));
}

#[test]
fn agent_markdown_escapes_raw_html() {
    let html = message_body_html("<script>alert(1)</script>\n\n`safe`");

    assert!(!html.contains("<script>"));
    assert!(html.contains("&lt;script&gt;alert(1)&lt;/script&gt;"));
    assert!(html.contains("<code>safe</code>"));
}

#[test]
fn prefixed_messages_are_control_requests() {
    assert!(looks_like_agent_control_request("/status"));
    assert!(looks_like_agent_control_request("!stop"));
    assert!(looks_like_agent_control_request("/unknown"));
    assert!(!looks_like_agent_control_request("fix the app"));
}

#[test]
fn composer_suggestions_include_skills_and_plugins() {
    // What the walk of the Codex home finds: a skill of its own, and a skill
    // inside a plugin whose manifest names the plugin.
    let manifest = r#"{"name":"github","description":"GitHub workflows"}"#;
    let files = vec![
        SkillFile {
            dir_name: Some("repo-starter".into()),
            plugin_manifest: None,
            text: Some("---\nname: repo-starter\ndescription: Start repos safely.\n---\n".into()),
        },
        SkillFile {
            dir_name: Some("yeet".into()),
            plugin_manifest: Some(Some(manifest.into())),
            text: Some("---\nname: yeet\ndescription: Publish changes.\n---\n".into()),
        },
    ];
    let manifests = vec![Some(manifest.to_string())];

    let skills = discover_codex_skill_suggestions(&files);
    let plugins = discover_codex_plugin_suggestions(&manifests);

    assert!(skills.iter().any(|item| item.insert == "$repo-starter"));
    assert!(skills.iter().any(|item| item.insert == "$github:yeet"));
    assert!(plugins.iter().any(|item| item.insert == "#github"));
}

#[test]
fn command_arguments_follow_the_command_word() {
    assert_eq!(command_arg(" GOAL  ship it ", "goal"), Some("ship it".to_string()));
    assert_eq!(command_arg("goal", "goal"), Some(String::new()));
    assert_eq!(command_arg("goals x", "goal"), None);
    assert_eq!(command_arg("go", "goal"), None);
    assert_eq!(command_arg("ÉTAPE un", "Étape"), Some("un".to_string()));
    assert_eq!(command_arg("étape un", "Étape"), None);
}
