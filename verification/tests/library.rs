use mobailmux::views::{markdown_event, HtmlEvent, MdEvent};
use mobailmux::web::{project_first_task, project_harness};
use mobailmux::jobs::{job_start, run_exit, spawn_failed_text, JobStart};
use mobailmux::composer::normalize_agent_command_text;
use mobailmux::shared::normalize_agent_slot_name;
use argon2::password_hash::SaltString;
use argon2::{Argon2, PasswordHasher};
use base64::Engine;
use mobailmux::api::{codex_usage_from_payload, CodexRateWindow};
use mobailmux::auth::{
    authorized_at, login_body, make_session_cookie_at, password_digest, session_signature,
    verify_password, verify_session_cookie_at, SESSION_SECONDS,
};
use mobailmux::cli::{cli_command, password_from_input, reads_password_from_stdin, CliCommand};
use mobailmux::codex::{
    dedupe_codex_visible_messages, same_codex_visible_message_near, CodexConversation,
    CodexVisibleMessage,
};
use mobailmux::commands::{agent_control, agent_control_request_ok, AgentControl};
use mobailmux::config::{config_from_env_values, ConfigEnv, ConfigError};
use mobailmux::dashboard::{
    app_server_input, app_server_reset_outcome, app_server_result, app_server_script,
    consume_request, latest_codex_usage, rate_limits_request, str_less,
};
use mobailmux::harness::AgentHarness;
use mobailmux::html::html_escape;
use mobailmux::jobs::{agent_outcome_text, AgentStdoutSummary, RunExit};
use mobailmux::listing::order_conversations;
use mobailmux::runtime::{progress_dir_name, shell_single_quote};
use mobailmux::shared::{truncate_text, AgentSlotSeed, Config};
use mobailmux::slots::{agent_slot_seed_plan, next_agent_slot_name};
use mobailmux::time::{compact_local_time, format_epoch_date_at, short_time_at};
use mobailmux::types::{AgentMessageRow, AgentSlotRow};
use mobailmux::usage::{
    codex_reset_confirmed, codex_reset_reply, codex_usage_dialog_at, codex_usage_text_at,
    usage_window_card_at, ResetReply,
};
use mobailmux::terminal::{terminal_reply, terminal_request, TerminalRequest};
use mobailmux::codex::codex_transcript_html;
use mobailmux::web::{
    agent_message_route, interrupted_run_notice, message_action, project_form_location, MessageAction,
    MessageRoute,
};

const NOW: i64 = 1_782_000_000;

fn base_config(password_hash: Option<String>, auth_disabled: bool) -> Config {
    Config {
        bind: "127.0.0.1:0".into(),
        db_path: String::new(),
        agent_default_workdir: "/work".into(),
        default_harness: AgentHarness::Pi,
        pi_bin: "pi".into(),
        pi_args: vec!["--approve".into()],
        opencode_bin: "opencode".into(),
        opencode_args: vec!["--auto".into()],
        agent_progress_notes: false,
        legacy_codex_bin: "codex".into(),
        legacy_codex_args: Vec::new(),
        legacy_codex_home: String::new(),
        legacy_codex_reset_command: None,
        agent_slots: Vec::new(),
        user: "mobailmux".into(),
        password_hash,
        cookie_secret: vec![9u8; 32],
        auth_disabled,
    }
}

fn sha_hash(password: &str) -> String {
    let salt = [3u8; 16];
    format!(
        "sha256:{}:{}",
        hex::encode(salt),
        hex::encode(password_digest(&salt, password))
    )
}

fn slot_row(name: &str) -> AgentSlotRow {
    AgentSlotRow {
        id: 4,
        name: name.into(),
        workdir: "/work/app".into(),
        goal: String::new(),
        harness: AgentHarness::Pi,
    }
}

fn empty_env() -> ConfigEnv {
    ConfigEnv {
        bind: None,
        db: None,
        agent_default_workdir: None,
        default_harness: None,
        pi_bin: None,
        pi_args: None,
        opencode_bin: None,
        opencode_args: None,
        agent_progress_notes: None,
        legacy_codex_bin: None,
        legacy_codex_args: None,
        legacy_codex_home: None,
        agent_slots: None,
        user: None,
        password_hash: None,
        auth_disabled: None,
        cookie_secret: None,
    }
}

fn conversation(id: &str, updated_at: &str) -> CodexConversation {
    CodexConversation {
        id: id.into(),
        title: id.into(),
        updated_at: updated_at.into(),
        path: format!("/tmp/{id}.jsonl"),
    }
}

#[test]
fn sha256_digest_matches_known_vector() {
    assert_eq!(
        hex::encode(password_digest(b"", "abc")),
        "ba7816bf8f01cfea414140de5dae2223b00361a396177a9cb410ff61f20015ad"
    );
}

#[test]
fn sha256_hash_accepts_uppercase_hex_and_refuses_bad_forms() {
    let config = base_config(Some(sha_hash("secret").to_uppercase().replace("SHA256", "sha256")), false);
    assert!(verify_password(&config, "secret"));
    let odd = base_config(Some("sha256:abc:00".into()), false);
    assert!(!verify_password(&odd, "secret"));
    let unknown = base_config(Some("md5:00:00".into()), false);
    assert!(!verify_password(&unknown, "secret"));
    let none = base_config(None, false);
    assert!(!verify_password(&none, "secret"));
}

#[test]
fn argon2_hash_is_verified() {
    let salt = SaltString::encode_b64(&[7u8; 16]).unwrap();
    let hash = Argon2::default()
        .hash_password(b"secret", &salt)
        .unwrap()
        .to_string();
    let config = base_config(Some(hash), false);
    assert!(verify_password(&config, "secret"));
    assert!(!verify_password(&config, "wrong"));
}

#[test]
fn session_cookie_round_trips_until_it_expires() {
    let config = base_config(Some(sha_hash("secret")), false);
    let cookie = make_session_cookie_at(&config, NOW);
    assert!(cookie.ends_with("; Max-Age=2592000; Path=/; HttpOnly; SameSite=Lax"));
    let pair = cookie.split(';').next().unwrap().to_string();
    let value = pair.split_once('=').unwrap().1.to_string();
    assert!(value.starts_with(&format!("{}:", NOW + SESSION_SECONDS)));
    assert!(verify_session_cookie_at(&config, &value, NOW));
    assert!(verify_session_cookie_at(&config, &value, NOW + SESSION_SECONDS));
    assert!(!verify_session_cookie_at(&config, &value, NOW + SESSION_SECONDS + 1));
    let header = format!("theme=dark; {pair}");
    assert!(authorized_at(&config, None, Some(&header), NOW));
    assert!(!authorized_at(&config, None, Some("theme=dark"), NOW));
    let other = base_config(Some(sha_hash("secret")), false);
    let mut other = other;
    other.cookie_secret = vec![1u8; 32];
    assert!(!verify_session_cookie_at(&other, &value, NOW));
}

#[test]
fn session_signature_is_hex_of_the_expiry() {
    let config = base_config(None, true);
    let a = session_signature(&config, 10);
    let b = session_signature(&config, 11);
    assert_eq!(a.len(), 64);
    assert!(a.chars().all(|c| c.is_ascii_hexdigit()));
    assert_ne!(a, b);
}

#[test]
fn basic_credentials_authorize() {
    let config = base_config(Some(sha_hash("secret")), false);
    let good = format!(
        "Basic {}",
        base64::engine::general_purpose::STANDARD.encode("mobailmux:secret")
    );
    assert!(authorized_at(&config, Some(&good), None, NOW));
    let wrong_user = format!(
        "Basic {}",
        base64::engine::general_purpose::STANDARD.encode("root:secret")
    );
    assert!(!authorized_at(&config, Some(&wrong_user), None, NOW));
    let not_utf8 = format!(
        "Basic {}",
        base64::engine::general_purpose::STANDARD.encode([0xffu8, b':', b'x'])
    );
    assert!(!authorized_at(&config, Some(&not_utf8), None, NOW));
    assert!(!authorized_at(&config, Some("Basic !!!"), None, NOW));
}

#[test]
fn disabled_auth_lets_every_request_through() {
    let config = base_config(None, true);
    assert!(authorized_at(&config, None, None, NOW));
    assert!(verify_password(&config, "anything"));
}

#[test]
fn login_page_says_when_the_password_was_wrong() {
    assert!(login_body(true).contains("<p class=\"error\">Wrong password.</p>"));
    assert!(!login_body(false).contains("Wrong password."));
    assert!(login_body(false).contains("<form action=\"/login\" method=\"post\">"));
}

#[test]
fn settings_default_and_refuse_missing_password_hash() {
    let mut env = empty_env();
    assert_eq!(
        config_from_env_values(&env, "/home/me", vec![5u8; 32]).err(),
        Some(ConfigError::PasswordHashRequired)
    );
    assert_eq!(
        ConfigError::PasswordHashRequired.message(),
        "MOBAILMUX_PASSWORD_HASH is required unless MOBAILMUX_AUTH_DISABLED=1"
    );
    env.password_hash = Some("   ".into());
    assert!(config_from_env_values(&env, "/home/me", vec![5u8; 32]).is_err());
    env.auth_disabled = Some("yes".into());
    let config = config_from_env_values(&env, "/home/me", vec![5u8; 32]).unwrap();
    assert_eq!(config.bind, "127.0.0.1:8765");
    assert_eq!(config.db_path, "data/mobailmux.sqlite");
    assert_eq!(config.agent_default_workdir, "/home/me");
    assert_eq!(config.default_harness, AgentHarness::Pi);
    assert_eq!(config.pi_args, vec!["--approve".to_string()]);
    assert_eq!(config.opencode_args, vec!["--auto".to_string()]);
    assert_eq!(config.legacy_codex_home, "/home/me/.codex");
    assert_eq!(config.user, "mobailmux");
    assert_eq!(config.password_hash, None);
    assert_eq!(config.cookie_secret, vec![5u8; 32]);
    assert_eq!(config.agent_slots.len(), 1);
    assert_eq!(config.agent_slots[0].name, "codex");
    assert!(config.auth_disabled);
}

#[test]
fn settings_read_their_environment_values() {
    let mut env = empty_env();
    env.password_hash = Some("sha256:00:00".into());
    env.default_harness = Some(" OpenCode ".into());
    env.agent_default_workdir = Some("~/src".into());
    env.pi_args = Some("--a  --b".into());
    env.cookie_secret = Some(format!(" {} ", hex::encode([7u8; 32])));
    let config = config_from_env_values(&env, "/home/me", vec![5u8; 32]).unwrap();
    assert_eq!(config.default_harness, AgentHarness::OpenCode);
    assert_eq!(config.agent_default_workdir, "/home/me/src");
    assert_eq!(config.pi_args, vec!["--a".to_string(), "--b".to_string()]);
    assert_eq!(config.cookie_secret, vec![7u8; 32]);
    assert_eq!(config.password_hash.as_deref(), Some("sha256:00:00"));

    env.default_harness = Some("codex".into());
    env.cookie_secret = Some(hex::encode([7u8; 16]));
    let config = config_from_env_values(&env, "/home/me", vec![5u8; 32]).unwrap();
    assert_eq!(config.default_harness, AgentHarness::Pi);
    assert_eq!(config.cookie_secret, vec![5u8; 32]);
}

#[test]
fn command_line_picks_the_command() {
    assert_eq!(cli_command(&Vec::new()), CliCommand::Serve);
    assert_eq!(cli_command(&vec!["hash-password".into()]), CliCommand::HashPassword);
    assert_eq!(cli_command(&vec!["audit-public".into()]), CliCommand::AuditPublic);
    assert_eq!(cli_command(&vec!["bogus".into()]), CliCommand::Usage);
    assert!(reads_password_from_stdin(&vec!["x".into(), "--stdin".into()]));
    assert!(!reads_password_from_stdin(&vec!["--stdin=1".into()]));
    assert_eq!(password_from_input("pw with space \r\n\n"), "pw with space ");
}

#[test]
fn next_slot_name_is_free_and_numbered() {
    let existing = vec!["codex".to_string(), "codex-2".to_string()];
    assert_eq!(next_agent_slot_name("codex", &existing).as_deref(), Some("codex-3"));
    assert_eq!(next_agent_slot_name("fresh", &existing).as_deref(), Some("fresh"));
    let long = "a".repeat(40);
    let name = next_agent_slot_name(&long, &vec!["a".repeat(32)]).unwrap();
    assert_eq!(name, format!("{}-2", "a".repeat(30)));
}

#[test]
fn slot_seeds_default_to_codex() {
    let plan = agent_slot_seed_plan(&Vec::new(), "/work");
    assert_eq!(plan.len(), 1);
    assert_eq!(plan[0].name, "codex");
    assert_eq!(plan[0].workdir, "/work");
    let seeds = vec![AgentSlotSeed { name: "a".into(), workdir: "/a".into() }];
    let plan = agent_slot_seed_plan(&seeds, "/work");
    assert_eq!(plan.len(), 1);
    assert_eq!(plan[0].workdir, "/a");
}

#[test]
fn conversations_are_listed_newest_first() {
    let list = vec![
        conversation("a", "2026-01-01T00:00:00Z"),
        conversation("b", "2026-03-01T00:00:00Z"),
        conversation("c", "2026-01-01T00:00:00Z"),
        conversation("d", "2026-02-01T00:00:00Z"),
    ];
    let ordered = order_conversations(&list);
    let ids: Vec<&str> = ordered.iter().map(|c| c.id.as_str()).collect();
    assert_eq!(ids, vec!["b", "d", "a", "c"]);

    let many: Vec<CodexConversation> = (0..130)
        .map(|i| conversation(&format!("t{i:03}"), &format!("2026-01-01T00:{:02}:{:02}Z", i / 60, i % 60)))
        .collect();
    let ordered = order_conversations(&many);
    assert_eq!(ordered.len(), 120);
    assert_eq!(ordered[0].id, "t129");
    assert_eq!(ordered[119].id, "t010");
}

#[test]
fn text_order_is_code_point_order() {
    assert!(str_less("a", "b"));
    assert!(str_less("a", "ab"));
    assert!(!str_less("ab", "a"));
    assert!(!str_less("same", "same"));
    assert!(str_less("Z", "a"));
    assert!(str_less("é", "😀"));
}

#[test]
fn latest_usage_comes_from_the_newest_token_count() {
    let first = vec![
        "not json".to_string(),
        r#"{"timestamp":"2026-06-23T07:00:00Z","type":"event_msg","payload":{"type":"token_count","rate_limits":{"plan_type":"old"}}}"#.to_string(),
        r#"{"timestamp":"2026-06-23T09:00:00Z","type":"event_msg","payload":{"type":"agent_message"}}"#.to_string(),
    ];
    let second = vec![
        r#"{"timestamp":"2026-06-23T08:00:00Z","type":"event_msg","payload":{"type":"token_count","rate_limits":{"plan_type":"new"}}}"#.to_string(),
        r#"{"timestamp":"2026-06-23T08:00:00Z","type":"event_msg","payload":{"type":"token_count","rate_limits":{"plan_type":"same time"}}}"#.to_string(),
    ];
    let usage = latest_codex_usage(&vec![first.clone(), second]).unwrap();
    assert_eq!(usage.plan_type, "new");
    assert_eq!(usage.observed_at, "2026-06-23T08:00:00Z");
    assert!(latest_codex_usage(&vec![vec!["{}".to_string()]]).is_none());
}

#[test]
fn app_server_exchange_is_scripted_and_read() {
    let mut config = base_config(None, true);
    config.legacy_codex_args = vec!["--x".into()];
    assert_eq!(
        app_server_script(&config, "a'b"),
        "{ printf '%s' 'a'\\''b'; sleep 5; } | 'codex' '--x' 'app-server' '--stdio'"
    );
    assert_eq!(
        app_server_input(rate_limits_request()),
        "{\"id\":0,\"method\":\"initialize\",\"params\":{\"capabilities\":{\"experimentalApi\":true},\"clientInfo\":{\"name\":\"mobailmux\",\"version\":\"0.1.0\"}}}\n{\"method\":\"initialized\"}\n{\"id\":1,\"method\":\"account/rateLimits/read\",\"params\":null}\n"
    );
    assert_eq!(
        consume_request("key-1"),
        "{\"id\":1,\"method\":\"account/rateLimitResetCredit/consume\",\"params\":{\"idempotencyKey\":\"key-1\"}}"
    );
    let output = "not json\n{\"id\":0,\"result\":{}}\n{\"id\":1,\"result\":{\"outcome\":\"reset\"}}\n{\"id\":1,\"result\":{\"outcome\":\"late\"}}\n";
    assert_eq!(app_server_result(output).as_deref(), Some("{\"outcome\":\"reset\"}"));
    assert_eq!(app_server_reset_outcome(output).as_deref(), Some("reset"));
    assert_eq!(app_server_result("{\"id\":2}"), None);
}

#[test]
fn reset_replies_follow_the_outcome() {
    assert!(matches!(codex_reset_reply(Some("reset")), ResetReply::Done));
    assert!(matches!(codex_reset_reply(Some("alreadyRedeemed")), ResetReply::Done));
    match codex_reset_reply(Some("noCredit")) {
        ResetReply::Refused(code, text) => {
            assert_eq!(code, 409);
            assert_eq!(text, "Codex reports no reset credits available");
        }
        ResetReply::Done => panic!("expected a refusal"),
    }
    match codex_reset_reply(Some("odd")) {
        ResetReply::Refused(code, text) => {
            assert_eq!(code, 500);
            assert_eq!(text, "unexpected Codex reset outcome: odd");
        }
        ResetReply::Done => panic!("expected a refusal"),
    }
    match codex_reset_reply(None) {
        ResetReply::Refused(code, _) => assert_eq!(code, 500),
        ResetReply::Done => panic!("expected a refusal"),
    }
    assert!(codex_reset_confirmed(" USE_RESET "));
    assert!(!codex_reset_confirmed("use_reset"));
}

#[test]
fn usage_dialog_and_reply_show_the_snapshot() {
    let payload = r#"{"info":{"total_token_usage":{"total_tokens":1234567,"cached_input_tokens":10},"last_token_usage":{"total_tokens":5},"model_context_window":258400},"rate_limits":{"primary":{"used_percent":14.0,"window_minutes":300},"plan_type":"pro"}}"#;
    let usage = codex_usage_from_payload("2026-06-23T07:29:57Z", payload);
    let text = codex_usage_text_at(Some(&usage), ("86", "14"), ("0", "0"), NOW);
    assert!(text.starts_with("Codex usage:\n- observed: "));
    assert!(text.contains("\n- plan: pro\n- total tokens: 1,234,567\n- last turn: 5\n"));
    assert!(text.contains("- add-on credits: not reported\n- usage reset credits: not reported by Codex"));
    assert!(text.ends_with("\n- primary: 86% left, 14% used, resets unknown"));
    assert_eq!(
        codex_usage_text_at(None, ("", ""), ("", ""), NOW),
        "Codex usage: no saved `/status` data found yet."
    );

    let config = base_config(None, true);
    let dialog = codex_usage_dialog_at(&config, Some(&usage), true, 7, "[P]", "[S]", NOW);
    assert!(dialog.starts_with("<dialog class=\"codex-panel\" id=\"codexPanel\">"));
    assert!(dialog.contains("<input type=\"hidden\" name=\"slot\" value=\"7\">"));
    assert!(dialog.contains("<div class=\"usage-grid\">[P][S]</div>"));
    assert!(dialog.contains("<span>Plan: pro</span>"));
    assert!(dialog.contains("Launcher: <strong>legacy-codex (read-only)</strong>"));
    assert!(dialog.contains("disabled title=\"No Codex reset credits are currently reported.\""));
    let loading = codex_usage_dialog_at(&config, None, false, 7, "", "", NOW);
    assert!(loading.contains("Loading Codex usage from saved sessions..."));
}

#[test]
fn usage_cards_show_windows() {
    assert_eq!(
        usage_window_card_at("Primary", None, "", "", NOW),
        "<section class=\"usage-card\"><strong>Primary</strong><span class=\"muted\">not reported</span></section>"
    );
    let window = CodexRateWindow {
        label: "Primary".into(),
        used_percent: Some("14.0".into()),
        window_minutes: 300,
        resets_at: None,
    };
    assert_eq!(
        usage_window_card_at("Primary", Some(&window), "86", "14", NOW),
        "<section class=\"usage-card\"><strong>Primary</strong><span>86% remaining · 14% used</span><div class=\"meter\" title=\"86% remaining\"><span style=\"width:86%\"></span></div><span class=\"muted\">5h window · resets unknown</span></section>"
    );
}

#[test]
fn times_are_written_relative_and_exact() {
    assert_eq!(format_epoch_date_at(0, 0), "just now (1970-01-01 00:00 UTC)");
    assert_eq!(short_time_at("2026-06-23T07:24:22Z", 1_782_199_582), "2m ago");
    assert_eq!(short_time_at("garbage", NOW), "garbage");
    assert_eq!(short_time_at("  ", NOW), "unknown");
    assert_eq!(compact_local_time(""), "unknown");
    assert_eq!(compact_local_time("not a time"), "not a time");
    let shown = compact_local_time("2000-06-15T12:00:00Z");
    assert!(shown.starts_with("2000-06-1"), "{shown}");
    assert_eq!(shown.len(), "2000-06-15 12:00".len());
}

#[test]
fn project_errors_are_form_encoded() {
    assert_eq!(
        project_form_location(Some(3), "a b/ü"),
        "/agents?slot=3&new_project=1&project_error=a+b%2F%C3%BC"
    );
    assert_eq!(
        project_form_location(None, "x"),
        "/agents?new_project=1&project_error=x"
    );
}

#[test]
fn run_outcomes_are_reported() {
    let slot = slot_row("codex");
    let said = AgentStdoutSummary { last_assistant_text: Some("partial".into()), final_text: None };
    assert_eq!(
        agent_outcome_text(&slot, false, 5, &RunExit::Success, &said, &Vec::new()),
        "partial"
    );
    let nothing = AgentStdoutSummary { last_assistant_text: None, final_text: None };
    assert_eq!(
        agent_outcome_text(&slot, false, 5, &RunExit::Success, &nothing, &Vec::new()),
        "(Pi completed without a final message.)"
    );
    assert_eq!(
        agent_outcome_text(&slot, false, -3, &RunExit::Failed(Some(2)), &nothing, &vec!["e1".into(), "e2".into()]),
        "codex failed with exit code 2 after 0s.\n\n```text\ne1\ne2\n```"
    );
    assert_eq!(
        agent_outcome_text(&slot, true, 9, &RunExit::Failed(None), &nothing, &Vec::new()),
        "codex stopped after 9s."
    );
    assert_eq!(
        agent_outcome_text(&slot, false, 1, &RunExit::WaitError("boom".into()), &nothing, &Vec::new()),
        "codex wait failed after 1s: boom"
    );
}

#[test]
fn posted_messages_are_routed() {
    assert!(matches!(agent_message_route(None, "", "hi", None), MessageRoute::MissingSlot));
    assert!(matches!(agent_message_route(Some(1), "STOP", "hi", None), MessageRoute::Stop));
    assert!(matches!(agent_message_route(Some(1), "", "   ", None), MessageRoute::Ignore));
    match agent_message_route(Some(1), "", " /status ", None) {
        MessageRoute::Control(body) => assert_eq!(body, "/status"),
        _ => panic!("expected a command"),
    }
    match agent_message_route(Some(1), "", " fix it ", Some(3)) {
        MessageRoute::Edit(id, body) => {
            assert_eq!(id, 3);
            assert_eq!(body, "fix it");
        }
        _ => panic!("expected an edit"),
    }
    match agent_message_route(Some(1), "", "fix it", None) {
        MessageRoute::Prompt(body) => assert_eq!(body, "fix it"),
        _ => panic!("expected a prompt"),
    }
}

#[test]
fn busy_slots_refuse_edits_and_open_lanes() {
    let edit = || MessageRoute::Edit(3, "fix it".to_string());
    assert!(matches!(message_action(edit(), true), MessageAction::RefuseEdit));
    match message_action(edit(), false) {
        MessageAction::Edit(id, body) => {
            assert_eq!(id, 3);
            assert_eq!(body, "fix it");
        }
        _ => panic!("expected an edit"),
    }
    match message_action(MessageRoute::Prompt("go".to_string()), true) {
        MessageAction::RunInNewLane(body) => assert_eq!(body, "go"),
        _ => panic!("expected a new lane"),
    }
    match message_action(MessageRoute::Prompt("go".to_string()), false) {
        MessageAction::RunHere(body) => assert_eq!(body, "go"),
        _ => panic!("expected a run in the slot"),
    }
    match message_action(MessageRoute::Control("/status".to_string()), true) {
        MessageAction::Control(body) => assert_eq!(body, "/status"),
        _ => panic!("expected a command"),
    }
    assert!(matches!(message_action(MessageRoute::Stop, true), MessageAction::Stop));
    assert!(matches!(message_action(MessageRoute::Ignore, false), MessageAction::Back));
    assert!(matches!(message_action(MessageRoute::MissingSlot, false), MessageAction::Reject));
}

#[test]
fn slash_commands_plan_their_replies() {
    let config = base_config(None, true);
    let slot = slot_row("codex");
    assert!(agent_control_request_ok("/status"));
    assert!(matches!(agent_control(&config, &slot, "/status"), Some(AgentControl::Status)));
    assert!(matches!(agent_control(&config, &slot, "!stop"), Some(AgentControl::Stop)));
    match agent_control(&config, &slot, "/goal ship it") {
        Some(AgentControl::SetGoal(goal, _)) => assert_eq!(goal, "ship it"),
        _ => panic!("expected a goal"),
    }
    match agent_control(&config, &slot, "/goal clear") {
        Some(AgentControl::SetGoal(goal, reply)) => {
            assert_eq!(goal, "");
            assert_eq!(reply, "Goal cleared for this slot.");
        }
        _ => panic!("expected a cleared goal"),
    }
    assert!(agent_control(&config, &slot, "fix the app").is_none());
}

#[test]
fn restarted_runs_are_noted_once() {
    let slot = slot_row("codex-2");
    let running = AgentMessageRow {
        id: 1,
        role: "assistant".into(),
        body: "running: `cargo test`".into(),
        created_at: String::new(),
    };
    let notice = interrupted_run_notice(&slot, Some(&running)).unwrap();
    assert!(notice.starts_with("Mobailmux restarted while `codex-2` was running"));
    let answered = AgentMessageRow { body: notice, ..running };
    assert!(interrupted_run_notice(&slot, Some(&answered)).is_none());
    assert!(interrupted_run_notice(&slot, None).is_none());
}

#[test]
fn duplicate_transcript_messages_are_dropped() {
    let message = |text: &str, ts: &str, order: usize, fallback: bool| CodexVisibleMessage {
        role: "user".into(),
        text: text.into(),
        timestamp: ts.into(),
        order,
        fallback,
        final_answer: false,
        assistant_progress: false,
    };
    let event = message("fix", "2026-06-23T07:24:23.000Z", 1, true);
    let item = message("fix ", "2026-06-23T07:24:23.001Z", 2, false);
    assert!(same_codex_visible_message_near(&event, &item));
    let kept = dedupe_codex_visible_messages(vec![event, item, message("again", "2026-06-23T08:00:00Z", 9, false)]);
    assert_eq!(kept.len(), 2);
    assert!(!kept[0].fallback);
    assert_eq!(kept[1].text, "again");
    let again = dedupe_codex_visible_messages(kept);
    assert_eq!(again.len(), 2);
}

#[test]
fn escaping_and_quoting_examples() {
    assert_eq!(html_escape("<a href=\"x\">&'"), "&lt;a href=&quot;x&quot;&gt;&amp;'");
    assert_eq!(shell_single_quote("it's"), "'it'\\''s'");
    assert_eq!(truncate_text("  short  ", 10), "short");
    assert!(truncate_text(&"x".repeat(100), 30).chars().count() <= 30);
    assert_eq!(progress_dir_name(3, "abc"), "mobailmux-agent-progress-3-abc");
    for harness in [AgentHarness::Pi, AgentHarness::OpenCode, AgentHarness::LegacyCodex] {
        assert_eq!(AgentHarness::parse(harness.as_str()), Some(harness));
    }
}

#[test]
fn terminal_requests_are_checked_and_replies_assembled() {
    assert!(matches!(terminal_request("   "), TerminalRequest::Empty));
    assert!(matches!(terminal_request(&"x".repeat(4097)), TerminalRequest::TooLong));
    match terminal_request("  ls -la  ") {
        TerminalRequest::Run(command) => assert_eq!(command, "ls -la"),
        _ => panic!("expected a command"),
    }
    let reply = terminal_reply("out", "err\n", Some(2), Some(0), false, "/tmp");
    assert!(!reply.ok);
    assert_eq!(reply.status, "exit 2");
    assert_eq!(reply.output, "out\nerr");
    assert_eq!(reply.cwd, "/tmp");
    let reply = terminal_reply("", "  ", None, None, false, "/");
    assert_eq!(reply.status, "exit -1");
    assert_eq!(reply.output, "");
    let reply = terminal_reply("done\n", "", None, Some(0), false, "/");
    assert!(reply.ok);
    assert_eq!(reply.status, "exit 0");
}

#[test]
fn transcript_view_notes_missing_and_empty_conversations() {
    assert_eq!(
        codex_transcript_html(None),
        "<p class=\"empty\">Conversation not found.</p>"
    );
    let quiet = vec![r#"{"type":"session_meta","payload":{"id":"t"}}"#.to_string()];
    assert!(codex_transcript_html(Some(&quiet)).contains("no visible user or assistant messages yet"));
    let talk = vec![
        r#"{"timestamp":"2026-06-23T07:24:24Z","type":"response_item","payload":{"type":"message","role":"user","content":[{"type":"input_text","text":"hello there"}]}}"#.to_string(),
    ];
    assert!(codex_transcript_html(Some(&talk)).contains("hello there"));
}

#[test]
fn markdown_events_are_rewritten_for_the_writer() {
    match markdown_event(MdEvent::Html("<script>x</script>".into())) {
        HtmlEvent::Text(t) => assert_eq!(t, "<script>x</script>"),
        _ => panic!("raw HTML must become text"),
    }
    match markdown_event(MdEvent::InlineHtml("<b>".into())) {
        HtmlEvent::Text(t) => assert_eq!(t, "<b>"),
        _ => panic!("inline HTML must become text"),
    }
    match markdown_event(MdEvent::CodeBlockEnd) {
        HtmlEvent::Html(h) => assert_eq!(h, "</code></pre></div>"),
        _ => panic!("a code block closes with library HTML"),
    }
    match markdown_event(MdEvent::CodeBlockStart(Some("rust".into()))) {
        HtmlEvent::Html(h) => assert!(h.contains("class=\"language-rust\"")),
        _ => panic!("a code block opens with library HTML"),
    }
    assert!(matches!(markdown_event(MdEvent::Other(7)), HtmlEvent::Source(7)));
    let html = mobailmux::views::message_body_html("<img src=x onerror=alert(1)>\n\nhi <b>there</b>");
    assert!(!html.contains("<img"));
    assert!(!html.contains("<b>"));
    assert!(html.contains("&lt;b&gt;"));
}

#[test]
fn project_lanes_check_harness_and_first_task() {
    assert_eq!(project_harness("opencode", AgentHarness::Pi), AgentHarness::OpenCode);
    assert_eq!(project_harness("codex", AgentHarness::OpenCode), AgentHarness::OpenCode);
    assert_eq!(project_harness("nope", AgentHarness::Pi), AgentHarness::Pi);
    assert_eq!(project_first_task("  do it  "), Ok("do it".to_string()));
    assert_eq!(
        project_first_task(&"é".repeat(70000)),
        Err("The first message is too long.")
    );
}

#[test]
fn job_life_decisions() {
    assert!(matches!(job_start(None), JobStart::Drop));
    let mut slot = slot_row("old");
    slot.harness = AgentHarness::LegacyCodex;
    match job_start(Some(&slot)) {
        JobStart::Notice(text) => assert!(text.starts_with("This is a retained legacy Codex lane.")),
        _ => panic!("expected the legacy notice"),
    }
    assert!(matches!(job_start(Some(&slot_row("new"))), JobStart::Launch));
    assert!(matches!(run_exit(true, Some(3)), RunExit::Success));
    assert!(matches!(run_exit(false, Some(3)), RunExit::Failed(Some(3))));
    assert_eq!(spawn_failed_text("pi", "not found"), "Could not start `pi`: not found");
}

#[test]
fn normalizing_twice_changes_nothing() {
    for text in ["go ship it", "  sta  ", "mod", "fresh", "g", "unknown thing", ""] {
        let once = normalize_agent_command_text(text);
        assert_eq!(normalize_agent_command_text(&once), once);
    }
    assert_eq!(normalize_agent_slot_name(" My App_1! "), "myapp_1");
    assert_eq!(normalize_agent_slot_name("Ünï"), "n");
    let once = normalize_agent_slot_name(" My App_1! ");
    assert_eq!(normalize_agent_slot_name(&once), once);
    assert_ne!(html_escape("&lt;"), html_escape("<"));
}
