use mobailmux::auth::{password_digest, verify_password};
use mobailmux::harness::AgentHarness;
use mobailmux::shared::Config;

fn config_with_hash(hash: Option<String>, auth_disabled: bool) -> Config {
    Config {
        bind: "127.0.0.1:0".into(),
        db_path: String::new(),
        agent_default_workdir: String::new(),
        default_harness: AgentHarness::Pi,
        pi_bin: "pi".into(),
        pi_args: Vec::new(),
        opencode_bin: "opencode".into(),
        opencode_args: Vec::new(),
        agent_progress_notes: false,
        legacy_codex_bin: "codex".into(),
        legacy_codex_args: Vec::new(),
        legacy_codex_home: String::new(),
        legacy_codex_reset_command: None,
        agent_slots: Vec::new(),
        user: "mobailmux".into(),
        password_hash: hash,
        cookie_secret: vec![2u8; 32],
        auth_disabled,
    }
}

#[test]
fn password_hash_round_trips() {
    let salt = [1u8; 16];
    let hash = format!(
        "sha256:{}:{}",
        hex::encode(salt),
        hex::encode(password_digest(&salt, "secret"))
    );
    let config = config_with_hash(Some(hash), false);
    assert!(verify_password(&config, "secret"));
    assert!(!verify_password(&config, "wrong"));
}
