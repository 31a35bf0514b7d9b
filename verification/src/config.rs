//! The service settings, read from the values of its environment variables.
use vstd::prelude::*;
use vstd::utf8::encode_utf8;
use crate::auth::opt_text;
use crate::crypto::{hex_decode, unhex_spec};
use crate::harness::{harness_named, AgentHarness};
use crate::shared::{
    expand_local_path, expand_spec, flag_spec, env_flag, parse_agent_slot_seeds, path_join,
    seed_views, slot_seeds_spec, split_env_args, string_views, AgentSlotSeed, Config,
};
use crate::split::words;
use crate::text::{chars_of, extend_str, string_of, trim, trim_str};

verus! {

/// The values of the service's environment variables, `None` for each one
/// that is unset.
pub struct ConfigEnv {
    /// `MOBAILMUX_BIND`
    pub bind: Option<String>,
    /// `MOBAILMUX_DB`
    pub db: Option<String>,
    /// `MOBAILMUX_AGENT_DEFAULT_WORKDIR`
    pub agent_default_workdir: Option<String>,
    /// `MOBAILMUX_DEFAULT_HARNESS`
    pub default_harness: Option<String>,
    /// `MOBAILMUX_PI_BIN`
    pub pi_bin: Option<String>,
    /// `MOBAILMUX_PI_ARGS`
    pub pi_args: Option<String>,
    /// `MOBAILMUX_OPENCODE_BIN`
    pub opencode_bin: Option<String>,
    /// `MOBAILMUX_OPENCODE_ARGS`
    pub opencode_args: Option<String>,
    /// `MOBAILMUX_AGENT_PROGRESS_NOTES`
    pub agent_progress_notes: Option<String>,
    /// `MOBAILMUX_LEGACY_CODEX_BIN`
    pub legacy_codex_bin: Option<String>,
    /// `MOBAILMUX_LEGACY_CODEX_ARGS`
    pub legacy_codex_args: Option<String>,
    /// `MOBAILMUX_LEGACY_CODEX_HOME`
    pub legacy_codex_home: Option<String>,
    /// `MOBAILMUX_AGENT_SLOTS`
    pub agent_slots: Option<String>,
    /// `MOBAILMUX_USER`
    pub user: Option<String>,
    /// `MOBAILMUX_PASSWORD_HASH`
    pub password_hash: Option<String>,
    /// `MOBAILMUX_AUTH_DISABLED`
    pub auth_disabled: Option<String>,
    /// `MOBAILMUX_COOKIE_SECRET`
    pub cookie_secret: Option<String>,
}

/// Why the settings were refused.
#[derive(Copy, Clone, Debug, PartialEq, Eq, Structural)]
pub enum ConfigError {
    /// No password hash is set and authentication is on.
    PasswordHashRequired,
}

impl ConfigError {
    /// The message shown for the error.
    pub fn message(self) -> (r: &'static str)
        ensures
            r@ == "MOBAILMUX_PASSWORD_HASH is required unless MOBAILMUX_AUTH_DISABLED=1"@,
    {
        "MOBAILMUX_PASSWORD_HASH is required unless MOBAILMUX_AUTH_DISABLED=1"
    }
}

/// A set value, else the default.
pub open spec fn value_or(o: Option<String>, default: Seq<char>) -> Seq<char> {
    match o {
        Some(s) => s@,
        None => default,
    }
}

/// The arguments a set value splits into, else the default list.
pub open spec fn args_or(o: Option<String>, default: Seq<Seq<char>>) -> Seq<Seq<char>> {
    match o {
        Some(s) => words(s@),
        None => default,
    }
}

/// The harness new slots use: the named one where it is set, known and
/// runnable, else Pi.
pub open spec fn default_harness_spec(o: Option<String>) -> AgentHarness {
    match o {
        Some(s) => match harness_named(s@) {
            Some(h) => if h != AgentHarness::LegacyCodex {
                h
            } else {
                AgentHarness::Pi
            },
            None => AgentHarness::Pi,
        },
        None => AgentHarness::Pi,
    }
}

/// The working directory new slots default to: the set value read against
/// the home directory, else the home directory.
pub open spec fn workdir_spec(o: Option<String>, home: Seq<char>) -> Seq<char> {
    match o {
        Some(s) => expand_spec(s@, home),
        None => home,
    }
}

/// The stored password hash: the set value unless it is blank.
pub open spec fn password_hash_spec(o: Option<String>) -> Option<Seq<char>> {
    match o {
        Some(s) => if trim(s@).len() > 0 {
            Some(s@)
        } else {
            None
        },
        None => None,
    }
}

/// The cookie secret: the set value, trimmed and hex-decoded, where that
/// gives at least 32 bytes; else the fresh secret.
pub open spec fn cookie_secret_spec(o: Option<String>, fresh: Seq<u8>) -> Seq<u8> {
    match o {
        Some(s) => match unhex_spec(encode_utf8(trim(s@))) {
            Some(b) => if b.len() >= 32 {
                b
            } else {
                fresh
            },
            None => fresh,
        },
        None => fresh,
    }
}

/// Whether the settings are refused: no usable password hash while
/// authentication is on.
pub open spec fn config_refused(env: ConfigEnv) -> bool {
    password_hash_spec(env.password_hash) is None && !flag_spec(
        opt_text(env.auth_disabled),
        false,
    )
}

/// Every field of `c` is what the environment values, the home directory
/// `home` and the fresh secret `fresh` give.
pub open spec fn config_matches(c: Config, env: ConfigEnv, home: Seq<char>, fresh: Seq<u8>) -> bool {
    let workdir = workdir_spec(env.agent_default_workdir, home);
    &&& c.bind@ == value_or(env.bind, "127.0.0.1:8765"@)
    &&& c.db_path@ == value_or(env.db, "data/mobailmux.sqlite"@)
    &&& c.agent_default_workdir@ == workdir
    &&& c.default_harness == default_harness_spec(env.default_harness)
    &&& c.pi_bin@ == value_or(env.pi_bin, "pi"@)
    &&& string_views(c.pi_args@) == args_or(env.pi_args, seq!["--approve"@])
    &&& c.opencode_bin@ == value_or(env.opencode_bin, "opencode"@)
    &&& string_views(c.opencode_args@) == args_or(env.opencode_args, seq!["--auto"@])
    &&& c.agent_progress_notes == flag_spec(opt_text(env.agent_progress_notes), false)
    &&& c.legacy_codex_bin@ == value_or(env.legacy_codex_bin, "codex"@)
    &&& string_views(c.legacy_codex_args@) == args_or(env.legacy_codex_args, Seq::empty())
    &&& c.legacy_codex_home@ == value_or(env.legacy_codex_home, path_join(home, ".codex"@))
    &&& c.legacy_codex_reset_command is None
    &&& seed_views(c.agent_slots@) == slot_seeds_spec(opt_text(env.agent_slots), workdir, home)
    &&& c.user@ == value_or(env.user, "mobailmux"@)
    &&& opt_text(c.password_hash) == password_hash_spec(env.password_hash)
    &&& c.cookie_secret@ == cookie_secret_spec(env.cookie_secret, fresh)
    &&& c.auth_disabled == flag_spec(opt_text(env.auth_disabled), false)
}

fn text_or(o: &Option<String>, default: &str) -> (r: String)
    ensures
        r@ == value_or(*o, default@),
{
    match o {
        Some(s) => s.clone(),
        None => String::from_str(default),
    }
}

fn args_or_list(o: &Option<String>, default: &str) -> (r: Vec<String>)
    ensures
        string_views(r@) == args_or(*o, seq![default@]),
{
    match o {
        Some(s) => split_env_args(s.as_str()),
        None => {
            let mut r: Vec<String> = Vec::new();
            r.push(String::from_str(default));
            proof {
                assert(string_views(r@) =~= seq![default@]);
            }
            r
        },
    }
}

fn opt_as_str(o: &Option<String>) -> (r: Option<&str>)
    ensures
        match r {
            Some(s) => opt_text(*o) == Some(s@),
            None => o is None,
        },
{
    match o {
        Some(s) => Some(s.as_str()),
        None => None,
    }
}

/// The settings that the environment values give, with `home` the home
/// directory and `fresh_secret` the cookie secret to use where none usable
/// is set; refused where no password hash is set and authentication is on.
pub fn config_from_env_values(env: &ConfigEnv, home: &str, fresh_secret: Vec<u8>) -> (r: Result<
    Config,
    ConfigError,
>)
    ensures
        r is Err <==> config_refused(*env),
        r matches Ok(c) ==> config_matches(c, *env, home@, fresh_secret@),
{
    let bind = text_or(&env.bind, "127.0.0.1:8765");
    let db_path = text_or(&env.db, "data/mobailmux.sqlite");
    let agent_default_workdir = match &env.agent_default_workdir {
        Some(v) => expand_local_path(v.as_str(), home),
        None => String::from_str(home),
    };
    let default_harness = match &env.default_harness {
        Some(v) => match AgentHarness::parse(v.as_str()) {
            Some(h) => if h.is_runnable() {
                h
            } else {
                AgentHarness::Pi
            },
            None => AgentHarness::Pi,
        },
        None => AgentHarness::Pi,
    };
    let pi_bin = text_or(&env.pi_bin, "pi");
    let pi_args = args_or_list(&env.pi_args, "--approve");
    let opencode_bin = text_or(&env.opencode_bin, "opencode");
    let opencode_args = args_or_list(&env.opencode_args, "--auto");
    let agent_progress_notes = env_flag(opt_as_str(&env.agent_progress_notes), false);
    let legacy_codex_bin = text_or(&env.legacy_codex_bin, "codex");
    let legacy_codex_args = match &env.legacy_codex_args {
        Some(v) => split_env_args(v.as_str()),
        None => {
            let r: Vec<String> = Vec::new();
            proof {
                assert(string_views(r@) =~= Seq::<Seq<char>>::empty());
            }
            r
        },
    };
    let legacy_codex_home = match &env.legacy_codex_home {
        Some(v) => v.clone(),
        None => {
            let mut h = chars_of(home);
            if !(h.len() == 0 || h[h.len() - 1] == '/') {
                h.push('/');
            }
            extend_str(&mut h, ".codex");
            proof {
                reveal_strlit(".codex");
            }
            string_of(&h)
        },
    };
    let agent_slots = parse_agent_slot_seeds(
        opt_as_str(&env.agent_slots),
        agent_default_workdir.as_str(),
        home,
    );
    let user = text_or(&env.user, "mobailmux");
    let password_hash = match &env.password_hash {
        Some(v) => {
            let t = trim_str(v.as_str());
            if t.len() > 0 {
                Some(v.clone())
            } else {
                None
            }
        },
        None => None,
    };
    let auth_disabled = env_flag(opt_as_str(&env.auth_disabled), false);
    if password_hash.is_none() && !auth_disabled {
        return Err(ConfigError::PasswordHashRequired);
    }
    let cookie_secret = match &env.cookie_secret {
        Some(v) => {
            let t = string_of(&trim_str(v.as_str()));
            match hex_decode(t.as_str()) {
                Some(b) => if b.len() >= 32 {
                    b
                } else {
                    fresh_secret
                },
                None => fresh_secret,
            }
        },
        None => fresh_secret,
    };
    let c = Config {
            bind,
            db_path,
            agent_default_workdir,
            default_harness,
            pi_bin,
            pi_args,
            opencode_bin,
            opencode_args,
            agent_progress_notes,
            legacy_codex_bin,
            legacy_codex_args,
            legacy_codex_home,
            legacy_codex_reset_command: None,
            agent_slots,
            user,
            password_hash,
            cookie_secret,
            auth_disabled,
        };
    assert(c.bind@ == value_or(env.bind, "127.0.0.1:8765"@));
    assert(c.agent_default_workdir@ == workdir_spec(env.agent_default_workdir, home@));
    assert(c.default_harness == default_harness_spec(env.default_harness));
    assert(string_views(c.pi_args@) == args_or(env.pi_args, seq!["--approve"@]));
    assert(c.agent_progress_notes == flag_spec(opt_text(env.agent_progress_notes), false));
    assert(string_views(c.legacy_codex_args@) == args_or(env.legacy_codex_args, Seq::empty()));
    assert(c.legacy_codex_home@ == value_or(env.legacy_codex_home, path_join(home@, ".codex"@)));
    assert(seed_views(c.agent_slots@) == slot_seeds_spec(opt_text(env.agent_slots), workdir_spec(env.agent_default_workdir, home@), home@));
    assert(opt_text(c.password_hash) == password_hash_spec(env.password_hash));
    assert(c.cookie_secret@ == cookie_secret_spec(env.cookie_secret, fresh_secret@));
    Ok(c)
}

} // verus!
