//! The command line: which command runs, and how `hash-password` reads its
//! input.
use vstd::prelude::*;
use crate::shared::string_views;
use crate::text::{chars_eq_str, chars_of, string_of, subvec};

verus! {

/// What the program was asked to do.
#[derive(Copy, Clone, Debug, PartialEq, Eq, Structural)]
pub enum CliCommand {
    /// Run the web service (also with no argument).
    Serve,
    /// Print an Argon2 hash of a password read from standard input.
    HashPassword,
    /// Check what the service exposes publicly.
    AuditPublic,
    /// Anything else: print the usage line.
    Usage,
}

/// The command that the first argument names; `serve` where there is none.
pub open spec fn cli_command_spec(first: Option<Seq<char>>) -> CliCommand {
    match first {
        None => CliCommand::Serve,
        Some(a) => if a == "serve"@ {
            CliCommand::Serve
        } else if a == "hash-password"@ {
            CliCommand::HashPassword
        } else if a == "audit-public"@ {
            CliCommand::AuditPublic
        } else {
            CliCommand::Usage
        },
    }
}

/// The command that the arguments (after the program name) ask for.
pub fn cli_command(args: &Vec<String>) -> (r: CliCommand)
    ensures
        r == cli_command_spec(if args.len() > 0 {
            Some(args@[0]@)
        } else {
            None
        }),
{
    if args.len() == 0 {
        return CliCommand::Serve;
    }
    let a = chars_of(args[0].as_str());
    if chars_eq_str(&a, "serve") {
        CliCommand::Serve
    } else if chars_eq_str(&a, "hash-password") {
        CliCommand::HashPassword
    } else if chars_eq_str(&a, "audit-public") {
        CliCommand::AuditPublic
    } else {
        CliCommand::Usage
    }
}

/// The usage line.
pub fn cli_usage() -> (r: &'static str)
    ensures
        r@ == "usage: mobailmux [serve|hash-password --stdin|audit-public]"@,
{
    "usage: mobailmux [serve|hash-password --stdin|audit-public]"
}

/// Whether `hash-password` was asked to read the password from standard
/// input: one of its arguments is `--stdin`.
pub fn reads_password_from_stdin(args: &Vec<String>) -> (r: bool)
    ensures
        r == exists|i: int| 0 <= i < args.len() && #[trigger] string_views(args@)[i] == "--stdin"@,
{
    let mut i: usize = 0;
    while i < args.len()
        invariant
            i <= args.len(),
            forall|k: int| 0 <= k < i ==> #[trigger] string_views(args@)[k] != "--stdin"@,
        decreases args.len() - i,
    {
        let a = chars_of(args[i].as_str());
        if chars_eq_str(&a, "--stdin") {
            assert(string_views(args@)[i as int] == "--stdin"@);
            return true;
        }
        assert(string_views(args@)[i as int] == args@[i as int]@);
        i += 1;
    }
    false
}

/// `s` without its trailing `\r` and `\n` characters.
pub open spec fn trim_line_ends(s: Seq<char>) -> Seq<char>
    decreases s.len(),
{
    if s.len() > 0 && (s.last() == '\r' || s.last() == '\n') {
        trim_line_ends(s.drop_last())
    } else {
        s
    }
}

/// The password that `hash-password` hashes: what was read, without its
/// trailing line ends.
pub fn password_from_input(input: &str) -> (r: String)
    ensures
        r@ == trim_line_ends(input@),
{
    let v = chars_of(input);
    let mut n: usize = v.len();
    assert(v@.take(v.len() as int) =~= v@);
    while n > 0 && (v[n - 1] == '\r' || v[n - 1] == '\n')
        invariant
            n <= v.len(),
            trim_line_ends(v@) == trim_line_ends(v@.take(n as int)),
        decreases n,
    {
        assert(v@.take(n as int).drop_last() =~= v@.take(n - 1));
        n -= 1;
    }
    string_of(&subvec(&v, 0, n))
}

} // verus!
