//! Who may use the service: a password checked against a stored hash, HTTP
//! Basic credentials, and a signed session cookie that expires.
use vstd::prelude::*;
use vstd::utf8::{decode_utf8, encode_utf8, valid_utf8};
use crate::crypto::{
    argon2_accepts, argon2_verify, base64_decode, base64_decoded, ct_eq, hex_decode,
    hex_encode, hex_round_trip, hex_spec, hex_spec_digits, sha256, sha256_of, unhex_spec,
    utf8_text,
};
use crate::num::{
    i64_chars, int_decimal, lemma_int_decimal_chars, nat_decimal, parse_decimal_round_trip,
    parse_i64_chars, parse_i64_spec, push_i64,
};
use crate::shared::Config;
use crate::split::{lemma_split_on_absent, pieces, split_on, split_on_char};
use crate::text::{
    chars_eq, chars_eq_str, chars_of, chars_split_once, chars_starts_with_str,
    chars_strip_prefix, extend_chars, extend_str, is_ws, lemma_find_char_first, lemma_trim_unchanged,
    split_once, starts_with, string_of, strip_prefix, trim, trim_chars,
};

verus! {

/// The name of the session cookie.
pub const SESSION_COOKIE: &'static str = "mobailmux_session";

/// How long a session lasts, in days.
pub const SESSION_DAYS: i64 = 30;

/// How long a session lasts, in seconds.
pub const SESSION_SECONDS: i64 = 2592000;

/// The view of an optional string.
pub open spec fn opt_text(o: Option<String>) -> Option<Seq<char>> {
    match o {
        Some(s) => Some(s@),
        None => None,
    }
}

/// The view of an optional string slice.
pub open spec fn opt_str(o: Option<&str>) -> Option<Seq<char>> {
    match o {
        Some(s) => Some(s@),
        None => None,
    }
}

// ---------------------------------------------------------------------------
// Passwords
// ---------------------------------------------------------------------------

/// The salted digest of a password: SHA-256 of the salt followed by the
/// password's UTF-8 bytes.
pub open spec fn password_digest_spec(salt: Seq<u8>, password: Seq<char>) -> Seq<u8> {
    sha256_of(salt + encode_utf8(password))
}

/// Whether `password` matches the stored hash: everything matches where
/// authentication is off, nothing where no hash is set. A hash that begins
/// with `$argon2` is checked by Argon2; otherwise it must read
/// `sha256:SALT:DIGEST` with salt and digest in hexadecimal, and the salted
/// digest of the password must equal the digest.
pub open spec fn verify_password_spec(
    auth_disabled: bool,
    hash: Option<Seq<char>>,
    password: Seq<char>,
) -> bool {
    if auth_disabled {
        true
    } else {
        match hash {
            None => false,
            Some(h) => if starts_with(h, "$argon2"@) {
                argon2_accepts(h, password)
            } else {
                match split_once(h, ':') {
                    None => false,
                    Some((prefix, rest)) => prefix == "sha256"@ && match split_once(rest, ':') {
                        None => false,
                        Some((salt_hex, digest_hex)) => match (
                            unhex_spec(encode_utf8(salt_hex)),
                            unhex_spec(encode_utf8(digest_hex)),
                        ) {
                            (Some(salt), Some(digest)) => password_digest_spec(salt, password)
                                == digest,
                            _ => false,
                        },
                    },
                }
            },
        }
    }
}

/// The salted SHA-256 digest of a password.
pub fn password_digest(salt: &[u8], password: &str) -> (r: Vec<u8>)
    ensures
        r@ == password_digest_spec(salt@, password@),
{
    let mut data: Vec<u8> = Vec::new();
    append_bytes(&mut data, salt);
    append_bytes(&mut data, password.as_bytes());
    sha256(data.as_slice())
}

fn append_bytes(v: &mut Vec<u8>, b: &[u8])
    ensures
        final(v)@ == old(v)@ + b@,
{
    let mut i: usize = 0;
    while i < b.len()
        invariant
            i <= b.len(),
            v@ == old(v)@ + b@.take(i as int),
        decreases b.len() - i,
    {
        v.push(b[i]);
        i += 1;
        assert(b@.take(i as int) == b@.take(i - 1).push(b@[i - 1]));
    }
    assert(b@.take(b.len() as int) == b@);
}

fn sha256_hash_matches(rest: &Vec<char>, password: &str) -> (r: bool)
    ensures
        r == match split_once(rest@, ':') {
            None => false,
            Some((salt_hex, digest_hex)) => match (
                unhex_spec(encode_utf8(salt_hex)),
                unhex_spec(encode_utf8(digest_hex)),
            ) {
                (Some(salt), Some(digest)) => password_digest_spec(salt, password@) == digest,
                _ => false,
            },
        },
{
    match chars_split_once(rest, ':') {
        None => false,
        Some((salt_hex, digest_hex)) => {
            let salt_text = string_of(&salt_hex);
            let digest_text = string_of(&digest_hex);
            match hex_decode(salt_text.as_str()) {
                None => false,
                Some(salt) => match hex_decode(digest_text.as_str()) {
                    None => false,
                    Some(expected) => {
                        let actual = password_digest(salt.as_slice(), password);
                        ct_eq(actual.as_slice(), expected.as_slice())
                    },
                },
            }
        },
    }
}

/// Checks a password against the configured hash.
pub fn verify_password(config: &Config, password: &str) -> (r: bool)
    ensures
        r == verify_password_spec(config.auth_disabled, opt_text(config.password_hash), password@),
{
    if config.auth_disabled {
        return true;
    }
    match &config.password_hash {
        None => false,
        Some(hash) => {
            let h = chars_of(hash.as_str());
            if chars_starts_with_str(&h, "$argon2") {
                return argon2_verify(hash.as_str(), password);
            }
            match chars_split_once(&h, ':') {
                None => false,
                Some((prefix, rest)) => {
                    if !chars_eq_str(&prefix, "sha256") {
                        return false;
                    }
                    sha256_hash_matches(&rest, password)
                },
            }
        },
    }
}

// ---------------------------------------------------------------------------
// Session cookies
// ---------------------------------------------------------------------------

/// What a session signature is the digest of: the cookie secret, then the
/// expiry time in decimal.
pub open spec fn signature_input(secret: Seq<u8>, expires: i64) -> Seq<u8> {
    secret + encode_utf8(int_decimal(expires as int))
}

/// The signature of a session that expires at `expires`: the SHA-256 of
/// [`signature_input`] in hexadecimal.
pub open spec fn signature_spec(secret: Seq<u8>, expires: i64) -> Seq<char> {
    hex_spec(sha256_of(signature_input(secret, expires)))
}

/// The signature of a session that expires at `expires` (seconds since the
/// epoch).
pub fn session_signature(config: &Config, expires: i64) -> (r: String)
    ensures
        r@ == signature_spec(config.cookie_secret@, expires),
{
    let mut data: Vec<u8> = Vec::new();
    append_bytes(&mut data, config.cookie_secret.as_slice());
    let digits = string_of(&i64_chars(expires));
    append_bytes(&mut data, digits.as_str().as_bytes());
    let digest = sha256(data.as_slice());
    hex_encode(digest.as_slice())
}

/// The value of a session cookie: its expiry time and signature.
pub open spec fn cookie_value_spec(secret: Seq<u8>, expires: i64) -> Seq<char> {
    int_decimal(expires as int) + ":"@ + signature_spec(secret, expires)
}

/// The session cookie as a browser sends it back: name and value.
pub open spec fn cookie_pair_spec(secret: Seq<u8>, expires: i64) -> Seq<char> {
    "mobailmux_session="@ + cookie_value_spec(secret, expires)
}

/// The `Set-Cookie` header of a session made at `now`: it expires
/// [`SESSION_SECONDS`] later.
pub open spec fn session_cookie_spec(secret: Seq<u8>, now: i64) -> Seq<char> {
    cookie_pair_spec(secret, (now + SESSION_SECONDS) as i64) + "; Max-Age="@ + nat_decimal(
        SESSION_SECONDS as nat,
    ) + "; Path=/; HttpOnly; SameSite=Lax"@
}

/// The `Set-Cookie` header of a session made at `now` (seconds since the
/// epoch).
pub fn make_session_cookie_at(config: &Config, now: i64) -> (r: String)
    requires
        now + SESSION_SECONDS <= i64::MAX,
    ensures
        r@ == session_cookie_spec(config.cookie_secret@, now),
{
    let expires = now + SESSION_SECONDS;
    let signature = session_signature(config, expires);
    let mut out = chars_of(SESSION_COOKIE);
    extend_str(&mut out, "=");
    push_i64(&mut out, expires);
    extend_str(&mut out, ":");
    extend_str(&mut out, signature.as_str());
    extend_str(&mut out, "; Max-Age=");
    push_i64(&mut out, SESSION_DAYS * 24 * 60 * 60);
    extend_str(&mut out, "; Path=/; HttpOnly; SameSite=Lax");
    proof {
        reveal_strlit("mobailmux_session");
        reveal_strlit("=");
        reveal_strlit("mobailmux_session=");
        assert("mobailmux_session"@ + "="@ == "mobailmux_session="@);
    }
    string_of(&out)
}

/// The `Set-Cookie` header of a new session, made now.
pub fn make_session_cookie(config: &Config) -> (r: String)
    ensures
        exists|now: i64|
            -0x1000_0000_0000 < now < 0x1000_0000_0000 && r@ == #[trigger] session_cookie_spec(
                config.cookie_secret@,
                now,
            ),
{
    let now = crate::time::utc_now_seconds();
    make_session_cookie_at(config, now)
}

/// Whether a session cookie's value is valid at `now`: it must read
/// `EXPIRES:SIGNATURE`, expire no earlier than `now`, and carry the
/// signature of that expiry time (compared as bytes, in constant time).
pub open spec fn verify_cookie_spec(secret: Seq<u8>, value: Seq<char>, now: i64) -> bool {
    match split_once(value, ':') {
        None => false,
        Some((raw_expires, signature)) => match parse_i64_spec(raw_expires) {
            None => false,
            Some(expires) => expires >= now && encode_utf8(signature_spec(secret, expires))
                == encode_utf8(signature),
        },
    }
}

/// Checks a session cookie's value at `now` (seconds since the epoch).
pub fn verify_session_cookie_at(config: &Config, value: &str, now: i64) -> (r: bool)
    ensures
        r == verify_cookie_spec(config.cookie_secret@, value@, now),
{
    let v = chars_of(value);
    match chars_split_once(&v, ':') {
        None => false,
        Some((raw_expires, signature)) => match parse_i64_chars(&raw_expires) {
            None => false,
            Some(expires) => {
                if expires < now {
                    return false;
                }
                let expected = session_signature(config, expires);
                let given = string_of(&signature);
                ct_eq(expected.as_str().as_bytes(), given.as_str().as_bytes())
            },
        },
    }
}

/// Checks a session cookie's value now.
pub fn verify_session_cookie(config: &Config, value: &str) -> (r: bool)
    ensures
        exists|now: i64|
            -0x1000_0000_0000 < now < 0x1000_0000_0000 && r == #[trigger] verify_cookie_spec(
                config.cookie_secret@,
                value@,
                now,
            ),
{
    let now = crate::time::utc_now_seconds();
    verify_session_cookie_at(config, value, now)
}

// ---------------------------------------------------------------------------
// Requests
// ---------------------------------------------------------------------------

/// The user and password of an `Authorization: Basic` header: base64 of
/// `USER:PASSWORD` in UTF-8, after `Basic ` and trimmed.
pub open spec fn basic_credentials(authorization: Seq<char>) -> Option<(Seq<char>, Seq<char>)> {
    match strip_prefix(authorization, "Basic "@) {
        None => None,
        Some(raw) => match base64_decoded(encode_utf8(trim(raw))) {
            None => None,
            Some(bytes) => if valid_utf8(bytes) {
                split_once(decode_utf8(bytes), ':')
            } else {
                None
            },
        },
    }
}

/// The value of the session cookie among the `;`-separated pairs of a
/// `Cookie` header: the first pair named [`SESSION_COOKIE`].
pub open spec fn cookie_value_in(parts: Seq<Seq<char>>) -> Option<Seq<char>>
    decreases parts.len(),
{
    if parts.len() == 0 {
        None
    } else {
        match split_once(trim(parts[0]), '=') {
            Some((name, value)) => if name == "mobailmux_session"@ {
                Some(value)
            } else {
                cookie_value_in(parts.drop_first())
            },
            None => cookie_value_in(parts.drop_first()),
        }
    }
}

/// Whether a request may pass at `now`. Everything passes where
/// authentication is off. Basic credentials, where the header holds them,
/// decide alone: the user must match and the password verify. Otherwise the
/// session cookie must be present and valid.
pub open spec fn authorized_spec(
    config: Config,
    authorization: Option<Seq<char>>,
    cookie: Option<Seq<char>>,
    now: i64,
) -> bool {
    if config.auth_disabled {
        true
    } else {
        let creds = match authorization {
            Some(a) => basic_credentials(a),
            None => None,
        };
        match creds {
            Some((user, password)) => user == config.user@ && verify_password_spec(
                config.auth_disabled,
                opt_text(config.password_hash),
                password,
            ),
            None => match cookie {
                None => false,
                Some(c) => match cookie_value_in(split_on(c, ';')) {
                    None => false,
                    Some(v) => verify_cookie_spec(config.cookie_secret@, v, now),
                },
            },
        }
    }
}

fn basic_credentials_of(authorization: &str) -> (r: Option<(Vec<char>, Vec<char>)>)
    ensures
        r matches Some((u, p)) ==> basic_credentials(authorization@) == Some((u@, p@)),
        r is None ==> basic_credentials(authorization@) is None,
{
    let v = chars_of(authorization);
    match chars_strip_prefix(&v, "Basic ") {
        None => None,
        Some(raw) => {
            let t = string_of(&trim_chars(&raw));
            match base64_decode(t.as_str()) {
                None => None,
                Some(bytes) => match utf8_text(bytes) {
                    None => None,
                    Some(text) => chars_split_once(&chars_of(text.as_str()), ':'),
                },
            }
        },
    }
}

fn session_cookie_value(cookie: &str) -> (r: Option<Vec<char>>)
    ensures
        r matches Some(v) ==> cookie_value_in(split_on(cookie@, ';')) == Some(v@),
        r is None ==> cookie_value_in(split_on(cookie@, ';')) is None,
{
    let v = chars_of(cookie);
    let parts = split_on_char(&v, ';');
    let ghost p = pieces(parts@);
    assert(p.skip(0) == p);
    let mut i: usize = 0;
    while i < parts.len()
        invariant
            i <= parts.len(),
            p == pieces(parts@),
            p == split_on(cookie@, ';'),
            cookie_value_in(p) == cookie_value_in(p.skip(i as int)),
        decreases parts.len() - i,
    {
        assert(p.skip(i as int)[0] == parts@[i as int]@);
        assert(p.skip(i as int).drop_first() == p.skip(i + 1));
        let part = trim_chars(&parts[i]);
        match chars_split_once(&part, '=') {
            Some((name, value)) => {
                if chars_eq_str(&name, SESSION_COOKIE) {
                    proof {
                        reveal_strlit("mobailmux_session");
                    }
                    return Some(value);
                }
                proof {
                    reveal_strlit("mobailmux_session");
                }
            },
            None => {},
        }
        i += 1;
    }
    None
}

/// Whether a request with these `Authorization` and `Cookie` header values
/// (`None` where a header is missing or not visible ASCII) may pass at
/// `now`.
pub fn authorized_at(
    config: &Config,
    authorization: Option<&str>,
    cookie: Option<&str>,
    now: i64,
) -> (r: bool)
    ensures
        r == authorized_spec(
            *config,
            opt_str(authorization),
            opt_str(cookie),
            now,
        ),
{
    if config.auth_disabled {
        return true;
    }
    let creds = match authorization {
        Some(a) => basic_credentials_of(a),
        None => None,
    };
    match creds {
        Some((user, password)) => {
            let u = chars_of(config.user.as_str());
            if !chars_eq(&user, &u) {
                return false;
            }
            let p = string_of(&password);
            verify_password(config, p.as_str())
        },
        None => match cookie {
            None => false,
            Some(c) => match session_cookie_value(c) {
                None => false,
                Some(value) => {
                    let v = string_of(&value);
                    verify_session_cookie_at(config, v.as_str(), now)
                },
            },
        },
    }
}

/// Whether a request with these header values may pass now.
pub fn authorized(config: &Config, authorization: Option<&str>, cookie: Option<&str>) -> (r: bool)
    ensures
        exists|now: i64|
            -0x1000_0000_0000 < now < 0x1000_0000_0000 && r == #[trigger] authorized_spec(
                *config,
                opt_str(authorization),
                opt_str(cookie),
                now,
            ),
{
    let now = crate::time::utc_now_seconds();
    authorized_at(config, authorization, cookie, now)
}

// ---------------------------------------------------------------------------
// Laws
// ---------------------------------------------------------------------------

proof fn lemma_cookie_value_parts(secret: Seq<u8>, expires: i64)
    ensures
        split_once(cookie_value_spec(secret, expires), ':') == Some(
            (int_decimal(expires as int), signature_spec(secret, expires)),
        ),
        forall|i: int|
            0 <= i < cookie_value_spec(secret, expires).len() ==> #[trigger] cookie_value_spec(
                secret,
                expires,
            )[i] != ';' && cookie_value_spec(secret, expires)[i] != '=' && !is_ws(
                cookie_value_spec(secret, expires)[i],
            ),
{
    let d = int_decimal(expires as int);
    let sig = signature_spec(secret, expires);
    let v = cookie_value_spec(secret, expires);
    reveal_strlit(":");
    lemma_int_decimal_chars(expires as int);
    hex_spec_digits(sha256_of(signature_input(secret, expires)));
    assert(v[d.len() as int] == ':');
    assert forall|m: int| 0 <= m < d.len() implies v[m] != ':' by {
        assert(v[m] == d[m]);
    }
    lemma_find_char_first(v, ':', d.len() as int);
    assert(v.take(d.len() as int) == d);
    assert(v.skip(d.len() as int + 1) == sig);
    assert forall|i: int| 0 <= i < v.len() implies #[trigger] v[i] != ';' && v[i] != '=' && !is_ws(
        v[i],
    ) by {
        if i < d.len() {
            assert(v[i] == d[i]);
        } else if i > d.len() {
            assert(v[i] == sig[i - d.len() - 1]);
        }
    }
}

/// A session cookie is accepted, by its value, at any time up to its expiry.
pub proof fn session_cookie_accepted(secret: Seq<u8>, expires: i64, now: i64)
    requires
        now <= expires,
    ensures
        verify_cookie_spec(secret, cookie_value_spec(secret, expires), now),
{
    lemma_cookie_value_parts(secret, expires);
    parse_decimal_round_trip(expires);
}

/// A session cookie is refused once it has expired.
pub proof fn expired_cookie_refused(secret: Seq<u8>, expires: i64, now: i64)
    requires
        now > expires,
    ensures
        !verify_cookie_spec(secret, cookie_value_spec(secret, expires), now),
{
    lemma_cookie_value_parts(secret, expires);
    parse_decimal_round_trip(expires);
}

/// A session cookie that the service made, sent back by the browser as
/// `NAME=VALUE`, lets a request without Basic credentials through until the
/// session expires.
pub proof fn session_cookie_authorizes(config: Config, made_at: i64, now: i64)
    requires
        made_at + SESSION_SECONDS <= i64::MAX,
        now <= made_at + SESSION_SECONDS,
    ensures
        authorized_spec(
            config,
            None,
            Some(cookie_pair_spec(config.cookie_secret@, (made_at + SESSION_SECONDS) as i64)),
            now,
        ),
{
    let secret = config.cookie_secret@;
    let e = (made_at + SESSION_SECONDS) as i64;
    let name = "mobailmux_session"@;
    let v = cookie_value_spec(secret, e);
    let pair = cookie_pair_spec(secret, e);
    reveal_strlit("mobailmux_session=");
    reveal_strlit("mobailmux_session");
    lemma_cookie_value_parts(secret, e);
    lemma_int_decimal_chars(e as int);
    assert(pair == name + seq!['='] + v);
    assert forall|i: int| 0 <= i < pair.len() implies pair[i] != ';' by {
        if i > name.len() {
            assert(pair[i] == v[i - name.len() - 1]);
        }
    }
    lemma_split_on_absent(pair, ';');
    assert(pair.last() == v.last());
    lemma_trim_unchanged(pair);
    assert forall|m: int| 0 <= m < name.len() implies pair[m] != '=' by {
        assert(pair[m] == name[m]);
    }
    lemma_find_char_first(pair, '=', name.len() as int);
    assert(pair.take(name.len() as int) == name);
    assert(pair.skip(name.len() as int + 1) == v);
    assert(seq![pair].drop_first().len() == 0);
    session_cookie_accepted(secret, e, now);
}

/// A hash written as `sha256:SALT:DIGEST`, with the salted digest of a
/// password, accepts that password.
pub proof fn sha256_password_round_trip(salt: Seq<u8>, password: Seq<char>)
    ensures
        verify_password_spec(
            false,
            Some(
                "sha256:"@ + hex_spec(salt) + ":"@ + hex_spec(
                    password_digest_spec(salt, password),
                ),
            ),
            password,
        ),
{
    let hs = hex_spec(salt);
    let hd = hex_spec(password_digest_spec(salt, password));
    let h = "sha256:"@ + hs + ":"@ + hd;
    let rest = hs + ":"@ + hd;
    reveal_strlit("sha256:");
    reveal_strlit("sha256");
    reveal_strlit(":");
    reveal_strlit("$argon2");
    hex_spec_digits(salt);
    hex_round_trip(salt);
    hex_round_trip(password_digest_spec(salt, password));
    assert(h[0] == 's');
    assert(!starts_with(h, "$argon2"@)) by {
        assert(h.take(7)[0] != "$argon2"@[0]);
    }
    assert forall|m: int| 0 <= m < 6 implies h[m] != ':' by {
        assert(h[m] == "sha256"@[m]);
    }
    lemma_find_char_first(h, ':', 6);
    assert(h.take(6) == "sha256"@);
    assert(h.skip(7) == rest);
    assert forall|m: int| 0 <= m < hs.len() implies rest[m] != ':' by {
        assert(rest[m] == hs[m]);
    }
    lemma_find_char_first(rest, ':', hs.len() as int);
    assert(rest.take(hs.len() as int) == hs);
    assert(rest.skip(hs.len() as int + 1) == hd);
}

/// With authentication off, every request passes and every password matches.
pub proof fn auth_off_lets_everything_through(
    config: Config,
    authorization: Option<Seq<char>>,
    cookie: Option<Seq<char>>,
    now: i64,
    password: Seq<char>,
)
    requires
        config.auth_disabled,
    ensures
        authorized_spec(config, authorization, cookie, now),
        verify_password_spec(config.auth_disabled, opt_text(config.password_hash), password),
{
}

// ---------------------------------------------------------------------------
// Logging in and out
// ---------------------------------------------------------------------------

/// The cookie that ends a session.
pub const LOGOUT_COOKIE: &'static str = "mobailmux_session=; Max-Age=0; Path=/; HttpOnly; SameSite=Lax";

/// The login form, with a line that says the last password was wrong.
pub open spec fn login_body_spec(wrong_password: bool) -> Seq<char> {
    "\n<main class=\"login\">\n  <h1>Mobailmux</h1>\n"@ + (if wrong_password {
        "  <p class=\"error\">Wrong password.</p>\n"@
    } else {
        Seq::empty()
    }) + "  <form action=\"/login\" method=\"post\">\n    <label>Password</label>\n    <input name=\"password\" type=\"password\" autocomplete=\"current-password\" autofocus required>\n    <button type=\"submit\">Log in</button>\n  </form>\n</main>\n"@
}

/// The body of the login page; after a wrong password it says so.
pub fn login_body(wrong_password: bool) -> (r: String)
    ensures
        r@ == login_body_spec(wrong_password),
{
    let mut out = chars_of("\n<main class=\"login\">\n  <h1>Mobailmux</h1>\n");
    if wrong_password {
        extend_str(&mut out, "  <p class=\"error\">Wrong password.</p>\n");
    } else {
        proof {
            assert(out@ + Seq::<char>::empty() =~= out@);
        }
    }
    extend_str(
        &mut out,
        "  <form action=\"/login\" method=\"post\">\n    <label>Password</label>\n    <input name=\"password\" type=\"password\" autocomplete=\"current-password\" autofocus required>\n    <button type=\"submit\">Log in</button>\n  </form>\n</main>\n",
    );
    string_of(&out)
}

} // verus!
