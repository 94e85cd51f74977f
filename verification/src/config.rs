use vstd::prelude::*;
use crate::crypto::{generate_random_bytes, is_random_text};

verus! {

/// The first setting present: the command-line argument, else the
/// environment variable, else `fallback`.
pub open spec fn setting(arg: Option<String>, env: Option<String>, fallback: Seq<char>) -> Seq<char> {
    match arg {
        Some(a) => a@,
        None => match env {
            Some(e) => e@,
            None => fallback,
        },
    }
}

/// The argument wins over the environment, and both over the fallback.
pub proof fn law_setting_priority(arg: Option<String>, env: Option<String>, fallback: Seq<char>)
    ensures
        arg matches Some(a) ==> setting(arg, env, fallback) == a@,
        arg is None ==> (env matches Some(e) ==> setting(arg, env, fallback) == e@),
        arg is None && env is None ==> setting(arg, env, fallback) == fallback,
{
}

fn first_setting(arg: Option<String>, env: Option<String>, fallback: &str) -> (s: String)
    ensures
        s@ == setting(arg, env, fallback@),
{
    match arg {
        Some(a) => a,
        None => match env {
            Some(e) => e,
            None => String::from_str(fallback),
        },
    }
}

/// The database file: the first argument, else `DB_PATH`, else `bitwarden.db`.
pub fn database_path(arg: Option<String>, env: Option<String>) -> (path: String)
    ensures
        path@ == setting(arg, env, "bitwarden.db"@),
{
    first_setting(arg, env, "bitwarden.db")
}

/// The listening address: the second argument, else `BIND_ADDR`, else
/// `HOST:PORT` with host `0.0.0.0` and port `8080` by default.
pub fn bind_address(arg: Option<String>, bind_addr: Option<String>, host: Option<String>, port: Option<String>) -> (addr: String)
    ensures
        addr@ == setting(
            arg,
            bind_addr,
            setting(None, host, "0.0.0.0"@) + ":"@ + setting(None, port, "8080"@),
        ),
{
    match arg {
        Some(a) => a,
        None => match bind_addr {
            Some(b) => b,
            None => {
                let mut addr = first_setting(None, host, "0.0.0.0");
                addr.append(":");
                let p = first_setting(None, port, "8080");
                addr.append(p.as_str());
                addr
            },
        },
    }
}

/// The token-signing secret: the third argument, else `JWT_SECRET`, else 32
/// fresh random bytes as base64; `None` only when the system generator fails.
pub fn jwt_secret(arg: Option<String>, env: Option<String>) -> (secret: Option<String>)
    ensures
        match secret {
            Some(s) => if arg is Some || env is Some {
                s@ == setting(arg, env, Seq::empty())
            } else {
                is_random_text(s@, 32)
            },
            None => arg is None && env is None,
        },
{
    match arg {
        Some(a) => Some(a),
        None => match env {
            Some(e) => Some(e),
            None => generate_random_bytes(32),
        },
    }
}

} // verus!
