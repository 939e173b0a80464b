//! The server's settings, read from named variables with defaults.
use vstd::prelude::*;
use crate::api::requests::text_decimal;
use crate::api::text::parse_u128;
use vstd::string::StrSliceExecFns;

verus! {

/// The server's settings.
#[derive(Debug, Clone)]
pub struct Config {
    pub server_host: String,
    pub server_port: u16,
    pub database_url: String,
    pub chain_rpc_url: String,
    pub jwt_secret: String,
    pub admin_api_key: String,
    pub admin_seed: String,
    pub jwt_expiration_secs: u64,
    pub rate_limit_requests: u32,
    pub rate_limit_window_secs: u64,
}

/// The raw values of the settings' variables; `None` where a variable is unset.
pub struct ConfigVars {
    pub server_host: Option<String>,
    pub server_port: Option<String>,
    pub database_url: Option<String>,
    pub chain_rpc_url: Option<String>,
    pub jwt_secret: Option<String>,
    pub admin_api_key: Option<String>,
    pub admin_seed: Option<String>,
    pub jwt_expiration: Option<String>,
    pub rate_limit_requests: Option<String>,
    pub rate_limit_window_seconds: Option<String>,
}

/// Why the settings could not be read.
#[derive(Debug)]
pub struct ConfigError {
    pub message: String,
}

/// The fewest characters the token-signing secret and the admin key may have.
pub const MIN_SECRET_CHARS: usize = 64;

/// The text of a variable, or `default` when it is unset.
pub open spec fn text_or(v: Option<String>, default: Seq<char>) -> Seq<char> {
    match v {
        Some(s) => s@,
        None => default,
    }
}

/// The number a variable holds, or the number its default denotes.
pub open spec fn number_or(v: Option<String>, default: Seq<char>) -> Option<u128> {
    text_decimal(text_or(v, default))
}

/// Why the variables do not make settings, if they do not; the first
/// failing variable in the order the server reads them.
pub open spec fn config_problem(v: ConfigVars) -> Option<Seq<char>> {
    if !(number_or(v.server_port, "8080"@) matches Some(p) && p <= u16::MAX) {
        Some("SERVER_PORT must be a valid port number"@)
    } else if v.database_url is None {
        Some("DATABASE_URL is required"@)
    } else if v.jwt_secret is None {
        Some("JWT_SECRET is required"@)
    } else if v.jwt_secret->Some_0@.len() < MIN_SECRET_CHARS {
        Some("JWT_SECRET must be at least 64 characters"@)
    } else if v.admin_api_key is None {
        Some("ADMIN_API_KEY is required"@)
    } else if v.admin_api_key->Some_0@.len() < MIN_SECRET_CHARS {
        Some("ADMIN_API_KEY must be at least 64 characters"@)
    } else if !(number_or(v.jwt_expiration, "86400"@) matches Some(n) && n <= u64::MAX) {
        Some("JWT_EXPIRATION must be a number of seconds"@)
    } else if !(number_or(v.rate_limit_requests, "100"@) matches Some(n) && n <= u32::MAX) {
        Some("RATE_LIMIT_REQUESTS must be a number"@)
    } else if !(number_or(v.rate_limit_window_seconds, "60"@) matches Some(n) && n <= u64::MAX) {
        Some("RATE_LIMIT_WINDOW_SECONDS must be a number"@)
    } else {
        None
    }
}

/// Whether `c` holds the settings the variables `v` describe.
pub open spec fn config_matches(c: Config, v: ConfigVars) -> bool {
    &&& c.server_host@ == text_or(v.server_host, "0.0.0.0"@)
    &&& Some(c.server_port as u128) == number_or(v.server_port, "8080"@)
    &&& c.database_url@ == v.database_url->Some_0@
    &&& c.chain_rpc_url@ == text_or(v.chain_rpc_url, "ws://localhost:9944"@)
    &&& c.jwt_secret@ == v.jwt_secret->Some_0@
    &&& c.admin_api_key@ == v.admin_api_key->Some_0@
    &&& c.admin_seed@ == text_or(v.admin_seed, "//Alice"@)
    &&& Some(c.jwt_expiration_secs as u128) == number_or(v.jwt_expiration, "86400"@)
    &&& Some(c.rate_limit_requests as u128) == number_or(v.rate_limit_requests, "100"@)
    &&& Some(c.rate_limit_window_secs as u128) == number_or(v.rate_limit_window_seconds, "60"@)
}

/// The text of a variable, or `default`.
fn read_text(v: &Option<String>, default: &str) -> (r: String)
    ensures
        r@ == text_or(*v, default@),
{
    match v {
        Some(s) => s.clone(),
        None => default.to_owned(),
    }
}

/// The number a variable holds, or its default's.
fn read_number(v: &Option<String>, default: &str) -> (r: Option<u128>)
    ensures
        r == number_or(*v, default@),
{
    let t = read_text(v, default);
    parse_u128(t.as_str())
}

/// A setting's failure.
fn problem(message: &str) -> (r: ConfigError)
    ensures
        r.message@ == message@,
{
    ConfigError { message: message.to_owned() }
}

impl Config {
    /// The settings the variables describe, or the first problem with them.
    pub fn from_vars(v: &ConfigVars) -> (r: Result<Config, ConfigError>)
        ensures
            match config_problem(*v) {
                None => r matches Ok(c) && config_matches(c, *v),
                Some(msg) => r matches Err(e) && e.message@ == msg,
            },
    {
        let server_host = read_text(&v.server_host, "0.0.0.0");
        let server_port = match read_number(&v.server_port, "8080") {
            Some(p) if p <= 65535 => p as u16,
            _ => return Err(problem("SERVER_PORT must be a valid port number")),
        };
        let database_url = match &v.database_url {
            Some(s) => s.clone(),
            None => return Err(problem("DATABASE_URL is required")),
        };
        let chain_rpc_url = read_text(&v.chain_rpc_url, "ws://localhost:9944");
        let jwt_secret = match &v.jwt_secret {
            Some(s) => s.clone(),
            None => return Err(problem("JWT_SECRET is required")),
        };
        if jwt_secret.as_str().unicode_len() < MIN_SECRET_CHARS {
            return Err(problem("JWT_SECRET must be at least 64 characters"));
        }
        let admin_api_key = match &v.admin_api_key {
            Some(s) => s.clone(),
            None => return Err(problem("ADMIN_API_KEY is required")),
        };
        if admin_api_key.as_str().unicode_len() < MIN_SECRET_CHARS {
            return Err(problem("ADMIN_API_KEY must be at least 64 characters"));
        }
        let admin_seed = read_text(&v.admin_seed, "//Alice");
        let jwt_expiration_secs = match read_number(&v.jwt_expiration, "86400") {
            Some(n) if n <= 0xffff_ffff_ffff_ffff => n as u64,
            _ => return Err(problem("JWT_EXPIRATION must be a number of seconds")),
        };
        let rate_limit_requests = match read_number(&v.rate_limit_requests, "100") {
            Some(n) if n <= 0xffff_ffff => n as u32,
            _ => return Err(problem("RATE_LIMIT_REQUESTS must be a number")),
        };
        let rate_limit_window_secs = match read_number(&v.rate_limit_window_seconds, "60") {
            Some(n) if n <= 0xffff_ffff_ffff_ffff => n as u64,
            _ => return Err(problem("RATE_LIMIT_WINDOW_SECONDS must be a number")),
        };
        Ok(
            Config {
                server_host,
                server_port,
                database_url,
                chain_rpc_url,
                jwt_secret,
                admin_api_key,
                admin_seed,
                jwt_expiration_secs,
                rate_limit_requests,
                rate_limit_window_secs,
            },
        )
    }
}

/// The milliseconds between two admitted requests when `requests` may come
/// every `window_secs` seconds, or why the limit is unusable.
pub fn rate_limit_interval_ms(window_secs: u64, requests: u32) -> (r: Result<u64, String>)
    requires
        requests > 0 ==> window_secs * 1000 <= u64::MAX,
    ensures
        requests == 0 ==> (r matches Err(m) && m@ == "RATE_LIMIT_REQUESTS must be greater than 0"@),
        requests > 0 && (window_secs * 1000) / (requests as int) == 0 ==> (r matches Err(m) && m@
            == "RATE_LIMIT_REQUESTS / RATE_LIMIT_WINDOW_SECONDS resolves to a sub-millisecond interval"@),
        requests > 0 && (window_secs * 1000) / (requests as int) > 0 ==> r == Ok::<u64, String>(
            ((window_secs * 1000) / (requests as int)) as u64,
        ),
{
    if requests == 0 {
        return Err("RATE_LIMIT_REQUESTS must be greater than 0".to_owned());
    }
    let interval = (window_secs * 1000) / (requests as u64);
    if interval == 0 {
        return Err(
            "RATE_LIMIT_REQUESTS / RATE_LIMIT_WINDOW_SECONDS resolves to a sub-millisecond interval".to_owned(),
        );
    }
    Ok(interval)
}

} // verus!
