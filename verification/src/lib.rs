//! fast-time-server: an MCP server exposing time-related tools.
//!
//! The library holds everything the server decides: configuration defaults, the
//! JSON-RPC dispatch of MCP requests, the time tools, the static resources and
//! prompts, the REST handlers' answers and the authentication rule. The binary
//! around it reads requests and writes answers.
use vstd::prelude::*;

pub mod clock;
pub mod json;
pub mod mcp;
pub mod openapi;
pub mod prompts;
pub mod resources;
pub mod server;
pub mod text;
pub mod tools;
pub mod tools_list;
pub mod zone_cache;

use crate::clock::Zone;
use crate::json::{json_object, json_str, json_uint, member, obj, Json, JsonValue};
use crate::text::{
    all_ascii, ascii_lowercase, decimal, lowercase_text, push_decimal, to_lowercase,
};
use crate::zone_cache::ZoneCache;

verus! {

pub const APP_NAME: &'static str = "fast-time-server";

pub const APP_VERSION: &'static str = "1.5.0";

pub const DEFAULT_PORT: u16 = 8080;

/// The tracing filter for an already lower-cased log level name.
pub open spec fn log_filter_for(lower: Seq<char>) -> Seq<char> {
    if lower == "debug"@ {
        "debug"@
    } else if lower == "info"@ {
        "info"@
    } else if lower == "warn"@ || lower == "warning"@ {
        "warn"@
    } else if lower == "error"@ {
        "error"@
    } else if lower == "none"@ || lower == "off"@ {
        "off"@
    } else {
        "info"@
    }
}

/// Parse log level string to tracing filter string.
///
/// The level is compared after lower-casing it: `debug`, `info`, `warn` (or
/// `warning`), `error`, `off` (or `none`); anything else gives `info`.
pub fn parse_log_level(level: &str) -> (r: &'static str)
    ensures
        r@ == log_filter_for(lowercase_text(level@)),
        all_ascii(level@) ==> r@ == log_filter_for(ascii_lowercase(level@)),
{
    let lower = to_lowercase(level);
    let l = lower.as_str();
    if json::str_equal(l, "debug") {
        "debug"
    } else if json::str_equal(l, "info") {
        "info"
    } else if json::str_equal(l, "warn") || json::str_equal(l, "warning") {
        "warn"
    } else if json::str_equal(l, "error") {
        "error"
    } else if json::str_equal(l, "none") || json::str_equal(l, "off") {
        "off"
    } else {
        "info"
    }
}

/// Every log level maps to one of the five filters.
pub proof fn lemma_log_filter_is_known(lower: Seq<char>)
    ensures
        log_filter_for(lower) == "debug"@ || log_filter_for(lower) == "info"@
            || log_filter_for(lower) == "warn"@ || log_filter_for(lower) == "error"@
            || log_filter_for(lower) == "off"@,
{
}

/// For ASCII level names, the filter does not depend on letter case: two names that
/// agree once lower-cased give the same filter.
pub proof fn lemma_log_level_ignores_case(a: Seq<char>, b: Seq<char>)
    requires
        all_ascii(a),
        all_ascii(b),
        ascii_lowercase(a) == ascii_lowercase(b),
    ensures
        log_filter_for(ascii_lowercase(a)) == log_filter_for(ascii_lowercase(b)),
{
}

/// The tracing filter the server starts its logging with: the one that
/// `parse_log_level` gives for the configured level.
pub fn logging_filter(level: &str) -> (r: &'static str)
    ensures
        r@ == log_filter_for(lowercase_text(level@)),
        all_ascii(level@) ==> r@ == log_filter_for(ascii_lowercase(level@)),
{
    parse_log_level(level)
}

/// The address to listen on: the explicit one if given, else `host:port`.
pub open spec fn listen_address(addr: Option<Seq<char>>, host: Seq<char>, port: u16) -> Seq<char> {
    match addr {
        Some(a) => a,
        None => host + ":"@ + decimal(port as nat),
    }
}

/// Format listen address from optional full address or host+port.
pub fn format_listen_address(addr: Option<&str>, host: &str, port: u16) -> (r: String)
    ensures
        r@ == listen_address(
            match addr {
                Some(a) => Some(a@),
                None => None,
            },
            host@,
            port,
        ),
{
    match addr {
        Some(a) => String::from_str(a),
        None => {
            let mut r = String::from_str(host);
            r.append(":");
            push_decimal(&mut r, port as u64);
            r
        },
    }
}

/// The server's command-line settings.
pub struct Args {
    pub transport: String,
    pub addr: Option<String>,
    pub listen: String,
    pub port: u16,
    pub public_url: Option<String>,
    pub auth_token: Option<String>,
    pub log_level: String,
}

/// The address the server listens on for these settings.
pub fn get_listen_address(args: &Args) -> (r: String)
    ensures
        r@ == listen_address(
            match args.addr {
                Some(a) => Some(a@),
                None => None,
            },
            args.listen@,
            args.port,
        ),
{
    match &args.addr {
        Some(a) => format_listen_address(Some(a.as_str()), args.listen.as_str(), args.port),
        None => format_listen_address(None, args.listen.as_str(), args.port),
    }
}

/// The health report for an uptime.
pub open spec fn health_json(uptime_secs: u64) -> Json {
    obj(seq![("status"@, Json::Str("healthy"@)), ("uptime_seconds"@, Json::Int(uptime_secs as int))])
}

/// Build health check response JSON.
pub fn build_health_response(uptime_secs: u64) -> (r: JsonValue)
    ensures
        r@ == health_json(uptime_secs),
{
    let mut v: Vec<(String, JsonValue)> = Vec::new();
    v.push(member("status", json_str("healthy")));
    v.push(member("uptime_seconds", json_uint(uptime_secs)));
    let r = json_object(v);
    assert(json::entries_view(v@) =~= seq![
        ("status"@, Json::Str("healthy"@)),
        ("uptime_seconds"@, Json::Int(uptime_secs as int)),
    ]);
    r
}

/// The version report for a server name and version.
pub open spec fn version_json(name: Seq<char>, version: Seq<char>) -> Json {
    obj(
        seq![
            ("name"@, Json::Str(name)),
            ("version"@, Json::Str(version)),
            ("mcp_version"@, Json::Str("1.0"@)),
        ],
    )
}

/// Build version information response JSON.
pub fn build_version_response(name: &str, version: &str) -> (r: JsonValue)
    ensures
        r@ == version_json(name@, version@),
{
    let mut v: Vec<(String, JsonValue)> = Vec::new();
    v.push(member("name", json_str(name)));
    v.push(member("version", json_str(version)));
    v.push(member("mcp_version", json_str("1.0")));
    let r = json_object(v);
    assert(json::entries_view(v@) =~= seq![
        ("name"@, Json::Str(name@)),
        ("version"@, Json::Str(version@)),
        ("mcp_version"@, Json::Str("1.0"@)),
    ]);
    r
}

/// The state the server shares between requests: the expected bearer token, and
/// the time zones looked up so far.
pub struct AppState {
    pub auth_token: Option<String>,
    pub timezone_cache: ZoneCache,
}

impl AppState {
    pub fn new(auth_token: Option<String>) -> (r: AppState)
        ensures
            r.auth_token == auth_token,
            r.timezone_cache@ == Seq::<Seq<char>>::empty(),
    {
        AppState { auth_token, timezone_cache: ZoneCache::new() }
    }

    /// Load timezone with caching: a zone found before is taken from the cache, any
    /// other is looked up and, when known, remembered.
    pub fn load_timezone(&mut self, name: &str) -> (r: Result<Zone, String>)
        ensures
            r is Ok <==> clock::tz_name_known(name@),
            clock::builtin_zone_name(name@) ==> r is Ok,
            r matches Ok(z) ==> z@ == name@,
            r matches Err(e) ==> e@ == zone_cache::invalid_zone_message(name@),
            final(self).auth_token == old(self).auth_token,
            final(self).timezone_cache@ == zone_cache::after_load(old(self).timezone_cache@, name@),
    {
        self.timezone_cache.load(name)
    }
}

} // verus!
