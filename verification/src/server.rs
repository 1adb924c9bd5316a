//! What the server answers: the JSON-RPC dispatch of MCP requests over stdio and
//! over HTTP, the REST endpoints, and the bearer-token rule.
use vstd::prelude::*;

use crate::clock::{builtin_zone_name, now, rfc3339_in_zone_text, rfc3339_utc_text, tz_name_known, InstantParts, Moment, Zone};
use crate::json::{
    arr1, arr4, json_empty_object, json_get, json_int, json_object, json_str, json_str_member, json_string,
    member, obj, obj1, obj2, obj3, obj4, str_equal, Json, JsonValue,
};
use crate::mcp::{err_reply, ok_reply, opt_json, JsonRpcResponse, Reply};
use crate::prompts::{
    compare_timezones_text, convert_time_detailed_text, generate_compare_timezones_prompt,
    generate_convert_time_detailed_prompt, generate_schedule_meeting_prompt, schedule_meeting_text,
};
use crate::resources::{
    business_hours_json, get_business_hours, get_current_world_times_at, get_time_formats, get_timezone_info, time_formats_json,
    timezone_info_json, world_times, world_times_json, world_zones_loaded,
};
use crate::text::{has_prefix, opt_text, skip_chars, starts_with, trim, trimmed_text};
use crate::tools::{handle_tool_call_at, handle_tool_call_cached_at, tool_call_cache, tool_call_outcome};
use crate::zone_cache::ZoneCache;
use crate::AppState;

verus! {

/// What the server does with a request.
pub enum Step {
    /// Send this response.
    Respond(JsonRpcResponse),
    /// Answer with the contents of a resource: the response is
    /// `resource_response(id, uri, text)` where `text` is the JSON text of `resource`.
    SendResource { id: Option<JsonValue>, uri: String, resource: JsonValue },
    /// Answer with this HTTP status and no body.
    Status(u16),
}

/// The mathematical content of a `Step`.
pub enum StepView {
    Respond(Reply),
    SendResource(Option<Json>, Seq<char>, Json),
    Status(int),
}

impl View for Step {
    type V = StepView;

    open spec fn view(&self) -> StepView {
        match self {
            Step::Respond(r) => StepView::Respond(r@),
            Step::SendResource { id, uri, resource } => StepView::SendResource(
                opt_json(*id),
                uri@,
                resource@,
            ),
            Step::Status(code) => StepView::Status(*code as int),
        }
    }
}

/// The JSON-RPC error codes the server answers with.
pub const PARSE_ERROR: i32 = -32700;

pub const INVALID_REQUEST: i32 = -32600;

pub const METHOD_NOT_FOUND: i32 = -32601;

pub const SERVER_ERROR: i32 = -32000;

/// The result of `initialize`.
pub open spec fn initialize_json() -> Json {
    obj(
        seq![
            ("protocolVersion"@, Json::Str("1.0"@)),
            (
                "capabilities"@,
                obj(
                    seq![
                        ("tools"@, obj(Seq::empty())),
                        ("resources"@, obj(Seq::empty())),
                        ("prompts"@, obj(Seq::empty())),
                    ],
                ),
            ),
            (
                "serverInfo"@,
                obj(seq![("name"@, Json::Str(crate::APP_NAME@)), ("version"@, Json::Str(crate::APP_VERSION@))]),
            ),
        ],
    )
}

/// A tool as listed by `tools/list`.
pub open spec fn listed_tool_json(name: Seq<char>, description: Seq<char>) -> Json {
    obj(seq![("name"@, Json::Str(name)), ("description"@, Json::Str(description))])
}

/// The result of `tools/list`.
pub open spec fn listed_tools_json() -> Json {
    obj(
        seq![
            (
                "tools"@,
                Json::Array(
                    seq![
                        listed_tool_json("get_system_time"@, "Get current system time"@),
                        listed_tool_json("convert_time"@, "Convert time between timezones"@),
                    ],
                ),
            ),
        ],
    )
}

/// A resource as listed by `resources/list`.
pub open spec fn listed_resource_json(uri: Seq<char>, name: Seq<char>) -> Json {
    obj(
        seq![
            ("uri"@, Json::Str(uri)),
            ("name"@, Json::Str(name)),
            ("mimeType"@, Json::Str("application/json"@)),
        ],
    )
}

/// The result of `resources/list`.
pub open spec fn listed_resources_json() -> Json {
    obj(
        seq![
            (
                "resources"@,
                Json::Array(
                    seq![
                        listed_resource_json("timezone://info"@, "Timezone Information"@),
                        listed_resource_json("time://current/world"@, "Current World Times"@),
                        listed_resource_json("time://formats"@, "Time Formats"@),
                        listed_resource_json("time://business-hours"@, "Business Hours"@),
                    ],
                ),
            ),
        ],
    )
}

/// The result of `prompts/list` over stdio.
pub open spec fn listed_prompts_json() -> Json {
    obj(seq![("prompts"@, Json::Array(Seq::empty()))])
}

/// The resource an MCP resource URI names, at the instant `at`.
pub open spec fn resource_for_uri(uri: Seq<char>, at: InstantParts) -> Option<Json> {
    if uri == "timezone://info"@ {
        Some(timezone_info_json())
    } else if uri == "time://current/world"@ {
        Some(world_times_json(at))
    } else if uri == "time://formats"@ {
        Some(time_formats_json())
    } else if uri == "time://business-hours"@ {
        Some(business_hours_json())
    } else {
        None
    }
}

/// The result of `resources/read`: the resource's JSON text, labelled.
pub open spec fn resource_contents_json(uri: Seq<char>, text: Seq<char>) -> Json {
    obj(
        seq![
            (
                "contents"@,
                Json::Array(
                    seq![
                        obj(
                            seq![
                                ("uri"@, Json::Str(uri)),
                                ("mimeType"@, Json::Str("application/json"@)),
                                ("text"@, Json::Str(text)),
                            ],
                        ),
                    ],
                ),
            ),
        ],
    )
}

/// The reply to a tool call.
pub open spec fn tool_reply(id: Option<Json>, outcome: Result<Json, Seq<char>>) -> Reply {
    match outcome {
        Ok(v) => ok_reply(id, v),
        Err(e) => err_reply(id, SERVER_ERROR as int, e),
    }
}

/// The arguments of a tool call: the `arguments` member, or an empty object.
pub open spec fn call_arguments(params: Json) -> Json {
    match json_get(params, "arguments"@) {
        Some(a) => a,
        None => obj(Seq::empty()),
    }
}

/// What the server does with a request read from stdio, at the instant `at`.
pub open spec fn stdio_step(request: Json, at: InstantParts) -> StepView {
    let id = json_get(request, "id"@);
    match json_str_member(request, "method"@) {
        None => StepView::Respond(err_reply(id, INVALID_REQUEST as int, "Invalid Request - missing method"@)),
        Some(method) => if method == "initialize"@ {
            StepView::Respond(ok_reply(id, initialize_json()))
        } else if method == "tools/list"@ {
            StepView::Respond(ok_reply(id, listed_tools_json()))
        } else if method == "resources/list"@ {
            StepView::Respond(ok_reply(id, listed_resources_json()))
        } else if method == "resources/read"@ {
            match json_get(request, "params"@) {
                None => StepView::Respond(
                    err_reply(id, INVALID_REQUEST as int, "Invalid Request - missing params"@),
                ),
                Some(params) => {
                    let uri = match json_str_member(params, "uri"@) {
                        Some(u) => u,
                        None => Seq::empty(),
                    };
                    match resource_for_uri(uri, at) {
                        Some(resource) => StepView::SendResource(id, uri, resource),
                        None => StepView::Respond(
                            err_reply(id, SERVER_ERROR as int, "Resource not found: "@ + uri),
                        ),
                    }
                },
            }
        } else if method == "prompts/list"@ {
            StepView::Respond(ok_reply(id, listed_prompts_json()))
        } else if method == "tools/call"@ {
            match json_get(request, "params"@) {
                None => StepView::Respond(
                    err_reply(id, INVALID_REQUEST as int, "Invalid Request - missing params"@),
                ),
                Some(params) => {
                    let name = match json_str_member(params, "name"@) {
                        Some(n) => n,
                        None => Seq::empty(),
                    };
                    StepView::Respond(tool_reply(id, tool_call_outcome(name, call_arguments(params), at)))
                },
            }
        } else {
            StepView::Respond(err_reply(id, METHOD_NOT_FOUND as int, "Method not found: "@ + method))
        },
    }
}

/// What the server does with a JSON-RPC request over HTTP, at the instant `at`.
pub open spec fn http_step(request: Json, at: InstantParts) -> StepView {
    let id = json_get(request, "id"@);
    let method = match json_str_member(request, "method"@) {
        Some(m) => m,
        None => Seq::empty(),
    };
    if method == "initialize"@ {
        StepView::Respond(ok_reply(id, initialize_json()))
    } else if method == "tools/list"@ {
        StepView::Respond(ok_reply(id, listed_tools_json()))
    } else if method == "resources/list"@ {
        StepView::Respond(ok_reply(id, listed_resources_json()))
    } else if method == "resources/read"@ {
        match json_get(request, "params"@) {
            None => StepView::Status(400),
            Some(params) => match json_str_member(params, "uri"@) {
                None => StepView::Status(400),
                Some(uri) => match resource_for_uri(uri, at) {
                    Some(resource) => StepView::SendResource(id, uri, resource),
                    None => StepView::Status(404),
                },
            },
        }
    } else if method == "tools/call"@ {
        match json_get(request, "params"@) {
            None => StepView::Status(400),
            Some(params) => match json_str_member(params, "name"@) {
                None => StepView::Status(400),
                Some(name) => StepView::Respond(
                    tool_reply(id, tool_call_outcome(name, call_arguments(params), at)),
                ),
            },
        }
    } else {
        StepView::Respond(err_reply(id, METHOD_NOT_FOUND as int, "Method not found: "@ + method))
    }
}

/// The names a cache holds after reading the resource `uri`: only the world clock
/// looks zones up.
pub open spec fn resource_cache(names: Seq<Seq<char>>, uri: Seq<char>) -> Seq<Seq<char>> {
    if uri == "time://current/world"@ {
        world_zones_loaded(names)
    } else {
        names
    }
}

/// The names the state's cache holds after an HTTP request: a read of the world clock
/// or a tool call looks its zones up; every other request leaves the cache as it was.
pub open spec fn http_cache(names: Seq<Seq<char>>, request: Json) -> Seq<Seq<char>> {
    let method = match json_str_member(request, "method"@) {
        Some(m) => m,
        None => Seq::empty(),
    };
    if method == "resources/read"@ {
        match json_get(request, "params"@) {
            Some(params) => match json_str_member(params, "uri"@) {
                Some(uri) => resource_cache(names, uri),
                None => names,
            },
            None => names,
        }
    } else if method == "tools/call"@ {
        match json_get(request, "params"@) {
            Some(params) => match json_str_member(params, "name"@) {
                Some(name) => tool_call_cache(names, name, call_arguments(params)),
                None => names,
            },
            None => names,
        }
    } else {
        names
    }
}

fn initialize_result() -> (r: JsonValue)
    ensures
        r@ == initialize_json(),
{
    obj3(
        "protocolVersion",
        json_str("1.0"),
        "capabilities",
        obj3(
            "tools",
            json_empty_object(),
            "resources",
            json_empty_object(),
            "prompts",
            json_empty_object(),
        ),
        "serverInfo",
        obj2("name", json_str(crate::APP_NAME), "version", json_str(crate::APP_VERSION)),
    )
}

fn listed_tool(name: &str, description: &str) -> (r: JsonValue)
    ensures
        r@ == listed_tool_json(name@, description@),
{
    obj2("name", json_str(name), "description", json_str(description))
}

fn listed_tools() -> (r: JsonValue)
    ensures
        r@ == listed_tools_json(),
{
    let first = listed_tool("get_system_time", "Get current system time");
    let second = listed_tool("convert_time", "Convert time between timezones");
    let ghost (a, b) = (first@, second@);
    let mut v: Vec<JsonValue> = Vec::new();
    v.push(first);
    v.push(second);
    let tools = crate::json::json_array(v);
    assert(crate::json::items_view(v@) =~= seq![a, b]);
    obj1("tools", tools)
}

fn listed_resource(uri: &str, name: &str) -> (r: JsonValue)
    ensures
        r@ == listed_resource_json(uri@, name@),
{
    obj3("uri", json_str(uri), "name", json_str(name), "mimeType", json_str("application/json"))
}

fn listed_resources() -> (r: JsonValue)
    ensures
        r@ == listed_resources_json(),
{
    obj1(
        "resources",
        arr4(
            listed_resource("timezone://info", "Timezone Information"),
            listed_resource("time://current/world", "Current World Times"),
            listed_resource("time://formats", "Time Formats"),
            listed_resource("time://business-hours", "Business Hours"),
        ),
    )
}

fn listed_prompts() -> (r: JsonValue)
    ensures
        r@ == listed_prompts_json(),
{
    let none: Vec<JsonValue> = Vec::new();
    let prompts = crate::json::json_array(none);
    assert(crate::json::items_view(none@) =~= Seq::<Json>::empty());
    obj1("prompts", prompts)
}

/// The response to `resources/read` once the resource's JSON text is known.
pub fn resource_response(id: Option<JsonValue>, uri: &str, text: String) -> (r: JsonRpcResponse)
    ensures
        r@ == ok_reply(opt_json(id), resource_contents_json(uri@, text@)),
{
    let block = obj3("uri", json_str(uri), "mimeType", json_str("application/json"), "text", json_string(text));
    JsonRpcResponse::success(id, obj1("contents", arr1(block)))
}

/// The request text of a line read from stdio: the line without surrounding white
/// space, or `None` for a blank line, which is skipped.
pub fn stdio_request_text(line: &str) -> (r: Option<&str>)
    ensures
        match r {
            Some(t) => t@ == trimmed_text(line@) && t@.len() > 0,
            None => trimmed_text(line@).len() == 0,
        },
{
    let t = trim(line);
    if t.unicode_len() == 0 {
        None
    } else {
        Some(t)
    }
}

/// The response to a line that is not JSON.
pub fn parse_error_response() -> (r: JsonRpcResponse)
    ensures
        r@ == err_reply(None, PARSE_ERROR as int, "Parse error"@),
{
    JsonRpcResponse::error(None, PARSE_ERROR, String::from_str("Parse error"))
}

fn request_id(request: &JsonValue) -> (r: Option<JsonValue>)
    ensures
        opt_json(r) == json_get(request@, "id"@),
{
    match request.get("id") {
        Some(v) => Some(v.duplicate()),
        None => None,
    }
}

fn call_arguments_of(params: &JsonValue) -> (r: JsonValue)
    ensures
        r@ == call_arguments(params@),
{
    match params.get("arguments") {
        Some(a) => a.duplicate(),
        None => json_empty_object(),
    }
}

fn tool_response(id: Option<JsonValue>, outcome: Result<JsonValue, String>) -> (r: JsonRpcResponse)
    ensures
        r@ == tool_reply(opt_json(id), crate::tools::json_result(outcome)),
{
    match outcome {
        Ok(v) => JsonRpcResponse::success(id, v),
        Err(e) => JsonRpcResponse::error(id, SERVER_ERROR, e),
    }
}

/// The resource a URI names, read at `at`, finding zones through `cache`.
fn resource_at(uri: &str, at: &Moment, cache: &mut ZoneCache) -> (r: Option<JsonValue>)
    ensures
        match r {
            Some(v) => resource_for_uri(uri@, at@) == Some(v@),
            None => resource_for_uri(uri@, at@) is None,
        },
        final(cache)@ == resource_cache(old(cache)@, uri@),
{
    proof {
        reveal_strlit("timezone://info");
        reveal_strlit("time://current/world");
        assert("timezone://info"@[4] != "time://current/world"@[4]);
    }
    if str_equal(uri, "timezone://info") {
        Some(get_timezone_info())
    } else if str_equal(uri, "time://current/world") {
        Some(world_times(at, cache))
    } else if str_equal(uri, "time://formats") {
        Some(get_time_formats())
    } else if str_equal(uri, "time://business-hours") {
        Some(get_business_hours())
    } else {
        None
    }
}

/// Handle a request read from stdio, with `now` as the current instant.
pub fn handle_stdio_request_at(request: &JsonValue, now: &Moment) -> (r: Step)
    ensures
        r@ == stdio_step(request@, now@),
{
    let id = request_id(request);
    let method = match request.get_str("method") {
        Some(m) => m,
        None => {
            return Step::Respond(
                JsonRpcResponse::error(id, INVALID_REQUEST, String::from_str("Invalid Request - missing method")),
            );
        },
    };
    if str_equal(method, "initialize") {
        Step::Respond(JsonRpcResponse::success(id, initialize_result()))
    } else if str_equal(method, "tools/list") {
        Step::Respond(JsonRpcResponse::success(id, listed_tools()))
    } else if str_equal(method, "resources/list") {
        Step::Respond(JsonRpcResponse::success(id, listed_resources()))
    } else if str_equal(method, "resources/read") {
        match request.get("params") {
            None => Step::Respond(
                JsonRpcResponse::error(id, INVALID_REQUEST, String::from_str("Invalid Request - missing params")),
            ),
            Some(params) => {
                let uri = match params.get_str("uri") {
                    Some(u) => u,
                    None => "",
                };
                proof {
                    reveal_strlit("");
                }
                assert(uri@ == match json_str_member(params@, "uri"@) {
                    Some(u) => u,
                    None => Seq::<char>::empty(),
                });
                let mut fresh = ZoneCache::new();
                match resource_at(uri, now, &mut fresh) {
                    Some(resource) => Step::SendResource { id, uri: String::from_str(uri), resource },
                    None => Step::Respond(
                        JsonRpcResponse::error(id, SERVER_ERROR, crate::text::concat2("Resource not found: ", uri)),
                    ),
                }
            },
        }
    } else if str_equal(method, "prompts/list") {
        Step::Respond(JsonRpcResponse::success(id, listed_prompts()))
    } else if str_equal(method, "tools/call") {
        match request.get("params") {
            None => Step::Respond(
                JsonRpcResponse::error(id, INVALID_REQUEST, String::from_str("Invalid Request - missing params")),
            ),
            Some(params) => {
                let name = match params.get_str("name") {
                    Some(n) => n,
                    None => "",
                };
                proof {
                    reveal_strlit("");
                }
                assert(name@ == match json_str_member(params@, "name"@) {
                    Some(n) => n,
                    None => Seq::<char>::empty(),
                });
                let arguments = call_arguments_of(params);
                Step::Respond(tool_response(id, handle_tool_call_at(name, &arguments, now)))
            },
        }
    } else {
        Step::Respond(JsonRpcResponse::error(id, METHOD_NOT_FOUND, crate::text::concat2("Method not found: ", method)))
    }
}

/// Handle a request read from stdio.
pub fn handle_stdio_request(request: &JsonValue) -> (r: Step)
    ensures
        exists|at: InstantParts| r@ == stdio_step(request@, at),
        exists|m: Moment| #[trigger] m.is_clock_reading() && r@ == stdio_step(request@, m@),
{
    let t = now();
    let r = handle_stdio_request_at(request, &t);
    assert(t.is_clock_reading());
    r
}

/// Handle a JSON-RPC request over HTTP, with `now` as the current instant; zones are
/// found through the state's cache.
pub fn handle_jsonrpc_request_at(request: &JsonValue, state: &mut AppState, now: &Moment) -> (r: Step)
    ensures
        r@ == http_step(request@, now@),
        final(state).auth_token == old(state).auth_token,
        final(state).timezone_cache@ == http_cache(old(state).timezone_cache@, request@),
{
    let id = request_id(request);
    let method = match request.get_str("method") {
        Some(m) => m,
        None => "",
    };
    proof {
        reveal_strlit("");
        reveal_strlit("initialize");
        reveal_strlit("tools/list");
        reveal_strlit("resources/list");
        reveal_strlit("resources/read");
        reveal_strlit("tools/call");
        assert("initialize"@[0] != "resources/read"@[0] && "initialize"@[0] != "tools/call"@[0]);
        assert("tools/list"@[0] != "resources/read"@[0] && "tools/list"@[6] != "tools/call"@[6]);
        assert("resources/list"@[10] != "resources/read"@[10] && "resources/list"@[0] != "tools/call"@[0]);
    }
    assert(method@ == match json_str_member(request@, "method"@) {
        Some(m) => m,
        None => Seq::<char>::empty(),
    });
    if str_equal(method, "initialize") {
        Step::Respond(JsonRpcResponse::success(id, initialize_result()))
    } else if str_equal(method, "tools/list") {
        Step::Respond(JsonRpcResponse::success(id, listed_tools()))
    } else if str_equal(method, "resources/list") {
        Step::Respond(JsonRpcResponse::success(id, listed_resources()))
    } else if str_equal(method, "resources/read") {
        let params = match request.get("params") {
            Some(p) => p,
            None => {
                return Step::Status(400);
            },
        };
        let uri = match params.get_str("uri") {
            Some(u) => u,
            None => return Step::Status(400),
        };
        match resource_at(uri, now, &mut state.timezone_cache) {
            Some(resource) => Step::SendResource { id, uri: String::from_str(uri), resource },
            None => Step::Status(404),
        }
    } else if str_equal(method, "tools/call") {
        let params = match request.get("params") {
            Some(p) => p,
            None => return Step::Status(400),
        };
        let name = match params.get_str("name") {
            Some(n) => n,
            None => return Step::Status(400),
        };
        let arguments = call_arguments_of(params);
        Step::Respond(
            tool_response(id, handle_tool_call_cached_at(name, &arguments, state, now)),
        )
    } else {
        Step::Respond(JsonRpcResponse::error(id, METHOD_NOT_FOUND, crate::text::concat2("Method not found: ", method)))
    }
}

/// Handle a JSON-RPC request over HTTP.
pub fn handle_jsonrpc_request(request: &JsonValue, state: &mut AppState) -> (r: Step)
    ensures
        exists|at: InstantParts| r@ == http_step(request@, at),
        exists|m: Moment| #[trigger] m.is_clock_reading() && r@ == http_step(request@, m@),
        final(state).auth_token == old(state).auth_token,
        final(state).timezone_cache@ == http_cache(old(state).timezone_cache@, request@),
{
    let t = now();
    let r = handle_jsonrpc_request_at(request, state, &t);
    assert(t.is_clock_reading());
    r
}

/// Every reply keeps the request's id; a request without a method is refused over
/// stdio, and an unknown method is answered with "Method not found" on both transports.
pub proof fn lemma_dispatch_replies(request: Json, at: InstantParts)
    ensures
        (stdio_step(request, at) matches StepView::Respond(r) ==> r.id == json_get(request, "id"@)
            && r.jsonrpc == "2.0"@),
        (http_step(request, at) matches StepView::Respond(r) ==> r.id == json_get(request, "id"@)
            && r.jsonrpc == "2.0"@),
        json_str_member(request, "method"@) is None ==> stdio_step(request, at) == StepView::Respond(
            err_reply(json_get(request, "id"@), INVALID_REQUEST as int, "Invalid Request - missing method"@),
        ),
{
}

/// The two transports agree on every method they share, except that HTTP answers a
/// malformed `resources/read` or `tools/call` with a status, and an unknown resource
/// with 404.
pub proof fn lemma_transports_agree(request: Json, at: InstantParts)
    requires
        json_str_member(request, "method"@) matches Some(m) && (m == "initialize"@ || m
            == "tools/list"@ || m == "resources/list"@),
    ensures
        stdio_step(request, at) == http_step(request, at),
{
}

/// The expected `Authorization` header for a token.
pub open spec fn bearer(token: Seq<char>) -> Seq<char> {
    "Bearer "@ + token
}

/// Whether a request is let through: health and version are open; with no token
/// configured everything is open; otherwise the `Authorization` header must be
/// `Bearer ` followed by exactly the token.
pub open spec fn admits(path: Seq<char>, expected_token: Option<Seq<char>>, authorization: Option<Seq<char>>) -> bool {
    ||| path == "/health"@
    ||| path == "/version"@
    ||| expected_token is None
    ||| match (expected_token, authorization) {
        (Some(token), Some(header)) => has_prefix(header, "Bearer "@) && header.subrange(
            7,
            header.len() as int,
        ) == token,
        _ => false,
    }
}

/// Authentication rule: whether a request for `path` with this `Authorization` header
/// may proceed, given the configured token.
pub fn authorize(path: &str, expected_token: Option<&str>, authorization: Option<&str>) -> (r: bool)
    ensures
        r == admits(
            path@,
            match expected_token {
                Some(t) => Some(t@),
                None => None,
            },
            match authorization {
                Some(h) => Some(h@),
                None => None,
            },
        ),
{
    proof {
        reveal_strlit("Bearer ");
    }
    if str_equal(path, "/health") || str_equal(path, "/version") {
        return true;
    }
    let expected = match expected_token {
        Some(t) => t,
        None => return true,
    };
    let header = match authorization {
        Some(h) => h,
        None => return false,
    };
    if !starts_with(header, "Bearer ") {
        return false;
    }
    let token = skip_chars(header, 7);
    str_equal(token, expected)
}

/// With a token configured, a protected path is opened by exactly one header value:
/// `Bearer ` followed by the token.
pub proof fn lemma_bearer_is_the_only_key(path: Seq<char>, token: Seq<char>, header: Seq<char>)
    requires
        path != "/health"@,
        path != "/version"@,
    ensures
        admits(path, Some(token), Some(header)) <==> header == bearer(token),
        !admits(path, Some(token), None),
{
    reveal_strlit("Bearer ");
    let b = bearer(token);
    assert(b.subrange(0, 7) =~= "Bearer "@);
    assert(b.subrange(7, b.len() as int) =~= token);
    if has_prefix(header, "Bearer "@) && header.subrange(7, header.len() as int) == token {
        assert(header =~= header.subrange(0, 7) + header.subrange(7, header.len() as int));
    }
}

/// The answer to `GET /api/v1/time`.
pub struct TimeResponse {
    pub time: String,
    pub timezone: String,
    pub unix: i64,
    pub utc: String,
}

/// The JSON form of a time answer: its four fields, in the order declared.
pub open spec fn time_response_json(time: Seq<char>, timezone: Seq<char>, unix: int, utc: Seq<char>) -> Json {
    obj(
        seq![
            ("time"@, Json::Str(time)),
            ("timezone"@, Json::Str(timezone)),
            ("unix"@, Json::Int(unix)),
            ("utc"@, Json::Str(utc)),
        ],
    )
}

impl TimeResponse {
    /// The JSON document that `GET /api/v1/time` sends for this answer.
    pub fn to_json(&self) -> (r: JsonValue)
        ensures
            r@ == time_response_json(self.time@, self.timezone@, self.unix as int, self.utc@),
    {
        obj4(
            "time",
            json_str(self.time.as_str()),
            "timezone",
            json_str(self.timezone.as_str()),
            "unix",
            json_int(self.unix),
            "utc",
            json_str(self.utc.as_str()),
        )
    }
}

/// What `GET /api/v1/time` answers for a zone name, the local reading taken at `local`
/// and the UTC reading at `utc`: 400 for an unknown zone.
pub open spec fn time_report(timezone: Seq<char>, local: InstantParts, utc: InstantParts) -> Result<(Seq<char>, Seq<char>, int, Seq<char>), int> {
    if tz_name_known(timezone) {
        Ok((rfc3339_in_zone_text(local, timezone), timezone, local.0 as int, rfc3339_utc_text(utc)))
    } else {
        Err(400)
    }
}

/// The views of a time answer.
pub open spec fn time_response_view(r: Result<TimeResponse, u16>) -> Result<(Seq<char>, Seq<char>, int, Seq<char>), int> {
    match r {
        Ok(t) => Ok((t.time@, t.timezone@, t.unix as int, t.utc@)),
        Err(code) => Err(code as int),
    }
}

/// The zone a time request asks for: the one given, else UTC.
pub open spec fn requested_zone(timezone: Option<Seq<char>>) -> Seq<char> {
    match timezone {
        Some(t) => t,
        None => "UTC"@,
    }
}

/// The answer to a time request, with the two readings of the clock given.
pub fn time_response_at(timezone: &str, local: &Moment, utc: &Moment) -> (r: Result<TimeResponse, u16>)
    ensures
        time_response_view(r) == time_report(timezone@, local@, utc@),
        builtin_zone_name(timezone@) ==> r is Ok,
{
    match Zone::parse(timezone) {
        Some(tz) => Ok(
            TimeResponse {
                time: local.rfc3339_in(&tz),
                timezone: String::from_str(timezone),
                unix: local.unix_seconds(),
                utc: utc.rfc3339_utc(),
            },
        ),
        None => Err(400),
    }
}

/// Handle `GET /api/v1/time` and `GET /api/v1/time/{timezone}`: the current time in the
/// requested zone (UTC when none is given), or 400 for an unknown zone.
pub fn get_time(timezone: Option<&str>) -> (r: Result<TimeResponse, u16>)
    ensures
        exists|local: InstantParts, utc: InstantParts|
            time_response_view(r) == #[trigger] time_report(
                requested_zone(opt_text(timezone)),
                local,
                utc,
            ),
        exists|local: Moment, utc: Moment|
            #![trigger local.is_clock_reading(), utc.is_clock_reading()]
            local.is_clock_reading() && utc.is_clock_reading() && time_response_view(r) == time_report(
                requested_zone(opt_text(timezone)),
                local@,
                utc@,
            ),
        r is Err <==> !tz_name_known(requested_zone(opt_text(timezone))),
        timezone is None ==> r is Ok,
{
    let zone = match timezone {
        Some(t) => t,
        None => "UTC",
    };
    let local = now();
    let utc = now();
    let r = time_response_at(zone, &local, &utc);
    assert(requested_zone(opt_text(timezone)) == zone@);
    assert(time_response_view(r) == time_report(requested_zone(opt_text(timezone)), local@, utc@));
    assert(local.is_clock_reading() && utc.is_clock_reading());
    r
}

/// The value of the first argument named `key`.
pub open spec fn argument(arguments: Seq<(String, String)>, key: Seq<char>) -> Option<Seq<char>>
    decreases arguments.len(),
{
    if arguments.len() == 0 {
        None
    } else if arguments[0].0@ == key {
        Some(arguments[0].1@)
    } else {
        argument(arguments.drop_first(), key)
    }
}

/// An argument's text, or the empty text.
pub open spec fn argument_or_empty(arguments: Seq<(String, String)>, key: Seq<char>) -> Seq<char> {
    match argument(arguments, key) {
        Some(v) => v,
        None => Seq::empty(),
    }
}

/// The text of the prompt named `name`, filled in from the arguments.
pub open spec fn prompt_text(name: Seq<char>, arguments: Seq<(String, String)>) -> Option<Seq<char>> {
    if name == "compare_timezones"@ {
        Some(compare_timezones_text(argument_or_empty(arguments, "timezones"@), argument(arguments, "reference_time"@)))
    } else if name == "schedule_meeting"@ {
        Some(
            schedule_meeting_text(
                argument_or_empty(arguments, "participants"@),
                match argument(arguments, "duration"@) {
                    Some(d) => d,
                    None => "60"@,
                },
                match argument(arguments, "preferred_hours"@) {
                    Some(h) => h,
                    None => "9 AM - 5 PM"@,
                },
                match argument(arguments, "date_range"@) {
                    Some(d) => d,
                    None => "next 7 days"@,
                },
            ),
        )
    } else if name == "convert_time_detailed"@ {
        Some(
            convert_time_detailed_text(
                argument_or_empty(arguments, "time"@),
                argument_or_empty(arguments, "from_timezone"@),
                argument_or_empty(arguments, "to_timezones"@),
                argument(arguments, "include_context"@) == Some("true"@),
            ),
        )
    } else {
        None
    }
}

/// The arguments as a JSON object of strings.
pub open spec fn arguments_json(arguments: Seq<(String, String)>) -> Json {
    obj(Seq::new(arguments.len(), |i: int| (arguments[i].0@, Json::Str(arguments[i].1@))))
}

/// What `POST /api/v1/prompts/{name}/execute` answers: the prompt name, its arguments
/// and its text; `None` (404) for an unknown prompt.
pub open spec fn executed_prompt_json(name: Seq<char>, arguments: Seq<(String, String)>) -> Option<Json> {
    match prompt_text(name, arguments) {
        Some(text) => Some(
            obj(seq![("prompt"@, Json::Str(name)), ("arguments"@, arguments_json(arguments)), ("text"@, Json::Str(text))]),
        ),
        None => None,
    }
}

/// The first argument named `key`.
pub fn find_argument<'a>(arguments: &'a Vec<(String, String)>, key: &str) -> (r: Option<&'a str>)
    ensures
        match r {
            Some(v) => argument(arguments@, key@) == Some(v@),
            None => argument(arguments@, key@) is None,
        },
{
    let n = arguments.len();
    let mut k: usize = 0;
    assert(arguments@.subrange(0, n as int) =~= arguments@);
    while k < n
        invariant
            n == arguments@.len(),
            k <= n,
            argument(arguments@, key@) == argument(arguments@.subrange(k as int, n as int), key@),
        decreases n - k,
    {
        let ghost rest = arguments@.subrange(k as int, n as int);
        assert(rest[0] == arguments@[k as int]);
        assert(rest.drop_first() =~= arguments@.subrange(k + 1, n as int));
        if str_equal(arguments[k].0.as_str(), key) {
            return Some(arguments[k].1.as_str());
        }
        k = k + 1;
    }
    None
}

fn argument_text<'a>(arguments: &'a Vec<(String, String)>, key: &str) -> (r: &'a str)
    ensures
        r@ == argument_or_empty(arguments@, key@),
{
    proof {
        reveal_strlit("");
    }
    match find_argument(arguments, key) {
        Some(v) => v,
        None => "",
    }
}

fn arguments_object(arguments: &Vec<(String, String)>) -> (r: JsonValue)
    ensures
        r@ == arguments_json(arguments@),
{
    let mut v: Vec<(String, JsonValue)> = Vec::new();
    let n = arguments.len();
    for k in 0..n
        invariant
            n == arguments@.len(),
            v@.len() == k,
            forall|i: int| 0 <= i < k ==> #[trigger] v@[i].0@ == arguments@[i].0@,
            forall|i: int| 0 <= i < k ==> #[trigger] v@[i].1@ == Json::Str(arguments@[i].1@),
    {
        v.push((arguments[k].0.clone(), json_string(arguments[k].1.clone())));
    }
    let r = json_object(v);
    assert(crate::json::entries_view(v@) =~= Seq::new(
        arguments@.len(),
        |i: int| (arguments@[i].0@, Json::Str(arguments@[i].1@)),
    ));
    r
}

/// Handle `POST /api/v1/prompts/{name}/execute`: the filled-in prompt, or `None` for an
/// unknown prompt name.
pub fn execute_prompt(name: &str, arguments: &Vec<(String, String)>) -> (r: Option<JsonValue>)
    ensures
        match r {
            Some(v) => executed_prompt_json(name@, arguments@) == Some(v@),
            None => executed_prompt_json(name@, arguments@) is None,
        },
{
    let text = if str_equal(name, "compare_timezones") {
        generate_compare_timezones_prompt(
            argument_text(arguments, "timezones"),
            find_argument(arguments, "reference_time"),
        )
    } else if str_equal(name, "schedule_meeting") {
        generate_schedule_meeting_prompt(
            argument_text(arguments, "participants"),
            find_argument(arguments, "duration"),
            find_argument(arguments, "preferred_hours"),
            find_argument(arguments, "date_range"),
        )
    } else if str_equal(name, "convert_time_detailed") {
        let include_context = match find_argument(arguments, "include_context") {
            Some(v) => str_equal(v, "true"),
            None => false,
        };
        generate_convert_time_detailed_prompt(
            argument_text(arguments, "time"),
            argument_text(arguments, "from_timezone"),
            argument_text(arguments, "to_timezones"),
            include_context,
        )
    } else {
        return None;
    };
    Some(obj3("prompt", json_str(name), "arguments", arguments_object(arguments), "text", json_string(text)))
}

/// The resource a REST path segment names, at the instant `at`.
pub open spec fn rest_resource(slug: Seq<char>, at: InstantParts) -> Option<Json> {
    if slug == "timezone-info"@ {
        Some(timezone_info_json())
    } else if slug == "current-world"@ {
        Some(world_times_json(at))
    } else if slug == "time-formats"@ {
        Some(time_formats_json())
    } else if slug == "business-hours"@ {
        Some(business_hours_json())
    } else {
        None
    }
}

/// Handle `GET /api/v1/resources/{uri}` with `now` as the current instant: the resource,
/// or `None` (404) for an unknown one.
pub fn get_resource_at(slug: &str, now: &Moment) -> (r: Option<JsonValue>)
    ensures
        match r {
            Some(v) => rest_resource(slug@, now@) == Some(v@),
            None => rest_resource(slug@, now@) is None,
        },
{
    if str_equal(slug, "timezone-info") {
        Some(get_timezone_info())
    } else if str_equal(slug, "current-world") {
        Some(get_current_world_times_at(now))
    } else if str_equal(slug, "time-formats") {
        Some(get_time_formats())
    } else if str_equal(slug, "business-hours") {
        Some(get_business_hours())
    } else {
        None
    }
}

/// Handle `GET /api/v1/resources/{uri}`.
pub fn get_resource(slug: &str) -> (r: Option<JsonValue>)
    ensures
        exists|at: InstantParts|
            match r {
                Some(v) => rest_resource(slug@, at) == Some(v@),
                None => rest_resource(slug@, at) is None,
            },
        exists|m: Moment|
            #[trigger] m.is_clock_reading() && match r {
                Some(v) => rest_resource(slug@, m@) == Some(v@),
                None => rest_resource(slug@, m@) is None,
            },
{
    let t = now();
    let r = get_resource_at(slug, &t);
    assert(t.is_clock_reading());
    r
}

/// The acknowledgement of a message posted to the SSE endpoint.
pub open spec fn sse_ack_json(request: Json) -> Json {
    obj(seq![("status"@, Json::Str("received"@)), ("request"@, request)])
}

/// Handle a message posted to the SSE endpoint: acknowledge it, echoing the request.
pub fn sse_message_ack(request: JsonValue) -> (r: JsonValue)
    ensures
        r@ == sse_ack_json(request@),
{
    obj2("status", json_str("received"), "request", request)
}

/// The page that shows the API documentation (Swagger UI reading `/api/v1/openapi.json`).
pub const API_DOCS_HTML: &'static str = "<!DOCTYPE html>
<html lang=\"en\">
<head>
    <meta charset=\"UTF-8\">
    <title>Fast Time Server API Documentation</title>
    <link rel=\"stylesheet\" href=\"https://cdn.jsdelivr.net/npm/swagger-ui-dist@5/swagger-ui.css\">
</head>
<body>
    <div id=\"swagger-ui\"></div>
    <script src=\"https://cdn.jsdelivr.net/npm/swagger-ui-dist@5/swagger-ui-bundle.js\"></script>
    <script>
        window.onload = function() {
            SwaggerUIBundle({
                url: \"/api/v1/openapi.json\",
                dom_id: '#swagger-ui',
                presets: [
                    SwaggerUIBundle.presets.apis,
                    SwaggerUIBundle.SwaggerUIStandalonePreset
                ],
                layout: \"BaseLayout\"
            });
        }
    </script>
</body>
</html>";

} // verus!
