// Tests: JSON-RPC dispatch, REST answers and the bearer-token rule

use fast_time_server::clock::parse_rfc3339;
use fast_time_server::json::{json_null, json_str, json_uint, obj1, obj2, obj3, JsonValue};
use fast_time_server::mcp::JsonRpcResponse;
use fast_time_server::resources::{get_current_world_times_at, get_current_world_times_cached_at, get_timezone_info};
use fast_time_server::server::{
    authorize, execute_prompt, get_resource_at, get_time, handle_jsonrpc_request_at,
    handle_stdio_request_at, parse_error_response, resource_response, sse_message_ack,
    stdio_request_text, time_response_at, Step,
};
use fast_time_server::AppState;

fn request(method: Option<&str>, params: Option<JsonValue>) -> JsonValue {
    let mut members = vec![("jsonrpc".to_string(), json_str("2.0")), ("id".to_string(), json_uint(7))];
    if let Some(m) = method {
        members.push(("method".to_string(), json_str(m)));
    }
    if let Some(p) = params {
        members.push(("params".to_string(), p));
    }
    JsonValue::Object(members)
}

fn response(step: Step) -> JsonRpcResponse {
    match step {
        Step::Respond(r) => r,
        _ => panic!("expected a response"),
    }
}

#[test]
fn test_stdio_dispatch_errors() {
    let at = parse_rfc3339("2025-06-21T16:00:00Z").unwrap();
    let r = response(handle_stdio_request_at(&request(None, None), &at));
    assert_eq!(r.id, Some(json_uint(7)));
    let e = r.error.unwrap();
    assert_eq!((e.code, e.message.as_str()), (-32600, "Invalid Request - missing method"));

    let r = response(handle_stdio_request_at(&request(Some("frobnicate"), None), &at));
    let e = r.error.unwrap();
    assert_eq!((e.code, e.message.as_str()), (-32601, "Method not found: frobnicate"));

    let r = response(handle_stdio_request_at(&request(Some("tools/call"), None), &at));
    assert_eq!(r.error.unwrap().message, "Invalid Request - missing params");

    let r = response(handle_stdio_request_at(&request(Some("resources/read"), Some(obj1("uri", json_str("x://y")))), &at));
    let e = r.error.unwrap();
    assert_eq!((e.code, e.message.as_str()), (-32000, "Resource not found: x://y"));
}

#[test]
fn test_stdio_dispatch_results() {
    let at = parse_rfc3339("2025-06-21T16:00:00Z").unwrap();
    let r = response(handle_stdio_request_at(&request(Some("initialize"), None), &at));
    let result = r.result.unwrap();
    assert_eq!(result.get_str("protocolVersion"), Some("1.0"));
    assert_eq!(result.get("serverInfo").unwrap().get_str("name"), Some("fast-time-server"));
    assert_eq!(result.get("serverInfo").unwrap().get_str("version"), Some("1.5.0"));

    let r = response(handle_stdio_request_at(&request(Some("tools/list"), None), &at));
    assert_eq!(r.result.unwrap().get("tools").unwrap().len(), 2);

    let r = response(handle_stdio_request_at(&request(Some("resources/list"), None), &at));
    assert_eq!(r.result.unwrap().get("resources").unwrap().len(), 4);

    let r = response(handle_stdio_request_at(&request(Some("prompts/list"), None), &at));
    assert_eq!(r.result.unwrap().get("prompts").unwrap().len(), 0);

    let call = obj2("name", json_str("get_system_time"), "arguments", obj1("timezone", json_str("Asia/Tokyo")));
    let r = response(handle_stdio_request_at(&request(Some("tools/call"), Some(call)), &at));
    let result = r.result.unwrap();
    let block = &result.get("content").and_then(|c| c.as_array()).unwrap()[0];
    assert_eq!(block.get_str("text"), Some("2025-06-22T01:00:00+09:00"));

    let call = obj1("name", json_str("get_system_time"));
    let r = response(handle_stdio_request_at(&request(Some("tools/call"), Some(call)), &at));
    let result = r.result.unwrap();
    let block = &result.get("content").and_then(|c| c.as_array()).unwrap()[0];
    assert_eq!(block.get_str("text"), Some("2025-06-21T16:00:00+00:00"));

    let call = obj1("name", json_str("nothing"));
    let r = response(handle_stdio_request_at(&request(Some("tools/call"), Some(call)), &at));
    let e = r.error.unwrap();
    assert_eq!((e.code, e.message.as_str()), (-32000, "Unknown tool: nothing"));

    match handle_stdio_request_at(&request(Some("resources/read"), Some(obj1("uri", json_str("timezone://info")))), &at) {
        Step::SendResource { id, uri, resource } => {
            assert_eq!(id, Some(json_uint(7)));
            assert_eq!(uri, "timezone://info");
            assert_eq!(resource, get_timezone_info());
        },
        _ => panic!("expected a resource"),
    }
}

#[test]
fn test_http_dispatch() {
    let at = parse_rfc3339("2025-06-21T16:00:00Z").unwrap();
    let mut state = AppState::new(None);
    let r = response(handle_jsonrpc_request_at(&request(None, None), &mut state, &at));
    assert_eq!(r.error.unwrap().message, "Method not found: ");

    let r = response(handle_jsonrpc_request_at(&request(Some("prompts/list"), None), &mut state, &at));
    assert_eq!(r.error.unwrap().code, -32601);

    assert!(matches!(handle_jsonrpc_request_at(&request(Some("resources/read"), None), &mut state, &at), Step::Status(400)));
    assert!(matches!(
        handle_jsonrpc_request_at(&request(Some("resources/read"), Some(json_null())), &mut state, &at),
        Step::Status(400)
    ));
    assert!(matches!(
        handle_jsonrpc_request_at(&request(Some("resources/read"), Some(obj1("uri", json_str("x://y")))), &mut state, &at),
        Step::Status(404)
    ));
    assert!(matches!(
        handle_jsonrpc_request_at(&request(Some("tools/call"), Some(obj1("arguments", json_null()))), &mut state, &at),
        Step::Status(400)
    ));

    match handle_jsonrpc_request_at(&request(Some("resources/read"), Some(obj1("uri", json_str("time://current/world")))), &mut state, &at) {
        Step::SendResource { resource, .. } => {
            assert_eq!(resource, get_current_world_times_at(&at));
            assert_eq!(state.timezone_cache.len(), 7);
        },
        _ => panic!("expected a resource"),
    }

    let call = obj2(
        "name",
        json_str("convert_time"),
        "arguments",
        obj3("time", json_str("2025-06-21T16:00:00Z"), "source_timezone", json_str("UTC"), "target_timezone", json_str("Asia/Dubai")),
    );
    let r = response(handle_jsonrpc_request_at(&request(Some("tools/call"), Some(call)), &mut state, &at));
    let result = r.result.unwrap();
    let block = &result.get("content").and_then(|c| c.as_array()).unwrap()[0];
    assert_eq!(block.get_str("text"), Some("2025-06-21T20:00:00+04:00"));
}

#[test]
fn test_world_times_at_fixed_instant() {
    let at = parse_rfc3339("2025-06-21T16:00:00Z").unwrap();
    let world = get_current_world_times_at(&at);
    assert_eq!(world.get_str("last_updated"), Some("2025-06-21T16:00:00+00:00"));
    let times = world.get("times").unwrap();
    assert_eq!(times.len(), 7);
    assert_eq!(times.get_str("Tokyo"), Some("2025-06-22 01:00:00 JST"));
    assert_eq!(times.get_str("New York"), Some("2025-06-21 12:00:00 EDT"));
    assert_eq!(times.get_str("London"), Some("2025-06-21 17:00:00 BST"));
    let mut state = AppState::new(None);
    assert_eq!(get_current_world_times_cached_at(&mut state, &at), world);
}

#[test]
fn test_response_json_forms() {
    let ok = JsonRpcResponse::success(Some(json_uint(1)), json_str("r"));
    let j = ok.to_json();
    assert_eq!(j.get_str("jsonrpc"), Some("2.0"));
    assert_eq!(j.get_str("result"), Some("r"));
    assert_eq!(j.get("error"), None);
    assert_eq!(j.get("id"), Some(&json_uint(1)));

    let parse = parse_error_response().to_json();
    assert_eq!(parse.get("id"), Some(&json_null()));
    assert_eq!(parse.get("error").unwrap().get("code").unwrap().as_i64(), Some(-32700));
    assert_eq!(parse.get("error").unwrap().get_str("message"), Some("Parse error"));
    assert_eq!(parse.get("result"), None);

    let read = resource_response(Some(json_str("a")), "time://formats", "{}".to_string());
    let contents = read.result.unwrap();
    let block = &contents.get("contents").and_then(|c| c.as_array()).unwrap()[0];
    assert_eq!(block.get_str("uri"), Some("time://formats"));
    assert_eq!(block.get_str("mimeType"), Some("application/json"));
    assert_eq!(block.get_str("text"), Some("{}"));
}

#[test]
fn test_stdio_request_text() {
    assert_eq!(stdio_request_text("   \n"), None);
    assert_eq!(stdio_request_text(""), None);
    assert_eq!(stdio_request_text("  {\"a\":1} \r\n"), Some("{\"a\":1}"));
    // White space is what Unicode calls White_Space, not only ASCII.
    assert_eq!(stdio_request_text("\u{3000}{}\u{a0}\u{2029}"), Some("{}"));
    assert_eq!(stdio_request_text("\u{85}\t\u{200a}\u{b}"), None);
    assert_eq!(stdio_request_text("\u{200b}x"), Some("\u{200b}x"));
}

#[test]
fn test_authorize() {
    // Health and version are always open.
    assert!(authorize("/health", Some("t0k"), None));
    assert!(authorize("/version", Some("t0k"), Some("Bearer wrong")));
    // Without a token, everything is open.
    assert!(authorize("/", None, None));
    // With a token, only the exact bearer header opens the rest.
    assert!(authorize("/", Some("t0k"), Some("Bearer t0k")));
    assert!(!authorize("/", Some("t0k"), None));
    assert!(!authorize("/", Some("t0k"), Some("Bearer t0k ")));
    assert!(!authorize("/", Some("t0k"), Some("bearer t0k")));
    assert!(!authorize("/", Some("t0k"), Some("t0k")));
    assert!(!authorize("/api/v1/time", Some(""), Some("Bearer")));
    assert!(authorize("/api/v1/time", Some(""), Some("Bearer ")));
}

#[test]
fn test_time_endpoint() {
    let local = parse_rfc3339("2026-04-15T11:30:45Z").unwrap();
    let utc = parse_rfc3339("2026-04-15T11:30:46Z").unwrap();
    let r = time_response_at("Europe/London", &local, &utc).unwrap();
    assert_eq!(r.time, "2026-04-15T12:30:45+01:00");
    assert_eq!(r.timezone, "Europe/London");
    assert_eq!(r.unix, 1776252645);
    assert_eq!(r.utc, "2026-04-15T11:30:46+00:00");
    assert!(matches!(time_response_at("Nope", &local, &utc), Err(400)));
    assert!(matches!(get_time(Some("Nope")), Err(400)));
    let now = get_time(None).unwrap();
    assert_eq!(now.timezone, "UTC");
    assert!(now.time.ends_with("+00:00"));
}

#[test]
fn test_execute_prompt() {
    let args = vec![("timezones".to_string(), "UTC,Asia/Tokyo".to_string())];
    let r = execute_prompt("compare_timezones", &args).unwrap();
    assert_eq!(r.get_str("prompt"), Some("compare_timezones"));
    assert_eq!(r.get("arguments").unwrap().get_str("timezones"), Some("UTC,Asia/Tokyo"));
    assert!(r.get_str("text").unwrap().starts_with("Compare the current time across these time zones: UTC,Asia/Tokyo\n"));

    let with_context = vec![("include_context".to_string(), "true".to_string()), ("time".to_string(), "noon".to_string())];
    let r = execute_prompt("convert_time_detailed", &with_context).unwrap();
    assert_eq!(
        r.get_str("text"),
        Some("Convert noon from  to: \n\nAlso provide:\n1. Day of week in each timezone\n2. Whether it's a business day\n3. Time until/since this moment\n")
    );
    let not_bool = vec![("include_context".to_string(), "yes".to_string())];
    let r = execute_prompt("convert_time_detailed", &not_bool).unwrap();
    assert_eq!(r.get_str("text"), Some("Convert  from  to: \n"));

    let meeting = execute_prompt("schedule_meeting", &Vec::new()).unwrap();
    assert_eq!(
        meeting.get_str("text"),
        Some("Find the best meeting time for participants in: \n\nMeeting details:\n- Duration: 60 minutes\n- Preferred hours: 9 AM - 5 PM local time\n- Date range: next 7 days\n")
    );
    assert!(execute_prompt("unknown", &args).is_none());
}

#[test]
fn test_rest_resources() {
    let at = parse_rfc3339("2025-06-21T16:00:00Z").unwrap();
    assert_eq!(get_resource_at("timezone-info", &at), Some(get_timezone_info()));
    assert_eq!(get_resource_at("current-world", &at), Some(get_current_world_times_at(&at)));
    assert!(get_resource_at("time-formats", &at).is_some());
    assert!(get_resource_at("business-hours", &at).is_some());
    assert_eq!(get_resource_at("timezone://info", &at), None);
}

#[test]
fn test_sse_message_ack() {
    let ack = sse_message_ack(obj1("method", json_str("ping")));
    assert_eq!(ack.get_str("status"), Some("received"));
    assert_eq!(ack.get("request").unwrap().get_str("method"), Some("ping"));
}
