// Test: handle_tool_call for get_system_time tool

use fast_time_server::json::{json_empty_object, json_str, obj1, JsonValue};
use fast_time_server::tools::handle_tool_call;

fn first_text(value: &JsonValue) -> Option<&str> {
    value.get("content").and_then(|c| c.as_array()).and_then(|c| c.first()).and_then(|b| b.get("text")).and_then(|t| t.as_str())
}

#[test]
fn test_handle_tool_call_get_system_time() {
    // Test with timezone argument
    let args = obj1("timezone", json_str("Europe/London"));
    let result = handle_tool_call("get_system_time", &args);

    assert!(result.is_ok(), "Should successfully call get_system_time");

    let value = result.unwrap();

    // Extract the text content from the MCP structure
    let time_str = first_text(&value).expect("Result should contain a text string in content[0].text");

    // Verify it looks like a timestamp (contains 'T')
    assert!(time_str.contains('T'), "Output should be an ISO 8601/RFC 3339 string");

    // Test with default UTC
    let args_empty = json_empty_object();
    let result_utc = handle_tool_call("get_system_time", &args_empty);

    assert!(result_utc.is_ok(), "Should work with no timezone argument");

    let value_utc = result_utc.unwrap();
    let time_utc_str = first_text(&value_utc).unwrap();

    // UTC results usually end in Z or +00:00
    assert!(time_utc_str.ends_with('Z') || time_utc_str.contains("+00:00"));
}
