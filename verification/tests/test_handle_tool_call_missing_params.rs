// Test: handle_tool_call with missing required parameters

use fast_time_server::json::{json_str, obj2};
use fast_time_server::tools::handle_tool_call;

#[test]
fn test_handle_tool_call_missing_params() {
    // Missing time parameter
    let args = obj2("source_timezone", json_str("UTC"), "target_timezone", json_str("America/New_York"));

    let result = handle_tool_call("convert_time", &args);

    assert!(result.is_err(), "Should return error for missing time parameter");
    assert!(result.unwrap_err().contains("time parameter is required"));
}
