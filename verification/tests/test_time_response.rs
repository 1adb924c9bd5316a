// Tests: the JSON form of the answer to GET /api/v1/time

use fast_time_server::json::JsonValue;
use fast_time_server::server::TimeResponse;
use serde_json::{Number, Value};

/// The serde_json value of a library document.
fn to_serde(v: &JsonValue) -> Value {
    match v {
        JsonValue::Null => Value::Null,
        JsonValue::Bool(b) => Value::Bool(*b),
        JsonValue::UInt(n) => Value::Number(Number::from(*n)),
        JsonValue::Int(n) => Value::Number(Number::from(*n)),
        JsonValue::Decimal(text) => text.parse::<Number>().map(Value::Number).unwrap_or(Value::Null),
        JsonValue::String(s) => Value::String(s.clone()),
        JsonValue::Array(items) => Value::Array(items.iter().map(to_serde).collect()),
        JsonValue::Object(entries) => {
            let mut map = serde_json::Map::new();
            for (k, v) in entries {
                map.insert(k.clone(), to_serde(v));
            }
            Value::Object(map)
        }
    }
}

#[test]
fn test_time_response_fields() {
    let response = TimeResponse {
        time: "2026-01-01T00:00:00Z".to_string(),
        timezone: "America/New_York".to_string(),
        unix: 1735689600,
        utc: "2026-01-01T05:00:00Z".to_string(),
    };

    let json = to_serde(&response.to_json());

    // Verify all fields exist
    assert!(json.is_object(), "Response should be an object");
    let obj = json.as_object().unwrap();

    assert_eq!(obj.len(), 4, "Should have exactly 4 fields");
    assert!(obj.contains_key("time"), "Should have 'time' field");
    assert!(obj.contains_key("timezone"), "Should have 'timezone' field");
    assert!(obj.contains_key("unix"), "Should have 'unix' field");
    assert!(obj.contains_key("utc"), "Should have 'utc' field");
}

#[test]
fn test_time_response_json_format() {
    let response = TimeResponse {
        time: "2026-04-15T12:30:45+01:00".to_string(),
        timezone: "Europe/London".to_string(),
        unix: 1776024645,
        utc: "2026-04-15T11:30:45Z".to_string(),
    };

    let json = serde_json::to_string_pretty(&to_serde(&response.to_json())).expect("Should serialize to pretty JSON");

    // Verify JSON contains expected structure
    assert!(json.contains("\"time\""), "JSON should contain 'time' field");
    assert!(json.contains("\"timezone\""), "JSON should contain 'timezone' field");
    assert!(json.contains("\"unix\""), "JSON should contain 'unix' field");
    assert!(json.contains("\"utc\""), "JSON should contain 'utc' field");

    // Verify JSON contains expected values
    assert!(json.contains("Europe/London"), "JSON should contain timezone value");
    assert!(json.contains("1776024645"), "JSON should contain unix timestamp");
}

#[test]
fn test_time_response_serialization() {
    let response = TimeResponse {
        time: "2026-04-15T19:00:00+00:00".to_string(),
        timezone: "UTC".to_string(),
        unix: 1_776_024_000,
        utc: "2026-04-15T19:00:00+00:00".to_string(),
    };

    // Serialize to JSON
    let json = serde_json::to_string(&to_serde(&response.to_json())).expect("Should serialize to JSON");

    // Verify it's valid JSON
    assert!(!json.is_empty(), "JSON should not be empty");

    // Parse back to verify structure
    let parsed: serde_json::Value = serde_json::from_str(&json).expect("Should parse as JSON");

    assert!(parsed.get("time").is_some(), "Should have 'time' field");
    assert!(parsed.get("timezone").is_some(), "Should have 'timezone' field");
    assert!(parsed.get("unix").is_some(), "Should have 'unix' field");
    assert!(parsed.get("utc").is_some(), "Should have 'utc' field");

    assert_eq!(parsed.get("time").unwrap().as_str().unwrap(), "2026-04-15T19:00:00+00:00");
    assert_eq!(parsed.get("timezone").unwrap().as_str().unwrap(), "UTC");
    assert_eq!(parsed.get("unix").unwrap().as_i64().unwrap(), 1_776_024_000);
    assert_eq!(parsed.get("utc").unwrap().as_str().unwrap(), "2026-04-15T19:00:00+00:00");
}

#[test]
fn test_time_response_exact_document() {
    let response = TimeResponse {
        time: "2026-01-01T00:00:00-05:00".to_string(),
        timezone: "America/New_York".to_string(),
        unix: -5,
        utc: "2026-01-01T05:00:00+00:00".to_string(),
    };
    assert_eq!(
        response.to_json(),
        JsonValue::Object(vec![
            ("time".to_string(), JsonValue::String("2026-01-01T00:00:00-05:00".to_string())),
            ("timezone".to_string(), JsonValue::String("America/New_York".to_string())),
            ("unix".to_string(), JsonValue::Int(-5)),
            ("utc".to_string(), JsonValue::String("2026-01-01T05:00:00+00:00".to_string())),
        ])
    );
}
