// Tests: configuration helpers, text helpers and the JSON document model

use fast_time_server::json::{
    json_empty_object, json_int, json_null, json_str, json_string, json_uint, obj1, obj2, JsonValue,
};
use fast_time_server::{
    format_listen_address, get_listen_address, logging_filter, parse_log_level, Args, APP_NAME,
    APP_VERSION, DEFAULT_PORT,
};

#[test]
fn test_parse_log_level_ignores_case() {
    assert_eq!(parse_log_level("WaRnInG"), "warn");
    assert_eq!(parse_log_level("Off"), "off");
    assert_eq!(parse_log_level("NONE"), "off");
    assert_eq!(parse_log_level(" debug"), "info");
}

#[test]
fn test_logging_filter_at_startup() {
    assert_eq!(logging_filter("DEBUG"), "debug");
    assert_eq!(logging_filter("warn"), "warn");
    assert_eq!(logging_filter("Error"), "error");
    // The start-up filter is the one parse_log_level gives.
    assert_eq!(logging_filter("warning"), "warn");
    assert_eq!(logging_filter("off"), "off");
    assert_eq!(logging_filter("None"), "off");
    assert_eq!(logging_filter("info"), "info");
    assert_eq!(logging_filter("verbose"), "info");
}

#[test]
fn test_listen_address_edges() {
    assert_eq!(format_listen_address(None, "h", 0), "h:0");
    assert_eq!(format_listen_address(None, "h", 65535), "h:65535");
    assert_eq!(format_listen_address(None, "", 10), ":10");
    assert_eq!(format_listen_address(Some(""), "h", 10), "");
}

#[test]
fn test_get_listen_address() {
    let mut args = Args {
        transport: "http".to_string(),
        addr: None,
        listen: "0.0.0.0".to_string(),
        port: DEFAULT_PORT,
        public_url: None,
        auth_token: None,
        log_level: "info".to_string(),
    };
    assert_eq!(get_listen_address(&args), "0.0.0.0:8080");
    args.addr = Some("10.0.0.1:1234".to_string());
    assert_eq!(get_listen_address(&args), "10.0.0.1:1234");
}

#[test]
fn test_app_identity() {
    assert_eq!(APP_NAME, "fast-time-server");
    assert_eq!(APP_VERSION, "1.5.0");
}

#[test]
fn test_json_accessors() {
    let doc = obj2("a", json_uint(1), "a", json_str("second"));
    // The first member of a name is the one found.
    assert_eq!(doc.get("a").unwrap().as_u64(), Some(1));
    assert_eq!(doc.get("b"), None);
    assert_eq!(json_str("x").get("a"), None);
    assert_eq!(doc.get_str("a"), None);
    assert_eq!(obj1("k", json_str("v")).get_str("k"), Some("v"));
    assert_eq!(doc.len(), 2);
    assert_eq!(json_null().len(), 0);
    assert!(json_null().is_null());
    assert!(json_empty_object().is_object());
    assert_eq!(json_empty_object().len(), 0);
}

#[test]
fn test_json_numbers() {
    assert_eq!(json_int(-5), JsonValue::Int(-5));
    assert_eq!(json_int(5), JsonValue::UInt(5));
    assert_eq!(json_int(-5).as_u64(), None);
    assert_eq!(json_int(-5).as_i64(), Some(-5));
    assert_eq!(json_uint(u64::MAX).as_i64(), None);
    assert_eq!(json_uint(u64::MAX).as_u64(), Some(u64::MAX));
    assert!(JsonValue::Decimal("1.5".to_string()).is_number());
    assert_eq!(JsonValue::Decimal("1.5".to_string()).as_u64(), None);
    assert_eq!(json_string("s".to_string()).as_bool(), None);
}

#[test]
fn test_json_duplicate() {
    let doc = obj2("list", JsonValue::Array(vec![json_uint(1), json_null()]), "nested", obj1("x", json_str("y")));
    let copy = doc.duplicate();
    assert_eq!(copy, doc);
    assert_eq!(doc.clone(), doc);
}
