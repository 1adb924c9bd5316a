// Tests: the OpenAPI document of the REST API

use fast_time_server::openapi::get_openapi_spec;

#[test]
fn test_openapi_endpoint() {
    let spec = get_openapi_spec();

    // Verify it's a valid JSON object
    assert!(spec.is_object(), "OpenAPI spec should be a JSON object");

    // Verify required OpenAPI fields
    assert_eq!(spec.get("openapi").and_then(|v| v.as_str()).unwrap(), "3.0.0");

    // Verify info section
    let info = spec.get("info").expect("Should have info field");
    assert_eq!(info.get("title").and_then(|v| v.as_str()).unwrap(), "Fast Time Server API");

    // Verify paths exist
    let paths = spec.get("paths").filter(|v| v.is_object()).expect("Should have paths");
    assert!(paths.contains_key("/api/v1/time"), "Should have /api/v1/time endpoint");

    // Verify the time endpoint has GET method
    let time_path = paths.get("/api/v1/time").filter(|v| v.is_object()).unwrap();
    assert!(time_path.contains_key("get"), "Time endpoint should have GET method");
}

#[test]
fn test_openapi_has_required_fields() {
    let spec = get_openapi_spec();

    // Check top-level required fields
    assert!(spec.get("openapi").is_some(), "Missing 'openapi' field");
    assert!(spec.get("info").is_some(), "Missing 'info' field");
    assert!(spec.get("servers").is_some(), "Missing 'servers' field");
    assert!(spec.get("paths").is_some(), "Missing 'paths' field");

    // Check info object required fields
    let info = spec.get("info").unwrap();
    assert!(info.get("title").is_some(), "Missing 'info.title' field");
    assert!(info.get("description").is_some(), "Missing 'info.description' field");
    assert!(info.get("version").is_some(), "Missing 'info.version' field");
}

#[test]
fn test_openapi_info_values() {
    let spec = get_openapi_spec();
    let info = spec.get("info").expect("info field should exist");

    let title = info.get("title").and_then(|v| v.as_str()).expect("title should be a string");
    assert_eq!(title, "Fast Time Server API");

    let description = info.get("description").and_then(|v| v.as_str()).expect("description should be a string");
    assert_eq!(description, "REST API for time-related operations");

    let version = info.get("version").and_then(|v| v.as_str()).expect("version should be a string");
    assert_eq!(version, "1.0.0");
}

#[test]
fn test_openapi_paths_exist() {
    let spec = get_openapi_spec();
    let paths = spec.get("paths").filter(|v| v.is_object()).expect("paths should be an object");

    assert!(paths.contains_key("/api/v1/time"), "Should contain /api/v1/time path");
}

#[test]
fn test_openapi_servers_defined() {
    let spec = get_openapi_spec();
    let servers = spec.get("servers").and_then(|v| v.as_array()).expect("servers should be an array");

    assert!(!servers.is_empty(), "servers array should not be empty");

    let first_server = &servers[0];
    let url = first_server.get("url").and_then(|v| v.as_str()).expect("server url should be a string");
    assert_eq!(url, "http://localhost:8080");

    let description =
        first_server.get("description").and_then(|v| v.as_str()).expect("server description should be a string");
    assert_eq!(description, "Local development server");
}

#[test]
fn test_openapi_time_endpoint_get() {
    let spec = get_openapi_spec();
    let paths = spec.get("paths").filter(|v| v.is_object()).expect("paths should be an object");

    let time_path = paths.get("/api/v1/time").filter(|v| v.is_object()).expect("/api/v1/time should be an object");

    assert!(time_path.contains_key("get"), "Should have GET method");

    let get_method = time_path.get("get").filter(|v| v.is_object()).expect("get should be an object");

    assert!(get_method.contains_key("summary"), "GET should have summary");
    assert!(get_method.contains_key("parameters"), "GET should have parameters");
    assert!(get_method.contains_key("responses"), "GET should have responses");
}

#[test]
fn test_openapi_time_parameters() {
    let spec = get_openapi_spec();
    let paths = spec.get("paths").filter(|v| v.is_object()).expect("paths should be an object");

    let time_path = paths.get("/api/v1/time").filter(|v| v.is_object()).expect("/api/v1/time should be an object");

    let get_method = time_path.get("get").filter(|v| v.is_object()).expect("get should be an object");

    let parameters = get_method.get("parameters").and_then(|v| v.as_array()).expect("parameters should be an array");

    assert!(!parameters.is_empty(), "Should have at least one parameter");

    let timezone_param = &parameters[0];
    let name = timezone_param.get("name").and_then(|v| v.as_str()).expect("parameter name should be a string");
    assert_eq!(name, "timezone");

    let in_location = timezone_param.get("in").and_then(|v| v.as_str()).expect("parameter 'in' should be a string");
    assert_eq!(in_location, "query");

    let schema = timezone_param.get("schema").filter(|v| v.is_object()).expect("parameter schema should be an object");

    let param_type = schema.get("type").and_then(|v| v.as_str()).expect("schema type should be a string");
    assert_eq!(param_type, "string");

    let default = schema.get("default").and_then(|v| v.as_str()).expect("schema default should be a string");
    assert_eq!(default, "UTC");
}

#[test]
fn test_openapi_time_responses() {
    let spec = get_openapi_spec();
    let paths = spec.get("paths").filter(|v| v.is_object()).expect("paths should be an object");

    let time_path = paths.get("/api/v1/time").filter(|v| v.is_object()).expect("/api/v1/time should be an object");

    let get_method = time_path.get("get").filter(|v| v.is_object()).expect("get should be an object");

    let responses = get_method.get("responses").filter(|v| v.is_object()).expect("responses should be an object");

    assert!(responses.contains_key("200"), "Should have 200 response");

    let success_response = responses.get("200").filter(|v| v.is_object()).expect("200 response should be an object");

    let description =
        success_response.get("description").and_then(|v| v.as_str()).expect("response description should be a string");
    assert_eq!(description, "Current time information");
}

#[test]
fn test_openapi_version_format() {
    let spec = get_openapi_spec();

    let openapi_version = spec.get("openapi").and_then(|v| v.as_str()).expect("openapi field should be a string");

    assert_eq!(openapi_version, "3.0.0", "OpenAPI version should be 3.0.0");
}
