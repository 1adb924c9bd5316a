//! The OpenAPI description of the REST API.
use vstd::prelude::*;

use crate::json::{arr1, json_str, obj, obj1, obj2, obj3, obj4, Json, JsonValue};

verus! {

/// The OpenAPI document.
pub open spec fn openapi_json() -> Json {
    obj(
        seq![
            ("openapi"@, Json::Str("3.0.0"@)),
            (
                "info"@,
                obj(
                    seq![
                        ("title"@, Json::Str("Fast Time Server API"@)),
                        ("description"@, Json::Str("REST API for time-related operations"@)),
                        ("version"@, Json::Str("1.0.0"@)),
                    ],
                ),
            ),
            (
                "servers"@,
                Json::Array(
                    seq![
                        obj(
                            seq![
                                ("url"@, Json::Str("http://localhost:8080"@)),
                                ("description"@, Json::Str("Local development server"@)),
                            ],
                        ),
                    ],
                ),
            ),
            ("paths"@, obj(seq![("/api/v1/time"@, obj(seq![("get"@, time_operation_json())]))])),
        ],
    )
}

/// The `GET /api/v1/time` operation.
pub open spec fn time_operation_json() -> Json {
    obj(
        seq![
            ("summary"@, Json::Str("Get current system time"@)),
            (
                "parameters"@,
                Json::Array(
                    seq![
                        obj(
                            seq![
                                ("name"@, Json::Str("timezone"@)),
                                ("in"@, Json::Str("query"@)),
                                (
                                    "schema"@,
                                    obj(
                                        seq![
                                            ("type"@, Json::Str("string"@)),
                                            ("default"@, Json::Str("UTC"@)),
                                        ],
                                    ),
                                ),
                            ],
                        ),
                    ],
                ),
            ),
            (
                "responses"@,
                obj(seq![("200"@, obj(seq![("description"@, Json::Str("Current time information"@))]))]),
            ),
        ],
    )
}

fn time_operation() -> (r: JsonValue)
    ensures
        r@ == time_operation_json(),
{
    let parameter = obj3(
        "name",
        json_str("timezone"),
        "in",
        json_str("query"),
        "schema",
        obj2("type", json_str("string"), "default", json_str("UTC")),
    );
    obj3(
        "summary",
        json_str("Get current system time"),
        "parameters",
        arr1(parameter),
        "responses",
        obj1("200", obj1("description", json_str("Current time information"))),
    )
}

/// Get OpenAPI specification for the REST API.
pub fn get_openapi_spec() -> (r: JsonValue)
    ensures
        r@ == openapi_json(),
{
    obj4(
        "openapi",
        json_str("3.0.0"),
        "info",
        obj3(
            "title",
            json_str("Fast Time Server API"),
            "description",
            json_str("REST API for time-related operations"),
            "version",
            json_str("1.0.0"),
        ),
        "servers",
        arr1(
            obj2(
                "url",
                json_str("http://localhost:8080"),
                "description",
                json_str("Local development server"),
            ),
        ),
        "paths",
        obj1("/api/v1/time", obj1("get", time_operation())),
    )
}

} // verus!
