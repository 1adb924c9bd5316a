//! The MCP tool catalogue with input schemas and behaviour hints.
use vstd::prelude::*;

use crate::json::{
    arr2, arr3, json_bool, json_empty_object, json_str, obj, obj1, obj2, obj3, obj4, obj5, Json,
    JsonValue,
};
use crate::resources::texts;

verus! {

/// A string property of an input schema.
pub open spec fn string_property_json(description: Seq<char>) -> Json {
    obj(seq![("type"@, Json::Str("string"@)), ("description"@, Json::Str(description))])
}

/// The behaviour hints of a tool: it reads only, destroys nothing and reaches no other
/// system; `idempotent` says whether repeating a call repeats its answer.
pub open spec fn annotations_json(title: Seq<char>, idempotent: bool) -> Json {
    obj(
        seq![
            ("title"@, Json::Str(title)),
            ("readOnlyHint"@, Json::Bool(true)),
            ("destructiveHint"@, Json::Bool(false)),
            ("idempotentHint"@, Json::Bool(idempotent)),
            ("openWorldHint"@, Json::Bool(false)),
        ],
    )
}

/// The description of the `get_system_time` tool.
pub open spec fn system_time_tool_json() -> Json {
    obj(
        seq![
            ("name"@, Json::Str("get_system_time"@)),
            ("description"@, Json::Str("Get current system time in specified timezone"@)),
            (
                "inputSchema"@,
                obj(
                    seq![
                        ("type"@, Json::Str("object"@)),
                        (
                            "properties"@,
                            obj(
                                seq![
                                    (
                                        "timezone"@,
                                        string_property_json(
                                            "IANA timezone name (e.g., 'America/New_York', 'Europe/London'). Defaults to UTC"@,
                                        ),
                                    ),
                                ],
                            ),
                        ),
                        ("required"@, texts(Seq::empty())),
                    ],
                ),
            ),
            ("annotations"@, annotations_json("Get System Time"@, false)),
        ],
    )
}

/// The description of the `convert_time` tool.
pub open spec fn convert_time_tool_json() -> Json {
    obj(
        seq![
            ("name"@, Json::Str("convert_time"@)),
            ("description"@, Json::Str("Convert time between different timezones"@)),
            (
                "inputSchema"@,
                obj(
                    seq![
                        ("type"@, Json::Str("object"@)),
                        (
                            "properties"@,
                            obj(
                                seq![
                                    (
                                        "time"@,
                                        string_property_json(
                                            "Time to convert in RFC3339 format or common formats like '2006-01-02 15:04:05'"@,
                                        ),
                                    ),
                                    ("source_timezone"@, string_property_json("Source IANA timezone name"@)),
                                    ("target_timezone"@, string_property_json("Target IANA timezone name"@)),
                                ],
                            ),
                        ),
                        (
                            "required"@,
                            texts(seq!["time"@, "source_timezone"@, "target_timezone"@]),
                        ),
                    ],
                ),
            ),
            ("annotations"@, annotations_json("Convert Time"@, true)),
        ],
    )
}

/// The tool catalogue.
pub open spec fn tools_list_json() -> Json {
    obj(seq![("tools"@, Json::Array(seq![system_time_tool_json(), convert_time_tool_json()]))])
}

fn string_property(description: &str) -> (r: JsonValue)
    ensures
        r@ == string_property_json(description@),
{
    obj2("type", json_str("string"), "description", json_str(description))
}

fn annotations(title: &str, idempotent: bool) -> (r: JsonValue)
    ensures
        r@ == annotations_json(title@, idempotent),
{
    obj5(
        "title",
        json_str(title),
        "readOnlyHint",
        json_bool(true),
        "destructiveHint",
        json_bool(false),
        "idempotentHint",
        json_bool(idempotent),
        "openWorldHint",
        json_bool(false),
    )
}

fn system_time_tool() -> (r: JsonValue)
    ensures
        r@ == system_time_tool_json(),
{
    let no_names: Vec<crate::json::JsonValue> = Vec::new();
    let required = crate::json::json_array(no_names);
    assert(crate::json::items_view(no_names@) =~= Seq::<Json>::empty());
    assert(texts(Seq::empty()) == Json::Array(Seq::empty())) by {
        assert(Seq::new(0, |i: int| Json::Str(Seq::<Seq<char>>::empty()[i])) =~= Seq::<Json>::empty());
    }
    obj4(
        "name",
        json_str("get_system_time"),
        "description",
        json_str("Get current system time in specified timezone"),
        "inputSchema",
        obj3(
            "type",
            json_str("object"),
            "properties",
            obj1(
                "timezone",
                string_property(
                    "IANA timezone name (e.g., 'America/New_York', 'Europe/London'). Defaults to UTC",
                ),
            ),
            "required",
            required,
        ),
        "annotations",
        annotations("Get System Time", false),
    )
}

fn convert_time_tool() -> (r: JsonValue)
    ensures
        r@ == convert_time_tool_json(),
{
    let required = arr3(json_str("time"), json_str("source_timezone"), json_str("target_timezone"));
    assert(texts(seq!["time"@, "source_timezone"@, "target_timezone"@]) == Json::Array(
        seq![Json::Str("time"@), Json::Str("source_timezone"@), Json::Str("target_timezone"@)],
    )) by {
        assert(Seq::new(
            3,
            |i: int| Json::Str(seq!["time"@, "source_timezone"@, "target_timezone"@][i]),
        ) =~= seq![Json::Str("time"@), Json::Str("source_timezone"@), Json::Str("target_timezone"@)]);
    }
    obj4(
        "name",
        json_str("convert_time"),
        "description",
        json_str("Convert time between different timezones"),
        "inputSchema",
        obj3(
            "type",
            json_str("object"),
            "properties",
            obj3(
                "time",
                string_property(
                    "Time to convert in RFC3339 format or common formats like '2006-01-02 15:04:05'",
                ),
                "source_timezone",
                string_property("Source IANA timezone name"),
                "target_timezone",
                string_property("Target IANA timezone name"),
            ),
            "required",
            required,
        ),
        "annotations",
        annotations("Convert Time", true),
    )
}

/// The catalogue of tools, with their input schemas and behaviour hints.
pub fn get_tools_list() -> (r: JsonValue)
    ensures
        r@ == tools_list_json(),
{
    obj1("tools", arr2(system_time_tool(), convert_time_tool()))
}

} // verus!
