//! The MCP tools: the current time in a zone, and conversion between zones.
use vstd::prelude::*;

use crate::clock::{
    builtin_zone_name, local_instant, naive_date_parse, naive_datetime_parse, now, parse_civil, parse_civil_date,
    parse_rfc3339, rfc3339_in_zone_text, rfc3339_instant, rfc3339_round_trips, tz_name_known, InstantParts, Moment,
    Zone,
};
use crate::json::{
    entries_view, items_view, json_array, json_object, json_str, json_str_member, json_string,
    member, obj, Json, JsonValue,
};
use crate::text::concat2;
use crate::zone_cache::{after_load, ZoneCache};
use crate::AppState;

verus! {

/// The views of a text result.
pub open spec fn text_result(r: Result<String, String>) -> Result<Seq<char>, Seq<char>> {
    match r {
        Ok(s) => Ok(s@),
        Err(e) => Err(e@),
    }
}

/// What `get_system_time` reports at the instant `at`.
pub open spec fn system_time_report(at: InstantParts, timezone: Seq<char>) -> Result<Seq<char>, Seq<char>> {
    if tz_name_known(timezone) {
        Ok(rfc3339_in_zone_text(at, timezone))
    } else {
        Err("Invalid timezone: "@ + timezone)
    }
}

/// The current system time in the named zone, with `now` as the current instant.
pub fn get_system_time_at(timezone: &str, now: &Moment) -> (r: Result<String, String>)
    ensures
        text_result(r) == system_time_report(now@, timezone@),
        timezone@ == "UTC"@ && rfc3339_round_trips(now@) ==> (r matches Ok(t) && rfc3339_instant(t@) == Some(now@)),
        builtin_zone_name(timezone@) ==> r is Ok,
{
    match Zone::parse(timezone) {
        Some(tz) => Ok(now.rfc3339_in(&tz)),
        None => Err(concat2("Invalid timezone: ", timezone)),
    }
}

/// Get current system time in specified timezone.
pub fn get_system_time(timezone: &str) -> (r: Result<String, String>)
    ensures
        exists|at: InstantParts| text_result(r) == system_time_report(at, timezone@),
        exists|m: Moment| #[trigger] m.is_clock_reading() && text_result(r) == system_time_report(m@, timezone@)
            && (timezone@ == "UTC"@ && rfc3339_round_trips(m@) ==> (r matches Ok(t) && rfc3339_instant(t@) == Some(m@))),
        r is Ok <==> tz_name_known(timezone@),
        builtin_zone_name(timezone@) ==> r is Ok,
        r matches Err(e) ==> e@ == "Invalid timezone: "@ + timezone@,
{
    let t = now();
    let r = get_system_time_at(timezone, &t);
    assert(text_result(r) == system_time_report(t@, timezone@));
    assert(t.is_clock_reading());
    r
}

/// The layouts that a time without an offset may have, tried in this order after RFC 3339.
pub open spec fn local_datetime_formats() -> Seq<Seq<char>> {
    seq!["%Y-%m-%d %H:%M:%S"@, "%Y-%m-%dT%H:%M:%S"@]
}

/// The layout of a bare date, which stands for the midnight at its start.
pub open spec fn date_format() -> Seq<char> {
    "%Y-%m-%d"@
}

/// The single instant a wall-clock time denotes in a zone, or the error for none.
pub open spec fn single_instant(civil: (i32, u32, u32, u32, u32, u32, u32), zone: Seq<char>) -> Result<InstantParts, Seq<char>> {
    match local_instant(civil, zone) {
        Some(at) => Ok(at),
        None => Err("Ambiguous time"@),
    }
}

/// The instant a time text denotes, reading wall-clock times in the `source` zone:
/// RFC 3339 first, then `YYYY-MM-DD HH:MM:SS`, then `YYYY-MM-DDTHH:MM:SS`, then a
/// bare date taken at midnight.
pub open spec fn input_instant(time: Seq<char>, source: Seq<char>) -> Result<InstantParts, Seq<char>> {
    match rfc3339_instant(time) {
        Some(at) => Ok(at),
        None => match naive_datetime_parse(time, local_datetime_formats()[0]) {
            Some(c) => single_instant(c, source),
            None => match naive_datetime_parse(time, local_datetime_formats()[1]) {
                Some(c) => single_instant(c, source),
                None => match naive_date_parse(time, date_format()) {
                    Some(d) => single_instant((d.0, d.1, d.2, 0, 0, 0, 0), source),
                    None => Err("Invalid time format: "@ + time),
                },
            },
        },
    }
}

/// What `convert_time` gives: the instant denoted by `time`, shown in `target`.
pub open spec fn conversion(time: Seq<char>, source: Seq<char>, target: Seq<char>) -> Result<Seq<char>, Seq<char>> {
    if !tz_name_known(source) {
        Err("Invalid source timezone: "@ + source)
    } else if !tz_name_known(target) {
        Err("Invalid target timezone: "@ + target)
    } else {
        match input_instant(time, source) {
            Ok(at) => Ok(rfc3339_in_zone_text(at, target)),
            Err(e) => Err(e),
        }
    }
}

/// What a conversion into UTC promises of its answer `text`: when the instant read from
/// `time` lies in the years 0000 to 9999, `text` reads back as that instant, and converting
/// `text` into UTC again, from any known zone, gives `text` unchanged.
pub open spec fn utc_conversion_reads_back(time: Seq<char>, source: Seq<char>, text: Seq<char>) -> bool {
    match input_instant(time, source) {
        Ok(at) => rfc3339_round_trips(at) ==> {
            &&& rfc3339_instant(text) == Some(at)
            &&& forall|x: Seq<char>| tz_name_known(x) ==> #[trigger] conversion(text, x, "UTC"@)
                == Ok::<Seq<char>, Seq<char>>(text)
        },
        Err(_) => true,
    }
}

/// The instant a time text denotes, wall-clock times being read in `source`.
fn read_instant(time: &str, source: &Zone) -> (r: Result<Moment, String>)
    ensures
        match r {
            Ok(m) => input_instant(time@, source@) == Ok::<InstantParts, Seq<char>>(m@),
            Err(e) => input_instant(time@, source@) == Err::<InstantParts, Seq<char>>(e@),
        },
{
    proof {
        reveal_strlit("%Y-%m-%d %H:%M:%S");
        reveal_strlit("%Y-%m-%dT%H:%M:%S");
    }
    assert(local_datetime_formats()[0] == "%Y-%m-%d %H:%M:%S"@);
    assert(local_datetime_formats()[1] == "%Y-%m-%dT%H:%M:%S"@);
    if let Some(m) = parse_rfc3339(time) {
        return Ok(m);
    }
    let civil = if let Some(c) = parse_civil(time, "%Y-%m-%d %H:%M:%S") {
        c
    } else if let Some(c) = parse_civil(time, "%Y-%m-%dT%H:%M:%S") {
        c
    } else if let Some(d) = parse_civil_date(time, "%Y-%m-%d") {
        match d.at_midnight() {
            Some(c) => c,
            None => return Err(String::from_str("Invalid date")),
        }
    } else {
        return Err(concat2("Invalid time format: ", time));
    };
    match civil.in_zone(source) {
        Some(m) => Ok(m),
        None => Err(String::from_str("Ambiguous time")),
    }
}

/// Converts a time between two zones already looked up.
pub fn convert_time_between(time: &str, source: &Zone, target: &Zone) -> (r: Result<String, String>)
    requires
        tz_name_known(source@),
        tz_name_known(target@),
    ensures
        text_result(r) == conversion(time@, source@, target@),
        target@ == "UTC"@ ==> (r matches Ok(t) ==> utc_conversion_reads_back(time@, source@, t@)),
{
    match read_instant(time, source) {
        Ok(m) => {
            let t = m.rfc3339_in(target);
            proof {
                if target@ == "UTC"@ && rfc3339_round_trips(m@) {
                    assert forall|x: Seq<char>| tz_name_known(x) implies #[trigger] conversion(t@, x, "UTC"@)
                        == Ok::<Seq<char>, Seq<char>>(t@) by {
                        lemma_conversion_keeps_instant(t@, x, "UTC"@);
                    }
                }
            }
            Ok(t)
        },
        Err(e) => Err(e),
    }
}

/// Convert time between timezones.
pub fn convert_time(time_str: &str, source_tz: &str, target_tz: &str) -> (r: Result<String, String>)
    ensures
        text_result(r) == conversion(time_str@, source_tz@, target_tz@),
        target_tz@ == "UTC"@ ==> (r matches Ok(t) ==> utc_conversion_reads_back(time_str@, source_tz@, t@)),
{
    let source = match Zone::parse(source_tz) {
        Some(z) => z,
        None => return Err(concat2("Invalid source timezone: ", source_tz)),
    };
    let target = match Zone::parse(target_tz) {
        Some(z) => z,
        None => return Err(concat2("Invalid target timezone: ", target_tz)),
    };
    convert_time_between(time_str, &source, &target)
}

/// Converting an RFC 3339 time keeps its instant: the answer is that same instant, as
/// shown in the target zone, whatever the source zone.
pub proof fn lemma_conversion_keeps_instant(time: Seq<char>, source: Seq<char>, target: Seq<char>)
    requires
        tz_name_known(source),
        tz_name_known(target),
        rfc3339_instant(time) is Some,
    ensures
        conversion(time, source, target) == Ok::<Seq<char>, Seq<char>>(
            rfc3339_in_zone_text(rfc3339_instant(time).unwrap(), target),
        ),
{
}

/// A conversion fails exactly when a zone is unknown or the time cannot be read; the
/// unknown source is reported before the unknown target.
pub proof fn lemma_conversion_errors(time: Seq<char>, source: Seq<char>, target: Seq<char>)
    ensures
        conversion(time, source, target) is Err <==> (!tz_name_known(source) || !tz_name_known(
            target,
        ) || input_instant(time, source) is Err),
        !tz_name_known(source) ==> conversion(time, source, target) == Err::<Seq<char>, Seq<char>>(
            "Invalid source timezone: "@ + source,
        ),
{
}

/// The result of a tool call: one text block.
pub open spec fn tool_text(text: Seq<char>) -> Json {
    obj(
        seq![
            (
                "content"@,
                Json::Array(seq![obj(seq![("type"@, Json::Str("text"@)), ("text"@, Json::Str(text))])]),
            ),
        ],
    )
}

/// A tool's text outcome as a tool result.
pub open spec fn as_tool_result(r: Result<Seq<char>, Seq<char>>) -> Result<Json, Seq<char>> {
    match r {
        Ok(t) => Ok(tool_text(t)),
        Err(e) => Err(e),
    }
}

/// The string argument `key`, when the arguments hold one.
pub open spec fn string_argument(arguments: Json, key: Seq<char>) -> Option<Seq<char>> {
    json_str_member(arguments, key)
}

/// What a tool call gives at the instant `at`.
pub open spec fn tool_call_outcome(name: Seq<char>, arguments: Json, at: InstantParts) -> Result<Json, Seq<char>> {
    if name == "get_system_time"@ {
        let timezone = match string_argument(arguments, "timezone"@) {
            Some(t) => t,
            None => "UTC"@,
        };
        as_tool_result(system_time_report(at, timezone))
    } else if name == "convert_time"@ {
        match string_argument(arguments, "time"@) {
            None => Err("time parameter is required"@),
            Some(time) => match string_argument(arguments, "source_timezone"@) {
                None => Err("source_timezone parameter is required"@),
                Some(source) => match string_argument(arguments, "target_timezone"@) {
                    None => Err("target_timezone parameter is required"@),
                    Some(target) => as_tool_result(conversion(time, source, target)),
                },
            },
        }
    } else {
        Err("Unknown tool: "@ + name)
    }
}

/// The views of a tool result.
pub open spec fn json_result(r: Result<JsonValue, String>) -> Result<Json, Seq<char>> {
    match r {
        Ok(v) => Ok(v@),
        Err(e) => Err(e@),
    }
}

/// A tool result holding one text block.
pub fn tool_text_result(text: String) -> (r: JsonValue)
    ensures
        r@ == tool_text(text@),
{
    let mut block: Vec<(String, JsonValue)> = Vec::new();
    block.push(member("type", json_str("text")));
    block.push(member("text", json_string(text)));
    let ghost tv = text@;
    let block_json = json_object(block);
    assert(entries_view(block@) =~= seq![("type"@, Json::Str("text"@)), ("text"@, Json::Str(tv))]);
    let mut blocks: Vec<JsonValue> = Vec::new();
    blocks.push(block_json);
    let content = json_array(blocks);
    assert(items_view(blocks@) =~= seq![obj(seq![("type"@, Json::Str("text"@)), ("text"@, Json::Str(tv))])]);
    let mut top: Vec<(String, JsonValue)> = Vec::new();
    top.push(member("content", content));
    let r = json_object(top);
    assert(entries_view(top@) =~= seq![
        (
            "content"@,
            Json::Array(seq![obj(seq![("type"@, Json::Str("text"@)), ("text"@, Json::Str(tv))])]),
        ),
    ]);
    r
}

fn wrap_text(r: Result<String, String>) -> (out: Result<JsonValue, String>)
    ensures
        json_result(out) == as_tool_result(text_result(r)),
{
    match r {
        Ok(t) => Ok(tool_text_result(t)),
        Err(e) => Err(e),
    }
}

/// The names a cache holds after a tool call has looked its zones up: the report's
/// zone for `get_system_time`; for `convert_time` with all three arguments, the source
/// zone and, when that one is known, the target zone; no zone otherwise.
pub open spec fn tool_call_cache(names: Seq<Seq<char>>, name: Seq<char>, arguments: Json) -> Seq<Seq<char>> {
    if name == "get_system_time"@ {
        let timezone = match string_argument(arguments, "timezone"@) {
            Some(t) => t,
            None => "UTC"@,
        };
        after_load(names, timezone)
    } else if name == "convert_time"@ {
        match (
            string_argument(arguments, "time"@),
            string_argument(arguments, "source_timezone"@),
            string_argument(arguments, "target_timezone"@),
        ) {
            (Some(_), Some(source), Some(target)) => if tz_name_known(source) {
                after_load(after_load(names, source), target)
            } else {
                after_load(names, source)
            },
            _ => names,
        }
    } else {
        names
    }
}

/// The zone named `name`, found through `cache`.
fn find_zone(name: &str, cache: &mut ZoneCache) -> (r: Option<Zone>)
    ensures
        r.is_some() == tz_name_known(name@),
        builtin_zone_name(name@) ==> r.is_some(),
        r matches Some(z) ==> z@ == name@,
        final(cache)@ == after_load(old(cache)@, name@),
{
    match cache.load(name) {
        Ok(z) => Some(z),
        Err(_) => None,
    }
}

/// A tool call, with `now` as the current instant, finding zones through `cache`.
fn call_tool(name: &str, arguments: &JsonValue, now: &Moment, cache: &mut ZoneCache) -> (r: Result<JsonValue, String>)
    ensures
        json_result(r) == tool_call_outcome(name@, arguments@, now@),
        final(cache)@ == tool_call_cache(old(cache)@, name@, arguments@),
        name@ == "get_system_time"@ && string_argument(arguments@, "timezone"@) is None ==> r is Ok,
{
    proof {
        reveal_strlit("get_system_time");
        reveal_strlit("convert_time");
    }
    if crate::json::str_equal(name, "get_system_time") {
        let timezone = match arguments.get_str("timezone") {
            Some(t) => t,
            None => "UTC",
        };
        let report = match find_zone(timezone, cache) {
            Some(tz) => Ok(now.rfc3339_in(&tz)),
            None => Err(concat2("Invalid timezone: ", timezone)),
        };
        wrap_text(report)
    } else if crate::json::str_equal(name, "convert_time") {
        let time = match arguments.get_str("time") {
            Some(t) => t,
            None => return Err(String::from_str("time parameter is required")),
        };
        let source_tz = match arguments.get_str("source_timezone") {
            Some(t) => t,
            None => return Err(String::from_str("source_timezone parameter is required")),
        };
        let target_tz = match arguments.get_str("target_timezone") {
            Some(t) => t,
            None => return Err(String::from_str("target_timezone parameter is required")),
        };
        let source = match find_zone(source_tz, cache) {
            Some(z) => z,
            None => return Err(concat2("Invalid source timezone: ", source_tz)),
        };
        let target = match find_zone(target_tz, cache) {
            Some(z) => z,
            None => return Err(concat2("Invalid target timezone: ", target_tz)),
        };
        wrap_text(convert_time_between(time, &source, &target))
    } else {
        Err(concat2("Unknown tool: ", name))
    }
}

/// Handle MCP tool call, with `now` as the current instant. Each zone is looked up
/// afresh: the cache it goes through starts empty and is dropped.
pub fn handle_tool_call_at(name: &str, arguments: &JsonValue, now: &Moment) -> (r: Result<JsonValue, String>)
    ensures
        json_result(r) == tool_call_outcome(name@, arguments@, now@),
        name@ == "get_system_time"@ && string_argument(arguments@, "timezone"@) is None ==> r is Ok,
{
    let mut fresh = ZoneCache::new();
    call_tool(name, arguments, now, &mut fresh)
}

/// Handle MCP tool call.
pub fn handle_tool_call(name: &str, arguments: &JsonValue) -> (r: Result<JsonValue, String>)
    ensures
        exists|at: InstantParts| json_result(r) == tool_call_outcome(name@, arguments@, at),
        exists|m: Moment| #[trigger] m.is_clock_reading() && json_result(r) == tool_call_outcome(name@, arguments@, m@),
        name@ == "get_system_time"@ && string_argument(arguments@, "timezone"@) is None ==> r is Ok,
{
    let t = now();
    let r = handle_tool_call_at(name, arguments, &t);
    assert(json_result(r) == tool_call_outcome(name@, arguments@, t@));
    assert(t.is_clock_reading());
    r
}

/// Handle MCP tool call, finding time zones through the state's cache, with `now` as
/// the current instant. Gives what `handle_tool_call_at` gives; afterwards the cache
/// holds what it held and, added at the end, each zone the call looked up that it
/// lacked and that is known.
pub fn handle_tool_call_cached_at(
    name: &str,
    arguments: &JsonValue,
    state: &mut AppState,
    now: &Moment,
) -> (r: Result<JsonValue, String>)
    ensures
        json_result(r) == tool_call_outcome(name@, arguments@, now@),
        final(state).auth_token == old(state).auth_token,
        name@ == "get_system_time"@ && string_argument(arguments@, "timezone"@) is None ==> r is Ok,
        final(state).timezone_cache@ == tool_call_cache(old(state).timezone_cache@, name@, arguments@),
{
    call_tool(name, arguments, now, &mut state.timezone_cache)
}

/// Handle MCP tool call, finding time zones through the cache.
pub fn handle_tool_call_cached(name: &str, arguments: &JsonValue, state: &mut AppState) -> (r: Result<JsonValue, String>)
    ensures
        exists|at: InstantParts| json_result(r) == tool_call_outcome(name@, arguments@, at),
        exists|m: Moment| #[trigger] m.is_clock_reading() && json_result(r) == tool_call_outcome(name@, arguments@, m@),
        name@ == "get_system_time"@ && string_argument(arguments@, "timezone"@) is None ==> r is Ok,
        final(state).auth_token == old(state).auth_token,
        final(state).timezone_cache@ == tool_call_cache(old(state).timezone_cache@, name@, arguments@),
{
    let t = now();
    let r = handle_tool_call_cached_at(name, arguments, state, &t);
    assert(json_result(r) == tool_call_outcome(name@, arguments@, t@));
    assert(t.is_clock_reading());
    r
}

/// Only `get_system_time` depends on the current instant: every other call gives the
/// same outcome at any two instants.
pub proof fn lemma_tool_outcome_ignores_clock(name: Seq<char>, arguments: Json, a: InstantParts, b: InstantParts)
    requires
        name != "get_system_time"@,
    ensures
        tool_call_outcome(name, arguments, a) == tool_call_outcome(name, arguments, b),
{
}

/// A `convert_time` call gives the text block of `convert_time` on its three string
/// arguments, and `get_system_time` without a `timezone` argument reports UTC.
pub proof fn lemma_tool_calls_agree_with_tools(name: Seq<char>, arguments: Json, at: InstantParts)
    ensures
        name == "convert_time"@ && string_argument(arguments, "time"@) is Some && string_argument(
            arguments,
            "source_timezone"@,
        ) is Some && string_argument(arguments, "target_timezone"@) is Some ==> tool_call_outcome(
            name,
            arguments,
            at,
        ) == as_tool_result(
            conversion(
                string_argument(arguments, "time"@).unwrap(),
                string_argument(arguments, "source_timezone"@).unwrap(),
                string_argument(arguments, "target_timezone"@).unwrap(),
            ),
        ),
        name == "get_system_time"@ && string_argument(arguments, "timezone"@) is None
            ==> tool_call_outcome(name, arguments, at) == as_tool_result(system_time_report(at, "UTC"@)),
{
    reveal_strlit("get_system_time");
    reveal_strlit("convert_time");
    assert("convert_time"@[0] != "get_system_time"@[0]);
}

} // verus!
