//! MCP resources: time zone facts, world clocks, time formats, business hours.
use vstd::prelude::*;

use crate::clock::{
    builtin_zone_name, formatted_in_zone_text, now, rfc3339_instant, rfc3339_round_trips, rfc3339_utc_text, tz_name_known, InstantParts, Moment, Zone,
    WALL_CLOCK_FORMAT,
};
use crate::json::{
    arr3, arr4, arr5, entries_view, json_bool, json_object, json_str, json_string, json_uint,
    member, obj, obj1, obj2, obj3, obj7, Json, JsonValue,
};
use crate::zone_cache::{after_load, lemma_load_keeps_held, ZoneCache};
use crate::AppState;

verus! {

/// A JSON array of texts.
pub open spec fn texts(items: Seq<Seq<char>>) -> Json {
    Json::Array(Seq::new(items.len(), |i: int| Json::Str(items[i])))
}

/// One described time zone.
pub open spec fn timezone_entry_json(
    id: Seq<char>,
    name: Seq<char>,
    offset: Seq<char>,
    dst: bool,
    abbreviation: Seq<char>,
    cities: Seq<Seq<char>>,
    population: int,
) -> Json {
    obj(
        seq![
            ("id"@, Json::Str(id)),
            ("name"@, Json::Str(name)),
            ("offset"@, Json::Str(offset)),
            ("dst"@, Json::Bool(dst)),
            ("abbreviation"@, Json::Str(abbreviation)),
            ("major_cities"@, texts(cities)),
            ("population"@, Json::Int(population)),
        ],
    )
}

/// The timezone information resource.
pub open spec fn timezone_info_json() -> Json {
    obj(
        seq![
            (
                "timezones"@,
                Json::Array(
                    seq![
                        timezone_entry_json(
                            "America/New_York"@,
                            "Eastern Time"@,
                            "-05:00"@,
                            true,
                            "EST/EDT"@,
                            seq!["New York"@, "Toronto"@, "Montreal"@],
                            141_000_000,
                        ),
                        timezone_entry_json(
                            "Europe/London"@,
                            "Greenwich Mean Time"@,
                            "+00:00"@,
                            true,
                            "GMT/BST"@,
                            seq!["London"@, "Dublin"@, "Lisbon"@],
                            67_000_000,
                        ),
                        timezone_entry_json(
                            "Asia/Tokyo"@,
                            "Japan Standard Time"@,
                            "+09:00"@,
                            false,
                            "JST"@,
                            seq!["Tokyo"@, "Osaka"@, "Yokohama"@],
                            127_000_000,
                        ),
                    ],
                ),
            ),
            (
                "timezone_groups"@,
                obj(
                    seq![
                        (
                            "us_timezones"@,
                            texts(
                                seq![
                                    "America/New_York"@,
                                    "America/Chicago"@,
                                    "America/Denver"@,
                                    "America/Los_Angeles"@,
                                ],
                            ),
                        ),
                        (
                            "europe_timezones"@,
                            texts(
                                seq!["Europe/London"@, "Europe/Paris"@, "Europe/Berlin"@, "Europe/Moscow"@],
                            ),
                        ),
                        (
                            "asia_timezones"@,
                            texts(seq!["Asia/Tokyo"@, "Asia/Shanghai"@, "Asia/Singapore"@, "Asia/Dubai"@]),
                        ),
                    ],
                ),
            ),
        ],
    )
}

fn text_array3(a: &str, b: &str, c: &str) -> (r: JsonValue)
    ensures
        r@ == texts(seq![a@, b@, c@]),
{
    let r = arr3(json_str(a), json_str(b), json_str(c));
    assert(texts(seq![a@, b@, c@]) == Json::Array(seq![Json::Str(a@), Json::Str(b@), Json::Str(c@)]))
        by {
        assert(Seq::new(3, |i: int| Json::Str(seq![a@, b@, c@][i])) =~= seq![
            Json::Str(a@),
            Json::Str(b@),
            Json::Str(c@),
        ]);
    }
    r
}

fn text_array4(a: &str, b: &str, c: &str, d: &str) -> (r: JsonValue)
    ensures
        r@ == texts(seq![a@, b@, c@, d@]),
{
    let r = arr4(json_str(a), json_str(b), json_str(c), json_str(d));
    assert(texts(seq![a@, b@, c@, d@]) == Json::Array(
        seq![Json::Str(a@), Json::Str(b@), Json::Str(c@), Json::Str(d@)],
    )) by {
        assert(Seq::new(4, |i: int| Json::Str(seq![a@, b@, c@, d@][i])) =~= seq![
            Json::Str(a@),
            Json::Str(b@),
            Json::Str(c@),
            Json::Str(d@),
        ]);
    }
    r
}

fn text_array5(a: &str, b: &str, c: &str, d: &str, e: &str) -> (r: JsonValue)
    ensures
        r@ == texts(seq![a@, b@, c@, d@, e@]),
{
    let r = arr5(json_str(a), json_str(b), json_str(c), json_str(d), json_str(e));
    assert(texts(seq![a@, b@, c@, d@, e@]) == Json::Array(
        seq![Json::Str(a@), Json::Str(b@), Json::Str(c@), Json::Str(d@), Json::Str(e@)],
    )) by {
        assert(Seq::new(5, |i: int| Json::Str(seq![a@, b@, c@, d@, e@][i])) =~= seq![
            Json::Str(a@),
            Json::Str(b@),
            Json::Str(c@),
            Json::Str(d@),
            Json::Str(e@),
        ]);
    }
    r
}

fn timezone_entry(
    id: &str,
    name: &str,
    offset: &str,
    dst: bool,
    abbreviation: &str,
    cities: (&str, &str, &str),
    population: u64,
) -> (r: JsonValue)
    ensures
        r@ == timezone_entry_json(
            id@,
            name@,
            offset@,
            dst,
            abbreviation@,
            seq![cities.0@, cities.1@, cities.2@],
            population as int,
        ),
{
    obj7(
        "id",
        json_str(id),
        "name",
        json_str(name),
        "offset",
        json_str(offset),
        "dst",
        json_bool(dst),
        "abbreviation",
        json_str(abbreviation),
        "major_cities",
        text_array3(cities.0, cities.1, cities.2),
        "population",
        json_uint(population),
    )
}

/// Get timezone information resource.
pub fn get_timezone_info() -> (r: JsonValue)
    ensures
        r@ == timezone_info_json(),
{
    let zones = arr3(
        timezone_entry(
            "America/New_York",
            "Eastern Time",
            "-05:00",
            true,
            "EST/EDT",
            ("New York", "Toronto", "Montreal"),
            141_000_000,
        ),
        timezone_entry(
            "Europe/London",
            "Greenwich Mean Time",
            "+00:00",
            true,
            "GMT/BST",
            ("London", "Dublin", "Lisbon"),
            67_000_000,
        ),
        timezone_entry(
            "Asia/Tokyo",
            "Japan Standard Time",
            "+09:00",
            false,
            "JST",
            ("Tokyo", "Osaka", "Yokohama"),
            127_000_000,
        ),
    );
    let groups = obj3(
        "us_timezones",
        text_array4("America/New_York", "America/Chicago", "America/Denver", "America/Los_Angeles"),
        "europe_timezones",
        text_array4("Europe/London", "Europe/Paris", "Europe/Berlin", "Europe/Moscow"),
        "asia_timezones",
        text_array4("Asia/Tokyo", "Asia/Shanghai", "Asia/Singapore", "Asia/Dubai"),
    );
    obj2("timezones", zones, "timezone_groups", groups)
}

/// The time formats resource.
pub open spec fn time_formats_json() -> Json {
    obj(
        seq![
            (
                "input_formats"@,
                texts(
                    seq![
                        "2006-01-02 15:04:05"@,
                        "2006-01-02T15:04:05Z"@,
                        "2006-01-02T15:04:05-07:00"@,
                        "Jan 2, 2006 3:04 PM"@,
                    ],
                ),
            ),
            (
                "output_formats"@,
                obj(
                    seq![
                        ("iso8601"@, Json::Str("2006-01-02T15:04:05Z07:00"@)),
                        ("rfc3339"@, Json::Str("2006-01-02T15:04:05Z"@)),
                        ("rfc822"@, Json::Str("Mon, 02 Jan 2006 15:04:05 MST"@)),
                    ],
                ),
            ),
        ],
    )
}

/// Get time formats resource.
pub fn get_time_formats() -> (r: JsonValue)
    ensures
        r@ == time_formats_json(),
{
    obj2(
        "input_formats",
        text_array4(
            "2006-01-02 15:04:05",
            "2006-01-02T15:04:05Z",
            "2006-01-02T15:04:05-07:00",
            "Jan 2, 2006 3:04 PM",
        ),
        "output_formats",
        obj3(
            "iso8601",
            json_str("2006-01-02T15:04:05Z07:00"),
            "rfc3339",
            json_str("2006-01-02T15:04:05Z"),
            "rfc822",
            json_str("Mon, 02 Jan 2006 15:04:05 MST"),
        ),
    )
}

/// The working week, Monday to Friday.
pub open spec fn working_days_json() -> Json {
    texts(seq!["Monday"@, "Tuesday"@, "Wednesday"@, "Thursday"@, "Friday"@])
}

/// The business hours of one region.
pub open spec fn region_json(standard_hours: Seq<char>, lunch_break: Seq<char>) -> Json {
    obj(
        seq![
            ("standard_hours"@, Json::Str(standard_hours)),
            ("lunch_break"@, Json::Str(lunch_break)),
            ("working_days"@, working_days_json()),
        ],
    )
}

/// The business hours resource.
pub open spec fn business_hours_json() -> Json {
    obj(
        seq![
            (
                "regions"@,
                obj(
                    seq![
                        ("north_america"@, region_json("9:00 AM - 5:00 PM"@, "12:00 PM - 1:00 PM"@)),
                        ("europe"@, region_json("9:00 AM - 6:00 PM"@, "1:00 PM - 2:00 PM"@)),
                    ],
                ),
            ),
        ],
    )
}

fn region(standard_hours: &str, lunch_break: &str) -> (r: JsonValue)
    ensures
        r@ == region_json(standard_hours@, lunch_break@),
{
    obj3(
        "standard_hours",
        json_str(standard_hours),
        "lunch_break",
        json_str(lunch_break),
        "working_days",
        text_array5("Monday", "Tuesday", "Wednesday", "Thursday", "Friday"),
    )
}

/// Get business hours resource.
pub fn get_business_hours() -> (r: JsonValue)
    ensures
        r@ == business_hours_json(),
{
    obj1(
        "regions",
        obj2(
            "north_america",
            region("9:00 AM - 5:00 PM", "12:00 PM - 1:00 PM"),
            "europe",
            region("9:00 AM - 6:00 PM", "1:00 PM - 2:00 PM"),
        ),
    )
}

/// One city of the world clock: its wall-clock time at `at` in its zone.
pub open spec fn city_time(city: Seq<char>, zone: Seq<char>, at: InstantParts) -> (Seq<char>, Json) {
    (city, Json::Str(formatted_in_zone_text(at, zone, WALL_CLOCK_FORMAT@)))
}

/// The wall-clock times of the seven world cities at `at`, in this order.
pub open spec fn world_time_entries(at: InstantParts) -> Seq<(Seq<char>, Json)> {
    seq![
        city_time("New York"@, "America/New_York"@, at),
        city_time("Los Angeles"@, "America/Los_Angeles"@, at),
        city_time("London"@, "Europe/London"@, at),
        city_time("Paris"@, "Europe/Paris"@, at),
        city_time("Tokyo"@, "Asia/Tokyo"@, at),
        city_time("Sydney"@, "Australia/Sydney"@, at),
        city_time("Dubai"@, "Asia/Dubai"@, at),
    ]
}

/// The zones of the world clock, in the order it shows them.
pub open spec fn world_zone_names() -> Seq<Seq<char>> {
    seq![
        "America/New_York"@,
        "America/Los_Angeles"@,
        "Europe/London"@,
        "Europe/Paris"@,
        "Asia/Tokyo"@,
        "Australia/Sydney"@,
        "Asia/Dubai"@,
    ]
}

/// The current world times resource at `at`.
pub open spec fn world_times_json(at: InstantParts) -> Json {
    obj(seq![("last_updated"@, Json::Str(rfc3339_utc_text(at))), ("times"@, obj(world_time_entries(at)))])
}

/// That the world clock's `last_updated` text at `at` reads back (`parse_from_rfc3339`)
/// as `at` itself, for an instant in the years 0000 to 9999.
pub open spec fn last_updated_reads_back(at: InstantParts) -> bool {
    rfc3339_round_trips(at) ==> rfc3339_instant(rfc3339_utc_text(at)) == Some(at)
}

/// The names a cache holds after the world clock has looked its seven zones up, in
/// the order it shows them.
pub open spec fn world_zones_loaded(names: Seq<Seq<char>>) -> Seq<Seq<char>> {
    let n1 = after_load(names, "America/New_York"@);
    let n2 = after_load(n1, "America/Los_Angeles"@);
    let n3 = after_load(n2, "Europe/London"@);
    let n4 = after_load(n3, "Europe/Paris"@);
    let n5 = after_load(n4, "Asia/Tokyo"@);
    let n6 = after_load(n5, "Australia/Sydney"@);
    after_load(n6, "Asia/Dubai"@)
}

fn add_city_time(
    times: &mut Vec<(String, JsonValue)>,
    city: &str,
    zone_name: &str,
    at: &Moment,
    cache: &mut ZoneCache,
)
    requires
        builtin_zone_name(zone_name@),
    ensures
        entries_view(final(times)@) == entries_view(old(times)@).push(city_time(city@, zone_name@, at@)),
        final(cache)@ == after_load(old(cache)@, zone_name@),
        final(cache)@.contains(zone_name@),
{
    let ghost before = times@;
    if let Ok(zone) = cache.load(zone_name) {
        let local = at.format_in(&zone, WALL_CLOCK_FORMAT);
        times.push(member(city, json_string(local)));
        assert(entries_view(times@) =~= entries_view(before).push(city_time(city@, zone_name@, at@)));
    }
    proof {
        lemma_load_keeps_held(old(cache)@, zone_name@);
    }
}

/// The world times at `at`, finding the zones through `cache`.
pub(crate) fn world_times(at: &Moment, cache: &mut ZoneCache) -> (r: JsonValue)
    ensures
        r@ == world_times_json(at@),
        last_updated_reads_back(at@),
        final(cache)@ == world_zones_loaded(old(cache)@),
        forall|i: int| 0 <= i < 7 ==> final(cache)@.contains(#[trigger] world_zone_names()[i]),
{
    let mut times: Vec<(String, JsonValue)> = Vec::new();
    add_city_time(&mut times, "New York", "America/New_York", at, cache);
    let ghost c1 = cache@;
    add_city_time(&mut times, "Los Angeles", "America/Los_Angeles", at, cache);
    let ghost c2 = cache@;
    add_city_time(&mut times, "London", "Europe/London", at, cache);
    let ghost c3 = cache@;
    add_city_time(&mut times, "Paris", "Europe/Paris", at, cache);
    let ghost c4 = cache@;
    add_city_time(&mut times, "Tokyo", "Asia/Tokyo", at, cache);
    let ghost c5 = cache@;
    add_city_time(&mut times, "Sydney", "Australia/Sydney", at, cache);
    let ghost c6 = cache@;
    add_city_time(&mut times, "Dubai", "Asia/Dubai", at, cache);
    proof {
        assert(entries_view(times@) =~= world_time_entries(at@));
        lemma_load_keeps_held(c1, "America/Los_Angeles"@);
        lemma_load_keeps_held(c2, "Europe/London"@);
        lemma_load_keeps_held(c3, "Europe/Paris"@);
        lemma_load_keeps_held(c4, "Asia/Tokyo"@);
        lemma_load_keeps_held(c5, "Australia/Sydney"@);
        lemma_load_keeps_held(c6, "Asia/Dubai"@);
        assert forall|i: int| 0 <= i < 7 implies cache@.contains(#[trigger] world_zone_names()[i]) by {
            assert(cache@.contains(world_zone_names()[0]));
            assert(cache@.contains(world_zone_names()[1]));
            assert(cache@.contains(world_zone_names()[2]));
            assert(cache@.contains(world_zone_names()[3]));
            assert(cache@.contains(world_zone_names()[4]));
            assert(cache@.contains(world_zone_names()[5]));
            assert(cache@.contains(world_zone_names()[6]));
        }
    }
    obj2("last_updated", json_string(at.rfc3339_utc()), "times", json_object(times))
}

/// Get current world times resource at the instant `now`. Each zone is looked up
/// afresh: the cache it goes through starts empty and is dropped.
pub fn get_current_world_times_at(now: &Moment) -> (r: JsonValue)
    ensures
        r@ == world_times_json(now@),
        last_updated_reads_back(now@),
{
    let mut fresh = ZoneCache::new();
    world_times(now, &mut fresh)
}

/// Get current world times resource (non-cached version).
pub fn get_current_world_times() -> (r: JsonValue)
    ensures
        exists|at: InstantParts| r@ == world_times_json(at),
        exists|m: Moment| #[trigger] m.is_clock_reading() && r@ == world_times_json(m@) && last_updated_reads_back(m@),
{
    let t = now();
    let r = get_current_world_times_at(&t);
    assert(t.is_clock_reading());
    r
}

/// Get current world times resource at the instant `now`, finding zones through the
/// state's cache. Gives what `get_current_world_times_at` gives; afterwards the cache
/// holds each of the seven zones (those it lacked are added in the order shown) and
/// keeps what it held.
pub fn get_current_world_times_cached_at(state: &mut AppState, now: &Moment) -> (r: JsonValue)
    ensures
        r@ == world_times_json(now@),
        last_updated_reads_back(now@),
        final(state).auth_token == old(state).auth_token,
        final(state).timezone_cache@ == world_zones_loaded(old(state).timezone_cache@),
        forall|i: int| 0 <= i < 7 ==> final(state).timezone_cache@.contains(#[trigger] world_zone_names()[i]),
{
    world_times(now, &mut state.timezone_cache)
}

/// Get current world times resource (cached version).
pub fn get_current_world_times_cached(state: &mut AppState) -> (r: JsonValue)
    ensures
        exists|at: InstantParts| r@ == world_times_json(at),
        exists|m: Moment| #[trigger] m.is_clock_reading() && r@ == world_times_json(m@) && last_updated_reads_back(m@),
        final(state).auth_token == old(state).auth_token,
        final(state).timezone_cache@ == world_zones_loaded(old(state).timezone_cache@),
        forall|i: int| 0 <= i < 7 ==> final(state).timezone_cache@.contains(#[trigger] world_zone_names()[i]),
{
    let t = now();
    let r = get_current_world_times_cached_at(state, &t);
    assert(t.is_clock_reading());
    r
}

/// Reading the world clock through the cache a second time leaves the cache as the
/// first reading left it: every zone the clock shows is then held, or unknown.
pub proof fn lemma_world_cache_settles(names: Seq<Seq<char>>)
    ensures
        world_zones_loaded(world_zones_loaded(names)) == world_zones_loaded(names),
{
    let w = world_zones_loaded(names);
    let n1 = after_load(names, "America/New_York"@);
    let n2 = after_load(n1, "America/Los_Angeles"@);
    let n3 = after_load(n2, "Europe/London"@);
    let n4 = after_load(n3, "Europe/Paris"@);
    let n5 = after_load(n4, "Asia/Tokyo"@);
    let n6 = after_load(n5, "Australia/Sydney"@);
    lemma_load_keeps_held(names, "America/New_York"@);
    lemma_load_keeps_held(n1, "America/Los_Angeles"@);
    lemma_load_keeps_held(n2, "Europe/London"@);
    lemma_load_keeps_held(n3, "Europe/Paris"@);
    lemma_load_keeps_held(n4, "Asia/Tokyo"@);
    lemma_load_keeps_held(n5, "Australia/Sydney"@);
    lemma_load_keeps_held(n6, "Asia/Dubai"@);
    assert(w.contains("America/New_York"@) || !tz_name_known("America/New_York"@));
    assert(w.contains("America/Los_Angeles"@) || !tz_name_known("America/Los_Angeles"@));
    assert(w.contains("Europe/London"@) || !tz_name_known("Europe/London"@));
    assert(w.contains("Europe/Paris"@) || !tz_name_known("Europe/Paris"@));
    assert(w.contains("Asia/Tokyo"@) || !tz_name_known("Asia/Tokyo"@));
    assert(w.contains("Australia/Sydney"@) || !tz_name_known("Australia/Sydney"@));
    assert(w.contains("Asia/Dubai"@) || !tz_name_known("Asia/Dubai"@));
}

} // verus!
