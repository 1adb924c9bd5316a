//! MCP prompt texts.
use vstd::prelude::*;

verus! {

/// The compare-timezones prompt.
pub open spec fn compare_timezones_text(timezones: Seq<char>, reference_time: Option<Seq<char>>) -> Seq<char> {
    "Compare the current time across these time zones: "@ + timezones + "\n"@ + match reference_time {
        Some(t) => "Reference time: "@ + t + "\n"@,
        None => Seq::empty(),
    } + "\nShow:\n"@ + "1. The current time in each timezone\n"@
        + "2. The time difference from the first timezone\n"@
        + "3. Whether it's business hours (9 AM - 5 PM)\n"@ + "4. The day of the week\n"@
}

/// Generate compare timezones prompt.
pub fn generate_compare_timezones_prompt(timezones: &str, reference_time: Option<&str>) -> (r: String)
    ensures
        r@ == compare_timezones_text(
            timezones@,
            match reference_time {
                Some(t) => Some(t@),
                None => None,
            },
        ),
{
    let mut prompt = String::from_str("Compare the current time across these time zones: ");
    prompt.append(timezones);
    prompt.append("\n");
    let ghost head = prompt@;
    if let Some(ref_time) = reference_time {
        prompt.append("Reference time: ");
        prompt.append(ref_time);
        prompt.append("\n");
    }
    let ghost mid = prompt@;
    assert(mid == head + match reference_time {
        Some(t) => "Reference time: "@ + t@ + "\n"@,
        None => Seq::<char>::empty(),
    }) by {
        if reference_time is None {
            assert(mid =~= head + Seq::<char>::empty());
        }
    }
    prompt.append("\nShow:\n");
    prompt.append("1. The current time in each timezone\n");
    prompt.append("2. The time difference from the first timezone\n");
    prompt.append("3. Whether it's business hours (9 AM - 5 PM)\n");
    prompt.append("4. The day of the week\n");
    prompt
}

/// The schedule-meeting prompt, with its defaults already applied.
pub open spec fn schedule_meeting_text(
    participants: Seq<char>,
    duration: Seq<char>,
    preferred_hours: Seq<char>,
    date_range: Seq<char>,
) -> Seq<char> {
    "Find the best meeting time for participants in: "@ + participants + "\n\n"@
        + "Meeting details:\n"@ + "- Duration: "@ + duration + " minutes\n"@
        + "- Preferred hours: "@ + preferred_hours + " local time\n"@ + "- Date range: "@
        + date_range + "\n"@
}

/// The text of an optional argument, or a default.
pub open spec fn or_default(value: Option<&str>, default: Seq<char>) -> Seq<char> {
    match value {
        Some(v) => v@,
        None => default,
    }
}

/// Generate schedule meeting prompt. Missing arguments default to a 60-minute
/// meeting, 9 AM - 5 PM, over the next 7 days.
pub fn generate_schedule_meeting_prompt(
    participants: &str,
    duration: Option<&str>,
    preferred_hours: Option<&str>,
    date_range: Option<&str>,
) -> (r: String)
    ensures
        r@ == schedule_meeting_text(
            participants@,
            or_default(duration, "60"@),
            or_default(preferred_hours, "9 AM - 5 PM"@),
            or_default(date_range, "next 7 days"@),
        ),
{
    let duration = match duration {
        Some(d) => d,
        None => "60",
    };
    let preferred_hours = match preferred_hours {
        Some(h) => h,
        None => "9 AM - 5 PM",
    };
    let date_range = match date_range {
        Some(d) => d,
        None => "next 7 days",
    };
    let mut prompt = String::from_str("Find the best meeting time for participants in: ");
    prompt.append(participants);
    prompt.append("\n\n");
    prompt.append("Meeting details:\n");
    prompt.append("- Duration: ");
    prompt.append(duration);
    prompt.append(" minutes\n");
    prompt.append("- Preferred hours: ");
    prompt.append(preferred_hours);
    prompt.append(" local time\n");
    prompt.append("- Date range: ");
    prompt.append(date_range);
    prompt.append("\n");
    prompt
}

/// The detailed time-conversion prompt.
pub open spec fn convert_time_detailed_text(
    time: Seq<char>,
    from_tz: Seq<char>,
    to_tzs: Seq<char>,
    include_context: bool,
) -> Seq<char> {
    let head = "Convert "@ + time + " from "@ + from_tz + " to: "@ + to_tzs + "\n"@;
    if include_context {
        head + "\nAlso provide:\n"@ + "1. Day of week in each timezone\n"@
            + "2. Whether it's a business day\n"@ + "3. Time until/since this moment\n"@
    } else {
        head
    }
}

/// Generate convert time detailed prompt.
pub fn generate_convert_time_detailed_prompt(
    time: &str,
    from_tz: &str,
    to_tzs: &str,
    include_context: bool,
) -> (r: String)
    ensures
        r@ == convert_time_detailed_text(time@, from_tz@, to_tzs@, include_context),
{
    let mut prompt = String::from_str("Convert ");
    prompt.append(time);
    prompt.append(" from ");
    prompt.append(from_tz);
    prompt.append(" to: ");
    prompt.append(to_tzs);
    prompt.append("\n");
    if include_context {
        prompt.append("\nAlso provide:\n");
        prompt.append("1. Day of week in each timezone\n");
        prompt.append("2. Whether it's a business day\n");
        prompt.append("3. Time until/since this moment\n");
    }
    prompt
}

/// Each prompt shows the values it was given: the time zones to compare are what the
/// compare prompt starts with, and a given reference time follows them.
pub proof fn lemma_compare_prompt_shows_inputs(timezones: Seq<char>, reference_time: Option<Seq<char>>)
    ensures
        ({
            let text = compare_timezones_text(timezones, reference_time);
            let head = "Compare the current time across these time zones: "@ + timezones + "\n"@;
            &&& text.subrange(0, head.len() as int) == head
            &&& reference_time matches Some(t) ==> text.subrange(
                head.len() as int,
                (head.len() + ("Reference time: "@ + t).len()) as int,
            ) == "Reference time: "@ + t
        }),
{
    let text = compare_timezones_text(timezones, reference_time);
    let head = "Compare the current time across these time zones: "@ + timezones + "\n"@;
    let tail = "\nShow:\n"@ + "1. The current time in each timezone\n"@
        + "2. The time difference from the first timezone\n"@
        + "3. Whether it's business hours (9 AM - 5 PM)\n"@ + "4. The day of the week\n"@;
    match reference_time {
        Some(t) => {
            assert(text =~= head + ("Reference time: "@ + t + "\n"@) + tail);
            assert(text.subrange(0, head.len() as int) =~= head);
            assert(text.subrange(head.len() as int, (head.len() + ("Reference time: "@ + t).len()) as int)
                =~= "Reference time: "@ + t);
        },
        None => {
            assert(text =~= head + Seq::<char>::empty() + tail);
            assert(text.subrange(0, head.len() as int) =~= head);
        },
    }
}

/// The meeting prompt takes a default exactly where an argument is missing: given
/// arguments appear as given.
pub proof fn lemma_schedule_defaults(
    participants: Seq<char>,
    duration: Option<&str>,
    preferred_hours: Option<&str>,
    date_range: Option<&str>,
)
    ensures
        duration is None ==> or_default(duration, "60"@) == "60"@,
        duration matches Some(d) ==> or_default(duration, "60"@) == d@,
        preferred_hours is None ==> or_default(preferred_hours, "9 AM - 5 PM"@) == "9 AM - 5 PM"@,
        preferred_hours matches Some(h) ==> or_default(preferred_hours, "9 AM - 5 PM"@) == h@,
        date_range is None ==> or_default(date_range, "next 7 days"@) == "next 7 days"@,
        date_range matches Some(d) ==> or_default(date_range, "next 7 days"@) == d@,
{
}

/// The detailed conversion prompt with context is the prompt without it, followed by
/// the three extra requests.
pub proof fn lemma_context_extends_prompt(time: Seq<char>, from_tz: Seq<char>, to_tzs: Seq<char>)
    ensures
        ({
            let short = convert_time_detailed_text(time, from_tz, to_tzs, false);
            let long = convert_time_detailed_text(time, from_tz, to_tzs, true);
            &&& short.len() < long.len()
            &&& long.subrange(0, short.len() as int) == short
        }),
{
    let short = convert_time_detailed_text(time, from_tz, to_tzs, false);
    let long = convert_time_detailed_text(time, from_tz, to_tzs, true);
    let extra = "\nAlso provide:\n"@ + "1. Day of week in each timezone\n"@
        + "2. Whether it's a business day\n"@ + "3. Time until/since this moment\n"@;
    reveal_strlit("\nAlso provide:\n");
    assert(long =~= short + extra);
    assert(long.subrange(0, short.len() as int) =~= short);
}

} // verus!
