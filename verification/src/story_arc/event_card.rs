//! What a timeline card shows of an event: the colour of its type, of a
//! challenge outcome and of a DM marker's importance, and its time.
use vstd::prelude::*;
use chrono::{Datelike, Timelike};
use crate::story_arc::timeline::StoryEventTypeData;
use crate::text::{decimal_value, lowercase_of, owned, push_two_digits, str_eq, to_lowercase, two_digits_spec};

verus! {

/// The colour of an event type.
pub open spec fn event_type_color_spec(t: StoryEventTypeData) -> Seq<char> {
    match t {
        StoryEventTypeData::LocationChange { .. } => "#22c55e"@,
        StoryEventTypeData::DialogueExchange { .. } => "#3b82f6"@,
        StoryEventTypeData::CombatEvent { .. } => "#ef4444"@,
        StoryEventTypeData::ChallengeAttempted { .. } => "#f59e0b"@,
        StoryEventTypeData::ItemAcquired { .. } => "#a855f7"@,
        StoryEventTypeData::RelationshipChanged { .. } => "#ec4899"@,
        StoryEventTypeData::SceneTransition { .. } => "#06b6d4"@,
        StoryEventTypeData::InformationRevealed { .. } => "#eab308"@,
        StoryEventTypeData::DmMarker { .. } => "#8b5cf6"@,
        StoryEventTypeData::NarrativeEventTriggered { .. } => "#14b8a6"@,
        StoryEventTypeData::SessionStarted { .. } => "#22c55e"@,
        StoryEventTypeData::SessionEnded { .. } => "#6b7280"@,
        StoryEventTypeData::Custom { .. } => "#9ca3af"@,
    }
}

/// The colour of an event type.
pub fn get_event_type_color(event_type: &StoryEventTypeData) -> (r: &'static str)
    ensures
        r@ == event_type_color_spec(*event_type),
{
    match event_type {
        StoryEventTypeData::LocationChange { .. } => "#22c55e",
        StoryEventTypeData::DialogueExchange { .. } => "#3b82f6",
        StoryEventTypeData::CombatEvent { .. } => "#ef4444",
        StoryEventTypeData::ChallengeAttempted { .. } => "#f59e0b",
        StoryEventTypeData::ItemAcquired { .. } => "#a855f7",
        StoryEventTypeData::RelationshipChanged { .. } => "#ec4899",
        StoryEventTypeData::SceneTransition { .. } => "#06b6d4",
        StoryEventTypeData::InformationRevealed { .. } => "#eab308",
        StoryEventTypeData::DmMarker { .. } => "#8b5cf6",
        StoryEventTypeData::NarrativeEventTriggered { .. } => "#14b8a6",
        StoryEventTypeData::SessionStarted { .. } => "#22c55e",
        StoryEventTypeData::SessionEnded { .. } => "#6b7280",
        StoryEventTypeData::Custom { .. } => "#9ca3af",
    }
}

/// The colour of a challenge outcome, by its lowercase form.
pub open spec fn outcome_color_spec(lower: Seq<char>) -> Seq<char> {
    if lower == "critical_success"@ || lower == "criticalsuccess"@ {
        "#22c55e"@
    } else if lower == "success"@ {
        "#3b82f6"@
    } else if lower == "partial_success"@ || lower == "partialsuccess"@ {
        "#f59e0b"@
    } else if lower == "failure"@ {
        "#ef4444"@
    } else if lower == "critical_failure"@ || lower == "criticalfailure"@ {
        "#dc2626"@
    } else {
        "#6b7280"@
    }
}

/// The colour of a challenge outcome already lowercased.
pub fn outcome_color_of_lowercase(lower: &str) -> (r: &'static str)
    ensures
        r@ == outcome_color_spec(lower@),
{
    if str_eq(lower, "critical_success") || str_eq(lower, "criticalsuccess") {
        "#22c55e"
    } else if str_eq(lower, "success") {
        "#3b82f6"
    } else if str_eq(lower, "partial_success") || str_eq(lower, "partialsuccess") {
        "#f59e0b"
    } else if str_eq(lower, "failure") {
        "#ef4444"
    } else if str_eq(lower, "critical_failure") || str_eq(lower, "criticalfailure") {
        "#dc2626"
    } else {
        "#6b7280"
    }
}

/// The colour of a challenge outcome, ignoring case.
pub fn get_outcome_color(outcome: &str) -> (r: &'static str)
    ensures
        r@ == outcome_color_spec(lowercase_of(outcome@)),
{
    let lower = to_lowercase(outcome);
    outcome_color_of_lowercase(lower.as_str())
}

/// The colour of a DM marker's importance, by its lowercase form.
pub open spec fn importance_color_spec(lower: Seq<char>) -> Seq<char> {
    if lower == "critical"@ {
        "#ef4444"@
    } else if lower == "major"@ {
        "#f59e0b"@
    } else if lower == "normal"@ {
        "#3b82f6"@
    } else {
        "#6b7280"@
    }
}

/// The colour of a DM marker's importance already lowercased.
pub fn importance_color_of_lowercase(lower: &str) -> (r: &'static str)
    ensures
        r@ == importance_color_spec(lower@),
{
    if str_eq(lower, "critical") {
        "#ef4444"
    } else if str_eq(lower, "major") {
        "#f59e0b"
    } else if str_eq(lower, "normal") {
        "#3b82f6"
    } else {
        "#6b7280"
    }
}

/// The colour of a DM marker's importance, ignoring case.
pub fn get_importance_color(importance: &str) -> (r: &'static str)
    ensures
        r@ == importance_color_spec(lowercase_of(importance@)),
{
    let lower = to_lowercase(importance);
    importance_color_of_lowercase(lower.as_str())
}

// ---------------------------------------------------------------------------
// Time of an event
// ---------------------------------------------------------------------------

/// The month, day, hour and minute of an RFC 3339 date-time, as
/// `chrono::DateTime::parse_from_rfc3339` reads it (in the time's own
/// offset); `None` when the text is not a valid RFC 3339 date-time.
pub uninterp spec fn rfc3339_fields(s: Seq<char>) -> Option<(u32, u32, u32, u32)>;

/// `chrono::DateTime::parse_from_rfc3339`, then the month, day, hour and
/// minute of the result (`Datelike::month`, `Datelike::day`,
/// `Timelike::hour`, `Timelike::minute`). The contract names the result as a
/// function of the text and states the ranges chrono documents for these
/// fields; what text parses is not stated.
#[verifier::external_body]
fn parse_rfc3339_fields(s: &str) -> (r: Option<(u32, u32, u32, u32)>)
    ensures
        r == rfc3339_fields(s@),
        r matches Some((mo, d, h, mi)) ==> 1 <= mo <= 12 && 1 <= d <= 31 && h <= 23 && mi <= 59,
{
    chrono::DateTime::parse_from_rfc3339(s).ok().map(|dt| (dt.month(), dt.day(), dt.hour(), dt.minute()))
}

/// The abbreviated English name of a month (`%b`).
pub open spec fn month_abbrev(month: int) -> Seq<char> {
    if month == 1 { "Jan"@ }
    else if month == 2 { "Feb"@ }
    else if month == 3 { "Mar"@ }
    else if month == 4 { "Apr"@ }
    else if month == 5 { "May"@ }
    else if month == 6 { "Jun"@ }
    else if month == 7 { "Jul"@ }
    else if month == 8 { "Aug"@ }
    else if month == 9 { "Sep"@ }
    else if month == 10 { "Oct"@ }
    else if month == 11 { "Nov"@ }
    else { "Dec"@ }
}

/// The abbreviated English name of a month.
fn month_name(month: u32) -> (r: &'static str)
    requires
        1 <= month <= 12,
    ensures
        r@ == month_abbrev(month as int),
{
    match month {
        1 => "Jan",
        2 => "Feb",
        3 => "Mar",
        4 => "Apr",
        5 => "May",
        6 => "Jun",
        7 => "Jul",
        8 => "Aug",
        9 => "Sep",
        10 => "Oct",
        11 => "Nov",
        _ => "Dec",
    }
}

/// A time shown as `%b %d, %H:%M`, e.g. "Mar 05, 14:07".
pub open spec fn short_time_spec(month: int, day: int, hour: int, minute: int) -> Seq<char> {
    month_abbrev(month) + " "@ + two_digits_spec(day) + ", "@ + two_digits_spec(hour) + ":"@
        + two_digits_spec(minute)
}

/// A time shown as `%b %d, %H:%M`.
pub fn format_short_time(month: u32, day: u32, hour: u32, minute: u32) -> (r: String)
    requires
        1 <= month <= 12,
        day < 100,
        hour < 100,
        minute < 100,
    ensures
        r@ == short_time_spec(month as int, day as int, hour as int, minute as int),
{
    let mut r = owned(month_name(month));
    r.append(" ");
    push_two_digits(&mut r, day);
    r.append(", ");
    push_two_digits(&mut r, hour);
    r.append(":");
    push_two_digits(&mut r, minute);
    assert(r@ =~= short_time_spec(month as int, day as int, hour as int, minute as int));
    r
}

/// The time of an event as shown: `%b %d, %H:%M` when it is an RFC 3339
/// date-time, else the text as it is.
pub open spec fn timestamp_display(timestamp: Seq<char>) -> Seq<char> {
    match rfc3339_fields(timestamp) {
        Some((mo, d, h, mi)) => short_time_spec(mo as int, d as int, h as int, mi as int),
        None => timestamp,
    }
}

/// The time of an event as shown.
pub fn format_timestamp(timestamp: &str) -> (r: String)
    ensures
        r@ == timestamp_display(timestamp@),
{
    match parse_rfc3339_fields(timestamp) {
        Some((mo, d, h, mi)) => format_short_time(mo, d, h, mi),
        None => owned(timestamp),
    }
}

/// Each event type has the colour the timeline legend gives it.
pub proof fn law_event_type_colors(t: StoryEventTypeData)
    ensures
        t is LocationChange ==> event_type_color_spec(t) == "#22c55e"@,
        t is DialogueExchange ==> event_type_color_spec(t) == "#3b82f6"@,
        t is CombatEvent ==> event_type_color_spec(t) == "#ef4444"@,
        t is ChallengeAttempted ==> event_type_color_spec(t) == "#f59e0b"@,
        t is ItemAcquired ==> event_type_color_spec(t) == "#a855f7"@,
        t is RelationshipChanged ==> event_type_color_spec(t) == "#ec4899"@,
        t is SceneTransition ==> event_type_color_spec(t) == "#06b6d4"@,
        t is InformationRevealed ==> event_type_color_spec(t) == "#eab308"@,
        t is DmMarker ==> event_type_color_spec(t) == "#8b5cf6"@,
        t is NarrativeEventTriggered ==> event_type_color_spec(t) == "#14b8a6"@,
        t is SessionStarted ==> event_type_color_spec(t) == "#22c55e"@,
        t is SessionEnded ==> event_type_color_spec(t) == "#6b7280"@,
        t is Custom ==> event_type_color_spec(t) == "#9ca3af"@,
{
}

/// Outcome colours: green for a critical success, blue for a success, amber
/// for a partial success, red for a failure, deep red for a critical failure
/// (each with or without the underscore), grey for anything else.
pub proof fn law_outcome_colors(o: Seq<char>)
    ensures
        (o == "critical_success"@ || o == "criticalsuccess"@) ==> outcome_color_spec(o) == "#22c55e"@,
        o == "success"@ ==> outcome_color_spec(o) == "#3b82f6"@,
        (o == "partial_success"@ || o == "partialsuccess"@) ==> outcome_color_spec(o) == "#f59e0b"@,
        o == "failure"@ ==> outcome_color_spec(o) == "#ef4444"@,
        (o == "critical_failure"@ || o == "criticalfailure"@) ==> outcome_color_spec(o) == "#dc2626"@,
        !(o == "critical_success"@ || o == "criticalsuccess"@ || o == "success"@ || o == "partial_success"@
            || o == "partialsuccess"@ || o == "failure"@ || o == "critical_failure"@ || o
            == "criticalfailure"@) ==> outcome_color_spec(o) == "#6b7280"@,
{
    reveal_strlit("critical_success");
    reveal_strlit("criticalsuccess");
    reveal_strlit("success");
    reveal_strlit("partial_success");
    reveal_strlit("partialsuccess");
    reveal_strlit("failure");
    reveal_strlit("critical_failure");
    reveal_strlit("criticalfailure");
    assert("critical_success"@.len() == 16 && "criticalsuccess"@.len() == 15 && "success"@.len() == 7
        && "partial_success"@.len() == 15 && "partialsuccess"@.len() == 14 && "failure"@.len() == 7
        && "critical_failure"@.len() == 16 && "criticalfailure"@.len() == 15);
    assert("critical_success"@[9] == 's' && "critical_failure"@[9] == 'f' && "criticalsuccess"@[8] == 's'
        && "criticalfailure"@[8] == 'f' && "partial_success"@[0] == 'p' && "success"@[0] == 's'
        && "failure"@[0] == 'f' && "criticalsuccess"@[0] == 'c' && "criticalfailure"@[0] == 'c');
}

/// Importance colours: red for critical, amber for major, blue for normal,
/// grey for anything else.
pub proof fn law_importance_colors(i: Seq<char>)
    ensures
        i == "critical"@ ==> importance_color_spec(i) == "#ef4444"@,
        i == "major"@ ==> importance_color_spec(i) == "#f59e0b"@,
        i == "normal"@ ==> importance_color_spec(i) == "#3b82f6"@,
        !(i == "critical"@ || i == "major"@ || i == "normal"@) ==> importance_color_spec(i) == "#6b7280"@,
        importance_color_spec(i) == crate::story_arc::dm_marker::marker_importance_color_spec(i),
{
    reveal_strlit("critical");
    reveal_strlit("major");
    reveal_strlit("normal");
    assert("critical"@.len() == 8 && "major"@.len() == 5 && "normal"@.len() == 6);
}

/// Months are shown by their English abbreviations, January to December,
/// and a short time has the month, the day, the hour and the minute in that
/// order, each number in two digits.
pub proof fn law_short_time(m: int, day: int, hour: int, minute: int)
    requires
        1 <= m <= 12,
        0 <= day < 100,
        0 <= hour < 100,
        0 <= minute < 100,
    ensures
        m == 1 ==> month_abbrev(m) == "Jan"@,
        m == 2 ==> month_abbrev(m) == "Feb"@,
        m == 3 ==> month_abbrev(m) == "Mar"@,
        m == 4 ==> month_abbrev(m) == "Apr"@,
        m == 5 ==> month_abbrev(m) == "May"@,
        m == 6 ==> month_abbrev(m) == "Jun"@,
        m == 7 ==> month_abbrev(m) == "Jul"@,
        m == 8 ==> month_abbrev(m) == "Aug"@,
        m == 9 ==> month_abbrev(m) == "Sep"@,
        m == 10 ==> month_abbrev(m) == "Oct"@,
        m == 11 ==> month_abbrev(m) == "Nov"@,
        m == 12 ==> month_abbrev(m) == "Dec"@,
        ({
            let t = short_time_spec(m, day, hour, minute);
            &&& t.len() == 13
            &&& t.subrange(0, 3) == month_abbrev(m)
            &&& decimal_value(t.subrange(4, 6)) == day
            &&& decimal_value(t.subrange(8, 10)) == hour
            &&& decimal_value(t.subrange(11, 13)) == minute
        }),
{
    reveal_strlit(" ");
    reveal_strlit(", ");
    reveal_strlit(":");
    reveal_strlit("Jan");
    reveal_strlit("Feb");
    reveal_strlit("Mar");
    reveal_strlit("Apr");
    reveal_strlit("May");
    reveal_strlit("Jun");
    reveal_strlit("Jul");
    reveal_strlit("Aug");
    reveal_strlit("Sep");
    reveal_strlit("Oct");
    reveal_strlit("Nov");
    reveal_strlit("Dec");
    let t = short_time_spec(m, day, hour, minute);
    crate::text::law_two_digits_read_back(day);
    crate::text::law_two_digits_read_back(hour);
    crate::text::law_two_digits_read_back(minute);
    assert(month_abbrev(m).len() == 3);
    assert(t.subrange(0, 3) =~= month_abbrev(m));
    assert(t.subrange(4, 6) =~= two_digits_spec(day));
    assert(t.subrange(8, 10) =~= two_digits_spec(hour));
    assert(t.subrange(11, 13) =~= two_digits_spec(minute));
}

} // verus!
