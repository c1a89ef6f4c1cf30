//! The story timeline: past story events, the filters the DM sets on them,
//! and the names and icons of the event types.
use vstd::prelude::*;
use crate::copy::{copy_opt_string, copy_strings};
use crate::dto::opt_str;
use crate::text::{has_substring, lowercase_of, owned, to_lowercase, views};

verus! {

/// What kind of story event happened, with what the timeline shows of it.
pub enum StoryEventTypeData {
    LocationChange { from_location: Option<String>, to_location: String },
    DialogueExchange {
        npc_name: String,
        player_dialogue: String,
        npc_response: String,
        topics_discussed: Vec<String>,
    },
    CombatEvent { description: String },
    ChallengeAttempted {
        challenge_name: String,
        skill_used: Option<String>,
        roll_result: Option<i32>,
        outcome: String,
    },
    ItemAcquired { item_name: String },
    RelationshipChanged { reason: String },
    SceneTransition { from_scene_name: Option<String>, to_scene_name: String, trigger_reason: String },
    InformationRevealed { title: String },
    DmMarker { title: String, note: String, importance: String, marker_type: String },
    NarrativeEventTriggered { event_name: String },
    SessionStarted { session_number: u32 },
    SessionEnded { summary: String },
    Custom { title: String },
}

/// A past story event.
pub struct StoryEventData {
    pub id: String,
    pub event_type: StoryEventTypeData,
    /// RFC 3339 time of the event.
    pub timestamp: String,
    pub game_time: Option<String>,
    pub summary: String,
    pub involved_characters: Vec<String>,
    pub location_id: Option<String>,
    pub scene_id: Option<String>,
    pub tags: Vec<String>,
    pub is_hidden: bool,
}

/// Filter options for the timeline.
pub struct TimelineFilterState {
    pub event_type: Option<String>,
    pub character_id: Option<String>,
    pub location_id: Option<String>,
    pub search_text: String,
    pub show_hidden: bool,
    pub date_from: Option<String>,
    pub date_to: Option<String>,
}

impl Default for TimelineFilterState {
    /// No filter set: all types, characters and locations, no search text,
    /// hidden events not shown.
    fn default() -> (r: TimelineFilterState)
        ensures
            r.event_type is None,
            r.character_id is None,
            r.location_id is None,
            r.search_text@ == Seq::<char>::empty(),
            !r.show_hidden,
            r.date_from is None,
            r.date_to is None,
    {
        TimelineFilterState {
            event_type: None,
            character_id: None,
            location_id: None,
            search_text: String::new(),
            show_hidden: false,
            date_from: None,
            date_to: None,
        }
    }
}

/// A character the timeline can be filtered by.
pub struct CharacterOption {
    pub id: String,
    pub name: String,
}

/// A location the timeline can be filtered by.
pub struct LocationOption {
    pub id: String,
    pub name: String,
}

/// The name the timeline shows for an event type (also the value of the
/// type filter).
pub open spec fn event_type_name_spec(t: StoryEventTypeData) -> Seq<char> {
    match t {
        StoryEventTypeData::LocationChange { .. } => "Location Change"@,
        StoryEventTypeData::DialogueExchange { .. } => "Dialogue"@,
        StoryEventTypeData::CombatEvent { .. } => "Combat"@,
        StoryEventTypeData::ChallengeAttempted { .. } => "Challenge"@,
        StoryEventTypeData::ItemAcquired { .. } => "Item Acquired"@,
        StoryEventTypeData::RelationshipChanged { .. } => "Relationship"@,
        StoryEventTypeData::SceneTransition { .. } => "Scene Transition"@,
        StoryEventTypeData::InformationRevealed { .. } => "Information"@,
        StoryEventTypeData::DmMarker { .. } => "DM Marker"@,
        StoryEventTypeData::NarrativeEventTriggered { .. } => "Narrative Event"@,
        StoryEventTypeData::SessionStarted { .. } => "Session Start"@,
        StoryEventTypeData::SessionEnded { .. } => "Session End"@,
        StoryEventTypeData::Custom { .. } => "Custom"@,
    }
}

/// Each event type has its own name, the one the type filter offers for it:
/// a name is an event type's exactly when the event is of that type, so
/// filtering by a name keeps exactly the events of that type.
pub proof fn law_event_type_names(t: StoryEventTypeData)
    ensures
        t is LocationChange <==> event_type_name_spec(t) == "Location Change"@,
        t is DialogueExchange <==> event_type_name_spec(t) == "Dialogue"@,
        t is CombatEvent <==> event_type_name_spec(t) == "Combat"@,
        t is ChallengeAttempted <==> event_type_name_spec(t) == "Challenge"@,
        t is ItemAcquired <==> event_type_name_spec(t) == "Item Acquired"@,
        t is RelationshipChanged <==> event_type_name_spec(t) == "Relationship"@,
        t is SceneTransition <==> event_type_name_spec(t) == "Scene Transition"@,
        t is InformationRevealed <==> event_type_name_spec(t) == "Information"@,
        t is DmMarker <==> event_type_name_spec(t) == "DM Marker"@,
        t is NarrativeEventTriggered <==> event_type_name_spec(t) == "Narrative Event"@,
        t is SessionStarted <==> event_type_name_spec(t) == "Session Start"@,
        t is SessionEnded <==> event_type_name_spec(t) == "Session End"@,
        t is Custom <==> event_type_name_spec(t) == "Custom"@,
{
    reveal_strlit("Location Change");
    reveal_strlit("Dialogue");
    reveal_strlit("Combat");
    reveal_strlit("Challenge");
    reveal_strlit("Item Acquired");
    reveal_strlit("Relationship");
    reveal_strlit("Scene Transition");
    reveal_strlit("Information");
    reveal_strlit("DM Marker");
    reveal_strlit("Narrative Event");
    reveal_strlit("Session Start");
    reveal_strlit("Session End");
    reveal_strlit("Custom");
    assert("Location Change"@.len() == 15 && "Dialogue"@.len() == 8 && "Combat"@.len() == 6 && "Challenge"@.len() == 9 && "Item Acquired"@.len() == 13 && "Relationship"@.len() == 12 && "Scene Transition"@.len() == 16 && "Information"@.len() == 11 && "DM Marker"@.len() == 9 && "Narrative Event"@.len() == 15 && "Session Start"@.len() == 13 && "Session End"@.len() == 11 && "Custom"@.len() == 6);
    assert("Location Change"@[0] == 'L' && "Dialogue"@[0] == 'D' && "Combat"@[0] == 'C' && "Challenge"@[0] == 'C' && "Item Acquired"@[0] == 'I' && "Relationship"@[0] == 'R' && "Scene Transition"@[0] == 'S' && "Information"@[0] == 'I' && "DM Marker"@[0] == 'D' && "Narrative Event"@[0] == 'N' && "Session Start"@[0] == 'S' && "Session End"@[0] == 'S' && "Custom"@[0] == 'C');
    assert("Combat"@[1] == 'o' && "Custom"@[1] == 'u');
}

/// The name the timeline shows for an event type.
pub fn get_event_type_name(event_type: &StoryEventTypeData) -> (r: String)
    ensures
        r@ == event_type_name_spec(*event_type),
{
    match event_type {
        StoryEventTypeData::LocationChange { .. } => owned("Location Change"),
        StoryEventTypeData::DialogueExchange { .. } => owned("Dialogue"),
        StoryEventTypeData::CombatEvent { .. } => owned("Combat"),
        StoryEventTypeData::ChallengeAttempted { .. } => owned("Challenge"),
        StoryEventTypeData::ItemAcquired { .. } => owned("Item Acquired"),
        StoryEventTypeData::RelationshipChanged { .. } => owned("Relationship"),
        StoryEventTypeData::SceneTransition { .. } => owned("Scene Transition"),
        StoryEventTypeData::InformationRevealed { .. } => owned("Information"),
        StoryEventTypeData::DmMarker { .. } => owned("DM Marker"),
        StoryEventTypeData::NarrativeEventTriggered { .. } => owned("Narrative Event"),
        StoryEventTypeData::SessionStarted { .. } => owned("Session Start"),
        StoryEventTypeData::SessionEnded { .. } => owned("Session End"),
        StoryEventTypeData::Custom { .. } => owned("Custom"),
    }
}

/// The icon of an event type.
pub open spec fn event_type_icon_spec(t: StoryEventTypeData) -> Seq<char> {
    match t {
        StoryEventTypeData::LocationChange { .. } => "🚶"@,
        StoryEventTypeData::DialogueExchange { .. } => "💬"@,
        StoryEventTypeData::CombatEvent { .. } => "⚔️"@,
        StoryEventTypeData::ChallengeAttempted { .. } => "🎲"@,
        StoryEventTypeData::ItemAcquired { .. } => "📦"@,
        StoryEventTypeData::RelationshipChanged { .. } => "❤️"@,
        StoryEventTypeData::SceneTransition { .. } => "🎬"@,
        StoryEventTypeData::InformationRevealed { .. } => "💡"@,
        StoryEventTypeData::DmMarker { .. } => "📝"@,
        StoryEventTypeData::NarrativeEventTriggered { .. } => "⭐"@,
        StoryEventTypeData::SessionStarted { .. } => "▶️"@,
        StoryEventTypeData::SessionEnded { .. } => "⏹️"@,
        StoryEventTypeData::Custom { .. } => "📌"@,
    }
}

/// The icon of an event type.
pub fn get_event_type_icon(event_type: &StoryEventTypeData) -> (r: &'static str)
    ensures
        r@ == event_type_icon_spec(*event_type),
{
    match event_type {
        StoryEventTypeData::LocationChange { .. } => "🚶",
        StoryEventTypeData::DialogueExchange { .. } => "💬",
        StoryEventTypeData::CombatEvent { .. } => "⚔️",
        StoryEventTypeData::ChallengeAttempted { .. } => "🎲",
        StoryEventTypeData::ItemAcquired { .. } => "📦",
        StoryEventTypeData::RelationshipChanged { .. } => "❤️",
        StoryEventTypeData::SceneTransition { .. } => "🎬",
        StoryEventTypeData::InformationRevealed { .. } => "💡",
        StoryEventTypeData::DmMarker { .. } => "📝",
        StoryEventTypeData::NarrativeEventTriggered { .. } => "⭐",
        StoryEventTypeData::SessionStarted { .. } => "▶️",
        StoryEventTypeData::SessionEnded { .. } => "⏹️",
        StoryEventTypeData::Custom { .. } => "📌",
    }
}

/// Whether any filter differs from its default.
pub open spec fn has_active_filters_spec(f: TimelineFilterState) -> bool {
    ||| f.search_text@.len() > 0
    ||| f.event_type is Some
    ||| f.character_id is Some
    ||| f.location_id is Some
    ||| f.show_hidden
    ||| f.date_from is Some
    ||| f.date_to is Some
}

/// Whether any filter differs from its default.
pub fn has_active_filters(filters: &TimelineFilterState) -> (r: bool)
    ensures
        r == has_active_filters_spec(*filters),
{
    !filters.search_text.as_str().is_empty() || filters.event_type.is_some()
        || filters.character_id.is_some() || filters.location_id.is_some() || filters.show_hidden
        || filters.date_from.is_some() || filters.date_to.is_some()
}

// ---------------------------------------------------------------------------
// Filtering
// ---------------------------------------------------------------------------

/// The search (already lowercased) occurs in the lowercased summary or in
/// one of the lowercased tags.
pub open spec fn matches_search(summary_lower: Seq<char>, tags_lower: Seq<Seq<char>>, search_lower: Seq<char>) -> bool {
    has_substring(summary_lower, search_lower) || exists|k: int|
        0 <= k < tags_lower.len() && has_substring(#[trigger] tags_lower[k], search_lower)
}

/// The lowercase forms of the tags.
pub open spec fn tags_lower(tags: Seq<String>) -> Seq<Seq<char>> {
    tags.map_values(|t: String| lowercase_of(t@))
}

/// Whether text `a` comes before text `b` in character order, looking from
/// position `i` on (a proper prefix comes first).
pub open spec fn text_before_from(a: Seq<char>, b: Seq<char>, i: int) -> bool
    decreases a.len() - i,
{
    if i < 0 || i >= a.len() {
        0 <= i < b.len()
    } else if i >= b.len() {
        false
    } else if a[i] != b[i] {
        (a[i] as u32) < (b[i] as u32)
    } else {
        text_before_from(a, b, i + 1)
    }
}

/// Whether text `a` comes before text `b` in character order.
pub open spec fn text_before(a: Seq<char>, b: Seq<char>) -> bool {
    text_before_from(a, b, 0)
}

/// The calendar date (`YYYY-MM-DD`) an RFC 3339 timestamp starts with.
pub open spec fn date_part(timestamp: Seq<char>) -> Seq<char> {
    if timestamp.len() <= 10 {
        timestamp
    } else {
        timestamp.subrange(0, 10)
    }
}

/// The event's date is within the chosen dates: not before a non-empty
/// "from" date and not after a non-empty "to" date (dates as `YYYY-MM-DD`,
/// compared as text, which orders them by time).
pub open spec fn within_dates(e: StoryEventData, f: TimelineFilterState) -> bool {
    &&& (f.date_from matches Some(d) ==> (d@.len() > 0 ==> !text_before(date_part(e.timestamp@), d@)))
    &&& (f.date_to matches Some(d) ==> (d@.len() > 0 ==> !text_before(d@, date_part(e.timestamp@))))
}

/// An event is shown under the filters: hidden ones only when asked for,
/// of the chosen type, involving the chosen character, at the chosen
/// location, dated within the chosen dates, and matching the search text in
/// its summary or tags, ignoring case.
pub open spec fn event_visible(e: StoryEventData, f: TimelineFilterState) -> bool {
    &&& !(e.is_hidden && !f.show_hidden)
    &&& within_dates(e, f)
    &&& (f.event_type matches Some(t) ==> event_type_name_spec(e.event_type) == t@)
    &&& (f.character_id matches Some(c) ==> views(e.involved_characters@).contains(c@))
    &&& (f.location_id matches Some(l) ==> opt_str(e.location_id) == Some(l@))
    &&& (f.search_text@.len() > 0 ==> matches_search(
        lowercase_of(e.summary@),
        tags_lower(e.tags@),
        lowercase_of(f.search_text@),
    ))
}

/// Whether the lowercased search text occurs in the lowercased summary or
/// in one of the lowercased tags.
pub fn event_matches_search(summary_lower: &str, tags_lower: &Vec<String>, search_lower: &str) -> (r: bool)
    ensures
        r == matches_search(summary_lower@, views(tags_lower@), search_lower@),
{
    let needle = crate::text::chars_of(search_lower);
    let hay = crate::text::chars_of(summary_lower);
    if crate::text::contains_chars(&hay, &needle) {
        return true;
    }
    let mut k: usize = 0;
    while k < tags_lower.len()
        invariant
            k <= tags_lower@.len(),
            needle@ == search_lower@,
            forall|m: int| 0 <= m < k ==> !has_substring(#[trigger] views(tags_lower@)[m], search_lower@),
        decreases tags_lower.len() - k,
    {
        let t = crate::text::chars_of(tags_lower[k].as_str());
        if crate::text::contains_chars(&t, &needle) {
            assert(has_substring(views(tags_lower@)[k as int], search_lower@));
            return true;
        }
        k = k + 1;
    }
    false
}

/// Whether `v` holds a string equal to `s`.
fn contains_string(v: &Vec<String>, s: &String) -> (r: bool)
    ensures
        r == views(v@).contains(s@),
{
    let mut k: usize = 0;
    while k < v.len()
        invariant
            k <= v@.len(),
            forall|m: int| 0 <= m < k ==> #[trigger] views(v@)[m] != s@,
        decreases v.len() - k,
    {
        if v[k] == *s {
            assert(views(v@)[k as int] == s@);
            return true;
        }
        k = k + 1;
    }
    false
}

/// Whether text `a` comes before text `b` in character order.
fn chars_before(a: &Vec<char>, b: &Vec<char>) -> (r: bool)
    ensures
        r == text_before(a@, b@),
{
    let mut i: usize = 0;
    while i < a.len() && i < b.len()
        invariant
            i <= a@.len(),
            i <= b@.len(),
            text_before(a@, b@) == text_before_from(a@, b@, i as int),
        decreases a.len() - i,
    {
        if a[i] != b[i] {
            return (a[i] as u32) < (b[i] as u32);
        }
        i = i + 1;
    }
    i < b.len()
}

/// The first `n` characters of `v`, or all of them when it is shorter.
fn prefix_chars(v: &Vec<char>, n: usize) -> (r: Vec<char>)
    ensures
        r@ == if v@.len() <= n { v@ } else { v@.subrange(0, n as int) },
{
    let mut r: Vec<char> = Vec::new();
    let mut i: usize = 0;
    while i < v.len() && i < n
        invariant
            i <= v@.len(),
            i <= n,
            r@ == v@.subrange(0, i as int),
        decreases v.len() - i,
    {
        r.push(v[i]);
        assert(v@.subrange(0, i + 1) =~= v@.subrange(0, i as int).push(v@[i as int]));
        i = i + 1;
    }
    assert(v@.len() <= n ==> v@.subrange(0, v@.len() as int) =~= v@);
    r
}

/// Whether the event is dated within the chosen dates.
pub fn is_within_dates(e: &StoryEventData, f: &TimelineFilterState) -> (r: bool)
    ensures
        r == within_dates(*e, *f),
{
    let ts = crate::text::chars_of(e.timestamp.as_str());
    let date = prefix_chars(&ts, 10);
    match &f.date_from {
        Some(d) => {
            let from = crate::text::chars_of(d.as_str());
            if from.len() > 0 && chars_before(&date, &from) {
                return false;
            }
        },
        None => {},
    }
    match &f.date_to {
        Some(d) => {
            let to = crate::text::chars_of(d.as_str());
            if to.len() > 0 && chars_before(&to, &date) {
                return false;
            }
        },
        None => {},
    }
    true
}

/// Whether `e` is shown under the filters `f`.
pub fn is_event_visible(e: &StoryEventData, f: &TimelineFilterState) -> (r: bool)
    ensures
        r == event_visible(*e, *f),
{
    if e.is_hidden && !f.show_hidden {
        return false;
    }
    if !is_within_dates(e, f) {
        return false;
    }
    match &f.event_type {
        Some(t) => {
            let name = get_event_type_name(&e.event_type);
            if name != *t {
                return false;
            }
        },
        None => {},
    }
    match &f.character_id {
        Some(c) => {
            if !contains_string(&e.involved_characters, c) {
                return false;
            }
        },
        None => {},
    }
    match &f.location_id {
        Some(l) => {
            let at = match &e.location_id {
                Some(x) => *x == *l,
                None => false,
            };
            if !at {
                return false;
            }
        },
        None => {},
    }
    if !f.search_text.as_str().is_empty() {
        let search = to_lowercase(f.search_text.as_str());
        let summary = to_lowercase(e.summary.as_str());
        let mut tags: Vec<String> = Vec::new();
        let mut k: usize = 0;
        while k < e.tags.len()
            invariant
                k <= e.tags@.len(),
                views(tags@) == tags_lower(e.tags@).take(k as int),
            decreases e.tags.len() - k,
        {
            let lt = to_lowercase(e.tags[k].as_str());
            let ghost before = tags@;
            tags.push(lt);
            assert(views(tags@) =~= views(before).push(lt@));
            assert(tags_lower(e.tags@).take(k + 1) =~= tags_lower(e.tags@).take(k as int).push(
                lowercase_of(e.tags@[k as int]@),
            ));
            k = k + 1;
        }
        assert(tags_lower(e.tags@).take(e.tags@.len() as int) =~= tags_lower(e.tags@));
        return event_matches_search(summary.as_str(), &tags, search.as_str());
    }
    true
}


// ---------------------------------------------------------------------------
// Copies
// ---------------------------------------------------------------------------

/// Two event types agree (topic lists compared by their strings).
pub open spec fn event_type_eqv(a: StoryEventTypeData, b: StoryEventTypeData) -> bool {
    match (a, b) {
        (
            StoryEventTypeData::DialogueExchange {
                npc_name: n1,
                player_dialogue: p1,
                npc_response: r1,
                topics_discussed: t1,
            },
            StoryEventTypeData::DialogueExchange {
                npc_name: n2,
                player_dialogue: p2,
                npc_response: r2,
                topics_discussed: t2,
            },
        ) => n1 == n2 && p1 == p2 && r1 == r2 && t1@ == t2@,
        (StoryEventTypeData::DialogueExchange { .. }, _) => false,
        (_, StoryEventTypeData::DialogueExchange { .. }) => false,
        _ => a == b,
    }
}

/// Two events agree field by field (lists compared by their strings).
pub open spec fn event_eqv(a: StoryEventData, b: StoryEventData) -> bool {
    &&& a.id == b.id
    &&& event_type_eqv(a.event_type, b.event_type)
    &&& a.timestamp == b.timestamp
    &&& a.game_time == b.game_time
    &&& a.summary == b.summary
    &&& a.involved_characters@ == b.involved_characters@
    &&& a.location_id == b.location_id
    &&& a.scene_id == b.scene_id
    &&& a.tags@ == b.tags@
    &&& a.is_hidden == b.is_hidden
}

/// Two sequences of events agree element by element.
pub open spec fn events_eqv(a: Seq<StoryEventData>, b: Seq<StoryEventData>) -> bool {
    a.len() == b.len() && forall|i: int| 0 <= i < a.len() ==> event_eqv(#[trigger] a[i], b[i])
}

/// A copy of an event type.
pub fn copy_event_type(t: &StoryEventTypeData) -> (r: StoryEventTypeData)
    ensures
        event_type_eqv(r, *t),
{
    match t {
        StoryEventTypeData::LocationChange { from_location, to_location } => StoryEventTypeData::LocationChange {
            from_location: copy_opt_string(from_location),
            to_location: to_location.clone(),
        },
        StoryEventTypeData::DialogueExchange { npc_name, player_dialogue, npc_response, topics_discussed } =>
            StoryEventTypeData::DialogueExchange {
            npc_name: npc_name.clone(),
            player_dialogue: player_dialogue.clone(),
            npc_response: npc_response.clone(),
            topics_discussed: copy_strings(topics_discussed),
        },
        StoryEventTypeData::CombatEvent { description } => StoryEventTypeData::CombatEvent {
            description: description.clone(),
        },
        StoryEventTypeData::ChallengeAttempted { challenge_name, skill_used, roll_result, outcome } =>
            StoryEventTypeData::ChallengeAttempted {
            challenge_name: challenge_name.clone(),
            skill_used: copy_opt_string(skill_used),
            roll_result: *roll_result,
            outcome: outcome.clone(),
        },
        StoryEventTypeData::ItemAcquired { item_name } => StoryEventTypeData::ItemAcquired {
            item_name: item_name.clone(),
        },
        StoryEventTypeData::RelationshipChanged { reason } => StoryEventTypeData::RelationshipChanged {
            reason: reason.clone(),
        },
        StoryEventTypeData::SceneTransition { from_scene_name, to_scene_name, trigger_reason } =>
            StoryEventTypeData::SceneTransition {
            from_scene_name: copy_opt_string(from_scene_name),
            to_scene_name: to_scene_name.clone(),
            trigger_reason: trigger_reason.clone(),
        },
        StoryEventTypeData::InformationRevealed { title } => StoryEventTypeData::InformationRevealed {
            title: title.clone(),
        },
        StoryEventTypeData::DmMarker { title, note, importance, marker_type } => StoryEventTypeData::DmMarker {
            title: title.clone(),
            note: note.clone(),
            importance: importance.clone(),
            marker_type: marker_type.clone(),
        },
        StoryEventTypeData::NarrativeEventTriggered { event_name } =>
            StoryEventTypeData::NarrativeEventTriggered { event_name: event_name.clone() },
        StoryEventTypeData::SessionStarted { session_number } => StoryEventTypeData::SessionStarted {
            session_number: *session_number,
        },
        StoryEventTypeData::SessionEnded { summary } => StoryEventTypeData::SessionEnded {
            summary: summary.clone(),
        },
        StoryEventTypeData::Custom { title } => StoryEventTypeData::Custom { title: title.clone() },
    }
}

/// A copy of an event.
pub fn copy_event(e: &StoryEventData) -> (r: StoryEventData)
    ensures
        event_eqv(r, *e),
{
    StoryEventData {
        id: e.id.clone(),
        event_type: copy_event_type(&e.event_type),
        timestamp: e.timestamp.clone(),
        game_time: copy_opt_string(&e.game_time),
        summary: e.summary.clone(),
        involved_characters: copy_strings(&e.involved_characters),
        location_id: copy_opt_string(&e.location_id),
        scene_id: copy_opt_string(&e.scene_id),
        tags: copy_strings(&e.tags),
        is_hidden: e.is_hidden,
    }
}

// ---------------------------------------------------------------------------
// The timeline view model
// ---------------------------------------------------------------------------

/// The events of the timeline under the current filters.
pub struct TimelineViewModel<'a> {
    events: &'a [StoryEventData],
    filters: &'a TimelineFilterState,
}

impl<'a> TimelineViewModel<'a> {
    /// The events and the filters the timeline shows.
    pub closed spec fn events_spec(&self) -> Seq<StoryEventData> {
        self.events@
    }

    /// The filters in use.
    pub closed spec fn filters_spec(&self) -> TimelineFilterState {
        *self.filters
    }

    /// A view model over `events` and `filters`.
    pub fn new(events: &'a [StoryEventData], filters: &'a TimelineFilterState) -> (r: Self)
        ensures
            r.events_spec() == events@,
            r.filters_spec() == *filters,
    {
        TimelineViewModel { events, filters }
    }

    /// Copies of the events shown under the filters, in order.
    pub fn filtered_events(&self) -> (r: Vec<StoryEventData>)
        ensures
            events_eqv(
                r@,
                self.events_spec().filter(|e: StoryEventData| event_visible(e, self.filters_spec())),
            ),
    {
        let ghost f = *self.filters;
        let ghost pred = |e: StoryEventData| event_visible(e, f);
        let ghost src = self.events@;
        let mut r: Vec<StoryEventData> = Vec::new();
        let mut i: usize = 0;
        proof {
            reveal_with_fuel(Seq::<_>::filter, 1);
        }
        assert(src.take(0) =~= Seq::<StoryEventData>::empty());
        while i < self.events.len()
            invariant
                forall|e: StoryEventData| #[trigger] pred(e) == event_visible(e, f),
                f == *self.filters,
                src == self.events@,
                i <= src.len(),
                events_eqv(r@, src.take(i as int).filter(pred)),
            decreases src.len() - i,
        {
            proof {
                crate::seqs::lemma_filter_step(src, i as int, pred);
            }
            if is_event_visible(&self.events[i], self.filters) {
                r.push(copy_event(&self.events[i]));
            }
            i = i + 1;
        }
        assert(src.take(src.len() as int) =~= src);
        r
    }
}


/// With no filter set, the timeline shows exactly the events that are not
/// hidden.
pub proof fn law_default_filters_show_unhidden(e: StoryEventData, f: TimelineFilterState)
    requires
        !has_active_filters_spec(f),
    ensures
        event_visible(e, f) == !e.is_hidden,
{
}

/// Each event type shows its own icon: a walker for moves, a speech bubble
/// for dialogue, crossed swords for combat, a die for challenges, a box for
/// items, a heart for relationships, a clapper for scene changes, a bulb for
/// information, a note for DM markers, a star for narrative events, play and
/// stop for sessions, a pin for anything custom.
pub proof fn law_event_type_icons(t: StoryEventTypeData)
    ensures
        t is LocationChange ==> event_type_icon_spec(t) == "🚶"@,
        t is DialogueExchange ==> event_type_icon_spec(t) == "💬"@,
        t is CombatEvent ==> event_type_icon_spec(t) == "⚔️"@,
        t is ChallengeAttempted ==> event_type_icon_spec(t) == "🎲"@,
        t is ItemAcquired ==> event_type_icon_spec(t) == "📦"@,
        t is RelationshipChanged ==> event_type_icon_spec(t) == "❤️"@,
        t is SceneTransition ==> event_type_icon_spec(t) == "🎬"@,
        t is InformationRevealed ==> event_type_icon_spec(t) == "💡"@,
        t is DmMarker ==> event_type_icon_spec(t) == "📝"@,
        t is NarrativeEventTriggered ==> event_type_icon_spec(t) == "⭐"@,
        t is SessionStarted ==> event_type_icon_spec(t) == "▶️"@,
        t is SessionEnded ==> event_type_icon_spec(t) == "⏹️"@,
        t is Custom ==> event_type_icon_spec(t) == "📌"@,
{
}

/// What the filters keep: a listed event is unhidden unless hidden ones are
/// asked for, has the chosen type's name, involves the chosen character, is
/// at the chosen location, and is dated no earlier than the "from" date and
/// no later than the "to" date.
pub proof fn law_filters_keep(e: StoryEventData, f: TimelineFilterState)
    requires
        event_visible(e, f),
    ensures
        !e.is_hidden || f.show_hidden,
        f.event_type matches Some(t) ==> event_type_name_spec(e.event_type) == t@,
        f.character_id matches Some(c) ==> views(e.involved_characters@).contains(c@),
        f.location_id matches Some(l) ==> (e.location_id matches Some(x) && x@ == l@),
        f.date_from matches Some(d) ==> (d@.len() > 0 ==> !text_before(date_part(e.timestamp@), d@)),
        f.date_to matches Some(d) ==> (d@.len() > 0 ==> !text_before(d@, date_part(e.timestamp@))),
{
}

/// Text order: text never comes before itself, of two texts at most one
/// comes first, and at the first position where they differ the smaller
/// character comes first (a proper prefix comes first); a timestamp's date
/// is its first ten characters.
pub proof fn law_text_order(a: Seq<char>, b: Seq<char>, i: int)
    ensures
        !text_before(a, a),
        !(text_before(a, b) && text_before(b, a)),
        (0 <= i < a.len() && i < b.len() && a.take(i) == b.take(i) && (a[i] as u32) < (b[i] as u32))
            ==> text_before(a, b),
        (a.len() < b.len() && a == b.take(a.len() as int)) ==> text_before(a, b),
        a.len() >= 10 ==> date_part(a) == a.take(10),
{
    if 0 <= i < a.len() && i < b.len() && a.take(i) == b.take(i) {
        assert forall|j: int| 0 <= j < i implies a[j] == b[j] by {
            assert(a.take(i)[j] == b.take(i)[j]);
        }
    }
    if a.len() < b.len() && a == b.take(a.len() as int) {
        assert forall|j: int| 0 <= j < a.len() implies a[j] == b[j] by {
            assert(b.take(a.len() as int)[j] == b[j]);
        }
    }
    lemma_text_before_from(a, b, 0, i);
}

/// The order from position `k` on, as `law_text_order` states it.
proof fn lemma_text_before_from(a: Seq<char>, b: Seq<char>, k: int, i: int)
    requires
        0 <= k,
    ensures
        !text_before_from(a, a, k),
        !(text_before_from(a, b, k) && text_before_from(b, a, k)),
        (k <= i < a.len() && i < b.len() && (forall|j: int| k <= j < i ==> a[j] == b[j]) && (a[i] as u32)
            < (b[i] as u32)) ==> text_before_from(a, b, k),
        (k <= a.len() < b.len() && (forall|j: int| k <= j < a.len() ==> a[j] == b[j])) ==> text_before_from(a, b, k),
    decreases a.len() - k,
{
    if k < a.len() {
        lemma_text_before_from(a, b, k + 1, i);
        if k < b.len() {
            crate::skills::lemma_code_point_injective(a[k], b[k]);
        }
    }
}

/// The search finds an event when its text occurs in the summary or in one
/// of the tags, and only then (all compared in lowercase).
pub proof fn law_search(summary: Seq<char>, tags: Seq<Seq<char>>, search: Seq<char>, k: int)
    ensures
        has_substring(summary, search) ==> matches_search(summary, tags, search),
        (0 <= k < tags.len() && has_substring(tags[k], search)) ==> matches_search(summary, tags, search),
        (!has_substring(summary, search) && forall|j: int| 0 <= j < tags.len() ==> !has_substring(#[trigger] tags[j], search))
            ==> !matches_search(summary, tags, search),
{
}

} // verus!
