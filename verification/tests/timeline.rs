use wrldbldr_player::story_arc::dm_marker;
use wrldbldr_player::story_arc::event_card::{
    format_short_time, format_timestamp, get_event_type_color, get_importance_color, get_outcome_color,
};
use wrldbldr_player::story_arc::timeline::{
    get_event_type_icon, get_event_type_name, has_active_filters, is_event_visible, StoryEventData,
    StoryEventTypeData, TimelineFilterState, TimelineViewModel,
};

fn s(x: &str) -> String {
    x.to_string()
}

fn event(id: &str, kind: StoryEventTypeData, summary: &str) -> StoryEventData {
    StoryEventData {
        id: s(id),
        event_type: kind,
        timestamp: s("2024-03-05T14:07:00Z"),
        game_time: None,
        summary: s(summary),
        involved_characters: vec![s("c1")],
        location_id: Some(s("loc1")),
        scene_id: None,
        tags: vec![s("Quest"), s("Dragon")],
        is_hidden: false,
    }
}

fn marker() -> StoryEventTypeData {
    StoryEventTypeData::DmMarker { title: s("t"), note: s("n"), importance: s("major"), marker_type: s("plot") }
}

fn combat() -> StoryEventTypeData {
    StoryEventTypeData::CombatEvent { description: s("fight") }
}

fn ids(events: &[StoryEventData], f: &TimelineFilterState) -> Vec<String> {
    TimelineViewModel::new(events, f).filtered_events().into_iter().map(|e| e.id).collect()
}

#[test]
fn default_filters_hide_hidden_events() {
    let mut hidden = event("e2", combat(), "secret");
    hidden.is_hidden = true;
    let events = vec![event("e1", combat(), "a"), hidden];
    let mut f = TimelineFilterState::default();
    assert!(!has_active_filters(&f));
    assert_eq!(ids(&events, &f), vec![s("e1")]);
    f.show_hidden = true;
    assert!(has_active_filters(&f));
    assert_eq!(ids(&events, &f), vec![s("e1"), s("e2")]);
}

#[test]
fn type_character_and_location_filters() {
    let mut other = event("e2", marker(), "b");
    other.involved_characters = vec![s("c2")];
    other.location_id = None;
    let events = vec![event("e1", combat(), "a"), other];
    let mut f = TimelineFilterState::default();
    f.event_type = Some(s("DM Marker"));
    assert_eq!(ids(&events, &f), vec![s("e2")]);
    let mut f = TimelineFilterState::default();
    f.character_id = Some(s("c1"));
    assert_eq!(ids(&events, &f), vec![s("e1")]);
    let mut f = TimelineFilterState::default();
    f.location_id = Some(s("loc1"));
    assert_eq!(ids(&events, &f), vec![s("e1")]);
    f.location_id = Some(s("elsewhere"));
    assert!(ids(&events, &f).is_empty());
}

#[test]
fn search_ignores_case_in_summary_and_tags() {
    let events = vec![event("e1", combat(), "The Goblin ambush"), event("e2", combat(), "quiet night")];
    let mut f = TimelineFilterState::default();
    f.search_text = s("goblin");
    assert_eq!(ids(&events, &f), vec![s("e1")]);
    f.search_text = s("DRAG");
    assert_eq!(ids(&events, &f), vec![s("e1"), s("e2")]);
    f.search_text = s("nothing");
    assert!(ids(&events, &f).is_empty());
    assert!(is_event_visible(&events[1], &TimelineFilterState::default()));
}

#[test]
fn event_type_names_icons_colors() {
    assert_eq!(get_event_type_name(&combat()), "Combat");
    assert_eq!(get_event_type_name(&marker()), "DM Marker");
    assert_eq!(get_event_type_name(&StoryEventTypeData::SessionStarted { session_number: 1 }), "Session Start");
    assert_eq!(get_event_type_icon(&combat()), "⚔️");
    assert_eq!(get_event_type_icon(&StoryEventTypeData::Custom { title: s("x") }), "📌");
    assert_eq!(get_event_type_color(&combat()), "#ef4444");
    assert_eq!(get_event_type_color(&StoryEventTypeData::SessionEnded { summary: s("") }), "#6b7280");
}

#[test]
fn outcome_and_importance_colors() {
    assert_eq!(get_outcome_color("Critical_Success"), "#22c55e");
    assert_eq!(get_outcome_color("criticalsuccess"), "#22c55e");
    assert_eq!(get_outcome_color("SUCCESS"), "#3b82f6");
    assert_eq!(get_outcome_color("PartialSuccess"), "#f59e0b");
    assert_eq!(get_outcome_color("failure"), "#ef4444");
    assert_eq!(get_outcome_color("critical_failure"), "#dc2626");
    assert_eq!(get_outcome_color("draw"), "#6b7280");
    assert_eq!(get_importance_color("CRITICAL"), "#ef4444");
    assert_eq!(get_importance_color("Major"), "#f59e0b");
    assert_eq!(get_importance_color("normal"), "#3b82f6");
    assert_eq!(get_importance_color("minor"), "#6b7280");
    // the marker form compares exactly
    assert_eq!(dm_marker::get_importance_color("Critical"), "#6b7280");
    assert_eq!(dm_marker::get_importance_color("critical"), "#ef4444");
}

#[test]
fn timestamps_are_shortened() {
    assert_eq!(format_timestamp("2024-03-05T14:07:00Z"), "Mar 05, 14:07");
    assert_eq!(format_timestamp("2024-12-31T23:59:59-05:00"), "Dec 31, 23:59");
    assert_eq!(format_timestamp("yesterday"), "yesterday");
    assert_eq!(format_short_time(7, 4, 9, 0), "Jul 04, 09:00");
}

#[test]
fn date_filters_keep_events_within_the_range() {
    let mut old = event("e1", combat(), "a");
    old.timestamp = s("2020-01-01T10:00:00Z");
    let mut mid = event("e2", combat(), "b");
    mid.timestamp = s("2021-06-15T08:30:00+02:00");
    let mut last_day = event("e3", combat(), "c");
    last_day.timestamp = s("2021-12-31T23:59:59Z");
    let mut late = event("e4", combat(), "d");
    late.timestamp = s("2022-01-01T00:00:00Z");
    let events = vec![old, mid, last_day, late];
    let mut f = TimelineFilterState::default();
    f.date_from = Some(s("2021-01-01"));
    f.date_to = Some(s("2021-12-31"));
    assert!(has_active_filters(&f));
    assert_eq!(ids(&events, &f), vec![s("e2"), s("e3")]);
    f.date_to = None;
    assert_eq!(ids(&events, &f), vec![s("e2"), s("e3"), s("e4")]);
    f.date_from = None;
    f.date_to = Some(s("2021-06-15"));
    assert_eq!(ids(&events, &f), vec![s("e1"), s("e2")]);
    f.date_to = Some(s(""));
    assert_eq!(ids(&events, &f).len(), 4);
}
