use serde_json::Value;
use wrldbldr_player::actions::{exit_to_location_action, move_to_region_action, PlayerAction};
use wrldbldr_player::dice::roll_with_draws;
use wrldbldr_player::director::{active_challenges, trigger_panel, ChallengeData, TriggerPanel};
use wrldbldr_player::dto::ParticipantRole;
use wrldbldr_player::services::{apply_generation_read_state, persist_generation_read_state};
use wrldbldr_player::settings::{SettingsEvent, SettingsPanel, SettingsStatus};
use wrldbldr_player::state::game::GameState;
use wrldbldr_player::state::generation::GenerationState;
use wrldbldr_player::views::{
    empty_world_list_text, has_dm_session, select_subtitle, select_title, visible_worlds, world_button_label,
    world_list_heading, ActiveSession,
};
use wrldbldr_player::workflow::{invalid_json_error, read_workflow_json, set_input_default, InputDefault};
use wrldbldr_player::forms::{rule_system_type, rule_system_variant, system_type_name, RuleSystemType, RuleSystemVariant};
use wrldbldr_player::actions::sheet_character;
use wrldbldr_player::dto::{CharacterSnapshot, SessionWorldSnapshot};

fn s(x: &str) -> String {
    x.to_string()
}

#[test]
fn moving_needs_a_selected_pc() {
    assert!(move_to_region_action(None, s("r1")).is_none());
    let a = move_to_region_action(Some(s("pc1")), s("r1"));
    assert!(matches!(a, Some(PlayerAction::MoveToRegion { pc_id, region_id }) if pc_id == "pc1" && region_id == "r1"));
    assert!(exit_to_location_action(None, s("l2"), s("r9")).is_none());
    let e = exit_to_location_action(Some(s("pc1")), s("l2"), s("r9"));
    assert!(matches!(e, Some(PlayerAction::ExitToLocation { pc_id, location_id, arrival_region_id: Some(a) })
        if pc_id == "pc1" && location_id == "l2" && a == "r9"));
}

fn challenge(id: &str, active: bool) -> ChallengeData {
    ChallengeData { id: s(id), name: s(id), description: s(""), active }
}

#[test]
fn only_active_challenges_can_be_triggered() {
    let all = vec![challenge("a", false), challenge("b", true), challenge("c", false), challenge("d", true)];
    let ids: Vec<String> = active_challenges(&all).into_iter().map(|c| c.id).collect();
    assert_eq!(ids, vec![s("b"), s("d")]);
    assert!(matches!(trigger_panel(&all), TriggerPanel::Choose { challenges } if challenges.len() == 2));
    let none = vec![challenge("a", false)];
    assert!(matches!(trigger_panel(&none), TriggerPanel::NoActiveChallenges));
    assert!(matches!(trigger_panel(&vec![]), TriggerPanel::NoActiveChallenges));
}

#[test]
fn world_settings_status_messages() {
    let w = SettingsPanel::World;
    let mut st = SettingsStatus::new();
    st.apply(w, SettingsEvent::LoadFinished { error: Some(s("gone")) });
    assert_eq!(st.error.as_deref(), Some("Failed to load world settings: gone"));
    st.apply(w, SettingsEvent::SaveStarted);
    st.apply(w, SettingsEvent::SaveFinished { error: None });
    assert_eq!(st.success_message.as_deref(), Some("World settings saved!"));
    st.apply(w, SettingsEvent::ResetStarted);
    st.apply(w, SettingsEvent::ResetFinished { error: None });
    assert_eq!(st.success_message.as_deref(), Some("Reset to global defaults!"));
    st.apply(w, SettingsEvent::SaveStarted);
    st.apply(w, SettingsEvent::SaveFinished { error: Some(s("no")) });
    assert_eq!(st.error.as_deref(), Some("Failed to save settings: no"));
}

#[test]
fn settings_status_messages() {
    let mut st = SettingsStatus::new();
    assert!(st.is_loading && st.buttons_disabled());
    st.apply(SettingsPanel::App, SettingsEvent::LoadFinished { error: Some(s("timeout")) });
    assert!(!st.is_loading);
    assert_eq!(st.error.as_deref(), Some("Failed to load settings: timeout"));
    st.apply(SettingsPanel::App, SettingsEvent::SaveStarted);
    assert!(st.is_saving && st.buttons_disabled());
    assert!(st.error.is_none() && st.success_message.is_none());
    st.apply(SettingsPanel::App, SettingsEvent::SaveFinished { error: None });
    assert!(!st.is_saving && !st.buttons_disabled());
    assert_eq!(st.success_message.as_deref(), Some("Settings saved successfully!"));
    st.apply(SettingsPanel::App, SettingsEvent::FieldEdited);
    assert!(st.success_message.is_none());
    st.apply(SettingsPanel::App, SettingsEvent::SaveStarted);
    st.apply(SettingsPanel::App, SettingsEvent::SaveFinished { error: Some(s("denied")) });
    assert_eq!(st.error.as_deref(), Some("Failed to save settings: denied"));
    st.apply(SettingsPanel::App, SettingsEvent::ResetStarted);
    assert!(st.error.is_none());
    st.apply(SettingsPanel::App, SettingsEvent::ResetFinished { error: None });
    assert_eq!(st.success_message.as_deref(), Some("Settings reset to defaults!"));
    st.apply(SettingsPanel::App, SettingsEvent::ResetStarted);
    st.apply(SettingsPanel::App, SettingsEvent::ResetFinished { error: Some(s("x")) });
    assert_eq!(st.error.as_deref(), Some("Failed to reset settings: x"));
    st.apply(SettingsPanel::App, SettingsEvent::LoadStarted);
    assert!(st.is_loading && st.error.is_none());
}

fn default(node: &str, input: &str, v: i64) -> InputDefault<Value> {
    InputDefault { node_id: s(node), input_name: s(input), default_value: Value::from(v) }
}

#[test]
fn edited_defaults_update_or_append() {
    let mut d = vec![default("3", "seed", 1), default("4", "steps", 20)];
    set_input_default(&mut d, default("4", "steps", 30));
    assert_eq!(d.len(), 2);
    assert_eq!(d[1].default_value, Value::from(30));
    assert_eq!(d[0].default_value, Value::from(1));
    set_input_default(&mut d, default("4", "cfg", 7));
    assert_eq!(d.len(), 3);
    assert_eq!(d[2].input_name, "cfg");
    assert_eq!(d[2].default_value, Value::from(7));
    set_input_default(&mut d, default("3", "steps", 9));
    assert_eq!(d.len(), 4);
    assert_eq!(d[1].default_value, Value::from(30));
}

#[test]
fn world_select_labels_by_role() {
    assert_eq!(select_title(ParticipantRole::DungeonMaster), "Select World");
    assert_eq!(select_title(ParticipantRole::Player), "Join a World");
    assert_eq!(select_title(ParticipantRole::Spectator), "Watch a World");
    assert_eq!(select_subtitle(ParticipantRole::Player), "Choose a world to join as a player");
    assert_eq!(select_subtitle(ParticipantRole::Spectator), "Choose a world to watch");
    assert_eq!(select_subtitle(ParticipantRole::DungeonMaster), "Continue an existing campaign or create a new one");
    assert_eq!(world_list_heading(true), "Your Worlds");
    assert_eq!(world_list_heading(false), "Available Worlds");
    assert_eq!(empty_world_list_text(true), (s("No worlds yet."), s("Create your first world to get started!")));
    assert_eq!(empty_world_list_text(false), (s("No worlds available."), s("Ask your DM to create a world first.")));
    assert_eq!(world_button_label(ParticipantRole::DungeonMaster, true), "Continue Session →");
    assert_eq!(world_button_label(ParticipantRole::DungeonMaster, false), "Start Session →");
    assert_eq!(world_button_label(ParticipantRole::Player, true), "Join");
    assert_eq!(world_button_label(ParticipantRole::Spectator, false), "Watch");
}

#[test]
fn players_see_only_worlds_in_session() {
    let worlds = vec![s("w1"), s("w2"), s("w3")];
    let sessions = vec![ActiveSession { world_id: s("w3"), dm_user_id: s("dm") }];
    assert_eq!(visible_worlds(true, &worlds, &sessions), worlds);
    assert_eq!(visible_worlds(false, &worlds, &sessions), vec![s("w3")]);
    assert!(visible_worlds(false, &worlds, &vec![]).is_empty());
    assert!(has_dm_session(&sessions, &s("w3"), &s("dm")));
    assert!(!has_dm_session(&sessions, &s("w3"), &s("other")));
    assert!(!has_dm_session(&sessions, &s("w1"), &s("dm")));
}

#[test]
fn rolling_with_drawn_dice() {
    let r = roll_with_draws(s(" 2D6+3 "), vec![4, 5], 2).unwrap();
    assert_eq!(r.formula, " 2D6+3 ");
    assert_eq!(r.individual_rolls, vec![4, 5]);
    assert_eq!(r.dice_total, 9);
    assert_eq!(r.formula_modifier, 3);
    assert_eq!(r.character_modifier, 2);
    assert_eq!(r.total, 14);
    assert!(!r.is_manual);
    assert_eq!(roll_with_draws(s("1d20-2"), vec![1], 0).unwrap().total, -1);
    assert_eq!(
        roll_with_draws(s("d6"), vec![1], 0).err().as_deref(),
        Some("Invalid formula format. Use XdY or XdY+Z (e.g., 1d20, 2d6+3)")
    );
    assert_eq!(roll_with_draws(s("2d6"), vec![3], 0).err().as_deref(), Some("The dice rolled do not fit the formula"));
    assert_eq!(roll_with_draws(s("2d6"), vec![3, 7], 0).err().as_deref(), Some("The dice rolled do not fit the formula"));
    assert_eq!(roll_with_draws(s("1d6"), vec![0], 0).err().as_deref(), Some("The dice rolled do not fit the formula"));
    assert_eq!(roll_with_draws(s("1d6+2147483647"), vec![1], 0).err().as_deref(), Some("Roll total out of range"));
    assert_eq!(roll_with_draws(s("1d6"), vec![6], i32::MAX).err().as_deref(), Some("Roll total out of range"));
}

#[test]
fn failed_batch_is_no_longer_ready() {
    let mut g = GenerationState::new();
    g.batch_queued(s("b1"), s("npc"), s("n1"), s("portrait"), 0);
    g.batch_complete("b1", 4);
    assert!(g.has_ready());
    g.batch_failed("b1", s("boom"));
    assert!(!g.has_ready());
    assert!(g.get_ready_batches().is_empty());
    assert_eq!(g.get_batches().len(), 1);
    g.batch_progress("b1", 50);
    assert!(!g.has_ready());
}

#[test]
fn failed_suggestion_is_no_longer_ready() {
    let mut g = GenerationState::new();
    g.suggestion_queued(s("r1"), s("name"), None);
    g.suggestion_complete("r1", vec![s("Aria")]);
    assert!(g.has_ready_suggestions());
    g.suggestion_failed("r1", s("boom"));
    assert!(!g.has_ready_suggestions());
    assert!(g.get_ready_suggestions().is_empty());
    g.suggestion_complete("r1", vec![s("Bran")]);
    g.suggestion_queued(s("r1"), s("name"), None);
    assert!(!g.has_ready_suggestions());
}

#[test]
fn removing_a_batch_twice_changes_nothing_more() {
    let mut g = GenerationState::new();
    g.batch_queued(s("b1"), s("npc"), s("n1"), s("portrait"), 0);
    g.batch_queued(s("b2"), s("npc"), s("n2"), s("portrait"), 1);
    g.remove_batch("b1");
    let once = g.get_batches().len();
    g.remove_batch("b1");
    assert_eq!(g.get_batches().len(), once);
    assert_eq!(g.get_batches()[0].batch_id, "b2");
}

#[test]
fn clearing_the_game_forgets_the_selected_pc() {
    let mut g = GameState::new();
    g.selected_pc_id = Some(s("pc1"));
    g.clear();
    assert!(g.selected_pc_id.is_none());
    assert!(g.world.is_none());
}

#[test]
fn read_markers_carry_over_to_another_queue() {
    let mut saved = GenerationState::new();
    saved.batch_queued(s("b1"), s("npc"), s("n1"), s("portrait"), 0);
    saved.batch_queued(s("b2"), s("npc"), s("n2"), s("portrait"), 1);
    saved.mark_batch_read("b1");
    saved.suggestion_queued(s("r1"), s("name"), None);
    saved.mark_suggestion_read("r1");
    let (batches, suggestions) = persist_generation_read_state(&saved);
    let mut current = GenerationState::new();
    current.batch_queued(s("b3"), s("npc"), s("n3"), s("portrait"), 0);
    current.batch_queued(s("b1"), s("npc"), s("n1"), s("portrait"), 1);
    current.batch_queued(s("b2"), s("npc"), s("n2"), s("portrait"), 2);
    current.suggestion_queued(s("r2"), s("name"), None);
    current.suggestion_queued(s("r1"), s("name"), None);
    apply_generation_read_state(&mut current, &Some(batches), &Some(suggestions));
    let read: Vec<bool> = current.get_batches().iter().map(|b| b.is_read).collect();
    assert_eq!(read, vec![false, true, false]);
    let read: Vec<bool> = current.get_suggestions().iter().map(|t| t.is_read).collect();
    assert_eq!(read, vec![false, true]);
}

#[test]
fn requeued_batch_is_updated_not_duplicated() {
    let mut g = GenerationState::new();
    g.batch_queued(s("b1"), s("npc"), s("n1"), s("portrait"), 3);
    g.batch_progress("b1", 40);
    g.batch_queued(s("b1"), s("npc"), s("n1"), s("portrait"), 1);
    assert_eq!(g.get_batches().len(), 1);
    assert!(matches!(g.get_batches()[0].status, wrldbldr_player::state::generation::BatchStatus::Queued { position: 1 }));
    g.batch_complete("b1", 2);
    assert!(g.has_ready());
    g.batch_queued(s("b1"), s("npc"), s("n1"), s("portrait"), 0);
    assert!(!g.has_ready());
    g.batch_queued(s("b2"), s("npc"), s("n2"), s("sprite"), 1);
    assert_eq!(g.get_batches().len(), 2);
}

#[test]
fn rule_system_selection() {
    assert_eq!(rule_system_type("D20"), RuleSystemType::D20);
    assert_eq!(rule_system_type("D100"), RuleSystemType::D100);
    assert_eq!(rule_system_type("Narrative"), RuleSystemType::Narrative);
    assert_eq!(rule_system_type("Custom"), RuleSystemType::Custom);
    assert_eq!(rule_system_type("d20"), RuleSystemType::Custom);
    assert!(matches!(rule_system_variant("FateCore"), Some(RuleSystemVariant::FateCore)));
    assert!(matches!(rule_system_variant("Dnd5e"), Some(RuleSystemVariant::Dnd5e)));
    assert!(rule_system_variant("Homebrew").is_none());
    assert_eq!(system_type_name(&RuleSystemVariant::Pathfinder2e), "D20");
    assert_eq!(system_type_name(&RuleSystemVariant::RuneQuest), "D100");
    assert_eq!(system_type_name(&RuleSystemVariant::PoweredByApocalypse), "Narrative");
    assert_eq!(system_type_name(&RuleSystemVariant::Custom(s("mine"))), "Custom");
}

#[test]
fn sheet_opens_for_chosen_or_first_character() {
    let world = Some(SessionWorldSnapshot {
        world_id: s("w"),
        world_name: s("W"),
        locations: vec![],
        scenes: vec![],
        characters: vec![
            CharacterSnapshot { id: s("c1"), name: s("A"), sprite_asset: None, portrait_asset: None },
            CharacterSnapshot { id: s("c2"), name: s("B"), sprite_asset: None, portrait_asset: None },
        ],
    });
    assert_eq!(sheet_character(&Some(s("c2")), &world), Some(s("c2")));
    assert_eq!(sheet_character(&None, &world), Some(s("c1")));
    assert_eq!(sheet_character(&None, &None), None);
    assert_eq!(sheet_character(&Some(s("x")), &None), Some(s("x")));
}

#[test]
fn workflow_json_is_checked() {
    let v = read_workflow_json("{\"1\": {\"class_type\": \"KSampler\"}}").unwrap();
    assert_eq!(v["1"]["class_type"], Value::from("KSampler"));
    let expected = format!("Invalid JSON: {}", serde_json::from_str::<Value>("{").unwrap_err());
    assert_eq!(read_workflow_json("{").err(), Some(expected));
    assert_eq!(invalid_json_error("bad"), "Invalid JSON: bad");
}
