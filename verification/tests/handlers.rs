use wrldbldr_player::dto::{
    CharacterSnapshot, ChallengeOutcomesData, ChallengeSuggestionInfo, LocationSnapshot,
    NarrativeEventSuggestionInfo, NavigationData, OutcomeDetailData, ParticipantRole, RegionData,
    SessionWorldSnapshot, WorldSceneSnapshot,
};
use wrldbldr_player::handlers::event::{handle_session_event, PortConnectionState, SessionEvent};
use wrldbldr_player::handlers::message::{handle_server_message, ServerMessage};
use wrldbldr_player::state::approval::PendingApproval;
use wrldbldr_player::state::challenge::{ChallengePromptData, RollSubmissionStatus};
use wrldbldr_player::state::connection::ConnectionStatus;
use wrldbldr_player::state::dialogue::DialogueState;
use wrldbldr_player::state::game::GameState;
use wrldbldr_player::state::generation::{BatchStatus, GenerationState, SuggestionStatus};
use wrldbldr_player::state::session::SessionState;

struct World {
    session: SessionState<u32>,
    game: GameState,
    dialogue: DialogueState,
    generation: GenerationState,
}

fn world() -> World {
    World {
        session: SessionState::new(),
        game: GameState::new(),
        dialogue: DialogueState::new(),
        generation: GenerationState::new(),
    }
}

fn handle(w: &mut World, msg: ServerMessage, now: u64) {
    handle_server_message(msg, &mut w.session, &mut w.game, &mut w.dialogue, &mut w.generation, now);
}

fn s(x: &str) -> String {
    x.to_string()
}

fn last_log(w: &World) -> (String, String, bool, u64) {
    let e = w.session.conversation_log().last().unwrap();
    (e.speaker.clone(), e.text.clone(), e.is_system, e.timestamp)
}

fn snapshot() -> SessionWorldSnapshot {
    SessionWorldSnapshot {
        world_id: s("w1"),
        world_name: s("Eldoria"),
        locations: vec![LocationSnapshot {
            id: s("loc1"),
            name: s("Tavern"),
            backdrop_asset: Some(s("tavern.png")),
        }],
        scenes: vec![WorldSceneSnapshot {
            id: s("sc1"),
            name: s("Opening"),
            location_id: s("loc1"),
            backdrop_override: None,
            time_context: s("Evening"),
            directorial_notes: s("Calm"),
            featured_characters: vec![s("c2"), s("missing"), s("c1")],
        }],
        characters: vec![
            CharacterSnapshot { id: s("c1"), name: s("Mira"), sprite_asset: Some(s("mira.png")), portrait_asset: None },
            CharacterSnapshot { id: s("c2"), name: s("Bram"), sprite_asset: None, portrait_asset: None },
        ],
    }
}

fn detail(text: &str) -> OutcomeDetailData {
    OutcomeDetailData { flavor_text: s(text), scene_direction: s(""), proposed_tools: vec![] }
}

fn approval(id: &str, with_outcomes: bool) -> PendingApproval {
    PendingApproval {
        request_id: s(id),
        npc_name: s("Mira"),
        proposed_dialogue: s("Hello"),
        internal_reasoning: s(""),
        proposed_tools: vec![],
        challenge_suggestion: Some(ChallengeSuggestionInfo {
            challenge_id: s("ch1"),
            challenge_name: s("Persuade"),
            skill_name: s("Charm"),
            difficulty_display: s("DC 12"),
            confidence: s("high"),
            reasoning: s(""),
            outcomes: if with_outcomes {
                Some(ChallengeOutcomesData {
                    success: Some(detail("old success")),
                    failure: Some(detail("old failure")),
                    critical_success: None,
                    critical_failure: None,
                })
            } else {
                None
            },
        }),
        narrative_event_suggestion: Some(NarrativeEventSuggestionInfo {
            event_id: s("ev"),
            event_name: s("Storm"),
            description: s(""),
            scene_direction: s(""),
            confidence: s(""),
            reasoning: s(""),
            matched_triggers: vec![],
            suggested_outcome: Some(s("thunder")),
        }),
    }
}

#[test]
fn session_joined_builds_initial_scene() {
    let mut w = world();
    handle(
        &mut w,
        ServerMessage::SessionJoined {
            session_id: s("sess-9"),
            role: ParticipantRole::Player,
            participants: vec![],
            world_snapshot: Some(snapshot()),
        },
        100,
    );
    assert_eq!(w.session.session_id().as_deref(), Some("sess-9"));
    let log = w.session.conversation_log();
    assert_eq!(log.len(), 2);
    assert_eq!(log[0].text, "Joined session: sess-9");
    assert_eq!(log[0].speaker, "System");
    assert!(log[0].is_system);
    assert_eq!(log[1].text, "World data loaded");
    let scene = w.game.current_scene.as_ref().unwrap();
    assert_eq!(scene.id, "sc1");
    assert_eq!(scene.location_name, "Tavern");
    assert_eq!(scene.backdrop_asset.as_deref(), Some("tavern.png"));
    let names: Vec<&str> = w.game.scene_characters.iter().map(|c| c.name.as_str()).collect();
    assert_eq!(names, vec!["Bram", "Mira"]);
    assert!(w.game.scene_characters.iter().all(|c| !c.is_speaking && c.emotion.is_empty()));
    assert!(w.game.world.is_some());
    assert_eq!(w.game.backdrop_url().as_deref(), Some("tavern.png"));
}

#[test]
fn session_joined_without_snapshot_only_logs_join() {
    let mut w = world();
    handle(
        &mut w,
        ServerMessage::SessionJoined {
            session_id: s("x"),
            role: ParticipantRole::DungeonMaster,
            participants: vec![],
            world_snapshot: None,
        },
        5,
    );
    assert_eq!(w.session.conversation_log().len(), 1);
    assert!(w.game.world.is_none());
    assert!(w.game.current_scene.is_none());
}

#[test]
fn session_joined_unknown_location_is_named_unknown() {
    let mut w = world();
    let mut snap = snapshot();
    snap.locations.clear();
    handle(
        &mut w,
        ServerMessage::SessionJoined {
            session_id: s("x"),
            role: ParticipantRole::Player,
            participants: vec![],
            world_snapshot: Some(snap),
        },
        5,
    );
    let scene = w.game.current_scene.as_ref().unwrap();
    assert_eq!(scene.location_name, "Unknown");
    assert!(scene.backdrop_asset.is_none());
}

#[test]
fn player_joined_and_left_are_logged() {
    let mut w = world();
    handle(
        &mut w,
        ServerMessage::PlayerJoined { user_id: s("u1"), role: ParticipantRole::Player, character_name: Some(s("Ayla")) },
        7,
    );
    assert_eq!(last_log(&w), (s("System"), s("Player u1 joined as Player (Ayla)"), true, 7));
    handle(
        &mut w,
        ServerMessage::PlayerJoined { user_id: s("u2"), role: ParticipantRole::Spectator, character_name: None },
        8,
    );
    assert_eq!(last_log(&w).1, "Player u2 joined as Spectator");
    handle(&mut w, ServerMessage::PlayerLeft { user_id: s("u1") }, 9);
    assert_eq!(last_log(&w).1, "Player u1 left");
    handle(
        &mut w,
        ServerMessage::ActionReceived { action_id: s("a7"), player_id: s("u2"), action_type: s("talk") },
        10,
    );
    assert_eq!(last_log(&w).1, "Action a7 received: talk");
}

#[test]
fn dialogue_response_logs_and_starts_typing() {
    let mut w = world();
    w.dialogue.is_llm_processing = true;
    handle(
        &mut w,
        ServerMessage::DialogueResponse { speaker_id: s("n1"), speaker_name: s("Mira"), text: s("Welcome!"), choices: vec![] },
        11,
    );
    assert_eq!(last_log(&w), (s("Mira"), s("Welcome!"), false, 11));
    assert!(w.dialogue.is_typing);
    assert_eq!(w.dialogue.full_text, "Welcome!");
    assert_eq!(w.dialogue.displayed_text, "");
    assert!(!w.dialogue.is_llm_processing);
}

#[test]
fn llm_processing_sets_flag_and_logs() {
    let mut w = world();
    handle(&mut w, ServerMessage::LLMProcessing { action_id: s("a1") }, 3);
    assert!(w.dialogue.is_llm_processing);
    assert_eq!(last_log(&w).1, "Processing action: a1");
}

#[test]
fn error_message_is_formatted() {
    let mut w = world();
    handle(&mut w, ServerMessage::Error { code: s("E42"), message: s("bad") }, 1);
    assert_eq!(w.session.error_message().as_deref(), Some("Server error [E42]: bad"));
    assert!(w.session.conversation_log().is_empty());
}

#[test]
fn informational_messages_change_nothing() {
    let mut w = world();
    handle(&mut w, ServerMessage::Pong, 1);
    handle(&mut w, ServerMessage::ResponseApproved { npc_dialogue: s("x"), executed_tools: vec![s("t")] }, 1);
    handle(
        &mut w,
        ServerMessage::NarrativeEventTriggered {
            event_id: s("e"),
            event_name: s("n"),
            outcome_description: s("d"),
            scene_direction: s("s"),
        },
        1,
    );
    handle(&mut w, ServerMessage::SplitPartyNotification { location_count: 2, locations: vec![] }, 1);
    assert!(w.session.conversation_log().is_empty());
    assert!(w.session.pending_approvals().is_empty());
    assert!(w.generation.get_batches().is_empty());
    assert!(w.game.current_scene.is_none());
    assert!(!w.dialogue.is_typing);
}

#[test]
fn generation_events_drive_the_queue() {
    let mut w = world();
    handle(
        &mut w,
        ServerMessage::GenerationQueued {
            batch_id: s("b1"),
            entity_type: s("character"),
            entity_id: s("c1"),
            asset_type: s("portrait"),
            position: 3,
        },
        1,
    );
    assert!(matches!(w.generation.get_batches()[0].status, BatchStatus::Queued { position: 3 }));
    handle(&mut w, ServerMessage::GenerationProgress { batch_id: s("b1"), progress: 40 }, 1);
    assert!(matches!(w.generation.get_batches()[0].status, BatchStatus::Generating { progress: 40 }));
    assert!(!w.generation.has_ready());
    handle(&mut w, ServerMessage::GenerationComplete { batch_id: s("b1"), asset_count: 4 }, 1);
    assert!(matches!(w.generation.get_batches()[0].status, BatchStatus::Ready { asset_count: 4 }));
    assert!(w.generation.has_ready());
    handle(&mut w, ServerMessage::GenerationFailed { batch_id: s("b1"), error: s("oom") }, 1);
    match &w.generation.get_batches()[0].status {
        BatchStatus::Failed { error } => assert_eq!(error, "oom"),
        _ => panic!("expected failed"),
    }
}

#[test]
fn suggestion_events_drive_the_queue() {
    let mut w = world();
    handle(
        &mut w,
        ServerMessage::SuggestionQueued { request_id: s("r1"), field_type: s("name"), entity_id: None },
        1,
    );
    assert_eq!(w.generation.get_suggestions().len(), 1);
    handle(&mut w, ServerMessage::SuggestionProgress { request_id: s("r1"), status: s("working") }, 1);
    assert!(matches!(w.generation.get_suggestions()[0].status, SuggestionStatus::Processing));
    handle(
        &mut w,
        ServerMessage::SuggestionComplete { request_id: s("r1"), suggestions: vec![s("Aria"), s("Bel")] },
        1,
    );
    match &w.generation.get_suggestions()[0].status {
        SuggestionStatus::Ready { suggestions } => assert_eq!(suggestions, &vec![s("Aria"), s("Bel")]),
        _ => panic!("expected ready"),
    }
    assert!(w.generation.has_ready_suggestions());
    // A queued event for a known request sets it back to queued without a new task.
    handle(
        &mut w,
        ServerMessage::SuggestionQueued { request_id: s("r1"), field_type: s("other"), entity_id: None },
        1,
    );
    assert_eq!(w.generation.get_suggestions().len(), 1);
    assert!(matches!(w.generation.get_suggestions()[0].status, SuggestionStatus::Queued));
    handle(&mut w, ServerMessage::SuggestionFailed { request_id: s("r1"), error: s("timeout") }, 1);
    assert!(matches!(w.generation.get_suggestions()[0].status, SuggestionStatus::Failed { .. }));
    // Completing an unknown request changes nothing.
    handle(&mut w, ServerMessage::SuggestionComplete { request_id: s("zz"), suggestions: vec![] }, 1);
    assert_eq!(w.generation.get_suggestions().len(), 1);
}

#[test]
fn comfyui_state_is_stored() {
    let mut w = world();
    handle(
        &mut w,
        ServerMessage::ComfyUIStateChanged { state: s("degraded"), message: Some(s("slow")), retry_in_seconds: Some(30) },
        1,
    );
    assert_eq!(w.session.comfyui_state(), "degraded");
    assert_eq!(w.session.comfyui_message().as_deref(), Some("slow"));
    assert_eq!(w.session.comfyui_retry_in_seconds(), Some(30));
}

fn prompt(id: &str) -> ServerMessage {
    ServerMessage::ChallengePrompt {
        challenge_id: s(id),
        challenge_name: s("Climb"),
        skill_name: s("Athletics"),
        difficulty_display: s("DC 10"),
        description: s("A wall"),
        character_modifier: 2,
        suggested_dice: Some(s("1d20")),
        rule_system_hint: None,
    }
}

fn resolved(id: &str) -> ServerMessage {
    ServerMessage::ChallengeResolved {
        challenge_id: s(id),
        challenge_name: s("Climb"),
        character_name: s("Ayla"),
        roll: 14,
        modifier: 2,
        total: 16,
        outcome: s("success"),
        outcome_description: s("You make it"),
        roll_breakdown: None,
        individual_rolls: Some(vec![14]),
    }
}

#[test]
fn challenge_resolved_clears_matching_prompt_and_records() {
    let mut w = world();
    handle(&mut w, prompt("ch1"), 1);
    assert!(w.session.active_challenge().is_some());
    handle(&mut w, resolved("ch1"), 77);
    assert!(w.session.active_challenge().is_none());
    let results = w.session.challenge_results();
    assert_eq!(results.len(), 1);
    assert_eq!(results[0].total, 16);
    assert_eq!(results[0].timestamp, 77);
    match w.session.roll_status() {
        RollSubmissionStatus::ResultReady(r) => {
            assert_eq!(r.outcome, "success");
            assert_eq!(r.timestamp, 77);
        },
        _ => panic!("expected result"),
    }
}

#[test]
fn challenge_resolved_keeps_other_prompt() {
    let mut w = world();
    handle(&mut w, prompt("ch1"), 1);
    handle(&mut w, resolved("other"), 2);
    let active: &Option<ChallengePromptData> = w.session.active_challenge();
    assert_eq!(active.as_ref().unwrap().challenge_id, "ch1");
    assert_eq!(w.session.challenge_results().len(), 1);
}

#[test]
fn roll_submitted_awaits_approval() {
    let mut w = world();
    handle(
        &mut w,
        ServerMessage::ChallengeRollSubmitted {
            challenge_id: s("c"),
            challenge_name: s("n"),
            roll: 9,
            modifier: 1,
            total: 10,
            outcome_type: s("failure"),
            status: s("pending"),
        },
        1,
    );
    match w.session.roll_status() {
        RollSubmissionStatus::AwaitingApproval { roll, modifier, total, outcome_type } => {
            assert_eq!((*roll, *modifier, *total), (9, 1, 10));
            assert_eq!(outcome_type, "failure");
        },
        _ => panic!("expected awaiting"),
    }
}

#[test]
fn outcome_regenerated_replaces_named_outcome() {
    let mut w = world();
    w.session.add_pending_approval(approval("r1", true));
    handle(
        &mut w,
        ServerMessage::OutcomeRegenerated { request_id: s("r1"), outcome_type: s("failure"), new_outcome: detail("new") },
        1,
    );
    let o = w.session.pending_approvals()[0].challenge_suggestion.as_ref().unwrap().outcomes.as_ref().unwrap();
    assert_eq!(o.success.as_ref().unwrap().flavor_text, "old success");
    assert_eq!(o.failure.as_ref().unwrap().flavor_text, "new");
    handle(
        &mut w,
        ServerMessage::OutcomeRegenerated { request_id: s("r1"), outcome_type: s("all"), new_outcome: detail("both") },
        1,
    );
    let o = w.session.pending_approvals()[0].challenge_suggestion.as_ref().unwrap().outcomes.as_ref().unwrap();
    assert_eq!(o.success.as_ref().unwrap().flavor_text, "both");
    assert_eq!(o.failure.as_ref().unwrap().flavor_text, "both");
    assert!(o.critical_success.is_none());
    handle(
        &mut w,
        ServerMessage::OutcomeRegenerated {
            request_id: s("r1"),
            outcome_type: s("critical_success"),
            new_outcome: detail("crit"),
        },
        1,
    );
    let o = w.session.pending_approvals()[0].challenge_suggestion.as_ref().unwrap().outcomes.as_ref().unwrap();
    assert_eq!(o.critical_success.as_ref().unwrap().flavor_text, "crit");
}

#[test]
fn outcome_regenerated_without_outcomes_or_request_changes_nothing() {
    let mut w = world();
    w.session.add_pending_approval(approval("r1", false));
    handle(
        &mut w,
        ServerMessage::OutcomeRegenerated { request_id: s("r1"), outcome_type: s("success"), new_outcome: detail("x") },
        1,
    );
    assert!(w.session.pending_approvals()[0].challenge_suggestion.as_ref().unwrap().outcomes.is_none());
    handle(
        &mut w,
        ServerMessage::OutcomeRegenerated { request_id: s("nope"), outcome_type: s("success"), new_outcome: detail("x") },
        1,
    );
    assert_eq!(w.session.pending_approvals().len(), 1);
}

#[test]
fn challenge_discarded_clears_challenge_and_suggested_outcome() {
    let mut w = world();
    w.session.add_pending_approval(approval("r1", true));
    w.session.add_pending_approval(approval("r2", true));
    handle(&mut w, ServerMessage::ChallengeDiscarded { request_id: s("r1") }, 1);
    let a = &w.session.pending_approvals()[0];
    assert!(a.challenge_suggestion.is_none());
    let n = a.narrative_event_suggestion.as_ref().unwrap();
    assert!(n.suggested_outcome.is_none());
    assert_eq!(n.event_name, "Storm");
    let b = &w.session.pending_approvals()[1];
    assert!(b.challenge_suggestion.is_some());
}

#[test]
fn adhoc_challenge_is_logged() {
    let mut w = world();
    handle(
        &mut w,
        ServerMessage::AdHocChallengeCreated { challenge_id: s("c9"), challenge_name: s("Leap"), target_pc_id: s("pc1") },
        12,
    );
    assert_eq!(last_log(&w), (s("System"), s("[AD-HOC CHALLENGE] 'Leap' created for PC pc1 (ID: c9)"), true, 12));
}

#[test]
fn outcome_pending_and_suggestions() {
    let mut w = world();
    handle(
        &mut w,
        ServerMessage::ChallengeOutcomePending {
            resolution_id: s("res1"),
            challenge_id: s("c"),
            challenge_name: s("Climb"),
            character_id: s("pc"),
            character_name: s("Ayla"),
            roll: 3,
            modifier: 0,
            total: 3,
            outcome_type: s("failure"),
            outcome_description: s("slips"),
            outcome_triggers: vec![],
            roll_breakdown: None,
        },
        21,
    );
    let p = &w.session.pending_challenge_outcomes()[0];
    assert_eq!(p.timestamp, 21);
    assert!(p.suggestions.is_none() && p.branches.is_none() && !p.is_generating_suggestions);
    handle(&mut w, ServerMessage::OutcomeSuggestionReady { resolution_id: s("res1"), suggestions: vec![s("a")] }, 1);
    assert_eq!(w.session.pending_challenge_outcomes()[0].suggestions.as_ref().unwrap(), &vec![s("a")]);
    handle(
        &mut w,
        ServerMessage::OutcomeBranchesReady { resolution_id: s("res1"), outcome_type: s("failure"), branches: vec![] },
        1,
    );
    assert!(w.session.pending_challenge_outcomes()[0].branches.is_some());
}

#[test]
fn approach_and_location_events() {
    let mut w = world();
    handle(
        &mut w,
        ServerMessage::ApproachEvent { npc_id: s("n1"), npc_name: s("Bram"), npc_sprite: None, description: s("walks up") },
        4,
    );
    assert_eq!(last_log(&w), (s("Bram"), s("[APPROACH] walks up"), false, 4));
    assert_eq!(w.game.approach_event.as_ref().unwrap().npc_name, "Bram");
    handle(&mut w, ServerMessage::LocationEvent { region_id: s("r1"), description: s("bells ring") }, 5);
    assert_eq!(last_log(&w), (s("Narrator"), s("[EVENT] bells ring"), true, 5));
    assert_eq!(w.game.location_event.as_ref().unwrap().region_id, "r1");
}

#[test]
fn npc_location_and_pc_messages_are_logged() {
    let mut w = world();
    handle(
        &mut w,
        ServerMessage::NpcLocationShared { npc_id: s("n"), npc_name: s("Bram"), region_name: s("Docks"), notes: None },
        1,
    );
    assert_eq!(last_log(&w).1, "You heard that Bram is at Docks.");
    handle(
        &mut w,
        ServerMessage::NpcLocationShared {
            npc_id: s("n"),
            npc_name: s("Bram"),
            region_name: s("Docks"),
            notes: Some(s("He looks worried.")),
        },
        1,
    );
    assert_eq!(last_log(&w).1, "You heard that Bram is at Docks. He looks worried.");
    handle(
        &mut w,
        ServerMessage::PcSelected { pc_id: s("p"), pc_name: s("Ayla"), location_id: s("l"), region_id: None },
        1,
    );
    assert_eq!(last_log(&w).1, "Now playing as Ayla");
    handle(&mut w, ServerMessage::MovementBlocked { pc_id: s("p"), reason: s("locked") }, 1);
    assert_eq!(last_log(&w).1, "Cannot proceed: locked");
}

#[test]
fn scene_changed_and_time_update() {
    let mut w = world();
    handle(
        &mut w,
        ServerMessage::SceneChanged {
            pc_id: s("pc1"),
            region: RegionData {
                id: s("r1"),
                name: s("Market"),
                location_id: s("l1"),
                location_name: s("Town"),
                backdrop_asset: None,
                atmosphere: None,
            },
            npcs_present: vec![],
            navigation: NavigationData { connected_regions: vec![], exits: vec![] },
        },
        2,
    );
    assert_eq!(last_log(&w).1, "Entered Market (Town)");
    assert_eq!(w.game.current_region.as_ref().unwrap().name, "Market");
    assert_eq!(w.game.selected_pc_id.as_deref(), Some("pc1"));
    handle(
        &mut w,
        ServerMessage::GameTimeUpdated { display: s("Day 2, Noon"), time_of_day: s("noon"), is_paused: true },
        3,
    );
    assert_eq!(last_log(&w).1, "Time is now: Day 2, Noon");
    let t = w.game.game_time.as_ref().unwrap();
    assert!(t.is_paused);
    assert_eq!(t.time_of_day, "noon");
}

#[test]
fn connection_loss_drops_handle() {
    let mut w = world();
    w.session.set_connected(7);
    handle_session_event(
        SessionEvent::StateChanged(PortConnectionState::Reconnecting),
        &mut w.session,
        &mut w.game,
        &mut w.dialogue,
        &mut w.generation,
        1,
    );
    assert_eq!(w.session.connection_status(), ConnectionStatus::Reconnecting);
    assert_eq!(*w.session.engine_client(), Some(7));
    handle_session_event(
        SessionEvent::StateChanged(PortConnectionState::Failed),
        &mut w.session,
        &mut w.game,
        &mut w.dialogue,
        &mut w.generation,
        1,
    );
    assert_eq!(w.session.connection_status(), ConnectionStatus::Failed);
    assert_eq!(*w.session.engine_client(), None);
}

#[test]
fn session_event_forwards_messages() {
    let mut w = world();
    handle_session_event(
        SessionEvent::MessageReceived(ServerMessage::PlayerLeft { user_id: s("u5") }),
        &mut w.session,
        &mut w.game,
        &mut w.dialogue,
        &mut w.generation,
        9,
    );
    assert_eq!(last_log(&w), (s("System"), s("Player u5 left"), true, 9));
}
