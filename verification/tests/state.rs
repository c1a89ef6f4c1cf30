use wrldbldr_player::dto::{ApprovalDecision, ParticipantRole, SceneData, SessionWorldSnapshot, LocationSnapshot};
use wrldbldr_player::state::approval::{ApprovalState, PendingApproval, PendingChallengeOutcome};
use wrldbldr_player::state::challenge::{ChallengeState, RollSubmissionStatus};
use wrldbldr_player::state::connection::{ConnectionState, ConnectionStatus};
use wrldbldr_player::state::dialogue::{char_delay, DialogueState};
use wrldbldr_player::state::game::GameState;
use wrldbldr_player::state::generation::{BatchStatus, GenerationState};
use wrldbldr_player::state::session::SessionState;

fn s(x: &str) -> String {
    x.to_string()
}

#[test]
fn connection_lifecycle() {
    let mut c: ConnectionState<u8> = ConnectionState::new();
    assert_eq!(c.connection_status, ConnectionStatus::Disconnected);
    assert_eq!(c.comfyui_state, "connected");
    c.error_message = Some(s("old"));
    c.start_connecting("ws://host");
    assert_eq!(c.connection_status, ConnectionStatus::Connecting);
    assert!(c.error_message.is_none());
    assert_eq!(c.server_url.as_deref(), Some("ws://host"));
    c.set_connected(1);
    assert!(c.has_client());
    assert!(c.connection_status.is_connected());
    c.set_session_joined(s("sess"));
    c.set_user(s("u1"), ParticipantRole::DungeonMaster);
    c.set_disconnected();
    assert!(!c.has_client());
    assert!(c.session_id.is_none());
    assert_eq!(c.user_id.as_deref(), Some("u1"));
    c.set_connected(2);
    c.set_failed(s("refused"));
    assert!(!c.has_client());
    assert_eq!(c.error_message.as_deref(), Some("refused"));
    assert_eq!(c.connection_status, ConnectionStatus::Failed);
    c.set_reconnecting();
    assert_eq!(c.connection_status, ConnectionStatus::Reconnecting);
    c.comfyui_state = s("degraded");
    c.clear();
    assert!(c.user_id.is_none() && c.server_url.is_none() && c.error_message.is_none());
    assert_eq!(c.comfyui_state, "connected");
    assert!(c.comfyui_message.is_none() && c.comfyui_retry_in_seconds.is_none());
}

#[test]
fn connection_status_texts() {
    assert_eq!(ConnectionStatus::Connected.indicator_color(), "#4ade80");
    assert_eq!(ConnectionStatus::Failed.indicator_color(), "#ef4444");
    assert_eq!(ConnectionStatus::Reconnecting.display_text(), "Reconnecting...");
    assert_eq!(ConnectionStatus::Disconnected.display_text(), "Disconnected");
    assert!(!ConnectionStatus::Connecting.is_connected());
}

fn approval(id: &str, npc: &str) -> PendingApproval {
    PendingApproval {
        request_id: s(id),
        npc_name: s(npc),
        proposed_dialogue: s(""),
        internal_reasoning: s(""),
        proposed_tools: vec![],
        challenge_suggestion: None,
        narrative_event_suggestion: None,
    }
}

#[test]
fn decisions_are_recorded_with_npc_name() {
    let mut a = ApprovalState::new();
    a.add_pending_approval(approval("r1", "Mira"));
    a.add_pending_approval(approval("r2", "Bram"));
    a.record_approval_decision(s("r1"), &ApprovalDecision::Accept, 50);
    a.record_approval_decision(s("zz"), &ApprovalDecision::Reject { feedback: s("no") }, 51);
    a.record_approval_decision(s("r2"), &ApprovalDecision::TakeOver { dm_response: s("x") }, 52);
    let h = a.get_approval_history();
    assert_eq!(h.len(), 3);
    assert_eq!((h[0].npc_name.as_str(), h[0].outcome.as_str(), h[0].timestamp), ("Mira", "accepted", 50));
    assert_eq!((h[1].npc_name.as_str(), h[1].outcome.as_str()), ("Unknown", "rejected"));
    assert_eq!(h[2].outcome, "takeover");
    assert!(a.pending_approvals.is_empty());
}

fn pending(id: &str) -> PendingChallengeOutcome {
    PendingChallengeOutcome {
        resolution_id: s(id),
        challenge_name: s("c"),
        character_id: s("pc"),
        character_name: s("A"),
        roll: 1,
        modifier: 0,
        total: 1,
        outcome_type: s("failure"),
        outcome_description: s(""),
        outcome_triggers: vec![],
        roll_breakdown: None,
        suggestions: None,
        branches: None,
        is_generating_suggestions: false,
        timestamp: 0,
    }
}

#[test]
fn challenge_outcome_updates() {
    let mut a = ApprovalState::new();
    a.add_pending_challenge_outcome(pending("x"));
    a.set_challenge_generating_suggestions("x", true);
    assert!(a.get_pending_challenge_outcomes()[0].is_generating_suggestions);
    a.update_challenge_suggestions("x", vec![s("s1")]);
    let p = &a.get_pending_challenge_outcomes()[0];
    assert!(!p.is_generating_suggestions);
    assert_eq!(p.suggestions.as_ref().unwrap(), &vec![s("s1")]);
    a.remove_pending_challenge_outcome("x");
    assert!(a.get_pending_challenge_outcomes().is_empty());
}

#[test]
fn log_entries_carry_time() {
    let mut sess: SessionState<u8> = SessionState::new();
    sess.add_log_entry(s("Mira"), s("hi"), false, 99);
    let e = &sess.conversation_log()[0];
    assert_eq!((e.speaker.as_str(), e.text.as_str(), e.is_system, e.timestamp), ("Mira", "hi", false, 99));
}

#[test]
fn roll_status_transitions() {
    let mut c = ChallengeState::new();
    assert!(matches!(c.roll_status, RollSubmissionStatus::NotSubmitted));
    c.set_awaiting_approval(10, 2, 12, s("success"));
    assert!(matches!(c.roll_status, RollSubmissionStatus::AwaitingApproval { total: 12, .. }));
    c.dismiss_result();
    assert!(matches!(c.roll_status, RollSubmissionStatus::Dismissed));
    c.clear_roll_status();
    assert!(matches!(c.roll_status, RollSubmissionStatus::NotSubmitted));
}

#[test]
fn dialogue_typing_by_characters() {
    let mut d = DialogueState::new();
    d.apply_dialogue(s("id"), s("Mira"), s("Ok."), vec![]);
    assert_eq!(d.get_char_delay(), 30);
    d.type_character();
    d.type_character();
    d.type_character();
    assert_eq!(d.displayed_text, "Ok.");
    assert_eq!(d.get_char_delay(), 150);
    assert!(d.is_typing);
    d.type_character();
    assert!(!d.is_typing && d.awaiting_input);
    assert!(d.is_typing_complete());
    assert_eq!(char_delay(';'), 80);
    assert_eq!(char_delay('x'), 30);
}

#[test]
fn backdrop_prefers_scene_then_location() {
    let mut g = GameState::new();
    assert!(g.backdrop_url().is_none());
    g.load_world(SessionWorldSnapshot {
        world_id: s("w"),
        world_name: s("W"),
        locations: vec![LocationSnapshot { id: s("l1"), name: s("Keep"), backdrop_asset: Some(s("keep.png")) }],
        scenes: vec![],
        characters: vec![],
    });
    let scene = |b: Option<String>| SceneData {
        id: s("sc"),
        name: s("S"),
        location_id: s("l1"),
        location_name: s("Keep"),
        backdrop_asset: b,
        time_context: s(""),
        directorial_notes: s(""),
    };
    g.apply_scene_update(scene(None), vec![], vec![]);
    assert_eq!(g.backdrop_url().as_deref(), Some("keep.png"));
    g.apply_scene_update(scene(Some(s("own.png"))), vec![], vec![]);
    assert_eq!(g.backdrop_url().as_deref(), Some("own.png"));
    g.clear_scene();
    assert!(g.backdrop_url().is_none());
    assert!(g.world.is_some());
}

#[test]
fn generation_ready_flags_and_counts() {
    let mut g = GenerationState::new();
    g.batch_queued(s("b1"), s("character"), s("c1"), s("portrait"), 1);
    g.batch_queued(s("b2"), s("character"), s("c2"), s("sprite"), 2);
    assert_eq!(g.active_count(), 2);
    g.batch_complete("b1", 3);
    assert!(g.has_ready());
    assert_eq!(g.active_count(), 1);
    assert_eq!(g.get_ready_batches().len(), 1);
    assert_eq!(g.get_batches_for_entity("character", "c2").len(), 1);
    g.remove_batch("b1");
    assert!(!g.has_ready());
    assert!(matches!(g.get_batches()[0].status, BatchStatus::Queued { position: 2 }));
    g.add_suggestion_task(s("r1"), s("name"), None, None, None);
    assert_eq!(g.active_suggestion_count(), 1);
    g.suggestion_complete("r1", vec![s("x")]);
    assert!(g.has_ready_suggestions());
    assert_eq!(g.get_ready_suggestions().len(), 1);
    g.remove_suggestion("r1");
    assert!(!g.has_ready_suggestions());
    g.clear();
    assert!(g.get_batches().is_empty());
}
