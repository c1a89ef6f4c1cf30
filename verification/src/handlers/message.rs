//! How incoming Engine messages change the session,
//! game, dialogue and generation states.
use vstd::prelude::*;
use crate::dto::{
    character_ids, character_views, copy_detail, detail_eqv, location_in, opt_str, CharacterData,
    CharacterPosition, CharacterSnapshot, CharacterView, ChallengeOutcomesData,
    ChallengeSuggestionInfo, DialogueChoice, InteractionData, NarrativeEventSuggestionInfo,
    NavigationData, NpcPresenceData, OutcomeBranchData, OutcomeDetailData, ParticipantInfo,
    ParticipantRole, ProposedTool, RegionData, SceneData, SceneView, SessionWorldSnapshot,
    SplitPartyLocation,
};
use crate::seqs::{find_key, lemma_filter_map_step, lemma_find_key};
use crate::state::approval::{approval_ids, LogLine, PendingApproval, PendingChallengeOutcome};
use crate::state::challenge::{
    copy_result, ChallengeModel, ChallengePromptData, ChallengeResultData, ResultView,
    RollStatusView,
};
use crate::state::connection::ConnectionModel;
use crate::state::dialogue::{DialogueModel, DialogueState};
use crate::state::game::{
    ApproachEventData, GameModel, GameState, GameTimeData, LocationEventData,
};
use crate::state::generation::{
    batch_ids, batch_status_set, law_batch_status_update, law_task_status_update, task_status_set,
    request_ids, BatchStatus, GenerationBatch, GenerationModel, GenerationState, SuggestionStatus,
    SuggestionTask,
};
use crate::state::session::{SessionModel, SessionState};
use crate::text::{owned, str_eq};

verus! {

/// A message from the Engine.
#[allow(inconsistent_fields)]
pub enum ServerMessage {
    SessionJoined {
        session_id: String,
        role: ParticipantRole,
        participants: Vec<ParticipantInfo>,
        /// The world snapshot; `None` when it could not be read.
        world_snapshot: Option<SessionWorldSnapshot>,
    },
    PlayerJoined { user_id: String, role: ParticipantRole, character_name: Option<String> },
    PlayerLeft { user_id: String },
    ActionReceived { action_id: String, player_id: String, action_type: String },
    SceneUpdate { scene: SceneData, characters: Vec<CharacterData>, interactions: Vec<InteractionData> },
    DialogueResponse {
        speaker_id: String,
        speaker_name: String,
        text: String,
        choices: Vec<DialogueChoice>,
    },
    LLMProcessing { action_id: String },
    ApprovalRequired {
        request_id: String,
        npc_name: String,
        proposed_dialogue: String,
        internal_reasoning: String,
        proposed_tools: Vec<ProposedTool>,
        challenge_suggestion: Option<ChallengeSuggestionInfo>,
        narrative_event_suggestion: Option<NarrativeEventSuggestionInfo>,
    },
    ResponseApproved { npc_dialogue: String, executed_tools: Vec<String> },
    Error { code: String, message: String },
    Pong,
    GenerationQueued {
        batch_id: String,
        entity_type: String,
        entity_id: String,
        asset_type: String,
        position: u32,
    },
    GenerationProgress { batch_id: String, progress: u8 },
    GenerationComplete { batch_id: String, asset_count: u32 },
    GenerationFailed { batch_id: String, error: String },
    SuggestionQueued { request_id: String, field_type: String, entity_id: Option<String> },
    SuggestionProgress { request_id: String, status: String },
    SuggestionComplete { request_id: String, suggestions: Vec<String> },
    SuggestionFailed { request_id: String, error: String },
    ComfyUIStateChanged { state: String, message: Option<String>, retry_in_seconds: Option<u32> },
    ChallengePrompt {
        challenge_id: String,
        challenge_name: String,
        skill_name: String,
        difficulty_display: String,
        description: String,
        character_modifier: i32,
        suggested_dice: Option<String>,
        rule_system_hint: Option<String>,
    },
    ChallengeResolved {
        challenge_id: String,
        challenge_name: String,
        character_name: String,
        roll: i32,
        modifier: i32,
        total: i32,
        outcome: String,
        outcome_description: String,
        roll_breakdown: Option<String>,
        individual_rolls: Option<Vec<i32>>,
    },
    NarrativeEventTriggered {
        event_id: String,
        event_name: String,
        outcome_description: String,
        scene_direction: String,
    },
    SplitPartyNotification { location_count: u32, locations: Vec<SplitPartyLocation> },
    OutcomeRegenerated { request_id: String, outcome_type: String, new_outcome: OutcomeDetailData },
    ChallengeDiscarded { request_id: String },
    AdHocChallengeCreated { challenge_id: String, challenge_name: String, target_pc_id: String },
    ChallengeRollSubmitted {
        challenge_id: String,
        challenge_name: String,
        roll: i32,
        modifier: i32,
        total: i32,
        outcome_type: String,
        status: String,
    },
    ChallengeOutcomePending {
        resolution_id: String,
        challenge_id: String,
        challenge_name: String,
        character_id: String,
        character_name: String,
        roll: i32,
        modifier: i32,
        total: i32,
        outcome_type: String,
        outcome_description: String,
        outcome_triggers: Vec<ProposedTool>,
        roll_breakdown: Option<String>,
    },
    OutcomeSuggestionReady { resolution_id: String, suggestions: Vec<String> },
    OutcomeBranchesReady { resolution_id: String, outcome_type: String, branches: Vec<OutcomeBranchData> },
    ApproachEvent { npc_id: String, npc_name: String, npc_sprite: Option<String>, description: String },
    LocationEvent { region_id: String, description: String },
    NpcLocationShared { npc_id: String, npc_name: String, region_name: String, notes: Option<String> },
    PcSelected { pc_id: String, pc_name: String, location_id: String, region_id: Option<String> },
    SceneChanged {
        pc_id: String,
        region: RegionData,
        npcs_present: Vec<NpcPresenceData>,
        navigation: NavigationData,
    },
    MovementBlocked { pc_id: String, reason: String },
    GameTimeUpdated { display: String, time_of_day: String, is_paused: bool },
}

// ---------------------------------------------------------------------------
// Log texts
// ---------------------------------------------------------------------------

/// The name a role is printed with.
pub open spec fn role_name(r: ParticipantRole) -> Seq<char> {
    match r {
        ParticipantRole::DungeonMaster => "DungeonMaster"@,
        ParticipantRole::Player => "Player"@,
        ParticipantRole::Spectator => "Spectator"@,
    }
}

/// The name a role is printed with.
pub fn role_label(r: &ParticipantRole) -> (s: &'static str)
    ensures
        s@ == role_name(*r),
{
    match r {
        ParticipantRole::DungeonMaster => "DungeonMaster",
        ParticipantRole::Player => "Player",
        ParticipantRole::Spectator => "Spectator",
    }
}

pub open spec fn joined_text(sid: Seq<char>) -> Seq<char> {
    "Joined session: "@ + sid
}

pub open spec fn player_joined_text(uid: Seq<char>, role: ParticipantRole, name: Option<Seq<char>>) -> Seq<char> {
    "Player "@ + uid + " joined as "@ + role_name(role) + match name {
        Some(n) => " ("@ + n + ")"@,
        None => Seq::empty(),
    }
}

pub open spec fn player_left_text(uid: Seq<char>) -> Seq<char> {
    "Player "@ + uid + " left"@
}

pub open spec fn action_text(aid: Seq<char>, atype: Seq<char>) -> Seq<char> {
    "Action "@ + aid + " received: "@ + atype
}

pub open spec fn processing_text(aid: Seq<char>) -> Seq<char> {
    "Processing action: "@ + aid
}

pub open spec fn error_text(code: Seq<char>, msg: Seq<char>) -> Seq<char> {
    "Server error ["@ + code + "]: "@ + msg
}

pub open spec fn adhoc_text(cid: Seq<char>, cname: Seq<char>, pc: Seq<char>) -> Seq<char> {
    "[AD-HOC CHALLENGE] '"@ + cname + "' created for PC "@ + pc + " (ID: "@ + cid + ")"@
}

pub open spec fn approach_text(desc: Seq<char>) -> Seq<char> {
    "[APPROACH] "@ + desc
}

pub open spec fn location_event_text(desc: Seq<char>) -> Seq<char> {
    "[EVENT] "@ + desc
}

pub open spec fn npc_shared_text(n: Seq<char>, r: Seq<char>, notes: Option<Seq<char>>) -> Seq<char> {
    "You heard that "@ + n + " is at "@ + r + match notes {
        Some(x) => ". "@ + x,
        None => "."@,
    }
}

pub open spec fn pc_selected_text(name: Seq<char>) -> Seq<char> {
    "Now playing as "@ + name
}

pub open spec fn entered_text(rname: Seq<char>, lname: Seq<char>) -> Seq<char> {
    "Entered "@ + rname + " ("@ + lname + ")"@
}

pub open spec fn blocked_text(reason: Seq<char>) -> Seq<char> {
    "Cannot proceed: "@ + reason
}

pub open spec fn time_text(display: Seq<char>) -> Seq<char> {
    "Time is now: "@ + display
}

// ---------------------------------------------------------------------------
// The initial scene of a joined world
// ---------------------------------------------------------------------------

/// The scene shown after joining: the world's first scene, named after its
/// location ("Unknown" when the location is missing), with its own backdrop
/// or else its location's.
pub open spec fn initial_scene(w: SessionWorldSnapshot) -> SceneView {
    let sc = w.scenes@[0];
    let loc = location_in(w, sc.location_id@);
    SceneView {
        id: sc.id@,
        name: sc.name@,
        location_id: sc.location_id@,
        location_name: match loc {
            Some(l) => l.name@,
            None => "Unknown"@,
        },
        backdrop_asset: match sc.backdrop_override {
            Some(b) => Some(b@),
            None => match loc {
                Some(l) => opt_str(l.backdrop_asset),
                None => None,
            },
        },
        time_context: sc.time_context@,
        directorial_notes: sc.directorial_notes@,
    }
}

/// A world character as it first appears: centered, silent, no emotion.
pub open spec fn character_from(c: CharacterSnapshot) -> CharacterView {
    CharacterView {
        id: c.id@,
        name: c.name@,
        sprite_asset: opt_str(c.sprite_asset),
        portrait_asset: opt_str(c.portrait_asset),
        position: CharacterPosition::Center,
        is_speaking: false,
        emotion: Seq::empty(),
    }
}

/// The character of `w` that a featured ID names, if any.
pub open spec fn featured_lookup(w: SessionWorldSnapshot) -> spec_fn(String) -> Option<CharacterView> {
    |id: String|
        match find_key(character_ids(w.characters@), id@) {
            Some(i) => Some(character_from(w.characters@[i])),
            None => None,
        }
}

/// The characters of the first scene that exist in the world, in order.
pub open spec fn initial_characters(w: SessionWorldSnapshot) -> Seq<CharacterView> {
    w.scenes@[0].featured_characters@.filter_map(featured_lookup(w))
}

/// Builds the initial scene of a world that has at least one scene.
fn build_initial_scene(w: &SessionWorldSnapshot) -> (r: (SceneData, Vec<CharacterData>))
    requires
        w.scenes@.len() > 0,
    ensures
        r.0@ == initial_scene(*w),
        character_views(r.1@) == initial_characters(*w),
{
    let sc = &w.scenes[0];
    let loc = w.get_location(&sc.location_id);
    let location_name = match loc {
        Some(l) => l.name.clone(),
        None => owned("Unknown"),
    };
    let backdrop_asset = match &sc.backdrop_override {
        Some(b) => Some(b.clone()),
        None => match loc {
            Some(l) => crate::copy::copy_opt_string(&l.backdrop_asset),
            None => None,
        },
    };
    let scene = SceneData {
        id: sc.id.clone(),
        name: sc.name.clone(),
        location_id: sc.location_id.clone(),
        location_name,
        backdrop_asset,
        time_context: sc.time_context.clone(),
        directorial_notes: sc.directorial_notes.clone(),
    };
    let ghost f = featured_lookup(*w);
    let ghost ids = sc.featured_characters@;
    let mut chars: Vec<CharacterData> = Vec::new();
    let mut i: usize = 0;
    proof {
        reveal_with_fuel(Seq::<_>::filter_map, 1);
        assert(ids.take(0) =~= Seq::<String>::empty());
    }
    while i < sc.featured_characters.len()
        invariant
            i <= ids.len(),
            ids == sc.featured_characters@,
            f == featured_lookup(*w),
            character_views(chars@) == ids.take(i as int).filter_map(f),
        decreases ids.len() - i,
    {
        proof {
            lemma_filter_map_step(ids, i as int, f);
        }
        match w.character_index(&sc.featured_characters[i]) {
            Some(k) => {
                let c = &w.characters[k];
                let ghost before = chars@;
                chars.push(
                    CharacterData {
                        id: c.id.clone(),
                        name: c.name.clone(),
                        sprite_asset: crate::copy::copy_opt_string(&c.sprite_asset),
                        portrait_asset: crate::copy::copy_opt_string(&c.portrait_asset),
                        position: CharacterPosition::Center,
                        is_speaking: false,
                        emotion: String::new(),
                    },
                );
                assert(character_views(chars@) =~= character_views(before).push(
                    character_from(w.characters@[k as int]),
                ));
            },
            None => {},
        }
        i = i + 1;
    }
    assert(ids.take(ids.len() as int) =~= ids);
    (scene, chars)
}

// ---------------------------------------------------------------------------
// Regenerated and discarded challenge outcomes
// ---------------------------------------------------------------------------

/// The outcomes after regenerating the `ty` outcome as `n`: the named one is
/// replaced; an unknown type replaces both success and failure.
pub open spec fn outcomes_regenerated(
    o: ChallengeOutcomesData,
    ty: Seq<char>,
    n: OutcomeDetailData,
    r: ChallengeOutcomesData,
) -> bool {
    let is_new = |x: Option<OutcomeDetailData>| x matches Some(d) && detail_eqv(d, n);
    if ty == "success"@ {
        is_new(r.success) && r.failure == o.failure && r.critical_success == o.critical_success
            && r.critical_failure == o.critical_failure
    } else if ty == "failure"@ {
        r.success == o.success && is_new(r.failure) && r.critical_success == o.critical_success
            && r.critical_failure == o.critical_failure
    } else if ty == "critical_success"@ {
        r.success == o.success && r.failure == o.failure && is_new(r.critical_success)
            && r.critical_failure == o.critical_failure
    } else if ty == "critical_failure"@ {
        r.success == o.success && r.failure == o.failure && r.critical_success
            == o.critical_success && is_new(r.critical_failure)
    } else {
        is_new(r.success) && is_new(r.failure) && r.critical_success == o.critical_success
            && r.critical_failure == o.critical_failure
    }
}

/// An approval after regenerating one challenge outcome: only the outcomes
/// of its challenge suggestion (when it has both) change.
pub open spec fn approval_regenerated(
    a: PendingApproval,
    ty: Seq<char>,
    n: OutcomeDetailData,
    b: PendingApproval,
) -> bool {
    &&& b.request_id == a.request_id
    &&& b.npc_name == a.npc_name
    &&& b.proposed_dialogue == a.proposed_dialogue
    &&& b.internal_reasoning == a.internal_reasoning
    &&& b.proposed_tools == a.proposed_tools
    &&& b.narrative_event_suggestion == a.narrative_event_suggestion
    &&& match a.challenge_suggestion {
        None => b.challenge_suggestion is None,
        Some(c) => match b.challenge_suggestion {
            None => false,
            Some(d) => {
                &&& d.challenge_id == c.challenge_id
                &&& d.challenge_name == c.challenge_name
                &&& d.skill_name == c.skill_name
                &&& d.difficulty_display == c.difficulty_display
                &&& d.confidence == c.confidence
                &&& d.reasoning == c.reasoning
                &&& match c.outcomes {
                    None => d.outcomes is None,
                    Some(o) => d.outcomes matches Some(ro) && outcomes_regenerated(o, ty, n, ro),
                }
            },
        },
    }
}

/// An approval with its challenge suggestion discarded: the challenge goes,
/// and a narrative suggestion loses its suggested outcome.
pub open spec fn discarded(a: PendingApproval) -> PendingApproval {
    PendingApproval {
        challenge_suggestion: None,
        narrative_event_suggestion: match a.narrative_event_suggestion {
            Some(n) => Some(NarrativeEventSuggestionInfo { suggested_outcome: None, ..n }),
            None => None,
        },
        ..a
    }
}

/// The approvals after discarding the challenge of every request with ID `id`.
pub open spec fn discard_all(s: Seq<PendingApproval>, id: Seq<char>) -> Seq<PendingApproval> {
    Seq::new(s.len(), |k: int| if s[k].request_id@ == id { discarded(s[k]) } else { s[k] })
}

// ---------------------------------------------------------------------------
// The effect of a message
// ---------------------------------------------------------------------------

/// All presentation state at once.
pub struct AppModel<C> {
    pub session: SessionModel<C>,
    pub game: GameModel,
    pub dialogue: DialogueModel,
    pub generation: GenerationModel,
}

impl<C> AppModel<C> {
    pub open spec fn with_session(self, s: SessionModel<C>) -> AppModel<C> {
        AppModel { session: s, ..self }
    }

    pub open spec fn with_game(self, g: GameModel) -> AppModel<C> {
        AppModel { game: g, ..self }
    }

    pub open spec fn with_generation(self, g: GenerationModel) -> AppModel<C> {
        AppModel { generation: g, ..self }
    }

    /// A system log entry appended.
    pub open spec fn system_log(self, text: Seq<char>, now: u64) -> AppModel<C> {
        self.with_session(self.session.log("System"@, text, true, now))
    }

    /// The challenge state replaced.
    pub open spec fn with_challenge(self, c: ChallengeModel) -> AppModel<C> {
        self.with_session(self.session.with_challenge(c))
    }

    /// The connection state replaced.
    pub open spec fn with_connection(self, c: ConnectionModel<C>) -> AppModel<C> {
        self.with_session(self.session.with_connection(c))
    }
}

/// The state after a challenge is resolved at `now`: the active challenge is
/// cleared when it is the resolved one, the result is added to the history
/// and shown.
pub open spec fn resolved<C>(pre: AppModel<C>, challenge_id: Seq<char>, r: ResultView) -> AppModel<C> {
    let c = pre.session.challenge;
    let active = match c.active_challenge {
        Some(a) => if a.challenge_id@ == challenge_id { None } else { Some(a) },
        None => None,
    };
    pre.with_challenge(
        ChallengeModel {
            active_challenge: active,
            challenge_results: c.challenge_results.push(r),
            player_skills: c.player_skills,
            roll_status: RollStatusView::ResultReady(r),
        },
    )
}

/// What handling `msg` at time `now` does to the state `pre`, giving `post`.
pub open spec fn message_effect<C>(pre: AppModel<C>, msg: ServerMessage, now: u64, post: AppModel<C>) -> bool {
    match msg {
        ServerMessage::SessionJoined { session_id, world_snapshot, .. } => {
            let joined = pre.with_connection(
                ConnectionModel { session_id: Some(session_id@), ..pre.session.connection },
            ).system_log(joined_text(session_id@), now);
            match world_snapshot {
                None => post == joined,
                Some(w) => {
                    let g = if w.scenes@.len() > 0 {
                        joined.game.scene_update(initial_scene(w), initial_characters(w), Seq::empty())
                    } else {
                        joined.game
                    };
                    post == joined.with_game(GameModel { world: Some(w), ..g }).system_log(
                        "World data loaded"@,
                        now,
                    )
                },
            }
        },
        ServerMessage::PlayerJoined { user_id, role, character_name } => post == pre.system_log(
            player_joined_text(user_id@, role, opt_str(character_name)),
            now,
        ),
        ServerMessage::PlayerLeft { user_id } => post == pre.system_log(player_left_text(user_id@), now),
        ServerMessage::ActionReceived { action_id, action_type, .. } => post == pre.system_log(
            action_text(action_id@, action_type@),
            now,
        ),
        ServerMessage::SceneUpdate { scene, characters, interactions } => post == pre.with_game(
            pre.game.scene_update(scene@, character_views(characters@), interactions@),
        ),
        ServerMessage::DialogueResponse { speaker_id, speaker_name, text, choices } => post == AppModel {
            session: pre.session.log(speaker_name@, text@, false, now),
            dialogue: pre.dialogue.apply(speaker_id@, speaker_name@, text@, choices@),
            ..pre
        },
        ServerMessage::LLMProcessing { action_id } => post == (AppModel {
            dialogue: DialogueModel { is_llm_processing: true, ..pre.dialogue },
            ..pre
        }).system_log(processing_text(action_id@), now),
        ServerMessage::ApprovalRequired {
            request_id,
            npc_name,
            proposed_dialogue,
            internal_reasoning,
            proposed_tools,
            challenge_suggestion,
            narrative_event_suggestion,
        } => post == pre.with_session(
            pre.session.with_approval(
                pre.session.approval.with_approvals(
                    pre.session.approval.pending_approvals.push(
                        PendingApproval {
                            request_id,
                            npc_name,
                            proposed_dialogue,
                            internal_reasoning,
                            proposed_tools,
                            challenge_suggestion,
                            narrative_event_suggestion,
                        },
                    ),
                ),
            ),
        ),
        ServerMessage::ResponseApproved { .. } => post == pre,
        ServerMessage::Error { code, message } => post == pre.with_connection(
            ConnectionModel {
                error_message: Some(error_text(code@, message@)),
                ..pre.session.connection
            },
        ),
        ServerMessage::Pong => post == pre,
        ServerMessage::GenerationQueued { batch_id, entity_type, entity_id, asset_type, position } =>
            post == pre.with_generation(
            pre.generation.queue_batch(
                GenerationBatch {
                    batch_id,
                    entity_type,
                    entity_id,
                    asset_type,
                    status: BatchStatus::Queued { position },
                    is_read: false,
                },
            ),
        ),
        ServerMessage::GenerationProgress { batch_id, progress } => post == pre.with_generation(
            pre.generation.set_batch_status(batch_id@, BatchStatus::Generating { progress }).recompute(),
        ),
        ServerMessage::GenerationComplete { batch_id, asset_count } => post == pre.with_generation(
            pre.generation.set_batch_status(batch_id@, BatchStatus::Ready { asset_count }).recompute(),
        ),
        ServerMessage::GenerationFailed { batch_id, error } => post == pre.with_generation(
            pre.generation.set_batch_status(batch_id@, BatchStatus::Failed { error }).recompute(),
        ),
        ServerMessage::SuggestionQueued { request_id, field_type, entity_id } => post
            == pre.with_generation(
            if find_key(request_ids(pre.generation.suggestions), request_id@) is Some {
                pre.generation.set_task_status(request_id@, SuggestionStatus::Queued).recompute()
            } else {
                pre.generation.add_task(
                    SuggestionTask {
                        request_id,
                        field_type,
                        entity_id,
                        status: SuggestionStatus::Queued,
                        is_read: false,
                        context: None,
                        world_id: None,
                    },
                )
            },
        ),
        ServerMessage::SuggestionProgress { request_id, .. } => post == pre.with_generation(
            pre.generation.set_task_status(request_id@, SuggestionStatus::Processing).recompute(),
        ),
        ServerMessage::SuggestionComplete { request_id, suggestions } => post == pre.with_generation(
            pre.generation.set_task_status(request_id@, SuggestionStatus::Ready { suggestions }).recompute(),
        ),
        ServerMessage::SuggestionFailed { request_id, error } => post == pre.with_generation(
            pre.generation.set_task_status(request_id@, SuggestionStatus::Failed { error }).recompute(),
        ),
        ServerMessage::ComfyUIStateChanged { state, message, retry_in_seconds } => post
            == pre.with_connection(
            ConnectionModel {
                comfyui_state: state@,
                comfyui_message: opt_str(message),
                comfyui_retry_in_seconds: retry_in_seconds,
                ..pre.session.connection
            },
        ),
        ServerMessage::ChallengePrompt {
            challenge_id,
            challenge_name,
            skill_name,
            difficulty_display,
            description,
            character_modifier,
            suggested_dice,
            rule_system_hint,
        } => post == pre.with_challenge(
            ChallengeModel {
                active_challenge: Some(
                    ChallengePromptData {
                        challenge_id,
                        challenge_name,
                        skill_name,
                        difficulty_display,
                        description,
                        character_modifier,
                        suggested_dice,
                        rule_system_hint,
                    },
                ),
                ..pre.session.challenge
            },
        ),
        ServerMessage::ChallengeResolved {
            challenge_id,
            challenge_name,
            character_name,
            roll,
            modifier,
            total,
            outcome,
            outcome_description,
            roll_breakdown,
            individual_rolls,
        } => post == resolved(
            pre,
            challenge_id@,
            ResultView {
                challenge_name: challenge_name@,
                character_name: character_name@,
                roll,
                modifier,
                total,
                outcome: outcome@,
                outcome_description: outcome_description@,
                timestamp: now,
                roll_breakdown: opt_str(roll_breakdown),
                individual_rolls: match individual_rolls {
                    Some(v) => Some(v@),
                    None => None,
                },
            },
        ),
        ServerMessage::NarrativeEventTriggered { .. } => post == pre,
        ServerMessage::SplitPartyNotification { .. } => post == pre,
        ServerMessage::OutcomeRegenerated { request_id, outcome_type, new_outcome } => {
            let s = pre.session.approval.pending_approvals;
            match find_key(approval_ids(s), request_id@) {
                None => post == pre,
                Some(i) => {
                    let t = post.session.approval.pending_approvals;
                    &&& post == pre.with_session(
                        pre.session.with_approval(pre.session.approval.with_approvals(t)),
                    )
                    &&& t.len() == s.len()
                    &&& forall|k: int| 0 <= k < s.len() && k != i ==> t[k] == s[k]
                    &&& approval_regenerated(s[i], outcome_type@, new_outcome, t[i])
                },
            }
        },
        ServerMessage::ChallengeDiscarded { request_id } => post == pre.with_session(
            pre.session.with_approval(
                pre.session.approval.with_approvals(
                    discard_all(pre.session.approval.pending_approvals, request_id@),
                ),
            ),
        ),
        ServerMessage::AdHocChallengeCreated { challenge_id, challenge_name, target_pc_id } => post
            == pre.system_log(adhoc_text(challenge_id@, challenge_name@, target_pc_id@), now),
        ServerMessage::ChallengeRollSubmitted { roll, modifier, total, outcome_type, .. } => post
            == pre.with_challenge(
            ChallengeModel {
                roll_status: RollStatusView::AwaitingApproval {
                    roll,
                    modifier,
                    total,
                    outcome_type: outcome_type@,
                },
                ..pre.session.challenge
            },
        ),
        ServerMessage::ChallengeOutcomePending {
            resolution_id,
            challenge_name,
            character_id,
            character_name,
            roll,
            modifier,
            total,
            outcome_type,
            outcome_description,
            outcome_triggers,
            roll_breakdown,
            ..
        } => post == pre.with_session(
            pre.session.with_approval(
                pre.session.approval.with_outcomes(
                    pre.session.approval.pending_challenge_outcomes.push(
                        PendingChallengeOutcome {
                            resolution_id,
                            challenge_name,
                            character_id,
                            character_name,
                            roll,
                            modifier,
                            total,
                            outcome_type,
                            outcome_description,
                            outcome_triggers,
                            roll_breakdown,
                            suggestions: None,
                            branches: None,
                            is_generating_suggestions: false,
                            timestamp: now,
                        },
                    ),
                ),
            ),
        ),
        ServerMessage::OutcomeSuggestionReady { resolution_id, suggestions } => post
            == pre.with_session(
            pre.session.with_approval(
                pre.session.approval.update_outcome(
                    resolution_id@,
                    Some(Some(suggestions)),
                    None,
                    false,
                ),
            ),
        ),
        ServerMessage::OutcomeBranchesReady { resolution_id, branches, .. } => post
            == pre.with_session(
            pre.session.with_approval(
                pre.session.approval.update_outcome(resolution_id@, None, Some(Some(branches)), false),
            ),
        ),
        ServerMessage::ApproachEvent { npc_id, npc_name, npc_sprite, description } => post == AppModel {
            session: pre.session.log(npc_name@, approach_text(description@), false, now),
            game: GameModel {
                approach_event: Some(ApproachEventData { npc_id, npc_name, npc_sprite, description }),
                ..pre.game
            },
            ..pre
        },
        ServerMessage::LocationEvent { region_id, description } => post == AppModel {
            session: pre.session.log("Narrator"@, location_event_text(description@), true, now),
            game: GameModel {
                location_event: Some(LocationEventData { region_id, description }),
                ..pre.game
            },
            ..pre
        },
        ServerMessage::NpcLocationShared { npc_name, region_name, notes, .. } => post
            == pre.system_log(npc_shared_text(npc_name@, region_name@, opt_str(notes)), now),
        ServerMessage::PcSelected { pc_name, .. } => post == pre.system_log(
            pc_selected_text(pc_name@),
            now,
        ),
        ServerMessage::SceneChanged { pc_id, region, npcs_present, navigation } => post
            == pre.with_game(
            pre.game.scene_changed(pc_id, region, npcs_present@, navigation),
        ).system_log(entered_text(region.name@, region.location_name@), now),
        ServerMessage::MovementBlocked { reason, .. } => post == pre.system_log(
            blocked_text(reason@),
            now,
        ),
        ServerMessage::GameTimeUpdated { display, time_of_day, is_paused } => post == pre.with_game(
            GameModel {
                game_time: Some(GameTimeData { display, time_of_day, is_paused }),
                ..pre.game
            },
        ).system_log(time_text(display@), now),
    }
}

/// The state of all four parts as one model.
pub open spec fn app_model<C>(
    s: SessionState<C>,
    g: GameState,
    d: DialogueState,
    gen: GenerationState,
) -> AppModel<C> {
    AppModel { session: s@, game: g@, dialogue: d@, generation: gen@ }
}

// ---------------------------------------------------------------------------
// The handler
// ---------------------------------------------------------------------------

/// Regenerates one outcome of a challenge suggestion's outcomes.
fn regenerate_outcomes(
    o: ChallengeOutcomesData,
    outcome_type: &String,
    new_outcome: OutcomeDetailData,
) -> (r: ChallengeOutcomesData)
    ensures
        outcomes_regenerated(o, outcome_type@, new_outcome, r),
{
    let mut o = o;
    if str_eq(outcome_type.as_str(), "success") {
        o.success = Some(new_outcome);
    } else if str_eq(outcome_type.as_str(), "failure") {
        o.failure = Some(new_outcome);
    } else if str_eq(outcome_type.as_str(), "critical_success") {
        o.critical_success = Some(new_outcome);
    } else if str_eq(outcome_type.as_str(), "critical_failure") {
        o.critical_failure = Some(new_outcome);
    } else {
        o.success = Some(copy_detail(&new_outcome));
        o.failure = Some(new_outcome);
    }
    o
}

/// Appends a system log entry.
fn system_log<C>(session: &mut SessionState<C>, text: String, now: u64)
    ensures
        final(session)@ == old(session)@.log("System"@, text@, true, now),
{
    session.add_log_entry(owned("System"), text, true, now);
}

/// Handles an incoming Engine message received at time `now` (Unix seconds),
/// updating the presentation state.
pub fn handle_server_message<C>(
    message: ServerMessage,
    session_state: &mut SessionState<C>,
    game_state: &mut GameState,
    dialogue_state: &mut DialogueState,
    generation_state: &mut GenerationState,
    now: u64,
)
    ensures
        message_effect(
            app_model(*old(session_state), *old(game_state), *old(dialogue_state), *old(generation_state)),
            message,
            now,
            app_model(*final(session_state), *final(game_state), *final(dialogue_state), *final(generation_state)),
        ),
{
    match message {
        ServerMessage::SessionJoined { session_id, world_snapshot, .. } => {
            let mut text = owned("Joined session: ");
            text.append(session_id.as_str());
            session_state.set_session_joined(session_id);
            system_log(session_state, text, now);
            match world_snapshot {
                Some(snapshot) => {
                    if snapshot.scenes.len() > 0 {
                        let (scene, chars) = build_initial_scene(&snapshot);
                        game_state.apply_scene_update(scene, chars, Vec::new());
                    }
                    game_state.load_world(snapshot);
                    system_log(session_state, owned("World data loaded"), now);
                },
                None => {},
            }
        },
        ServerMessage::PlayerJoined { user_id, role, character_name } => {
            let mut text = owned("Player ");
            text.append(user_id.as_str());
            text.append(" joined as ");
            text.append(role_label(&role));
            match &character_name {
                Some(n) => {
                    text.append(" (");
                    text.append(n.as_str());
                    text.append(")");
                },
                None => {},
            }
            assert(text@ =~= player_joined_text(user_id@, role, opt_str(character_name)));
            system_log(session_state, text, now);
        },
        ServerMessage::PlayerLeft { user_id } => {
            let mut text = owned("Player ");
            text.append(user_id.as_str());
            text.append(" left");
            system_log(session_state, text, now);
        },
        ServerMessage::ActionReceived { action_id, action_type, .. } => {
            let mut text = owned("Action ");
            text.append(action_id.as_str());
            text.append(" received: ");
            text.append(action_type.as_str());
            system_log(session_state, text, now);
        },
        ServerMessage::SceneUpdate { scene, characters, interactions } => {
            game_state.apply_scene_update(scene, characters, interactions);
        },
        ServerMessage::DialogueResponse { speaker_id, speaker_name, text, choices } => {
            session_state.add_log_entry(speaker_name.clone(), text.clone(), false, now);
            dialogue_state.apply_dialogue(speaker_id, speaker_name, text, choices);
        },
        ServerMessage::LLMProcessing { action_id } => {
            dialogue_state.is_llm_processing = true;
            let mut text = owned("Processing action: ");
            text.append(action_id.as_str());
            system_log(session_state, text, now);
        },
        ServerMessage::ApprovalRequired {
            request_id,
            npc_name,
            proposed_dialogue,
            internal_reasoning,
            proposed_tools,
            challenge_suggestion,
            narrative_event_suggestion,
        } => {
            session_state.add_pending_approval(
                PendingApproval {
                    request_id,
                    npc_name,
                    proposed_dialogue,
                    internal_reasoning,
                    proposed_tools,
                    challenge_suggestion,
                    narrative_event_suggestion,
                },
            );
        },
        ServerMessage::ResponseApproved { .. } => {},
        ServerMessage::Error { code, message } => {
            let mut text = owned("Server error [");
            text.append(code.as_str());
            text.append("]: ");
            text.append(message.as_str());
            session_state.connection.error_message = Some(text);
        },
        ServerMessage::Pong => {},
        ServerMessage::GenerationQueued { batch_id, entity_type, entity_id, asset_type, position } => {
            generation_state.batch_queued(batch_id, entity_type, entity_id, asset_type, position);
        },
        ServerMessage::GenerationProgress { batch_id, progress } => {
            generation_state.batch_progress(batch_id.as_str(), progress);
        },
        ServerMessage::GenerationComplete { batch_id, asset_count } => {
            generation_state.batch_complete(batch_id.as_str(), asset_count);
        },
        ServerMessage::GenerationFailed { batch_id, error } => {
            generation_state.batch_failed(batch_id.as_str(), error);
        },
        ServerMessage::SuggestionQueued { request_id, field_type, entity_id } => {
            generation_state.suggestion_queued(request_id, field_type, entity_id);
        },
        ServerMessage::SuggestionProgress { request_id, status } => {
            generation_state.suggestion_progress(request_id.as_str(), status.as_str());
        },
        ServerMessage::SuggestionComplete { request_id, suggestions } => {
            generation_state.suggestion_complete(request_id.as_str(), suggestions);
        },
        ServerMessage::SuggestionFailed { request_id, error } => {
            generation_state.suggestion_failed(request_id.as_str(), error);
        },
        ServerMessage::ComfyUIStateChanged { state, message, retry_in_seconds } => {
            session_state.connection.comfyui_state = state;
            session_state.connection.comfyui_message = message;
            session_state.connection.comfyui_retry_in_seconds = retry_in_seconds;
        },
        ServerMessage::ChallengePrompt {
            challenge_id,
            challenge_name,
            skill_name,
            difficulty_display,
            description,
            character_modifier,
            suggested_dice,
            rule_system_hint,
        } => {
            session_state.set_active_challenge(
                ChallengePromptData {
                    challenge_id,
                    challenge_name,
                    skill_name,
                    difficulty_display,
                    description,
                    character_modifier,
                    suggested_dice,
                    rule_system_hint,
                },
            );
        },
        ServerMessage::ChallengeResolved {
            challenge_id,
            challenge_name,
            character_name,
            roll,
            modifier,
            total,
            outcome,
            outcome_description,
            roll_breakdown,
            individual_rolls,
        } => {
            let is_active = match &session_state.challenge.active_challenge {
                Some(active) => active.challenge_id == challenge_id,
                None => false,
            };
            if is_active {
                session_state.clear_active_challenge();
            }
            let result = ChallengeResultData {
                challenge_name,
                character_name,
                roll,
                modifier,
                total,
                outcome,
                outcome_description,
                timestamp: now,
                roll_breakdown,
                individual_rolls,
            };
            let copy = copy_result(&result);
            session_state.add_challenge_result(copy);
            session_state.set_result_ready(result);
        },
        ServerMessage::NarrativeEventTriggered { .. } => {},
        ServerMessage::SplitPartyNotification { .. } => {},
        ServerMessage::OutcomeRegenerated { request_id, outcome_type, new_outcome } => {
            match session_state.approval.find_approval(&request_id) {
                Some(idx) => {
                    let ghost s = session_state.approval.pending_approvals@;
                    let cs = session_state.approval.pending_approvals[idx].challenge_suggestion.take();
                    let new_cs = match cs {
                        Some(ch) => {
                            let mut ch = ch;
                            let outs = ch.outcomes.take();
                            ch.outcomes = match outs {
                                Some(o) => Some(regenerate_outcomes(o, &outcome_type, new_outcome)),
                                None => None,
                            };
                            Some(ch)
                        },
                        None => None,
                    };
                    session_state.approval.pending_approvals[idx].challenge_suggestion = new_cs;
                    proof {
                        lemma_find_key(approval_ids(s), request_id@);
                    }
                },
                None => {},
            }
        },
        ServerMessage::ChallengeDiscarded { request_id } => {
            let ghost s = session_state.approval.pending_approvals@;
            let n = session_state.approval.pending_approvals.len();
            let mut i: usize = 0;
            while i < n
                invariant
                    i <= n,
                    n == s.len(),
                    session_state.approval.pending_approvals@.len() == n,
                    forall|k: int|
                        0 <= k < i ==> session_state.approval.pending_approvals@[k] == (if s[k].request_id@
                            == request_id@ {
                            discarded(s[k])
                        } else {
                            s[k]
                        }),
                    forall|k: int| i <= k < n ==> session_state.approval.pending_approvals@[k] == s[k],
                    session_state.connection == old(session_state).connection,
                    session_state.challenge == old(session_state).challenge,
                    session_state.approval.decision_history == old(session_state).approval.decision_history,
                    session_state.approval.conversation_log == old(session_state).approval.conversation_log,
                    session_state.approval.pending_challenge_outcomes == old(session_state).approval.pending_challenge_outcomes,
                    s == old(session_state).approval.pending_approvals@,
                decreases n - i,
            {
                if session_state.approval.pending_approvals[i].request_id == request_id {
                    session_state.approval.pending_approvals[i].challenge_suggestion = None;
                    let nes = session_state.approval.pending_approvals[i].narrative_event_suggestion.take();
                    session_state.approval.pending_approvals[i].narrative_event_suggestion = match nes {
                        Some(x) => {
                            let mut x = x;
                            x.suggested_outcome = None;
                            Some(x)
                        },
                        None => None,
                    };
                }
                i = i + 1;
            }
            assert(session_state.approval.pending_approvals@ =~= discard_all(s, request_id@));
        },
        ServerMessage::AdHocChallengeCreated { challenge_id, challenge_name, target_pc_id } => {
            let mut text = owned("[AD-HOC CHALLENGE] '");
            text.append(challenge_name.as_str());
            text.append("' created for PC ");
            text.append(target_pc_id.as_str());
            text.append(" (ID: ");
            text.append(challenge_id.as_str());
            text.append(")");
            system_log(session_state, text, now);
        },
        ServerMessage::ChallengeRollSubmitted { roll, modifier, total, outcome_type, .. } => {
            session_state.set_awaiting_approval(roll, modifier, total, outcome_type);
        },
        ServerMessage::ChallengeOutcomePending {
            resolution_id,
            challenge_name,
            character_id,
            character_name,
            roll,
            modifier,
            total,
            outcome_type,
            outcome_description,
            outcome_triggers,
            roll_breakdown,
            ..
        } => {
            session_state.add_pending_challenge_outcome(
                PendingChallengeOutcome {
                    resolution_id,
                    challenge_name,
                    character_id,
                    character_name,
                    roll,
                    modifier,
                    total,
                    outcome_type,
                    outcome_description,
                    outcome_triggers,
                    roll_breakdown,
                    suggestions: None,
                    branches: None,
                    is_generating_suggestions: false,
                    timestamp: now,
                },
            );
        },
        ServerMessage::OutcomeSuggestionReady { resolution_id, suggestions } => {
            session_state.update_challenge_suggestions(resolution_id.as_str(), suggestions);
        },
        ServerMessage::OutcomeBranchesReady { resolution_id, outcome_type, branches } => {
            session_state.update_challenge_branches(resolution_id.as_str(), outcome_type, branches);
        },
        ServerMessage::ApproachEvent { npc_id, npc_name, npc_sprite, description } => {
            let mut text = owned("[APPROACH] ");
            text.append(description.as_str());
            session_state.add_log_entry(npc_name.clone(), text, false, now);
            game_state.set_approach_event(npc_id, npc_name, npc_sprite, description);
        },
        ServerMessage::LocationEvent { region_id, description } => {
            let mut text = owned("[EVENT] ");
            text.append(description.as_str());
            session_state.add_log_entry(owned("Narrator"), text, true, now);
            game_state.set_location_event(region_id, description);
        },
        ServerMessage::NpcLocationShared { npc_name, region_name, notes, .. } => {
            let mut text = owned("You heard that ");
            text.append(npc_name.as_str());
            text.append(" is at ");
            text.append(region_name.as_str());
            match &notes {
                Some(note) => {
                    text.append(". ");
                    text.append(note.as_str());
                },
                None => {
                    text.append(".");
                },
            }
            assert(text@ =~= npc_shared_text(npc_name@, region_name@, opt_str(notes)));
            system_log(session_state, text, now);
        },
        ServerMessage::PcSelected { pc_name, .. } => {
            let mut text = owned("Now playing as ");
            text.append(pc_name.as_str());
            system_log(session_state, text, now);
        },
        ServerMessage::SceneChanged { pc_id, region, npcs_present, navigation } => {
            let mut text = owned("Entered ");
            text.append(region.name.as_str());
            text.append(" (");
            text.append(region.location_name.as_str());
            text.append(")");
            game_state.apply_scene_changed(pc_id, region, npcs_present, navigation);
            system_log(session_state, text, now);
        },
        ServerMessage::MovementBlocked { reason, .. } => {
            let mut text = owned("Cannot proceed: ");
            text.append(reason.as_str());
            system_log(session_state, text, now);
        },
        ServerMessage::GameTimeUpdated { display, time_of_day, is_paused } => {
            let mut text = owned("Time is now: ");
            text.append(display.as_str());
            game_state.apply_game_time_update(display, time_of_day, is_paused);
            system_log(session_state, text, now);
        },
    }
}

/// Keep-alive replies, approvals already applied, narrative triggers and
/// split-party notices change no state.
pub proof fn law_informational_messages_change_nothing<C>(
    pre: AppModel<C>,
    msg: ServerMessage,
    now: u64,
    post: AppModel<C>,
)
    requires
        msg is Pong || msg is ResponseApproved || msg is NarrativeEventTriggered
            || msg is SplitPartyNotification,
        message_effect(pre, msg, now, post),
    ensures
        post == pre,
{
}

/// A resolved challenge is appended to the history, with the time it was
/// received, and shown; the active challenge is cleared exactly when it is
/// the resolved one.
pub proof fn law_resolution_recorded<C>(
    pre: AppModel<C>,
    msg: ServerMessage,
    now: u64,
    post: AppModel<C>,
)
    requires
        msg is ChallengeResolved,
        message_effect(pre, msg, now, post),
    ensures
        post.session.challenge.challenge_results.len() == pre.session.challenge.challenge_results.len() + 1,
        post.session.challenge.challenge_results.drop_last() == pre.session.challenge.challenge_results,
        post.session.challenge.challenge_results.last().timestamp == now,
        post.session.challenge.roll_status == RollStatusView::ResultReady(
            post.session.challenge.challenge_results.last(),
        ),
        post.session.challenge.active_challenge is None <==> (pre.session.challenge.active_challenge is None
            || pre.session.challenge.active_challenge.unwrap().challenge_id@ == msg->ChallengeResolved_challenge_id@),
        post.session.approval == pre.session.approval,
        post.game == pre.game,
        post.generation == pre.generation,
{
    assert(post.session.challenge.challenge_results.drop_last() =~= pre.session.challenge.challenge_results);
}

/// Every message that writes to the conversation log appends exactly one
/// entry and keeps the earlier ones.
pub proof fn law_log_appends_one<C>(
    pre: AppModel<C>,
    msg: ServerMessage,
    now: u64,
    post: AppModel<C>,
)
    requires
        msg is SessionJoined && msg->SessionJoined_world_snapshot is None || msg is PlayerJoined || msg is PlayerLeft
            || msg is ActionReceived || msg is DialogueResponse || msg is LLMProcessing
            || msg is AdHocChallengeCreated || msg is ApproachEvent || msg is LocationEvent
            || msg is NpcLocationShared || msg is PcSelected || msg is SceneChanged
            || msg is MovementBlocked || msg is GameTimeUpdated,
        message_effect(pre, msg, now, post),
    ensures
        post.session.approval.conversation_log.len() == pre.session.approval.conversation_log.len() + 1,
        post.session.approval.conversation_log.drop_last() == pre.session.approval.conversation_log,
        post.session.approval.conversation_log.last().timestamp == now,
{
    assert(post.session.approval.conversation_log.drop_last() =~= pre.session.approval.conversation_log);
}

/// The parts of the state other than the pending approvals are untouched.
pub open spec fn only_approvals_changed<C>(pre: AppModel<C>, post: AppModel<C>) -> bool {
    &&& post.game == pre.game
    &&& post.dialogue == pre.dialogue
    &&& post.generation == pre.generation
    &&& post.session.connection == pre.session.connection
    &&& post.session.challenge == pre.session.challenge
    &&& post.session.approval.decision_history == pre.session.approval.decision_history
    &&& post.session.approval.conversation_log == pre.session.approval.conversation_log
    &&& post.session.approval.pending_challenge_outcomes == pre.session.approval.pending_challenge_outcomes
}

/// An approval request reaches the DM: exactly one pending approval is
/// appended, carrying the request's ID, NPC, dialogue, reasoning, tools and
/// suggestions; the earlier ones and the rest of the state stay as they were.
pub proof fn law_approval_required_appends<C>(pre: AppModel<C>, msg: ServerMessage, now: u64, post: AppModel<C>)
    requires
        msg is ApprovalRequired,
        message_effect(pre, msg, now, post),
    ensures
        post.session.approval.pending_approvals.len() == pre.session.approval.pending_approvals.len() + 1,
        post.session.approval.pending_approvals.drop_last() == pre.session.approval.pending_approvals,
        post.session.approval.pending_approvals.last().request_id == msg->ApprovalRequired_request_id,
        post.session.approval.pending_approvals.last().npc_name == msg->ApprovalRequired_npc_name,
        post.session.approval.pending_approvals.last().proposed_dialogue == msg->ApprovalRequired_proposed_dialogue,
        post.session.approval.pending_approvals.last().internal_reasoning == msg->ApprovalRequired_internal_reasoning,
        post.session.approval.pending_approvals.last().proposed_tools == msg->ApprovalRequired_proposed_tools,
        post.session.approval.pending_approvals.last().challenge_suggestion
            == msg->ApprovalRequired_challenge_suggestion,
        post.session.approval.pending_approvals.last().narrative_event_suggestion
            == msg->ApprovalRequired_narrative_event_suggestion,
        only_approvals_changed(pre, post),
{
    assert(post.session.approval.pending_approvals.drop_last() =~= pre.session.approval.pending_approvals);
}

/// A challenge outcome awaiting the DM is appended to the pending outcomes
/// with the roll as sent, no suggestions or branches yet, not generating,
/// stamped with the time it arrived; nothing else changes.
pub proof fn law_outcome_pending_appends<C>(pre: AppModel<C>, msg: ServerMessage, now: u64, post: AppModel<C>)
    requires
        msg is ChallengeOutcomePending,
        message_effect(pre, msg, now, post),
    ensures
        ({
            let o = post.session.approval.pending_challenge_outcomes;
            &&& o.len() == pre.session.approval.pending_challenge_outcomes.len() + 1
            &&& o.drop_last() == pre.session.approval.pending_challenge_outcomes
            &&& o.last().resolution_id == msg->ChallengeOutcomePending_resolution_id
            &&& o.last().challenge_name == msg->ChallengeOutcomePending_challenge_name
            &&& o.last().character_id == msg->ChallengeOutcomePending_character_id
            &&& o.last().character_name == msg->ChallengeOutcomePending_character_name
            &&& o.last().roll == msg->ChallengeOutcomePending_roll
            &&& o.last().modifier == msg->ChallengeOutcomePending_modifier
            &&& o.last().total == msg->ChallengeOutcomePending_total
            &&& o.last().outcome_type == msg->ChallengeOutcomePending_outcome_type
            &&& o.last().outcome_description == msg->ChallengeOutcomePending_outcome_description
            &&& o.last().outcome_triggers == msg->ChallengeOutcomePending_outcome_triggers
            &&& o.last().roll_breakdown == msg->ChallengeOutcomePending_roll_breakdown
            &&& o.last().suggestions is None
            &&& o.last().branches is None
            &&& !o.last().is_generating_suggestions
            &&& o.last().timestamp == now
        }),
        post.session.approval.pending_approvals == pre.session.approval.pending_approvals,
        post.session.approval.conversation_log == pre.session.approval.conversation_log,
        post.session.approval.decision_history == pre.session.approval.decision_history,
        post.session.connection == pre.session.connection,
        post.session.challenge == pre.session.challenge,
        post.game == pre.game,
        post.dialogue == pre.dialogue,
        post.generation == pre.generation,
{
    assert(post.session.approval.pending_challenge_outcomes.drop_last()
        =~= pre.session.approval.pending_challenge_outcomes);
}

/// A scene update shows the scene sent, with exactly its characters and its
/// interactions (what the action panel offers); the world, region,
/// navigation, selected character, time and events stay, and so does the
/// rest of the state.
pub proof fn law_scene_update_message<C>(pre: AppModel<C>, msg: ServerMessage, now: u64, post: AppModel<C>)
    requires
        msg is SceneUpdate,
        message_effect(pre, msg, now, post),
    ensures
        post.game.current_scene == Some(msg->SceneUpdate_scene@),
        post.game.interactions == msg->SceneUpdate_interactions@,
        post.game.scene_characters.len() == msg->SceneUpdate_characters@.len(),
        forall|i: int|
            0 <= i < post.game.scene_characters.len() ==> #[trigger] post.game.scene_characters[i]
                == msg->SceneUpdate_characters@[i]@,
        post.game.world == pre.game.world,
        post.game.current_region == pre.game.current_region,
        post.game.navigation == pre.game.navigation,
        post.game.npcs_present == pre.game.npcs_present,
        post.game.selected_pc_id == pre.game.selected_pc_id,
        post.game.game_time == pre.game.game_time,
        post.game.approach_event == pre.game.approach_event,
        post.game.location_event == pre.game.location_event,
        post.session == pre.session,
        post.dialogue == pre.dialogue,
        post.generation == pre.generation,
{
}

/// A challenge prompt becomes the active challenge, exactly as sent; the
/// results, skills and roll status stay, and nothing else changes.
pub proof fn law_challenge_prompt_activates<C>(pre: AppModel<C>, msg: ServerMessage, now: u64, post: AppModel<C>)
    requires
        msg is ChallengePrompt,
        message_effect(pre, msg, now, post),
    ensures
        post.session.challenge.active_challenge matches Some(a) && a.challenge_id
            == msg->ChallengePrompt_challenge_id && a.challenge_name == msg->ChallengePrompt_challenge_name
            && a.skill_name == msg->ChallengePrompt_skill_name && a.difficulty_display
            == msg->ChallengePrompt_difficulty_display && a.description == msg->ChallengePrompt_description
            && a.character_modifier == msg->ChallengePrompt_character_modifier && a.suggested_dice
            == msg->ChallengePrompt_suggested_dice && a.rule_system_hint == msg->ChallengePrompt_rule_system_hint,
        post.session.challenge.challenge_results == pre.session.challenge.challenge_results,
        post.session.challenge.player_skills == pre.session.challenge.player_skills,
        post.session.challenge.roll_status == pre.session.challenge.roll_status,
        post.session.approval == pre.session.approval,
        post.session.connection == pre.session.connection,
        post.game == pre.game,
        post.dialogue == pre.dialogue,
        post.generation == pre.generation,
{
}

/// A submitted roll waits for the DM with the roll, modifier, total and
/// outcome type sent; nothing else changes.
pub proof fn law_roll_submitted_awaits<C>(pre: AppModel<C>, msg: ServerMessage, now: u64, post: AppModel<C>)
    requires
        msg is ChallengeRollSubmitted,
        message_effect(pre, msg, now, post),
    ensures
        post.session.challenge.roll_status == (RollStatusView::AwaitingApproval {
            roll: msg->ChallengeRollSubmitted_roll,
            modifier: msg->ChallengeRollSubmitted_modifier,
            total: msg->ChallengeRollSubmitted_total,
            outcome_type: msg->ChallengeRollSubmitted_outcome_type@,
        }),
        post.session.challenge.active_challenge == pre.session.challenge.active_challenge,
        post.session.challenge.challenge_results == pre.session.challenge.challenge_results,
        post.session.approval == pre.session.approval,
        post.game == pre.game,
        post.dialogue == pre.dialogue,
        post.generation == pre.generation,
{
}

/// A server error is shown as "Server error [code]: message"; only the
/// connection's error changes.
pub proof fn law_error_shown<C>(pre: AppModel<C>, msg: ServerMessage, now: u64, post: AppModel<C>)
    requires
        msg is Error,
        message_effect(pre, msg, now, post),
    ensures
        post.session.connection.error_message == Some(
            "Server error ["@ + msg->Error_code@ + "]: "@ + msg->Error_message@,
        ),
        post.session.connection.connection_status == pre.session.connection.connection_status,
        post.session.connection.session_id == pre.session.connection.session_id,
        post.session.approval == pre.session.approval,
        post.session.challenge == pre.session.challenge,
        post.game == pre.game,
        post.dialogue == pre.dialogue,
        post.generation == pre.generation,
{
}

/// A ComfyUI state change records the state, message and retry delay sent;
/// only those connection fields change.
pub proof fn law_comfyui_state<C>(pre: AppModel<C>, msg: ServerMessage, now: u64, post: AppModel<C>)
    requires
        msg is ComfyUIStateChanged,
        message_effect(pre, msg, now, post),
    ensures
        post.session.connection.comfyui_state == msg->ComfyUIStateChanged_state@,
        post.session.connection.comfyui_message == opt_str(msg->ComfyUIStateChanged_message),
        post.session.connection.comfyui_retry_in_seconds == msg->ComfyUIStateChanged_retry_in_seconds,
        post.session.connection.connection_status == pre.session.connection.connection_status,
        post.session.connection.error_message == pre.session.connection.error_message,
        post.session.approval == pre.session.approval,
        post.session.challenge == pre.session.challenge,
        post.game == pre.game,
        post.dialogue == pre.dialogue,
        post.generation == pre.generation,
{
}

/// An NPC's line is logged under its name and starts typing: the dialogue
/// shows that speaker and text from nothing, with the choices sent, not
/// waiting for input and no longer processing.
pub proof fn law_dialogue_response<C>(pre: AppModel<C>, msg: ServerMessage, now: u64, post: AppModel<C>)
    requires
        msg is DialogueResponse,
        message_effect(pre, msg, now, post),
    ensures
        post.session.approval.conversation_log.drop_last() == pre.session.approval.conversation_log,
        post.session.approval.conversation_log.len() == pre.session.approval.conversation_log.len() + 1,
        post.session.approval.conversation_log.last().speaker == msg->DialogueResponse_speaker_name@,
        post.session.approval.conversation_log.last().text == msg->DialogueResponse_text@,
        !post.session.approval.conversation_log.last().is_system,
        post.dialogue.speaker_name == msg->DialogueResponse_speaker_name@,
        post.dialogue.speaker_id == Some(msg->DialogueResponse_speaker_id@),
        post.dialogue.full_text == msg->DialogueResponse_text@,
        post.dialogue.displayed_text.len() == 0,
        post.dialogue.is_typing,
        post.dialogue.choices == msg->DialogueResponse_choices@,
        !post.dialogue.awaiting_input,
        !post.dialogue.is_llm_processing,
        post.game == pre.game,
        post.generation == pre.generation,
{
    assert(post.session.approval.conversation_log.drop_last() =~= pre.session.approval.conversation_log);
}

/// While the Engine's model works on an action, the dialogue says so.
pub proof fn law_llm_processing<C>(pre: AppModel<C>, msg: ServerMessage, now: u64, post: AppModel<C>)
    requires
        msg is LLMProcessing,
        message_effect(pre, msg, now, post),
    ensures
        post.dialogue.is_llm_processing,
        post.dialogue.full_text == pre.dialogue.full_text,
        post.dialogue.choices == pre.dialogue.choices,
        post.game == pre.game,
        post.generation == pre.generation,
{
}

/// On-screen events and game time are set exactly as sent; the scene stays.
pub proof fn law_game_events<C>(pre: AppModel<C>, msg: ServerMessage, now: u64, post: AppModel<C>)
    requires
        msg is ApproachEvent || msg is LocationEvent || msg is GameTimeUpdated,
        message_effect(pre, msg, now, post),
    ensures
        msg is ApproachEvent ==> (post.game.approach_event matches Some(e) && e.npc_id
            == msg->ApproachEvent_npc_id && e.npc_name == msg->ApproachEvent_npc_name && e.npc_sprite
            == msg->ApproachEvent_npc_sprite && e.description == msg->ApproachEvent_description),
        msg is LocationEvent ==> (post.game.location_event matches Some(e) && e.region_id
            == msg->LocationEvent_region_id && e.description == msg->LocationEvent_description),
        msg is GameTimeUpdated ==> (post.game.game_time matches Some(t) && t.display
            == msg->GameTimeUpdated_display && t.time_of_day == msg->GameTimeUpdated_time_of_day
            && t.is_paused == msg->GameTimeUpdated_is_paused),
        post.game.current_scene == pre.game.current_scene,
        post.game.interactions == pre.game.interactions,
        post.game.current_region == pre.game.current_region,
        post.session.approval.pending_approvals == pre.session.approval.pending_approvals,
        post.generation == pre.generation,
{
}

/// Entering a region selects the player character sent and shows the
/// region, NPCs present and navigation sent; the scene stays.
pub proof fn law_scene_changed<C>(pre: AppModel<C>, msg: ServerMessage, now: u64, post: AppModel<C>)
    requires
        msg is SceneChanged,
        message_effect(pre, msg, now, post),
    ensures
        post.game.selected_pc_id == Some(msg->SceneChanged_pc_id),
        post.game.current_region == Some(msg->SceneChanged_region),
        post.game.npcs_present == msg->SceneChanged_npcs_present@,
        post.game.navigation == Some(msg->SceneChanged_navigation),
        post.game.current_scene == pre.game.current_scene,
        post.game.interactions == pre.game.interactions,
        post.game.scene_characters == pre.game.scene_characters,
        post.game.world == pre.game.world,
        post.generation == pre.generation,
        post.dialogue == pre.dialogue,
{
}

/// Joining a session records its ID; a world sent with it is loaded.
pub proof fn law_session_joined<C>(pre: AppModel<C>, msg: ServerMessage, now: u64, post: AppModel<C>)
    requires
        msg is SessionJoined,
        message_effect(pre, msg, now, post),
    ensures
        post.session.connection.session_id == Some(msg->SessionJoined_session_id@),
        post.session.connection.connection_status == pre.session.connection.connection_status,
        msg->SessionJoined_world_snapshot matches Some(w) ==> post.game.world == Some(w),
        msg->SessionJoined_world_snapshot is None ==> post.game == pre.game,
        post.session.approval.pending_approvals == pre.session.approval.pending_approvals,
        post.generation == pre.generation,
        post.dialogue == pre.dialogue,
{
}

/// Progress, completion and failure of a batch reach exactly the first batch
/// with the message's ID, which takes the status the message carries
/// (generating with its progress, ready with its asset count, failed with its
/// error); the other batches, the tasks and the rest of the state stay, and
/// the ready flags describe the queues afterwards.
pub proof fn law_batch_messages<C>(pre: AppModel<C>, msg: ServerMessage, now: u64, post: AppModel<C>)
    requires
        msg is GenerationProgress || msg is GenerationComplete || msg is GenerationFailed,
        message_effect(pre, msg, now, post),
    ensures
        msg is GenerationProgress ==> batch_status_set(
            pre.generation.batches,
            post.generation.batches,
            msg->GenerationProgress_batch_id@,
            BatchStatus::Generating { progress: msg->GenerationProgress_progress },
        ),
        msg is GenerationComplete ==> batch_status_set(
            pre.generation.batches,
            post.generation.batches,
            msg->GenerationComplete_batch_id@,
            BatchStatus::Ready { asset_count: msg->GenerationComplete_asset_count },
        ),
        msg is GenerationFailed ==> batch_status_set(
            pre.generation.batches,
            post.generation.batches,
            msg->GenerationFailed_batch_id@,
            BatchStatus::Failed { error: msg->GenerationFailed_error },
        ),
        post.generation.suggestions == pre.generation.suggestions,
        post.generation.flags_agree(),
        post.session == pre.session,
        post.game == pre.game,
        post.dialogue == pre.dialogue,
{
    match msg {
        ServerMessage::GenerationProgress { batch_id, progress } => {
            law_batch_status_update(pre.generation, batch_id@, BatchStatus::Generating { progress });
        },
        ServerMessage::GenerationComplete { batch_id, asset_count } => {
            law_batch_status_update(pre.generation, batch_id@, BatchStatus::Ready { asset_count });
        },
        ServerMessage::GenerationFailed { batch_id, error } => {
            law_batch_status_update(pre.generation, batch_id@, BatchStatus::Failed { error });
        },
        _ => {},
    }
}

/// Progress, completion and failure of a suggestion request reach exactly
/// the first task with the message's ID (processing, ready with the
/// suggestions sent, failed with the error); the rest stays.
pub proof fn law_suggestion_messages<C>(pre: AppModel<C>, msg: ServerMessage, now: u64, post: AppModel<C>)
    requires
        msg is SuggestionProgress || msg is SuggestionComplete || msg is SuggestionFailed,
        message_effect(pre, msg, now, post),
    ensures
        msg is SuggestionProgress ==> task_status_set(
            pre.generation.suggestions,
            post.generation.suggestions,
            msg->SuggestionProgress_request_id@,
            SuggestionStatus::Processing,
        ),
        msg is SuggestionComplete ==> task_status_set(
            pre.generation.suggestions,
            post.generation.suggestions,
            msg->SuggestionComplete_request_id@,
            SuggestionStatus::Ready { suggestions: msg->SuggestionComplete_suggestions },
        ),
        msg is SuggestionFailed ==> task_status_set(
            pre.generation.suggestions,
            post.generation.suggestions,
            msg->SuggestionFailed_request_id@,
            SuggestionStatus::Failed { error: msg->SuggestionFailed_error },
        ),
        post.generation.batches == pre.generation.batches,
        post.generation.flags_agree(),
        post.session == pre.session,
        post.game == pre.game,
        post.dialogue == pre.dialogue,
{
    match msg {
        ServerMessage::SuggestionProgress { request_id, .. } => {
            law_task_status_update(pre.generation, request_id@, SuggestionStatus::Processing);
        },
        ServerMessage::SuggestionComplete { request_id, suggestions } => {
            law_task_status_update(pre.generation, request_id@, SuggestionStatus::Ready { suggestions });
        },
        ServerMessage::SuggestionFailed { request_id, error } => {
            law_task_status_update(pre.generation, request_id@, SuggestionStatus::Failed { error });
        },
        _ => {},
    }
}

/// A queued batch whose ID is already known goes back to queued at the
/// position sent (nothing is appended); an unknown one is appended, unread,
/// with the message's fields.
pub proof fn law_batch_queued_message<C>(pre: AppModel<C>, msg: ServerMessage, now: u64, post: AppModel<C>)
    requires
        msg is GenerationQueued,
        message_effect(pre, msg, now, post),
    ensures
        batch_ids(pre.generation.batches).contains(msg->GenerationQueued_batch_id@) ==> batch_status_set(
            pre.generation.batches,
            post.generation.batches,
            msg->GenerationQueued_batch_id@,
            BatchStatus::Queued { position: msg->GenerationQueued_position },
        ),
        !batch_ids(pre.generation.batches).contains(msg->GenerationQueued_batch_id@) ==> {
            &&& post.generation.batches.len() == pre.generation.batches.len() + 1
            &&& post.generation.batches.drop_last() == pre.generation.batches
            &&& post.generation.batches.last() == (GenerationBatch {
                batch_id: msg->GenerationQueued_batch_id,
                entity_type: msg->GenerationQueued_entity_type,
                entity_id: msg->GenerationQueued_entity_id,
                asset_type: msg->GenerationQueued_asset_type,
                status: BatchStatus::Queued { position: msg->GenerationQueued_position },
                is_read: false,
            })
        },
        post.generation.suggestions == pre.generation.suggestions,
        post.generation.flags_agree(),
        post.session == pre.session,
        post.game == pre.game,
{
    let id = msg->GenerationQueued_batch_id@;
    crate::seqs::lemma_find_key_contains(batch_ids(pre.generation.batches), id);
    law_batch_status_update(
        pre.generation,
        id,
        BatchStatus::Queued { position: msg->GenerationQueued_position },
    );
    if !batch_ids(pre.generation.batches).contains(id) {
        assert(post.generation.batches.drop_last() =~= pre.generation.batches);
    }
}

/// The last line of the conversation log.
pub open spec fn last_line<C>(m: AppModel<C>) -> LogLine {
    m.session.approval.conversation_log.last()
}

/// What each logged message writes as its last line: the system notes name
/// what happened with the message's own values, an approaching NPC speaks
/// under its name, a location event is told by the narrator.
pub proof fn law_log_lines<C>(pre: AppModel<C>, msg: ServerMessage, now: u64, post: AppModel<C>)
    requires
        message_effect(pre, msg, now, post),
    ensures
        msg matches ServerMessage::SessionJoined { session_id, world_snapshot, .. } ==> (world_snapshot is None
            ==> last_line(post) == (LogLine { speaker: "System"@, text: "Joined session: "@ + session_id@, is_system: true, timestamp: now })),
        msg matches ServerMessage::SessionJoined { world_snapshot, .. } ==> (world_snapshot is Some ==> last_line(post)
            == (LogLine { speaker: "System"@, text: "World data loaded"@, is_system: true, timestamp: now })),
        msg matches ServerMessage::PlayerJoined { user_id, role, character_name } ==> last_line(post) == (LogLine {
            speaker: "System"@,
            text: "Player "@ + user_id@ + " joined as "@ + (match role {
                ParticipantRole::DungeonMaster => "DungeonMaster"@,
                ParticipantRole::Player => "Player"@,
                ParticipantRole::Spectator => "Spectator"@,
            }) + (match character_name {
                Some(n) => " ("@ + n@ + ")"@,
                None => Seq::<char>::empty(),
            }),
            is_system: true,
            timestamp: now,
        }),
        msg matches ServerMessage::PlayerLeft { user_id } ==> last_line(post) == (LogLine {
            speaker: "System"@,
            text: "Player "@ + user_id@ + " left"@,
            is_system: true,
            timestamp: now,
        }),
        msg matches ServerMessage::ActionReceived { action_id, action_type, .. } ==> last_line(post) == (LogLine {
            speaker: "System"@,
            text: "Action "@ + action_id@ + " received: "@ + action_type@,
            is_system: true,
            timestamp: now,
        }),
        msg matches ServerMessage::LLMProcessing { action_id } ==> last_line(post) == (LogLine {
            speaker: "System"@,
            text: "Processing action: "@ + action_id@,
            is_system: true,
            timestamp: now,
        }),
        msg matches ServerMessage::AdHocChallengeCreated { challenge_id, challenge_name, target_pc_id } ==> last_line(post)
            == (LogLine {
            speaker: "System"@,
            text: "[AD-HOC CHALLENGE] '"@ + challenge_name@ + "' created for PC "@ + target_pc_id@ + " (ID: "@
                + challenge_id@ + ")"@,
            is_system: true,
            timestamp: now,
        }),
        msg matches ServerMessage::ApproachEvent { npc_name, description, .. } ==> last_line(post) == (LogLine {
            speaker: npc_name@,
            text: "[APPROACH] "@ + description@,
            is_system: false,
            timestamp: now,
        }),
        msg matches ServerMessage::LocationEvent { description, .. } ==> last_line(post) == (LogLine {
            speaker: "Narrator"@,
            text: "[EVENT] "@ + description@,
            is_system: true,
            timestamp: now,
        }),
        msg matches ServerMessage::NpcLocationShared { npc_name, region_name, notes, .. } ==> last_line(post) == (LogLine {
            speaker: "System"@,
            text: "You heard that "@ + npc_name@ + " is at "@ + region_name@ + (match notes {
                Some(x) => ". "@ + x@,
                None => "."@,
            }),
            is_system: true,
            timestamp: now,
        }),
        msg matches ServerMessage::PcSelected { pc_name, .. } ==> last_line(post) == (LogLine {
            speaker: "System"@,
            text: "Now playing as "@ + pc_name@,
            is_system: true,
            timestamp: now,
        }),
        msg matches ServerMessage::SceneChanged { region, .. } ==> last_line(post) == (LogLine {
            speaker: "System"@,
            text: "Entered "@ + region.name@ + " ("@ + region.location_name@ + ")"@,
            is_system: true,
            timestamp: now,
        }),
        msg matches ServerMessage::MovementBlocked { reason, .. } ==> last_line(post) == (LogLine {
            speaker: "System"@,
            text: "Cannot proceed: "@ + reason@,
            is_system: true,
            timestamp: now,
        }),
        msg matches ServerMessage::GameTimeUpdated { display, .. } ==> last_line(post) == (LogLine {
            speaker: "System"@,
            text: "Time is now: "@ + display@,
            is_system: true,
            timestamp: now,
        }),
{
}

/// Discarding a challenge suggestion reaches every pending approval with the
/// message's ID: its challenge goes, a narrative suggestion loses only its
/// suggested outcome, and everything else of it stays; other approvals,
/// their order and number, and the rest of the state stay.
pub proof fn law_challenge_discarded<C>(pre: AppModel<C>, msg: ServerMessage, now: u64, post: AppModel<C>)
    requires
        msg is ChallengeDiscarded,
        message_effect(pre, msg, now, post),
    ensures
        ({
            let s = pre.session.approval.pending_approvals;
            let t = post.session.approval.pending_approvals;
            let id = msg->ChallengeDiscarded_request_id@;
            &&& t.len() == s.len()
            &&& forall|k: int|
                0 <= k < s.len() ==> if s[k].request_id@ == id {
                    &&& (#[trigger] t[k]).challenge_suggestion is None
                    &&& t[k].request_id == s[k].request_id
                    &&& t[k].npc_name == s[k].npc_name
                    &&& t[k].proposed_dialogue == s[k].proposed_dialogue
                    &&& t[k].internal_reasoning == s[k].internal_reasoning
                    &&& t[k].proposed_tools == s[k].proposed_tools
                    &&& (s[k].narrative_event_suggestion is None ==> t[k].narrative_event_suggestion is None)
                    &&& (s[k].narrative_event_suggestion matches Some(n) ==> (t[k].narrative_event_suggestion matches Some(m)
                        && m.suggested_outcome is None && m.event_id == n.event_id && m.event_name == n.event_name
                        && m.description == n.description && m.scene_direction == n.scene_direction
                        && m.confidence == n.confidence && m.reasoning == n.reasoning && m.matched_triggers
                        == n.matched_triggers))
                } else {
                    t[k] == s[k]
                }
        }),
        post.session.approval.conversation_log == pre.session.approval.conversation_log,
        post.session.approval.pending_challenge_outcomes == pre.session.approval.pending_challenge_outcomes,
        post.game == pre.game,
        post.generation == pre.generation,
        post.dialogue == pre.dialogue,
{
}

/// `b` is `a` with, in its challenge's outcomes, the outcome of type `ty`
/// replaced by `n` (success and failure both for an unknown type) and the
/// rest kept.
pub open spec fn only_outcome_replaced(a: PendingApproval, b: PendingApproval, ty: Seq<char>, n: OutcomeDetailData) -> bool {
    let c = a.challenge_suggestion->Some_0;
    let o = c.outcomes->Some_0;
    let new_is = |x: Option<OutcomeDetailData>| x matches Some(v) && detail_eqv(v, n);
    &&& b.challenge_suggestion is Some
    &&& b.challenge_suggestion->Some_0.challenge_id == c.challenge_id
    &&& b.challenge_suggestion->Some_0.outcomes is Some
    &&& {
        let r = b.challenge_suggestion->Some_0.outcomes->Some_0;
        &&& (ty == "success"@ ==> new_is(r.success) && r.failure == o.failure && r.critical_success
            == o.critical_success && r.critical_failure == o.critical_failure)
        &&& (ty == "failure"@ ==> new_is(r.failure) && r.success == o.success && r.critical_success
            == o.critical_success && r.critical_failure == o.critical_failure)
        &&& (ty == "critical_success"@ ==> new_is(r.critical_success) && r.success == o.success && r.failure
            == o.failure && r.critical_failure == o.critical_failure)
        &&& (ty == "critical_failure"@ ==> new_is(r.critical_failure) && r.success == o.success && r.failure
            == o.failure && r.critical_success == o.critical_success)
        &&& (!(ty == "success"@ || ty == "failure"@ || ty == "critical_success"@ || ty == "critical_failure"@)
            ==> new_is(r.success) && new_is(r.failure) && r.critical_success == o.critical_success
            && r.critical_failure == o.critical_failure)
    }
}

/// Regenerating an outcome changes only the approval with the message's ID
/// (the first one), and in it exactly the outcome of the type named: the
/// success, failure, critical success or critical failure outcome takes the
/// new one, and any other type replaces both success and failure; the
/// challenge's other details and every other approval stay. An unknown
/// request changes nothing.
pub proof fn law_outcome_regenerated<C>(pre: AppModel<C>, msg: ServerMessage, now: u64, post: AppModel<C>)
    requires
        msg is OutcomeRegenerated,
        message_effect(pre, msg, now, post),
    ensures
        ({
            let s = pre.session.approval.pending_approvals;
            let t = post.session.approval.pending_approvals;
            let id = msg->OutcomeRegenerated_request_id@;
            let ty = msg->OutcomeRegenerated_outcome_type@;
            let n = msg->OutcomeRegenerated_new_outcome;
            &&& t.len() == s.len()
            &&& (!approval_ids(s).contains(id) ==> post == pre)
            &&& forall|k: int|
                0 <= k < s.len() ==> (#[trigger] t[k]).request_id == s[k].request_id && t[k].npc_name
                    == s[k].npc_name && t[k].proposed_dialogue == s[k].proposed_dialogue
            &&& forall|k: int|
                0 <= k < s.len() && s[k].request_id@ != id ==> #[trigger] t[k] == s[k]
            &&& forall|k: int|
                0 <= k < s.len() && (#[trigger] s[k]).request_id@ == id && (forall|j: int|
                    0 <= j < k ==> s[j].request_id@ != id) && s[k].challenge_suggestion is Some
                    && s[k].challenge_suggestion->Some_0.outcomes is Some ==> only_outcome_replaced(
                    s[k],
                    t[k],
                    ty,
                    n,
                )
        }),
        post.game == pre.game,
        post.generation == pre.generation,
        post.dialogue == pre.dialogue,
{
    reveal_strlit("success");
    reveal_strlit("failure");
    reveal_strlit("critical_success");
    reveal_strlit("critical_failure");
    assert("critical_success"@.len() == 16 && "critical_failure"@.len() == 16 && "success"@.len() == 7
        && "failure"@.len() == 7);
    assert("critical_success"@[9] == 's' && "critical_failure"@[9] == 'f' && "success"@[0] == 's'
        && "failure"@[0] == 'f');
    let s = pre.session.approval.pending_approvals;
    let id = msg->OutcomeRegenerated_request_id@;
    lemma_find_key(approval_ids(s), id);
    crate::seqs::lemma_find_key_contains(approval_ids(s), id);
    assert forall|j: int| 0 <= j < s.len() implies #[trigger] approval_ids(s)[j] == s[j].request_id@ by {}
    match find_key(approval_ids(s), id) {
        Some(i) => {
            let t = post.session.approval.pending_approvals;
            let ty = msg->OutcomeRegenerated_outcome_type@;
            let n = msg->OutcomeRegenerated_new_outcome;
            assert forall|k: int|
                0 <= k < s.len() && (#[trigger] s[k]).request_id@ == id && (forall|j: int|
                    0 <= j < k ==> s[j].request_id@ != id) && s[k].challenge_suggestion is Some
                    && s[k].challenge_suggestion->Some_0.outcomes is Some implies only_outcome_replaced(
                s[k],
                t[k],
                ty,
                n,
            ) by {
                if k < i {
                    assert(approval_ids(s)[k] != id);
                } else if k > i {
                    assert(s[i].request_id@ == approval_ids(s)[i]);
                }
                assert(k == i);
                assert(approval_regenerated(s[i], ty, n, t[i]));
            }
        },
        None => {
            assert forall|j: int| 0 <= j < s.len() implies s[j].request_id@ != id by {
                assert(approval_ids(s)[j] != id);
            }
        },
    }
}

/// Suggestions or branches for a pending outcome are stored on it (the first
/// with the message's ID) and end its "generating" state; its roll and
/// details stay, and nothing else changes.
pub proof fn law_outcome_suggestions_ready<C>(pre: AppModel<C>, msg: ServerMessage, now: u64, post: AppModel<C>)
    requires
        msg is OutcomeSuggestionReady || msg is OutcomeBranchesReady,
        message_effect(pre, msg, now, post),
    ensures
        ({
            let s = pre.session.approval.pending_challenge_outcomes;
            let t = post.session.approval.pending_challenge_outcomes;
            let id = if msg is OutcomeSuggestionReady {
                msg->OutcomeSuggestionReady_resolution_id@
            } else {
                msg->OutcomeBranchesReady_resolution_id@
            };
            &&& t.len() == s.len()
            &&& forall|k: int|
                0 <= k < s.len() ==> if s[k].resolution_id@ == id && forall|j: int|
                    0 <= j < k ==> s[j].resolution_id@ != id {
                    &&& !(#[trigger] t[k]).is_generating_suggestions
                    &&& t[k].roll == s[k].roll && t[k].total == s[k].total && t[k].modifier == s[k].modifier
                    &&& t[k].resolution_id == s[k].resolution_id && t[k].character_id == s[k].character_id
                    &&& t[k].outcome_description == s[k].outcome_description
                    &&& (msg is OutcomeSuggestionReady ==> t[k].suggestions == Some(msg->OutcomeSuggestionReady_suggestions)
                        && t[k].branches == s[k].branches)
                    &&& (msg is OutcomeBranchesReady ==> t[k].branches == Some(msg->OutcomeBranchesReady_branches)
                        && t[k].suggestions == s[k].suggestions)
                } else {
                    t[k] == s[k]
                }
        }),
        post.session.approval.pending_approvals == pre.session.approval.pending_approvals,
        post.session.approval.conversation_log == pre.session.approval.conversation_log,
        post.game == pre.game,
        post.generation == pre.generation,
{
    let m = pre.session.approval;
    match msg {
        ServerMessage::OutcomeSuggestionReady { resolution_id, suggestions } => {
            crate::state::approval::law_outcome_update_keeps_details(
                m,
                resolution_id@,
                Some(Some(suggestions)),
                None,
                false,
            );
        },
        ServerMessage::OutcomeBranchesReady { resolution_id, branches, .. } => {
            crate::state::approval::law_outcome_update_keeps_details(
                m,
                resolution_id@,
                None,
                Some(Some(branches)),
                false,
            );
        },
        _ => {},
    }
}

/// Joining a session with a world that has scenes shows its first scene:
/// its ID, name and location, the location's name ("Unknown" when the world
/// lacks it), its own backdrop or else the location's; no interactions yet;
/// the featured characters that exist in the world, in order, centered and
/// silent.
pub proof fn law_joined_scene<C>(pre: AppModel<C>, msg: ServerMessage, now: u64, post: AppModel<C>)
    requires
        msg matches ServerMessage::SessionJoined { world_snapshot: Some(w), .. } && w.scenes@.len() > 0,
        message_effect(pre, msg, now, post),
    ensures
        ({
            let w = msg->SessionJoined_world_snapshot->Some_0;
            let sc = w.scenes@[0];
            &&& post.game.current_scene matches Some(v) && v.id == sc.id@ && v.name == sc.name@ && v.location_id
                == sc.location_id@ && (location_in(w, sc.location_id@) matches Some(l) ==> v.location_name == l.name@)
                && (location_in(w, sc.location_id@) is None ==> v.location_name == "Unknown"@)
                && (sc.backdrop_override matches Some(b) ==> v.backdrop_asset == Some(b@))
            &&& post.game.interactions.len() == 0
            &&& post.game.scene_characters.len() <= sc.featured_characters@.len()
            &&& forall|k: int|
                0 <= k < post.game.scene_characters.len() ==> (#[trigger] post.game.scene_characters[k]).position
                    == CharacterPosition::Center && !post.game.scene_characters[k].is_speaking
                    && character_ids(w.characters@).contains(post.game.scene_characters[k].id)
            &&& post.game.world == Some(w)
        }),
{
    let w = msg->SessionJoined_world_snapshot->Some_0;
    let ids = w.scenes@[0].featured_characters@;
    let f = featured_lookup(w);
    let cs = initial_characters(w);
    lemma_initial_characters(w, ids, f, ids.len() as int);
    assert(ids.take(ids.len() as int) =~= ids);
}

/// The characters looked up from the first `n` featured IDs are at most that
/// many, each centered, silent and one of the world's.
proof fn lemma_initial_characters(
    w: SessionWorldSnapshot,
    ids: Seq<String>,
    f: spec_fn(String) -> Option<CharacterView>,
    n: int,
)
    requires
        f == featured_lookup(w),
        0 <= n <= ids.len(),
    ensures
        ids.take(n).filter_map(f).len() <= n,
        forall|k: int|
            0 <= k < ids.take(n).filter_map(f).len() ==> (#[trigger] ids.take(n).filter_map(f)[k]).position
                == CharacterPosition::Center && !ids.take(n).filter_map(f)[k].is_speaking
                && character_ids(w.characters@).contains(ids.take(n).filter_map(f)[k].id),
    decreases n,
{
    reveal_with_fuel(Seq::<_>::filter_map, 1);
    if n == 0 {
        assert(ids.take(0) =~= Seq::<String>::empty());
    } else {
        lemma_initial_characters(w, ids, f, n - 1);
        lemma_filter_map_step(ids, n - 1, f);
        let prev = ids.take(n - 1).filter_map(f);
        match f(ids[n - 1]) {
            Some(c) => {
                lemma_find_key(character_ids(w.characters@), ids[n - 1]@);
                let i = find_key(character_ids(w.characters@), ids[n - 1]@)->0;
                assert(character_ids(w.characters@)[i] == w.characters@[i].id@);
                assert(c.id == w.characters@[i].id@);
                let cur = ids.take(n).filter_map(f);
                assert(cur == prev.push(c));
                assert forall|k: int| 0 <= k < cur.len() implies (#[trigger] cur[k]).position == CharacterPosition::Center
                    && !cur[k].is_speaking && character_ids(w.characters@).contains(cur[k].id) by {
                    if k < prev.len() {
                        assert(cur[k] == prev[k]);
                    }
                }
            },
            None => {},
        }
    }
}

/// A queued suggestion request whose ID is known goes back to queued
/// (nothing is appended); an unknown one is appended as a queued, unread
/// request with the message's field and entity, without context or world.
pub proof fn law_suggestion_queued_message<C>(pre: AppModel<C>, msg: ServerMessage, now: u64, post: AppModel<C>)
    requires
        msg is SuggestionQueued,
        message_effect(pre, msg, now, post),
    ensures
        request_ids(pre.generation.suggestions).contains(msg->SuggestionQueued_request_id@) ==> task_status_set(
            pre.generation.suggestions,
            post.generation.suggestions,
            msg->SuggestionQueued_request_id@,
            SuggestionStatus::Queued,
        ),
        !request_ids(pre.generation.suggestions).contains(msg->SuggestionQueued_request_id@) ==> {
            &&& post.generation.suggestions.len() == pre.generation.suggestions.len() + 1
            &&& post.generation.suggestions.drop_last() == pre.generation.suggestions
            &&& post.generation.suggestions.last() == (SuggestionTask {
                request_id: msg->SuggestionQueued_request_id,
                field_type: msg->SuggestionQueued_field_type,
                entity_id: msg->SuggestionQueued_entity_id,
                status: SuggestionStatus::Queued,
                is_read: false,
                context: None,
                world_id: None,
            })
        },
        post.generation.batches == pre.generation.batches,
        post.generation.flags_agree(),
        post.session == pre.session,
        post.game == pre.game,
{
    let id = msg->SuggestionQueued_request_id@;
    crate::seqs::lemma_find_key_contains(request_ids(pre.generation.suggestions), id);
    law_task_status_update(pre.generation, id, SuggestionStatus::Queued);
    if !request_ids(pre.generation.suggestions).contains(id) {
        assert(post.generation.suggestions.drop_last() =~= pre.generation.suggestions);
    }
}

/// The result recorded for a resolved challenge is the one sent: its
/// challenge and character, the roll, modifier and total, the outcome and its
/// description, the breakdown and the individual dice; the player skills
/// stay.
pub proof fn law_resolution_fields<C>(pre: AppModel<C>, msg: ServerMessage, now: u64, post: AppModel<C>)
    requires
        msg is ChallengeResolved,
        message_effect(pre, msg, now, post),
    ensures
        ({
            let r = post.session.challenge.challenge_results.last();
            &&& r.challenge_name == msg->ChallengeResolved_challenge_name@
            &&& r.character_name == msg->ChallengeResolved_character_name@
            &&& r.roll == msg->ChallengeResolved_roll
            &&& r.modifier == msg->ChallengeResolved_modifier
            &&& r.total == msg->ChallengeResolved_total
            &&& r.outcome == msg->ChallengeResolved_outcome@
            &&& r.outcome_description == msg->ChallengeResolved_outcome_description@
            &&& r.roll_breakdown == opt_str(msg->ChallengeResolved_roll_breakdown)
            &&& (msg->ChallengeResolved_individual_rolls matches Some(v) ==> r.individual_rolls == Some(v@))
            &&& (msg->ChallengeResolved_individual_rolls is None ==> r.individual_rolls is None)
        }),
        post.session.challenge.player_skills == pre.session.challenge.player_skills,
        post.session.connection == pre.session.connection,
{
}

} // verus!
