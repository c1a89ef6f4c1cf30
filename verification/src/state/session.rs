//! Session state: a facade over the connection, approval and challenge
//! states, with the operations the views and the message handler use.
use vstd::prelude::*;
use crate::dto::{ApprovalDecision, OutcomeBranchData, ParticipantRole};
use crate::skills::PlayerSkillData;
use crate::state::approval::{
    ApprovalHistoryEntry, ApprovalModel, ApprovalState, ConversationLogEntry, PendingApproval,
    PendingChallengeOutcome,
};
use crate::state::challenge::{
    ChallengeModel, ChallengePromptData, ChallengeResultData, ChallengeState, RollStatusView,
    RollSubmissionStatus,
};
use crate::state::connection::{ConnectionModel, ConnectionState, ConnectionStatus};

verus! {

/// The abstract session state.
pub struct SessionModel<C> {
    pub connection: ConnectionModel<C>,
    pub approval: ApprovalModel,
    pub challenge: ChallengeModel,
}

impl<C> SessionModel<C> {
    pub open spec fn with_connection(self, c: ConnectionModel<C>) -> SessionModel<C> {
        SessionModel { connection: c, ..self }
    }

    pub open spec fn with_approval(self, a: ApprovalModel) -> SessionModel<C> {
        SessionModel { approval: a, ..self }
    }

    pub open spec fn with_challenge(self, c: ChallengeModel) -> SessionModel<C> {
        SessionModel { challenge: c, ..self }
    }

    /// A log entry appended.
    pub open spec fn log(self, speaker: Seq<char>, text: Seq<char>, is_system: bool, now: u64) -> SessionModel<C> {
        self.with_approval(self.approval.log(speaker, text, is_system, now))
    }
}

/// Session state: connection, approval workflow and challenges; `C` is the
/// handle of the game connection.
pub struct SessionState<C> {
    pub connection: ConnectionState<C>,
    pub approval: ApprovalState,
    pub challenge: ChallengeState,
}

impl<C> View for SessionState<C> {
    type V = SessionModel<C>;

    open spec fn view(&self) -> SessionModel<C> {
        SessionModel {
            connection: self.connection@,
            approval: self.approval@,
            challenge: self.challenge@,
        }
    }
}

impl<C> SessionState<C> {
    /// A disconnected, empty session.
    pub fn new() -> (r: SessionState<C>)
        ensures
            r@ == (SessionModel {
                connection: ConnectionModel::<C>::initial(),
                approval: ApprovalModel::empty(),
                challenge: ChallengeModel::empty(),
            }),
    {
        SessionState {
            connection: ConnectionState::new(),
            approval: ApprovalState::new(),
            challenge: ChallengeState::new(),
        }
    }

    // ----- read access -----

    /// Current connection status.
    pub fn connection_status(&self) -> (r: ConnectionStatus)
        ensures
            r == self@.connection.connection_status,
    {
        self.connection.connection_status
    }

    /// Session ID after joining.
    pub fn session_id(&self) -> (r: &Option<String>)
        ensures
            *r == self.connection.session_id,
    {
        &self.connection.session_id
    }

    /// User ID.
    pub fn user_id(&self) -> (r: &Option<String>)
        ensures
            *r == self.connection.user_id,
    {
        &self.connection.user_id
    }

    /// User role.
    pub fn user_role(&self) -> (r: &Option<ParticipantRole>)
        ensures
            *r == self.connection.user_role,
    {
        &self.connection.user_role
    }

    /// Server URL.
    pub fn server_url(&self) -> (r: &Option<String>)
        ensures
            *r == self.connection.server_url,
    {
        &self.connection.server_url
    }

    /// The connection handle.
    pub fn engine_client(&self) -> (r: &Option<C>)
        ensures
            *r == self.connection.engine_client,
    {
        &self.connection.engine_client
    }

    /// Error message of a failed connection.
    pub fn error_message(&self) -> (r: &Option<String>)
        ensures
            *r == self.connection.error_message,
    {
        &self.connection.error_message
    }

    /// Pending approval requests.
    pub fn pending_approvals(&self) -> (r: &Vec<PendingApproval>)
        ensures
            r@ == self@.approval.pending_approvals,
    {
        &self.approval.pending_approvals
    }

    /// Conversation log.
    pub fn conversation_log(&self) -> (r: &Vec<ConversationLogEntry>)
        ensures
            r@ == self.approval.conversation_log@,
    {
        &self.approval.conversation_log
    }

    /// Active challenge prompt.
    pub fn active_challenge(&self) -> (r: &Option<ChallengePromptData>)
        ensures
            *r == self@.challenge.active_challenge,
    {
        &self.challenge.active_challenge
    }

    /// Recent challenge results.
    pub fn challenge_results(&self) -> (r: &Vec<ChallengeResultData>)
        ensures
            r@.map_values(|x: ChallengeResultData| x@) == self@.challenge.challenge_results,
    {
        &self.challenge.challenge_results
    }

    /// Player character skills.
    pub fn player_skills(&self) -> (r: &Vec<PlayerSkillData>)
        ensures
            r@ == self@.challenge.player_skills,
    {
        &self.challenge.player_skills
    }

    /// Recent approval decisions.
    pub fn decision_history(&self) -> (r: &Vec<ApprovalHistoryEntry>)
        ensures
            r@ == self.approval.decision_history@,
    {
        &self.approval.decision_history
    }

    /// ComfyUI connection state.
    pub fn comfyui_state(&self) -> (r: &String)
        ensures
            *r == self.connection.comfyui_state,
    {
        &self.connection.comfyui_state
    }

    /// ComfyUI message.
    pub fn comfyui_message(&self) -> (r: &Option<String>)
        ensures
            *r == self.connection.comfyui_message,
    {
        &self.connection.comfyui_message
    }

    /// Seconds until ComfyUI is retried.
    pub fn comfyui_retry_in_seconds(&self) -> (r: Option<u32>)
        ensures
            r == self.connection.comfyui_retry_in_seconds,
    {
        self.connection.comfyui_retry_in_seconds
    }

    /// Roll submission status.
    pub fn roll_status(&self) -> (r: &RollSubmissionStatus)
        ensures
            r@ == self@.challenge.roll_status,
    {
        &self.challenge.roll_status
    }

    /// Pending challenge outcomes.
    pub fn pending_challenge_outcomes(&self) -> (r: &Vec<PendingChallengeOutcome>)
        ensures
            r@ == self@.approval.pending_challenge_outcomes,
    {
        &self.approval.pending_challenge_outcomes
    }

    // ----- connection -----

    /// Connecting to `server_url`.
    pub fn start_connecting(&mut self, server_url: &str)
        ensures
            final(self)@ == old(self)@.with_connection(old(self)@.connection.connecting(server_url@)),
    {
        self.connection.start_connecting(server_url);
    }

    /// Connected through `client`.
    pub fn set_connected(&mut self, client: C)
        ensures
            final(self)@ == old(self)@.with_connection(old(self)@.connection.connected(client)),
    {
        self.connection.set_connected(client);
    }

    /// Stores the connection handle without changing the status.
    pub fn set_connection_handle(&mut self, client: C)
        ensures
            final(self)@ == old(self)@.with_connection(
                ConnectionModel { engine_client: Some(client), ..old(self)@.connection },
            ),
    {
        self.connection.set_connection_handle(client);
    }

    /// The session has been joined.
    pub fn set_session_joined(&mut self, session_id: String)
        ensures
            final(self)@ == old(self)@.with_connection(
                ConnectionModel { session_id: Some(session_id@), ..old(self)@.connection },
            ),
    {
        self.connection.set_session_joined(session_id);
    }

    /// Sets user ID and role.
    pub fn set_user(&mut self, user_id: String, role: ParticipantRole)
        ensures
            final(self)@ == old(self)@.with_connection(
                ConnectionModel {
                    user_id: Some(user_id@),
                    user_role: Some(role),
                    ..old(self)@.connection
                },
            ),
    {
        self.connection.set_user(user_id, role);
    }

    /// Disconnected.
    pub fn set_disconnected(&mut self)
        ensures
            final(self)@ == old(self)@.with_connection(old(self)@.connection.disconnected()),
    {
        self.connection.set_disconnected();
    }

    /// Failed with `error`.
    pub fn set_failed(&mut self, error: String)
        ensures
            final(self)@ == old(self)@.with_connection(old(self)@.connection.failed(error@)),
    {
        self.connection.set_failed(error);
    }

    /// Reconnecting.
    pub fn set_reconnecting(&mut self)
        ensures
            final(self)@ == old(self)@.with_connection(
                ConnectionModel {
                    connection_status: ConnectionStatus::Reconnecting,
                    ..old(self)@.connection
                },
            ),
    {
        self.connection.set_reconnecting();
    }

    /// Clears connection, approval and challenge state.
    pub fn clear(&mut self)
        ensures
            final(self)@ == (SessionModel {
                connection: old(self)@.connection.cleared(),
                approval: ApprovalModel::empty(),
                challenge: ChallengeModel::empty(),
            }),
    {
        self.connection.clear();
        self.approval.clear();
        self.challenge.clear();
    }

    /// Whether a connection handle is held.
    pub fn has_client(&self) -> (r: bool)
        ensures
            r == self@.connection.engine_client is Some,
    {
        self.connection.has_client()
    }

    // ----- approvals -----

    /// Adds a pending approval request.
    pub fn add_pending_approval(&mut self, approval: PendingApproval)
        ensures
            final(self)@ == old(self)@.with_approval(
                old(self)@.approval.with_approvals(old(self)@.approval.pending_approvals.push(approval)),
            ),
    {
        self.approval.add_pending_approval(approval);
    }

    /// Removes pending approvals with ID `request_id`.
    pub fn remove_pending_approval(&mut self, request_id: &str)
        ensures
            final(self)@ == old(self)@.with_approval(old(self)@.approval.remove_approval(request_id@)),
    {
        self.approval.remove_pending_approval(request_id);
    }

    /// Appends a conversation log entry stamped with `now`.
    pub fn add_log_entry(&mut self, speaker: String, text: String, is_system: bool, now: u64)
        ensures
            final(self)@ == old(self)@.log(speaker@, text@, is_system, now),
    {
        self.approval.add_log_entry(speaker, text, is_system, now);
    }

    /// Adds a decision history entry.
    pub fn add_approval_history_entry(&mut self, entry: ApprovalHistoryEntry)
        ensures
            final(self)@ == old(self)@.with_approval(
                old(self)@.approval.with_history(old(self)@.approval.decision_history.push(entry@)),
            ),
    {
        self.approval.add_approval_history_entry(entry);
    }

    /// A copy of the decision history.
    pub fn get_approval_history(&self) -> (r: Vec<ApprovalHistoryEntry>)
        ensures
            r@.map_values(|e: ApprovalHistoryEntry| e@) == self@.approval.decision_history,
    {
        self.approval.get_approval_history()
    }

    /// Records the DM's decision on a request (see `ApprovalState`).
    pub fn record_approval_decision(&mut self, request_id: String, decision: &ApprovalDecision, now: u64)
        ensures
            final(self)@ == old(self)@.with_approval(
                old(self)@.approval.record_decision(request_id@, *decision, now),
            ),
    {
        self.approval.record_approval_decision(request_id, decision, now);
    }

    /// Adds a pending challenge outcome.
    pub fn add_pending_challenge_outcome(&mut self, outcome: PendingChallengeOutcome)
        ensures
            final(self)@ == old(self)@.with_approval(
                old(self)@.approval.with_outcomes(
                    old(self)@.approval.pending_challenge_outcomes.push(outcome),
                ),
            ),
    {
        self.approval.add_pending_challenge_outcome(outcome);
    }

    /// Removes pending challenge outcomes with ID `resolution_id`.
    pub fn remove_pending_challenge_outcome(&mut self, resolution_id: &str)
        ensures
            final(self)@ == old(self)@.with_approval(
                old(self)@.approval.remove_outcome(resolution_id@),
            ),
    {
        self.approval.remove_pending_challenge_outcome(resolution_id);
    }

    /// Stores suggestions for a pending challenge outcome.
    pub fn update_challenge_suggestions(&mut self, resolution_id: &str, suggestions: Vec<String>)
        ensures
            final(self)@ == old(self)@.with_approval(
                old(self)@.approval.update_outcome(
                    resolution_id@,
                    Some(Some(suggestions)),
                    None,
                    false,
                ),
            ),
    {
        self.approval.update_challenge_suggestions(resolution_id, suggestions);
    }

    /// Stores outcome branches for a pending challenge outcome.
    pub fn update_challenge_branches(
        &mut self,
        resolution_id: &str,
        outcome_type: String,
        branches: Vec<OutcomeBranchData>,
    )
        ensures
            final(self)@ == old(self)@.with_approval(
                old(self)@.approval.update_outcome(resolution_id@, None, Some(Some(branches)), false),
            ),
    {
        self.approval.update_challenge_branches(resolution_id, outcome_type, branches);
    }

    /// Sets the "generating suggestions" flag of a pending challenge outcome.
    pub fn set_challenge_generating_suggestions(&mut self, resolution_id: &str, generating: bool)
        ensures
            final(self)@ == old(self)@.with_approval(
                old(self)@.approval.update_outcome(resolution_id@, None, None, generating),
            ),
    {
        self.approval.set_challenge_generating_suggestions(resolution_id, generating);
    }

    // ----- challenges -----

    /// Sets the active challenge prompt.
    pub fn set_active_challenge(&mut self, challenge: ChallengePromptData)
        ensures
            final(self)@ == old(self)@.with_challenge(
                ChallengeModel { active_challenge: Some(challenge), ..old(self)@.challenge },
            ),
    {
        self.challenge.set_active_challenge(challenge);
    }

    /// Clears the active challenge.
    pub fn clear_active_challenge(&mut self)
        ensures
            final(self)@ == old(self)@.with_challenge(
                ChallengeModel { active_challenge: None, ..old(self)@.challenge },
            ),
    {
        self.challenge.clear_active_challenge();
    }

    /// Appends a challenge result.
    pub fn add_challenge_result(&mut self, result: ChallengeResultData)
        ensures
            final(self)@ == old(self)@.with_challenge(
                ChallengeModel {
                    challenge_results: old(self)@.challenge.challenge_results.push(result@),
                    ..old(self)@.challenge
                },
            ),
    {
        self.challenge.add_challenge_result(result);
    }

    /// Replaces the player's skills.
    pub fn set_player_skills(&mut self, skills: Vec<PlayerSkillData>)
        ensures
            final(self)@ == old(self)@.with_challenge(
                ChallengeModel { player_skills: skills@, ..old(self)@.challenge },
            ),
    {
        self.challenge.set_player_skills(skills);
    }

    /// Appends a player skill.
    pub fn add_player_skill(&mut self, skill: PlayerSkillData)
        ensures
            final(self)@ == old(self)@.with_challenge(
                ChallengeModel {
                    player_skills: old(self)@.challenge.player_skills.push(skill),
                    ..old(self)@.challenge
                },
            ),
    {
        self.challenge.add_player_skill(skill);
    }

    /// The roll awaits DM approval.
    pub fn set_awaiting_approval(&mut self, roll: i32, modifier: i32, total: i32, outcome_type: String)
        ensures
            final(self)@ == old(self)@.with_challenge(
                ChallengeModel {
                    roll_status: RollStatusView::AwaitingApproval {
                        roll,
                        modifier,
                        total,
                        outcome_type: outcome_type@,
                    },
                    ..old(self)@.challenge
                },
            ),
    {
        self.challenge.set_awaiting_approval(roll, modifier, total, outcome_type);
    }

    /// The result is ready to display.
    pub fn set_result_ready(&mut self, result: ChallengeResultData)
        ensures
            final(self)@ == old(self)@.with_challenge(
                ChallengeModel {
                    roll_status: RollStatusView::ResultReady(result@),
                    ..old(self)@.challenge
                },
            ),
    {
        self.challenge.set_result_ready(result);
    }

    /// The result has been dismissed.
    pub fn dismiss_result(&mut self)
        ensures
            final(self)@ == old(self)@.with_challenge(
                ChallengeModel { roll_status: RollStatusView::Dismissed, ..old(self)@.challenge },
            ),
    {
        self.challenge.dismiss_result();
    }

    /// Back to "nothing submitted".
    pub fn clear_roll_status(&mut self)
        ensures
            final(self)@ == old(self)@.with_challenge(
                ChallengeModel {
                    roll_status: RollStatusView::NotSubmitted,
                    ..old(self)@.challenge
                },
            ),
    {
        self.challenge.clear_roll_status();
    }
}

impl<C> Default for SessionState<C> {
    fn default() -> (r: SessionState<C>)
        ensures
            r@ == (SessionModel {
                connection: ConnectionModel::<C>::initial(),
                approval: ApprovalModel::empty(),
                challenge: ChallengeModel::empty(),
            }),
    {
        SessionState::new()
    }
}

} // verus!
