//! Approval state: pending LLM approval requests, the DM's decision history,
//! the conversation log and challenge outcomes awaiting approval.
use vstd::prelude::*;
use crate::copy::copy_string;
use crate::dto::{
    ApprovalDecision, ChallengeSuggestionInfo, NarrativeEventSuggestionInfo, OutcomeBranchData,
    ProposedTool,
};
use crate::seqs::{find_key, lemma_find_key};
use crate::text::owned;

verus! {

/// A pending approval request from the LLM that the DM needs to review.
pub struct PendingApproval {
    pub request_id: String,
    pub npc_name: String,
    pub proposed_dialogue: String,
    pub internal_reasoning: String,
    pub proposed_tools: Vec<ProposedTool>,
    pub challenge_suggestion: Option<ChallengeSuggestionInfo>,
    pub narrative_event_suggestion: Option<NarrativeEventSuggestionInfo>,
}

/// A past approval decision.
pub struct ApprovalHistoryEntry {
    pub request_id: String,
    pub npc_name: String,
    /// "accepted", "modified", "rejected" or "takeover".
    pub outcome: String,
    /// Unix timestamp (seconds) of the decision.
    pub timestamp: u64,
}

/// A log entry of the conversation.
pub struct ConversationLogEntry {
    /// Speaker name (or "System").
    pub speaker: String,
    pub text: String,
    pub is_system: bool,
    pub timestamp: u64,
}

/// A challenge outcome awaiting DM approval.
pub struct PendingChallengeOutcome {
    pub resolution_id: String,
    pub challenge_name: String,
    pub character_id: String,
    pub character_name: String,
    pub roll: i32,
    pub modifier: i32,
    pub total: i32,
    pub outcome_type: String,
    pub outcome_description: String,
    pub outcome_triggers: Vec<ProposedTool>,
    pub roll_breakdown: Option<String>,
    pub suggestions: Option<Vec<String>>,
    pub branches: Option<Vec<OutcomeBranchData>>,
    pub is_generating_suggestions: bool,
    pub timestamp: u64,
}

/// The request IDs of the pending approvals, in order.
pub open spec fn approval_ids(s: Seq<PendingApproval>) -> Seq<Seq<char>> {
    s.map_values(|a: PendingApproval| a.request_id@)
}

/// The resolution IDs of the pending challenge outcomes, in order.
pub open spec fn resolution_ids(s: Seq<PendingChallengeOutcome>) -> Seq<Seq<char>> {
    s.map_values(|o: PendingChallengeOutcome| o.resolution_id@)
}

/// The label a decision is recorded under.
pub open spec fn decision_label(d: ApprovalDecision) -> Seq<char> {
    match d {
        ApprovalDecision::Accept => "accepted"@,
        ApprovalDecision::AcceptWithModification { .. } => "modified"@,
        ApprovalDecision::Reject { .. } => "rejected"@,
        ApprovalDecision::TakeOver { .. } => "takeover"@,
    }
}

/// The NPC name of the first pending approval with ID `id`, or "Unknown".
pub open spec fn npc_name_for(s: Seq<PendingApproval>, id: Seq<char>) -> Seq<char> {
    match find_key(approval_ids(s), id) {
        Some(i) => s[i].npc_name@,
        None => "Unknown"@,
    }
}

/// A pending challenge outcome with new suggestion state.
pub open spec fn with_suggestion_state(
    o: PendingChallengeOutcome,
    suggestions: Option<Vec<String>>,
    branches: Option<Vec<OutcomeBranchData>>,
    generating: bool,
) -> PendingChallengeOutcome {
    PendingChallengeOutcome {
        resolution_id: o.resolution_id,
        challenge_name: o.challenge_name,
        character_id: o.character_id,
        character_name: o.character_name,
        roll: o.roll,
        modifier: o.modifier,
        total: o.total,
        outcome_type: o.outcome_type,
        outcome_description: o.outcome_description,
        outcome_triggers: o.outcome_triggers,
        roll_breakdown: o.roll_breakdown,
        suggestions,
        branches,
        is_generating_suggestions: generating,
        timestamp: o.timestamp,
    }
}

/// What a log entry says.
pub struct LogLine {
    pub speaker: Seq<char>,
    pub text: Seq<char>,
    pub is_system: bool,
    pub timestamp: u64,
}

impl View for ConversationLogEntry {
    type V = LogLine;

    open spec fn view(&self) -> LogLine {
        LogLine {
            speaker: self.speaker@,
            text: self.text@,
            is_system: self.is_system,
            timestamp: self.timestamp,
        }
    }
}

/// What a decision history entry says.
pub struct HistoryLine {
    pub request_id: Seq<char>,
    pub npc_name: Seq<char>,
    pub outcome: Seq<char>,
    pub timestamp: u64,
}

impl View for ApprovalHistoryEntry {
    type V = HistoryLine;

    open spec fn view(&self) -> HistoryLine {
        HistoryLine {
            request_id: self.request_id@,
            npc_name: self.npc_name@,
            outcome: self.outcome@,
            timestamp: self.timestamp,
        }
    }
}

/// The abstract approval state.
pub struct ApprovalModel {
    pub pending_approvals: Seq<PendingApproval>,
    pub decision_history: Seq<HistoryLine>,
    pub conversation_log: Seq<LogLine>,
    pub pending_challenge_outcomes: Seq<PendingChallengeOutcome>,
}

impl ApprovalModel {
    /// Everything empty.
    pub open spec fn empty() -> ApprovalModel {
        ApprovalModel {
            pending_approvals: Seq::empty(),
            decision_history: Seq::empty(),
            conversation_log: Seq::empty(),
            pending_challenge_outcomes: Seq::empty(),
        }
    }

    pub open spec fn with_approvals(self, s: Seq<PendingApproval>) -> ApprovalModel {
        ApprovalModel { pending_approvals: s, ..self }
    }

    pub open spec fn with_history(self, s: Seq<HistoryLine>) -> ApprovalModel {
        ApprovalModel { decision_history: s, ..self }
    }

    pub open spec fn with_log(self, s: Seq<LogLine>) -> ApprovalModel {
        ApprovalModel { conversation_log: s, ..self }
    }

    pub open spec fn with_outcomes(self, s: Seq<PendingChallengeOutcome>) -> ApprovalModel {
        ApprovalModel { pending_challenge_outcomes: s, ..self }
    }

    /// Every pending approval with ID `id` removed.
    pub open spec fn remove_approval(self, id: Seq<char>) -> ApprovalModel {
        self.with_approvals(self.pending_approvals.filter(|a: PendingApproval| a.request_id@ != id))
    }

    /// A log entry appended.
    pub open spec fn log(self, speaker: Seq<char>, text: Seq<char>, is_system: bool, now: u64) -> ApprovalModel {
        self.with_log(
            self.conversation_log.push(LogLine { speaker, text, is_system, timestamp: now }),
        )
    }

    /// A decision recorded: history entry appended, then the approval removed.
    pub open spec fn record_decision(self, id: Seq<char>, d: ApprovalDecision, now: u64) -> ApprovalModel {
        self.with_history(
            self.decision_history.push(
                HistoryLine {
                    request_id: id,
                    npc_name: npc_name_for(self.pending_approvals, id),
                    outcome: decision_label(d),
                    timestamp: now,
                },
            ),
        ).remove_approval(id)
    }

    /// Every pending challenge outcome with ID `id` removed.
    pub open spec fn remove_outcome(self, id: Seq<char>) -> ApprovalModel {
        self.with_outcomes(
            self.pending_challenge_outcomes.filter(
                |o: PendingChallengeOutcome| o.resolution_id@ != id,
            ),
        )
    }

    /// The first outcome with ID `id` given new suggestion state.
    pub open spec fn update_outcome(
        self,
        id: Seq<char>,
        suggestions: Option<Option<Vec<String>>>,
        branches: Option<Option<Vec<OutcomeBranchData>>>,
        generating: bool,
    ) -> ApprovalModel {
        match find_key(resolution_ids(self.pending_challenge_outcomes), id) {
            Some(i) => {
                let o = self.pending_challenge_outcomes[i];
                self.with_outcomes(
                    self.pending_challenge_outcomes.update(
                        i,
                        with_suggestion_state(
                            o,
                            match suggestions { Some(s) => s, None => o.suggestions },
                            match branches { Some(b) => b, None => o.branches },
                            generating,
                        ),
                    ),
                )
            },
            None => self,
        }
    }
}

/// Approval state for the DM approval workflow.
pub struct ApprovalState {
    /// Pending approval requests.
    pub pending_approvals: Vec<PendingApproval>,
    /// Recent approval decisions.
    pub decision_history: Vec<ApprovalHistoryEntry>,
    /// Conversation log.
    pub conversation_log: Vec<ConversationLogEntry>,
    /// Challenge outcomes awaiting DM approval.
    pub pending_challenge_outcomes: Vec<PendingChallengeOutcome>,
}

impl View for ApprovalState {
    type V = ApprovalModel;

    open spec fn view(&self) -> ApprovalModel {
        ApprovalModel {
            pending_approvals: self.pending_approvals@,
            decision_history: self.decision_history@.map_values(|e: ApprovalHistoryEntry| e@),
            conversation_log: self.conversation_log@.map_values(|e: ConversationLogEntry| e@),
            pending_challenge_outcomes: self.pending_challenge_outcomes@,
        }
    }
}

impl ApprovalState {
    /// An empty approval state.
    pub fn new() -> (r: ApprovalState)
        ensures
            r@ == ApprovalModel::empty(),
    {
        let r = ApprovalState {
            pending_approvals: Vec::new(),
            decision_history: Vec::new(),
            conversation_log: Vec::new(),
            pending_challenge_outcomes: Vec::new(),
        };
        assert(r@.decision_history =~= Seq::<HistoryLine>::empty());
        assert(r@.conversation_log =~= Seq::<LogLine>::empty());
        r
    }

    /// Adds a pending approval request.
    pub fn add_pending_approval(&mut self, approval: PendingApproval)
        ensures
            final(self)@ == old(self)@.with_approvals(old(self)@.pending_approvals.push(approval)),
    {
        self.pending_approvals.push(approval);
    }

    /// Removes every pending approval with ID `request_id`.
    pub fn remove_pending_approval(&mut self, request_id: &str)
        ensures
            final(self)@ == old(self)@.remove_approval(request_id@),
    {
        let key = owned(request_id);
        let ghost pred = |a: PendingApproval| a.request_id@ != request_id@;
        let mut old_items: Vec<PendingApproval> = Vec::new();
        std::mem::swap(&mut old_items, &mut self.pending_approvals);
        let ghost orig = old_items@;
        let mut kept: Vec<PendingApproval> = Vec::new();
        proof {
            reveal_with_fuel(Seq::<_>::filter, 1);
            assert(orig.take(0) =~= Seq::<PendingApproval>::empty());
        }
        for a in it: old_items
            invariant
                forall|x: PendingApproval| #[trigger] pred(x) == (x.request_id@ != request_id@),
                it.seq() == orig,
                kept@ == orig.take(it.index() as int).filter(pred),
                key@ == request_id@,
        {
            proof {
                crate::seqs::lemma_filter_step(orig, it.index() as int, pred);
            }
            if a.request_id != key {
                kept.push(a);
            }
        }
        assert(orig.take(orig.len() as int) =~= orig);
        self.pending_approvals = kept;
    }

    /// Adds an entry to the decision history.
    pub fn add_approval_history_entry(&mut self, entry: ApprovalHistoryEntry)
        ensures
            final(self)@ == old(self)@.with_history(old(self)@.decision_history.push(entry@)),
    {
        self.decision_history.push(entry);
        assert(self@.decision_history =~= old(self)@.decision_history.push(entry@));
    }

    /// A copy of the decision history.
    pub fn get_approval_history(&self) -> (r: Vec<ApprovalHistoryEntry>)
        ensures
            r@.map_values(|e: ApprovalHistoryEntry| e@) == self@.decision_history,
    {
        let mut r: Vec<ApprovalHistoryEntry> = Vec::new();
        let mut i: usize = 0;
        while i < self.decision_history.len()
            invariant
                i <= self.decision_history.len(),
                r@.len() == i,
                forall|k: int| 0 <= k < i ==> (#[trigger] r@[k])@ == self.decision_history@[k]@,
            decreases self.decision_history.len() - i,
        {
            let e = &self.decision_history[i];
            r.push(
                ApprovalHistoryEntry {
                    request_id: copy_string(&e.request_id),
                    npc_name: copy_string(&e.npc_name),
                    outcome: copy_string(&e.outcome),
                    timestamp: e.timestamp,
                },
            );
            i = i + 1;
        }
        assert(r@.map_values(|e: ApprovalHistoryEntry| e@) =~= self@.decision_history);
        r
    }

    /// Appends a conversation log entry stamped with `now`.
    pub fn add_log_entry(&mut self, speaker: String, text: String, is_system: bool, now: u64)
        ensures
            final(self)@ == old(self)@.log(speaker@, text@, is_system, now),
    {
        let entry = ConversationLogEntry { speaker, text, is_system, timestamp: now };
        self.conversation_log.push(entry);
        assert(self@.conversation_log =~= old(self)@.conversation_log.push(entry@));
    }

    /// Records the DM's decision on a request: appends a history entry (with
    /// the NPC name of the first pending approval with that ID, or "Unknown",
    /// and the decision's label), then removes the request from the queue.
    pub fn record_approval_decision(&mut self, request_id: String, decision: &ApprovalDecision, now: u64)
        ensures
            final(self)@ == old(self)@.record_decision(request_id@, *decision, now),
    {
        let outcome = match decision {
            ApprovalDecision::Accept => owned("accepted"),
            ApprovalDecision::AcceptWithModification { .. } => owned("modified"),
            ApprovalDecision::Reject { .. } => owned("rejected"),
            ApprovalDecision::TakeOver { .. } => owned("takeover"),
        };
        let npc_name = match self.find_approval(&request_id) {
            Some(i) => copy_string(&self.pending_approvals[i].npc_name),
            None => owned("Unknown"),
        };
        let entry = ApprovalHistoryEntry {
            request_id: copy_string(&request_id),
            npc_name,
            outcome,
            timestamp: now,
        };
        self.add_approval_history_entry(entry);
        self.remove_pending_approval(request_id.as_str());
    }

    /// Clears all approval state.
    pub fn clear(&mut self)
        ensures
            final(self)@ == ApprovalModel::empty(),
    {
        self.pending_approvals = Vec::new();
        self.decision_history = Vec::new();
        self.conversation_log = Vec::new();
        self.pending_challenge_outcomes = Vec::new();
        assert(self@.decision_history =~= Seq::<HistoryLine>::empty());
        assert(self@.conversation_log =~= Seq::<LogLine>::empty());
    }

    /// Adds a pending challenge outcome.
    pub fn add_pending_challenge_outcome(&mut self, outcome: PendingChallengeOutcome)
        ensures
            final(self)@ == old(self)@.with_outcomes(
                old(self)@.pending_challenge_outcomes.push(outcome),
            ),
    {
        self.pending_challenge_outcomes.push(outcome);
    }

    /// Removes every pending challenge outcome with ID `resolution_id`.
    pub fn remove_pending_challenge_outcome(&mut self, resolution_id: &str)
        ensures
            final(self)@ == old(self)@.remove_outcome(resolution_id@),
    {
        let key = owned(resolution_id);
        let ghost pred = |o: PendingChallengeOutcome| o.resolution_id@ != resolution_id@;
        let mut old_items: Vec<PendingChallengeOutcome> = Vec::new();
        std::mem::swap(&mut old_items, &mut self.pending_challenge_outcomes);
        let ghost orig = old_items@;
        let mut kept: Vec<PendingChallengeOutcome> = Vec::new();
        proof {
            reveal_with_fuel(Seq::<_>::filter, 1);
            assert(orig.take(0) =~= Seq::<PendingChallengeOutcome>::empty());
        }
        for o in it: old_items
            invariant
                forall|x: PendingChallengeOutcome| #[trigger] pred(x) == (x.resolution_id@ != resolution_id@),
                it.seq() == orig,
                kept@ == orig.take(it.index() as int).filter(pred),
                key@ == resolution_id@,
        {
            proof {
                crate::seqs::lemma_filter_step(orig, it.index() as int, pred);
            }
            if o.resolution_id != key {
                kept.push(o);
            }
        }
        assert(orig.take(orig.len() as int) =~= orig);
        self.pending_challenge_outcomes = kept;
    }

    /// Index of the first pending approval with ID `id`.
    pub fn find_approval(&self, id: &String) -> (r: Option<usize>)
        ensures
            match r {
                Some(i) => find_key(approval_ids(self@.pending_approvals), id@) == Some(i as int)
                    && i < self@.pending_approvals.len(),
                None => find_key(approval_ids(self@.pending_approvals), id@) is None,
            },
    {
        let ghost keys = approval_ids(self.pending_approvals@);
        let mut i: usize = 0;
        while i < self.pending_approvals.len()
            invariant
                i <= self.pending_approvals.len(),
                keys == approval_ids(self.pending_approvals@),
                find_key(keys, id@) == crate::seqs::find_from(keys, id@, i as int),
            decreases self.pending_approvals.len() - i,
        {
            if self.pending_approvals[i].request_id == *id {
                return Some(i);
            }
            i = i + 1;
        }
        None
    }

    /// Index of the first pending challenge outcome with ID `id`.
    fn find_outcome(&self, id: &String) -> (r: Option<usize>)
        ensures
            match r {
                Some(i) => find_key(resolution_ids(self@.pending_challenge_outcomes), id@) == Some(
                    i as int,
                ) && i < self@.pending_challenge_outcomes.len(),
                None => find_key(resolution_ids(self@.pending_challenge_outcomes), id@) is None,
            },
    {
        let ghost keys = resolution_ids(self.pending_challenge_outcomes@);
        let mut i: usize = 0;
        while i < self.pending_challenge_outcomes.len()
            invariant
                i <= self.pending_challenge_outcomes.len(),
                keys == resolution_ids(self.pending_challenge_outcomes@),
                find_key(keys, id@) == crate::seqs::find_from(keys, id@, i as int),
            decreases self.pending_challenge_outcomes.len() - i,
        {
            if self.pending_challenge_outcomes[i].resolution_id == *id {
                return Some(i);
            }
            i = i + 1;
        }
        None
    }

    /// Stores suggestions for the first outcome with this ID and clears its
    /// "generating" flag.
    pub fn update_challenge_suggestions(&mut self, resolution_id: &str, suggestions: Vec<String>)
        ensures
            final(self)@ == old(self)@.update_outcome(
                resolution_id@,
                Some(Some(suggestions)),
                None,
                false,
            ),
    {
        let key = owned(resolution_id);
        match self.find_outcome(&key) {
            Some(i) => {
                self.pending_challenge_outcomes[i].suggestions = Some(suggestions);
                self.pending_challenge_outcomes[i].is_generating_suggestions = false;
                assert(self@.pending_challenge_outcomes =~= old(self)@.update_outcome(
                    resolution_id@,
                    Some(Some(suggestions)),
                    None,
                    false,
                ).pending_challenge_outcomes);
            },
            None => {},
        }
    }

    /// Stores outcome branches for the first outcome with this ID and clears
    /// its "generating" flag (the outcome type is not kept).
    pub fn update_challenge_branches(
        &mut self,
        resolution_id: &str,
        outcome_type: String,
        branches: Vec<OutcomeBranchData>,
    )
        ensures
            final(self)@ == old(self)@.update_outcome(
                resolution_id@,
                None,
                Some(Some(branches)),
                false,
            ),
    {
        let key = owned(resolution_id);
        match self.find_outcome(&key) {
            Some(i) => {
                self.pending_challenge_outcomes[i].branches = Some(branches);
                self.pending_challenge_outcomes[i].is_generating_suggestions = false;
                assert(self@.pending_challenge_outcomes =~= old(self)@.update_outcome(
                    resolution_id@,
                    None,
                    Some(Some(branches)),
                    false,
                ).pending_challenge_outcomes);
            },
            None => {},
        }
    }

    /// Sets the "generating suggestions" flag of the first outcome with this ID.
    pub fn set_challenge_generating_suggestions(&mut self, resolution_id: &str, generating: bool)
        ensures
            final(self)@ == old(self)@.update_outcome(resolution_id@, None, None, generating),
    {
        let key = owned(resolution_id);
        match self.find_outcome(&key) {
            Some(i) => {
                self.pending_challenge_outcomes[i].is_generating_suggestions = generating;
                assert(self@.pending_challenge_outcomes =~= old(self)@.update_outcome(
                    resolution_id@,
                    None,
                    None,
                    generating,
                ).pending_challenge_outcomes);
            },
            None => {},
        }
    }

    /// The pending challenge outcomes.
    pub fn get_pending_challenge_outcomes(&self) -> (r: &Vec<PendingChallengeOutcome>)
        ensures
            r@ == self@.pending_challenge_outcomes,
    {
        &self.pending_challenge_outcomes
    }
}

// ---------------------------------------------------------------------------
// Laws
// ---------------------------------------------------------------------------

/// Recording a decision takes the request out of the queue, keeps every other
/// request, and appends exactly one history entry naming the request.
pub proof fn law_record_decision(m: ApprovalModel, id: Seq<char>, d: ApprovalDecision, now: u64)
    ensures
        !approval_ids(m.record_decision(id, d, now).pending_approvals).contains(id),
        forall|a: PendingApproval|
            m.pending_approvals.contains(a) && a.request_id@ != id ==> m.record_decision(
                id,
                d,
                now,
            ).pending_approvals.contains(a),
        m.record_decision(id, d, now).decision_history.len() == m.decision_history.len() + 1,
        m.record_decision(id, d, now).decision_history.last().request_id == id,
        m.record_decision(id, d, now).decision_history.last().outcome == decision_label(d),
        m.record_decision(id, d, now).conversation_log == m.conversation_log,
{
    broadcast use vstd::seq_lib::group_filter_ensures;

    let pred = |a: PendingApproval| a.request_id@ != id;
    let kept = m.pending_approvals.filter(pred);
    if approval_ids(kept).contains(id) {
        let k = choose|k: int| 0 <= k < approval_ids(kept).len() && approval_ids(kept)[k] == id;
        assert(pred(kept[k]));
    }
    assert forall|a: PendingApproval|
        m.pending_approvals.contains(a) && a.request_id@ != id implies kept.contains(a) by {
        let j = choose|j: int| 0 <= j < m.pending_approvals.len() && m.pending_approvals[j] == a;
        m.pending_approvals.lemma_filter_contains(pred, j);
    }
}

/// The NPC name recorded for a pending request is the one it was queued with.
pub proof fn law_decision_names_npc(m: ApprovalModel, a: PendingApproval, d: ApprovalDecision, now: u64)
    requires
        !approval_ids(m.pending_approvals).contains(a.request_id@),
    ensures
        m.with_approvals(m.pending_approvals.push(a)).record_decision(
            a.request_id@,
            d,
            now,
        ).decision_history.last().npc_name == a.npc_name@,
{
    let s = m.pending_approvals.push(a);
    let id = a.request_id@;
    lemma_find_key(approval_ids(s), id);
    assert(approval_ids(s)[s.len() - 1] == id);
    match find_key(approval_ids(s), id) {
        Some(j) => {
            if j < s.len() - 1 {
                assert(approval_ids(m.pending_approvals)[j] == id);
            }
        },
        None => {},
    }
}

/// After removing an outcome none with that ID is left; updating suggestions
/// of a queued outcome stores them and clears the "generating" flag.
pub proof fn law_outcome_updates(m: ApprovalModel, id: Seq<char>, suggestions: Vec<String>)
    ensures
        !resolution_ids(m.remove_outcome(id).pending_challenge_outcomes).contains(id),
        resolution_ids(m.pending_challenge_outcomes).contains(id) ==> ({
            let after = m.update_outcome(id, Some(Some(suggestions)), None, false);
            let i = find_key(resolution_ids(m.pending_challenge_outcomes), id)->0;
            &&& after.pending_challenge_outcomes[i].suggestions == Some(suggestions)
            &&& !after.pending_challenge_outcomes[i].is_generating_suggestions
            &&& after.pending_challenge_outcomes.len() == m.pending_challenge_outcomes.len()
        }),
{
    broadcast use vstd::seq_lib::group_filter_ensures;

    let pred = |o: PendingChallengeOutcome| o.resolution_id@ != id;
    let kept = m.pending_challenge_outcomes.filter(pred);
    if resolution_ids(kept).contains(id) {
        let k = choose|k: int| 0 <= k < resolution_ids(kept).len() && resolution_ids(kept)[k] == id;
        assert(pred(kept[k]));
    }
    lemma_find_key(resolution_ids(m.pending_challenge_outcomes), id);
    crate::seqs::lemma_find_key_contains(resolution_ids(m.pending_challenge_outcomes), id);
}


/// A decision is recorded under its own label ("accepted", "modified",
/// "rejected", "takeover") at the time it is made, under the NPC of the
/// request or "Unknown" when no such request is pending; the pending
/// challenge outcomes stay.
pub proof fn law_decision_labels(m: ApprovalModel, id: Seq<char>, d: ApprovalDecision, now: u64)
    ensures
        d is Accept ==> m.record_decision(id, d, now).decision_history.last().outcome == "accepted"@,
        d is AcceptWithModification ==> m.record_decision(id, d, now).decision_history.last().outcome == "modified"@,
        d is Reject ==> m.record_decision(id, d, now).decision_history.last().outcome == "rejected"@,
        d is TakeOver ==> m.record_decision(id, d, now).decision_history.last().outcome == "takeover"@,
        m.record_decision(id, d, now).decision_history.last().timestamp == now,
        m.record_decision(id, d, now).decision_history.drop_last() == m.decision_history,
        !approval_ids(m.pending_approvals).contains(id) ==> m.record_decision(id, d, now).decision_history.last().npc_name
            == "Unknown"@,
        m.record_decision(id, d, now).pending_challenge_outcomes == m.pending_challenge_outcomes,
{
    crate::seqs::lemma_find_key_contains(approval_ids(m.pending_approvals), id);
    assert(m.record_decision(id, d, now).decision_history.drop_last() =~= m.decision_history);
}

/// Suggestion updates reach only the first outcome with the ID: it keeps its
/// roll and every other detail, takes the suggestions or branches given
/// (keeping the ones not given) and the "generating" flag; every other
/// outcome stays.
pub proof fn law_outcome_update_keeps_details(
    m: ApprovalModel,
    id: Seq<char>,
    suggestions: Option<Option<Vec<String>>>,
    branches: Option<Option<Vec<OutcomeBranchData>>>,
    generating: bool,
)
    ensures
        ({
            let before = m.pending_challenge_outcomes;
            let after = m.update_outcome(id, suggestions, branches, generating).pending_challenge_outcomes;
            &&& after.len() == before.len()
            &&& forall|k: int|
                0 <= k < before.len() ==> {
                    let o = before[k];
                    let n = #[trigger] after[k];
                    if o.resolution_id@ == id && forall|j: int| 0 <= j < k ==> before[j].resolution_id@ != id {
                        &&& n.resolution_id == o.resolution_id
                        &&& n.challenge_name == o.challenge_name
                        &&& n.character_id == o.character_id
                        &&& n.character_name == o.character_name
                        &&& n.roll == o.roll
                        &&& n.modifier == o.modifier
                        &&& n.total == o.total
                        &&& n.outcome_type == o.outcome_type
                        &&& n.outcome_description == o.outcome_description
                        &&& n.outcome_triggers == o.outcome_triggers
                        &&& n.roll_breakdown == o.roll_breakdown
                        &&& n.timestamp == o.timestamp
                        &&& n.suggestions == (match suggestions {
                            Some(x) => x,
                            None => o.suggestions,
                        })
                        &&& n.branches == (match branches {
                            Some(x) => x,
                            None => o.branches,
                        })
                        &&& n.is_generating_suggestions == generating
                    } else {
                        n == o
                    }
                }
        }),
        m.update_outcome(id, suggestions, branches, generating).pending_approvals == m.pending_approvals,
        m.update_outcome(id, suggestions, branches, generating).conversation_log == m.conversation_log,
{
    let before = m.pending_challenge_outcomes;
    lemma_find_key(resolution_ids(before), id);
    assert forall|j: int| 0 <= j < before.len() implies #[trigger] resolution_ids(before)[j]
        == before[j].resolution_id@ by {}
    match find_key(resolution_ids(before), id) {
        Some(i) => {
            assert forall|j: int| 0 <= j < i implies before[j].resolution_id@ != id by {
                assert(resolution_ids(before)[j] != id);
            }
            assert forall|k: int| 0 <= k < before.len() && k != i && before[k].resolution_id@ == id implies !(forall|
                j: int,
            | 0 <= j < k ==> before[j].resolution_id@ != id) by {
                if k < i {
                    assert(resolution_ids(before)[k] != id);
                } else {
                    assert(0 <= i < k && before[i].resolution_id@ == id);
                }
            }
        },
        None => {
            assert forall|k: int| 0 <= k < before.len() implies before[k].resolution_id@ != id by {
                assert(resolution_ids(before)[k] != id);
            }
        },
    }
}

impl Default for ApprovalState {
    fn default() -> (r: ApprovalState)
        ensures
            r@ == ApprovalModel::empty(),
    {
        ApprovalState::new()
    }
}

/// A fresh approval state has no pending approvals, history, log or pending
/// outcomes.
pub proof fn law_fresh_approvals()
    ensures
        ApprovalModel::empty().pending_approvals.len() == 0,
        ApprovalModel::empty().decision_history.len() == 0,
        ApprovalModel::empty().conversation_log.len() == 0,
        ApprovalModel::empty().pending_challenge_outcomes.len() == 0,
{
}

} // verus!
