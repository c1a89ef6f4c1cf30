//! Challenge state: the active challenge prompt, recent results, the player's
//! skills and the status of a submitted roll.
use vstd::prelude::*;
use crate::copy::copy_opt_string;
use crate::dto::opt_str;
use crate::skills::PlayerSkillData;

verus! {

/// Challenge prompt shown to the player.
pub struct ChallengePromptData {
    pub challenge_id: String,
    pub challenge_name: String,
    pub skill_name: String,
    /// Difficulty display (e.g. "DC 12", "Very Hard").
    pub difficulty_display: String,
    pub description: String,
    /// The character's skill modifier for this challenge.
    pub character_modifier: i32,
    /// Suggested dice formula (e.g. "1d20", "2d6").
    pub suggested_dice: Option<String>,
    /// Hint about the rule system.
    pub rule_system_hint: Option<String>,
}

/// A challenge result for display.
pub struct ChallengeResultData {
    pub challenge_name: String,
    pub character_name: String,
    pub roll: i32,
    pub modifier: i32,
    pub total: i32,
    /// "success", "failure", "critical_success", ...
    pub outcome: String,
    pub outcome_description: String,
    pub timestamp: u64,
    /// Roll breakdown (e.g. "1d20(14) + 3 = 17" or "Manual: 18").
    pub roll_breakdown: Option<String>,
    /// Individual dice results when rolled with a formula.
    pub individual_rolls: Option<Vec<i32>>,
}

/// What a challenge result says, by the characters of its strings.
pub struct ResultView {
    pub challenge_name: Seq<char>,
    pub character_name: Seq<char>,
    pub roll: i32,
    pub modifier: i32,
    pub total: i32,
    pub outcome: Seq<char>,
    pub outcome_description: Seq<char>,
    pub timestamp: u64,
    pub roll_breakdown: Option<Seq<char>>,
    pub individual_rolls: Option<Seq<i32>>,
}

impl View for ChallengeResultData {
    type V = ResultView;

    open spec fn view(&self) -> ResultView {
        ResultView {
            challenge_name: self.challenge_name@,
            character_name: self.character_name@,
            roll: self.roll,
            modifier: self.modifier,
            total: self.total,
            outcome: self.outcome@,
            outcome_description: self.outcome_description@,
            timestamp: self.timestamp,
            roll_breakdown: opt_str(self.roll_breakdown),
            individual_rolls: match self.individual_rolls {
                Some(v) => Some(v@),
                None => None,
            },
        }
    }
}

/// An exact copy of a challenge result.
pub fn copy_result(r: &ChallengeResultData) -> (c: ChallengeResultData)
    ensures
        c@ == r@,
{
    ChallengeResultData {
        challenge_name: r.challenge_name.clone(),
        character_name: r.character_name.clone(),
        roll: r.roll,
        modifier: r.modifier,
        total: r.total,
        outcome: r.outcome.clone(),
        outcome_description: r.outcome_description.clone(),
        timestamp: r.timestamp,
        roll_breakdown: copy_opt_string(&r.roll_breakdown),
        individual_rolls: match &r.individual_rolls {
            Some(v) => {
                let mut c: Vec<i32> = Vec::new();
                let mut i: usize = 0;
                while i < v.len()
                    invariant
                        i <= v.len(),
                        c@ =~= v@.take(i as int),
                    decreases v.len() - i,
                {
                    c.push(v[i]);
                    i = i + 1;
                }
                assert(v@.take(v.len() as int) =~= v@);
                Some(c)
            },
            None => None,
        },
    }
}

/// What a roll submission status says.
pub enum RollStatusView {
    NotSubmitted,
    AwaitingApproval { roll: i32, modifier: i32, total: i32, outcome_type: Seq<char> },
    ResultReady(ResultView),
    Dismissed,
}

/// Where a submitted roll stands in DM approval.
pub enum RollSubmissionStatus {
    /// No roll has been submitted.
    NotSubmitted,
    /// Roll submitted, waiting for DM approval.
    AwaitingApproval { roll: i32, modifier: i32, total: i32, outcome_type: String },
    /// Result received and ready to display.
    ResultReady(ChallengeResultData),
    /// Result has been displayed.
    Dismissed,
}

impl View for RollSubmissionStatus {
    type V = RollStatusView;

    open spec fn view(&self) -> RollStatusView {
        match *self {
            RollSubmissionStatus::NotSubmitted => RollStatusView::NotSubmitted,
            RollSubmissionStatus::AwaitingApproval { roll, modifier, total, outcome_type } =>
                RollStatusView::AwaitingApproval { roll, modifier, total, outcome_type: outcome_type@ },
            RollSubmissionStatus::ResultReady(r) => RollStatusView::ResultReady(r@),
            RollSubmissionStatus::Dismissed => RollStatusView::Dismissed,
        }
    }
}

impl Default for RollSubmissionStatus {
    fn default() -> (r: RollSubmissionStatus)
        ensures
            r is NotSubmitted,
    {
        RollSubmissionStatus::NotSubmitted
    }
}

/// The abstract challenge state.
pub struct ChallengeModel {
    pub active_challenge: Option<ChallengePromptData>,
    pub challenge_results: Seq<ResultView>,
    pub player_skills: Seq<PlayerSkillData>,
    pub roll_status: RollStatusView,
}

impl ChallengeModel {
    /// Nothing active, no results, no skills, nothing submitted.
    pub open spec fn empty() -> ChallengeModel {
        ChallengeModel {
            active_challenge: None,
            challenge_results: Seq::empty(),
            player_skills: Seq::empty(),
            roll_status: RollStatusView::NotSubmitted,
        }
    }
}

/// Challenge state for skill challenges.
pub struct ChallengeState {
    /// Active challenge prompt, if any.
    pub active_challenge: Option<ChallengePromptData>,
    /// Recent challenge results.
    pub challenge_results: Vec<ChallengeResultData>,
    /// The player character's skills.
    pub player_skills: Vec<PlayerSkillData>,
    /// Status of the roll for the active challenge.
    pub roll_status: RollSubmissionStatus,
}

impl View for ChallengeState {
    type V = ChallengeModel;

    open spec fn view(&self) -> ChallengeModel {
        ChallengeModel {
            active_challenge: self.active_challenge,
            challenge_results: self.challenge_results@.map_values(|r: ChallengeResultData| r@),
            player_skills: self.player_skills@,
            roll_status: self.roll_status@,
        }
    }
}

impl ChallengeState {
    /// An empty challenge state.
    pub fn new() -> (r: ChallengeState)
        ensures
            r@ == ChallengeModel::empty(),
    {
        let r = ChallengeState {
            active_challenge: None,
            challenge_results: Vec::new(),
            player_skills: Vec::new(),
            roll_status: RollSubmissionStatus::NotSubmitted,
        };
        assert(r@.challenge_results =~= Seq::<ResultView>::empty());
        r
    }

    /// Sets the active challenge prompt.
    pub fn set_active_challenge(&mut self, challenge: ChallengePromptData)
        ensures
            final(self)@ == (ChallengeModel { active_challenge: Some(challenge), ..old(self)@ }),
    {
        self.active_challenge = Some(challenge);
    }

    /// Clears the active challenge.
    pub fn clear_active_challenge(&mut self)
        ensures
            final(self)@ == (ChallengeModel { active_challenge: None, ..old(self)@ }),
    {
        self.active_challenge = None;
    }

    /// Appends a challenge result.
    pub fn add_challenge_result(&mut self, result: ChallengeResultData)
        ensures
            final(self)@ == (ChallengeModel {
                challenge_results: old(self)@.challenge_results.push(result@),
                ..old(self)@
            }),
    {
        self.challenge_results.push(result);
        assert(self@.challenge_results =~= old(self)@.challenge_results.push(result@));
    }

    /// Replaces the player's skills.
    pub fn set_player_skills(&mut self, skills: Vec<PlayerSkillData>)
        ensures
            final(self)@ == (ChallengeModel { player_skills: skills@, ..old(self)@ }),
    {
        self.player_skills = skills;
    }

    /// Appends a player skill.
    pub fn add_player_skill(&mut self, skill: PlayerSkillData)
        ensures
            final(self)@ == (ChallengeModel {
                player_skills: old(self)@.player_skills.push(skill),
                ..old(self)@
            }),
    {
        self.player_skills.push(skill);
    }

    /// Clears all challenge state.
    pub fn clear(&mut self)
        ensures
            final(self)@ == ChallengeModel::empty(),
    {
        self.active_challenge = None;
        self.challenge_results = Vec::new();
        self.player_skills = Vec::new();
        self.roll_status = RollSubmissionStatus::NotSubmitted;
        assert(self@.challenge_results =~= Seq::<ResultView>::empty());
    }

    /// The roll now awaits DM approval.
    pub fn set_awaiting_approval(&mut self, roll: i32, modifier: i32, total: i32, outcome_type: String)
        ensures
            final(self)@ == (ChallengeModel {
                roll_status: RollStatusView::AwaitingApproval {
                    roll,
                    modifier,
                    total,
                    outcome_type: outcome_type@,
                },
                ..old(self)@
            }),
    {
        self.roll_status = RollSubmissionStatus::AwaitingApproval { roll, modifier, total, outcome_type };
    }

    /// The result is ready to display.
    pub fn set_result_ready(&mut self, result: ChallengeResultData)
        ensures
            final(self)@ == (ChallengeModel {
                roll_status: RollStatusView::ResultReady(result@),
                ..old(self)@
            }),
    {
        self.roll_status = RollSubmissionStatus::ResultReady(result);
    }

    /// The result has been dismissed.
    pub fn dismiss_result(&mut self)
        ensures
            final(self)@ == (ChallengeModel { roll_status: RollStatusView::Dismissed, ..old(self)@ }),
    {
        self.roll_status = RollSubmissionStatus::Dismissed;
    }

    /// Back to "nothing submitted".
    pub fn clear_roll_status(&mut self)
        ensures
            final(self)@ == (ChallengeModel {
                roll_status: RollStatusView::NotSubmitted,
                ..old(self)@
            }),
    {
        self.roll_status = RollSubmissionStatus::NotSubmitted;
    }
}

impl Default for ChallengeState {
    fn default() -> (r: ChallengeState)
        ensures
            r@ == ChallengeModel::empty(),
    {
        ChallengeState::new()
    }
}

/// A fresh challenge state has no active challenge, no results, no skills and
/// nothing submitted.
pub proof fn law_fresh_challenges()
    ensures
        ChallengeModel::empty().active_challenge is None,
        ChallengeModel::empty().challenge_results.len() == 0,
        ChallengeModel::empty().player_skills.len() == 0,
        ChallengeModel::empty().roll_status == RollStatusView::NotSubmitted,
{
}

} // verus!
