//! The director view's decisions: what "Accept Modified" sends in the
//! approval popup, and which challenges the trigger panel offers.
use vstd::prelude::*;
use crate::dto::{ApprovalDecision, ProposedTool};
use crate::text::{str_eq, views};

verus! {

/// The IDs of `tools`, in order.
pub open spec fn tool_ids(tools: Seq<ProposedTool>) -> Seq<Seq<char>> {
    tools.map_values(|t: ProposedTool| t.id@)
}

/// A tool the DM left checked (every tool starts checked).
pub open spec fn kept(unchecked: Seq<Seq<char>>) -> spec_fn(ProposedTool) -> bool {
    |t: ProposedTool| !unchecked.contains(t.id@)
}

/// A tool the DM unchecked.
pub open spec fn dropped(unchecked: Seq<Seq<char>>) -> spec_fn(ProposedTool) -> bool {
    |t: ProposedTool| unchecked.contains(t.id@)
}

/// The IDs of the tools that pass `keep`, in order.
fn ids_where(tools: &Vec<ProposedTool>, unchecked: &Vec<String>, want_unchecked: bool) -> (r: Vec<String>)
    ensures
        views(r@) == tool_ids(
            tools@.filter(if want_unchecked { dropped(views(unchecked@)) } else { kept(views(unchecked@)) }),
        ),
{
    let ghost pred = if want_unchecked { dropped(views(unchecked@)) } else { kept(views(unchecked@)) };
    let mut r: Vec<String> = Vec::new();
    let mut i: usize = 0;
    proof {
        reveal_with_fuel(Seq::<_>::filter, 1);
    }
    assert(tools@.take(0) =~= Seq::<ProposedTool>::empty());
    while i < tools.len()
        invariant
            pred == (if want_unchecked { dropped(views(unchecked@)) } else { kept(views(unchecked@)) }),
            i <= tools@.len(),
            views(r@) == tool_ids(tools@.take(i as int).filter(pred)),
        decreases tools.len() - i,
    {
        proof {
            crate::seqs::lemma_filter_step(tools@, i as int, pred);
        }
        let listed = contains_id(unchecked, &tools[i].id);
        if listed == want_unchecked {
            let ghost before = r@;
            r.push(tools[i].id.clone());
            assert(views(r@) =~= views(before).push(tools@[i as int].id@));
            assert(tool_ids(tools@.take(i + 1).filter(pred)) =~= tool_ids(tools@.take(i as int).filter(pred)).push(
                tools@[i as int].id@,
            ));
        }
        i = i + 1;
    }
    assert(tools@.take(tools@.len() as int) =~= tools@);
    r
}

/// Whether `ids` holds `id`.
fn contains_id(ids: &Vec<String>, id: &String) -> (r: bool)
    ensures
        r == views(ids@).contains(id@),
{
    let mut k: usize = 0;
    while k < ids.len()
        invariant
            k <= ids@.len(),
            forall|m: int| 0 <= m < k ==> #[trigger] views(ids@)[m] != id@,
        decreases ids.len() - k,
    {
        if ids[k] == *id {
            assert(views(ids@)[k as int] == id@);
            return true;
        }
        k = k + 1;
    }
    false
}

/// The decision "Accept Modified" sends: when the dialogue was edited or a
/// tool unchecked, the edited dialogue with the checked tools approved and
/// the unchecked ones rejected (each in the order proposed); otherwise a
/// plain acceptance.
pub fn modified_approval_decision(
    proposed_dialogue: &str,
    dialogue: String,
    tools: &Vec<ProposedTool>,
    unchecked: &Vec<String>,
) -> (d: ApprovalDecision)
    ensures
        (dialogue@ != proposed_dialogue@ || unchecked@.len() > 0) ==> (d matches ApprovalDecision::AcceptWithModification {
            modified_dialogue,
            approved_tools,
            rejected_tools,
        } && {
            &&& modified_dialogue == dialogue
            &&& views(approved_tools@) == tool_ids(tools@.filter(kept(views(unchecked@))))
            &&& views(rejected_tools@) == tool_ids(tools@.filter(dropped(views(unchecked@))))
        }),
        !(dialogue@ != proposed_dialogue@ || unchecked@.len() > 0) ==> d is Accept,
{
    if !str_eq(dialogue.as_str(), proposed_dialogue) || unchecked.len() > 0 {
        let approved_tools = ids_where(tools, unchecked, false);
        let rejected_tools = ids_where(tools, unchecked, true);
        ApprovalDecision::AcceptWithModification { modified_dialogue: dialogue, approved_tools, rejected_tools }
    } else {
        ApprovalDecision::Accept
    }
}


/// Every proposed tool ends up in exactly one of the approved and rejected
/// lists: together they are as many as the tools proposed.
pub proof fn law_tools_partition(tools: Seq<ProposedTool>, unchecked: Seq<Seq<char>>)
    ensures
        tools.filter(kept(unchecked)).len() + tools.filter(dropped(unchecked)).len() == tools.len(),
    decreases tools.len(),
{
    reveal_with_fuel(Seq::<_>::filter, 1);
    if tools.len() > 0 {
        law_tools_partition(tools.drop_last(), unchecked);
    }
}

/// A challenge of the world's challenge library, as the director view reads it.
pub struct ChallengeData {
    pub id: String,
    pub name: String,
    pub description: String,
    pub active: bool,
}

/// A challenge the DM has activated.
pub open spec fn is_active() -> spec_fn(ChallengeData) -> bool {
    |c: ChallengeData| c.active
}

/// An exact copy of a challenge.
pub fn copy_challenge(c: &ChallengeData) -> (r: ChallengeData)
    ensures
        r == *c,
{
    ChallengeData {
        id: c.id.clone(),
        name: c.name.clone(),
        description: c.description.clone(),
        active: c.active,
    }
}

/// The challenges that can be triggered: the active ones, in library order.
pub fn active_challenges(challenges: &Vec<ChallengeData>) -> (r: Vec<ChallengeData>)
    ensures
        r@ == challenges@.filter(is_active()),
{
    let mut r: Vec<ChallengeData> = Vec::new();
    let mut i: usize = 0;
    assert(challenges@.take(0) =~= Seq::<ChallengeData>::empty());
    proof {
        reveal_with_fuel(Seq::<_>::filter, 1);
    }
    while i < challenges.len()
        invariant
            i <= challenges@.len(),
            r@ == challenges@.take(i as int).filter(is_active()),
        decreases challenges.len() - i,
    {
        proof {
            crate::seqs::lemma_filter_step(challenges@, i as int, is_active());
        }
        if challenges[i].active {
            r.push(copy_challenge(&challenges[i]));
        }
        i = i + 1;
    }
    assert(challenges@.take(challenges@.len() as int) =~= challenges@);
    r
}

/// What the trigger-challenge panel shows.
pub enum TriggerPanel {
    /// No challenge is active: the panel points to the challenge library.
    NoActiveChallenges,
    /// The active challenges to pick from.
    Choose { challenges: Vec<ChallengeData> },
}

/// The trigger-challenge panel: the active challenges to pick from, or, when
/// none is active, the hint to activate some in the library first.
pub fn trigger_panel(challenges: &Vec<ChallengeData>) -> (r: TriggerPanel)
    ensures
        challenges@.filter(is_active()).len() == 0 <==> r is NoActiveChallenges,
        r matches TriggerPanel::Choose { challenges: c } ==> c@ == challenges@.filter(is_active()),
{
    let active = active_challenges(challenges);
    if active.len() == 0 {
        TriggerPanel::NoActiveChallenges
    } else {
        TriggerPanel::Choose { challenges: active }
    }
}

/// "Accept Modified" approves exactly the tools the DM left checked and
/// rejects exactly the ones unchecked: a tool is among the approved ones
/// when its ID was not unchecked, among the rejected ones when it was.
pub proof fn law_tools_by_check(tools: Seq<ProposedTool>, unchecked: Seq<Seq<char>>, t: ProposedTool)
    ensures
        tools.filter(kept(unchecked)).contains(t) <==> (tools.contains(t) && !unchecked.contains(t.id@)),
        tools.filter(dropped(unchecked)).contains(t) <==> (tools.contains(t) && unchecked.contains(t.id@)),
{
    lemma_filter_has(tools, kept(unchecked), t);
    lemma_filter_has(tools, dropped(unchecked), t);
}

/// An element is kept by a filter exactly when it occurs and passes.
proof fn lemma_filter_has<A>(s: Seq<A>, p: spec_fn(A) -> bool, x: A)
    ensures
        s.filter(p).contains(x) <==> (s.contains(x) && p(x)),
{
    if s.filter(p).contains(x) {
        s.lemma_filter_contains_rev(p, x);
    }
    if s.contains(x) && p(x) {
        let i = choose|i: int| 0 <= i < s.len() && s[i] == x;
        s.lemma_filter_contains(p, i);
    }
}

/// The trigger panel offers only active challenges, and every active
/// challenge of the library.
pub proof fn law_active_challenges(challenges: Seq<ChallengeData>, c: ChallengeData)
    ensures
        challenges.filter(is_active()).contains(c) <==> (challenges.contains(c) && c.active),
{
    lemma_filter_has(challenges, is_active(), c);
}

} // verus!
