//! The modes the DM view and the event chain list switch between, and what
//! the world selection view lists and labels for each role.
use vstd::prelude::*;
use crate::dto::ParticipantRole;
use crate::text::{owned, views};

verus! {

/// The active tab of the DM view.
#[derive(PartialEq, Eq, Structural, Clone, Copy, Debug)]
pub enum DMMode {
    Director,
    Creator,
    StoryArc,
    Settings,
}

impl Default for DMMode {
    /// The DM view opens on the director tab.
    fn default() -> (r: DMMode)
        ensures
            r == DMMode::Director,
    {
        DMMode::Director
    }
}

/// Which event chains the list shows.
#[derive(PartialEq, Eq, Structural, Clone, Copy, Debug)]
pub enum ChainFilter {
    All,
    Active,
    Favorites,
}

impl Default for ChainFilter {
    /// The list shows all chains at first.
    fn default() -> (r: ChainFilter)
        ensures
            r == ChainFilter::All,
    {
        ChainFilter::All
    }
}

/// The heading of the world selection view for a role.
pub open spec fn select_title_spec(role: ParticipantRole) -> Seq<char> {
    match role {
        ParticipantRole::DungeonMaster => "Select World"@,
        ParticipantRole::Player => "Join a World"@,
        ParticipantRole::Spectator => "Watch a World"@,
    }
}

/// The line under the heading for a role.
pub open spec fn select_subtitle_spec(role: ParticipantRole) -> Seq<char> {
    match role {
        ParticipantRole::DungeonMaster => "Continue an existing campaign or create a new one"@,
        ParticipantRole::Player => "Choose a world to join as a player"@,
        ParticipantRole::Spectator => "Choose a world to watch"@,
    }
}

/// The label of a world's button: a DM starts or continues a session, a
/// player joins, a spectator watches.
pub open spec fn world_button_label_spec(role: ParticipantRole, has_dm_session: bool) -> Seq<char> {
    match role {
        ParticipantRole::DungeonMaster => if has_dm_session {
            "Continue Session →"@
        } else {
            "Start Session →"@
        },
        ParticipantRole::Player => "Join"@,
        ParticipantRole::Spectator => "Watch"@,
    }
}

/// The heading of the world selection view.
pub fn select_title(role: ParticipantRole) -> (r: String)
    ensures
        r@ == select_title_spec(role),
{
    match role {
        ParticipantRole::DungeonMaster => owned("Select World"),
        ParticipantRole::Player => owned("Join a World"),
        ParticipantRole::Spectator => owned("Watch a World"),
    }
}

/// The line under the heading.
pub fn select_subtitle(role: ParticipantRole) -> (r: String)
    ensures
        r@ == select_subtitle_spec(role),
{
    match role {
        ParticipantRole::DungeonMaster => owned("Continue an existing campaign or create a new one"),
        ParticipantRole::Player => owned("Choose a world to join as a player"),
        ParticipantRole::Spectator => owned("Choose a world to watch"),
    }
}

/// The heading of the world list: the DM's own worlds, or the worlds open to
/// join or watch.
pub fn world_list_heading(is_dm: bool) -> (r: String)
    ensures
        r@ == if is_dm { "Your Worlds"@ } else { "Available Worlds"@ },
{
    if is_dm {
        owned("Your Worlds")
    } else {
        owned("Available Worlds")
    }
}

/// The two lines shown when the list is empty: for a DM, that there is no
/// world yet and a hint to create one; for others, that none is available
/// and a hint to ask the DM.
pub fn empty_world_list_text(is_dm: bool) -> (r: (String, String))
    ensures
        is_dm ==> r.0@ == "No worlds yet."@ && r.1@ == "Create your first world to get started!"@,
        !is_dm ==> r.0@ == "No worlds available."@ && r.1@ == "Ask your DM to create a world first."@,
{
    if is_dm {
        (owned("No worlds yet."), owned("Create your first world to get started!"))
    } else {
        (owned("No worlds available."), owned("Ask your DM to create a world first."))
    }
}

/// The label of a world's button.
pub fn world_button_label(role: ParticipantRole, has_dm_session: bool) -> (r: String)
    ensures
        r@ == world_button_label_spec(role, has_dm_session),
{
    match role {
        ParticipantRole::DungeonMaster => if has_dm_session {
            owned("Continue Session →")
        } else {
            owned("Start Session →")
        },
        ParticipantRole::Player => owned("Join"),
        ParticipantRole::Spectator => owned("Watch"),
    }
}

/// An active session of a world, with the DM who runs it.
pub struct ActiveSession {
    pub world_id: String,
    pub dm_user_id: String,
}

/// Whether some session of `sessions` belongs to the world `world_id`.
pub open spec fn world_has_session(sessions: Seq<ActiveSession>, world_id: Seq<char>) -> bool {
    exists|k: int| 0 <= k < sessions.len() && #[trigger] sessions[k].world_id@ == world_id
}

/// A world that has an active session.
pub open spec fn in_session(sessions: Seq<ActiveSession>) -> spec_fn(Seq<char>) -> bool {
    |w: Seq<char>| world_has_session(sessions, w)
}

/// Whether the world `world_id` has an active session.
pub fn has_session(sessions: &Vec<ActiveSession>, world_id: &String) -> (r: bool)
    ensures
        r == world_has_session(sessions@, world_id@),
{
    let mut k: usize = 0;
    while k < sessions.len()
        invariant
            k <= sessions@.len(),
            forall|m: int| 0 <= m < k ==> #[trigger] sessions@[m].world_id@ != world_id@,
        decreases sessions.len() - k,
    {
        if sessions[k].world_id == *world_id {
            return true;
        }
        k = k + 1;
    }
    false
}

/// Whether the DM `user_id` already runs a session of the world `world_id`
/// (its button then continues that session).
pub fn has_dm_session(sessions: &Vec<ActiveSession>, world_id: &String, user_id: &String) -> (r: bool)
    ensures
        r == exists|k: int|
            0 <= k < sessions@.len() && #[trigger] sessions@[k].world_id@ == world_id@
                && sessions@[k].dm_user_id@ == user_id@,
{
    let mut k: usize = 0;
    while k < sessions.len()
        invariant
            k <= sessions@.len(),
            forall|m: int|
                0 <= m < k ==> !(#[trigger] sessions@[m].world_id@ == world_id@ && sessions@[m].dm_user_id@ == user_id@),
        decreases sessions.len() - k,
    {
        if sessions[k].world_id == *world_id && sessions[k].dm_user_id == *user_id {
            return true;
        }
        k = k + 1;
    }
    false
}

/// The worlds the list shows, by ID: every world for a DM (who can start a
/// session), only the worlds with an active session for players and
/// spectators; in the order given.
pub fn visible_worlds(is_dm: bool, world_ids: &Vec<String>, sessions: &Vec<ActiveSession>) -> (r: Vec<String>)
    ensures
        is_dm ==> views(r@) == views(world_ids@),
        !is_dm ==> views(r@) == views(world_ids@).filter(in_session(sessions@)),
{
    let ghost p = in_session(sessions@);
    let mut r: Vec<String> = Vec::new();
    let mut i: usize = 0;
    assert(views(world_ids@).take(0) =~= Seq::<Seq<char>>::empty());
    proof {
        reveal_with_fuel(Seq::<_>::filter, 1);
    }
    while i < world_ids.len()
        invariant
            i <= world_ids@.len(),
            p == in_session(sessions@),
            is_dm ==> views(r@) == views(world_ids@).take(i as int),
            !is_dm ==> views(r@) == views(world_ids@).take(i as int).filter(p),
        decreases world_ids.len() - i,
    {
        proof {
            crate::seqs::lemma_filter_step(views(world_ids@), i as int, p);
        }
        let ghost before = r@;
        assert(views(world_ids@).take(i + 1) =~= views(world_ids@).take(i as int).push(world_ids@[i as int]@));
        if is_dm || has_session(sessions, &world_ids[i]) {
            r.push(world_ids[i].clone());
            assert(views(r@) =~= views(before).push(world_ids@[i as int]@));
        }
        i = i + 1;
    }
    assert(views(world_ids@).take(world_ids@.len() as int) =~= views(world_ids@));
    r
}

/// What each role reads on the world selection view: a DM selects a world
/// and continues or starts a session on it, a player joins one, a spectator
/// watches one.
pub proof fn law_world_select_labels(has_dm_session: bool)
    ensures
        select_title_spec(ParticipantRole::DungeonMaster) == "Select World"@,
        select_title_spec(ParticipantRole::Player) == "Join a World"@,
        select_title_spec(ParticipantRole::Spectator) == "Watch a World"@,
        select_subtitle_spec(ParticipantRole::DungeonMaster) == "Continue an existing campaign or create a new one"@,
        select_subtitle_spec(ParticipantRole::Player) == "Choose a world to join as a player"@,
        select_subtitle_spec(ParticipantRole::Spectator) == "Choose a world to watch"@,
        world_button_label_spec(ParticipantRole::DungeonMaster, true) == "Continue Session →"@,
        world_button_label_spec(ParticipantRole::DungeonMaster, false) == "Start Session →"@,
        world_button_label_spec(ParticipantRole::Player, has_dm_session) == "Join"@,
        world_button_label_spec(ParticipantRole::Spectator, has_dm_session) == "Watch"@,
{
}

/// A world has a session exactly when some session names it.
pub proof fn law_world_in_session(sessions: Seq<ActiveSession>, world_id: Seq<char>, k: int)
    ensures
        (0 <= k < sessions.len() && sessions[k].world_id@ == world_id) ==> in_session(sessions)(world_id),
        sessions.len() == 0 ==> !in_session(sessions)(world_id),
{
}

} // verus!
