//! Data carried between the Engine and the presentation state: scenes,
//! characters, navigation, approval requests and their suggestions.
use vstd::prelude::*;
use crate::seqs::{find_key, lemma_find_key};

verus! {

/// Role of a session participant.
pub enum ParticipantRole {
    DungeonMaster,
    Player,
    Spectator,
}

/// A participant listed when joining a session.
pub struct ParticipantInfo {
    pub user_id: String,
    pub role: ParticipantRole,
    pub character_name: Option<String>,
}

/// A tool call proposed by the LLM.
pub struct ProposedTool {
    pub id: String,
    pub name: String,
    pub description: String,
    /// Arguments, as JSON text.
    pub arguments: String,
}

/// One possible challenge outcome as proposed by the Engine.
pub struct OutcomeDetailData {
    pub flavor_text: String,
    pub scene_direction: String,
    pub proposed_tools: Vec<ProposedTool>,
}

/// The outcomes proposed for a challenge, by outcome type.
pub struct ChallengeOutcomesData {
    pub success: Option<OutcomeDetailData>,
    pub failure: Option<OutcomeDetailData>,
    pub critical_success: Option<OutcomeDetailData>,
    pub critical_failure: Option<OutcomeDetailData>,
}

/// A challenge suggested alongside an approval request.
pub struct ChallengeSuggestionInfo {
    pub challenge_id: String,
    pub challenge_name: String,
    pub skill_name: String,
    pub difficulty_display: String,
    pub confidence: String,
    pub reasoning: String,
    pub outcomes: Option<ChallengeOutcomesData>,
}

/// A narrative event suggested alongside an approval request.
pub struct NarrativeEventSuggestionInfo {
    pub event_id: String,
    pub event_name: String,
    pub description: String,
    pub scene_direction: String,
    pub confidence: String,
    pub reasoning: String,
    pub matched_triggers: Vec<String>,
    pub suggested_outcome: Option<String>,
}

/// An LLM-generated outcome branch offered to the DM.
pub struct OutcomeBranchData {
    pub id: String,
    pub title: String,
    pub description: String,
    pub effects: Vec<String>,
}

/// A dialogue choice offered to the player.
pub struct DialogueChoice {
    pub id: String,
    pub text: String,
    pub is_custom_input: bool,
}

/// Where a character stands on screen.
pub enum CharacterPosition {
    Left,
    Center,
    Right,
    OffScreen,
}

/// The scene currently shown.
pub struct SceneData {
    pub id: String,
    pub name: String,
    pub location_id: String,
    pub location_name: String,
    pub backdrop_asset: Option<String>,
    pub time_context: String,
    pub directorial_notes: String,
}

/// What a scene says, by the characters of its strings.
pub struct SceneView {
    pub id: Seq<char>,
    pub name: Seq<char>,
    pub location_id: Seq<char>,
    pub location_name: Seq<char>,
    pub backdrop_asset: Option<Seq<char>>,
    pub time_context: Seq<char>,
    pub directorial_notes: Seq<char>,
}

/// The view of an optional string.
pub open spec fn opt_str(s: Option<String>) -> Option<Seq<char>> {
    match s {
        Some(v) => Some(v@),
        None => None,
    }
}

impl View for SceneData {
    type V = SceneView;

    open spec fn view(&self) -> SceneView {
        SceneView {
            id: self.id@,
            name: self.name@,
            location_id: self.location_id@,
            location_name: self.location_name@,
            backdrop_asset: opt_str(self.backdrop_asset),
            time_context: self.time_context@,
            directorial_notes: self.directorial_notes@,
        }
    }
}

/// What a scene character says, by the characters of its strings.
pub struct CharacterView {
    pub id: Seq<char>,
    pub name: Seq<char>,
    pub sprite_asset: Option<Seq<char>>,
    pub portrait_asset: Option<Seq<char>>,
    pub position: CharacterPosition,
    pub is_speaking: bool,
    pub emotion: Seq<char>,
}

impl View for CharacterData {
    type V = CharacterView;

    open spec fn view(&self) -> CharacterView {
        CharacterView {
            id: self.id@,
            name: self.name@,
            sprite_asset: opt_str(self.sprite_asset),
            portrait_asset: opt_str(self.portrait_asset),
            position: self.position,
            is_speaking: self.is_speaking,
            emotion: self.emotion@,
        }
    }
}

/// The views of a sequence of scene characters.
pub open spec fn character_views(s: Seq<CharacterData>) -> Seq<CharacterView> {
    s.map_values(|c: CharacterData| c@)
}

/// A character in the current scene.
pub struct CharacterData {
    pub id: String,
    pub name: String,
    pub sprite_asset: Option<String>,
    pub portrait_asset: Option<String>,
    pub position: CharacterPosition,
    pub is_speaking: bool,
    pub emotion: String,
}

/// An interaction available in the scene.
pub struct InteractionData {
    pub id: String,
    pub name: String,
    pub interaction_type: String,
    pub target_name: Option<String>,
    pub is_available: bool,
}

/// The region a PC is in.
pub struct RegionData {
    pub id: String,
    pub name: String,
    pub location_id: String,
    pub location_name: String,
    pub backdrop_asset: Option<String>,
    pub atmosphere: Option<String>,
}

/// A region reachable from the current one.
pub struct NavigationTarget {
    pub region_id: String,
    pub name: String,
    pub is_locked: bool,
    pub lock_description: Option<String>,
}

/// An exit to another location.
pub struct NavigationExit {
    pub location_id: String,
    pub location_name: String,
    pub arrival_region_id: String,
    pub description: Option<String>,
}

/// Navigation options from the current region.
pub struct NavigationData {
    pub connected_regions: Vec<NavigationTarget>,
    pub exits: Vec<NavigationExit>,
}

/// An NPC present in the current region.
pub struct NpcPresenceData {
    pub character_id: String,
    pub name: String,
    pub sprite_asset: Option<String>,
    pub portrait_asset: Option<String>,
}

/// A location of the world.
pub struct LocationSnapshot {
    pub id: String,
    pub name: String,
    pub backdrop_asset: Option<String>,
}

/// A scene of the world.
pub struct WorldSceneSnapshot {
    pub id: String,
    pub name: String,
    pub location_id: String,
    pub backdrop_override: Option<String>,
    pub time_context: String,
    pub directorial_notes: String,
    pub featured_characters: Vec<String>,
}

/// A character of the world.
pub struct CharacterSnapshot {
    pub id: String,
    pub name: String,
    pub sprite_asset: Option<String>,
    pub portrait_asset: Option<String>,
}

/// The world data sent when joining a session.
pub struct SessionWorldSnapshot {
    pub world_id: String,
    pub world_name: String,
    pub locations: Vec<LocationSnapshot>,
    pub scenes: Vec<WorldSceneSnapshot>,
    pub characters: Vec<CharacterSnapshot>,
}

/// The IDs of the locations, in order.
pub open spec fn location_ids(s: Seq<LocationSnapshot>) -> Seq<Seq<char>> {
    s.map_values(|l: LocationSnapshot| l.id@)
}

/// The IDs of the characters, in order.
pub open spec fn character_ids(s: Seq<CharacterSnapshot>) -> Seq<Seq<char>> {
    s.map_values(|c: CharacterSnapshot| c.id@)
}

/// The first location of `world` with ID `id`.
pub open spec fn location_in(world: SessionWorldSnapshot, id: Seq<char>) -> Option<LocationSnapshot> {
    match find_key(location_ids(world.locations@), id) {
        Some(i) => Some(world.locations@[i]),
        None => None,
    }
}

impl SessionWorldSnapshot {
    /// Index of the first location with ID `id`.
    pub fn location_index(&self, id: &String) -> (r: Option<usize>)
        ensures
            match r {
                Some(i) => find_key(location_ids(self.locations@), id@) == Some(i as int) && i
                    < self.locations@.len(),
                None => find_key(location_ids(self.locations@), id@) is None,
            },
    {
        let ghost keys = location_ids(self.locations@);
        let mut i: usize = 0;
        while i < self.locations.len()
            invariant
                i <= self.locations.len(),
                keys == location_ids(self.locations@),
                find_key(keys, id@) == crate::seqs::find_from(keys, id@, i as int),
            decreases self.locations.len() - i,
        {
            if self.locations[i].id == *id {
                return Some(i);
            }
            i = i + 1;
        }
        None
    }

    /// The first location with ID `id`.
    pub fn get_location(&self, id: &String) -> (r: Option<&LocationSnapshot>)
        ensures
            match r {
                Some(l) => location_in(*self, id@) == Some(*l),
                None => location_in(*self, id@) is None,
            },
    {
        match self.location_index(id) {
            Some(i) => Some(&self.locations[i]),
            None => None,
        }
    }

    /// Index of the first character with ID `id`.
    pub fn character_index(&self, id: &String) -> (r: Option<usize>)
        ensures
            match r {
                Some(i) => find_key(character_ids(self.characters@), id@) == Some(i as int) && i
                    < self.characters@.len(),
                None => find_key(character_ids(self.characters@), id@) is None,
            },
    {
        let ghost keys = character_ids(self.characters@);
        let mut i: usize = 0;
        while i < self.characters.len()
            invariant
                i <= self.characters.len(),
                keys == character_ids(self.characters@),
                find_key(keys, id@) == crate::seqs::find_from(keys, id@, i as int),
            decreases self.characters.len() - i,
        {
            if self.characters[i].id == *id {
                return Some(i);
            }
            i = i + 1;
        }
        None
    }
}

/// An exact copy of a proposed tool call.
pub fn copy_tool(t: &ProposedTool) -> (r: ProposedTool)
    ensures
        r == *t,
{
    ProposedTool {
        id: t.id.clone(),
        name: t.name.clone(),
        description: t.description.clone(),
        arguments: t.arguments.clone(),
    }
}

/// A copy of a list of proposed tool calls.
pub fn copy_tools(v: &Vec<ProposedTool>) -> (r: Vec<ProposedTool>)
    ensures
        r@ == v@,
{
    let mut r: Vec<ProposedTool> = Vec::new();
    let mut i: usize = 0;
    while i < v.len()
        invariant
            i <= v.len(),
            r@ =~= v@.take(i as int),
        decreases v.len() - i,
    {
        r.push(copy_tool(&v[i]));
        i = i + 1;
    }
    assert(v@.take(v.len() as int) =~= v@);
    r
}

/// Two outcome details agree (tool lists compared element by element).
pub open spec fn detail_eqv(a: OutcomeDetailData, b: OutcomeDetailData) -> bool {
    a.flavor_text == b.flavor_text && a.scene_direction == b.scene_direction && a.proposed_tools@
        == b.proposed_tools@
}

/// A copy of an outcome detail.
pub fn copy_detail(d: &OutcomeDetailData) -> (r: OutcomeDetailData)
    ensures
        detail_eqv(r, *d),
{
    OutcomeDetailData {
        flavor_text: d.flavor_text.clone(),
        scene_direction: d.scene_direction.clone(),
        proposed_tools: copy_tools(&d.proposed_tools),
    }
}

/// How a PC's party is split over locations.
pub struct SplitPartyLocation {
    pub location_id: String,
    pub location_name: String,
    pub pc_count: u32,
}

/// The DM's decision on an approval request.
pub enum ApprovalDecision {
    Accept,
    AcceptWithModification {
        modified_dialogue: String,
        approved_tools: Vec<String>,
        rejected_tools: Vec<String>,
    },
    Reject { feedback: String },
    TakeOver { dm_response: String },
}

/// What the views carry: a scene and a character are seen with each of their
/// fields as they are; an optional string is seen as its text when present;
/// the location found for an ID is a location of the world with that ID, the
/// first one, and none is found exactly when no location has it.
pub proof fn law_views_carry_fields(sc: SceneData, c: CharacterData, o: Option<String>, w: SessionWorldSnapshot, id: Seq<char>)
    ensures
        sc@.id == sc.id@ && sc@.name == sc.name@ && sc@.location_id == sc.location_id@ && sc@.location_name
            == sc.location_name@ && sc@.backdrop_asset == opt_str(sc.backdrop_asset) && sc@.time_context
            == sc.time_context@ && sc@.directorial_notes == sc.directorial_notes@,
        c@.id == c.id@ && c@.name == c.name@ && c@.sprite_asset == opt_str(c.sprite_asset) && c@.portrait_asset
            == opt_str(c.portrait_asset) && c@.position == c.position && c@.is_speaking == c.is_speaking
            && c@.emotion == c.emotion@,
        o matches Some(v) ==> opt_str(o) == Some(v@),
        o is None ==> opt_str(o) is None,
        location_in(w, id) matches Some(l) ==> (l.id@ == id && exists|k: int|
            0 <= k < w.locations@.len() && #[trigger] w.locations@[k] == l && forall|j: int|
                0 <= j < k ==> w.locations@[j].id@ != id),
        location_in(w, id) is None ==> forall|k: int| 0 <= k < w.locations@.len() ==> (#[trigger] w.locations@[k]).id@ != id,
{
    lemma_find_key(location_ids(w.locations@), id);
    assert forall|j: int| 0 <= j < w.locations@.len() implies #[trigger] location_ids(w.locations@)[j]
        == w.locations@[j].id@ by {}
    match find_key(location_ids(w.locations@), id) {
        Some(i) => {
            assert forall|j: int| 0 <= j < i implies w.locations@[j].id@ != id by {
                assert(location_ids(w.locations@)[j] != id);
            }
        },
        None => {
            assert forall|k: int| 0 <= k < w.locations@.len() implies (#[trigger] w.locations@[k]).id@ != id by {
                assert(location_ids(w.locations@)[k] != id);
            }
        },
    }
}

} // verus!
