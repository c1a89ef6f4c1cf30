//! Game state: the loaded world, the current scene and region, navigation,
//! game time and on-screen events.
use vstd::prelude::*;
use crate::copy::copy_opt_string;
use crate::dto::{
    character_views, location_in, CharacterData, CharacterView, SceneView, InteractionData, NavigationData, NpcPresenceData, RegionData,
    SceneData, SessionWorldSnapshot,
};
use crate::state::connection::opt_view;

verus! {

/// Game time display data.
pub struct GameTimeData {
    /// Display string (e.g. "Day 3, 2:30 PM").
    pub display: String,
    /// Time of day (Morning, Afternoon, Evening, Night).
    pub time_of_day: String,
    pub is_paused: bool,
}

/// An NPC approaching the player.
pub struct ApproachEventData {
    pub npc_id: String,
    pub npc_name: String,
    pub npc_sprite: Option<String>,
    pub description: String,
}

/// A location-wide event.
pub struct LocationEventData {
    pub region_id: String,
    pub description: String,
}

/// The abstract game state.
pub struct GameModel {
    pub world: Option<SessionWorldSnapshot>,
    pub current_scene: Option<SceneView>,
    pub scene_characters: Seq<CharacterView>,
    pub interactions: Seq<InteractionData>,
    pub current_region: Option<RegionData>,
    pub navigation: Option<NavigationData>,
    pub npcs_present: Seq<NpcPresenceData>,
    pub selected_pc_id: Option<String>,
    pub game_time: Option<GameTimeData>,
    pub approach_event: Option<ApproachEventData>,
    pub location_event: Option<LocationEventData>,
}

impl GameModel {
    /// Nothing loaded.
    pub open spec fn empty() -> GameModel {
        GameModel {
            world: None,
            current_scene: None,
            scene_characters: Seq::empty(),
            interactions: Seq::empty(),
            current_region: None,
            navigation: None,
            npcs_present: Seq::empty(),
            selected_pc_id: None,
            game_time: None,
            approach_event: None,
            location_event: None,
        }
    }

    /// `apply_scene_update`.
    pub open spec fn scene_update(
        self,
        scene: SceneView,
        characters: Seq<CharacterView>,
        interactions: Seq<InteractionData>,
    ) -> GameModel {
        GameModel {
            current_scene: Some(scene),
            scene_characters: characters,
            interactions,
            ..self
        }
    }

    /// `apply_scene_changed`.
    pub open spec fn scene_changed(
        self,
        pc_id: String,
        region: RegionData,
        npcs: Seq<NpcPresenceData>,
        navigation: NavigationData,
    ) -> GameModel {
        GameModel {
            selected_pc_id: Some(pc_id),
            current_region: Some(region),
            npcs_present: npcs,
            navigation: Some(navigation),
            ..self
        }
    }

    /// `clear_scene`: all scene data gone; the world and selected PC stay.
    pub open spec fn scene_cleared(self) -> GameModel {
        GameModel {
            current_scene: None,
            scene_characters: Seq::empty(),
            interactions: Seq::empty(),
            current_region: None,
            navigation: None,
            npcs_present: Seq::empty(),
            game_time: None,
            approach_event: None,
            location_event: None,
            ..self
        }
    }

    /// The backdrop of the current scene: its own override first, then the
    /// backdrop of its location in the loaded world.
    pub open spec fn backdrop(self) -> Option<Seq<char>> {
        match self.current_scene {
            Some(scene) => match scene.backdrop_asset {
                Some(b) => Some(b),
                None => match self.world {
                    Some(w) => match location_in(w, scene.location_id) {
                        Some(l) => opt_view(l.backdrop_asset),
                        None => None,
                    },
                    None => None,
                },
            },
            None => None,
        }
    }
}

/// Central game state.
pub struct GameState {
    pub world: Option<SessionWorldSnapshot>,
    pub current_scene: Option<SceneData>,
    pub scene_characters: Vec<CharacterData>,
    pub interactions: Vec<InteractionData>,
    pub current_region: Option<RegionData>,
    pub navigation: Option<NavigationData>,
    pub npcs_present: Vec<NpcPresenceData>,
    pub selected_pc_id: Option<String>,
    pub game_time: Option<GameTimeData>,
    pub approach_event: Option<ApproachEventData>,
    pub location_event: Option<LocationEventData>,
}

impl View for GameState {
    type V = GameModel;

    open spec fn view(&self) -> GameModel {
        GameModel {
            world: self.world,
            current_scene: match self.current_scene {
                Some(sc) => Some(sc@),
                None => None,
            },
            scene_characters: character_views(self.scene_characters@),
            interactions: self.interactions@,
            current_region: self.current_region,
            navigation: self.navigation,
            npcs_present: self.npcs_present@,
            selected_pc_id: self.selected_pc_id,
            game_time: self.game_time,
            approach_event: self.approach_event,
            location_event: self.location_event,
        }
    }
}

impl GameState {
    /// An empty game state.
    pub fn new() -> (r: GameState)
        ensures
            r@ == GameModel::empty(),
    {
        let r = GameState {
            world: None,
            current_scene: None,
            scene_characters: Vec::new(),
            interactions: Vec::new(),
            current_region: None,
            navigation: None,
            npcs_present: Vec::new(),
            selected_pc_id: None,
            game_time: None,
            approach_event: None,
            location_event: None,
        };
        assert(r@.scene_characters =~= Seq::<CharacterView>::empty());
        r
    }

    /// Loads a world snapshot.
    pub fn load_world(&mut self, snapshot: SessionWorldSnapshot)
        ensures
            final(self)@ == (GameModel { world: Some(snapshot), ..old(self)@ }),
    {
        self.world = Some(snapshot);
    }

    /// A scene update: scene, characters and interactions replaced.
    pub fn apply_scene_update(
        &mut self,
        scene: SceneData,
        characters: Vec<CharacterData>,
        interactions: Vec<InteractionData>,
    )
        ensures
            final(self)@ == old(self)@.scene_update(scene@, character_views(characters@), interactions@),
    {
        self.current_scene = Some(scene);
        self.scene_characters = characters;
        self.interactions = interactions;
    }

    /// Navigation: selected PC, region, NPCs present and navigation replaced.
    pub fn apply_scene_changed(
        &mut self,
        pc_id: String,
        region: RegionData,
        npcs_present: Vec<NpcPresenceData>,
        navigation: NavigationData,
    )
        ensures
            final(self)@ == old(self)@.scene_changed(pc_id, region, npcs_present@, navigation),
    {
        self.selected_pc_id = Some(pc_id);
        self.current_region = Some(region);
        self.npcs_present = npcs_present;
        self.navigation = Some(navigation);
    }

    /// Sets the game time.
    pub fn apply_game_time_update(&mut self, display: String, time_of_day: String, is_paused: bool)
        ensures
            final(self)@ == (GameModel {
                game_time: Some(GameTimeData { display, time_of_day, is_paused }),
                ..old(self)@
            }),
    {
        self.game_time = Some(GameTimeData { display, time_of_day, is_paused });
    }

    /// An NPC approaches the player.
    pub fn set_approach_event(
        &mut self,
        npc_id: String,
        npc_name: String,
        npc_sprite: Option<String>,
        description: String,
    )
        ensures
            final(self)@ == (GameModel {
                approach_event: Some(ApproachEventData { npc_id, npc_name, npc_sprite, description }),
                ..old(self)@
            }),
    {
        self.approach_event = Some(ApproachEventData { npc_id, npc_name, npc_sprite, description });
    }

    /// The approach event was dismissed.
    pub fn clear_approach_event(&mut self)
        ensures
            final(self)@ == (GameModel { approach_event: None, ..old(self)@ }),
    {
        self.approach_event = None;
    }

    /// A location event happens.
    pub fn set_location_event(&mut self, region_id: String, description: String)
        ensures
            final(self)@ == (GameModel {
                location_event: Some(LocationEventData { region_id, description }),
                ..old(self)@
            }),
    {
        self.location_event = Some(LocationEventData { region_id, description });
    }

    /// The location event was dismissed.
    pub fn clear_location_event(&mut self)
        ensures
            final(self)@ == (GameModel { location_event: None, ..old(self)@ }),
    {
        self.location_event = None;
    }

    /// The backdrop URL for the current scene.
    pub fn backdrop_url(&self) -> (r: Option<String>)
        ensures
            opt_view(r) == self@.backdrop(),
    {
        match &self.current_scene {
            Some(scene) => {
                match &scene.backdrop_asset {
                    Some(b) => {
                        return Some(b.clone());
                    },
                    None => {},
                }
                match &self.world {
                    Some(world) => match world.get_location(&scene.location_id) {
                        Some(location) => copy_opt_string(&location.backdrop_asset),
                        None => None,
                    },
                    None => None,
                }
            },
            None => None,
        }
    }

    /// Clears all scene data.
    pub fn clear_scene(&mut self)
        ensures
            final(self)@ == old(self)@.scene_cleared(),
    {
        self.current_scene = None;
        self.scene_characters = Vec::new();
        self.interactions = Vec::new();
        self.current_region = None;
        self.navigation = None;
        self.npcs_present = Vec::new();
        self.game_time = None;
        self.approach_event = None;
        self.location_event = None;
        assert(self@.scene_characters =~= Seq::<CharacterView>::empty());
    }

    /// Clears all state: the world, the scene and the selected PC; afterwards
    /// it is as `new` made it.
    pub fn clear(&mut self)
        ensures
            final(self)@ == GameModel::empty(),
    {
        self.world = None;
        self.selected_pc_id = None;
        self.clear_scene();
    }
}

impl Default for GameState {
    fn default() -> (r: GameState)
        ensures
            r@ == GameModel::empty(),
    {
        GameState::new()
    }
}

/// The scene's own backdrop wins over its location's; without a scene there
/// is no backdrop, so none after clearing.
pub proof fn law_backdrop(m: GameModel, scene: SceneView, chars: Seq<CharacterView>, inter: Seq<InteractionData>)
    ensures
        scene.backdrop_asset is Some ==> m.scene_update(scene, chars, inter).backdrop()
            == scene.backdrop_asset,
        m.scene_cleared().backdrop() is None,
        m.scene_update(scene, chars, inter).scene_cleared().current_scene is None,
{
}

/// A scene update shows the scene sent with exactly its characters and its
/// interactions (what the action panel offers), and keeps the world, region,
/// navigation, NPCs, selected character, time and events.
pub proof fn law_scene_update(m: GameModel, scene: SceneView, characters: Seq<CharacterView>, interactions: Seq<InteractionData>)
    ensures
        m.scene_update(scene, characters, interactions).current_scene == Some(scene),
        m.scene_update(scene, characters, interactions).scene_characters == characters,
        m.scene_update(scene, characters, interactions).interactions == interactions,
        m.scene_update(scene, characters, interactions).world == m.world,
        m.scene_update(scene, characters, interactions).current_region == m.current_region,
        m.scene_update(scene, characters, interactions).navigation == m.navigation,
        m.scene_update(scene, characters, interactions).npcs_present == m.npcs_present,
        m.scene_update(scene, characters, interactions).selected_pc_id == m.selected_pc_id,
        m.scene_update(scene, characters, interactions).game_time == m.game_time,
        m.scene_update(scene, characters, interactions).approach_event == m.approach_event,
        m.scene_update(scene, characters, interactions).location_event == m.location_event,
{
}

/// Entering a region selects the character sent and shows the region, NPCs
/// and navigation sent; the scene, its characters and interactions, the
/// world, time and events stay.
pub proof fn law_scene_changed(m: GameModel, pc_id: String, region: RegionData, npcs: Seq<NpcPresenceData>, navigation: NavigationData)
    ensures
        m.scene_changed(pc_id, region, npcs, navigation).selected_pc_id == Some(pc_id),
        m.scene_changed(pc_id, region, npcs, navigation).current_region == Some(region),
        m.scene_changed(pc_id, region, npcs, navigation).npcs_present == npcs,
        m.scene_changed(pc_id, region, npcs, navigation).navigation == Some(navigation),
        m.scene_changed(pc_id, region, npcs, navigation).current_scene == m.current_scene,
        m.scene_changed(pc_id, region, npcs, navigation).scene_characters == m.scene_characters,
        m.scene_changed(pc_id, region, npcs, navigation).interactions == m.interactions,
        m.scene_changed(pc_id, region, npcs, navigation).world == m.world,
        m.scene_changed(pc_id, region, npcs, navigation).game_time == m.game_time,
        m.scene_changed(pc_id, region, npcs, navigation).approach_event == m.approach_event,
        m.scene_changed(pc_id, region, npcs, navigation).location_event == m.location_event,
{
}

/// Clearing the scene leaves no scene, characters, interactions, region,
/// navigation, NPCs, time or events, and keeps the world and the selected
/// character; clearing everything afterwards gives the state `new` made.
pub proof fn law_scene_cleared(m: GameModel)
    ensures
        m.scene_cleared().current_scene is None,
        m.scene_cleared().scene_characters.len() == 0,
        m.scene_cleared().interactions.len() == 0,
        m.scene_cleared().current_region is None,
        m.scene_cleared().navigation is None,
        m.scene_cleared().npcs_present.len() == 0,
        m.scene_cleared().game_time is None,
        m.scene_cleared().approach_event is None,
        m.scene_cleared().location_event is None,
        m.scene_cleared().world == m.world,
        m.scene_cleared().selected_pc_id == m.selected_pc_id,
        m.scene_cleared().backdrop() is None,
        GameModel::empty().world is None && GameModel::empty().selected_pc_id is None
            && GameModel::empty().current_scene is None && GameModel::empty().interactions.len() == 0
            && GameModel::empty().scene_characters.len() == 0,
{
}

} // verus!
