//! What the player view sends and does when the player acts: interactions,
//! dialogue choices, free text, and advancing the dialogue.
use vstd::prelude::*;
use crate::dto::{InteractionData, SessionWorldSnapshot};
use crate::state::dialogue::{DialogueModel, DialogueState};
use crate::text::{lowercase_of, str_eq, to_lowercase};

verus! {

/// An action a player sends to the Engine.
#[allow(inconsistent_fields)]
pub enum PlayerAction {
    /// Talk to a target, optionally with a line of dialogue.
    Talk { target: String, dialogue: Option<String> },
    /// Examine a target.
    Examine { target: String },
    /// Travel to a destination.
    Travel { destination: String },
    /// Use an item, optionally on a target.
    UseItem { item_id: String, target: Option<String> },
    /// Pick one of the offered dialogue choices.
    DialogueChoice { choice_id: String },
    /// Free text.
    Custom { text: String },
    /// Free text about a target.
    CustomTargeted { target: String, text: String },
    /// Move a player character to another region of its location.
    MoveToRegion { pc_id: String, region_id: String },
    /// Leave for another location, arriving in the given region.
    ExitToLocation { pc_id: String, location_id: String, arrival_region_id: Option<String> },
}

/// The action an interaction of the given (lowercased) type sends:
/// talking, examining, travelling and using go by their usual verbs, any
/// other type is sent as free text about the interaction.
pub open spec fn interaction_action_spec(lower_type: Seq<char>, i: InteractionData, a: PlayerAction) -> bool {
    if lower_type == "talk"@ || lower_type == "dialogue"@ || lower_type == "speak"@ {
        a == PlayerAction::Talk { target: i.id, dialogue: None }
    } else if lower_type == "examine"@ || lower_type == "look"@ || lower_type == "inspect"@ {
        a == PlayerAction::Examine { target: i.id }
    } else if lower_type == "travel"@ || lower_type == "go"@ || lower_type == "move"@ {
        a == PlayerAction::Travel { destination: i.id }
    } else if lower_type == "use"@ || lower_type == "interact"@ {
        a == PlayerAction::UseItem { item_id: i.id, target: i.target_name }
    } else {
        a == PlayerAction::CustomTargeted { target: i.id, text: i.name }
    }
}

/// Each interaction verb sends its action at the interaction's ID: "talk",
/// "dialogue" and "speak" talk (without a line), "examine", "look" and
/// "inspect" examine, "travel", "go" and "move" travel, "use" and "interact"
/// use the item on the interaction's target; any other type sends the
/// interaction's name as free text about it.
pub proof fn law_interaction_verbs(lower: Seq<char>, i: InteractionData, a: PlayerAction)
    requires
        interaction_action_spec(lower, i, a),
    ensures
        (lower == "talk"@ || lower == "dialogue"@ || lower == "speak"@) ==> a == (PlayerAction::Talk {
            target: i.id,
            dialogue: None,
        }),
        (lower == "examine"@ || lower == "look"@ || lower == "inspect"@) ==> a == (PlayerAction::Examine {
            target: i.id,
        }),
        (lower == "travel"@ || lower == "go"@ || lower == "move"@) ==> a == (PlayerAction::Travel {
            destination: i.id,
        }),
        (lower == "use"@ || lower == "interact"@) ==> a == (PlayerAction::UseItem {
            item_id: i.id,
            target: i.target_name,
        }),
        !(lower == "talk"@ || lower == "dialogue"@ || lower == "speak"@ || lower == "examine"@ || lower
            == "look"@ || lower == "inspect"@ || lower == "travel"@ || lower == "go"@ || lower == "move"@
            || lower == "use"@ || lower == "interact"@) ==> a == (PlayerAction::CustomTargeted {
            target: i.id,
            text: i.name,
        }),
{
    reveal_strlit("talk");
    reveal_strlit("dialogue");
    reveal_strlit("speak");
    reveal_strlit("examine");
    reveal_strlit("look");
    reveal_strlit("inspect");
    reveal_strlit("travel");
    reveal_strlit("go");
    reveal_strlit("move");
    reveal_strlit("use");
    reveal_strlit("interact");
    assert("talk"@.len() == 4 && "dialogue"@.len() == 8 && "speak"@.len() == 5 && "examine"@.len() == 7 && "look"@.len() == 4 && "inspect"@.len() == 7 && "travel"@.len() == 6 && "go"@.len() == 2 && "move"@.len() == 4 && "use"@.len() == 3 && "interact"@.len() == 8);
    assert("talk"@[0] == 't' && "dialogue"@[0] == 'd' && "speak"@[0] == 's' && "examine"@[0] == 'e' && "look"@[0] == 'l' && "inspect"@[0] == 'i' && "travel"@[0] == 't' && "go"@[0] == 'g' && "move"@[0] == 'm' && "use"@[0] == 'u' && "interact"@[0] == 'i');
}

/// The action for an interaction whose type is already lowercased.
pub fn action_for_interaction(lower_type: &str, interaction: &InteractionData) -> (a: PlayerAction)
    ensures
        interaction_action_spec(lower_type@, *interaction, a),
{
    if str_eq(lower_type, "talk") || str_eq(lower_type, "dialogue") || str_eq(lower_type, "speak") {
        PlayerAction::Talk { target: interaction.id.clone(), dialogue: None }
    } else if str_eq(lower_type, "examine") || str_eq(lower_type, "look") || str_eq(
        lower_type,
        "inspect",
    ) {
        PlayerAction::Examine { target: interaction.id.clone() }
    } else if str_eq(lower_type, "travel") || str_eq(lower_type, "go") || str_eq(lower_type, "move") {
        PlayerAction::Travel { destination: interaction.id.clone() }
    } else if str_eq(lower_type, "use") || str_eq(lower_type, "interact") {
        PlayerAction::UseItem {
            item_id: interaction.id.clone(),
            target: crate::copy::copy_opt_string(&interaction.target_name),
        }
    } else {
        PlayerAction::CustomTargeted { target: interaction.id.clone(), text: interaction.name.clone() }
    }
}

/// The action sent when the player picks an interaction from the action
/// panel; its type is compared ignoring case.
pub fn handle_interaction(interaction: &InteractionData) -> (a: PlayerAction)
    ensures
        interaction_action_spec(lowercase_of(interaction.interaction_type@), *interaction, a),
{
    let lower = to_lowercase(interaction.interaction_type.as_str());
    action_for_interaction(lower.as_str(), interaction)
}

/// The player picked a dialogue choice: no longer waiting for input; the
/// choice is sent.
pub fn handle_choice_selected(dialogue_state: &mut DialogueState, choice_id: &str) -> (a: PlayerAction)
    ensures
        final(dialogue_state)@ == (DialogueModel { awaiting_input: false, ..old(dialogue_state)@ }),
        a matches PlayerAction::DialogueChoice { choice_id: c } && c@ == choice_id@,
{
    dialogue_state.awaiting_input = false;
    PlayerAction::DialogueChoice { choice_id: crate::text::owned(choice_id) }
}

/// The player typed free text: no longer waiting for input; the text is sent.
pub fn handle_custom_input(dialogue_state: &mut DialogueState, text: &str) -> (a: PlayerAction)
    ensures
        final(dialogue_state)@ == (DialogueModel { awaiting_input: false, ..old(dialogue_state)@ }),
        a matches PlayerAction::Custom { text: t } && t@ == text@,
{
    dialogue_state.awaiting_input = false;
    PlayerAction::Custom { text: crate::text::owned(text) }
}

/// The player clicked to continue: a running typewriter is skipped to the
/// end; otherwise nothing changes (the Engine sends what comes next).
pub fn handle_advance(dialogue_state: &mut DialogueState)
    ensures
        final(dialogue_state)@ == if old(dialogue_state)@.is_typing {
            old(dialogue_state)@.skipped()
        } else {
            old(dialogue_state)@
        },
{
    if dialogue_state.is_typing {
        dialogue_state.skip_typewriter();
    }
}

/// Moving to a region needs a selected player character: without one nothing
/// is sent (and the navigation panel stays open); with one the move is sent
/// and the panel closes.
pub fn move_to_region_action(selected_pc: Option<String>, region_id: String) -> (r: Option<PlayerAction>)
    ensures
        selected_pc is None ==> r is None,
        selected_pc matches Some(pc) ==> r == Some(PlayerAction::MoveToRegion { pc_id: pc, region_id }),
{
    match selected_pc {
        Some(pc) => Some(PlayerAction::MoveToRegion { pc_id: pc, region_id }),
        None => None,
    }
}

/// Leaving for another location needs a selected player character, as
/// moving does; the chosen arrival region goes with it.
pub fn exit_to_location_action(
    selected_pc: Option<String>,
    location_id: String,
    arrival_region_id: String,
) -> (r: Option<PlayerAction>)
    ensures
        selected_pc is None ==> r is None,
        selected_pc matches Some(pc) ==> r == Some(
            PlayerAction::ExitToLocation {
                pc_id: pc,
                location_id,
                arrival_region_id: Some(arrival_region_id),
            },
        ),
{
    match selected_pc {
        Some(pc) => Some(
            PlayerAction::ExitToLocation {
                pc_id: pc,
                location_id,
                arrival_region_id: Some(arrival_region_id),
            },
        ),
        None => None,
    }
}

/// The character whose inventory or sheet the player opens: the one already
/// chosen, else the world's first character, else none.
pub fn sheet_character(selected: &Option<String>, world: &Option<SessionWorldSnapshot>) -> (r: Option<String>)
    ensures
        r == match *selected {
            Some(c) => Some(c),
            None => match *world {
                Some(w) => if w.characters@.len() > 0 {
                    Some(w.characters@[0].id)
                } else {
                    None
                },
                None => None,
            },
        },
{
    match selected {
        Some(c) => Some(c.clone()),
        None => match world {
            Some(w) => if w.characters.len() > 0 {
                Some(w.characters[0].id.clone())
            } else {
                None
            },
            None => None,
        },
    }
}

} // verus!
