//! The creation forms: the player-character wizard, and the checks and
//! clean-up of the world and skill forms before they are sent.
use vstd::prelude::*;
use crate::text::{owned, str_eq, trim, trim_str};

verus! {

/// The steps of the player-character wizard.
#[derive(PartialEq, Eq, Structural, Clone, Copy, Debug)]
pub enum CreationStep {
    Basics,
    CharacterSheet,
    StartingLocation,
    Review,
}

impl Default for CreationStep {
    /// The wizard starts with the basics.
    fn default() -> (r: CreationStep)
        ensures
            r == CreationStep::Basics,
    {
        CreationStep::Basics
    }
}

/// The step after `step` when "Next" is pressed: a name is needed to leave
/// the basics and a location to leave the location step; the review stays.
pub open spec fn next_step_spec(step: CreationStep, name: Seq<char>, has_location: bool) -> Result<CreationStep, Seq<char>> {
    match step {
        CreationStep::Basics => if trim(name).len() == 0 {
            Err("Character name is required"@)
        } else {
            Ok(CreationStep::CharacterSheet)
        },
        CreationStep::CharacterSheet => Ok(CreationStep::StartingLocation),
        CreationStep::StartingLocation => if !has_location {
            Err("Please select a starting location"@)
        } else {
            Ok(CreationStep::Review)
        },
        CreationStep::Review => Ok(CreationStep::Review),
    }
}

/// The wizard goes basics, character sheet, starting location, review: the
/// basics are left only with a name that is not blank, the location step
/// only with a location chosen, and the review is the last step.
pub proof fn law_wizard_steps(name: Seq<char>, has_location: bool)
    ensures
        trim(name).len() > 0 ==> next_step_spec(CreationStep::Basics, name, has_location) == Ok::<
            CreationStep,
            Seq<char>,
        >(CreationStep::CharacterSheet),
        trim(name).len() == 0 ==> next_step_spec(CreationStep::Basics, name, has_location) == Err::<
            CreationStep,
            Seq<char>,
        >("Character name is required"@),
        next_step_spec(CreationStep::CharacterSheet, name, has_location) == Ok::<CreationStep, Seq<char>>(
            CreationStep::StartingLocation,
        ),
        has_location ==> next_step_spec(CreationStep::StartingLocation, name, has_location) == Ok::<
            CreationStep,
            Seq<char>,
        >(CreationStep::Review),
        !has_location ==> next_step_spec(CreationStep::StartingLocation, name, has_location) == Err::<
            CreationStep,
            Seq<char>,
        >("Please select a starting location"@),
        next_step_spec(CreationStep::Review, name, has_location) == Ok::<CreationStep, Seq<char>>(
            CreationStep::Review,
        ),
{
}

/// The step after `step` when "Next" is pressed, or the message to show.
pub fn next_creation_step(step: CreationStep, name: &str, has_location: bool) -> (r: Result<CreationStep, String>)
    ensures
        match (r, next_step_spec(step, name@, has_location)) {
            (Ok(a), Ok(b)) => a == b,
            (Err(e), Err(f)) => e@ == f,
            _ => false,
        },
{
    match step {
        CreationStep::Basics => {
            if trim_str(name).len() == 0 {
                Err(owned("Character name is required"))
            } else {
                Ok(CreationStep::CharacterSheet)
            }
        },
        CreationStep::CharacterSheet => Ok(CreationStep::StartingLocation),
        CreationStep::StartingLocation => {
            if !has_location {
                Err(owned("Please select a starting location"))
            } else {
                Ok(CreationStep::Review)
            }
        },
        CreationStep::Review => Ok(CreationStep::Review),
    }
}

/// The step before `step` when "Back" is pressed; `None` from the basics,
/// where the wizard is left.
pub fn previous_creation_step(step: CreationStep) -> (r: Option<CreationStep>)
    ensures
        r == match step {
            CreationStep::Basics => None,
            CreationStep::CharacterSheet => Some(CreationStep::Basics),
            CreationStep::StartingLocation => Some(CreationStep::CharacterSheet),
            CreationStep::Review => Some(CreationStep::StartingLocation),
        },
{
    match step {
        CreationStep::Basics => None,
        CreationStep::CharacterSheet => Some(CreationStep::Basics),
        CreationStep::StartingLocation => Some(CreationStep::CharacterSheet),
        CreationStep::Review => Some(CreationStep::StartingLocation),
    }
}

/// A new player character as the form sends it.
pub struct NewCharacter {
    pub name: String,
    /// `None` when the description is blank.
    pub description: Option<String>,
    pub starting_location_id: String,
    /// Whether character sheet values were filled in (`None` is sent otherwise).
    pub has_sheet_data: bool,
}

/// Checks the character form and cleans it up for sending: a name and a
/// starting location are required; a blank description is left out.
pub fn character_request(
    name: String,
    description: String,
    starting_location_id: Option<String>,
    sheet_value_count: usize,
) -> (r: Result<NewCharacter, String>)
    ensures
        trim(name@).len() == 0 ==> (r matches Err(e) && e@ == "Character name is required"@),
        trim(name@).len() > 0 && starting_location_id is None ==> (r matches Err(e) && e@
            == "Please select a starting location"@),
        trim(name@).len() > 0 && starting_location_id is Some ==> (r matches Ok(c) && {
            &&& c.name == name
            &&& c.description == if trim(description@).len() == 0 {
                None
            } else {
                Some(description)
            }
            &&& c.starting_location_id == starting_location_id->Some_0
            &&& c.has_sheet_data == (sheet_value_count > 0)
        }),
{
    if trim_str(name.as_str()).len() == 0 {
        return Err(owned("Character name is required"));
    }
    match starting_location_id {
        None => Err(owned("Please select a starting location")),
        Some(location) => {
            let description = if trim_str(description.as_str()).len() == 0 {
                None
            } else {
                Some(description)
            };
            Ok(NewCharacter { name, description, starting_location_id: location, has_sheet_data: sheet_value_count > 0 })
        },
    }
}

/// A new world as the form sends it.
pub struct NewWorld {
    pub name: String,
    /// `None` when the description is empty.
    pub description: Option<String>,
}

/// Checks the world form: a name is required; an empty description is left
/// out (a description of spaces is kept).
pub fn world_request(name: String, description: String) -> (r: Result<NewWorld, String>)
    ensures
        trim(name@).len() == 0 ==> (r matches Err(e) && e@ == "World name is required"@),
        trim(name@).len() > 0 ==> (r matches Ok(w) && w.name == name && w.description == if description@.len()
            == 0 {
            None
        } else {
            Some(description)
        }),
{
    if trim_str(name.as_str()).len() == 0 {
        return Err(owned("World name is required"));
    }
    let description = if description.as_str().is_empty() {
        None
    } else {
        Some(description)
    };
    Ok(NewWorld { name, description })
}

/// Checks a skill's name: it is required.
pub fn check_skill_name(name: &str) -> (r: Result<(), String>)
    ensures
        trim(name@).len() == 0 ==> (r matches Err(e) && e@ == "Skill name is required"@),
        trim(name@).len() > 0 ==> r is Ok,
{
    if trim_str(name).len() == 0 {
        Err(owned("Skill name is required"))
    } else {
        Ok(())
    }
}

/// The base attribute of a skill form: `None` when left empty.
pub fn base_attribute(attr: String) -> (r: Option<String>)
    ensures
        r == if attr@.len() == 0 {
            None
        } else {
            Some(attr)
        },
{
    if attr.as_str().is_empty() {
        None
    } else {
        Some(attr)
    }
}

// ---------------------------------------------------------------------------
// Rule system choice of the world form
// ---------------------------------------------------------------------------

/// The family of rule systems a world can use.
#[derive(PartialEq, Eq, Structural, Clone, Copy, Debug)]
pub enum RuleSystemType {
    D20,
    D100,
    Narrative,
    Custom,
}

/// A preset rule system, or a custom one by name.
pub enum RuleSystemVariant {
    Dnd5e,
    Pathfinder2e,
    GenericD20,
    CallOfCthulhu7e,
    RuneQuest,
    GenericD100,
    KidsOnBikes,
    FateCore,
    PoweredByApocalypse,
    Custom(String),
}

/// The type the type selector's value names; any unknown value is custom.
pub open spec fn rule_system_type_spec(s: Seq<char>) -> RuleSystemType {
    if s == "D20"@ {
        RuleSystemType::D20
    } else if s == "D100"@ {
        RuleSystemType::D100
    } else if s == "Narrative"@ {
        RuleSystemType::Narrative
    } else {
        RuleSystemType::Custom
    }
}

/// The type the type selector's value names.
pub fn rule_system_type(type_str: &str) -> (r: RuleSystemType)
    ensures
        r == rule_system_type_spec(type_str@),
{
    if str_eq(type_str, "D20") {
        RuleSystemType::D20
    } else if str_eq(type_str, "D100") {
        RuleSystemType::D100
    } else if str_eq(type_str, "Narrative") {
        RuleSystemType::Narrative
    } else {
        RuleSystemType::Custom
    }
}

/// The preset the variant selector's value names; none for any other value.
pub open spec fn rule_system_variant_spec(s: Seq<char>) -> Option<RuleSystemVariant> {
    if s == "Dnd5e"@ {
        Some(RuleSystemVariant::Dnd5e)
    } else if s == "Pathfinder2e"@ {
        Some(RuleSystemVariant::Pathfinder2e)
    } else if s == "GenericD20"@ {
        Some(RuleSystemVariant::GenericD20)
    } else if s == "CallOfCthulhu7e"@ {
        Some(RuleSystemVariant::CallOfCthulhu7e)
    } else if s == "RuneQuest"@ {
        Some(RuleSystemVariant::RuneQuest)
    } else if s == "GenericD100"@ {
        Some(RuleSystemVariant::GenericD100)
    } else if s == "KidsOnBikes"@ {
        Some(RuleSystemVariant::KidsOnBikes)
    } else if s == "FateCore"@ {
        Some(RuleSystemVariant::FateCore)
    } else if s == "PoweredByApocalypse"@ {
        Some(RuleSystemVariant::PoweredByApocalypse)
    } else {
        None
    }
}

/// The preset the variant selector's value names.
pub fn rule_system_variant(variant_str: &str) -> (r: Option<RuleSystemVariant>)
    ensures
        r == rule_system_variant_spec(variant_str@),
{
    if str_eq(variant_str, "Dnd5e") {
        Some(RuleSystemVariant::Dnd5e)
    } else if str_eq(variant_str, "Pathfinder2e") {
        Some(RuleSystemVariant::Pathfinder2e)
    } else if str_eq(variant_str, "GenericD20") {
        Some(RuleSystemVariant::GenericD20)
    } else if str_eq(variant_str, "CallOfCthulhu7e") {
        Some(RuleSystemVariant::CallOfCthulhu7e)
    } else if str_eq(variant_str, "RuneQuest") {
        Some(RuleSystemVariant::RuneQuest)
    } else if str_eq(variant_str, "GenericD100") {
        Some(RuleSystemVariant::GenericD100)
    } else if str_eq(variant_str, "KidsOnBikes") {
        Some(RuleSystemVariant::KidsOnBikes)
    } else if str_eq(variant_str, "FateCore") {
        Some(RuleSystemVariant::FateCore)
    } else if str_eq(variant_str, "PoweredByApocalypse") {
        Some(RuleSystemVariant::PoweredByApocalypse)
    } else {
        None
    }
}

/// The system type a preset is loaded under, as the Engine names it.
pub open spec fn system_type_name_spec(v: RuleSystemVariant) -> Seq<char> {
    match v {
        RuleSystemVariant::Dnd5e | RuleSystemVariant::Pathfinder2e | RuleSystemVariant::GenericD20 => "D20"@,
        RuleSystemVariant::CallOfCthulhu7e | RuleSystemVariant::RuneQuest | RuleSystemVariant::GenericD100 => "D100"@,
        RuleSystemVariant::KidsOnBikes | RuleSystemVariant::FateCore | RuleSystemVariant::PoweredByApocalypse => "Narrative"@,
        RuleSystemVariant::Custom(_) => "Custom"@,
    }
}

/// The system type a preset is loaded under.
pub fn system_type_name(v: &RuleSystemVariant) -> (r: &'static str)
    ensures
        r@ == system_type_name_spec(*v),
{
    match v {
        RuleSystemVariant::Dnd5e | RuleSystemVariant::Pathfinder2e | RuleSystemVariant::GenericD20 => "D20",
        RuleSystemVariant::CallOfCthulhu7e | RuleSystemVariant::RuneQuest | RuleSystemVariant::GenericD100 => "D100",
        RuleSystemVariant::KidsOnBikes | RuleSystemVariant::FateCore | RuleSystemVariant::PoweredByApocalypse => "Narrative",
        RuleSystemVariant::Custom(_) => "Custom",
    }
}

/// Each preset of the variant selector is named by exactly its own value,
/// and is loaded under its family: D&D 5e, Pathfinder 2e and generic d20
/// under "D20"; Call of Cthulhu 7e, RuneQuest and generic d100 under "D100";
/// Kids on Bikes, Fate Core and Powered by the Apocalypse under "Narrative";
/// a custom system under "Custom". The type selector reads "D20", "D100" and
/// "Narrative" as those families and anything else as custom.
pub proof fn law_rule_systems(s: Seq<char>, name: String)
    ensures
        s == "Dnd5e"@ <==> rule_system_variant_spec(s) == Some(RuleSystemVariant::Dnd5e),
        s == "Pathfinder2e"@ <==> rule_system_variant_spec(s) == Some(RuleSystemVariant::Pathfinder2e),
        s == "GenericD20"@ <==> rule_system_variant_spec(s) == Some(RuleSystemVariant::GenericD20),
        s == "CallOfCthulhu7e"@ <==> rule_system_variant_spec(s) == Some(RuleSystemVariant::CallOfCthulhu7e),
        s == "RuneQuest"@ <==> rule_system_variant_spec(s) == Some(RuleSystemVariant::RuneQuest),
        s == "GenericD100"@ <==> rule_system_variant_spec(s) == Some(RuleSystemVariant::GenericD100),
        s == "KidsOnBikes"@ <==> rule_system_variant_spec(s) == Some(RuleSystemVariant::KidsOnBikes),
        s == "FateCore"@ <==> rule_system_variant_spec(s) == Some(RuleSystemVariant::FateCore),
        s == "PoweredByApocalypse"@ <==> rule_system_variant_spec(s) == Some(RuleSystemVariant::PoweredByApocalypse),
        system_type_name_spec(RuleSystemVariant::Dnd5e) == "D20"@,
        system_type_name_spec(RuleSystemVariant::Pathfinder2e) == "D20"@,
        system_type_name_spec(RuleSystemVariant::GenericD20) == "D20"@,
        system_type_name_spec(RuleSystemVariant::CallOfCthulhu7e) == "D100"@,
        system_type_name_spec(RuleSystemVariant::RuneQuest) == "D100"@,
        system_type_name_spec(RuleSystemVariant::GenericD100) == "D100"@,
        system_type_name_spec(RuleSystemVariant::KidsOnBikes) == "Narrative"@,
        system_type_name_spec(RuleSystemVariant::FateCore) == "Narrative"@,
        system_type_name_spec(RuleSystemVariant::PoweredByApocalypse) == "Narrative"@,
        system_type_name_spec(RuleSystemVariant::Custom(name)) == "Custom"@,
        rule_system_type_spec("D20"@) == RuleSystemType::D20,
        rule_system_type_spec("D100"@) == RuleSystemType::D100,
        rule_system_type_spec("Narrative"@) == RuleSystemType::Narrative,
        !(s == "D20"@ || s == "D100"@ || s == "Narrative"@) ==> rule_system_type_spec(s) == RuleSystemType::Custom,
{
    reveal_strlit("Dnd5e");
    reveal_strlit("Pathfinder2e");
    reveal_strlit("GenericD20");
    reveal_strlit("CallOfCthulhu7e");
    reveal_strlit("RuneQuest");
    reveal_strlit("GenericD100");
    reveal_strlit("KidsOnBikes");
    reveal_strlit("FateCore");
    reveal_strlit("PoweredByApocalypse");
    reveal_strlit("D20");
    reveal_strlit("D100");
    reveal_strlit("Narrative");
    assert("Dnd5e"@.len() == 5 && "Pathfinder2e"@.len() == 12 && "GenericD20"@.len() == 10 && "CallOfCthulhu7e"@.len() == 15 && "RuneQuest"@.len() == 9 && "GenericD100"@.len() == 11 && "KidsOnBikes"@.len() == 11 && "FateCore"@.len() == 8 && "PoweredByApocalypse"@.len() == 19);
    assert("GenericD100"@[0] == 'G' && "KidsOnBikes"@[0] == 'K');
    assert("D20"@.len() == 3 && "D100"@.len() == 4 && "Narrative"@.len() == 9);
}

} // verus!
