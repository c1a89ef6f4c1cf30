use wrldbldr_player::settings::{bounded_number_input, number_input};
use wrldbldr_player::director::modified_approval_decision;
use wrldbldr_player::dto::{ApprovalDecision, ProposedTool};
use wrldbldr_player::forms::{
    base_attribute, character_request, check_skill_name, next_creation_step, previous_creation_step,
    world_request, CreationStep,
};
use wrldbldr_player::workflow::{
    can_analyze, input_key, input_label, mapping_label, previous_upload_step, select_input, step_indicator,
    TextInputInfo, UploadStep,
};

fn s(x: &str) -> String {
    x.to_string()
}

#[test]
fn creation_wizard_steps() {
    assert_eq!(CreationStep::default(), CreationStep::Basics);
    assert_eq!(next_creation_step(CreationStep::Basics, "  ", false), Err(s("Character name is required")));
    assert_eq!(next_creation_step(CreationStep::Basics, "Ayla", false), Ok(CreationStep::CharacterSheet));
    assert_eq!(next_creation_step(CreationStep::CharacterSheet, "", false), Ok(CreationStep::StartingLocation));
    assert_eq!(
        next_creation_step(CreationStep::StartingLocation, "Ayla", false),
        Err(s("Please select a starting location"))
    );
    assert_eq!(next_creation_step(CreationStep::StartingLocation, "Ayla", true), Ok(CreationStep::Review));
    assert_eq!(next_creation_step(CreationStep::Review, "Ayla", true), Ok(CreationStep::Review));
    assert_eq!(previous_creation_step(CreationStep::Basics), None);
    assert_eq!(previous_creation_step(CreationStep::Review), Some(CreationStep::StartingLocation));
}

#[test]
fn character_form_is_checked_and_cleaned() {
    assert_eq!(character_request(s(" "), s(""), Some(s("l")), 0).err(), Some(s("Character name is required")));
    assert_eq!(character_request(s("Ayla"), s(""), None, 0).err(), Some(s("Please select a starting location")));
    let c = character_request(s("Ayla"), s("   "), Some(s("loc")), 2).ok().unwrap();
    assert_eq!(c.name, "Ayla");
    assert!(c.description.is_none());
    assert_eq!(c.starting_location_id, "loc");
    assert!(c.has_sheet_data);
    let c = character_request(s("Ayla"), s("A ranger"), Some(s("loc")), 0).ok().unwrap();
    assert_eq!(c.description.as_deref(), Some("A ranger"));
    assert!(!c.has_sheet_data);
}

#[test]
fn world_and_skill_forms() {
    assert_eq!(world_request(s("\t"), s("x")).err(), Some(s("World name is required")));
    let w = world_request(s("Eldoria"), s("")).ok().unwrap();
    assert!(w.description.is_none());
    let w = world_request(s("Eldoria"), s(" ")).ok().unwrap();
    assert_eq!(w.description.as_deref(), Some(" "));
    assert_eq!(check_skill_name(""), Err(s("Skill name is required")));
    assert_eq!(check_skill_name("Stealth"), Ok(()));
    assert_eq!(base_attribute(s("")), None);
    assert_eq!(base_attribute(s("DEX")), Some(s("DEX")));
}

fn tool(id: &str) -> ProposedTool {
    ProposedTool { id: s(id), name: s(id), description: s(""), arguments: s("{}") }
}

#[test]
fn accept_modified_decision() {
    let tools = vec![tool("t1"), tool("t2"), tool("t3")];
    assert!(matches!(modified_approval_decision("Hi", s("Hi"), &tools, &vec![]), ApprovalDecision::Accept));
    match modified_approval_decision("Hi", s("Hi"), &tools, &vec![s("t2")]) {
        ApprovalDecision::AcceptWithModification { modified_dialogue, approved_tools, rejected_tools } => {
            assert_eq!(modified_dialogue, "Hi");
            assert_eq!(approved_tools, vec![s("t1"), s("t3")]);
            assert_eq!(rejected_tools, vec![s("t2")]);
        },
        _ => panic!("expected modification"),
    }
    match modified_approval_decision("Hi", s("Hello"), &tools, &vec![]) {
        ApprovalDecision::AcceptWithModification { modified_dialogue, approved_tools, rejected_tools } => {
            assert_eq!(modified_dialogue, "Hello");
            assert_eq!(approved_tools.len(), 3);
            assert!(rejected_tools.is_empty());
        },
        _ => panic!("expected modification"),
    }
}

fn input(id: &str, title: Option<&str>) -> TextInputInfo {
    TextInputInfo { node_id: s(id), node_title: title.map(s), input_name: s("text") }
}

#[test]
fn upload_wizard_helpers() {
    assert_eq!(step_indicator(UploadStep::Configure, UploadStep::Upload), (false, true));
    assert_eq!(step_indicator(UploadStep::Configure, UploadStep::Configure), (true, false));
    assert_eq!(step_indicator(UploadStep::Review, UploadStep::Configure), (false, true));
    assert_eq!(step_indicator(UploadStep::Review, UploadStep::Review), (true, false));
    assert_eq!(previous_upload_step(UploadStep::Upload), None);
    assert_eq!(previous_upload_step(UploadStep::Review), Some(UploadStep::Configure));
    assert!(can_analyze("wf", "{}", false));
    assert!(!can_analyze("", "{}", false));
    assert!(!can_analyze("wf", "{}", true));
    assert_eq!(input_label(&input("6", Some("Positive"))), "Positive → text");
    assert_eq!(input_label(&input("7", None)), "Node 7 → text");
    assert_eq!(mapping_label(&None), "(Not set)");
    assert_eq!(input_key(&input("7", None)), "7:text");
    let inputs = vec![input("6", Some("P")), input("7", None)];
    assert_eq!(select_input(&inputs, "7:text").unwrap().node_id, "7");
    assert!(select_input(&inputs, "").is_none());
    assert!(select_input(&inputs, "8:text").is_none());
}

#[test]
fn settings_number_fields() {
    assert_eq!(number_input("42"), Some(42));
    assert_eq!(number_input("+7"), Some(7));
    assert_eq!(number_input("-1"), None);
    assert_eq!(number_input(""), None);
    assert_eq!(number_input("4 2"), None);
    assert_eq!(number_input(&usize::MAX.to_string()), Some(usize::MAX));
    assert_eq!(number_input(&format!("{}0", usize::MAX)), None);
    assert_eq!(bounded_number_input("500", 1, 100), Some(100));
    assert_eq!(bounded_number_input("0", 1, 100), Some(1));
    assert_eq!(bounded_number_input("55", 1, 100), Some(55));
    assert_eq!(bounded_number_input("x", 1, 100), None);
}

#[test]
fn view_modes_start_at_defaults() {
    use_defaults();
}

fn use_defaults() {
    assert_eq!(wrldbldr_player::views::DMMode::default(), wrldbldr_player::views::DMMode::Director);
    assert_eq!(wrldbldr_player::views::ChainFilter::default(), wrldbldr_player::views::ChainFilter::All);
}
