use wrldbldr_player::actions::{
    handle_advance, handle_choice_selected, handle_custom_input, handle_interaction, PlayerAction,
};
use wrldbldr_player::dto::InteractionData;
use wrldbldr_player::skills::{
    group_skills_by_category, skills_by_category, sort_by_order, PlayerSkillData, SkillCategory, SkillData,
};
use wrldbldr_player::spectator::{track_dialogue_line, ConversationEntry};
use wrldbldr_player::state::dialogue::{typewriter_step, DialogueState, TypewriterStep};
use wrldbldr_player::workflow::{
    parse_input_value, AnalyzeWorkflowResponse, ParsedInputValue, PromptMappingSuggestion, UploadStep,
    WorkflowAnalysis, WorkflowAnalysisResult, WorkflowInput, WorkflowTextInput,
};

fn s(x: &str) -> String {
    x.to_string()
}

fn interaction(kind: &str) -> InteractionData {
    InteractionData {
        id: s("obj1"),
        name: s("Old chest"),
        interaction_type: s(kind),
        target_name: Some(s("lock")),
        is_available: true,
    }
}

#[test]
fn interactions_map_to_actions() {
    assert!(matches!(handle_interaction(&interaction("Talk")), PlayerAction::Talk { target, dialogue: None } if target == "obj1"));
    assert!(matches!(handle_interaction(&interaction("LOOK")), PlayerAction::Examine { .. }));
    assert!(matches!(handle_interaction(&interaction("go")), PlayerAction::Travel { destination } if destination == "obj1"));
    assert!(matches!(handle_interaction(&interaction("interact")), PlayerAction::UseItem { target: Some(t), .. } if t == "lock"));
    assert!(matches!(handle_interaction(&interaction("dance")), PlayerAction::CustomTargeted { text, .. } if text == "Old chest"));
}

#[test]
fn choices_and_input_stop_waiting() {
    let mut d = DialogueState::new();
    d.awaiting_input = true;
    let a = handle_choice_selected(&mut d, "c2");
    assert!(!d.awaiting_input);
    assert!(matches!(a, PlayerAction::DialogueChoice { choice_id } if choice_id == "c2"));
    d.awaiting_input = true;
    let a = handle_custom_input(&mut d, "I bow");
    assert!(!d.awaiting_input);
    assert!(matches!(a, PlayerAction::Custom { text } if text == "I bow"));
}

#[test]
fn advance_skips_running_typewriter() {
    let mut d = DialogueState::new();
    d.apply_dialogue(s("n"), s("Mira"), s("Hello there"), vec![]);
    handle_advance(&mut d);
    assert_eq!(d.displayed_text, "Hello there");
    assert!(!d.is_typing && d.awaiting_input);
    handle_advance(&mut d);
    assert_eq!(d.displayed_text, "Hello there");
}

#[test]
fn typewriter_runs_through_line() {
    let mut d = DialogueState::new();
    d.apply_dialogue(s("n"), s("Mira"), s("Hi, you."), vec![]);
    let text: Vec<char> = "Hi, you.".chars().collect();
    let mut delays = Vec::new();
    let mut typed = 0;
    loop {
        match typewriter_step(&mut d, &text, typed) {
            TypewriterStep::Wait { delay_ms } => {
                typed += 1;
                assert_eq!(d.displayed_text.chars().count(), typed);
                delays.push(delay_ms);
            },
            TypewriterStep::Finished => break,
        }
    }
    assert_eq!(d.displayed_text, "Hi, you.");
    assert!(!d.is_typing && d.awaiting_input);
    assert_eq!(delays, vec![30, 30, 80, 30, 30, 30, 30, 150]);
}

#[test]
fn typewriter_stops_when_skipped() {
    let mut d = DialogueState::new();
    d.apply_dialogue(s("n"), s("Mira"), s("abc"), vec![]);
    let text: Vec<char> = "abc".chars().collect();
    assert!(matches!(typewriter_step(&mut d, &text, 0), TypewriterStep::Wait { delay_ms: 30 }));
    d.skip_typewriter();
    assert!(matches!(typewriter_step(&mut d, &text, 1), TypewriterStep::Finished));
    assert_eq!(d.displayed_text, "abc");
}

#[test]
fn spectator_log_skips_repeats() {
    let mut log: Vec<ConversationEntry> = Vec::new();
    let mut d = DialogueState::new();
    d.apply_dialogue(s("n"), s("Mira"), s("Hi"), vec![]);
    track_dialogue_line(&mut log, &d);
    assert!(log.is_empty());
    d.skip_typewriter();
    track_dialogue_line(&mut log, &d);
    track_dialogue_line(&mut log, &d);
    assert_eq!(log.len(), 1);
    assert_eq!(log[0].speaker, "Mira");
    assert_eq!(log[0].text, "Hi");
    d.apply_dialogue(s("n"), s("Bram"), s("Hi"), vec![]);
    d.skip_typewriter();
    track_dialogue_line(&mut log, &d);
    assert_eq!(log.len(), 2);
}

fn skill(id: &str, category: &str) -> PlayerSkillData {
    PlayerSkillData { id: s(id), name: s(id), category: s(category), modifier: 1, proficient: false }
}

#[test]
fn skills_grouped_by_sorted_category() {
    let skills = vec![skill("s1", "Social"), skill("s2", "Combat"), skill("s3", "Social"), skill("s4", "Arcana")];
    let groups = group_skills_by_category(&skills);
    let cats: Vec<&str> = groups.iter().map(|g| g.category.as_str()).collect();
    assert_eq!(cats, vec!["Arcana", "Combat", "Social"]);
    let social: Vec<&str> = groups[2].skills.iter().map(|x| x.id.as_str()).collect();
    assert_eq!(social, vec!["s1", "s3"]);
    assert!(group_skills_by_category(&vec![]).is_empty());
}

fn world_skill(id: &str, category: SkillCategory, order: u32, hidden: bool) -> SkillData {
    SkillData {
        id: s(id),
        world_id: s("w"),
        name: s(id),
        description: s(""),
        category,
        base_attribute: None,
        is_custom: false,
        is_hidden: hidden,
        order,
    }
}

#[test]
fn skills_panel_groups_and_sorts() {
    let skills = vec![
        world_skill("a", SkillCategory::Custom, 2, false),
        world_skill("b", SkillCategory::Physical, 5, false),
        world_skill("c", SkillCategory::Custom, 1, false),
        world_skill("d", SkillCategory::Custom, 2, false),
        world_skill("e", SkillCategory::Mental, 0, true),
    ];
    let groups = skills_by_category(&skills, false);
    assert_eq!(groups.len(), 2);
    assert_eq!(groups[0].0, SkillCategory::Physical);
    assert_eq!(groups[1].0, SkillCategory::Custom);
    let custom: Vec<&str> = groups[1].1.iter().map(|x| x.id.as_str()).collect();
    assert_eq!(custom, vec!["c", "a", "d"]);
    let with_hidden = skills_by_category(&skills, true);
    assert_eq!(with_hidden.len(), 3);
    assert_eq!(with_hidden[1].0, SkillCategory::Mental);
}

#[test]
fn sort_by_order_is_stable() {
    let v = vec![
        world_skill("x", SkillCategory::Other, 3, false),
        world_skill("y", SkillCategory::Other, 1, false),
        world_skill("z", SkillCategory::Other, 3, false),
        world_skill("w", SkillCategory::Other, 0, false),
    ];
    let r: Vec<String> = sort_by_order(v).into_iter().map(|x| x.id).collect();
    assert_eq!(r, vec![s("w"), s("y"), s("x"), s("z")]);
}

fn response() -> AnalyzeWorkflowResponse {
    AnalyzeWorkflowResponse {
        is_valid: true,
        analysis: WorkflowAnalysis {
            node_count: 12,
            inputs: vec![
                WorkflowInput { node_id: s("3"), input_name: s("seed"), input_type: s("integer") },
                WorkflowInput { node_id: s("6"), input_name: s("text"), input_type: s("string") },
            ],
            text_inputs: vec![
                WorkflowTextInput { node_id: s("6"), node_title: Some(s("Positive")), input_name: s("text") },
                WorkflowTextInput { node_id: s("7"), node_title: None, input_name: s("text") },
            ],
        },
        suggested_prompt_mappings: vec![
            PromptMappingSuggestion { node_id: s("7"), input_name: s("text"), mapping_type: s("negative") },
            PromptMappingSuggestion { node_id: s("6"), input_name: s("text"), mapping_type: s("primary") },
            PromptMappingSuggestion { node_id: s("7"), input_name: s("text"), mapping_type: s("primary") },
        ],
        errors: vec![s("warn")],
    }
}

#[test]
fn workflow_analysis_result_from_response() {
    let r = WorkflowAnalysisResult::from_response(response());
    assert!(r.is_valid);
    assert_eq!(r.node_count, 12);
    assert_eq!(r.input_count, 2);
    assert_eq!(r.text_inputs.len(), 2);
    assert_eq!(r.suggested_primary.as_ref().unwrap().node_title.as_deref(), Some("Positive"));
    assert_eq!(r.suggested_negative.as_ref().unwrap().node_id, "7");
    assert_eq!(r.errors, vec![s("warn")]);
}

#[test]
fn workflow_suggestion_pointing_nowhere_is_none() {
    let mut resp = response();
    resp.suggested_prompt_mappings[1].node_id = s("99");
    let r = WorkflowAnalysisResult::from_response(resp);
    // only the first primary suggestion counts
    assert!(r.suggested_primary.is_none());
    assert!(r.suggested_negative.is_some());
    assert!(matches!(UploadStep::default(), UploadStep::Upload));
}

#[test]
fn input_values_by_type() {
    assert!(matches!(parse_input_value("42", "integer"), ParsedInputValue::Integer(42)));
    assert!(matches!(parse_input_value("-7", "integer"), ParsedInputValue::Integer(-7)));
    assert!(matches!(parse_input_value("4.5", "integer"), ParsedInputValue::Text(t) if t == "4.5"));
    assert!(matches!(parse_input_value("1.5", "float"), ParsedInputValue::Float(t) if t == "1.5"));
    assert!(matches!(parse_input_value("true", "boolean"), ParsedInputValue::Boolean(true)));
    assert!(matches!(parse_input_value("1", "boolean"), ParsedInputValue::Boolean(true)));
    assert!(matches!(parse_input_value("yes", "boolean"), ParsedInputValue::Boolean(false)));
    assert!(matches!(parse_input_value("hi", "string"), ParsedInputValue::Text(t) if t == "hi"));
}
