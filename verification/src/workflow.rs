//! ComfyUI workflow setup: the analysis of an uploaded workflow as the
//! upload wizard shows it, and the typed values of workflow inputs.
use vstd::prelude::*;
use crate::copy::{copy_opt_string, copy_strings};
use crate::seqs::{first_where, lemma_first_where, lemma_first_where_at};
use crate::text::{chars_of, concat_str, owned, parse_int, parse_int_spec, str_eq};

verus! {

/// A text input of a workflow node, as the Engine's analysis reports it.
pub struct WorkflowTextInput {
    pub node_id: String,
    pub node_title: Option<String>,
    pub input_name: String,
}

/// A configurable input of a workflow node.
pub struct WorkflowInput {
    pub node_id: String,
    pub input_name: String,
    pub input_type: String,
}

/// The Engine's analysis of a workflow.
pub struct WorkflowAnalysis {
    pub node_count: usize,
    pub inputs: Vec<WorkflowInput>,
    pub text_inputs: Vec<WorkflowTextInput>,
}

/// A prompt mapping the Engine suggests ("primary" or "negative").
pub struct PromptMappingSuggestion {
    pub node_id: String,
    pub input_name: String,
    pub mapping_type: String,
}

/// The Engine's reply to a workflow analysis request.
pub struct AnalyzeWorkflowResponse {
    pub is_valid: bool,
    pub analysis: WorkflowAnalysis,
    pub suggested_prompt_mappings: Vec<PromptMappingSuggestion>,
    pub errors: Vec<String>,
}

/// A text input the user can map a prompt to.
pub struct TextInputInfo {
    pub node_id: String,
    pub node_title: Option<String>,
    pub input_name: String,
}

/// The analysis as the upload wizard shows it.
pub struct WorkflowAnalysisResult {
    pub is_valid: bool,
    pub node_count: usize,
    pub input_count: usize,
    pub text_inputs: Vec<TextInputInfo>,
    pub suggested_primary: Option<TextInputInfo>,
    pub suggested_negative: Option<TextInputInfo>,
    pub errors: Vec<String>,
}

/// The steps of the upload wizard.
#[derive(PartialEq, Eq, Structural, Clone, Copy, Debug)]
pub enum UploadStep {
    Upload,
    Configure,
    Review,
}

impl Default for UploadStep {
    /// The wizard starts at the upload step.
    fn default() -> (r: UploadStep)
        ensures
            r == UploadStep::Upload,
    {
        UploadStep::Upload
    }
}

/// A text input of the analysis as the wizard lists it.
pub open spec fn info_of(t: WorkflowTextInput) -> TextInputInfo {
    TextInputInfo { node_id: t.node_id, node_title: t.node_title, input_name: t.input_name }
}

/// A suggestion has mapping type `ty`.
pub open spec fn of_type(ty: Seq<char>) -> spec_fn(PromptMappingSuggestion) -> bool {
    |m: PromptMappingSuggestion| m.mapping_type@ == ty
}

/// A text input belongs to node `node_id` and is named `input_name`.
pub open spec fn named_input(node_id: Seq<char>, input_name: Seq<char>) -> spec_fn(WorkflowTextInput) -> bool {
    |t: WorkflowTextInput| t.node_id@ == node_id && t.input_name@ == input_name
}

/// The text input a suggested mapping of type `ty` points at: the first
/// suggestion of that type, then the first text input with its node and
/// input name; none when either is missing.
pub open spec fn suggested_input(resp: AnalyzeWorkflowResponse, ty: Seq<char>) -> Option<TextInputInfo> {
    let ms = resp.suggested_prompt_mappings@;
    let ts = resp.analysis.text_inputs@;
    match first_where(ms, of_type(ty), 0) {
        None => None,
        Some(k) => match first_where(ts, named_input(ms[k].node_id@, ms[k].input_name@), 0) {
            None => None,
            Some(j) => Some(info_of(ts[j])),
        },
    }
}

/// A copy of a text input as the wizard lists it.
fn info_from(t: &WorkflowTextInput) -> (r: TextInputInfo)
    ensures
        r == info_of(*t),
{
    TextInputInfo {
        node_id: t.node_id.clone(),
        node_title: copy_opt_string(&t.node_title),
        input_name: t.input_name.clone(),
    }
}

/// The index of the first suggestion of type `ty`.
fn first_mapping_of_type(ms: &Vec<PromptMappingSuggestion>, ty: &str) -> (r: Option<usize>)
    ensures
        match r {
            Some(k) => first_where(ms@, of_type(ty@), 0) == Some(k as int),
            None => first_where(ms@, of_type(ty@), 0) is None,
        },
{
    let ghost pm = of_type(ty@);
    let mut k: usize = 0;
    while k < ms.len()
        invariant
            k <= ms@.len(),
            pm == of_type(ty@),
            forall|m: PromptMappingSuggestion| #[trigger] pm(m) == (m.mapping_type@ == ty@),
            first_where(ms@, pm, 0) == first_where(ms@, pm, k as int),
        decreases ms.len() - k,
    {
        if str_eq(ms[k].mapping_type.as_str(), ty) {
            return Some(k);
        }
        k = k + 1;
    }
    None
}

/// The index of the first text input of node `node_id` named `input_name`.
fn first_input_named(ts: &Vec<WorkflowTextInput>, node_id: &String, input_name: &String) -> (r: Option<usize>)
    ensures
        match r {
            Some(j) => first_where(ts@, named_input(node_id@, input_name@), 0) == Some(j as int),
            None => first_where(ts@, named_input(node_id@, input_name@), 0) is None,
        },
{
    let ghost pt = named_input(node_id@, input_name@);
    let mut j: usize = 0;
    while j < ts.len()
        invariant
            j <= ts@.len(),
            pt == named_input(node_id@, input_name@),
            forall|t: WorkflowTextInput| #[trigger] pt(t) == (t.node_id@ == node_id@ && t.input_name@ == input_name@),
            first_where(ts@, pt, 0) == first_where(ts@, pt, j as int),
        decreases ts.len() - j,
    {
        if ts[j].node_id == *node_id && ts[j].input_name == *input_name {
            return Some(j);
        }
        j = j + 1;
    }
    None
}

/// The text input the first suggestion of type `ty` points at.
fn find_suggested(resp: &AnalyzeWorkflowResponse, ty: &str) -> (r: Option<TextInputInfo>)
    ensures
        r == suggested_input(*resp, ty@),
{
    match first_mapping_of_type(&resp.suggested_prompt_mappings, ty) {
        None => None,
        Some(k) => {
            proof {
                lemma_first_where(resp.suggested_prompt_mappings@, of_type(ty@), 0);
            }
            let m = &resp.suggested_prompt_mappings[k];
            match first_input_named(&resp.analysis.text_inputs, &m.node_id, &m.input_name) {
                None => None,
                Some(j) => {
                    proof {
                        lemma_first_where(
                            resp.analysis.text_inputs@,
                            named_input(m.node_id@, m.input_name@),
                            0,
                        );
                    }
                    Some(info_from(&resp.analysis.text_inputs[j]))
                },
            }
        },
    }
}

impl WorkflowAnalysisResult {
    /// The analysis of the Engine's reply as the wizard shows it: the text
    /// inputs in order, the number of configurable inputs, and the inputs
    /// the suggested primary and negative prompt mappings point at.
    pub fn from_response(resp: AnalyzeWorkflowResponse) -> (r: WorkflowAnalysisResult)
        ensures
            r.is_valid == resp.is_valid,
            r.node_count == resp.analysis.node_count,
            r.input_count == resp.analysis.inputs@.len(),
            r.text_inputs@ == resp.analysis.text_inputs@.map_values(|t: WorkflowTextInput| info_of(t)),
            r.suggested_primary == suggested_input(resp, "primary"@),
            r.suggested_negative == suggested_input(resp, "negative"@),
            r.errors@ == resp.errors@,
    {
        let mut text_inputs: Vec<TextInputInfo> = Vec::new();
        let mut i: usize = 0;
        while i < resp.analysis.text_inputs.len()
            invariant
                i <= resp.analysis.text_inputs@.len(),
                text_inputs@ == resp.analysis.text_inputs@.take(i as int).map_values(
                    |t: WorkflowTextInput| info_of(t),
                ),
            decreases resp.analysis.text_inputs.len() - i,
        {
            text_inputs.push(info_from(&resp.analysis.text_inputs[i]));
            assert(resp.analysis.text_inputs@.take(i + 1).map_values(|t: WorkflowTextInput| info_of(t))
                =~= resp.analysis.text_inputs@.take(i as int).map_values(
                |t: WorkflowTextInput| info_of(t),
            ).push(info_of(resp.analysis.text_inputs@[i as int])));
            i = i + 1;
        }
        assert(resp.analysis.text_inputs@.take(resp.analysis.text_inputs@.len() as int)
            =~= resp.analysis.text_inputs@);
        let suggested_primary = find_suggested(&resp, "primary");
        let suggested_negative = find_suggested(&resp, "negative");
        WorkflowAnalysisResult {
            is_valid: resp.is_valid,
            node_count: resp.analysis.node_count,
            input_count: resp.analysis.inputs.len(),
            text_inputs,
            suggested_primary,
            suggested_negative,
            errors: resp.errors,
        }
    }
}

// ---------------------------------------------------------------------------
// The upload wizard
// ---------------------------------------------------------------------------

/// Whether the indicator of `step` is active and whether it is complete
/// while the wizard is at `current`.
pub fn step_indicator(current: UploadStep, step: UploadStep) -> (r: (bool, bool))
    ensures
        r.0 == (current == step),
        r.1 == match step {
            UploadStep::Upload => current != UploadStep::Upload,
            UploadStep::Configure => current == UploadStep::Review,
            UploadStep::Review => false,
        },
{
    let complete = match step {
        UploadStep::Upload => current != UploadStep::Upload,
        UploadStep::Configure => current == UploadStep::Review,
        UploadStep::Review => false,
    };
    (current == step, complete)
}

/// The step "Back" leads to; none from the first step.
pub fn previous_upload_step(current: UploadStep) -> (r: Option<UploadStep>)
    ensures
        r == match current {
            UploadStep::Upload => None,
            UploadStep::Configure => Some(UploadStep::Upload),
            UploadStep::Review => Some(UploadStep::Configure),
        },
{
    match current {
        UploadStep::Upload => None,
        UploadStep::Configure => Some(UploadStep::Upload),
        UploadStep::Review => Some(UploadStep::Configure),
    }
}

/// Analysis can start once both a name and the workflow JSON are given and
/// no analysis is running.
pub fn can_analyze(workflow_name: &str, workflow_json: &str, analyzing: bool) -> (r: bool)
    ensures
        r == (workflow_name@.len() > 0 && workflow_json@.len() > 0 && !analyzing),
{
    !workflow_name.is_empty() && !workflow_json.is_empty() && !analyzing
}

/// How a text input is labelled: its node's title, or "Node <id>", then an
/// arrow and the input's name.
pub open spec fn input_label_spec(i: TextInputInfo) -> Seq<char> {
    let node = match i.node_title {
        Some(t) => t@,
        None => "Node "@ + i.node_id@,
    };
    node + " → "@ + i.input_name@
}

/// How a text input is labelled in the selector and the review.
pub fn input_label(i: &TextInputInfo) -> (r: String)
    ensures
        r@ == input_label_spec(*i),
{
    let mut r = match &i.node_title {
        Some(t) => t.clone(),
        None => {
            let mut n = owned("Node ");
            n.append(i.node_id.as_str());
            n
        },
    };
    r.append(" → ");
    r.append(i.input_name.as_str());
    assert(r@ =~= input_label_spec(*i));
    r
}

/// How a chosen prompt mapping is shown in the review: its label, or
/// "(Not set)".
pub fn mapping_label(m: &Option<TextInputInfo>) -> (r: String)
    ensures
        r@ == match *m {
            Some(i) => input_label_spec(i),
            None => "(Not set)"@,
        },
{
    match m {
        Some(i) => input_label(i),
        None => owned("(Not set)"),
    }
}

/// The key of a text input in the selector: node ID, colon, input name.
pub open spec fn input_key_spec(i: TextInputInfo) -> Seq<char> {
    i.node_id@ + ":"@ + i.input_name@
}

/// The key of a text input in the selector.
pub fn input_key(i: &TextInputInfo) -> (r: String)
    ensures
        r@ == input_key_spec(*i),
{
    let mut r = i.node_id.clone();
    r.append(":");
    r.append(i.input_name.as_str());
    r
}

/// An input whose selector key is `value`.
pub open spec fn keyed(value: Seq<char>) -> spec_fn(TextInputInfo) -> bool {
    |i: TextInputInfo| input_key_spec(i) == value
}

/// The input the selector's value names: none for the empty value, else the
/// first input whose key equals it.
pub fn select_input(inputs: &Vec<TextInputInfo>, value: &str) -> (r: Option<TextInputInfo>)
    ensures
        value@.len() == 0 ==> r is None,
        value@.len() > 0 ==> r == match first_where(inputs@, keyed(value@), 0) {
            Some(k) => Some(inputs@[k]),
            None => None,
        },
{
    if value.is_empty() {
        return None;
    }
    let ghost p = keyed(value@);
    let mut k: usize = 0;
    while k < inputs.len()
        invariant
            k <= inputs@.len(),
            value@.len() > 0,
            p == keyed(value@),
            forall|i: TextInputInfo| #[trigger] p(i) == (input_key_spec(i) == value@),
            first_where(inputs@, p, 0) == first_where(inputs@, p, k as int),
        decreases inputs.len() - k,
    {
        let key = input_key(&inputs[k]);
        if str_eq(key.as_str(), value) {
            let i = &inputs[k];
            let found = TextInputInfo {
                node_id: i.node_id.clone(),
                node_title: copy_opt_string(&i.node_title),
                input_name: i.input_name.clone(),
            };
            return Some(found);
        }
        k = k + 1;
    }
    None
}

// ---------------------------------------------------------------------------
// The typed workflow JSON
// ---------------------------------------------------------------------------

/// A JSON value, as serde_json holds it.
#[verifier::external_type_specification]
#[verifier::external_body]
pub struct ExJsonValue(serde_json::Value);

/// What `serde_json::from_str::<serde_json::Value>` says of a text: `None`
/// when it reads as JSON, else the text of its error (which names the line
/// and column of the fault).
pub uninterp spec fn json_error_of(text: Seq<char>) -> Option<Seq<char>>;

/// `serde_json::from_str::<serde_json::Value>`: the value, or its error as
/// text (`Display` of `serde_json::Error`). The contract ties the outcome to
/// the text through `json_error_of`; which texts parse is not stated.
#[verifier::external_body]
fn parse_json_value(text: &str) -> (r: Result<serde_json::Value, String>)
    ensures
        match r {
            Ok(_) => json_error_of(text@) is None,
            Err(e) => json_error_of(text@) == Some(e@),
        },
{
    match serde_json::from_str::<serde_json::Value>(text) {
        Ok(v) => Ok(v),
        Err(e) => Err(e.to_string()),
    }
}

/// The error shown for workflow text that is not JSON: "Invalid JSON: "
/// followed by the parser's message.
pub fn invalid_json_error(message: &str) -> (r: String)
    ensures
        r@ == "Invalid JSON: "@ + message@,
{
    concat_str("Invalid JSON: ", message)
}

/// Reads the workflow JSON the user typed or uploaded, before it is analyzed
/// or saved: its value, or the "Invalid JSON: " error.
pub fn read_workflow_json(text: &str) -> (r: Result<serde_json::Value, String>)
    ensures
        match json_error_of(text@) {
            None => r is Ok,
            Some(m) => r matches Err(e) && e@ == "Invalid JSON: "@ + m,
        },
{
    match parse_json_value(text) {
        Ok(v) => Ok(v),
        Err(m) => Err(invalid_json_error(m.as_str())),
    }
}

// ---------------------------------------------------------------------------
// Edited input defaults
// ---------------------------------------------------------------------------

/// The default value set for one input of a workflow node.
pub struct InputDefault<V> {
    pub node_id: String,
    pub input_name: String,
    pub default_value: V,
}

/// A default set for the input `input_name` of node `node_id`.
pub open spec fn for_input<V>(node_id: Seq<char>, input_name: Seq<char>) -> spec_fn(InputDefault<V>) -> bool {
    |d: InputDefault<V>| d.node_id@ == node_id && d.input_name@ == input_name
}

/// The edited defaults after the user sets a value: the first default for
/// the same input takes the new value (keeping its place), or, when the input
/// has none yet, the new default is appended.
pub open spec fn with_default<V>(defaults: Seq<InputDefault<V>>, new_value: InputDefault<V>) -> Seq<InputDefault<V>> {
    match first_where(defaults, for_input(new_value.node_id@, new_value.input_name@), 0) {
        Some(i) => defaults.update(i, InputDefault { default_value: new_value.default_value, ..defaults[i] }),
        None => defaults.push(new_value),
    }
}

/// Sets the default of one input in the edited defaults: updated in place
/// when the input already has one, appended otherwise.
pub fn set_input_default<V>(defaults: &mut Vec<InputDefault<V>>, new_value: InputDefault<V>)
    ensures
        final(defaults)@ == with_default(old(defaults)@, new_value),
{
    let ghost p = for_input::<V>(new_value.node_id@, new_value.input_name@);
    let mut k: usize = 0;
    while k < defaults.len()
        invariant
            k <= defaults@.len(),
            defaults@ == old(defaults)@,
            p == for_input::<V>(new_value.node_id@, new_value.input_name@),
            forall|d: InputDefault<V>| #[trigger] p(d) == (d.node_id@ == new_value.node_id@ && d.input_name@ == new_value.input_name@),
            first_where(defaults@, p, 0) == first_where(defaults@, p, k as int),
        decreases defaults.len() - k,
    {
        if defaults[k].node_id == new_value.node_id && defaults[k].input_name == new_value.input_name {
            assert(p(defaults@[k as int]));
            defaults[k].default_value = new_value.default_value;
            return;
        }
        k = k + 1;
    }
    defaults.push(new_value);
}

/// After a default is set, the default the editor shows for that input (the
/// first one for it) holds the value just set.
pub proof fn law_default_read_back<V>(defaults: Seq<InputDefault<V>>, new_value: InputDefault<V>)
    ensures
        ({
            let after = with_default(defaults, new_value);
            match first_where(after, for_input(new_value.node_id@, new_value.input_name@), 0) {
                Some(i) => after[i].default_value == new_value.default_value,
                None => false,
            }
        }),
{
    let p = for_input::<V>(new_value.node_id@, new_value.input_name@);
    let after = with_default(defaults, new_value);
    lemma_first_where(defaults, p, 0);
    match first_where(defaults, p, 0) {
        Some(i) => {
            assert forall|k: int| 0 <= k < i implies !p(#[trigger] after[k]) by {
                assert(after[k] == defaults[k]);
            }
            lemma_first_where_at(after, p, 0, i);
        },
        None => {
            let n = defaults.len() as int;
            assert forall|k: int| 0 <= k < n implies !p(#[trigger] after[k]) by {
                assert(after[k] == defaults[k]);
            }
            assert(after[n] == new_value);
            lemma_first_where_at(after, p, 0, n);
        },
    }
}

// ---------------------------------------------------------------------------
// Typed input values
// ---------------------------------------------------------------------------

/// A workflow input value read by its declared type.
pub enum ParsedInputValue {
    /// An "integer" input that reads as an `i64`.
    Integer(i64),
    /// A "float" input: the text, to be read as a float by the caller (and
    /// kept as text when it is not a finite number).
    Float(String),
    /// A "boolean" input: true for "true" or "1".
    Boolean(bool),
    /// Any other input, or an integer input that does not read as one.
    Text(String),
}

/// How a value of the given input type is read.
pub open spec fn parsed_input_spec(value: Seq<char>, input_type: Seq<char>, r: ParsedInputValue) -> bool {
    if input_type == "integer"@ {
        match parse_int_spec(value, true, i64::MIN as int, i64::MAX as int) {
            Some(v) => r == ParsedInputValue::Integer(v as i64),
            None => r matches ParsedInputValue::Text(t) && t@ == value,
        }
    } else if input_type == "float"@ {
        r matches ParsedInputValue::Float(t) && t@ == value
    } else if input_type == "boolean"@ {
        r == ParsedInputValue::Boolean(value == "true"@ || value == "1"@)
    } else {
        r matches ParsedInputValue::Text(t) && t@ == value
    }
}

/// Reads a workflow input value by its declared type.
pub fn parse_input_value(value: &str, input_type: &str) -> (r: ParsedInputValue)
    ensures
        parsed_input_spec(value@, input_type@, r),
{
    if str_eq(input_type, "integer") {
        let chars = chars_of(value);
        match parse_int(&chars, true, i64::MIN, i64::MAX) {
            Some(v) => ParsedInputValue::Integer(v),
            None => ParsedInputValue::Text(owned(value)),
        }
    } else if str_eq(input_type, "float") {
        ParsedInputValue::Float(owned(value))
    } else if str_eq(input_type, "boolean") {
        ParsedInputValue::Boolean(str_eq(value, "true") || str_eq(value, "1"))
    } else {
        ParsedInputValue::Text(owned(value))
    }
}

/// The input a suggested mapping points at comes from the analysis: it is a
/// text input of the workflow, listed with its node, title and name, and a
/// suggestion of the requested type names its node and input; with no
/// suggestion of that type, nothing is suggested.
pub proof fn law_suggested_input(resp: AnalyzeWorkflowResponse, ty: Seq<char>)
    ensures
        suggested_input(resp, ty) matches Some(i) ==> (exists|j: int|
            0 <= j < resp.analysis.text_inputs@.len() && #[trigger] resp.analysis.text_inputs@[j].node_id == i.node_id
                && resp.analysis.text_inputs@[j].input_name == i.input_name
                && resp.analysis.text_inputs@[j].node_title == i.node_title),
        suggested_input(resp, ty) matches Some(i) ==> (exists|k: int|
            0 <= k < resp.suggested_prompt_mappings@.len() && (#[trigger] resp.suggested_prompt_mappings@[k]).mapping_type@
                == ty && resp.suggested_prompt_mappings@[k].node_id@ == i.node_id@
                && resp.suggested_prompt_mappings@[k].input_name@ == i.input_name@),
        (forall|k: int|
            0 <= k < resp.suggested_prompt_mappings@.len() ==> (#[trigger] resp.suggested_prompt_mappings@[k]).mapping_type@
                != ty) ==> suggested_input(resp, ty) is None,
{
    let ms = resp.suggested_prompt_mappings@;
    let ts = resp.analysis.text_inputs@;
    lemma_first_where(ms, of_type(ty), 0);
    match first_where(ms, of_type(ty), 0) {
        None => {},
        Some(k) => {
            lemma_first_where(ts, named_input(ms[k].node_id@, ms[k].input_name@), 0);
            match first_where(ts, named_input(ms[k].node_id@, ms[k].input_name@), 0) {
                None => {},
                Some(j) => {
                    assert(ts[j].node_id == info_of(ts[j]).node_id);
                },
            }
        },
    }
}

/// A text input is labelled by its node's title, or "Node " and the node's
/// ID when it has none, then " → " and the input's name.
pub proof fn law_input_label(i: TextInputInfo)
    ensures
        i.node_title matches Some(t) ==> input_label_spec(i) == t@ + " → "@ + i.input_name@,
        i.node_title is None ==> input_label_spec(i) == "Node "@ + i.node_id@ + " → "@ + i.input_name@,
        input_key_spec(i) == i.node_id@ + ":"@ + i.input_name@,
{
}

/// How typed input values read: an "integer" input that reads as an `i64`
/// is that number, else it stays text; a "boolean" input is true exactly for
/// "true" or "1"; a "float" input is kept as text to be read as a float; any
/// other type stays text.
pub proof fn law_input_values(value: Seq<char>, input_type: Seq<char>, r: ParsedInputValue)
    requires
        parsed_input_spec(value, input_type, r),
    ensures
        input_type == "integer"@ ==> (parse_int_spec(value, true, i64::MIN as int, i64::MAX as int) matches Some(v)
            ==> r == ParsedInputValue::Integer(v as i64)),
        input_type == "integer"@ ==> (parse_int_spec(value, true, i64::MIN as int, i64::MAX as int) is None ==> (
        r matches ParsedInputValue::Text(t) && t@ == value)),
        input_type == "boolean"@ ==> r == ParsedInputValue::Boolean(value == "true"@ || value == "1"@),
        input_type == "float"@ ==> (r matches ParsedInputValue::Float(t) && t@ == value),
        !(input_type == "integer"@ || input_type == "boolean"@ || input_type == "float"@) ==> (
        r matches ParsedInputValue::Text(t) && t@ == value),
{
    reveal_strlit("integer");
    reveal_strlit("boolean");
    reveal_strlit("float");
    assert("integer"@.len() == 7 && "boolean"@.len() == 7 && "float"@.len() == 5);
    assert("integer"@[0] == 'i' && "boolean"@[0] == 'b');
}

/// Setting a default touches only that input: when the input already has a
/// default, the list keeps its length and only the first default for the
/// input changes (to the new value, keeping its place); otherwise the new
/// default is added at the end. Every other default stays where it was.
pub proof fn law_default_keeps_others<V>(defaults: Seq<InputDefault<V>>, new_value: InputDefault<V>)
    ensures
        ({
            let after = with_default(defaults, new_value);
            let p = for_input::<V>(new_value.node_id@, new_value.input_name@);
            &&& (exists|k: int| 0 <= k < defaults.len() && p(#[trigger] defaults[k])) ==> after.len() == defaults.len()
            &&& (forall|k: int| 0 <= k < defaults.len() ==> !p(#[trigger] defaults[k])) ==> after == defaults.push(
                new_value,
            )
            &&& forall|k: int|
                0 <= k < defaults.len() && !p(#[trigger] defaults[k]) ==> after[k] == defaults[k]
            &&& forall|k: int|
                0 <= k < defaults.len() && p(#[trigger] defaults[k]) ==> after[k].node_id == defaults[k].node_id
                    && after[k].input_name == defaults[k].input_name
        }),
{
    let p = for_input::<V>(new_value.node_id@, new_value.input_name@);
    lemma_first_where(defaults, p, 0);
    match first_where(defaults, p, 0) {
        Some(_) => {},
        None => {
            assert forall|k: int| 0 <= k < defaults.len() implies !p(#[trigger] defaults[k]) by {}
        },
    }
}

} // verus!
