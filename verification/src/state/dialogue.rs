//! Dialogue state with a typewriter effect: the full text of the current
//! line, the part shown so far, choices and input flags.
use vstd::prelude::*;
use vstd::string::StrSliceExecFns;
use vstd::utf8::{encode_utf8, is_ascii_chars, is_ascii_chars_encode_utf8};
use crate::copy::copy_string;
use crate::dto::DialogueChoice;
use crate::state::connection::opt_view;
use crate::text::push_char;

verus! {

/// The length in UTF-8 bytes of text with characters `s`, as `str::len`
/// returns it.
pub open spec fn utf8_len(s: Seq<char>) -> usize {
    encode_utf8(s).len() as usize
}

/// The delay in milliseconds after showing `c`: longer after sentence ends,
/// shorter after clause breaks.
pub open spec fn char_delay_spec(c: char) -> u32 {
    if c == '.' || c == '!' || c == '?' {
        150
    } else if c == ',' || c == ';' || c == ':' {
        80
    } else {
        30
    }
}

/// The typewriter delay after showing `c`.
pub fn char_delay(c: char) -> (r: u32)
    ensures
        r == char_delay_spec(c),
{
    match c {
        '.' | '!' | '?' => 150,
        ',' | ';' | ':' => 80,
        _ => 30,
    }
}

/// The abstract dialogue state.
pub struct DialogueModel {
    pub speaker_name: Seq<char>,
    pub full_text: Seq<char>,
    pub displayed_text: Seq<char>,
    pub is_typing: bool,
    pub choices: Seq<DialogueChoice>,
    pub awaiting_input: bool,
    pub custom_input: Seq<char>,
    pub speaker_id: Option<Seq<char>>,
    pub is_llm_processing: bool,
}

impl DialogueModel {
    /// Nothing to show.
    pub open spec fn empty() -> DialogueModel {
        DialogueModel {
            speaker_name: Seq::empty(),
            full_text: Seq::empty(),
            displayed_text: Seq::empty(),
            is_typing: false,
            choices: Seq::empty(),
            awaiting_input: false,
            custom_input: Seq::empty(),
            speaker_id: None,
            is_llm_processing: false,
        }
    }

    /// `apply_dialogue`: a new line starts typing from nothing.
    pub open spec fn apply(
        self,
        speaker_id: Seq<char>,
        speaker_name: Seq<char>,
        text: Seq<char>,
        choices: Seq<DialogueChoice>,
    ) -> DialogueModel {
        DialogueModel {
            speaker_name,
            full_text: text,
            displayed_text: Seq::empty(),
            is_typing: true,
            choices,
            awaiting_input: false,
            custom_input: Seq::empty(),
            speaker_id: Some(speaker_id),
            is_llm_processing: false,
        }
    }

    /// `skip_typewriter`: everything shown, waiting for input.
    pub open spec fn skipped(self) -> DialogueModel {
        DialogueModel {
            displayed_text: self.full_text,
            is_typing: false,
            awaiting_input: true,
            ..self
        }
    }

    /// `type_character`. While the shown text is shorter in UTF-8 bytes than
    /// the full text, the character of the full text at the index given by
    /// that byte length is appended (if there is one); otherwise typing stops
    /// and input is awaited.
    pub open spec fn typed(self) -> DialogueModel {
        let k = utf8_len(self.displayed_text);
        if k < utf8_len(self.full_text) {
            if k < self.full_text.len() {
                DialogueModel { displayed_text: self.displayed_text.push(self.full_text[k as int]), ..self }
            } else {
                self
            }
        } else {
            DialogueModel { is_typing: false, awaiting_input: true, ..self }
        }
    }
}

/// Dialogue state for the visual novel UI.
pub struct DialogueState {
    pub speaker_name: String,
    pub full_text: String,
    pub displayed_text: String,
    pub is_typing: bool,
    pub choices: Vec<DialogueChoice>,
    pub awaiting_input: bool,
    pub custom_input: String,
    pub speaker_id: Option<String>,
    pub is_llm_processing: bool,
}

impl View for DialogueState {
    type V = DialogueModel;

    open spec fn view(&self) -> DialogueModel {
        DialogueModel {
            speaker_name: self.speaker_name@,
            full_text: self.full_text@,
            displayed_text: self.displayed_text@,
            is_typing: self.is_typing,
            choices: self.choices@,
            awaiting_input: self.awaiting_input,
            custom_input: self.custom_input@,
            speaker_id: opt_view(self.speaker_id),
            is_llm_processing: self.is_llm_processing,
        }
    }
}

impl DialogueState {
    /// An empty dialogue state.
    pub fn new() -> (r: DialogueState)
        ensures
            r@ == DialogueModel::empty(),
    {
        DialogueState {
            speaker_name: String::new(),
            full_text: String::new(),
            displayed_text: String::new(),
            is_typing: false,
            choices: Vec::new(),
            awaiting_input: false,
            custom_input: String::new(),
            speaker_id: None,
            is_llm_processing: false,
        }
    }

    /// Applies a new dialogue line and starts the typewriter.
    pub fn apply_dialogue(
        &mut self,
        speaker_id: String,
        speaker_name: String,
        text: String,
        choices: Vec<DialogueChoice>,
    )
        ensures
            final(self)@ == old(self)@.apply(speaker_id@, speaker_name@, text@, choices@),
    {
        self.speaker_id = Some(speaker_id);
        self.speaker_name = speaker_name;
        self.full_text = text;
        self.displayed_text = String::new();
        self.choices = choices;
        self.is_typing = true;
        self.awaiting_input = false;
        self.custom_input = String::new();
        self.is_llm_processing = false;
    }

    /// Skips to the end of the typewriter animation.
    pub fn skip_typewriter(&mut self)
        ensures
            final(self)@ == old(self)@.skipped(),
    {
        self.displayed_text = copy_string(&self.full_text);
        self.is_typing = false;
        self.awaiting_input = true;
    }

    /// Types one more character (manual typewriter control).
    pub fn type_character(&mut self)
        ensures
            final(self)@ == old(self)@.typed(),
    {
        let k = self.displayed_text.as_str().len();
        if k < self.full_text.as_str().len() {
            let n = self.full_text.as_str().unicode_len();
            if k < n {
                let c = self.full_text.as_str().get_char(k);
                push_char(&mut self.displayed_text, c);
            }
        } else {
            self.is_typing = false;
            self.awaiting_input = true;
        }
    }

    /// Whether the shown text is at least as long (in UTF-8 bytes) as the full text.
    pub fn is_typing_complete(&self) -> (r: bool)
        ensures
            r == (utf8_len(self@.displayed_text) >= utf8_len(self@.full_text)),
    {
        self.displayed_text.as_str().len() >= self.full_text.as_str().len()
    }

    /// The delay before the next character, after the last shown one
    /// (30 ms when nothing is shown).
    pub fn get_char_delay(&self) -> (r: u32)
        ensures
            r == (if self@.displayed_text.len() == 0 {
                30
            } else {
                char_delay_spec(self@.displayed_text.last())
            }),
    {
        let n = self.displayed_text.as_str().unicode_len();
        if n == 0 {
            30
        } else {
            char_delay(self.displayed_text.as_str().get_char(n - 1))
        }
    }

    /// Clears the dialogue state.
    pub fn clear(&mut self)
        ensures
            final(self)@ == DialogueModel::empty(),
    {
        self.speaker_id = None;
        self.speaker_name = String::new();
        self.full_text = String::new();
        self.displayed_text = String::new();
        self.is_typing = false;
        self.choices = Vec::new();
        self.awaiting_input = false;
        self.custom_input = String::new();
        self.is_llm_processing = false;
    }

    /// Whether there is a line to show.
    pub fn has_dialogue(&self) -> (r: bool)
        ensures
            r == (self@.full_text.len() > 0),
    {
        !self.full_text.as_str().is_empty()
    }

    /// Whether there are choices.
    pub fn has_choices(&self) -> (r: bool)
        ensures
            r == (self@.choices.len() > 0),
    {
        self.choices.len() > 0
    }

    /// Whether some choice takes custom input.
    pub fn has_custom_input(&self) -> (r: bool)
        ensures
            r == exists|i: int| 0 <= i < self@.choices.len() && (#[trigger] self@.choices[i]).is_custom_input,
    {
        let mut i: usize = 0;
        while i < self.choices.len()
            invariant
                i <= self.choices.len(),
                forall|k: int| 0 <= k < i ==> !(#[trigger] self.choices@[k]).is_custom_input,
            decreases self.choices.len() - i,
        {
            if self.choices[i].is_custom_input {
                assert(self@.choices[i as int].is_custom_input);
                return true;
            }
            i = i + 1;
        }
        false
    }
}

impl Default for DialogueState {
    fn default() -> (r: DialogueState)
        ensures
            r@ == DialogueModel::empty(),
    {
        DialogueState::new()
    }
}

/// Skipping shows the whole line: afterwards typing is complete and input is awaited.
pub proof fn law_skip_completes(m: DialogueModel)
    ensures
        m.skipped().displayed_text == m.full_text,
        utf8_len(m.skipped().displayed_text) >= utf8_len(m.skipped().full_text),
        !m.skipped().is_typing,
        m.skipped().awaiting_input,
{
}

/// On an ASCII line whose shown part is a prefix, each typed character
/// extends the prefix by the next character of the line; once the whole line
/// is shown, typing stops and input is awaited.
pub proof fn law_typewriter_prefix(m: DialogueModel)
    requires
        is_ascii_chars(m.full_text),
        m.full_text.len() <= usize::MAX,
        m.displayed_text.len() <= m.full_text.len(),
        m.displayed_text == m.full_text.take(m.displayed_text.len() as int),
    ensures
        m.displayed_text.len() < m.full_text.len() ==> m.typed().displayed_text == m.full_text.take(
            m.displayed_text.len() + 1int,
        ),
        m.displayed_text.len() == m.full_text.len() ==> !m.typed().is_typing
            && m.typed().awaiting_input && m.typed().displayed_text == m.full_text,
{
    is_ascii_chars_encode_utf8(m.full_text);
    assert(is_ascii_chars(m.displayed_text)) by {
        assert forall|i: int| 0 <= i < m.displayed_text.len() implies '\0' <= #[trigger] m.displayed_text[i] <= '\u{7f}' by {
            assert(m.displayed_text[i] == m.full_text[i]);
        }
    }
    is_ascii_chars_encode_utf8(m.displayed_text);
    if m.displayed_text.len() < m.full_text.len() {
        assert(m.displayed_text.push(m.full_text[m.displayed_text.len() as int]) =~= m.full_text.take(
            m.displayed_text.len() + 1int,
        ));
    } else {
        assert(m.displayed_text =~= m.full_text);
    }
}

/// A new line starts from nothing shown, typing, and clears the LLM indicator.
pub proof fn law_apply_starts_typing(
    m: DialogueModel,
    id: Seq<char>,
    name: Seq<char>,
    text: Seq<char>,
    choices: Seq<DialogueChoice>,
)
    ensures
        m.apply(id, name, text, choices).displayed_text.len() == 0,
        m.apply(id, name, text, choices).is_typing,
        !m.apply(id, name, text, choices).awaiting_input,
        !m.apply(id, name, text, choices).is_llm_processing,
        m.apply(id, name, text, choices).full_text == text,
        m.apply(id, name, text, choices).speaker_name == name,
        m.apply(id, name, text, choices).speaker_id == Some(id),
        m.apply(id, name, text, choices).choices == choices,
        m.apply(id, name, text, choices).custom_input.len() == 0,
{
}

/// The typewriter pauses longest after a sentence ends (150 ms after '.',
/// '!' or '?'), shorter after a clause break (80 ms after ',', ';' or ':'),
/// and 30 ms after any other character; each step waits the pause after the
/// character it showed.
pub proof fn law_typing_pauses(c: char, m: DialogueModel, text: Seq<char>, typed: int, post: DialogueModel, step: TypewriterStep)
    requires
        typewriter_step_spec(m, text, typed, post, step),
    ensures
        (c == '.' || c == '!' || c == '?') ==> char_delay_spec(c) == 150,
        (c == ',' || c == ';' || c == ':') ==> char_delay_spec(c) == 80,
        !(c == '.' || c == '!' || c == '?' || c == ',' || c == ';' || c == ':') ==> char_delay_spec(c) == 30,
        (m.is_typing && 0 <= typed < text.len()) ==> step == (TypewriterStep::Wait {
            delay_ms: char_delay_spec(text[typed]),
        }) && post.full_text == m.full_text && post.speaker_name == m.speaker_name && post.choices
            == m.choices,
        !(m.is_typing && 0 <= typed < text.len()) ==> step is Finished && !post.is_typing
            && post.awaiting_input && post.displayed_text == m.displayed_text,
{
}


// ---------------------------------------------------------------------------
// The typewriter animation
// ---------------------------------------------------------------------------

/// What the typewriter animation does next.
pub enum TypewriterStep {
    /// Wait this many milliseconds, then take the next step.
    Wait { delay_ms: u32 },
    /// The animation is over.
    Finished,
}

/// One step of the typewriter animation over `text` (the line as it was when
/// the animation started), `typed` characters of which are shown: while the
/// line is still typing and characters remain, one more is shown and the
/// delay after it follows; otherwise typing stops and input is awaited.
pub open spec fn typewriter_step_spec(
    m: DialogueModel,
    text: Seq<char>,
    typed: int,
    post: DialogueModel,
    step: TypewriterStep,
) -> bool {
    if m.is_typing && 0 <= typed < text.len() {
        &&& post == DialogueModel { displayed_text: text.take(typed + 1), ..m }
        &&& step == TypewriterStep::Wait { delay_ms: char_delay_spec(text[typed]) }
    } else {
        &&& post == DialogueModel { is_typing: false, awaiting_input: true, ..m }
        &&& step == TypewriterStep::Finished
    }
}

/// Takes one step of the typewriter animation (see `typewriter_step_spec`);
/// the caller waits the returned delay before the next step.
pub fn typewriter_step(dialogue: &mut DialogueState, text: &Vec<char>, typed: usize) -> (step: TypewriterStep)
    ensures
        typewriter_step_spec(old(dialogue)@, text@, typed as int, final(dialogue)@, step),
{
    if dialogue.is_typing && typed < text.len() {
        let mut shown = String::new();
        let mut i: usize = 0;
        while i <= typed
            invariant
                i <= typed + 1,
                typed < text.len(),
                shown@ == text@.take(i as int),
            decreases typed + 1 - i,
        {
            push_char(&mut shown, text[i]);
            assert(text@.take(i as int).push(text@[i as int]) =~= text@.take(i + 1));
            i = i + 1;
        }
        dialogue.displayed_text = shown;
        TypewriterStep::Wait { delay_ms: char_delay(text[typed]) }
    } else {
        dialogue.is_typing = false;
        dialogue.awaiting_input = true;
        TypewriterStep::Finished
    }
}

/// Uninterrupted, the typewriter shows the line one more character per step:
/// after a step from `k` shown characters the first `k + 1` are shown, and
/// the step after the last character ends the animation with the whole line
/// shown.
pub proof fn law_typewriter_runs_through(
    m: DialogueModel,
    text: Seq<char>,
    k: int,
    post: DialogueModel,
    step: TypewriterStep,
)
    requires
        m.is_typing,
        0 <= k <= text.len(),
        m.displayed_text == text.take(k),
        typewriter_step_spec(m, text, k, post, step),
    ensures
        k < text.len() ==> post.displayed_text == text.take(k + 1) && post.is_typing && step is Wait,
        k == text.len() ==> post.displayed_text == text && !post.is_typing && post.awaiting_input
            && step is Finished,
{
    if k == text.len() {
        assert(text.take(k) =~= text);
    }
}

/// A fresh dialogue shows nothing, is not typing, offers no choices, awaits
/// no input and is not waiting on the Engine.
pub proof fn law_fresh_dialogue()
    ensures
        DialogueModel::empty().full_text.len() == 0,
        DialogueModel::empty().displayed_text.len() == 0,
        DialogueModel::empty().speaker_name.len() == 0,
        !DialogueModel::empty().is_typing,
        DialogueModel::empty().choices.len() == 0,
        !DialogueModel::empty().awaiting_input,
        DialogueModel::empty().speaker_id is None,
        !DialogueModel::empty().is_llm_processing,
{
}

} // verus!
