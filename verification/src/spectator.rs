//! The spectator view's conversation log, kept from the dialogue shown.
use vstd::prelude::*;
use crate::state::dialogue::{DialogueModel, DialogueState};

verus! {

/// One line of the spectator's conversation log.
pub struct ConversationEntry {
    pub speaker: String,
    pub text: String,
}

/// A log line as the speaker and the text.
pub open spec fn entry_view(e: ConversationEntry) -> (Seq<char>, Seq<char>) {
    (e.speaker@, e.text@)
}

/// The log as speakers and texts.
pub open spec fn log_view(log: Seq<ConversationEntry>) -> Seq<(Seq<char>, Seq<char>)> {
    log.map_values(|e: ConversationEntry| entry_view(e))
}

/// The log after the dialogue `d` is seen: once a line has finished typing
/// it is added, unless it repeats the last line (same speaker and text).
pub open spec fn log_after(log: Seq<(Seq<char>, Seq<char>)>, d: DialogueModel) -> Seq<(Seq<char>, Seq<char>)> {
    let line = (d.speaker_name, d.displayed_text);
    if !d.is_typing && d.full_text.len() > 0 && d.displayed_text.len() > 0 && (log.len() == 0
        || log.last() != line) {
        log.push(line)
    } else {
        log
    }
}

/// Adds the dialogue line shown to the spectator's log when it has finished
/// typing and is not the line already last in the log.
pub fn track_dialogue_line(log: &mut Vec<ConversationEntry>, dialogue: &DialogueState)
    ensures
        log_view(final(log)@) == log_after(log_view(old(log)@), dialogue@),
{
    let has_dialogue = !dialogue.full_text.as_str().is_empty();
    if !dialogue.is_typing && has_dialogue && !dialogue.displayed_text.as_str().is_empty() {
        let n = log.len();
        let should_add = n == 0 || log[n - 1].speaker != dialogue.speaker_name || log[n - 1].text
            != dialogue.displayed_text;
        if should_add {
            let ghost before = log@;
            log.push(
                ConversationEntry {
                    speaker: dialogue.speaker_name.clone(),
                    text: dialogue.displayed_text.clone(),
                },
            );
            assert(log_view(log@) =~= log_view(before).push(
                (dialogue.speaker_name@, dialogue.displayed_text@),
            ));
        }
    }
}


/// No line of the log repeats the line before it.
pub open spec fn no_repeats(log: Seq<(Seq<char>, Seq<char>)>) -> bool {
    forall|k: int| 0 < k < log.len() ==> #[trigger] log[k] != log[k - 1]
}

/// The spectator's log never shows the same line twice in a row, whatever
/// dialogue it sees.
pub proof fn law_log_never_repeats(log: Seq<(Seq<char>, Seq<char>)>, d: DialogueModel)
    requires
        no_repeats(log),
    ensures
        no_repeats(log_after(log, d)),
{
    let r = log_after(log, d);
    assert forall|k: int| 0 < k < r.len() implies #[trigger] r[k] != r[k - 1] by {
        if k < log.len() {
            assert(r[k] == log[k] && r[k - 1] == log[k - 1]);
        }
    }
}

/// A line that has finished typing and differs from the last logged line is
/// appended as the speaker and the text shown; while a line is still typing,
/// or when nothing is shown, the log stays as it is.
pub proof fn law_finished_lines_logged(log: Seq<(Seq<char>, Seq<char>)>, d: DialogueModel)
    ensures
        (!d.is_typing && d.full_text.len() > 0 && d.displayed_text.len() > 0 && (log.len() == 0 || log.last()
            != (d.speaker_name, d.displayed_text))) ==> log_after(log, d) == log.push((d.speaker_name, d.displayed_text)),
        d.is_typing ==> log_after(log, d) == log,
        d.displayed_text.len() == 0 ==> log_after(log, d) == log,
        (log.len() > 0 && log.last() == (d.speaker_name, d.displayed_text)) ==> log_after(log, d) == log,
{
}

} // verus!
