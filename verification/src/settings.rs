//! The settings panels: their number fields, and the status line of the
//! application and world settings panels as loads, saves and resets come
//! and go.
use vstd::prelude::*;
use crate::text::{chars_of, concat_str, parse_int_spec, parse_usize};
use crate::dto::opt_str;

verus! {

/// What a number field takes from its text: the number when the text reads
/// as a `usize`, else nothing (the field keeps its value).
pub fn number_input(text: &str) -> (r: Option<usize>)
    ensures
        match parse_int_spec(text@, false, 0, usize::MAX as int) {
            Some(v) => r == Some(v as usize),
            None => r is None,
        },
{
    let chars = chars_of(text);
    parse_usize(&chars)
}

/// What a bounded number field takes from its text: the number clamped to
/// `[min, max]`, or nothing when the text does not read as a `usize`.
pub fn bounded_number_input(text: &str, min: usize, max: usize) -> (r: Option<usize>)
    requires
        min <= max,
    ensures
        match parse_int_spec(text@, false, 0, usize::MAX as int) {
            Some(v) => r == Some(if v < min { min } else if v > max { max } else { v as usize }),
            None => r is None,
        },
{
    match number_input(text) {
        Some(v) => Some(if v < min { min } else if v > max { max } else { v }),
        None => None,
    }
}

/// The status of a settings panel: whether it is loading or saving, and the
/// error or success message it shows.
pub struct SettingsStatus {
    pub is_loading: bool,
    pub is_saving: bool,
    pub error: Option<String>,
    pub success_message: Option<String>,
}

/// The panel status, with its messages as text.
pub struct SettingsStatusModel {
    pub is_loading: bool,
    pub is_saving: bool,
    pub error: Option<Seq<char>>,
    pub success_message: Option<Seq<char>>,
}

impl View for SettingsStatus {
    type V = SettingsStatusModel;

    open spec fn view(&self) -> SettingsStatusModel {
        SettingsStatusModel {
            is_loading: self.is_loading,
            is_saving: self.is_saving,
            error: opt_str(self.error),
            success_message: opt_str(self.success_message),
        }
    }
}

/// What happens to the panel: a request to the Engine starts or ends (with
/// the error text when it failed), or the user edits a field.
pub enum SettingsEvent {
    LoadStarted,
    LoadFinished { error: Option<String> },
    SaveStarted,
    SaveFinished { error: Option<String> },
    ResetStarted,
    ResetFinished { error: Option<String> },
    FieldEdited,
}

/// Which settings panel: the Engine's application settings, or one world's
/// settings (which override the global defaults).
#[derive(PartialEq, Eq, Structural, Clone, Copy, Debug)]
pub enum SettingsPanel {
    App,
    World,
}

/// The start of the error shown when loading fails.
pub open spec fn load_error_prefix(p: SettingsPanel) -> Seq<char> {
    match p {
        SettingsPanel::App => "Failed to load settings: "@,
        SettingsPanel::World => "Failed to load world settings: "@,
    }
}

/// The message shown when saving succeeds.
pub open spec fn saved_message(p: SettingsPanel) -> Seq<char> {
    match p {
        SettingsPanel::App => "Settings saved successfully!"@,
        SettingsPanel::World => "World settings saved!"@,
    }
}

/// The message shown when resetting succeeds.
pub open spec fn reset_message(p: SettingsPanel) -> Seq<char> {
    match p {
        SettingsPanel::App => "Settings reset to defaults!"@,
        SettingsPanel::World => "Reset to global defaults!"@,
    }
}

/// The status when the panel opens: loading the settings.
pub open spec fn initial_status() -> SettingsStatusModel {
    SettingsStatusModel { is_loading: true, is_saving: false, error: None, success_message: None }
}

/// The status after an event.
///
/// A load clears the error; a save or reset clears the error and the
/// success message and marks the panel saving. A failed request shows the
/// panel's load error prefix, "Failed to save settings: " or "Failed to
/// reset settings: " followed by the error; a successful save or reset shows
/// the panel's saved or reset message. Editing a field clears the success
/// message.
pub open spec fn status_after(p: SettingsPanel, s: SettingsStatusModel, e: SettingsEvent) -> SettingsStatusModel {
    match e {
        SettingsEvent::LoadStarted => SettingsStatusModel { is_loading: true, error: None, ..s },
        SettingsEvent::LoadFinished { error } => match error {
            Some(msg) => SettingsStatusModel {
                is_loading: false,
                error: Some(load_error_prefix(p) + msg@),
                ..s
            },
            None => SettingsStatusModel { is_loading: false, ..s },
        },
        SettingsEvent::SaveStarted | SettingsEvent::ResetStarted => SettingsStatusModel {
            is_saving: true,
            error: None,
            success_message: None,
            ..s
        },
        SettingsEvent::SaveFinished { error } => match error {
            Some(msg) => SettingsStatusModel {
                is_saving: false,
                error: Some("Failed to save settings: "@ + msg@),
                ..s
            },
            None => SettingsStatusModel {
                is_saving: false,
                success_message: Some(saved_message(p)),
                ..s
            },
        },
        SettingsEvent::ResetFinished { error } => match error {
            Some(msg) => SettingsStatusModel {
                is_saving: false,
                error: Some("Failed to reset settings: "@ + msg@),
                ..s
            },
            None => SettingsStatusModel {
                is_saving: false,
                success_message: Some(reset_message(p)),
                ..s
            },
        },
        SettingsEvent::FieldEdited => SettingsStatusModel { success_message: None, ..s },
    }
}

impl SettingsStatus {
    /// The panel as it opens: loading, no message.
    pub fn new() -> (r: SettingsStatus)
        ensures
            r@ == initial_status(),
    {
        SettingsStatus { is_loading: true, is_saving: false, error: None, success_message: None }
    }

    /// Applies an event to the status of the given panel.
    pub fn apply(&mut self, panel: SettingsPanel, e: SettingsEvent)
        ensures
            final(self)@ == status_after(panel, old(self)@, e),
    {
        match e {
            SettingsEvent::LoadStarted => {
                self.is_loading = true;
                self.error = None;
            },
            SettingsEvent::LoadFinished { error } => {
                self.is_loading = false;
                if let Some(msg) = error {
                    let prefix = match panel {
                        SettingsPanel::App => "Failed to load settings: ",
                        SettingsPanel::World => "Failed to load world settings: ",
                    };
                    self.error = Some(concat_str(prefix, msg.as_str()));
                }
            },
            SettingsEvent::SaveStarted | SettingsEvent::ResetStarted => {
                self.is_saving = true;
                self.error = None;
                self.success_message = None;
            },
            SettingsEvent::SaveFinished { error } => {
                self.is_saving = false;
                match error {
                    Some(msg) => {
                        self.error = Some(concat_str("Failed to save settings: ", msg.as_str()));
                    },
                    None => {
                        self.success_message = Some(
                            match panel {
                                SettingsPanel::App => crate::text::owned("Settings saved successfully!"),
                                SettingsPanel::World => crate::text::owned("World settings saved!"),
                            },
                        );
                    },
                }
            },
            SettingsEvent::ResetFinished { error } => {
                self.is_saving = false;
                match error {
                    Some(msg) => {
                        self.error = Some(concat_str("Failed to reset settings: ", msg.as_str()));
                    },
                    None => {
                        self.success_message = Some(
                            match panel {
                                SettingsPanel::App => crate::text::owned("Settings reset to defaults!"),
                                SettingsPanel::World => crate::text::owned("Reset to global defaults!"),
                            },
                        );
                    },
                }
            },
            SettingsEvent::FieldEdited => {
                self.success_message = None;
            },
        }
    }

    /// Whether the Save and Reset buttons are disabled: while loading or saving.
    pub fn buttons_disabled(&self) -> (r: bool)
        ensures
            r == (self.is_loading || self.is_saving),
    {
        self.is_loading || self.is_saving
    }
}

/// Starting a save marks the panel saving (its buttons disabled), and a
/// save or reset that ends, whether or not it failed, leaves it no longer
/// saving.
pub proof fn law_requests_end_saving(p: SettingsPanel, s: SettingsStatusModel, error: Option<String>)
    ensures
        status_after(p, status_after(p, s, SettingsEvent::SaveStarted), SettingsEvent::SaveFinished { error }).is_saving == false,
        status_after(p, status_after(p, s, SettingsEvent::ResetStarted), SettingsEvent::ResetFinished { error }).is_saving == false,
        status_after(p, s, SettingsEvent::SaveStarted).is_saving,
{
}

/// A save or reset shows exactly one message when it ends: the error when it
/// failed, the success message when it did not.
pub proof fn law_one_message(p: SettingsPanel, s: SettingsStatusModel, error: Option<String>)
    ensures
        ({
            let t = status_after(p, status_after(p, s, SettingsEvent::SaveStarted), SettingsEvent::SaveFinished { error });
            (t.error is Some) == (error is Some) && (t.success_message is Some) == (error is None)
        }),
        ({
            let t = status_after(p, status_after(p, s, SettingsEvent::ResetStarted), SettingsEvent::ResetFinished { error });
            (t.error is Some) == (error is Some) && (t.success_message is Some) == (error is None)
        }),
{
}

/// The texts of each panel: the application panel says "Failed to load
/// settings: ", "Settings saved successfully!" and "Settings reset to
/// defaults!"; the world panel says "Failed to load world settings: ",
/// "World settings saved!" and "Reset to global defaults!"; both report a
/// failed save or reset with "Failed to save settings: " or "Failed to reset
/// settings: " and the error.
pub proof fn law_panel_texts(p: SettingsPanel, s: SettingsStatusModel, msg: String)
    ensures
        load_error_prefix(SettingsPanel::App) == "Failed to load settings: "@,
        load_error_prefix(SettingsPanel::World) == "Failed to load world settings: "@,
        saved_message(SettingsPanel::App) == "Settings saved successfully!"@,
        saved_message(SettingsPanel::World) == "World settings saved!"@,
        reset_message(SettingsPanel::App) == "Settings reset to defaults!"@,
        reset_message(SettingsPanel::World) == "Reset to global defaults!"@,
        status_after(p, s, SettingsEvent::LoadFinished { error: Some(msg) }).error == Some(load_error_prefix(p) + msg@),
        status_after(p, s, SettingsEvent::SaveFinished { error: Some(msg) }).error == Some(
            "Failed to save settings: "@ + msg@,
        ),
        status_after(p, s, SettingsEvent::ResetFinished { error: Some(msg) }).error == Some(
            "Failed to reset settings: "@ + msg@,
        ),
        status_after(p, s, SettingsEvent::SaveFinished { error: None }).success_message == Some(saved_message(p)),
        status_after(p, s, SettingsEvent::ResetFinished { error: None }).success_message == Some(reset_message(p)),
        status_after(p, s, SettingsEvent::FieldEdited).success_message is None,
        status_after(p, s, SettingsEvent::FieldEdited).error == s.error,
        status_after(p, s, SettingsEvent::LoadStarted).is_loading && status_after(p, s, SettingsEvent::LoadStarted).error is None,
        !status_after(p, s, SettingsEvent::LoadFinished { error: None }).is_loading,
        initial_status().is_loading && !initial_status().is_saving,
{
}

} // verus!
