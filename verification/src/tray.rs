//! The tray menu's pure side: parsing a menu event id into an action and
//! composing the settings information text.  Building the native menu and
//! icon, and showing dialogs, are the shell's concern.

use vstd::prelude::*;
use crate::config::Config;
use crate::models::ExerciseType;
use crate::text::str_eq;

verus! {

/// A user action triggered from the tray menu.
#[derive(Clone, Debug)]
pub enum TrayAction {
    ViewProgress,
    LogExercise(ExerciseType),
    ToggleReminders,
    OpenSettings,
    ShowAbout,
    Quit,
    Unknown(String),
}

impl TrayAction {
    /// Parses a menu event id into the action it stands for; an id that
    /// matches no known menu entry is carried through as unknown.
    pub fn from_menu_id(id: &str) -> (r: TrayAction)
        ensures
            id@ == "view_progress"@ ==> r is ViewProgress,
            id@ == "log_pushups"@ ==> r == TrayAction::LogExercise(ExerciseType::PushUps),
            id@ == "log_squats"@ ==> r == TrayAction::LogExercise(ExerciseType::Squats),
            id@ == "log_planks"@ ==> r == TrayAction::LogExercise(ExerciseType::Planks),
            id@ == "log_jumping_jacks"@ ==> r == TrayAction::LogExercise(
                ExerciseType::JumpingJacks,
            ),
            id@ == "log_stretches"@ ==> r == TrayAction::LogExercise(ExerciseType::Stretches),
            id@ == "toggle_reminders"@ ==> r is ToggleReminders,
            id@ == "settings"@ ==> r is OpenSettings,
            id@ == "about"@ ==> r is ShowAbout,
            id@ == "quit"@ ==> r is Quit,
            (id@ != "view_progress"@ && id@ != "log_pushups"@ && id@ != "log_squats"@ && id@
                != "log_planks"@ && id@ != "log_jumping_jacks"@ && id@ != "log_stretches"@ && id@
                != "toggle_reminders"@ && id@ != "settings"@ && id@ != "about"@ && id@ != "quit"@)
                ==> (r matches TrayAction::Unknown(s) && s@ == id@),
    {
        proof {
            reveal_strlit("view_progress");
            reveal_strlit("log_pushups");
            reveal_strlit("log_squats");
            reveal_strlit("log_planks");
            reveal_strlit("log_jumping_jacks");
            reveal_strlit("log_stretches");
            reveal_strlit("toggle_reminders");
            reveal_strlit("settings");
            reveal_strlit("about");
            reveal_strlit("quit");
            assert("view_progress"@.len() == 13);
            assert("log_pushups"@.len() == 11);
            assert("log_squats"@.len() == 10);
            assert("log_planks"@.len() == 10);
            assert("log_jumping_jacks"@.len() == 17);
            assert("log_stretches"@.len() == 13);
            assert("toggle_reminders"@.len() == 16);
            assert("settings"@.len() == 8);
            assert("about"@.len() == 5);
            assert("quit"@.len() == 4);
            assert("log_squats"@[4] != "log_planks"@[4]);
            assert("view_progress"@[0] != "log_stretches"@[0]);
        }
        if str_eq(id, "view_progress") {
            TrayAction::ViewProgress
        } else if str_eq(id, "log_pushups") {
            TrayAction::LogExercise(ExerciseType::PushUps)
        } else if str_eq(id, "log_squats") {
            TrayAction::LogExercise(ExerciseType::Squats)
        } else if str_eq(id, "log_planks") {
            TrayAction::LogExercise(ExerciseType::Planks)
        } else if str_eq(id, "log_jumping_jacks") {
            TrayAction::LogExercise(ExerciseType::JumpingJacks)
        } else if str_eq(id, "log_stretches") {
            TrayAction::LogExercise(ExerciseType::Stretches)
        } else if str_eq(id, "toggle_reminders") {
            TrayAction::ToggleReminders
        } else if str_eq(id, "settings") {
            TrayAction::OpenSettings
        } else if str_eq(id, "about") {
            TrayAction::ShowAbout
        } else if str_eq(id, "quit") {
            TrayAction::Quit
        } else {
            TrayAction::Unknown(String::from_str(id))
        }
    }
}

/// The settings information text: the settings summary followed by a
/// pointer to the configuration file.
pub fn show_settings_info(config: &Config, config_path: &str) -> (r: String)
    ensures
        r@ == config.spec_settings_summary() + "\n\nTo modify settings, edit the config file at:\n\""@
            + config_path@ + "\""@,
{
    let mut s = config.settings_summary();
    s.append("\n\nTo modify settings, edit the config file at:\n\"");
    s.append(config_path);
    s.append("\"");
    proof {
        assert(s@ =~= config.spec_settings_summary()
            + "\n\nTo modify settings, edit the config file at:\n\""@ + config_path@ + "\""@);
    }
    s
}

} // verus!
