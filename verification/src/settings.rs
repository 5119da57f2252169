//! The settings: where their file lives, their defaults that are not numbers, and
//! the colour theme.

use crate::text::{join_path, path_join};
use vstd::prelude::*;

verus! {

/// The settings file under the configuration directory `config_dir`:
/// `VoicePicker/settings.json`.
pub open spec fn settings_path_of(config_dir: Seq<char>) -> Seq<char> {
    path_join(path_join(config_dir, "VoicePicker"@), "settings.json"@)
}

/// The path of the settings file under `config_dir` (see `settings_path_of`).
pub fn settings_path(config_dir: &str) -> (p: String)
    ensures
        p@ == settings_path_of(config_dir@),
{
    let dir = join_path(config_dir, "VoicePicker");
    join_path(dir.as_str(), "settings.json")
}

/// The global hotkey that a fresh installation uses.
pub fn default_global_hotkey() -> (h: String)
    ensures
        h@ == "Cmd+Option+X"@,
{
    String::from_str("Cmd+Option+X")
}

/// Whether a fresh installation plays speech as soon as it is synthesized.
pub const DEFAULT_AUTO_PLAY: bool = true;

/// The colour theme of the interface.
#[derive(Debug, Clone, Copy, PartialEq, Eq, Structural)]
pub enum Theme {
    Light,
    Dark,
    System,
}

impl Theme {
    /// The theme a fresh installation uses: the system's.
    pub fn default_theme() -> (t: Theme)
        ensures
            t == Theme::System,
    {
        Theme::System
    }

    /// The theme's name as the settings file writes it: all lower case.
    pub fn name(&self) -> (s: String)
        ensures
            s@ == match self {
                Theme::Light => "light"@,
                Theme::Dark => "dark"@,
                Theme::System => "system"@,
            },
    {
        match self {
            Theme::Light => String::from_str("light"),
            Theme::Dark => String::from_str("dark"),
            Theme::System => String::from_str("system"),
        }
    }
}

} // verus!
