//! The application configuration record and its documented defaults.
//!
//! Loading and saving the record happens outside the library; what is
//! verified here is the default every setting starts from.

use vstd::prelude::*;

use vstd::string::StringExecFns;

verus! {

/// Application configuration.
#[derive(Debug, PartialEq)]
pub struct AppConfigInfo {
    pub hotkey: String,
    pub prompts_dir: String,
    pub theme: String,
    pub language: String,
    pub auto_paste: bool,
    pub close_after_paste: bool,
    pub remember_last_query: bool,
    pub auto_start: bool,
    pub show_in_tray: bool,
    pub max_results: i32,
    pub max_recent_prompts: i32,
    pub show_keyboard_hints: bool,
    pub editor_font_size: i32,
    pub editor_word_wrap: bool,
    pub backup_enabled: bool,
    pub backup_interval_hours: i32,
    pub analytics_enabled: bool,
}

impl Default for AppConfigInfo {
    /// The configuration a fresh installation starts from.
    fn default() -> (r: AppConfigInfo)
        ensures
            r.hotkey@ == "F9"@,
            r.prompts_dir@ == "~/.prompter/prompts"@,
            r.theme@ == "dark"@,
            r.language@ == "en"@,
            r.auto_paste,
            r.close_after_paste,
            !r.remember_last_query,
            !r.auto_start,
            r.show_in_tray,
            r.max_results == 10,
            r.max_recent_prompts == 5,
            r.show_keyboard_hints,
            r.editor_font_size == 14,
            r.editor_word_wrap,
            r.backup_enabled,
            r.backup_interval_hours == 24,
            r.analytics_enabled,
    {
        AppConfigInfo {
            hotkey: String::from_str("F9"),
            prompts_dir: String::from_str("~/.prompter/prompts"),
            theme: String::from_str("dark"),
            language: String::from_str("en"),
            auto_paste: true,
            close_after_paste: true,
            remember_last_query: false,
            auto_start: false,
            show_in_tray: true,
            max_results: 10,
            max_recent_prompts: 5,
            show_keyboard_hints: true,
            editor_font_size: 14,
            editor_word_wrap: true,
            backup_enabled: true,
            backup_interval_hours: 24,
            analytics_enabled: true,
        }
    }
}

} // verus!
