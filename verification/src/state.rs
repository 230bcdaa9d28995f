//! Plain state types for a front end driving the scanner: scan
//! settings, theme selection and results-view state.

use vstd::prelude::*;
use vstd::string::StringExecFns;

use crate::types::DetectionMode;

verus! {

/// The lifecycle of one scan run as a front end sees it.
#[derive(Clone, Debug)]
pub enum AppState {
    Idle,
    Scanning,
    Completed,
    Cancelled,
    Error(String),
}

/// What a user configured for the next scan run.
#[derive(Clone, Debug)]
pub struct ScanSettings {
    pub path: String,
    pub mode: DetectionMode,
    pub threads: String,
    pub exclude_patterns: Vec<String>,
    pub find_patterns: Vec<String>,
    pub exclude_pattern_input: String,
    pub find_pattern_input: String,
}

impl Default for ScanSettings {
    /// An empty path, obfuscation mode, automatic thread count and no
    /// patterns.
    fn default() -> (r: ScanSettings)
        ensures
            r.path@ == Seq::<char>::empty(),
            r.mode == DetectionMode::Obfuscation,
            r.threads@ == "0"@,
            r.exclude_patterns@.len() == 0,
            r.find_patterns@.len() == 0,
            r.exclude_pattern_input@ == Seq::<char>::empty(),
            r.find_pattern_input@ == Seq::<char>::empty(),
    {
        ScanSettings {
            path: String::new(),
            mode: DetectionMode::Obfuscation,
            threads: String::from_str("0"),
            exclude_patterns: Vec::new(),
            find_patterns: Vec::new(),
            exclude_pattern_input: String::new(),
            find_pattern_input: String::new(),
        }
    }
}

/// The colour theme.
#[derive(Clone, Copy, PartialEq, Eq, Structural, Debug)]
pub enum ThemeMode {
    Dark,
    Light,
}

impl Default for ThemeMode {
    fn default() -> (r: ThemeMode)
        ensures
            r == ThemeMode::Dark,
    {
        ThemeMode::Dark
    }
}

impl ThemeMode {
    /// The theme's display label.
    pub fn label(&self) -> (r: &'static str)
        ensures
            *self == ThemeMode::Dark ==> r@ == "Dark"@,
            *self == ThemeMode::Light ==> r@ == "Light"@,
    {
        match self {
            ThemeMode::Dark => "Dark",
            ThemeMode::Light => "Light",
        }
    }
}

/// Search, filter and sort state of the results view.
#[derive(Clone, Debug)]
pub struct ResultsUi {
    pub search: String,
    pub severity: &'static str,
    pub sort_field: &'static str,
    pub sort_asc: bool,
}

impl Default for ResultsUi {
    /// No search text, all severities, sorted by danger descending.
    fn default() -> (r: ResultsUi)
        ensures
            r.search@ == Seq::<char>::empty(),
            r.severity@ == "All"@,
            r.sort_field@ == "Danger"@,
            !r.sort_asc,
    {
        ResultsUi {
            search: String::new(),
            severity: "All",
            sort_field: "Danger",
            sort_asc: false,
        }
    }
}

} // verus!
