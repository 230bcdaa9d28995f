use collapse_find_obf::lang::{Language, Translator};
use collapse_find_obf::state::{ResultsUi, ScanSettings, ThemeMode};
use collapse_find_obf::types::DetectionMode;

#[test]
fn translator_english_lookup() {
    let t = Translator::new();
    assert_eq!(t.get(Language::English, "sidebar_scanner"), "Scanner");
    assert_eq!(t.get(Language::English, "start_scan_button"), "Start Scan");
    assert_eq!(
        t.get(Language::English, "no_results"),
        "No results yet. Run a scan to see results here."
    );
}

#[test]
fn translator_russian_lookup() {
    let t = Translator::new();
    assert_eq!(t.get(Language::Russian, "sidebar_scanner"), "Сканер");
    assert_eq!(t.get(Language::Russian, "start_scan_button"), "Начать сканирование");
}

#[test]
fn translator_unknown_key_passes_through() {
    let t = Translator::new();
    assert_eq!(t.get(Language::English, "no_such_key"), "no_such_key");
    assert_eq!(t.get(Language::Russian, "no_such_key"), "no_such_key");
}

#[test]
fn translator_formats_placeholder() {
    let t = Translator::new();
    assert_eq!(t.get_fmt(Language::English, "risk_label", "7"), "Risk: 7/10");
    assert_eq!(
        t.get_fmt(Language::English, "scan_completed_findings", "42"),
        "Scan completed: 42 findings"
    );
    assert_eq!(t.get_fmt(Language::Russian, "risk_label", "7"), "Риск: 7/10");
}

#[test]
fn language_defaults_and_labels() {
    assert_eq!(Language::default(), Language::English);
    assert_eq!(Language::English.label(), "English");
    assert_eq!(Language::Russian.label(), "Русский");
}

#[test]
fn scan_settings_default() {
    let s = ScanSettings::default();
    assert_eq!(s.path, "");
    assert_eq!(s.mode, DetectionMode::Obfuscation);
    assert_eq!(s.threads, "0");
    assert!(s.exclude_patterns.is_empty());
    assert!(s.find_patterns.is_empty());
    assert_eq!(s.exclude_pattern_input, "");
    assert_eq!(s.find_pattern_input, "");
}

#[test]
fn theme_mode_default_and_labels() {
    assert_eq!(ThemeMode::default(), ThemeMode::Dark);
    assert_eq!(ThemeMode::Dark.label(), "Dark");
    assert_eq!(ThemeMode::Light.label(), "Light");
}

#[test]
fn results_ui_default() {
    let r = ResultsUi::default();
    assert_eq!(r.search, "");
    assert_eq!(r.severity, "All");
    assert_eq!(r.sort_field, "Danger");
    assert!(!r.sort_asc);
}
