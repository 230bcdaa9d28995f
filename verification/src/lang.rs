//! Translation table for the front ends: fixed keys mapped to
//! English and Russian texts, with placeholder substitution.

use vstd::prelude::*;
use vstd::string::StringExecFns;

use crate::text::{replace_braces, replace_braces_spec};

verus! {

/// The languages the table covers.
#[derive(Clone, Copy, PartialEq, Eq, Structural, Debug)]
pub enum Language {
    English,
    Russian,
}

impl Default for Language {
    fn default() -> (r: Language)
        ensures
            r == Language::English,
    {
        Language::English
    }
}

impl Language {
    /// The language's own display name, in that language.
    pub fn label(&self) -> (r: &'static str)
        ensures
            *self == Language::English ==> r@ == "English"@,
            *self == Language::Russian ==> r@ == "Русский"@,
    {
        match self {
            Language::English => "English",
            Language::Russian => "Русский",
        }
    }
}

/// One table row: key, English text, Russian text.
pub type LangEntry = (Seq<char>, Seq<char>, Seq<char>);

/// The fixed translation table.
pub open spec fn translation_table() -> Seq<LangEntry> {
    seq![
        ("app_title"@, "CollapseFindOBF"@, "CollapseFindOBF"@),
        ("sidebar_scanner"@, "Scanner"@, "Сканер"@),
        ("sidebar_results"@, "Results"@, "Результаты"@),
        ("sidebar_settings"@, "Settings"@, "Настройки"@),
        ("scan_title"@, "CollapseFindOBF"@, "CollapseFindOBF"@),
        ("scan_subtitle"@, "Advanced JAR/Class File Analysis Tool"@, "Продвинутый анализ JAR/Class файлов"@),
        ("select_path_placeholder"@, "Select path to scan..."@, "Выберите путь для сканирования..."@),
        ("browse_button"@, "Browse..."@, "Обзор..."@),
        ("detection_mode_label"@, "Detection Mode:"@, "Режим обнаружения:"@),
        ("start_scan_button"@, "Start Scan"@, "Начать сканирование"@),
        ("cancel_scan_button"@, "Cancel Scan"@, "Отменить сканирование"@),
        ("ready_to_scan"@, "Ready to scan"@, "Готов к сканированию"@),
        ("scanning_progress"@, "Scanning in progress..."@, "Идет сканирование..."@),
        ("scan_completed_findings"@, "Scan completed: {} findings"@, "Сканирование завершено: {} находок"@),
        ("go_to_results"@, "Go to Results"@, "Перейти к результатам"@),
        ("scan_cancelled"@, "Scan cancelled"@, "Сканирование отменено"@),
        ("scan_error"@, "Error: {}"@, "Ошибка: {}"@),
        ("results_title"@, "Scan Results"@, "Результаты сканирования"@),
        ("search_placeholder"@, "Search results..."@, "Поиск результатов..."@),
        ("export_button"@, "Export"@, "Экспорт"@),
        ("clear_button"@, "Clear"@, "Очистить"@),
        ("no_results"@, "No results yet. Run a scan to see results here."@, "Результатов пока нет. Запустите сканирование."@),
        ("scan_summary"@, "Scan Summary"@, "Сводка сканирования"@),
        ("total_files_scanned"@, "Total files scanned: {}"@, "Всего файлов проверено: {}"@),
        ("files_with_findings"@, "Files with findings (after filter): {}"@, "Файлов с находками (после фильтра): {}"@),
        ("total_findings"@, "Total findings: {}"@, "Всего находок: {}"@),
        ("risk_label"@, "Risk: {}/10"@, "Риск: {}/10"@),
        ("findings_count_label"@, "Findings: {}"@, "Находок: {}"@),
        ("detailed_findings_label"@, "Findings:"@, "Детали:"@),
        ("settings_title"@, "Advanced Settings"@, "Расширенные настройки"@),
        ("thread_count_label"@, "Thread count (0 = auto):"@, "Количество потоков (0 = авто):"@),
        ("exclude_patterns_label"@, "Exclude Patterns:"@, "Исключить шаблоны:"@),
        ("add_button"@, "Add"@, "Добавить"@),
        ("remove_button"@, "Remove"@, "Удалить"@),
        ("find_patterns_label"@, "Find Patterns (only scan matching):"@, "Искать шаблоны (сканировать только совпадения):"@),
        ("appearance_label"@, "Appearance"@, "Внешний вид"@),
        ("language_label"@, "Language:"@, "Язык:"@),
        ("theme_label"@, "Theme:"@, "Тема:"@),
        ("accent_color_label"@, "Accent Color:"@, "Цвет акцента:"@),
    ]
}

/// The text for `key`: the chosen language's column of the first row
/// whose key matches, or the key itself when no row matches.
pub open spec fn lookup_translation(table: Seq<LangEntry>, lang: Language, key: Seq<char>) -> Seq<
    char,
>
    decreases table.len(),
{
    if table.len() == 0 {
        key
    } else if table[0].0 == key {
        if lang == Language::English {
            table[0].1
        } else {
            table[0].2
        }
    } else {
        lookup_translation(table.drop_first(), lang, key)
    }
}

/// The translation table, held as owned strings.
pub struct Translator {
    pub entries: Vec<(String, String, String)>,
}

impl Translator {
    /// The model of the held table.
    pub open spec fn table_view(&self) -> Seq<LangEntry> {
        self.entries@.map_values(|e: (String, String, String)| (e.0@, e.1@, e.2@))
    }

    /// A translator holding the fixed table.
    pub fn new() -> (r: Translator)
        ensures
            r.table_view() == translation_table(),
    {
        let mut t: Vec<(String, String, String)> = Vec::new();
    t.push(entry("app_title", "CollapseFindOBF", "CollapseFindOBF"));
    t.push(entry("sidebar_scanner", "Scanner", "Сканер"));
    t.push(entry("sidebar_results", "Results", "Результаты"));
    t.push(entry("sidebar_settings", "Settings", "Настройки"));
    t.push(entry("scan_title", "CollapseFindOBF", "CollapseFindOBF"));
    t.push(entry("scan_subtitle", "Advanced JAR/Class File Analysis Tool", "Продвинутый анализ JAR/Class файлов"));
    t.push(entry("select_path_placeholder", "Select path to scan...", "Выберите путь для сканирования..."));
    t.push(entry("browse_button", "Browse...", "Обзор..."));
    t.push(entry("detection_mode_label", "Detection Mode:", "Режим обнаружения:"));
    t.push(entry("start_scan_button", "Start Scan", "Начать сканирование"));
    t.push(entry("cancel_scan_button", "Cancel Scan", "Отменить сканирование"));
    t.push(entry("ready_to_scan", "Ready to scan", "Готов к сканированию"));
    t.push(entry("scanning_progress", "Scanning in progress...", "Идет сканирование..."));
    t.push(entry("scan_completed_findings", "Scan completed: {} findings", "Сканирование завершено: {} находок"));
    t.push(entry("go_to_results", "Go to Results", "Перейти к результатам"));
    t.push(entry("scan_cancelled", "Scan cancelled", "Сканирование отменено"));
    t.push(entry("scan_error", "Error: {}", "Ошибка: {}"));
    t.push(entry("results_title", "Scan Results", "Результаты сканирования"));
    t.push(entry("search_placeholder", "Search results...", "Поиск результатов..."));
    t.push(entry("export_button", "Export", "Экспорт"));
    t.push(entry("clear_button", "Clear", "Очистить"));
    t.push(entry("no_results", "No results yet. Run a scan to see results here.", "Результатов пока нет. Запустите сканирование."));
    t.push(entry("scan_summary", "Scan Summary", "Сводка сканирования"));
    t.push(entry("total_files_scanned", "Total files scanned: {}", "Всего файлов проверено: {}"));
    t.push(entry("files_with_findings", "Files with findings (after filter): {}", "Файлов с находками (после фильтра): {}"));
    t.push(entry("total_findings", "Total findings: {}", "Всего находок: {}"));
    t.push(entry("risk_label", "Risk: {}/10", "Риск: {}/10"));
    t.push(entry("findings_count_label", "Findings: {}", "Находок: {}"));
    t.push(entry("detailed_findings_label", "Findings:", "Детали:"));
    t.push(entry("settings_title", "Advanced Settings", "Расширенные настройки"));
    t.push(entry("thread_count_label", "Thread count (0 = auto):", "Количество потоков (0 = авто):"));
    t.push(entry("exclude_patterns_label", "Exclude Patterns:", "Исключить шаблоны:"));
    t.push(entry("add_button", "Add", "Добавить"));
    t.push(entry("remove_button", "Remove", "Удалить"));
    t.push(entry("find_patterns_label", "Find Patterns (only scan matching):", "Искать шаблоны (сканировать только совпадения):"));
    t.push(entry("appearance_label", "Appearance", "Внешний вид"));
    t.push(entry("language_label", "Language:", "Язык:"));
    t.push(entry("theme_label", "Theme:", "Тема:"));
    t.push(entry("accent_color_label", "Accent Color:", "Цвет акцента:"));
        let r = Translator { entries: t };
        proof {
            assert(r.table_view() =~= translation_table());
        }
        r
    }

    /// The text for `key` in `lang`; an unknown key is returned
    /// unchanged.
    #[verifier::loop_isolation(false)]
    pub fn get(&self, lang: Language, key: &str) -> (r: String)
        ensures
            r@ == lookup_translation(self.table_view(), lang, key@),
    {
        let ghost table = self.table_view();
        let key_string = String::from_str(key);
        let mut i: usize = 0;
        proof {
            assert(table.skip(0) =~= table);
        }
        while i < self.entries.len()
            invariant
                i <= self.entries@.len(),
                lookup_translation(table, lang, key@) == lookup_translation(
                    table.skip(i as int),
                    lang,
                    key@,
                ),
            decreases self.entries@.len() - i,
        {
            proof {
                assert(table.skip(i as int)[0] == table[i as int]);
            }
            if self.entries[i].0 == key_string {
                let text = match lang {
                    Language::English => self.entries[i].1.clone(),
                    Language::Russian => self.entries[i].2.clone(),
                };
                return text;
            }
            proof {
                assert(table.skip(i as int).drop_first() =~= table.skip(i + 1));
            }
            i = i + 1;
        }
        proof {
            assert(table.skip(self.entries@.len() as int) =~= Seq::<LangEntry>::empty());
        }
        key_string
    }

    /// The text for `key` in `lang`, with each `{}` placeholder
    /// replaced by `arg`.
    pub fn get_fmt(&self, lang: Language, key: &str, arg: &str) -> (r: String)
        ensures
            r@ == replace_braces_spec(
                lookup_translation(self.table_view(), lang, key@),
                arg@,
            ),
    {
        let text = self.get(lang, key);
        replace_braces(text.as_str(), arg)
    }
}

fn entry(key: &str, en: &str, ru: &str) -> (r: (String, String, String))
    ensures
        r.0@ == key@,
        r.1@ == en@,
        r.2@ == ru@,
{
    (String::from_str(key), String::from_str(en), String::from_str(ru))
}

} // verus!
