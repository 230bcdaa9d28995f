use collapse_find_obf::strings::{check_obfuscated_string, prepare_strings_for_scanning};
use collapse_find_obf::types::FindingType;

fn junky_string(junk: usize, total: usize) -> String {
    // control character 0x01 is junk; 'a' is not
    let mut s = String::new();
    for _ in 0..junk {
        s.push('\u{0001}');
    }
    for _ in 0..(total - junk) {
        s.push('a');
    }
    s
}

#[test]
fn high_density_junk_is_flagged() {
    // 50 characters, 45 junk: 90% > 85% and 45 > 30
    let s = junky_string(45, 50);
    let finding = check_obfuscated_string(&s).expect("expected a finding");
    assert_eq!(finding.0, FindingType::ObfuscationString);
    assert_eq!(finding.1, "High-density encrypted string (90% junk)");
}

#[test]
fn half_junk_is_not_flagged() {
    // same length, 50% junk: below both thresholds
    let s = junky_string(25, 50);
    assert!(check_obfuscated_string(&s).is_none());
}

#[test]
fn short_strings_are_skipped() {
    // under 40 characters, even if fully junk
    let s = junky_string(39, 39);
    assert!(check_obfuscated_string(&s).is_none());
}

#[test]
fn absolute_junk_floor_applies() {
    // 40 characters, 36 junk: 90% but over the 30-junk floor -> flagged
    let s = junky_string(36, 40);
    assert!(check_obfuscated_string(&s).is_some());
    // 34 characters of junk in a 40-character string is 85%, not more
    let s = junky_string(34, 40);
    assert!(check_obfuscated_string(&s).is_none());
}

#[test]
fn newlines_and_tabs_are_not_junk() {
    let mut s = String::new();
    for _ in 0..50 {
        s.push('\n');
    }
    assert!(check_obfuscated_string(&s).is_none());
}

#[test]
fn cyrillic_is_not_junk() {
    let mut s = String::new();
    for _ in 0..50 {
        s.push('Ж');
    }
    assert!(check_obfuscated_string(&s).is_none());
}

#[test]
fn candidate_filter_drops_short_strings() {
    let strings = vec!["tiny".to_string(), "longer literal".to_string()];
    let cands = prepare_strings_for_scanning(&strings);
    assert_eq!(cands, vec!["longer literal".to_string()]);
}

#[test]
fn candidate_filter_drops_long_base64_blob() {
    let blob = "QUJDREVGR0hJSktMTU5PUFFSU1RVVldYWVo0NTY3ODkwMTIzPT0=".to_string();
    let text = "this text has spaces and stays a candidate".to_string();
    let cands = prepare_strings_for_scanning(&vec![blob, text.clone()]);
    assert_eq!(cands, vec![text]);
}

#[test]
fn candidate_filter_keeps_short_base64_like() {
    // under 30 characters the base64 exclusion does not apply
    let s = "QUJDREVGRw==".to_string();
    let cands = prepare_strings_for_scanning(&vec![s.clone()]);
    assert_eq!(cands, vec![s]);
}

#[test]
fn candidate_set_capped_at_five_hundred() {
    let mut strings = Vec::new();
    for i in 0..600 {
        strings.push(format!("candidate literal number {}", i));
    }
    let cands = prepare_strings_for_scanning(&strings);
    assert_eq!(cands.len(), 500);
    assert_eq!(cands[0], "candidate literal number 0");
    assert_eq!(cands[499], "candidate literal number 499");
}
