use collapse_find_obf::score::{calculate_danger_score, generate_danger_explanation};
use collapse_find_obf::types::{Finding, FindingType};

fn f(t: FindingType, msg: &str) -> Finding {
    (t, msg.to_string())
}

#[test]
fn empty_findings_score_one() {
    let findings: Vec<Finding> = Vec::new();
    assert_eq!(calculate_danger_score(&findings), 1);
}

#[test]
fn empty_findings_explanation() {
    let findings: Vec<Finding> = Vec::new();
    let lines = generate_danger_explanation(1, &findings);
    assert_eq!(lines, vec!["No suspicious elements detected.".to_string()]);
}

#[test]
fn single_random_name_scores_two() {
    let findings = vec![f(FindingType::ObfuscationRandomName, "x")];
    assert_eq!(calculate_danger_score(&findings), 2);
}

#[test]
fn single_unicode_scores_three() {
    let findings = vec![f(FindingType::ObfuscationUnicode, "x")];
    assert_eq!(calculate_danger_score(&findings), 3);
}

#[test]
fn single_string_scores_three() {
    let findings = vec![f(FindingType::ObfuscationString, "x")];
    assert_eq!(calculate_danger_score(&findings), 3);
}

#[test]
fn random_name_contribution_is_capped() {
    // 20 random-name findings: 20 * 2 capped at 6
    let mut findings = Vec::new();
    for _ in 0..20 {
        findings.push(f(FindingType::ObfuscationRandomName, "x"));
    }
    assert_eq!(calculate_danger_score(&findings), 6);
}

#[test]
fn webhook_dominates_alone() {
    let findings = vec![f(FindingType::DiscordWebhook, "x")];
    assert_eq!(calculate_danger_score(&findings), 10);
}

#[test]
fn webhook_dominates_any_mix() {
    let findings = vec![
        f(FindingType::ObfuscationRandomName, "a"),
        f(FindingType::DiscordWebhook, "b"),
        f(FindingType::ObfuscationString, "c"),
    ];
    assert_eq!(calculate_danger_score(&findings), 10);
}

#[test]
fn sum_is_clamped_to_ten() {
    // 2 unicode (6) + 3 strings (9) = 15, clamped to 10
    let findings = vec![
        f(FindingType::ObfuscationUnicode, "a"),
        f(FindingType::ObfuscationUnicode, "b"),
        f(FindingType::ObfuscationString, "c"),
        f(FindingType::ObfuscationString, "d"),
        f(FindingType::ObfuscationString, "e"),
    ];
    assert_eq!(calculate_danger_score(&findings), 10);
}

#[test]
fn score_always_in_range() {
    let kinds = [
        FindingType::DiscordWebhook,
        FindingType::ObfuscationRandomName,
        FindingType::ObfuscationUnicode,
        FindingType::ObfuscationString,
    ];
    let mut findings: Vec<Finding> = Vec::new();
    for round in 0..30 {
        let score = calculate_danger_score(&findings);
        assert!((1..=10).contains(&score));
        findings.push(f(kinds[round % 4], "x"));
    }
}

#[test]
fn score_ignores_discovery_order() {
    let a = vec![
        f(FindingType::ObfuscationRandomName, "r"),
        f(FindingType::ObfuscationString, "s"),
        f(FindingType::ObfuscationUnicode, "u"),
    ];
    let b = vec![
        f(FindingType::ObfuscationUnicode, "u"),
        f(FindingType::ObfuscationRandomName, "r"),
        f(FindingType::ObfuscationString, "s"),
    ];
    let sa = calculate_danger_score(&a);
    let sb = calculate_danger_score(&b);
    assert_eq!(sa, sb);
    assert_eq!(
        generate_danger_explanation(sa, &a),
        generate_danger_explanation(sb, &b)
    );
}

#[test]
fn explanation_verdict_buckets() {
    let one = vec![f(FindingType::ObfuscationRandomName, "x")];
    let lines = generate_danger_explanation(2, &one);
    assert_eq!(
        lines[0],
        "VERY LOW RISK: This file contains only isolated weak signals."
    );
    assert_eq!(generate_danger_explanation(10, &one)[0], "CRITICAL RISK: This file is almost certainly malicious!");
    assert_eq!(generate_danger_explanation(8, &one)[0], "HIGH RISK: This file contains multiple high-risk indicators!");
    assert_eq!(generate_danger_explanation(5, &one)[0], "MODERATE RISK: This file contains several suspicious elements.");
    assert_eq!(generate_danger_explanation(3, &one)[0], "LOW RISK: This file contains some potentially concerning elements.");
    assert_eq!(generate_danger_explanation(1, &one)[0], "MINIMAL RISK: Few or no concerning elements detected.");
}

#[test]
fn explanation_counts_present_kinds_in_fixed_order() {
    let findings = vec![
        f(FindingType::ObfuscationString, "s1"),
        f(FindingType::DiscordWebhook, "w"),
        f(FindingType::ObfuscationString, "s2"),
    ];
    let lines = generate_danger_explanation(10, &findings);
    assert_eq!(lines.len(), 3);
    assert_eq!(
        lines[1],
        "CRITICAL: Found 1 Discord webhook(s)! These are extremely dangerous and commonly used for data exfiltration."
    );
    assert_eq!(lines[2], "Found 2 obfuscated string(s) with non-ASCII characters.");
}

#[test]
fn explanation_omits_absent_kinds() {
    let findings = vec![f(FindingType::ObfuscationRandomName, "r")];
    let lines = generate_danger_explanation(2, &findings);
    assert_eq!(lines.len(), 2);
    assert_eq!(
        lines[1],
        "Found 1 obfuscated name(s) with random naming pattern (a, b, c, ...)."
    );
}
