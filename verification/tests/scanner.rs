use collapse_find_obf::hashing::calculate_detection_hash;
use collapse_find_obf::parser::parse_class_structure;
use collapse_find_obf::scan::CollapseFindOBFScanner;
use collapse_find_obf::types::{FindingType, ParseError, ResourceInfo, ScannerOptions};

fn push_u16(out: &mut Vec<u8>, v: u16) {
    out.push((v >> 8) as u8);
    out.push((v & 0xFF) as u8);
}

fn utf8_entry(out: &mut Vec<u8>, text: &str) {
    out.push(1);
    push_u16(out, text.len() as u16);
    out.extend_from_slice(text.as_bytes());
}

fn class_entry(out: &mut Vec<u8>, name_index: u16) {
    out.push(7);
    push_u16(out, name_index);
}

/// A minimal standard class file: the given class and superclass names,
/// interfaces, extra UTF-8 literals, and members (fields then methods)
/// by name.
fn class_file_full(
    class_name: &str,
    super_name: &str,
    interfaces: &[&str],
    literals: &[&str],
    field_names: &[&str],
    method_names: &[&str],
) -> Vec<u8> {
    let mut cp: Vec<u8> = Vec::new();
    // #1 class name text, #2 class ref, #3 super name text, #4 super ref
    utf8_entry(&mut cp, class_name);
    class_entry(&mut cp, 1);
    utf8_entry(&mut cp, super_name);
    class_entry(&mut cp, 3);
    let mut next_index: u16 = 5;
    let iface_start = next_index;
    for name in interfaces {
        // each interface needs a text entry and a class-reference entry
        utf8_entry(&mut cp, name);
        class_entry(&mut cp, next_index);
        next_index += 2;
    }
    for lit in literals {
        utf8_entry(&mut cp, lit);
        next_index += 1;
    }
    let member_start = next_index;
    for name in field_names.iter().chain(method_names.iter()) {
        utf8_entry(&mut cp, name);
        next_index += 1;
    }

    let mut out: Vec<u8> = Vec::new();
    out.extend_from_slice(&[0xCA, 0xFE, 0xBA, 0xBE]); // magic
    push_u16(&mut out, 0); // minor
    push_u16(&mut out, 52); // major
    push_u16(&mut out, next_index); // constant pool count
    out.extend_from_slice(&cp);
    push_u16(&mut out, 0x0021); // access flags
    push_u16(&mut out, 2); // this class
    push_u16(&mut out, 4); // super class
    push_u16(&mut out, interfaces.len() as u16);
    for (i, _) in interfaces.iter().enumerate() {
        push_u16(&mut out, iface_start + 1 + 2 * i as u16); // class-reference entry
    }
    push_u16(&mut out, field_names.len() as u16);
    for (i, _) in field_names.iter().enumerate() {
        push_u16(&mut out, 0); // access
        push_u16(&mut out, member_start + i as u16); // name index
        push_u16(&mut out, 0); // descriptor index (not resolved)
        push_u16(&mut out, 0); // attribute count
    }
    push_u16(&mut out, method_names.len() as u16);
    for (i, _) in method_names.iter().enumerate() {
        push_u16(&mut out, 0);
        push_u16(&mut out, member_start + (field_names.len() + i) as u16);
        push_u16(&mut out, 0);
        push_u16(&mut out, 0);
    }
    push_u16(&mut out, 0); // class attribute count (ignored)
    out
}

fn class_file(
    class_name: &str,
    super_name: &str,
    literals: &[&str],
    field_names: &[&str],
    method_names: &[&str],
) -> Vec<u8> {
    class_file_full(class_name, super_name, &[], literals, field_names, method_names)
}

fn scanner(verbose: bool) -> CollapseFindOBFScanner {
    CollapseFindOBFScanner::new(ScannerOptions {
        verbose,
        cache_capacity: 1024,
        threads: 0,
    })
    .expect("scanner construction")
}

// --- hashing ---

#[test]
fn fnv1a_known_vectors() {
    assert_eq!(calculate_detection_hash(&[]), 0xcbf29ce484222325);
    assert_eq!(calculate_detection_hash(b"a"), 0xaf63dc4c8601ec8c);
    assert_ne!(calculate_detection_hash(b"ab"), calculate_detection_hash(b"ba"));
}

// --- parser ---

#[test]
fn parse_minimal_class() {
    let data = class_file("a", "java/lang/Object", &[], &[], &[]);
    let details = parse_class_structure(&data).expect("parse");
    assert_eq!(details.class_name, "a");
    assert_eq!(details.superclass_name, "java/lang/Object");
    assert!(details.interfaces.is_empty());
    assert!(details.fields.is_empty());
    assert!(details.methods.is_empty());
    // the text table holds all constant-pool text entries, deduplicated
    assert_eq!(details.strings, vec!["a".to_string(), "java/lang/Object".to_string()]);
}

#[test]
fn parse_collects_members_and_literals() {
    let data = class_file(
        "com/example/Thing",
        "java/lang/Object",
        &["hello world literal"],
        &["count", "name"],
        &["<init>", "run"],
    );
    let details = parse_class_structure(&data).expect("parse");
    assert_eq!(details.fields, vec!["count".to_string(), "name".to_string()]);
    assert_eq!(details.methods, vec!["<init>".to_string(), "run".to_string()]);
    assert!(details.strings.contains(&"hello world literal".to_string()));
}

#[test]
fn parse_deduplicates_text_entries() {
    let data = class_file("a/B", "java/lang/Object", &["dup", "dup", "other"], &[], &[]);
    let details = parse_class_structure(&data).expect("parse");
    let dups = details.strings.iter().filter(|s| s.as_str() == "dup").count();
    assert_eq!(dups, 1);
    assert!(details.strings.contains(&"other".to_string()));
}

#[test]
fn parse_decodes_multibyte_utf8() {
    let data = class_file("a/B", "java/lang/Object", &["привет мир"], &[], &[]);
    let details = parse_class_structure(&data).expect("parse");
    assert!(details.strings.contains(&"привет мир".to_string()));
}

fn reason_of(e: ParseError) -> String {
    match e {
        ParseError::Malformed { reason } => reason,
    }
}

#[test]
fn parse_truncated_header() {
    let e = parse_class_structure(&[0xCA, 0xFE, 0xBA, 0xBE]).unwrap_err();
    assert_eq!(reason_of(e), "class file is truncated");
}

#[test]
fn parse_truncated_constant_pool() {
    let mut data = vec![0xCA, 0xFE, 0xBA, 0xBE, 0, 0, 0, 52];
    push_u16(&mut data, 3); // promises two entries, provides none
    let e = parse_class_structure(&data).unwrap_err();
    assert_eq!(reason_of(e), "class file is truncated");
}

#[test]
fn parse_unknown_tag() {
    let mut data = vec![0xCA, 0xFE, 0xBA, 0xBE, 0, 0, 0, 52];
    push_u16(&mut data, 2);
    data.push(99); // no such constant-pool tag
    let e = parse_class_structure(&data).unwrap_err();
    assert_eq!(reason_of(e), "unknown constant pool tag");
}

#[test]
fn parse_bad_this_class_index() {
    let mut data = vec![0xCA, 0xFE, 0xBA, 0xBE, 0, 0, 0, 52];
    push_u16(&mut data, 2);
    utf8_entry(&mut data, "a"); // #1 is text, not a class reference
    push_u16(&mut data, 0x0021);
    push_u16(&mut data, 1); // this -> text entry
    push_u16(&mut data, 0);
    push_u16(&mut data, 0);
    let e = parse_class_structure(&data).unwrap_err();
    assert_eq!(reason_of(e), "invalid constant pool index");
}

#[test]
fn parse_invalid_utf8() {
    let mut data = vec![0xCA, 0xFE, 0xBA, 0xBE, 0, 0, 0, 52];
    push_u16(&mut data, 2);
    data.push(1); // text entry
    push_u16(&mut data, 1);
    data.push(0xFF); // not valid UTF-8
    let e = parse_class_structure(&data).unwrap_err();
    assert_eq!(reason_of(e), "invalid UTF-8 in constant pool");
}

// --- orchestrator ---

#[test]
fn end_to_end_short_class_name() {
    // a 1-character class name, a standard superclass, no suspicious
    // strings: exactly one random-name finding and a low score
    let data = class_file("a", "java/lang/Object", &[], &[], &[]);
    let s = scanner(false);
    let res = s
        .scan_class_data(&data, "a.class", None)
        .expect("scan")
        .expect("result not suppressed");
    assert!(!res.matches.is_empty());
    assert!(res.matches.iter().any(|m| m.0 == FindingType::ObfuscationRandomName));
    assert!(!res.matches.iter().any(|m| m.0 == FindingType::DiscordWebhook));
    assert!(!res.matches.iter().any(|m| m.0 == FindingType::ObfuscationString));
    assert_eq!(res.danger_score, 2);
    assert_eq!(
        res.matches[0].1,
        "Random name pattern found in path part: 'a'"
    );
    assert_eq!(
        res.danger_explanation[0],
        "VERY LOW RISK: This file contains only isolated weak signals."
    );
    assert!(res.class_details.is_some());
}

#[test]
fn scan_is_deterministic_across_fresh_scanners() {
    let data = class_file("a", "java/lang/Object", &[], &[], &[]);
    let r1 = scanner(false)
        .scan_class_data(&data, "a.class", None)
        .unwrap()
        .unwrap();
    let r2 = scanner(false)
        .scan_class_data(&data, "a.class", None)
        .unwrap()
        .unwrap();
    assert_eq!(r1.danger_score, r2.danger_score);
    assert_eq!(*r1.matches, *r2.matches);
    assert_eq!(r1.danger_explanation, r2.danger_explanation);
}

#[test]
fn second_scan_reuses_cached_findings() {
    let data = class_file("a", "java/lang/Object", &[], &[], &[]);
    let s = scanner(false);
    let r1 = s.scan_class_data(&data, "a.class", None).unwrap().unwrap();
    let r2 = s.scan_class_data(&data, "b/a.class", None).unwrap().unwrap();
    // the cached path carries no structural summary but the same findings
    assert!(r1.class_details.is_some());
    assert!(r2.class_details.is_none());
    assert_eq!(*r1.matches, *r2.matches);
    assert_eq!(r1.danger_score, r2.danger_score);
    assert_eq!(r1.danger_explanation, r2.danger_explanation);
    assert_eq!(r2.file_path, "b/a.class");
}

#[test]
fn allowlisted_class_has_no_random_name_finding() {
    let data = class_file("java/lang/Abc12", "java/lang/Object", &[], &[], &[]);
    let s = scanner(true);
    let res = s
        .scan_class_data(&data, "Abc12.class", None)
        .expect("scan")
        .expect("verbose always yields a result");
    assert!(!res.matches.iter().any(|m| m.0 == FindingType::ObfuscationRandomName));

    // the same short name outside the allowlist is flagged
    let data = class_file("java/lang/ab", "java/lang/Object", &[], &[], &[]);
    let res = s.scan_class_data(&data, "ab.class", None).unwrap().unwrap();
    assert!(!res.matches.iter().any(|m| m.0 == FindingType::ObfuscationRandomName));
    let data = class_file("com/evil/ab", "java/lang/Object", &[], &[], &[]);
    let res = s.scan_class_data(&data, "ab2.class", None).unwrap().unwrap();
    assert!(res.matches.iter().any(|m| m.0 == FindingType::ObfuscationRandomName));
}

#[test]
fn non_standard_magic_sets_indicator_and_never_errors() {
    let s = scanner(false);
    assert!(!s.custom_jvm_indicator_found());
    let r = s.scan_class_data(&[0x00, 0x00], "x.class", None).expect("no error");
    // no findings and not verbose: suppressed
    assert!(r.is_none());
    assert!(s.custom_jvm_indicator_found());
}

#[test]
fn non_standard_magic_verbose_result() {
    let s = scanner(true);
    let res = s
        .scan_class_data(&[0x00, 0x00], "x.class", None)
        .expect("no error")
        .expect("verbose yields a result");
    assert!(res.matches.is_empty());
    assert_eq!(res.danger_score, 1);
    assert!(res.class_details.is_none());
    assert!(s.custom_jvm_indicator_found());
    // one non-magic leading byte is enough
    let r2 = s.scan_class_data(&[0xCA, 0x00, 0xBA, 0xBE], "y.class", None);
    assert!(r2.is_ok());
    // empty input takes the same path
    let r3 = s.scan_class_data(&[], "z.class", None);
    assert!(r3.is_ok());
}

#[test]
fn junk_literal_is_reported_through_scan() {
    let mut junk = String::new();
    for _ in 0..45 {
        junk.push('\u{0001}');
    }
    junk.push_str("aaaaa");
    let data = class_file(
        "com/example/Thing",
        "java/lang/Object",
        &[junk.as_str()],
        &[],
        &[],
    );
    let s = scanner(false);
    let res = s.scan_class_data(&data, "t.class", None).unwrap().unwrap();
    let strings: Vec<_> = res
        .matches
        .iter()
        .filter(|m| m.0 == FindingType::ObfuscationString)
        .collect();
    assert_eq!(strings.len(), 1);
    assert_eq!(strings[0].1, "High-density encrypted string (90% junk)");
    assert_eq!(res.danger_score, 3);
}

#[test]
fn safe_string_memo_does_not_change_findings() {
    // the same clean literal and the same junk literal in two classes:
    // the second scan must still report the junk
    let mut junk = String::new();
    for _ in 0..45 {
        junk.push('\u{0001}');
    }
    junk.push_str("aaaaa");
    let clean = "a perfectly ordinary string literal";
    let a = class_file("com/example/One", "java/lang/Object", &[clean, junk.as_str()], &[], &[]);
    let b = class_file("com/example/Two", "java/lang/Object", &[clean, junk.as_str()], &[], &[]);
    let s = scanner(false);
    let ra = s.scan_class_data(&a, "a.class", None).unwrap().unwrap();
    let rb = s.scan_class_data(&b, "b.class", None).unwrap().unwrap();
    assert!(ra.matches.iter().any(|m| m.0 == FindingType::ObfuscationString));
    assert!(rb.matches.iter().any(|m| m.0 == FindingType::ObfuscationString));
}

#[test]
fn bulk_member_obfuscation_detected() {
    let fields = ["a", "b", "c", "d", "e"];
    let methods = ["f", "g", "h", "i", "j"];
    let data = class_file(
        "com/example/Holder",
        "java/lang/Object",
        &[],
        &fields,
        &methods,
    );
    let s = scanner(false);
    let res = s.scan_class_data(&data, "h.class", None).unwrap().unwrap();
    assert!(res
        .matches
        .iter()
        .any(|m| m.1 == "Massive member obfuscation: 10 short member names"));
}

#[test]
fn suspicious_keyword_in_package_path() {
    let data = class_file("com/tools/webhook/Sender", "java/lang/Object", &[], &[], &[]);
    let s = scanner(false);
    let res = s.scan_class_data(&data, "w.class", None).unwrap().unwrap();
    assert!(res
        .matches
        .iter()
        .any(|m| m.0 == FindingType::ObfuscationString
            && m.1 == "Highly suspicious keyword 'webhook' found in package path"));
}

#[test]
fn parse_error_surfaces_as_scan_error() {
    // standard magic but truncated beyond repair
    let data = [0xCA, 0xFE, 0xBA, 0xBE];
    let s = scanner(false);
    let e = s.scan_class_data(&data, "bad.class", None).unwrap_err();
    match e {
        collapse_find_obf::types::ScanError::Parse(pe) => {
            assert_eq!(reason_of(pe), "class file is truncated");
        }
        other => panic!("unexpected error: {:?}", other),
    }
}

// --- interfaces and wide constant-pool entries ---

#[test]
fn parse_resolves_interfaces() {
    let data = class_file_full(
        "com/example/Thing",
        "java/lang/Object",
        &["java/lang/Runnable", "java/io/Closeable"],
        &[],
        &[],
        &[],
    );
    let details = parse_class_structure(&data).expect("parse");
    assert_eq!(
        details.interfaces,
        vec!["java/lang/Runnable".to_string(), "java/io/Closeable".to_string()]
    );
}

#[test]
fn random_interface_name_is_flagged() {
    let data = class_file_full(
        "com/example/Thing",
        "java/lang/Object",
        &["aaaaaaaaaaaa"],
        &[],
        &[],
        &[],
    );
    let s = scanner(false);
    let res = s.scan_class_data(&data, "i.class", None).unwrap().unwrap();
    assert!(res
        .matches
        .iter()
        .any(|m| m.1 == "Interface Name 'aaaaaaaaaaaa' (fully random name)"));
}

#[test]
fn unicode_junk_interface_name_is_flagged() {
    // twelve characters, all outside ASCII and Cyrillic
    let name = "\u{4E00}\u{4E01}\u{4E02}\u{4E03}\u{4E04}\u{4E05}\u{4E06}\u{4E07}\u{4E08}\u{4E09}\u{4E0A}\u{4E0B}";
    let data = class_file_full("com/example/Thing", "java/lang/Object", &[name], &[], &[], &[]);
    let s = scanner(false);
    let res = s.scan_class_data(&data, "u.class", None).unwrap().unwrap();
    assert!(res.matches.iter().any(|m| m.0 == FindingType::ObfuscationUnicode));
}

#[test]
fn only_first_five_interfaces_examined() {
    let many = [
        "aaaaaaaaaaaa",
        "bbbbbbbbbbbb",
        "cccccccccccc",
        "dddddddddddd",
        "eeeeeeeeeeee",
        "ffffffffffff",
    ];
    let data = class_file_full("com/example/Thing", "java/lang/Object", &many, &[], &[], &[]);
    let s = scanner(false);
    let res = s.scan_class_data(&data, "m.class", None).unwrap().unwrap();
    let iface_findings = res
        .matches
        .iter()
        .filter(|m| m.1.starts_with("Interface Name"))
        .count();
    assert_eq!(iface_findings, 5);
    assert!(!res.matches.iter().any(|m| m.1.contains("ffffffffffff")));
}

#[test]
fn parse_accepts_two_slot_pool_entries() {
    // a long entry occupies two constant-pool slots
    let mut cp: Vec<u8> = Vec::new();
    utf8_entry(&mut cp, "a/B"); // #1
    class_entry(&mut cp, 1); // #2
    utf8_entry(&mut cp, "java/lang/Object"); // #3
    class_entry(&mut cp, 3); // #4
    cp.push(5); // long tag: slots #5 and #6
    cp.extend_from_slice(&[0, 0, 0, 0, 0, 0, 0, 42]);
    let mut data = vec![0xCA, 0xFE, 0xBA, 0xBE, 0, 0, 0, 52];
    push_u16(&mut data, 7); // constant pool count
    data.extend_from_slice(&cp);
    push_u16(&mut data, 0x0021);
    push_u16(&mut data, 2);
    push_u16(&mut data, 4);
    push_u16(&mut data, 0);
    push_u16(&mut data, 0);
    push_u16(&mut data, 0);
    let details = parse_class_structure(&data).expect("parse");
    assert_eq!(details.class_name, "a/B");
}

#[test]
fn parse_rejects_straddling_wide_entry() {
    // a long entry in the last remaining slot is a count mismatch
    let mut cp: Vec<u8> = Vec::new();
    utf8_entry(&mut cp, "a/B"); // #1
    cp.push(5); // long tag claims slots #2 and #3, but the count allows only #2
    cp.extend_from_slice(&[0, 0, 0, 0, 0, 0, 0, 42]);
    let mut data = vec![0xCA, 0xFE, 0xBA, 0xBE, 0, 0, 0, 52];
    push_u16(&mut data, 3);
    data.extend_from_slice(&cp);
    let e = parse_class_structure(&data).unwrap_err();
    assert_eq!(reason_of(e), "inconsistent constant pool count");
}

#[test]
fn combined_short_members_and_short_class_name() {
    // three short member names on a class whose simple name is short
    let data = class_file("com/evil/ab", "java/lang/Object", &[], &["a", "b"], &["c"], );
    let s = scanner(false);
    let res = s.scan_class_data(&data, "c.class", None).unwrap().unwrap();
    assert!(res
        .matches
        .iter()
        .any(|m| m.1 == "Combined obfuscation pattern: short class name with 3 short member names"));
}

// --- always-report wrapper ---

#[test]
fn file_scan_builds_default_report_when_clean() {
    // a clean library class is suppressed by the inner scan outside
    // verbose mode; the file-level wrapper reports it anyway
    let data = class_file("java/lang/String", "java/lang/Object", &[], &[], &[]);
    let s = scanner(false);
    let res = s
        .scan_class_file_data("s.class", &data, None)
        .expect("never errors on clean input");
    assert!(res.matches.is_empty());
    assert_eq!(res.danger_score, 1);
    assert_eq!(
        res.danger_explanation,
        vec!["No suspicious elements detected.".to_string()]
    );
    assert_eq!(res.file_path, "s.class");
}

#[test]
fn file_scan_passes_findings_through() {
    let data = class_file("com/evil/ab", "java/lang/Object", &[], &[], &[]);
    let s = scanner(false);
    let res = s.scan_class_file_data("ab.class", &data, None).expect("scan");
    assert!(res.matches.iter().any(|m| m.0 == FindingType::ObfuscationRandomName));
    assert_eq!(res.danger_score, 2);
}

#[test]
fn file_scan_prefers_resource_path() {
    let data = class_file("java/lang/String", "java/lang/Object", &[], &[], &[]);
    let s = scanner(false);
    let ri = ResourceInfo { path: "inside/archive.jar!/s.class".to_string() };
    let res = s
        .scan_class_file_data("outer-name", &data, Some(ri))
        .expect("scan");
    assert_eq!(res.file_path, "inside/archive.jar!/s.class");
    assert_eq!(
        res.resource_info.as_ref().map(|r| r.path.as_str()),
        Some("inside/archive.jar!/s.class")
    );
}
