use tiermask::mask::{MaskCompileError, MaskKind, ObjectMask};

fn mask(pattern: &str, kind: MaskKind, case_sensitive: bool) -> ObjectMask {
    ObjectMask {
        name: "m".to_string(),
        pattern: pattern.to_string(),
        kind,
        case_sensitive,
    }
}

#[test]
fn prefix_matches_start_of_key() {
    let m = mask("logs/", MaskKind::Prefix, true);
    assert!(m.matches("logs/2021/file.txt"));
    assert!(!m.matches("archive/logs/file.txt"));
}

#[test]
fn suffix_matches_end_of_key() {
    let m = mask(".csv", MaskKind::Suffix, true);
    assert!(m.matches("reports/q1.csv"));
    assert!(!m.matches("reports/q1.csv.bak"));
}

#[test]
fn contains_matches_anywhere() {
    let m = mask("2021", MaskKind::Contains, true);
    assert!(m.matches("logs/2021/file.txt"));
    assert!(m.matches("2021"));
    assert!(!m.matches("logs/2020/file.txt"));
}

#[test]
fn case_insensitive_prefix_folds_both_sides() {
    let m = mask("Data", MaskKind::Prefix, false);
    assert!(m.matches("database/x"));
    assert!(m.matches("DATABASE/x"));
    assert!(m.matches("DaTaBaSe/x"));
}

#[test]
fn toggling_case_flag_flips_result_when_casing_differs() {
    let insensitive = mask("Data", MaskKind::Prefix, false);
    let sensitive = mask("Data", MaskKind::Prefix, true);
    // The key's casing differs from the pattern's: the flag decides.
    assert!(insensitive.matches("database/x"));
    assert!(!sensitive.matches("database/x"));
    // The key matches the pattern's casing exactly: the flag is irrelevant.
    assert!(insensitive.matches("Database/x"));
    assert!(sensitive.matches("Database/x"));
    // The key does not match under any casing: the flag is irrelevant.
    assert!(!insensitive.matches("files/x"));
    assert!(!sensitive.matches("files/x"));
}

#[test]
fn regex_searches_unanchored() {
    let m = mask("ab+c", MaskKind::Regex, true);
    assert!(m.matches("xxabbbcyy"));
    assert!(!m.matches("xxac"));
}

#[test]
fn regex_case_insensitive_flag() {
    let m = mask("^data", MaskKind::Regex, false);
    assert!(m.matches("DATA/file"));
    let strict = mask("^data", MaskKind::Regex, true);
    assert!(!strict.matches("DATA/file"));
}

#[test]
fn compile_rejects_empty_pattern() {
    let r = ObjectMask::compile("m".to_string(), String::new(), MaskKind::Prefix, false);
    assert_eq!(r.err(), Some(MaskCompileError::EmptyPattern));
}

#[test]
fn compile_rejects_invalid_regex() {
    let r = ObjectMask::compile("m".to_string(), "[".to_string(), MaskKind::Regex, false);
    assert_eq!(r.err(), Some(MaskCompileError::InvalidRegex));
}

#[test]
fn compile_accepts_valid_regex() {
    let r = ObjectMask::compile("m".to_string(), "^a.*z$".to_string(), MaskKind::Regex, true);
    assert!(r.is_ok());
}

#[test]
fn invalid_regex_matches_nothing() {
    let m = mask("[", MaskKind::Regex, true);
    assert!(!m.matches("["));
    assert!(!m.matches("anything"));
}

#[test]
fn summary_names_mask_kind_and_pattern() {
    let m = mask("logs/", MaskKind::Prefix, true);
    assert_eq!(m.summary(), "m (prefix: logs/)");
}
