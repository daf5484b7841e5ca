use hash_id::catalog::parse_catalog;
use hash_id::identify;
use hash_id::matcher::find_matches;
use hash_id::report::render_report;

#[test]
fn md5_entry_matches_and_prints() {
    let text = r#"[
        {
            "regex": "^[a-f0-9]{32}$",
            "modes": [
                {"name": "MD5", "hashcat": 0, "john": "raw-md5", "extended": false}
            ]
        }
    ]"#;
    let catalog = parse_catalog(text).unwrap();
    let hash = "5f4dcc3b5e12db30000000000000000a";
    assert_eq!(hash.len(), 32);
    let modes = find_matches(&catalog, hash);
    assert_eq!(modes.len(), 1);
    assert_eq!(modes[0].name, "MD5");
    assert_eq!(modes[0].john.as_deref(), Some("raw-md5"));
    assert_eq!(modes[0].hashcat, Some(0));
    let lines = render_report(&modes);
    assert_eq!(
        lines,
        vec![
            "[*] MD5".to_string(),
            "    john format:  raw-md5".to_string(),
            "    hashcat mode: 0".to_string(),
        ]
    );
}

#[test]
fn invalid_regex_is_skipped_and_scan_continues() {
    let text = r#"[
        {"regex": "(unbalanced", "modes": [{"name": "BROKEN", "extended": false}]},
        {"regex": "^a", "modes": [{"name": "GOOD", "extended": false}]}
    ]"#;
    let catalog = parse_catalog(text).unwrap();
    let modes = find_matches(&catalog, "abc");
    assert_eq!(modes.len(), 1);
    assert_eq!(modes[0].name, "GOOD");
}

#[test]
fn zero_matches_prints_nothing() {
    let text = r#"[
        {"regex": "^zzz$", "modes": [{"name": "NOPE", "extended": false}]}
    ]"#;
    let catalog = parse_catalog(text).unwrap();
    let lines = identify(&catalog, "abcdef");
    assert!(lines.is_empty());
}

#[test]
fn matches_keep_catalog_order_and_duplicates() {
    let text = r#"[
        {"regex": "a", "modes": [{"name": "FIRST", "extended": false}, {"name": "SHARED", "extended": true}]},
        {"regex": "b", "modes": [{"name": "SKIPPED", "extended": false}]},
        {"regex": "c", "modes": [{"name": "SHARED", "extended": true}]}
    ]"#;
    let catalog = parse_catalog(text).unwrap();
    let modes = find_matches(&catalog, "cca");
    let names: Vec<&str> = modes.iter().map(|m| m.name.as_str()).collect();
    assert_eq!(names, vec!["FIRST", "SHARED", "SHARED"]);
}

#[test]
fn substring_match_suffices() {
    let text = r#"[
        {"regex": "bcd", "modes": [{"name": "PARTIAL", "extended": false}]}
    ]"#;
    let catalog = parse_catalog(text).unwrap();
    let modes = find_matches(&catalog, "abcdef");
    assert_eq!(modes.len(), 1);
    assert_eq!(modes[0].name, "PARTIAL");
}

#[test]
fn identify_is_repeatable_on_same_catalog() {
    let text = r#"[
        {"regex": "^[0-9]+$", "modes": [{"name": "DIGITS", "hashcat": 7, "extended": false}]}
    ]"#;
    let catalog = parse_catalog(text).unwrap();
    let first = identify(&catalog, "12345");
    let second = identify(&catalog, "12345");
    assert_eq!(first, second);
    assert_eq!(first, vec!["[*] DIGITS".to_string(), "    hashcat mode: 7".to_string()]);
}
