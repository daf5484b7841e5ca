use hash_id::catalog::parse_catalog;
use hash_id::errors::IdError;

#[test]
fn parses_a_valid_catalog_in_order() {
    let text = r#"[
        {"regex": "^a$", "modes": [
            {"name": "ALPHA", "extended": true, "john": "alpha", "hashcat": 100},
            {"name": "BETA", "extended": false}
        ]},
        {"regex": "^b$", "modes": []}
    ]"#;
    let catalog = parse_catalog(text).unwrap();
    assert_eq!(catalog.len(), 2);
    assert_eq!(catalog[0].regex, "^a$");
    assert_eq!(catalog[0].modes.len(), 2);
    assert_eq!(catalog[0].modes[0].name, "ALPHA");
    assert!(catalog[0].modes[0].extended);
    assert_eq!(catalog[0].modes[0].john.as_deref(), Some("alpha"));
    assert_eq!(catalog[0].modes[0].hashcat, Some(100));
    assert_eq!(catalog[0].modes[1].name, "BETA");
    assert!(!catalog[0].modes[1].extended);
    assert_eq!(catalog[0].modes[1].john, None);
    assert_eq!(catalog[0].modes[1].hashcat, None);
    assert_eq!(catalog[1].regex, "^b$");
    assert!(catalog[1].modes.is_empty());
}

#[test]
fn rejects_malformed_json() {
    let r = parse_catalog("this is not json");
    assert!(matches!(r, Err(IdError::Parse)));
}

#[test]
fn rejects_a_document_that_is_not_an_array() {
    let r = parse_catalog(r#"{"regex": "^a$", "modes": []}"#);
    assert!(matches!(r, Err(IdError::Parse)));
}

#[test]
fn rejects_an_entry_without_a_regex() {
    let r = parse_catalog(r#"[{"modes": []}]"#);
    assert!(matches!(r, Err(IdError::Parse)));
}

#[test]
fn rejects_an_entry_without_modes() {
    let r = parse_catalog(r#"[{"regex": "^a$"}]"#);
    assert!(matches!(r, Err(IdError::Parse)));
}

#[test]
fn rejects_a_mode_without_a_name() {
    let r = parse_catalog(r#"[{"regex": "^a$", "modes": [{"extended": false}]}]"#);
    assert!(matches!(r, Err(IdError::Parse)));
}

#[test]
fn rejects_a_mode_without_extended() {
    let r = parse_catalog(r#"[{"regex": "^a$", "modes": [{"name": "X"}]}]"#);
    assert!(matches!(r, Err(IdError::Parse)));
}

#[test]
fn rejects_a_textual_hashcat_identifier() {
    let r = parse_catalog(
        r#"[{"regex": "^a$", "modes": [{"name": "X", "extended": false, "hashcat": "0"}]}]"#,
    );
    assert!(matches!(r, Err(IdError::Parse)));
}

#[test]
fn rejects_a_negative_hashcat_identifier() {
    let r = parse_catalog(
        r#"[{"regex": "^a$", "modes": [{"name": "X", "extended": false, "hashcat": -1}]}]"#,
    );
    assert!(matches!(r, Err(IdError::Parse)));
}

#[test]
fn rejects_a_numeric_john_identifier() {
    let r = parse_catalog(
        r#"[{"regex": "^a$", "modes": [{"name": "X", "extended": false, "john": 5}]}]"#,
    );
    assert!(matches!(r, Err(IdError::Parse)));
}

#[test]
fn one_bad_record_fails_the_whole_parse() {
    let r = parse_catalog(
        r#"[
            {"regex": "^a$", "modes": [{"name": "OK", "extended": false}]},
            {"regex": "^b$", "modes": [{"name": 5, "extended": false}]}
        ]"#,
    );
    assert!(matches!(r, Err(IdError::Parse)));
}

#[test]
fn null_optional_fields_read_as_absent() {
    let text =
        r#"[{"regex": "^a$", "modes": [{"name": "X", "extended": false, "john": null, "hashcat": null}]}]"#;
    let catalog = parse_catalog(text).unwrap();
    assert_eq!(catalog[0].modes[0].john, None);
    assert_eq!(catalog[0].modes[0].hashcat, None);
}

#[test]
fn unknown_fields_are_ignored() {
    let text =
        r#"[{"regex": "^a$", "weight": 1.5, "modes": [{"name": "X", "extended": false, "rank": 3}]}]"#;
    let catalog = parse_catalog(text).unwrap();
    assert_eq!(catalog.len(), 1);
    assert_eq!(catalog[0].modes[0].name, "X");
}
