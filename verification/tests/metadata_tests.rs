use fho::metadata::FhoToolMetadata;
use fho::FhoVersion;

#[test]
fn metadata_round_trip_fake_tool() {
    let record = FhoToolMetadata::new("fake".to_string(), "fake command".to_string());
    let json = record.to_json();
    let back = FhoToolMetadata::from_json(&json).expect("parsing metadata");
    assert_eq!(back.name, "fake");
    assert_eq!(back.description, "fake command");
    assert_eq!(back.requires_fho, 0);
    assert_eq!(back.fho_details, FhoVersion::FhoVersion0);
}

#[test]
fn metadata_json_exact_text() {
    let record = FhoToolMetadata::new("fake".to_string(), "fake command".to_string());
    let expected = "{\n  \"name\": \"fake\",\n  \"description\": \"fake command\",\n  \"requires_fho\": 0,\n  \"fho_details\": {\n    \"FhoVersion0\": {}\n  }\n}";
    assert_eq!(record.to_json(), expected);
}

#[test]
fn metadata_new_sets_version_zero() {
    let record = FhoToolMetadata::new("echo".to_string(), "prints a line".to_string());
    assert_eq!(record.requires_fho, 0);
    assert_eq!(record.fho_details, FhoVersion::FhoVersion0);
}

#[test]
fn metadata_round_trip_with_escaped_characters() {
    let record = FhoToolMetadata::new(
        "quo\"te".to_string(),
        "back\\slash and\nnewline\tand tab\rand return".to_string(),
    );
    let json = record.to_json();
    let back = FhoToolMetadata::from_json(&json).expect("parsing metadata");
    assert_eq!(back.name, "quo\"te");
    assert_eq!(back.description, "back\\slash and\nnewline\tand tab\rand return");
    assert_eq!(back.requires_fho, 0);
}

#[test]
fn metadata_escapes_every_control_character() {
    let record = FhoToolMetadata::new("fake".to_string(), "bell\u{7} esc\u{1b} nul\u{0}".to_string());
    let json = record.to_json();
    assert!(json.contains("bell\\u0007 esc\\u001b nul\\u0000"));
    for c in json.chars() {
        assert!(
            (c as u32) >= 32 || c == '\n',
            "no control character may stand raw inside the record text"
        );
    }
    let back = FhoToolMetadata::from_json(&json).expect("parsing metadata");
    assert_eq!(back.description, "bell\u{7} esc\u{1b} nul\u{0}");
}

#[test]
fn metadata_round_trip_nonzero_version_tag() {
    let record = FhoToolMetadata {
        name: "fake".to_string(),
        description: "fake command".to_string(),
        requires_fho: 123456789,
        fho_details: FhoVersion::FhoVersion0,
    };
    let json = record.to_json();
    assert!(json.contains("\"requires_fho\": 123456789,"));
    let back = FhoToolMetadata::from_json(&json).expect("parsing metadata");
    assert_eq!(back.requires_fho, 123456789);
}

#[test]
fn metadata_rejects_malformed_text() {
    assert!(FhoToolMetadata::from_json("").is_none());
    assert!(FhoToolMetadata::from_json("not json at all").is_none());
    assert!(FhoToolMetadata::from_json("{\n  \"name\": \"fake\"").is_none());
    let record = FhoToolMetadata::new("fake".to_string(), "fake command".to_string());
    let mut with_garbage = record.to_json();
    with_garbage.push_str("tail");
    assert!(FhoToolMetadata::from_json(&with_garbage).is_none());
}

#[test]
fn metadata_rejects_unescaped_break_in_name() {
    // A closing quote inside the name section ends the string early, so
    // the rest of the skeleton no longer lines up.
    let text = "{\n  \"name\": \"fa\"ke\",\n  \"description\": \"d\",\n  \"requires_fho\": 0,\n  \"fho_details\": {\n    \"FhoVersion0\": {}\n  }\n}";
    assert!(FhoToolMetadata::from_json(text).is_none());
}
