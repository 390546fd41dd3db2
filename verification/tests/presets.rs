use mam_voice::preset_copies::unique_copy_name;
use mam_voice::presets::{
    add_preset, delete_preset, is_built_in, new_user_preset_id, rename_preset, select_preset,
    validate_document, validate_name, validate_timestamp, validate_user_id, PresetDocument,
    PresetError, UserPreset, NATURAL_PRESET_ID, PRESET_SCHEMA_VERSION,
};

fn validation(error: PresetError) -> String {
    match error {
        PresetError::Validation(message) => message,
        other => panic!("unexpected {other:?}"),
    }
}

fn preset(id: &str, created: &str, updated: &str) -> UserPreset<u8> {
    UserPreset {
        id: id.to_owned(),
        name: "Mine".to_owned(),
        parameters: 0,
        created_at: created.to_owned(),
        updated_at: updated.to_owned(),
    }
}

#[test]
fn rejects_unsupported_schema_and_invalid_parameters() {
    let mut document = PresetDocument::<u8> {
        schema_version: PRESET_SCHEMA_VERSION + 1,
        ..PresetDocument::new_default()
    };
    assert!(validate_document(&document, &[]).is_err());

    document.schema_version = PRESET_SCHEMA_VERSION;
    document.presets.push(preset("user-invalid", "1000", "1000"));
    let checks = [Err("Dry/wet must be between 0 and 1.".to_owned())];
    assert_eq!(
        validation(validate_document(&document, &checks).unwrap_err()),
        "Dry/wet must be between 0 and 1."
    );
    assert!(validate_document(&document, &[Ok(())]).is_ok());
}

#[test]
fn documents_refuse_reserved_duplicate_and_out_of_order_presets() {
    let mut document = PresetDocument::<u8>::new_default();
    document.presets.push(preset("user-1", "1000", "999"));
    assert_eq!(
        validation(validate_document(&document, &[Ok(())]).unwrap_err()),
        "Preset 'user-1' was updated before it was created."
    );
    document.presets[0].updated_at = "1000".to_owned();
    document.presets.push(preset("user-1", "1000", "1000"));
    assert_eq!(
        validation(validate_document(&document, &[Ok(()), Ok(())]).unwrap_err()),
        "Preset id 'user-1' is duplicated or reserved."
    );
    document.presets.pop();
    document.selected_preset_id = Some("user-missing".to_owned());
    assert_eq!(
        validation(validate_document(&document, &[Ok(())]).unwrap_err()),
        "The selected preset does not exist."
    );
    document.selected_preset_id = Some("builtin-warm-tone".to_owned());
    assert!(validate_document(&document, &[Ok(())]).is_ok());
}

#[test]
fn names_ids_and_timestamps_follow_the_stored_format() {
    assert_eq!(validate_name("  Deeper warm ").unwrap(), "Deeper warm");
    assert!(validate_name("   ").is_err());
    assert!(validate_name(&"x".repeat(65)).is_err());
    assert!(validate_name("a\u{1}").is_err());
    assert!(validate_user_id("user-1700-42-0").is_ok());
    assert!(validate_user_id("builtin-natural").is_err());
    assert!(validate_user_id("user-é").is_err());
    assert_eq!(validate_timestamp("1700000000000").unwrap(), 1_700_000_000_000);
    assert_eq!(validate_timestamp("+5").unwrap(), 5);
    assert!(validate_timestamp("0").is_err());
    assert!(validate_timestamp("").is_err());
    assert!(validate_timestamp("12a").is_err());
    assert!(validate_timestamp("340282366920938463463374607431768211456").is_err());
    assert_eq!(
        validate_timestamp("340282366920938463463374607431768211455").unwrap(),
        u128::MAX
    );
    assert_eq!(new_user_preset_id("1700", 42, 3), "user-1700-42-3");
    assert!(is_built_in(NATURAL_PRESET_ID));
    assert!(is_built_in("builtin-bright-tone"));
    assert!(!is_built_in("user-1"));
}

#[test]
fn duplicate_delete_and_reset_keep_selection_consistent() {
    let mut document = PresetDocument::<u8>::new_default();
    add_preset(&mut document, "user-1".to_owned(), "Mine", 7, "1000".to_owned()).unwrap();
    assert_eq!(document.selected_preset_id.as_deref(), Some("user-1"));
    add_preset(&mut document, "user-2".to_owned(), "Mine Copy", 7, "1001".to_owned()).unwrap();
    assert!(validate_document(&document, &[Ok(()), Ok(())]).is_ok());

    delete_preset(&mut document, "user-2").unwrap();
    assert_eq!(document.selected_preset_id.as_deref(), Some(NATURAL_PRESET_ID));
    assert!(matches!(
        delete_preset(&mut document, "user-2"),
        Err(PresetError::NotFound)
    ));
    assert!(matches!(
        delete_preset(&mut document, NATURAL_PRESET_ID),
        Err(PresetError::BuiltInReadOnly)
    ));

    select_preset(&mut document, "user-1").unwrap();
    assert_eq!(document.selected_preset_id.as_deref(), Some("user-1"));
    select_preset(&mut document, NATURAL_PRESET_ID).unwrap();
    assert_eq!(document.selected_preset_id.as_deref(), Some(NATURAL_PRESET_ID));
    assert!(select_preset(&mut document, "user-9").is_err());
    assert_eq!(document.presets.len(), 1);
}

#[test]
fn renaming_validates_and_keeps_creation_time() {
    let mut document = PresetDocument::<u8>::new_default();
    add_preset(&mut document, "user-1".to_owned(), "Mine", 7, "1000".to_owned()).unwrap();
    rename_preset(&mut document, "user-1", " Ours ", Ok("2000".to_owned())).unwrap();
    assert_eq!(document.presets[0].name, "Ours");
    assert_eq!(document.presets[0].created_at, "1000");
    assert_eq!(document.presets[0].updated_at, "2000");
    assert!(matches!(
        rename_preset(&mut document, "builtin-natural", "X", Ok("3".to_owned())),
        Err(PresetError::BuiltInReadOnly)
    ));
    assert!(matches!(
        rename_preset(&mut document, "user-9", "X", Ok("3".to_owned())),
        Err(PresetError::NotFound)
    ));
    assert!(rename_preset(&mut document, "user-1", "  ", Ok("3".to_owned())).is_err());
    assert_eq!(document.presets[0].name, "Ours");
}

#[test]
fn preset_error_messages() {
    assert_eq!(PresetError::NotFound.message(), "Preset was not found.");
    assert_eq!(
        PresetError::Storage("denied".to_owned()).message(),
        "Preset storage failed: denied"
    );
}

fn named(name: &str) -> UserPreset<u8> {
    UserPreset {
        id: format!("user-{name}"),
        name: name.to_owned(),
        parameters: 0,
        created_at: "1".to_owned(),
        updated_at: "1".to_owned(),
    }
}

#[test]
fn copies_are_named_after_the_first_free_suffix() {
    assert_eq!(unique_copy_name::<u8>("Natural", &[]), "Natural Copy");
    assert_eq!(
        unique_copy_name("Natural", &[named("Natural Copy")]),
        "Natural Copy 2"
    );
    assert_eq!(
        unique_copy_name(
            "Natural",
            &[named("Natural Copy"), named("Natural Copy 2"), named("Natural Copy 3")]
        ),
        "Natural Copy 4"
    );
}

#[test]
fn long_copy_names_are_cut_to_fit() {
    let long = "x".repeat(64);
    let copy = unique_copy_name::<u8>(&long, &[]);
    assert_eq!(copy.chars().count(), 64);
    assert!(copy.ends_with(" Copy"));
    let existing = [named(&copy)];
    let second = unique_copy_name(&long, &existing);
    assert_eq!(second.chars().count(), 64);
    assert!(second.ends_with(" Copy 2"));
}

fn all_ok(document: &PresetDocument<u8>) -> Vec<Result<(), String>> {
    document.presets.iter().map(|_| Ok(())).collect()
}

#[test]
fn edits_keep_a_valid_document_valid() {
    let mut document = PresetDocument::<u8>::new_default();
    add_preset(&mut document, "user-1-2-3".to_owned(), "  Deeper ", 7, "100".to_owned()).unwrap();
    assert!(validate_document(&document, &all_ok(&document)).is_ok());
    add_preset(&mut document, "user-1-2-4".to_owned(), "Second", 8, "101".to_owned()).unwrap();
    assert!(validate_document(&document, &all_ok(&document)).is_ok());
    rename_preset(&mut document, "user-1-2-3", "Renamed", Ok("150".to_owned())).unwrap();
    assert!(validate_document(&document, &all_ok(&document)).is_ok());
    select_preset(&mut document, "user-1-2-3").unwrap();
    delete_preset(&mut document, "user-1-2-3").unwrap();
    assert_eq!(document.selected_preset_id.as_deref(), Some(NATURAL_PRESET_ID));
    assert!(validate_document(&document, &all_ok(&document)).is_ok());
}

#[test]
fn a_rename_dated_before_creation_makes_the_document_invalid() {
    let mut document = PresetDocument::<u8>::new_default();
    add_preset(&mut document, "user-1-2-3".to_owned(), "First", 7, "100".to_owned()).unwrap();
    rename_preset(&mut document, "user-1-2-3", "Later", Ok("50".to_owned())).unwrap();
    assert!(validate_document(&document, &all_ok(&document)).is_err());
}
