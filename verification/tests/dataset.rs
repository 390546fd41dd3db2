use mam_voice::voice_dataset::import::plan_resample;
use mam_voice::error::OfflineResampleError;
use mam_voice::voice_dataset::storage::{new_profile_manifest, ProfileFields};
use mam_voice::voice_dataset::import::{inspect_wav, WavFormat, WavHeader};
use mam_voice::voice_dataset::quality::{
    classify_take, take_duration_ms, CaptureMetrics, QualityReasonCode, TakeMeasurements,
};
use mam_voice::voice_dataset::import::{check_wav_header, WavEncoding, WavSampleKind};
use mam_voice::voice_dataset::storage::replace_profile_entry;
use mam_voice::device::{DeviceDirection, DeviceInfo};
use mam_voice::voice_dataset::error::{DatasetError, DatasetErrorCode};
use mam_voice::voice_dataset::import::require_wav;
use mam_voice::voice_dataset::manifest::{
    check_manifest_version, validate_manifest, DatasetRecordingFormat,
};
use mam_voice::voice_dataset::preview::{fade_frames, seek_frame, FADE_MS};
use mam_voice::voice_dataset::profile::{CreateVoiceProfileRequest, ProfileHealth};
use mam_voice::voice_dataset::prompts::{
    built_in_english_pack, validate_prompt_pack, PromptCategory, PromptPack, VoicePrompt,
};
use mam_voice::voice_dataset::quality::{worse, QualityClassification};
use mam_voice::voice_dataset::session::{
    auto_trim_bounds, check_trim_draft, export_selection, export_version, exported_take,
    new_take_record, physical_device, resolve_prompt, DatasetExportOptions, PromptSelection,
};
use mam_voice::voice_dataset::storage::{
    add_take_record, apply_trim_record, classify_profile_health, new_id, remove_profile_entry,
    remove_take_record, reset_trim_record, review_take_record, timestamp, validate_create_request,
    validate_id, validate_index, validate_text, DatasetStorage,
};
use mam_voice::voice_dataset::take::{
    rebuild_statistics, validate_relative_path, validate_take, SelectedTakeVersion, TakeRecord,
    TakeReviewStatus, TakeReviewUpdate, TakeSource, TrimFrames,
};
use mam_voice::voice_dataset::profile::VoiceProfileMetadata;
use mam_voice::voice_dataset::runtime::{
    check_import_batch, check_recording_frames, check_trim_within, recording_quality,
    DatasetRuntime,
};
use mam_voice::voice_dataset::consent::ConsentMetadata;
use mam_voice::voice_dataset::manifest::VoiceDatasetManifestV1;
use mam_voice::voice_dataset::prompts::PromptPackReference;
use mam_voice::voice_dataset::source::{accepted_takes, VoiceDatasetSource};
use mam_voice::voice_dataset::take::DatasetStatistics;

fn take(id: &str, hash: &str) -> TakeRecord {
    new_take_record(
        id,
        48_000,
        None,
        TakeSource::Recorded,
        QualityClassification::Pass,
        false,
        hash.to_owned(),
    )
}

fn review(status: TakeReviewStatus, acknowledged: bool) -> TakeReviewUpdate {
    TakeReviewUpdate {
        status,
        exclude_from_training: false,
        notes: None,
        warning_acknowledged: acknowledged,
        selected_version: SelectedTakeVersion::Raw,
    }
}

#[test]
fn manifest_paths_are_relative_and_traversal_safe() {
    assert!(validate_relative_path("raw/take-1.wav").is_ok());
    assert!(validate_relative_path("../escape.wav").is_err());
    assert!(validate_relative_path("C:/escape.wav").is_err());
    assert!(validate_relative_path("raw\\escape.wav").is_err());
}

#[test]
fn relative_path_edge_cases() {
    assert!(validate_relative_path("").is_err());
    assert!(validate_relative_path("/raw/take.wav").is_err());
    assert!(validate_relative_path("./raw/take.wav").is_err());
    assert!(validate_relative_path("raw/../../take.wav").is_err());
    assert!(validate_relative_path("raw/..").is_err());
    assert!(validate_relative_path("raw/..take.wav").is_ok());
    assert!(validate_relative_path(".hidden/take.wav").is_ok());
    let error = validate_relative_path("..").unwrap_err();
    assert_eq!(error.code, DatasetErrorCode::PathValidationFailed);
}

#[test]
fn fade_constant_is_short_and_nonzero() {
    assert_eq!(FADE_MS, 5);
}

#[test]
fn fade_and_seek_frames() {
    assert_eq!(fade_frames(48_000), 240);
    assert_eq!(fade_frames(100), 1);
    assert_eq!(seek_frame(1_500), 72_000);
    assert_eq!(seek_frame(u64::MAX), u64::MAX / 1_000);
}

#[test]
fn built_in_pack_has_unique_utf8_prompts_and_categories() {
    let pack = built_in_english_pack();
    assert!(validate_prompt_pack(&pack));
    assert!(pack.prompts.iter().any(|prompt| prompt.text.is_ascii()));
    assert!(pack
        .prompts
        .iter()
        .any(|prompt| prompt.category == PromptCategory::Plosives));
    assert!(pack.prompts.len() >= 10);
}

#[test]
fn prompt_packs_need_visible_text_and_unique_ids() {
    let prompt = |id: &str, text: &str| VoicePrompt {
        id: id.to_owned(),
        text: text.to_owned(),
        category: PromptCategory::Custom,
        recommended_take_duration_ms: None,
    };
    let pack = |prompts: Vec<VoicePrompt>| PromptPack {
        id: "pack".to_owned(),
        version: 1,
        display_name: "Pack".to_owned(),
        language: "English".to_owned(),
        prompts,
    };
    assert!(!validate_prompt_pack(&pack(Vec::new())));
    assert!(!validate_prompt_pack(&pack(vec![prompt("a", "   ")])));
    assert!(!validate_prompt_pack(&pack(vec![prompt("a", "One"), prompt("a", "Two")])));
    assert!(validate_prompt_pack(&pack(vec![prompt("a", "One"), prompt("b", "Two")])));
}

#[test]
fn future_manifest_schema_is_refused_with_its_version() {
    let error = check_manifest_version(Some(99)).unwrap_err();
    assert_eq!(error.code, DatasetErrorCode::FutureManifestSchema);
    assert!(error.message.contains("99"));
    assert_eq!(
        check_manifest_version(None).unwrap_err().code,
        DatasetErrorCode::CorruptManifest
    );
    assert!(check_manifest_version(Some(1)).is_ok());
}

#[test]
fn manifests_need_the_canonical_format_and_unique_takes() {
    let format = DatasetRecordingFormat::default();
    let takes = vec![take("take-1", "a"), take("take-2", "b")];
    assert!(validate_manifest(1, &format, &takes).is_ok());
    let duplicate = vec![take("take-1", "a"), take("take-1", "b")];
    assert_eq!(
        validate_manifest(1, &format, &duplicate).unwrap_err().message,
        "The dataset contains a duplicate take identifier."
    );
    assert_eq!(
        validate_manifest(2, &format, &takes).unwrap_err().message,
        "Unsupported dataset schema version 2. Expected version 1."
    );
    let mut stereo = DatasetRecordingFormat::default();
    stereo.channels = 2;
    assert_eq!(
        validate_manifest(1, &stereo, &takes).unwrap_err().code,
        DatasetErrorCode::CorruptManifest
    );
}

#[test]
fn takes_must_be_canonical_and_select_existing_files() {
    let mut record = take("take-1", "a");
    assert!(validate_take(&record).is_ok());
    record.selected_version = SelectedTakeVersion::Trimmed;
    assert_eq!(
        validate_take(&record).unwrap_err().message,
        "A take selects a missing trimmed file."
    );
    let mut stereo = take("take-2", "b");
    stereo.channels = 2;
    assert_eq!(
        validate_take(&stereo).unwrap_err().message,
        "A take does not use the canonical dataset format."
    );
}

#[test]
fn statistics_count_reviews_durations_prompts_and_categories() {
    let prompt = VoicePrompt {
        id: "en-neutral-01".to_owned(),
        text: "Text".to_owned(),
        category: PromptCategory::NeutralStatement,
        recommended_take_duration_ms: None,
    };
    let mut first = new_take_record(
        "take-1",
        96_000,
        Some(&prompt),
        TakeSource::Recorded,
        QualityClassification::Warning,
        false,
        "a".to_owned(),
    );
    first.review_status = TakeReviewStatus::Accepted;
    let mut second = new_take_record(
        "take-2",
        48_000,
        Some(&prompt),
        TakeSource::Recorded,
        QualityClassification::Fail,
        false,
        "b".to_owned(),
    );
    second.review_status = TakeReviewStatus::Accepted;
    second.selected_version = SelectedTakeVersion::Trimmed;
    second.trim = Some(TrimFrames {
        start_frame: 0,
        end_frame: 24_000,
        derived_quality: QualityClassification::Pass,
    });
    let mut third = take("take-3", "c");
    third.review_status = TakeReviewStatus::NeedsRedo;
    third.exclude_from_training = true;
    let statistics = rebuild_statistics(&[first, second, third], 12);
    assert_eq!(statistics.total_takes, 3);
    assert_eq!(statistics.total_prompts, 12);
    assert_eq!(statistics.accepted_takes, 2);
    assert_eq!(statistics.rejected_takes, 1);
    assert_eq!(statistics.pending_takes, 0);
    assert_eq!(statistics.warning_takes, 1);
    assert_eq!(statistics.failed_takes, 1);
    assert_eq!(statistics.accepted_duration_ms, 2_500);
    assert_eq!(statistics.completed_prompts, 1);
    assert_eq!(statistics.category_coverage.len(), 1);
    assert_eq!(
        statistics.category_coverage[0].category,
        PromptCategory::NeutralStatement
    );
    assert_eq!(statistics.category_coverage[0].takes, 2);
    assert_eq!(statistics.excluded_takes, 1);
    assert_eq!(statistics.custom_takes, 0);
}

#[test]
fn managed_ids_are_lowercase_prefixed_and_short() {
    assert!(validate_id("profile-0123abcd-00000001", "profile").is_ok());
    assert!(validate_id("profile-ABC", "profile").is_err());
    assert!(validate_id("take-1", "profile").is_err());
    assert!(validate_id(&format!("profile-{}", "a".repeat(80)), "profile").is_err());
    assert_eq!(
        validate_id("../x", "take").unwrap_err().message,
        "Invalid managed take identifier."
    );
}

#[test]
fn opaque_ids_are_collision_safe_in_sequence() {
    let first = new_id("take", "1000", 7, 0);
    let second = new_id("take", "1000", 7, 1);
    assert_ne!(first, second);
    assert!(first.starts_with("take-"));
    assert!(first.ends_with("-00000000"));
    assert_eq!(first.len(), "take-".len() + 16 + 1 + 8);
    assert!(validate_id(&first, "take").is_ok());
    assert!(new_id("take", "1000", 7, 0x1_0000_0000).ends_with("-100000000"));
}

#[test]
fn timestamps_are_decimal_milliseconds() {
    assert_eq!(timestamp(Some(1_700_000_000_123)).unwrap(), "1700000000123");
    assert_eq!(
        timestamp(None).unwrap_err().code,
        DatasetErrorCode::StorageUnavailable
    );
}

#[test]
fn text_fields_are_trimmed_and_bounded() {
    assert_eq!(validate_text("  Speaker  ", "Name", 1, 80).unwrap(), "Speaker");
    assert_eq!(
        validate_text("   ", "Profile display name", 1, 80)
            .unwrap_err()
            .message,
        "Profile display name must contain 1 to 80 visible characters."
    );
    assert!(validate_text("a\u{7}b", "Name", 1, 80).is_err());
}

fn request(consent: bool) -> CreateVoiceProfileRequest {
    CreateVoiceProfileRequest {
        display_name: "Speaker / ../ safe".to_owned(),
        description: None,
        primary_language: "English".to_owned(),
        locale_tag: Some("en-US".to_owned()),
        collection_goal_minutes: Some(10),
        consent_confirmed: consent,
        confirmed_by_user: consent,
        consent_version: "voice-dataset-consent-v1".to_owned(),
        consent_notes: None,
    }
}

#[test]
fn profile_requires_consent_and_valid_details() {
    assert_eq!(
        validate_create_request(&request(false)).unwrap_err().code,
        DatasetErrorCode::ConsentRequired
    );
    let (fields, notes) = validate_create_request(&request(true)).unwrap();
    assert_eq!(fields.display_name, "Speaker / ../ safe");
    assert_eq!(fields.locale_tag.as_deref(), Some("en-US"));
    assert!(notes.is_none());

    let mut old_notice = request(true);
    old_notice.consent_version = "voice-dataset-consent-v0".to_owned();
    assert_eq!(
        validate_create_request(&old_notice).unwrap_err().message,
        "Read and confirm the current dataset consent notice."
    );
    let mut no_goal = request(true);
    no_goal.collection_goal_minutes = Some(0);
    assert_eq!(
        validate_create_request(&no_goal).unwrap_err().message,
        "Collection goal must be between 1 and 600 minutes."
    );
}

#[test]
fn review_requires_failed_override_and_keeps_consent_takes_excluded() {
    let mut takes = Vec::new();
    let mut failed = take("take-1", "a");
    failed.quality = QualityClassification::Fail;
    add_take_record(&mut takes, "profile-1", failed).unwrap();
    assert_eq!(takes[0].review_status, TakeReviewStatus::Pending);
    assert_eq!(
        add_take_record(&mut takes, "profile-1", take("take-2", "a"))
            .unwrap_err()
            .code,
        DatasetErrorCode::DuplicateImport
    );
    assert_eq!(
        add_take_record(&mut takes, "profile-1", take("take-1", "z"))
            .unwrap_err()
            .code,
        DatasetErrorCode::InvalidStateTransition
    );

    let refused = review_take_record(
        &mut takes,
        "profile-1",
        "take-1",
        review(TakeReviewStatus::Accepted, false),
    )
    .unwrap_err();
    assert_eq!(refused.profile_id.as_deref(), Some("profile-1"));
    assert_eq!(takes[0].review_status, TakeReviewStatus::Pending);

    let mut update = review(TakeReviewStatus::Accepted, true);
    update.notes = Some("  Manually retained ".to_owned());
    review_take_record(&mut takes, "profile-1", "take-1", update).unwrap();
    assert!(takes[0].manual_override);
    assert_eq!(takes[0].notes.as_deref(), Some("Manually retained"));

    let mut consent = take("take-3", "c");
    consent.source = TakeSource::RecordedConsent;
    add_take_record(&mut takes, "profile-1", consent).unwrap();
    review_take_record(
        &mut takes,
        "profile-1",
        "take-3",
        review(TakeReviewStatus::Accepted, false),
    )
    .unwrap();
    assert!(takes[1].exclude_from_training);

    assert_eq!(
        review_take_record(&mut takes, "profile-1", "take-9", review(TakeReviewStatus::Rejected, false))
            .unwrap_err()
            .code,
        DatasetErrorCode::TakeNotFound
    );
}

#[test]
fn trimming_selects_a_derived_copy_and_reset_restores_the_raw_take() {
    let mut takes = vec![take("take-1", "a")];
    assert_eq!(
        apply_trim_record(&mut takes, "take-1", 10, 10, QualityClassification::Pass).unwrap_err().code,
        DatasetErrorCode::InvalidTrimRange
    );
    assert_eq!(
        apply_trim_record(&mut takes, "take-1", 0, 48_001, QualityClassification::Pass).unwrap_err().code,
        DatasetErrorCode::InvalidTrimRange
    );
    apply_trim_record(&mut takes, "take-1", 100, 40_000, QualityClassification::Warning).unwrap();
    assert_eq!(
        takes[0].derived_file.as_deref(),
        Some("derived/take-1-trimmed.wav")
    );
    assert_eq!(takes[0].selected_version, SelectedTakeVersion::Trimmed);
    assert!(validate_take(&takes[0]).is_ok());
    let dropped = reset_trim_record(&mut takes, "take-1").unwrap();
    assert_eq!(dropped.as_deref(), Some("derived/take-1-trimmed.wav"));
    assert_eq!(takes[0].selected_version, SelectedTakeVersion::Raw);
    assert!(takes[0].trim.is_none());
    let removed = remove_take_record(&mut takes, "take-1").unwrap();
    assert_eq!(removed.id, "take-1");
    assert!(takes.is_empty());
    assert!(remove_take_record(&mut takes, "take-1").is_err());
}

#[test]
fn trim_drafts_and_auto_trim_bounds() {
    let takes = vec![take("take-1", "a")];
    assert!(check_trim_draft(&takes, "take-1", 0, 48_000).is_ok());
    assert_eq!(
        check_trim_draft(&takes, "take-1", 0, 48_001).unwrap_err().message,
        "Trim boundaries must select a non-empty range inside the take."
    );
    assert!(check_trim_draft(&takes, "take-9", 0, 1).unwrap_err().take_id.is_none());
    assert_eq!(auto_trim_bounds(Some(10_000), Some(20_000), 48_000), (7_600, 22_401));
    assert_eq!(auto_trim_bounds(Some(100), Some(47_999), 48_000), (0, 48_000));
    assert_eq!(auto_trim_bounds(None, None, 48_000), (0, 48_000));
}

#[test]
fn export_includes_only_accepted_non_excluded_takes_by_default() {
    let mut accepted = take("take-1", "a");
    accepted.review_status = TakeReviewStatus::Accepted;
    let mut rejected = take("take-2", "b");
    rejected.review_status = TakeReviewStatus::Rejected;
    let mut excluded = take("take-3", "c");
    excluded.review_status = TakeReviewStatus::Accepted;
    excluded.exclude_from_training = true;
    let takes = vec![accepted, rejected, excluded];
    let default_options = DatasetExportOptions {
        include_rejected: false,
        include_raw_masters: false,
    };
    let selected = export_selection(&takes, default_options);
    assert_eq!(selected.len(), 1);
    assert_eq!(selected[0].id, "take-1");
    let with_rejected = export_selection(
        &takes,
        DatasetExportOptions {
            include_rejected: true,
            include_raw_masters: true,
        },
    );
    assert_eq!(with_rejected.len(), 2);
    let copy = exported_take(&with_rejected[1]);
    assert_eq!(copy.raw_file, "audio/take-2.wav");
    assert!(copy.derived_file.is_none());
    assert_eq!(
        export_version(&takes[0], default_options),
        SelectedTakeVersion::Raw
    );
}

#[test]
fn storage_paths_stay_inside_the_profile_folder() {
    let storage = DatasetStorage::new("/data".to_owned());
    assert_eq!(storage.root(), "/data");
    assert_eq!(
        storage.raw_take_path("profile-1", "take-2").unwrap(),
        "/data/profile-1/raw/take-2.wav"
    );
    assert_eq!(
        storage.derived_take_path("profile-1", "take-2").unwrap(),
        "/data/profile-1/derived/take-2-trimmed.wav"
    );
    assert!(storage.raw_take_path("../x", "take-2").is_err());
    assert!(storage.raw_take_path("profile-1", "take/../x").is_err());
    let record = take("take-2", "a");
    assert_eq!(
        storage
            .resolve_take_file("profile-1", &record, SelectedTakeVersion::Raw)
            .unwrap(),
        "/data/profile-1/raw/take-2.wav"
    );
    assert_eq!(
        storage
            .resolve_take_file("profile-1", &record, SelectedTakeVersion::Trimmed)
            .unwrap_err()
            .code,
        DatasetErrorCode::TakeNotFound
    );
}

fn profile(id: &str) -> VoiceProfileMetadata {
    VoiceProfileMetadata {
        id: id.to_owned(),
        display_name: "Speaker".to_owned(),
        description: None,
        primary_language: "English".to_owned(),
        locale_tag: None,
        collection_goal_minutes: None,
        created_at: "1".to_owned(),
        updated_at: "1".to_owned(),
    }
}

#[test]
fn profile_index_is_validated_and_deletion_is_idempotent() {
    let mut profiles = vec![profile("profile-a"), profile("profile-b")];
    assert!(validate_index(1, &profiles).is_ok());
    assert_eq!(
        validate_index(2, &profiles).unwrap_err().message,
        "Unsupported profile index schema version 2."
    );
    assert!(validate_index(1, &[profile("profile-a"), profile("profile-a")]).is_err());
    assert!(validate_index(1, &[profile("Profile-A")]).is_err());
    assert!(remove_profile_entry(&mut profiles, "profile-a"));
    assert_eq!(profiles.len(), 1);
    assert!(!remove_profile_entry(&mut profiles, "profile-a"));
    assert_eq!(profiles[0].id, "profile-b");
}

#[test]
fn missing_and_orphaned_files_are_reported_without_silent_deletion() {
    let takes = vec![take("take-1", "a")];
    let stored = vec!["raw/take-1.wav".to_owned()];
    assert_eq!(
        classify_profile_health(false, Ok(&takes), &[true], &[false], &stored),
        ProfileHealth::Healthy
    );
    assert_eq!(
        classify_profile_health(false, Ok(&takes), &[false], &[false], &stored),
        ProfileHealth::MissingFiles
    );
    let orphan = vec!["raw/take-1.wav".to_owned(), "raw/orphan.wav".to_owned()];
    assert_eq!(
        classify_profile_health(false, Ok(&takes), &[true], &[false], &orphan),
        ProfileHealth::OrphanedFiles
    );
    assert_eq!(
        classify_profile_health(true, Ok(&takes), &[true], &[false], &stored),
        ProfileHealth::NeedsRepair
    );
    assert_eq!(
        classify_profile_health(false, Err(DatasetErrorCode::FutureManifestSchema), &[], &[], &[]),
        ProfileHealth::UnsupportedSchema
    );
}

#[test]
fn custom_prompts_are_validated_and_built_in_prompts_must_exist() {
    let custom = resolve_prompt(
        PromptSelection {
            prompt_id: None,
            custom_prompt_text: Some("  Привет, мир  ".to_owned()),
        },
        Ok("prompt-1".to_owned()),
    )
    .unwrap()
    .unwrap();
    assert_eq!(custom.text, "Привет, мир");
    assert_eq!(custom.category, PromptCategory::Custom);
    assert_eq!(custom.id, "prompt-1");

    let blank = resolve_prompt(
        PromptSelection {
            prompt_id: Some("en-neutral-01".to_owned()),
            custom_prompt_text: Some("   ".to_owned()),
        },
        Ok("prompt-2".to_owned()),
    );
    assert_eq!(
        blank.unwrap_err().message,
        "Custom prompt text must contain 1 to 500 visible characters."
    );

    let built_in = resolve_prompt(
        PromptSelection {
            prompt_id: Some("en-plosives-01".to_owned()),
            custom_prompt_text: None,
        },
        Err(DatasetError::new(DatasetErrorCode::StorageUnavailable, "clock")),
    )
    .unwrap()
    .unwrap();
    assert_eq!(built_in.category, PromptCategory::Plosives);
    assert!(resolve_prompt(
        PromptSelection {
            prompt_id: Some("missing".to_owned()),
            custom_prompt_text: None,
        },
        Ok("prompt-3".to_owned()),
    )
    .is_err());
    assert!(resolve_prompt(
        PromptSelection {
            prompt_id: None,
            custom_prompt_text: None,
        },
        Ok("prompt-4".to_owned()),
    )
    .unwrap()
    .is_none());
}

#[test]
fn physical_devices_are_found_by_unique_id_then_unique_name() {
    let mic = DeviceInfo::test("mic", "USB Microphone", DeviceDirection::Input, true, false);
    let cable = DeviceInfo::test("cable", "CABLE Output", DeviceDirection::Input, false, true);
    let devices = vec![mic.clone(), cable.clone()];
    assert_eq!(
        physical_device(&devices, "mic", "", DatasetErrorCode::MicrophoneUnavailable)
            .unwrap()
            .id,
        "mic"
    );
    assert_eq!(
        physical_device(&devices, "gone", " usb microphone ", DatasetErrorCode::MicrophoneUnavailable)
            .unwrap()
            .id,
        "mic"
    );
    assert_eq!(
        physical_device(&devices, "cable", "CABLE Output", DatasetErrorCode::MicrophoneUnavailable)
            .unwrap_err()
            .code,
        DatasetErrorCode::MicrophoneUnavailable
    );
    let twins = vec![mic.clone(), mic];
    assert!(physical_device(&twins, "mic", "USB Microphone", DatasetErrorCode::PreviewOutputMissing).is_err());
}

#[test]
fn only_wav_files_are_imported() {
    assert!(require_wav(Some("take.wav")).is_ok());
    assert!(require_wav(Some("TAKE.WAV")).is_ok());
    assert!(require_wav(Some("a.b.Wav")).is_ok());
    assert!(require_wav(Some(".wav")).is_err());
    assert!(require_wav(Some("take.mp3")).is_err());
    assert!(require_wav(Some("wav")).is_err());
    assert_eq!(
        require_wav(None).unwrap_err().message,
        "Choose a .wav file."
    );
}

#[test]
fn worse_keeps_the_most_serious_verdict() {
    let (pass, warning, fail) = (
        QualityClassification::Pass,
        QualityClassification::Warning,
        QualityClassification::Fail,
    );
    assert_eq!(worse(pass, warning), warning);
    assert_eq!(worse(warning, pass), warning);
    assert_eq!(worse(fail, pass), fail);
    assert_eq!(worse(pass, pass), pass);
}

#[test]
fn dataset_errors_carry_profile_and_take() {
    let error = DatasetError::new(DatasetErrorCode::TakeNotFound, "gone")
        .profile("profile-1")
        .take("take-1");
    assert_eq!(error.profile_id.as_deref(), Some("profile-1"));
    assert_eq!(error.take_id.as_deref(), Some("take-1"));
    assert_eq!(error.code.name(), "takeNotFound");
    let storage = DatasetError::storage("Cannot read", "denied");
    assert_eq!(storage.message, "Cannot read: denied");
    assert_eq!(storage.code, DatasetErrorCode::StorageUnavailable);
}

#[test]
fn training_sources_list_only_accepted_usable_takes() {
    let mut trimmed = take("take-1", "a");
    trimmed.review_status = TakeReviewStatus::Accepted;
    trimmed.selected_version = SelectedTakeVersion::Trimmed;
    trimmed.derived_file = Some("derived/take-1-trimmed.wav".to_owned());
    trimmed.trim = Some(TrimFrames {
        start_frame: 0,
        end_frame: 24_000,
        derived_quality: QualityClassification::Warning,
    });
    let mut consent = take("take-2", "b");
    consent.review_status = TakeReviewStatus::Accepted;
    consent.source = TakeSource::RecordedConsent;
    let pending = take("take-3", "c");
    let listed = accepted_takes("data/profile-1", &[trimmed, consent, pending]).unwrap();
    assert_eq!(listed.len(), 1);
    assert_eq!(listed[0].path, "data/profile-1/derived/take-1-trimmed.wav");
    assert_eq!(listed[0].raw_path, "data/profile-1/raw/take-1.wav");
    assert_eq!(listed[0].duration_ms, 500);
    assert_eq!(listed[0].quality, QualityClassification::Warning);

    let mut escaping = take("take-4", "d");
    escaping.review_status = TakeReviewStatus::Accepted;
    escaping.raw_file = "../take-4.wav".to_owned();
    assert_eq!(
        accepted_takes("data/profile-1", &[escaping]).unwrap_err().code,
        DatasetErrorCode::PathValidationFailed
    );
}

#[test]
fn session_refuses_overlapping_audio_and_missing_consent() {
    let mut runtime = DatasetRuntime::new();
    assert_eq!(
        runtime.check_recording_start(" ", true).unwrap_err().code,
        DatasetErrorCode::NoMicrophoneSelected
    );
    assert_eq!(
        runtime.check_recording_start("mic", true).unwrap_err().code,
        DatasetErrorCode::ProfileNotFound
    );
    runtime.select_profile("profile-1".to_owned());
    assert_eq!(
        runtime.current_prompt.as_ref().unwrap().id,
        "en-neutral-01"
    );
    assert_eq!(
        runtime.check_recording_start("mic", false).unwrap_err().code,
        DatasetErrorCode::ConsentRequired
    );
    assert!(runtime.check_recording_start("mic", true).is_ok());
    runtime.begin_recording(true);
    assert!(runtime.audio_active());
    assert_eq!(
        runtime.check_recording_start("mic", true).unwrap_err().code,
        DatasetErrorCode::RecordingAlreadyActive
    );
    assert!(runtime.profile_owns_audio("profile-1"));
    let recording = runtime.take_recording().unwrap();
    assert_eq!(recording.source, TakeSource::RecordedConsent);
    assert!(runtime.finalizing);
    assert!(runtime.take_recording().is_err());
    runtime.end_finalizing(None);
    assert!(!runtime.finalizing);
    assert!(!runtime.audio_active());
    assert!(runtime.trim_draft().is_err());
    assert!(runtime.active_preview().is_err());
    runtime.forget_profile("profile-1");
    assert!(runtime.current_profile_id().is_err());

    assert!(check_import_batch(0).is_err());
    assert!(check_import_batch(32).is_ok());
    assert!(check_import_batch(33).is_err());
    assert!(check_trim_within(0, 10, 10).is_ok());
    assert!(check_trim_within(0, 11, 10).is_err());
    assert!(check_recording_frames(0).is_err());
    assert_eq!(
        recording_quality(QualityClassification::Pass, true),
        QualityClassification::Warning
    );
    assert_eq!(
        recording_quality(QualityClassification::Fail, true),
        QualityClassification::Fail
    );
    assert_eq!(
        recording_quality(QualityClassification::Pass, false),
        QualityClassification::Pass
    );
}

#[test]
fn dataset_audio_waits_for_the_live_engine_and_voice_lab() {
    let busy = mam_voice::voice_dataset::runtime::ensure_dataset_audio_available(
        mam_voice::engine_state::EngineState::Running,
        false,
    )
    .unwrap_err();
    assert_eq!(
        busy.message,
        "Stop Use, Test, or Voice Lab audio before starting Dataset recording or preview."
    );
    assert!(mam_voice::voice_dataset::runtime::ensure_dataset_audio_available(
        mam_voice::engine_state::EngineState::Stopped,
        true
    )
    .is_err());
    assert!(mam_voice::voice_dataset::runtime::ensure_dataset_audio_available(
        mam_voice::engine_state::EngineState::Stopped,
        false
    )
    .is_ok());
}

fn manifest(takes: Vec<TakeRecord>) -> VoiceDatasetManifestV1 {
    VoiceDatasetManifestV1 {
        schema_version: 1,
        profile: profile("profile-1"),
        consent: ConsentMetadata {
            consent_confirmed: true,
            consent_version: "voice-dataset-consent-v1".to_owned(),
            confirmed_at: "1".to_owned(),
            confirmed_by_user: true,
            recorded_consent_take_id: None,
            revoked_at: None,
            notes: None,
        },
        recording_format: DatasetRecordingFormat::default(),
        prompt_pack: PromptPackReference {
            id: "built-in-en".to_owned(),
            version: 1,
        },
        takes,
        statistics: DatasetStatistics::default(),
        created_at: "1".to_owned(),
        updated_at: "1".to_owned(),
    }
}

#[test]
fn manifest_recounts_statistics_and_validates_itself() {
    let mut accepted = take("take-1", "a");
    accepted.review_status = TakeReviewStatus::Accepted;
    let mut data = manifest(vec![accepted, take("take-2", "b")]);
    data.rebuild_statistics(12);
    assert_eq!(data.statistics.total_takes, 2);
    assert_eq!(data.statistics.accepted_takes, 1);
    assert_eq!(data.statistics.pending_takes, 1);
    assert_eq!(data.statistics.total_prompts, 12);
    assert_eq!(data.takes.len(), 2);
    assert!(data.validate().is_ok());

    data.schema_version = 2;
    assert_eq!(
        data.validate().unwrap_err().code,
        DatasetErrorCode::FutureManifestSchema
    );
    data.schema_version = 1;
    data.takes.push(take("take-1", "c"));
    assert_eq!(
        data.validate().unwrap_err().message,
        "The dataset contains a duplicate take identifier."
    );
}

#[test]
fn snapshot_source_places_takes_in_the_profile_folder() {
    let storage = DatasetStorage::new("data".to_owned());
    let mut accepted = take("take-1", "a");
    accepted.review_status = TakeReviewStatus::Accepted;
    let mut data = manifest(vec![accepted, take("take-2", "b")]);
    data.rebuild_statistics(12);
    let source = storage.snapshot_source("profile-1", data).unwrap();
    assert_eq!(source.profile_root(), "data/profile-1");
    assert_eq!(source.manifest().takes.len(), 2);
    assert!(source.consent().consent_confirmed);
    assert_eq!(source.recording_format().sample_rate, 48_000);
    assert_eq!(source.profile_metadata().unwrap().id, "profile-1");
    let listed = source.accepted_takes().unwrap();
    assert_eq!(listed.len(), 1);
    assert_eq!(listed[0].id, "take-1");
    assert_eq!(listed[0].path, "data/profile-1/raw/take-1.wav");
    let statistics = source.dataset_statistics().unwrap();
    assert_eq!(statistics.accepted_takes, 1);
    assert_eq!(statistics.total_prompts, 12);

    assert_eq!(
        storage
            .snapshot_source("../profile-1", manifest(Vec::new()))
            .unwrap_err()
            .code,
        DatasetErrorCode::PathValidationFailed
    );
}

#[test]
fn listed_profiles_fall_back_when_health_or_size_is_unknown() {
    let storage = DatasetStorage::new("data".to_owned());
    let profiles = vec![profile("profile-a"), profile("profile-b")];
    let listed = storage.list_profiles(
        &profiles,
        &vec![Some(ProfileHealth::Healthy), None],
        &vec![None, Some(2_048)],
    );
    assert_eq!(listed.len(), 2);
    assert_eq!(listed[0].profile.id, "profile-a");
    assert_eq!(listed[0].health, ProfileHealth::Healthy);
    assert_eq!(listed[0].managed_storage_bytes, 0);
    assert_eq!(listed[1].profile.id, "profile-b");
    assert_eq!(listed[1].health, ProfileHealth::NeedsRepair);
    assert_eq!(listed[1].managed_storage_bytes, 2_048);
    assert!(storage.list_profiles(&Vec::new(), &Vec::new(), &Vec::new()).is_empty());
}

#[test]
fn wav_headers_are_checked_in_order() {
    assert_eq!(
        check_wav_header(48_000, 1, 48_000, WavSampleKind::Int, 24).unwrap(),
        WavEncoding::Pcm { bits: 24 }
    );
    assert_eq!(
        check_wav_header(44_100, 2, 10, WavSampleKind::Float, 32).unwrap(),
        WavEncoding::Float32
    );
    assert_eq!(
        check_wav_header(22_050, 1, 10, WavSampleKind::Int, 16).unwrap_err().message,
        "Dataset import supports mono/stereo WAV at 44.1 or 48 kHz."
    );
    assert_eq!(
        check_wav_header(48_000, 3, 10, WavSampleKind::Int, 16).unwrap_err().code,
        DatasetErrorCode::UnsupportedWav
    );
    assert_eq!(
        check_wav_header(48_000, 1, 0, WavSampleKind::Int, 16).unwrap_err().message,
        "The selected WAV is empty."
    );
    let too_long = check_wav_header(48_000, 1, 48_000 * 120 + 1, WavSampleKind::Int, 16).unwrap_err();
    assert_eq!(too_long.code, DatasetErrorCode::ImportTooLong);
    assert_eq!(too_long.message, "Imported WAV files cannot exceed 120 seconds.");
    assert!(check_wav_header(48_000, 1, 48_000 * 120, WavSampleKind::Int, 16).is_ok());
    assert_eq!(
        check_wav_header(48_000, 1, 10, WavSampleKind::Int, 8).unwrap_err().message,
        "Supported WAV formats are PCM 16/24/32-bit or IEEE float32."
    );
    assert!(check_wav_header(48_000, 1, 10, WavSampleKind::Float, 64).is_err());
}

#[test]
fn replacing_a_listed_profile_succeeds() {
    let mut profiles = vec![profile("profile-a"), profile("profile-b")];
    let mut renamed = profile("profile-b");
    renamed.display_name = "Renamed".to_owned();
    assert!(replace_profile_entry(&mut profiles, renamed).is_ok());
    assert_eq!(profiles[1].display_name, "Renamed");
    assert_eq!(profiles[0].display_name, "Speaker");
    let missing = replace_profile_entry(&mut profiles, profile("profile-c")).unwrap_err();
    assert_eq!(missing.code, DatasetErrorCode::ProfileNotFound);
    assert_eq!(profiles.len(), 2);
}

fn wav_bytes(sample_rate: u32, channels: u16, bits: u16, float: bool, frames: u32) -> Vec<u8> {
    let spec = hound::WavSpec {
        channels,
        sample_rate,
        bits_per_sample: bits,
        sample_format: if float { hound::SampleFormat::Float } else { hound::SampleFormat::Int },
    };
    let mut cursor = std::io::Cursor::new(Vec::new());
    {
        let mut writer = hound::WavWriter::new(&mut cursor, spec).unwrap();
        for _ in 0..frames * u32::from(channels) {
            if float {
                writer.write_sample(0.25f32).unwrap();
            } else if bits == 16 {
                writer.write_sample(1000i16).unwrap();
            } else {
                writer.write_sample(1000i32).unwrap();
            }
        }
        writer.finalize().unwrap();
    }
    cursor.into_inner()
}

#[test]
fn wav_files_are_read_by_their_header() {
    let format = inspect_wav(&wav_bytes(48_000, 1, 16, false, 4_800)).unwrap();
    assert_eq!(
        format,
        WavFormat {
            header: WavHeader {
                sample_rate: 48_000,
                channels: 1,
                bits_per_sample: 16,
                kind: WavSampleKind::Int,
                frames: 4_800,
            },
            encoding: WavEncoding::Pcm { bits: 16 },
        }
    );
    let stereo = inspect_wav(&wav_bytes(44_100, 2, 32, true, 100)).unwrap();
    assert_eq!(stereo.encoding, WavEncoding::Float32);
    assert_eq!(stereo.header.frames, 100);
    assert_eq!(
        inspect_wav(&wav_bytes(22_050, 1, 16, false, 100)).unwrap_err().message,
        "Dataset import supports mono/stereo WAV at 44.1 or 48 kHz."
    );
    assert_eq!(
        inspect_wav(&wav_bytes(48_000, 1, 16, false, 0)).unwrap_err().message,
        "The selected WAV is empty."
    );
    let unreadable = inspect_wav(b"not a wav file").unwrap_err();
    assert_eq!(unreadable.code, DatasetErrorCode::UnsupportedWav);
    assert_eq!(unreadable.message, "The selected file is not a readable uncompressed WAV.");
}

fn clean_take() -> TakeMeasurements {
    TakeMeasurements {
        duration_ms: 2_000,
        clipped_samples: 0,
        clipping_ratio_fails: false,
        level_too_low: false,
        level_too_high: false,
        leading_silence_ms: 100,
        trailing_silence_ms: 100,
        mostly_quiet: false,
        low_snr: false,
        zero_regions: 0,
        not_nearly_all_quiet: true,
    }
}

fn no_capture_problems() -> CaptureMetrics {
    CaptureMetrics { callback_gaps: 0, queue_overflow_count: 0, dropped_frames: 0, non_finite_input_count: 0 }
}

#[test]
fn a_clean_take_passes_and_asks_for_a_listen() {
    let (classification, reasons) = classify_take(&clean_take(), &no_capture_problems());
    assert_eq!(classification, QualityClassification::Pass);
    assert_eq!(reasons.len(), 1);
    assert_eq!(reasons[0].code, QualityReasonCode::ManualReviewRequired);
    assert_eq!(
        reasons[0].guidance,
        "Listen through headphones and confirm the phrase is complete before accepting."
    );
}

#[test]
fn take_problems_are_reported_in_order_with_the_worst_verdict() {
    let mut take = clean_take();
    take.duration_ms = 500;
    take.clipped_samples = 3;
    take.leading_silence_ms = 2_000;
    take.low_snr = true;
    let capture = CaptureMetrics { queue_overflow_count: 1, ..no_capture_problems() };
    let (classification, reasons) = classify_take(&take, &capture);
    assert_eq!(classification, QualityClassification::Fail);
    let codes: Vec<QualityReasonCode> = reasons.iter().map(|r| r.code).collect();
    assert_eq!(
        codes,
        vec![
            QualityReasonCode::TooShort,
            QualityReasonCode::Clipping,
            QualityReasonCode::ExcessiveLeadingSilence,
            QualityReasonCode::LowEstimatedSnr,
            QualityReasonCode::CaptureOverflow,
        ]
    );
    assert_eq!(reasons[0].guidance, "Record the complete phrase for at least one second.");

    let mut warned = clean_take();
    warned.clipped_samples = 1;
    warned.trailing_silence_ms = 1_600;
    warned.level_too_low = true;
    warned.low_snr = true;
    let (classification, reasons) = classify_take(&warned, &no_capture_problems());
    assert_eq!(classification, QualityClassification::Warning);
    let codes: Vec<QualityReasonCode> = reasons.iter().map(|r| r.code).collect();
    assert_eq!(
        codes,
        vec![
            QualityReasonCode::Clipping,
            QualityReasonCode::LevelTooLow,
            QualityReasonCode::ExcessiveTrailingSilence,
        ]
    );

    let mut dropouts = clean_take();
    dropouts.zero_regions = 5;
    let (classification, reasons) = classify_take(&dropouts, &no_capture_problems());
    assert_eq!(classification, QualityClassification::Warning);
    assert_eq!(reasons[0].code, QualityReasonCode::PossibleDropout);
    dropouts.not_nearly_all_quiet = false;
    assert_eq!(classify_take(&dropouts, &no_capture_problems()).0, QualityClassification::Pass);
}

#[test]
fn take_lengths_round_down_and_saturate() {
    assert_eq!(take_duration_ms(96_000, 48_000), 2_000);
    assert_eq!(take_duration_ms(100, 48_000), 2);
    assert_eq!(take_duration_ms(5, 0), 5_000);
    assert_eq!(take_duration_ms(u64::MAX, 1), u64::MAX);
}

#[test]
fn a_new_profile_manifest_records_consent_and_starts_empty() {
    let fields = ProfileFields {
        display_name: "Speaker".to_owned(),
        description: None,
        primary_language: "English".to_owned(),
        locale_tag: Some("en-US".to_owned()),
        collection_goal_minutes: Some(30),
    };
    let manifest = new_profile_manifest("profile-1".to_owned(), fields, Some("notes".to_owned()), "7".to_owned());
    assert_eq!(manifest.schema_version, 1);
    assert_eq!(manifest.profile.id, "profile-1");
    assert_eq!(manifest.profile.locale_tag.as_deref(), Some("en-US"));
    assert_eq!(manifest.profile.created_at, "7");
    assert!(manifest.consent.consent_confirmed);
    assert_eq!(manifest.consent.consent_version, "voice-dataset-consent-v1");
    assert_eq!(manifest.consent.confirmed_at, "7");
    assert_eq!(manifest.consent.notes.as_deref(), Some("notes"));
    assert_eq!(manifest.recording_format.sample_rate, 48_000);
    assert_eq!(manifest.prompt_pack.id, "mam-english-core");
    assert!(manifest.takes.is_empty());
    assert_eq!(manifest.statistics.total_prompts, 12);
    assert_eq!(manifest.statistics.total_takes, 0);
    assert!(manifest.validate().is_ok());
}

#[test]
fn resampling_plans_the_output_length_or_refuses() {
    assert_eq!(plan_resample(44_100, 1, 44_100, 48_000, true, 48_000 * 120), Ok(48_000));
    assert_eq!(plan_resample(96_000, 2, 48_000, 44_100, true, 1_000_000), Ok(44_100));
    assert_eq!(plan_resample(0, 1, 44_100, 48_000, true, 10), Ok(0));
    assert_eq!(plan_resample(10, 1, 0, 48_000, true, 10), Err(OfflineResampleError::InvalidRate));
    assert_eq!(plan_resample(10, 0, 44_100, 48_000, true, 10), Err(OfflineResampleError::InvalidChannels));
    assert_eq!(plan_resample(11, 2, 44_100, 48_000, true, 10), Err(OfflineResampleError::IncompleteFrame));
    assert_eq!(plan_resample(10, 1, 44_100, 48_000, false, 10), Err(OfflineResampleError::NonFiniteInput));
    assert_eq!(
        plan_resample(44_100, 1, 44_100, 48_000, true, 100),
        Err(OfflineResampleError::OutputTooLarge { requested_frames: 48_000, maximum_frames: 100 })
    );
}
