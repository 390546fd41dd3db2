use vstd::prelude::*;

use crate::device::{has_only_index, only_index, DeviceInfo, DeviceView};
use crate::digits::{decimal, decimal_spec};
use crate::external_route::{device_views, PairingSource};
use crate::reliability::ReliabilityProfile;
use crate::text::{
    from_chars, is_blank, is_control, normalize_name, normalized_name, to_chars, trim_spec,
    unicode_control,
};
use crate::words::{append_chars, join_spec, join_words, word_views};

verus! {

pub const APPLICATION_SETTINGS_SCHEMA_VERSION: u32 = 4;

pub const MAX_DEVICE_ID_CHARS: usize = 512;

pub const MAX_FRIENDLY_NAME_CHARS: usize = 512;

/// The page the application shows.
#[derive(Clone, Copy, Debug, PartialEq, Eq, Structural)]
pub enum ApplicationPage {
    Use,
    Test,
    Diagnostics,
}

impl Default for ApplicationPage {
    fn default() -> (page: Self)
        ensures
            page == ApplicationPage::Use,
    {
        ApplicationPage::Use
    }
}

/// The persisted application settings (current schema).
#[derive(Debug)]
pub struct ApplicationSettingsDocument {
    pub schema_version: u32,
    pub selected_input_device_id: Option<String>,
    pub last_known_input_friendly_name: Option<String>,
    pub selected_external_route_id: Option<String>,
    pub external_route_playback_device_id: Option<String>,
    pub last_known_external_route_playback_name: Option<String>,
    pub external_route_capture_device_id: Option<String>,
    pub last_known_external_route_capture_name: Option<String>,
    pub external_route_pairing_source: Option<PairingSource>,
    pub external_route_manual: bool,
    pub local_monitor_device_id: Option<String>,
    pub last_known_local_monitor_friendly_name: Option<String>,
    pub reliability_profile: ReliabilityProfile,
    pub last_page: ApplicationPage,
}

fn clone_opt(s: &Option<String>) -> (copy: Option<String>)
    ensures
        copy == *s,
{
    match s {
        Some(s) => Some(s.clone()),
        None => None,
    }
}

impl Clone for ApplicationSettingsDocument {
    fn clone(&self) -> (copy: Self)
        ensures
            copy == *self,
    {
        ApplicationSettingsDocument {
            schema_version: self.schema_version,
            selected_input_device_id: clone_opt(&self.selected_input_device_id),
            last_known_input_friendly_name: clone_opt(&self.last_known_input_friendly_name),
            selected_external_route_id: clone_opt(&self.selected_external_route_id),
            external_route_playback_device_id: clone_opt(&self.external_route_playback_device_id),
            last_known_external_route_playback_name: clone_opt(
                &self.last_known_external_route_playback_name,
            ),
            external_route_capture_device_id: clone_opt(&self.external_route_capture_device_id),
            last_known_external_route_capture_name: clone_opt(
                &self.last_known_external_route_capture_name,
            ),
            external_route_pairing_source: self.external_route_pairing_source,
            external_route_manual: self.external_route_manual,
            local_monitor_device_id: clone_opt(&self.local_monitor_device_id),
            last_known_local_monitor_friendly_name: clone_opt(
                &self.last_known_local_monitor_friendly_name,
            ),
            reliability_profile: self.reliability_profile,
            last_page: self.last_page,
        }
    }
}

/// The settings of a first launch.
pub open spec fn default_document(d: ApplicationSettingsDocument) -> bool {
    &&& d.schema_version == APPLICATION_SETTINGS_SCHEMA_VERSION
    &&& d.selected_input_device_id is None
    &&& d.last_known_input_friendly_name is None
    &&& d.selected_external_route_id is None
    &&& d.external_route_playback_device_id is None
    &&& d.last_known_external_route_playback_name is None
    &&& d.external_route_capture_device_id is None
    &&& d.last_known_external_route_capture_name is None
    &&& d.external_route_pairing_source is None
    &&& !d.external_route_manual
    &&& d.local_monitor_device_id is None
    &&& d.last_known_local_monitor_friendly_name is None
    &&& d.reliability_profile == ReliabilityProfile::Balanced
    &&& d.last_page == ApplicationPage::Use
}

impl Default for ApplicationSettingsDocument {
    fn default() -> (d: Self)
        ensures
            default_document(d),
    {
        ApplicationSettingsDocument {
            schema_version: APPLICATION_SETTINGS_SCHEMA_VERSION,
            selected_input_device_id: None,
            last_known_input_friendly_name: None,
            selected_external_route_id: None,
            external_route_playback_device_id: None,
            last_known_external_route_playback_name: None,
            external_route_capture_device_id: None,
            last_known_external_route_capture_name: None,
            external_route_pairing_source: None,
            external_route_manual: false,
            local_monitor_device_id: None,
            last_known_local_monitor_friendly_name: None,
            reliability_profile: ReliabilityProfile::Balanced,
            last_page: ApplicationPage::Use,
        }
    }
}

/// Settings written by schema version 1.
#[derive(Debug)]
pub struct ApplicationSettingsDocumentV1 {
    pub schema_version: u32,
    pub selected_input_device_id: Option<String>,
    pub selected_output_device_id: Option<String>,
    pub last_known_input_friendly_name: Option<String>,
    pub last_known_output_friendly_name: Option<String>,
}

/// Settings written by schema version 2.
#[derive(Debug)]
pub struct ApplicationSettingsDocumentV2 {
    pub schema_version: u32,
    pub selected_input_device_id: Option<String>,
    pub last_known_input_friendly_name: Option<String>,
    pub processed_destination_device_id: Option<String>,
    pub last_known_processed_destination_friendly_name: Option<String>,
    pub local_monitor_device_id: Option<String>,
    pub last_known_local_monitor_friendly_name: Option<String>,
    pub local_monitor_enabled: bool,
    pub reliability_profile: ReliabilityProfile,
    pub last_page: ApplicationPage,
}

/// Settings written by schema version 3.
#[derive(Debug)]
pub struct ApplicationSettingsDocumentV3 {
    pub schema_version: u32,
    pub selected_input_device_id: Option<String>,
    pub last_known_input_friendly_name: Option<String>,
    pub processed_destination_device_id: Option<String>,
    pub last_known_processed_destination_friendly_name: Option<String>,
    pub local_monitor_device_id: Option<String>,
    pub last_known_local_monitor_friendly_name: Option<String>,
    pub reliability_profile: ReliabilityProfile,
    pub last_page: ApplicationPage,
}

/// Why settings could not be loaded or saved.
#[derive(Debug)]
pub enum ApplicationSettingsError {
    Storage(String),
    Json(String),
    Validation(String),
}

/// The message shown for an error.
pub open spec fn error_message_spec(error: ApplicationSettingsError) -> Seq<char> {
    match error {
        ApplicationSettingsError::Storage(m) => "Application settings storage failed: "@ + m@,
        ApplicationSettingsError::Json(m) => "Application settings are not valid JSON: "@ + m@,
        ApplicationSettingsError::Validation(m) => m@,
    }
}

impl ApplicationSettingsError {
    pub fn message(&self) -> (text: String)
        ensures
            text@ == error_message_spec(*self),
    {
        match self {
            ApplicationSettingsError::Storage(m) => {
                let mut t = to_chars("Application settings storage failed: ");
                append_chars(&mut t, to_chars(m.as_str()).as_slice());
                from_chars(t.as_slice())
            },
            ApplicationSettingsError::Json(m) => {
                let mut t = to_chars("Application settings are not valid JSON: ");
                append_chars(&mut t, to_chars(m.as_str()).as_slice());
                from_chars(t.as_slice())
            },
            ApplicationSettingsError::Validation(m) => m.clone(),
        }
    }
}

// ---------------------------------------------------------------------------
// Migration.
// ---------------------------------------------------------------------------
/// Which stored schema a settings file uses.
#[derive(Clone, Copy, Debug, PartialEq, Eq, Structural)]
pub enum StoredSchema {
    V1,
    V2,
    V3,
    Current,
}

/// The message for an unsupported schema version.
pub open spec fn unsupported_version_message(version: u64) -> Seq<char> {
    "Unsupported application-settings schema version "@ + decimal_spec(version as nat)
        + ". Expected version 4."@
}

/// Decides how to read a settings file from its `schemaVersion` field.
pub fn stored_schema(version: Option<u64>) -> (schema: Result<StoredSchema, ApplicationSettingsError>)
    ensures
        match version {
            None => schema matches Err(ApplicationSettingsError::Validation(m)) && m@
                == "Application settings require an integer schemaVersion."@,
            Some(v) => if v == 1 {
                schema == Ok::<StoredSchema, ApplicationSettingsError>(StoredSchema::V1)
            } else if v == 2 {
                schema == Ok::<StoredSchema, ApplicationSettingsError>(StoredSchema::V2)
            } else if v == 3 {
                schema == Ok::<StoredSchema, ApplicationSettingsError>(StoredSchema::V3)
            } else if v == 4 {
                schema == Ok::<StoredSchema, ApplicationSettingsError>(StoredSchema::Current)
            } else {
                schema matches Err(ApplicationSettingsError::Validation(m)) && m@
                    == unsupported_version_message(v)
            },
        },
{
    match version {
        None => Err(
            ApplicationSettingsError::Validation(
                from_chars(
                    to_chars("Application settings require an integer schemaVersion.").as_slice(),
                ),
            ),
        ),
        Some(1) => Ok(StoredSchema::V1),
        Some(2) => Ok(StoredSchema::V2),
        Some(3) => Ok(StoredSchema::V3),
        Some(4) => Ok(StoredSchema::Current),
        Some(v) => {
            let mut t = to_chars("Unsupported application-settings schema version ");
            append_chars(&mut t, decimal(v).as_slice());
            append_chars(&mut t, to_chars(". Expected version 4.").as_slice());
            Err(ApplicationSettingsError::Validation(from_chars(t.as_slice())))
        },
    }
}

/// Version 1 kept one output, which becomes the external-route playback endpoint.
pub fn migrate_v1(document: ApplicationSettingsDocumentV1) -> (migrated: ApplicationSettingsDocument)
    ensures
        migrated.schema_version == APPLICATION_SETTINGS_SCHEMA_VERSION,
        migrated.selected_input_device_id == document.selected_input_device_id,
        migrated.last_known_input_friendly_name == document.last_known_input_friendly_name,
        migrated.selected_external_route_id is None,
        migrated.external_route_playback_device_id == document.selected_output_device_id,
        migrated.last_known_external_route_playback_name == document.last_known_output_friendly_name,
        migrated.external_route_capture_device_id is None,
        migrated.last_known_external_route_capture_name is None,
        migrated.external_route_pairing_source is None,
        !migrated.external_route_manual,
        migrated.local_monitor_device_id is None,
        migrated.last_known_local_monitor_friendly_name is None,
        migrated.reliability_profile == ReliabilityProfile::Balanced,
        migrated.last_page == ApplicationPage::Use,
{
    ApplicationSettingsDocument {
        schema_version: APPLICATION_SETTINGS_SCHEMA_VERSION,
        selected_input_device_id: document.selected_input_device_id,
        last_known_input_friendly_name: document.last_known_input_friendly_name,
        selected_external_route_id: None,
        external_route_playback_device_id: document.selected_output_device_id,
        last_known_external_route_playback_name: document.last_known_output_friendly_name,
        external_route_capture_device_id: None,
        last_known_external_route_capture_name: None,
        external_route_pairing_source: None,
        external_route_manual: false,
        local_monitor_device_id: None,
        last_known_local_monitor_friendly_name: None,
        reliability_profile: ReliabilityProfile::Balanced,
        last_page: ApplicationPage::Use,
    }
}

/// Version 2 kept a processed destination and a monitor; whether the monitor was
/// enabled is deliberately not carried over.
pub fn migrate_v2(document: ApplicationSettingsDocumentV2) -> (migrated: ApplicationSettingsDocument)
    ensures
        migrated.schema_version == APPLICATION_SETTINGS_SCHEMA_VERSION,
        migrated.selected_input_device_id == document.selected_input_device_id,
        migrated.last_known_input_friendly_name == document.last_known_input_friendly_name,
        migrated.selected_external_route_id is None,
        migrated.external_route_playback_device_id == document.processed_destination_device_id,
        migrated.last_known_external_route_playback_name
            == document.last_known_processed_destination_friendly_name,
        migrated.external_route_capture_device_id is None,
        migrated.last_known_external_route_capture_name is None,
        migrated.external_route_pairing_source is None,
        !migrated.external_route_manual,
        migrated.local_monitor_device_id == document.local_monitor_device_id,
        migrated.last_known_local_monitor_friendly_name
            == document.last_known_local_monitor_friendly_name,
        migrated.reliability_profile == document.reliability_profile,
        migrated.last_page == document.last_page,
{
    ApplicationSettingsDocument {
        schema_version: APPLICATION_SETTINGS_SCHEMA_VERSION,
        selected_input_device_id: document.selected_input_device_id,
        last_known_input_friendly_name: document.last_known_input_friendly_name,
        selected_external_route_id: None,
        external_route_playback_device_id: document.processed_destination_device_id,
        last_known_external_route_playback_name: document.last_known_processed_destination_friendly_name,
        external_route_capture_device_id: None,
        last_known_external_route_capture_name: None,
        external_route_pairing_source: None,
        external_route_manual: false,
        local_monitor_device_id: document.local_monitor_device_id,
        last_known_local_monitor_friendly_name: document.last_known_local_monitor_friendly_name,
        reliability_profile: document.reliability_profile,
        last_page: document.last_page,
    }
}

/// Version 3 kept a processed destination, which becomes the playback endpoint; no
/// capture endpoint is invented.
pub fn migrate_v3(document: ApplicationSettingsDocumentV3) -> (migrated: ApplicationSettingsDocument)
    ensures
        migrated.schema_version == APPLICATION_SETTINGS_SCHEMA_VERSION,
        migrated.selected_input_device_id == document.selected_input_device_id,
        migrated.last_known_input_friendly_name == document.last_known_input_friendly_name,
        migrated.selected_external_route_id is None,
        migrated.external_route_playback_device_id == document.processed_destination_device_id,
        migrated.last_known_external_route_playback_name
            == document.last_known_processed_destination_friendly_name,
        migrated.external_route_capture_device_id is None,
        migrated.last_known_external_route_capture_name is None,
        migrated.external_route_pairing_source is None,
        !migrated.external_route_manual,
        migrated.local_monitor_device_id == document.local_monitor_device_id,
        migrated.last_known_local_monitor_friendly_name
            == document.last_known_local_monitor_friendly_name,
        migrated.reliability_profile == document.reliability_profile,
        migrated.last_page == document.last_page,
{
    ApplicationSettingsDocument {
        schema_version: APPLICATION_SETTINGS_SCHEMA_VERSION,
        selected_input_device_id: document.selected_input_device_id,
        last_known_input_friendly_name: document.last_known_input_friendly_name,
        selected_external_route_id: None,
        external_route_playback_device_id: document.processed_destination_device_id,
        last_known_external_route_playback_name: document.last_known_processed_destination_friendly_name,
        external_route_capture_device_id: None,
        last_known_external_route_capture_name: None,
        external_route_pairing_source: None,
        external_route_manual: false,
        local_monitor_device_id: document.local_monitor_device_id,
        last_known_local_monitor_friendly_name: document.last_known_local_monitor_friendly_name,
        reliability_profile: document.reliability_profile,
        last_page: document.last_page,
    }
}

// ---------------------------------------------------------------------------
// Validation.
// ---------------------------------------------------------------------------
/// A stored string is non-blank, not too long and free of control characters.
pub open spec fn valid_stored_string(value: Seq<char>, maximum: nat) -> bool {
    &&& trim_spec(value).len() > 0
    &&& value.len() <= maximum
    &&& forall|i: int| 0 <= i < value.len() ==> !unicode_control(#[trigger] value[i])
}

/// The message for an invalid stored string.
pub open spec fn invalid_string_message(label: Seq<char>, maximum: nat) -> Seq<char> {
    label + " must contain 1 to "@ + decimal_spec(maximum) + " non-control characters."@
}

pub fn validate_string(label: &str, value: &str, maximum_chars: usize) -> (result: Result<
    (),
    ApplicationSettingsError,
>)
    ensures
        valid_stored_string(value@, maximum_chars as nat) ==> result is Ok,
        !valid_stored_string(value@, maximum_chars as nat) ==> (result matches Err(
            ApplicationSettingsError::Validation(m),
        ) && m@ == invalid_string_message(label@, maximum_chars as nat)),
{
    let chars = to_chars(value);
    let mut has_control = false;
    let mut i: usize = 0;
    while i < chars.len()
        invariant
            i <= chars@.len(),
            chars@ == value@,
            has_control == exists|k: int| 0 <= k < i && unicode_control(#[trigger] chars@[k]),
        decreases chars@.len() - i,
    {
        if is_control(chars[i]) {
            has_control = true;
        }
        i = i + 1;
    }
    if is_blank(value) || chars.len() > maximum_chars || has_control {
        let mut t = to_chars(label);
        append_chars(&mut t, to_chars(" must contain 1 to ").as_slice());
        append_chars(&mut t, decimal(maximum_chars as u64).as_slice());
        append_chars(&mut t, to_chars(" non-control characters.").as_slice());
        return Err(ApplicationSettingsError::Validation(from_chars(t.as_slice())));
    }
    Ok(())
}

/// The outcome of validating a stored identifier/name pair.
pub open spec fn device_pair_check(purpose: Seq<char>, id: Option<String>, name: Option<String>) -> Result<
    (),
    Seq<char>,
> {
    if id.is_some() != name.is_some() {
        Err(
            "The stored "@ + purpose
                + " identifier and friendly name must both be present or both be absent."@,
        )
    } else if id matches Some(i) && !valid_stored_string(i@, 512) {
        Err(invalid_string_message("Stored "@ + purpose + " identifier"@, 512))
    } else if name matches Some(n) && !valid_stored_string(n@, 512) {
        Err(invalid_string_message("Stored "@ + purpose + " friendly name"@, 512))
    } else {
        Ok(())
    }
}

fn label_of(head: &str, purpose: &str, tail: &str) -> (label: String)
    ensures
        label@ == head@ + purpose@ + tail@,
{
    let mut t = to_chars(head);
    append_chars(&mut t, to_chars(purpose).as_slice());
    append_chars(&mut t, to_chars(tail).as_slice());
    from_chars(t.as_slice())
}

pub fn validate_device_pair(purpose: &str, id: &Option<String>, friendly_name: &Option<String>) -> (result:
    Result<(), ApplicationSettingsError>)
    ensures
        match result {
            Ok(()) => device_pair_check(purpose@, *id, *friendly_name) is Ok,
            Err(e) => e matches ApplicationSettingsError::Validation(m)
                && device_pair_check(purpose@, *id, *friendly_name) == Err::<(), Seq<char>>(m@),
        },
{
    if id.is_some() != friendly_name.is_some() {
        return Err(
            ApplicationSettingsError::Validation(
                label_of(
                    "The stored ",
                    purpose,
                    " identifier and friendly name must both be present or both be absent.",
                ),
            ),
        );
    }
    if let Some(id) = id {
        let label = label_of("Stored ", purpose, " identifier");
        validate_string(label.as_str(), id.as_str(), MAX_DEVICE_ID_CHARS)?;
    }
    if let Some(name) = friendly_name {
        let label = label_of("Stored ", purpose, " friendly name");
        validate_string(label.as_str(), name.as_str(), MAX_FRIENDLY_NAME_CHARS)?;
    }
    Ok(())
}

/// The outcome of validating a whole settings document.
pub open spec fn document_check(d: ApplicationSettingsDocument) -> Result<(), Seq<char>> {
    if d.schema_version != APPLICATION_SETTINGS_SCHEMA_VERSION {
        Err(
            "Unsupported application-settings schema version "@ + decimal_spec(
                d.schema_version as nat,
            ) + ". Expected version "@ + decimal_spec(4) + "."@,
        )
    } else if device_pair_check(
        "input"@,
        d.selected_input_device_id,
        d.last_known_input_friendly_name,
    ) is Err {
        device_pair_check("input"@, d.selected_input_device_id, d.last_known_input_friendly_name)
    } else if device_pair_check(
        "external-route playback endpoint"@,
        d.external_route_playback_device_id,
        d.last_known_external_route_playback_name,
    ) is Err {
        device_pair_check(
            "external-route playback endpoint"@,
            d.external_route_playback_device_id,
            d.last_known_external_route_playback_name,
        )
    } else if device_pair_check(
        "external-route capture endpoint"@,
        d.external_route_capture_device_id,
        d.last_known_external_route_capture_name,
    ) is Err {
        device_pair_check(
            "external-route capture endpoint"@,
            d.external_route_capture_device_id,
            d.last_known_external_route_capture_name,
        )
    } else if device_pair_check(
        "local monitor"@,
        d.local_monitor_device_id,
        d.last_known_local_monitor_friendly_name,
    ) is Err {
        device_pair_check(
            "local monitor"@,
            d.local_monitor_device_id,
            d.last_known_local_monitor_friendly_name,
        )
    } else if d.selected_external_route_id is Some && (d.external_route_playback_device_id is None
        || d.external_route_capture_device_id is None) {
        Err("A selected external route requires both playback and capture endpoints."@)
    } else if d.external_route_manual && (d.external_route_pairing_source != Some(
        PairingSource::Manual,
    ) || d.selected_external_route_id is None) {
        Err("A manual external route requires a selected route ID and manual pairing source."@)
    } else {
        Ok(())
    }
}

pub fn validate_document(document: &ApplicationSettingsDocument) -> (result: Result<
    (),
    ApplicationSettingsError,
>)
    ensures
        match result {
            Ok(()) => document_check(*document) is Ok,
            Err(e) => e matches ApplicationSettingsError::Validation(m) && document_check(*document)
                == Err::<(), Seq<char>>(m@),
        },
{
    if document.schema_version != APPLICATION_SETTINGS_SCHEMA_VERSION {
        let mut t = to_chars("Unsupported application-settings schema version ");
        append_chars(&mut t, decimal(document.schema_version as u64).as_slice());
        append_chars(&mut t, to_chars(". Expected version ").as_slice());
        append_chars(&mut t, decimal(4).as_slice());
        append_chars(&mut t, to_chars(".").as_slice());
        return Err(ApplicationSettingsError::Validation(from_chars(t.as_slice())));
    }
    validate_device_pair(
        "input",
        &document.selected_input_device_id,
        &document.last_known_input_friendly_name,
    )?;
    validate_device_pair(
        "external-route playback endpoint",
        &document.external_route_playback_device_id,
        &document.last_known_external_route_playback_name,
    )?;
    validate_device_pair(
        "external-route capture endpoint",
        &document.external_route_capture_device_id,
        &document.last_known_external_route_capture_name,
    )?;
    validate_device_pair(
        "local monitor",
        &document.local_monitor_device_id,
        &document.last_known_local_monitor_friendly_name,
    )?;
    if document.selected_external_route_id.is_some() && (
    document.external_route_playback_device_id.is_none()
        || document.external_route_capture_device_id.is_none()) {
        return Err(
            ApplicationSettingsError::Validation(
                from_chars(
                    to_chars(
                        "A selected external route requires both playback and capture endpoints.",
                    ).as_slice(),
                ),
            ),
        );
    }
    let manual_source = match document.external_route_pairing_source {
        Some(PairingSource::Manual) => true,
        _ => false,
    };
    if document.external_route_manual && (!manual_source
        || document.selected_external_route_id.is_none()) {
        return Err(
            ApplicationSettingsError::Validation(
                from_chars(
                    to_chars(
                        "A manual external route requires a selected route ID and manual pairing source.",
                    ).as_slice(),
                ),
            ),
        );
    }
    Ok(())
}

/// The outcome of checking a document read from storage: the document with whether
/// it was migrated, or the validation message.
pub open spec fn load_check(document: ApplicationSettingsDocument, migrated: bool) -> Result<
    (ApplicationSettingsDocument, bool),
    Seq<char>,
> {
    match document_check(document) {
        Ok(()) => Ok((document, migrated)),
        Err(m) => Err(m),
    }
}

/// Settings that saving accepted come back from storage unchanged: when the stored
/// form reads back as the same current-schema document, loading it needs no
/// migration and keeps every field.
pub proof fn lemma_saved_settings_load_back(document: ApplicationSettingsDocument)
    requires
        document_check(document) is Ok,
    ensures
        load_check(document, false) == Ok::<(ApplicationSettingsDocument, bool), Seq<char>>(
            (document, false),
        ),
{
}

/// Validates a document read from storage, keeping whether it was migrated.
pub fn finish_load(document: ApplicationSettingsDocument, migrated: bool) -> (result: Result<
    (ApplicationSettingsDocument, bool),
    ApplicationSettingsError,
>)
    ensures
        match result {
            Ok((d, m)) => d == document && m == migrated && document_check(document) is Ok,
            Err(e) => e matches ApplicationSettingsError::Validation(msg) && document_check(document)
                == Err::<(), Seq<char>>(msg@),
        },
        match load_check(document, migrated) {
            Ok(p) => result == Ok::<(ApplicationSettingsDocument, bool), ApplicationSettingsError>(p),
            Err(m) => result matches Err(ApplicationSettingsError::Validation(x)) && x@ == m,
        },
{
    validate_document(&document)?;
    Ok((document, migrated))
}


// ---------------------------------------------------------------------------
// The settings store.
// ---------------------------------------------------------------------------
/// The settings in effect, with the warning to show after startup, if any.
pub struct ApplicationSettingsStore {
    document: ApplicationSettingsDocument,
    startup_warning: Option<String>,
}

/// The warning when stored settings could not be read.
pub open spec fn restore_failed_warning(error: ApplicationSettingsError) -> Seq<char> {
    "Stored application settings could not be restored: "@ + error_message_spec(error)
        + " Safe defaults are active; Test monitoring will not start automatically."@
}

/// The warning when migrated settings could not be written back.
pub open spec fn migration_unsaved_warning(error: ApplicationSettingsError) -> Seq<char> {
    "Application settings were migrated in memory but could not be saved: "@ + error_message_spec(
        error,
    )
}

impl ApplicationSettingsStore {
    pub closed spec fn spec_document(&self) -> ApplicationSettingsDocument {
        self.document
    }

    pub closed spec fn spec_startup_warning(&self) -> Option<String> {
        self.startup_warning
    }

    /// Builds the store from the outcome of reading storage. Migrated settings are
    /// written back through `persist`; a failure to write them becomes the warning.
    pub fn load(
        loaded: Result<(ApplicationSettingsDocument, bool), ApplicationSettingsError>,
        persist: impl FnOnce(&ApplicationSettingsDocument) -> Result<(), ApplicationSettingsError>,
    ) -> (store: Self)
        requires
            loaded matches Ok((d, true)) ==> persist.requires((&d,)),
        ensures
            match loaded {
                Ok((d, migrated)) => {
                    &&& store.spec_document() == d
                    &&& !migrated ==> store.spec_startup_warning() is None
                    &&& migrated ==> exists|r: Result<(), ApplicationSettingsError>|
                        #![trigger persist.ensures((&d,), r)]
                        persist.ensures((&d,), r) && match r {
                            Ok(()) => store.spec_startup_warning() is None,
                            Err(e) => store.spec_startup_warning() matches Some(w) && w@
                                == migration_unsaved_warning(e),
                        }
                },
                Err(e) => {
                    &&& default_document(store.spec_document())
                    &&& store.spec_startup_warning() matches Some(w) && w@ == restore_failed_warning(e)
                },
            },
    {
        match loaded {
            Ok((document, migrated)) => {
                if !migrated {
                    return ApplicationSettingsStore { document, startup_warning: None };
                }
                let outcome = persist(&document);
                let ghost seen = outcome;
                let startup_warning = match outcome {
                    Ok(()) => None,
                    Err(error) => {
                        let mut t = to_chars(
                            "Application settings were migrated in memory but could not be saved: ",
                        );
                        append_chars(&mut t, to_chars(error.message().as_str()).as_slice());
                        Some(from_chars(t.as_slice()))
                    },
                };
                let store = ApplicationSettingsStore { document, startup_warning };
                assert(persist.ensures((&store.document,), seen));
                assert(match seen {
                    Ok(()) => store.spec_startup_warning() is None,
                    Err(e) => store.spec_startup_warning() matches Some(w) && w@
                        == migration_unsaved_warning(e),
                });
                store
            },
            Err(error) => {
                let mut t = to_chars("Stored application settings could not be restored: ");
                append_chars(&mut t, to_chars(error.message().as_str()).as_slice());
                append_chars(
                    &mut t,
                    to_chars(
                        " Safe defaults are active; Test monitoring will not start automatically.",
                    ).as_slice(),
                );
                ApplicationSettingsStore {
                    document: ApplicationSettingsDocument::default(),
                    startup_warning: Some(from_chars(t.as_slice())),
                }
            },
        }
    }

    pub fn document(&self) -> (document: &ApplicationSettingsDocument)
        ensures
            *document == self.spec_document(),
    {
        &self.document
    }

    pub fn startup_warning(&self) -> (warning: Option<&str>)
        ensures
            match self.spec_startup_warning() {
                Some(w) => warning matches Some(x) && x@ == w@,
                None => warning is None,
            },
    {
        match &self.startup_warning {
            Some(w) => Some(w.as_str()),
            None => None,
        }
    }

    /// Validates and persists new settings; they take effect only once written.
    pub fn save(
        &mut self,
        document: ApplicationSettingsDocument,
        persist: impl FnOnce(&ApplicationSettingsDocument) -> Result<(), ApplicationSettingsError>,
    ) -> (result: Result<(), ApplicationSettingsError>)
        requires
            document_check(document) is Ok ==> persist.requires((&document,)),
        ensures
            document_check(document) matches Err(m) ==> (result matches Err(
                ApplicationSettingsError::Validation(x),
            ) && x@ == m && final(self).spec_document() == old(self).spec_document()
                && final(self).spec_startup_warning() == old(self).spec_startup_warning()),
            document_check(document) is Ok ==> (exists|r: Result<(), ApplicationSettingsError>|
                persist.ensures((&document,), r) && r == result),
            result is Ok ==> final(self).spec_document() == document
                && final(self).spec_startup_warning() is None && document_check(document) is Ok,
            result is Err ==> final(self).spec_document() == old(self).spec_document()
                && final(self).spec_startup_warning() == old(self).spec_startup_warning(),
    {
        validate_document(&document)?;
        persist(&document)?;
        self.document = document;
        self.startup_warning = None;
        Ok(())
    }
}

// ---------------------------------------------------------------------------
// Restoring device selections.
// ---------------------------------------------------------------------------
/// What to choose when a stored endpoint cannot be restored.
#[derive(Clone, Copy, Debug, PartialEq, Eq, Structural)]
pub enum FallbackPolicy {
    DefaultThenFirst,
    LikelyVirtualOnly,
    NoFallback,
}

/// The endpoints chosen for each purpose, with a warning about what was not restored.
#[derive(Debug)]
pub struct ResolvedDeviceSelections {
    pub selected_input_id: Option<String>,
    pub external_route_playback_id: Option<String>,
    pub external_route_capture_id: Option<String>,
    pub local_monitor_id: Option<String>,
    pub restoration_warning: Option<String>,
}

/// The endpoint chosen for one purpose.
pub struct ResolvedDevice {
    pub id: Option<String>,
    pub warning: Option<String>,
}

pub open spec fn id_pred(devices: Seq<DeviceView>, id: Seq<char>) -> spec_fn(int) -> bool {
    |i: int| devices[i].id == id
}

pub open spec fn name_pred(devices: Seq<DeviceView>, name: Seq<char>) -> spec_fn(int) -> bool {
    |i: int| normalized_name(devices[i].name) == normalized_name(name)
}

pub open spec fn virtual_pred(devices: Seq<DeviceView>) -> spec_fn(int) -> bool {
    |i: int| devices[i].is_likely_virtual
}

pub open spec fn default_physical_pred(devices: Seq<DeviceView>) -> spec_fn(int) -> bool {
    |i: int| devices[i].is_default && !devices[i].is_likely_virtual
}

/// The one index satisfying `pred`.
pub open spec fn the_index(count: int, pred: spec_fn(int) -> bool) -> int {
    choose|k: int| only_index(count, pred, k)
}

/// Index `k` is the first physical endpoint.
pub open spec fn first_physical(devices: Seq<DeviceView>, k: int) -> bool {
    0 <= k < devices.len() && !devices[k].is_likely_virtual && forall|j: int|
        0 <= j < k ==> (#[trigger] devices[j]).is_likely_virtual
}

/// The safe automatic fallback for a purpose.
pub open spec fn fallback_spec(devices: Seq<DeviceView>, policy: FallbackPolicy) -> Option<int> {
    let n = devices.len() as int;
    match policy {
        FallbackPolicy::LikelyVirtualOnly => if has_only_index(n, virtual_pred(devices)) {
            Some(the_index(n, virtual_pred(devices)))
        } else {
            None
        },
        FallbackPolicy::DefaultThenFirst => if has_only_index(n, default_physical_pred(devices)) {
            Some(the_index(n, default_physical_pred(devices)))
        } else if exists|k: int| first_physical(devices, k) {
            Some(choose|k: int| first_physical(devices, k))
        } else {
            None
        },
        FallbackPolicy::NoFallback => None,
    }
}

pub open spec fn restored_by_name_warning(purpose: Seq<char>, name: Seq<char>) -> Seq<char> {
    "The stored "@ + purpose + " identifier was unavailable; restored '"@ + name
        + "' by its unique friendly name."@
}

pub open spec fn fallback_warning(purpose: Seq<char>, name: Seq<char>) -> Seq<char> {
    "The stored "@ + purpose + " was unavailable; selected safe fallback '"@ + name + "'."@
}

pub open spec fn no_fallback_warning(purpose: Seq<char>) -> Seq<char> {
    "The stored "@ + purpose + " was unavailable and no safe automatic fallback was selected."@
}

/// The endpoint and warning for one purpose: the unique endpoint with the stored
/// identifier, else the unique endpoint with the stored friendly name, else the safe
/// fallback (with a warning when something had been stored).
pub open spec fn resolve_one_spec(
    purpose: Seq<char>,
    stored_id: Option<Seq<char>>,
    stored_name: Option<Seq<char>>,
    devices: Seq<DeviceView>,
    policy: FallbackPolicy,
) -> (Option<Seq<char>>, Option<Seq<char>>) {
    let n = devices.len() as int;
    if stored_id matches Some(id) && has_only_index(n, id_pred(devices, id)) {
        (Some(stored_id.unwrap()), None)
    } else if stored_name matches Some(nm) && has_only_index(n, name_pred(devices, nm)) {
        let k = the_index(n, name_pred(devices, stored_name.unwrap()));
        (Some(devices[k].id), Some(restored_by_name_warning(purpose, devices[k].name)))
    } else {
        let fallback = fallback_spec(devices, policy);
        let id = match fallback {
            Some(k) => Some(devices[k].id),
            None => None,
        };
        let warning = if stored_id is Some || stored_name is Some {
            Some(
                match fallback {
                    Some(k) => fallback_warning(purpose, devices[k].name),
                    None => no_fallback_warning(purpose),
                },
            )
        } else {
            None
        };
        (id, warning)
    }
}

pub open spec fn opt_chars(s: Option<String>) -> Option<Seq<char>> {
    match s {
        Some(x) => Some(x@),
        None => None,
    }
}

proof fn lemma_the_index_is(count: int, pred: spec_fn(int) -> bool, k: int)
    requires
        only_index(count, pred, k),
    ensures
        the_index(count, pred) == k,
        has_only_index(count, pred),
{
    let c = the_index(count, pred);
    assert(only_index(count, pred, c));
}

fn unique_hit_among(devices: &[DeviceInfo], policy_virtual: bool) -> (found: Option<usize>)
    ensures
        policy_virtual ==> match found {
            Some(k) => only_index(devices@.len() as int, virtual_pred(device_views(devices@)), k as int),
            None => !has_only_index(devices@.len() as int, virtual_pred(device_views(devices@))),
        },
        !policy_virtual ==> match found {
            Some(k) => only_index(
                devices@.len() as int,
                default_physical_pred(device_views(devices@)),
                k as int,
            ),
            None => !has_only_index(
                devices@.len() as int,
                default_physical_pred(device_views(devices@)),
            ),
        },
{
    let ghost views = device_views(devices@);
    let ghost pred = if policy_virtual {
        virtual_pred(views)
    } else {
        default_physical_pred(views)
    };
    let mut hits: Vec<bool> = Vec::new();
    let mut i: usize = 0;
    while i < devices.len()
        invariant
            i <= devices@.len(),
            views == device_views(devices@),
            pred == if policy_virtual {
                virtual_pred(views)
            } else {
                default_physical_pred(views)
            },
            hits@.len() == i,
            forall|j: int| 0 <= j < i ==> hits@[j] == pred(j),
        decreases devices@.len() - i,
    {
        let d = &devices[i];
        assert(views[i as int] == d@);
        if policy_virtual {
            hits.push(d.is_likely_virtual);
        } else {
            hits.push(d.is_default && !d.is_likely_virtual);
        }
        i = i + 1;
    }
    proof {
        crate::device::lemma_hits_describe(hits@, devices@.len() as int, pred);
    }
    crate::device::only_hit(&hits)
}

fn fallback_device(devices: &[DeviceInfo], policy: FallbackPolicy) -> (found: Option<usize>)
    ensures
        match found {
            Some(k) => fallback_spec(device_views(devices@), policy) == Some(k as int),
            None => fallback_spec(device_views(devices@), policy) is None,
        },
{
    let ghost views = device_views(devices@);
    let ghost n = devices@.len() as int;
    match policy {
        FallbackPolicy::LikelyVirtualOnly => {
            let found = unique_hit_among(devices, true);
            if let Some(k) = found {
                proof {
                    lemma_the_index_is(n, virtual_pred(views), k as int);
                }
            }
            found
        },
        FallbackPolicy::DefaultThenFirst => {
            let found = unique_hit_among(devices, false);
            if let Some(k) = found {
                proof {
                    lemma_the_index_is(n, default_physical_pred(views), k as int);
                }
                return found;
            }
            let mut i: usize = 0;
            while i < devices.len()
                invariant
                    i <= devices@.len(),
                    views == device_views(devices@),
                    views.len() == devices@.len(),
                    policy == FallbackPolicy::DefaultThenFirst,
                    !has_only_index(devices@.len() as int, default_physical_pred(views)),
                    forall|j: int| 0 <= j < i ==> (#[trigger] views[j]).is_likely_virtual,
                decreases devices@.len() - i,
            {
                assert(views[i as int] == devices@[i as int]@);
                if !devices[i].is_likely_virtual {
                    proof {
                        assert(first_physical(views, i as int));
                        let c = choose|k: int| first_physical(views, k);
                        assert(first_physical(views, c));
                        if c < i {
                            assert(views[c].is_likely_virtual);
                        }
                        if c > i {
                            assert(views[i as int].is_likely_virtual);
                        }
                    }
                    return Some(i);
                }
                i = i + 1;
            }
            assert forall|k: int| !first_physical(views, k) by {
                if first_physical(views, k) {
                    assert(views[k].is_likely_virtual);
                }
            }
            None
        },
        FallbackPolicy::NoFallback => None,
    }
}

fn concat3(a: &str, b: &str, c: &str) -> (text: Vec<char>)
    ensures
        text@ == a@ + b@ + c@,
{
    let mut t = to_chars(a);
    append_chars(&mut t, to_chars(b).as_slice());
    append_chars(&mut t, to_chars(c).as_slice());
    t
}

pub fn resolve_one(
    purpose: &str,
    stored_id: Option<&str>,
    stored_name: Option<&str>,
    devices: &[DeviceInfo],
    fallback_policy: FallbackPolicy,
) -> (resolved: ResolvedDevice)
    ensures
        (opt_chars(resolved.id), opt_chars(resolved.warning)) == resolve_one_spec(
            purpose@,
            match stored_id {
                Some(x) => Some(x@),
                None => None,
            },
            match stored_name {
                Some(x) => Some(x@),
                None => None,
            },
            device_views(devices@),
            fallback_policy,
        ),
{
    let ghost views = device_views(devices@);
    let ghost n = devices@.len() as int;
    if let Some(id) = stored_id {
        let mut hits: Vec<bool> = Vec::new();
        let mut i: usize = 0;
        while i < devices.len()
            invariant
                i <= devices@.len(),
                views == device_views(devices@),
                hits@.len() == i,
                forall|j: int| 0 <= j < i ==> hits@[j] == id_pred(views, id@)(j),
            decreases devices@.len() - i,
        {
            assert(views[i as int] == devices@[i as int]@);
            hits.push(crate::text::str_equal(devices[i].id.as_str(), id));
            i = i + 1;
        }
        proof {
            crate::device::lemma_hits_describe(hits@, n, id_pred(views, id@));
        }
        if let Some(k) = crate::device::only_hit(&hits) {
            assert(views[k as int] == devices@[k as int]@);
            return ResolvedDevice { id: Some(devices[k].id.clone()), warning: None };
        }
    }
    if let Some(name) = stored_name {
        let wanted = normalize_name(name);
        let mut hits: Vec<bool> = Vec::new();
        let mut i: usize = 0;
        while i < devices.len()
            invariant
                i <= devices@.len(),
                views == device_views(devices@),
                wanted@ == normalized_name(name@),
                hits@.len() == i,
                forall|j: int| 0 <= j < i ==> hits@[j] == name_pred(views, name@)(j),
            decreases devices@.len() - i,
        {
            assert(views[i as int] == devices@[i as int]@);
            let candidate = normalize_name(devices[i].name.as_str());
            hits.push(crate::text::chars_equal(candidate.as_slice(), wanted.as_slice()));
            i = i + 1;
        }
        proof {
            crate::device::lemma_hits_describe(hits@, n, name_pred(views, name@));
        }
        if let Some(k) = crate::device::only_hit(&hits) {
            proof {
                lemma_the_index_is(n, name_pred(views, name@), k as int);
            }
            assert(views[k as int] == devices@[k as int]@);
            let mut t = concat3("The stored ", purpose, " identifier was unavailable; restored '");
            append_chars(&mut t, to_chars(devices[k].name.as_str()).as_slice());
            append_chars(&mut t, to_chars("' by its unique friendly name.").as_slice());
            return ResolvedDevice {
                id: Some(devices[k].id.clone()),
                warning: Some(from_chars(t.as_slice())),
            };
        }
    }
    let fallback = fallback_device(devices, fallback_policy);
    let had_selection = stored_id.is_some() || stored_name.is_some();
    let warning = if had_selection {
        match fallback {
            Some(k) => {
                assert(views[k as int] == devices@[k as int]@);
                let mut t = concat3("The stored ", purpose, " was unavailable; selected safe fallback '");
                append_chars(&mut t, to_chars(devices[k].name.as_str()).as_slice());
                append_chars(&mut t, to_chars("'.").as_slice());
                Some(from_chars(t.as_slice()))
            },
            None => {
                let t = concat3(
                    "The stored ",
                    purpose,
                    " was unavailable and no safe automatic fallback was selected.",
                );
                Some(from_chars(t.as_slice()))
            },
        }
    } else {
        None
    };
    let id = match fallback {
        Some(k) => {
            assert(views[k as int] == devices@[k as int]@);
            Some(devices[k].id.clone())
        },
        None => None,
    };
    ResolvedDevice { id, warning }
}

/// The warnings that are present, in order.
pub open spec fn present_warnings(warnings: Seq<Option<Seq<char>>>) -> Seq<Seq<char>>
    decreases warnings.len(),
{
    if warnings.len() == 0 {
        seq![]
    } else {
        let rest = present_warnings(warnings.drop_last());
        match warnings.last() {
            Some(w) => rest.push(w),
            None => rest,
        }
    }
}

/// The present warnings joined by spaces, or none when that is empty.
pub open spec fn joined_warnings(warnings: Seq<Option<Seq<char>>>) -> Option<Seq<char>> {
    let joined = join_spec(present_warnings(warnings), " "@);
    if joined.len() == 0 {
        None
    } else {
        Some(joined)
    }
}

/// Joins the present warnings with single spaces; none when nothing remains.
pub fn join_present_warnings(warnings: Vec<Option<String>>) -> (joined: Option<String>)
    ensures
        opt_chars(joined) == joined_warnings(warnings@.map_values(|w: Option<String>| opt_chars(w))),
{
    let ghost all = warnings@.map_values(|w: Option<String>| opt_chars(w));
    let mut parts: Vec<Vec<char>> = Vec::new();
    let mut i: usize = 0;
    while i < warnings.len()
        invariant
            i <= warnings@.len(),
            all == warnings@.map_values(|w: Option<String>| opt_chars(w)),
            word_views(parts@) == present_warnings(all.take(i as int)),
        decreases warnings@.len() - i,
    {
        assert(all.take(i + 1).drop_last() =~= all.take(i as int));
        assert(all.take(i + 1).last() == opt_chars(warnings@[i as int]));
        match &warnings[i] {
            Some(w) => {
                let ghost before = parts@;
                parts.push(to_chars(w.as_str()));
                assert(word_views(parts@) =~= word_views(before).push(w@));
            },
            None => {},
        }
        i = i + 1;
    }
    assert(all.take(warnings@.len() as int) =~= all);
    let joined = join_words(&parts, to_chars(" ").as_slice());
    if joined.len() == 0 {
        None
    } else {
        Some(from_chars(joined.as_slice()))
    }
}

fn opt_str(s: &Option<String>) -> (r: Option<&str>)
    ensures
        match r {
            Some(x) => s matches Some(y) && x@ == y@,
            None => s is None,
        },
{
    match s {
        Some(x) => Some(x.as_str()),
        None => None,
    }
}

/// The resolution of every purpose for a settings document and the current endpoints.
pub open spec fn resolution_spec(
    document: ApplicationSettingsDocument,
    inputs: Seq<DeviceView>,
    outputs: Seq<DeviceView>,
) -> (Option<Seq<char>>, Option<Seq<char>>, Option<Seq<char>>, Option<Seq<char>>, Option<Seq<char>>) {
    let input = resolve_one_spec(
        "input"@,
        opt_chars(document.selected_input_device_id),
        opt_chars(document.last_known_input_friendly_name),
        inputs,
        FallbackPolicy::DefaultThenFirst,
    );
    let playback = resolve_one_spec(
        "external-route playback endpoint"@,
        opt_chars(document.external_route_playback_device_id),
        opt_chars(document.last_known_external_route_playback_name),
        outputs,
        FallbackPolicy::LikelyVirtualOnly,
    );
    let capture = resolve_one_spec(
        "external-route capture endpoint"@,
        opt_chars(document.external_route_capture_device_id),
        opt_chars(document.last_known_external_route_capture_name),
        inputs,
        FallbackPolicy::NoFallback,
    );
    let monitor = resolve_one_spec(
        "local monitor"@,
        opt_chars(document.local_monitor_device_id),
        opt_chars(document.last_known_local_monitor_friendly_name),
        outputs,
        FallbackPolicy::DefaultThenFirst,
    );
    (
        input.0,
        playback.0,
        capture.0,
        monitor.0,
        joined_warnings(seq![input.1, playback.1, capture.1, monitor.1]),
    )
}

/// Without a stored external-route playback endpoint, the one chosen automatically is
/// the only likely virtual output: a physical output never becomes the processed
/// destination by itself.
pub proof fn lemma_automatic_destination_is_virtual(
    document: ApplicationSettingsDocument,
    inputs: Seq<DeviceView>,
    outputs: Seq<DeviceView>,
)
    requires
        document.external_route_playback_device_id is None,
        document.last_known_external_route_playback_name is None,
    ensures
        resolution_spec(document, inputs, outputs).1 matches Some(id) ==> exists|k: int|
            0 <= k < outputs.len() && (#[trigger] outputs[k]).id == id && outputs[k].is_likely_virtual
                && has_only_index(outputs.len() as int, virtual_pred(outputs)),
{
    let n = outputs.len() as int;
    if has_only_index(n, virtual_pred(outputs)) {
        let k = the_index(n, virtual_pred(outputs));
        assert(only_index(n, virtual_pred(outputs), k));
        assert(virtual_pred(outputs)(k));
    }
}

/// The external-route capture endpoint is only ever the stored one, found by its unique
/// identifier or its unique friendly name; nothing is chosen in its place.
pub proof fn lemma_capture_is_never_guessed(
    document: ApplicationSettingsDocument,
    inputs: Seq<DeviceView>,
    outputs: Seq<DeviceView>,
)
    ensures
        resolution_spec(document, inputs, outputs).2 matches Some(id) ==> {
            ||| opt_chars(document.external_route_capture_device_id) == Some(id) && has_only_index(
                inputs.len() as int,
                id_pred(inputs, id),
            )
            ||| opt_chars(document.last_known_external_route_capture_name) matches Some(name)
                && has_only_index(inputs.len() as int, name_pred(inputs, name)) && exists|k: int|
                only_index(inputs.len() as int, name_pred(inputs, name), k) && (#[trigger] inputs[k]).id == id
        },
{
    let n = inputs.len() as int;
    let stored_name = opt_chars(document.last_known_external_route_capture_name);
    if stored_name is Some && has_only_index(n, name_pred(inputs, stored_name->0)) {
        let name = stored_name->0;
        let k = the_index(n, name_pred(inputs, name));
        assert(only_index(n, name_pred(inputs, name), k));
    }
}

/// Chooses the endpoints for every purpose from the stored settings: by unique
/// identifier, then by unique friendly name, then by each purpose's safe fallback.
pub fn resolve_device_selections(
    document: &ApplicationSettingsDocument,
    inputs: &[DeviceInfo],
    outputs: &[DeviceInfo],
) -> (resolved: ResolvedDeviceSelections)
    ensures
        (
            opt_chars(resolved.selected_input_id),
            opt_chars(resolved.external_route_playback_id),
            opt_chars(resolved.external_route_capture_id),
            opt_chars(resolved.local_monitor_id),
            opt_chars(resolved.restoration_warning),
        ) == resolution_spec(*document, device_views(inputs@), device_views(outputs@)),
{
    let input = resolve_one(
        "input",
        opt_str(&document.selected_input_device_id),
        opt_str(&document.last_known_input_friendly_name),
        inputs,
        FallbackPolicy::DefaultThenFirst,
    );
    let playback = resolve_one(
        "external-route playback endpoint",
        opt_str(&document.external_route_playback_device_id),
        opt_str(&document.last_known_external_route_playback_name),
        outputs,
        FallbackPolicy::LikelyVirtualOnly,
    );
    let capture = resolve_one(
        "external-route capture endpoint",
        opt_str(&document.external_route_capture_device_id),
        opt_str(&document.last_known_external_route_capture_name),
        inputs,
        FallbackPolicy::NoFallback,
    );
    let monitor = resolve_one(
        "local monitor",
        opt_str(&document.local_monitor_device_id),
        opt_str(&document.last_known_local_monitor_friendly_name),
        outputs,
        FallbackPolicy::DefaultThenFirst,
    );
    let ghost ws = seq![
        opt_chars(input.warning),
        opt_chars(playback.warning),
        opt_chars(capture.warning),
        opt_chars(monitor.warning),
    ];
    let mut warnings: Vec<Option<String>> = Vec::new();
    warnings.push(input.warning);
    warnings.push(playback.warning);
    warnings.push(capture.warning);
    warnings.push(monitor.warning);
    assert(warnings@.map_values(|w: Option<String>| opt_chars(w)) =~= ws);
    let restoration_warning = join_present_warnings(warnings);
    ResolvedDeviceSelections {
        selected_input_id: input.id,
        external_route_playback_id: playback.id,
        external_route_capture_id: capture.id,
        local_monitor_id: monitor.id,
        restoration_warning,
    }
}


/// Falling back for a purpose that takes the system default: when exactly one endpoint
/// is both the default and physical, it is chosen, wherever it stands in the list.
pub proof fn lemma_unique_default_physical_endpoint_is_chosen(devices: Seq<DeviceView>, k: int)
    requires
        0 <= k < devices.len(),
        devices[k].is_default,
        !devices[k].is_likely_virtual,
        forall|j: int|
            0 <= j < devices.len() && j != k ==> !((#[trigger] devices[j]).is_default
                && !devices[j].is_likely_virtual),
    ensures
        fallback_spec(devices, FallbackPolicy::DefaultThenFirst) == Some(k),
{
    let n = devices.len() as int;
    let pred = default_physical_pred(devices);
    assert forall|j: int| 0 <= j < n && #[trigger] pred(j) implies j == k by {
        if j != k {
            assert(!(devices[j].is_default && !devices[j].is_likely_virtual));
        }
    }
    assert(only_index(n, pred, k));
    lemma_the_index_is(n, pred, k);
}

/// Falling back for a purpose that takes the system default never chooses a virtual
/// endpoint; without a single default physical endpoint it chooses the first physical
/// one.
pub proof fn lemma_default_fallback_is_physical(devices: Seq<DeviceView>)
    ensures
        fallback_spec(devices, FallbackPolicy::DefaultThenFirst) matches Some(k) ==> 0 <= k
            < devices.len() && !devices[k].is_likely_virtual,
        forall|k: int|
            !has_only_index(devices.len() as int, default_physical_pred(devices))
                && #[trigger] first_physical(devices, k) ==> fallback_spec(
                devices,
                FallbackPolicy::DefaultThenFirst,
            ) == Some(k),
{
    let n = devices.len() as int;
    let pred = default_physical_pred(devices);
    if has_only_index(n, pred) {
        let k = the_index(n, pred);
        assert(only_index(n, pred, k));
    } else if exists|k: int| first_physical(devices, k) {
        let c = choose|k: int| first_physical(devices, k);
        assert(first_physical(devices, c));
    }
    assert forall|k: int|
        #![trigger first_physical(devices, k)]
        !has_only_index(n, pred) && first_physical(devices, k) implies fallback_spec(
        devices,
        FallbackPolicy::DefaultThenFirst,
    ) == Some(k) by {
        let c = choose|c: int| first_physical(devices, c);
        assert(first_physical(devices, c));
        if c < k {
            assert(devices[c].is_likely_virtual);
        } else if c > k {
            assert(devices[k].is_likely_virtual);
        }
    }
}
} // verus!
