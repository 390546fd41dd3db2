use vstd::prelude::*;

verus! {

/// A voice profile as the index and its manifest describe it.
#[derive(Clone, Debug)]
pub struct VoiceProfileMetadata {
    pub id: String,
    pub display_name: String,
    pub description: Option<String>,
    pub primary_language: String,
    pub locale_tag: Option<String>,
    pub collection_goal_minutes: Option<u32>,
    pub created_at: String,
    pub updated_at: String,
}

/// What a user submits to create a profile, consent included.
#[derive(Clone, Debug)]
pub struct CreateVoiceProfileRequest {
    pub display_name: String,
    pub description: Option<String>,
    pub primary_language: String,
    pub locale_tag: Option<String>,
    pub collection_goal_minutes: Option<u32>,
    pub consent_confirmed: bool,
    pub confirmed_by_user: bool,
    pub consent_version: String,
    pub consent_notes: Option<String>,
}

/// What a user submits to change a profile's details.
#[derive(Clone, Debug)]
pub struct UpdateVoiceProfileRequest {
    pub display_name: String,
    pub description: Option<String>,
    pub primary_language: String,
    pub locale_tag: Option<String>,
    pub collection_goal_minutes: Option<u32>,
}

/// The state of a profile's stored files.
#[derive(Clone, Copy, Debug, PartialEq, Eq, Structural)]
pub enum ProfileHealth {
    Healthy,
    NeedsRepair,
    MissingFiles,
    OrphanedFiles,
    UnsupportedSchema,
    CorruptManifest,
}

/// A profile in the list of profiles.
#[derive(Clone, Debug)]
pub struct VoiceProfileSummary {
    pub profile: VoiceProfileMetadata,
    pub health: ProfileHealth,
    pub managed_storage_bytes: u64,
}

/// The stored list of profiles.
#[derive(Clone, Debug)]
pub struct VoiceProfileIndexV1 {
    pub schema_version: u32,
    pub profiles: Vec<VoiceProfileMetadata>,
    pub updated_at: String,
}

} // verus!
