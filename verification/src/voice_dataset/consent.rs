use vstd::prelude::*;

verus! {

/// The version of the consent notice that profiles are created under.
pub const CONSENT_VERSION: &'static str = "voice-dataset-consent-v1";

/// The speaker's recorded consent for a profile.
#[derive(Clone, Debug)]
pub struct ConsentMetadata {
    pub consent_confirmed: bool,
    pub consent_version: String,
    pub confirmed_at: String,
    pub confirmed_by_user: bool,
    pub recorded_consent_take_id: Option<String>,
    pub revoked_at: Option<String>,
    pub notes: Option<String>,
}

} // verus!
