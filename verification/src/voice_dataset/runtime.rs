use vstd::prelude::*;

use crate::text::{is_blank, str_equal, trim_spec};
use crate::voice_dataset::error::{opt_view, plain_error, DatasetError, DatasetErrorCode, DatasetErrorView};
use crate::voice_dataset::import::MAX_IMPORT_BATCH;
use crate::voice_dataset::prompts::{built_in_english_pack, built_in_prompt_id, is_built_in_english_pack, VoicePrompt};
use crate::voice_dataset::quality::{worse_spec, worse, QualityClassification};
use crate::voice_dataset::take::{unit_result_view, SelectedTakeVersion, TakeSource};

verus! {

/// The recording in progress (its capture stream is held alongside).
pub struct RecordingState {
    pub profile_id: String,
    pub prompt: Option<VoicePrompt>,
    pub source: TakeSource,
}

/// The preview in progress (its playback stream is held alongside).
pub struct PreviewState {
    pub take_id: String,
    pub version: SelectedTakeVersion,
}

/// Trim boundaries chosen for a take but not yet applied.
pub struct TrimDraft {
    pub take_id: String,
    pub start_frame: u64,
    pub end_frame: u64,
}

/// What the voice-dataset session remembers between requests: the profile and prompt
/// in use, the recording or preview in progress, a pending trim and the last error.
pub struct DatasetRuntime {
    pub current_profile_id: Option<String>,
    pub current_prompt: Option<VoicePrompt>,
    pub recording: Option<RecordingState>,
    pub preview: Option<PreviewState>,
    pub finalizing: bool,
    pub trim_draft: Option<TrimDraft>,
    pub last_error: Option<DatasetError>,
}

/// The error for a request that needs a selected profile.
pub open spec fn no_profile_error() -> DatasetErrorView {
    plain_error(DatasetErrorCode::ProfileNotFound, "Create or select a voice profile first."@)
}

/// Why a recording cannot start, in the order the session checks: no microphone, a
/// recording or preview already running, no profile, or a profile without active
/// consent.
pub open spec fn recording_start_check(
    r: DatasetRuntime,
    input_id: Seq<char>,
    consent_active: bool,
) -> Result<(), DatasetErrorView> {
    if trim_spec(input_id).len() == 0 {
        Err(
            plain_error(
                DatasetErrorCode::NoMicrophoneSelected,
                "Select a physical recording microphone."@,
            ),
        )
    } else if r.recording is Some {
        Err(
            plain_error(
                DatasetErrorCode::RecordingAlreadyActive,
                "A dataset recording is already active."@,
            ),
        )
    } else if r.preview is Some {
        Err(
            plain_error(
                DatasetErrorCode::AudioOperationAlreadyActive,
                "Stop dataset preview before recording."@,
            ),
        )
    } else if r.current_profile_id is None {
        Err(
            plain_error(
                DatasetErrorCode::ProfileNotFound,
                "Create or select a consenting voice profile first."@,
            ),
        )
    } else if !consent_active {
        Err(
            plain_error(
                DatasetErrorCode::ConsentRequired,
                "The selected profile does not have active consent."@,
            ),
        )
    } else {
        Ok(())
    }
}

/// Dataset recording and preview need the live engine stopped and no Voice Lab audio.
pub fn ensure_dataset_audio_available(
    engine_state: crate::engine_state::EngineState,
    voice_lab_audio_active: bool,
) -> (result: Result<(), DatasetError>)
    ensures
        result is Ok <==> (engine_state == crate::engine_state::EngineState::Stopped && !voice_lab_audio_active),
        result matches Err(e) ==> e@ == plain_error(
            DatasetErrorCode::AudioOperationAlreadyActive,
            "Stop Use, Test, or Voice Lab audio before starting Dataset recording or preview."@,
        ),
{
    if engine_state != crate::engine_state::EngineState::Stopped || voice_lab_audio_active {
        Err(
            DatasetError::new(
                DatasetErrorCode::AudioOperationAlreadyActive,
                "Stop Use, Test, or Voice Lab audio before starting Dataset recording or preview.",
            ),
        )
    } else {
        Ok(())
    }
}

/// A recording may start only when nothing else runs: no recording, no preview, a
/// selected profile with active consent, and a named microphone.
pub proof fn lemma_recording_starts_only_when_idle(r: DatasetRuntime, input_id: Seq<char>, consent_active: bool)
    requires
        recording_start_check(r, input_id, consent_active) is Ok,
    ensures
        r.recording is None,
        r.preview is None,
        r.current_profile_id is Some,
        consent_active,
        trim_spec(input_id).len() > 0,
{
}

/// The number of files an import may take at once is outside 1 to 32.
pub open spec fn import_batch_error() -> DatasetErrorView {
    plain_error(DatasetErrorCode::UnsupportedWav, "Select between 1 and 32 WAV files."@)
}

/// The classification of a recording that stopped at the length limit: a pass becomes
/// a warning, a warning or failure stays as it was.
pub open spec fn limited_quality(quality: QualityClassification, limit_reached: bool) -> QualityClassification {
    if limit_reached {
        worse_spec(quality, QualityClassification::Warning)
    } else {
        quality
    }
}

impl DatasetRuntime {
    /// A session that has selected nothing and runs nothing.
    pub fn new() -> (runtime: Self)
        ensures
            runtime.current_profile_id is None,
            runtime.current_prompt is None,
            runtime.recording is None,
            runtime.preview is None,
            !runtime.finalizing,
            runtime.trim_draft is None,
            runtime.last_error is None,
    {
        DatasetRuntime {
            current_profile_id: None,
            current_prompt: None,
            recording: None,
            preview: None,
            finalizing: false,
            trim_draft: None,
            last_error: None,
        }
    }

    /// Whether audio (a recording or a preview) is running.
    pub fn audio_active(&self) -> (active: bool)
        ensures
            active == (self.recording is Some || self.preview is Some),
    {
        self.recording.is_some() || self.preview.is_some()
    }

    /// The selected profile.
    pub fn current_profile_id(&self) -> (result: Result<&str, DatasetError>)
        ensures
            match self.current_profile_id {
                Some(id) => result matches Ok(s) && s@ == id@,
                None => result matches Err(e) && e@ == no_profile_error(),
            },
    {
        match &self.current_profile_id {
            Some(id) => Ok(id.as_str()),
            None => Err(
                DatasetError::new(
                    DatasetErrorCode::ProfileNotFound,
                    "Create or select a voice profile first.",
                ),
            ),
        }
    }

    /// Makes a profile current, with the first built-in prompt, and clears the last
    /// error.
    pub fn select_profile(&mut self, profile_id: String)
        ensures
            final(self).current_profile_id == Some(profile_id),
            final(self).current_prompt matches Some(p) && p.id@ == built_in_prompt_id(0),
            final(self).last_error is None,
            final(self).recording == old(self).recording,
            final(self).preview == old(self).preview,
    {
        let pack = built_in_english_pack();
        let first = pack.prompts[0].clone_prompt();
        self.current_profile_id = Some(profile_id);
        self.current_prompt = Some(first);
        self.last_error = None;
    }

    /// Checks that a recording may start now. `consent_active` tells whether the
    /// current profile's consent is confirmed and not revoked.
    pub fn check_recording_start(&self, input_id: &str, consent_active: bool) -> (result: Result<
        (),
        DatasetError,
    >)
        ensures
            unit_result_view(result) == recording_start_check(*self, input_id@, consent_active),
    {
        if is_blank(input_id) {
            return Err(
                DatasetError::new(
                    DatasetErrorCode::NoMicrophoneSelected,
                    "Select a physical recording microphone.",
                ),
            );
        }
        if self.recording.is_some() {
            return Err(
                DatasetError::new(
                    DatasetErrorCode::RecordingAlreadyActive,
                    "A dataset recording is already active.",
                ),
            );
        }
        if self.preview.is_some() {
            return Err(
                DatasetError::new(
                    DatasetErrorCode::AudioOperationAlreadyActive,
                    "Stop dataset preview before recording.",
                ),
            );
        }
        if self.current_profile_id.is_none() {
            return Err(
                DatasetError::new(
                    DatasetErrorCode::ProfileNotFound,
                    "Create or select a consenting voice profile first.",
                ),
            );
        }
        if !consent_active {
            return Err(
                DatasetError::new(
                    DatasetErrorCode::ConsentRequired,
                    "The selected profile does not have active consent.",
                ),
            );
        }
        Ok(())
    }

    /// Records that a recording started for the current profile and prompt; a consent
    /// recording is a take of its own kind.
    pub fn begin_recording(&mut self, recorded_consent: bool)
        requires
            old(self).current_profile_id is Some,
        ensures
            final(self).recording matches Some(r) && Some(r.profile_id) == old(
                self,
            ).current_profile_id && r.prompt == old(self).current_prompt && r.source == if recorded_consent {
                TakeSource::RecordedConsent
            } else {
                TakeSource::Recorded
            },
            final(self).last_error is None,
            final(self).preview == old(self).preview,
            final(self).current_profile_id == old(self).current_profile_id,
    {
        let profile_id = match &self.current_profile_id {
            Some(id) => id.clone(),
            None => String::new(),
        };
        let prompt = match &self.current_prompt {
            Some(p) => Some(p.clone_prompt()),
            None => None,
        };
        let source = if recorded_consent {
            TakeSource::RecordedConsent
        } else {
            TakeSource::Recorded
        };
        self.recording = Some(RecordingState { profile_id, prompt, source });
        self.last_error = None;
    }

    /// Takes the running recording out to finish it; the session is finalizing until
    /// `end_finalizing`. Without a recording this is an error.
    pub fn take_recording(&mut self) -> (result: Result<RecordingState, DatasetError>)
        ensures
            final(self).finalizing,
            final(self).recording is None,
            match old(self).recording {
                Some(r) => result matches Ok(t) && t == r,
                None => result matches Err(e) && e@ == plain_error(
                    DatasetErrorCode::InvalidStateTransition,
                    "No dataset recording is active."@,
                ),
            },
            final(self).preview == old(self).preview,
    {
        self.finalizing = true;
        match self.recording.take() {
            Some(r) => Ok(r),
            None => Err(
                DatasetError::new(
                    DatasetErrorCode::InvalidStateTransition,
                    "No dataset recording is active.",
                ),
            ),
        }
    }

    /// Ends finalizing; the outcome becomes the last error (or clears it).
    pub fn end_finalizing(&mut self, error: Option<DatasetError>)
        ensures
            !final(self).finalizing,
            final(self).last_error == error,
            final(self).recording == old(self).recording,
            final(self).preview == old(self).preview,
    {
        self.finalizing = false;
        self.last_error = error;
    }

    /// Stops any audio: the recording (returned, so that a finished one can still be
    /// kept) and the preview.
    pub fn stop_audio(&mut self) -> (recording: Option<RecordingState>)
        ensures
            recording == old(self).recording,
            final(self).recording is None,
            final(self).preview is None,
            !final(self).finalizing,
            final(self).current_profile_id == old(self).current_profile_id,
    {
        self.preview = None;
        self.finalizing = false;
        self.recording.take()
    }

    /// Ends the preview; audio stays active only while a recording runs.
    pub fn stop_preview(&mut self) -> (audio_active: bool)
        ensures
            final(self).preview is None,
            final(self).recording == old(self).recording,
            audio_active == (old(self).recording is Some),
    {
        self.preview = None;
        self.recording.is_some()
    }

    /// Whether deleting a take must first stop the preview, because it plays that
    /// take.
    pub fn preview_plays(&self, take_id: &str) -> (plays: bool)
        ensures
            plays == (self.preview matches Some(p) && p.take_id@ == take_id@),
    {
        match &self.preview {
            Some(p) => str_equal(p.take_id.as_str(), take_id),
            None => false,
        }
    }

    /// Whether deleting a profile must first stop audio: its recording runs, or it is
    /// current and a preview runs.
    pub fn profile_owns_audio(&self, profile_id: &str) -> (owns: bool)
        ensures
            owns == ((self.recording matches Some(r) && r.profile_id@ == profile_id@) || (
            self.current_profile_id matches Some(c) && c@ == profile_id@ && self.preview is Some)),
    {
        let recording = match &self.recording {
            Some(r) => str_equal(r.profile_id.as_str(), profile_id),
            None => false,
        };
        let previewing = match &self.current_profile_id {
            Some(c) => str_equal(c.as_str(), profile_id) && self.preview.is_some(),
            None => false,
        };
        recording || previewing
    }

    /// After a profile is deleted, a session that had it current starts afresh.
    pub fn forget_profile(&mut self, profile_id: &str)
        ensures
            (old(self).current_profile_id matches Some(c) && c@ == profile_id@) ==> (
            final(self).current_profile_id is None && final(self).current_prompt is None
                && final(self).recording is None && final(self).preview is None
                && final(self).trim_draft is None && final(self).last_error is None
                && !final(self).finalizing),
            !(old(self).current_profile_id matches Some(c) && c@ == profile_id@) ==> (
            final(self).current_profile_id == old(self).current_profile_id
                && final(self).recording == old(self).recording && final(self).preview == old(
                self,
            ).preview),
    {
        let current = match &self.current_profile_id {
            Some(c) => str_equal(c.as_str(), profile_id),
            None => false,
        };
        if current {
            *self = DatasetRuntime::new();
        }
    }

    /// The pending trim, which must have been set first.
    pub fn trim_draft(&self) -> (result: Result<&TrimDraft, DatasetError>)
        ensures
            match self.trim_draft {
                Some(d) => result matches Ok(t) && *t == d,
                None => result matches Err(e) && e@ == plain_error(
                    DatasetErrorCode::InvalidTrimRange,
                    "Set or auto-detect trim boundaries first."@,
                ),
            },
    {
        match &self.trim_draft {
            Some(d) => Ok(d),
            None => Err(
                DatasetError::new(
                    DatasetErrorCode::InvalidTrimRange,
                    "Set or auto-detect trim boundaries first.",
                ),
            ),
        }
    }

    /// The preview to pause or resume, which must be running.
    pub fn active_preview(&self) -> (result: Result<&PreviewState, DatasetError>)
        ensures
            match self.preview {
                Some(p) => result matches Ok(q) && *q == p,
                None => result matches Err(e) && e@ == plain_error(
                    DatasetErrorCode::InvalidStateTransition,
                    "No dataset preview is active."@,
                ),
            },
    {
        match &self.preview {
            Some(p) => Ok(p),
            None => Err(
                DatasetError::new(
                    DatasetErrorCode::InvalidStateTransition,
                    "No dataset preview is active.",
                ),
            ),
        }
    }
}

/// Checks the number of files of one import.
pub fn check_import_batch(count: usize) -> (result: Result<(), DatasetError>)
    ensures
        result is Ok <==> 1 <= count <= 32,
        result is Err ==> unit_result_view(result) == Err::<(), DatasetErrorView>(
            import_batch_error(),
        ),
{
    if count == 0 || count > MAX_IMPORT_BATCH {
        return Err(
            DatasetError::new(DatasetErrorCode::UnsupportedWav, "Select between 1 and 32 WAV files."),
        );
    }
    Ok(())
}

/// Checks an applied trim against the raw take's length in frames.
pub fn check_trim_within(start_frame: u64, end_frame: u64, frames: usize) -> (result: Result<
    (),
    DatasetError,
>)
    ensures
        result is Ok <==> start_frame < end_frame && end_frame <= frames,
        result is Err ==> unit_result_view(result) == Err::<(), DatasetErrorView>(
            plain_error(
                DatasetErrorCode::InvalidTrimRange,
                "Trim boundaries are outside the raw take."@,
            ),
        ),
{
    if start_frame >= end_frame || end_frame as u128 > frames as u128 {
        return Err(
            DatasetError::new(
                DatasetErrorCode::InvalidTrimRange,
                "Trim boundaries are outside the raw take.",
            ),
        );
    }
    Ok(())
}

/// Checks a finished recording: it must hold at least one frame.
pub fn check_recording_frames(frames: usize) -> (result: Result<(), DatasetError>)
    ensures
        result is Ok <==> frames > 0,
        result is Err ==> unit_result_view(result) == Err::<(), DatasetErrorView>(
            plain_error(
                DatasetErrorCode::RecordingTooShort,
                "The recording contained no complete audio frames."@,
            ),
        ),
{
    if frames == 0 {
        return Err(
            DatasetError::new(
                DatasetErrorCode::RecordingTooShort,
                "The recording contained no complete audio frames.",
            ),
        );
    }
    Ok(())
}

/// The classification of a finished recording, given whether it stopped at the
/// length limit.
pub fn recording_quality(quality: QualityClassification, limit_reached: bool) -> (result:
    QualityClassification)
    ensures
        result == limited_quality(quality, limit_reached),
{
    if limit_reached {
        worse(quality, QualityClassification::Warning)
    } else {
        quality
    }
}

} // verus!
