use vstd::prelude::*;

use crate::text::{concat, from_chars, to_chars};

verus! {

/// What went wrong in a voice-dataset operation.
#[derive(Clone, Copy, Debug, PartialEq, Eq, Structural)]
pub enum DatasetErrorCode {
    ConsentRequired,
    ProfileNotFound,
    FutureManifestSchema,
    CorruptManifest,
    StorageUnavailable,
    AtomicWriteFailed,
    AudioOperationAlreadyActive,
    NoMicrophoneSelected,
    MicrophoneUnavailable,
    RecordingAlreadyActive,
    RecordingTooShort,
    RecordingLimitReached,
    RecordingOverflow,
    TakeNotFound,
    DuplicateImport,
    UnsupportedWav,
    ImportTooLong,
    InvalidTrimRange,
    PreviewOutputMissing,
    PreviewFailed,
    ExportFailed,
    PartialDeletion,
    InvalidStateTransition,
    PathValidationFailed,
}

/// The camel-case name under which a code is shown and serialised.
pub open spec fn code_name(code: DatasetErrorCode) -> Seq<char> {
    match code {
        DatasetErrorCode::ConsentRequired => "consentRequired"@,
        DatasetErrorCode::ProfileNotFound => "profileNotFound"@,
        DatasetErrorCode::FutureManifestSchema => "futureManifestSchema"@,
        DatasetErrorCode::CorruptManifest => "corruptManifest"@,
        DatasetErrorCode::StorageUnavailable => "storageUnavailable"@,
        DatasetErrorCode::AtomicWriteFailed => "atomicWriteFailed"@,
        DatasetErrorCode::AudioOperationAlreadyActive => "audioOperationAlreadyActive"@,
        DatasetErrorCode::NoMicrophoneSelected => "noMicrophoneSelected"@,
        DatasetErrorCode::MicrophoneUnavailable => "microphoneUnavailable"@,
        DatasetErrorCode::RecordingAlreadyActive => "recordingAlreadyActive"@,
        DatasetErrorCode::RecordingTooShort => "recordingTooShort"@,
        DatasetErrorCode::RecordingLimitReached => "recordingLimitReached"@,
        DatasetErrorCode::RecordingOverflow => "recordingOverflow"@,
        DatasetErrorCode::TakeNotFound => "takeNotFound"@,
        DatasetErrorCode::DuplicateImport => "duplicateImport"@,
        DatasetErrorCode::UnsupportedWav => "unsupportedWav"@,
        DatasetErrorCode::ImportTooLong => "importTooLong"@,
        DatasetErrorCode::InvalidTrimRange => "invalidTrimRange"@,
        DatasetErrorCode::PreviewOutputMissing => "previewOutputMissing"@,
        DatasetErrorCode::PreviewFailed => "previewFailed"@,
        DatasetErrorCode::ExportFailed => "exportFailed"@,
        DatasetErrorCode::PartialDeletion => "partialDeletion"@,
        DatasetErrorCode::InvalidStateTransition => "invalidStateTransition"@,
        DatasetErrorCode::PathValidationFailed => "pathValidationFailed"@,
    }
}

impl DatasetErrorCode {
    /// The camel-case name of the code.
    pub fn name(&self) -> (name: &'static str)
        ensures
            name@ == code_name(*self),
    {
        match self {
            DatasetErrorCode::ConsentRequired => "consentRequired",
            DatasetErrorCode::ProfileNotFound => "profileNotFound",
            DatasetErrorCode::FutureManifestSchema => "futureManifestSchema",
            DatasetErrorCode::CorruptManifest => "corruptManifest",
            DatasetErrorCode::StorageUnavailable => "storageUnavailable",
            DatasetErrorCode::AtomicWriteFailed => "atomicWriteFailed",
            DatasetErrorCode::AudioOperationAlreadyActive => "audioOperationAlreadyActive",
            DatasetErrorCode::NoMicrophoneSelected => "noMicrophoneSelected",
            DatasetErrorCode::MicrophoneUnavailable => "microphoneUnavailable",
            DatasetErrorCode::RecordingAlreadyActive => "recordingAlreadyActive",
            DatasetErrorCode::RecordingTooShort => "recordingTooShort",
            DatasetErrorCode::RecordingLimitReached => "recordingLimitReached",
            DatasetErrorCode::RecordingOverflow => "recordingOverflow",
            DatasetErrorCode::TakeNotFound => "takeNotFound",
            DatasetErrorCode::DuplicateImport => "duplicateImport",
            DatasetErrorCode::UnsupportedWav => "unsupportedWav",
            DatasetErrorCode::ImportTooLong => "importTooLong",
            DatasetErrorCode::InvalidTrimRange => "invalidTrimRange",
            DatasetErrorCode::PreviewOutputMissing => "previewOutputMissing",
            DatasetErrorCode::PreviewFailed => "previewFailed",
            DatasetErrorCode::ExportFailed => "exportFailed",
            DatasetErrorCode::PartialDeletion => "partialDeletion",
            DatasetErrorCode::InvalidStateTransition => "invalidStateTransition",
            DatasetErrorCode::PathValidationFailed => "pathValidationFailed",
        }
    }
}

/// A voice-dataset error: a code, a message for people, and the profile and take it
/// concerns where known.
#[derive(Debug)]
pub struct DatasetError {
    pub code: DatasetErrorCode,
    pub message: String,
    pub profile_id: Option<String>,
    pub take_id: Option<String>,
}

/// A dataset error as plain values.
pub struct DatasetErrorView {
    pub code: DatasetErrorCode,
    pub message: Seq<char>,
    pub profile_id: Option<Seq<char>>,
    pub take_id: Option<Seq<char>>,
}

/// The characters of an optional string.
pub open spec fn opt_view(s: Option<String>) -> Option<Seq<char>> {
    match s {
        Some(s) => Some(s@),
        None => None,
    }
}

impl View for DatasetError {
    type V = DatasetErrorView;

    open spec fn view(&self) -> DatasetErrorView {
        DatasetErrorView {
            code: self.code,
            message: self.message@,
            profile_id: opt_view(self.profile_id),
            take_id: opt_view(self.take_id),
        }
    }
}

/// The error with a code and a message, about no particular profile or take.
pub open spec fn plain_error(code: DatasetErrorCode, message: Seq<char>) -> DatasetErrorView {
    DatasetErrorView { code, message, profile_id: None, take_id: None }
}

/// The error about a storage operation that failed with `error`.
pub open spec fn storage_error(context: Seq<char>, error: Seq<char>) -> DatasetErrorView {
    plain_error(DatasetErrorCode::StorageUnavailable, context + ": "@ + error)
}

fn copy_text(s: &str) -> (copy: String)
    ensures
        copy@ == s@,
{
    from_chars(to_chars(s).as_slice())
}

impl DatasetError {
    /// An error with a code and a message.
    pub fn new(code: DatasetErrorCode, message: &str) -> (error: Self)
        ensures
            error@ == plain_error(code, message@),
    {
        DatasetError { code, message: copy_text(message), profile_id: None, take_id: None }
    }

    /// The same error, about the given profile.
    pub fn profile(self, profile_id: &str) -> (error: Self)
        ensures
            error@ == (DatasetErrorView { profile_id: Some(profile_id@), ..self@ }),
    {
        DatasetError { profile_id: Some(copy_text(profile_id)), ..self }
    }

    /// The same error, about the given take.
    pub fn take(self, take_id: &str) -> (error: Self)
        ensures
            error@ == (DatasetErrorView { take_id: Some(take_id@), ..self@ }),
    {
        DatasetError { take_id: Some(copy_text(take_id)), ..self }
    }

    /// The error for a storage operation (`context`) that failed with the given
    /// description of the underlying failure.
    pub fn storage(context: &str, error: &str) -> (result: Self)
        ensures
            result@ == storage_error(context@, error@),
    {
        let head = concat(context, ": ");
        let message = concat(head.as_str(), error);
        DatasetError::new(DatasetErrorCode::StorageUnavailable, message.as_str())
    }
}

} // verus!
