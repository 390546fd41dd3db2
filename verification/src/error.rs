use vstd::prelude::*;

use crate::digits::{decimal, decimal_spec};
use crate::text::{concat, from_chars, to_chars};

verus! {

/// Why the audio engine could not do what was asked.
#[derive(Debug)]
pub enum AudioError {
    InvalidConfiguration(String),
    DeviceEnumeration { direction: &'static str, details: String },
    DeviceName(String),
    DeviceNotFound { direction: &'static str, id: String },
    SupportedFormats { direction: &'static str, name: String, details: String },
    NoCommonSampleRate { input: String, output: String },
    OutputSampleRateUnavailable { output: String, sample_rate: u32 },
    BuildStream { direction: &'static str, details: String },
    PlayStream { direction: &'static str, details: String },
    WorkerStart(String),
    DspWorkerStart(String),
    WorkerUnavailable,
    WorkerTimeout(u64),
    StartupPrefillTimeout { timeout_ms: u64, achieved_frames: usize, target_frames: usize },
}

/// The message shown for an audio error.
pub open spec fn audio_error_message(error: AudioError) -> Seq<char> {
    match error {
        AudioError::InvalidConfiguration(m) => "Invalid audio route: "@ + m@,
        AudioError::DeviceEnumeration { direction, details } => "Unable to enumerate "@
            + direction@ + " audio devices: "@ + details@,
        AudioError::DeviceName(m) => "Unable to read an audio device name: "@ + m@,
        AudioError::DeviceNotFound { direction, id } => "The selected "@ + direction@
            + " device is no longer available (ID: "@ + id@
            + "). Refresh devices and select another device."@,
        AudioError::SupportedFormats { direction, name, details } =>
            "Unable to query supported formats for "@ + direction@ + " device '"@ + name@ + "': "@
            + details@,
        AudioError::NoCommonSampleRate { input, output } =>
            "No compatible sample rate exists between input '"@ + input@ + "' and output '"@
            + output@
            + "'. Configure both devices to a common rate such as 48 kHz in Windows Sound settings."@,
        AudioError::OutputSampleRateUnavailable { output, sample_rate } => "Output device '"@
            + output@ + "' does not support the active DSP sample rate of "@ + decimal_spec(
            sample_rate as nat,
        ) + " Hz."@,
        AudioError::BuildStream { direction, details } => "Unable to create the "@ + direction@
            + " audio stream: "@ + details@,
        AudioError::PlayStream { direction, details } => "Unable to start the "@ + direction@
            + " audio stream: "@ + details@,
        AudioError::WorkerStart(m) => "The audio engine worker could not be started: "@ + m@,
        AudioError::DspWorkerStart(m) => "The DSP processing worker could not be started: "@ + m@,
        AudioError::WorkerUnavailable =>
            "The audio engine worker is unavailable. Restart the application."@,
        AudioError::WorkerTimeout(s) => "The audio engine did not respond within "@ + decimal_spec(
            s as nat,
        ) + " seconds."@,
        AudioError::StartupPrefillTimeout { timeout_ms, achieved_frames, target_frames } =>
            "Startup prefill timed out after "@ + decimal_spec(timeout_ms as nat) + " ms: achieved "@
            + decimal_spec(achieved_frames as nat) + " of "@ + decimal_spec(target_frames as nat)
            + " frames."@,
    }
}

fn number(value: u64) -> (text: String)
    ensures
        text@ == decimal_spec(value as nat),
{
    from_chars(decimal(value).as_slice())
}

fn join3(a: &str, b: &str, c: &str) -> (s: String)
    ensures
        s@ == a@ + b@ + c@,
{
    let head = concat(a, b);
    concat(head.as_str(), c)
}

fn join4(a: &str, b: &str, c: &str, d: &str) -> (s: String)
    ensures
        s@ == a@ + b@ + c@ + d@,
{
    let head = join3(a, b, c);
    concat(head.as_str(), d)
}

fn text(a: &str) -> (s: String)
    ensures
        s@ == a@,
{
    from_chars(to_chars(a).as_slice())
}

fn join5(a: &str, b: &str, c: &str, d: &str, e: &str) -> (s: String)
    ensures
        s@ == a@ + b@ + c@ + d@ + e@,
{
    let head = join3(a, b, c);
    let tail = concat(head.as_str(), d);
    concat(tail.as_str(), e)
}

impl AudioError {
    /// The message shown for the error.
    pub fn message(&self) -> (text: String)
        ensures
            text@ == audio_error_message(*self),
    {
        match self {
            AudioError::InvalidConfiguration(m) => concat("Invalid audio route: ", m.as_str()),
            AudioError::DeviceEnumeration { direction, details } => join4(
                "Unable to enumerate ",
                direction,
                " audio devices: ",
                details.as_str(),
            ),
            AudioError::DeviceName(m) => concat("Unable to read an audio device name: ", m.as_str()),
            AudioError::DeviceNotFound { direction, id } => join5(
                "The selected ",
                direction,
                " device is no longer available (ID: ",
                id.as_str(),
                "). Refresh devices and select another device.",
            ),
            AudioError::SupportedFormats { direction, name, details } => {
                let head = join5(
                    "Unable to query supported formats for ",
                    direction,
                    " device '",
                    name.as_str(),
                    "': ",
                );
                concat(head.as_str(), details.as_str())
            },
            AudioError::NoCommonSampleRate { input, output } => join5(
                "No compatible sample rate exists between input '",
                input.as_str(),
                "' and output '",
                output.as_str(),
                "'. Configure both devices to a common rate such as 48 kHz in Windows Sound settings.",
            ),
            AudioError::OutputSampleRateUnavailable { output, sample_rate } => join5(
                "Output device '",
                output.as_str(),
                "' does not support the active DSP sample rate of ",
                number(*sample_rate as u64).as_str(),
                " Hz.",
            ),
            AudioError::BuildStream { direction, details } => join4(
                "Unable to create the ",
                direction,
                " audio stream: ",
                details.as_str(),
            ),
            AudioError::PlayStream { direction, details } => join4(
                "Unable to start the ",
                direction,
                " audio stream: ",
                details.as_str(),
            ),
            AudioError::WorkerStart(m) => concat(
                "The audio engine worker could not be started: ",
                m.as_str(),
            ),
            AudioError::DspWorkerStart(m) => concat(
                "The DSP processing worker could not be started: ",
                m.as_str(),
            ),
            AudioError::WorkerUnavailable => text("The audio engine worker is unavailable. Restart the application."),
            AudioError::WorkerTimeout(s) => join3(
                "The audio engine did not respond within ",
                number(*s).as_str(),
                " seconds.",
            ),
            AudioError::StartupPrefillTimeout { timeout_ms, achieved_frames, target_frames } => {
                let head = join5(
                    "Startup prefill timed out after ",
                    number(*timeout_ms).as_str(),
                    " ms: achieved ",
                    number(*achieved_frames as u64).as_str(),
                    " of ",
                );
                join3(head.as_str(), number(*target_frames as u64).as_str(), " frames.")
            },
        }
    }
}

/// Why offline resampling refused its input.
#[derive(Clone, Copy, Debug, PartialEq, Eq, Structural)]
pub enum OfflineResampleError {
    InvalidRate,
    InvalidChannels,
    IncompleteFrame,
    NonFiniteInput,
    OutputTooLarge { requested_frames: usize, maximum_frames: usize },
}

/// The message shown for a resampling error.
pub open spec fn resample_error_message(error: OfflineResampleError) -> Seq<char> {
    match error {
        OfflineResampleError::InvalidRate => "sample rates must be greater than zero"@,
        OfflineResampleError::InvalidChannels => "channel count must be greater than zero"@,
        OfflineResampleError::IncompleteFrame =>
            "audio samples must contain complete interleaved frames"@,
        OfflineResampleError::NonFiniteInput => "audio contains a non-finite sample"@,
        OfflineResampleError::OutputTooLarge { requested_frames, maximum_frames } =>
            "resampled audio would contain "@ + decimal_spec(requested_frames as nat)
            + " frames; the limit is "@ + decimal_spec(maximum_frames as nat),
    }
}

impl OfflineResampleError {
    /// The message shown for the error.
    pub fn message(&self) -> (text: String)
        ensures
            text@ == resample_error_message(*self),
    {
        match self {
            OfflineResampleError::InvalidRate => text("sample rates must be greater than zero"),
            OfflineResampleError::InvalidChannels => text("channel count must be greater than zero"),
            OfflineResampleError::IncompleteFrame => text("audio samples must contain complete interleaved frames"),
            OfflineResampleError::NonFiniteInput => text("audio contains a non-finite sample"),
            OfflineResampleError::OutputTooLarge { requested_frames, maximum_frames } => join4(
                "resampled audio would contain ",
                number(*requested_frames as u64).as_str(),
                " frames; the limit is ",
                number(*maximum_frames as u64).as_str(),
            ),
        }
    }
}

} // verus!
