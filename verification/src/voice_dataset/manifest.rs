use vstd::prelude::*;

use crate::digits::{decimal, decimal_spec};
use crate::text::{concat, from_chars, str_equal, to_chars};
use crate::voice_dataset::error::{plain_error, DatasetError, DatasetErrorCode, DatasetErrorView};
use crate::voice_dataset::consent::ConsentMetadata;
use crate::voice_dataset::profile::VoiceProfileMetadata;
use crate::voice_dataset::prompts::PromptPackReference;
use crate::voice_dataset::take::{
    accepted_duration, counts_toward_duration, duration_computable, rebuild_statistics,
    statistics_of, take_check, unit_result_view, validate_take, DatasetStatistics, TakeRecord,
};

verus! {

/// The manifest schema this crate reads and writes.
pub const DATASET_MANIFEST_SCHEMA_VERSION: u32 = 1;

/// The audio format of the files of a dataset.
#[derive(Clone, Debug)]
pub struct DatasetRecordingFormat {
    pub container: String,
    pub sample_format: String,
    pub sample_rate: u32,
    pub channels: u16,
    pub bits_per_sample: u16,
}

/// The canonical format: 24-bit PCM mono WAV at 48 kHz.
pub open spec fn canonical_recording_format(f: DatasetRecordingFormat) -> bool {
    &&& f.container@ == "wav"@
    &&& f.sample_format@ == "pcm"@
    &&& f.sample_rate == 48_000
    &&& f.channels == 1
    &&& f.bits_per_sample == 24
}

impl Default for DatasetRecordingFormat {
    fn default() -> (format: Self)
        ensures
            canonical_recording_format(format),
    {
        DatasetRecordingFormat {
            container: from_chars(to_chars("wav").as_slice()),
            sample_format: from_chars(to_chars("pcm").as_slice()),
            sample_rate: 48_000,
            channels: 1,
            bits_per_sample: 24,
        }
    }
}

/// The message for a manifest of another schema version.
pub open spec fn unsupported_schema_message(version: nat) -> Seq<char> {
    "Unsupported dataset schema version "@ + decimal_spec(version) + ". Expected version 1."@
}

/// The first take whose identifier an earlier take already has.
pub open spec fn duplicate_at(takes: Seq<TakeRecord>, j: int) -> bool {
    0 <= j < takes.len() && exists|k: int| 0 <= k < j && (#[trigger] takes[k]).id@ == takes[j].id@
}

/// The outcome of checking a manifest's schema version, format and takes, in that
/// order; the takes are checked one after the other, each first for a repeated
/// identifier and then on its own.
pub open spec fn manifest_check(
    schema_version: u32,
    format: DatasetRecordingFormat,
    takes: Seq<TakeRecord>,
) -> Result<(), DatasetErrorView> {
    if schema_version != DATASET_MANIFEST_SCHEMA_VERSION {
        Err(
            plain_error(
                DatasetErrorCode::FutureManifestSchema,
                unsupported_schema_message(schema_version as nat),
            ),
        )
    } else if !canonical_recording_format(format) {
        Err(
            plain_error(
                DatasetErrorCode::CorruptManifest,
                "The dataset recording format is not canonical PCM24 mono 48 kHz WAV."@,
            ),
        )
    } else {
        takes_check(takes, takes.len() as int)
    }
}

/// The outcome of checking the first `n` takes.
pub open spec fn takes_check(takes: Seq<TakeRecord>, n: int) -> Result<(), DatasetErrorView>
    decreases n,
{
    if n <= 0 {
        Ok(())
    } else {
        match takes_check(takes, n - 1) {
            Err(e) => Err(e),
            Ok(()) => if duplicate_at(takes, n - 1) {
                Err(
                    plain_error(
                        DatasetErrorCode::CorruptManifest,
                        "The dataset contains a duplicate take identifier."@,
                    ),
                )
            } else {
                take_check(takes[n - 1])
            },
        }
    }
}

/// Once a check has failed, checking more takes keeps the same error.
proof fn lemma_takes_check_stops(takes: Seq<TakeRecord>, n: int, m: int)
    requires
        0 <= n <= m,
        takes_check(takes, n) is Err,
    ensures
        takes_check(takes, m) == takes_check(takes, n),
    decreases m - n,
{
    if m > n {
        lemma_takes_check_stops(takes, n, m - 1);
    }
}

fn text_message(head: &str, value: u64, tail: &str) -> (message: String)
    ensures
        message@ == head@ + decimal_spec(value as nat) + tail@,
{
    let digits = decimal(value);
    let middle = from_chars(digits.as_slice());
    let first = concat(head, middle.as_str());
    concat(first.as_str(), tail)
}

/// Checks a manifest: the schema version, the canonical format, unique take
/// identifiers and each take.
pub fn validate_manifest(
    schema_version: u32,
    format: &DatasetRecordingFormat,
    takes: &[TakeRecord],
) -> (result: Result<(), DatasetError>)
    ensures
        unit_result_view(result) == manifest_check(schema_version, *format, takes@),
{
    if schema_version != DATASET_MANIFEST_SCHEMA_VERSION {
        let message = text_message(
            "Unsupported dataset schema version ",
            schema_version as u64,
            ". Expected version 1.",
        );
        return Err(DatasetError::new(DatasetErrorCode::FutureManifestSchema, message.as_str()));
    }
    if !(str_equal(format.container.as_str(), "wav") && str_equal(format.sample_format.as_str(), "pcm")
        && format.sample_rate == 48_000 && format.channels == 1 && format.bits_per_sample == 24) {
        return Err(
            DatasetError::new(
                DatasetErrorCode::CorruptManifest,
                "The dataset recording format is not canonical PCM24 mono 48 kHz WAV.",
            ),
        );
    }
    let mut i: usize = 0;
    while i < takes.len()
        invariant
            i <= takes@.len(),
            schema_version == DATASET_MANIFEST_SCHEMA_VERSION,
            canonical_recording_format(*format),
            takes_check(takes@, i as int) == Ok::<(), DatasetErrorView>(()),
        decreases takes@.len() - i,
    {
        let mut k: usize = 0;
        while k < i
            invariant
                k <= i < takes@.len(),
                schema_version == DATASET_MANIFEST_SCHEMA_VERSION,
                canonical_recording_format(*format),
                takes_check(takes@, i as int) == Ok::<(), DatasetErrorView>(()),
                forall|m: int| 0 <= m < k ==> (#[trigger] takes@[m]).id@ != takes@[i as int].id@,
            decreases i - k,
        {
            if str_equal(takes[k].id.as_str(), takes[i].id.as_str()) {
                assert(duplicate_at(takes@, i as int));
                proof {
                    lemma_takes_check_stops(takes@, i + 1, takes@.len() as int);
                }
                return Err(
                    DatasetError::new(
                        DatasetErrorCode::CorruptManifest,
                        "The dataset contains a duplicate take identifier.",
                    ),
                );
            }
            k = k + 1;
        }
        assert(!duplicate_at(takes@, i as int));
        let checked = validate_take(&takes[i]);
        if let Err(e) = checked {
            proof {
                lemma_takes_check_stops(takes@, i + 1, takes@.len() as int);
            }
            return Err(e);
        }
        i = i + 1;
    }
    Ok(())
}

/// The outcome of reading a stored manifest's `schemaVersion` (absent when the field
/// is missing or not a number).
pub open spec fn version_check(version: Option<u64>) -> Result<(), DatasetErrorView> {
    match version {
        None => Err(
            plain_error(
                DatasetErrorCode::CorruptManifest,
                "The dataset manifest is missing schemaVersion."@,
            ),
        ),
        Some(v) => if v != 1 {
            Err(
                plain_error(
                    DatasetErrorCode::FutureManifestSchema,
                    unsupported_schema_message(v as nat),
                ),
            )
        } else {
            Ok(())
        },
    }
}

/// Accepts only a stored manifest that declares the current schema version; older
/// and newer versions are refused, not migrated.
pub fn check_manifest_version(version: Option<u64>) -> (result: Result<(), DatasetError>)
    ensures
        unit_result_view(result) == version_check(version),
{
    match version {
        None => Err(
            DatasetError::new(
                DatasetErrorCode::CorruptManifest,
                "The dataset manifest is missing schemaVersion.",
            ),
        ),
        Some(v) => {
            if v != 1 {
                let message = text_message(
                    "Unsupported dataset schema version ",
                    v,
                    ". Expected version 1.",
                );
                Err(DatasetError::new(DatasetErrorCode::FutureManifestSchema, message.as_str()))
            } else {
                Ok(())
            }
        },
    }
}

/// A profile's dataset as stored: the profile, its consent, the recording format,
/// the prompt pack, the takes, the counts over them and when it was made and changed.
#[derive(Clone, Debug)]
pub struct VoiceDatasetManifestV1 {
    pub schema_version: u32,
    pub profile: VoiceProfileMetadata,
    pub consent: ConsentMetadata,
    pub recording_format: DatasetRecordingFormat,
    pub prompt_pack: PromptPackReference,
    pub takes: Vec<TakeRecord>,
    pub statistics: DatasetStatistics,
    pub created_at: String,
    pub updated_at: String,
}

impl VoiceDatasetManifestV1 {
    /// Recounts the statistics from the takes; nothing else changes.
    pub fn rebuild_statistics(&mut self, total_prompts: usize)
        requires
            old(self).takes@.len() <= u32::MAX,
            forall|i: int|
                0 <= i < old(self).takes@.len() && counts_toward_duration(
                    #[trigger] old(self).takes@[i],
                ) ==> duration_computable(old(self).takes@[i]),
            accepted_duration(old(self).takes@) <= u64::MAX,
        ensures
            statistics_of(final(self).statistics, old(self).takes@, total_prompts),
            final(self).takes@ == old(self).takes@,
            final(self).schema_version == old(self).schema_version,
            final(self).profile == old(self).profile,
            final(self).consent == old(self).consent,
            final(self).recording_format == old(self).recording_format,
            final(self).prompt_pack == old(self).prompt_pack,
            final(self).created_at == old(self).created_at,
            final(self).updated_at == old(self).updated_at,
    {
        self.statistics = rebuild_statistics(self.takes.as_slice(), total_prompts);
    }

    /// Checks the schema version, the canonical format, unique take identifiers and
    /// each take, in that order.
    pub fn validate(&self) -> (result: Result<(), DatasetError>)
        ensures
            unit_result_view(result) == manifest_check(
                self.schema_version,
                self.recording_format,
                self.takes@,
            ),
    {
        validate_manifest(self.schema_version, &self.recording_format, self.takes.as_slice())
    }
}

} // verus!
