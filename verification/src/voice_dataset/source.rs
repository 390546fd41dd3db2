use vstd::prelude::*;

use crate::text::concat;
use crate::voice_dataset::consent::ConsentMetadata;
use crate::voice_dataset::error::{DatasetError, DatasetErrorView};
use crate::voice_dataset::manifest::{DatasetRecordingFormat, VoiceDatasetManifestV1};
use crate::voice_dataset::profile::VoiceProfileMetadata;
use crate::voice_dataset::prompts::PromptCategory;
use crate::voice_dataset::quality::QualityClassification;
use crate::voice_dataset::take::{
    duration_computable, managed_relative_path, path_error, selected_duration,
    validate_relative_path, DatasetStatistics, SelectedTakeVersion, TakeRecord, TakeReviewStatus,
    TakeSource,
};
use crate::voice_dataset::storage::clone_profile;

verus! {

/// An accepted take as a training source sees it: the file to use and the raw
/// recording (both below the profile folder), the prompt, the verdict on the
/// file used, and its length.
#[derive(Clone, Debug)]
pub struct AcceptedDatasetTake {
    pub id: String,
    pub path: String,
    pub raw_path: String,
    pub prompt_id: Option<String>,
    pub prompt_text: Option<String>,
    pub prompt_category: Option<PromptCategory>,
    pub quality: QualityClassification,
    pub source: TakeSource,
    pub selected_version: SelectedTakeVersion,
    pub manifest_content_hash: String,
    pub duration_ms: u64,
    pub manual_override: bool,
}

/// A take goes to training: accepted, not excluded, and not a consent recording.
pub open spec fn trainable(t: TakeRecord) -> bool {
    &&& t.review_status == TakeReviewStatus::Accepted
    &&& !t.exclude_from_training
    &&& t.source != TakeSource::RecordedConsent
}

/// The file of a take that training uses: the trimmed copy when it is selected and
/// exists, else the raw recording.
pub open spec fn used_file(t: TakeRecord) -> Seq<char> {
    if t.selected_version == SelectedTakeVersion::Trimmed && t.derived_file is Some {
        t.derived_file->0@
    } else {
        t.raw_file@
    }
}

/// The verdict on the file training uses.
pub open spec fn used_quality(t: TakeRecord) -> QualityClassification {
    if t.selected_version == SelectedTakeVersion::Trimmed && t.trim is Some {
        t.trim->0.derived_quality
    } else {
        t.quality
    }
}

/// A path below the profile folder `root`.
pub open spec fn under(root: Seq<char>, relative: Seq<char>) -> Seq<char> {
    root + "/"@ + relative
}

/// `a` describes the trainable take `t` of the profile stored in `root`.
pub open spec fn describes(root: Seq<char>, a: AcceptedDatasetTake, t: TakeRecord) -> bool {
    &&& a.id == t.id
    &&& a.path@ == under(root, used_file(t))
    &&& a.raw_path@ == under(root, t.raw_file@)
    &&& a.prompt_id == t.prompt_id
    &&& a.prompt_text == t.prompt_text
    &&& a.prompt_category == t.prompt_category
    &&& a.quality == used_quality(t)
    &&& a.source == t.source
    &&& a.selected_version == t.selected_version
    &&& a.manifest_content_hash == t.content_hash
    &&& a.duration_ms == selected_duration(t)
    &&& a.manual_override == t.manual_override
}

/// The trainable takes among the first `n`, in order; `None` when one of them names a
/// file that is not a managed relative path.
pub open spec fn trainable_prefix(takes: Seq<TakeRecord>, n: int) -> Option<Seq<TakeRecord>>
    decreases n,
{
    if n <= 0 {
        Some(Seq::empty())
    } else {
        match trainable_prefix(takes, n - 1) {
            None => None,
            Some(kept) => {
                let t = takes[n - 1];
                if !trainable(t) {
                    Some(kept)
                } else if !managed_relative_path(used_file(t)) || !managed_relative_path(
                    t.raw_file@,
                ) {
                    None
                } else {
                    Some(kept.push(t))
                }
            },
        }
    }
}

/// The used duration of every trainable take can be computed: a trimmed take has a
/// sample rate, and its trimmed length in milliseconds fits in 64 bits.
pub open spec fn durations_computable(takes: Seq<TakeRecord>) -> bool {
    forall|i: int| 0 <= i < takes.len() && trainable(#[trigger] takes[i]) ==> duration_computable(takes[i])
}

/// Once a file has been refused, looking at more takes refuses too.
proof fn lemma_prefix_stays_refused(takes: Seq<TakeRecord>, n: int, m: int)
    requires
        0 <= n <= m,
        trainable_prefix(takes, n) is None,
    ensures
        trainable_prefix(takes, m) is None,
    decreases m - n,
{
    if m > n {
        lemma_prefix_stays_refused(takes, n, m - 1);
    }
}

/// The accepted takes that training may use, in manifest order: accepted, not excluded
/// and not consent recordings, with their files placed below the profile folder
/// `profile_root`. A take whose files are not managed relative paths stops the listing
/// with the path error.
pub fn accepted_takes(profile_root: &str, takes: &[TakeRecord]) -> (result: Result<
    Vec<AcceptedDatasetTake>,
    DatasetError,
>)
    requires
        durations_computable(takes@),
    ensures
        match trainable_prefix(takes@, takes@.len() as int) {
            None => result matches Err(e) && e@ == path_error(),
            Some(kept) => result matches Ok(list) && list@.len() == kept.len() && forall|k: int|
                0 <= k < kept.len() ==> describes(profile_root@, #[trigger] list@[k], kept[k]),
        },
{
    let mut list: Vec<AcceptedDatasetTake> = Vec::new();
    let mut i: usize = 0;
    while i < takes.len()
        invariant
            i <= takes@.len(),
            forall|j: int|
                0 <= j < takes@.len() && trainable(#[trigger] takes@[j]) ==> duration_computable(
                    takes@[j],
                ),
            trainable_prefix(takes@, i as int) matches Some(kept) && list@.len() == kept.len()
                && forall|k: int|
                0 <= k < kept.len() ==> describes(profile_root@, #[trigger] list@[k], kept[k]),
        decreases takes@.len() - i,
    {
        let t = &takes[i];
        let ghost kept = trainable_prefix(takes@, i as int)->0;
        if t.review_status == TakeReviewStatus::Accepted && !t.exclude_from_training && t.source
            != TakeSource::RecordedConsent {
            let relative = if t.selected_version == SelectedTakeVersion::Trimmed {
                match &t.derived_file {
                    Some(d) => d.as_str(),
                    None => t.raw_file.as_str(),
                }
            } else {
                t.raw_file.as_str()
            };
            let checked_used = validate_relative_path(relative);
            if let Err(e) = checked_used {
                proof {
                    lemma_prefix_stays_refused(takes@, i + 1, takes@.len() as int);
                }
                return Err(e);
            }
            let checked_raw = validate_relative_path(t.raw_file.as_str());
            if let Err(e) = checked_raw {
                proof {
                    lemma_prefix_stays_refused(takes@, i + 1, takes@.len() as int);
                }
                return Err(e);
            }
            let quality = if t.selected_version == SelectedTakeVersion::Trimmed {
                match &t.trim {
                    Some(trim) => trim.derived_quality,
                    None => t.quality,
                }
            } else {
                t.quality
            };
            let duration_ms = if t.selected_version == SelectedTakeVersion::Trimmed {
                match &t.trim {
                    Some(trim) => (trim.end_frame.saturating_sub(trim.start_frame) * 1_000) / (
                    t.sample_rate as u64),
                    None => t.duration_ms,
                }
            } else {
                t.duration_ms
            };
            let record = t.clone_record();
            let folder = concat(profile_root, "/");
            let entry = AcceptedDatasetTake {
                id: record.id,
                path: concat(folder.as_str(), relative),
                raw_path: concat(folder.as_str(), t.raw_file.as_str()),
                prompt_id: record.prompt_id,
                prompt_text: record.prompt_text,
                prompt_category: record.prompt_category,
                quality,
                source: record.source,
                selected_version: record.selected_version,
                manifest_content_hash: record.content_hash,
                duration_ms,
                manual_override: record.manual_override,
            };
            list.push(entry);
            proof {
                let next = kept.push(takes@[i as int]);
                assert(trainable_prefix(takes@, i + 1) == Some(next));
            }
        }
        i = i + 1;
    }
    Ok(list)
}

/// A dataset that training reads from: a profile's details, its usable takes and
/// the counts over its takes.
pub trait VoiceDatasetSource {
    fn profile_metadata(&self) -> Result<VoiceProfileMetadata, DatasetError>;

    fn accepted_takes(&self) -> Result<Vec<AcceptedDatasetTake>, DatasetError>;

    fn dataset_statistics(&self) -> Result<DatasetStatistics, DatasetError>;
}

/// A training source read from a profile's manifest, with the profile's folder.
#[derive(Debug)]
pub struct ManifestDatasetSource {
    profile_root: String,
    manifest: VoiceDatasetManifestV1,
}

impl ManifestDatasetSource {
    #[verifier::type_invariant]
    spec fn usable(self) -> bool {
        durations_computable(self.manifest.takes@)
    }

    /// The profile's folder.
    pub closed spec fn root_path(&self) -> Seq<char> {
        self.profile_root@
    }

    /// The manifest the source reads.
    pub closed spec fn manifest_value(&self) -> VoiceDatasetManifestV1 {
        self.manifest
    }

    /// A source over `manifest`, stored in the folder `profile_root`.
    pub fn new(profile_root: &str, manifest: VoiceDatasetManifestV1) -> (source: Self)
        requires
            durations_computable(manifest.takes@),
        ensures
            source.root_path() == profile_root@,
            source.manifest_value() == manifest,
    {
        proof {
            reveal_strlit("");
        }
        let root = concat(profile_root, "");
        assert(root@ =~= profile_root@);
        ManifestDatasetSource { profile_root: root, manifest }
    }


    pub fn manifest(&self) -> (manifest: &VoiceDatasetManifestV1)
        ensures
            *manifest == self.manifest_value(),
    {
        &self.manifest
    }

    pub fn profile_root(&self) -> (root: &str)
        ensures
            root@ == self.root_path(),
    {
        self.profile_root.as_str()
    }

    pub fn consent(&self) -> (consent: &ConsentMetadata)
        ensures
            *consent == self.manifest_value().consent,
    {
        &self.manifest.consent
    }

    pub fn recording_format(&self) -> (format: &DatasetRecordingFormat)
        ensures
            *format == self.manifest_value().recording_format,
    {
        &self.manifest.recording_format
    }
}

impl VoiceDatasetSource for ManifestDatasetSource {
    /// The manifest's profile details.
    fn profile_metadata(&self) -> (result: Result<VoiceProfileMetadata, DatasetError>)
        ensures
            result matches Ok(p) && p == self.manifest_value().profile,
    {
        Ok(clone_profile(&self.manifest.profile))
    }

    /// The usable accepted takes, in manifest order, with their files below the
    /// profile's folder; the path error when a take names a file outside it.
    fn accepted_takes(&self) -> (result: Result<Vec<AcceptedDatasetTake>, DatasetError>)
        ensures
            match trainable_prefix(
                    self.manifest_value().takes@,
                    self.manifest_value().takes@.len() as int,
                ) {
                    None => result matches Err(e) && e@ == path_error(),
                    Some(kept) => result matches Ok(list) && list@.len() == kept.len() && forall|
                        k: int,
                    |
                        0 <= k < kept.len() ==> describes(
                            self.root_path(),
                            #[trigger] list@[k],
                            kept[k],
                        ),
                },
    {
        proof {
            use_type_invariant(self);
        }
        accepted_takes(self.profile_root.as_str(), self.manifest.takes.as_slice())
    }

    /// The manifest's stored counts.
    fn dataset_statistics(&self) -> (result: Result<DatasetStatistics, DatasetError>)
        ensures
            result matches Ok(s) && s.total_takes == self.manifest_value().statistics.total_takes
                && s.accepted_takes == self.manifest_value().statistics.accepted_takes
                && s.rejected_takes == self.manifest_value().statistics.rejected_takes
                && s.pending_takes == self.manifest_value().statistics.pending_takes
                && s.warning_takes == self.manifest_value().statistics.warning_takes
                && s.failed_takes == self.manifest_value().statistics.failed_takes
                && s.accepted_duration_ms == self.manifest_value().statistics.accepted_duration_ms
                && s.completed_prompts == self.manifest_value().statistics.completed_prompts
                && s.total_prompts == self.manifest_value().statistics.total_prompts
                && s.category_coverage@ == self.manifest_value().statistics.category_coverage@
                && s.custom_takes == self.manifest_value().statistics.custom_takes
                && s.excluded_takes == self.manifest_value().statistics.excluded_takes,
    {
        Ok(self.manifest.statistics.clone_statistics())
    }
}

} // verus!
