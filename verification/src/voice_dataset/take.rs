use vstd::prelude::*;

use crate::voice_dataset::error::{plain_error, DatasetError, DatasetErrorCode, DatasetErrorView};
use crate::voice_dataset::prompts::PromptCategory;
use crate::voice_dataset::quality::QualityClassification;
use crate::text::{str_equal, to_chars};

verus! {

/// Where a take came from.
#[derive(Clone, Copy, Debug, PartialEq, Eq, Structural)]
pub enum TakeSource {
    Recorded,
    Imported,
    RecordedConsent,
}

/// The review state of a take.
#[derive(Clone, Copy, Debug, PartialEq, Eq, Structural)]
pub enum TakeReviewStatus {
    Pending,
    Accepted,
    Rejected,
    NeedsRedo,
    Deleting,
}

/// Which file of a take is used: the raw recording or its trimmed copy.
#[derive(Clone, Copy, Debug, PartialEq, Eq, Structural)]
pub enum SelectedTakeVersion {
    Raw,
    Trimmed,
}

/// A review decision on a take.
#[derive(Clone, Debug)]
pub struct TakeReviewUpdate {
    pub status: TakeReviewStatus,
    pub exclude_from_training: bool,
    pub notes: Option<String>,
    pub warning_acknowledged: bool,
    pub selected_version: SelectedTakeVersion,
}

/// The format an imported file had before it was converted.
#[derive(Clone, Debug)]
pub struct OriginalFormatMetadata {
    pub sample_rate: u32,
    pub channels: u16,
    pub bits_per_sample: u16,
    pub sample_format: String,
}

/// The frames of the raw take that its trimmed copy keeps, and the verdict on the
/// trimmed copy.
#[derive(Clone, Copy, Debug, PartialEq, Eq, Structural)]
pub struct TrimFrames {
    pub start_frame: u64,
    pub end_frame: u64,
    pub derived_quality: QualityClassification,
}

/// What the dataset rules read of a take: its identity, files, format, review state
/// and verdict. (Waveforms and signal measurements are not part of it.)
#[derive(Clone, Debug)]
pub struct TakeRecord {
    pub id: String,
    pub prompt_id: Option<String>,
    pub prompt_text: Option<String>,
    pub prompt_category: Option<PromptCategory>,
    pub source: TakeSource,
    pub raw_file: String,
    pub derived_file: Option<String>,
    pub selected_version: SelectedTakeVersion,
    pub sample_rate: u32,
    pub channels: u16,
    pub frame_count: u64,
    pub duration_ms: u64,
    pub quality: QualityClassification,
    pub trim: Option<TrimFrames>,
    pub review_status: TakeReviewStatus,
    pub exclude_from_training: bool,
    pub notes: Option<String>,
    pub manual_override: bool,
    pub warning_acknowledged: bool,
    pub content_hash: String,
}

fn clone_text(s: &String) -> (copy: String)
    ensures
        copy == *s,
{
    s.clone()
}

fn clone_optional_text(s: &Option<String>) -> (copy: Option<String>)
    ensures
        copy == *s,
{
    match s {
        Some(s) => Some(s.clone()),
        None => None,
    }
}

impl TakeRecord {
    /// An equal copy of the record.
    pub fn clone_record(&self) -> (copy: Self)
        ensures
            copy == *self,
    {
        TakeRecord {
            id: clone_text(&self.id),
            prompt_id: clone_optional_text(&self.prompt_id),
            prompt_text: clone_optional_text(&self.prompt_text),
            prompt_category: self.prompt_category,
            source: self.source,
            raw_file: clone_text(&self.raw_file),
            derived_file: clone_optional_text(&self.derived_file),
            selected_version: self.selected_version,
            sample_rate: self.sample_rate,
            channels: self.channels,
            frame_count: self.frame_count,
            duration_ms: self.duration_ms,
            quality: self.quality,
            trim: self.trim,
            review_status: self.review_status,
            exclude_from_training: self.exclude_from_training,
            notes: clone_optional_text(&self.notes),
            manual_override: self.manual_override,
            warning_acknowledged: self.warning_acknowledged,
            content_hash: clone_text(&self.content_hash),
        }
    }
}

/// How many accepted takes a prompt category has.
#[derive(Clone, Copy, Debug, PartialEq, Eq, Structural)]
pub struct CategoryCount {
    pub category: PromptCategory,
    pub takes: u32,
}

/// Counts over the takes of a dataset.
#[derive(Clone, Debug)]
pub struct DatasetStatistics {
    pub total_takes: u32,
    pub accepted_takes: u32,
    pub rejected_takes: u32,
    pub pending_takes: u32,
    pub warning_takes: u32,
    pub failed_takes: u32,
    pub accepted_duration_ms: u64,
    pub completed_prompts: u32,
    pub total_prompts: u32,
    /// One entry for each category with at least one accepted take.
    pub category_coverage: Vec<CategoryCount>,
    pub custom_takes: u32,
    pub excluded_takes: u32,
}

impl Default for DatasetStatistics {
    fn default() -> (statistics: Self)
        ensures
            statistics.total_takes == 0,
            statistics.accepted_takes == 0,
            statistics.rejected_takes == 0,
            statistics.pending_takes == 0,
            statistics.warning_takes == 0,
            statistics.failed_takes == 0,
            statistics.accepted_duration_ms == 0,
            statistics.completed_prompts == 0,
            statistics.total_prompts == 0,
            statistics.category_coverage@.len() == 0,
            statistics.custom_takes == 0,
            statistics.excluded_takes == 0,
    {
        DatasetStatistics {
            total_takes: 0,
            accepted_takes: 0,
            rejected_takes: 0,
            pending_takes: 0,
            warning_takes: 0,
            failed_takes: 0,
            accepted_duration_ms: 0,
            completed_prompts: 0,
            total_prompts: 0,
            category_coverage: Vec::new(),
            custom_takes: 0,
            excluded_takes: 0,
        }
    }
}

impl DatasetStatistics {
    /// An equal copy of the counts.
    pub fn clone_statistics(&self) -> (copy: Self)
        ensures
            copy.total_takes == self.total_takes,
            copy.accepted_takes == self.accepted_takes,
            copy.rejected_takes == self.rejected_takes,
            copy.pending_takes == self.pending_takes,
            copy.warning_takes == self.warning_takes,
            copy.failed_takes == self.failed_takes,
            copy.accepted_duration_ms == self.accepted_duration_ms,
            copy.completed_prompts == self.completed_prompts,
            copy.total_prompts == self.total_prompts,
            copy.category_coverage@ == self.category_coverage@,
            copy.custom_takes == self.custom_takes,
            copy.excluded_takes == self.excluded_takes,
    {
        DatasetStatistics {
            total_takes: self.total_takes,
            accepted_takes: self.accepted_takes,
            rejected_takes: self.rejected_takes,
            pending_takes: self.pending_takes,
            warning_takes: self.warning_takes,
            failed_takes: self.failed_takes,
            accepted_duration_ms: self.accepted_duration_ms,
            completed_prompts: self.completed_prompts,
            total_prompts: self.total_prompts,
            category_coverage: crate::device::copy_values(&self.category_coverage),
            custom_takes: self.custom_takes,
            excluded_takes: self.excluded_takes,
        }
    }
}

// ---------------------------------------------------------------------------
// Managed relative paths.
// ---------------------------------------------------------------------------
/// An ASCII letter.
pub open spec fn ascii_letter(c: char) -> bool {
    ('a' <= c && c <= 'z') || ('A' <= c && c <= 'Z')
}

/// A `..` path segment starts at `i`.
pub open spec fn parent_segment_at(s: Seq<char>, i: int) -> bool {
    &&& 0 <= i
    &&& i + 2 <= s.len()
    &&& s[i] == '.'
    &&& s[i + 1] == '.'
    &&& (i == 0 || s[i - 1] == '/')
    &&& (i + 2 == s.len() || s[i + 2] == '/')
}

/// A path that a manifest may hold: a non-empty path relative to the profile folder,
/// written with `/`, that neither starts at a root or a drive, nor starts with `.`,
/// nor climbs out with `..`.
pub open spec fn managed_relative_path(s: Seq<char>) -> bool {
    &&& s.len() > 0
    &&& forall|i: int| 0 <= i < s.len() ==> s[i] != '\\'
    &&& s[0] != '/'
    &&& !(s.len() >= 2 && s[1] == ':' && ascii_letter(s[0]))
    &&& !(s[0] == '.' && (s.len() == 1 || s[1] == '/'))
    &&& forall|i: int| !parent_segment_at(s, i)
}

/// The error for a path that is not a managed relative path.
pub open spec fn path_error() -> DatasetErrorView {
    plain_error(
        DatasetErrorCode::PathValidationFailed,
        "Dataset manifests may contain only normalized relative managed paths."@,
    )
}

fn is_ascii_letter(c: char) -> (b: bool)
    ensures
        b == ascii_letter(c),
{
    ('a' <= c && c <= 'z') || ('A' <= c && c <= 'Z')
}

/// Accepts only managed relative paths.
pub fn validate_relative_path(path: &str) -> (result: Result<(), DatasetError>)
    ensures
        result is Ok <==> managed_relative_path(path@),
        result matches Err(e) ==> e@ == path_error(),
{
    let s = to_chars(path);
    let n = s.len();
    let mut valid = n > 0;
    if valid {
        valid = s[0] != '/' && !(n >= 2 && s[1] == ':' && is_ascii_letter(s[0])) && !(s[0] == '.'
            && (n == 1 || s[1] == '/'));
    }
    let mut i: usize = 0;
    while valid && i < n
        invariant
            s@ == path@,
            n == s@.len(),
            i <= n,
            valid ==> n > 0,
            valid ==> s@[0] != '/',
            valid ==> !(n >= 2 && s@[1] == ':' && ascii_letter(s@[0])),
            valid ==> !(s@[0] == '.' && (n == 1 || s@[1] == '/')),
            valid ==> forall|k: int| 0 <= k < i ==> s@[k] != '\\',
            valid ==> forall|k: int| 0 <= k < i ==> !parent_segment_at(s@, k),
            !valid ==> !managed_relative_path(path@),
        decreases n - i,
    {
        if s[i] == '\\' {
            valid = false;
        } else if i + 1 < n && s[i] == '.' && s[i + 1] == '.' && (i == 0 || s[i - 1] == '/') && (i
            + 2 == n || s[i + 2] == '/') {
            assert(parent_segment_at(s@, i as int));
            valid = false;
        } else {
            assert(!parent_segment_at(s@, i as int));
        }
        i = i + 1;
    }
    if valid {
        assert forall|k: int| !parent_segment_at(s@, k) by {
            if 0 <= k < n {
            }
        }
        Ok(())
    } else {
        Err(
            DatasetError::new(
                DatasetErrorCode::PathValidationFailed,
                "Dataset manifests may contain only normalized relative managed paths.",
            ),
        )
    }
}

// ---------------------------------------------------------------------------
// Take validation.
// ---------------------------------------------------------------------------
/// The canonical dataset format: mono, 48 kHz, at least one frame.
pub open spec fn canonical_format(t: TakeRecord) -> bool {
    t.channels == 1 && t.sample_rate == 48_000 && t.frame_count != 0
}

/// The outcome of checking one take of a manifest.
pub open spec fn take_check(t: TakeRecord) -> Result<(), DatasetErrorView> {
    if !managed_relative_path(t.raw_file@) {
        Err(path_error())
    } else if t.derived_file matches Some(d) && !managed_relative_path(d@) {
        Err(path_error())
    } else if t.selected_version == SelectedTakeVersion::Trimmed && t.derived_file is None {
        Err(
            plain_error(
                DatasetErrorCode::CorruptManifest,
                "A take selects a missing trimmed file."@,
            ),
        )
    } else if !canonical_format(t) {
        Err(
            plain_error(
                DatasetErrorCode::CorruptManifest,
                "A take does not use the canonical dataset format."@,
            ),
        )
    } else {
        Ok(())
    }
}

/// The view of a result that carries no value.
pub open spec fn unit_result_view(r: Result<(), DatasetError>) -> Result<(), DatasetErrorView> {
    match r {
        Ok(()) => Ok(()),
        Err(e) => Err(e@),
    }
}

/// Checks that a take's files are managed relative paths, that a selected trimmed
/// copy exists, and that the take uses the canonical format.
pub fn validate_take(take: &TakeRecord) -> (result: Result<(), DatasetError>)
    ensures
        unit_result_view(result) == take_check(*take),
{
    validate_relative_path(take.raw_file.as_str())?;
    if let Some(path) = &take.derived_file {
        validate_relative_path(path.as_str())?;
    }
    if take.selected_version == SelectedTakeVersion::Trimmed && take.derived_file.is_none() {
        return Err(
            DatasetError::new(
                DatasetErrorCode::CorruptManifest,
                "A take selects a missing trimmed file.",
            ),
        );
    }
    if take.channels != 1 || take.sample_rate != 48_000 || take.frame_count == 0 {
        return Err(
            DatasetError::new(
                DatasetErrorCode::CorruptManifest,
                "A take does not use the canonical dataset format.",
            ),
        );
    }
    Ok(())
}

// ---------------------------------------------------------------------------
// Statistics.
// ---------------------------------------------------------------------------
/// A property of a take that the statistics count.
pub enum TakeProperty {
    Accepted,
    Rejected,
    Pending,
    Warning,
    Failed,
    Custom,
    Excluded,
    AcceptedIn(PromptCategory),
}

/// Whether a take has a counted property.
pub open spec fn has_property(t: TakeRecord, p: TakeProperty) -> bool {
    match p {
        TakeProperty::Accepted => t.review_status == TakeReviewStatus::Accepted,
        TakeProperty::Rejected => t.review_status == TakeReviewStatus::Rejected || t.review_status
            == TakeReviewStatus::NeedsRedo,
        TakeProperty::Pending => t.review_status == TakeReviewStatus::Pending || t.review_status
            == TakeReviewStatus::Deleting,
        TakeProperty::Warning => t.quality == QualityClassification::Warning,
        TakeProperty::Failed => t.quality == QualityClassification::Fail,
        TakeProperty::Custom => t.prompt_category == Some(PromptCategory::Custom),
        TakeProperty::Excluded => t.exclude_from_training,
        TakeProperty::AcceptedIn(c) => t.review_status == TakeReviewStatus::Accepted
            && t.prompt_category == Some(c),
    }
}

/// The number of takes with a property.
pub open spec fn count_takes(takes: Seq<TakeRecord>, p: TakeProperty) -> nat
    decreases takes.len(),
{
    if takes.len() == 0 {
        0
    } else {
        count_takes(takes.drop_last(), p) + if has_property(takes.last(), p) {
            1nat
        } else {
            0nat
        }
    }
}

/// The length of the part of a take that is used, in milliseconds.
pub open spec fn selected_duration(t: TakeRecord) -> nat {
    if t.selected_version == SelectedTakeVersion::Trimmed {
        match t.trim {
            Some(r) => (if r.end_frame >= r.start_frame {
                (r.end_frame - r.start_frame) as nat
            } else {
                0nat
            } * 1000) / (t.sample_rate as nat),
            None => t.duration_ms as nat,
        }
    } else {
        t.duration_ms as nat
    }
}

/// A take counts toward the training duration.
pub open spec fn counts_toward_duration(t: TakeRecord) -> bool {
    t.review_status == TakeReviewStatus::Accepted && !t.exclude_from_training
}

/// The duration of a take can be worked out without a division by zero or an
/// overflow.
pub open spec fn duration_computable(t: TakeRecord) -> bool {
    t.selected_version == SelectedTakeVersion::Trimmed && t.trim is Some ==> {
        &&& t.sample_rate > 0
        &&& (if t.trim->0.end_frame >= t.trim->0.start_frame {
            t.trim->0.end_frame - t.trim->0.start_frame
        } else {
            0
        }) * 1000 <= u64::MAX
    }
}

/// The total used duration of the accepted takes that are not excluded.
pub open spec fn accepted_duration(takes: Seq<TakeRecord>) -> nat
    decreases takes.len(),
{
    if takes.len() == 0 {
        0
    } else {
        accepted_duration(takes.drop_last()) + if counts_toward_duration(takes.last()) {
            selected_duration(takes.last())
        } else {
            0nat
        }
    }
}

/// An accepted take of the prompt `id`.
pub open spec fn accepted_for_prompt(t: TakeRecord, id: Seq<char>) -> bool {
    &&& t.review_status == TakeReviewStatus::Accepted
    &&& t.prompt_id matches Some(p) && p@ == id
}

/// The characters of each string.
pub open spec fn string_views(v: Seq<String>) -> Seq<Seq<char>> {
    v.map_values(|p: String| p@)
}

/// The prompts that have an accepted take.
pub open spec fn completed_prompt_ids(takes: Seq<TakeRecord>) -> Set<Seq<char>> {
    Set::new(
        |id: Seq<char>|
            exists|i: int| 0 <= i < takes.len() && accepted_for_prompt(#[trigger] takes[i], id),
    )
}

/// Statistics match the takes they were built from.
pub open spec fn statistics_of(
    s: DatasetStatistics,
    takes: Seq<TakeRecord>,
    total_prompts: usize,
) -> bool {
    &&& s.total_takes == takes.len()
    &&& s.total_prompts == total_prompts as u32
    &&& s.accepted_takes == count_takes(takes, TakeProperty::Accepted)
    &&& s.rejected_takes == count_takes(takes, TakeProperty::Rejected)
    &&& s.pending_takes == count_takes(takes, TakeProperty::Pending)
    &&& s.warning_takes == count_takes(takes, TakeProperty::Warning)
    &&& s.failed_takes == count_takes(takes, TakeProperty::Failed)
    &&& s.custom_takes == count_takes(takes, TakeProperty::Custom)
    &&& s.excluded_takes == count_takes(takes, TakeProperty::Excluded)
    &&& s.accepted_duration_ms == accepted_duration(takes)
    &&& completed_prompt_ids(takes).finite()
    &&& s.completed_prompts == completed_prompt_ids(takes).len()
    &&& coverage_of(s.category_coverage@, takes)
}

/// Category counts match the takes: each listed category appears once with its count
/// of accepted takes, and every category with an accepted take is listed.
pub open spec fn coverage_of(coverage: Seq<CategoryCount>, takes: Seq<TakeRecord>) -> bool {
    &&& forall|k: int|
        0 <= k < coverage.len() ==> (#[trigger] coverage[k]).takes == count_takes(
            takes,
            TakeProperty::AcceptedIn(coverage[k].category),
        ) && coverage[k].takes > 0
    &&& forall|k: int, l: int|
        0 <= k < l < coverage.len() ==> (#[trigger] coverage[k]).category != (#[trigger] coverage[l]).category
    &&& forall|c: PromptCategory|
        #![trigger count_takes(takes, TakeProperty::AcceptedIn(c))]
        count_takes(takes, TakeProperty::AcceptedIn(c)) > 0 ==> exists|k: int|
            0 <= k < coverage.len() && (#[trigger] coverage[k]).category == c
}

/// A count over takes is at most their number.
pub proof fn lemma_count_bounded(takes: Seq<TakeRecord>, p: TakeProperty)
    ensures
        count_takes(takes, p) <= takes.len(),
    decreases takes.len(),
{
    if takes.len() > 0 {
        lemma_count_bounded(takes.drop_last(), p);
    }
}

/// The duration of a prefix of the takes is at most that of all of them.
pub proof fn lemma_duration_prefix(takes: Seq<TakeRecord>, i: int)
    requires
        0 <= i <= takes.len(),
    ensures
        accepted_duration(takes.take(i)) <= accepted_duration(takes),
    decreases takes.len(),
{
    if i < takes.len() {
        assert(takes.drop_last().take(i) =~= takes.take(i));
        lemma_duration_prefix(takes.drop_last(), i);
    } else {
        assert(takes.take(i) =~= takes);
    }
}

fn selected_duration_ms(take: &TakeRecord) -> (ms: u64)
    requires
        duration_computable(*take),
    ensures
        ms == selected_duration(*take),
{
    if take.selected_version == SelectedTakeVersion::Trimmed {
        match &take.trim {
            Some(trim) => (trim.end_frame.saturating_sub(trim.start_frame) * 1_000) / (
            take.sample_rate as u64),
            None => take.duration_ms,
        }
    } else {
        take.duration_ms
    }
}

/// Counts the takes of a dataset: how many there are, how they were reviewed and
/// classified, how long the accepted ones last, which prompts and categories they
/// cover.
pub fn rebuild_statistics(takes: &[TakeRecord], total_prompts: usize) -> (statistics:
    DatasetStatistics)
    requires
        takes@.len() <= u32::MAX,
        forall|i: int|
            0 <= i < takes@.len() && counts_toward_duration(#[trigger] takes@[i]) ==> duration_computable(
                takes@[i],
            ),
        accepted_duration(takes@) <= u64::MAX,
    ensures
        statistics_of(statistics, takes@, total_prompts),
{
    let mut statistics = DatasetStatistics::default();
    statistics.total_takes = takes.len() as u32;
    statistics.total_prompts = total_prompts as u32;
    let mut prompts: Vec<String> = Vec::new();
    let mut i: usize = 0;
    assert(takes@.take(0) =~= Seq::<TakeRecord>::empty());
    assert(completed_prompt_ids(takes@.take(0)) =~= Set::<Seq<char>>::empty());
    while i < takes.len()
        invariant
            i <= takes@.len(),
            takes@.len() <= u32::MAX,
            forall|j: int|
                0 <= j < takes@.len() && counts_toward_duration(#[trigger] takes@[j])
                    ==> duration_computable(takes@[j]),
            accepted_duration(takes@) <= u64::MAX,
            statistics.total_takes == takes@.len(),
            statistics.total_prompts == total_prompts as u32,
            statistics.accepted_takes == count_takes(takes@.take(i as int), TakeProperty::Accepted),
            statistics.rejected_takes == count_takes(takes@.take(i as int), TakeProperty::Rejected),
            statistics.pending_takes == count_takes(takes@.take(i as int), TakeProperty::Pending),
            statistics.warning_takes == count_takes(takes@.take(i as int), TakeProperty::Warning),
            statistics.failed_takes == count_takes(takes@.take(i as int), TakeProperty::Failed),
            statistics.custom_takes == count_takes(takes@.take(i as int), TakeProperty::Custom),
            statistics.excluded_takes == count_takes(takes@.take(i as int), TakeProperty::Excluded),
            statistics.accepted_duration_ms == accepted_duration(takes@.take(i as int)),
            coverage_of(statistics.category_coverage@, takes@.take(i as int)),
            prompts@.len() <= i,
            forall|k: int, l: int|
                0 <= k < l < prompts@.len() ==> (#[trigger] prompts@[k])@ != (#[trigger] prompts@[l])@,
            string_views(prompts@).to_set() == completed_prompt_ids(
                takes@.take(i as int),
            ),
        decreases takes@.len() - i,
    {
        let take = &takes[i];
        let ghost before = takes@.take(i as int);
        let ghost after = takes@.take(i + 1);
        proof {
            assert(after.drop_last() =~= before);
            assert(after.last() == takes@[i as int]);
            lemma_count_bounded(before, TakeProperty::Accepted);
            lemma_count_bounded(before, TakeProperty::Rejected);
            lemma_count_bounded(before, TakeProperty::Pending);
            lemma_count_bounded(before, TakeProperty::Warning);
            lemma_count_bounded(before, TakeProperty::Failed);
            lemma_count_bounded(before, TakeProperty::Custom);
            lemma_count_bounded(before, TakeProperty::Excluded);
            lemma_duration_prefix(takes@, i + 1);
        }
        match take.review_status {
            TakeReviewStatus::Accepted => {
                statistics.accepted_takes = statistics.accepted_takes + 1;
                if !take.exclude_from_training {
                    let d = selected_duration_ms(take);
                    statistics.accepted_duration_ms = statistics.accepted_duration_ms + d;
                }
            },
            TakeReviewStatus::Rejected | TakeReviewStatus::NeedsRedo => {
                statistics.rejected_takes = statistics.rejected_takes + 1;
            },
            TakeReviewStatus::Pending | TakeReviewStatus::Deleting => {
                statistics.pending_takes = statistics.pending_takes + 1;
            },
        }
        match take.quality {
            QualityClassification::Warning => {
                statistics.warning_takes = statistics.warning_takes + 1;
            },
            QualityClassification::Fail => {
                statistics.failed_takes = statistics.failed_takes + 1;
            },
            QualityClassification::Pass => {},
        }
        let ghost old_prompts = prompts@;
        if let Some(prompt_id) = &take.prompt_id {
            if take.review_status == TakeReviewStatus::Accepted {
                let mut k: usize = 0;
                let mut found = false;
                while k < prompts.len() && !found
                    invariant
                        k <= prompts@.len(),
                        found ==> exists|m: int|
                            0 <= m < prompts@.len() && (#[trigger] prompts@[m])@ == prompt_id@,
                        !found ==> forall|m: int|
                            0 <= m < k ==> (#[trigger] prompts@[m])@ != prompt_id@,
                    decreases prompts@.len() - k + if found {
                        0int
                    } else {
                        1int
                    },
                {
                    if str_equal(prompts[k].as_str(), prompt_id.as_str()) {
                        found = true;
                    } else {
                        k = k + 1;
                    }
                }
                if !found {
                    prompts.push(prompt_id.clone());
                    proof {
                        assert(string_views(prompts@)[old_prompts.len() as int] == prompt_id@);
                        assert forall|a: int, b: int|
                            0 <= a < b < prompts@.len() implies (#[trigger] prompts@[a])@ != (
                            #[trigger] prompts@[b])@ by {
                            if b < old_prompts.len() {
                                assert(prompts@[a] == old_prompts[a]);
                                assert(prompts@[b] == old_prompts[b]);
                            } else {
                                assert(prompts@[a] == old_prompts[a]);
                            }
                        }
                    }
                } else {
                    proof {
                        let m = choose|m: int|
                            0 <= m < prompts@.len() && (#[trigger] prompts@[m])@ == prompt_id@;
                        assert(string_views(prompts@)[m] == prompt_id@);
                    }
                }
                assert(string_views(prompts@).to_set().contains(prompt_id@));
            }
        }
        proof {
            let old_set = string_views(old_prompts).to_set();
            let new_set = string_views(prompts@).to_set();
            assert(prompts@.len() <= old_prompts.len() + 1);
            assert(forall|m: int| 0 <= m < old_prompts.len() ==> prompts@[m] == old_prompts[m]);
            assert(prompts@.len() == old_prompts.len() + 1 ==> accepted_for_prompt(
                takes@[i as int],
                prompts@[old_prompts.len() as int]@,
            ));
            assert(new_set =~= completed_prompt_ids(after)) by {
                assert forall|id: Seq<char>| new_set.contains(id) implies completed_prompt_ids(
                    after,
                ).contains(id) by {
                    let m = choose|m: int|
                        0 <= m < prompts@.len() && #[trigger] string_views(prompts@)[m] == id;
                    if m < old_prompts.len() {
                        assert(string_views(old_prompts)[m] == id);
                        assert(old_set.contains(id));
                        let j = choose|j: int|
                            0 <= j < before.len() && accepted_for_prompt(#[trigger] before[j], id);
                        assert(after[j] == before[j]);
                    } else {
                        assert(after[i as int] == takes@[i as int]);
                    }
                }
                assert forall|id: Seq<char>| completed_prompt_ids(after).contains(id) implies new_set.contains(
                    id,
                ) by {
                    let j = choose|j: int|
                        0 <= j < after.len() && accepted_for_prompt(#[trigger] after[j], id);
                    if j < i {
                        assert(before[j] == after[j]);
                        assert(completed_prompt_ids(before).contains(id));
                        assert(old_set.contains(id));
                        let m = choose|m: int|
                            0 <= m < old_prompts.len() && #[trigger] string_views(old_prompts)[m]
                                == id;
                        assert(prompts@[m] == old_prompts[m]);
                        assert(string_views(prompts@)[m] == id);
                    } else {
                        assert(after[j] == takes@[i as int]);
                    }
                }
            }
        }
        if let Some(category) = take.prompt_category {
            if take.review_status == TakeReviewStatus::Accepted {
                record_category(&mut statistics.category_coverage, category, Ghost(before), Ghost(after));
            } else {
                proof {
                    lemma_coverage_unchanged(statistics.category_coverage@, before, after);
                }
            }
            if category == PromptCategory::Custom {
                statistics.custom_takes = statistics.custom_takes + 1;
            }
        } else {
            proof {
                lemma_coverage_unchanged(statistics.category_coverage@, before, after);
            }
        }
        if take.exclude_from_training {
            statistics.excluded_takes = statistics.excluded_takes + 1;
        }
        i = i + 1;
    }
    assert(takes@.take(i as int) =~= takes@);
    proof {
        let ids = string_views(prompts@);
        assert(ids.no_duplicates()) by {
            assert forall|k: int, l: int| 0 <= k < ids.len() && 0 <= l < ids.len() && k != l implies ids[k]
                != ids[l] by {
                if k < l {
                    assert(prompts@[k]@ != prompts@[l]@);
                } else {
                    assert(prompts@[l]@ != prompts@[k]@);
                }
            }
        }
        ids.unique_seq_to_set();
        vstd::seq_lib::seq_to_set_is_finite(ids);
    }
    statistics.completed_prompts = prompts.len() as u32;
    statistics
}

/// A take that is not an accepted take of a category leaves the coverage as it was.
proof fn lemma_coverage_unchanged(
    coverage: Seq<CategoryCount>,
    before: Seq<TakeRecord>,
    after: Seq<TakeRecord>,
)
    requires
        coverage_of(coverage, before),
        after.len() == before.len() + 1,
        after.drop_last() == before,
        forall|c: PromptCategory| !has_property(after.last(), TakeProperty::AcceptedIn(c)),
    ensures
        coverage_of(coverage, after),
{
    assert forall|c: PromptCategory|
        count_takes(after, TakeProperty::AcceptedIn(c)) == count_takes(
            before,
            TakeProperty::AcceptedIn(c),
        ) by {
        assert(!has_property(after.last(), TakeProperty::AcceptedIn(c)));
    }
}

/// Counts one more accepted take of `category`.
#[verifier::loop_isolation(false)]
fn record_category(
    coverage: &mut Vec<CategoryCount>,
    category: PromptCategory,
    before: Ghost<Seq<TakeRecord>>,
    after: Ghost<Seq<TakeRecord>>,
)
    requires
        coverage_of(old(coverage)@, before@),
        after@.len() == before@.len() + 1,
        after@.len() <= u32::MAX,
        after@.drop_last() == before@,
        has_property(after@.last(), TakeProperty::AcceptedIn(category)),
    ensures
        coverage_of(final(coverage)@, after@),
{
    proof {
        assert forall|c: PromptCategory|
            count_takes(after@, TakeProperty::AcceptedIn(c)) == count_takes(
                before@,
                TakeProperty::AcceptedIn(c),
            ) + if c == category {
                1nat
            } else {
                0nat
            } by {
            if c != category {
                assert(!has_property(after@.last(), TakeProperty::AcceptedIn(c)));
            }
        }
        lemma_count_bounded(before@, TakeProperty::AcceptedIn(category));
    }
    let mut k: usize = 0;
    while k < coverage.len()
        invariant
            k <= coverage@.len(),
            coverage@ == old(coverage)@,
            forall|m: int| 0 <= m < k ==> (#[trigger] coverage@[m]).category != category,
        decreases coverage@.len() - k,
    {
        if coverage[k].category == category {
            let entry = CategoryCount { category, takes: coverage[k].takes + 1 };
            coverage.set(k, entry);
            proof {
                assert forall|c: PromptCategory|
                    #![trigger count_takes(after@, TakeProperty::AcceptedIn(c))]
                    count_takes(after@, TakeProperty::AcceptedIn(c)) > 0 implies exists|m: int|
                        0 <= m < coverage@.len() && (#[trigger] coverage@[m]).category == c by {
                    if c != category {
                        let m = choose|m: int|
                            0 <= m < old(coverage)@.len() && (#[trigger] old(
                                coverage,
                            )@[m]).category == c;
                        assert(coverage@[m].category == c);
                    } else {
                        assert(coverage@[k as int].category == c);
                    }
                }
            }
            return;
        }
        k = k + 1;
    }
    coverage.push(CategoryCount { category, takes: 1 });
    proof {
        let n = old(coverage)@.len();
        assert(coverage@[n as int].category == category);
        assert forall|c: PromptCategory|
            #![trigger count_takes(after@, TakeProperty::AcceptedIn(c))]
            count_takes(after@, TakeProperty::AcceptedIn(c)) > 0 implies exists|m: int|
                0 <= m < coverage@.len() && (#[trigger] coverage@[m]).category == c by {
            if c != category {
                let m = choose|m: int|
                    0 <= m < old(coverage)@.len() && (#[trigger] old(coverage)@[m]).category == c;
                assert(coverage@[m].category == c);
            } else {
                assert(coverage@[n as int].category == c);
            }
        }
        assert(count_takes(before@, TakeProperty::AcceptedIn(category)) == 0) by {
            if count_takes(before@, TakeProperty::AcceptedIn(category)) > 0 {
                let m = choose|m: int|
                    0 <= m < old(coverage)@.len() && (#[trigger] old(coverage)@[m]).category
                        == category;
                assert(old(coverage)@[m].category != category);
            }
        }
    }
}


/// The training duration adds up the used length of the accepted takes that are not
/// excluded from training: adding a take excluded from training, or one that is not
/// accepted, leaves it unchanged; adding an accepted take that is not excluded adds that
/// take's used length. So the duration does not depend on the order of the takes either
/// way a take is added, and an excluded take never counts.
pub proof fn lemma_training_duration_counts_only_included_takes(takes: Seq<TakeRecord>, t: TakeRecord)
    ensures
        t.exclude_from_training ==> accepted_duration(takes.push(t)) == accepted_duration(takes),
        t.review_status != TakeReviewStatus::Accepted ==> accepted_duration(takes.push(t))
            == accepted_duration(takes),
        t.review_status == TakeReviewStatus::Accepted && !t.exclude_from_training ==> accepted_duration(
            takes.push(t),
        ) == accepted_duration(takes) + selected_duration(t),
        t.review_status == TakeReviewStatus::Accepted && !t.exclude_from_training
            && t.selected_version == SelectedTakeVersion::Raw ==> accepted_duration(takes.push(t))
            == accepted_duration(takes) + t.duration_ms,
{
    assert(takes.push(t).drop_last() =~= takes);
}

/// A dataset whose takes are all excluded from training, or none accepted, has no
/// training duration.
pub proof fn lemma_no_included_take_means_no_duration(takes: Seq<TakeRecord>)
    requires
        forall|i: int|
            0 <= i < takes.len() ==> (#[trigger] takes[i]).exclude_from_training
                || takes[i].review_status != TakeReviewStatus::Accepted,
    ensures
        accepted_duration(takes) == 0,
    decreases takes.len(),
{
    if takes.len() > 0 {
        let rest = takes.drop_last();
        assert forall|i: int| 0 <= i < rest.len() implies (#[trigger] rest[i]).exclude_from_training
            || rest[i].review_status != TakeReviewStatus::Accepted by {
            assert(rest[i] == takes[i]);
        }
        lemma_no_included_take_means_no_duration(rest);
        assert(takes.last() == takes[takes.len() - 1]);
    }
}

/// Every take is counted in exactly one review tally: accepted, rejected (or to be
/// redone) and pending (or being deleted) add up to all the takes; at most every take
/// has a warning or a failing verdict, and a take counts toward a tally exactly when it
/// has that status.
pub proof fn lemma_review_tallies_partition_the_takes(takes: Seq<TakeRecord>)
    ensures
        count_takes(takes, TakeProperty::Accepted) + count_takes(takes, TakeProperty::Rejected)
            + count_takes(takes, TakeProperty::Pending) == takes.len(),
        count_takes(takes, TakeProperty::Warning) + count_takes(takes, TakeProperty::Failed)
            <= takes.len(),
    decreases takes.len(),
{
    if takes.len() > 0 {
        lemma_review_tallies_partition_the_takes(takes.drop_last());
    }
}

/// Adding a take adds one to the accepted tally exactly when it is accepted, and one to
/// the excluded tally exactly when it is excluded from training; other takes leave them.
pub proof fn lemma_tallies_grow_by_the_added_take(takes: Seq<TakeRecord>, t: TakeRecord)
    ensures
        count_takes(takes.push(t), TakeProperty::Accepted) == count_takes(takes, TakeProperty::Accepted)
            + if t.review_status == TakeReviewStatus::Accepted { 1int } else { 0int },
        count_takes(takes.push(t), TakeProperty::Excluded) == count_takes(takes, TakeProperty::Excluded)
            + if t.exclude_from_training { 1int } else { 0int },
        count_takes(takes.push(t), TakeProperty::Failed) == count_takes(takes, TakeProperty::Failed)
            + if t.quality == QualityClassification::Fail { 1int } else { 0int },
{
    assert(takes.push(t).drop_last() =~= takes);
}
} // verus!
