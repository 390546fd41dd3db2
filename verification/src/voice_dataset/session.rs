use vstd::prelude::*;

use crate::device::{only_hit, unique_hit, has_unique_hit, DeviceInfo, DeviceView};
use crate::external_route::device_views;
use crate::text::{concat, is_control, normalize_name, normalized_name, str_equal, from_chars, to_chars, trim, trim_spec, unicode_control, chars_equal};
use crate::voice_dataset::error::{opt_view, plain_error, DatasetError, DatasetErrorCode, DatasetErrorView};
use crate::voice_dataset::prompts::{
    built_in_english_pack, built_in_prompt_category, built_in_prompt_id, built_in_prompt_text,
    lemma_built_in_prompt_ids_distinct, PromptCategory, VoicePrompt, BUILT_IN_PROMPT_COUNT,
};
use crate::voice_dataset::quality::QualityClassification;
use crate::voice_dataset::storage::raw_file_name;
use crate::voice_dataset::take::{
    SelectedTakeVersion, TakeRecord, TakeReviewStatus, TakeReviewUpdate, TakeSource,
};

verus! {

/// The sample rate of every stored take.
pub const CANONICAL_SAMPLE_RATE: u32 = 48_000;

/// The prompt a speaker chose: a built-in prompt, or text of their own.
#[derive(Clone, Debug)]
pub struct PromptSelection {
    pub prompt_id: Option<String>,
    pub custom_prompt_text: Option<String>,
}

/// A review decision as the user interface submits it.
#[derive(Clone, Debug)]
pub struct ReviewTakeRequest {
    pub status: TakeReviewStatus,
    pub exclude_from_training: bool,
    pub notes: Option<String>,
    pub warning_acknowledged: bool,
    pub selected_version: SelectedTakeVersion,
}

impl ReviewTakeRequest {
    /// The review decision the request carries.
    pub fn into_update(self) -> (update: TakeReviewUpdate)
        ensures
            update.status == self.status,
            update.exclude_from_training == self.exclude_from_training,
            update.notes == self.notes,
            update.warning_acknowledged == self.warning_acknowledged,
            update.selected_version == self.selected_version,
    {
        TakeReviewUpdate {
            status: self.status,
            exclude_from_training: self.exclude_from_training,
            notes: self.notes,
            warning_acknowledged: self.warning_acknowledged,
            selected_version: self.selected_version,
        }
    }
}

/// What an export package holds besides the accepted takes.
#[derive(Clone, Copy, Debug, PartialEq, Eq, Structural)]
pub struct DatasetExportOptions {
    pub include_rejected: bool,
    pub include_raw_masters: bool,
}

/// The state of take playback.
#[derive(Clone, Debug)]
pub struct DatasetPreviewStatus {
    pub active: bool,
    pub paused: bool,
    pub take_id: Option<String>,
    pub version: Option<SelectedTakeVersion>,
    pub position_ms: u64,
    pub duration_ms: u64,
}

impl DatasetPreviewStatus {
    /// The status while nothing plays.
    pub fn idle() -> (status: Self)
        ensures
            !status.active && !status.paused && status.take_id is None && status.version is None
                && status.position_ms == 0 && status.duration_ms == 0,
    {
        DatasetPreviewStatus {
            active: false,
            paused: false,
            take_id: None,
            version: None,
            position_ms: 0,
            duration_ms: 0,
        }
    }
}

// ---------------------------------------------------------------------------
// Prompts.
// ---------------------------------------------------------------------------
/// The error for custom prompt text that is blank, too long or holds control
/// characters.
pub open spec fn custom_prompt_error() -> DatasetErrorView {
    plain_error(
        DatasetErrorCode::InvalidStateTransition,
        "Custom prompt text must contain 1 to 500 visible characters."@,
    )
}

/// Custom prompt text that can be recorded: 1 to 500 characters after trimming, none of
/// them a control character.
pub open spec fn custom_text_valid(text: Seq<char>) -> bool {
    let t = trim_spec(text);
    &&& 1 <= t.len() <= 500
    &&& forall|i: int| 0 <= i < t.len() ==> !unicode_control(#[trigger] t[i])
}

/// The built-in prompt at `i` has the identifier `id`.
pub open spec fn built_in_at(i: int, id: Seq<char>) -> bool {
    0 <= i < BUILT_IN_PROMPT_COUNT && built_in_prompt_id(i) == id
}

/// A prompt is the built-in prompt at `i`.
pub open spec fn is_built_in_prompt(p: VoicePrompt, i: int) -> bool {
    &&& p.id@ == built_in_prompt_id(i)
    &&& p.text@ == built_in_prompt_text(i)
    &&& p.category == built_in_prompt_category(i)
    &&& p.recommended_take_duration_ms == Some(6_000u64)
}

/// Turns a prompt selection into the prompt to record. Custom text wins over a
/// built-in prompt: it must be valid, and then becomes a custom prompt with the given
/// fresh identifier (or the error from making one). A built-in prompt must exist.
/// Selecting nothing clears the prompt.
#[verifier::loop_isolation(false)]
pub fn resolve_prompt(
    selection: PromptSelection,
    custom_prompt_id: Result<String, DatasetError>,
) -> (result: Result<Option<VoicePrompt>, DatasetError>)
    ensures
        selection.custom_prompt_text matches Some(text) ==> {
            &&& !custom_text_valid(text@) ==> (result matches Err(e) && e@ == custom_prompt_error())
            &&& custom_text_valid(text@) && custom_prompt_id is Err ==> (result matches Err(e) && (
            custom_prompt_id matches Err(f) && e@ == f@))
            &&& custom_text_valid(text@) && custom_prompt_id is Ok ==> (result matches Ok(Some(p)) && (
            custom_prompt_id matches Ok(id) && p.id == id) && p.text@ == trim_spec(text@)
                && p.category == PromptCategory::Custom && p.recommended_take_duration_ms is None)
        },
        selection.custom_prompt_text is None && selection.prompt_id is None ==> result matches Ok(
            None,
        ),
        selection.custom_prompt_text is None && selection.prompt_id is Some ==> {
            let id = selection.prompt_id->0@;
            &&& (exists|i: int| built_in_at(i, id)) ==> (result matches Ok(Some(p)) && exists|i: int|
                built_in_at(i, id) && is_built_in_prompt(p, i))
            &&& !(exists|i: int| built_in_at(i, id)) ==> (result matches Err(e) && e@
                == plain_error(
                DatasetErrorCode::InvalidStateTransition,
                "The selected prompt does not exist."@,
            ))
        },
{
    if let Some(custom) = selection.custom_prompt_text {
        let text = to_chars(trim(custom.as_str()));
        let mut valid = 1 <= text.len() && text.len() <= 500;
        let mut i: usize = 0;
        while valid && i < text.len()
            invariant
                text@ == trim_spec(custom@),
                i <= text@.len(),
                valid ==> 1 <= text@.len() <= 500,
                valid ==> forall|k: int| 0 <= k < i ==> !unicode_control(#[trigger] text@[k]),
                !valid ==> !custom_text_valid(custom@),
            decreases text@.len() - i,
        {
            if is_control(text[i]) {
                valid = false;
            }
            i = i + 1;
        }
        if !valid {
            return Err(
                DatasetError::new(
                    DatasetErrorCode::InvalidStateTransition,
                    "Custom prompt text must contain 1 to 500 visible characters.",
                ),
            );
        }
        let id = match custom_prompt_id {
            Ok(id) => id,
            Err(e) => {
                return Err(e);
            },
        };
        return Ok(
            Some(
                VoicePrompt {
                    id,
                    text: from_chars(text.as_slice()),
                    category: PromptCategory::Custom,
                    recommended_take_duration_ms: None,
                },
            ),
        );
    }
    match selection.prompt_id {
        None => Ok(None),
        Some(id) => {
            let pack = built_in_english_pack();
            let prompts = pack.prompts;
            let mut k: usize = 0;
            while k < prompts.len()
                invariant
                    k <= prompts@.len(),
                    prompts@.len() == BUILT_IN_PROMPT_COUNT,
                    forall|m: int|
                        0 <= m < BUILT_IN_PROMPT_COUNT ==> is_built_in_prompt(#[trigger] prompts@[m], m),
                    forall|m: int| 0 <= m < k ==> !built_in_at(m, id@),
                decreases prompts@.len() - k,
            {
                if str_equal(prompts[k].id.as_str(), id.as_str()) {
                    assert(built_in_at(k as int, id@));
                    let found = prompts[k].clone_prompt();
                    return Ok(Some(found));
                }
                k = k + 1;
            }
            Err(
                DatasetError::new(
                    DatasetErrorCode::InvalidStateTransition,
                    "The selected prompt does not exist.",
                ),
            )
        },
    }
}

// ---------------------------------------------------------------------------
// Devices.
// ---------------------------------------------------------------------------
/// Whether the device at `i` is physical and has the given identifier.
pub open spec fn exact_physical_hits(devices: Seq<DeviceView>, id: Seq<char>) -> Seq<bool> {
    Seq::new(devices.len(), |i: int| devices[i].id == id && !devices[i].is_likely_virtual)
}

/// Whether the device at `i` is physical and has the given name (compared trimmed and
/// lowercased).
pub open spec fn named_physical_hits(devices: Seq<DeviceView>, name: Seq<char>) -> Seq<bool> {
    Seq::new(
        devices.len(),
        |i: int|
            !devices[i].is_likely_virtual && normalized_name(devices[i].name) == normalized_name(
                name,
            ),
    )
}

/// The error for a physical device that is gone or cannot be told apart.
pub open spec fn device_error(code: DatasetErrorCode) -> DatasetErrorView {
    plain_error(
        code,
        "The selected physical audio device is unavailable or ambiguous. Refresh and select it again."@,
    )
}

/// Finds the physical (not virtual) device the user chose: by its identifier if
/// exactly one physical device has it, else by its name if exactly one physical
/// device has that; otherwise the error with the given code.
pub fn physical_device(devices: &[DeviceInfo], id: &str, name: &str, code: DatasetErrorCode) -> (result:
    Result<DeviceInfo, DatasetError>)
    ensures
        has_unique_hit(exact_physical_hits(device_views(devices@), id@)) ==> (result matches Ok(d)
            && exists|k: int|
            unique_hit(exact_physical_hits(device_views(devices@), id@), k) && d@ == devices@[k]@),
        !has_unique_hit(exact_physical_hits(device_views(devices@), id@)) && has_unique_hit(
            named_physical_hits(device_views(devices@), name@),
        ) ==> (result matches Ok(d) && exists|k: int|
            unique_hit(named_physical_hits(device_views(devices@), name@), k) && d@ == devices@[k]@),
        !has_unique_hit(exact_physical_hits(device_views(devices@), id@)) && !has_unique_hit(
            named_physical_hits(device_views(devices@), name@),
        ) ==> (result matches Err(e) && e@ == device_error(code)),
{
    let ghost views = device_views(devices@);
    let mut exact: Vec<bool> = Vec::new();
    let mut named: Vec<bool> = Vec::new();
    let wanted = normalize_name(name);
    let mut i: usize = 0;
    while i < devices.len()
        invariant
            i <= devices@.len(),
            views == device_views(devices@),
            wanted@ == normalized_name(name@),
            exact@ == exact_physical_hits(views, id@).take(i as int),
            named@ == named_physical_hits(views, name@).take(i as int),
        decreases devices@.len() - i,
    {
        let physical = !devices[i].is_likely_virtual;
        let same_id = str_equal(devices[i].id.as_str(), id);
        let own = normalize_name(devices[i].name.as_str());
        let same_name = chars_equal(own.as_slice(), wanted.as_slice());
        exact.push(same_id && physical);
        named.push(physical && same_name);
        assert(exact@ =~= exact_physical_hits(views, id@).take(i + 1));
        assert(named@ =~= named_physical_hits(views, name@).take(i + 1));
        i = i + 1;
    }
    assert(exact@ =~= exact_physical_hits(views, id@));
    assert(named@ =~= named_physical_hits(views, name@));
    if let Some(k) = only_hit(&exact) {
        return Ok(devices[k].clone());
    }
    if let Some(k) = only_hit(&named) {
        return Ok(devices[k].clone());
    }
    Err(
        DatasetError::new(
            code,
            "The selected physical audio device is unavailable or ambiguous. Refresh and select it again.",
        ),
    )
}

// ---------------------------------------------------------------------------
// Takes.
// ---------------------------------------------------------------------------
/// A new take record: pending review, untrimmed, in the canonical format, with its
/// raw recording at `raw/<id>.wav` and the prompt it answers, if any.
pub fn new_take_record(
    take_id: &str,
    frame_count: u64,
    prompt: Option<&VoicePrompt>,
    source: TakeSource,
    quality: QualityClassification,
    exclude: bool,
    content_hash: String,
) -> (take: TakeRecord)
    requires
        frame_count * 1000 <= u64::MAX,
    ensures
        take.id@ == take_id@,
        take.prompt_id == (match prompt {
            Some(p) => Some(p.id),
            None => None::<String>,
        }),
        take.prompt_text == (match prompt {
            Some(p) => Some(p.text),
            None => None::<String>,
        }),
        take.prompt_category == (match prompt {
            Some(p) => Some(p.category),
            None => None::<PromptCategory>,
        }),
        take.source == source,
        take.raw_file@ == raw_file_name(take_id@),
        take.derived_file is None,
        take.selected_version == SelectedTakeVersion::Raw,
        take.sample_rate == CANONICAL_SAMPLE_RATE,
        take.channels == 1,
        take.frame_count == frame_count,
        take.duration_ms == frame_count * 1000 / 48_000,
        take.quality == quality,
        take.trim is None,
        take.review_status == TakeReviewStatus::Pending,
        take.exclude_from_training == exclude,
        take.notes is None,
        !take.manual_override,
        !take.warning_acknowledged,
        take.content_hash == content_hash,
{
    let head = concat("raw/", take_id);
    let raw_file = concat(head.as_str(), ".wav");
    let prompt_id = match prompt {
        Some(p) => Some(p.id.clone()),
        None => None,
    };
    let prompt_text = match prompt {
        Some(p) => Some(p.text.clone()),
        None => None,
    };
    let prompt_category = match prompt {
        Some(p) => Some(p.category),
        None => None,
    };
    TakeRecord {
        id: from_chars(to_chars(take_id).as_slice()),
        prompt_id,
        prompt_text,
        prompt_category,
        source,
        raw_file,
        derived_file: None,
        selected_version: SelectedTakeVersion::Raw,
        sample_rate: CANONICAL_SAMPLE_RATE,
        channels: 1,
        frame_count,
        duration_ms: frame_count * 1_000 / (CANONICAL_SAMPLE_RATE as u64),
        quality,
        trim: None,
        review_status: TakeReviewStatus::Pending,
        exclude_from_training: exclude,
        notes: None,
        manual_override: false,
        warning_acknowledged: false,
        content_hash,
    }
}

/// The error for a trim draft on a take that is not in the manifest.
pub open spec fn draft_take_missing() -> DatasetErrorView {
    plain_error(DatasetErrorCode::TakeNotFound, "The selected take was not found."@)
}

/// Checks a trim draft before it is kept: the take exists and the frames
/// `start_frame..end_frame` are a non-empty range inside it.
pub fn check_trim_draft(takes: &[TakeRecord], take_id: &str, start_frame: u64, end_frame: u64) -> (result:
    Result<(), DatasetError>)
    ensures
        !crate::voice_dataset::storage::has_take(takes@, take_id@) ==> (result matches Err(e) && e@
            == draft_take_missing()),
        forall|k: int|
            crate::voice_dataset::storage::take_index(takes@, take_id@, k) ==> if start_frame
                >= end_frame || end_frame > (#[trigger] takes@[k]).frame_count {
                (result matches Err(e) && e@ == plain_error(
                    DatasetErrorCode::InvalidTrimRange,
                    "Trim boundaries must select a non-empty range inside the take."@,
                ))
            } else {
                result is Ok
            },
{
    let k = match crate::voice_dataset::storage::find_take(takes, take_id) {
        Some(k) => k,
        None => {
            return Err(
                DatasetError::new(
                    DatasetErrorCode::TakeNotFound,
                    "The selected take was not found.",
                ),
            );
        },
    };
    if start_frame >= end_frame || end_frame > takes[k].frame_count {
        return Err(
            DatasetError::new(
                DatasetErrorCode::InvalidTrimRange,
                "Trim boundaries must select a non-empty range inside the take.",
            ),
        );
    }
    Ok(())
}

/// Trim boundaries found by looking for speech: from a twentieth of a second before
/// the first loud frame (or the start, if none) to the same after the last loud frame
/// (or the end), within the take.
pub fn auto_trim_bounds(first_loud: Option<usize>, last_loud: Option<usize>, frame_count: usize) -> (bounds:
    (u64, u64))
    requires
        last_loud matches Some(l) ==> l < frame_count,
    ensures
        bounds.0 == (match first_loud {
            Some(f) => if f >= 2_400 {
                f - 2_400
            } else {
                0
            },
            None => 0,
        }),
        bounds.1 == (match last_loud {
            Some(l) => if l + 1 + 2_400 < frame_count {
                l + 1 + 2_400
            } else {
                frame_count as int
            },
            None => frame_count as int,
        }),
{
    let padding: usize = 2_400;
    let first = match first_loud {
        Some(f) => f.saturating_sub(padding),
        None => 0,
    };
    let last = match last_loud {
        Some(l) => {
            let end = (l + 1).saturating_add(padding);
            if end < frame_count {
                end
            } else {
                frame_count
            }
        },
        None => frame_count,
    };
    (first as u64, last as u64)
}

// ---------------------------------------------------------------------------
// Export.
// ---------------------------------------------------------------------------
/// A take goes into an export package: accepted (or rejected, when asked for), not
/// excluded from training, and not a consent recording.
pub open spec fn exported(t: TakeRecord, options: DatasetExportOptions) -> bool {
    &&& (t.review_status == TakeReviewStatus::Accepted || (options.include_rejected
        && t.review_status == TakeReviewStatus::Rejected))
    &&& !t.exclude_from_training
    &&& t.source != TakeSource::RecordedConsent
}

/// The takes that go into an export package, in manifest order.
pub open spec fn export_filter(takes: Seq<TakeRecord>, options: DatasetExportOptions) -> Seq<
    TakeRecord,
>
    decreases takes.len(),
{
    if takes.len() == 0 {
        takes
    } else if exported(takes.last(), options) {
        export_filter(takes.drop_last(), options).push(takes.last())
    } else {
        export_filter(takes.drop_last(), options)
    }
}

/// Every exported take meets the export rule.
pub proof fn lemma_export_only_allowed_takes(takes: Seq<TakeRecord>, options: DatasetExportOptions)
    ensures
        forall|k: int|
            0 <= k < export_filter(takes, options).len() ==> exported(
                #[trigger] export_filter(takes, options)[k],
                options,
            ),
        export_filter(takes, options).len() <= takes.len(),
    decreases takes.len(),
{
    if takes.len() > 0 {
        lemma_export_only_allowed_takes(takes.drop_last(), options);
    }
}

/// The takes that go into an export package, in manifest order.
pub fn export_selection(takes: &[TakeRecord], options: DatasetExportOptions) -> (selected: Vec<
    TakeRecord,
>)
    ensures
        selected@ == export_filter(takes@, options),
{
    let mut selected: Vec<TakeRecord> = Vec::new();
    let mut i: usize = 0;
    while i < takes.len()
        invariant
            i <= takes@.len(),
            selected@ == export_filter(takes@.take(i as int), options),
        decreases takes@.len() - i,
    {
        assert(takes@.take(i + 1).drop_last() =~= takes@.take(i as int));
        let t = &takes[i];
        let keep = (t.review_status == TakeReviewStatus::Accepted || (options.include_rejected
            && t.review_status == TakeReviewStatus::Rejected)) && !t.exclude_from_training
            && t.source != TakeSource::RecordedConsent;
        if keep {
            selected.push(t.clone_record());
        }
        i = i + 1;
    }
    assert(takes@.take(takes@.len() as int) =~= takes@);
    selected
}

/// The version of a take copied into an export package: the raw master when asked
/// for, else the selected version.
pub fn export_version(take: &TakeRecord, options: DatasetExportOptions) -> (version:
    SelectedTakeVersion)
    ensures
        version == if options.include_raw_masters {
            SelectedTakeVersion::Raw
        } else {
            take.selected_version
        },
{
    if options.include_raw_masters {
        SelectedTakeVersion::Raw
    } else {
        take.selected_version
    }
}

/// A take as the export package describes it: one file, `audio/<id>.wav`, with no
/// trimmed copy.
pub fn exported_take(take: &TakeRecord) -> (copy: TakeRecord)
    ensures
        copy.raw_file@ == "audio/"@ + take.id@ + ".wav"@,
        copy == (TakeRecord {
            raw_file: copy.raw_file,
            derived_file: None,
            trim: None,
            selected_version: SelectedTakeVersion::Raw,
            ..*take
        }),
{
    let head = concat("audio/", take.id.as_str());
    let raw_file = concat(head.as_str(), ".wav");
    let old_take = take.clone_record();
    TakeRecord {
        raw_file,
        derived_file: None,
        trim: None,
        selected_version: SelectedTakeVersion::Raw,
        ..old_take
    }
}

} // verus!
