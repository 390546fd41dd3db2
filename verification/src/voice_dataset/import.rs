use vstd::prelude::*;

use crate::error::OfflineResampleError;
use crate::text::to_chars;
use crate::voice_dataset::error::{plain_error, DatasetError, DatasetErrorCode, DatasetErrorView};
use crate::voice_dataset::take::unit_result_view;

verus! {

/// The most files one import accepts.
pub const MAX_IMPORT_BATCH: usize = 32;

/// The last `.` of a file name is at `i`.
pub open spec fn last_dot_at(name: Seq<char>, i: int) -> bool {
    &&& 0 <= i < name.len()
    &&& name[i] == '.'
    &&& forall|j: int| i < j < name.len() ==> name[j] != '.'
}

/// A file name whose extension (the part after its last `.`, where that `.` does not
/// start the name) is `wav` in any mix of upper and lower case.
pub open spec fn wav_file_name(name: Seq<char>) -> bool {
    exists|i: int|
        #![trigger last_dot_at(name, i)]
        last_dot_at(name, i) && i > 0 && name.len() == i + 4 && (name[i + 1] == 'w' || name[i + 1]
            == 'W') && (name[i + 2] == 'a' || name[i + 2] == 'A') && (name[i + 3] == 'v'
            || name[i + 3] == 'V')
}

/// The error for a file that is not a WAV file.
pub open spec fn not_wav_error() -> DatasetErrorView {
    plain_error(DatasetErrorCode::UnsupportedWav, "Choose a .wav file."@)
}

/// Accepts only a file name with a `.wav` extension (in any case); `None` stands for a
/// path without a readable file name.
pub fn require_wav(file_name: Option<&str>) -> (result: Result<(), DatasetError>)
    ensures
        result is Ok <==> (file_name matches Some(n) && wav_file_name(n@)),
        result is Err ==> unit_result_view(result) == Err::<(), DatasetErrorView>(not_wav_error()),
{
    let accepted = match file_name {
        None => false,
        Some(n) => {
            let name = to_chars(n);
            let len = name.len();
            let mut last: usize = len;
            let mut i: usize = 0;
            while i < len
                invariant
                    name@ == n@,
                    len == name@.len(),
                    i <= len,
                    last <= len,
                    last == len ==> forall|j: int| 0 <= j < i ==> name@[j] != '.',
                    last < len ==> last < i && name@[last as int] == '.' && forall|j: int|
                        last < j < i ==> name@[j] != '.',
                decreases len - i,
            {
                if name[i] == '.' {
                    last = i;
                }
                i = i + 1;
            }
            if last < len && last > 0 && len - last == 4 {
                let a = name[last + 1];
                let b = name[last + 2];
                let c = name[last + 3];
                let ok = (a == 'w' || a == 'W') && (b == 'a' || b == 'A') && (c == 'v' || c == 'V');
                assert(last_dot_at(name@, last as int));
                if !ok {
                    assert forall|k: int| last_dot_at(name@, k) implies k == last by {
                        if k < last {
                            assert(name@[last as int] == '.');
                        } else if k > last {
                        }
                    }
                }
                ok
            } else {
                assert forall|k: int| last_dot_at(name@, k) implies k == last by {
                    if last == len {
                        assert(name@[k] != '.');
                    } else if k < last {
                        assert(name@[last as int] == '.');
                    } else if k > last {
                        assert(name@[k] != '.');
                    }
                }
                false
            }
        },
    };
    if accepted {
        Ok(())
    } else {
        Err(DatasetError::new(DatasetErrorCode::UnsupportedWav, "Choose a .wav file."))
    }
}

/// The longest WAV file an import accepts, in seconds.
pub const MAX_IMPORTED_SECONDS: u32 = 120;

/// How a WAV file stores its samples.
#[derive(Clone, Copy, Debug, PartialEq, Eq, Structural)]
pub enum WavSampleKind {
    Float,
    Int,
}

/// How the samples of an accepted WAV file are read: IEEE float32, or integer PCM of
/// the given width (16, 24 or 32 bits).
#[derive(Clone, Copy, Debug, PartialEq, Eq, Structural)]
pub enum WavEncoding {
    Float32,
    Pcm { bits: u16 },
}

/// What an import makes of a WAV header: the rate (44.1 or 48 kHz) and channel count
/// (mono or stereo) are checked first, then that it holds frames, then that it lasts
/// at most the maximum, and last that its sample format is supported.
pub open spec fn wav_header_check(
    sample_rate: u32,
    channels: u16,
    frames: u32,
    kind: WavSampleKind,
    bits_per_sample: u16,
) -> Result<WavEncoding, DatasetErrorView> {
    if !(sample_rate == 44_100 || sample_rate == 48_000) || !(1 <= channels <= 2) {
        Err(
            plain_error(
                DatasetErrorCode::UnsupportedWav,
                "Dataset import supports mono/stereo WAV at 44.1 or 48 kHz."@,
            ),
        )
    } else if frames == 0 {
        Err(plain_error(DatasetErrorCode::UnsupportedWav, "The selected WAV is empty."@))
    } else if frames > sample_rate * MAX_IMPORTED_SECONDS {
        Err(
            plain_error(
                DatasetErrorCode::ImportTooLong,
                "Imported WAV files cannot exceed 120 seconds."@,
            ),
        )
    } else if kind == WavSampleKind::Float && bits_per_sample == 32 {
        Ok(WavEncoding::Float32)
    } else if kind == WavSampleKind::Int && (bits_per_sample == 16 || bits_per_sample == 24
        || bits_per_sample == 32) {
        Ok(WavEncoding::Pcm { bits: bits_per_sample })
    } else {
        Err(
            plain_error(
                DatasetErrorCode::UnsupportedWav,
                "Supported WAV formats are PCM 16/24/32-bit or IEEE float32."@,
            ),
        )
    }
}

/// Checks a WAV file's header before its samples are read, and says how to read them.
pub fn check_wav_header(
    sample_rate: u32,
    channels: u16,
    frames: u32,
    kind: WavSampleKind,
    bits_per_sample: u16,
) -> (result: Result<WavEncoding, DatasetError>)
    ensures
        match wav_header_check(sample_rate, channels, frames, kind, bits_per_sample) {
            Ok(encoding) => result == Ok::<WavEncoding, DatasetError>(encoding),
            Err(e) => result matches Err(error) && error@ == e,
        },
{
    if !(sample_rate == 44_100 || sample_rate == 48_000) || !(1 <= channels && channels <= 2) {
        return Err(
            DatasetError::new(
                DatasetErrorCode::UnsupportedWav,
                "Dataset import supports mono/stereo WAV at 44.1 or 48 kHz.",
            ),
        );
    }
    if frames == 0 {
        return Err(DatasetError::new(DatasetErrorCode::UnsupportedWav, "The selected WAV is empty."));
    }
    if frames > sample_rate * MAX_IMPORTED_SECONDS {
        return Err(
            DatasetError::new(
                DatasetErrorCode::ImportTooLong,
                "Imported WAV files cannot exceed 120 seconds.",
            ),
        );
    }
    match kind {
        WavSampleKind::Float => {
            if bits_per_sample == 32 {
                return Ok(WavEncoding::Float32);
            }
        },
        WavSampleKind::Int => {
            if bits_per_sample == 16 || bits_per_sample == 24 || bits_per_sample == 32 {
                return Ok(WavEncoding::Pcm { bits: bits_per_sample });
            }
        },
    }
    Err(
        DatasetError::new(
            DatasetErrorCode::UnsupportedWav,
            "Supported WAV formats are PCM 16/24/32-bit or IEEE float32.",
        ),
    )
}

/// The header of a WAV file as hound reports it: the rate, channel count, bits per
/// sample and sample kind of its format chunk, and its length in frames.
#[derive(Clone, Copy, Debug, PartialEq, Eq, Structural)]
pub struct WavHeader {
    pub sample_rate: u32,
    pub channels: u16,
    pub bits_per_sample: u16,
    pub kind: WavSampleKind,
    pub frames: u32,
}

/// The header that hound reads from the bytes of a WAV file, or none when it refuses
/// them.
pub uninterp spec fn wav_header_of(bytes: Seq<u8>) -> Option<WavHeader>;

/// Calls `hound::WavReader::new` on the bytes of a file. It reads the RIFF/WAVE header
/// up to the start of the sample data and refuses bytes that are not a readable WAV
/// file; the result is the format it reports (`spec()`) with the length in frames
/// (`duration()`), which this crate names without restating the parse.
#[verifier::external_body]
fn read_wav_header(bytes: &[u8]) -> (header: Option<WavHeader>)
    ensures
        header == wav_header_of(bytes@),
{
    match hound::WavReader::new(bytes) {
        Ok(reader) => {
            let spec = reader.spec();
            let kind = match spec.sample_format {
                hound::SampleFormat::Float => WavSampleKind::Float,
                hound::SampleFormat::Int => WavSampleKind::Int,
            };
            Some(WavHeader { sample_rate: spec.sample_rate, channels: spec.channels,
                bits_per_sample: spec.bits_per_sample, kind, frames: reader.duration() })
        },
        Err(_) => None,
    }
}

/// A WAV file that an import accepts: its header and how to read its samples.
#[derive(Clone, Copy, Debug, PartialEq, Eq, Structural)]
pub struct WavFormat {
    pub header: WavHeader,
    pub encoding: WavEncoding,
}

/// What an import makes of a WAV file's header: a file hound cannot read is refused,
/// otherwise the header is checked.
pub open spec fn wav_file_check(header: Option<WavHeader>) -> Result<WavFormat, DatasetErrorView> {
    match header {
        None => Err(
            plain_error(
                DatasetErrorCode::UnsupportedWav,
                "The selected file is not a readable uncompressed WAV."@,
            ),
        ),
        Some(h) => match wav_header_check(h.sample_rate, h.channels, h.frames, h.kind, h.bits_per_sample) {
            Ok(encoding) => Ok(WavFormat { header: h, encoding }),
            Err(e) => Err(e),
        },
    }
}

/// Reads and checks the header of a WAV file's bytes before its samples are read.
pub fn inspect_wav(bytes: &[u8]) -> (result: Result<WavFormat, DatasetError>)
    ensures
        match wav_file_check(wav_header_of(bytes@)) {
            Ok(format) => result == Ok::<WavFormat, DatasetError>(format),
            Err(e) => result matches Err(error) && error@ == e,
        },
{
    match read_wav_header(bytes) {
        None => Err(
            DatasetError::new(
                DatasetErrorCode::UnsupportedWav,
                "The selected file is not a readable uncompressed WAV.",
            ),
        ),
        Some(header) => {
            let encoding = check_wav_header(
                header.sample_rate,
                header.channels,
                header.frames,
                header.kind,
                header.bits_per_sample,
            )?;
            Ok(WavFormat { header, encoding })
        },
    }
}

/// How many frames offline linear resampling makes of `sample_count` interleaved samples
/// of `channels` channels at `source_rate`, converted to `target_rate`, or why it refuses:
/// a zero rate, no channels, an incomplete last frame, a non-finite sample, or more
/// output than `maximum_output_frames` (or than memory could index).
pub open spec fn resample_plan(
    sample_count: usize,
    channels: usize,
    source_rate: u32,
    target_rate: u32,
    all_finite: bool,
    maximum_output_frames: usize,
) -> Result<usize, OfflineResampleError> {
    if source_rate == 0 || target_rate == 0 {
        Err(OfflineResampleError::InvalidRate)
    } else if channels == 0 {
        Err(OfflineResampleError::InvalidChannels)
    } else if sample_count % channels != 0 {
        Err(OfflineResampleError::IncompleteFrame)
    } else if !all_finite {
        Err(OfflineResampleError::NonFiniteInput)
    } else if sample_count / channels == 0 {
        Ok(0)
    } else {
        let frames: int = (sample_count / channels) * target_rate / (source_rate as int);
        if frames > usize::MAX {
            Err(OfflineResampleError::OutputTooLarge { requested_frames: usize::MAX, maximum_frames: maximum_output_frames })
        } else if frames > maximum_output_frames || frames * channels > usize::MAX {
            Err(OfflineResampleError::OutputTooLarge { requested_frames: frames as usize, maximum_frames: maximum_output_frames })
        } else {
            Ok(frames as usize)
        }
    }
}

/// Plans offline linear resampling: the number of output frames, or why the input is
/// refused.
pub fn plan_resample(
    sample_count: usize,
    channels: usize,
    source_rate: u32,
    target_rate: u32,
    all_finite: bool,
    maximum_output_frames: usize,
) -> (plan: Result<usize, OfflineResampleError>)
    ensures
        plan == resample_plan(sample_count, channels, source_rate, target_rate, all_finite, maximum_output_frames),
{
    if source_rate == 0 || target_rate == 0 {
        return Err(OfflineResampleError::InvalidRate);
    }
    if channels == 0 {
        return Err(OfflineResampleError::InvalidChannels);
    }
    if sample_count % channels != 0 {
        return Err(OfflineResampleError::IncompleteFrame);
    }
    if !all_finite {
        return Err(OfflineResampleError::NonFiniteInput);
    }
    let source_frames = sample_count / channels;
    if source_frames == 0 {
        return Ok(0);
    }
    let source_wide = source_frames as u128;
    let target_wide = target_rate as u128;
    assert(source_wide * target_wide <= 0xffff_ffff_ffff_ffff * 0xffff_ffff) by (nonlinear_arith)
        requires
            source_wide <= 0xffff_ffff_ffff_ffff,
            target_wide <= 0xffff_ffff,
    ;
    let frames: u128 = source_wide * target_wide / (source_rate as u128);
    if frames > usize::MAX as u128 {
        return Err(
            OfflineResampleError::OutputTooLarge {
                requested_frames: usize::MAX,
                maximum_frames: maximum_output_frames,
            },
        );
    }
    let frames = frames as usize;
    if frames > maximum_output_frames || frames.checked_mul(channels).is_none() {
        return Err(
            OfflineResampleError::OutputTooLarge {
                requested_frames: frames,
                maximum_frames: maximum_output_frames,
            },
        );
    }
    Ok(frames)
}

} // verus!
