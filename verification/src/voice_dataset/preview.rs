use vstd::prelude::*;

verus! {

/// The length of the fade at the start and end of a preview, in milliseconds.
pub const FADE_MS: usize = 5;

/// The number of frames a preview fades over at a sample rate: `FADE_MS` worth of
/// frames, at least one.
pub fn fade_frames(sample_rate: u32) -> (frames: usize)
    ensures
        frames == if (sample_rate as int) * 5 / 1000 > 0 {
            (sample_rate as int) * 5 / 1000
        } else {
            1
        },
{
    let fade = FADE_MS as u64;
    assert(fade == 5);
    let frames = (sample_rate as u64) * fade / 1_000;
    if frames > 0 {
        frames as usize
    } else {
        1
    }
}

/// The frame a preview starts at when asked to seek `seek_ms` milliseconds into a
/// 48 kHz take (saturating for huge requests).
pub fn seek_frame(seek_ms: u64) -> (frame: u64)
    ensures
        frame == (if seek_ms * 48_000 <= u64::MAX {
            seek_ms * 48_000
        } else {
            u64::MAX as int
        }) / 1000,
{
    let scaled = match seek_ms.checked_mul(48_000) {
        Some(v) => v,
        None => u64::MAX,
    };
    scaled / 1_000
}

} // verus!
