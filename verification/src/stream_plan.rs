use vstd::prelude::*;

use crate::reliability::ReliabilityConfig;
use crate::stream_config::{ActiveStreamFormat, SampleFormat, StreamSpec};
use crate::text::{from_chars, to_chars};

verus! {

/// The sizes a live session is built with.
#[derive(Clone, Copy, Debug, PartialEq, Eq, Structural)]
pub struct StreamPlan {
    /// The channels the processing runs with.
    pub dsp_channels: u16,
    /// The frames processed per block: the largest buffer among the streams.
    pub dsp_block_frames: u32,
    /// The input ring's length in frames.
    pub input_capacity_frames: u64,
    /// Each output ring's length in frames.
    pub output_capacity_frames: u64,
    /// The frames every output ring holds before output starts.
    pub prefill_target_frames: u64,
}

pub open spec fn max_u32(a: u32, b: u32) -> u32 {
    if a >= b {
        a
    } else {
        b
    }
}

/// The largest of the buffers the streams use.
pub open spec fn block_frames_spec(input: u32, destination: Option<u32>, monitor: Option<u32>) -> u32 {
    let with_destination = match destination {
        Some(d) => max_u32(input, d),
        None => input,
    };
    match monitor {
        Some(m) => max_u32(with_destination, m),
        None => with_destination,
    }
}

/// A ring's length: the milliseconds it holds at the rate, but at least two blocks.
pub open spec fn ring_frames_spec(sample_rate: u32, milliseconds: u32, block: u32) -> int {
    let timed = (sample_rate as int * milliseconds as int) / 1000;
    if timed >= 2 * block {
        timed
    } else {
        2 * block
    }
}

/// The prefill target: the profile's prefill, at most half an output ring, at least
/// one block.
pub open spec fn prefill_spec(prefill: u32, output_capacity: int, block: u32) -> int {
    let bounded = if prefill <= output_capacity / 2 {
        prefill as int
    } else {
        output_capacity / 2
    };
    if bounded >= block {
        bounded
    } else {
        block as int
    }
}

/// Plans a live session's processing and rings from the chosen streams and the
/// reliability profile's values.
pub fn plan_streams(
    output_channels: u16,
    input_buffer_frames: u32,
    destination_buffer_frames: Option<u32>,
    monitor_buffer_frames: Option<u32>,
    sample_rate: u32,
    config: &ReliabilityConfig,
) -> (plan: StreamPlan)
    ensures
        plan.dsp_channels == if output_channels >= 1 {
            output_channels
        } else {
            1
        },
        plan.dsp_block_frames == block_frames_spec(
            input_buffer_frames,
            destination_buffer_frames,
            monitor_buffer_frames,
        ),
        plan.input_capacity_frames == ring_frames_spec(
            sample_rate,
            config.input_ring_milliseconds,
            plan.dsp_block_frames,
        ),
        plan.output_capacity_frames == ring_frames_spec(
            sample_rate,
            config.output_ring_milliseconds,
            plan.dsp_block_frames,
        ),
        plan.prefill_target_frames == prefill_spec(
            config.startup_prefill_frames,
            plan.output_capacity_frames as int,
            plan.dsp_block_frames,
        ),
        plan.input_capacity_frames >= 2 * plan.dsp_block_frames,
        plan.output_capacity_frames >= 2 * plan.dsp_block_frames,
        plan.dsp_block_frames <= plan.prefill_target_frames <= plan.output_capacity_frames / 2,
{
    let dsp_channels: u16 = if output_channels >= 1 {
        output_channels
    } else {
        1
    };
    let mut block: u32 = input_buffer_frames;
    if let Some(d) = destination_buffer_frames {
        if d > block {
            block = d;
        }
    }
    if let Some(m) = monitor_buffer_frames {
        if m > block {
            block = m;
        }
    }
    let input_capacity = ring_frames(sample_rate, config.input_ring_milliseconds, block);
    let output_capacity = ring_frames(sample_rate, config.output_ring_milliseconds, block);
    let half: u64 = output_capacity / 2;
    let bounded: u64 = if (config.startup_prefill_frames as u64) <= half {
        config.startup_prefill_frames as u64
    } else {
        half
    };
    let prefill: u64 = if bounded >= block as u64 {
        bounded
    } else {
        block as u64
    };
    StreamPlan {
        dsp_channels,
        dsp_block_frames: block,
        input_capacity_frames: input_capacity,
        output_capacity_frames: output_capacity,
        prefill_target_frames: prefill,
    }
}

fn ring_frames(sample_rate: u32, milliseconds: u32, block: u32) -> (frames: u64)
    ensures
        frames == ring_frames_spec(sample_rate, milliseconds, block),
{
    let a: u64 = sample_rate as u64;
    let b: u64 = milliseconds as u64;
    assert(a * b <= 0xffff_ffffu64 * 0xffff_ffffu64) by (nonlinear_arith)
        requires
            a <= 0xffff_ffff,
            b <= 0xffff_ffff,
    ;
    let product: u64 = a * b;
    let timed: u64 = product / 1000;
    let twice: u64 = 2 * (block as u64);
    if timed >= twice {
        timed
    } else {
        twice
    }
}

/// How far startup prefilling got: the least-filled output ring (or nothing when there
/// is none).
pub fn prefill_achieved(destination_fill: Option<usize>, monitor_fill: Option<usize>) -> (achieved: usize)
    ensures
        achieved == match (destination_fill, monitor_fill) {
            (Some(d), Some(m)) => if d <= m {
                d
            } else {
                m
            },
            (Some(d), None) => d,
            (None, Some(m)) => m,
            (None, None) => 0,
        },
{
    match (destination_fill, monitor_fill) {
        (Some(d), Some(m)) => if d <= m {
            d
        } else {
            m
        },
        (Some(d), None) => d,
        (None, Some(m)) => m,
        (None, None) => 0,
    }
}

/// The name of a sample format.
pub open spec fn format_name_spec(format: SampleFormat) -> Seq<char> {
    match format {
        SampleFormat::I8 => "I8"@,
        SampleFormat::I16 => "I16"@,
        SampleFormat::I32 => "I32"@,
        SampleFormat::I64 => "I64"@,
        SampleFormat::U8 => "U8"@,
        SampleFormat::U16 => "U16"@,
        SampleFormat::U32 => "U32"@,
        SampleFormat::U64 => "U64"@,
        SampleFormat::F32 => "F32"@,
        SampleFormat::F64 => "F64"@,
    }
}

pub fn format_name(format: SampleFormat) -> (name: String)
    ensures
        name@ == format_name_spec(format),
{
    let text = match format {
        SampleFormat::I8 => "I8",
        SampleFormat::I16 => "I16",
        SampleFormat::I32 => "I32",
        SampleFormat::I64 => "I64",
        SampleFormat::U8 => "U8",
        SampleFormat::U16 => "U16",
        SampleFormat::U32 => "U32",
        SampleFormat::U64 => "U64",
        SampleFormat::F32 => "F32",
        SampleFormat::F64 => "F64",
    };
    from_chars(to_chars(text).as_slice())
}

/// The formats of the running streams: every stream runs at the shared rate.
pub fn active_format(
    input: &StreamSpec,
    destination: Option<&StreamSpec>,
    monitor: Option<&StreamSpec>,
    sample_rate: u32,
    dsp_block_frames: u32,
) -> (format: ActiveStreamFormat)
    ensures
        format.input_sample_rate == sample_rate,
        format.processed_destination_sample_rate == (if destination is Some {
            Some(sample_rate)
        } else {
            None::<u32>
        }),
        format.local_monitor_sample_rate == (if monitor is Some {
            Some(sample_rate)
        } else {
            None::<u32>
        }),
        format.input_channels == input.channels,
        format.processed_destination_channels == (match destination {
            Some(d) => Some(d.channels),
            None => None::<u16>,
        }),
        format.local_monitor_channels == (match monitor {
            Some(m) => Some(m.channels),
            None => None::<u16>,
        }),
        format.input_sample_format@ == format_name_spec(input.sample_format),
        match destination {
            Some(d) => format.processed_destination_sample_format matches Some(f) && f@
                == format_name_spec(d.sample_format),
            None => format.processed_destination_sample_format is None,
        },
        match monitor {
            Some(m) => format.local_monitor_sample_format matches Some(f) && f@ == format_name_spec(
                m.sample_format,
            ),
            None => format.local_monitor_sample_format is None,
        },
        format.input_buffer_frames == input.buffer_frames,
        format.processed_destination_buffer_frames == (match destination {
            Some(d) => Some(d.buffer_frames),
            None => None::<u32>,
        }),
        format.local_monitor_buffer_frames == (match monitor {
            Some(m) => Some(m.buffer_frames),
            None => None::<u32>,
        }),
        format.dsp_block_frames == dsp_block_frames,
{
    ActiveStreamFormat {
        input_sample_rate: sample_rate,
        processed_destination_sample_rate: match destination {
            Some(_) => Some(sample_rate),
            None => None,
        },
        local_monitor_sample_rate: match monitor {
            Some(_) => Some(sample_rate),
            None => None,
        },
        input_channels: input.channels,
        processed_destination_channels: match destination {
            Some(d) => Some(d.channels),
            None => None,
        },
        local_monitor_channels: match monitor {
            Some(m) => Some(m.channels),
            None => None,
        },
        input_sample_format: format_name(input.sample_format),
        processed_destination_sample_format: match destination {
            Some(d) => Some(format_name(d.sample_format)),
            None => None,
        },
        local_monitor_sample_format: match monitor {
            Some(m) => Some(format_name(m.sample_format)),
            None => None,
        },
        input_buffer_frames: input.buffer_frames,
        processed_destination_buffer_frames: match destination {
            Some(d) => Some(d.buffer_frames),
            None => None,
        },
        local_monitor_buffer_frames: match monitor {
            Some(m) => Some(m.buffer_frames),
            None => None,
        },
        dsp_block_frames,
    }
}

} // verus!
