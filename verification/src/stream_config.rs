use vstd::prelude::*;

verus! {

/// The sample formats an audio host can offer.
#[derive(Clone, Copy, Debug, PartialEq, Eq, Structural)]
pub enum SampleFormat {
    I8,
    I16,
    I32,
    I64,
    U8,
    U16,
    U32,
    U64,
    F32,
    F64,
}

/// The buffer sizes a host accepts for a configuration.
#[derive(Clone, Copy, Debug, PartialEq, Eq, Structural)]
pub enum SupportedBufferSize {
    Range { min: u32, max: u32 },
    Unknown,
}

/// The buffer size requested when a stream is opened.
#[derive(Clone, Copy, Debug, PartialEq, Eq, Structural)]
pub enum BufferSize {
    Default,
    Fixed(u32),
}

/// One supported configuration range of a device.
#[derive(Clone, Copy, Debug, PartialEq, Eq, Structural)]
pub struct ConfigRange {
    pub channels: u16,
    pub min_sample_rate: u32,
    pub max_sample_rate: u32,
    pub buffer_size: SupportedBufferSize,
    pub sample_format: SampleFormat,
}

/// The stream configuration chosen for one device.
#[derive(Clone, Copy, Debug, PartialEq, Eq, Structural)]
pub struct StreamSpec {
    pub channels: u16,
    pub sample_rate: u32,
    pub buffer_size: BufferSize,
    pub sample_format: SampleFormat,
    pub buffer_frames: u32,
}

/// The stream configurations chosen for an input and an output at a shared rate.
#[derive(Clone, Copy, Debug, PartialEq, Eq, Structural)]
pub struct NegotiatedStreamConfig {
    pub input: StreamSpec,
    pub output: StreamSpec,
    pub sample_rate: u32,
}

/// The formats and details of the running streams.
#[derive(Clone, Debug)]
pub struct ActiveStreamFormat {
    pub input_sample_rate: u32,
    pub processed_destination_sample_rate: Option<u32>,
    pub local_monitor_sample_rate: Option<u32>,
    pub input_channels: u16,
    pub processed_destination_channels: Option<u16>,
    pub local_monitor_channels: Option<u16>,
    pub input_sample_format: String,
    pub processed_destination_sample_format: Option<String>,
    pub local_monitor_sample_format: Option<String>,
    pub input_buffer_frames: u32,
    pub processed_destination_buffer_frames: Option<u32>,
    pub local_monitor_buffer_frames: Option<u32>,
    pub dsp_block_frames: u32,
}

// ---------------------------------------------------------------------------
// Scores; lower is better.
// ---------------------------------------------------------------------------
/// The formats the processing chain converts to and from.
pub open spec fn is_supported_format(format: SampleFormat) -> bool {
    format == SampleFormat::F32 || format == SampleFormat::I16 || format == SampleFormat::U16
}

pub fn supported(format: SampleFormat) -> (ok: bool)
    ensures
        ok == is_supported_format(format),
{
    match format {
        SampleFormat::F32 | SampleFormat::I16 | SampleFormat::U16 => true,
        _ => false,
    }
}

pub open spec fn format_score_spec(format: SampleFormat) -> u8 {
    match format {
        SampleFormat::F32 => 0,
        SampleFormat::I16 => 1,
        SampleFormat::U16 => 2,
        _ => 127,
    }
}

pub fn format_score(format: SampleFormat) -> (score: u8)
    ensures
        score == format_score_spec(format),
{
    match format {
        SampleFormat::F32 => 0,
        SampleFormat::I16 => 1,
        SampleFormat::U16 => 2,
        _ => 127,
    }
}

pub open spec fn channel_score_spec(channels: u16) -> int {
    if channels == 2 {
        0
    } else if channels == 1 {
        1
    } else {
        2 + channels
    }
}

/// Stereo is best, then mono, then wider layouts by width.
pub fn channel_score(channels: u16) -> (score: u16)
    requires
        channels <= 65533,
    ensures
        score == channel_score_spec(channels),
{
    match channels {
        2 => 0,
        1 => 1,
        other => 2 + other,
    }
}

pub open spec fn abs_diff(a: u32, b: u32) -> int {
    if a >= b {
        a - b
    } else {
        b - a
    }
}

pub open spec fn rate_score_spec(rate: u32) -> int {
    if rate == 48000 {
        0
    } else if rate == 44100 {
        1
    } else {
        2 + abs_diff(rate, 48000)
    }
}

/// 48 kHz is best, then 44.1 kHz, then the closest rate to 48 kHz.
pub fn rate_score(rate: u32) -> (score: u32)
    ensures
        score == rate_score_spec(rate),
{
    match rate {
        48000 => 0,
        44100 => 1,
        _ => if rate >= 48000 {
            2 + (rate - 48000)
        } else {
            2 + (48000 - rate)
        },
    }
}

/// The rate chosen inside a range: 48 kHz, else 44.1 kHz, else 48 kHz clamped into
/// the range; none for an empty range.
pub open spec fn preferred_rate_spec(min_rate: u32, max_rate: u32) -> Option<u32> {
    if min_rate > max_rate {
        None
    } else if min_rate <= 48000 && 48000 <= max_rate {
        Some(48000)
    } else if min_rate <= 44100 && 44100 <= max_rate {
        Some(44100)
    } else if 48000 < min_rate {
        Some(min_rate)
    } else {
        Some(max_rate)
    }
}

pub fn preferred_rate(min_rate: u32, max_rate: u32) -> (rate: Option<u32>)
    ensures
        rate == preferred_rate_spec(min_rate, max_rate),
{
    if min_rate > max_rate {
        return None;
    }
    if min_rate <= 48000 && 48000 <= max_rate {
        return Some(48000);
    }
    if min_rate <= 44100 && 44100 <= max_rate {
        return Some(44100);
    }
    if 48000 < min_rate {
        Some(min_rate)
    } else {
        Some(max_rate)
    }
}

/// The buffer actually requested: the target clamped into the supported range, or the
/// host default when the range is unknown.
pub open spec fn buffer_choice(supported: SupportedBufferSize, target: u32) -> (BufferSize, u32) {
    match supported {
        SupportedBufferSize::Range { min, max } => {
            let frames = if target < min {
                min
            } else if target > max {
                max
            } else {
                target
            };
            (BufferSize::Fixed(frames), frames)
        },
        SupportedBufferSize::Unknown => (BufferSize::Default, target),
    }
}

/// A supported buffer range is never inverted.
pub open spec fn buffer_range_ok(supported: SupportedBufferSize) -> bool {
    match supported {
        SupportedBufferSize::Range { min, max } => min <= max,
        SupportedBufferSize::Unknown => true,
    }
}

pub fn choose_buffer_size(supported: &SupportedBufferSize, target_buffer_frames: u32) -> (choice: (
    BufferSize,
    u32,
))
    requires
        buffer_range_ok(*supported),
    ensures
        choice == buffer_choice(*supported, target_buffer_frames),
{
    match supported {
        SupportedBufferSize::Range { min, max } => {
            let frames = if target_buffer_frames < *min {
                *min
            } else if target_buffer_frames > *max {
                *max
            } else {
                target_buffer_frames
            };
            (BufferSize::Fixed(frames), frames)
        },
        SupportedBufferSize::Unknown => (BufferSize::Default, target_buffer_frames),
    }
}

/// The stream configuration of a range at a rate.
pub open spec fn stream_spec_of(range: ConfigRange, sample_rate: u32, target: u32) -> StreamSpec {
    StreamSpec {
        channels: range.channels,
        sample_rate,
        buffer_size: buffer_choice(range.buffer_size, target).0,
        sample_format: range.sample_format,
        buffer_frames: buffer_choice(range.buffer_size, target).1,
    }
}

pub fn stream_spec(range: &ConfigRange, sample_rate: u32, target_buffer_frames: u32) -> (spec:
    StreamSpec)
    requires
        buffer_range_ok(range.buffer_size),
    ensures
        spec == stream_spec_of(*range, sample_rate, target_buffer_frames),
{
    let (buffer_size, buffer_frames) = choose_buffer_size(&range.buffer_size, target_buffer_frames);
    StreamSpec {
        channels: range.channels,
        sample_rate,
        buffer_size,
        sample_format: range.sample_format,
        buffer_frames,
    }
}

/// The ranges whose format the processing chain handles, in order.
pub open spec fn supported_only(configs: Seq<ConfigRange>) -> Seq<ConfigRange>
    decreases configs.len(),
{
    if configs.len() == 0 {
        seq![]
    } else {
        let rest = supported_only(configs.drop_last());
        if is_supported_format(configs.last().sample_format) {
            rest.push(configs.last())
        } else {
            rest
        }
    }
}

pub fn supported_configs(configs: &[ConfigRange]) -> (kept: Vec<ConfigRange>)
    ensures
        kept@ == supported_only(configs@),
{
    let mut kept: Vec<ConfigRange> = Vec::new();
    let mut i: usize = 0;
    while i < configs.len()
        invariant
            i <= configs@.len(),
            kept@ == supported_only(configs@.take(i as int)),
        decreases configs@.len() - i,
    {
        assert(configs@.take(i + 1).drop_last() =~= configs@.take(i as int));
        if supported(configs[i].sample_format) {
            kept.push(configs[i]);
        }
        i = i + 1;
    }
    assert(configs@.take(configs@.len() as int) =~= configs@);
    kept
}

// ---------------------------------------------------------------------------
// Choosing the input/output pair.
// ---------------------------------------------------------------------------
/// Ranges small enough that their channel scores can be added.
pub open spec fn channels_bounded(configs: Seq<ConfigRange>) -> bool {
    forall|k: int| 0 <= k < configs.len() ==> (#[trigger] configs[k]).channels <= 32765
}

/// The rate two ranges share, if any.
pub open spec fn pair_rate(input: ConfigRange, output: ConfigRange) -> Option<u32> {
    let min_rate = if input.min_sample_rate >= output.min_sample_rate {
        input.min_sample_rate
    } else {
        output.min_sample_rate
    };
    let max_rate = if input.max_sample_rate <= output.max_sample_rate {
        input.max_sample_rate
    } else {
        output.max_sample_rate
    };
    preferred_rate_spec(min_rate, max_rate)
}

/// The score of a pair at its rate: rate first, then formats, then channels.
pub open spec fn pair_score_of(input: ConfigRange, output: ConfigRange, rate: u32) -> (int, int, int) {
    (
        rate_score_spec(rate),
        format_score_spec(input.sample_format) + format_score_spec(output.sample_format),
        channel_score_spec(input.channels) + channel_score_spec(output.channels),
    )
}

/// Lexicographic order on scores.
pub open spec fn score_lt(a: (int, int, int), b: (int, int, int)) -> bool {
    a.0 < b.0 || (a.0 == b.0 && (a.1 < b.1 || (a.1 == b.1 && a.2 < b.2)))
}

/// The score of a pair that shares a rate.
pub open spec fn viable_score(inputs: Seq<ConfigRange>, outputs: Seq<ConfigRange>, i: int, j: int) -> (
    int,
    int,
    int,
) {
    pair_score_of(inputs[i], outputs[j], pair_rate(inputs[i], outputs[j]).unwrap())
}

/// The pair shares a rate.
pub open spec fn viable(inputs: Seq<ConfigRange>, outputs: Seq<ConfigRange>, i: int, j: int) -> bool {
    0 <= i < inputs.len() && 0 <= j < outputs.len() && pair_rate(inputs[i], outputs[j]) is Some
}

/// Pair `(a, b)` is visited before pair `(i, j)` (inputs outer, outputs inner).
pub open spec fn visited_before(a: int, b: int, i: int, j: int) -> bool {
    a < i || (a == i && b < j)
}

/// `(i, j)` is the first pair, in visiting order, with the lowest score.
pub open spec fn is_best_pair(inputs: Seq<ConfigRange>, outputs: Seq<ConfigRange>, i: int, j: int) -> bool {
    &&& viable(inputs, outputs, i, j)
    &&& forall|a: int, b: int|
        #![trigger viable(inputs, outputs, a, b)]
        viable(inputs, outputs, a, b) && visited_before(a, b, i, j) ==> score_lt(
            viable_score(inputs, outputs, i, j),
            viable_score(inputs, outputs, a, b),
        )
    &&& forall|a: int, b: int|
        #![trigger viable(inputs, outputs, a, b)]
        viable(inputs, outputs, a, b) ==> !score_lt(
            viable_score(inputs, outputs, a, b),
            viable_score(inputs, outputs, i, j),
        )
}

/// Some pair shares a rate.
pub open spec fn any_viable(inputs: Seq<ConfigRange>, outputs: Seq<ConfigRange>) -> bool {
    exists|a: int, b: int| viable(inputs, outputs, a, b)
}

fn range_pair_rate(input: &ConfigRange, output: &ConfigRange) -> (rate: Option<u32>)
    ensures
        rate == pair_rate(*input, *output),
{
    let min_rate = if input.min_sample_rate >= output.min_sample_rate {
        input.min_sample_rate
    } else {
        output.min_sample_rate
    };
    let max_rate = if input.max_sample_rate <= output.max_sample_rate {
        input.max_sample_rate
    } else {
        output.max_sample_rate
    };
    preferred_rate(min_rate, max_rate)
}

/// Picks the input range, output range and rate of the best pair.
pub fn select_stream_pair(inputs: &[ConfigRange], outputs: &[ConfigRange]) -> (best: Option<
    (usize, usize, u32),
>)
    requires
        channels_bounded(inputs@),
        channels_bounded(outputs@),
    ensures
        match best {
            Some((i, j, rate)) => is_best_pair(inputs@, outputs@, i as int, j as int) && pair_rate(
                inputs@[i as int],
                outputs@[j as int],
            ) == Some(rate),
            None => !any_viable(inputs@, outputs@),
        },
{
    let ghost ins = inputs@;
    let ghost outs = outputs@;
    let mut best: Option<(usize, usize, u32)> = None;
    let mut best_score: (u32, u8, u16) = (0, 0, 0);
    let mut i: usize = 0;
    while i < inputs.len()
        invariant
            i <= ins.len(),
            ins == inputs@,
            outs == outputs@,
            channels_bounded(ins),
            channels_bounded(outs),
            best is None ==> forall|a: int, b: int|
                #![trigger viable(ins, outs, a, b)]
                viable(ins, outs, a, b) ==> a >= i,
            best matches Some(t) ==> {
                &&& viable(ins, outs, t.0 as int, t.1 as int)
                &&& t.0 < i
                &&& pair_rate(ins[t.0 as int], outs[t.1 as int]) == Some(t.2)
                &&& viable_score(ins, outs, t.0 as int, t.1 as int) == (
                    best_score.0 as int,
                    best_score.1 as int,
                    best_score.2 as int,
                )
                &&& forall|a: int, b: int|
                    #![trigger viable(ins, outs, a, b)]
                    viable(ins, outs, a, b) && visited_before(a, b, t.0 as int, t.1 as int)
                        ==> score_lt(
                        viable_score(ins, outs, t.0 as int, t.1 as int),
                        viable_score(ins, outs, a, b),
                    )
                &&& forall|a: int, b: int|
                    #![trigger viable(ins, outs, a, b)]
                    viable(ins, outs, a, b) && a < i ==> !score_lt(
                        viable_score(ins, outs, a, b),
                        viable_score(ins, outs, t.0 as int, t.1 as int),
                    )
            },
        decreases ins.len() - i,
    {
        let mut j: usize = 0;
        while j < outputs.len()
            invariant
                i < ins.len(),
                j <= outs.len(),
                ins == inputs@,
                outs == outputs@,
                channels_bounded(ins),
                channels_bounded(outs),
                best is None ==> forall|a: int, b: int|
                    #![trigger viable(ins, outs, a, b)]
                    viable(ins, outs, a, b) ==> !visited_before(a, b, i as int, j as int),
                best matches Some(t) ==> {
                    &&& viable(ins, outs, t.0 as int, t.1 as int)
                    &&& visited_before(t.0 as int, t.1 as int, i as int, j as int)
                    &&& pair_rate(ins[t.0 as int], outs[t.1 as int]) == Some(t.2)
                    &&& viable_score(ins, outs, t.0 as int, t.1 as int) == (
                        best_score.0 as int,
                        best_score.1 as int,
                        best_score.2 as int,
                    )
                    &&& forall|a: int, b: int|
                        #![trigger viable(ins, outs, a, b)]
                        viable(ins, outs, a, b) && visited_before(a, b, t.0 as int, t.1 as int)
                            ==> score_lt(
                            viable_score(ins, outs, t.0 as int, t.1 as int),
                            viable_score(ins, outs, a, b),
                        )
                    &&& forall|a: int, b: int|
                        #![trigger viable(ins, outs, a, b)]
                        viable(ins, outs, a, b) && visited_before(a, b, i as int, j as int)
                            ==> !score_lt(
                            viable_score(ins, outs, a, b),
                            viable_score(ins, outs, t.0 as int, t.1 as int),
                        )
                },
            decreases outs.len() - j,
        {
            let input = &inputs[i];
            let output = &outputs[j];
            assert(input.channels <= 32765 && output.channels <= 32765) by {
                assert(ins[i as int] == *input);
                assert(outs[j as int] == *output);
            }
            match range_pair_rate(input, output) {
                None => {},
                Some(rate) => {
                    let score: (u32, u8, u16) = (
                        rate_score(rate),
                        format_score(input.sample_format) + format_score(output.sample_format),
                        channel_score(input.channels) + channel_score(output.channels),
                    );
                    let better = match best {
                        None => true,
                        Some(_) => score.0 < best_score.0 || (score.0 == best_score.0 && (score.1
                            < best_score.1 || (score.1 == best_score.1 && score.2
                            < best_score.2))),
                    };
                    if better {
                        best = Some((i, j, rate));
                        best_score = score;
                    }
                },
            }
            j = j + 1;
        }
        i = i + 1;
    }
    proof {
        if best is None {
            assert forall|a: int, b: int| !viable(ins, outs, a, b) by {}
        }
    }
    best
}

/// `k` is the first range that holds `rate` with the lowest (format, channels) score.
pub open spec fn is_best_single(configs: Seq<ConfigRange>, rate: u32, k: int) -> bool {
    &&& holds_rate(configs, rate, k)
    &&& forall|a: int|
        #![trigger holds_rate(configs, rate, a)]
        holds_rate(configs, rate, a) && a < k ==> single_lt(configs[k], configs[a])
    &&& forall|a: int|
        #![trigger holds_rate(configs, rate, a)]
        holds_rate(configs, rate, a) ==> !single_lt(configs[a], configs[k])
}

/// Range `k` can run at `rate`.
pub open spec fn holds_rate(configs: Seq<ConfigRange>, rate: u32, k: int) -> bool {
    0 <= k < configs.len() && configs[k].min_sample_rate <= rate <= configs[k].max_sample_rate
}

/// Range `a` has a strictly better (format, channels) score than range `b`.
pub open spec fn single_lt(a: ConfigRange, b: ConfigRange) -> bool {
    format_score_spec(a.sample_format) < format_score_spec(b.sample_format) || (format_score_spec(
        a.sample_format,
    ) == format_score_spec(b.sample_format) && channel_score_spec(a.channels) < channel_score_spec(
        b.channels,
    ))
}

/// The first range that runs at `rate` with the best format, then channel layout.
pub fn best_range_at_rate(configs: &[ConfigRange], rate: u32) -> (best: Option<usize>)
    requires
        channels_bounded(configs@),
    ensures
        match best {
            Some(k) => is_best_single(configs@, rate, k as int),
            None => forall|a: int| !holds_rate(configs@, rate, a),
        },
{
    let ghost all = configs@;
    let mut best: Option<usize> = None;
    let mut i: usize = 0;
    while i < configs.len()
        invariant
            i <= all.len(),
            all == configs@,
            channels_bounded(all),
            best is None ==> forall|a: int| #![trigger holds_rate(all, rate, a)] holds_rate(all, rate, a) ==> a >= i,
            best matches Some(k) ==> {
                &&& k < i
                &&& holds_rate(all, rate, k as int)
                &&& forall|a: int|
                    #![trigger holds_rate(all, rate, a)]
                    holds_rate(all, rate, a) && a < k ==> single_lt(all[k as int], all[a])
                &&& forall|a: int|
                    #![trigger holds_rate(all, rate, a)]
                    holds_rate(all, rate, a) && a < i ==> !single_lt(all[a], all[k as int])
            },
        decreases all.len() - i,
    {
        let config = &configs[i];
        assert(all[i as int] == *config);
        if config.min_sample_rate <= rate && rate <= config.max_sample_rate {
            let better = match best {
                None => true,
                Some(k) => {
                    let current = &configs[k];
                    assert(all[k as int] == *current);
                    let a = format_score(config.sample_format);
                    let b = format_score(current.sample_format);
                    a < b || (a == b && channel_score(config.channels) < channel_score(
                        current.channels,
                    ))
                },
            };
            if better {
                best = Some(i);
            }
        }
        i = i + 1;
    }
    best
}

/// The output stream at the rate the input negotiated, if the output can run at it.
pub fn output_spec_at_rate(outputs: &[ConfigRange], sample_rate: u32, target_buffer_frames: u32) -> (spec:
    Option<StreamSpec>)
    requires
        channels_bounded(outputs@),
        forall|k: int| 0 <= k < outputs@.len() ==> buffer_range_ok(#[trigger] outputs@[k].buffer_size),
    ensures
        match spec {
            Some(s) => exists|k: int|
                is_best_single(outputs@, sample_rate, k) && s == stream_spec_of(
                    outputs@[k],
                    sample_rate,
                    target_buffer_frames,
                ),
            None => forall|a: int| !holds_rate(outputs@, sample_rate, a),
        },
{
    match best_range_at_rate(outputs, sample_rate) {
        Some(k) => {
            assert(buffer_range_ok(outputs@[k as int].buffer_size));
            Some(stream_spec(&outputs[k], sample_rate, target_buffer_frames))
        },
        None => None,
    }
}

/// A standalone capture format: 48 kHz if any range runs at it, else 44.1 kHz.
pub fn input_spec(inputs: &[ConfigRange], target_buffer_frames: u32) -> (spec: Option<StreamSpec>)
    requires
        channels_bounded(inputs@),
        forall|k: int| 0 <= k < inputs@.len() ==> buffer_range_ok(#[trigger] inputs@[k].buffer_size),
    ensures
        match spec {
            Some(s) => (exists|k: int|
                is_best_single(inputs@, 48000, k) && s == stream_spec_of(
                    inputs@[k],
                    48000,
                    target_buffer_frames,
                )) || ((forall|a: int| !holds_rate(inputs@, 48000, a)) && exists|k: int|
                is_best_single(inputs@, 44100, k) && s == stream_spec_of(
                    inputs@[k],
                    44100,
                    target_buffer_frames,
                )),
            None => (forall|a: int| !holds_rate(inputs@, 48000, a)) && (forall|a: int|
                !holds_rate(inputs@, 44100, a)),
        },
{
    match output_spec_at_rate(inputs, 48000, target_buffer_frames) {
        Some(s) => Some(s),
        None => output_spec_at_rate(inputs, 44100, target_buffer_frames),
    }
}

/// Negotiates a shared rate and a configuration for each device from the ranges they
/// support; none when no supported pair shares a rate.
pub fn negotiate_ranges(
    input_configs: &[ConfigRange],
    output_configs: &[ConfigRange],
    target_buffer_frames: u32,
) -> (negotiated: Option<NegotiatedStreamConfig>)
    requires
        channels_bounded(input_configs@),
        channels_bounded(output_configs@),
        forall|k: int|
            0 <= k < input_configs@.len() ==> buffer_range_ok(#[trigger] input_configs@[k].buffer_size),
        forall|k: int|
            0 <= k < output_configs@.len() ==> buffer_range_ok(#[trigger] output_configs@[k].buffer_size),
    ensures
        match negotiated {
            Some(n) => exists|i: int, j: int|
                is_best_pair(supported_only(input_configs@), supported_only(output_configs@), i, j)
                    && pair_rate(
                    supported_only(input_configs@)[i],
                    supported_only(output_configs@)[j],
                ) == Some(n.sample_rate) && n.input == stream_spec_of(
                    supported_only(input_configs@)[i],
                    n.sample_rate,
                    target_buffer_frames,
                ) && n.output == stream_spec_of(
                    supported_only(output_configs@)[j],
                    n.sample_rate,
                    target_buffer_frames,
                ),
            None => !any_viable(supported_only(input_configs@), supported_only(output_configs@)),
        },
{
    let inputs = supported_configs(input_configs);
    let outputs = supported_configs(output_configs);
    proof {
        lemma_supported_only_members(input_configs@);
        lemma_supported_only_members(output_configs@);
        assert forall|k: int| 0 <= k < inputs@.len() implies (#[trigger] inputs@[k]).channels <= 32765
            && buffer_range_ok(inputs@[k].buffer_size) by {
            let q = choose|q: int| 0 <= q < input_configs@.len() && input_configs@[q] == inputs@[k];
            assert(input_configs@[q].channels <= 32765);
        }
        assert forall|k: int| 0 <= k < outputs@.len() implies (#[trigger] outputs@[k]).channels
            <= 32765 && buffer_range_ok(outputs@[k].buffer_size) by {
            let q = choose|q: int|
                0 <= q < output_configs@.len() && output_configs@[q] == outputs@[k];
            assert(output_configs@[q].channels <= 32765);
        }
    }
    match select_stream_pair(inputs.as_slice(), outputs.as_slice()) {
        None => None,
        Some((i, j, rate)) => {
            let input = stream_spec(&inputs[i], rate, target_buffer_frames);
            let output = stream_spec(&outputs[j], rate, target_buffer_frames);
            Some(NegotiatedStreamConfig { input, output, sample_rate: rate })
        },
    }
}

/// Every kept range is one of the given ranges.
proof fn lemma_supported_only_members(configs: Seq<ConfigRange>)
    ensures
        forall|k: int|
            0 <= k < supported_only(configs).len() ==> exists|q: int|
                0 <= q < configs.len() && configs[q] == #[trigger] supported_only(configs)[k],
    decreases configs.len(),
{
    if configs.len() > 0 {
        lemma_supported_only_members(configs.drop_last());
        let rest = supported_only(configs.drop_last());
        assert forall|k: int| 0 <= k < supported_only(configs).len() implies exists|q: int|
            0 <= q < configs.len() && configs[q] == #[trigger] supported_only(configs)[k] by {
            if k < rest.len() {
                let q = choose|q: int|
                    0 <= q < configs.drop_last().len() && configs.drop_last()[q] == rest[k];
                assert(configs[q] == supported_only(configs)[k]);
            } else {
                assert(configs[configs.len() - 1] == supported_only(configs)[k]);
            }
        }
    }
}


/// The buffer requested from a device with a supported range is the target clamped into
/// that range: it lies in the range, it is the target whenever the target lies in the
/// range, and no size in the range is closer to the target. With no known range the
/// host default is asked for and the target is reported.
pub proof fn lemma_buffer_is_the_clamped_target(supported: SupportedBufferSize, target: u32)
    requires
        buffer_range_ok(supported),
    ensures
        match supported {
            SupportedBufferSize::Range { min, max } => {
                let frames = buffer_choice(supported, target).1;
                &&& buffer_choice(supported, target).0 == BufferSize::Fixed(frames)
                &&& min <= frames <= max
                &&& min <= target <= max ==> frames == target
                &&& target < min ==> frames == min
                &&& target > max ==> frames == max
                &&& forall|f: u32|
                    min <= f <= max ==> #[trigger] distance(frames, target) <= distance(f, target)
            },
            SupportedBufferSize::Unknown => buffer_choice(supported, target) == (
                BufferSize::Default,
                target,
            ),
        },
{
}

/// How far apart two frame counts are.
pub open spec fn distance(a: u32, b: u32) -> int {
    if a >= b {
        a - b
    } else {
        b - a
    }
}


/// The shared rate chosen from a range of rates lies in the range, is 48 kHz whenever the
/// range holds it, is 44.1 kHz when the range holds that but not 48 kHz, and exists
/// exactly when the range is not empty.
pub proof fn lemma_preferred_rate_is_in_range(min_rate: u32, max_rate: u32)
    ensures
        preferred_rate_spec(min_rate, max_rate) is Some <==> min_rate <= max_rate,
        preferred_rate_spec(min_rate, max_rate) matches Some(r) ==> min_rate <= r <= max_rate,
        min_rate <= 48_000 <= max_rate ==> preferred_rate_spec(min_rate, max_rate) == Some(48_000u32),
        min_rate <= 44_100 <= max_rate && !(min_rate <= 48_000 <= max_rate) ==> preferred_rate_spec(
            min_rate,
            max_rate,
        ) == Some(44_100u32),
{
}
} // verus!
