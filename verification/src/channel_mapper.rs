use vstd::prelude::*;

verus! {

/// Where one output channel's sample comes from in an input frame.
#[derive(Clone, Copy, Debug, PartialEq, Eq, Structural)]
pub enum ChannelSource {
    /// Nothing to take: silence.
    Silence,
    /// The average of all input channels.
    Average,
    /// The input channel at this index.
    Channel(usize),
}

/// An empty frame or no output gives silence; a mono output mixes all inputs down; a
/// mono input feeds every output; otherwise each output takes the input channel at its
/// index, and outputs beyond the inputs take the average.
pub open spec fn channel_source_spec(input_channels: usize, output_channel: usize, output_channels: usize) -> ChannelSource {
    if input_channels == 0 || output_channels == 0 {
        ChannelSource::Silence
    } else if output_channels == 1 {
        ChannelSource::Average
    } else if input_channels == 1 {
        ChannelSource::Channel(0)
    } else if output_channel < input_channels {
        ChannelSource::Channel(output_channel)
    } else {
        ChannelSource::Average
    }
}

/// Chooses the source of one output channel (see `channel_source_spec`).
pub fn channel_source(input_channels: usize, output_channel: usize, output_channels: usize) -> (source: ChannelSource)
    ensures
        source == channel_source_spec(input_channels, output_channel, output_channels),
        source matches ChannelSource::Channel(i) ==> i < input_channels,
{
    if input_channels == 0 || output_channels == 0 {
        ChannelSource::Silence
    } else if output_channels == 1 {
        ChannelSource::Average
    } else if input_channels == 1 {
        ChannelSource::Channel(0)
    } else if output_channel < input_channels {
        ChannelSource::Channel(output_channel)
    } else {
        ChannelSource::Average
    }
}

} // verus!
