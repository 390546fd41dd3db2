use vstd::prelude::*;

use crate::device::{
    family_spec, device_id_spec, is_likely_virtual_endpoint_name, normalized_virtual_family,
    stable_device_id, virtual_hint, DeviceDirection, DeviceInfo,
};
use crate::stream_config::ConfigRange;
use crate::text::{from_chars, normalized_name, str_equal, to_chars};

verus! {

/// The lowest minimum rate among the configurations.
pub open spec fn lowest_rate(configs: Seq<ConfigRange>) -> Option<u32>
    decreases configs.len(),
{
    if configs.len() == 0 {
        None
    } else {
        let last = configs.last().min_sample_rate;
        match lowest_rate(configs.drop_last()) {
            Some(r) => Some(if r <= last { r } else { last }),
            None => Some(last),
        }
    }
}

/// The highest maximum rate among the configurations.
pub open spec fn highest_rate(configs: Seq<ConfigRange>) -> Option<u32>
    decreases configs.len(),
{
    if configs.len() == 0 {
        None
    } else {
        let last = configs.last().max_sample_rate;
        match highest_rate(configs.drop_last()) {
            Some(r) => Some(if r >= last { r } else { last }),
            None => Some(last),
        }
    }
}

/// Some configuration covers the rate.
pub open spec fn covers(configs: Seq<ConfigRange>, rate: u32) -> bool {
    exists|i: int| 0 <= i < configs.len() && configs[i].min_sample_rate <= rate <= #[trigger] configs[i].max_sample_rate
}

/// The common rates (44.1 kHz and 48 kHz) that some configuration covers, ascending.
pub open spec fn common_rates(configs: Seq<ConfigRange>) -> Seq<u32> {
    (if covers(configs, 44100) { seq![44100u32] } else { Seq::<u32>::empty() }) + (if covers(configs, 48000) {
        seq![48000u32]
    } else {
        Seq::<u32>::empty()
    })
}

/// The channel counts of the configurations.
pub open spec fn channel_set(configs: Seq<ConfigRange>) -> Set<u16> {
    Set::new(|c: u16| exists|i: int| 0 <= i < configs.len() && #[trigger] configs[i].channels == c)
}

/// Strictly ascending.
pub open spec fn ascending(values: Seq<u16>) -> bool {
    forall|a: int, b: int| 0 <= a < b < values.len() ==> values[a] < values[b]
}

/// Inserts a channel count into an ascending list without repeating it.
fn insert_channel(counts: &mut Vec<u16>, value: u16)
    requires
        ascending(old(counts)@),
    ensures
        ascending(final(counts)@),
        final(counts)@.to_set() == old(counts)@.to_set().insert(value),
{
    let mut i: usize = 0;
    while i < counts.len() && counts[i] < value
        invariant
            i <= counts@.len(),
            forall|j: int| 0 <= j < i ==> counts@[j] < value,
        decreases counts@.len() - i,
    {
        i = i + 1;
    }
    if i < counts.len() && counts[i] == value {
        assert(counts@.to_set() =~= counts@.to_set().insert(value)) by {
            assert(counts@.contains(value));
        }
        return;
    }
    let ghost before = counts@;
    counts.insert(i, value);
    proof {
        assert forall|a: int, b: int| 0 <= a < b < counts@.len() implies counts@[a] < counts@[b] by {
            if b < i {
                assert(counts@[a] == before[a] && counts@[b] == before[b]);
            } else if b == i {
                assert(counts@[a] == before[a]);
            } else if a < i {
                assert(counts@[a] == before[a] && counts@[b] == before[b - 1]);
                assert(before[b - 1] >= value);
            } else if a == i {
                assert(counts@[b] == before[b - 1]);
            } else {
                assert(counts@[a] == before[a - 1] && counts@[b] == before[b - 1]);
            }
        }
        assert forall|x: u16| counts@.to_set().contains(x) <==> before.to_set().insert(value).contains(x) by {
            if counts@.to_set().contains(x) {
                let k = choose|k: int| 0 <= k < counts@.len() && counts@[k] == x;
                if k < i {
                    assert(before[k] == x);
                } else if k > i {
                    assert(before[k - 1] == x);
                }
            }
            if before.to_set().contains(x) {
                let k = choose|k: int| 0 <= k < before.len() && before[k] == x;
                if k < i {
                    assert(counts@[k] == x);
                } else {
                    assert(counts@[k + 1] == x);
                }
            }
            if x == value {
                assert(counts@[i as int] == x);
            }
        }
        assert(counts@.to_set() =~= before.to_set().insert(value));
    }
}

/// What a device supports: the lowest and highest rate, the common rates it covers,
/// and its channel counts, ascending and each once.
pub fn capability_summary(configs: &[ConfigRange]) -> (summary: (Option<u32>, Option<u32>, Vec<u32>, Vec<u16>))
    ensures
        summary.0 == lowest_rate(configs@),
        summary.1 == highest_rate(configs@),
        summary.2@ == common_rates(configs@),
        ascending(summary.3@),
        summary.3@.to_set() == channel_set(configs@),
{
    let mut lowest: Option<u32> = None;
    let mut highest: Option<u32> = None;
    let mut covers_44: bool = false;
    let mut covers_48: bool = false;
    let mut channels: Vec<u16> = Vec::new();
    let mut i: usize = 0;
    while i < configs.len()
        invariant
            i <= configs@.len(),
            lowest == lowest_rate(configs@.take(i as int)),
            highest == highest_rate(configs@.take(i as int)),
            covers_44 == covers(configs@.take(i as int), 44100),
            covers_48 == covers(configs@.take(i as int), 48000),
            ascending(channels@),
            channels@.to_set() == channel_set(configs@.take(i as int)),
        decreases configs@.len() - i,
    {
        let c = configs[i];
        let ghost prefix = configs@.take(i as int);
        let ghost next = configs@.take(i + 1);
        assert(next.drop_last() =~= prefix);
        assert(next.last() == c);
        lowest = match lowest {
            Some(r) => Some(if r <= c.min_sample_rate { r } else { c.min_sample_rate }),
            None => Some(c.min_sample_rate),
        };
        highest = match highest {
            Some(r) => Some(if r >= c.max_sample_rate { r } else { c.max_sample_rate }),
            None => Some(c.max_sample_rate),
        };
        proof {
            assert forall|rate: u32| covers(next, rate) <==> covers(prefix, rate) || (c.min_sample_rate <= rate
                <= c.max_sample_rate) by {
                if covers(next, rate) {
                    let k = choose|k: int| 0 <= k < next.len() && next[k].min_sample_rate <= rate <= #[trigger] next[k].max_sample_rate;
                    if k < prefix.len() {
                        assert(prefix[k] == next[k]);
                    }
                }
                if covers(prefix, rate) {
                    let k = choose|k: int| 0 <= k < prefix.len() && prefix[k].min_sample_rate <= rate <= #[trigger] prefix[k].max_sample_rate;
                    assert(next[k] == prefix[k]);
                }
                if c.min_sample_rate <= rate <= c.max_sample_rate {
                    assert(next[i as int] == c);
                }
            }
        }
        covers_44 = covers_44 || (c.min_sample_rate <= 44100 && 44100 <= c.max_sample_rate);
        covers_48 = covers_48 || (c.min_sample_rate <= 48000 && 48000 <= c.max_sample_rate);
        insert_channel(&mut channels, c.channels);
        proof {
            assert forall|x: u16| channel_set(next).contains(x) <==> channel_set(prefix).insert(c.channels).contains(x) by {
                if channel_set(next).contains(x) {
                    let k = choose|k: int| 0 <= k < next.len() && #[trigger] next[k].channels == x;
                    if k < prefix.len() {
                        assert(prefix[k] == next[k]);
                    }
                }
                if channel_set(prefix).contains(x) {
                    let k = choose|k: int| 0 <= k < prefix.len() && #[trigger] prefix[k].channels == x;
                    assert(next[k] == prefix[k]);
                }
                if x == c.channels {
                    assert(next[i as int].channels == x);
                }
            }
            assert(channel_set(next) =~= channel_set(prefix).insert(c.channels));
        }
        i = i + 1;
    }
    assert(configs@.take(configs@.len() as int) =~= configs@);
    let mut rates: Vec<u32> = Vec::new();
    if covers_44 {
        rates.push(44100);
    }
    if covers_48 {
        rates.push(48000);
    }
    assert(rates@ =~= common_rates(configs@));
    (lowest, highest, rates, channels)
}

/// The description of an endpoint from its name, the name of the direction's default
/// endpoint (if known) and its supported configurations.
pub fn describe_device(
    direction: DeviceDirection,
    name: &str,
    default_name: Option<&str>,
    configs: &[ConfigRange],
) -> (device: DeviceInfo)
    ensures
        device@.id == device_id_spec(direction, name@),
        device@.name == name@,
        device.direction == direction,
        device.is_default == (default_name matches Some(d) && d@ == name@),
        device.is_likely_virtual == virtual_hint(direction, normalized_name(name@)),
        device@.virtual_family == (if device.is_likely_virtual {
            Some(family_spec(normalized_name(name@)))
        } else {
            None
        }),
        device.minimum_sample_rate == lowest_rate(configs@),
        device.maximum_sample_rate == highest_rate(configs@),
        device.common_sample_rates@ == common_rates(configs@),
        ascending(device.channel_counts@),
        device.channel_counts@.to_set() == channel_set(configs@),
{
    let (minimum_sample_rate, maximum_sample_rate, common_sample_rates, channel_counts) = capability_summary(configs);
    let is_likely_virtual = is_likely_virtual_endpoint_name(direction, name);
    let is_default = match default_name {
        Some(d) => str_equal(d, name),
        None => false,
    };
    DeviceInfo {
        id: stable_device_id(direction, name),
        name: from_chars(to_chars(name).as_slice()),
        direction,
        is_default,
        is_likely_virtual,
        virtual_family: if is_likely_virtual {
            Some(normalized_virtual_family(name))
        } else {
            None
        },
        minimum_sample_rate,
        maximum_sample_rate,
        common_sample_rates,
        channel_counts,
    }
}

} // verus!
