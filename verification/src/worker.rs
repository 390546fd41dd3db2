use vstd::prelude::*;

use crate::reliability::{profile_config, ReliabilityProfile};

verus! {

/// What the DSP worker does after a wake-up.
#[derive(Clone, Copy, Debug, PartialEq, Eq, Structural)]
pub enum WakeDecision {
    /// Enough input is queued: process blocks until less than one remains.
    Process,
    /// Too little input is queued: wait for the next wake-up, after counting an input
    /// underrun when `record_underrun` is set.
    Wait { record_underrun: bool },
}

/// The DSP worker's pacing: block size, processing deadline, and how many short
/// wake-ups in a row it tolerates before it counts an input underrun.
pub struct DspSchedule {
    channels: usize,
    block_frames: usize,
    block_samples: usize,
    deadline_microseconds: u64,
    underrun_tolerance_blocks: u32,
    insufficient_wakes: u32,
}

/// The processing deadline of one block, in microseconds (at least one).
pub open spec fn deadline_spec(block_frames: int, sample_rate: int) -> int {
    let d = block_frames * 1_000_000 / if sample_rate > 0 {
        sample_rate
    } else {
        1
    };
    if d > 0 {
        d
    } else {
        1
    }
}

impl DspSchedule {
    /// The schedule is consistent: at least one channel and one frame per block, and
    /// never more short wake-ups pending than tolerated.
    pub closed spec fn wf(&self) -> bool {
        &&& self.channels >= 1
        &&& self.block_frames >= 1
        &&& self.block_samples == self.block_frames * self.channels
        &&& self.insufficient_wakes <= self.underrun_tolerance_blocks
        &&& self.underrun_tolerance_blocks < u32::MAX
    }

    /// Samples in one block.
    pub closed spec fn block_sample_count(&self) -> nat {
        self.block_samples as nat
    }

    /// Channels per frame.
    pub closed spec fn channel_count(&self) -> nat {
        self.channels as nat
    }

    /// Short wake-ups since the last processed block or counted underrun.
    pub closed spec fn pending_short_wakes(&self) -> nat {
        self.insufficient_wakes as nat
    }

    /// Short wake-ups tolerated before an underrun is counted.
    pub closed spec fn tolerance(&self) -> nat {
        self.underrun_tolerance_blocks as nat
    }

    /// The deadline of one block in microseconds.
    pub closed spec fn deadline(&self) -> nat {
        self.deadline_microseconds as nat
    }

    /// The schedule for a stream format and reliability profile; zero channels or
    /// frames count as one.
    pub fn new(sample_rate: u32, channels: usize, block_frames: usize, profile: ReliabilityProfile) -> (schedule: Self)
        requires
            (if block_frames > 0 { block_frames as int } else { 1 }) * (if channels > 0 { channels as int } else { 1 }) <= usize::MAX,
            (if block_frames > 0 { block_frames as int } else { 1 }) * 1_000_000 <= u64::MAX,
        ensures
            schedule.wf(),
            schedule.channel_count() == if channels > 0 { channels as int } else { 1 },
            schedule.block_sample_count() == (if block_frames > 0 { block_frames as int } else { 1 }) * schedule.channel_count(),
            schedule.deadline() == deadline_spec(if block_frames > 0 { block_frames as int } else { 1 }, sample_rate as int),
            schedule.tolerance() == profile_config(profile).underrun_tolerance_blocks,
            schedule.pending_short_wakes() == 0,
    {
        let channels = if channels > 0 { channels } else { 1 };
        let block_frames = if block_frames > 0 { block_frames } else { 1 };
        let rate: u64 = if sample_rate > 0 { sample_rate as u64 } else { 1 };
        let frames = block_frames as u64;
        let d = frames * 1_000_000 / rate;
        let deadline_microseconds = if d > 0 { d } else { 1 };
        let config = profile.config();
        DspSchedule {
            channels,
            block_frames,
            block_samples: block_frames * channels,
            deadline_microseconds,
            underrun_tolerance_blocks: config.underrun_tolerance_blocks,
            insufficient_wakes: 0,
        }
    }

    /// Samples in one block.
    pub fn block_samples(&self) -> (samples: usize)
        ensures
            samples == self.block_sample_count(),
    {
        self.block_samples
    }

    /// The deadline of one block in microseconds.
    pub fn deadline_microseconds(&self) -> (deadline: u64)
        ensures
            deadline == self.deadline(),
    {
        self.deadline_microseconds
    }

    /// Whether processing a block took longer than its deadline.
    pub fn missed_deadline(&self, elapsed_microseconds: u64) -> (missed: bool)
        ensures
            missed == (elapsed_microseconds > self.deadline()),
    {
        elapsed_microseconds > self.deadline_microseconds
    }

    /// Whole frames in a number of queued samples.
    pub fn frames_in(&self, samples: usize) -> (frames: usize)
        requires
            self.wf(),
        ensures
            frames as nat == (samples as nat) / self.channel_count(),
    {
        samples / self.channels
    }

    /// Decides what to do after a wake-up with `occupied` samples queued. A full block
    /// resets the count of short wake-ups; a short wake-up adds to it, and once it
    /// exceeds the tolerance an underrun is counted and the count starts again.
    pub fn on_wake(&mut self, occupied: usize) -> (decision: WakeDecision)
        requires
            old(self).wf(),
        ensures
            final(self).wf(),
            final(self).block_sample_count() == old(self).block_sample_count(),
            final(self).channel_count() == old(self).channel_count(),
            final(self).tolerance() == old(self).tolerance(),
            final(self).deadline() == old(self).deadline(),
            occupied >= old(self).block_sample_count() ==> decision == WakeDecision::Process
                && final(self).pending_short_wakes() == 0,
            occupied < old(self).block_sample_count() ==> {
                let next = old(self).pending_short_wakes() + 1;
                &&& next > old(self).tolerance() ==> decision == (WakeDecision::Wait {
                    record_underrun: true,
                }) && final(self).pending_short_wakes() == 0
                &&& next <= old(self).tolerance() ==> decision == (WakeDecision::Wait {
                    record_underrun: false,
                }) && final(self).pending_short_wakes() == next
            },
    {
        if occupied < self.block_samples {
            let next = self.insufficient_wakes.saturating_add(1);
            if next > self.underrun_tolerance_blocks {
                self.insufficient_wakes = 0;
                WakeDecision::Wait { record_underrun: true }
            } else {
                self.insufficient_wakes = next;
                WakeDecision::Wait { record_underrun: false }
            }
        } else {
            self.insufficient_wakes = 0;
            WakeDecision::Process
        }
    }
}

/// The pending count and the underruns counted after `n` short wake-ups in a row,
/// starting from no pending short wake-ups.
pub open spec fn short_wake_run(n: nat, tolerance: nat) -> (nat, nat)
    decreases n,
{
    if n == 0 {
        (0, 0)
    } else {
        let (pending, underruns) = short_wake_run((n - 1) as nat, tolerance);
        if pending + 1 > tolerance {
            (0, underruns + 1)
        } else {
            (pending + 1, underruns)
        }
    }
}

/// Over a run of short wake-ups, one underrun is counted for every `tolerance + 1` of
/// them, and the rest stay pending.
pub proof fn lemma_underrun_every_tolerance_plus_one(n: nat, tolerance: nat)
    ensures
        short_wake_run(n, tolerance).0 == n % (tolerance + 1),
        short_wake_run(n, tolerance).1 == n / (tolerance + 1),
    decreases n,
{
    if n > 0 {
        lemma_underrun_every_tolerance_plus_one((n - 1) as nat, tolerance);
        let m: int = n - 1;
        let t: int = tolerance as int + 1;
        let q: int = m / t;
        let r: int = m % t;
        lemma_div_mod(m, t);
        if r + 1 == t {
            assert(t * (q + 1) == t * q + t) by (nonlinear_arith);
            lemma_div_mod_unique(n as int, t, q + 1, 0);
        } else {
            lemma_div_mod_unique(n as int, t, q, r + 1);
        }
    }
}

/// Euclidean division of a natural number by a positive one.
proof fn lemma_div_mod(m: int, t: int)
    requires
        m >= 0,
        t > 0,
    ensures
        m == t * (m / t) + m % t,
        0 <= m % t < t,
{
    assert(m == t * (m / t) + m % t && 0 <= m % t < t) by (nonlinear_arith)
        requires
            m >= 0,
            t > 0,
    ;
}

/// The quotient and remainder are determined by the value.
proof fn lemma_div_mod_unique(n: int, t: int, q: int, r: int)
    requires
        t > 0,
        0 <= r < t,
        n == t * q + r,
    ensures
        n / t == q,
        n % t == r,
{
    assert(n / t == q && n % t == r) by (nonlinear_arith)
        requires
            t > 0,
            0 <= r < t,
            n == t * q + r,
    ;
}

} // verus!
