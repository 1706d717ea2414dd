//! The choice among the stream configurations that an output device offers.
//!
//! A device lists ranges of configurations. Only those whose range of sample rates
//! holds the engine's rate are eligible. Among them two channels are preferred to
//! more, more to one, and any to none; then signed 16-bit samples to unsigned ones,
//! and those to floats; then the smaller least buffer. Of several equally good
//! ranges the one listed first is taken.

use vstd::prelude::*;
use crate::audio::{BufferSize, StreamConfig};

verus! {

/// The type of the samples that a device expects.
#[derive(Clone, Copy, Debug, PartialEq, Eq, Structural)]
pub enum SampleFormat {
    I16,
    U16,
    F32,
}

/// The buffer sizes that a device supports, in frames.
#[derive(Clone, Copy, Debug, PartialEq, Eq, Structural)]
pub enum SupportedBufferSize {
    Range { min: u32, max: u32 },
    Unknown,
}

/// A range of configurations that a device supports.
#[derive(Clone, Copy, Debug, PartialEq, Eq, Structural)]
pub struct SupportedConfigRange {
    pub channels: u16,
    pub min_sample_rate: u32,
    pub max_sample_rate: u32,
    pub buffer_size: SupportedBufferSize,
    pub sample_format: SampleFormat,
}

/// The rank of a channel count; lower is better.
pub open spec fn spec_channel_rank(channels: u16) -> nat {
    if channels == 0 {
        u16::MAX as nat
    } else if channels == 1 {
        12
    } else if channels == 2 {
        0
    } else {
        channels as nat
    }
}

/// The rank of a sample format; lower is better.
pub open spec fn spec_format_rank(format: SampleFormat) -> nat {
    match format {
        SampleFormat::I16 => 0,
        SampleFormat::U16 => 1,
        SampleFormat::F32 => 2,
    }
}

/// The rank of a range of buffer sizes; lower is better.
pub open spec fn spec_buffer_rank(size: SupportedBufferSize) -> nat {
    match size {
        SupportedBufferSize::Unknown => u32::MAX as nat,
        SupportedBufferSize::Range { min, max } => min as nat,
    }
}

/// Whether `a` is strictly better than `b`: by channels, then by format, then by
/// buffer.
pub open spec fn spec_better(a: SupportedConfigRange, b: SupportedConfigRange) -> bool {
    let ca = spec_channel_rank(a.channels);
    let cb = spec_channel_rank(b.channels);
    let fa = spec_format_rank(a.sample_format);
    let fb = spec_format_rank(b.sample_format);
    let ba = spec_buffer_rank(a.buffer_size);
    let bb = spec_buffer_rank(b.buffer_size);
    ca < cb || (ca == cb && (fa < fb || (fa == fb && ba < bb)))
}

/// Whether the range offers the sample rate `rate`.
pub open spec fn spec_supports(range: SupportedConfigRange, rate: u32) -> bool {
    range.min_sample_rate <= rate <= range.max_sample_rate
}

/// Whether `configs[chosen]` is the range to take for `rate`: it offers the rate, no
/// range that offers it is better, and every such range listed before it is worse.
pub open spec fn spec_chosen(configs: Seq<SupportedConfigRange>, rate: u32, chosen: int) -> bool {
    &&& 0 <= chosen < configs.len()
    &&& spec_supports(configs[chosen], rate)
    &&& forall|j: int|
        0 <= j < configs.len() && spec_supports(#[trigger] configs[j], rate) ==> !spec_better(
            configs[j],
            configs[chosen],
        )
    &&& forall|j: int|
        0 <= j < chosen && spec_supports(#[trigger] configs[j], rate) ==> spec_better(
            configs[chosen],
            configs[j],
        )
}

/// `rate` brought into the range from `min` to `max`.
pub open spec fn spec_clamp(rate: u32, min: u32, max: u32) -> u32 {
    if rate < min {
        min
    } else if rate > max {
        max
    } else {
        rate
    }
}

pub fn channel_rank(channels: u16) -> (rank: u16)
    ensures
        rank == spec_channel_rank(channels),
{
    if channels == 0 {
        u16::MAX
    } else if channels == 1 {
        12
    } else if channels == 2 {
        0
    } else {
        channels
    }
}

pub fn format_rank(format: SampleFormat) -> (rank: u8)
    ensures
        rank == spec_format_rank(format),
{
    match format {
        SampleFormat::I16 => 0,
        SampleFormat::U16 => 1,
        SampleFormat::F32 => 2,
    }
}

pub fn buffer_rank(size: SupportedBufferSize) -> (rank: u32)
    ensures
        rank == spec_buffer_rank(size),
{
    match size {
        SupportedBufferSize::Unknown => u32::MAX,
        SupportedBufferSize::Range { min, max } => min,
    }
}

impl SupportedConfigRange {
    pub fn supports(&self, rate: u32) -> (yes: bool)
        ensures
            yes == spec_supports(*self, rate),
    {
        self.min_sample_rate <= rate && rate <= self.max_sample_rate
    }

    pub fn better_than(&self, other: &SupportedConfigRange) -> (yes: bool)
        ensures
            yes == spec_better(*self, *other),
    {
        let ca: u16 = channel_rank(self.channels);
        let cb: u16 = channel_rank(other.channels);
        let fa: u8 = format_rank(self.sample_format);
        let fb: u8 = format_rank(other.sample_format);
        let ba: u32 = buffer_rank(self.buffer_size);
        let bb: u32 = buffer_rank(other.buffer_size);
        ca < cb || (ca == cb && (fa < fb || (fa == fb && ba < bb)))
    }

    /// The configuration to open a stream with: the channels of the range, `rate`
    /// brought into the range, and the device's own buffer size.
    pub fn stream_config(&self, rate: u32) -> (cfg: StreamConfig)
        requires
            self.min_sample_rate <= self.max_sample_rate,
        ensures
            cfg.channels == self.channels,
            cfg.sample_rate == spec_clamp(rate, self.min_sample_rate, self.max_sample_rate),
            cfg.buffer_size == BufferSize::Default,
    {
        let sample_rate: u32 = if rate < self.min_sample_rate {
            self.min_sample_rate
        } else if rate > self.max_sample_rate {
            self.max_sample_rate
        } else {
            rate
        };
        StreamConfig { channels: self.channels, sample_rate, buffer_size: BufferSize::Default }
    }
}

/// The index of the range to take for `rate`, or `None` where no range offers it.
pub fn select_config(configs: &Vec<SupportedConfigRange>, rate: u32) -> (chosen: Option<usize>)
    ensures
        chosen is None <==> (forall|j: int|
            0 <= j < configs@.len() ==> !spec_supports(#[trigger] configs@[j], rate)),
        chosen matches Some(i) ==> spec_chosen(configs@, rate, i as int),
{
    let mut best: Option<usize> = None;
    let mut i: usize = 0;
    while i < configs.len()
        invariant
            i <= configs@.len(),
            best is None <==> (forall|j: int|
                0 <= j < i ==> !spec_supports(#[trigger] configs@[j], rate)),
            best matches Some(b) ==> b < i && spec_chosen(configs@.take(i as int), rate, b as int),
        decreases configs@.len() - i,
    {
        let candidate: &SupportedConfigRange = &configs[i];
        if candidate.supports(rate) {
            match best {
                None => {
                    best = Some(i);
                },
                Some(b) => {
                    if candidate.better_than(&configs[b]) {
                        best = Some(i);
                    }
                },
            }
        }
        i += 1;
        proof {
            let seen = configs@.take(i as int);
            assert forall|j: int| 0 <= j < i implies seen[j] == configs@[j] by {}
        }
    }
    proof {
        assert(configs@.take(i as int) =~= configs@);
    }
    best
}

/// At most one index is the range to take.
pub proof fn lemma_chosen_is_unique(configs: Seq<SupportedConfigRange>, rate: u32, a: int, b: int)
    requires
        spec_chosen(configs, rate, a),
        spec_chosen(configs, rate, b),
    ensures
        a == b,
{
    if a < b {
        assert(spec_better(configs[b], configs[a]));
    } else if b < a {
        assert(spec_better(configs[a], configs[b]));
    }
}

} // verus!
