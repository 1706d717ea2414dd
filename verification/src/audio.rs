//! The audio bridge between the stepping loop and the output device's callback.
//!
//! The stepping loop owns an `AudioBackend` and pushes the engine's samples into a
//! ring of fixed capacity; the device's callback owns the matching `AudioSink` and
//! pulls interleaved frames out of it. Neither side ever waits for the other: a push
//! that finds no room for a whole stereo sample drops it, a pop on an empty ring
//! yields silence.
//!
//! Each half works on what it knows. The backend knows of free places it has counted
//! and not yet filled; the sink knows of samples it has seen waiting and not yet
//! taken. The other half can only add to either, so both are floors, and within them
//! every push and pop is exact. A caller that holds both halves can `survey` the ring
//! and learn all of it.

use vstd::prelude::*;
use crate::ring::{
    consumer_capacity,
    consumer_len,
    consumer_pop,
    consumer_ready,
    consumer_released,
    consumer_remaining,
    consumer_ring,
    producer_accepted,
    producer_capacity,
    producer_push,
    producer_remaining,
    producer_ring,
    producer_room,
    ring_with_capacity,
};

verus! {

/// The rate at which the engine produces samples, in hertz.
pub const SAMPLE_RATE: u32 = 32000;

/// The frames a device buffer is taken to hold where the device names no size.
pub const DEFAULT_BUFFER_FRAMES: u32 = 1024;

/// One sample of the engine: a left and a right channel.
#[derive(Clone, Copy, Debug, PartialEq, Eq, Structural)]
pub struct StereoSample {
    pub l: i16,
    pub r: i16,
}

/// The size of the device's buffer in frames.
#[derive(Clone, Copy, Debug, PartialEq, Eq, Structural)]
pub enum BufferSize {
    Default,
    Fixed(u32),
}

/// What was negotiated with the output device.
#[derive(Clone, Copy, Debug, PartialEq, Eq, Structural)]
pub struct StreamConfig {
    pub channels: u16,
    pub sample_rate: u32,
    pub buffer_size: BufferSize,
}

/// The ring that a stream asks for cannot be allocated on this machine.
#[derive(Clone, Copy, Debug, PartialEq, Eq, Structural)]
pub struct RingTooLarge;

pub open spec fn spec_buffer_frames(size: BufferSize) -> nat {
    match size {
        BufferSize::Fixed(frames) => frames as nat,
        BufferSize::Default => DEFAULT_BUFFER_FRAMES as nat,
    }
}

/// The capacity of a stream's ring in samples: the device buffer and a sixth of a
/// second on top, in each channel.
pub open spec fn spec_ring_size(cfg: StreamConfig) -> nat {
    (spec_buffer_frames(cfg.buffer_size) + cfg.sample_rate as nat / 6) * cfg.channels as nat
}

/// The samples of silence that a new ring of `ring_size` samples starts with.
pub open spec fn spec_prefill(ring_size: nat) -> nat {
    ring_size / 5
}

/// Whether a ring of `ring_size` samples can be made: the size is a `u32`, and the
/// bytes of one slot more fit an allocation.
pub open spec fn spec_ring_fits(ring_size: nat) -> bool {
    ring_size <= u32::MAX && (ring_size + 1) * 2 <= isize::MAX
}

/// `n` samples of silence.
pub open spec fn spec_silence(n: nat) -> Seq<i16> {
    Seq::new(n, |i: int| 0i16)
}

/// A counter one higher, that stays at the top of its range.
pub open spec fn spec_count_up(count: nat) -> nat {
    if count < u64::MAX {
        count + 1
    } else {
        count
    }
}

/// The samples of one output frame of `channels` channels: left and right where there
/// are two channels, the left sample in every channel otherwise.
pub open spec fn spec_frame(sample: StereoSample, channels: nat) -> Seq<i16> {
    if channels == 2 {
        seq![sample.l, sample.r]
    } else {
        Seq::new(channels, |i: int| sample.l)
    }
}

/// The frames of `samples`, one after the other.
pub open spec fn spec_frames(samples: Seq<StereoSample>, channels: nat) -> Seq<i16>
    decreases samples.len(),
{
    if samples.len() == 0 {
        Seq::empty()
    } else {
        spec_frames(samples.drop_last(), channels) + spec_frame(samples.last(), channels)
    }
}

/// Whether `after` is `before` with each whole frame of `channels` places overwritten
/// by the frame of the matching sample of `samples`, and what follows the last whole
/// frame left as it was.
pub open spec fn spec_frames_written(
    before: Seq<i16>,
    after: Seq<i16>,
    samples: Seq<StereoSample>,
    channels: nat,
) -> bool {
    &&& samples.len() == before.len() / channels
    &&& after == spec_frames(samples, channels) + before.skip((samples.len() * channels) as int)
}

/// The first `count` stereo samples of a run of interleaved samples.
pub open spec fn spec_pairs(interleaved: Seq<i16>, count: nat) -> Seq<StereoSample> {
    Seq::new(count, |f: int| StereoSample { l: interleaved[2 * f], r: interleaved[2 * f + 1] })
}

/// The run of channel samples that some stereo samples stand for: left, right, left,
/// right.
pub open spec fn spec_interleaved(samples: Seq<StereoSample>) -> Seq<i16> {
    Seq::new(
        2 * samples.len(),
        |i: int|
            if i % 2 == 0 {
                samples[i / 2].l
            } else {
                samples[i / 2].r
            },
    )
}

/// A sink's record: the samples it knows to be waiting, those it has taken out of the
/// ring so far, and how often it found the ring empty.
pub struct Drawn {
    pub ready: Seq<i16>,
    pub released: Seq<i16>,
    pub underruns: nat,
}

/// The record after the ring handed out `sample`.
pub open spec fn spec_after_release(before: Drawn, sample: i16) -> Drawn {
    Drawn {
        ready: if before.ready.len() > 0 {
            before.ready.drop_first()
        } else {
            Seq::empty()
        },
        released: before.released.push(sample),
        underruns: before.underruns,
    }
}

/// The record after a pop that found the ring empty.
pub open spec fn spec_after_underrun(before: Drawn) -> Drawn {
    Drawn {
        ready: Seq::empty(),
        released: before.released,
        underruns: spec_count_up(before.underruns),
    }
}

/// Whether two records are the same.
pub open spec fn spec_same_record(a: Drawn, b: Drawn) -> bool {
    a.ready == b.ready && a.released == b.released && a.underruns == b.underruns
}

/// How one pop that gave `sample` moves a sink's record. Where the sink knows of a
/// waiting sample, that sample is handed out. Otherwise the ring either handed out
/// `sample`, or it was empty: then `sample` is silence, nothing was released and one
/// more underrun is counted.
pub open spec fn spec_popped(before: Drawn, after: Drawn, sample: i16) -> bool {
    if before.ready.len() > 0 {
        sample == before.ready[0] && spec_same_record(after, spec_after_release(before, sample))
    } else {
        ||| spec_same_record(after, spec_after_release(before, sample))
        ||| (sample == 0 && spec_same_record(after, spec_after_underrun(before)))
    }
}

/// How a left and then a right pop move a sink's record.
pub open spec fn spec_popped_pair(before: Drawn, after: Drawn, sample: StereoSample) -> bool {
    ||| (spec_popped(before, spec_after_release(before, sample.l), sample.l) && spec_popped(
        spec_after_release(before, sample.l),
        after,
        sample.r,
    ))
    ||| (spec_popped(before, spec_after_underrun(before), sample.l) && spec_popped(
        spec_after_underrun(before),
        after,
        sample.r,
    ))
}

/// How the pops for the frames of `samples`, one pair after the other, move a sink's
/// record from `before` to `after`.
pub open spec fn spec_drawn_frames(before: Drawn, after: Drawn, samples: Seq<StereoSample>) -> bool
    decreases samples.len(),
{
    if samples.len() == 0 {
        spec_same_record(after, before)
    } else {
        exists|between: Drawn|
            spec_drawn_frames(before, between, samples.drop_last()) && #[trigger] spec_popped_pair(
                between,
                after,
                samples.last(),
            )
    }
}

pub proof fn lemma_frames_len(samples: Seq<StereoSample>, channels: nat)
    ensures
        spec_frames(samples, channels).len() == samples.len() * channels,
    decreases samples.len(),
{
    if samples.len() > 0 {
        lemma_frames_len(samples.drop_last(), channels);
        assert(samples.drop_last().len() * channels + channels == samples.len() * channels)
            by (nonlinear_arith)
            requires
                samples.drop_last().len() + 1 == samples.len(),
        ;
    } else {
        assert(0 * channels == 0) by (nonlinear_arith);
    }
}

/// While the sink knows of two waiting samples for every frame, the frames drawn are
/// exactly those samples in order, no underrun is counted, and what was known beyond
/// them is still known.
pub proof fn lemma_known_samples_are_drawn(before: Drawn, after: Drawn, samples: Seq<StereoSample>)
    requires
        spec_drawn_frames(before, after, samples),
        before.ready.len() >= 2 * samples.len(),
    ensures
        samples == spec_pairs(before.ready, samples.len()),
        after.ready == before.ready.skip((2 * samples.len()) as int),
        after.released == before.released + before.ready.take((2 * samples.len()) as int),
        after.underruns == before.underruns,
    decreases samples.len(),
{
    if samples.len() == 0 {
        assert(samples =~= spec_pairs(before.ready, 0));
        assert(after.ready =~= before.ready.skip(0int));
        assert(after.released =~= before.released + before.ready.take(0int));
    } else {
        let n: int = samples.len() - 1;
        let between = choose|between: Drawn|
            spec_drawn_frames(before, between, samples.drop_last()) && #[trigger] spec_popped_pair(
                between,
                after,
                samples.last(),
            );
        lemma_known_samples_are_drawn(before, between, samples.drop_last());
        let last = samples.last();
        assert(between.ready.len() >= 2);
        assert(between.ready[0] == before.ready[2 * n]);
        assert(between.ready[1] == before.ready[2 * n + 1]);
        let middle = spec_after_release(between, last.l);
        assert(spec_popped(between, middle, last.l));
        assert(middle.ready.len() > 0);
        assert(middle.ready[0] == between.ready[1]);
        assert(spec_popped(middle, after, last.r));
        assert(last == StereoSample { l: before.ready[2 * n], r: before.ready[2 * n + 1] });
        assert(samples =~= spec_pairs(before.ready, samples.len())) by {
            assert forall|f: int| 0 <= f < samples.len() implies samples[f] == spec_pairs(
                before.ready,
                samples.len(),
            )[f] by {
                if f < n {
                    assert(samples[f] == samples.drop_last()[f]);
                }
            }
        }
        assert(after.ready =~= before.ready.skip((2 * samples.len()) as int));
        assert(after.released =~= before.released + before.ready.take((2 * samples.len()) as int));
    }
}

/// What the sink knows to be waiting comes out first and in order, whatever the ring
/// gives after it: sample by sample, left, right, left, right.
pub proof fn lemma_ready_comes_out_first(before: Drawn, after: Drawn, samples: Seq<StereoSample>)
    requires
        spec_drawn_frames(before, after, samples),
    ensures
        forall|i: int|
            0 <= i < before.ready.len() && i < 2 * samples.len() ==> #[trigger] spec_interleaved(
                samples,
            )[i] == before.ready[i],
        before.ready.len() >= 2 * samples.len() ==> after.ready == before.ready.skip(
            (2 * samples.len()) as int,
        ),
        before.ready.len() <= 2 * samples.len() ==> after.ready == Seq::<i16>::empty(),
    decreases samples.len(),
{
    if samples.len() == 0 {
        assert(after.ready =~= before.ready.skip(0int));
    } else {
        let n: int = samples.len() - 1;
        let between = choose|between: Drawn|
            spec_drawn_frames(before, between, samples.drop_last()) && #[trigger] spec_popped_pair(
                between,
                after,
                samples.last(),
            );
        lemma_ready_comes_out_first(before, between, samples.drop_last());
        let last = samples.last();
        let known = before.ready.len();
        assert forall|i: int| 0 <= i < known && i < 2 * samples.len() implies #[trigger] spec_interleaved(
            samples,
        )[i] == before.ready[i] by {
            if i < 2 * n {
                assert(samples[i / 2] == samples.drop_last()[i / 2]);
                assert(spec_interleaved(samples)[i] == spec_interleaved(samples.drop_last())[i]);
            } else {
                assert(samples[i / 2] == last);
                assert(between.ready =~= before.ready.skip(2 * n));
                assert(between.ready.len() > 0);
                assert(last.l == between.ready[0]);
                if i == 2 * n + 1 {
                    assert(between.ready.len() > 1);
                    assert(spec_after_release(between, last.l).ready[0] == between.ready[1]);
                }
            }
        }
        if known >= 2 * samples.len() {
            assert(after.ready =~= before.ready.skip((2 * samples.len()) as int));
        } else {
            assert(after.ready =~= Seq::<i16>::empty());
        }
        if known == 2 * samples.len() {
            assert(before.ready.skip((2 * samples.len()) as int) =~= Seq::<i16>::empty());
        }
    }
}

/// A sink's record only grows: the pops for some frames never take back a released
/// sample nor an underrun.
pub proof fn lemma_drawn_grows(before: Drawn, after: Drawn, samples: Seq<StereoSample>)
    requires
        spec_drawn_frames(before, after, samples),
    ensures
        after.released.len() >= before.released.len(),
        after.underruns >= before.underruns,
        after.released.len() <= before.released.len() + 2 * samples.len(),
    decreases samples.len(),
{
    if samples.len() > 0 {
        let between = choose|between: Drawn|
            spec_drawn_frames(before, between, samples.drop_last()) && #[trigger] spec_popped_pair(
                between,
                after,
                samples.last(),
            );
        lemma_drawn_grows(before, between, samples.drop_last());
    }
}

/// Every whole frame costs two pops: each either takes a sample out of the ring or is
/// counted as an underrun, as long as that count has not reached the top of its
/// range.
pub proof fn lemma_two_pops_per_frame(before: Drawn, after: Drawn, samples: Seq<StereoSample>)
    requires
        spec_drawn_frames(before, after, samples),
        after.underruns < u64::MAX,
    ensures
        after.released.len() + after.underruns == before.released.len() + before.underruns + 2
            * samples.len(),
    decreases samples.len(),
{
    if samples.len() > 0 {
        let between = choose|between: Drawn|
            spec_drawn_frames(before, between, samples.drop_last()) && #[trigger] spec_popped_pair(
                between,
                after,
                samples.last(),
            );
        lemma_two_pops_per_frame(before, between, samples.drop_last());
    }
}

/// Where the pops for some frames released nothing, the ring was empty throughout:
/// every sample drawn is silence.
pub proof fn lemma_nothing_released_is_silence(before: Drawn, after: Drawn, samples: Seq<StereoSample>)
    requires
        spec_drawn_frames(before, after, samples),
        after.released.len() == before.released.len(),
    ensures
        forall|f: int| 0 <= f < samples.len() ==> samples[f] == (StereoSample { l: 0, r: 0 }),
    decreases samples.len(),
{
    if samples.len() > 0 {
        let between = choose|between: Drawn|
            spec_drawn_frames(before, between, samples.drop_last()) && #[trigger] spec_popped_pair(
                between,
                after,
                samples.last(),
            );
        lemma_drawn_grows(before, between, samples.drop_last());
        lemma_nothing_released_is_silence(before, between, samples.drop_last());
        assert forall|f: int| 0 <= f < samples.len() implies samples[f] == (StereoSample {
            l: 0,
            r: 0,
        }) by {
            if f < samples.len() - 1 {
                assert(samples[f] == samples.drop_last()[f]);
            }
        }
    }
}

/// The capacity of the ring for `cfg`, or `None` where it is no `u32`.
pub fn ring_size(cfg: &StreamConfig) -> (size: Option<u32>)
    ensures
        spec_ring_size(*cfg) <= u32::MAX ==> size == Some(spec_ring_size(*cfg) as u32),
        spec_ring_size(*cfg) > u32::MAX ==> size is None,
{
    let frames: u32 = match cfg.buffer_size {
        BufferSize::Fixed(frames) => frames,
        BufferSize::Default => DEFAULT_BUFFER_FRAMES,
    };
    let per_channel: u64 = frames as u64 + (cfg.sample_rate / 6) as u64;
    assert(per_channel * cfg.channels <= 0x1_ffff_ffff * 0xffff) by (nonlinear_arith)
        requires
            per_channel <= 0x1_ffff_ffff,
            cfg.channels <= 0xffff,
    ;
    let size: u64 = per_channel * (cfg.channels as u64);
    if size > u32::MAX as u64 {
        None
    } else {
        Some(size as u32)
    }
}

/// What the silence stands for where a pop found the ring empty.
pub fn sample_or_silence(popped: Option<i16>) -> (sample: i16)
    ensures
        sample == match popped {
            Some(s) => s,
            None => 0i16,
        },
{
    match popped {
        Some(s) => s,
        None => 0,
    }
}

/// Writes the frame of `sample` into the `channels` places of `data` from `start` on.
pub fn write_frame(data: &mut [i16], start: usize, sample: StereoSample, channels: u16)
    requires
        start + channels <= old(data)@.len(),
    ensures
        final(data)@ == old(data)@.take(start as int) + spec_frame(sample, channels as nat) + old(data)@.skip(start + channels),
{
    if channels == 2 {
        data[start] = sample.l;
        data[start + 1] = sample.r;
        assert(data@ =~= old(data)@.take(start as int) + spec_frame(sample, channels as nat) + old(data)@.skip(start + channels));
    } else {
        let len: usize = data.len();
        let mut i: u16 = 0;
        while i < channels
            invariant
                i <= channels,
                start + channels <= len,
                len == data@.len(),
                data@.len() == old(data)@.len(),
                data@ =~= old(data)@.take(start as int) + Seq::new(i as nat, |k: int| sample.l)
                    + old(data)@.skip(start + i),
            decreases channels - i,
        {
            data[start + i as usize] = sample.l;
            i += 1;
        }
        assert(data@ =~= old(data)@.take(start as int) + spec_frame(sample, channels as nat) + old(data)@.skip(start + channels));
    }
}

/// The producer half of the bridge, owned by the stepping loop.
pub struct AudioBackend {
    producer: ringbuf::Producer<i16>,
    overruns: u64,
}

/// The consumer half of the bridge, owned by the output device's callback.
pub struct AudioSink {
    consumer: ringbuf::Consumer<i16>,
    channels: u16,
    underruns: u64,
}

impl AudioBackend {
    /// Which ring this backend pushes into.
    pub closed spec fn spec_ring(&self) -> nat {
        producer_ring(self.producer)
    }

    /// The samples that the ring can hold.
    pub closed spec fn spec_capacity(&self) -> nat {
        producer_capacity(self.producer)
    }

    /// Every sample that the ring has taken in from this backend, oldest first.
    pub closed spec fn spec_accepted(&self) -> Seq<i16> {
        producer_accepted(self.producer)
    }

    /// The free places that this backend knows of: the ring has at least that many.
    pub closed spec fn spec_room(&self) -> nat {
        producer_room(self.producer)
    }

    /// The stereo samples dropped so far because the ring had no room for them.
    pub closed spec fn spec_overruns(&self) -> nat {
        self.overruns as nat
    }

    /// Makes a ring of `capacity` places, one for each channel sample, so that a
    /// stereo sample takes two. It starts with `silence` places of silence in it, or
    /// as many as it can hold. The sink fills frames of `channels` channels, and knows
    /// of the silence that waits for it.
    pub fn with_capacity(capacity: u32, silence: u32, channels: u16) -> (ring: Result<
        (AudioBackend, AudioSink),
        RingTooLarge,
    >)
        ensures
            !spec_ring_fits(capacity as nat) ==> ring is Err,
            spec_ring_fits(capacity as nat) ==> (ring matches Ok(halves) && spec_new_ring(
                halves.0,
                halves.1,
                capacity as nat,
                if silence <= capacity {
                    silence as nat
                } else {
                    capacity as nat
                },
                channels as nat,
            )),
    {
        if capacity as u64 >= (isize::MAX as u64) / 2 {
            return Err(RingTooLarge);
        }
        let (mut producer, mut consumer) = ring_with_capacity(capacity as usize);
        let prefill: u32 = if silence <= capacity {
            silence
        } else {
            capacity
        };
        let mut filled: u32 = 0;
        while filled < prefill
            invariant
                filled <= prefill <= capacity,
                producer_ring(producer) == consumer_ring(consumer),
                producer_capacity(producer) == capacity,
                producer_room(producer) == capacity - filled,
                producer_accepted(producer) =~= spec_silence(filled as nat),
            decreases prefill - filled,
        {
            let pushed = producer_push(&mut producer, 0);
            assert(pushed is Ok);
            filled += 1;
        }
        let free: usize = consumer_remaining(&mut consumer, &mut producer);
        assert(consumer_ready(consumer) =~= spec_silence(prefill as nat));
        Ok((AudioBackend { producer, overruns: 0 }, AudioSink { consumer, channels, underruns: 0 }))
    }

    /// Makes the ring for a stream and fills a fifth of it with silence, so that the
    /// device does not run dry while the engine produces its first frame.
    pub fn create_ring(cfg: &StreamConfig) -> (ring: Result<(AudioBackend, AudioSink), RingTooLarge>)
        ensures
            !spec_ring_fits(spec_ring_size(*cfg)) ==> ring is Err,
            spec_ring_fits(spec_ring_size(*cfg)) ==> (ring matches Ok(halves) && spec_new_ring(
                halves.0,
                halves.1,
                spec_ring_size(*cfg),
                spec_prefill(spec_ring_size(*cfg)),
                cfg.channels as nat,
            )),
    {
        match ring_size(cfg) {
            Some(size) => AudioBackend::with_capacity(size, size / 5, cfg.channels),
            None => Err(RingTooLarge),
        }
    }

    pub fn overruns(&self) -> (count: u64)
        ensures
            count == self.spec_overruns(),
    {
        self.overruns
    }

    /// Offers a stereo sample to the ring: left, then right. The sample is taken
    /// whole or dropped whole, so that left and right stay in step in the ring: where
    /// the ring has no room for both halves neither is pushed, and the sample counts
    /// as one overrun. A backend that knows of room for two is not refused. The ring
    /// never grows and the call never waits.
    pub fn push_sample(&mut self, sample: StereoSample) -> (taken: bool)
        ensures
            final(self).spec_ring() == old(self).spec_ring(),
            final(self).spec_capacity() == old(self).spec_capacity(),
            final(self).spec_room() <= final(self).spec_capacity(),
            old(self).spec_room() >= 2 ==> taken,
            taken ==> final(self).spec_accepted() == old(self).spec_accepted().push(sample.l).push(
                sample.r,
            ) && final(self).spec_overruns() == old(self).spec_overruns() && final(self).spec_room()
                + 2 >= old(self).spec_room(),
            !taken ==> final(self).spec_accepted() == old(self).spec_accepted()
                && final(self).spec_overruns() == spec_count_up(old(self).spec_overruns())
                && old(self).spec_room() <= final(self).spec_room() < 2,
    {
        let room: usize = producer_remaining(&mut self.producer);
        if room >= 2 {
            let left = producer_push(&mut self.producer, sample.l);
            let right = producer_push(&mut self.producer, sample.r);
            assert(left is Ok && right is Ok);
            true
        } else {
            if self.overruns < u64::MAX {
                self.overruns = self.overruns + 1;
            }
            false
        }
    }

    /// Counts the free places of the ring with both halves in hand. While both are
    /// held the ring stands still, so the count is exact, and both halves learn what
    /// the ring holds: the samples taken in and not yet handed out, in that order.
    /// What the sink has taken out so far is the head of what the backend has put in.
    pub fn survey(&mut self, sink: &mut AudioSink) -> (free: usize)
        requires
            old(self).spec_ring() == old(sink).spec_ring(),
        ensures
            final(self).spec_ring() == old(self).spec_ring(),
            final(self).spec_capacity() == old(self).spec_capacity(),
            final(self).spec_accepted() == old(self).spec_accepted(),
            final(self).spec_overruns() == old(self).spec_overruns(),
            final(sink).spec_ring() == old(sink).spec_ring(),
            final(sink).spec_capacity() == old(sink).spec_capacity(),
            final(sink).spec_channels() == old(sink).spec_channels(),
            final(sink).spec_released() == old(sink).spec_released(),
            final(sink).spec_underruns() == old(sink).spec_underruns(),
            final(sink).spec_capacity() == final(self).spec_capacity(),
            final(sink).spec_released().len() <= final(self).spec_accepted().len(),
            final(sink).spec_released() == final(self).spec_accepted().take(
                final(sink).spec_released().len() as int,
            ),
            final(sink).spec_ready() == final(self).spec_accepted().skip(
                final(sink).spec_released().len() as int,
            ),
            free + final(sink).spec_ready().len() == final(self).spec_capacity(),
            final(self).spec_room() == free,
    {
        consumer_remaining(&mut sink.consumer, &mut self.producer)
    }
}

/// What holds of the two halves of a ring that was just made: they belong together,
/// the ring holds `silence` samples of silence, which the sink knows of, and nothing
/// has been dropped, taken out or missed yet.
pub open spec fn spec_new_ring(
    backend: AudioBackend,
    sink: AudioSink,
    capacity: nat,
    silence: nat,
    channels: nat,
) -> bool {
    &&& backend.spec_ring() == sink.spec_ring()
    &&& backend.spec_capacity() == capacity
    &&& backend.spec_accepted() == spec_silence(silence)
    &&& backend.spec_room() == capacity - silence
    &&& backend.spec_overruns() == 0
    &&& sink.spec_capacity() == capacity
    &&& sink.spec_channels() == channels
    &&& sink.spec_ready() == spec_silence(silence)
    &&& sink.spec_released() == Seq::<i16>::empty()
    &&& sink.spec_underruns() == 0
}

impl AudioSink {
    /// Which ring this sink pops from.
    pub closed spec fn spec_ring(&self) -> nat {
        consumer_ring(self.consumer)
    }

    /// The samples that the ring can hold.
    pub closed spec fn spec_capacity(&self) -> nat {
        consumer_capacity(self.consumer)
    }

    /// The channels of one output frame.
    pub closed spec fn spec_channels(&self) -> nat {
        self.channels as nat
    }

    /// The pops so far that found the ring empty.
    pub closed spec fn spec_underruns(&self) -> nat {
        self.underruns as nat
    }

    /// Every sample that the ring has handed out to this sink, oldest first.
    pub closed spec fn spec_released(&self) -> Seq<i16> {
        consumer_released(self.consumer)
    }

    /// The samples that this sink knows to be waiting in the ring, oldest first: the
    /// ring holds at least these, and they are the next to come out.
    pub closed spec fn spec_ready(&self) -> Seq<i16> {
        consumer_ready(self.consumer)
    }

    /// This sink's record.
    pub open spec fn spec_drawn(&self) -> Drawn {
        Drawn {
            ready: self.spec_ready(),
            released: self.spec_released(),
            underruns: self.spec_underruns(),
        }
    }

    pub fn channels(&self) -> (channels: u16)
        ensures
            channels == self.spec_channels(),
    {
        self.channels
    }

    pub fn underruns(&self) -> (count: u64)
        ensures
            count == self.spec_underruns(),
    {
        self.underruns
    }

    /// The samples that waited in the ring when it was asked. The producer may have
    /// pushed more since, so this is a floor for what the next pops find: it is no
    /// less than what the sink knew to be waiting, and never more than the ring can
    /// hold.
    pub fn available(&self) -> (n: usize)
        ensures
            self.spec_ready().len() <= n <= self.spec_capacity(),
    {
        consumer_len(&self.consumer)
    }

    /// Takes the oldest sample out of the ring: the sample that the ring hands out, or
    /// silence where the ring is empty, which is counted. The call never waits.
    pub fn pop(&mut self) -> (sample: i16)
        ensures
            final(self).spec_ring() == old(self).spec_ring(),
            final(self).spec_capacity() == old(self).spec_capacity(),
            final(self).spec_channels() == old(self).spec_channels(),
            spec_popped(old(self).spec_drawn(), final(self).spec_drawn(), sample),
    {
        let popped = consumer_pop(&mut self.consumer);
        if popped.is_none() && self.underruns < u64::MAX {
            self.underruns = self.underruns + 1;
        }
        sample_or_silence(popped)
    }

    /// Takes a left and then a right sample out of the ring, each replaced by silence
    /// and counted where the ring is empty by then.
    pub fn pop_sample(&mut self) -> (sample: StereoSample)
        ensures
            final(self).spec_ring() == old(self).spec_ring(),
            final(self).spec_capacity() == old(self).spec_capacity(),
            final(self).spec_channels() == old(self).spec_channels(),
            spec_popped_pair(old(self).spec_drawn(), final(self).spec_drawn(), sample),
    {
        let l: i16 = self.pop();
        let ghost between = self.spec_drawn();
        let r: i16 = self.pop();
        proof {
            let before = old(self).spec_drawn();
            assert(spec_popped(before, between, l));
            assert(spec_popped(between, self.spec_drawn(), r));
            if spec_same_record(between, spec_after_release(before, l)) {
                assert(spec_popped(before, spec_after_release(before, l), l));
                assert(spec_popped(spec_after_release(before, l), self.spec_drawn(), r));
            } else {
                assert(spec_same_record(between, spec_after_underrun(before)));
                assert(spec_popped(before, spec_after_underrun(before), l));
                assert(spec_popped(spec_after_underrun(before), self.spec_drawn(), r));
            }
        }
        StereoSample { l, r }
    }

    /// Fills `data` for the device. Each whole frame of `channels` places takes one
    /// stereo sample out of the ring, left and right, and holds that sample's frame;
    /// places after the last whole frame are left alone. While the sink knows of two
    /// waiting samples for every frame, the frames are exactly those samples and no
    /// underrun is counted.
    pub fn write_data(&mut self, data: &mut [i16])
        requires
            old(self).spec_channels() > 0,
        ensures
            final(self).spec_ring() == old(self).spec_ring(),
            final(self).spec_capacity() == old(self).spec_capacity(),
            final(self).spec_channels() == old(self).spec_channels(),
            final(data)@.len() == old(data)@.len(),
            exists|samples: Seq<StereoSample>|
                spec_frames_written(old(data)@, final(data)@, samples, old(self).spec_channels())
                    && #[trigger] spec_drawn_frames(
                    old(self).spec_drawn(),
                    final(self).spec_drawn(),
                    samples,
                ),
            ({
                let frames = old(data)@.len() / old(self).spec_channels();
                old(self).spec_ready().len() >= 2 * frames ==> {
                    &&& spec_frames_written(
                        old(data)@,
                        final(data)@,
                        spec_pairs(old(self).spec_ready(), frames),
                        old(self).spec_channels(),
                    )
                    &&& final(self).spec_ready() == old(self).spec_ready().skip((2 * frames) as int)
                    &&& final(self).spec_released() == old(self).spec_released() + old(self).spec_ready().take((2 * frames) as int)
                    &&& final(self).spec_underruns() == old(self).spec_underruns()
                }
            }),
    {
        let channels: u16 = self.channels;
        let len: usize = data.len();
        let mut start: usize = 0;
        let ghost mut drawn: Seq<StereoSample> = Seq::empty();
        assert(data@ =~= spec_frames(drawn, channels as nat) + old(data)@.skip(0));
        assert(drawn.len() * channels == 0) by (nonlinear_arith)
            requires
                drawn.len() == 0,
        ;
        while len - start >= channels as usize
            invariant
                channels > 0,
                channels == self.spec_channels(),
                self.spec_ring() == old(self).spec_ring(),
                self.spec_capacity() == old(self).spec_capacity(),
                spec_drawn_frames(old(self).spec_drawn(), self.spec_drawn(), drawn),
                start <= len,
                len == data@.len(),
                len == old(data)@.len(),
                start == drawn.len() * channels,
                data@ == spec_frames(drawn, channels as nat) + old(data)@.skip(start as int),
            decreases len - start,
        {
            let ghost record = self.spec_drawn();
            let sample = self.pop_sample();
            let ghost before = data@;
            write_frame(data, start, sample, channels);
            proof {
                lemma_frames_len(drawn, channels as nat);
                let next = drawn.push(sample);
                assert(next.drop_last() =~= drawn);
                assert(next.last() == sample);
                assert(spec_popped_pair(record, self.spec_drawn(), next.last()));
                assert(spec_drawn_frames(old(self).spec_drawn(), self.spec_drawn(), next));
                assert(before.take(start as int) =~= spec_frames(drawn, channels as nat));
                assert(before.skip(start + channels) =~= old(data)@.skip(start + channels));
                assert(data@ =~= spec_frames(next, channels as nat) + old(data)@.skip(
                    start + channels,
                ));
                assert(next.len() * channels == start + channels) by (nonlinear_arith)
                    requires
                        next.len() == drawn.len() + 1,
                        start == drawn.len() * channels,
                ;
                drawn = next;
            }
            start = start + channels as usize;
        }
        proof {
            assert(drawn.len() == len as nat / channels as nat) by (nonlinear_arith)
                requires
                    start == drawn.len() * channels,
                    start <= len,
                    len - start < channels,
                    channels > 0,
            ;
            assert(spec_frames_written(old(data)@, data@, drawn, channels as nat));
            if old(self).spec_ready().len() >= 2 * drawn.len() {
                lemma_known_samples_are_drawn(old(self).spec_drawn(), self.spec_drawn(), drawn);
            }
        }
    }
}

} // verus!
