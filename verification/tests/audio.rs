use emulator::audio::{
    ring_size, sample_or_silence, write_frame, AudioBackend, AudioSink, BufferSize, RingTooLarge,
    StereoSample, StreamConfig, DEFAULT_BUFFER_FRAMES, SAMPLE_RATE,
};

fn stereo() -> StreamConfig {
    StreamConfig { channels: 2, sample_rate: SAMPLE_RATE, buffer_size: BufferSize::Default }
}

fn pair(l: i16, r: i16) -> StereoSample {
    StereoSample { l, r }
}

fn ring(capacity: u32, channels: u16, samples: &[(i16, i16)]) -> (AudioBackend, AudioSink) {
    let (mut backend, sink) = AudioBackend::with_capacity(capacity, 0, channels).unwrap();
    for (l, r) in samples {
        assert!(backend.push_sample(pair(*l, *r)));
    }
    (backend, sink)
}

#[test]
fn ring_size_is_buffer_plus_sixth_of_a_second_per_channel() {
    assert_eq!(ring_size(&stereo()), Some((1024 + 5333) * 2));
    let fixed = StreamConfig { channels: 6, sample_rate: 48000, buffer_size: BufferSize::Fixed(256) };
    assert_eq!(ring_size(&fixed), Some((256 + 8000) * 6));
    let none = StreamConfig { channels: 0, sample_rate: 48000, buffer_size: BufferSize::Fixed(256) };
    assert_eq!(ring_size(&none), Some(0));
    assert_eq!(DEFAULT_BUFFER_FRAMES, 1024);
}

#[test]
fn ring_size_out_of_range_is_none() {
    let huge = StreamConfig {
        channels: u16::MAX,
        sample_rate: u32::MAX,
        buffer_size: BufferSize::Fixed(u32::MAX),
    };
    assert_eq!(ring_size(&huge), None);
    assert!(matches!(AudioBackend::create_ring(&huge), Err(RingTooLarge)));
}

#[test]
fn new_ring_starts_with_a_fifth_of_silence() {
    let (backend, mut sink) = AudioBackend::create_ring(&stereo()).unwrap();
    assert_eq!(backend.overruns(), 0);
    assert_eq!(sink.channels(), 2);
    assert_eq!(sink.available(), 12714 / 5);
    let mut popped = 0;
    while popped < 12714 / 5 {
        assert_eq!(sink.pop(), 0);
        popped += 1;
    }
    assert_eq!(sink.underruns(), 0);
    assert_eq!(sink.available(), 0);
}

#[test]
fn thousand_pushes_into_ring_of_hundred() {
    let (mut backend, mut sink) = AudioBackend::with_capacity(200, 0, 2).unwrap();
    assert_eq!(sink.available(), 0);
    let mut taken = 0u32;
    let mut i: i16 = 1;
    while i <= 1000 {
        if backend.push_sample(pair(i, -i)) {
            taken += 1;
        }
        assert!(sink.available() <= 200);
        i += 1;
    }
    assert_eq!(taken, 100);
    assert_eq!(sink.available() / 2, 100);
    assert_eq!(sink.available(), 200);
    assert_eq!(backend.overruns(), 900);
    let mut k: i16 = 1;
    while k <= 100 {
        assert_eq!(sink.pop_sample(), pair(k, -k));
        k += 1;
    }
    assert_eq!(sink.underruns(), 0);
    assert_eq!(sink.available(), 0);
}

#[test]
fn samples_come_out_in_the_order_they_went_in() {
    let (mut backend, mut sink) = ring(4, 2, &[(11, -22)]);
    assert_eq!(sink.available(), 2);
    assert_eq!(sink.pop(), 11);
    assert!(backend.push_sample(pair(33, 44)));
    assert_eq!(sink.pop(), -22);
    assert_eq!(sink.pop_sample(), pair(33, 44));
    assert_eq!(sink.underruns(), 0);
}

#[test]
fn pop_on_empty_ring_is_silence_and_counts() {
    let (mut backend, mut sink) = ring(4, 2, &[]);
    assert_eq!(sink.pop(), 0);
    assert_eq!(sink.underruns(), 1);
    assert!(backend.push_sample(pair(5, 6)));
    assert_eq!(sink.pop(), 5);
    assert_eq!(sink.underruns(), 1);
    assert_eq!(sink.pop_sample(), pair(6, 0));
    assert_eq!(sink.underruns(), 2);
    assert_eq!(sink.pop_sample(), pair(0, 0));
    assert_eq!(sink.underruns(), 4);
}

#[test]
fn full_ring_drops_and_space_is_reused_after_a_pop() {
    let (mut backend, mut sink) = ring(4, 2, &[(1, 2), (3, 4)]);
    assert!(!backend.push_sample(pair(5, 6)));
    assert_eq!(backend.overruns(), 1);
    assert_eq!(sink.pop_sample(), pair(1, 2));
    assert!(backend.push_sample(pair(7, 8)));
    assert_eq!(sink.pop_sample(), pair(3, 4));
    assert_eq!(sink.pop_sample(), pair(7, 8));
    assert_eq!(backend.overruns(), 1);
}

#[test]
fn sample_is_dropped_whole_where_only_one_place_is_free() {
    let (mut backend, mut sink) = ring(3, 2, &[(7, -7)]);
    assert!(!backend.push_sample(pair(8, -8)));
    assert_eq!(backend.overruns(), 1);
    assert_eq!(sink.available(), 2);
    assert!(!backend.push_sample(pair(9, -9)));
    assert_eq!(backend.overruns(), 2);
    assert_eq!(sink.pop_sample(), pair(7, -7));
    assert_eq!(sink.available(), 0);
    assert_eq!(sink.pop_sample(), pair(0, 0));
    assert_eq!(sink.underruns(), 2);
}

#[test]
fn ring_of_no_capacity_takes_nothing() {
    let (mut backend, mut sink) = AudioBackend::with_capacity(0, 5, 2).unwrap();
    assert_eq!(sink.available(), 0);
    assert!(!backend.push_sample(pair(1, 2)));
    assert_eq!(backend.overruns(), 1);
    assert_eq!(sink.pop(), 0);
}

#[test]
fn silence_is_capped_by_capacity() {
    let (mut backend, sink) = AudioBackend::with_capacity(3, 10, 2).unwrap();
    assert_eq!(sink.available(), 3);
    assert!(!backend.push_sample(pair(1, 2)));
}

#[test]
fn survey_counts_what_waits_between_the_halves() {
    let (mut backend, mut sink) = ring(6, 2, &[(1, 2), (3, 4)]);
    assert_eq!(backend.survey(&mut sink), 2);
    assert_eq!(sink.pop_sample(), pair(1, 2));
    assert_eq!(backend.survey(&mut sink), 4);
    assert_eq!(sink.available(), 2);
    assert!(backend.push_sample(pair(5, 6)));
    assert!(backend.push_sample(pair(7, 8)));
    assert_eq!(backend.survey(&mut sink), 0);
    assert_eq!(sink.available(), 6);
}

#[test]
fn silence_stands_for_a_missing_sample() {
    assert_eq!(sample_or_silence(Some(-5)), -5);
    assert_eq!(sample_or_silence(Some(0)), 0);
    assert_eq!(sample_or_silence(None), 0);
}

#[test]
fn frame_of_two_channels_is_left_and_right() {
    let mut data = [9i16; 6];
    write_frame(&mut data, 2, pair(1, 2), 2);
    assert_eq!(data, [9, 9, 1, 2, 9, 9]);
}

#[test]
fn frame_of_other_channel_counts_repeats_left() {
    let mut data = [9i16; 6];
    write_frame(&mut data, 1, pair(1, 2), 4);
    assert_eq!(data, [9, 1, 1, 1, 1, 9]);
    write_frame(&mut data, 0, pair(3, 4), 1);
    assert_eq!(data, [3, 1, 1, 1, 1, 9]);
    write_frame(&mut data, 5, pair(3, 4), 0);
    assert_eq!(data, [3, 1, 1, 1, 1, 9]);
}

#[test]
fn pushed_sample_comes_back_as_one_stereo_frame() {
    let (_backend, mut sink) = ring(2, 2, &[(-3, 4)]);
    let mut data = [9i16; 2];
    sink.write_data(&mut data);
    assert_eq!(data, [-3, 4]);
    assert_eq!(sink.available(), 0);
    assert_eq!(sink.underruns(), 0);
}

#[test]
fn write_data_fills_stereo_frames_and_leaves_the_tail() {
    let (_backend, mut sink) = ring(16, 2, &[(1, 2), (3, 4)]);
    let mut data = [-1i16; 7];
    sink.write_data(&mut data);
    assert_eq!(data, [1, 2, 3, 4, 0, 0, -1]);
    assert_eq!(sink.underruns(), 2);
    assert_eq!(sink.available(), 0);
}

#[test]
fn write_data_on_a_lone_sample_fills_up_with_silence() {
    let (mut backend, mut sink) = AudioBackend::with_capacity(8, 1, 2).unwrap();
    assert!(backend.push_sample(pair(4, 5)));
    assert_eq!(sink.pop_sample(), pair(0, 4));
    assert_eq!(sink.available(), 1);
    let mut data = [7i16; 4];
    sink.write_data(&mut data);
    assert_eq!(data, [5, 0, 0, 0]);
    assert_eq!(sink.underruns(), 3);
    assert_eq!(sink.available(), 0);
}

#[test]
fn write_data_on_an_empty_ring_is_silence() {
    let (_backend, mut sink) = ring(8, 2, &[]);
    let mut data = [7i16; 6];
    sink.write_data(&mut data);
    assert_eq!(data, [0; 6]);
    assert_eq!(sink.underruns(), 6);
    assert_eq!(sink.available(), 0);
}

#[test]
fn write_data_mirrors_left_into_every_channel() {
    let (_backend, mut sink) = ring(16, 3, &[(1, 2), (3, 4)]);
    let mut data = [9i16; 6];
    sink.write_data(&mut data);
    assert_eq!(data, [1, 1, 1, 3, 3, 3]);
    assert_eq!(sink.available(), 0);
    assert_eq!(sink.underruns(), 0);
}

#[test]
fn write_data_for_one_channel_still_takes_pairs() {
    let (_backend, mut sink) = ring(16, 1, &[(1, 2), (3, 4)]);
    let mut data = [9i16; 2];
    sink.write_data(&mut data);
    assert_eq!(data, [1, 3]);
    assert_eq!(sink.available(), 0);
    assert_eq!(sink.underruns(), 0);
}

#[test]
fn write_data_takes_two_samples_for_each_whole_frame() {
    let (_backend, mut sink) = ring(16, 4, &[(1, 2), (3, 4), (5, 6)]);
    let mut data = [9i16; 9];
    sink.write_data(&mut data);
    assert_eq!(data, [1, 1, 1, 1, 3, 3, 3, 3, 9]);
    assert_eq!(sink.available(), 2);
    assert_eq!(sink.pop_sample(), pair(5, 6));
}
