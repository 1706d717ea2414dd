use emulator::audio::{BufferSize, StreamConfig};
use emulator::output::{
    buffer_rank, channel_rank, format_rank, select_config, SampleFormat, SupportedBufferSize,
    SupportedConfigRange,
};

fn range(channels: u16, min: u32, max: u32, format: SampleFormat, buffer: SupportedBufferSize) -> SupportedConfigRange {
    SupportedConfigRange {
        channels,
        min_sample_rate: min,
        max_sample_rate: max,
        buffer_size: buffer,
        sample_format: format,
    }
}

#[test]
fn ranks_are_as_tabulated() {
    assert_eq!(channel_rank(0), u16::MAX);
    assert_eq!(channel_rank(1), 12);
    assert_eq!(channel_rank(2), 0);
    assert_eq!(channel_rank(3), 3);
    assert_eq!(channel_rank(13), 13);
    assert_eq!(format_rank(SampleFormat::I16), 0);
    assert_eq!(format_rank(SampleFormat::U16), 1);
    assert_eq!(format_rank(SampleFormat::F32), 2);
    assert_eq!(buffer_rank(SupportedBufferSize::Unknown), u32::MAX);
    assert_eq!(buffer_rank(SupportedBufferSize::Range { min: 64, max: 4096 }), 64);
}

#[test]
fn no_config_is_chosen_when_none_offers_the_rate() {
    let configs = vec![
        range(2, 44100, 48000, SampleFormat::I16, SupportedBufferSize::Unknown),
        range(2, 8000, 31999, SampleFormat::I16, SupportedBufferSize::Unknown),
    ];
    assert_eq!(select_config(&configs, 32000), None);
    assert_eq!(select_config(&Vec::new(), 32000), None);
}

#[test]
fn stereo_wins_over_other_channel_counts() {
    let unknown = SupportedBufferSize::Unknown;
    let configs = vec![
        range(1, 8000, 48000, SampleFormat::I16, unknown),
        range(6, 8000, 48000, SampleFormat::I16, unknown),
        range(2, 8000, 48000, SampleFormat::F32, unknown),
        range(0, 8000, 48000, SampleFormat::I16, unknown),
    ];
    assert_eq!(select_config(&configs, 32000), Some(2));
    assert_eq!(select_config(&configs[..2].to_vec(), 32000), Some(1));
    assert_eq!(select_config(&vec![configs[3], configs[0]], 32000), Some(1));
}

#[test]
fn format_then_buffer_break_ties() {
    let configs = vec![
        range(2, 32000, 32000, SampleFormat::F32, SupportedBufferSize::Range { min: 1, max: 2 }),
        range(2, 32000, 32000, SampleFormat::U16, SupportedBufferSize::Range { min: 512, max: 600 }),
        range(2, 32000, 32000, SampleFormat::U16, SupportedBufferSize::Range { min: 256, max: 600 }),
        range(2, 32000, 32000, SampleFormat::U16, SupportedBufferSize::Unknown),
    ];
    assert_eq!(select_config(&configs, 32000), Some(2));
}

#[test]
fn first_of_equally_good_configs_is_taken() {
    let a = range(2, 8000, 48000, SampleFormat::I16, SupportedBufferSize::Range { min: 64, max: 100 });
    let b = range(2, 16000, 96000, SampleFormat::I16, SupportedBufferSize::Range { min: 64, max: 999 });
    assert_eq!(select_config(&vec![a, b], 32000), Some(0));
    assert_eq!(select_config(&vec![b, a], 32000), Some(0));
    assert!(!a.better_than(&b));
    assert!(!b.better_than(&a));
}

#[test]
fn ineligible_better_config_is_passed_over() {
    let configs = vec![
        range(2, 44100, 48000, SampleFormat::I16, SupportedBufferSize::Unknown),
        range(1, 8000, 48000, SampleFormat::F32, SupportedBufferSize::Unknown),
    ];
    assert_eq!(select_config(&configs, 32000), Some(1));
    assert!(!configs[0].supports(32000));
    assert!(configs[1].supports(32000));
    assert!(configs[1].supports(8000));
    assert!(configs[1].supports(48000));
    assert!(!configs[1].supports(48001));
}

#[test]
fn stream_config_takes_channels_and_clamped_rate() {
    let r = range(6, 8000, 48000, SampleFormat::U16, SupportedBufferSize::Range { min: 64, max: 100 });
    assert_eq!(
        r.stream_config(32000),
        StreamConfig { channels: 6, sample_rate: 32000, buffer_size: BufferSize::Default }
    );
    assert_eq!(r.stream_config(4000).sample_rate, 8000);
    assert_eq!(r.stream_config(96000).sample_rate, 48000);
}
