use rboy::{select_output_config, AudioSink, ConfigRange};

fn range(channels: u16, is_f32: bool, min_rate: u32, max_rate: u32) -> ConfigRange {
    ConfigRange { channels, is_f32, min_rate, max_rate }
}

#[test]
fn config_choice_takes_the_wanted_rate_when_covered() {
    let configs = vec![range(2, true, 8000, 48000)];
    assert_eq!(select_output_config(&configs), Some((0, 44100)));
}

#[test]
fn config_choice_falls_back_to_the_maximum_rate() {
    let configs = vec![range(2, true, 8000, 22050)];
    assert_eq!(select_output_config(&configs), Some((0, 22050)));
    let high = vec![range(2, true, 48000, 96000)];
    assert_eq!(select_output_config(&high), Some((0, 96000)));
}

#[test]
fn config_choice_skips_mono_and_integer_formats() {
    let configs = vec![
        range(1, true, 8000, 48000),
        range(2, false, 8000, 48000),
        range(2, true, 8000, 48000),
        range(2, true, 44100, 44100),
    ];
    assert_eq!(select_output_config(&configs), Some((2, 44100)));
}

#[test]
fn no_usable_config_yields_none() {
    assert_eq!(select_output_config(&Vec::new()), None);
    let configs = vec![range(1, true, 8000, 48000), range(4, false, 8000, 48000)];
    assert_eq!(select_output_config(&configs), None);
}

#[test]
fn new_sink_is_empty_and_underflowed() {
    let sink: AudioSink<(i16, i16)> = AudioSink::new(44100);
    assert_eq!(sink.sample_rate(), 44100);
    assert_eq!(sink.len(), 0);
    assert!(sink.is_underflowed());
}

#[test]
fn push_buffers_in_order_up_to_capacity() {
    let mut sink: AudioSink<(i16, i16)> = AudioSink::new(4);
    sink.push(vec![(1, -1), (2, -2), (3, -3)]);
    assert_eq!(sink.len(), 3);
    assert!(!sink.is_underflowed());
}

#[test]
fn overflow_push_caps_length_exactly_at_capacity() {
    let mut sink: AudioSink<(i16, i16)> = AudioSink::new(4);
    let mut burst = Vec::new();
    for i in 0..9 {
        burst.push((i as i16, i as i16));
    }
    sink.push(burst);
    assert_eq!(sink.len(), 4);
    // The samples kept are the earliest pushed, in order.
    let kept = sink.drain(10);
    assert_eq!(kept, vec![(0, 0), (1, 1), (2, 2), (3, 3)]);
}

#[test]
fn repeated_overflow_never_exceeds_capacity() {
    let mut sink: AudioSink<(i16, i16)> = AudioSink::new(8);
    for round in 0..5 {
        sink.push(vec![(round, round); 5]);
        assert!(sink.len() <= 8);
    }
    assert_eq!(sink.len(), 8);
}

#[test]
fn drain_is_fifo_and_never_blocks_on_underfill() {
    let mut sink: AudioSink<(i16, i16)> = AudioSink::new(10);
    sink.push(vec![(1, 10), (2, 20), (3, 30)]);
    let first = sink.drain(2);
    assert_eq!(first, vec![(1, 10), (2, 20)]);
    let rest = sink.drain(5);
    assert_eq!(rest, vec![(3, 30)]);
    assert!(sink.is_underflowed());
    assert_eq!(sink.drain(5), Vec::<(i16, i16)>::new());
}

#[test]
fn push_after_drain_reuses_freed_capacity() {
    let mut sink: AudioSink<(i16, i16)> = AudioSink::new(2);
    sink.push(vec![(1, 1), (2, 2), (3, 3)]);
    assert_eq!(sink.len(), 2);
    assert_eq!(sink.drain(1), vec![(1, 1)]);
    sink.push(vec![(4, 4), (5, 5)]);
    assert_eq!(sink.len(), 2);
    assert_eq!(sink.drain(4), vec![(2, 2), (4, 4)]);
}

#[test]
fn float_sample_pairs_work_through_the_sink() {
    let mut sink: AudioSink<(f32, f32)> = AudioSink::new(3);
    sink.push(vec![(0.5, -0.5), (0.25, -0.25)]);
    assert_eq!(sink.len(), 2);
    let out = sink.drain(2);
    assert_eq!(out, vec![(0.5, -0.5), (0.25, -0.25)]);
}
