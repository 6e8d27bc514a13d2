use synth_engine::crossfade_fade_in_permille;
use synth_engine::AudioEngine;
use synth_engine::RenderAction;
use synth_engine::Waveform;
use synth_engine::DEFAULT_CROSSFADE_BLOCKS;

#[test]
fn defaults_decode_to_initial_parameters() {
    let engine = AudioEngine::new(256, 128, 48000, 4, Waveform::Sine);
    let snapshot = engine.read_snapshot();
    assert_eq!(f32::from_bits(snapshot.frequency_bits), 440.0);
    assert_eq!(f32::from_bits(snapshot.amplitude_bits), 0.15);
    assert_eq!(snapshot.waveform, Waveform::Sine);
    assert_eq!(snapshot.crossfade_remaining, DEFAULT_CROSSFADE_BLOCKS);
    assert_eq!(engine.get_current_frame(), 0);
    assert!(!engine.is_running());
}

#[test]
fn setters_publish_and_rearm_crossfade() {
    let mut engine = AudioEngine::new(256, 128, 48000, 4, Waveform::Sine);
    for _ in 0..DEFAULT_CROSSFADE_BLOCKS {
        engine.crossfade_step();
    }
    assert_eq!(engine.read_snapshot().crossfade_remaining, 0);

    engine.set_frequency(880.0f32.to_bits());
    let s = engine.read_snapshot();
    assert_eq!(f32::from_bits(s.frequency_bits), 880.0);
    assert_eq!(s.crossfade_remaining, DEFAULT_CROSSFADE_BLOCKS);

    for _ in 0..DEFAULT_CROSSFADE_BLOCKS {
        engine.crossfade_step();
    }
    engine.set_amplitude(0.5f32.to_bits());
    let s = engine.read_snapshot();
    assert_eq!(f32::from_bits(s.amplitude_bits), 0.5);
    assert_eq!(s.crossfade_remaining, DEFAULT_CROSSFADE_BLOCKS);

    for _ in 0..DEFAULT_CROSSFADE_BLOCKS {
        engine.crossfade_step();
    }
    engine.set_waveform(Waveform::Sawtooth);
    let s = engine.read_snapshot();
    assert_eq!(s.waveform, Waveform::Sawtooth);
    assert_eq!(s.crossfade_remaining, DEFAULT_CROSSFADE_BLOCKS);
}

#[test]
fn crossfade_counts_down_then_passes_through() {
    let mut engine = AudioEngine::new(64, 4, 48000, 1, Waveform::Square);
    for expected_before in (1..=DEFAULT_CROSSFADE_BLOCKS).rev() {
        assert_eq!(engine.read_snapshot().crossfade_remaining, expected_before);
        assert!(engine.crossfade_step());
    }
    // counter exhausted: the block passes through unmodified from here on
    assert_eq!(engine.read_snapshot().crossfade_remaining, 0);
    assert!(!engine.crossfade_step());
    assert_eq!(engine.read_snapshot().crossfade_remaining, 0);
}

#[test]
fn fade_in_weight_follows_cubic_ease_in() {
    // first block after a parameter change: no weight on the fresh block
    assert_eq!(crossfade_fade_in_permille(DEFAULT_CROSSFADE_BLOCKS), 0);
    // counter spent: full weight
    assert_eq!(crossfade_fade_in_permille(0), 1000);
    assert_eq!(crossfade_fade_in_permille(5), 125);
    // agrees with the floating-point form of the curve where it is exact
    for remaining in [0u32, 5, 10] {
        let fraction_done = 1.0f32 - remaining as f32 / DEFAULT_CROSSFADE_BLOCKS as f32;
        let fade_in = fraction_done * fraction_done * fraction_done;
        assert_eq!(fade_in * 1000.0, crossfade_fade_in_permille(remaining) as f32);
    }
}

#[test]
fn render_loop_state_machine() {
    // 32 slots = 31 usable; a stereo block is 8 words
    let mut engine = AudioEngine::new(32, 4, 48000, 2, Waveform::Triangle);
    assert_eq!(engine.next_action(), RenderAction::Halt);

    engine.start();
    assert!(engine.is_running());
    let block: Vec<u32> = (0..8).collect();

    // three blocks fit (24 of 31), the fourth does not
    for _ in 0..3 {
        assert_eq!(engine.next_action(), RenderAction::RenderBlock);
        assert_eq!(engine.commit_block(&block), 8);
    }
    assert_eq!(engine.next_action(), RenderAction::BackOff);

    // the consumer draining one block frees enough space to render again
    engine.consume_samples(8);
    assert_eq!(engine.next_action(), RenderAction::RenderBlock);

    engine.stop();
    assert_eq!(engine.next_action(), RenderAction::Halt);
}

#[test]
fn commit_advances_frame_by_block_size() {
    let mut engine = AudioEngine::new(256, 16, 44100, 1, Waveform::Sine);
    engine.start();
    let block = vec![0u32; 32];
    assert_eq!(engine.get_current_frame(), 0);
    engine.commit_block(&block);
    assert_eq!(engine.get_current_frame(), 16);
    engine.commit_block(&block);
    assert_eq!(engine.get_current_frame(), 32);
}

#[test]
fn stats_due_once_per_interval() {
    let mut engine = AudioEngine::new(8, 1, 48000, 1, Waveform::Sine);
    engine.start();
    let block = vec![0u32; 2];
    let mut due_count = 0;
    for cycle in 1..=150 {
        assert_eq!(engine.commit_block(&block), 2);
        engine.consume_samples(2);
        if engine.take_stats_due() {
            due_count += 1;
            assert_eq!(cycle, 100);
        }
    }
    assert_eq!(due_count, 1);
}

#[test]
fn backoff_sleeps_a_quarter_block() {
    let engine = AudioEngine::new(1024, 4800, 48000, 1, Waveform::Sine);
    // one block is 100 ms of audio; back off for a quarter of that
    assert_eq!(engine.backoff_millis(), 25);
    let small = AudioEngine::new(1024, 128, 48000, 1, Waveform::Sine);
    // 128 frames are under 3 ms; the quarter rounds down to none
    assert_eq!(small.backoff_millis(), 0);
}

#[test]
fn committed_blocks_reach_the_consumer_in_order() {
    let mut engine = AudioEngine::new(64, 4, 48000, 1, Waveform::Sine);
    engine.start();
    let first: Vec<u32> = (100..108).collect();
    let second: Vec<u32> = (200..208).collect();
    engine.commit_block(&first);
    engine.commit_block(&second);

    let mut target: Vec<u32> = vec![0; 16];
    engine.buffer().copy_data(&mut target);
    let expected: Vec<u32> = first.iter().chain(second.iter()).copied().collect();
    assert_eq!(target, expected);

    engine.consume_samples(8);
    let mut rest: Vec<u32> = vec![0; 8];
    engine.buffer().copy_data(&mut rest);
    assert_eq!(rest, second);
}

#[test]
fn full_buffer_write_is_backpressure_not_loss() {
    let mut engine = AudioEngine::new(9, 4, 48000, 1, Waveform::Sine);
    engine.start();
    let block: Vec<u32> = (0..8).collect();
    assert_eq!(engine.commit_block(&block), 8);
    // 8 of 8 usable slots taken: the buffer is full and accepts nothing
    assert_eq!(engine.next_action(), RenderAction::BackOff);
    assert_eq!(engine.commit_block(&block), 0);
    let mut target: Vec<u32> = vec![99; 8];
    engine.buffer().copy_data(&mut target);
    assert_eq!(target, block);
}
