use rustify::processor::Processor;
use rustify::protocol::{
    clamped_volume, AudioCommand, AudioState, Reply, SinkEffect, UNKNOWN_TOTAL_MS, VOLUME_FULL,
};

#[test]
fn load_starts_playing_from_zero() {
    let mut p = Processor::new();
    p.loaded(Some(5_000), 100);
    assert_eq!(p.query_state(false), AudioState::Playing);
    assert_eq!(p.query_progress(100, false), 0);

    // A load while paused discards the old session and resets elapsed too.
    p.handle_pause(1_100);
    p.loaded(Some(7_000), 2_000);
    assert_eq!(p.query_state(false), AudioState::Playing);
    assert_eq!(p.query_progress(2_000, false), 0);
}

#[test]
fn natural_end_observed_by_state_query() {
    let mut p = Processor::new();
    p.loaded(Some(3_000), 0);
    assert_eq!(p.query_state(false), AudioState::Playing);
    // The track ends naturally: the next state query finds the sink empty.
    assert_eq!(p.query_state(true), AudioState::Empty);
    assert_eq!(p.query_progress(10_000, true), 0);
}

#[test]
fn paused_elapsed_is_frozen() {
    let mut p = Processor::new();
    p.loaded(Some(60_000), 0);
    p.handle_pause(1_500);
    let e1 = p.query_progress(1_500, false);
    assert_eq!(e1, 1_500);
    // Two seconds later the reading has not moved.
    let e2 = p.query_progress(3_500, false);
    assert_eq!(e2, e1);
    // Resuming continues exactly from the frozen value.
    p.handle_play(9_000);
    assert_eq!(p.query_progress(9_000, false), e1);
}

#[test]
fn progress_monotone_while_playing() {
    let mut p = Processor::new();
    p.loaded(Some(100_000), 0);
    let mut last = 0;
    for t in [0u64, 10, 500, 2_000, 50_000] {
        let e = p.query_progress(t, false);
        assert!(e >= last);
        last = e;
    }
}

#[test]
fn seek_sets_elapsed_immediately() {
    let mut p = Processor::new();
    p.loaded(Some(90_000), 0);
    p.seek_done(42_000, 1_000);
    assert_eq!(p.query_state(false), AudioState::Playing);
    assert_eq!(p.query_progress(1_000, false), 42_000);

    p.handle_pause(2_000);
    p.seek_done(7_000, 2_500);
    assert_eq!(p.query_state(false), AudioState::Paused);
    assert_eq!(p.query_progress(9_999, false), 7_000);
}

#[test]
fn skip_while_empty_stays_empty() {
    let mut p = Processor::new();
    let eff = p.handle_skip(0, 0);
    assert!(matches!(eff, SinkEffect::Stop));
    assert_eq!(p.query_state(true), AudioState::Empty);
}

#[test]
fn skip_with_last_item_stops() {
    let mut p = Processor::new();
    p.loaded(Some(5_000), 0);
    let eff = p.handle_skip(1_000, 1);
    assert!(matches!(eff, SinkEffect::Stop));
    assert_eq!(p.query_state(true), AudioState::Empty);
}

#[test]
fn skip_with_more_material_plays_next_from_zero() {
    let mut p = Processor::new();
    p.loaded(Some(5_000), 0);
    let eff = p.handle_skip(1_000, 2);
    assert!(matches!(eff, SinkEffect::SkipOne));
    assert_eq!(p.query_state(false), AudioState::Playing);
    assert_eq!(p.query_progress(1_000, false), 0);
}

#[test]
fn play_and_pause_are_noops_when_empty() {
    let mut p = Processor::new();
    let eff1 = p.handle_play(5);
    assert!(matches!(eff1, SinkEffect::Noop));
    let eff2 = p.handle_pause(6);
    assert!(matches!(eff2, SinkEffect::Noop));
    assert_eq!(p.query_state(true), AudioState::Empty);
}

#[test]
fn redundant_play_keeps_elapsed() {
    let mut p = Processor::new();
    p.loaded(Some(60_000), 0);
    let eff = p.handle_play(4_000);
    assert!(matches!(eff, SinkEffect::Noop));
    assert_eq!(p.query_progress(4_000, false), 4_000);
}

#[test]
fn progress_query_detects_natural_end() {
    let mut p = Processor::new();
    p.loaded(Some(2_000), 0);
    // Past the known total duration the reply is clamped to the end and the
    // session goes idle.
    assert_eq!(p.query_progress(2_500, false), 2_000);
    assert_eq!(p.query_state(true), AudioState::Empty);
}

#[test]
fn elapsed_saturates_at_the_representation_limit() {
    let mut p = Processor::new();
    p.loaded(None, 0);
    p.seek_done(u64::MAX, 0);
    assert_eq!(p.query_progress(5_000, false), u64::MAX);
}

#[test]
fn elapsed_is_never_negative() {
    let mut p = Processor::new();
    // An instant earlier than the run anchor contributes no run time.
    p.loaded(Some(10_000), 1_000);
    assert_eq!(p.query_progress(500, false), 0);
}

#[test]
fn total_duration_reports_track_or_sentinel() {
    let mut p = Processor::new();
    assert_eq!(p.query_total_duration(), UNKNOWN_TOTAL_MS);
    p.loaded(Some(123_456), 0);
    assert_eq!(p.query_total_duration(), 123_456);
    p.loaded(None, 0);
    assert_eq!(p.query_total_duration(), UNKNOWN_TOTAL_MS);
}

#[test]
fn failed_load_leaves_everything_as_it_was() {
    let mut p = Processor::new();
    p.loaded(Some(8_000), 0);
    p.handle_pause(3_000);
    p.load_failed();
    assert_eq!(p.query_state(false), AudioState::Paused);
    assert_eq!(p.query_progress(99_000, false), 3_000);
}

#[test]
fn volume_is_clamped_to_full_scale() {
    assert_eq!(clamped_volume(1_500), VOLUME_FULL);
    assert_eq!(clamped_volume(VOLUME_FULL), VOLUME_FULL);
    assert_eq!(clamped_volume(300), 300);
    assert_eq!(clamped_volume(0), 0);
}

#[test]
fn commands_route_to_the_expected_effects() {
    let mut p = Processor::new();

    let (eff, reply) = p.handle_command(AudioCommand::PlaySong("a.wav".to_string()), 0, true, 0);
    assert!(matches!(eff, SinkEffect::Open { ref path, offset_ms: 0 } if path == "a.wav"));
    assert!(reply.is_none());
    p.loaded(Some(4_000), 0);

    let (eff, reply) = p.handle_command(AudioCommand::GetState, 10, false, 1);
    assert!(matches!(eff, SinkEffect::Noop));
    assert_eq!(reply, Some(Reply::State(AudioState::Playing)));

    let (eff, reply) = p.handle_command(AudioCommand::GetProgress, 1_000, false, 1);
    assert!(matches!(eff, SinkEffect::Noop));
    assert_eq!(reply, Some(Reply::Progress(1_000)));

    let (eff, reply) = p.handle_command(AudioCommand::GetTrackDuration, 1_000, false, 1);
    assert!(matches!(eff, SinkEffect::Noop));
    assert_eq!(reply, Some(Reply::TotalDuration(4_000)));

    let (eff, _) = p.handle_command(
        AudioCommand::SetProgress(2_000, "a.wav".to_string()),
        1_500,
        false,
        1,
    );
    assert!(matches!(eff, SinkEffect::Open { ref path, offset_ms: 2_000 } if path == "a.wav"));

    let (eff, _) = p.handle_command(AudioCommand::SetVolume(2_000), 1_500, false, 1);
    assert!(matches!(eff, SinkEffect::SetVolume(v) if v == VOLUME_FULL));

    let (eff, _) = p.handle_command(AudioCommand::Pause, 2_000, false, 1);
    assert!(matches!(eff, SinkEffect::Pause));
    let (eff, _) = p.handle_command(AudioCommand::Play, 2_500, false, 1);
    assert!(matches!(eff, SinkEffect::Play));
    let (eff, _) = p.handle_command(AudioCommand::Skip, 3_000, false, 1);
    assert!(matches!(eff, SinkEffect::Stop));
    assert_eq!(p.query_state(true), AudioState::Empty);
}

#[test]
fn seek_command_while_empty_is_ignored() {
    let mut p = Processor::new();
    let (eff, reply) =
        p.handle_command(AudioCommand::SetProgress(5_000, "a.wav".to_string()), 0, true, 0);
    assert!(matches!(eff, SinkEffect::Noop));
    assert!(reply.is_none());
    assert_eq!(p.query_state(true), AudioState::Empty);
}
