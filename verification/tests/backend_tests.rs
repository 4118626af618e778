use termusic::backend::{PlayerInternalCmd, RustyBackend, SinkAction, SinkView};
use termusic::dur::PlayerDuration;
use termusic::track::{MediaType, Settings, Track};

fn engine() -> RustyBackend {
    RustyBackend::new(&Settings::default_settings())
}

fn sink() -> SinkView {
    SinkView { elapsed: PlayerDuration::zero(), is_paused: false }
}

fn has_notify(actions: &[SinkAction]) -> bool {
    actions
        .iter()
        .any(|a| matches!(a, SinkAction::NotifyAboutToFinish))
}

#[test]
fn set_volume_clamps_to_100() {
    let mut b = engine();
    b.set_volume(150);
    assert_eq!(b.volume(), 100);
}

#[test]
fn volume_down_saturates_at_zero() {
    let mut b = engine();
    b.set_volume(3);
    assert_eq!(b.volume(), 3);
    b.volume_down();
    b.volume_down();
    b.volume_down();
    assert_eq!(b.volume(), 0);
}

#[test]
fn volume_up_clamps_at_100() {
    let mut b = engine();
    b.set_volume(98);
    b.volume_up();
    assert_eq!(b.volume(), 100);
}

#[test]
fn speed_clamps() {
    let mut b = engine();
    b.set_speed(500);
    assert_eq!(b.speed(), 30);
    b.speed_up();
    assert_eq!(b.speed(), 30);
    b.set_speed(-4);
    assert_eq!(b.speed(), 1);
    b.speed_down();
    assert_eq!(b.speed(), 1);
    b.set_speed(10);
    b.speed_up();
    assert_eq!(b.speed(), 11);
}

#[test]
fn play_reports_duration_until_next_play() {
    // a resolved music track of known duration: the snapshot reports it
    let mut b = engine();
    let dur = PlayerDuration::new(180, 0);
    let _ = b.apply_resolved(MediaType::Music, false, Some(dur));
    let p = b.get_progress().unwrap();
    assert_eq!(p.total_duration, Some(dur));
    // progress reports and seeks do not move it
    let _ = b.process_command(PlayerInternalCmd::Progress(PlayerDuration::new(10, 0)), sink());
    let _ = b.process_command(PlayerInternalCmd::SeekRelative(30), sink());
    let _ = b.process_command(PlayerInternalCmd::Volume(80), sink());
    let _ = b.process_command(PlayerInternalCmd::Eos, sink());
    assert_eq!(b.get_progress().unwrap().total_duration, Some(dur));
    // the next resolved track replaces it
    let dur2 = PlayerDuration::new(20, 0);
    let _ = b.apply_resolved(MediaType::Music, false, Some(dur2));
    assert_eq!(b.get_progress().unwrap().total_duration, Some(dur2));
}

#[test]
fn resume_is_idempotent() {
    let mut b = engine();
    let dur = PlayerDuration::new(60, 0);
    let _ = b.apply_resolved(MediaType::Music, false, Some(dur));
    let before = b.get_progress().unwrap();
    let actions = b.process_command(PlayerInternalCmd::Resume, sink());
    assert_eq!(actions.len(), 1);
    assert!(matches!(actions[0], SinkAction::Play));
    let actions = b.process_command(PlayerInternalCmd::Resume, sink());
    assert_eq!(actions.len(), 1);
    assert!(matches!(actions[0], SinkAction::Play));
    assert_eq!(b.get_progress().unwrap(), before);
}

#[test]
fn gapless_handoff_swaps_duration_once() {
    let mut b = engine();
    let dur_a = PlayerDuration::new(100, 0);
    let dur_b = PlayerDuration::new(250, 0);
    let _ = b.apply_resolved(MediaType::Music, false, Some(dur_a));
    assert_eq!(b.total_duration, Some(dur_a));
    let actions = b.apply_resolved(MediaType::Music, true, Some(dur_b));
    // the enqueued track arms the end-of-stream notification
    assert_eq!(actions.len(), 2);
    assert!(matches!(actions[0], SinkAction::Append));
    assert!(matches!(actions[1], SinkAction::MessageOnEnd));
    // still playing A
    assert_eq!(b.total_duration, Some(dur_a));
    assert_eq!(b.next_duration, Some(dur_b));
    // end of stream commits the staged duration and clears the slot
    let _ = b.process_command(PlayerInternalCmd::Eos, sink());
    assert_eq!(b.total_duration, Some(dur_b));
    assert_eq!(b.next_duration, None);
    // a second end of stream changes nothing
    let _ = b.process_command(PlayerInternalCmd::Eos, sink());
    assert_eq!(b.total_duration, Some(dur_b));
    assert_eq!(b.next_duration, None);
}

#[test]
fn about_to_finish_fires_once_per_track() {
    let mut b = engine();
    let dur = PlayerDuration::new(10, 0);
    let _ = b.apply_resolved(MediaType::Music, false, Some(dur));
    // early report: more than 2s remain
    let a1 = b.process_command(PlayerInternalCmd::Progress(PlayerDuration::new(5, 0)), sink());
    assert!(!has_notify(&a1));
    // inside the window and past half the track
    let a2 = b.process_command(
        PlayerInternalCmd::Progress(PlayerDuration::new(8, 500_000_000)),
        sink(),
    );
    assert!(has_notify(&a2));
    // a later report does not fire again
    let a3 = b.process_command(
        PlayerInternalCmd::Progress(PlayerDuration::new(9, 0)),
        sink(),
    );
    assert!(!has_notify(&a3));
    // a new resolved track arms it again
    let _ = b.apply_resolved(MediaType::Music, false, Some(dur));
    let a4 = b.process_command(
        PlayerInternalCmd::Progress(PlayerDuration::new(9, 0)),
        sink(),
    );
    assert!(has_notify(&a4));
}

#[test]
fn about_to_finish_needs_half_progress() {
    let mut b = engine();
    // a short track: 3s total, position 2s -> inside 2s window but past half
    let _ = b.apply_resolved(MediaType::Music, false, Some(PlayerDuration::new(3, 0)));
    let a = b.process_command(PlayerInternalCmd::Progress(PlayerDuration::new(2, 0)), sink());
    assert!(has_notify(&a));
    // 10s track at 9s came past half; at 1s under half even close to start
    let mut b = engine();
    let _ = b.apply_resolved(MediaType::Music, false, Some(PlayerDuration::new(4, 0)));
    let a = b.process_command(
        PlayerInternalCmd::Progress(PlayerDuration::new(1, 900_000_000)),
        sink(),
    );
    // 1.9 / 4.0 < 0.5, and 2.1s remain
    assert!(!has_notify(&a));
}

#[test]
fn about_to_finish_never_fires_for_radio() {
    let mut b = engine();
    let _ = b.apply_resolved(MediaType::LiveRadio, false, Some(PlayerDuration::new(10, 0)));
    assert!(b.is_radio);
    // radio forces the duration to unknown
    assert_eq!(b.total_duration, None);
    let a = b.process_command(
        PlayerInternalCmd::Progress(PlayerDuration::new(9, 900_000_000)),
        sink(),
    );
    assert!(!has_notify(&a));
    // even with a stale duration present, radio suppresses the signal
    b.total_duration = Some(PlayerDuration::new(10, 0));
    let a = b.process_command(
        PlayerInternalCmd::Progress(PlayerDuration::new(9, 900_000_000)),
        sink(),
    );
    assert!(!has_notify(&a));
}

#[test]
fn seek_relative_forward_applies_only_within_bound() {
    let mut b = engine();
    let _ = b.apply_resolved(MediaType::Music, false, Some(PlayerDuration::new(180, 0)));
    let view = SinkView { elapsed: PlayerDuration::new(100, 0), is_paused: false };
    // 100 + 30 < 180 - 30: applied
    let a = b.process_command(PlayerInternalCmd::SeekRelative(30), view);
    assert_eq!(a.len(), 1);
    match &a[0] {
        SinkAction::SeekTo { position } => assert_eq!(position.secs, 130),
        _ => panic!("expected a seek"),
    }
    // 100 + 50 >= 180 - 50: refused, nothing out of range
    let a = b.process_command(PlayerInternalCmd::SeekRelative(50), view);
    assert_eq!(a.len(), 0);
    // an offset past the end never panics and never seeks
    let a = b.process_command(PlayerInternalCmd::SeekRelative(i64::MAX), view);
    assert_eq!(a.len(), 0);
}

#[test]
fn seek_relative_backward_floors_at_start() {
    let mut b = engine();
    let _ = b.apply_resolved(MediaType::Music, false, Some(PlayerDuration::new(180, 0)));
    let view = SinkView { elapsed: PlayerDuration::new(10, 0), is_paused: false };
    let a = b.process_command(PlayerInternalCmd::SeekRelative(-200), view);
    assert_eq!(a.len(), 1);
    match &a[0] {
        SinkAction::SeekTo { position } => assert_eq!(position.secs, 0),
        _ => panic!("expected a seek"),
    }
}

#[test]
fn seek_relative_while_paused_mutes_and_restores() {
    let mut b = engine();
    b.set_volume(80);
    let _ = b.apply_resolved(MediaType::Music, false, Some(PlayerDuration::new(180, 0)));
    let view = SinkView { elapsed: PlayerDuration::new(50, 0), is_paused: true };
    let a = b.process_command(PlayerInternalCmd::SeekRelative(-10), view);
    assert_eq!(a.len(), 5);
    assert!(matches!(a[0], SinkAction::SetVolume { volume: 0 }));
    match &a[1] {
        SinkAction::SeekTo { position } => assert_eq!(position.secs, 40),
        _ => panic!("expected a seek"),
    }
    assert!(matches!(a[2], SinkAction::SettleDelay));
    assert!(matches!(a[3], SinkAction::Pause));
    assert!(matches!(a[4], SinkAction::SetVolume { volume: 80 }));
}

#[test]
fn stop_recreates_and_reapplies_settings() {
    let mut b = engine();
    b.set_volume(70);
    b.set_speed(12);
    let a = b.process_command(PlayerInternalCmd::Stop, sink());
    assert_eq!(a.len(), 3);
    assert!(matches!(a[0], SinkAction::Recreate));
    assert!(matches!(a[1], SinkAction::SetSpeed { speed: 12 }));
    assert!(matches!(a[2], SinkAction::SetVolume { volume: 70 }));
}

#[test]
fn skip_resumes_a_paused_sink() {
    let mut b = engine();
    let paused = SinkView { elapsed: PlayerDuration::zero(), is_paused: true };
    let a = b.process_command(PlayerInternalCmd::Skip, paused);
    assert_eq!(a.len(), 2);
    assert!(matches!(a[0], SinkAction::SkipOne));
    assert!(matches!(a[1], SinkAction::Play));
    let a = b.process_command(PlayerInternalCmd::Skip, sink());
    assert_eq!(a.len(), 1);
    assert!(matches!(a[0], SinkAction::SkipOne));
}

#[test]
fn facade_queues_commands_in_fifo_order() {
    let mut b = engine();
    let track = Track::new(MediaType::Music, Some("a.mp3".to_string()));
    b.add_and_play(&track);
    b.pause();
    b.stop();
    match b.next_command() {
        Some(PlayerInternalCmd::Play(t, gapless)) => {
            assert_eq!(t.file, Some("a.mp3".to_string()));
            assert!(gapless);
        }
        _ => panic!("expected the play command first"),
    }
    assert!(matches!(b.next_command(), Some(PlayerInternalCmd::Resume)));
    assert!(matches!(b.next_command(), Some(PlayerInternalCmd::TogglePause)));
    assert!(matches!(b.next_command(), Some(PlayerInternalCmd::Stop)));
    assert!(b.next_command().is_none());
}

#[test]
fn radio_title_formatting() {
    let mut b = engine();
    b.store_radio_title("Blue in Green");
    assert_eq!(b.radio_title, "Current playing: Blue in Green");
    b.store_radio_title("");
    assert_eq!(b.radio_title, "<no title>");
}

#[test]
fn play_resolution_comes_back_as_an_action() {
    let mut b = engine();
    let track = Track::new(MediaType::Podcast, Some("http://example.org/e1.mp3".to_string()));
    let a = b.process_command(PlayerInternalCmd::Play(Box::new(track), true), sink());
    assert_eq!(a.len(), 1);
    match &a[0] {
        SinkAction::Resolve { track, gapless, enqueue } => {
            assert_eq!(track.file.as_deref(), Some("http://example.org/e1.mp3"));
            assert!(*gapless);
            assert!(!*enqueue);
        }
        _ => panic!("expected a resolve action"),
    }
}
