use music_player::bridge::MprisCommand;
use music_player::coordinator::{Coordinator, PlaybackStatus};
use music_player::meta::TrackMetadata;

fn with_queue(tracks: &[&str]) -> Coordinator {
    let mut c = Coordinator::new(true);
    for t in tracks {
        c.enqueue(String::from(*t));
    }
    c
}

#[test]
fn fresh_coordinator_is_idle() {
    let c = Coordinator::new(true);
    assert_eq!(c.status(), PlaybackStatus::Stopped);
    assert_eq!(c.position_ms(), 0);
    assert_eq!(c.duration_ms(), None);
    assert!(!c.metadata_flush_pending());
    assert!(c.queue().is_empty());
}

#[test]
fn play_loads_current_when_stopped() {
    let c = with_queue(&["a", "b"]);
    assert_eq!(c.begin_play(), Some(String::from("a")));
}

#[test]
fn play_does_not_reload_when_paused() {
    let mut c = with_queue(&["a"]);
    let _ = c.begin_play();
    c.on_play(true);
    c.on_pause(true);
    // resuming from pause must not reload the track
    assert_eq!(c.begin_play(), None);
    let out = c.on_play(true);
    assert_eq!(c.status(), PlaybackStatus::Playing);
    assert_eq!(
        out,
        Some(MprisCommand::SetPlayback {
            playing: true,
            position: Some(0)
        })
    );
}

#[test]
fn play_on_empty_queue_loads_nothing() {
    let c = Coordinator::new(true);
    assert_eq!(c.begin_play(), None);
}

#[test]
fn failed_play_changes_nothing() {
    let mut c = with_queue(&["a"]);
    let out = c.on_play(false);
    assert_eq!(out, None);
    assert_eq!(c.status(), PlaybackStatus::Stopped);
    assert!(!c.metadata_flush_pending());
}

#[test]
fn pause_reports_not_playing() {
    let mut c = with_queue(&["a"]);
    c.on_play(true);
    let out = c.on_pause(true);
    assert_eq!(c.status(), PlaybackStatus::Paused);
    assert_eq!(
        out,
        Some(MprisCommand::SetPlayback {
            playing: false,
            position: Some(0)
        })
    );
}

#[test]
fn pause_twice_equals_pause_once() {
    let mut once = with_queue(&["a"]);
    once.on_play(true);
    once.on_pause(true);
    let mut twice = with_queue(&["a"]);
    twice.on_play(true);
    twice.on_pause(true);
    twice.on_pause(true);
    assert_eq!(once.status(), twice.status());
    assert_eq!(once.position_ms(), twice.position_ms());
}

#[test]
fn stop_resets_position() {
    let mut c = with_queue(&["a"]);
    c.on_play(true);
    c.tick_refresh(Some(5000), Some(60000));
    assert_eq!(c.position_ms(), 5000);
    let out = c.on_stop(true);
    assert_eq!(c.status(), PlaybackStatus::Stopped);
    assert_eq!(c.position_ms(), 0);
    assert_eq!(
        out,
        Some(MprisCommand::SetPlayback {
            playing: false,
            position: Some(0)
        })
    );
}

#[test]
fn load_selects_and_starts() {
    let mut c = with_queue(&["a", "b"]);
    assert!(c.begin_load(String::from("b")));
    let out = c.on_track_started(true);
    assert_eq!(c.status(), PlaybackStatus::Playing);
    assert!(c.metadata_flush_pending());
    assert_eq!(c.queue().current(), Some(String::from("b")));
    assert_eq!(
        out,
        Some(MprisCommand::SetPlayback {
            playing: true,
            position: Some(0)
        })
    );
}

#[test]
fn load_appends_unknown_track() {
    let mut c = with_queue(&["a"]);
    assert!(c.begin_load(String::from("z")));
    assert_eq!(c.queue().len(), 2);
    assert_eq!(c.queue().current(), Some(String::from("z")));
}

#[test]
fn empty_queue_next_stays_idle() {
    let mut c = Coordinator::new(true);
    let r = c.begin_next();
    assert_eq!(r, None);
    assert_eq!(c.status(), PlaybackStatus::Stopped);
    assert_eq!(c.queue().len(), 0);
}

#[test]
fn next_advances_and_starts_second_track() {
    let mut c = with_queue(&["a", "b", "x"]);
    let r = c.begin_next();
    assert_eq!(r, Some(String::from("b")));
    let out = c.on_track_started(true);
    assert_eq!(c.status(), PlaybackStatus::Playing);
    assert_eq!(c.queue().current(), Some(String::from("b")));
    assert_eq!(
        out,
        Some(MprisCommand::SetPlayback {
            playing: true,
            position: Some(0)
        })
    );
}

#[test]
fn prev_retreats_with_wraparound() {
    let mut c = with_queue(&["a", "b", "x"]);
    let r = c.begin_prev();
    assert_eq!(r, Some(String::from("x")));
    let _ = c.on_track_started(true);
    assert_eq!(c.queue().current(), Some(String::from("x")));
}

#[test]
fn failed_track_start_changes_nothing() {
    let mut c = with_queue(&["a", "b"]);
    let r = c.begin_next();
    assert_eq!(r, Some(String::from("b")));
    let out = c.on_track_started(false);
    assert_eq!(out, None);
    assert_eq!(c.status(), PlaybackStatus::Stopped);
    // the cursor stays where the command moved it
    assert_eq!(c.queue().current(), Some(String::from("b")));
}

#[test]
fn seek_to_half_of_known_duration() {
    let mut c = with_queue(&["a"]);
    c.on_play(true);
    c.tick_refresh(Some(0), Some(200000));
    // the shell maps the fraction 0.5 to 500 thousandths
    let r = c.seek_to(500);
    let (target, cmd) = r.expect("seek must fire with a known duration");
    assert_eq!(target, 100000);
    assert_eq!(c.position_ms(), 100000);
    assert_eq!(
        cmd,
        MprisCommand::SetPlayback {
            playing: true,
            position: Some(100000)
        }
    );
}

#[test]
fn seek_fraction_is_clamped() {
    let mut c = with_queue(&["a"]);
    c.tick_refresh(None, Some(1000));
    let (target, _) = c.seek_to(2000).unwrap();
    assert_eq!(target, 1000);
}

#[test]
fn seek_without_duration_does_nothing() {
    let mut c = with_queue(&["a"]);
    assert_eq!(c.seek_to(500), None);
    assert_eq!(c.position_ms(), 0);
}

#[test]
fn seek_to_ms_clamps_to_duration() {
    let mut c = with_queue(&["a"]);
    c.tick_refresh(None, Some(60000));
    let (target, _) = c.seek_to_ms(90000).unwrap();
    assert_eq!(target, 60000);
    assert_eq!(c.position_ms(), 60000);
    let (target2, _) = c.seek_to_ms(30000).unwrap();
    assert_eq!(target2, 30000);
}

#[test]
fn position_never_passes_known_duration() {
    let mut c = with_queue(&["a"]);
    c.on_play(true);
    // the engine reports a position past the duration; the stored one is clamped
    c.tick_refresh(Some(99999), Some(60000));
    assert_eq!(c.position_ms(), 60000);
    assert_eq!(c.duration_ms(), Some(60000));
    // a later, shorter duration clamps the stored position too
    c.tick_refresh(None, Some(1000));
    assert_eq!(c.position_ms(), 1000);
}

#[test]
fn tick_reports_playback_state() {
    let mut c = with_queue(&["a"]);
    c.on_play(true);
    c.tick_refresh(Some(1234), Some(60000));
    assert_eq!(
        c.tick_playback_push(),
        Some(MprisCommand::SetPlayback {
            playing: true,
            position: Some(1234)
        })
    );
    c.on_pause(true);
    assert_eq!(
        c.tick_playback_push(),
        Some(MprisCommand::SetPlayback {
            playing: false,
            position: Some(1234)
        })
    );
}

#[test]
fn eos_on_single_track_wraps_to_same_track() {
    let mut c = with_queue(&["a"]);
    c.on_play(true);
    let r = c.tick_eos(true);
    // wraparound selects the same single track again for a fresh load
    assert_eq!(r, Some(String::from("a")));
    let _ = c.on_track_started(true);
    assert_eq!(c.status(), PlaybackStatus::Playing);
    assert_eq!(c.queue().current(), Some(String::from("a")));
}

#[test]
fn no_eos_leaves_queue_alone() {
    let mut c = with_queue(&["a", "b"]);
    assert_eq!(c.tick_eos(false), None);
    assert_eq!(c.queue().current(), Some(String::from("a")));
}

#[test]
fn metadata_flush_waits_for_information() {
    let mut c = with_queue(&["a"]);
    c.begin_load(String::from("a"));
    c.on_track_started(true);
    assert!(c.metadata_flush_pending());
    // nothing known yet: no SetMetadata may be pushed
    let nothing = TrackMetadata::empty();
    assert_eq!(c.flush_metadata(&nothing, None), None);
    assert!(c.metadata_flush_pending());
    assert_eq!(c.flush_metadata(&nothing, None), None);
    // a title arrives: exactly one SetMetadata is pushed
    let mut md = TrackMetadata::empty();
    md.absorb(Some(String::from("Song")), None, None);
    let out = c.flush_metadata(&md, Some(180000));
    assert_eq!(
        out,
        Some(MprisCommand::SetMetadata {
            title: Some(String::from("Song")),
            artist: None,
            album: None,
            length: Some(180000)
        })
    );
    assert!(!c.metadata_flush_pending());
    // and never a second one for the same track
    assert_eq!(c.flush_metadata(&md, Some(180000)), None);
}

#[test]
fn duration_alone_releases_metadata() {
    let mut c = with_queue(&["a"]);
    c.begin_load(String::from("a"));
    c.on_track_started(true);
    let nothing = TrackMetadata::empty();
    let out = c.flush_metadata(&nothing, Some(1000));
    assert_eq!(
        out,
        Some(MprisCommand::SetMetadata {
            title: None,
            artist: None,
            album: None,
            length: Some(1000)
        })
    );
}

#[test]
fn without_engine_transport_is_inert() {
    let mut c = Coordinator::new(false);
    c.enqueue(String::from("a"));
    assert_eq!(c.queue().len(), 1);
    assert_eq!(c.begin_play(), None);
    assert_eq!(c.on_play(true), None);
    assert_eq!(c.status(), PlaybackStatus::Stopped);
    assert!(!c.begin_load(String::from("b")));
    assert_eq!(c.queue().len(), 1);
    assert_eq!(c.begin_next(), None);
    assert_eq!(c.tick_playback_push(), None);
    c.tick_refresh(Some(1), Some(2));
    assert_eq!(c.position_ms(), 0);
    assert_eq!(c.duration_ms(), None);
}
