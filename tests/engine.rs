use sonus::controller::{PlayMode as BatchMode, PlayerController};
use sonus::playlist::PlayMode;
use sonus::progress::{ProgressSession, TICK_MS};
use sonus::state::{
    DurationMs, DurationWrapper, EngineError, PlaybackState, PlaybackStateStr, PlayerState, StateSnapshot,
    VOLUME_MAX,
};
use std::time::Duration;
use sonus::track::Track;

fn track(id: usize) -> Track {
    let mut t = Track::new();
    t.id = Some(id);
    t.file_path = format!("/music/{}.flac", id);
    t
}

#[test]
fn volume_is_clamped() {
    let mut s = PlayerState::new();
    assert_eq!(s.volume(), VOLUME_MAX);
    s.set_volume(-500);
    assert_eq!(s.volume(), 0);
    s.set_volume(1700);
    assert_eq!(s.volume(), 1000);
    s.set_volume(300);
    assert_eq!(s.volume(), 300);
}

#[test]
fn load_then_snapshot() {
    let mut s = PlayerState::new();
    s.record_load("/music/a.flac".to_string(), Some(183_000), 0);
    let snap = StateSnapshot::from(&s);
    assert_eq!(snap.playback_state, PlaybackState::Playing);
    assert_eq!(snap.current_position, 0);
    assert_eq!(snap.total_duration, Some(183_000));
    assert_eq!(snap.current_file, Some("/music/a.flac".to_string()));
    assert_eq!(s.seek_target(), Ok("/music/a.flac".to_string()));
    s.record_seek(Some(183_000), 5_000);
    let snap = StateSnapshot::from(&s);
    assert_eq!(snap.current_position, 5_000);
    assert_eq!(snap.playback_state, PlaybackState::Playing);
}

#[test]
fn seek_needs_a_file() {
    let s = PlayerState::new();
    assert_eq!(s.seek_target(), Err(EngineError::NoFileLoaded));
}

#[test]
fn stop_resets_position_and_file() {
    let mut s = PlayerState::new();
    s.record_load("/music/a.flac".to_string(), None, 1_000);
    s.record_stop();
    assert!(s.is_stopped());
    assert_eq!(s.current_position(), 0);
    assert!(s.current_file().is_none());
}

#[test]
fn tick_clamps_and_stops_at_end() {
    let mut s = PlayerState::new();
    s.record_load("/music/a.flac".to_string(), Some(10_000), 0);
    assert!(!s.apply_tick(9_800));
    assert_eq!(s.current_position(), 9_800);
    assert!(s.is_playing());
    assert!(s.apply_tick(10_150));
    assert_eq!(s.current_position(), 10_000);
    assert_eq!(s.playback_state(), PlaybackState::Stopped);
    assert_eq!(s.current_file().map(|f| f.as_str()), Some("/music/a.flac"));
}

#[test]
fn tick_without_total_is_unbounded() {
    let mut s = PlayerState::new();
    s.record_load("/music/a.flac".to_string(), None, 0);
    assert!(!s.apply_tick(99_000_000));
    assert_eq!(s.current_position(), 99_000_000);
    assert!(s.is_playing());
}

#[test]
fn clock_pause_resume_is_drift_free() {
    let mut c = ProgressSession::start(1_000, false, 50_000);
    assert_eq!(c.tick(50_300), Some(1_300));
    c.pause(50_500);
    assert_eq!(c.base_position, 1_500);
    assert_eq!(c.tick(60_000), None);
    assert_eq!(c.elapsed(60_000), 1_500);
    c.resume(70_000);
    assert_eq!(c.tick(70_250), Some(1_750));
    c.resume(80_000);
    assert_eq!(c.anchor, Some(70_000));
}

#[test]
fn clock_seek_within_one_tick() {
    let mut c = ProgressSession::start(0, false, 0);
    c.seek_and_resume(5_000, 1_000);
    let p = c.tick(1_000 + TICK_MS).unwrap();
    assert!(p >= 5_000 && p <= 5_000 + TICK_MS);
    c.seek_and_pause(7_000);
    assert_eq!(c.tick(9_999), None);
    assert_eq!(c.elapsed(9_999), 7_000);
}

#[test]
fn clock_before_anchor_counts_nothing() {
    let c = ProgressSession::start(2_000, false, 5_000);
    assert_eq!(c.elapsed(4_000), 2_000);
    let far = ProgressSession::start(u64::MAX - 10, false, 0);
    assert_eq!(far.elapsed(100), u64::MAX);
}

#[test]
fn mirror_follows_playlist_side() {
    let mut s = PlayerState::new();
    let mut c = PlayerController::new();
    let r = c.play_to_playlist(&mut s, vec![track(1)], BatchMode::Single);
    assert_eq!(r, Some("/music/1.flac".to_string()));
    assert_eq!(s.current_index(), Some(0));
    assert_eq!(s.current_track().unwrap().id, Some(1));
    assert_eq!(s.current_playlist().tracks.len(), 1);
    let r = c.play_to_playlist(&mut s, vec![track(2)], BatchMode::Single);
    assert_eq!(r, Some("/music/2.flac".to_string()));
    assert_eq!(s.current_index(), Some(1));
    let r = c.play_to_playlist(&mut s, vec![track(7), track(8), track(9)], BatchMode::Queue);
    assert_eq!(r, None);
    assert_eq!(s.current_index(), Some(0));
    assert_eq!(s.current_track().unwrap().id, Some(7));
    assert_eq!(s.current_playlist().tracks.len(), 3);
    c.set_play_mode(&mut s, PlayMode::Single);
    assert_eq!(s.current_play_mode(), PlayMode::Single);
    c.remove_track_at(&mut s, 0).unwrap();
    assert_eq!(s.current_track().unwrap().id, Some(8));
    assert!(c.remove_track_at(&mut s, 5).is_err());
    c.insert_track_at(&mut s, 0, track(3)).unwrap();
    assert_eq!(s.current_index(), Some(1));
    c.clear_playlist(&mut s);
    assert_eq!(s.current_index(), None);
    assert!(s.current_track().is_none());
}

#[test]
fn exchange_types_convert() {
    let w = DurationWrapper::from(Duration::from_millis(1_500));
    assert_eq!(Duration::from(w), Duration::from_millis(1_500));
    assert_eq!(PlaybackStateStr::from(PlaybackState::Paused), PlaybackStateStr::Paused);
    assert_eq!(PlaybackStateStr::from(PlaybackState::Stopped), PlaybackStateStr::Stopped);
    assert_eq!(PlaybackStateStr::from(PlaybackState::Playing), PlaybackStateStr::Playing);
    assert_eq!(DurationMs(42).0, 42);
}

#[test]
fn playlist_tracks_can_be_edited_in_place() {
    let mut c = PlayerController::new();
    c.playlist_manager.get_playlist_tracks().push(track(4));
    assert_eq!(c.playlist_manager.playlist.tracks.len(), 1);
}

#[test]
fn queue_batch_starts_at_first_track() {
    let mut s = PlayerState::new();
    let mut c = PlayerController::new();
    c.play_to_playlist(&mut s, vec![track(1), track(2)], BatchMode::Queue);
    c.set_and_play_index(&mut s, 0).unwrap();
    c.set_play_mode(&mut s, PlayMode::Random);
    let r = c.play_to_playlist(&mut s, vec![track(1), track(5), track(6)], BatchMode::Queue);
    assert_eq!(r, None);
    let ids: Vec<usize> = c.playlist_manager.playlist.tracks.iter().map(|t| t.id.unwrap()).collect();
    assert_eq!(ids, vec![1, 5, 6]);
    assert_eq!(c.playlist_manager.current_index, Some(0));
    assert_eq!(s.current_index(), Some(0));
    assert_eq!(s.current_track().unwrap().id, Some(1));
    c.play_to_playlist(&mut s, vec![], BatchMode::Queue);
    assert_eq!(c.playlist_manager.current_index, None);
    assert_eq!(s.current_index(), None);
}

#[test]
fn controller_navigation_is_mirrored() {
    let mut s = PlayerState::new();
    let mut c = PlayerController::new();
    c.add_track_to_end(&mut s, track(1)).unwrap();
    c.add_track_to_end(&mut s, track(2)).unwrap();
    assert_eq!(s.current_index(), Some(0));
    assert_eq!(c.next_track(&mut s).unwrap().id, Some(2));
    assert_eq!(s.current_index(), Some(1));
    assert_eq!(s.current_track().unwrap().id, Some(2));
    assert_eq!(c.previous_track(&mut s).unwrap().id, Some(1));
    assert_eq!(s.current_index(), Some(0));
    c.insert_track_after_current(&mut s, track(3)).unwrap();
    assert_eq!(s.current_index(), Some(1));
    assert_eq!(s.current_track().unwrap().id, Some(3));
    c.move_track(&mut s, 1, 3).unwrap();
    assert_eq!(s.current_index(), Some(2));
    assert_eq!(s.current_playlist().tracks[2].id, Some(3));
    assert!(c.move_track(&mut s, 7, 0).is_err());
    assert_eq!(c.set_and_play_index(&mut s, 0), Ok("/music/1.flac".to_string()));
    assert_eq!(s.current_index(), Some(0));
    assert!(c.set_and_play_index(&mut s, 9).is_err());
    assert_eq!(s.current_index(), Some(0));
}

#[test]
fn clock_seek_keeps_disposition() {
    let mut c = ProgressSession::start(0, false, 0);
    c.seek(3_000, 500, true);
    assert_eq!(c.tick(9_000), None);
    assert_eq!(c.elapsed(9_000), 3_000);
    c.seek(4_000, 1_000, false);
    assert_eq!(c.tick(1_100), Some(4_100));
}
