use sonus::playlist::{PlayMode, Playlist, PlaylistError, PlaylistManager};
use sonus::track::Track;

fn track(id: usize) -> Track {
    let mut t = Track::new();
    t.id = Some(id);
    t.file_path = format!("/music/{}.flac", id);
    t
}

fn manager(n: usize) -> PlaylistManager {
    let mut p = Playlist::new();
    for i in 0..n {
        p.tracks.push(track(i + 1));
    }
    PlaylistManager::new(p)
}

fn ids(m: &PlaylistManager) -> Vec<usize> {
    m.playlist.tracks.iter().map(|t| t.id.unwrap()).collect()
}

#[test]
fn repeat_cycle_returns_to_start() {
    let mut m = manager(4);
    m.set_current_index(0).unwrap();
    let mut seen = Vec::new();
    for _ in 0..4 {
        let t = m.next_track().unwrap();
        seen.push(t.id.unwrap());
    }
    assert_eq!(seen, vec![2, 3, 4, 1]);
    assert_eq!(m.current_index, Some(0));
}

#[test]
fn repeat_next_without_current_starts_at_first() {
    let mut m = manager(3);
    assert_eq!(m.next_track().unwrap().id, Some(1));
    assert_eq!(m.current_index, Some(0));
}

#[test]
fn next_on_empty_playlist_yields_nothing() {
    let mut m = manager(0);
    assert!(m.next_track().is_none());
    assert_eq!(m.current_index, None);
    m.set_play_mode(PlayMode::Random);
    assert!(m.next_track().is_none());
}

#[test]
fn random_next_never_repeats_current() {
    let mut m = manager(5);
    m.set_play_mode(PlayMode::Random);
    m.set_current_index(2).unwrap();
    for _ in 0..1000 {
        let before = m.current_index.unwrap();
        let before_id = m.playlist.tracks[before].id;
        let t = m.next_track().unwrap();
        let after = m.current_index.unwrap();
        assert_ne!(after, before);
        assert!(after < 5);
        assert_ne!(t.id, before_id);
    }
}

#[test]
fn random_next_with_one_track_stays() {
    let mut m = manager(1);
    m.set_play_mode(PlayMode::Random);
    for _ in 0..20 {
        assert_eq!(m.next_track().unwrap().id, Some(1));
        assert_eq!(m.current_index, Some(0));
    }
}

#[test]
fn random_next_reaches_every_other_track() {
    let mut m = manager(3);
    m.set_play_mode(PlayMode::Random);
    let mut seen = [false; 3];
    for _ in 0..300 {
        m.set_current_index(0).unwrap();
        m.next_track();
        seen[m.current_index.unwrap()] = true;
    }
    assert_eq!(seen, [false, true, true]);
}

#[test]
fn single_mode_stays_on_current() {
    let mut m = manager(3);
    m.set_current_index(1).unwrap();
    m.set_play_mode(PlayMode::Single);
    assert_eq!(m.next_track().unwrap().id, Some(2));
    assert_eq!(m.previous_track().unwrap().id, Some(2));
    assert_eq!(m.current_index, Some(1));
}

#[test]
fn previous_repeat_wraps_to_end() {
    let mut m = manager(3);
    m.set_current_index(0).unwrap();
    assert_eq!(m.previous_track().unwrap().id, Some(3));
    assert_eq!(m.current_index, Some(2));
    let mut fresh = manager(3);
    assert_eq!(fresh.previous_track().unwrap().id, Some(3));
}

#[test]
fn previous_random_does_not_wrap() {
    let mut m = manager(3);
    m.set_play_mode(PlayMode::Random);
    m.set_current_index(1).unwrap();
    let expected = m.playlist.tracks[0].id;
    assert_eq!(m.previous_track().unwrap().id, expected);
    assert_eq!(m.current_index, Some(0));
    assert!(m.previous_track().is_none());
    assert_eq!(m.current_index, Some(0));
}

#[test]
fn remove_current_keeps_index_on_next_track() {
    let mut m = manager(3);
    m.set_current_index(1).unwrap();
    m.remove_at(1).unwrap();
    assert_eq!(m.current_index, Some(1));
    assert_eq!(m.get_current_track().unwrap().id, Some(3));
    m.remove_at(1).unwrap();
    assert_eq!(m.current_index, Some(0));
    assert_eq!(m.get_current_track().unwrap().id, Some(1));
    m.remove_at(0).unwrap();
    assert_eq!(m.current_index, None);
    assert!(m.playlist.tracks.is_empty());
}

#[test]
fn remove_before_current_shifts_back() {
    let mut m = manager(4);
    m.set_current_index(2).unwrap();
    m.remove_at(0).unwrap();
    assert_eq!(m.current_index, Some(1));
    assert_eq!(m.get_current_track().unwrap().id, Some(3));
    assert_eq!(ids(&m), vec![2, 3, 4]);
}

#[test]
fn remove_out_of_range_is_refused() {
    let mut m = manager(2);
    assert_eq!(m.remove_at(2), Err(PlaylistError::IndexOutOfBounds { index: 2, len: 2 }));
    assert_eq!(ids(&m), vec![1, 2]);
}

#[test]
fn repeat_random_repeat_restores_order() {
    let mut m = manager(8);
    m.set_current_index(5).unwrap();
    let id = m.get_current_track().unwrap().id;
    m.set_play_mode(PlayMode::Random);
    let mut shuffled = ids(&m);
    assert_eq!(m.get_current_track().unwrap().id, id);
    shuffled.sort();
    assert_eq!(shuffled, vec![1, 2, 3, 4, 5, 6, 7, 8]);
    m.set_play_mode(PlayMode::Repeat);
    assert_eq!(ids(&m), vec![1, 2, 3, 4, 5, 6, 7, 8]);
    assert_eq!(m.current_index, Some(5));
    assert_eq!(m.get_current_track().unwrap().id, id);
}

#[test]
fn random_on_empty_playlist_clears_index() {
    let mut m = manager(0);
    m.set_play_mode(PlayMode::Random);
    assert_eq!(m.current_index, None);
    assert_eq!(m.play_mode, PlayMode::Random);
}

#[test]
fn single_switches_keep_order() {
    let mut m = manager(4);
    m.set_current_index(3).unwrap();
    m.set_play_mode(PlayMode::Single);
    assert_eq!(ids(&m), vec![1, 2, 3, 4]);
    m.set_play_mode(PlayMode::Repeat);
    assert_eq!(ids(&m), vec![1, 2, 3, 4]);
    assert_eq!(m.current_index, Some(3));
}

#[test]
fn insert_at_front_shifts_current() {
    let mut m = manager(3);
    m.set_current_index(2).unwrap();
    m.insert_at(0, track(9)).unwrap();
    assert_eq!(m.current_index, Some(3));
    assert_eq!(ids(&m), vec![9, 1, 2, 3]);
    assert_eq!(m.get_current_track().unwrap().id, Some(3));
}

#[test]
fn insert_after_current_keeps_index() {
    let mut m = manager(3);
    m.set_current_index(0).unwrap();
    m.insert_at(2, track(9)).unwrap();
    assert_eq!(m.current_index, Some(0));
    assert_eq!(ids(&m), vec![1, 2, 9, 3]);
}

#[test]
fn insert_into_empty_selects_it() {
    let mut m = manager(0);
    m.insert_at(0, track(7)).unwrap();
    assert_eq!(m.current_index, Some(0));
}

#[test]
fn insert_past_end_is_refused() {
    let mut m = manager(2);
    assert_eq!(m.insert_at(3, track(9)), Err(PlaylistError::InsertOutOfBounds { position: 3, len: 2 }));
    assert_eq!(ids(&m), vec![1, 2]);
}

#[test]
fn move_current_track_is_followed() {
    let mut m = manager(5);
    m.set_current_index(1).unwrap();
    m.insert_at_by_index(1, 4).unwrap();
    assert_eq!(ids(&m), vec![1, 3, 4, 2, 5]);
    assert_eq!(m.current_index, Some(3));
}

#[test]
fn move_from_before_current_shifts_back() {
    let mut m = manager(5);
    m.set_current_index(3).unwrap();
    m.insert_at_by_index(0, 5).unwrap();
    assert_eq!(ids(&m), vec![2, 3, 4, 5, 1]);
    assert_eq!(m.current_index, Some(2));
    assert_eq!(m.get_current_track().unwrap().id, Some(4));
}

#[test]
fn move_from_after_to_before_current_shifts_forward() {
    let mut m = manager(5);
    m.set_current_index(1).unwrap();
    m.insert_at_by_index(4, 0).unwrap();
    assert_eq!(ids(&m), vec![5, 1, 2, 3, 4]);
    assert_eq!(m.current_index, Some(2));
    assert_eq!(m.get_current_track().unwrap().id, Some(2));
}

#[test]
fn move_errors_and_no_op() {
    let mut m = manager(3);
    assert_eq!(m.insert_at_by_index(3, 0), Err(PlaylistError::SourceOutOfBounds { index: 3, len: 3 }));
    assert_eq!(m.insert_at_by_index(0, 4), Err(PlaylistError::TargetOutOfBounds { position: 4, len: 3 }));
    assert_eq!(m.insert_at_by_index(1, 1), Ok(()));
    assert_eq!(ids(&m), vec![1, 2, 3]);
}

#[test]
fn insert_after_current_becomes_current() {
    let mut m = manager(3);
    m.set_current_index(1).unwrap();
    m.insert_track_to_current_next(track(9)).unwrap();
    assert_eq!(ids(&m), vec![1, 2, 9, 3]);
    assert_eq!(m.current_index, Some(2));
    let mut empty = manager(0);
    empty.insert_track_to_current_next(track(4)).unwrap();
    assert_eq!(empty.current_index, Some(0));
    let mut none = manager(2);
    none.insert_track_to_current_next(track(5)).unwrap();
    assert_eq!(ids(&none), vec![1, 5, 2]);
    assert_eq!(none.current_index, Some(1));
}

#[test]
fn move_after_current_by_index() {
    let mut m = manager(4);
    assert_eq!(m.insert_track_to_current_next_by_index(0), Err(PlaylistError::NoCurrentTrack));
    m.set_current_index(0).unwrap();
    assert_eq!(m.insert_track_to_current_next_by_index(0), Err(PlaylistError::MoveOntoItself));
    assert_eq!(
        m.insert_track_to_current_next_by_index(4),
        Err(PlaylistError::IndexOutOfBounds { index: 4, len: 4 })
    );
    m.insert_track_to_current_next_by_index(3).unwrap();
    assert_eq!(ids(&m), vec![1, 4, 2, 3]);
    assert_eq!(m.current_index, Some(0));
}

#[test]
fn append_and_move_to_end() {
    let mut m = manager(0);
    m.insert_track_to_end(track(1)).unwrap();
    m.insert_track_to_end(track(2)).unwrap();
    m.insert_track_to_end(track(3)).unwrap();
    assert_eq!(ids(&m), vec![1, 2, 3]);
    assert_eq!(m.current_index, Some(0));
    m.insert_track_to_end_by_index(0).unwrap();
    assert_eq!(ids(&m), vec![2, 3, 1]);
    assert_eq!(m.current_index, Some(2));
    m.insert_track_to_end_by_index(2).unwrap();
    assert_eq!(ids(&m), vec![2, 3, 1]);
    assert_eq!(m.insert_track_to_end_by_index(3), Err(PlaylistError::IndexOutOfBounds { index: 3, len: 3 }));
}

#[test]
fn overwrite_relocates_current_track() {
    let mut m = manager(3);
    m.set_current_index(1).unwrap();
    let mut p = Playlist::new();
    p.name = "next".to_string();
    p.tracks = vec![track(5), track(2), track(6)];
    m.overwrite_playlist(&p);
    assert_eq!(m.current_index, Some(1));
    assert_eq!(ids(&m), vec![5, 2, 6]);
    assert_eq!(m.playlist.name, "next");
    let mut q = Playlist::new();
    q.tracks = vec![track(7)];
    m.overwrite_playlist(&q);
    assert_eq!(m.current_index, None);
}

#[test]
fn clear_empties_everything() {
    let mut m = manager(3);
    m.set_current_index(2).unwrap();
    m.clear();
    assert!(m.playlist.tracks.is_empty());
    assert!(m.canonical_tracks.is_empty());
    assert_eq!(m.current_index, None);
}

#[test]
fn set_current_index_bounds() {
    let mut m = manager(2);
    assert_eq!(m.set_current_index(2), Err(PlaylistError::IndexOutOfBounds { index: 2, len: 2 }));
    assert_eq!(m.current_index, None);
    assert_eq!(m.set_current_index(1), Ok(()));
}

#[test]
fn neighbours_of_current() {
    let mut m = manager(3);
    assert!(m.get_next_track().is_none());
    m.set_current_index(0).unwrap();
    assert_eq!(m.get_next_track().unwrap().id, Some(2));
    assert!(m.get_previous_track().is_none());
    m.set_current_index(2).unwrap();
    assert!(m.get_next_track().is_none());
    assert_eq!(m.get_previous_track().unwrap().id, Some(2));
}

#[test]
fn play_selects_first_track() {
    let mut m = manager(2);
    assert_eq!(m.play(), Some("/music/1.flac".to_string()));
    assert_eq!(m.current_index, Some(0));
    m.set_current_index(1).unwrap();
    assert_eq!(m.play(), Some("/music/2.flac".to_string()));
    assert_eq!(manager(0).play(), None);
}

#[test]
fn empty_playlist_manager() {
    let m = PlaylistManager::empty_playlist();
    assert!(m.get_playlist().tracks.is_empty());
    assert_eq!(m.play_mode, PlayMode::Repeat);
    assert!(m.get_current_track().is_none());
}

#[test]
fn track_clone_keeps_content() {
    let mut t = track(3);
    t.artist = Some(vec!["A".to_string(), "B".to_string()]);
    t.title = Some("T".to_string());
    let c = t.clone();
    assert_eq!(c.artist, t.artist);
    assert_eq!(c.title, t.title);
    assert_eq!(c.file_path, t.file_path);
}

#[test]
fn random_switch_with_one_track_selects_it() {
    let mut m = manager(1);
    assert_eq!(m.current_index, None);
    m.set_play_mode(PlayMode::Random);
    assert_eq!(m.current_index, Some(0));
    assert_eq!(ids(&m), vec![1]);
}

#[test]
fn shuffle_restore_follows_canonical_order() {
    let mut m = manager(4);
    m.set_current_index(2).unwrap();
    m.set_play_mode(PlayMode::Random);
    m.set_play_mode(PlayMode::Single);
    m.set_play_mode(PlayMode::Repeat);
    let id = m.get_current_track().unwrap().id;
    m.set_play_mode(PlayMode::Random);
    m.set_play_mode(PlayMode::Repeat);
    assert_eq!(ids(&m), vec![1, 2, 3, 4]);
    assert_eq!(m.get_current_track().unwrap().id, id);
}
