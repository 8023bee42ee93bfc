//! The façade over the playlist side: each operation changes the playlist
//! manager and then mirrors it into the playback record in one step, so that
//! a reader never sees a playlist and an index from two different moments.
//! Loading audio is left to the caller, which is handed the file to load.
use vstd::prelude::*;
use crate::track::{Track, views};
use crate::playlist::{
    Playlist, PlaylistManager, PlaylistError, PlayMode as ListMode, index_after_insert,
    index_after_remove, mode_switched, advanced, stepped_back, moved_by_index, relocate,
};
use crate::track::opt_track_view;
use crate::state::PlayerState;

verus! {

/// How a batch of tracks is handed to the player.
#[derive(Clone, Copy, Debug, PartialEq, Eq, Structural)]
pub enum PlayMode {
    /// Insert the first track right after the current one and play it.
    Single,
    /// Replace the playlist with the batch and advance to its first track.
    Queue,
}

/// The playlist side of the player.
pub struct PlayerController {
    pub playlist_manager: PlaylistManager,
}

impl PlayerController {
    /// A controller over an empty playlist.
    pub fn new() -> (r: PlayerController)
        ensures
            r.playlist_manager.wf(),
            r.playlist_manager.len() == 0,
            r.playlist_manager.current_index is None,
            r.playlist_manager.play_mode == ListMode::Repeat,
    {
        let playlist = Playlist::new();
        PlayerController { playlist_manager: PlaylistManager::new(playlist) }
    }

    /// Hands `tracks` to the player under `mode` and mirrors the result into
    /// `state`. `Single` inserts the first track right after the current one,
    /// makes it current and returns its file, to be loaded and played.
    /// `Queue` replaces the playlist with `tracks` and advances to the
    /// first track, returning nothing to load.
    pub fn play_to_playlist(&mut self, state: &mut PlayerState, tracks: Vec<Track>, mode: PlayMode) -> (r:
        Option<String>)
        requires
            old(self).playlist_manager.wf(),
            mode == PlayMode::Single ==> tracks@.len() > 0,
        ensures
            final(self).playlist_manager.wf(),
            final(state)@ == old(state)@.mirrored(final(self).playlist_manager),
            final(self).playlist_manager.play_mode == old(self).playlist_manager.play_mode,
            mode == PlayMode::Single ==> {
                let m0 = old(self).playlist_manager;
                let pos = if m0.len() == 0 {
                    0
                } else {
                    match m0.current_index {
                        Some(c) => c + 1,
                        None => 1,
                    }
                };
                &&& final(self).playlist_manager.tracks_view() == m0.tracks_view().insert(pos, tracks@[0]@)
                &&& final(self).playlist_manager.current_index == Some(pos as usize)
                &&& r is Some && r.unwrap()@ == tracks@[0]@.file_path
            },
            mode == PlayMode::Queue ==> {
                &&& final(self).playlist_manager.tracks_view() == views(tracks@)
                &&& final(self).playlist_manager.order_view() == views(tracks@)
                &&& final(self).playlist_manager.current_index == (if tracks@.len() > 0 {
                    Some(0usize)
                } else {
                    None::<usize>
                })
                &&& r is None
            },
    {
        match mode {
            PlayMode::Single => {
                let first = tracks[0].duplicate();
                let ghost first_view = first@;
                let ghost before = self.playlist_manager.tracks_view();
                assert(self.playlist_manager.playlist.tracks@.len() == self.playlist_manager.playlist.tracks.len());
                let _ = self.playlist_manager.insert_track_to_current_next(first);
                assert(self.playlist_manager.tracks_view() == before.insert(self.playlist_manager.current_index.unwrap() as int, first_view));
                let ghost pos = self.playlist_manager.current_index.unwrap() as int;
                assert(self.playlist_manager.tracks_view()[pos] == self.playlist_manager.playlist.tracks@[pos]@);
                assert(self.playlist_manager.tracks_view()[pos] == first_view);
                assert(self.playlist_manager.current_view() == Some(first_view));
                let path = self.playlist_manager.play();
                state.mirror(&self.playlist_manager);
                path
            },
            PlayMode::Queue => {
                let ghost batch = views(tracks@);
                let mut playlist = Playlist::new();
                playlist.tracks = tracks;
                self.playlist_manager.overwrite_playlist(&playlist);
                assert(self.playlist_manager.tracks_view() == batch);
                assert(self.playlist_manager.tracks_view().len() == self.playlist_manager.playlist.tracks@.len());
                if self.playlist_manager.playlist.tracks.len() > 0 {
                    self.playlist_manager.current_index = Some(0);
                } else {
                    self.playlist_manager.current_index = None;
                }
                state.mirror(&self.playlist_manager);
                None
            },
        }
    }

    /// Replaces the playlist (see `PlaylistManager::overwrite_playlist`) and
    /// mirrors it.
    pub fn overwrite_playlist(&mut self, state: &mut PlayerState, playlist: &Playlist)
        requires
            old(self).playlist_manager.wf(),
        ensures
            final(self).playlist_manager.wf(),
            final(state)@ == old(state)@.mirrored(final(self).playlist_manager),
            final(self).playlist_manager.tracks_view() == views(playlist.tracks@),
            final(self).playlist_manager.order_view() == views(playlist.tracks@),
            final(self).playlist_manager.play_mode == old(self).playlist_manager.play_mode,
            final(self).playlist_manager.current_index == relocate(
                views(playlist.tracks@),
                old(self).playlist_manager.current_view(),
            ),
    {
        self.playlist_manager.overwrite_playlist(playlist);
        state.mirror(&self.playlist_manager);
    }

    /// Switches the play mode (see `PlaylistManager::set_play_mode`) and
    /// mirrors the result.
    pub fn set_play_mode(&mut self, state: &mut PlayerState, new_mode: ListMode)
        requires
            old(self).playlist_manager.wf(),
        ensures
            final(self).playlist_manager.wf(),
            final(state)@ == old(state)@.mirrored(final(self).playlist_manager),
            mode_switched(old(self).playlist_manager, final(self).playlist_manager, new_mode),
    {
        self.playlist_manager.set_play_mode(new_mode);
        state.mirror(&self.playlist_manager);
    }

    /// Inserts `track` at `position`; on success the result is mirrored, on
    /// failure nothing changes.
    pub fn insert_track_at(&mut self, state: &mut PlayerState, position: usize, track: Track) -> (r:
        Result<(), PlaylistError>)
        requires
            old(self).playlist_manager.wf(),
        ensures
            final(self).playlist_manager.wf(),
            ({
                let m0 = old(self).playlist_manager;
                let m1 = final(self).playlist_manager;
                &&& position > m0.len() ==> {
                    &&& r == Err::<(), PlaylistError>(
                        PlaylistError::InsertOutOfBounds { position, len: m0.len() as usize },
                    )
                    &&& m1 == m0
                    &&& final(state)@ == old(state)@
                }
                &&& position <= m0.len() ==> {
                    &&& r is Ok
                    &&& m1.tracks_view() == m0.tracks_view().insert(position as int, track@)
                    &&& m1.current_index == index_after_insert(m0.current_index, position, m0.len())
                    &&& final(state)@ == old(state)@.mirrored(m1)
                }
            }),
    {
        let result = self.playlist_manager.insert_at(position, track);
        if result.is_ok() {
            state.mirror(&self.playlist_manager);
        }
        result
    }

    /// Removes the track at `position`; on success the result is mirrored,
    /// on failure nothing changes.
    pub fn remove_track_at(&mut self, state: &mut PlayerState, position: usize) -> (r: Result<
        (),
        PlaylistError,
    >)
        requires
            old(self).playlist_manager.wf(),
        ensures
            final(self).playlist_manager.wf(),
            ({
                let m0 = old(self).playlist_manager;
                let m1 = final(self).playlist_manager;
                &&& position >= m0.len() ==> {
                    &&& r == Err::<(), PlaylistError>(
                        PlaylistError::IndexOutOfBounds { index: position, len: m0.len() as usize },
                    )
                    &&& m1 == m0
                    &&& final(state)@ == old(state)@
                }
                &&& position < m0.len() ==> {
                    &&& r is Ok
                    &&& m1.tracks_view() == m0.tracks_view().remove(position as int)
                    &&& m1.current_index == index_after_remove(m0.current_index, position, m0.len())
                    &&& final(state)@ == old(state)@.mirrored(m1)
                }
            }),
    {
        let result = self.playlist_manager.remove_at(position);
        if result.is_ok() {
            state.mirror(&self.playlist_manager);
        }
        result
    }

    /// Empties the playlist and mirrors it.
    pub fn clear_playlist(&mut self, state: &mut PlayerState)
        requires
            old(self).playlist_manager.wf(),
        ensures
            final(self).playlist_manager.wf(),
            final(self).playlist_manager.len() == 0,
            final(self).playlist_manager.current_index is None,
            final(state)@ == old(state)@.mirrored(final(self).playlist_manager),
    {
        self.playlist_manager.clear();
        state.mirror(&self.playlist_manager);
    }
    /// Advances under the play mode (see `PlaylistManager::next_track`) and
    /// mirrors the result.
    pub fn next_track(&mut self, state: &mut PlayerState) -> (r: Option<Track>)
        requires
            old(self).playlist_manager.wf(),
        ensures
            final(self).playlist_manager.wf(),
            advanced(old(self).playlist_manager, final(self).playlist_manager),
            opt_track_view(r) == final(self).playlist_manager.current_view(),
            final(state)@ == old(state)@.mirrored(final(self).playlist_manager),
    {
        let r = self.playlist_manager.next_track();
        state.mirror(&self.playlist_manager);
        r
    }

    /// Moves back under the play mode (see `PlaylistManager::previous_track`)
    /// and mirrors the result.
    pub fn previous_track(&mut self, state: &mut PlayerState) -> (r: Option<Track>)
        requires
            old(self).playlist_manager.wf(),
        ensures
            final(self).playlist_manager.wf(),
            stepped_back(old(self).playlist_manager, final(self).playlist_manager, opt_track_view(r)),
            final(state)@ == old(state)@.mirrored(final(self).playlist_manager),
    {
        let r = self.playlist_manager.previous_track();
        state.mirror(&self.playlist_manager);
        r
    }

    /// Makes `index` current, mirrors it, and returns the file to load; an
    /// index outside the playlist changes nothing.
    pub fn set_and_play_index(&mut self, state: &mut PlayerState, index: usize) -> (r: Result<
        String,
        PlaylistError,
    >)
        requires
            old(self).playlist_manager.wf(),
        ensures
            final(self).playlist_manager.wf(),
            index >= old(self).playlist_manager.len() ==> {
                &&& r == Err::<String, PlaylistError>(
                    PlaylistError::IndexOutOfBounds {
                        index,
                        len: old(self).playlist_manager.len() as usize,
                    },
                )
                &&& final(self).playlist_manager == old(self).playlist_manager
                &&& final(state)@ == old(state)@
            },
            index < old(self).playlist_manager.len() ==> {
                &&& final(self).playlist_manager == (PlaylistManager {
                    current_index: Some(index),
                    ..old(self).playlist_manager
                })
                &&& r is Ok
                &&& r.unwrap()@ == old(self).playlist_manager.tracks_view()[index as int].file_path
                &&& final(state)@ == old(state)@.mirrored(final(self).playlist_manager)
            },
    {
        let len = self.playlist_manager.playlist.tracks.len();
        if index >= len {
            return Err(PlaylistError::IndexOutOfBounds { index, len });
        }
        self.playlist_manager.current_index = Some(index);
        let path = self.playlist_manager.playlist.tracks[index].file_path.clone();
        state.mirror(&self.playlist_manager);
        Ok(path)
    }

    /// Inserts `track` right after the current one and makes it current
    /// (see `PlaylistManager::insert_track_to_current_next`); mirrors it.
    pub fn insert_track_after_current(&mut self, state: &mut PlayerState, track: Track) -> (r: Result<
        (),
        PlaylistError,
    >)
        requires
            old(self).playlist_manager.wf(),
        ensures
            final(self).playlist_manager.wf(),
            r is Ok,
            ({
                let m0 = old(self).playlist_manager;
                let m1 = final(self).playlist_manager;
                let pos = if m0.len() == 0 {
                    0
                } else {
                    match m0.current_index {
                        Some(c) => c + 1,
                        None => 1,
                    }
                };
                &&& m1.tracks_view() == m0.tracks_view().insert(pos, track@)
                &&& m1.order_view() == m0.order_view().insert(pos, track@)
                &&& m1.current_index == Some(pos as usize)
                &&& m1.play_mode == m0.play_mode
            }),
            final(state)@ == old(state)@.mirrored(final(self).playlist_manager),
    {
        let r = self.playlist_manager.insert_track_to_current_next(track);
        state.mirror(&self.playlist_manager);
        r
    }

    /// Appends `track` (see `PlaylistManager::insert_track_to_end`) and
    /// mirrors it.
    pub fn add_track_to_end(&mut self, state: &mut PlayerState, track: Track) -> (r: Result<
        (),
        PlaylistError,
    >)
        requires
            old(self).playlist_manager.wf(),
        ensures
            final(self).playlist_manager.wf(),
            r is Ok,
            ({
                let m0 = old(self).playlist_manager;
                let m1 = final(self).playlist_manager;
                &&& m1.tracks_view() == m0.tracks_view().push(track@)
                &&& m1.order_view() == m0.order_view().push(track@)
                &&& m1.current_index == index_after_insert(m0.current_index, m0.len() as usize, m0.len())
                &&& m1.play_mode == m0.play_mode
            }),
            final(state)@ == old(state)@.mirrored(final(self).playlist_manager),
    {
        let r = self.playlist_manager.insert_track_to_end(track);
        state.mirror(&self.playlist_manager);
        r
    }

    /// Moves a track (see `PlaylistManager::insert_at_by_index`); on success
    /// the result is mirrored, on failure nothing changes.
    pub fn move_track(&mut self, state: &mut PlayerState, from_index: usize, to_position: usize) -> (r:
        Result<(), PlaylistError>)
        requires
            old(self).playlist_manager.wf(),
        ensures
            final(self).playlist_manager.wf(),
            moved_by_index(
                old(self).playlist_manager,
                final(self).playlist_manager,
                from_index,
                to_position,
                r,
            ),
            r is Ok ==> final(state)@ == old(state)@.mirrored(final(self).playlist_manager),
            r is Err ==> final(state)@ == old(state)@,
    {
        let r = self.playlist_manager.insert_at_by_index(from_index, to_position);
        if r.is_ok() {
            state.mirror(&self.playlist_manager);
        }
        r
    }
}

} // verus!
