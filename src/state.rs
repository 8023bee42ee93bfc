//! The shared record of playback status that the engine writes and pollers
//! read. Durations and positions are whole milliseconds; the volume is in
//! thousandths, from `0` (silent) to `VOLUME_MAX` (full).
use vstd::prelude::*;
use crate::track::{Track, TrackView, opt_track_view};
use crate::playlist::{Playlist, PlaylistView, PlayMode, PlaylistManager};
use crate::track::opt_str_view;

verus! {

/// Full volume, in thousandths.
pub const VOLUME_MAX: u32 = 1000;

/// Whether the output is running.
#[derive(Clone, Copy, Debug, PartialEq, Eq, Structural)]
pub enum PlaybackState {
    Stopped,
    Playing,
    Paused,
}

/// `v` (in thousandths) clamped to the volume range.
pub open spec fn clamp_volume(v: int) -> u32 {
    if v < 0 {
        0
    } else if v > VOLUME_MAX {
        VOLUME_MAX
    } else {
        v as u32
    }
}

/// The content of a playback record.
pub struct PlayerStateView {
    pub playback_state: PlaybackState,
    pub volume: u32,
    pub position: u64,
    pub total_duration: Option<u64>,
    pub current_file: Option<Seq<char>>,
    pub current_track: Option<TrackView>,
    pub playlist: PlaylistView,
    pub play_mode: PlayMode,
    pub current_index: Option<usize>,
}

impl PlayerStateView {
    /// After a file was opened and started at `start`.
    pub open spec fn loaded(self, file: Seq<char>, total: Option<u64>, start: u64) -> PlayerStateView {
        PlayerStateView {
            current_file: Some(file),
            total_duration: total,
            position: start,
            playback_state: PlaybackState::Playing,
            ..self
        }
    }

    /// After the output was rebuilt at `position`.
    pub open spec fn seeked(self, total: Option<u64>, position: u64) -> PlayerStateView {
        PlayerStateView { total_duration: total, position, ..self }
    }

    /// After the output was stopped.
    pub open spec fn stopped(self) -> PlayerStateView {
        PlayerStateView {
            playback_state: PlaybackState::Stopped,
            position: 0,
            current_file: None,
            ..self
        }
    }

    /// After a tick of the progress clock that measured `elapsed`: the
    /// position, clamped to a known total duration; reaching that total
    /// while playing stops playback.
    pub open spec fn ticked(self, elapsed: u64) -> PlayerStateView {
        match self.total_duration {
            Some(total) => {
                let pos = if elapsed < total { elapsed } else { total };
                PlayerStateView {
                    position: pos,
                    playback_state: if pos >= total && self.playback_state == PlaybackState::Playing {
                        PlaybackState::Stopped
                    } else {
                        self.playback_state
                    },
                    ..self
                }
            },
            None => PlayerStateView { position: elapsed, ..self },
        }
    }

    /// After the playlist side was mirrored from `m`.
    pub open spec fn mirrored(self, m: PlaylistManager) -> PlayerStateView {
        PlayerStateView {
            playlist: m.playlist@,
            current_track: m.current_view(),
            play_mode: m.play_mode,
            current_index: m.current_index,
            ..self
        }
    }
}

/// The playback record: status, volume, position, the loaded file and a
/// mirror of the playlist side.
#[derive(Debug)]
pub struct PlayerState {
    playback_state: PlaybackState,
    volume: u32,
    current_position: u64,
    total_duration: Option<u64>,
    current_file: Option<String>,
    current_track: Option<Track>,
    current_playlist: Playlist,
    current_play_mode: PlayMode,
    current_index: Option<usize>,
}

impl View for PlayerState {
    type V = PlayerStateView;

    closed spec fn view(&self) -> PlayerStateView {
        PlayerStateView {
            playback_state: self.playback_state,
            volume: self.volume,
            position: self.current_position,
            total_duration: self.total_duration,
            current_file: opt_str_view(self.current_file),
            current_track: opt_track_view(self.current_track),
            playlist: self.current_playlist@,
            play_mode: self.current_play_mode,
            current_index: self.current_index,
        }
    }
}

impl PlayerState {
    /// Stopped at full volume, at position zero, with no file, an empty
    /// playlist, mode `Single` and no current index.
    pub fn new() -> (r: PlayerState)
        ensures
            r@.playback_state == PlaybackState::Stopped,
            r@.volume == VOLUME_MAX,
            r@.position == 0,
            r@.total_duration is None,
            r@.current_file is None,
            r@.current_track is None,
            r@.playlist.tracks.len() == 0,
            r@.play_mode == PlayMode::Single,
            r@.current_index is None,
    {
        PlayerState {
            playback_state: PlaybackState::Stopped,
            volume: VOLUME_MAX,
            current_position: 0,
            total_duration: None,
            current_file: None,
            current_track: None,
            current_playlist: Playlist::new(),
            current_play_mode: PlayMode::Single,
            current_index: None,
        }
    }

    pub fn playback_state(&self) -> (r: PlaybackState)
        ensures
            r == self@.playback_state,
    {
        self.playback_state
    }

    pub fn set_playback_state(&mut self, state: PlaybackState)
        ensures
            final(self)@ == (PlayerStateView { playback_state: state, ..old(self)@ }),
    {
        self.playback_state = state;
    }

    /// The volume in thousandths.
    pub fn volume(&self) -> (r: u32)
        ensures
            r == self@.volume,
    {
        self.volume
    }

    /// Stores `volume` (in thousandths) clamped to `0..=VOLUME_MAX`.
    pub fn set_volume(&mut self, volume: i64)
        ensures
            final(self)@ == (PlayerStateView { volume: clamp_volume(volume as int), ..old(self)@ }),
    {
        self.volume = if volume < 0 {
            0
        } else if volume > VOLUME_MAX as i64 {
            VOLUME_MAX
        } else {
            volume as u32
        };
    }

    /// The position in milliseconds.
    pub fn current_position(&self) -> (r: u64)
        ensures
            r == self@.position,
    {
        self.current_position
    }

    pub fn set_current_position(&mut self, position: u64)
        ensures
            final(self)@ == (PlayerStateView { position, ..old(self)@ }),
    {
        self.current_position = position;
    }

    /// The total duration in milliseconds, when the file reports one.
    pub fn total_duration(&self) -> (r: Option<u64>)
        ensures
            r == self@.total_duration,
    {
        self.total_duration
    }

    pub fn set_total_duration(&mut self, duration: Option<u64>)
        ensures
            final(self)@ == (PlayerStateView { total_duration: duration, ..old(self)@ }),
    {
        self.total_duration = duration;
    }

    pub fn current_file(&self) -> (r: Option<&String>)
        ensures
            match r {
                Some(f) => self@.current_file == Some(f@),
                None => self@.current_file is None,
            },
    {
        self.current_file.as_ref()
    }

    pub fn set_current_file(&mut self, file_path: Option<String>)
        ensures
            final(self)@ == (PlayerStateView { current_file: opt_str_view(file_path), ..old(self)@ }),
    {
        self.current_file = file_path;
    }

    pub fn current_track(&self) -> (r: Option<Track>)
        ensures
            opt_track_view(r) == self@.current_track,
    {
        match &self.current_track {
            Some(t) => Some(t.duplicate()),
            None => None,
        }
    }

    pub fn set_current_track(&mut self, track: Option<Track>)
        ensures
            final(self)@ == (PlayerStateView { current_track: opt_track_view(track), ..old(self)@ }),
    {
        self.current_track = track;
    }

    pub fn current_playlist(&self) -> (r: Playlist)
        ensures
            r@ == self@.playlist,
    {
        self.current_playlist.duplicate()
    }

    pub fn set_current_playlist(&mut self, playlist: Playlist)
        ensures
            final(self)@ == (PlayerStateView { playlist: playlist@, ..old(self)@ }),
    {
        self.current_playlist = playlist;
    }

    pub fn current_play_mode(&self) -> (r: PlayMode)
        ensures
            r == self@.play_mode,
    {
        self.current_play_mode
    }

    pub fn set_current_play_mode(&mut self, play_mode: PlayMode)
        ensures
            final(self)@ == (PlayerStateView { play_mode, ..old(self)@ }),
    {
        self.current_play_mode = play_mode;
    }

    pub fn current_index(&self) -> (r: Option<usize>)
        ensures
            r == self@.current_index,
    {
        self.current_index
    }

    pub fn set_current_index(&mut self, index: Option<usize>)
        ensures
            final(self)@ == (PlayerStateView { current_index: index, ..old(self)@ }),
    {
        self.current_index = index;
    }

    pub fn is_playing(&self) -> (r: bool)
        ensures
            r == (self@.playback_state == PlaybackState::Playing),
    {
        self.playback_state == PlaybackState::Playing
    }

    pub fn is_paused(&self) -> (r: bool)
        ensures
            r == (self@.playback_state == PlaybackState::Paused),
    {
        self.playback_state == PlaybackState::Paused
    }

    pub fn is_stopped(&self) -> (r: bool)
        ensures
            r == (self@.playback_state == PlaybackState::Stopped),
    {
        self.playback_state == PlaybackState::Stopped
    }
    /// Records that `file` was opened and started at `start`: playing there,
    /// with the file's total duration.
    pub fn record_load(&mut self, file: String, total: Option<u64>, start: u64)
        ensures
            final(self)@ == old(self)@.loaded(file@, total, start),
    {
        self.current_file = Some(file);
        self.total_duration = total;
        self.current_position = start;
        self.playback_state = PlaybackState::Playing;
    }

    /// The file to rebuild the output from when seeking; seeking needs a
    /// loaded file.
    pub fn seek_target(&self) -> (r: Result<String, EngineError>)
        ensures
            match self@.current_file {
                Some(f) => r is Ok && r.unwrap()@ == f,
                None => r == Err::<String, EngineError>(EngineError::NoFileLoaded),
            },
    {
        match &self.current_file {
            Some(f) => Ok(f.clone()),
            None => Err(EngineError::NoFileLoaded),
        }
    }

    /// Records that the output was rebuilt at `position`.
    pub fn record_seek(&mut self, total: Option<u64>, position: u64)
        ensures
            final(self)@ == old(self)@.seeked(total, position),
    {
        self.total_duration = total;
        self.current_position = position;
    }

    /// Records that the output was stopped: position zero, no file.
    pub fn record_stop(&mut self)
        ensures
            final(self)@ == old(self)@.stopped(),
    {
        self.playback_state = PlaybackState::Stopped;
        self.current_position = 0;
        self.current_file = None;
    }

    /// Writes the position that the progress clock measured. Returns whether
    /// the clock should end: a known total duration was reached while
    /// playing, and playback is now `Stopped`.
    pub fn apply_tick(&mut self, elapsed: u64) -> (r: bool)
        ensures
            final(self)@ == old(self)@.ticked(elapsed),
            r == (match old(self)@.total_duration {
                Some(total) => elapsed >= total && old(self)@.playback_state == PlaybackState::Playing,
                None => false,
            }),
    {
        match self.total_duration {
            Some(total) => {
                let pos = if elapsed < total { elapsed } else { total };
                self.current_position = pos;
                if pos >= total && self.playback_state == PlaybackState::Playing {
                    self.playback_state = PlaybackState::Stopped;
                    true
                } else {
                    false
                }
            },
            None => {
                self.current_position = elapsed;
                false
            },
        }
    }

    /// Mirrors the playlist, the current track, the mode and the current
    /// index of `manager`, all taken at one moment.
    pub fn mirror(&mut self, manager: &PlaylistManager)
        ensures
            final(self)@ == old(self)@.mirrored(*manager),
    {
        self.current_playlist = manager.playlist.duplicate();
        self.current_track = match manager.get_current_track() {
            Some(t) => Some(t.duplicate()),
            None => None,
        };
        self.current_play_mode = manager.play_mode;
        self.current_index = manager.current_index;
    }
}

/// Why an engine operation was refused.
#[derive(Clone, Copy, Debug, PartialEq, Eq, Structural)]
pub enum EngineError {
    /// Seeking needs a loaded file.
    NoFileLoaded,
}

/// A point-in-time copy of the playback record.
#[derive(Clone, Debug)]
pub struct StateSnapshot {
    pub playback_state: PlaybackState,
    pub volume: u32,
    pub current_position: u64,
    pub total_duration: Option<u64>,
    pub current_file: Option<String>,
    pub current_track: Option<Track>,
    pub current_playlist: Playlist,
    pub current_play_mode: PlayMode,
    pub current_index: Option<usize>,
}

impl View for StateSnapshot {
    type V = PlayerStateView;

    open spec fn view(&self) -> PlayerStateView {
        PlayerStateView {
            playback_state: self.playback_state,
            volume: self.volume,
            position: self.current_position,
            total_duration: self.total_duration,
            current_file: opt_str_view(self.current_file),
            current_track: opt_track_view(self.current_track),
            playlist: self.current_playlist@,
            play_mode: self.current_play_mode,
            current_index: self.current_index,
        }
    }
}

impl StateSnapshot {
    /// A copy of everything `state` holds.
    pub fn from(state: &PlayerState) -> (r: StateSnapshot)
        ensures
            r@ == state@,
    {
        StateSnapshot {
            playback_state: state.playback_state(),
            volume: state.volume(),
            current_position: state.current_position(),
            total_duration: state.total_duration(),
            current_file: match state.current_file() {
                Some(f) => Some(f.clone()),
                None => None,
            },
            current_track: state.current_track(),
            current_playlist: state.current_playlist(),
            current_play_mode: state.current_play_mode(),
            current_index: state.current_index(),
        }
    }
}

/// Reading the record right after a file was loaded shows it playing, at the
/// start offset, with the file's total duration.
pub proof fn lemma_load_then_read(v: PlayerStateView, file: Seq<char>, total: Option<u64>, start: u64)
    ensures
        v.loaded(file, total, start).playback_state == PlaybackState::Playing,
        v.loaded(file, total, start).position == start,
        v.loaded(file, total, start).total_duration == total,
        v.loaded(file, total, start).current_file == Some(file),
{
}

/// Reading the record right after a seek shows the seek target.
pub proof fn lemma_seek_then_read(v: PlayerStateView, total: Option<u64>, position: u64)
    ensures
        v.seeked(total, position).position == position,
        v.seeked(total, position).playback_state == v.playback_state,
        v.seeked(total, position).current_file == v.current_file,
{
}

/// The stored volume never leaves the volume range, whatever was asked.
pub proof fn lemma_volume_clamped(v: int)
    ensures
        0 <= clamp_volume(v) <= VOLUME_MAX,
        v <= 0 ==> clamp_volume(v) == 0,
        v >= VOLUME_MAX ==> clamp_volume(v) == VOLUME_MAX,
        0 <= v <= VOLUME_MAX ==> clamp_volume(v) == v,
{
}


/// A duration in whole milliseconds, as the command layer exchanges it.
#[derive(Clone, Copy, Debug, PartialEq, Eq, Structural)]
pub struct DurationMs(pub u64);

/// A `std::time::Duration`, wrapped for exchange.
#[derive(Clone, Copy, Debug)]
pub struct DurationWrapper(pub std::time::Duration);

impl From<std::time::Duration> for DurationWrapper {
    fn from(dur: std::time::Duration) -> (r: DurationWrapper) {
        DurationWrapper(dur)
    }
}

impl vstd::std_specs::convert::FromSpecImpl<std::time::Duration> for DurationWrapper {
    open spec fn obeys_from_spec() -> bool {
        true
    }

    open spec fn from_spec(dur: std::time::Duration) -> DurationWrapper {
        DurationWrapper(dur)
    }
}

impl From<DurationWrapper> for std::time::Duration {
    fn from(wrapper: DurationWrapper) -> (r: std::time::Duration) {
        wrapper.0
    }
}

impl vstd::std_specs::convert::FromSpecImpl<DurationWrapper> for std::time::Duration {
    open spec fn obeys_from_spec() -> bool {
        true
    }

    open spec fn from_spec(wrapper: DurationWrapper) -> std::time::Duration {
        wrapper.0
    }
}

/// The playback status as the command layer names it.
#[derive(Clone, Copy, Debug, PartialEq, Eq, Structural)]
pub enum PlaybackStateStr {
    Stopped,
    Playing,
    Paused,
}

impl From<PlaybackState> for PlaybackStateStr {
    fn from(state: PlaybackState) -> (r: PlaybackStateStr) {
        match state {
            PlaybackState::Stopped => PlaybackStateStr::Stopped,
            PlaybackState::Playing => PlaybackStateStr::Playing,
            PlaybackState::Paused => PlaybackStateStr::Paused,
        }
    }
}

impl vstd::std_specs::convert::FromSpecImpl<PlaybackState> for PlaybackStateStr {
    open spec fn obeys_from_spec() -> bool {
        true
    }

    open spec fn from_spec(state: PlaybackState) -> PlaybackStateStr {
        match state {
            PlaybackState::Stopped => PlaybackStateStr::Stopped,
            PlaybackState::Playing => PlaybackStateStr::Playing,
            PlaybackState::Paused => PlaybackStateStr::Paused,
        }
    }
}

} // verus!
