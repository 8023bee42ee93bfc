//! Playlists and the manager that navigates them under a play mode.
//!
//! The manager keeps two lists of equal length: the playlist as it is played,
//! and the canonical sequential order, which every structural edit changes at
//! the same position and which the `Repeat` order is restored from after a
//! `Random` excursion.
use vstd::prelude::*;
use crate::track::{
    Track, TrackView, views, opt_track_view, clone_tracks, lemma_views_insert, lemma_views_remove,
};
use crate::rng::{random_index, shuffle_indices};
use crate::wall_clock::now_millis;

verus! {

broadcast use vstd::seq_lib::group_seq_properties;

/// The policy that `next_track` and `previous_track` follow.
#[derive(Clone, Copy, Debug, PartialEq, Eq, Structural)]
pub enum PlayMode {
    /// Cyclic sequential order.
    Repeat,
    /// A shuffled order, never picking the current track twice in a row.
    Random,
    /// Stay on the current track.
    Single,
}

/// Why a structural edit or a selection was refused; the playlist is then
/// left unchanged.
#[derive(Clone, Copy, Debug, PartialEq, Eq, Structural)]
pub enum PlaylistError {
    /// A selected index is not below the length.
    IndexOutOfBounds { index: usize, len: usize },
    /// An insert position is past the end.
    InsertOutOfBounds { position: usize, len: usize },
    /// The track to move is not in the list.
    SourceOutOfBounds { index: usize, len: usize },
    /// The place to move a track to is past the end.
    TargetOutOfBounds { position: usize, len: usize },
    /// There is no current track to place another one after.
    NoCurrentTrack,
    /// The current index is not below the length.
    CurrentOutOfBounds { index: usize, len: usize },
    /// A track cannot be moved to the place right after itself.
    MoveOntoItself,
}

/// A named, ordered list of tracks; timestamps are milliseconds since the
/// Unix epoch.
#[derive(Debug)]
pub struct Playlist {
    pub id: String,
    pub name: String,
    pub tracks: Vec<Track>,
    pub created_at: i64,
    pub updated_at: i64,
}

/// The content of a playlist, with strings as character sequences.
pub struct PlaylistView {
    pub id: Seq<char>,
    pub name: Seq<char>,
    pub tracks: Seq<TrackView>,
    pub created_at: i64,
    pub updated_at: i64,
}

impl View for Playlist {
    type V = PlaylistView;

    open spec fn view(&self) -> PlaylistView {
        PlaylistView {
            id: self.id@,
            name: self.name@,
            tracks: views(self.tracks@),
            created_at: self.created_at,
            updated_at: self.updated_at,
        }
    }
}

impl Playlist {
    /// An unnamed empty playlist, created and updated now.
    pub fn new() -> (r: Playlist)
        ensures
            r.id@ == Seq::<char>::empty(),
            r.name@ == Seq::<char>::empty(),
            r.tracks@.len() == 0,
            r.created_at == r.updated_at,
    {
        let now = now_millis();
        Playlist {
            id: String::new(),
            name: String::new(),
            tracks: Vec::new(),
            created_at: now,
            updated_at: now,
        }
    }

    /// A copy with the same identity, name, tracks and timestamps.
    pub fn duplicate(&self) -> (r: Playlist)
        ensures
            r@ == self@,
            r.id@ == self.id@,
            r.name@ == self.name@,
            r.tracks@.len() == self.tracks@.len(),
            views(r.tracks@) == views(self.tracks@),
            r.created_at == self.created_at,
            r.updated_at == self.updated_at,
    {
        Playlist {
            id: self.id.clone(),
            name: self.name.clone(),
            tracks: clone_tracks(&self.tracks),
            created_at: self.created_at,
            updated_at: self.updated_at,
        }
    }
}

impl Clone for Playlist {
    fn clone(&self) -> (r: Playlist)
        ensures
            r.id@ == self.id@,
            r.name@ == self.name@,
            r.tracks@.len() == self.tracks@.len(),
            views(r.tracks@) == views(self.tracks@),
            r.created_at == self.created_at,
            r.updated_at == self.updated_at,
    {
        self.duplicate()
    }
}

/// The index that `Repeat` moves to: one further, wrapping to the start, or the
/// first track when none is current.
pub open spec fn next_repeat_index(cur: Option<usize>, len: nat) -> Option<usize> {
    if len == 0 {
        cur
    } else {
        match cur {
            Some(c) => if c + 1 < len { Some((c + 1) as usize) } else { Some(0) },
            None => Some(0),
        }
    }
}

/// The index that `Repeat` moves back to: one before, wrapping to the end, or
/// the last track when none is current.
pub open spec fn previous_repeat_index(cur: Option<usize>, len: nat) -> Option<usize> {
    if len == 0 {
        cur
    } else {
        match cur {
            Some(c) => if c == 0 { Some((len - 1) as usize) } else { Some((c - 1) as usize) },
            None => Some((len - 1) as usize),
        }
    }
}

/// Whether `Random` steps back from `cur`: only from a current index above zero.
pub open spec fn steps_back(cur: Option<usize>) -> bool {
    match cur {
        Some(c) => c > 0,
        None => false,
    }
}

/// `k` is the first position of `s` whose track has identity `id`.
pub open spec fn is_first_with_id(s: Seq<TrackView>, id: Option<usize>, k: int) -> bool {
    &&& 0 <= k < s.len()
    &&& s[k].id == id
    &&& forall|j: int| 0 <= j < k ==> s[j].id != id
}

/// The position of the first track of `s` with identity `id`, if any.
pub open spec fn find_id(s: Seq<TrackView>, id: Option<usize>) -> Option<usize> {
    if exists|k: int| is_first_with_id(s, id, k) {
        Some((choose|k: int| is_first_with_id(s, id, k)) as usize)
    } else {
        None
    }
}

/// Where the current index goes when a track is inserted at `position` into a
/// list of `len` tracks: forward by one when the insertion is at or before
/// it; onto the new track when the list was empty and nothing was current.
pub open spec fn index_after_insert(cur: Option<usize>, position: usize, len: nat) -> Option<usize> {
    match cur {
        Some(c) => if position <= c { Some((c + 1) as usize) } else { Some(c) },
        None => if len == 0 { Some(position) } else { None },
    }
}

/// Where the current index goes when the track at `position` leaves a list of
/// `len` tracks: back by one when the removal is before it; when the current
/// track itself leaves, the same index (now the next track), else the one
/// before, else none when the list becomes empty.
pub open spec fn index_after_remove(cur: Option<usize>, position: usize, len: nat) -> Option<usize> {
    match cur {
        Some(c) => if position < c {
            Some((c - 1) as usize)
        } else if position == c {
            if c + 1 < len {
                Some(c)
            } else if c > 0 {
                Some((c - 1) as usize)
            } else {
                None
            }
        } else {
            Some(c)
        },
        None => None,
    }
}

/// The list after the track at `from` is taken out and put back at `to`
/// (a position in the shortened list).
pub open spec fn moved<A>(s: Seq<A>, from: int, to: int) -> Seq<A> {
    s.remove(from).insert(to, s[from])
}

/// Where the current index goes when the track at `from` is moved to `to`:
/// it follows the moved track; it goes back by one when the track came from
/// before it; it goes forward by one when the track came from after it and
/// lands at or before it.
pub open spec fn index_after_move(cur: Option<usize>, from: usize, to: usize) -> Option<usize> {
    match cur {
        Some(c) => if c == from {
            Some(to)
        } else if from < c {
            Some((c - 1) as usize)
        } else if to <= c && from > c {
            Some((c + 1) as usize)
        } else {
            Some(c)
        },
        None => None,
    }
}

/// The position in `s` of the first track whose identity is that of `t`, if
/// `t` is given and such a track exists.
pub open spec fn relocate(s: Seq<TrackView>, t: Option<TrackView>) -> Option<usize> {
    match t {
        Some(v) => find_id(s, v.id),
        None => None,
    }
}

/// The track-position relocation used after a reorder: the first position
/// with the identity of `t`, else the first position of a non-empty list.
pub open spec fn relocate_or_first(s: Seq<TrackView>, t: Option<TrackView>) -> Option<usize> {
    match relocate(s, t) {
        Some(k) => Some(k),
        None => if s.len() == 0 { None } else { Some(0) },
    }
}

/// The indices `0, 1, ..., n - 1` in order.
pub open spec fn index_range(n: nat) -> Seq<usize> {
    Seq::new(n, |i: int| i as usize)
}

/// `p` holds each of the indices below `n` exactly once.
pub open spec fn is_index_permutation(p: Seq<usize>, n: nat) -> bool {
    p.to_multiset() == index_range(n).to_multiset()
}

/// `a` is `b` with its tracks rearranged: none lost, none added.
pub open spec fn is_rearrangement(a: Seq<TrackView>, b: Seq<TrackView>) -> bool {
    exists|p: Seq<usize>|
        #[trigger] is_index_permutation(p, b.len()) && a.len() == b.len() && forall|k: int|
            0 <= k < a.len() ==> a[k] == b[p[k] as int]
}

pub proof fn lemma_permutation_entries(p: Seq<usize>, n: nat)
    requires
        is_index_permutation(p, n),
    ensures
        p.len() == n,
        forall|k: int| 0 <= k < p.len() ==> p[k] < n,
        forall|i: usize| i < n ==> p.contains(i),
{
    broadcast use vstd::seq_lib::group_to_multiset_ensures;

    assert(index_range(n).len() == n);
    assert(p.len() == p.to_multiset().len());
    assert(index_range(n).len() == index_range(n).to_multiset().len());
    assert forall|k: int| 0 <= k < p.len() implies p[k] < n by {
        assert(p.contains(p[k]));
        assert(p.to_multiset().count(p[k]) > 0);
        assert(index_range(n).contains(p[k]));
    }
    assert forall|i: usize| i < n implies p.contains(i) by {
        assert(index_range(n)[i as int] == i);
        assert(index_range(n).contains(i));
        assert(index_range(n).to_multiset().count(i) > 0);
        assert(p.to_multiset().count(i) > 0);
    }
}

/// What `next_track` makes of `a`, in `b`: `Repeat` moves one further and
/// wraps; `Random` moves to an index other than the current one (a single
/// track is index zero); `Single` stays. An empty playlist stays as it is.
pub open spec fn advanced(a: PlaylistManager, b: PlaylistManager) -> bool {
    &&& b.playlist == a.playlist
    &&& b.canonical_tracks == a.canonical_tracks
    &&& b.play_mode == a.play_mode
    &&& a.play_mode == PlayMode::Repeat ==> b.current_index == next_repeat_index(
        a.current_index,
        a.len(),
    )
    &&& a.play_mode == PlayMode::Single ==> b.current_index == a.current_index
    &&& a.play_mode == PlayMode::Random && a.len() == 0 ==> b.current_index == a.current_index
    &&& a.play_mode == PlayMode::Random && a.len() == 1 ==> b.current_index == Some(0usize)
    &&& a.play_mode == PlayMode::Random && a.len() >= 2 ==> {
        &&& b.current_index is Some
        &&& b.current_index != a.current_index
    }
}

/// What `previous_track` makes of `a`, in `b`, returning the track `r`:
/// `Repeat` moves one back and wraps to the end; `Single` stays; `Random`
/// moves one back without wrapping and yields no track at index zero or with
/// no current track.
pub open spec fn stepped_back(a: PlaylistManager, b: PlaylistManager, r: Option<TrackView>) -> bool {
    &&& b.playlist == a.playlist
    &&& b.canonical_tracks == a.canonical_tracks
    &&& b.play_mode == a.play_mode
    &&& a.play_mode == PlayMode::Repeat ==> b.current_index == previous_repeat_index(
        a.current_index,
        a.len(),
    ) && r == b.current_view()
    &&& a.play_mode == PlayMode::Single ==> b.current_index == a.current_index && r
        == b.current_view()
    &&& a.play_mode == PlayMode::Random && steps_back(a.current_index) ==> {
        &&& b.current_index == Some((a.current_index.unwrap() - 1) as usize)
        &&& r == b.current_view()
    }
    &&& a.play_mode == PlayMode::Random && !steps_back(a.current_index) ==> {
        &&& b.current_index == a.current_index
        &&& r is None
    }
}

/// What moving the track at `from_index` to `to_position` of the list as it
/// was (`to_position` may be the length: the end) makes of `a`, in `b`, with
/// result `r`; the canonical order is changed at the same positions.
pub open spec fn moved_by_index(
    a: PlaylistManager,
    b: PlaylistManager,
    from_index: usize,
    to_position: usize,
    r: Result<(), PlaylistError>,
) -> bool {
    &&& b.play_mode == a.play_mode
    &&& b.playlist.id == a.playlist.id
    &&& b.playlist.name == a.playlist.name
    &&& b.playlist.created_at == a.playlist.created_at
    &&& b.playlist.updated_at == a.playlist.updated_at
    &&& from_index >= a.len() ==> r == Err::<(), PlaylistError>(
        PlaylistError::SourceOutOfBounds { index: from_index, len: a.len() as usize },
    ) && b == a
    &&& from_index < a.len() && to_position > a.len() ==> r == Err::<(), PlaylistError>(
        PlaylistError::TargetOutOfBounds { position: to_position, len: a.len() as usize },
    ) && b == a
    &&& from_index < a.len() && to_position <= a.len() ==> {
        let to = if to_position > from_index { to_position - 1 } else { to_position as int };
        &&& r is Ok
        &&& from_index == to_position ==> b == a
        &&& from_index != to_position ==> {
            &&& b.tracks_view() == moved(a.tracks_view(), from_index as int, to)
            &&& b.order_view() == moved(a.order_view(), from_index as int, to)
            &&& b.current_index == index_after_move(a.current_index, from_index, to as usize)
        }
    }
}

/// What switching the play mode of `a` to `mode` makes of it, in `b`.
pub open spec fn mode_switched(a: PlaylistManager, b: PlaylistManager, mode: PlayMode) -> bool {
    &&& b.play_mode == mode
    &&& b.canonical_tracks == a.canonical_tracks
    &&& b.playlist.id == a.playlist.id
    &&& b.playlist.name == a.playlist.name
    &&& b.playlist.created_at == a.playlist.created_at
    &&& b.playlist.updated_at == a.playlist.updated_at
    &&& mode == a.play_mode ==> b == a
    &&& mode != a.play_mode && mode == PlayMode::Random ==> {
        let n = a.order_view().len();
        &&& n == 0 ==> b.len() == 0 && b.current_index is None
        &&& n == 1 ==> b.tracks_view() == a.order_view() && b.current_index == Some(0usize)
        &&& n >= 2 ==> is_rearrangement(b.tracks_view(), a.order_view()) && b.current_index
            == relocate_or_first(b.tracks_view(), a.current_view())
    }
    &&& a.play_mode == PlayMode::Random && mode == PlayMode::Repeat ==> {
        &&& b.tracks_view() == a.order_view()
        &&& b.current_index == relocate_or_first(a.order_view(), a.current_view())
    }
    &&& mode != PlayMode::Random && !(a.play_mode == PlayMode::Random && mode == PlayMode::Repeat)
        ==> {
        &&& b.playlist == a.playlist
        &&& b.current_index == a.current_index
    }
}

/// The index that `Repeat` reaches after `k` moves forward from `start`.
pub open spec fn repeat_steps(start: Option<usize>, len: nat, k: nat) -> Option<usize>
    decreases k,
{
    if k == 0 {
        start
    } else {
        next_repeat_index(repeat_steps(start, len, (k - 1) as nat), len)
    }
}

/// In `Repeat` mode, moving forward as many times as there are tracks, from
/// the first track, comes back to the first track.
pub proof fn lemma_repeat_full_cycle(len: nat)
    requires
        0 < len <= usize::MAX,
    ensures
        repeat_steps(Some(0usize), len, len) == Some(0usize),
{
    assert forall|k: nat| k < len implies repeat_steps(Some(0usize), len, k) == Some(k as usize) by {
        lemma_repeat_prefix(len, k);
    }
    assert(repeat_steps(Some(0usize), len, (len - 1) as nat) == Some((len - 1) as usize));
}

proof fn lemma_repeat_prefix(len: nat, k: nat)
    requires
        k < len <= usize::MAX,
    ensures
        repeat_steps(Some(0usize), len, k) == Some(k as usize),
    decreases k,
{
    if k > 0 {
        lemma_repeat_prefix(len, (k - 1) as nat);
    }
}

proof fn lemma_find_id_some(s: Seq<TrackView>, id: Option<usize>, j: int)
    requires
        0 <= j < s.len() <= usize::MAX,
        s[j].id == id,
    ensures
        find_id(s, id) is Some,
        find_id(s, id).unwrap() < s.len(),
        s[find_id(s, id).unwrap() as int].id == id,
    decreases j,
{
    if exists|i: int| 0 <= i < j && s[i].id == id {
        let i = choose|i: int| 0 <= i < j && s[i].id == id;
        lemma_find_id_some(s, id, i);
    } else {
        assert(is_first_with_id(s, id, j));
        let k = choose|k: int| is_first_with_id(s, id, k);
        assert(is_first_with_id(s, id, k));
        assert(find_id(s, id) == Some(k as usize));
    }
}

/// Switching a `Repeat` playlist to `Random` and back to `Repeat` restores
/// the canonical order, and the current index again points at a track with
/// the identity of the one that was current, provided that identity occurs in
/// the canonical order. When the playing order was the canonical one, that
/// order is exactly what is restored.
pub proof fn lemma_shuffle_then_restore(m0: PlaylistManager, m1: PlaylistManager, m2: PlaylistManager)
    requires
        m0.wf(),
        m0.play_mode == PlayMode::Repeat,
        m0.current_index is Some,
        exists|j: int|
            0 <= j < m0.order_view().len() && #[trigger] m0.order_view()[j].id
                == m0.current_view().unwrap().id,
        mode_switched(m0, m1, PlayMode::Random),
        m1.wf(),
        mode_switched(m1, m2, PlayMode::Repeat),
    ensures
        m2.tracks_view() == m0.order_view(),
        m0.tracks_view() == m0.order_view() ==> m2.tracks_view() == m0.tracks_view(),
        m2.current_view() is Some,
        m2.current_view().unwrap().id == m0.current_view().unwrap().id,
{
    let n = m0.order_view().len();
    assert(m0.canonical_tracks.len() == m0.canonical_tracks@.len());
    assert(m1.playlist.tracks.len() == m1.playlist.tracks@.len());
    let t0 = m0.current_view().unwrap();
    let j = choose|j: int| 0 <= j < m0.order_view().len() && #[trigger] m0.order_view()[j].id == t0.id;
    if n >= 2 {
        let p = choose|p: Seq<usize>|
            #[trigger] is_index_permutation(p, n) && m1.tracks_view().len() == n && forall|k: int|
                0 <= k < m1.tracks_view().len() ==> m1.tracks_view()[k] == m0.order_view()[p[k] as int];
        lemma_permutation_entries(p, n);
        assert(p.contains(j as usize));
        let k = choose|k: int| 0 <= k < p.len() && p[k] == j as usize;
        assert(m1.tracks_view()[k].id == t0.id);
        lemma_find_id_some(m1.tracks_view(), t0.id, k);
    } else {
        assert(j == 0);
        assert(m1.tracks_view()[0] == m1.playlist.tracks@[0]@);
    }
    assert(m1.order_view() == m0.order_view());
    lemma_find_id_some(m0.order_view(), t0.id, j);
}

/// Holds the active playlist, the current index, the play mode and the
/// canonical order of the tracks.
#[derive(Debug)]
pub struct PlaylistManager {
    pub playlist: Playlist,
    pub current_index: Option<usize>,
    pub play_mode: PlayMode,
    pub canonical_tracks: Vec<Track>,
}

impl PlaylistManager {
    /// The current index, when set, lies inside the playlist, and the
    /// canonical order has as many tracks as the playlist.
    pub open spec fn wf(&self) -> bool {
        &&& self.canonical_tracks@.len() == self.playlist.tracks@.len()
        &&& match self.current_index {
            Some(i) => i < self.playlist.tracks@.len(),
            None => true,
        }
    }

    pub open spec fn len(&self) -> nat {
        self.playlist.tracks@.len()
    }

    /// The tracks in playing order.
    pub open spec fn tracks_view(&self) -> Seq<TrackView> {
        views(self.playlist.tracks@)
    }

    /// The tracks in canonical order.
    pub open spec fn order_view(&self) -> Seq<TrackView> {
        views(self.canonical_tracks@)
    }

    /// The track at the current index.
    pub open spec fn current_view(&self) -> Option<TrackView> {
        match self.current_index {
            Some(i) => if i < self.len() { Some(self.playlist.tracks@[i as int]@) } else { None },
            None => None,
        }
    }

    /// The playlist and its canonical order are `tracks`, no track is current
    /// and the mode is `Repeat`.
    pub fn new(playlist: Playlist) -> (r: PlaylistManager)
        ensures
            r.wf(),
            r.playlist == playlist,
            r.order_view() == views(playlist.tracks@),
            r.current_index is None,
            r.play_mode == PlayMode::Repeat,
    {
        let canonical_tracks = clone_tracks(&playlist.tracks);
        PlaylistManager { playlist, current_index: None, play_mode: PlayMode::Repeat, canonical_tracks }
    }

    /// A manager over an unnamed empty playlist.
    pub fn empty_playlist() -> (r: PlaylistManager)
        ensures
            r.wf(),
            r.len() == 0,
            r.playlist.id@ == Seq::<char>::empty(),
            r.playlist.name@ == Seq::<char>::empty(),
            r.current_index is None,
            r.play_mode == PlayMode::Repeat,
    {
        PlaylistManager {
            playlist: Playlist::new(),
            current_index: None,
            play_mode: PlayMode::Repeat,
            canonical_tracks: Vec::new(),
        }
    }

    pub fn get_playlist(&self) -> (r: &Playlist)
        ensures
            *r == self.playlist,
    {
        &self.playlist
    }

    /// The tracks of the playlist, to change in place; the caller keeps the
    /// current index inside the list.
    pub fn get_playlist_tracks(&mut self) -> (r: &mut Vec<Track>)
        ensures
            *r == old(self).playlist.tracks,
            *final(self) == (PlaylistManager {
                playlist: Playlist { tracks: *final(r), ..old(self).playlist },
                ..*old(self)
            }),
    {
        &mut self.playlist.tracks
    }

    /// The track at the current index, if there is one.
    pub fn get_current_track(&self) -> (r: Option<&Track>)
        ensures
            match r {
                Some(t) => self.current_view() == Some(t@),
                None => self.current_view() is None,
            },
    {
        match self.current_index {
            Some(i) => if i < self.playlist.tracks.len() {
                Some(&self.playlist.tracks[i])
            } else {
                None
            },
            None => None,
        }
    }

    /// A copy of the track at the current index, if there is one.
    fn current_track_copy(&self) -> (r: Option<Track>)
        ensures
            opt_track_view(r) == self.current_view(),
    {
        match self.get_current_track() {
            Some(t) => Some(t.duplicate()),
            None => None,
        }
    }

    /// Makes `index` current when it lies inside the playlist.
    pub fn set_current_index(&mut self, index: usize) -> (r: Result<(), PlaylistError>)
        ensures
            index < old(self).len() ==> r is Ok && final(self).current_index == Some(index),
            index >= old(self).len() ==> r == Err::<(), PlaylistError>(
                PlaylistError::IndexOutOfBounds { index, len: old(self).len() as usize },
            ) && final(self).current_index == old(self).current_index,
            final(self).playlist == old(self).playlist,
            final(self).canonical_tracks == old(self).canonical_tracks,
            final(self).play_mode == old(self).play_mode,
    {
        if index < self.playlist.tracks.len() {
            self.current_index = Some(index);
            Ok(())
        } else {
            Err(PlaylistError::IndexOutOfBounds { index, len: self.playlist.tracks.len() })
        }
    }

    /// Selects the track to start playing: the current one, or else the first
    /// one, which becomes current. Returns the file path to load.
    pub fn play(&mut self) -> (r: Option<String>)
        requires
            old(self).wf(),
        ensures
            final(self).wf(),
            final(self).playlist == old(self).playlist,
            final(self).canonical_tracks == old(self).canonical_tracks,
            final(self).play_mode == old(self).play_mode,
            old(self).current_index is Some ==> final(self).current_index == old(self).current_index,
            old(self).current_index is None ==> final(self).current_index == (
                if old(self).len() == 0 { None::<usize> } else { Some(0usize) }),
            match final(self).current_view() {
                Some(t) => r is Some && r.unwrap()@ == t.file_path,
                None => r is None,
            },
    {
        match self.current_index {
            Some(i) => Some(self.playlist.tracks[i].file_path.clone()),
            None => if self.playlist.tracks.len() > 0 {
                self.current_index = Some(0);
                Some(self.playlist.tracks[0].file_path.clone())
            } else {
                None
            },
        }
    }
    /// Advances under the play mode and returns the track that is then current.
    /// `Repeat` moves one further and wraps; `Random` moves to an index other
    /// than the current one (a single track stays at index zero); `Single`
    /// stays. An empty playlist yields no track.
    pub fn next_track(&mut self) -> (r: Option<Track>)
        requires
            old(self).wf(),
        ensures
            final(self).wf(),
            advanced(*old(self), *final(self)),
            opt_track_view(r) == final(self).current_view(),
    {
        match self.play_mode {
            PlayMode::Repeat => self.next_track_repeat(),
            PlayMode::Random => self.next_track_random(),
            PlayMode::Single => self.current_track_copy(),
        }
    }

    fn next_track_repeat(&mut self) -> (r: Option<Track>)
        requires
            old(self).wf(),
        ensures
            final(self).wf(),
            final(self).playlist == old(self).playlist,
            final(self).canonical_tracks == old(self).canonical_tracks,
            final(self).play_mode == old(self).play_mode,
            final(self).current_index == next_repeat_index(old(self).current_index, old(self).len()),
            opt_track_view(r) == final(self).current_view(),
    {
        let len = self.playlist.tracks.len();
        if len == 0 {
            return None;
        }
        let next_index: usize = match self.current_index {
            Some(current) => if current + 1 < len { current + 1 } else { 0 },
            None => 0,
        };
        self.current_index = Some(next_index);
        self.current_track_copy()
    }

    /// Draws uniformly among the indices other than the current one: a draw
    /// from one fewer index, skipping over the current index.
    fn next_track_random(&mut self) -> (r: Option<Track>)
        requires
            old(self).wf(),
        ensures
            final(self).wf(),
            final(self).playlist == old(self).playlist,
            final(self).canonical_tracks == old(self).canonical_tracks,
            final(self).play_mode == old(self).play_mode,
            old(self).len() == 0 ==> final(self).current_index == old(self).current_index,
            old(self).len() == 1 ==> final(self).current_index == Some(0usize),
            old(self).len() >= 2 ==> {
                &&& final(self).current_index is Some
                &&& final(self).current_index != old(self).current_index
            },
            opt_track_view(r) == final(self).current_view(),
    {
        let len = self.playlist.tracks.len();
        if len == 0 {
            return None;
        } else if len == 1 {
            self.current_index = Some(0);
            return self.current_track_copy();
        }
        let next_index: usize = match self.current_index {
            Some(current) => {
                let k = random_index(len - 1);
                if k >= current { k + 1 } else { k }
            },
            None => random_index(len),
        };
        self.current_index = Some(next_index);
        self.current_track_copy()
    }

    /// Moves back under the play mode. `Repeat` moves one back and wraps to
    /// the end; `Single` stays on the current track; `Random` moves one back
    /// without wrapping and yields no track at index zero or with no current
    /// track.
    pub fn previous_track(&mut self) -> (r: Option<Track>)
        requires
            old(self).wf(),
        ensures
            final(self).wf(),
            stepped_back(*old(self), *final(self), opt_track_view(r)),
    {
        match self.play_mode {
            PlayMode::Repeat => self.previous_track_repeat(),
            PlayMode::Single => self.current_track_copy(),
            PlayMode::Random => self.previous_track_default(),
        }
    }

    fn previous_track_repeat(&mut self) -> (r: Option<Track>)
        requires
            old(self).wf(),
        ensures
            final(self).wf(),
            final(self).playlist == old(self).playlist,
            final(self).canonical_tracks == old(self).canonical_tracks,
            final(self).play_mode == old(self).play_mode,
            final(self).current_index == previous_repeat_index(old(self).current_index, old(self).len()),
            opt_track_view(r) == final(self).current_view(),
    {
        let len = self.playlist.tracks.len();
        if len == 0 {
            return None;
        }
        let prev_index: usize = match self.current_index {
            Some(current) => if current == 0 { len - 1 } else { current - 1 },
            None => len - 1,
        };
        self.current_index = Some(prev_index);
        self.current_track_copy()
    }

    fn previous_track_default(&mut self) -> (r: Option<Track>)
        requires
            old(self).wf(),
        ensures
            final(self).wf(),
            final(self).playlist == old(self).playlist,
            final(self).canonical_tracks == old(self).canonical_tracks,
            final(self).play_mode == old(self).play_mode,
            steps_back(old(self).current_index) ==> {
                &&& final(self).current_index == Some((old(self).current_index.unwrap() - 1) as usize)
                &&& opt_track_view(r) == final(self).current_view()
            },
            !steps_back(old(self).current_index) ==> {
                &&& final(self).current_index == old(self).current_index
                &&& r is None
            },
    {
        if let Some(current) = self.current_index {
            if current > 0 {
                self.current_index = Some(current - 1);
                return self.current_track_copy();
            }
        }
        None
    }

    /// The track after the current one, without wrapping.
    pub fn get_next_track(&self) -> (r: Option<&Track>)
        ensures
            match self.current_index {
                Some(c) => if c + 1 < self.len() {
                    r is Some && r.unwrap()@ == self.playlist.tracks@[c + 1]@
                } else {
                    r is None
                },
                None => r is None,
            },
    {
        let current = match self.current_index {
            Some(c) => c,
            None => return None,
        };
        if current < self.playlist.tracks.len() && current + 1 < self.playlist.tracks.len() {
            Some(&self.playlist.tracks[current + 1])
        } else {
            None
        }
    }

    /// The track before the current one, without wrapping.
    pub fn get_previous_track(&self) -> (r: Option<&Track>)
        ensures
            match self.current_index {
                Some(c) => if 0 < c && c <= self.len() {
                    r is Some && r.unwrap()@ == self.playlist.tracks@[c - 1]@
                } else {
                    r is None
                },
                None => r is None,
            },
    {
        let current = match self.current_index {
            Some(c) => c,
            None => return None,
        };
        if current > 0 && current - 1 < self.playlist.tracks.len() {
            Some(&self.playlist.tracks[current - 1])
        } else {
            None
        }
    }
    /// Inserts `track` at `position` in the playlist and in the canonical
    /// order.
    pub fn insert_at(&mut self, position: usize, track: Track) -> (r: Result<(), PlaylistError>)
        requires
            old(self).wf(),
        ensures
            final(self).wf(),
            final(self).play_mode == old(self).play_mode,
            position > old(self).len() ==> {
                &&& r == Err::<(), PlaylistError>(
                    PlaylistError::InsertOutOfBounds { position, len: old(self).len() as usize },
                )
                &&& *final(self) == *old(self)
            },
            position <= old(self).len() ==> {
                &&& r is Ok
                &&& final(self).len() == old(self).len() + 1
                &&& final(self).tracks_view() == old(self).tracks_view().insert(position as int, track@)
                &&& final(self).order_view() == old(self).order_view().insert(position as int, track@)
                &&& final(self).current_index == index_after_insert(
                    old(self).current_index,
                    position,
                    old(self).len(),
                )
                &&& final(self).playlist.id == old(self).playlist.id
                &&& final(self).playlist.name == old(self).playlist.name
                &&& final(self).playlist.created_at == old(self).playlist.created_at
                &&& final(self).playlist.updated_at == old(self).playlist.updated_at
            },
    {
        let len = self.playlist.tracks.len();
        if position > len {
            return Err(PlaylistError::InsertOutOfBounds { position, len });
        }
        proof {
            lemma_views_insert(self.playlist.tracks@, position as int, track);
            lemma_views_insert(self.canonical_tracks@, position as int, track);
        }
        let copy = track.duplicate();
        self.playlist.tracks.insert(position, track);
        self.canonical_tracks.insert(position, copy);
        match self.current_index {
            Some(current) => {
                if position <= current {
                    self.current_index = Some(current + 1);
                }
            },
            None => {
                if len == 0 {
                    self.current_index = Some(position);
                }
            },
        }
        Ok(())
    }

    /// Moves the track at `from_index` so that it stands at `to_position` of
    /// the list as it was (`to_position` may be the length: the end), in the
    /// playlist and, at the same positions, in the canonical order.
    pub fn insert_at_by_index(&mut self, from_index: usize, to_position: usize) -> (r: Result<
        (),
        PlaylistError,
    >)
        requires
            old(self).wf(),
        ensures
            final(self).wf(),
            moved_by_index(*old(self), *final(self), from_index, to_position, r),
    {
        let len = self.playlist.tracks.len();
        if from_index >= len {
            return Err(PlaylistError::SourceOutOfBounds { index: from_index, len });
        }
        if to_position > len {
            return Err(PlaylistError::TargetOutOfBounds { position: to_position, len });
        }
        if from_index == to_position {
            return Ok(());
        }
        let ghost old_tracks = self.playlist.tracks@;
        let ghost old_order = self.canonical_tracks@;
        let track = self.playlist.tracks.remove(from_index);
        let adjusted: usize = if to_position > from_index { to_position - 1 } else { to_position };
        proof {
            lemma_views_remove(old_tracks, from_index as int);
            lemma_views_insert(old_tracks.remove(from_index as int), adjusted as int, track);
        }
        self.playlist.tracks.insert(adjusted, track);
        let canonical_track = self.canonical_tracks.remove(from_index);
        proof {
            lemma_views_remove(old_order, from_index as int);
            lemma_views_insert(old_order.remove(from_index as int), adjusted as int, canonical_track);
        }
        self.canonical_tracks.insert(adjusted, canonical_track);
        if let Some(current) = self.current_index {
            if current == from_index {
                self.current_index = Some(adjusted);
            } else if from_index < current {
                self.current_index = Some(current - 1);
            } else if adjusted <= current && from_index > current {
                self.current_index = Some(current + 1);
            }
        }
        Ok(())
    }

    /// Removes the track at `position` from the playlist and from the
    /// canonical order, and stamps the playlist as updated.
    pub fn remove_at(&mut self, position: usize) -> (r: Result<(), PlaylistError>)
        requires
            old(self).wf(),
        ensures
            final(self).wf(),
            final(self).play_mode == old(self).play_mode,
            position >= old(self).len() ==> {
                &&& r == Err::<(), PlaylistError>(
                    PlaylistError::IndexOutOfBounds { index: position, len: old(self).len() as usize },
                )
                &&& *final(self) == *old(self)
            },
            position < old(self).len() ==> {
                &&& r is Ok
                &&& final(self).tracks_view() == old(self).tracks_view().remove(position as int)
                &&& final(self).order_view() == old(self).order_view().remove(position as int)
                &&& final(self).current_index == index_after_remove(
                    old(self).current_index,
                    position,
                    old(self).len(),
                )
                &&& final(self).playlist.id == old(self).playlist.id
                &&& final(self).playlist.name == old(self).playlist.name
                &&& final(self).playlist.created_at == old(self).playlist.created_at
            },
    {
        let len = self.playlist.tracks.len();
        if position >= len {
            return Err(PlaylistError::IndexOutOfBounds { index: position, len });
        }
        proof {
            lemma_views_remove(self.playlist.tracks@, position as int);
            lemma_views_remove(self.canonical_tracks@, position as int);
        }
        let _ = self.playlist.tracks.remove(position);
        let _ = self.canonical_tracks.remove(position);
        if let Some(current) = self.current_index {
            if position < current {
                self.current_index = Some(current - 1);
            } else if position == current {
                let new_len = self.playlist.tracks.len();
                let new_index: usize = if current < new_len {
                    current
                } else if current > 0 {
                    current - 1
                } else {
                    0
                };
                if new_index < new_len {
                    self.current_index = Some(new_index);
                } else {
                    self.current_index = None;
                }
            }
        }
        self.playlist.updated_at = now_millis();
        Ok(())
    }

    /// Empties the playlist and the canonical order, clears the current index
    /// and stamps the playlist as updated.
    pub fn clear(&mut self)
        requires
            old(self).wf(),
        ensures
            final(self).wf(),
            final(self).len() == 0,
            final(self).canonical_tracks@.len() == 0,
            final(self).current_index is None,
            final(self).play_mode == old(self).play_mode,
            final(self).playlist.id == old(self).playlist.id,
            final(self).playlist.name == old(self).playlist.name,
            final(self).playlist.created_at == old(self).playlist.created_at,
    {
        self.playlist.tracks.clear();
        self.canonical_tracks.clear();
        self.current_index = None;
        self.playlist.updated_at = now_millis();
    }
    /// Replaces the playlist, and the canonical order, with a copy of
    /// `playlist`; the track that was current stays current where a track
    /// with its identity is in the new list. Stamps the playlist as updated.
    pub fn overwrite_playlist(&mut self, playlist: &Playlist)
        requires
            old(self).wf(),
        ensures
            final(self).wf(),
            final(self).play_mode == old(self).play_mode,
            final(self).tracks_view() == views(playlist.tracks@),
            final(self).order_view() == views(playlist.tracks@),
            final(self).playlist.id@ == playlist.id@,
            final(self).playlist.name@ == playlist.name@,
            final(self).playlist.created_at == playlist.created_at,
            final(self).current_index == relocate(views(playlist.tracks@), old(self).current_view()),
    {
        let old_current = self.current_track_copy();
        self.playlist = playlist.duplicate();
        self.canonical_tracks = clone_tracks(&playlist.tracks);
        self.current_index = match old_current {
            Some(t) => position_of_id(&self.playlist.tracks, t.id),
            None => None,
        };
        self.playlist.updated_at = now_millis();
    }

    /// Inserts `track` right after the current track (at the start when none
    /// is current) and makes it current.
    pub fn insert_track_to_current_next(&mut self, track: Track) -> (r: Result<(), PlaylistError>)
        requires
            old(self).wf(),
        ensures
            final(self).wf(),
            r is Ok,
            final(self).play_mode == old(self).play_mode,
            ({
                let pos = if old(self).len() == 0 {
                    0
                } else {
                    match old(self).current_index {
                        Some(c) => c + 1,
                        None => 1,
                    }
                };
                &&& final(self).tracks_view() == old(self).tracks_view().insert(pos, track@)
                &&& final(self).order_view() == old(self).order_view().insert(pos, track@)
                &&& final(self).current_index == Some(pos as usize)
            }),
    {
        let len = self.playlist.tracks.len();
        let current = match self.current_index {
            Some(c) => c,
            None => 0,
        };
        let insert_position: usize = if len == 0 {
            0
        } else if current + 1 < len {
            current + 1
        } else {
            len
        };
        let r = self.insert_at(insert_position, track);
        self.current_index = Some(insert_position);
        r
    }

    /// Moves the track at `track_index` to the place right after the current
    /// track.
    pub fn insert_track_to_current_next_by_index(&mut self, track_index: usize) -> (r: Result<
        (),
        PlaylistError,
    >)
        requires
            old(self).wf(),
        ensures
            final(self).wf(),
            final(self).play_mode == old(self).play_mode,
            old(self).current_index is None ==> r == Err::<(), PlaylistError>(
                PlaylistError::NoCurrentTrack,
            ) && *final(self) == *old(self),
            old(self).current_index is Some && track_index >= old(self).len() ==> r == Err::<
                (),
                PlaylistError,
            >(PlaylistError::IndexOutOfBounds { index: track_index, len: old(self).len() as usize })
                && *final(self) == *old(self),
            old(self).current_index == Some(track_index) && track_index < old(self).len() ==> r
                == Err::<(), PlaylistError>(PlaylistError::MoveOntoItself) && *final(self)
                == *old(self),
            ({
                let c = old(self).current_index.unwrap();
                old(self).current_index is Some && track_index < old(self).len() && c != track_index
                    ==> {
                    let to = if c + 1 > track_index { c as int } else { c + 1 };
                    &&& r is Ok
                    &&& c + 1 == track_index ==> *final(self) == *old(self)
                    &&& c + 1 != track_index ==> {
                        &&& final(self).tracks_view() == moved(
                            old(self).tracks_view(),
                            track_index as int,
                            to,
                        )
                        &&& final(self).order_view() == moved(
                            old(self).order_view(),
                            track_index as int,
                            to,
                        )
                        &&& final(self).current_index == index_after_move(
                            old(self).current_index,
                            track_index,
                            to as usize,
                        )
                    }
                }
            }),
    {
        let current = match self.current_index {
            Some(c) => c,
            None => return Err(PlaylistError::NoCurrentTrack),
        };
        let len = self.playlist.tracks.len();
        if current >= len {
            return Err(PlaylistError::CurrentOutOfBounds { index: current, len });
        }
        if track_index >= len {
            return Err(PlaylistError::IndexOutOfBounds { index: track_index, len });
        }
        if current == track_index {
            return Err(PlaylistError::MoveOntoItself);
        }
        self.insert_at_by_index(track_index, current + 1)
    }

    /// Appends `track`; in an empty list with nothing current it becomes
    /// current.
    pub fn insert_track_to_end(&mut self, track: Track) -> (r: Result<(), PlaylistError>)
        requires
            old(self).wf(),
        ensures
            final(self).wf(),
            r is Ok,
            final(self).play_mode == old(self).play_mode,
            final(self).tracks_view() == old(self).tracks_view().push(track@),
            final(self).order_view() == old(self).order_view().push(track@),
            final(self).current_index == index_after_insert(
                old(self).current_index,
                old(self).len() as usize,
                old(self).len(),
            ),
    {
        let end_position = self.playlist.tracks.len();
        let was_empty = end_position == 0;
        let r = self.insert_at(end_position, track);
        if was_empty && self.current_index.is_none() {
            self.current_index = Some(0);
        }
        assert(old(self).tracks_view().insert(end_position as int, track@)
            =~= old(self).tracks_view().push(track@));
        assert(old(self).order_view().insert(end_position as int, track@)
            =~= old(self).order_view().push(track@));
        r
    }

    /// Moves the track at `track_index` to the end of the list.
    pub fn insert_track_to_end_by_index(&mut self, track_index: usize) -> (r: Result<(), PlaylistError>)
        requires
            old(self).wf(),
        ensures
            final(self).wf(),
            final(self).play_mode == old(self).play_mode,
            track_index >= old(self).len() ==> r == Err::<(), PlaylistError>(
                PlaylistError::IndexOutOfBounds { index: track_index, len: old(self).len() as usize },
            ) && *final(self) == *old(self),
            track_index + 1 == old(self).len() ==> r is Ok && *final(self) == *old(self),
            track_index + 1 < old(self).len() ==> {
                let to = old(self).len() - 1;
                &&& r is Ok
                &&& final(self).tracks_view() == moved(old(self).tracks_view(), track_index as int, to)
                &&& final(self).order_view() == moved(old(self).order_view(), track_index as int, to)
                &&& final(self).current_index == index_after_move(
                    old(self).current_index,
                    track_index,
                    to as usize,
                )
            },
    {
        let len = self.playlist.tracks.len();
        if track_index >= len {
            return Err(PlaylistError::IndexOutOfBounds { index: track_index, len });
        }
        if track_index == len - 1 {
            return Ok(());
        }
        self.insert_at_by_index(track_index, len)
    }
    /// Switches the play mode. Into `Random`, the canonical order is shuffled
    /// into the playlist and the current track is located in it; from
    /// `Random` into `Repeat`, the canonical order is restored and the current
    /// track located in it. Other switches keep the order and the index.
    pub fn set_play_mode(&mut self, new_mode: PlayMode)
        requires
            old(self).wf(),
        ensures
            final(self).wf(),
            mode_switched(*old(self), *final(self), new_mode),
    {
        if self.play_mode == new_mode {
            return;
        }
        if new_mode == PlayMode::Random {
            self.switch_to_random_mode();
        } else if self.play_mode == PlayMode::Random && new_mode == PlayMode::Repeat {
            self.switch_to_repeat_mode();
        }
        self.play_mode = new_mode;
    }

    fn switch_to_random_mode(&mut self)
        requires
            old(self).wf(),
        ensures
            final(self).wf(),
            final(self).play_mode == old(self).play_mode,
            final(self).canonical_tracks == old(self).canonical_tracks,
            final(self).playlist.id == old(self).playlist.id,
            final(self).playlist.name == old(self).playlist.name,
            final(self).playlist.created_at == old(self).playlist.created_at,
            final(self).playlist.updated_at == old(self).playlist.updated_at,
            ({
                let n = old(self).order_view().len();
                &&& n == 0 ==> final(self).len() == 0 && final(self).current_index is None
                &&& n == 1 ==> final(self).tracks_view() == old(self).order_view()
                    && final(self).current_index == Some(0usize)
                &&& n >= 2 ==> is_rearrangement(final(self).tracks_view(), old(self).order_view())
                    && final(self).current_index == relocate_or_first(
                    final(self).tracks_view(),
                    old(self).current_view(),
                )
            }),
    {
        let n = self.canonical_tracks.len();
        if n == 0 {
            self.playlist.tracks.clear();
            self.current_index = None;
            return;
        }
        if n <= 1 {
            self.playlist.tracks = clone_tracks(&self.canonical_tracks);
            self.current_index = Some(0);
            return;
        }
        let shuffled = self.shuffled_order();
        let playing = self.current_track_copy();
        self.current_index = match playing {
            Some(t) => match position_of_id(&shuffled, t.id) {
                Some(k) => Some(k),
                None => Some(0),
            },
            None => Some(0),
        };
        self.playlist.tracks = shuffled;
    }

    /// The canonical order, shuffled.
    fn shuffled_order(&self) -> (r: Vec<Track>)
        ensures
            r@.len() == self.canonical_tracks@.len(),
            is_rearrangement(views(r@), self.order_view()),
    {
        let n = self.canonical_tracks.len();
        let mut idx: Vec<usize> = Vec::new();
        let mut i: usize = 0;
        while i < n
            invariant
                i <= n,
                n == self.canonical_tracks@.len(),
                idx@ == index_range(i as nat),
            decreases n - i,
        {
            idx.push(i);
            i = i + 1;
            assert(idx@ =~= index_range(i as nat));
        }
        shuffle_indices(&mut idx);
        proof {
            lemma_permutation_entries(idx@, n as nat);
        }
        let mut out: Vec<Track> = Vec::new();
        let mut k: usize = 0;
        while k < n
            invariant
                k <= n,
                n == self.canonical_tracks@.len(),
                idx@.len() == n,
                is_index_permutation(idx@, n as nat),
                forall|j: int| 0 <= j < n ==> idx@[j] < n,
                out@.len() == k,
                forall|j: int| 0 <= j < k ==> out@[j]@ == self.canonical_tracks@[idx@[j] as int]@,
            decreases n - k,
        {
            out.push(self.canonical_tracks[idx[k]].duplicate());
            k = k + 1;
        }
        assert(is_index_permutation(idx@, self.order_view().len()));
        out
    }

    fn switch_to_repeat_mode(&mut self)
        requires
            old(self).wf(),
        ensures
            final(self).wf(),
            final(self).play_mode == old(self).play_mode,
            final(self).canonical_tracks == old(self).canonical_tracks,
            final(self).playlist.id == old(self).playlist.id,
            final(self).playlist.name == old(self).playlist.name,
            final(self).playlist.created_at == old(self).playlist.created_at,
            final(self).playlist.updated_at == old(self).playlist.updated_at,
            final(self).tracks_view() == old(self).order_view(),
            final(self).current_index == relocate_or_first(
                old(self).order_view(),
                old(self).current_view(),
            ),
    {
        let canonical = clone_tracks(&self.canonical_tracks);
        let playing = self.current_track_copy();
        self.current_index = match playing {
            Some(t) => match position_of_id(&canonical, t.id) {
                Some(k) => Some(k),
                None => if canonical.len() == 0 { None } else { Some(0) },
            },
            None => if canonical.len() == 0 { None } else { Some(0) },
        };
        self.playlist.tracks = canonical;
    }
}

/// The position of the first track in `tracks` with identity `id`.
fn position_of_id(tracks: &Vec<Track>, id: Option<usize>) -> (r: Option<usize>)
    ensures
        r == find_id(views(tracks@), id),
        r matches Some(k) ==> k < tracks@.len(),
{
    let ghost s = views(tracks@);
    let mut i: usize = 0;
    while i < tracks.len()
        invariant
            i <= tracks@.len(),
            s == views(tracks@),
            forall|j: int| 0 <= j < i ==> s[j].id != id,
        decreases tracks@.len() - i,
    {
        if tracks[i].id == id {
            assert(is_first_with_id(s, id, i as int));
            assert forall|k: int| is_first_with_id(s, id, k) implies k == i by {
                if k < i {
                } else if k > i {
                    assert(s[i as int].id == id);
                }
            }
            return Some(i);
        }
        i = i + 1;
    }
    assert(!exists|k: int| is_first_with_id(s, id, k));
    None
}

} // verus!
