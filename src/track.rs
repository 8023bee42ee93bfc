//! The track record that playlists hold by value.
use vstd::prelude::*;

verus! {

/// A playable item: its identity, file path, duration (in seconds) and
/// descriptive metadata. Timestamps are seconds since the Unix epoch.
#[derive(Debug)]
pub struct Track {
    pub id: Option<usize>,
    pub title: Option<String>,
    pub album: Option<String>,
    pub artist: Option<Vec<String>>,
    pub album_artist: Option<String>,
    pub composer: Option<Vec<String>>,
    pub lyricist: Option<Vec<String>>,
    pub genre: Option<Vec<String>>,
    pub release_date: Option<i64>,
    pub track_number: Option<u16>,
    pub disc_number: Option<u16>,
    pub bpm: Option<u16>,
    pub duration: u32,
    pub cover_art: Option<Vec<String>>,
    pub audio_format: Option<String>,
    pub audio_size: u64,
    pub bitrate: Option<u32>,
    pub sample_rate: Option<u32>,
    pub file_path: String,
    pub create_time: Option<i64>,
    pub update_time: Option<i64>,
    pub copyright: Option<String>,
    pub remark: Option<String>,
    pub path_type: u8,
    pub is_love: u8,
    pub hash: String,
    pub disc_total: Option<u16>,
    pub lyrics: Option<String>,
}

/// The mathematical content of a track: every field, with strings as
/// character sequences.
pub struct TrackView {
    pub id: Option<usize>,
    pub title: Option<Seq<char>>,
    pub album: Option<Seq<char>>,
    pub artist: Option<Seq<String>>,
    pub album_artist: Option<Seq<char>>,
    pub composer: Option<Seq<String>>,
    pub lyricist: Option<Seq<String>>,
    pub genre: Option<Seq<String>>,
    pub release_date: Option<i64>,
    pub track_number: Option<u16>,
    pub disc_number: Option<u16>,
    pub bpm: Option<u16>,
    pub duration: u32,
    pub cover_art: Option<Seq<String>>,
    pub audio_format: Option<Seq<char>>,
    pub audio_size: u64,
    pub bitrate: Option<u32>,
    pub sample_rate: Option<u32>,
    pub file_path: Seq<char>,
    pub create_time: Option<i64>,
    pub update_time: Option<i64>,
    pub copyright: Option<Seq<char>>,
    pub remark: Option<Seq<char>>,
    pub path_type: u8,
    pub is_love: u8,
    pub hash: Seq<char>,
    pub disc_total: Option<u16>,
    pub lyrics: Option<Seq<char>>,
}

pub open spec fn opt_str_view(s: Option<String>) -> Option<Seq<char>> {
    match s {
        Some(v) => Some(v@),
        None => None,
    }
}

pub open spec fn opt_list_view(s: Option<Vec<String>>) -> Option<Seq<String>> {
    match s {
        Some(v) => Some(v@),
        None => None,
    }
}

impl View for Track {
    type V = TrackView;

    open spec fn view(&self) -> TrackView {
        TrackView {
            id: self.id,
            title: opt_str_view(self.title),
            album: opt_str_view(self.album),
            artist: opt_list_view(self.artist),
            album_artist: opt_str_view(self.album_artist),
            composer: opt_list_view(self.composer),
            lyricist: opt_list_view(self.lyricist),
            genre: opt_list_view(self.genre),
            release_date: self.release_date,
            track_number: self.track_number,
            disc_number: self.disc_number,
            bpm: self.bpm,
            duration: self.duration,
            cover_art: opt_list_view(self.cover_art),
            audio_format: opt_str_view(self.audio_format),
            audio_size: self.audio_size,
            bitrate: self.bitrate,
            sample_rate: self.sample_rate,
            file_path: self.file_path@,
            create_time: self.create_time,
            update_time: self.update_time,
            copyright: opt_str_view(self.copyright),
            remark: opt_str_view(self.remark),
            path_type: self.path_type,
            is_love: self.is_love,
            hash: self.hash@,
            disc_total: self.disc_total,
            lyrics: opt_str_view(self.lyrics),
        }
    }
}

/// The view of an optional track.
pub open spec fn opt_track_view(t: Option<Track>) -> Option<TrackView> {
    match t {
        Some(v) => Some(v@),
        None => None,
    }
}

/// The views of a sequence of tracks.
pub open spec fn views(s: Seq<Track>) -> Seq<TrackView> {
    s.map_values(|t: Track| t@)
}

pub proof fn lemma_views_insert(s: Seq<Track>, i: int, t: Track)
    requires
        0 <= i <= s.len(),
    ensures
        views(s.insert(i, t)) == views(s).insert(i, t@),
{
    assert(views(s.insert(i, t)) =~= views(s).insert(i, t@));
}

pub proof fn lemma_views_remove(s: Seq<Track>, i: int)
    requires
        0 <= i < s.len(),
    ensures
        views(s.remove(i)) == views(s).remove(i),
{
    assert(views(s.remove(i)) =~= views(s).remove(i));
}

fn clone_opt_string(s: &Option<String>) -> (r: Option<String>)
    ensures
        opt_str_view(r) == opt_str_view(*s),
{
    match s {
        Some(v) => Some(v.clone()),
        None => None,
    }
}

fn clone_strings(v: &Vec<String>) -> (r: Vec<String>)
    ensures
        r@ == v@,
{
    let mut r: Vec<String> = Vec::new();
    let mut i: usize = 0;
    while i < v.len()
        invariant
            i <= v@.len(),
            r@ == v@.subrange(0, i as int),
        decreases v@.len() - i,
    {
        r.push(v[i].clone());
        i = i + 1;
    }
    assert(r@ =~= v@);
    r
}

fn clone_opt_strings(s: &Option<Vec<String>>) -> (r: Option<Vec<String>>)
    ensures
        opt_list_view(r) == opt_list_view(*s),
{
    match s {
        Some(v) => Some(clone_strings(v)),
        None => None,
    }
}

impl Track {
    /// A track with no metadata, an empty path and duration zero.
    pub fn new() -> (r: Track)
        ensures
            r@.id is None,
            r@.title is None,
            r@.artist is None,
            r@.duration == 0,
            r@.audio_size == 0,
            r@.file_path == Seq::<char>::empty(),
            r@.hash == Seq::<char>::empty(),
    {
        Track {
            id: None,
            title: None,
            album: None,
            artist: None,
            album_artist: None,
            composer: None,
            lyricist: None,
            genre: None,
            release_date: None,
            track_number: None,
            disc_number: None,
            bpm: None,
            duration: 0,
            cover_art: None,
            audio_format: None,
            audio_size: 0,
            bitrate: None,
            sample_rate: None,
            file_path: String::new(),
            create_time: None,
            update_time: None,
            copyright: None,
            remark: None,
            path_type: 0,
            is_love: 0,
            hash: String::new(),
            disc_total: None,
            lyrics: None,
        }
    }

    /// A copy of the track with the same content.
    pub fn duplicate(&self) -> (r: Track)
        ensures
            r@ == self@,
    {
        Track {
            id: self.id,
            title: clone_opt_string(&self.title),
            album: clone_opt_string(&self.album),
            artist: clone_opt_strings(&self.artist),
            album_artist: clone_opt_string(&self.album_artist),
            composer: clone_opt_strings(&self.composer),
            lyricist: clone_opt_strings(&self.lyricist),
            genre: clone_opt_strings(&self.genre),
            release_date: self.release_date,
            track_number: self.track_number,
            disc_number: self.disc_number,
            bpm: self.bpm,
            duration: self.duration,
            cover_art: clone_opt_strings(&self.cover_art),
            audio_format: clone_opt_string(&self.audio_format),
            audio_size: self.audio_size,
            bitrate: self.bitrate,
            sample_rate: self.sample_rate,
            file_path: self.file_path.clone(),
            create_time: self.create_time,
            update_time: self.update_time,
            copyright: clone_opt_string(&self.copyright),
            remark: clone_opt_string(&self.remark),
            path_type: self.path_type,
            is_love: self.is_love,
            hash: self.hash.clone(),
            disc_total: self.disc_total,
            lyrics: clone_opt_string(&self.lyrics),
        }
    }
}

impl Clone for Track {
    fn clone(&self) -> (r: Track)
        ensures
            r@ == self@,
    {
        self.duplicate()
    }
}

/// Copies a list of tracks, keeping each track's content and the order.
pub fn clone_tracks(v: &Vec<Track>) -> (r: Vec<Track>)
    ensures
        r@.len() == v@.len(),
        views(r@) == views(v@),
{
    let mut r: Vec<Track> = Vec::new();
    let mut i: usize = 0;
    while i < v.len()
        invariant
            i <= v@.len(),
            views(r@) == views(v@.subrange(0, i as int)),
        decreases v@.len() - i,
    {
        let t = v[i].duplicate();
        proof {
            assert(v@.subrange(0, i + 1) =~= v@.subrange(0, i as int).push(v@[i as int]));
            assert(views(r@.push(t)) =~= views(r@).push(t@));
            assert(views(v@.subrange(0, i + 1)) =~= views(v@.subrange(0, i as int)).push(v@[i as int]@));
        }
        r.push(t);
        i = i + 1;
    }
    assert(v@.subrange(0, v@.len() as int) =~= v@);
    r
}

} // verus!
