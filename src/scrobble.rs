use vstd::prelude::*;

verus! {

/// "Now playing" notification.
#[derive(Debug, Clone)]
pub struct NowPlaying {
    pub artist: String,
    pub track: String,
    pub album: Option<String>,
    pub track_number: Option<u32>,
    pub duration: Option<u64>,
    pub album_artist: Option<String>,
    pub player: Option<String>,
}

impl NowPlaying {
    /// A notification for `track` by `artist`, with no optional field set.
    pub fn new(artist: &str, track: &str) -> (r: Self)
        ensures
            r.artist@ == artist@,
            r.track@ == track@,
            r.album is None,
            r.track_number is None,
            r.duration is None,
            r.album_artist is None,
            r.player is None,
    {
        NowPlaying {
            artist: String::from_str(artist),
            track: String::from_str(track),
            album: None,
            track_number: None,
            duration: None,
            album_artist: None,
            player: None,
        }
    }

    pub fn with_album(self, album: &str) -> (r: Self)
        ensures
            r == (NowPlaying { album: r.album, ..self }),
            r.album.deep_view() == Some(album@),
    {
        NowPlaying { album: Some(String::from_str(album)), ..self }
    }

    pub fn with_track_number(self, track_number: u32) -> (r: Self)
        ensures
            r == (NowPlaying { track_number: Some(track_number), ..self }),
    {
        NowPlaying { track_number: Some(track_number), ..self }
    }

    pub fn with_duration(self, duration: u64) -> (r: Self)
        ensures
            r == (NowPlaying { duration: Some(duration), ..self }),
    {
        NowPlaying { duration: Some(duration), ..self }
    }

    pub fn with_album_artist(self, album_artist: &str) -> (r: Self)
        ensures
            r == (NowPlaying { album_artist: r.album_artist, ..self }),
            r.album_artist.deep_view() == Some(album_artist@),
    {
        NowPlaying { album_artist: Some(String::from_str(album_artist)), ..self }
    }

    pub fn with_player(self, player: &str) -> (r: Self)
        ensures
            r == (NowPlaying { player: r.player, ..self }),
            r.player.deep_view() == Some(player@),
    {
        NowPlaying { player: Some(String::from_str(player)), ..self }
    }
}

/// One play, submitted after the fact; `timestamp` is in seconds since the
/// Unix epoch.
#[derive(Debug, Clone)]
pub struct Scrobble {
    pub artist: String,
    pub track: String,
    pub timestamp: u64,
    pub album: Option<String>,
    pub track_number: Option<u32>,
    pub duration: Option<u64>,
    pub album_artist: Option<String>,
    pub player: Option<String>,
}

impl Scrobble {
    /// A play of `track` by `artist` at `timestamp`, with no optional field set.
    pub fn new(artist: &str, track: &str, timestamp: u64) -> (r: Self)
        ensures
            r.artist@ == artist@,
            r.track@ == track@,
            r.timestamp == timestamp,
            r.album is None,
            r.track_number is None,
            r.duration is None,
            r.album_artist is None,
            r.player is None,
    {
        Scrobble {
            artist: String::from_str(artist),
            track: String::from_str(track),
            timestamp,
            album: None,
            track_number: None,
            duration: None,
            album_artist: None,
            player: None,
        }
    }

    pub fn with_album(self, album: &str) -> (r: Self)
        ensures
            r == (Scrobble { album: r.album, ..self }),
            r.album.deep_view() == Some(album@),
    {
        Scrobble { album: Some(String::from_str(album)), ..self }
    }

    pub fn with_track_number(self, track_number: u32) -> (r: Self)
        ensures
            r == (Scrobble { track_number: Some(track_number), ..self }),
    {
        Scrobble { track_number: Some(track_number), ..self }
    }

    pub fn with_duration(self, duration: u64) -> (r: Self)
        ensures
            r == (Scrobble { duration: Some(duration), ..self }),
    {
        Scrobble { duration: Some(duration), ..self }
    }

    pub fn with_album_artist(self, album_artist: &str) -> (r: Self)
        ensures
            r == (Scrobble { album_artist: r.album_artist, ..self }),
            r.album_artist.deep_view() == Some(album_artist@),
    {
        Scrobble { album_artist: Some(String::from_str(album_artist)), ..self }
    }

    pub fn with_player(self, player: &str) -> (r: Self)
        ensures
            r == (Scrobble { player: r.player, ..self }),
            r.player.deep_view() == Some(player@),
    {
        Scrobble { player: Some(String::from_str(player)), ..self }
    }
}

/// Result of a scrobble submission.
#[derive(Debug)]
pub struct ScrobbleResponse {
    pub scrobbles: ScrobbleData,
}

#[derive(Debug)]
pub struct ScrobbleData {
    pub attr: ScrobbleAttr,
}

/// How many of the submitted plays the service accepted and ignored.
#[derive(Debug)]
pub struct ScrobbleAttr {
    pub accepted: u32,
    pub ignored: u32,
}

impl ScrobbleResponse {
    pub open spec fn accepted(&self) -> u32 {
        self.scrobbles.attr.accepted
    }

    pub open spec fn ignored(&self) -> u32 {
        self.scrobbles.attr.ignored
    }

    /// A response with the given counts.
    pub fn with_counts(accepted: u32, ignored: u32) -> (r: Self)
        ensures
            r.accepted() == accepted,
            r.ignored() == ignored,
    {
        ScrobbleResponse { scrobbles: ScrobbleData { attr: ScrobbleAttr { accepted, ignored } } }
    }
}

} // verus!
