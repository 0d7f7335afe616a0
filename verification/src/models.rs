use vstd::prelude::*;

verus! {

/// Identifier of a track on the server.
#[derive(Debug, Clone, PartialEq, Eq, Hash)]
pub struct TrackId(pub String);

impl From<String> for TrackId {
    fn from(s: String) -> (r: Self)
        ensures
            r.0 == s,
    {
        TrackId(s)
    }
}

impl vstd::std_specs::convert::FromSpecImpl<String> for TrackId {
    open spec fn obeys_from_spec() -> bool {
        true
    }

    open spec fn from_spec(s: String) -> Self {
        TrackId(s)
    }
}

impl From<TrackId> for String {
    fn from(id: TrackId) -> (r: Self)
        ensures
            r == id.0,
    {
        id.0
    }
}

impl vstd::std_specs::convert::FromSpecImpl<TrackId> for String {
    open spec fn obeys_from_spec() -> bool {
        true
    }

    open spec fn from_spec(id: TrackId) -> Self {
        id.0
    }
}

/// Identifier of an album on the server.
#[derive(Debug, Clone, PartialEq, Eq, Hash)]
pub struct AlbumId(pub String);

impl From<String> for AlbumId {
    fn from(s: String) -> (r: Self)
        ensures
            r.0 == s,
    {
        AlbumId(s)
    }
}

impl vstd::std_specs::convert::FromSpecImpl<String> for AlbumId {
    open spec fn obeys_from_spec() -> bool {
        true
    }

    open spec fn from_spec(s: String) -> Self {
        AlbumId(s)
    }
}

impl From<AlbumId> for String {
    fn from(id: AlbumId) -> (r: Self)
        ensures
            r == id.0,
    {
        id.0
    }
}

impl vstd::std_specs::convert::FromSpecImpl<AlbumId> for String {
    open spec fn obeys_from_spec() -> bool {
        true
    }

    open spec fn from_spec(id: AlbumId) -> Self {
        id.0
    }
}

/// Identifier of an artist on the server.
#[derive(Debug, Clone, PartialEq, Eq, Hash)]
pub struct ArtistId(pub String);

impl From<String> for ArtistId {
    fn from(s: String) -> (r: Self)
        ensures
            r.0 == s,
    {
        ArtistId(s)
    }
}

impl vstd::std_specs::convert::FromSpecImpl<String> for ArtistId {
    open spec fn obeys_from_spec() -> bool {
        true
    }

    open spec fn from_spec(s: String) -> Self {
        ArtistId(s)
    }
}

impl From<ArtistId> for String {
    fn from(id: ArtistId) -> (r: Self)
        ensures
            r == id.0,
    {
        id.0
    }
}

impl vstd::std_specs::convert::FromSpecImpl<ArtistId> for String {
    open spec fn obeys_from_spec() -> bool {
        true
    }

    open spec fn from_spec(id: ArtistId) -> Self {
        id.0
    }
}

/// Identifier of a playlist on the server.
#[derive(Debug, Clone, PartialEq, Eq, Hash)]
pub struct PlaylistId(pub String);

impl From<String> for PlaylistId {
    fn from(s: String) -> (r: Self)
        ensures
            r.0 == s,
    {
        PlaylistId(s)
    }
}

impl vstd::std_specs::convert::FromSpecImpl<String> for PlaylistId {
    open spec fn obeys_from_spec() -> bool {
        true
    }

    open spec fn from_spec(s: String) -> Self {
        PlaylistId(s)
    }
}

impl From<PlaylistId> for String {
    fn from(id: PlaylistId) -> (r: Self)
        ensures
            r == id.0,
    {
        id.0
    }
}

impl vstd::std_specs::convert::FromSpecImpl<PlaylistId> for String {
    open spec fn obeys_from_spec() -> bool {
        true
    }

    open spec fn from_spec(id: PlaylistId) -> Self {
        id.0
    }
}

/// Identifier of a cover art image on the server.
#[derive(Debug, Clone, PartialEq, Eq, Hash)]
pub struct CoverArtId(pub String);

impl From<String> for CoverArtId {
    fn from(s: String) -> (r: Self)
        ensures
            r.0 == s,
    {
        CoverArtId(s)
    }
}

impl vstd::std_specs::convert::FromSpecImpl<String> for CoverArtId {
    open spec fn obeys_from_spec() -> bool {
        true
    }

    open spec fn from_spec(s: String) -> Self {
        CoverArtId(s)
    }
}

impl From<CoverArtId> for String {
    fn from(id: CoverArtId) -> (r: Self)
        ensures
            r == id.0,
    {
        id.0
    }
}

impl vstd::std_specs::convert::FromSpecImpl<CoverArtId> for String {
    open spec fn obeys_from_spec() -> bool {
        true
    }

    open spec fn from_spec(id: CoverArtId) -> Self {
        id.0
    }
}

/// A listen to report to the server: the track and when it started.
#[derive(Debug, Clone, PartialEq, Eq)]
pub struct TrackScrobble {
    pub id: TrackId,
    pub timestamp: u64,
}

/// Ready-made album searches.
#[derive(Clone, Copy, Debug, PartialEq, Eq, Structural)]
pub enum SearchPreset {
    LastPlayedAlbums,
    RecentlyAddedAlbums,
    NewlyReleasedAlbums,
}

/// A search: by keyword, or by preset when one is given.
#[derive(Clone, Debug, PartialEq)]
pub struct SearchQuery {
    pub keyword: Option<String>,
    pub preset: Option<SearchPreset>,
    pub limit: Option<i32>,
    pub offset: Option<i32>,
}

/// The primary kind of a release.
#[derive(Clone, Copy, Debug, PartialEq, Eq, Structural)]
pub enum ReleaseType {
    Album,
    Ep,
    Single,
}

/// The secondary kind of a release.
#[derive(Clone, Copy, Debug, PartialEq, Eq, Structural)]
pub enum ReleaseSubtype {
    /// No secondary kind.
    Studio,
    Compilation,
    Soundtrack,
    Live,
    Remix,
    Demo,
    Broadcast,
}

/// An album as listed by the server.
#[derive(Debug, Clone, PartialEq)]
pub struct Album {
    pub id: AlbumId,
    pub title: String,
    pub artist: String,
    pub artist_id: Option<ArtistId>,
    pub year: Option<u32>,
    pub cover_art: Option<CoverArtId>,
    pub duration_secs: Option<u32>,
    pub play_count: Option<u64>,
    pub created_timestamp: Option<i64>,
    pub starred_timestamp: Option<i64>,
    pub song_count: Option<u32>,
    pub starred: Option<bool>,
    pub user_rating: Option<u8>,
    pub release_type: ReleaseType,
    pub release_subtype: ReleaseSubtype,
    pub musicbrainz_id: Option<String>,
    pub lastfm_url: Option<String>,
    pub genre: Option<String>,
}

/// An artist as listed by the server.
#[derive(Debug, Clone, PartialEq)]
pub struct Artist {
    pub id: ArtistId,
    pub name: String,
    pub cover_art: Option<CoverArtId>,
    pub artist_image_url: Option<String>,
    pub starred: Option<bool>,
    pub musicbrainz_id: Option<String>,
    pub lastfm_url: Option<String>,
}

/// A playlist as listed by the server.
#[derive(Debug, Clone, PartialEq)]
pub struct Playlist {
    pub id: PlaylistId,
    pub name: String,
    pub song_count: u32,
    pub duration_secs: u32,
    pub cover_art: Option<CoverArtId>,
    pub owner: Option<String>,
    pub public: Option<bool>,
    pub created_timestamp: i64,
    pub changed_timestamp: i64,
    pub comment: Option<String>,
}

} // verus!

verus! {

/// How playback continues once the end of the queue (or of a track) is reached.
#[derive(Debug, Clone, Copy, PartialEq, Eq, Structural)]
pub enum RepeatMode {
    /// Stop after the last track.
    Off,
    /// Repeat the current track.
    One,
    /// Start again from the beginning of the queue.
    All,
}

/// Which ReplayGain adjustment is applied to the volume.
#[derive(Debug, Clone, Copy, PartialEq, Eq, Structural)]
pub enum ReplayGainMode {
    /// No adjustment.
    Disabled,
    /// The track's gain, else the album's.
    Track,
    /// The album's gain, else the track's.
    Album,
    /// The album's gain while an album plays in order, else the track's.
    Auto,
}

/// The strategy used to pick the next track while shuffling.
#[derive(Debug, Clone, Copy, PartialEq, Eq, Structural)]
pub enum ShuffleType {
    /// Any track may come next, including one played a moment ago.
    Random,
    /// Every track is played once before any is repeated.
    Smart,
}

} // verus!
