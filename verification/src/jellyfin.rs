//! Jellyfin: the shapes of its answers, how they become library models, and
//! the addresses and headers of its requests.

use vstd::prelude::*;
use vstd::string::*;

use crate::error::MusicbirbError;
use crate::models::{
    Album, AlbumId, Artist, ArtistId, CoverArtId, Playlist, PlaylistId, ReleaseSubtype, ReleaseType, SearchPreset, SearchQuery,
    TrackId,
};
use crate::text::{
    join_str, decimal, decimal_text, signed_decimal, signed_decimal_text, str_eq, trim_trailing_slashes,
    without_trailing_slashes,
};

verus! {

/// The body of a sign-in request.
pub struct AuthRequest<'a> {
    pub username: &'a str,
    pub pw: &'a str,
}

/// The answer to a sign-in request.
pub struct AuthResponse {
    pub access_token: String,
    pub user: UserDto,
}

/// A user account.
pub struct UserDto {
    pub id: String,
}

/// A page of items.
pub struct QueryResult<T> {
    pub items: Vec<T>,
    pub total_record_count: usize,
}

/// An item of the library: a track, an album, an artist or a playlist.
pub struct BaseItemDto {
    pub id: String,
    pub name: Option<String>,
    pub item_type: Option<String>,
    pub overview: Option<String>,
    pub child_count: Option<u32>,
    pub run_time_ticks: Option<u64>,
    pub production_year: Option<u32>,
    pub album: Option<String>,
    pub album_id: Option<String>,
    pub artists: Option<Vec<String>>,
    pub artist_items: Option<Vec<NameIdPair>>,
    pub index_number: Option<u32>,
    pub parent_index_number: Option<u32>,
}

/// A named reference to another item.
pub struct NameIdPair {
    pub name: String,
    pub id: String,
}

/// Jellyfin counts time in ticks of 100 nanoseconds.
pub const TICKS_PER_SECOND: u64 = 10_000_000;

/// The seconds that `ticks` amount to, cut to 32 bits as the server's
/// durations are stored.
pub open spec fn ticks_to_secs(ticks: u64) -> u32 {
    (ticks / TICKS_PER_SECOND) as u32
}

/// The name of an item, or "Unknown".
pub open spec fn name_or_unknown(name: Option<String>) -> Seq<char> {
    match name {
        Some(n) => n@,
        None => "Unknown"@,
    }
}

/// The first artist of an item, or "Unknown".
pub open spec fn first_artist(artists: Option<Vec<String>>) -> Seq<char> {
    match artists {
        Some(a) => if a@.len() > 0 { a@[0]@ } else { "Unknown"@ },
        None => "Unknown"@,
    }
}

/// The artist reference of an item: the last one listed.
pub open spec fn last_artist_id(items: Option<Vec<NameIdPair>>) -> Option<ArtistId> {
    match items {
        Some(v) => if v@.len() > 0 { Some(ArtistId(v@.last().id)) } else { None },
        None => None,
    }
}

fn unknown_or(name: Option<String>) -> (r: String)
    ensures
        r@ == name_or_unknown(name),
{
    match name {
        Some(n) => n,
        None => "Unknown".to_owned(),
    }
}

fn first_artist_of(artists: Option<Vec<String>>) -> (r: String)
    ensures
        r@ == first_artist(artists),
{
    match artists {
        Some(a) => if a.len() > 0 {
            a[0].clone()
        } else {
            "Unknown".to_owned()
        },
        None => "Unknown".to_owned(),
    }
}

fn last_artist_id_of(items: Option<Vec<NameIdPair>>) -> (r: Option<ArtistId>)
    ensures
        r == last_artist_id(items),
{
    match items {
        Some(mut v) => match v.pop() {
            Some(x) => Some(ArtistId(x.id)),
            None => None,
        },
        None => None,
    }
}

/// `a` is the album that the Jellyfin item `item` describes; its cover art
/// is served under the item's own id.
pub open spec fn album_from_item(a: Album, item: BaseItemDto) -> bool {
    &&& a.id == AlbumId(item.id)
    &&& a.title@ == name_or_unknown(item.name)
    &&& a.artist@ == first_artist(item.artists)
    &&& a.artist_id == last_artist_id(item.artist_items)
    &&& a.year == item.production_year
    &&& a.cover_art == Some(CoverArtId(item.id))
    &&& a.duration_secs == match item.run_time_ticks {
        Some(t) => Some(ticks_to_secs(t)),
        None => None,
    }
    &&& a.play_count is None
    &&& a.created_timestamp is None
    &&& a.starred_timestamp is None
    &&& a.song_count is None
    &&& a.starred is None
    &&& a.user_rating is None
    &&& a.release_type == ReleaseType::Album
    &&& a.release_subtype == ReleaseSubtype::Studio
    &&& a.musicbrainz_id is None
    &&& a.lastfm_url is None
    &&& a.genre is None
}

impl Album {
    /// The album that a Jellyfin item describes. Its cover art is served
    /// under the item's own id.
    pub fn from_jellyfin(item: BaseItemDto) -> (r: Album)
        ensures
            album_from_item(r, item),
    {
        let duration_secs = match item.run_time_ticks {
            Some(t) => Some((t / TICKS_PER_SECOND) as u32),
            None => None,
        };
        Album {
            id: AlbumId(item.id.clone()),
            title: unknown_or(item.name),
            artist: first_artist_of(item.artists),
            artist_id: last_artist_id_of(item.artist_items),
            year: item.production_year,
            cover_art: Some(CoverArtId(item.id)),
            duration_secs,
            play_count: None,
            created_timestamp: None,
            starred_timestamp: None,
            song_count: None,
            starred: None,
            user_rating: None,
            release_type: ReleaseType::Album,
            release_subtype: ReleaseSubtype::Studio,
            musicbrainz_id: None,
            lastfm_url: None,
            genre: None,
        }
    }
}

impl Playlist {
    /// The playlist that a Jellyfin item describes.
    pub fn from_jellyfin(item: BaseItemDto) -> (r: Playlist)
        ensures
            r.id == PlaylistId(item.id),
            r.name@ == name_or_unknown(item.name),
            r.song_count == match item.child_count {
                Some(c) => c,
                None => 0u32,
            },
            r.duration_secs == match item.run_time_ticks {
                Some(t) => ticks_to_secs(t),
                None => 0u32,
            },
            r.cover_art == Some(CoverArtId(item.id)),
            r.owner is None,
            r.public is None,
            r.created_timestamp == 0,
            r.changed_timestamp == 0,
            r.comment is None,
    {
        Playlist {
            id: PlaylistId(item.id.clone()),
            name: unknown_or(item.name),
            song_count: match item.child_count {
                Some(c) => c,
                None => 0,
            },
            duration_secs: match item.run_time_ticks {
                Some(t) => (t / TICKS_PER_SECOND) as u32,
                None => 0,
            },
            cover_art: Some(CoverArtId(item.id)),
            owner: None,
            public: None,
            created_timestamp: 0,
            changed_timestamp: 0,
            comment: None,
        }
    }
}

/// The header text that identifies this client, with the access token
/// once signed in.
pub open spec fn auth_header_text(token: Option<String>) -> Seq<char> {
    "MediaBrowser Client=\"Musicbirb\", Device=\"Musicbirb\", DeviceId=\"musicbirb-app\", Version=\"0.1.0\""@
        + match token {
        Some(t) => ", Token=\""@ + t@ + "\""@,
        None => Seq::empty(),
    }
}

/// What the client knows about its Jellyfin session: the server address,
/// and the token and user once signed in.
pub struct JellyfinSession {
    pub base_url: String,
    pub token: Option<String>,
    pub user_id: Option<String>,
}

impl JellyfinSession {
    /// A session with the server at `base_url` (trailing slashes dropped),
    /// not signed in.
    pub fn new(base_url: &str) -> (r: Self)
        ensures
            r.base_url@ == without_trailing_slashes(base_url@),
            r.token is None,
            r.user_id is None,
    {
        let trimmed = trim_trailing_slashes(base_url);
        JellyfinSession { base_url: trimmed.to_owned(), token: None, user_id: None }
    }

    /// The authorization header of this session's requests.
    pub fn auth_header(&self) -> (r: String)
        ensures
            r@ == auth_header_text(self.token),
    {
        let head = "MediaBrowser Client=\"Musicbirb\", Device=\"Musicbirb\", DeviceId=\"musicbirb-app\", Version=\"0.1.0\"";
        match &self.token {
            Some(t) => {
                let a = join_str(", Token=\"", t.as_str());
                let b = join_str(a.as_str(), "\"");
                let r = join_str(head, b.as_str());
                proof {
                    assert(r@ =~= auth_header_text(self.token));
                }
                r
            },
            None => {
                let r = head.to_owned();
                proof {
                    assert(r@ =~= auth_header_text(self.token));
                }
                r
            },
        }
    }

    /// Remembers the access token of a signed-in user.
    pub fn set_token(&mut self, token: String)
        ensures
            final(self).token == Some(token),
            final(self).base_url == old(self).base_url,
            final(self).user_id == old(self).user_id,
    {
        self.token = Some(token);
    }

    /// Remembers a successful sign-in: its token and user.
    pub fn record_login(&mut self, response: AuthResponse)
        ensures
            final(self).token == Some(response.access_token),
            final(self).user_id == Some(response.user.id),
            final(self).base_url == old(self).base_url,
    {
        self.token = Some(response.access_token);
        self.user_id = Some(response.user.id);
    }

    /// The signed-in user, needed by every per-user request.
    pub fn get_user_id(&self) -> (r: Result<&str, MusicbirbError>)
        ensures
            match self.user_id {
                Some(u) => r matches Ok(s) && s@ == u@,
                None => r matches Err(e) && e matches MusicbirbError::Internal(m) && m@
                    == "No user ID. Missing call to fetch_me?"@,
            },
    {
        match &self.user_id {
            Some(u) => Ok(u.as_str()),
            None => Err(MusicbirbError::Internal("No user ID. Missing call to fetch_me?".to_owned())),
        }
    }

    /// The address streaming the track, carrying the token once signed in.
    pub fn stream_url(&self, track_id: &TrackId) -> (r: String)
        ensures
            r@ == self.base_url@ + "/Audio/"@ + track_id.0@ + "/stream?static=true"@ + match self.token {
                Some(t) => "&api_key="@ + t@,
                None => Seq::empty(),
            },
    {
        let a = join_str(self.base_url.as_str(), "/Audio/");
        let b = join_str(a.as_str(), track_id.0.as_str());
        let c = join_str(b.as_str(), "/stream?static=true");
        match &self.token {
            Some(t) => {
                let d = join_str(c.as_str(), "&api_key=");
                let r = join_str(d.as_str(), t.as_str());
                proof {
                    assert(r@ =~= self.base_url@ + "/Audio/"@ + track_id.0@ + "/stream?static=true"@ + (
                    "&api_key="@ + t@));
                }
                r
            },
            None => {
                proof {
                    assert(c@ =~= self.base_url@ + "/Audio/"@ + track_id.0@ + "/stream?static=true"@
                        + Seq::<char>::empty());
                }
                c
            },
        }
    }

    /// The address of a cover image, at most `size` pixels wide when given.
    pub fn cover_art_url(&self, cover_id: &CoverArtId, size: Option<u32>) -> (r: String)
        ensures
            r@ == self.base_url@ + "/Items/"@ + cover_id.0@ + "/Images/Primary"@ + match size {
                Some(s) => "?maxWidth="@ + decimal_text(s as nat),
                None => Seq::empty(),
            },
    {
        let a = join_str(self.base_url.as_str(), "/Items/");
        let b = join_str(a.as_str(), cover_id.0.as_str());
        let c = join_str(b.as_str(), "/Images/Primary");
        match size {
            Some(s) => {
                let d = join_str(c.as_str(), "?maxWidth=");
                let digits = decimal(s as u64);
                let r = join_str(d.as_str(), digits.as_str());
                proof {
                    assert(r@ =~= self.base_url@ + "/Items/"@ + cover_id.0@ + "/Images/Primary"@ + (
                    "?maxWidth="@ + decimal_text(s as nat)));
                }
                r
            },
            None => {
                proof {
                    assert(c@ =~= self.base_url@ + "/Items/"@ + cover_id.0@ + "/Images/Primary"@
                        + Seq::<char>::empty());
                }
                c
            },
        }
    }
}

/// What a search hit is.
#[derive(Clone, Copy, Debug, PartialEq, Eq, Structural)]
pub enum ItemKind {
    Audio,
    MusicAlbum,
    MusicArtist,
    /// Anything else, which a search ignores.
    Other,
}

/// The kind of a library item from its type name.
pub open spec fn kind_of(item_type: Option<String>) -> ItemKind {
    match item_type {
        Some(t) => if t@ == "Audio"@ {
            ItemKind::Audio
        } else if t@ == "MusicAlbum"@ {
            ItemKind::MusicAlbum
        } else if t@ == "MusicArtist"@ {
            ItemKind::MusicArtist
        } else {
            ItemKind::Other
        },
        None => ItemKind::Other,
    }
}

/// The kind of a library item from its type name.
pub fn item_kind(item_type: &Option<String>) -> (r: ItemKind)
    ensures
        r == kind_of(*item_type),
{
    match item_type {
        Some(t) => if str_eq(t.as_str(), "Audio") {
            ItemKind::Audio
        } else if str_eq(t.as_str(), "MusicAlbum") {
            ItemKind::MusicAlbum
        } else if str_eq(t.as_str(), "MusicArtist") {
            ItemKind::MusicArtist
        } else {
            ItemKind::Other
        },
        None => ItemKind::Other,
    }
}

/// `a` is the artist that the Jellyfin item `item` describes; its image is
/// served under the item's own id.
pub open spec fn artist_from_item(a: Artist, item: BaseItemDto) -> bool {
    &&& a.id == ArtistId(item.id)
    &&& a.name@ == name_or_unknown(item.name)
    &&& a.cover_art == Some(CoverArtId(item.id))
    &&& a.artist_image_url is None
    &&& a.starred is None
    &&& a.musicbrainz_id is None
    &&& a.lastfm_url is None
}

impl Artist {
    /// The artist that a Jellyfin item of kind "MusicArtist" describes; its
    /// image is served under the item's own id.
    pub fn from_jellyfin(item: BaseItemDto) -> (r: Artist)
        ensures
            artist_from_item(r, item),
    {
        Artist {
            id: ArtistId(item.id.clone()),
            name: unknown_or(item.name),
            cover_art: Some(CoverArtId(item.id)),
            artist_image_url: None,
            starred: None,
            musicbrainz_id: None,
            lastfm_url: None,
        }
    }
}

/// The request that a search needs.
pub enum JellyfinSearchRequest {
    /// Fetch this path; the answer is a page of items.
    Items(String),
    /// Fetch this path; the answer is a plain list of items.
    Latest(String),
    /// Nothing to ask: the answer is empty.
    Nothing,
}

/// The path of the request for `query` by `user_id`, with `limit` results.
pub open spec fn search_path_text(user_id: Seq<char>, preset: Option<SearchPreset>, keyword: Seq<char>, limit: i32) -> Seq<
    char,
> {
    let n = signed_decimal_text(limit as int);
    match preset {
        Some(SearchPreset::LastPlayedAlbums) => "/Users/"@ + user_id
            + "/Items?IncludeItemTypes=MusicAlbum&SortBy=DatePlayed&SortOrder=Descending&Limit="@ + n
            + "&Recursive=true&EnableImages=true"@,
        Some(SearchPreset::RecentlyAddedAlbums) => "/Users/"@ + user_id
            + "/Items/Latest?IncludeItemTypes=MusicAlbum&Limit="@ + n + "&EnableImages=true"@,
        Some(SearchPreset::NewlyReleasedAlbums) => "/Users/"@ + user_id
            + "/Items?IncludeItemTypes=MusicAlbum&SortBy=ProductionYear&SortOrder=Descending&Limit="@ + n
            + "&Recursive=true"@,
        None => "/Users/"@ + user_id + "/Items?SearchTerm="@ + keyword
            + "&IncludeItemTypes=Audio,MusicAlbum,MusicArtist&Limit="@ + n + "&Recursive=true"@,
    }
}

fn join4(a: &str, b: &str, c: &str, d: &str) -> (r: String)
    ensures
        r@ == a@ + b@ + c@ + d@,
{
    let x = join_str(a, b);
    let y = join_str(x.as_str(), c);
    join_str(y.as_str(), d)
}

/// The request for `query` by the user `user_id`: its preset's album
/// listing when it has one, else a keyword search, else nothing (no
/// keyword, or an empty one). Up to `query.limit` results, 20 by default.
pub fn search_request(user_id: &str, query: &SearchQuery) -> (r: JellyfinSearchRequest)
    ensures
        ({
            let limit = match query.limit {
                Some(l) => l,
                None => 20i32,
            };
            match query.preset {
                Some(SearchPreset::RecentlyAddedAlbums) => r matches JellyfinSearchRequest::Latest(p) && p@
                    == search_path_text(user_id@, query.preset, Seq::empty(), limit),
                Some(_) => r matches JellyfinSearchRequest::Items(p) && p@ == search_path_text(
                    user_id@,
                    query.preset,
                    Seq::empty(),
                    limit,
                ),
                None => match query.keyword {
                    Some(k) => if k@.len() == 0 {
                        r is Nothing
                    } else {
                        r matches JellyfinSearchRequest::Items(p) && p@ == search_path_text(
                            user_id@,
                            None,
                            k@,
                            limit,
                        )
                    },
                    None => r is Nothing,
                },
            }
        }),
{
    let limit: i32 = match query.limit {
        Some(l) => l,
        None => 20,
    };
    let n = signed_decimal(limit as i64);
    let head = join_str("/Users/", user_id);
    match query.preset {
        Some(SearchPreset::LastPlayedAlbums) => {
            let p = join4(
                head.as_str(),
                "/Items?IncludeItemTypes=MusicAlbum&SortBy=DatePlayed&SortOrder=Descending&Limit=",
                n.as_str(),
                "&Recursive=true&EnableImages=true",
            );
            JellyfinSearchRequest::Items(p)
        },
        Some(SearchPreset::RecentlyAddedAlbums) => {
            let p = join4(
                head.as_str(),
                "/Items/Latest?IncludeItemTypes=MusicAlbum&Limit=",
                n.as_str(),
                "&EnableImages=true",
            );
            JellyfinSearchRequest::Latest(p)
        },
        Some(SearchPreset::NewlyReleasedAlbums) => {
            let p = join4(
                head.as_str(),
                "/Items?IncludeItemTypes=MusicAlbum&SortBy=ProductionYear&SortOrder=Descending&Limit=",
                n.as_str(),
                "&Recursive=true",
            );
            JellyfinSearchRequest::Items(p)
        },
        None => match &query.keyword {
            Some(k) => {
                if k.as_str().unicode_len() == 0 {
                    JellyfinSearchRequest::Nothing
                } else {
                    let a = join4(head.as_str(), "/Items?SearchTerm=", k.as_str(), "&IncludeItemTypes=Audio,MusicAlbum,MusicArtist&Limit=");
                    let b = join_str(a.as_str(), n.as_str());
                    let p = join_str(b.as_str(), "&Recursive=true");
                    proof {
                        assert(p@ =~= search_path_text(user_id@, None, k@, limit));
                    }
                    JellyfinSearchRequest::Items(p)
                }
            },
            None => JellyfinSearchRequest::Nothing,
        },
    }
}

/// Judges the HTTP status `status` (described by `status_text`) of an
/// answer: any status outside 200..=299 fails, as a refused sign-in when
/// `signing_in`, else as an API error.
pub fn check_reply(status: u16, status_text: &str, signing_in: bool) -> (r: Result<(), MusicbirbError>)
    ensures
        200 <= status <= 299 ==> r is Ok,
        !(200 <= status <= 299) && signing_in ==> (r matches Err(e) && e matches MusicbirbError::Auth(m) && m@
            == "Jellyfin auth failed: "@ + status_text@),
        !(200 <= status <= 299) && !signing_in ==> (r matches Err(e) && e matches MusicbirbError::Api(m) && m@
            == "Jellyfin API error: "@ + status_text@),
{
    if 200 <= status && status <= 299 {
        Ok(())
    } else if signing_in {
        Err(MusicbirbError::Auth(join_str("Jellyfin auth failed: ", status_text)))
    } else {
        Err(MusicbirbError::Api(join_str("Jellyfin API error: ", status_text)))
    }
}

/// The items of `s` of kind `k`, in order.
pub open spec fn items_of_kind(s: Seq<BaseItemDto>, k: ItemKind) -> Seq<BaseItemDto>
    decreases s.len(),
{
    if s.len() == 0 {
        Seq::empty()
    } else if kind_of(s.last().item_type) == k {
        items_of_kind(s.drop_last(), k).push(s.last())
    } else {
        items_of_kind(s.drop_last(), k)
    }
}

/// The hits of a keyword search, sorted by kind: the songs (as the items
/// themselves), the albums and the artists, each in the order of the
/// answer. Items of any other kind are dropped.
pub fn sort_search_items(items: Vec<BaseItemDto>) -> (r: (Vec<BaseItemDto>, Vec<Album>, Vec<Artist>))
    ensures
        r.0@ == items_of_kind(items@, ItemKind::Audio),
        r.1@.len() == items_of_kind(items@, ItemKind::MusicAlbum).len(),
        forall|k: int|
            0 <= k < r.1@.len() ==> album_from_item(#[trigger] r.1@[k], items_of_kind(items@, ItemKind::MusicAlbum)[k]),
        r.2@.len() == items_of_kind(items@, ItemKind::MusicArtist).len(),
        forall|k: int|
            0 <= k < r.2@.len() ==> artist_from_item(#[trigger] r.2@[k], items_of_kind(items@, ItemKind::MusicArtist)[k]),
{
    let ghost orig = items@;
    let mut rest = items;
    let mut songs: Vec<BaseItemDto> = Vec::new();
    let mut albums: Vec<Album> = Vec::new();
    let mut artists: Vec<Artist> = Vec::new();
    while rest.len() > 0
        invariant
            rest.len() <= orig.len(),
            rest@ == orig.subrange(orig.len() - rest.len(), orig.len() as int),
            songs@ == items_of_kind(orig.take(orig.len() - rest.len()), ItemKind::Audio),
            albums@.len() == items_of_kind(orig.take(orig.len() - rest.len()), ItemKind::MusicAlbum).len(),
            forall|k: int|
                0 <= k < albums@.len() ==> album_from_item(
                    #[trigger] albums@[k],
                    items_of_kind(orig.take(orig.len() - rest.len()), ItemKind::MusicAlbum)[k],
                ),
            artists@.len() == items_of_kind(orig.take(orig.len() - rest.len()), ItemKind::MusicArtist).len(),
            forall|k: int|
                0 <= k < artists@.len() ==> artist_from_item(
                    #[trigger] artists@[k],
                    items_of_kind(orig.take(orig.len() - rest.len()), ItemKind::MusicArtist)[k],
                ),
        decreases rest.len(),
    {
        let ghost done = orig.len() - rest.len();
        let item = rest.remove(0);
        proof {
            assert(orig.take(done + 1).drop_last() =~= orig.take(done));
            assert(orig.take(done + 1).last() == item);
            assert(rest@ =~= orig.subrange(orig.len() - rest.len(), orig.len() as int));
        }
        match item_kind(&item.item_type) {
            ItemKind::Audio => songs.push(item),
            ItemKind::MusicAlbum => albums.push(Album::from_jellyfin(item)),
            ItemKind::MusicArtist => artists.push(Artist::from_jellyfin(item)),
            ItemKind::Other => {},
        }
    }
    proof {
        assert(orig.take(orig.len() as int) =~= orig);
    }
    (songs, albums, artists)
}

} // verus!
