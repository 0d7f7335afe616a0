//! The shapes of Subsonic and Navidrome answers that the library reads, as
//! plain values: times are seconds since the Unix epoch, and what the
//! library does not read of an answer (gains, images) is left out.

use vstd::prelude::*;

use crate::subsonic::NavidromeGenre;

verus! {

/// A directory entry: a song, or an album in album lists.
pub struct Child {
    pub id: String,
    pub parent: Option<String>,
    pub is_dir: Option<bool>,
    pub title: Option<String>,
    pub name: Option<String>,
    pub album: Option<String>,
    pub artist: Option<String>,
    pub track: Option<i32>,
    pub disc_number: Option<i32>,
    pub year: Option<i32>,
    pub genre: Option<String>,
    pub cover_art: Option<String>,
    pub size: Option<i64>,
    pub content_type: Option<String>,
    pub suffix: Option<String>,
    pub duration: Option<i32>,
    pub bit_rate: Option<i32>,
    pub path: Option<String>,
    pub user_rating: Option<u8>,
    pub starred: Option<String>,
    pub album_id: Option<String>,
    pub artist_id: Option<String>,
    pub play_count: Option<i64>,
    /// When the entry was added.
    pub created: i64,
    pub bpm: Option<u32>,
    pub comment: Option<String>,
    pub sort_name: Option<String>,
    pub media_type: Option<String>,
    pub music_brainz_id: Option<String>,
    pub channel_count: Option<u32>,
    pub is_compilation: Option<bool>,
    pub release_types: Option<Vec<String>>,
}

/// An artist.
pub struct Artist {
    pub id: String,
    pub name: String,
    pub cover_art: Option<String>,
    pub album_count: Option<i32>,
    pub starred: Option<String>,
    pub music_brainz_id: Option<String>,
    pub last_fm_url: Option<String>,
    pub album: Vec<Child>,
}

/// A playlist without its entries.
pub struct Playlist {
    pub id: String,
    pub name: String,
    pub comment: Option<String>,
    pub owner: Option<String>,
    pub public: Option<bool>,
    pub song_count: Option<i32>,
    pub duration: Option<i32>,
    pub created: i64,
    pub changed: i64,
    pub cover_art: Option<String>,
}

/// An artist as Navidrome's own API lists it.
pub struct NavidromeArtist {
    pub id: String,
    pub name: String,
    pub album_count: Option<i32>,
    pub song_count: Option<i32>,
    pub genres: Option<Vec<NavidromeGenre>>,
    pub full_text: Option<String>,
    pub order_artist_name: Option<String>,
    pub size: Option<i64>,
    pub mbz_artist_id: Option<String>,
    pub external_url: Option<String>,
    pub play_count: Option<i64>,
    pub starred: Option<bool>,
    pub starred_at: Option<i64>,
    pub rating: Option<u8>,
    pub play_date: Option<i64>,
}

/// An album as Navidrome's own API lists it. Its length is given in whole
/// seconds, and of its tags only the "releasetype" entry is kept.
pub struct NavidromeAlbum {
    pub id: String,
    pub name: String,
    pub artist_id: Option<String>,
    pub artist: Option<String>,
    pub album_artist_id: Option<String>,
    pub album_artist: Option<String>,
    pub all_artist_ids: Option<String>,
    pub song_count: Option<i32>,
    pub duration_secs: Option<u32>,
    pub size: Option<i64>,
    pub play_count: Option<i64>,
    pub starred: Option<bool>,
    pub starred_at: Option<i64>,
    pub min_year: Option<i32>,
    pub max_year: Option<i32>,
    pub date: Option<String>,
    pub genre: Option<String>,
    pub genres: Option<Vec<NavidromeGenre>>,
    pub releases: Option<i32>,
    pub compilation: Option<bool>,
    pub embed_art_path: Option<String>,
    pub rating: Option<u8>,
    pub play_date: Option<i64>,
    pub full_text: Option<String>,
    pub order_album_name: Option<String>,
    pub order_album_artist_name: Option<String>,
    pub type_: Option<String>,
    pub release_type_tags: Option<Vec<String>>,
}

} // verus!
