//! How Subsonic and Navidrome answers become library models, and how the
//! releases of an artist are told apart from those it only appears on.

use vstd::prelude::*;

use crate::models::{Album, AlbumId, Artist, ArtistId, CoverArtId, Playlist, PlaylistId, ReleaseSubtype};
use crate::subsonic::{
    navidrome_release_subtype, navidrome_release_subtype_of, navidrome_release_type, navidrome_release_type_of,
    release_subtype_of, release_type_of, subsonic_release_type,
};
use crate::subsonic_dto::{Child, NavidromeAlbum};
use crate::subsonic_dto;
use crate::text::str_eq;

verus! {

/// The text of an optional string, or the empty text.
pub open spec fn text_or_empty(o: Option<String>) -> Seq<char> {
    match o {
        Some(s) => s@,
        None => Seq::empty(),
    }
}

/// An optional artist reference.
pub open spec fn artist_ref(o: Option<String>) -> Option<ArtistId> {
    match o {
        Some(s) => Some(ArtistId(s)),
        None => None,
    }
}

/// An optional cover reference.
pub open spec fn cover_ref(o: Option<String>) -> Option<CoverArtId> {
    match o {
        Some(s) => Some(CoverArtId(s)),
        None => None,
    }
}

/// An optional count cast to 32 unsigned bits (negative values wrap).
pub open spec fn as_u32(o: Option<i32>) -> Option<u32> {
    match o {
        Some(v) => Some(v as u32),
        None => None,
    }
}

/// An optional count cast to 64 unsigned bits (negative values wrap).
pub open spec fn as_u64(o: Option<i64>) -> Option<u64> {
    match o {
        Some(v) => Some(v as u64),
        None => None,
    }
}

/// A starred date, read as a starred flag.
pub open spec fn flag_of(o: Option<String>) -> Option<bool> {
    match o {
        Some(_) => Some(true),
        None => None,
    }
}

fn or_empty(o: Option<String>) -> (r: String)
    ensures
        r@ == text_or_empty(o),
        o is Some ==> r == o->0,
{
    match o {
        Some(s) => s,
        None => String::new(),
    }
}

fn artist_ref_of(o: Option<String>) -> (r: Option<ArtistId>)
    ensures
        r == artist_ref(o),
{
    match o {
        Some(s) => Some(ArtistId(s)),
        None => None,
    }
}

fn cover_ref_of(o: Option<String>) -> (r: Option<CoverArtId>)
    ensures
        r == cover_ref(o),
{
    match o {
        Some(s) => Some(CoverArtId(s)),
        None => None,
    }
}

fn as_u32_of(o: Option<i32>) -> (r: Option<u32>)
    ensures
        r == as_u32(o),
{
    match o {
        Some(v) => Some(v as u32),
        None => None,
    }
}

fn as_u64_of(o: Option<i64>) -> (r: Option<u64>)
    ensures
        r == as_u64(o),
{
    match o {
        Some(v) => Some(v as u64),
        None => None,
    }
}

fn flag_from(o: &Option<String>) -> (r: Option<bool>)
    ensures
        r == flag_of(*o),
{
    match o {
        Some(_) => Some(true),
        None => None,
    }
}

/// `a` is the album that the Subsonic album entry `c` describes.
pub open spec fn album_from_child(a: Album, c: Child) -> bool {
    &&& a.id == AlbumId(c.id)
    &&& a.title@ == text_or_empty(c.name)
    &&& a.artist@ == text_or_empty(c.artist)
    &&& a.artist_id == artist_ref(c.artist_id)
    &&& a.year == as_u32(c.year)
    &&& a.cover_art == cover_ref(c.cover_art)
    &&& a.duration_secs == as_u32(c.duration)
    &&& a.play_count == as_u64(c.play_count)
    &&& a.created_timestamp == Some(c.created)
    &&& a.starred_timestamp is None
    &&& a.song_count is None
    &&& a.starred == flag_of(c.starred)
    &&& a.user_rating == c.user_rating
    &&& a.release_type == subsonic_release_type(c.release_types)
    &&& a.release_subtype == (if c.is_compilation == Some(true) {
        ReleaseSubtype::Compilation
    } else {
        ReleaseSubtype::Studio
    })
    &&& a.musicbrainz_id is None
    &&& a.lastfm_url is None
    &&& a.genre == c.genre
}

/// The release tags of a Navidrome album, as text.
pub open spec fn tags_view(tags: Option<Vec<String>>) -> Option<Seq<String>> {
    match tags {
        Some(t) => Some(t@),
        None => None,
    }
}

/// `a` is the album that the Navidrome album `n` describes; its cover is
/// served under the album's own id.
pub open spec fn album_from_navidrome(a: Album, n: NavidromeAlbum) -> bool {
    &&& a.id == AlbumId(n.id)
    &&& a.title == n.name
    &&& a.artist@ == text_or_empty(n.artist)
    &&& a.artist_id == artist_ref(n.artist_id)
    &&& a.year == as_u32(n.min_year)
    &&& a.cover_art == Some(CoverArtId(n.id))
    &&& a.duration_secs == n.duration_secs
    &&& a.play_count == as_u64(n.play_count)
    &&& a.created_timestamp is None
    &&& a.starred_timestamp == n.starred_at
    &&& a.song_count == as_u32(n.song_count)
    &&& a.starred == n.starred
    &&& a.user_rating == n.rating
    &&& a.release_type == navidrome_release_type(tags_view(n.release_type_tags), n.type_)
    &&& a.release_subtype == navidrome_release_subtype(tags_view(n.release_type_tags), n.compilation)
    &&& a.musicbrainz_id is None
    &&& a.lastfm_url is None
    &&& a.genre == n.genre
}

impl Album {
    /// The album that a Subsonic album entry describes.
    pub fn from_subsonic(c: Child) -> (r: Album)
        ensures
            album_from_child(r, c),
    {
        let release_type = release_type_of(&c.release_types);
        let release_subtype = release_subtype_of(c.is_compilation);
        let starred = flag_from(&c.starred);
        Album {
            id: AlbumId(c.id),
            title: or_empty(c.name),
            artist: or_empty(c.artist),
            artist_id: artist_ref_of(c.artist_id),
            year: as_u32_of(c.year),
            cover_art: cover_ref_of(c.cover_art),
            duration_secs: as_u32_of(c.duration),
            play_count: as_u64_of(c.play_count),
            created_timestamp: Some(c.created),
            starred_timestamp: None,
            song_count: None,
            starred,
            user_rating: c.user_rating,
            release_type,
            release_subtype,
            musicbrainz_id: None,
            lastfm_url: None,
            genre: c.genre,
        }
    }

    /// The album that a Navidrome album describes.
    pub fn from_navidrome(n: NavidromeAlbum) -> (r: Album)
        ensures
            album_from_navidrome(r, n),
    {
        let release_type = navidrome_release_type_of(n.release_type_tags.as_ref(), &n.type_);
        let release_subtype = navidrome_release_subtype_of(n.release_type_tags.as_ref(), n.compilation);
        let cover = CoverArtId(n.id.clone());
        Album {
            id: AlbumId(n.id),
            title: n.name,
            artist: or_empty(n.artist),
            artist_id: artist_ref_of(n.artist_id),
            year: as_u32_of(n.min_year),
            cover_art: Some(cover),
            duration_secs: n.duration_secs,
            play_count: as_u64_of(n.play_count),
            created_timestamp: None,
            starred_timestamp: n.starred_at,
            song_count: as_u32_of(n.song_count),
            starred: n.starred,
            user_rating: n.rating,
            release_type,
            release_subtype,
            musicbrainz_id: None,
            lastfm_url: None,
            genre: n.genre,
        }
    }
}

impl Artist {
    /// The artist that a Subsonic artist entry describes.
    pub fn from_subsonic(a: subsonic_dto::Artist) -> (r: Artist)
        ensures
            r.id == ArtistId(a.id),
            r.name == a.name,
            r.cover_art == cover_ref(a.cover_art),
            r.artist_image_url is None,
            r.starred == flag_of(a.starred),
            r.musicbrainz_id == a.music_brainz_id,
            r.lastfm_url == a.last_fm_url,
    {
        let starred = flag_from(&a.starred);
        Artist {
            id: ArtistId(a.id),
            name: a.name,
            cover_art: cover_ref_of(a.cover_art),
            artist_image_url: None,
            starred,
            musicbrainz_id: a.music_brainz_id,
            lastfm_url: a.last_fm_url,
        }
    }
}

/// A count that may be missing, as 32 unsigned bits (0 when missing).
pub open spec fn count_or_zero(o: Option<i32>) -> u32 {
    match o {
        Some(v) => v as u32,
        None => 0,
    }
}

fn count_or_zero_of(o: Option<i32>) -> (r: u32)
    ensures
        r == count_or_zero(o),
{
    match o {
        Some(v) => v as u32,
        None => 0,
    }
}

impl Playlist {
    /// The playlist that a Subsonic playlist entry describes.
    pub fn from_subsonic(pl: subsonic_dto::Playlist) -> (r: Playlist)
        ensures
            r.id == PlaylistId(pl.id),
            r.name == pl.name,
            r.song_count == count_or_zero(pl.song_count),
            r.duration_secs == count_or_zero(pl.duration),
            r.cover_art == cover_ref(pl.cover_art),
            r.owner == pl.owner,
            r.public == pl.public,
            r.created_timestamp == pl.created,
            r.changed_timestamp == pl.changed,
            r.comment == pl.comment,
    {
        Playlist {
            id: PlaylistId(pl.id),
            name: pl.name,
            song_count: count_or_zero_of(pl.song_count),
            duration_secs: count_or_zero_of(pl.duration),
            cover_art: cover_ref_of(pl.cover_art),
            owner: pl.owner,
            public: pl.public,
            created_timestamp: pl.created,
            changed_timestamp: pl.changed,
            comment: pl.comment,
        }
    }
}

/// The Subsonic album entry `c` is credited to the artist `id`.
pub open spec fn credited_to(c: Child, id: Seq<char>) -> bool {
    match c.artist_id {
        Some(a) => a@ == id,
        None => false,
    }
}

/// The entries of `s` credited to the artist `id`, in order.
pub open spec fn credited_children(s: Seq<Child>, id: Seq<char>) -> Seq<Child>
    decreases s.len(),
{
    if s.len() == 0 {
        Seq::empty()
    } else if credited_to(s.last(), id) {
        credited_children(s.drop_last(), id).push(s.last())
    } else {
        credited_children(s.drop_last(), id)
    }
}

/// The entries of `s` not credited to the artist `id`, in order.
pub open spec fn uncredited_children(s: Seq<Child>, id: Seq<char>) -> Seq<Child>
    decreases s.len(),
{
    if s.len() == 0 {
        Seq::empty()
    } else if credited_to(s.last(), id) {
        uncredited_children(s.drop_last(), id)
    } else {
        uncredited_children(s.drop_last(), id).push(s.last())
    }
}

/// `albums` are the albums that the entries `children` describe, one for one.
pub open spec fn albums_from_children(albums: Seq<Album>, children: Seq<Child>) -> bool {
    &&& albums.len() == children.len()
    &&& forall|k: int| 0 <= k < albums.len() ==> album_from_child(#[trigger] albums[k], children[k])
}

fn is_credited(c: &Child, artist_id: &str) -> (r: bool)
    ensures
        r == credited_to(*c, artist_id@),
{
    match &c.artist_id {
        Some(a) => str_eq(a.as_str(), artist_id),
        None => false,
    }
}

/// The albums of a Subsonic artist entry, split into the artist's own
/// releases and those it only appears on. The server lists the oldest
/// first; both parts come newest first.
pub fn split_subsonic_releases(artist_id: &str, albums: Vec<Child>) -> (r: (Vec<Album>, Vec<Album>))
    ensures
        albums_from_children(r.0@, credited_children(albums@.reverse(), artist_id@)),
        albums_from_children(r.1@, uncredited_children(albums@.reverse(), artist_id@)),
{
    let ghost orig = albums@;
    let ghost n = orig.len();
    let ghost id = artist_id@;
    let mut rest = albums;
    let mut own: Vec<Album> = Vec::new();
    let mut others: Vec<Album> = Vec::new();
    while rest.len() > 0
        invariant
            rest.len() <= n,
            rest@ == orig.subrange(0, rest.len() as int),
            id == artist_id@,
            n == orig.len(),
            albums_from_children(own@, credited_children(orig.reverse().take(n - rest.len()), id)),
            albums_from_children(others@, uncredited_children(orig.reverse().take(n - rest.len()), id)),
        decreases rest.len(),
    {
        let ghost before = orig.reverse().take(n - rest.len());
        let ghost after = orig.reverse().take(n - rest.len() + 1);
        let c = rest.pop().unwrap();
        proof {
            assert(after.drop_last() =~= before);
            assert(after.last() == c);
        }
        if is_credited(&c, artist_id) {
            own.push(Album::from_subsonic(c));
        } else {
            others.push(Album::from_subsonic(c));
        }
    }
    proof {
        assert(orig.reverse().take(n as int) =~= orig.reverse());
    }
    (own, others)
}

/// The Navidrome album `a` is credited to the artist `id`, as its artist or
/// as its album artist.
pub open spec fn navidrome_credited_to(a: NavidromeAlbum, id: Seq<char>) -> bool {
    ||| (match a.artist_id {
        Some(x) => x@ == id,
        None => false,
    })
    ||| (match a.album_artist_id {
        Some(x) => x@ == id,
        None => false,
    })
}

/// The albums of `s` credited (when `credited`) or not credited to the
/// artist `id`, in order.
pub open spec fn navidrome_part(s: Seq<NavidromeAlbum>, id: Seq<char>, credited: bool) -> Seq<NavidromeAlbum>
    decreases s.len(),
{
    if s.len() == 0 {
        Seq::empty()
    } else if navidrome_credited_to(s.last(), id) == credited {
        navidrome_part(s.drop_last(), id, credited).push(s.last())
    } else {
        navidrome_part(s.drop_last(), id, credited)
    }
}

/// `albums` are the albums that the Navidrome albums `listed` describe.
pub open spec fn albums_from_navidrome(albums: Seq<Album>, listed: Seq<NavidromeAlbum>) -> bool {
    &&& albums.len() == listed.len()
    &&& forall|k: int| 0 <= k < albums.len() ==> album_from_navidrome(#[trigger] albums[k], listed[k])
}

fn text_is(o: &Option<String>, id: &str) -> (r: bool)
    ensures
        r == match *o {
            Some(x) => x@ == id@,
            None => false,
        },
{
    match o {
        Some(x) => str_eq(x.as_str(), id),
        None => false,
    }
}

/// The albums Navidrome lists for an artist, split into the artist's own
/// releases and those it only appears on, each in the order listed.
pub fn split_navidrome_releases(artist_id: &str, albums: Vec<NavidromeAlbum>) -> (r: (Vec<Album>, Vec<Album>))
    ensures
        albums_from_navidrome(r.0@, navidrome_part(albums@, artist_id@, true)),
        albums_from_navidrome(r.1@, navidrome_part(albums@, artist_id@, false)),
{
    let ghost orig = albums@;
    let ghost id = artist_id@;
    let mut rest = albums;
    let mut own: Vec<Album> = Vec::new();
    let mut others: Vec<Album> = Vec::new();
    while rest.len() > 0
        invariant
            rest.len() <= orig.len(),
            rest@ == orig.subrange(orig.len() - rest.len(), orig.len() as int),
            id == artist_id@,
            albums_from_navidrome(own@, navidrome_part(orig.take(orig.len() - rest.len()), id, true)),
            albums_from_navidrome(others@, navidrome_part(orig.take(orig.len() - rest.len()), id, false)),
        decreases rest.len(),
    {
        let ghost done = orig.len() - rest.len();
        let a = rest.remove(0);
        proof {
            assert(orig.take(done + 1).drop_last() =~= orig.take(done));
            assert(orig.take(done + 1).last() == a);
            assert(rest@ =~= orig.subrange(orig.len() - rest.len(), orig.len() as int));
        }
        let credited = text_is(&a.artist_id, artist_id) || text_is(&a.album_artist_id, artist_id);
        if credited {
            own.push(Album::from_navidrome(a));
        } else {
            others.push(Album::from_navidrome(a));
        }
    }
    proof {
        assert(orig.take(orig.len() as int) =~= orig);
    }
    (own, others)
}

/// The sum of the track numbers of the entries of `s`, each cast to 32
/// unsigned bits, 0 where missing.
pub open spec fn track_sum(s: Seq<Child>) -> nat
    decreases s.len(),
{
    if s.len() == 0 {
        0
    } else {
        track_sum(s.drop_last()) + count_or_zero(s.last().track) as nat
    }
}

/// The song count that a Subsonic artist entry gives: the sum over its
/// album entries; `None` where that sum does not fit in 32 bits.
pub fn checked_track_total(albums: &Vec<Child>) -> (r: Option<u32>)
    ensures
        r == if track_sum(albums@) <= u32::MAX { Some(track_sum(albums@) as u32) } else { None::<u32> },
{
    let mut total: u32 = 0;
    let mut i: usize = 0;
    while i < albums.len()
        invariant
            i <= albums.len(),
            total == track_sum(albums@.take(i as int)),
        decreases albums.len() - i,
    {
        proof {
            assert(albums@.take(i + 1).drop_last() =~= albums@.take(i as int));
        }
        let add = count_or_zero_of(albums[i].track);
        match total.checked_add(add) {
            Some(t) => total = t,
            None => {
                proof {
                    lemma_track_sum_prefix(albums@, i + 1);
                }
                return None;
            },
        }
        i = i + 1;
    }
    proof {
        assert(albums@.take(i as int) =~= albums@);
    }
    Some(total)
}

proof fn lemma_track_sum_prefix(s: Seq<Child>, k: int)
    requires
        0 <= k <= s.len(),
    ensures
        track_sum(s.take(k)) <= track_sum(s),
    decreases s.len() - k,
{
    if k < s.len() {
        lemma_track_sum_prefix(s, k + 1);
        assert(s.take(k + 1).drop_last() =~= s.take(k));
    } else {
        assert(s.take(k) =~= s);
    }
}

/// The sum of the song counts of `albums`, 0 where missing.
pub open spec fn song_sum(albums: Seq<Album>) -> nat
    decreases albums.len(),
{
    if albums.len() == 0 {
        0
    } else {
        song_sum(albums.drop_last()) + match albums.last().song_count {
            Some(c) => c as nat,
            None => 0,
        }
    }
}

proof fn lemma_song_sum_prefix(s: Seq<Album>, k: int)
    requires
        0 <= k <= s.len(),
    ensures
        song_sum(s.take(k)) <= song_sum(s),
    decreases s.len() - k,
{
    if k < s.len() {
        lemma_song_sum_prefix(s, k + 1);
        assert(s.take(k + 1).drop_last() =~= s.take(k));
    } else {
        assert(s.take(k) =~= s);
    }
}

/// The number of songs on `albums`; `None` where the sum does not fit in
/// 32 bits.
pub fn checked_song_total(albums: &Vec<Album>) -> (r: Option<u32>)
    ensures
        r == if song_sum(albums@) <= u32::MAX { Some(song_sum(albums@) as u32) } else { None::<u32> },
{
    let mut total: u32 = 0;
    let mut i: usize = 0;
    while i < albums.len()
        invariant
            i <= albums.len(),
            total == song_sum(albums@.take(i as int)),
        decreases albums.len() - i,
    {
        proof {
            assert(albums@.take(i + 1).drop_last() =~= albums@.take(i as int));
        }
        let add: u32 = match albums[i].song_count {
            Some(c) => c,
            None => 0,
        };
        match total.checked_add(add) {
            Some(t) => total = t,
            None => {
                proof {
                    lemma_song_sum_prefix(albums@, i + 1);
                }
                return None;
            },
        }
        i = i + 1;
    }
    proof {
        assert(albums@.take(i as int) =~= albums@);
    }
    Some(total)
}

/// Splitting an artist's Subsonic albums loses none and doubles none: each
/// entry lands in exactly one of the two parts.
pub proof fn law_subsonic_split_keeps_every_album(s: Seq<Child>, id: Seq<char>)
    ensures
        credited_children(s, id).len() + uncredited_children(s, id).len() == s.len(),
    decreases s.len(),
{
    if s.len() > 0 {
        law_subsonic_split_keeps_every_album(s.drop_last(), id);
    }
}

/// Splitting an artist's Navidrome albums loses none and doubles none: each
/// album lands in exactly one of the two parts.
pub proof fn law_navidrome_split_keeps_every_album(s: Seq<NavidromeAlbum>, id: Seq<char>)
    ensures
        navidrome_part(s, id, true).len() + navidrome_part(s, id, false).len() == s.len(),
    decreases s.len(),
{
    if s.len() > 0 {
        law_navidrome_split_keeps_every_album(s.drop_last(), id);
    }
}

} // verus!
