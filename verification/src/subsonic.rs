//! Subsonic and Navidrome: which server a name selects, the parameters of
//! REST requests, how answers are judged, and how release kinds are read.

use vstd::prelude::*;
use vstd::string::*;

use crate::error::MusicbirbError;
use crate::models::{CoverArtId, PlaylistId, ReleaseSubtype, ReleaseType, SearchPreset, SearchQuery, TrackId, TrackScrobble};
use crate::text::{join_str, decimal, decimal_text, signed_decimal, signed_decimal_text, str_eq, trim_trailing_slashes, without_trailing_slashes};

verus! {

/// The flavour of a Subsonic compatible server.
#[derive(Clone, Copy, Debug, PartialEq, Eq, Structural)]
pub enum ServerType {
    Subsonic,
    /// Navidrome also offers its own richer API.
    Navidrome,
}

/// An error reported inside a Subsonic answer.
pub struct SubsonicError {
    pub code: i32,
    pub message: String,
}

/// The body of a Navidrome sign-in request.
pub struct NavidromeLoginRequest<'a> {
    pub username: &'a str,
    pub password: &'a str,
}

/// The answer to a Navidrome sign-in request.
pub struct NavidromeLoginResponse {
    pub id: String,
    pub token: String,
    pub username: String,
    pub is_admin: Option<bool>,
    pub last_fm_api_key: Option<String>,
    pub subsonic_salt: Option<String>,
    pub subsonic_token: Option<String>,
}

/// A genre as Navidrome lists it.
pub struct NavidromeGenre {
    pub id: String,
    pub name: String,
}

/// Request parameters as plain text pairs.
pub open spec fn params_view(v: Seq<(String, String)>) -> Seq<(Seq<char>, Seq<char>)> {
    v.map_values(|p: (String, String)| (p.0@, p.1@))
}

/// The lower-case form of `text`, as `str::to_lowercase` computes it.
pub uninterp spec fn lowercase_text(text: Seq<char>) -> Seq<char>;

/// The lower-case form of `text`.
///
/// Calls `str::to_lowercase`. Trusted: the result is `lowercase_text` of the
/// argument (Unicode's lower-case mapping, which is not written out here).
#[verifier::external_body]
fn to_lowercase(text: &str) -> (r: String)
    ensures
        r@ == lowercase_text(text@),
{
    text.to_lowercase()
}

/// The MD5 digest of the UTF-8 bytes of `text`, written as 32 lower-case
/// hexadecimal digits.
pub uninterp spec fn md5_hex_text(text: Seq<char>) -> Seq<char>;

/// The MD5 digest of `text` in lower-case hexadecimal.
///
/// Calls `md5::compute` and formats the digest with `{:x}`. Trusted: the
/// result is `md5_hex_text` of the argument, and is 32 characters long (16
/// bytes, two digits each).
#[verifier::external_body]
fn md5_hex(text: &str) -> (r: String)
    ensures
        r@ == md5_hex_text(text@),
        r@.len() == 32,
{
    format!("{:x}", md5::compute(text))
}

/// The server flavour that a provider name selects: Navidrome for
/// "navidrome" in any letter case, Subsonic otherwise.
pub fn server_type_for(name: &str) -> (r: ServerType)
    ensures
        r == if lowercase_text(name@) == "navidrome"@ {
            ServerType::Navidrome
        } else {
            ServerType::Subsonic
        },
{
    let lower = to_lowercase(name);
    if str_eq(lower.as_str(), "navidrome") {
        ServerType::Navidrome
    } else {
        ServerType::Subsonic
    }
}

/// The parameters that sign every REST request: the user, the token (the
/// MD5 digest of the password followed by the salt), the salt, the API
/// version, the client name and the answer format.
pub open spec fn auth_params_text(username: Seq<char>, password: Seq<char>) -> Seq<(Seq<char>, Seq<char>)> {
    seq![
        ("u"@, username),
        ("t"@, md5_hex_text(password + "musicbirb_salt"@)),
        ("s"@, "musicbirb_salt"@),
        ("v"@, "1.16.1"@),
        ("c"@, "Musicbirb"@),
        ("f"@, "json"@),
    ]
}

fn pair(key: &str, value: &str) -> (r: (String, String))
    ensures
        r.0@ == key@,
        r.1@ == value@,
{
    (key.to_owned(), value.to_owned())
}

/// The parameters that sign every REST request.
pub fn rest_auth_params(username: &str, password: &str) -> (r: Vec<(String, String)>)
    ensures
        params_view(r@) == auth_params_text(username@, password@),
{
    let salted = join_str(password, "musicbirb_salt");
    let token = md5_hex(salted.as_str());
    let mut r: Vec<(String, String)> = Vec::new();
    r.push(pair("u", username));
    r.push(pair("t", token.as_str()));
    r.push(pair("s", "musicbirb_salt"));
    r.push(pair("v", "1.16.1"));
    r.push(pair("c", "Musicbirb"));
    r.push(pair("f", "json"));
    proof {
        assert(params_view(r@) =~= auth_params_text(username@, password@));
    }
    r
}

/// The address of the REST `endpoint` of the server at `base_url`.
pub fn rest_endpoint_url(base_url: &str, endpoint: &str) -> (r: String)
    ensures
        r@ == without_trailing_slashes(base_url@) + "/rest/"@ + endpoint@,
{
    let a = join_str(trim_trailing_slashes(base_url), "/rest/");
    join_str(a.as_str(), endpoint)
}

/// The address of Navidrome's own API `endpoint`.
pub fn navidrome_api_url(base_url: &str, endpoint: &str) -> (r: String)
    ensures
        r@ == without_trailing_slashes(base_url@) + "/api/"@ + endpoint@,
{
    let a = join_str(trim_trailing_slashes(base_url), "/api/");
    join_str(a.as_str(), endpoint)
}

/// The address of Navidrome's sign-in.
pub fn navidrome_login_url(base_url: &str) -> (r: String)
    ensures
        r@ == without_trailing_slashes(base_url@) + "/auth/login"@,
{
    join_str(trim_trailing_slashes(base_url), "/auth/login")
}

/// Judges the status of a REST answer: "failed" is an API error carrying
/// the server's message (empty when it gave none); anything else passes.
pub fn check_status(status: &str, error: Option<SubsonicError>) -> (r: Result<(), MusicbirbError>)
    ensures
        status@ == "failed"@ ==> (r matches Err(e) && e matches MusicbirbError::Api(m) && m@
            == "Subsonic API error: "@ + match error {
            Some(err) => err.message@,
            None => Seq::empty(),
        }),
        status@ != "failed"@ ==> r is Ok,
{
    if str_eq(status, "failed") {
        let msg = match error {
            Some(e) => e.message,
            None => String::new(),
        };
        let text = join_str("Subsonic API error: ", msg.as_str());
        proof {
            assert(text@ =~= "Subsonic API error: "@ + match error {
                Some(err) => err.message@,
                None => Seq::empty(),
            });
        }
        Err(MusicbirbError::Api(text))
    } else {
        Ok(())
    }
}

/// The list type that the server calls a preset.
pub open spec fn preset_word(preset: SearchPreset) -> Seq<char> {
    match preset {
        SearchPreset::LastPlayedAlbums => "recent"@,
        SearchPreset::RecentlyAddedAlbums => "newest"@,
        SearchPreset::NewlyReleasedAlbums => "byYear"@,
    }
}

/// The parameters of an album list request for `preset`: its list type,
/// the page size (20 by default) and offset (0 by default), and for new
/// releases the years from 2999 down to 0.
pub open spec fn album_list_params_text(preset: SearchPreset, limit: Option<i32>, offset: Option<i32>) -> Seq<
    (Seq<char>, Seq<char>),
> {
    seq![
        ("type"@, preset_word(preset)),
        ("size"@, match limit {
            Some(l) => signed_decimal_text(l as int),
            None => "20"@,
        }),
        ("offset"@, match offset {
            Some(o) => signed_decimal_text(o as int),
            None => "0"@,
        }),
    ] + if preset == SearchPreset::NewlyReleasedAlbums {
        seq![("fromYear"@, "2999"@), ("toYear"@, "0"@)]
    } else {
        Seq::empty()
    }
}

/// The parameters of an album list request for `preset`.
pub fn album_list_params(preset: SearchPreset, limit: Option<i32>, offset: Option<i32>) -> (r: Vec<
    (String, String),
>)
    ensures
        params_view(r@) == album_list_params_text(preset, limit, offset),
{
    let word = match preset {
        SearchPreset::LastPlayedAlbums => "recent",
        SearchPreset::RecentlyAddedAlbums => "newest",
        SearchPreset::NewlyReleasedAlbums => "byYear",
    };
    let size = match limit {
        Some(l) => signed_decimal(l as i64),
        None => "20".to_owned(),
    };
    let skip = match offset {
        Some(o) => signed_decimal(o as i64),
        None => "0".to_owned(),
    };
    let mut r: Vec<(String, String)> = Vec::new();
    r.push(pair("type", word));
    r.push(("size".to_owned(), size));
    r.push(("offset".to_owned(), skip));
    if preset == SearchPreset::NewlyReleasedAlbums {
        r.push(pair("fromYear", "2999"));
        r.push(pair("toYear", "0"));
    }
    proof {
        assert(params_view(r@) =~= album_list_params_text(preset, limit, offset));
    }
    r
}

/// The parameters of a keyword search: the keyword, then for artists,
/// albums and songs alike the count `per_kind` and the offset (0 by
/// default).
pub open spec fn search_params_text(keyword: Seq<char>, per_kind: i32, offset: Option<i32>) -> Seq<
    (Seq<char>, Seq<char>),
> {
    let count = signed_decimal_text(per_kind as int);
    let skip = match offset {
        Some(o) => signed_decimal_text(o as int),
        None => "0"@,
    };
    seq![
        ("query"@, keyword),
        ("artistCount"@, count),
        ("artistOffset"@, skip),
        ("albumCount"@, count),
        ("albumOffset"@, skip),
        ("songCount"@, count),
        ("songOffset"@, skip),
    ]
}

/// The request that a search needs.
pub enum SearchRequest {
    /// `getAlbumList2` with these parameters.
    AlbumList(Vec<(String, String)>),
    /// `search3` with these parameters.
    Keyword(Vec<(String, String)>),
    /// Nothing to ask: the answer is empty.
    Nothing,
}

/// The request for `query`: its preset's album list when it has one, else a
/// keyword search with `per_kind` results of each kind, else nothing (no
/// keyword, or an empty one).
pub fn plan_search(query: &SearchQuery, per_kind: i32) -> (r: SearchRequest)
    ensures
        match query.preset {
            Some(p) => r matches SearchRequest::AlbumList(v) && params_view(v@) == album_list_params_text(
                p,
                query.limit,
                query.offset,
            ),
            None => match query.keyword {
                Some(k) => if k@.len() == 0 {
                    r is Nothing
                } else {
                    r matches SearchRequest::Keyword(v) && params_view(v@) == search_params_text(
                        k@,
                        per_kind,
                        query.offset,
                    )
                },
                None => r is Nothing,
            },
        },
{
    if let Some(p) = query.preset {
        return SearchRequest::AlbumList(album_list_params(p, query.limit, query.offset));
    }
    match &query.keyword {
        Some(k) => {
            if k.as_str().unicode_len() == 0 {
                SearchRequest::Nothing
            } else {
                let count = signed_decimal(per_kind as i64);
                let skip = match query.offset {
                    Some(o) => signed_decimal(o as i64),
                    None => "0".to_owned(),
                };
                let mut r: Vec<(String, String)> = Vec::new();
                r.push(pair("query", k.as_str()));
                r.push(pair("artistCount", count.as_str()));
                r.push(pair("artistOffset", skip.as_str()));
                r.push(pair("albumCount", count.as_str()));
                r.push(pair("albumOffset", skip.as_str()));
                r.push(pair("songCount", count.as_str()));
                r.push(pair("songOffset", skip.as_str()));
                proof {
                    assert(params_view(r@) =~= search_params_text(k@, per_kind, query.offset));
                }
                SearchRequest::Keyword(r)
            }
        },
        None => SearchRequest::Nothing,
    }
}

/// The parameters asking for a cover image, at most `size` pixels wide
/// when given.
pub fn cover_art_params(cover_id: &CoverArtId, size: Option<u32>) -> (r: Vec<(String, String)>)
    ensures
        params_view(r@) == seq![("id"@, cover_id.0@)] + match size {
            Some(s) => seq![("size"@, decimal_text(s as nat))],
            None => Seq::empty(),
        },
{
    let mut r: Vec<(String, String)> = Vec::new();
    r.push(pair("id", cover_id.0.as_str()));
    if let Some(s) = size {
        let digits = decimal(s as u64);
        r.push(pair("size", digits.as_str()));
    }
    proof {
        assert(params_view(r@) =~= seq![("id"@, cover_id.0@)] + match size {
            Some(s) => seq![("size"@, decimal_text(s as nat))],
            None => Seq::empty(),
        });
    }
    r
}

/// The parameters announcing that `track_id` started playing.
pub fn now_playing_params(track_id: &TrackId) -> (r: Vec<(String, String)>)
    ensures
        params_view(r@) == seq![("id"@, track_id.0@), ("submission"@, "false"@)],
{
    let mut r: Vec<(String, String)> = Vec::new();
    r.push(pair("id", track_id.0.as_str()));
    r.push(pair("submission", "false"));
    proof {
        assert(params_view(r@) =~= seq![("id"@, track_id.0@), ("submission"@, "false"@)]);
    }
    r
}

/// The parameters submitting `tracks` as finished listens: each track with
/// the time it started, in order.
pub open spec fn scrobble_params_text(tracks: Seq<TrackScrobble>) -> Seq<(Seq<char>, Seq<char>)>
    decreases tracks.len(),
{
    if tracks.len() == 0 {
        seq![("submission"@, "true"@)]
    } else {
        let t = tracks.last();
        scrobble_params_text(tracks.drop_last()) + seq![
            ("id"@, t.id.0@),
            ("time"@, decimal_text(t.timestamp as nat)),
        ]
    }
}

/// The parameters submitting `tracks` as finished listens.
pub fn scrobble_params(tracks: &Vec<TrackScrobble>) -> (r: Vec<(String, String)>)
    ensures
        params_view(r@) == scrobble_params_text(tracks@),
{
    let mut r: Vec<(String, String)> = Vec::new();
    r.push(pair("submission", "true"));
    let mut i: usize = 0;
    proof {
        assert(params_view(r@) =~= scrobble_params_text(tracks@.take(0)));
    }
    while i < tracks.len()
        invariant
            i <= tracks.len(),
            params_view(r@) == scrobble_params_text(tracks@.take(i as int)),
        decreases tracks.len() - i,
    {
        let t = &tracks[i];
        let ghost before = params_view(r@);
        r.push(pair("id", t.id.0.as_str()));
        r.push(("time".to_owned(), decimal(t.timestamp)));
        proof {
            assert(tracks@.take(i as int + 1).drop_last() =~= tracks@.take(i as int));
            assert(params_view(r@) =~= before + seq![
                ("id"@, t.id.0@),
                ("time"@, decimal_text(t.timestamp as nat)),
            ]);
        }
        i = i + 1;
    }
    proof {
        assert(tracks@.take(tracks@.len() as int) =~= tracks@);
    }
    r
}

/// The parameters of a playlist update: the playlist, then the new name,
/// description and visibility when given.
pub open spec fn update_playlist_params_text(
    id: PlaylistId,
    name: Option<String>,
    description: Option<String>,
    public: Option<bool>,
) -> Seq<(Seq<char>, Seq<char>)> {
    seq![("playlistId"@, id.0@)] + match name {
        Some(n) => seq![("name"@, n@)],
        None => Seq::empty(),
    } + match description {
        Some(d) => seq![("comment"@, d@)],
        None => Seq::empty(),
    } + match public {
        Some(p) => seq![("public"@, if p { "true"@ } else { "false"@ })],
        None => Seq::empty(),
    }
}

/// The parameters of a playlist update.
pub fn update_playlist_params(
    id: &PlaylistId,
    name: &Option<String>,
    description: &Option<String>,
    public: Option<bool>,
) -> (r: Vec<(String, String)>)
    ensures
        params_view(r@) == update_playlist_params_text(*id, *name, *description, public),
{
    let mut r: Vec<(String, String)> = Vec::new();
    r.push(pair("playlistId", id.0.as_str()));
    let ghost a = params_view(r@);
    if let Some(n) = name {
        r.push(pair("name", n.as_str()));
    }
    let ghost b = params_view(r@);
    if let Some(d) = description {
        r.push(pair("comment", d.as_str()));
    }
    let ghost c = params_view(r@);
    if let Some(p) = public {
        r.push(pair("public", if p { "true" } else { "false" }));
    }
    proof {
        assert(b =~= a + match *name {
            Some(n) => seq![("name"@, n@)],
            None => Seq::<(Seq<char>, Seq<char>)>::empty(),
        });
        assert(c =~= b + match *description {
            Some(d) => seq![("comment"@, d@)],
            None => Seq::<(Seq<char>, Seq<char>)>::empty(),
        });
        assert(params_view(r@) =~= c + match public {
            Some(p) => seq![("public"@, if p { "true"@ } else { "false"@ })],
            None => Seq::<(Seq<char>, Seq<char>)>::empty(),
        });
    }
    r
}

/// The parameters appending `track_ids` to a playlist, in order.
pub fn add_to_playlist_params(id: &PlaylistId, track_ids: &Vec<TrackId>) -> (r: Vec<(String, String)>)
    ensures
        params_view(r@) == seq![("playlistId"@, id.0@)] + track_ids@.map_values(
            |t: TrackId| ("songIdToAdd"@, t.0@),
        ),
{
    let mut r: Vec<(String, String)> = Vec::new();
    r.push(pair("playlistId", id.0.as_str()));
    let mut i: usize = 0;
    while i < track_ids.len()
        invariant
            i <= track_ids.len(),
            params_view(r@) =~= seq![("playlistId"@, id.0@)] + track_ids@.take(i as int).map_values(
                |t: TrackId| ("songIdToAdd"@, t.0@),
            ),
        decreases track_ids.len() - i,
    {
        let ghost before = r@;
        r.push(pair("songIdToAdd", track_ids[i].0.as_str()));
        proof {
            assert(params_view(r@) =~= params_view(before).push(("songIdToAdd"@, track_ids@[i as int].0@)));
            assert(track_ids@.take(i as int + 1) =~= track_ids@.take(i as int).push(track_ids@[i as int]));
        }
        i = i + 1;
    }
    proof {
        assert(track_ids@.take(track_ids@.len() as int) =~= track_ids@);
    }
    r
}

/// The parameters removing the entries at `indices` from a playlist.
pub fn remove_from_playlist_params(id: &PlaylistId, indices: &Vec<u32>) -> (r: Vec<(String, String)>)
    ensures
        params_view(r@) == seq![("playlistId"@, id.0@)] + indices@.map_values(
            |i: u32| ("songIndexToRemove"@, decimal_text(i as nat)),
        ),
{
    let mut r: Vec<(String, String)> = Vec::new();
    r.push(pair("playlistId", id.0.as_str()));
    let mut k: usize = 0;
    while k < indices.len()
        invariant
            k <= indices.len(),
            params_view(r@) =~= seq![("playlistId"@, id.0@)] + indices@.take(k as int).map_values(
                |i: u32| ("songIndexToRemove"@, decimal_text(i as nat)),
            ),
        decreases indices.len() - k,
    {
        let ghost before = r@;
        r.push(("songIndexToRemove".to_owned(), decimal(indices[k] as u64)));
        proof {
            assert(params_view(r@) =~= params_view(before).push(
                ("songIndexToRemove"@, decimal_text(indices@[k as int] as nat)),
            ));
            assert(indices@.take(k as int + 1) =~= indices@.take(k as int).push(indices@[k as int]));
        }
        k = k + 1;
    }
    proof {
        assert(indices@.take(indices@.len() as int) =~= indices@);
    }
    r
}

/// The entry positions `0..count` of a playlist, to remove them all before
/// a replacement.
pub fn all_entry_indices(count: usize) -> (r: Vec<u32>)
    requires
        count <= u32::MAX + 1,
    ensures
        r@.len() == count,
        forall|i: int| 0 <= i < count ==> r@[i] == i,
{
    let mut r: Vec<u32> = Vec::new();
    let mut i: usize = 0;
    while i < count
        invariant
            i <= count,
            count <= u32::MAX + 1,
            r@.len() == i,
            forall|j: int| 0 <= j < i ==> r@[j] == j,
        decreases count - i,
    {
        r.push(i as u32);
        i = i + 1;
    }
    r
}

/// Some entry of `types`, in lower case, equals `word`.
pub open spec fn some_type_is(types: Seq<String>, word: Seq<char>) -> bool {
    exists|i: int| 0 <= i < types.len() && lowercase_text(#[trigger] types[i]@) == word
}

fn any_type_is(types: &Vec<String>, word: &str) -> (r: bool)
    ensures
        r == some_type_is(types@, word@),
{
    let mut i: usize = 0;
    while i < types.len()
        invariant
            i <= types.len(),
            forall|j: int| 0 <= j < i ==> lowercase_text(#[trigger] types@[j]@) != word@,
        decreases types.len() - i,
    {
        let lower = to_lowercase(types[i].as_str());
        if str_eq(lower.as_str(), word) {
            return true;
        }
        i = i + 1;
    }
    false
}

/// The release kind that a Subsonic album's release types give: single,
/// then EP, checked in that order; an album otherwise.
pub open spec fn subsonic_release_type(types: Option<Vec<String>>) -> ReleaseType {
    match types {
        Some(t) => if some_type_is(t@, "single"@) {
            ReleaseType::Single
        } else if some_type_is(t@, "ep"@) {
            ReleaseType::Ep
        } else {
            ReleaseType::Album
        },
        None => ReleaseType::Album,
    }
}

/// The release kind of a Subsonic album.
pub fn release_type_of(types: &Option<Vec<String>>) -> (r: ReleaseType)
    ensures
        r == subsonic_release_type(*types),
{
    match types {
        Some(t) => if any_type_is(t, "single") {
            ReleaseType::Single
        } else if any_type_is(t, "ep") {
            ReleaseType::Ep
        } else {
            ReleaseType::Album
        },
        None => ReleaseType::Album,
    }
}

/// The secondary kind of a Subsonic album: a compilation when flagged.
pub fn release_subtype_of(is_compilation: Option<bool>) -> (r: ReleaseSubtype)
    ensures
        r == if is_compilation == Some(true) { ReleaseSubtype::Compilation } else { ReleaseSubtype::Studio },
{
    match is_compilation {
        Some(true) => ReleaseSubtype::Compilation,
        _ => ReleaseSubtype::Studio,
    }
}

/// The release kind of a Navidrome album: its "releasetype" tags first
/// (single, EP, album, in that order), else its type field (EP, single),
/// else an album.
pub open spec fn navidrome_release_type(tags: Option<Seq<String>>, type_: Option<String>) -> ReleaseType {
    let from_tags = match tags {
        Some(t) => if some_type_is(t, "single"@) {
            Some(ReleaseType::Single)
        } else if some_type_is(t, "ep"@) {
            Some(ReleaseType::Ep)
        } else if some_type_is(t, "album"@) {
            Some(ReleaseType::Album)
        } else {
            None
        },
        None => None,
    };
    match from_tags {
        Some(k) => k,
        None => match type_ {
            Some(s) => if lowercase_text(s@) == "ep"@ {
                ReleaseType::Ep
            } else if lowercase_text(s@) == "single"@ {
                ReleaseType::Single
            } else {
                ReleaseType::Album
            },
            None => ReleaseType::Album,
        },
    }
}

/// The release kind of a Navidrome album, from its "releasetype" tags
/// (when it has any) and its type field.
pub fn navidrome_release_type_of(tags: Option<&Vec<String>>, type_: &Option<String>) -> (r: ReleaseType)
    ensures
        r == navidrome_release_type(
            match tags {
                Some(t) => Some(t@),
                None => None,
            },
            *type_,
        ),
{
    if let Some(t) = tags {
        if any_type_is(t, "single") {
            return ReleaseType::Single;
        }
        if any_type_is(t, "ep") {
            return ReleaseType::Ep;
        }
        if any_type_is(t, "album") {
            return ReleaseType::Album;
        }
    }
    match type_ {
        Some(s) => {
            let lower = to_lowercase(s.as_str());
            if str_eq(lower.as_str(), "ep") {
                ReleaseType::Ep
            } else if str_eq(lower.as_str(), "single") {
                ReleaseType::Single
            } else {
                ReleaseType::Album
            }
        },
        None => ReleaseType::Album,
    }
}

/// The secondary kind of a Navidrome album: its "releasetype" tags first
/// (soundtrack, live, compilation, remix, demo, broadcast, in that order),
/// else the compilation flag.
pub open spec fn navidrome_release_subtype(tags: Option<Seq<String>>, compilation: Option<bool>) -> ReleaseSubtype {
    let from_tags = match tags {
        Some(t) => if some_type_is(t, "soundtrack"@) {
            Some(ReleaseSubtype::Soundtrack)
        } else if some_type_is(t, "live"@) {
            Some(ReleaseSubtype::Live)
        } else if some_type_is(t, "compilation"@) {
            Some(ReleaseSubtype::Compilation)
        } else if some_type_is(t, "remix"@) {
            Some(ReleaseSubtype::Remix)
        } else if some_type_is(t, "demo"@) {
            Some(ReleaseSubtype::Demo)
        } else if some_type_is(t, "broadcast"@) {
            Some(ReleaseSubtype::Broadcast)
        } else {
            None
        },
        None => None,
    };
    match from_tags {
        Some(k) => k,
        None => if compilation == Some(true) {
            ReleaseSubtype::Compilation
        } else {
            ReleaseSubtype::Studio
        },
    }
}

/// The secondary kind of a Navidrome album.
pub fn navidrome_release_subtype_of(tags: Option<&Vec<String>>, compilation: Option<bool>) -> (r:
    ReleaseSubtype)
    ensures
        r == navidrome_release_subtype(
            match tags {
                Some(t) => Some(t@),
                None => None,
            },
            compilation,
        ),
{
    if let Some(t) = tags {
        if any_type_is(t, "soundtrack") {
            return ReleaseSubtype::Soundtrack;
        }
        if any_type_is(t, "live") {
            return ReleaseSubtype::Live;
        }
        if any_type_is(t, "compilation") {
            return ReleaseSubtype::Compilation;
        }
        if any_type_is(t, "remix") {
            return ReleaseSubtype::Remix;
        }
        if any_type_is(t, "demo") {
            return ReleaseSubtype::Demo;
        }
        if any_type_is(t, "broadcast") {
            return ReleaseSubtype::Broadcast;
        }
    }
    if compilation == Some(true) {
        ReleaseSubtype::Compilation
    } else {
        ReleaseSubtype::Studio
    }
}

/// The text of an optional string, or the empty text.
pub open spec fn text_or_blank(o: Option<String>) -> Seq<char> {
    match o {
        Some(s) => s@,
        None => Seq::empty(),
    }
}

/// The session with Navidrome's own API: the token and client id of the
/// last sign-in, if any.
pub struct NavidromeAuth {
    pub jwt: Option<String>,
    pub id: Option<String>,
}

impl NavidromeAuth {
    /// Not signed in.
    pub fn new() -> (r: Self)
        ensures
            r.jwt is None,
            r.id is None,
    {
        NavidromeAuth { jwt: None, id: None }
    }

    /// Remembers a successful sign-in.
    pub fn record_login(&mut self, response: NavidromeLoginResponse)
        ensures
            final(self).jwt == Some(response.token),
            final(self).id == Some(response.id),
    {
        self.jwt = Some(response.token);
        self.id = Some(response.id);
    }

    /// The authorization header: the token as a bearer token (empty before
    /// any sign-in).
    pub fn authorization(&self) -> (r: String)
        ensures
            r@ == "Bearer "@ + text_or_blank(self.jwt),
    {
        match &self.jwt {
            Some(t) => join_str("Bearer ", t.as_str()),
            None => {
                let r = "Bearer ".to_owned();
                proof {
                    assert(r@ =~= "Bearer "@ + text_or_blank(self.jwt));
                }
                r
            },
        }
    }

    /// The client id header (empty before any sign-in).
    pub fn client_id(&self) -> (r: String)
        ensures
            r@ == text_or_blank(self.id),
    {
        match &self.id {
            Some(i) => i.clone(),
            None => String::new(),
        }
    }
}

/// What to do with an answer of Navidrome's own API.
pub enum NavidromeReply {
    /// Read the body.
    Accept,
    /// The token has expired: sign in again and resend the request once.
    RefreshAndRetry,
    /// Give up with this error.
    Fail(MusicbirbError),
}

/// Judges an answer of Navidrome's own API with HTTP status `status`
/// (described by `status_text`): the first refusal for want of
/// authorization (401) asks for a new sign-in and one retry; any other
/// status outside 200..=299 is an API error.
pub fn judge_navidrome_reply(status: u16, status_text: &str, retried: bool) -> (r: NavidromeReply)
    ensures
        status == 401 && !retried ==> r is RefreshAndRetry,
        !(status == 401 && !retried) && 200 <= status <= 299 ==> r is Accept,
        !(status == 401 && !retried) && !(200 <= status <= 299) ==> (r matches NavidromeReply::Fail(e)
            && e matches MusicbirbError::Api(m) && m@ == "Navidrome API error: "@ + status_text@),
{
    if status == 401 && !retried {
        NavidromeReply::RefreshAndRetry
    } else if 200 <= status && status <= 299 {
        NavidromeReply::Accept
    } else {
        NavidromeReply::Fail(MusicbirbError::Api(join_str("Navidrome API error: ", status_text)))
    }
}

} // verus!
