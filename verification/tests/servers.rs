use musicbirb::catalog::{checked_song_total, checked_track_total, split_navidrome_releases, split_subsonic_releases};
use musicbirb::error::MusicbirbError;
use musicbirb::jellyfin::{check_reply, item_kind, sort_search_items, search_request, BaseItemDto, ItemKind, JellyfinSearchRequest, JellyfinSession};
use musicbirb::models::{
    Album, Artist, ArtistId, CoverArtId, Playlist, PlaylistId, ReleaseSubtype, ReleaseType, SearchPreset, SearchQuery,
    TrackId, TrackScrobble,
};
use musicbirb::subsonic::{
    add_to_playlist_params, album_list_params, cover_art_params, all_entry_indices, check_status, judge_navidrome_reply,
    navidrome_api_url, navidrome_login_url, navidrome_release_subtype_of, navidrome_release_type_of,
    now_playing_params, plan_search, release_subtype_of, release_type_of, remove_from_playlist_params,
    rest_auth_params, rest_endpoint_url, scrobble_params, server_type_for, update_playlist_params,
    NavidromeAuth, NavidromeLoginResponse, NavidromeReply, SearchRequest, ServerType, SubsonicError,
};
use musicbirb::subsonic_dto::{Child, NavidromeAlbum};

fn pairs(v: &[(String, String)]) -> Vec<(&str, &str)> {
    v.iter().map(|(k, x)| (k.as_str(), x.as_str())).collect()
}

fn child(id: &str, artist_id: Option<&str>) -> Child {
    Child {
        id: id.to_string(),
        parent: None,
        is_dir: Some(true),
        title: None,
        name: Some(format!("Album {}", id)),
        album: None,
        artist: Some("Band".to_string()),
        track: Some(3),
        disc_number: None,
        year: Some(1999),
        genre: Some("Rock".to_string()),
        cover_art: Some(format!("al-{}", id)),
        size: None,
        content_type: None,
        suffix: None,
        duration: Some(2400),
        bit_rate: None,
        path: None,
        user_rating: Some(4),
        starred: Some("2020-01-01T00:00:00Z".to_string()),
        album_id: None,
        artist_id: artist_id.map(|a| a.to_string()),
        play_count: Some(7),
        created: 1_600_000_000,
        bpm: None,
        comment: None,
        sort_name: None,
        media_type: None,
        music_brainz_id: None,
        channel_count: None,
        is_compilation: Some(true),
        release_types: Some(vec!["Album".to_string(), "EP".to_string()]),
    }
}

fn nd_album(id: &str, artist_id: Option<&str>, album_artist_id: Option<&str>) -> NavidromeAlbum {
    NavidromeAlbum {
        id: id.to_string(),
        name: format!("ND {}", id),
        artist_id: artist_id.map(|a| a.to_string()),
        artist: None,
        album_artist_id: album_artist_id.map(|a| a.to_string()),
        album_artist: None,
        all_artist_ids: None,
        song_count: Some(10),
        duration_secs: Some(3000),
        size: None,
        play_count: None,
        starred: Some(false),
        starred_at: None,
        min_year: Some(2001),
        max_year: None,
        date: None,
        genre: None,
        genres: None,
        releases: None,
        compilation: None,
        embed_art_path: None,
        rating: None,
        play_date: None,
        full_text: None,
        order_album_name: None,
        order_album_artist_name: None,
        type_: Some("Single".to_string()),
        release_type_tags: Some(vec!["live".to_string()]),
    }
}

#[test]
fn server_type_ignores_letter_case() {
    assert_eq!(server_type_for("Navidrome"), ServerType::Navidrome);
    assert_eq!(server_type_for("NAVIDROME"), ServerType::Navidrome);
    assert_eq!(server_type_for("subsonic"), ServerType::Subsonic);
    assert_eq!(server_type_for("gonic"), ServerType::Subsonic);
}

#[test]
fn rest_auth_params_sign_with_salted_md5() {
    let p = rest_auth_params("alice", "secret");
    assert_eq!(
        pairs(&p),
        vec![
            ("u", "alice"),
            ("t", "0b93de50e2609cef3639bd218114b4ff"),
            ("s", "musicbirb_salt"),
            ("v", "1.16.1"),
            ("c", "Musicbirb"),
            ("f", "json"),
        ]
    );
}

#[test]
fn endpoint_urls_drop_trailing_slashes() {
    assert_eq!(rest_endpoint_url("https://m.example.com//", "ping"), "https://m.example.com/rest/ping");
    assert_eq!(navidrome_api_url("http://nd/", "album"), "http://nd/api/album");
    assert_eq!(navidrome_login_url("http://nd"), "http://nd/auth/login");
}

#[test]
fn check_status_reports_failures() {
    assert_eq!(check_status("ok", None), Ok(()));
    let err = SubsonicError { code: 40, message: "Wrong username or password".to_string() };
    assert_eq!(
        check_status("failed", Some(err)),
        Err(MusicbirbError::Api("Subsonic API error: Wrong username or password".to_string()))
    );
    assert_eq!(check_status("failed", None), Err(MusicbirbError::Api("Subsonic API error: ".to_string())));
}

#[test]
fn album_list_params_for_presets() {
    let p = album_list_params(SearchPreset::LastPlayedAlbums, None, None);
    assert_eq!(pairs(&p), vec![("type", "recent"), ("size", "20"), ("offset", "0")]);
    let p = album_list_params(SearchPreset::NewlyReleasedAlbums, Some(5), Some(-10));
    assert_eq!(
        pairs(&p),
        vec![("type", "byYear"), ("size", "5"), ("offset", "-10"), ("fromYear", "2999"), ("toYear", "0")]
    );
}

#[test]
fn plan_search_chooses_the_request() {
    let q = SearchQuery { keyword: None, preset: Some(SearchPreset::RecentlyAddedAlbums), limit: Some(3), offset: None };
    match plan_search(&q, 1) {
        SearchRequest::AlbumList(p) => assert_eq!(pairs(&p), vec![("type", "newest"), ("size", "3"), ("offset", "0")]),
        _ => panic!("expected an album list"),
    }
    let q = SearchQuery { keyword: Some(String::new()), preset: None, limit: None, offset: None };
    assert!(matches!(plan_search(&q, 7), SearchRequest::Nothing));
    let q = SearchQuery { keyword: Some("abba".to_string()), preset: None, limit: Some(20), offset: Some(40) };
    match plan_search(&q, 7) {
        SearchRequest::Keyword(p) => assert_eq!(
            pairs(&p),
            vec![
                ("query", "abba"),
                ("artistCount", "7"),
                ("artistOffset", "40"),
                ("albumCount", "7"),
                ("albumOffset", "40"),
                ("songCount", "7"),
                ("songOffset", "40"),
            ]
        ),
        _ => panic!("expected a keyword search"),
    }
}

#[test]
fn activity_and_playlist_params() {
    assert_eq!(pairs(&now_playing_params(&TrackId("t1".to_string()))), vec![("id", "t1"), ("submission", "false")]);
    let s = vec![
        TrackScrobble { id: TrackId("a".to_string()), timestamp: 1700000000000 },
        TrackScrobble { id: TrackId("b".to_string()), timestamp: 5 },
    ];
    assert_eq!(
        pairs(&scrobble_params(&s)),
        vec![("submission", "true"), ("id", "a"), ("time", "1700000000000"), ("id", "b"), ("time", "5")]
    );
    let id = PlaylistId("p9".to_string());
    assert_eq!(
        pairs(&update_playlist_params(&id, &Some("Mix".to_string()), &None, Some(false))),
        vec![("playlistId", "p9"), ("name", "Mix"), ("public", "false")]
    );
    assert_eq!(
        pairs(&add_to_playlist_params(&id, &vec![TrackId("x".to_string()), TrackId("y".to_string())])),
        vec![("playlistId", "p9"), ("songIdToAdd", "x"), ("songIdToAdd", "y")]
    );
    assert_eq!(
        pairs(&remove_from_playlist_params(&id, &vec![0, 12])),
        vec![("playlistId", "p9"), ("songIndexToRemove", "0"), ("songIndexToRemove", "12")]
    );
    assert_eq!(all_entry_indices(4), vec![0, 1, 2, 3]);
    assert!(all_entry_indices(0).is_empty());
}

#[test]
fn release_kinds() {
    assert_eq!(release_type_of(&None), ReleaseType::Album);
    assert_eq!(release_type_of(&Some(vec!["EP".to_string(), "SINGLE".to_string()])), ReleaseType::Single);
    assert_eq!(release_type_of(&Some(vec!["Ep".to_string()])), ReleaseType::Ep);
    assert_eq!(release_subtype_of(Some(true)), ReleaseSubtype::Compilation);
    assert_eq!(release_subtype_of(None), ReleaseSubtype::Studio);
    let tags = vec!["Album".to_string(), "Live".to_string()];
    assert_eq!(navidrome_release_type_of(Some(&tags), &Some("single".to_string())), ReleaseType::Album);
    assert_eq!(navidrome_release_type_of(None, &Some("SINGLE".to_string())), ReleaseType::Single);
    assert_eq!(navidrome_release_type_of(None, &None), ReleaseType::Album);
    assert_eq!(navidrome_release_subtype_of(Some(&tags), Some(true)), ReleaseSubtype::Live);
    assert_eq!(navidrome_release_subtype_of(None, Some(true)), ReleaseSubtype::Compilation);
}

#[test]
fn navidrome_auth_headers() {
    let mut auth = NavidromeAuth::new();
    assert_eq!(auth.authorization(), "Bearer ");
    assert_eq!(auth.client_id(), "");
    auth.record_login(NavidromeLoginResponse {
        id: "u1".to_string(),
        token: "jwt".to_string(),
        username: "alice".to_string(),
        is_admin: None,
        last_fm_api_key: None,
        subsonic_salt: None,
        subsonic_token: None,
    });
    assert_eq!(auth.authorization(), "Bearer jwt");
    assert_eq!(auth.client_id(), "u1");
}

#[test]
fn navidrome_replies() {
    assert!(matches!(judge_navidrome_reply(401, "401 Unauthorized", false), NavidromeReply::RefreshAndRetry));
    match judge_navidrome_reply(401, "401 Unauthorized", true) {
        NavidromeReply::Fail(e) => assert_eq!(e, MusicbirbError::Api("Navidrome API error: 401 Unauthorized".to_string())),
        _ => panic!("expected a failure"),
    }
    assert!(matches!(judge_navidrome_reply(204, "204 No Content", false), NavidromeReply::Accept));
    assert!(matches!(judge_navidrome_reply(500, "500", false), NavidromeReply::Fail(_)));
}

#[test]
fn subsonic_album_conversion() {
    let a = Album::from_subsonic(child("7", Some("ar1")));
    assert_eq!(a.id.0, "7");
    assert_eq!(a.title, "Album 7");
    assert_eq!(a.artist, "Band");
    assert_eq!(a.artist_id, Some(ArtistId("ar1".to_string())));
    assert_eq!(a.year, Some(1999));
    assert_eq!(a.cover_art, Some(CoverArtId("al-7".to_string())));
    assert_eq!(a.duration_secs, Some(2400));
    assert_eq!(a.play_count, Some(7));
    assert_eq!(a.created_timestamp, Some(1_600_000_000));
    assert_eq!(a.starred, Some(true));
    assert_eq!(a.release_type, ReleaseType::Ep);
    assert_eq!(a.release_subtype, ReleaseSubtype::Compilation);
    assert_eq!(a.genre, Some("Rock".to_string()));
    let mut bare = child("8", None);
    bare.name = None;
    bare.year = Some(-1);
    let b = Album::from_subsonic(bare);
    assert_eq!(b.title, "");
    assert_eq!(b.year, Some(u32::MAX));
}

#[test]
fn navidrome_album_conversion() {
    let a = Album::from_navidrome(nd_album("n1", Some("x"), None));
    assert_eq!(a.title, "ND n1");
    assert_eq!(a.cover_art, Some(CoverArtId("n1".to_string())));
    assert_eq!(a.song_count, Some(10));
    assert_eq!(a.year, Some(2001));
    assert_eq!(a.release_type, ReleaseType::Single);
    assert_eq!(a.release_subtype, ReleaseSubtype::Live);
    assert_eq!(a.created_timestamp, None);
}

#[test]
fn subsonic_releases_are_split_newest_first() {
    let albums = vec![child("old", Some("me")), child("guest", Some("other")), child("new", Some("me"))];
    assert_eq!(checked_track_total(&albums), Some(9));
    let (own, appears) = split_subsonic_releases("me", albums);
    let own_ids: Vec<&str> = own.iter().map(|a| a.id.0.as_str()).collect();
    let other_ids: Vec<&str> = appears.iter().map(|a| a.id.0.as_str()).collect();
    assert_eq!(own_ids, vec!["new", "old"]);
    assert_eq!(other_ids, vec!["guest"]);
}

#[test]
fn navidrome_releases_count_album_artists() {
    let albums = vec![nd_album("a", Some("x"), Some("me")), nd_album("b", Some("x"), None), nd_album("c", Some("me"), None)];
    let (own, appears) = split_navidrome_releases("me", albums);
    let own_ids: Vec<&str> = own.iter().map(|a| a.id.0.as_str()).collect();
    assert_eq!(own_ids, vec!["a", "c"]);
    assert_eq!(appears.len(), 1);
    assert_eq!(appears[0].id.0, "b");
}

#[test]
fn totals_report_overflow() {
    let mut big = child("b", None);
    big.track = Some(-1);
    assert_eq!(checked_track_total(&vec![big]), Some(u32::MAX));
    let mut a = child("a", None);
    a.track = Some(-1);
    let mut b = child("b", None);
    b.track = Some(1);
    assert_eq!(checked_track_total(&vec![a, b]), None);
    let albums = vec![Album::from_navidrome(nd_album("a", None, None)), Album::from_subsonic(child("s", None))];
    assert_eq!(checked_song_total(&albums), Some(10));
}

#[test]
fn subsonic_artist_and_playlist_conversion() {
    let artist = Artist::from_subsonic(musicbirb::subsonic_dto::Artist {
        id: "ar".to_string(),
        name: "Name".to_string(),
        cover_art: None,
        album_count: Some(2),
        starred: None,
        music_brainz_id: Some("mb".to_string()),
        last_fm_url: None,
        album: vec![],
    });
    assert_eq!(artist.id, ArtistId("ar".to_string()));
    assert_eq!(artist.starred, None);
    assert_eq!(artist.musicbrainz_id, Some("mb".to_string()));
    let pl = Playlist::from_subsonic(musicbirb::subsonic_dto::Playlist {
        id: "p".to_string(),
        name: "List".to_string(),
        comment: None,
        owner: Some("me".to_string()),
        public: Some(true),
        song_count: None,
        duration: Some(60),
        created: 10,
        changed: 20,
        cover_art: Some("c".to_string()),
    });
    assert_eq!(pl.song_count, 0);
    assert_eq!(pl.duration_secs, 60);
    assert_eq!(pl.created_timestamp, 10);
    assert_eq!(pl.changed_timestamp, 20);
    assert_eq!(pl.cover_art, Some(CoverArtId("c".to_string())));
}

fn item(id: &str, name: Option<&str>, kind: Option<&str>) -> BaseItemDto {
    BaseItemDto {
        id: id.to_string(),
        name: name.map(|n| n.to_string()),
        item_type: kind.map(|k| k.to_string()),
        overview: None,
        child_count: Some(12),
        run_time_ticks: Some(25_000_000_000),
        production_year: Some(1984),
        album: None,
        album_id: None,
        artists: Some(vec!["First".to_string(), "Second".to_string()]),
        artist_items: None,
        index_number: None,
        parent_index_number: None,
    }
}

#[test]
fn jellyfin_conversions() {
    let a = Album::from_jellyfin(item("j1", None, Some("MusicAlbum")));
    assert_eq!(a.title, "Unknown");
    assert_eq!(a.artist, "First");
    assert_eq!(a.duration_secs, Some(2500));
    assert_eq!(a.cover_art, Some(CoverArtId("j1".to_string())));
    let p = Playlist::from_jellyfin(item("j2", Some("Road"), Some("Playlist")));
    assert_eq!(p.name, "Road");
    assert_eq!(p.song_count, 12);
    let r = Artist::from_jellyfin(item("j3", Some("Singer"), Some("MusicArtist")));
    assert_eq!(r.name, "Singer");
    assert_eq!(r.cover_art, Some(CoverArtId("j3".to_string())));
    assert_eq!(item_kind(&Some("MusicArtist".to_string())), ItemKind::MusicArtist);
    assert_eq!(item_kind(&Some("Folder".to_string())), ItemKind::Other);
    assert_eq!(item_kind(&None), ItemKind::Other);
}

#[test]
fn jellyfin_session_urls() {
    let mut s = JellyfinSession::new("http://jf:8096/");
    assert_eq!(s.base_url, "http://jf:8096");
    assert_eq!(
        s.auth_header(),
        "MediaBrowser Client=\"Musicbirb\", Device=\"Musicbirb\", DeviceId=\"musicbirb-app\", Version=\"0.1.0\""
    );
    assert_eq!(
        s.get_user_id(),
        Err(MusicbirbError::Internal("No user ID. Missing call to fetch_me?".to_string()))
    );
    assert_eq!(s.stream_url(&TrackId("t".to_string())), "http://jf:8096/Audio/t/stream?static=true");
    s.set_token("tok".to_string());
    assert!(s.auth_header().ends_with(", Token=\"tok\""));
    assert_eq!(s.stream_url(&TrackId("t".to_string())), "http://jf:8096/Audio/t/stream?static=true&api_key=tok");
    assert_eq!(
        s.cover_art_url(&CoverArtId("c".to_string()), Some(300)),
        "http://jf:8096/Items/c/Images/Primary?maxWidth=300"
    );
}

#[test]
fn jellyfin_search_requests() {
    let q = SearchQuery { keyword: None, preset: Some(SearchPreset::RecentlyAddedAlbums), limit: None, offset: None };
    match search_request("u1", &q) {
        JellyfinSearchRequest::Latest(p) => {
            assert_eq!(p, "/Users/u1/Items/Latest?IncludeItemTypes=MusicAlbum&Limit=20&EnableImages=true")
        },
        _ => panic!("expected the latest items"),
    }
    let q = SearchQuery { keyword: Some("abc".to_string()), preset: None, limit: Some(5), offset: None };
    match search_request("u1", &q) {
        JellyfinSearchRequest::Items(p) => assert_eq!(
            p,
            "/Users/u1/Items?SearchTerm=abc&IncludeItemTypes=Audio,MusicAlbum,MusicArtist&Limit=5&Recursive=true"
        ),
        _ => panic!("expected an item search"),
    }
    let q = SearchQuery { keyword: None, preset: None, limit: None, offset: None };
    assert!(matches!(search_request("u1", &q), JellyfinSearchRequest::Nothing));
}

#[test]
fn cover_art_params_carry_the_size() {
    let id = CoverArtId("al-3".to_string());
    assert_eq!(pairs(&cover_art_params(&id, Some(600))), vec![("id", "al-3"), ("size", "600")]);
    assert_eq!(pairs(&cover_art_params(&id, None)), vec![("id", "al-3")]);
}

#[test]
fn jellyfin_replies_are_judged() {
    assert_eq!(check_reply(200, "200 OK", false), Ok(()));
    assert_eq!(
        check_reply(401, "401 Unauthorized", true),
        Err(MusicbirbError::Auth("Jellyfin auth failed: 401 Unauthorized".to_string()))
    );
    assert_eq!(
        check_reply(404, "404 Not Found", false),
        Err(MusicbirbError::Api("Jellyfin API error: 404 Not Found".to_string()))
    );
}

#[test]
fn jellyfin_hits_are_sorted_by_kind() {
    let items = vec![
        item("s1", Some("Song"), Some("Audio")),
        item("a1", Some("Record"), Some("MusicAlbum")),
        item("f1", None, Some("Folder")),
        item("r1", Some("Band"), Some("MusicArtist")),
        item("s2", None, Some("Audio")),
        item("n1", None, None),
    ];
    let (songs, albums, artists) = sort_search_items(items);
    let song_ids: Vec<&str> = songs.iter().map(|s| s.id.as_str()).collect();
    assert_eq!(song_ids, vec!["s1", "s2"]);
    assert_eq!(albums.len(), 1);
    assert_eq!(albums[0].title, "Record");
    assert_eq!(artists.len(), 1);
    assert_eq!(artists[0].name, "Band");
}
