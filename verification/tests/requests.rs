use soundcloud_dl::soundcloud::model::{Format, Transcoding};
use soundcloud_dl::soundcloud::request::{
    likes_address, Answer, ApiRequest, Entity, Hydratable, SoundcloudClient, API_BASE, ME_URL,
};
use soundcloud_dl::soundcloud::{file_extension, DownloadedFile};
use soundcloud_dl::text::{replace_all, str_eq, u64_to_string};

fn client() -> SoundcloudClient {
    SoundcloudClient::new("2-000-token".to_string())
}

#[test]
fn the_interface_stands_at_its_address() {
    assert_eq!(API_BASE, "https://api-v2.soundcloud.com/");
    assert_eq!(ME_URL, "https://api-v2.soundcloud.com/me");
}

#[test]
fn the_owner_is_asked_for_with_the_raw_token() {
    assert_eq!(
        client().me_request(),
        ApiRequest {
            url: "https://api-v2.soundcloud.com/me".to_string(),
            authorization: Some("2-000-token".to_string()),
            answer: Answer::Json(Entity::User),
        }
    );
    assert_eq!(client().oauth(), "2-000-token");
}

#[test]
fn likes_tracks_and_playlists_are_asked_for_by_number() {
    assert_eq!(
        client().likes_request(42, 120),
        ApiRequest {
            url: "https://api-v2.soundcloud.com/users/42/track_likes?limit=120".to_string(),
            authorization: Some("2-000-token".to_string()),
            answer: Answer::Json(Entity::Likes),
        }
    );
    assert_eq!(
        client().track_request(1234567890123),
        ApiRequest {
            url: "https://api-v2.soundcloud.com/tracks/1234567890123".to_string(),
            authorization: Some("2-000-token".to_string()),
            answer: Answer::Json(Entity::Track),
        }
    );
    assert_eq!(
        client().playlist_request(0),
        ApiRequest {
            url: "https://api-v2.soundcloud.com/playlists/0".to_string(),
            authorization: Some("2-000-token".to_string()),
            answer: Answer::Json(Entity::Playlist),
        }
    );
    assert_eq!(
        likes_address(u64::MAX, 7),
        "https://api-v2.soundcloud.com/users/18446744073709551615/track_likes?limit=7"
    );
}

#[test]
fn a_further_page_of_likes_keeps_its_address() {
    let url = "https://api-v2.soundcloud.com/users/42/track_likes?offset=50&limit=50";
    assert_eq!(
        client().likes_page_request(url),
        ApiRequest {
            url: url.to_string(),
            authorization: Some("2-000-token".to_string()),
            answer: Answer::Json(Entity::Likes),
        }
    );
}

#[test]
fn pages_are_asked_for_without_credentials() {
    assert_eq!(
        client().page_request("https://soundcloud.com/dj_null/first", Hydratable::Sound),
        ApiRequest {
            url: "https://soundcloud.com/dj_null/first".to_string(),
            authorization: None,
            answer: Answer::Page(Hydratable::Sound),
        }
    );
    assert_eq!(
        client().user_request(Some("dj_null")),
        ApiRequest {
            url: "https://soundcloud.com/dj_null".to_string(),
            authorization: None,
            answer: Answer::Page(Hydratable::User),
        }
    );
}

#[test]
fn without_a_name_the_user_is_the_owner() {
    assert_eq!(client().user_request(None), client().me_request());
}

#[test]
fn an_encoding_is_asked_for_with_the_word_oauth() {
    let t = Transcoding {
        url: "https://api-v2.soundcloud.com/media/soundcloud:tracks:1/stream/progressive"
            .to_string(),
        format: Format { protocol: "progressive".to_string(), mime_type: "audio/mpeg".to_string() },
        quality: "sq".to_string(),
    };
    assert_eq!(
        client().stream_request(&t),
        ApiRequest {
            url: t.url.clone(),
            authorization: Some("OAuth 2-000-token".to_string()),
            answer: Answer::Json(Entity::Stream),
        }
    );
}

#[test]
fn bytes_are_asked_for_with_the_raw_token() {
    assert_eq!(
        client().download_request("https://cf-media.sndcdn.com/abc.128.mp3?Policy=x"),
        ApiRequest {
            url: "https://cf-media.sndcdn.com/abc.128.mp3?Policy=x".to_string(),
            authorization: Some("2-000-token".to_string()),
            answer: Answer::Bytes,
        }
    );
}

#[test]
fn the_cover_is_asked_for_in_its_original_size() {
    let art = Some("https://i1.sndcdn.com/artworks-000-large.jpg".to_string());
    assert_eq!(
        client().cover_request(&art),
        Some(ApiRequest {
            url: "https://i1.sndcdn.com/artworks-000-original.jpg".to_string(),
            authorization: Some("2-000-token".to_string()),
            answer: Answer::Bytes,
        })
    );
    assert_eq!(client().cover_request(&None), None);
}

#[test]
fn the_extension_is_read_off_the_address() {
    assert_eq!(file_extension("https://cf-media.sndcdn.com/abc.128.mp3?Policy=x&Sig=y"), "mp3");
    assert_eq!(file_extension("https://i1.sndcdn.com/artworks-000-original.jpg"), "jpg");
    assert_eq!(file_extension("https://host/path/playlist.m3u8?token=1"), "m3u8");
    assert_eq!(file_extension("https://host/path/noext"), "noext");
    assert_eq!(file_extension("https://host/path/"), "");
    assert_eq!(file_extension(""), "");
    assert_eq!(file_extension("file.tar.gz"), "gz");
    assert_eq!(file_extension("https://host/a.mp3?sig=1.2"), "2");
    assert_eq!(file_extension("https://host/a.mp3?x=/b.ogg"), "ogg");
}

#[test]
fn the_extension_agrees_with_splitting() {
    for url in [
        "https://cf-media.sndcdn.com/abc.128.mp3?Policy=x&Sig=y",
        "a/b/c.d.e?f.g?h",
        "?",
        ".",
        "/",
        "a.?b",
        "ö/ü.é?x",
    ] {
        let by_split = url
            .rsplit('/')
            .next()
            .and_then(|s| s.split('.').last())
            .and_then(|s| s.split('?').next())
            .unwrap_or("")
            .to_string();
        assert_eq!(file_extension(url), by_split);
    }
}

#[test]
fn a_downloaded_file_keeps_its_bytes_and_the_hint() {
    let file = DownloadedFile::new(vec![1, 2, 3], "https://host/x.png?y");
    assert_eq!(file.data, vec![1, 2, 3]);
    assert_eq!(file.file_ext, "png");
}

#[test]
fn every_match_is_replaced_from_the_left() {
    assert_eq!(replace_all("a-large-large.jpg", "-large", "-original"), "a-original-original.jpg");
    assert_eq!(replace_all("aaa", "aa", "b"), "ba");
    assert_eq!(replace_all("abc", "x", "y"), "abc");
    assert_eq!(replace_all("abc", "", "y"), "abc");
    assert_eq!(replace_all("", "a", "b"), "");
    assert_eq!(replace_all("abab", "ab", ""), "");
    for (s, p, w) in [("a-large-large.jpg", "-large", "-original"), ("aaaa", "aa", "a"), ("xyz", "z", "zz")] {
        assert_eq!(replace_all(s, p, w), s.replace(p, w));
    }
}

#[test]
fn numbers_are_written_in_decimal() {
    for n in [0u64, 1, 9, 10, 11, 99, 100, 101, 4096, 1234567890, u64::MAX] {
        assert_eq!(u64_to_string(n), n.to_string());
    }
}

#[test]
fn strings_are_compared_by_their_characters() {
    assert!(str_eq("", ""));
    assert!(str_eq("hls", "hls"));
    assert!(!str_eq("hls", "hlS"));
    assert!(!str_eq("hls", "hl"));
    assert!(!str_eq("é", "e"));
}
