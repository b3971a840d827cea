use last_fm_rs::auth::AuthToken;
use last_fm_rs::client::{Client, Request};
use last_fm_rs::error::Error;
use last_fm_rs::json::JsonValue;
use last_fm_rs::params::Params;
use last_fm_rs::scrobble::{NowPlaying, Scrobble};
use last_fm_rs::signature::generate;

fn s(t: &str) -> JsonValue {
    JsonValue::Str(t.to_string())
}

fn num(t: &str) -> JsonValue {
    JsonValue::Number(t.to_string())
}

fn obj(fields: Vec<(&str, JsonValue)>) -> JsonValue {
    JsonValue::Object(fields.into_iter().map(|(k, v)| (k.to_string(), v)).collect())
}

fn pairs(p: &Params) -> Vec<(String, String)> {
    p.entries.clone()
}

fn value<'a>(p: &'a Params, name: &str) -> Option<&'a str> {
    p.entries.iter().find(|(k, _)| k == name).map(|(_, v)| v.as_str())
}

fn token(t: &str) -> AuthToken {
    AuthToken { token: t.to_string() }
}

#[test]
fn test_client_creation() {
    let client = Client::new("test_key", "test_secret");
    assert!(client.auth.is_lastfm());
    assert_eq!(client.auth.api_key(), Some("test_key"));
    assert_eq!(client.auth.api_secret(), Some("test_secret"));
    assert!(client.auth.session_key().is_none());
}

#[test]
fn test_client_with_session_key() {
    let client = Client::new("test_key", "test_secret").with_session_key("session123");
    assert_eq!(client.auth.session_key(), Some("session123"));
}

#[test]
fn test_client_with_token() {
    let client = Client::with_token("https://scrob.example.com/api/", "my_token")
        .expect("valid URL");
    assert!(client.auth.is_token());
}

#[test]
fn test_client_with_token_invalid_url() {
    let result = Client::with_token("not a url", "token");
    assert!(result.is_err());
}

#[test]
fn test_get_auth_url() {
    let client = Client::new("my_api_key", "secret");
    let token = AuthToken {
        token: "test_token".to_string(),
    };
    let url = client.get_auth_url(&token).expect("valid auth URL");
    assert_eq!(
        url,
        "http://www.last.fm/api/auth/?api_key=my_api_key&token=test_token"
    );
}

#[test]
fn test_get_auth_url_fails_in_token_mode() {
    let client = Client::with_token("https://scrob.example.com/api/", "token")
        .expect("valid URL");
    let token = AuthToken {
        token: "test_token".to_string(),
    };
    let result = client.get_auth_url(&token);
    assert!(result.is_err());
}

#[test]
fn invalid_base_url_is_a_url_error() {
    assert!(matches!(Client::with_token("not a url", "t"), Err(Error::UrlParse(_))));
}

#[test]
fn session_key_is_ignored_in_token_mode() {
    let client = Client::with_token("https://scrob.example.com/api/", "t")
        .unwrap()
        .with_session_key("sk");
    assert!(client.auth.is_token());
    assert_eq!(client.auth.session_key(), None);
    assert_eq!(client.auth.api_key(), None);
    assert_eq!(client.auth.api_secret(), None);
}

#[test]
fn token_mode_refuses_keyed_only_operations() {
    let client = Client::with_token("https://scrob.example.com/api/", "t").unwrap();
    assert!(matches!(client.get_token_request(), Err(Error::Auth(_))));
    assert!(matches!(client.get_session_request(&token("x")), Err(Error::Auth(_))));
    assert!(matches!(client.get_auth_url(&token("x")), Err(Error::Auth(_))));
    assert!(matches!(
        client.track_get_info_request("a", "b", None),
        Err(Error::Auth(_))
    ));
}

#[test]
fn token_request_is_signed_get() {
    let client = Client::new("key", "secret");
    match client.get_token_request().unwrap() {
        Request::Get { url, query } => {
            assert_eq!(url, "https://ws.audioscrobbler.com/2.0/");
            let mut base = Params::new();
            base.insert("method".to_string(), "auth.getToken".to_string());
            base.insert("api_key".to_string(), "key".to_string());
            let sig = generate(&base, "secret");
            let expected = format!("{:x}", md5::compute("api_keykeymethodauth.getTokensecret"));
            assert_eq!(sig, expected);
            assert_eq!(
                pairs(&query),
                vec![
                    ("api_key".to_string(), "key".to_string()),
                    ("api_sig".to_string(), expected),
                    ("format".to_string(), "json".to_string()),
                    ("method".to_string(), "auth.getToken".to_string()),
                ]
            );
        }
        other => panic!("unexpected request {:?}", other),
    }
}

#[test]
fn session_request_carries_token() {
    let client = Client::new("key", "secret");
    match client.get_session_request(&token("tok")).unwrap() {
        Request::Get { query, .. } => {
            assert_eq!(value(&query, "method"), Some("auth.getSession"));
            assert_eq!(value(&query, "token"), Some("tok"));
            let expected = format!(
                "{:x}",
                md5::compute("api_keykeymethodauth.getSessiontokentoksecret")
            );
            assert_eq!(value(&query, "api_sig"), Some(expected.as_str()));
        }
        other => panic!("unexpected request {:?}", other),
    }
}

#[test]
fn now_playing_needs_session_key_in_keyed_mode() {
    let client = Client::new("key", "secret");
    let np = NowPlaying::new("a", "b");
    assert!(matches!(client.update_now_playing_request(&np), Err(Error::Auth(_))));
}

#[test]
fn scrobble_needs_session_key_in_keyed_mode() {
    let client = Client::new("key", "secret");
    let batch = vec![Scrobble::new("a", "b", 1)];
    assert!(matches!(client.scrobble_request(&batch), Err(Error::Auth(_))));
}

#[test]
fn now_playing_form_has_present_fields_only() {
    let client = Client::new("key", "secret").with_session_key("sk1");
    let np = NowPlaying::new("Artist", "Song")
        .with_album("Album")
        .with_track_number(3)
        .with_duration(287)
        .with_player("player");
    match client.update_now_playing_request(&np).unwrap() {
        Request::PostForm { url, form } => {
            assert_eq!(url, "https://ws.audioscrobbler.com/2.0/");
            assert_eq!(value(&form, "method"), Some("track.updateNowPlaying"));
            assert_eq!(value(&form, "sk"), Some("sk1"));
            assert_eq!(value(&form, "artist"), Some("Artist"));
            assert_eq!(value(&form, "track"), Some("Song"));
            assert_eq!(value(&form, "album"), Some("Album"));
            assert_eq!(value(&form, "trackNumber"), Some("3"));
            assert_eq!(value(&form, "duration"), Some("287"));
            assert_eq!(value(&form, "albumArtist"), None);
            assert_eq!(value(&form, "player"), Some("player"));
            assert_eq!(value(&form, "format"), Some("json"));
            let expected = format!(
                "{:x}",
                md5::compute(
                    "albumAlbumapi_keykeyartistArtistduration287methodtrack.updateNowPlaying\
                     playerplayersksk1trackSongtrackNumber3secret"
                )
            );
            assert_eq!(value(&form, "api_sig"), Some(expected.as_str()));
        }
        other => panic!("unexpected request {:?}", other),
    }
}

#[test]
fn token_mode_now_playing_posts_json_to_now() {
    let client = Client::with_token("https://scrob.example.com/api/", "tok").unwrap();
    let np = NowPlaying::new("a", "b");
    match client.update_now_playing_request(&np).unwrap() {
        Request::PostJson { url, bearer } => {
            assert_eq!(url.as_str(), "https://scrob.example.com/api/now");
            assert_eq!(bearer, "tok");
        }
        other => panic!("unexpected request {:?}", other),
    }
}

#[test]
fn empty_batch_is_invalid() {
    let client = Client::new("key", "secret").with_session_key("sk");
    assert!(matches!(client.scrobble_request(&[]), Err(Error::InvalidParameter(_))));
    let token_client = Client::with_token("https://scrob.example.com/api/", "t").unwrap();
    assert!(matches!(token_client.scrobble_request(&[]), Err(Error::InvalidParameter(_))));
}

#[test]
fn batch_of_51_is_invalid() {
    let batch: Vec<Scrobble> = (0..51).map(|i| Scrobble::new("a", "b", i)).collect();
    let client = Client::new("key", "secret");
    assert!(matches!(client.scrobble_request(&batch), Err(Error::InvalidParameter(_))));
}

#[test]
fn batches_of_1_and_50_proceed() {
    let client = Client::new("key", "secret").with_session_key("sk");
    let one = vec![Scrobble::new("a", "b", 5)];
    assert!(matches!(client.scrobble_request(&one), Ok(Request::PostForm { .. })));
    let fifty: Vec<Scrobble> = (0..50).map(|i| Scrobble::new("a", "b", i)).collect();
    match client.scrobble_request(&fifty).unwrap() {
        Request::PostForm { form, .. } => {
            assert_eq!(value(&form, "artist[49]"), Some("a"));
            assert_eq!(value(&form, "timestamp[49]"), Some("49"));
            assert_eq!(value(&form, "artist[50]"), None);
            // method, api_key, sk, api_sig, format and three fields per record
            assert_eq!(form.entries.len(), 5 + 3 * 50);
        }
        other => panic!("unexpected request {:?}", other),
    }
    let token_client = Client::with_token("https://scrob.example.com/api/", "t").unwrap();
    match token_client.scrobble_request(&fifty).unwrap() {
        Request::PostJson { url, bearer } => {
            assert_eq!(url.as_str(), "https://scrob.example.com/api/scrob");
            assert_eq!(bearer, "t");
        }
        other => panic!("unexpected request {:?}", other),
    }
}

#[test]
fn scrobble_form_indexes_each_record() {
    let client = Client::new("key", "secret").with_session_key("sk");
    let batch = vec![
        Scrobble::new("A0", "T0", 100).with_album("Al0").with_album_artist("AA0"),
        Scrobble::new("A1", "T1", 200)
            .with_track_number(2)
            .with_duration(180)
            .with_player("mpv"),
    ];
    match client.scrobble_request(&batch).unwrap() {
        Request::PostForm { form, .. } => {
            assert_eq!(value(&form, "method"), Some("track.scrobble"));
            assert_eq!(value(&form, "artist[0]"), Some("A0"));
            assert_eq!(value(&form, "track[0]"), Some("T0"));
            assert_eq!(value(&form, "timestamp[0]"), Some("100"));
            assert_eq!(value(&form, "album[0]"), Some("Al0"));
            assert_eq!(value(&form, "albumArtist[0]"), Some("AA0"));
            assert_eq!(value(&form, "trackNumber[0]"), None);
            assert_eq!(value(&form, "artist[1]"), Some("A1"));
            assert_eq!(value(&form, "timestamp[1]"), Some("200"));
            assert_eq!(value(&form, "trackNumber[1]"), Some("2"));
            assert_eq!(value(&form, "duration[1]"), Some("180"));
            assert_eq!(value(&form, "album[1]"), None);
            assert_eq!(value(&form, "player[1]"), Some("mpv"));
            assert_eq!(value(&form, "player[0]"), None);
        }
        other => panic!("unexpected request {:?}", other),
    }
}

#[test]
fn token_reply_yields_token() {
    let reply = obj(vec![("token", s("abc"))]);
    assert_eq!(Client::read_token_reply(&reply).unwrap().token, "abc");
}

#[test]
fn token_reply_error_is_api_error() {
    let reply = obj(vec![("error", num("9")), ("message", s("Invalid session key"))]);
    match Client::read_token_reply(&reply) {
        Err(Error::Api(m)) => assert_eq!(m, "9"),
        other => panic!("unexpected {:?}", other),
    }
}

#[test]
fn token_reply_of_other_shape_is_decoding_error() {
    let reply = obj(vec![("something", s("else"))]);
    assert!(matches!(Client::read_token_reply(&reply), Err(Error::Json(_))));
    let reply = obj(vec![("token", num("5"))]);
    assert!(matches!(Client::read_token_reply(&reply), Err(Error::Json(_))));
}

#[test]
fn session_reply_yields_key_and_name() {
    let reply = obj(vec![(
        "session",
        obj(vec![("name", s("user")), ("key", s("k123")), ("subscriber", num("0"))]),
    )]);
    let session = Client::read_session_reply(&reply).unwrap();
    assert_eq!(session.key, "k123");
    assert_eq!(session.name, "user");
    let err = obj(vec![("error", num("14")), ("message", s("Unauthorized Token"))]);
    match Client::read_session_reply(&err) {
        Err(Error::Api(m)) => assert_eq!(m, "14"),
        other => panic!("unexpected {:?}", other),
    }
    let partial = obj(vec![("session", obj(vec![("name", s("user"))]))]);
    assert!(matches!(Client::read_session_reply(&partial), Err(Error::Json(_))));
    assert!(matches!(Client::read_session_reply(&JsonValue::Null), Err(Error::Json(_))));
}

#[test]
fn now_playing_reply_error_uses_message() {
    let err = obj(vec![("error", num("9")), ("message", s("Invalid session key"))]);
    match Client::read_now_playing_reply(&err) {
        Err(Error::Api(m)) => assert_eq!(m, "Invalid session key"),
        other => panic!("unexpected {:?}", other),
    }
    let bare = obj(vec![("error", num("9"))]);
    match Client::read_now_playing_reply(&bare) {
        Err(Error::Api(m)) => assert_eq!(m, "9"),
        other => panic!("unexpected {:?}", other),
    }
    let ok = obj(vec![("nowplaying", obj(vec![]))]);
    assert!(Client::read_now_playing_reply(&ok).is_ok());
}

#[test]
fn keyed_scrobble_reply_reads_counts() {
    let client = Client::new("key", "secret").with_session_key("sk");
    let reply = obj(vec![(
        "scrobbles",
        obj(vec![("@attr", obj(vec![("accepted", num("2")), ("ignored", num("1"))]))]),
    )]);
    let r = client.read_scrobble_reply(3, &reply).unwrap();
    assert_eq!(r.scrobbles.attr.accepted, 2);
    assert_eq!(r.scrobbles.attr.ignored, 1);
    let err = obj(vec![("error", num("11"))]);
    assert!(matches!(client.read_scrobble_reply(1, &err), Err(Error::Api(_))));
    let bad = obj(vec![("scrobbles", obj(vec![]))]);
    assert!(matches!(client.read_scrobble_reply(1, &bad), Err(Error::Json(_))));
}

#[test]
fn token_scrobble_reply_counts_every_record_accepted() {
    let client = Client::with_token("https://scrob.example.com/api/", "t").unwrap();
    let odd = obj(vec![("error", num("1")), ("whatever", s("x"))]);
    let r = client.read_scrobble_reply(7, &odd).unwrap();
    assert_eq!(r.scrobbles.attr.accepted, 7);
    assert_eq!(r.scrobbles.attr.ignored, 0);
    let r = client.read_scrobble_reply(50, &JsonValue::Null).unwrap();
    assert_eq!(r.scrobbles.attr.accepted, 50);
    assert_eq!(r.scrobbles.attr.ignored, 0);
}

#[test]
fn track_lookup_request_is_unsigned() {
    let client = Client::new("key", "secret");
    match client.track_get_info_request("Artist", "Song", Some("id-1")).unwrap() {
        Request::Get { url, query } => {
            assert_eq!(url, "https://ws.audioscrobbler.com/2.0/");
            assert_eq!(value(&query, "method"), Some("track.getInfo"));
            assert_eq!(value(&query, "artist"), Some("Artist"));
            assert_eq!(value(&query, "track"), Some("Song"));
            assert_eq!(value(&query, "mbid"), Some("id-1"));
            assert_eq!(value(&query, "format"), Some("json"));
            assert_eq!(value(&query, "api_sig"), None);
        }
        other => panic!("unexpected request {:?}", other),
    }
}

#[test]
fn error_object_uses_its_message() {
    let reply = obj(vec![("error", obj(vec![("code", num("9")), ("message", s("bad key"))]))]);
    match Client::read_token_reply(&reply) {
        Err(Error::Api(m)) => assert_eq!(m, "bad key"),
        other => panic!("unexpected {:?}", other),
    }
    let reply = obj(vec![("error", JsonValue::Array(vec![]))]);
    assert!(matches!(Client::read_token_reply(&reply), Err(Error::Api(_))));
}

#[test]
fn token_mode_join_failure_is_url_error() {
    let client = Client::with_token("mailto:someone@example.com", "t").unwrap();
    let np = NowPlaying::new("a", "b");
    assert!(matches!(client.update_now_playing_request(&np), Err(Error::UrlParse(_))));
    let batch = vec![Scrobble::new("a", "b", 1)];
    assert!(matches!(client.scrobble_request(&batch), Err(Error::UrlParse(_))));
}
