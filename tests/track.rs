use last_fm_rs::error::Error;
use last_fm_rs::json::JsonValue;
use last_fm_rs::track::{
    deserialize_optional_string_as_u64, deserialize_string_as_u64, TrackInfo, TrackInfoResponse,
};

fn s(t: &str) -> JsonValue {
    JsonValue::Str(t.to_string())
}

fn obj(fields: Vec<(&str, JsonValue)>) -> JsonValue {
    JsonValue::Object(fields.into_iter().map(|(k, v)| (k.to_string(), v)).collect())
}

fn track_with(extra: Vec<(&str, JsonValue)>) -> JsonValue {
    let mut fields = vec![
        ("name", s("Wesley's Theory")),
        ("url", s("https://example.com/t")),
        (
            "artist",
            obj(vec![("name", s("Kendrick Lamar")), ("url", s("https://example.com/a"))]),
        ),
    ];
    fields.extend(extra);
    obj(fields)
}

#[test]
fn listeners_not_a_number_decodes_as_zero() {
    let v = track_with(vec![("listeners", s("not-a-number")), ("playcount", s("42"))]);
    let t = TrackInfo::from_json(&v).unwrap();
    assert_eq!(t.listeners, 0);
    assert_eq!(t.playcount, 42);
}

#[test]
fn absent_optional_counter_is_absent() {
    let v = track_with(vec![]);
    let t = TrackInfo::from_json(&v).unwrap();
    assert_eq!(t.duration, None);
    assert_eq!(t.userplaycount, None);
    assert_eq!(t.userloved, None);
    assert_eq!(t.listeners, 0);
    assert_eq!(t.mbid, "");
    assert!(t.album.is_none() && t.toptags.is_none() && t.wiki.is_none());
    assert!(t.streamable.is_none());
}

#[test]
fn optional_counters_parse_leniently() {
    let v = track_with(vec![
        ("duration", s("287000")),
        ("userplaycount", s("oops")),
        ("userloved", JsonValue::Null),
    ]);
    let t = TrackInfo::from_json(&v).unwrap();
    assert_eq!(t.duration, Some(287000));
    assert_eq!(t.userplaycount, None);
    assert_eq!(t.userloved, None);
}

#[test]
fn counter_helpers() {
    assert_eq!(deserialize_string_as_u64(None).unwrap(), 0);
    assert_eq!(deserialize_string_as_u64(Some(&s("12"))).unwrap(), 12);
    assert_eq!(deserialize_string_as_u64(Some(&s("x"))).unwrap(), 0);
    assert!(matches!(
        deserialize_string_as_u64(Some(&JsonValue::Number("3".to_string()))),
        Err(Error::Json(_))
    ));
    assert_eq!(deserialize_optional_string_as_u64(None).unwrap(), None);
    assert_eq!(deserialize_optional_string_as_u64(Some(&JsonValue::Null)).unwrap(), None);
    assert_eq!(deserialize_optional_string_as_u64(Some(&s("5"))).unwrap(), Some(5));
    assert_eq!(deserialize_optional_string_as_u64(Some(&s("-5"))).unwrap(), None);
    assert!(matches!(
        deserialize_optional_string_as_u64(Some(&JsonValue::Bool(true))),
        Err(Error::Json(_))
    ));
}

#[test]
fn nested_metadata_decodes() {
    let v = obj(vec![(
        "track",
        track_with(vec![
            ("mbid", s("m-1")),
            ("streamable", obj(vec![("#text", s("0")), ("fulltrack", s("0"))])),
            (
                "album",
                obj(vec![
                    ("artist", s("Kendrick Lamar")),
                    ("title", s("To Pimp a Butterfly")),
                    ("url", s("https://example.com/al")),
                    (
                        "image",
                        JsonValue::Array(vec![
                            obj(vec![("#text", s("https://img/s.png")), ("size", s("small"))]),
                            obj(vec![("#text", s("https://img/l.png")), ("size", s("large"))]),
                        ]),
                    ),
                    ("@attr", obj(vec![("position", s("1"))])),
                ]),
            ),
            (
                "toptags",
                obj(vec![(
                    "tag",
                    JsonValue::Array(vec![obj(vec![("name", s("hip-hop")), ("url", s("u"))])]),
                )]),
            ),
            (
                "wiki",
                obj(vec![("published", s("p")), ("summary", s("sum")), ("content", s("c"))]),
            ),
        ]),
    )]);
    let r = TrackInfoResponse::from_json(&v).unwrap();
    let t = r.track;
    assert_eq!(t.name, "Wesley's Theory");
    assert_eq!(t.mbid, "m-1");
    assert_eq!(t.artist.name, "Kendrick Lamar");
    assert_eq!(t.artist.mbid, "");
    let album = t.album.unwrap();
    assert_eq!(album.title, "To Pimp a Butterfly");
    assert_eq!(album.image.len(), 2);
    assert_eq!(album.image[1].url, "https://img/l.png");
    assert_eq!(album.image[1].size, "large");
    assert_eq!(album.attr.unwrap().position, "1");
    assert_eq!(t.toptags.unwrap().tag[0].name, "hip-hop");
    assert_eq!(t.wiki.unwrap().summary, "sum");
    assert_eq!(t.streamable.unwrap().fulltrack, "0");
}

#[test]
fn malformed_track_is_decoding_error() {
    let no_artist = obj(vec![("name", s("n")), ("url", s("u"))]);
    assert!(matches!(TrackInfo::from_json(&no_artist), Err(Error::Json(_))));
    let bad_listeners = track_with(vec![("listeners", JsonValue::Number("5".to_string()))]);
    assert!(matches!(TrackInfo::from_json(&bad_listeners), Err(Error::Json(_))));
    let bad_image = track_with(vec![(
        "album",
        obj(vec![
            ("artist", s("a")),
            ("title", s("t")),
            ("url", s("u")),
            ("image", JsonValue::Array(vec![obj(vec![("size", s("small"))])])),
        ]),
    )]);
    assert!(matches!(TrackInfo::from_json(&bad_image), Err(Error::Json(_))));
    assert!(matches!(TrackInfoResponse::from_json(&obj(vec![])), Err(Error::Json(_))));
}
