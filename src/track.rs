use vstd::prelude::*;

use crate::error::{Error, Result};
use crate::json::JsonValue;
use crate::number::{parse_u64, u64_of_text};

verus! {

/// Cover art at one size.
#[derive(Debug, Clone)]
pub struct Image {
    pub url: String,
    pub size: String,
}

/// Artist information (simplified).
#[derive(Debug, Clone)]
pub struct Artist {
    pub name: String,
    pub mbid: String,
    pub url: String,
}

/// Album information.
#[derive(Debug, Clone)]
pub struct Album {
    pub artist: String,
    pub title: String,
    pub mbid: String,
    pub url: String,
    pub image: Vec<Image>,
    pub attr: Option<AlbumAttr>,
}

#[derive(Debug, Clone)]
pub struct AlbumAttr {
    pub position: String,
}

/// Tag information.
#[derive(Debug, Clone)]
pub struct Tag {
    pub name: String,
    pub url: String,
}

#[derive(Debug, Clone)]
pub struct TopTags {
    pub tag: Vec<Tag>,
}

/// Wiki content.
#[derive(Debug, Clone)]
pub struct Wiki {
    pub published: String,
    pub summary: String,
    pub content: String,
}

#[derive(Debug, Clone)]
pub struct Streamable {
    pub text: String,
    pub fulltrack: String,
}

/// Track metadata, as the track lookup returns it.
#[derive(Debug, Clone)]
pub struct TrackInfo {
    pub name: String,
    pub mbid: String,
    pub url: String,
    pub duration: Option<u64>,
    pub streamable: Option<Streamable>,
    pub listeners: u64,
    pub playcount: u64,
    pub artist: Artist,
    pub album: Option<Album>,
    pub userplaycount: Option<u64>,
    pub userloved: Option<u64>,
    pub toptags: Option<TopTags>,
    pub wiki: Option<Wiki>,
}

/// The whole reply of a track lookup.
#[derive(Debug, Clone)]
pub struct TrackInfoResponse {
    pub track: TrackInfo,
}

/// A required text member: it must be there and be a string.
pub open spec fn text_member(v: JsonValue, key: Seq<char>) -> Option<Seq<char>> {
    match v.field(key) {
        Some(JsonValue::Str(s)) => Some(s@),
        _ => None,
    }
}

/// A text member that is empty when missing, and otherwise must be a string.
pub open spec fn text_member_or_empty(v: JsonValue, key: Seq<char>) -> Option<Seq<char>> {
    match v.field(key) {
        None => Some(Seq::empty()),
        Some(JsonValue::Str(s)) => Some(s@),
        _ => None,
    }
}

/// A counter sent as text: zero when missing or when the text is not a
/// number; a value that is not a string does not decode.
pub open spec fn lenient_count(v: Option<JsonValue>) -> Option<u64> {
    match v {
        None => Some(0),
        Some(JsonValue::Str(s)) => match u64_of_text(s@) {
            Some(n) => Some(n),
            None => Some(0),
        },
        _ => None,
    }
}

/// An optional counter sent as text: absent when missing, null, or not a
/// number; a value that is neither a string nor null does not decode.
pub open spec fn lenient_optional_count(v: Option<JsonValue>) -> Option<Option<u64>> {
    match v {
        None => Some(None),
        Some(JsonValue::Null) => Some(None),
        Some(JsonValue::Str(s)) => Some(u64_of_text(s@)),
        _ => None,
    }
}

pub open spec fn deref_opt(v: Option<&JsonValue>) -> Option<JsonValue> {
    match v {
        Some(x) => Some(*x),
        None => None,
    }
}

/// An optional member is absent when it is missing or null.
pub open spec fn present(v: Option<JsonValue>) -> bool {
    v is Some && !(v->0 is Null)
}

/// Reads a counter sent as text, defaulting to zero.
pub fn deserialize_string_as_u64(v: Option<&JsonValue>) -> (r: Result<u64>)
    ensures
        match lenient_count(deref_opt(v)) {
            Some(n) => r matches Ok(x) && x == n,
            None => r matches Err(Error::Json(_)),
        },
{
    match v {
        None => Ok(0),
        Some(JsonValue::Str(s)) => match parse_u64(s.as_str()) {
            Some(n) => Ok(n),
            None => Ok(0),
        },
        Some(_) => Err(Error::Json(String::from_str("expected a string"))),
    }
}

/// Reads an optional counter sent as text, absent when it does not parse.
pub fn deserialize_optional_string_as_u64(v: Option<&JsonValue>) -> (r: Result<Option<u64>>)
    ensures
        match lenient_optional_count(deref_opt(v)) {
            Some(n) => r matches Ok(x) && x == n,
            None => r matches Err(Error::Json(_)),
        },
{
    match v {
        None => Ok(None),
        Some(JsonValue::Null) => Ok(None),
        Some(JsonValue::Str(s)) => Ok(parse_u64(s.as_str())),
        Some(_) => Err(Error::Json(String::from_str("expected a string or null"))),
    }
}

fn read_text(v: &JsonValue, key: &str) -> (r: Result<String>)
    ensures
        match text_member(*v, key@) {
            Some(t) => r matches Ok(s) && s@ == t,
            None => r matches Err(Error::Json(_)),
        },
{
    match v.get(key) {
        Some(JsonValue::Str(s)) => Ok(s.clone()),
        _ => Err(Error::Json(String::from_str("missing or non-string member"))),
    }
}

fn read_text_or_empty(v: &JsonValue, key: &str) -> (r: Result<String>)
    ensures
        match text_member_or_empty(*v, key@) {
            Some(t) => r matches Ok(s) && s@ == t,
            None => r matches Err(Error::Json(_)),
        },
{
    match v.get(key) {
        None => Ok(String::new()),
        Some(JsonValue::Str(s)) => Ok(s.clone()),
        Some(_) => Err(Error::Json(String::from_str("non-string member"))),
    }
}

pub open spec fn image_decodes(v: JsonValue) -> bool {
    text_member(v, "#text"@) is Some && text_member(v, "size"@) is Some
}

pub open spec fn image_matches(i: Image, v: JsonValue) -> bool {
    Some(i.url@) == text_member(v, "#text"@) && Some(i.size@) == text_member(v, "size"@)
}

impl Image {
    pub fn from_json(v: &JsonValue) -> (r: Result<Image>)
        ensures
            r is Ok <==> image_decodes(*v),
            match r {
                Ok(i) => image_matches(i, *v),
                Err(e) => e is Json,
            },
    {
        let url = match read_text(v, "#text") {
            Ok(s) => s,
            Err(e) => {
                return Err(e);
            },
        };
        let size = match read_text(v, "size") {
            Ok(s) => s,
            Err(e) => {
                return Err(e);
            },
        };
        Ok(Image { url, size })
    }
}

pub open spec fn artist_decodes(v: JsonValue) -> bool {
    &&& text_member(v, "name"@) is Some
    &&& text_member_or_empty(v, "mbid"@) is Some
    &&& text_member(v, "url"@) is Some
}

pub open spec fn artist_matches(a: Artist, v: JsonValue) -> bool {
    &&& Some(a.name@) == text_member(v, "name"@)
    &&& Some(a.mbid@) == text_member_or_empty(v, "mbid"@)
    &&& Some(a.url@) == text_member(v, "url"@)
}

impl Artist {
    pub fn from_json(v: &JsonValue) -> (r: Result<Artist>)
        ensures
            r is Ok <==> artist_decodes(*v),
            match r {
                Ok(a) => artist_matches(a, *v),
                Err(e) => e is Json,
            },
    {
        let name = match read_text(v, "name") {
            Ok(s) => s,
            Err(e) => {
                return Err(e);
            },
        };
        let mbid = match read_text_or_empty(v, "mbid") {
            Ok(s) => s,
            Err(e) => {
                return Err(e);
            },
        };
        let url = match read_text(v, "url") {
            Ok(s) => s,
            Err(e) => {
                return Err(e);
            },
        };
        Ok(Artist { name, mbid, url })
    }
}

impl AlbumAttr {
    pub fn from_json(v: &JsonValue) -> (r: Result<AlbumAttr>)
        ensures
            r is Ok <==> text_member(*v, "position"@) is Some,
            match r {
                Ok(a) => Some(a.position@) == text_member(*v, "position"@),
                Err(e) => e is Json,
            },
    {
        match read_text(v, "position") {
            Ok(position) => Ok(AlbumAttr { position }),
            Err(e) => Err(e),
        }
    }
}

/// The image list: empty when missing, otherwise an array whose every
/// element decodes.
pub open spec fn images_decode(v: Option<JsonValue>) -> bool {
    match v {
        None => true,
        Some(JsonValue::Array(items)) => forall|i: int|
            0 <= i < items@.len() ==> image_decodes(#[trigger] items@[i]),
        _ => false,
    }
}

/// The tag list: empty when missing, otherwise an array whose every element
/// decodes.
pub open spec fn tags_decode(v: Option<JsonValue>) -> bool {
    match v {
        None => true,
        Some(JsonValue::Array(items)) => forall|i: int|
            0 <= i < items@.len() ==> tag_decodes(#[trigger] items@[i]),
        _ => false,
    }
}

pub open spec fn images_match(r: Seq<Image>, v: Option<JsonValue>) -> bool {
    match v {
        Some(JsonValue::Array(items)) => r.len() == items@.len() && forall|i: int|
            0 <= i < r.len() ==> image_matches(#[trigger] r[i], items@[i]),
        _ => r.len() == 0,
    }
}

fn read_images(v: Option<&JsonValue>) -> (r: Result<Vec<Image>>)
    ensures
        r is Ok <==> images_decode(deref_opt(v)),
        match r {
            Ok(list) => images_match(list@, deref_opt(v)),
            Err(e) => e is Json,
        },
{
    match v {
        None => Ok(Vec::new()),
        Some(JsonValue::Array(items)) => {
            let mut out: Vec<Image> = Vec::new();
            let n = items.len();
            let mut i: usize = 0;
            while i < n
                invariant
                    n == items@.len(),
                    i <= n,
                    out@.len() == i,
                    deref_opt(v) == Some(JsonValue::Array(*items)),
                    forall|j: int| 0 <= j < i ==> image_decodes(#[trigger] items@[j]),
                    forall|j: int| 0 <= j < i ==> image_matches(#[trigger] out@[j], items@[j]),
                decreases n - i,
            {
                match Image::from_json(&items[i]) {
                    Ok(img) => out.push(img),
                    Err(e) => {
                        assert(!image_decodes(items@[i as int]));
                        assert(deref_opt(v) matches Some(JsonValue::Array(a)) && a@ == items@);
                        return Err(e);
                    },
                }
                i = i + 1;
            }
            Ok(out)
        },
        Some(_) => Err(Error::Json(String::from_str("expected an array"))),
    }
}

pub open spec fn album_decodes(v: JsonValue) -> bool {
    &&& text_member(v, "artist"@) is Some
    &&& text_member(v, "title"@) is Some
    &&& text_member_or_empty(v, "mbid"@) is Some
    &&& text_member(v, "url"@) is Some
    &&& images_decode(v.field("image"@))
    &&& present(v.field("@attr"@)) ==> text_member(v.field("@attr"@)->0, "position"@) is Some
}

pub open spec fn album_matches(a: Album, v: JsonValue) -> bool {
    &&& Some(a.artist@) == text_member(v, "artist"@)
    &&& Some(a.title@) == text_member(v, "title"@)
    &&& Some(a.mbid@) == text_member_or_empty(v, "mbid"@)
    &&& Some(a.url@) == text_member(v, "url"@)
    &&& images_match(a.image@, v.field("image"@))
    &&& if present(v.field("@attr"@)) {
        a.attr matches Some(t) && Some(t.position@) == text_member(v.field("@attr"@)->0, "position"@)
    } else {
        a.attr is None
    }
}

impl Album {
    pub fn from_json(v: &JsonValue) -> (r: Result<Album>)
        ensures
            r is Ok <==> album_decodes(*v),
            match r {
                Ok(a) => album_matches(a, *v),
                Err(e) => e is Json,
            },
    {
        let artist = match read_text(v, "artist") {
            Ok(s) => s,
            Err(e) => {
                return Err(e);
            },
        };
        let title = match read_text(v, "title") {
            Ok(s) => s,
            Err(e) => {
                return Err(e);
            },
        };
        let mbid = match read_text_or_empty(v, "mbid") {
            Ok(s) => s,
            Err(e) => {
                return Err(e);
            },
        };
        let url = match read_text(v, "url") {
            Ok(s) => s,
            Err(e) => {
                return Err(e);
            },
        };
        let image = match read_images(v.get("image")) {
            Ok(s) => s,
            Err(e) => {
                return Err(e);
            },
        };
        let attr = match v.get("@attr") {
            None => None,
            Some(JsonValue::Null) => None,
            Some(a) => match AlbumAttr::from_json(a) {
                Ok(t) => Some(t),
                Err(e) => {
                    return Err(e);
                },
            },
        };
        Ok(Album { artist, title, mbid, url, image, attr })
    }
}

pub open spec fn tag_decodes(v: JsonValue) -> bool {
    text_member(v, "name"@) is Some && text_member(v, "url"@) is Some
}

pub open spec fn tag_matches(t: Tag, v: JsonValue) -> bool {
    Some(t.name@) == text_member(v, "name"@) && Some(t.url@) == text_member(v, "url"@)
}

impl Tag {
    pub fn from_json(v: &JsonValue) -> (r: Result<Tag>)
        ensures
            r is Ok <==> tag_decodes(*v),
            match r {
                Ok(t) => tag_matches(t, *v),
                Err(e) => e is Json,
            },
    {
        let name = match read_text(v, "name") {
            Ok(s) => s,
            Err(e) => {
                return Err(e);
            },
        };
        let url = match read_text(v, "url") {
            Ok(s) => s,
            Err(e) => {
                return Err(e);
            },
        };
        Ok(Tag { name, url })
    }
}

pub open spec fn tags_match(r: Seq<Tag>, v: Option<JsonValue>) -> bool {
    match v {
        Some(JsonValue::Array(items)) => r.len() == items@.len() && forall|i: int|
            0 <= i < r.len() ==> tag_matches(#[trigger] r[i], items@[i]),
        _ => r.len() == 0,
    }
}

pub open spec fn toptags_decode(v: JsonValue) -> bool {
    v is Object && tags_decode(v.field("tag"@))
}

impl TopTags {
    pub fn from_json(v: &JsonValue) -> (r: Result<TopTags>)
        ensures
            r is Ok <==> toptags_decode(*v),
            match r {
                Ok(t) => tags_match(t.tag@, v.field("tag"@)),
                Err(e) => e is Json,
            },
    {
        if !matches!(v, JsonValue::Object(_)) {
            return Err(Error::Json(String::from_str("expected an object")));
        }
        match v.get("tag") {
            None => Ok(TopTags { tag: Vec::new() }),
            Some(JsonValue::Array(items)) => {
                let mut out: Vec<Tag> = Vec::new();
                let n = items.len();
                let mut i: usize = 0;
                while i < n
                    invariant
                        n == items@.len(),
                        i <= n,
                        out@.len() == i,
                        v is Object,
                        v.field("tag"@) == Some(JsonValue::Array(*items)),
                        forall|j: int| 0 <= j < i ==> tag_decodes(#[trigger] items@[j]),
                        forall|j: int| 0 <= j < i ==> tag_matches(#[trigger] out@[j], items@[j]),
                    decreases n - i,
                {
                    match Tag::from_json(&items[i]) {
                        Ok(t) => out.push(t),
                        Err(e) => {
                            assert(!tag_decodes(items@[i as int]));
                            assert(v.field("tag"@) matches Some(JsonValue::Array(a)) && a@ == items@);
                            return Err(e);
                        },
                    }
                    i = i + 1;
                }
                Ok(TopTags { tag: out })
            },
            Some(_) => Err(Error::Json(String::from_str("expected an array"))),
        }
    }
}

pub open spec fn wiki_decodes(v: JsonValue) -> bool {
    &&& text_member(v, "published"@) is Some
    &&& text_member(v, "summary"@) is Some
    &&& text_member(v, "content"@) is Some
}

pub open spec fn wiki_matches(w: Wiki, v: JsonValue) -> bool {
    &&& Some(w.published@) == text_member(v, "published"@)
    &&& Some(w.summary@) == text_member(v, "summary"@)
    &&& Some(w.content@) == text_member(v, "content"@)
}

impl Wiki {
    pub fn from_json(v: &JsonValue) -> (r: Result<Wiki>)
        ensures
            r is Ok <==> wiki_decodes(*v),
            match r {
                Ok(w) => wiki_matches(w, *v),
                Err(e) => e is Json,
            },
    {
        let published = match read_text(v, "published") {
            Ok(s) => s,
            Err(e) => {
                return Err(e);
            },
        };
        let summary = match read_text(v, "summary") {
            Ok(s) => s,
            Err(e) => {
                return Err(e);
            },
        };
        let content = match read_text(v, "content") {
            Ok(s) => s,
            Err(e) => {
                return Err(e);
            },
        };
        Ok(Wiki { published, summary, content })
    }
}

pub open spec fn streamable_decodes(v: JsonValue) -> bool {
    text_member(v, "#text"@) is Some && text_member(v, "fulltrack"@) is Some
}

pub open spec fn streamable_matches(s: Streamable, v: JsonValue) -> bool {
    Some(s.text@) == text_member(v, "#text"@) && Some(s.fulltrack@) == text_member(
        v,
        "fulltrack"@,
    )
}

impl Streamable {
    pub fn from_json(v: &JsonValue) -> (r: Result<Streamable>)
        ensures
            r is Ok <==> streamable_decodes(*v),
            match r {
                Ok(s) => streamable_matches(s, *v),
                Err(e) => e is Json,
            },
    {
        let text = match read_text(v, "#text") {
            Ok(s) => s,
            Err(e) => {
                return Err(e);
            },
        };
        let fulltrack = match read_text(v, "fulltrack") {
            Ok(s) => s,
            Err(e) => {
                return Err(e);
            },
        };
        Ok(Streamable { text, fulltrack })
    }
}

pub open spec fn track_decodes(v: JsonValue) -> bool {
    &&& text_member(v, "name"@) is Some
    &&& text_member_or_empty(v, "mbid"@) is Some
    &&& text_member(v, "url"@) is Some
    &&& lenient_optional_count(v.field("duration"@)) is Some
    &&& present(v.field("streamable"@)) ==> streamable_decodes(v.field("streamable"@)->0)
    &&& lenient_count(v.field("listeners"@)) is Some
    &&& lenient_count(v.field("playcount"@)) is Some
    &&& v.field("artist"@) is Some && artist_decodes(v.field("artist"@)->0)
    &&& present(v.field("album"@)) ==> album_decodes(v.field("album"@)->0)
    &&& lenient_optional_count(v.field("userplaycount"@)) is Some
    &&& lenient_optional_count(v.field("userloved"@)) is Some
    &&& present(v.field("toptags"@)) ==> toptags_decode(v.field("toptags"@)->0)
    &&& present(v.field("wiki"@)) ==> wiki_decodes(v.field("wiki"@)->0)
}

pub open spec fn track_matches(t: TrackInfo, v: JsonValue) -> bool {
    &&& Some(t.name@) == text_member(v, "name"@)
    &&& Some(t.mbid@) == text_member_or_empty(v, "mbid"@)
    &&& Some(t.url@) == text_member(v, "url"@)
    &&& Some(t.duration) == lenient_optional_count(v.field("duration"@))
    &&& Some(t.listeners) == lenient_count(v.field("listeners"@))
    &&& Some(t.playcount) == lenient_count(v.field("playcount"@))
    &&& Some(t.userplaycount) == lenient_optional_count(v.field("userplaycount"@))
    &&& Some(t.userloved) == lenient_optional_count(v.field("userloved"@))
    &&& artist_matches(t.artist, v.field("artist"@)->0)
    &&& if present(v.field("streamable"@)) {
        t.streamable matches Some(s) && streamable_matches(s, v.field("streamable"@)->0)
    } else {
        t.streamable is None
    }
    &&& if present(v.field("album"@)) {
        t.album matches Some(a) && album_matches(a, v.field("album"@)->0)
    } else {
        t.album is None
    }
    &&& if present(v.field("toptags"@)) {
        t.toptags matches Some(g) && tags_match(g.tag@, v.field("toptags"@)->0.field("tag"@))
    } else {
        t.toptags is None
    }
    &&& if present(v.field("wiki"@)) {
        t.wiki matches Some(w) && wiki_matches(w, v.field("wiki"@)->0)
    } else {
        t.wiki is None
    }
}

impl TrackInfo {
    /// Decodes a track object; counters sent as text are read leniently.
    pub fn from_json(v: &JsonValue) -> (r: Result<TrackInfo>)
        ensures
            r is Ok <==> track_decodes(*v),
            match r {
                Ok(t) => track_matches(t, *v),
                Err(e) => e is Json,
            },
    {
        let name = match read_text(v, "name") {
            Ok(s) => s,
            Err(e) => {
                return Err(e);
            },
        };
        let mbid = match read_text_or_empty(v, "mbid") {
            Ok(s) => s,
            Err(e) => {
                return Err(e);
            },
        };
        let url = match read_text(v, "url") {
            Ok(s) => s,
            Err(e) => {
                return Err(e);
            },
        };
        let duration = match deserialize_optional_string_as_u64(v.get("duration")) {
            Ok(n) => n,
            Err(e) => {
                return Err(e);
            },
        };
        let streamable = match v.get("streamable") {
            None => None,
            Some(JsonValue::Null) => None,
            Some(s) => match Streamable::from_json(s) {
                Ok(x) => Some(x),
                Err(e) => {
                    return Err(e);
                },
            },
        };
        let listeners = match deserialize_string_as_u64(v.get("listeners")) {
            Ok(n) => n,
            Err(e) => {
                return Err(e);
            },
        };
        let playcount = match deserialize_string_as_u64(v.get("playcount")) {
            Ok(n) => n,
            Err(e) => {
                return Err(e);
            },
        };
        let artist = match v.get("artist") {
            Some(a) => match Artist::from_json(a) {
                Ok(x) => x,
                Err(e) => {
                    return Err(e);
                },
            },
            None => {
                return Err(Error::Json(String::from_str("missing artist")));
            },
        };
        let album = match v.get("album") {
            None => None,
            Some(JsonValue::Null) => None,
            Some(a) => match Album::from_json(a) {
                Ok(x) => Some(x),
                Err(e) => {
                    return Err(e);
                },
            },
        };
        let userplaycount = match deserialize_optional_string_as_u64(v.get("userplaycount")) {
            Ok(n) => n,
            Err(e) => {
                return Err(e);
            },
        };
        let userloved = match deserialize_optional_string_as_u64(v.get("userloved")) {
            Ok(n) => n,
            Err(e) => {
                return Err(e);
            },
        };
        let toptags = match v.get("toptags") {
            None => None,
            Some(JsonValue::Null) => None,
            Some(g) => match TopTags::from_json(g) {
                Ok(x) => Some(x),
                Err(e) => {
                    return Err(e);
                },
            },
        };
        let wiki = match v.get("wiki") {
            None => None,
            Some(JsonValue::Null) => None,
            Some(w) => match Wiki::from_json(w) {
                Ok(x) => Some(x),
                Err(e) => {
                    return Err(e);
                },
            },
        };
        Ok(
            TrackInfo {
                name,
                mbid,
                url,
                duration,
                streamable,
                listeners,
                playcount,
                artist,
                album,
                userplaycount,
                userloved,
                toptags,
                wiki,
            },
        )
    }
}

impl TrackInfoResponse {
    /// Decodes a track lookup reply: an object whose `track` member decodes.
    pub fn from_json(v: &JsonValue) -> (r: Result<TrackInfoResponse>)
        ensures
            r is Ok <==> (v.field("track"@) is Some && track_decodes(v.field("track"@)->0)),
            match r {
                Ok(t) => track_matches(t.track, v.field("track"@)->0),
                Err(e) => e is Json,
            },
    {
        match v.get("track") {
            Some(t) => match TrackInfo::from_json(t) {
                Ok(track) => Ok(TrackInfoResponse { track }),
                Err(e) => Err(e),
            },
            None => Err(Error::Json(String::from_str("missing track"))),
        }
    }
}

} // verus!
