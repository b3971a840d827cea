use vstd::prelude::*;

use url::Url;
use vstd::utf8::encode_utf8;

use crate::auth::{AuthToken, SessionKey};
use crate::auth_mode::{
    join_url, parse_url, url_accepts, url_join_accepts, url_joined, url_parsed, AuthMode,
};
use crate::error::{Error, Result};
use crate::json::JsonValue;
use crate::number::{decimal, decimal_text, parse_u64, u64_of_text};
use crate::params::{set_pair, Pair, Params};
use crate::scrobble::{NowPlaying, Scrobble, ScrobbleResponse};
use crate::signature::{generate, md5_hex_of, signing_input};

verus! {

/// The service endpoint of keyed mode.
pub const API_BASE: &'static str = "https://ws.audioscrobbler.com/2.0/";

/// The page where a user authorizes a token.
pub const AUTH_URL: &'static str = "http://www.last.fm/api/auth/";

/// The most scrobbles that one request may carry.
pub const MAX_BATCH: usize = 50;

pub open spec fn api_base() -> Seq<char> {
    API_BASE@
}

/// The authorization page's address for `api_key` and `token`.
pub open spec fn auth_url(api_key: Seq<char>, token: Seq<char>) -> Seq<char> {
    AUTH_URL@ + "?api_key="@ + api_key + "&token="@ + token
}

/// `p` with `name` set to the value, when there is one.
pub open spec fn set_optional(p: Seq<Pair>, name: Seq<char>, value: Option<Seq<char>>) -> Seq<Pair> {
    match value {
        Some(v) => set_pair(p, name, v),
        None => p,
    }
}

pub open spec fn decimal_u32(n: Option<u32>) -> Option<Seq<char>> {
    match n {
        Some(v) => Some(decimal(v as nat)),
        None => None,
    }
}

pub open spec fn decimal_u64(n: Option<u64>) -> Option<Seq<char>> {
    match n {
        Some(v) => Some(decimal(v as nat)),
        None => None,
    }
}

/// The parameters as sent: `p`, its signature under `secret` as `api_sig`,
/// and `format=json`.
pub open spec fn signed(p: Seq<Pair>, secret: Seq<char>) -> Seq<Pair> {
    set_pair(
        set_pair(p, "api_sig"@, md5_hex_of(encode_utf8(signing_input(p, secret)))),
        "format"@,
        "json"@,
    )
}

/// `method` and `api_key`, the parameters that every keyed call carries.
pub open spec fn call_pairs(method: Seq<char>, api_key: Seq<char>) -> Seq<Pair> {
    set_pair(set_pair(Seq::empty(), "method"@, method), "api_key"@, api_key)
}

pub open spec fn token_pairs(api_key: Seq<char>) -> Seq<Pair> {
    call_pairs("auth.getToken"@, api_key)
}

pub open spec fn session_pairs(api_key: Seq<char>, token: Seq<char>) -> Seq<Pair> {
    set_pair(call_pairs("auth.getSession"@, api_key), "token"@, token)
}

pub open spec fn now_playing_pairs(api_key: Seq<char>, sk: Seq<char>, np: NowPlaying) -> Seq<Pair> {
    let p = set_pair(call_pairs("track.updateNowPlaying"@, api_key), "sk"@, sk);
    let p = set_pair(set_pair(p, "artist"@, np.artist@), "track"@, np.track@);
    let p = set_optional(p, "album"@, np.album.deep_view());
    let p = set_optional(p, "trackNumber"@, decimal_u32(np.track_number));
    let p = set_optional(p, "duration"@, decimal_u64(np.duration));
    let p = set_optional(p, "albumArtist"@, np.album_artist.deep_view());
    set_optional(p, "player"@, np.player.deep_view())
}

/// `name[i]`: a field of the `i`-th record of a batch.
pub open spec fn indexed(name: Seq<char>, i: nat) -> Seq<char> {
    name + "["@ + decimal(i) + "]"@
}

/// `p` with the fields of `rec`, the `i`-th record of a batch.
pub open spec fn record_pairs(p: Seq<Pair>, rec: Scrobble, i: nat) -> Seq<Pair> {
    let p = set_pair(p, indexed("artist"@, i), rec.artist@);
    let p = set_pair(p, indexed("track"@, i), rec.track@);
    let p = set_pair(p, indexed("timestamp"@, i), decimal(rec.timestamp as nat));
    let p = set_optional(p, indexed("album"@, i), rec.album.deep_view());
    let p = set_optional(p, indexed("trackNumber"@, i), decimal_u32(rec.track_number));
    let p = set_optional(p, indexed("duration"@, i), decimal_u64(rec.duration));
    let p = set_optional(p, indexed("albumArtist"@, i), rec.album_artist.deep_view());
    set_optional(p, indexed("player"@, i), rec.player.deep_view())
}

/// `p` with the fields of every record of `recs`, indexed by position.
pub open spec fn batch_pairs(p: Seq<Pair>, recs: Seq<Scrobble>) -> Seq<Pair>
    decreases recs.len(),
{
    if recs.len() == 0 {
        p
    } else {
        record_pairs(batch_pairs(p, recs.drop_last()), recs.last(), (recs.len() - 1) as nat)
    }
}

pub open spec fn scrobble_pairs(api_key: Seq<char>, sk: Seq<char>, recs: Seq<Scrobble>) -> Seq<Pair> {
    batch_pairs(set_pair(call_pairs("track.scrobble"@, api_key), "sk"@, sk), recs)
}

/// The unsigned parameters of a track lookup.
pub open spec fn track_info_pairs(
    api_key: Seq<char>,
    artist: Seq<char>,
    track: Seq<char>,
    mbid: Option<Seq<char>>,
) -> Seq<Pair> {
    let p = set_pair(set_pair(call_pairs("track.getInfo"@, api_key), "artist"@, artist), "track"@, track);
    set_pair(set_optional(p, "mbid"@, mbid), "format"@, "json"@)
}

/// The message of an error member: a number or a string as written, the
/// `message` string of an object that has one, and a fixed text otherwise.
pub open spec fn error_text(e: JsonValue) -> Seq<char> {
    match e {
        JsonValue::Null => "null"@,
        JsonValue::Bool(b) => if b {
            "true"@
        } else {
            "false"@
        },
        JsonValue::Number(t) => t@,
        JsonValue::Str(s) => s@,
        JsonValue::Object(_) => match e.field("message"@) {
            Some(JsonValue::Str(m)) => m@,
            _ => "unrecognized error value"@,
        },
        _ => "unrecognized error value"@,
    }
}

/// The value of a count in a reply: a number that fits in 32 bits.
pub open spec fn count_of(v: Option<JsonValue>) -> Option<u32> {
    match v {
        Some(JsonValue::Number(t)) => match u64_of_text(t@) {
            Some(n) => if n <= u32::MAX {
                Some(n as u32)
            } else {
                None
            },
            None => None,
        },
        _ => None,
    }
}

/// One outbound HTTP exchange that an operation asks for.
#[derive(Debug)]
pub enum Request {
    /// A GET to `url` with `query` as its query string.
    Get { url: String, query: Params },
    /// A POST to `url` with `form` as a form-encoded body.
    PostForm { url: String, form: Params },
    /// A POST to `url` with the operation's payload as a JSON body and
    /// `bearer` as the bearer credential.
    PostJson { url: Url, bearer: String },
}

/// A client of the service, in one of the two authentication modes.
#[derive(Debug)]
pub struct Client {
    pub auth: AuthMode,
}

fn text(s: &str) -> (r: String)
    ensures
        r@ == s@,
{
    String::from_str(s)
}

/// `params` signed with `secret`, with `format=json` added.
fn sign(params: Params, secret: &str) -> (r: Params)
    requires
        params.wf(),
    ensures
        r.wf(),
        r@ == signed(params@, secret@),
{
    let sig = generate(&params, secret);
    let mut p = params;
    p.insert(text("api_sig"), sig);
    p.insert(text("format"), text("json"));
    p
}

fn call_params(method: &str, api_key: &String) -> (r: Params)
    ensures
        r.wf(),
        r@ == call_pairs(method@, api_key@),
{
    let mut p = Params::new();
    p.insert(text("method"), text(method));
    p.insert(text("api_key"), api_key.clone());
    p
}

fn insert_optional(p: &mut Params, name: &str, value: Option<String>)
    requires
        old(p).wf(),
    ensures
        final(p).wf(),
        final(p)@ == set_optional(old(p)@, name@, value.deep_view()),
{
    match value {
        Some(v) => p.insert(text(name), v),
        None => {},
    }
}

fn optional_text(s: &Option<String>) -> (r: Option<String>)
    ensures
        r.deep_view() == s.deep_view(),
{
    match s {
        Some(v) => Some(v.clone()),
        None => None,
    }
}

fn optional_decimal_u32(n: Option<u32>) -> (r: Option<String>)
    ensures
        r.deep_view() == decimal_u32(n),
{
    match n {
        Some(v) => Some(decimal_text(v as u64)),
        None => None,
    }
}

fn optional_decimal_u64(n: Option<u64>) -> (r: Option<String>)
    ensures
        r.deep_view() == decimal_u64(n),
{
    match n {
        Some(v) => Some(decimal_text(v)),
        None => None,
    }
}

fn indexed_name(name: &str, i: usize) -> (r: String)
    ensures
        r@ == indexed(name@, i as nat),
{
    let mut s = text(name);
    s.append("[");
    s.append(decimal_text(i as u64).as_str());
    s.append("]");
    s
}

fn insert_record(p: &mut Params, rec: &Scrobble, i: usize)
    requires
        old(p).wf(),
    ensures
        final(p).wf(),
        final(p)@ == record_pairs(old(p)@, *rec, i as nat),
{
    p.insert(indexed_name("artist", i), rec.artist.clone());
    p.insert(indexed_name("track", i), rec.track.clone());
    p.insert(indexed_name("timestamp", i), decimal_text(rec.timestamp));
    insert_optional(p, indexed_name("album", i).as_str(), optional_text(&rec.album));
    insert_optional(
        p,
        indexed_name("trackNumber", i).as_str(),
        optional_decimal_u32(rec.track_number),
    );
    insert_optional(p, indexed_name("duration", i).as_str(), optional_decimal_u64(rec.duration));
    insert_optional(
        p,
        indexed_name("albumArtist", i).as_str(),
        optional_text(&rec.album_artist),
    );
    insert_optional(p, indexed_name("player", i).as_str(), optional_text(&rec.player));
}

impl Client {
    /// A keyed-mode client with no session key.
    pub fn new(api_key: &str, secret: &str) -> (r: Self)
        ensures
            r.auth.is_keyed(),
            r.auth.key_view() == Some(api_key@),
            r.auth.secret_view() == Some(secret@),
            r.auth.session_view() is None,
    {
        Client { auth: AuthMode::lastfm(api_key, secret) }
    }

    /// The client with `session_key` set; a token-mode client is unchanged.
    pub fn with_session_key(self, session_key: &str) -> (r: Self)
        ensures
            self.auth.is_keyed() ==> {
                &&& r.auth.is_keyed()
                &&& r.auth.key_view() == self.auth.key_view()
                &&& r.auth.secret_view() == self.auth.secret_view()
                &&& r.auth.session_view() == Some(session_key@)
            },
            !self.auth.is_keyed() ==> r == self,
    {
        let mut c = self;
        c.auth.set_session_key(session_key);
        c
    }

    /// A token-mode client against `base_url`, which must parse as a URL.
    pub fn with_token(base_url: &str, token: &str) -> (r: Result<Self>)
        ensures
            r is Ok <==> url_accepts(base_url@),
            match r {
                Ok(c) => c.auth matches AuthMode::Token { base_url: u, .. } && u == url_parsed(
                    base_url@,
                ) && c.auth.token_view() == Some(token@),
                Err(e) => e is UrlParse,
            },
    {
        match parse_url(base_url) {
            Ok(u) => Ok(Client { auth: AuthMode::token(u, token) }),
            Err(e) => Err(Error::UrlParse(e)),
        }
    }

    /// The request for a new authentication token (keyed mode only).
    pub fn get_token_request(&self) -> (r: Result<Request>)
        ensures
            match self.auth {
                AuthMode::LastFm { api_key, api_secret, .. } => r matches Ok(
                    Request::Get { url, query },
                ) && url@ == api_base() && query.wf() && query@ == signed(
                    token_pairs(api_key@),
                    api_secret@,
                ),
                AuthMode::Token { .. } => r matches Err(Error::Auth(_)),
            },
    {
        match &self.auth {
            AuthMode::LastFm { api_key, api_secret, .. } => {
                let p = call_params("auth.getToken", api_key);
                Ok(Request::Get { url: text(API_BASE), query: sign(p, api_secret.as_str()) })
            },
            AuthMode::Token { .. } => Err(
                Error::Auth(text("get_token() is only available in Last.fm mode")),
            ),
        }
    }

    /// The token in a reply to the token request, or the error it reports.
    pub fn read_token_reply(json: &JsonValue) -> (r: Result<AuthToken>)
        ensures
            match json.field("token"@) {
                Some(t) => match t.text() {
                    Some(s) => r matches Ok(a) && a.token@ == s,
                    None => r matches Err(Error::Json(_)),
                },
                None => match json.field("error"@) {
                    Some(e) => r matches Err(Error::Api(m)) && m@ == error_text(e),
                    None => r matches Err(Error::Json(_)),
                },
            },
    {
        match json.get("token") {
            Some(t) => match t.as_str() {
                Some(s) => Ok(AuthToken { token: s.clone() }),
                None => Err(Error::Json(text("token is not a string"))),
            },
            None => match json.get("error") {
                Some(e) => Err(Error::Api(error_message(e))),
                None => Err(Error::Json(text("Unexpected response format"))),
            },
        }
    }

    /// The page where the user authorizes `token` (keyed mode only).
    pub fn get_auth_url(&self, token: &AuthToken) -> (r: Result<String>)
        ensures
            match self.auth {
                AuthMode::LastFm { api_key, .. } => r matches Ok(u) && u@ == auth_url(
                    api_key@,
                    token.token@,
                ),
                AuthMode::Token { .. } => r matches Err(Error::Auth(_)),
            },
    {
        match &self.auth {
            AuthMode::LastFm { api_key, .. } => {
                let mut u = text(AUTH_URL);
                u.append("?api_key=");
                u.append(api_key.as_str());
                u.append("&token=");
                u.append(token.token.as_str());
                Ok(u)
            },
            AuthMode::Token { .. } => Err(
                Error::Auth(text("get_auth_url() is only available in Last.fm mode")),
            ),
        }
    }

    /// The request that exchanges an authorized token for a session key
    /// (keyed mode only).
    pub fn get_session_request(&self, token: &AuthToken) -> (r: Result<Request>)
        ensures
            match self.auth {
                AuthMode::LastFm { api_key, api_secret, .. } => r matches Ok(
                    Request::Get { url, query },
                ) && url@ == api_base() && query.wf() && query@ == signed(
                    session_pairs(api_key@, token.token@),
                    api_secret@,
                ),
                AuthMode::Token { .. } => r matches Err(Error::Auth(_)),
            },
    {
        match &self.auth {
            AuthMode::LastFm { api_key, api_secret, .. } => {
                let mut p = call_params("auth.getSession", api_key);
                p.insert(text("token"), token.token.clone());
                Ok(Request::Get { url: text(API_BASE), query: sign(p, api_secret.as_str()) })
            },
            AuthMode::Token { .. } => Err(
                Error::Auth(text("get_session() is only available in Last.fm mode")),
            ),
        }
    }

    /// The session in a reply to the session request, or the error it
    /// reports.
    pub fn read_session_reply(json: &JsonValue) -> (r: Result<SessionKey>)
        ensures
            match json.field("session"@) {
                Some(s) => match (s.field("key"@), s.field("name"@)) {
                    (Some(k), Some(n)) => match (k.text(), n.text()) {
                        (Some(kt), Some(nt)) => r matches Ok(sk) && sk.key@ == kt && sk.name@
                            == nt,
                        _ => r matches Err(Error::Json(_)),
                    },
                    _ => r matches Err(Error::Json(_)),
                },
                None => match json.field("error"@) {
                    Some(e) => r matches Err(Error::Api(m)) && m@ == error_text(e),
                    None => r matches Err(Error::Json(_)),
                },
            },
    {
        match json.get("session") {
            Some(s) => {
                let key = match s.get("key") {
                    Some(k) => k.as_str(),
                    None => None,
                };
                let name = match s.get("name") {
                    Some(n) => n.as_str(),
                    None => None,
                };
                match (key, name) {
                    (Some(k), Some(n)) => Ok(SessionKey { key: k.clone(), name: n.clone() }),
                    _ => Err(Error::Json(text("session key or name is not a string"))),
                }
            },
            None => match json.get("error") {
                Some(e) => Err(Error::Api(error_message(e))),
                None => Err(Error::Json(text("Unexpected response format"))),
            },
        }
    }

    /// The request that reports `now_playing`. Keyed mode needs a session key.
    /// In token mode the payload goes as JSON to `now` under the base URL.
    pub fn update_now_playing_request(&self, now_playing: &NowPlaying) -> (r: Result<Request>)
        ensures
            match self.auth {
                AuthMode::LastFm { api_key, api_secret, session_key } => match session_key {
                    Some(sk) => r matches Ok(Request::PostForm { url, form }) && url@
                        == api_base() && form.wf() && form@ == signed(
                        now_playing_pairs(api_key@, sk@, *now_playing),
                        api_secret@,
                    ),
                    None => r matches Err(Error::Auth(_)),
                },
                AuthMode::Token { base_url, token } => (r is Ok <==> url_join_accepts(
                    base_url,
                    "now"@,
                )) && match r {
                    Ok(req) => req matches Request::PostJson { url, bearer } && url == url_joined(
                        base_url,
                        "now"@,
                    ) && bearer@ == token@,
                    Err(e) => e is UrlParse,
                },
            },
    {
        match &self.auth {
            AuthMode::LastFm { api_key, api_secret, session_key } => {
                let sk = match session_key {
                    Some(sk) => sk,
                    None => {
                        return Err(Error::Auth(text("Session key required")));
                    },
                };
                let mut p = call_params("track.updateNowPlaying", api_key);
                p.insert(text("sk"), sk.clone());
                p.insert(text("artist"), now_playing.artist.clone());
                p.insert(text("track"), now_playing.track.clone());
                insert_optional(&mut p, "album", optional_text(&now_playing.album));
                insert_optional(
                    &mut p,
                    "trackNumber",
                    optional_decimal_u32(now_playing.track_number),
                );
                insert_optional(&mut p, "duration", optional_decimal_u64(now_playing.duration));
                insert_optional(&mut p, "albumArtist", optional_text(&now_playing.album_artist));
                insert_optional(&mut p, "player", optional_text(&now_playing.player));
                Ok(Request::PostForm { url: text(API_BASE), form: sign(p, api_secret.as_str()) })
            },
            AuthMode::Token { base_url, token } => match join_url(base_url, "now") {
                Ok(url) => Ok(Request::PostJson { url, bearer: token.clone() }),
                Err(e) => Err(Error::UrlParse(e)),
            },
        }
    }

    /// The outcome of a now-playing report in keyed mode, from its reply:
    /// an `error` member fails with the reply's `message`.
    pub fn read_now_playing_reply(json: &JsonValue) -> (r: Result<()>)
        ensures
            match json.field("error"@) {
                Some(e) => match json.field("message"@) {
                    Some(m) if m.text() is Some => r matches Err(Error::Api(t)) && t@
                        == m.text()->0,
                    _ => r matches Err(Error::Api(t)) && t@ == error_text(e),
                },
                None => r is Ok,
            },
    {
        match json.get("error") {
            Some(e) => {
                let message = match json.get("message") {
                    Some(m) => m.as_str(),
                    None => None,
                };
                match message {
                    Some(m) => Err(Error::Api(m.clone())),
                    None => Err(Error::Api(error_message(e))),
                }
            },
            None => Ok(()),
        }
    }

    /// The request that submits `scrobbles`: 1 to 50 of them, or it fails
    /// with `InvalidParameter` before anything else. Keyed mode needs a
    /// session key and sends each record's fields under indexed names. In
    /// token mode the batch goes as JSON to `scrob` under the base URL.
    pub fn scrobble_request(&self, scrobbles: &[Scrobble]) -> (r: Result<Request>)
        ensures
            scrobbles@.len() == 0 || scrobbles@.len() > 50 ==> (r matches Err(
                Error::InvalidParameter(_),
            )),
            1 <= scrobbles@.len() <= 50 ==> match self.auth {
                AuthMode::LastFm { api_key, api_secret, session_key } => match session_key {
                    Some(sk) => r matches Ok(Request::PostForm { url, form }) && url@
                        == api_base() && form.wf() && form@ == signed(
                        scrobble_pairs(api_key@, sk@, scrobbles@),
                        api_secret@,
                    ),
                    None => r matches Err(Error::Auth(_)),
                },
                AuthMode::Token { base_url, token } => (r is Ok <==> url_join_accepts(
                    base_url,
                    "scrob"@,
                )) && match r {
                    Ok(req) => req matches Request::PostJson { url, bearer } && url == url_joined(
                        base_url,
                        "scrob"@,
                    ) && bearer@ == token@,
                    Err(e) => e is UrlParse,
                },
            },
    {
        let n = scrobbles.len();
        if n == 0 {
            return Err(Error::InvalidParameter(text("No scrobbles provided")));
        }
        if n > MAX_BATCH {
            return Err(Error::InvalidParameter(text("Maximum 50 scrobbles per request")));
        }
        match &self.auth {
            AuthMode::LastFm { api_key, api_secret, session_key } => {
                let sk = match session_key {
                    Some(sk) => sk,
                    None => {
                        return Err(Error::Auth(text("Session key required")));
                    },
                };
                let mut p = call_params("track.scrobble", api_key);
                p.insert(text("sk"), sk.clone());
                let ghost start = p@;
                let mut i: usize = 0;
                while i < n
                    invariant
                        n == scrobbles@.len(),
                        i <= n,
                        p.wf(),
                        p@ == batch_pairs(start, scrobbles@.subrange(0, i as int)),
                    decreases n - i,
                {
                    let ghost done = scrobbles@.subrange(0, i + 1);
                    assert(done.drop_last() =~= scrobbles@.subrange(0, i as int));
                    insert_record(&mut p, &scrobbles[i], i);
                    i = i + 1;
                }
                assert(scrobbles@.subrange(0, n as int) =~= scrobbles@);
                Ok(Request::PostForm { url: text(API_BASE), form: sign(p, api_secret.as_str()) })
            },
            AuthMode::Token { base_url, token } => match join_url(base_url, "scrob") {
                Ok(url) => Ok(Request::PostJson { url, bearer: token.clone() }),
                Err(e) => Err(Error::UrlParse(e)),
            },
        }
    }

    /// The request that looks up a track's metadata by artist and title,
    /// with `mbid` to tell apart tracks of the same name. It is not signed,
    /// but it carries the API key, so it needs keyed mode. The reply decodes
    /// with `TrackInfoResponse::from_json`.
    pub fn track_get_info_request(&self, artist: &str, track: &str, mbid: Option<&str>) -> (r:
        Result<Request>)
        ensures
            match self.auth {
                AuthMode::LastFm { api_key, .. } => r matches Ok(Request::Get { url, query })
                    && url@ == api_base() && query.wf() && query@ == track_info_pairs(
                    api_key@,
                    artist@,
                    track@,
                    match mbid {
                        Some(m) => Some(m@),
                        None => None,
                    },
                ),
                AuthMode::Token { .. } => r matches Err(Error::Auth(_)),
            },
    {
        match &self.auth {
            AuthMode::LastFm { api_key, .. } => {
                let mut p = call_params("track.getInfo", api_key);
                p.insert(text("artist"), text(artist));
                p.insert(text("track"), text(track));
                match mbid {
                    Some(m) => p.insert(text("mbid"), text(m)),
                    None => {},
                }
                p.insert(text("format"), text("json"));
                Ok(Request::Get { url: text(API_BASE), query: p })
            },
            AuthMode::Token { .. } => Err(
                Error::Auth(text("track lookup is only available in Last.fm mode")),
            ),
        }
    }

    /// The outcome of a submission of `submitted` scrobbles whose exchange
    /// succeeded. In token mode every record counts as accepted and none as
    /// ignored, whatever the reply says. In keyed mode an `error` member
    /// fails, and otherwise the counts come from `scrobbles.@attr`.
    pub fn read_scrobble_reply(&self, submitted: usize, json: &JsonValue) -> (r: Result<
        ScrobbleResponse,
    >)
        requires
            submitted <= MAX_BATCH,
        ensures
            !self.auth.is_keyed() ==> (r matches Ok(s) && s.accepted() == submitted && s.ignored()
                == 0),
            self.auth.is_keyed() ==> match json.field("error"@) {
                Some(e) => r matches Err(Error::Api(m)) && m@ == error_text(e),
                None => match json.field("scrobbles"@) {
                    Some(s) => match s.field("@attr"@) {
                        Some(a) => match (count_of(a.field("accepted"@)), count_of(
                            a.field("ignored"@),
                        )) {
                            (Some(acc), Some(ign)) => r matches Ok(s) && s.accepted() == acc
                                && s.ignored() == ign,
                            _ => r matches Err(Error::Json(_)),
                        },
                        None => r matches Err(Error::Json(_)),
                    },
                    None => r matches Err(Error::Json(_)),
                },
            },
    {
        match &self.auth {
            AuthMode::Token { .. } => Ok(ScrobbleResponse::with_counts(submitted as u32, 0)),
            AuthMode::LastFm { .. } => {
                if let Some(e) = json.get("error") {
                    return Err(Error::Api(error_message(e)));
                }
                let attr = match json.get("scrobbles") {
                    Some(s) => s.get("@attr"),
                    None => None,
                };
                match attr {
                    Some(a) => match (read_count(a.get("accepted")), read_count(a.get("ignored"))) {
                        (Some(acc), Some(ign)) => Ok(ScrobbleResponse::with_counts(acc, ign)),
                        _ => Err(Error::Json(text("scrobble counts are missing or invalid"))),
                    },
                    None => Err(Error::Json(text("scrobble counts are missing"))),
                }
            },
        }
    }
}

/// The message of an error member.
pub fn error_message(e: &JsonValue) -> (r: String)
    ensures
        r@ == error_text(*e),
{
    match e {
        JsonValue::Null => text("null"),
        JsonValue::Bool(b) => if *b {
            text("true")
        } else {
            text("false")
        },
        JsonValue::Number(t) => t.clone(),
        JsonValue::Str(s) => s.clone(),
        JsonValue::Object(_) => match e.get("message") {
            Some(JsonValue::Str(m)) => m.clone(),
            _ => text("unrecognized error value"),
        },
        _ => text("unrecognized error value"),
    }
}

/// A count in a reply: a number that fits in 32 bits.
pub fn read_count(v: Option<&JsonValue>) -> (r: Option<u32>)
    ensures
        r == count_of(
            match v {
                Some(x) => Some(*x),
                None => None,
            },
        ),
{
    match v {
        Some(JsonValue::Number(t)) => match parse_u64(t.as_str()) {
            Some(n) => if n <= u32::MAX as u64 {
                Some(n as u32)
            } else {
                None
            },
            None => None,
        },
        _ => None,
    }
}

} // verus!
