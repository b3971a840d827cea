use vstd::prelude::*;

use url::{ParseError, Url};

verus! {

#[verifier::external_type_specification]
#[verifier::external_body]
pub struct ExUrl(url::Url);

/// Whether `url::Url::parse` accepts `text` as an absolute URL.
pub uninterp spec fn url_accepts(text: Seq<char>) -> bool;

/// The URL that `url::Url::parse` makes of `text`, when it accepts it.
pub uninterp spec fn url_parsed(text: Seq<char>) -> Url;

/// Whether `url::Url::join` accepts `path` against `base`.
pub uninterp spec fn url_join_accepts(base: Url, path: Seq<char>) -> bool;

/// The URL that `url::Url::join` makes of `path` against `base`.
pub uninterp spec fn url_joined(base: Url, path: Seq<char>) -> Url;

/// Relies on `url::Url::parse`; its result depends on the text alone.
#[verifier::external_body]
pub(crate) fn parse_url(text: &str) -> (r: core::result::Result<Url, ParseError>)
    ensures
        r is Ok <==> url_accepts(text@),
        r matches Ok(u) ==> u == url_parsed(text@),
{
    Url::parse(text)
}

/// Relies on `url::Url::join`: `path` resolved against `base`; its result
/// depends on the two arguments alone.
#[verifier::external_body]
pub(crate) fn join_url(base: &Url, path: &str) -> (r: core::result::Result<Url, ParseError>)
    ensures
        r is Ok <==> url_join_accepts(*base, path@),
        r matches Ok(u) ==> u == url_joined(*base, path@),
{
    base.join(path)
}

/// How a client authenticates, and against which endpoint.
#[derive(Debug)]
pub enum AuthMode {
    /// The public service: an API key, the shared secret that signs every
    /// request, and a session key once the user has authorized the client.
    LastFm { api_key: String, api_secret: String, session_key: Option<String> },
    /// A compatible server at `base_url`, reached with a bearer token and
    /// JSON bodies, without signatures.
    Token { base_url: Url, token: String },
}

impl AuthMode {
    pub open spec fn is_keyed(&self) -> bool {
        self is LastFm
    }

    /// The API key, in keyed mode.
    pub open spec fn key_view(&self) -> Option<Seq<char>> {
        match self {
            AuthMode::LastFm { api_key, .. } => Some(api_key@),
            AuthMode::Token { .. } => None,
        }
    }

    /// The shared secret, in keyed mode.
    pub open spec fn secret_view(&self) -> Option<Seq<char>> {
        match self {
            AuthMode::LastFm { api_secret, .. } => Some(api_secret@),
            AuthMode::Token { .. } => None,
        }
    }

    /// The session key, in keyed mode once one is set.
    pub open spec fn session_view(&self) -> Option<Seq<char>> {
        match self {
            AuthMode::LastFm { session_key, .. } => session_key.deep_view(),
            AuthMode::Token { .. } => None,
        }
    }

    /// The bearer token, in token mode.
    pub open spec fn token_view(&self) -> Option<Seq<char>> {
        match self {
            AuthMode::LastFm { .. } => None,
            AuthMode::Token { token, .. } => Some(token@),
        }
    }

    /// Keyed mode with no session key yet.
    pub fn lastfm(api_key: &str, api_secret: &str) -> (r: Self)
        ensures
            r.is_keyed(),
            r.key_view() == Some(api_key@),
            r.secret_view() == Some(api_secret@),
            r.session_view() is None,
    {
        AuthMode::LastFm {
            api_key: String::from_str(api_key),
            api_secret: String::from_str(api_secret),
            session_key: None,
        }
    }

    /// Token mode against `base_url`.
    pub fn token(base_url: Url, token: &str) -> (r: Self)
        ensures
            r matches AuthMode::Token { base_url: b, .. } && b == base_url,
            r.token_view() == Some(token@),
    {
        AuthMode::Token { base_url, token: String::from_str(token) }
    }

    /// Sets the session key in keyed mode; in token mode nothing changes.
    pub fn set_session_key(&mut self, key: &str)
        ensures
            old(self).is_keyed() ==> {
                &&& final(self).is_keyed()
                &&& final(self).key_view() == old(self).key_view()
                &&& final(self).secret_view() == old(self).secret_view()
                &&& final(self).session_view() == Some(key@)
            },
            !old(self).is_keyed() ==> *final(self) == *old(self),
    {
        match self {
            AuthMode::LastFm { session_key, .. } => {
                *session_key = Some(String::from_str(key));
            },
            AuthMode::Token { .. } => {},
        }
    }

    /// The session key, in keyed mode once one is set.
    pub fn session_key(&self) -> (r: Option<&str>)
        ensures
            match r {
                Some(s) => self.session_view() == Some(s@),
                None => self.session_view() is None,
            },
    {
        match self {
            AuthMode::LastFm { session_key, .. } => match session_key {
                Some(k) => Some(k.as_str()),
                None => None,
            },
            AuthMode::Token { .. } => None,
        }
    }

    /// The API key, in keyed mode.
    pub fn api_key(&self) -> (r: Option<&str>)
        ensures
            match r {
                Some(s) => self.key_view() == Some(s@),
                None => self.key_view() is None,
            },
    {
        match self {
            AuthMode::LastFm { api_key, .. } => Some(api_key.as_str()),
            AuthMode::Token { .. } => None,
        }
    }

    /// The shared secret, in keyed mode.
    pub fn api_secret(&self) -> (r: Option<&str>)
        ensures
            match r {
                Some(s) => self.secret_view() == Some(s@),
                None => self.secret_view() is None,
            },
    {
        match self {
            AuthMode::LastFm { api_secret, .. } => Some(api_secret.as_str()),
            AuthMode::Token { .. } => None,
        }
    }

    pub fn is_lastfm(&self) -> (r: bool)
        ensures
            r == self.is_keyed(),
    {
        match self {
            AuthMode::LastFm { .. } => true,
            AuthMode::Token { .. } => false,
        }
    }

    pub fn is_token(&self) -> (r: bool)
        ensures
            r == !self.is_keyed(),
    {
        match self {
            AuthMode::LastFm { .. } => false,
            AuthMode::Token { .. } => true,
        }
    }
}

} // verus!
