use vstd::prelude::*;

verus! {

#[verifier::external_type_specification]
#[verifier::external_body]
pub struct ExParseError(url::ParseError);

/// Why an operation failed.
#[derive(Debug)]
pub enum Error {
    /// The request could not be sent, or the service answered with a failing
    /// HTTP status.
    Http(String),
    /// The reply was not JSON, or not of the shape the operation expects.
    Json(String),
    /// The service reported an error.
    Api(String),
    /// The operation does not apply to the client's authentication mode, or a
    /// session key is missing.
    Auth(String),
    /// A batch of scrobbles is empty or too large.
    InvalidParameter(String),
    /// A base URL could not be parsed or extended.
    UrlParse(url::ParseError),
}

pub type Result<T> = core::result::Result<T, Error>;

} // verus!
