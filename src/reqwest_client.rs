//! The HTTP client that both backends are reached with.
use vstd::prelude::*;

use crate::error::BackendError;

verus! {

/// reqwest's builder of clients, carried through unopened.
#[verifier::external_type_specification]
#[verifier::external_body]
pub struct ExClientBuilder(reqwest::ClientBuilder);

/// reqwest's asynchronous HTTP client, carried through unopened.
#[verifier::external_type_specification]
#[verifier::external_body]
pub struct ExClient(reqwest::Client);

/// reqwest's error, which only tells that building failed.
#[verifier::external_type_specification]
#[verifier::external_body]
pub struct ExError(reqwest::Error);

/// Relies on reqwest::ClientBuilder::new: a builder with reqwest's defaults.
pub assume_specification[ reqwest::ClientBuilder::new ]() -> reqwest::ClientBuilder;

/// Relies on reqwest::ClientBuilder::brotli: switches brotli decoding of bodies.
pub assume_specification[ reqwest::ClientBuilder::brotli ](b: reqwest::ClientBuilder, enable: bool) -> reqwest::ClientBuilder;

/// Relies on reqwest::ClientBuilder::cookie_store: switches keeping cookies between requests.
pub assume_specification[ reqwest::ClientBuilder::cookie_store ](b: reqwest::ClientBuilder, enable: bool) -> reqwest::ClientBuilder;

/// Relies on reqwest::ClientBuilder::gzip: switches gzip decoding of bodies.
pub assume_specification[ reqwest::ClientBuilder::gzip ](b: reqwest::ClientBuilder, enable: bool) -> reqwest::ClientBuilder;

/// Relies on reqwest::ClientBuilder::deflate: switches deflate decoding of bodies.
pub assume_specification[ reqwest::ClientBuilder::deflate ](b: reqwest::ClientBuilder, enable: bool) -> reqwest::ClientBuilder;

/// Relies on reqwest::ClientBuilder::build: a client, or an error where the
/// resolver or a TLS backend cannot be set up; it does not panic.
pub assume_specification[ reqwest::ClientBuilder::build ](b: reqwest::ClientBuilder) -> reqwest::Result<reqwest::Client>;

/// The message of the error returned when no client can be built.
pub open spec fn client_setup_failure() -> Seq<char> {
    "the HTTP client cannot be set up"@
}

/// A client that decodes brotli, gzip and deflate bodies and keeps cookies.
pub fn default_reqwest_client() -> (r: Result<reqwest::Client, BackendError>)
    ensures
        r matches Err(e) ==> e matches BackendError::Configuration(m) && m@ == client_setup_failure(),
{
    let built = reqwest::ClientBuilder::new().brotli(true).cookie_store(true).gzip(true).deflate(true).build();
    match built {
        Ok(c) => Ok(c),
        Err(_) => Err(BackendError::Configuration(String::from_str("the HTTP client cannot be set up"))),
    }
}

} // verus!
