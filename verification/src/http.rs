//! The HTTP client from `reqwest`, together with the settings it was handed.
//! Values of these types are made only by the functions below that call
//! reqwest, so what they record is what reqwest was given.

use vstd::prelude::*;
use std::time::Duration;

verus! {

#[verifier::external_type_specification]
#[verifier::external_body]
pub struct ExHttpClient(reqwest::Client);

#[verifier::external_type_specification]
#[verifier::external_body]
pub struct ExHttpClientBuilder(reqwest::ClientBuilder);

/// `reqwest::Client` is a handle to shared connection state; cloning it gives
/// another handle to that state. Nothing is stated of the opaque result.
pub assume_specification[ <reqwest::Client as Clone>::clone ](client: &reqwest::Client) -> reqwest::Client;

/// The view of an optional string.
pub open spec fn opt_string_view(s: Option<String>) -> Option<Seq<char>> {
    match s {
        Some(t) => Some(t@),
        None => None,
    }
}

/// A `reqwest::ClientBuilder` and the timeout and `User-Agent` handed to it.
#[derive(Debug)]
pub struct HttpBuilder {
    inner: reqwest::ClientBuilder,
    timeout: Option<Duration>,
    user_agent: Option<String>,
}

impl HttpBuilder {
    /// The timeout handed to the builder, if any.
    pub closed spec fn spec_timeout(&self) -> Option<Duration> {
        self.timeout
    }

    /// The `User-Agent` handed to the builder, if any.
    pub closed spec fn spec_user_agent(&self) -> Option<Seq<char>> {
        opt_string_view(self.user_agent)
    }
}

/// A `reqwest::Client` and the timeout and `User-Agent` it was built with.
#[derive(Debug)]
pub struct HttpClient {
    inner: reqwest::Client,
    timeout: Option<Duration>,
    user_agent: Option<String>,
}

impl HttpClient {
    /// The request timeout the client was built with, if any.
    pub closed spec fn spec_timeout(&self) -> Option<Duration> {
        self.timeout
    }

    /// The `User-Agent` the client was built with, if any.
    pub closed spec fn spec_user_agent(&self) -> Option<Seq<char>> {
        opt_string_view(self.user_agent)
    }

    /// The reqwest client itself.
    pub fn client(&self) -> &reqwest::Client {
        &self.inner
    }

    /// The request timeout the client was built with, if any.
    pub fn timeout(&self) -> (t: Option<Duration>)
        ensures
            t == self.spec_timeout(),
    {
        self.timeout
    }

    /// The `User-Agent` the client was built with, if any.
    pub fn user_agent(&self) -> (u: Option<&str>)
        ensures
            match u {
                Some(s) => self.spec_user_agent() == Some(s@),
                None => self.spec_user_agent() is None,
            },
    {
        match &self.user_agent {
            Some(s) => Some(s.as_str()),
            None => None,
        }
    }
}

impl Clone for HttpClient {
    /// Another handle to the same connection state, with the same settings.
    fn clone(&self) -> (c: Self)
        ensures
            c.spec_timeout() == self.spec_timeout(),
            c.spec_user_agent() == self.spec_user_agent(),
    {
        let user_agent = match &self.user_agent {
            Some(s) => Some(s.clone()),
            None => None,
        };
        HttpClient { inner: self.inner.clone(), timeout: self.timeout, user_agent }
    }
}

/// Calls `reqwest::Client::builder`: a builder with no timeout and no
/// `User-Agent` set (reqwest sets none of its own).
#[verifier::external_body]
pub fn http_client_builder() -> (b: HttpBuilder)
    ensures
        b.spec_timeout() is None,
        b.spec_user_agent() is None,
{
    HttpBuilder { inner: reqwest::Client::builder(), timeout: None, user_agent: None }
}

/// Calls `reqwest::ClientBuilder::timeout` with `timeout`, which reqwest
/// applies to every request of the client it builds.
#[verifier::external_body]
pub fn http_builder_timeout(builder: HttpBuilder, timeout: Duration) -> (b: HttpBuilder)
    ensures
        b.spec_timeout() == Some(timeout),
        b.spec_user_agent() == builder.spec_user_agent(),
{
    HttpBuilder {
        inner: builder.inner.timeout(timeout),
        timeout: Some(timeout),
        user_agent: builder.user_agent,
    }
}

/// Calls `reqwest::ClientBuilder::user_agent` with `user_agent`, which reqwest
/// records as the default `User-Agent` header, or records an error that `build`
/// reports if the value is no valid header value.
#[verifier::external_body]
pub fn http_builder_user_agent(builder: HttpBuilder, user_agent: String) -> (b: HttpBuilder)
    ensures
        b.spec_user_agent() == Some(user_agent@),
        b.spec_timeout() == builder.spec_timeout(),
{
    HttpBuilder {
        inner: builder.inner.user_agent(user_agent.clone()),
        timeout: builder.timeout,
        user_agent: Some(user_agent),
    }
}

/// Calls `reqwest::ClientBuilder::build`. Whether it succeeds depends on the
/// configuration and on the TLS back end; a client it builds has the timeout
/// and `User-Agent` handed to the builder.
#[verifier::external_body]
pub fn http_builder_build(builder: HttpBuilder) -> (r: Result<HttpClient, reqwest::Error>)
    ensures
        r matches Ok(c) ==> c.spec_timeout() == builder.spec_timeout() && c.spec_user_agent()
            == builder.spec_user_agent(),
{
    match builder.inner.build() {
        Ok(inner) => Ok(
            HttpClient { inner, timeout: builder.timeout, user_agent: builder.user_agent },
        ),
        Err(e) => Err(e),
    }
}

} // verus!
