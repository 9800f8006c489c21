//! Client configuration and everything a call decides before and after the
//! network exchange: the URL, the credentials to present, the idempotence
//! key, and how a response becomes a value or an error.

use vstd::prelude::*;
use std::time::Duration;
use crate::auth::Auth;
use crate::error::{ApiErrorBody, YookassaError};
use crate::idempotence::{
    idempotence_key_is_valid, is_v4_uuid_text, is_valid_idempotence_key,
    lemma_generated_key_is_valid, new_v4_text,
};
use crate::http::{
    http_builder_build, http_builder_timeout, http_builder_user_agent, http_client_builder,
    HttpClient,
};
use crate::operation::Operation;
use crate::operation::lemma_operation_paths_are_relative;
use crate::text::{
    lemma_strip_leading_idempotent, lemma_strip_leading_prepend, lemma_strip_trailing_idempotent,
    strip_leading, strip_trailing, trim_end_char, trim_start_char,
};

verus! {

/// The address of the production API.
pub open spec fn default_base_url() -> Seq<char> {
    "https://api.yookassa.ru/v3"@
}

/// The `User-Agent` a new builder sets: the package name and version.
pub open spec fn default_user_agent() -> Seq<char> {
    "yookasa-sdk/0.1.0"@
}

/// The URL of `path` under `base`: the base, one `/`, and the path without
/// its leading slashes.
pub open spec fn endpoint_url(base: Seq<char>, path: Seq<char>) -> Seq<char> {
    base + seq!['/'] + strip_leading(path, '/')
}

/// Whether an HTTP status code is in the success class 200–299.
pub open spec fn is_success_code(status: u16) -> bool {
    200 <= status < 300
}

/// Settings from which a `YookassaClient` is built.
#[derive(Debug, Clone)]
pub struct YookassaClientBuilder {
    auth: Auth,
    base_url: String,
    timeout: Option<Duration>,
    user_agent: Option<String>,
}

impl YookassaClientBuilder {
    /// The credentials the client will use.
    pub closed spec fn spec_auth(&self) -> Auth {
        self.auth
    }

    /// The base URL, as configured.
    pub closed spec fn spec_base_url(&self) -> Seq<char> {
        self.base_url@
    }

    /// The request timeout, if one is configured.
    pub closed spec fn spec_timeout(&self) -> Option<Duration> {
        self.timeout
    }

    /// The `User-Agent` header value, if one is configured.
    pub closed spec fn spec_user_agent(&self) -> Option<Seq<char>> {
        match self.user_agent {
            Some(u) => Some(u@),
            None => None,
        }
    }

    /// Settings for `auth` with the production base URL, no timeout and the
    /// library's own `User-Agent`.
    pub fn new(auth: Auth) -> (b: Self)
        ensures
            b.spec_auth() == auth,
            b.spec_base_url() == default_base_url(),
            b.spec_timeout() is None,
            b.spec_user_agent() == Some(default_user_agent()),
    {
        YookassaClientBuilder {
            auth,
            base_url: String::from_str("https://api.yookassa.ru/v3"),
            timeout: None,
            user_agent: Some(String::from_str("yookasa-sdk/0.1.0")),
        }
    }

    /// The same settings with another base URL.
    pub fn base_url(self, base_url: &str) -> (b: Self)
        ensures
            b.spec_base_url() == base_url@,
            b.spec_auth() == self.spec_auth(),
            b.spec_timeout() == self.spec_timeout(),
            b.spec_user_agent() == self.spec_user_agent(),
    {
        YookassaClientBuilder { base_url: base_url.to_owned(), ..self }
    }

    /// The same settings with a request timeout.
    pub fn timeout(self, timeout: Duration) -> (b: Self)
        ensures
            b.spec_timeout() == Some(timeout),
            b.spec_auth() == self.spec_auth(),
            b.spec_base_url() == self.spec_base_url(),
            b.spec_user_agent() == self.spec_user_agent(),
    {
        YookassaClientBuilder { timeout: Some(timeout), ..self }
    }

    /// The same settings with another `User-Agent`.
    pub fn user_agent(self, user_agent: &str) -> (b: Self)
        ensures
            b.spec_user_agent() == Some(user_agent@),
            b.spec_auth() == self.spec_auth(),
            b.spec_base_url() == self.spec_base_url(),
            b.spec_timeout() == self.spec_timeout(),
    {
        YookassaClientBuilder { user_agent: Some(user_agent.to_owned()), ..self }
    }

    /// Builds the client. The HTTP client comes from `reqwest`, configured
    /// with the timeout and `User-Agent`; the base URL loses its trailing
    /// slashes. Whether `reqwest` succeeds is its own affair: on success the
    /// client holds these credentials and that URL, and its HTTP client was
    /// built with this timeout and `User-Agent`; on failure the error is `Http`.
    pub fn build(self) -> (r: Result<YookassaClient, YookassaError>)
        ensures
            r matches Ok(c) ==> c.spec_auth() == self.spec_auth() && c.spec_base_url()
                == strip_trailing(self.spec_base_url(), '/') && c.spec_timeout()
                == self.spec_timeout() && c.spec_user_agent() == self.spec_user_agent(),
            r matches Err(e) ==> e is Http,
    {
        let mut builder = http_client_builder();
        if let Some(timeout) = self.timeout {
            builder = http_builder_timeout(builder, timeout);
        }
        if let Some(user_agent) = self.user_agent {
            builder = http_builder_user_agent(builder, user_agent);
        }
        YookassaClient::from_parts(http_builder_build(builder), self.auth, self.base_url.as_str())
    }
}

/// Calls `reqwest::StatusCode::from_u16` and `is_success`: codes outside
/// 100–999 are no status codes, and `is_success` holds of 200–299.
#[verifier::external_body]
fn status_is_success(status: u16) -> (b: bool)
    ensures
        b == is_success_code(status),
{
    match reqwest::StatusCode::from_u16(status) {
        Ok(code) => code.is_success(),
        Err(_) => false,
    }
}

/// The HTTP methods the API uses.
#[derive(Debug, Clone, Copy, PartialEq, Eq, Structural)]
pub enum RequestMethod {
    Get,
    Post,
    Delete,
}

impl RequestMethod {
    /// Requests with these methods carry an `Idempotence-Key` header.
    pub open spec fn carries_idempotence_key(self) -> bool {
        self is Post || self is Delete
    }

    /// Whether requests with this method carry an `Idempotence-Key` header.
    pub fn needs_idempotence_key(&self) -> (b: bool)
        ensures
            b == self.carries_idempotence_key(),
    {
        match self {
            RequestMethod::Get => false,
            RequestMethod::Post => true,
            RequestMethod::Delete => true,
        }
    }
}

/// The `Authorization` a request presents.
#[derive(Debug, Clone, PartialEq, Eq)]
pub enum Authorization {
    /// HTTP Basic with a user name and password.
    Basic { username: String, password: String },
    /// A bearer token.
    Bearer { token: String },
}

/// The `Authorization` that credentials call for: Basic with the shop id and
/// secret key, or a bearer token.
pub open spec fn authorization_of(auth: Auth) -> Authorization {
    match auth {
        Auth::Basic { shop_id, secret_key } => Authorization::Basic {
            username: shop_id,
            password: secret_key,
        },
        Auth::OAuth { token } => Authorization::Bearer { token },
    }
}

/// A request ready to send: method, URL, credentials and, for `POST` and
/// `DELETE`, an idempotence key.
#[derive(Debug, Clone)]
pub struct PreparedRequest {
    pub method: RequestMethod,
    pub url: String,
    pub authorization: Authorization,
    pub idempotence_key: Option<String>,
}

/// `p` is the request for `method` and `path` under `base` with credentials
/// `auth`, where the caller offered `offered` as idempotence key: a `POST` or
/// `DELETE` carries the offered key, or a generated UUID when none was
/// offered; a `GET` carries none.
pub open spec fn prepared_for(
    p: PreparedRequest,
    method: RequestMethod,
    base: Seq<char>,
    path: Seq<char>,
    auth: Auth,
    offered: Option<Seq<char>>,
) -> bool {
    &&& p.method == method
    &&& p.url@ == endpoint_url(base, path)
    &&& p.authorization == authorization_of(auth)
    &&& if method.carries_idempotence_key() {
        p.idempotence_key matches Some(k) && match offered {
            Some(o) => k@ == o,
            None => is_v4_uuid_text(k@),
        }
    } else {
        p.idempotence_key is None
    }
}

/// Whether the caller offered an idempotence key that a request with
/// `method` would carry but that the API does not accept.
pub open spec fn rejects_offered_key(method: RequestMethod, offered: Option<Seq<char>>) -> bool {
    &&& method.carries_idempotence_key()
    &&& offered matches Some(o) && !is_valid_idempotence_key(o)
}

/// The view of an optional string slice.
pub open spec fn opt_view(s: Option<&str>) -> Option<Seq<char>> {
    match s {
        Some(t) => Some(t@),
        None => None,
    }
}

/// A configured client: the HTTP client, the credentials and the base URL,
/// which never ends in `/`.
#[derive(Debug)]
pub struct YookassaClient {
    http: HttpClient,
    auth: Auth,
    base_url: String,
}

impl Clone for YookassaClient {
    /// Another client with the same credentials and base URL, sharing the
    /// HTTP client's connection state.
    fn clone(&self) -> (c: Self)
        ensures
            c.spec_auth() == self.spec_auth(),
            c.spec_base_url() == self.spec_base_url(),
            c.spec_timeout() == self.spec_timeout(),
            c.spec_user_agent() == self.spec_user_agent(),
    {
        proof {
            use_type_invariant(self);
        }
        YookassaClient {
            http: self.http.clone(),
            auth: self.auth.clone(),
            base_url: self.base_url.clone(),
        }
    }
}

impl YookassaClient {
    #[verifier::type_invariant]
    spec fn base_url_has_no_trailing_slash(&self) -> bool {
        strip_trailing(self.base_url@, '/') == self.base_url@
    }

    /// The credentials of this client.
    pub closed spec fn spec_auth(&self) -> Auth {
        self.auth
    }

    /// The HTTP client of this client.
    pub closed spec fn spec_http(&self) -> HttpClient {
        self.http
    }

    /// The request timeout the HTTP client was built with, if any.
    pub closed spec fn spec_timeout(&self) -> Option<Duration> {
        self.http.spec_timeout()
    }

    /// The `User-Agent` the HTTP client was built with, if any.
    pub closed spec fn spec_user_agent(&self) -> Option<Seq<char>> {
        self.http.spec_user_agent()
    }

    /// The base URL of this client.
    pub closed spec fn spec_base_url(&self) -> Seq<char> {
        self.base_url@
    }

    /// Settings for `auth`, to adjust before `build`.
    pub fn builder(auth: Auth) -> (b: YookassaClientBuilder)
        ensures
            b.spec_auth() == auth,
            b.spec_base_url() == default_base_url(),
            b.spec_timeout() is None,
            b.spec_user_agent() == Some(default_user_agent()),
    {
        YookassaClientBuilder::new(auth)
    }

    /// A client for `auth` with the default settings.
    pub fn new(auth: Auth) -> (r: Result<Self, YookassaError>)
        ensures
            r matches Ok(c) ==> c.spec_auth() == auth && c.spec_base_url() == default_base_url()
                && c.spec_timeout() is None && c.spec_user_agent() == Some(default_user_agent()),
            r matches Err(e) ==> e is Http,
    {
        proof {
            reveal_strlit("https://api.yookassa.ru/v3");
        }
        Self::builder(auth).build()
    }

    /// Puts together a client from the outcome of building the HTTP client:
    /// the HTTP error becomes `Http`; otherwise the client holds `auth` and
    /// `base_url` without its trailing slashes.
    pub fn from_parts(
        http: Result<HttpClient, reqwest::Error>,
        auth: Auth,
        base_url: &str,
    ) -> (r: Result<Self, YookassaError>)
        ensures
            match http {
                Ok(h) => r matches Ok(c) && c.spec_http() == h && c.spec_auth() == auth
                    && c.spec_base_url() == strip_trailing(base_url@, '/'),
                Err(e) => r matches Err(YookassaError::Http(e2)) && e2 == e,
            },
    {
        match http {
            Ok(http) => {
                let trimmed = trim_end_char(base_url, '/');
                proof {
                    lemma_strip_trailing_idempotent(base_url@, '/');
                }
                Ok(YookassaClient { http, auth, base_url: trimmed.to_owned() })
            },
            Err(e) => Err(YookassaError::Http(e)),
        }
    }

    /// The HTTP client that sends this client's requests.
    pub fn http(&self) -> (h: &reqwest::Client) {
        self.http.client()
    }

    /// The request timeout the HTTP client was built with, if any.
    pub fn timeout(&self) -> (t: Option<Duration>)
        ensures
            t == self.spec_timeout(),
    {
        self.http.timeout()
    }

    /// The `User-Agent` the HTTP client was built with, if any.
    pub fn user_agent(&self) -> (u: Option<&str>)
        ensures
            match u {
                Some(s) => self.spec_user_agent() == Some(s@),
                None => self.spec_user_agent() is None,
            },
    {
        self.http.user_agent()
    }

    /// The credentials of this client.
    pub fn auth(&self) -> (a: &Auth)
        ensures
            *a == self.spec_auth(),
    {
        &self.auth
    }

    /// The base URL of this client.
    pub fn base_url(&self) -> (s: &str)
        ensures
            s@ == self.spec_base_url(),
            strip_trailing(s@, '/') == s@,
    {
        proof {
            use_type_invariant(self);
        }
        self.base_url.as_str()
    }

    /// Whether this client authenticates with OAuth.
    pub fn uses_oauth(&self) -> (b: bool)
        ensures
            b == (self.spec_auth() is OAuth),
    {
        self.auth.is_oauth()
    }

    /// Succeeds exactly when this client authenticates with OAuth; otherwise
    /// the error is `OAuthRequired`.
    pub fn ensure_oauth(&self) -> (r: Result<(), YookassaError>)
        ensures
            r is Ok <==> self.spec_auth() is OAuth,
            r matches Err(e) ==> e is OAuthRequired,
    {
        if self.uses_oauth() {
            Ok(())
        } else {
            Err(YookassaError::OAuthRequired)
        }
    }

    /// The `Authorization` this client presents.
    pub fn with_auth(&self) -> (a: Authorization)
        ensures
            a == authorization_of(self.spec_auth()),
    {
        match &self.auth {
            Auth::Basic { shop_id, secret_key } => Authorization::Basic {
                username: shop_id.clone(),
                password: secret_key.clone(),
            },
            Auth::OAuth { token } => Authorization::Bearer { token: token.clone() },
        }
    }

    /// The URL of `path`: the base URL, one `/`, and `path` without its
    /// leading slashes.
    pub fn endpoint(&self, path: &str) -> (url: String)
        ensures
            url@ == endpoint_url(self.spec_base_url(), path@),
            strip_trailing(self.spec_base_url(), '/') == self.spec_base_url(),
    {
        proof {
            use_type_invariant(self);
        }
        let mut url = self.base_url.clone();
        url.append("/");
        url.append(trim_start_char(path, '/'));
        proof {
            reveal_strlit("/");
        }
        url
    }

    /// The idempotence key to send: the caller's key if the API accepts it,
    /// `InvalidIdempotenceKey` if it does not, and a fresh random UUID when the
    /// caller gives none.
    pub fn idempotence_key(idempotence_key: Option<&str>) -> (r: Result<String, YookassaError>)
        ensures
            match idempotence_key {
                Some(k) => if is_valid_idempotence_key(k@) {
                    r matches Ok(s) && s@ == k@
                } else {
                    r matches Err(e) && e is InvalidIdempotenceKey
                },
                None => r matches Ok(s) && is_v4_uuid_text(s@) && is_valid_idempotence_key(s@),
            },
    {
        match idempotence_key {
            Some(key) => {
                if idempotence_key_is_valid(key) {
                    Ok(key.to_owned())
                } else {
                    Err(YookassaError::InvalidIdempotenceKey)
                }
            },
            None => {
                let key = new_v4_text();
                proof {
                    lemma_generated_key_is_valid(key@);
                }
                Ok(key)
            },
        }
    }

    /// Everything a call with `method` on `path` decides before it goes out:
    /// the URL, the credentials and, for `POST` and `DELETE`, the idempotence
    /// key. Fails with `InvalidIdempotenceKey` exactly when such a request is
    /// offered a key the API does not accept.
    pub fn prepare_path(
        &self,
        method: RequestMethod,
        path: &str,
        idempotence_key: Option<&str>,
    ) -> (r: Result<PreparedRequest, YookassaError>)
        ensures
            r is Err <==> rejects_offered_key(method, opt_view(idempotence_key)),
            r matches Err(e) ==> e is InvalidIdempotenceKey,
            r matches Ok(p) ==> prepared_for(
                p,
                method,
                self.spec_base_url(),
                path@,
                self.spec_auth(),
                opt_view(idempotence_key),
            ),
    {
        let url = self.endpoint(path);
        let authorization = self.with_auth();
        let key = if method.needs_idempotence_key() {
            match Self::idempotence_key(idempotence_key) {
                Ok(k) => Some(k),
                Err(e) => return Err(e),
            }
        } else {
            None
        };
        Ok(PreparedRequest { method, url, authorization, idempotence_key: key })
    }

    /// Everything a call of `operation` decides before it goes out. The
    /// webhook operations fail with `OAuthRequired` on a client with Basic
    /// credentials, before anything else is looked at; otherwise this is
    /// `prepare_path` with the operation's method and path.
    pub fn prepare(&self, operation: &Operation, idempotence_key: Option<&str>) -> (r: Result<
        PreparedRequest,
        YookassaError,
    >)
        ensures
            operation.spec_requires_oauth() && !(self.spec_auth() is OAuth) ==> (r matches Err(e)
                && e is OAuthRequired),
            !(operation.spec_requires_oauth() && !(self.spec_auth() is OAuth)) ==> {
                &&& r is Err <==> rejects_offered_key(
                    operation.spec_method(),
                    opt_view(idempotence_key),
                )
                &&& r matches Err(e) ==> e is InvalidIdempotenceKey
                &&& r matches Ok(p) ==> prepared_for(
                    p,
                    operation.spec_method(),
                    self.spec_base_url(),
                    operation.spec_path(),
                    self.spec_auth(),
                    opt_view(idempotence_key),
                )
            },
    {
        if operation.requires_oauth() {
            if let Err(e) = self.ensure_oauth() {
                return Err(e);
            }
        }
        let path = operation.path();
        self.prepare_path(operation.method(), path.as_str(), idempotence_key)
    }

    /// Turns a response into the call's result. A success status (200–299)
    /// yields the decoded body, or `Json` if it did not decode. Any other
    /// status yields `Api` with the error body when the body decodes as one,
    /// and `UnexpectedStatus` with the raw body otherwise.
    pub fn parse_response<T>(
        status: u16,
        body: String,
        decoded: Result<T, serde_json::Error>,
        api_error: Option<ApiErrorBody>,
    ) -> (r: Result<T, YookassaError>)
        ensures
            is_success_code(status) ==> match decoded {
                Ok(v) => r == Ok::<T, YookassaError>(v),
                Err(e) => r matches Err(YookassaError::Json(e2)) && e2 == e,
            },
            !is_success_code(status) ==> match api_error {
                Some(a) => r matches Err(YookassaError::Api { status: s, body: b }) && s == status
                    && b == a,
                None => r matches Err(YookassaError::UnexpectedStatus { status: s, body: b })
                    && s == status && b == body,
            },
    {
        if status_is_success(status) {
            match decoded {
                Ok(v) => Ok(v),
                Err(e) => Err(YookassaError::Json(e)),
            }
        } else {
            match api_error {
                Some(a) => Err(YookassaError::Api { status, body: a }),
                None => Err(YookassaError::UnexpectedStatus { status, body }),
            }
        }
    }
}

/// Under a base URL that does not end in `/`, a URL joins base and path with
/// exactly one `/`: the base's last character is no `/`, the next one is, and
/// the one after it (if any) is not.
pub proof fn lemma_endpoint_joins_with_one_slash(base: Seq<char>, path: Seq<char>)
    requires
        strip_trailing(base, '/') == base,
    ensures
        endpoint_url(base, path).len() == base.len() + 1 + strip_leading(path, '/').len(),
        endpoint_url(base, path).subrange(0, base.len() as int) == base,
        endpoint_url(base, path)[base.len() as int] == '/',
        base.len() > 0 ==> endpoint_url(base, path)[base.len() - 1] != '/',
        endpoint_url(base, path).len() > base.len() + 1 ==> endpoint_url(base, path)[base.len()
            + 1int] != '/',
{
    lemma_strip_trailing_idempotent(base, '/');
    lemma_strip_leading_idempotent(path, '/');
    let url = endpoint_url(base, path);
    assert(url.subrange(0, base.len() as int) =~= base);
    if url.len() > base.len() + 1 {
        assert(url[base.len() + 1int] == strip_leading(path, '/')[0]);
    }
}

/// A path with leading slashes names the same URL as the path without them.
pub proof fn lemma_endpoint_ignores_leading_slashes(base: Seq<char>, path: Seq<char>)
    ensures
        endpoint_url(base, seq!['/'] + path) == endpoint_url(base, path),
{
    lemma_strip_leading_prepend(path, '/');
}

/// The URL of an operation is the base URL, one `/`, and the operation's path
/// as it stands.
pub proof fn lemma_operation_url(base: Seq<char>, operation: Operation)
    ensures
        endpoint_url(base, operation.spec_path()) == base + seq!['/'] + operation.spec_path(),
{
    lemma_operation_paths_are_relative(operation);
}

/// Whatever idempotence key a prepared request carries is one the API accepts:
/// either the caller's key, which was checked, or a generated one.
pub proof fn lemma_prepared_keys_are_valid(
    p: PreparedRequest,
    method: RequestMethod,
    base: Seq<char>,
    path: Seq<char>,
    auth: Auth,
    offered: Option<Seq<char>>,
)
    requires
        prepared_for(p, method, base, path, auth, offered),
        !rejects_offered_key(method, offered),
    ensures
        p.idempotence_key matches Some(k) ==> is_valid_idempotence_key(k@),
        method.carries_idempotence_key() <==> p.idempotence_key is Some,
{
    if let Some(k) = p.idempotence_key {
        if offered is None {
            lemma_generated_key_is_valid(k@);
        }
    }
}

/// The success class is the 2xx class: a status counts as success exactly when
/// its hundreds digit is 2.
pub proof fn lemma_success_is_the_2xx_class(status: u16)
    ensures
        is_success_code(status) <==> status / 100 == 2,
{
}

/// Basic credentials are presented as HTTP Basic with the shop id as user name
/// and the secret key as password; an OAuth token is presented as a bearer
/// token. Nothing is swapped or dropped.
pub proof fn lemma_authorization_carries_the_credentials(auth: Auth)
    ensures
        auth is Basic ==> (authorization_of(auth) matches Authorization::Basic {
            username: u,
            password: p,
        } && u == auth->shop_id && p == auth->secret_key),
        auth is OAuth ==> (authorization_of(auth) matches Authorization::Bearer { token: t } && t
            == auth->token),
{
}

/// A new client talks to the production API at
/// `https://api.yookassa.ru/v3`, a URL that does not end in `/` and so is kept
/// as it stands by `build`, and introduces itself as `yookasa-sdk/0.1.0`.
pub proof fn lemma_defaults()
    ensures
        default_base_url() == "https://api.yookassa.ru/v3"@,
        strip_trailing(default_base_url(), '/') == default_base_url(),
        default_user_agent() == "yookasa-sdk/0.1.0"@,
{
    reveal_strlit("https://api.yookassa.ru/v3");
}

} // verus!
