//! What a server around the scanner decides: its configuration, the envelope
//! of its answers, and whether a request may pass on the strength of its
//! authorization header.

use vstd::prelude::*;
use crate::text::{
    after_prefix, lemma_trimmed_keeps_clean_text, parse_unsigned, parsed_unsigned, same_text,
    split_on, split_text, strip_prefix, texts_of, trimmed,
};

verus! {

/// The configuration of the server.
#[derive(Debug, Clone, PartialEq, Eq)]
pub struct ServerConfig {
    pub host: String,
    pub port: u16,
    pub jwt_secret: String,
    pub cors_origins: Vec<String>,
    pub rate_limit: u32,
}

/// What the environment holds for the five variables of the server's
/// configuration. A variable that is not set is `None`.
#[derive(Debug, Clone, PartialEq, Eq)]
pub struct ServerEnv {
    pub host: Option<String>,
    pub port: Option<String>,
    pub jwt_secret: Option<String>,
    pub cors_origins: Option<String>,
    pub rate_limit: Option<String>,
}

/// `str::trim`. Trusted: the result is the text without the white space at
/// its ends, where white space is what Unicode gives the property
/// `White_Space`.
#[verifier::external_body]
fn trim(text: &str) -> (rest: &str)
    ensures
        rest@ == trimmed(text@),
{
    text.trim()
}

/// The port used where none is configured or the configured text is no port.
pub const DEFAULT_PORT: u16 = 8000;

/// The rate limit used where none is configured or the configured text is no
/// number.
pub const DEFAULT_RATE_LIMIT: u32 = 1000;

/// The port that a configured text stands for.
pub open spec fn port_of(text: Option<String>) -> nat {
    match text {
        Some(t) => match parsed_unsigned(t@, u16::MAX as nat) {
            Some(port) => port,
            None => DEFAULT_PORT as nat,
        },
        None => DEFAULT_PORT as nat,
    }
}

/// The rate limit that a configured text stands for.
pub open spec fn rate_limit_of(text: Option<String>) -> nat {
    match text {
        Some(t) => match parsed_unsigned(t@, u32::MAX as nat) {
            Some(limit) => limit,
            None => DEFAULT_RATE_LIMIT as nat,
        },
        None => DEFAULT_RATE_LIMIT as nat,
    }
}

/// The origins that a configured text lists: its pieces between commas, each
/// without the white space at its ends.
pub open spec fn origins_of(text: Seq<char>) -> Seq<Seq<char>> {
    split_on(text, ',').map_values(|piece: Seq<char>| trimmed(piece))
}

/// `value`, or `default` where there is none.
pub open spec fn text_or(value: Option<String>, default: Seq<char>) -> Seq<char> {
    match value {
        Some(t) => t@,
        None => default,
    }
}

/// `value`, or `default` where there is none.
fn value_or(value: &Option<String>, default: &str) -> (text: String)
    ensures
        text@ == text_or(*value, default@),
{
    match value {
        Some(t) => t.clone(),
        None => default.to_string(),
    }
}

/// The origins that a text lists.
fn parse_origins(text: &str) -> (origins: Vec<String>)
    ensures
        texts_of(origins@) == origins_of(text@),
{
    let pieces = split_text(text, ',');
    let mut origins: Vec<String> = Vec::new();
    let mut i: usize = 0;
    while i < pieces.len()
        invariant
            i <= pieces.len(),
            texts_of(pieces@) == split_on(text@, ','),
            origins@.len() == i,
            forall|k: int| 0 <= k < i ==> (#[trigger] origins@[k])@ == trimmed(pieces@[k]@),
        decreases pieces.len() - i,
    {
        origins.push(trim(pieces[i].as_str()).to_string());
        i += 1;
    }
    assert(texts_of(origins@) =~= origins_of(text@)) by {
        assert(texts_of(pieces@).len() == pieces@.len());
        assert forall|k: int| 0 <= k < origins@.len() implies texts_of(origins@)[k] == origins_of(
            text@,
        )[k] by {
            assert(texts_of(pieces@)[k] == pieces@[k]@);
        }
    }
    origins
}

/// The default for the origins, `*`, lists the one origin `*`.
pub proof fn lemma_default_origin_is_kept()
    ensures
        origins_of("*"@) == seq!["*"@],
{
    reveal_strlit("*");
    let star = "*"@;
    assert(star.subrange(1, 1) =~= Seq::<char>::empty());
    assert(split_on(star, ',') =~= seq![star]) by {
        reveal_with_fuel(crate::text::first_sep, 3);
    }
    lemma_trimmed_keeps_clean_text(star);
    assert(origins_of(star) =~= seq![star]);
}

impl ServerConfig {
    /// The configuration that the environment asks for. A variable that is
    /// not set gives the default of its field; a port or rate limit that is
    /// no decimal numeral, or too large for its field, gives the default too.
    /// The origins are the pieces of their variable between commas, trimmed.
    pub fn from_env(vars: &ServerEnv) -> (config: ServerConfig)
        ensures
            config.host@ == text_or(vars.host, "127.0.0.1"@),
            config.port == port_of(vars.port),
            config.jwt_secret@ == text_or(vars.jwt_secret, "default-secret-key"@),
            texts_of(config.cors_origins@) == origins_of(text_or(vars.cors_origins, "*"@)),
            vars.cors_origins is None ==> texts_of(config.cors_origins@) == seq!["*"@],
            config.rate_limit == rate_limit_of(vars.rate_limit),
    {
        proof {
            lemma_default_origin_is_kept();
        }
        let port: u16 = match &vars.port {
            Some(text) => match parse_unsigned(text.as_str(), 65_535) {
                Some(port) => port as u16,
                None => DEFAULT_PORT,
            },
            None => DEFAULT_PORT,
        };
        let rate_limit: u32 = match &vars.rate_limit {
            Some(text) => match parse_unsigned(text.as_str(), 4_294_967_295) {
                Some(limit) => limit as u32,
                None => DEFAULT_RATE_LIMIT,
            },
            None => DEFAULT_RATE_LIMIT,
        };
        let listed = value_or(&vars.cors_origins, "*");
        ServerConfig {
            host: value_or(&vars.host, "127.0.0.1"),
            port,
            jwt_secret: value_or(&vars.jwt_secret, "default-secret-key"),
            cors_origins: parse_origins(listed.as_str()),
            rate_limit,
        }
    }
}

impl Default for ServerConfig {
    /// The local host at port 8000, the default secret, every origin, a
    /// thousand requests.
    fn default() -> (config: ServerConfig)
        ensures
            config.host@ == "127.0.0.1"@,
            config.port == 8000,
            config.jwt_secret@ == "default-secret-key"@,
            texts_of(config.cors_origins@) == seq!["*"@],
            config.rate_limit == 1000,
    {
        let mut cors_origins: Vec<String> = Vec::new();
        cors_origins.push("*".to_string());
        assert(texts_of(cors_origins@) =~= seq!["*"@]);
        ServerConfig {
            host: "127.0.0.1".to_string(),
            port: 8000,
            jwt_secret: "default-secret-key".to_string(),
            cors_origins,
            rate_limit: 1000,
        }
    }
}

/// The envelope of an answer: the data of a success or the text of an error,
/// never both, and the time of the answer.
#[derive(Debug, Clone, PartialEq, Eq)]
pub struct ApiResponse<T> {
    pub success: bool,
    pub data: Option<T>,
    pub error: Option<String>,
    pub timestamp: String,
}

impl<T> ApiResponse<T> {
    /// The envelope of a success with `data`, answered at `timestamp`.
    pub fn success(data: T, timestamp: String) -> (response: ApiResponse<T>)
        ensures
            response.success,
            response.data == Some(data),
            response.error is None,
            response.timestamp == timestamp,
    {
        ApiResponse { success: true, data: Some(data), error: None, timestamp }
    }

    /// The envelope of the error `error`, answered at `timestamp`.
    pub fn error(error: String, timestamp: String) -> (response: ApiResponse<T>)
        ensures
            !response.success,
            response.data is None,
            response.error == Some(error),
            response.timestamp == timestamp,
    {
        ApiResponse { success: false, data: None, error: Some(error), timestamp }
    }
}

/// The claims of a token: its subject, and when it expires and was issued, in
/// seconds since the Unix epoch.
#[derive(Debug, Clone, PartialEq, Eq)]
pub struct Claims {
    pub sub: String,
    pub exp: usize,
    pub iat: usize,
}

/// The path that is served without authorization.
pub open spec fn health_path() -> Seq<char> {
    "/api/health"@
}

/// What introduces the token in an authorization header.
pub open spec fn bearer_prefix() -> Seq<char> {
    "Bearer "@
}

/// The authorization header of a request as the server reads it.
#[derive(Debug, Clone, PartialEq, Eq)]
pub enum AuthHeader {
    /// The request has no such header.
    Missing,
    /// The header's value does not read as text.
    Unreadable,
    /// The header's value.
    Text(String),
}

/// Why a request is turned away.
#[derive(Debug, Clone, Copy, PartialEq, Eq, Structural)]
pub enum AuthRejection {
    MissingHeader,
    UnreadableHeader,
    BadFormat,
    InvalidToken,
}

impl AuthRejection {
    /// The error text sent with the rejection.
    pub open spec fn spec_message(self) -> Seq<char> {
        match self {
            AuthRejection::MissingHeader => "Missing authorization header"@,
            AuthRejection::UnreadableHeader => "Invalid authorization header"@,
            AuthRejection::BadFormat => "Invalid authorization header format"@,
            AuthRejection::InvalidToken => "Invalid token"@,
        }
    }

    /// The error text sent with the rejection.
    pub fn message(&self) -> (text: &'static str)
        ensures
            text@ == self.spec_message(),
    {
        match self {
            AuthRejection::MissingHeader => "Missing authorization header",
            AuthRejection::UnreadableHeader => "Invalid authorization header",
            AuthRejection::BadFormat => "Invalid authorization header format",
            AuthRejection::InvalidToken => "Invalid token",
        }
    }
}

/// What to do with a request.
#[derive(Debug, Clone, PartialEq, Eq)]
pub enum AuthStep {
    /// Hand the request on to the service.
    Forward,
    /// Check this token against the secret, then decide with
    /// [`AuthMiddlewareService::conclude`].
    Verify(String),
    /// Answer "unauthorized" with the rejection's text.
    Reject(AuthRejection),
}

/// The view of a step: the token as a character sequence.
pub enum AuthStepView {
    Forward,
    Verify(Seq<char>),
    Reject(AuthRejection),
}

impl View for AuthStep {
    type V = AuthStepView;

    open spec fn view(&self) -> AuthStepView {
        match *self {
            AuthStep::Forward => AuthStepView::Forward,
            AuthStep::Verify(token) => AuthStepView::Verify(token@),
            AuthStep::Reject(why) => AuthStepView::Reject(why),
        }
    }
}

/// The step for a request to `path` with the given authorization header: the
/// health path passes unchecked; otherwise the header must be there, read as
/// text and begin with the bearer prefix, and what follows the prefix is the
/// token to check.
pub open spec fn screened(path: Seq<char>, header: AuthHeader) -> AuthStepView {
    if path == health_path() {
        AuthStepView::Forward
    } else {
        match header {
            AuthHeader::Missing => AuthStepView::Reject(AuthRejection::MissingHeader),
            AuthHeader::Unreadable => AuthStepView::Reject(AuthRejection::UnreadableHeader),
            AuthHeader::Text(text) => match after_prefix(text@, bearer_prefix()) {
                Some(token) => AuthStepView::Verify(token),
                None => AuthStepView::Reject(AuthRejection::BadFormat),
            },
        }
    }
}

/// Makes the authorization layer for a service.
pub struct AuthMiddleware {
    jwt_secret: String,
}

impl AuthMiddleware {
    /// A factory of authorization layers that check tokens against
    /// `jwt_secret`.
    pub fn new(jwt_secret: String) -> (middleware: AuthMiddleware)
        ensures
            middleware.spec_secret() == jwt_secret,
    {
        AuthMiddleware { jwt_secret }
    }

    /// The secret that tokens are checked against.
    pub closed spec fn spec_secret(&self) -> String {
        self.jwt_secret
    }

    /// Wraps `service` in an authorization layer with this factory's secret.
    pub fn new_transform<S>(&self, service: S) -> (layer: AuthMiddlewareService<S>)
        ensures
            layer.spec_service() == service,
            layer.spec_secret() == self.spec_secret(),
    {
        AuthMiddlewareService { service, jwt_secret: self.jwt_secret.clone() }
    }
}

/// A service behind an authorization layer.
pub struct AuthMiddlewareService<S> {
    service: S,
    jwt_secret: String,
}

impl<S> AuthMiddlewareService<S> {
    /// The wrapped service.
    pub closed spec fn spec_service(&self) -> S {
        self.service
    }

    /// The secret that tokens are checked against.
    pub closed spec fn spec_secret(&self) -> String {
        self.jwt_secret
    }

    /// The wrapped service.
    pub fn service(&self) -> (service: &S)
        ensures
            *service == self.spec_service(),
    {
        &self.service
    }

    /// The secret that tokens are checked against.
    pub fn secret(&self) -> (secret: &String)
        ensures
            *secret == self.spec_secret(),
    {
        &self.jwt_secret
    }

    /// Decides what to do with a request to `path` that carries the given
    /// authorization header.
    pub fn call(&self, path: &str, header: &AuthHeader) -> (step: AuthStep)
        ensures
            step@ == screened(path@, *header),
    {
        if same_text(path, "/api/health") {
            return AuthStep::Forward;
        }
        match header {
            AuthHeader::Missing => AuthStep::Reject(AuthRejection::MissingHeader),
            AuthHeader::Unreadable => AuthStep::Reject(AuthRejection::UnreadableHeader),
            AuthHeader::Text(text) => match strip_prefix(text.as_str(), "Bearer ") {
                Some(token) => AuthStep::Verify(token),
                None => AuthStep::Reject(AuthRejection::BadFormat),
            },
        }
    }

    /// Decides what to do with a request once its token was checked: a valid
    /// token passes, any other is turned away.
    pub fn conclude(&self, token_valid: bool) -> (step: AuthStep)
        ensures
            step@ == if token_valid {
                AuthStepView::Forward
            } else {
                AuthStepView::Reject(AuthRejection::InvalidToken)
            },
    {
        if token_valid {
            AuthStep::Forward
        } else {
            AuthStep::Reject(AuthRejection::InvalidToken)
        }
    }
}

/// No request but one to the health path passes without a token that was
/// checked: the first step forwards only the health path.
pub proof fn lemma_only_health_passes_unchecked(path: Seq<char>, header: AuthHeader)
    ensures
        screened(path, header) is Forward <==> path == health_path(),
{
}

} // verus!
