use scorton_core::server::{
    ApiResponse, AuthHeader, AuthMiddleware, AuthRejection, AuthStep, Claims, ServerConfig,
    ServerEnv, DEFAULT_PORT, DEFAULT_RATE_LIMIT,
};

fn unset() -> ServerEnv {
    ServerEnv { host: None, port: None, jwt_secret: None, cors_origins: None, rate_limit: None }
}

fn some(text: &str) -> Option<String> {
    Some(text.to_string())
}

fn bearer(text: &str) -> AuthHeader {
    AuthHeader::Text(text.to_string())
}

#[test]
fn default_server_configuration() {
    assert_eq!(
        ServerConfig::default(),
        ServerConfig {
            host: "127.0.0.1".to_string(),
            port: 8000,
            jwt_secret: "default-secret-key".to_string(),
            cors_origins: vec!["*".to_string()],
            rate_limit: 1000,
        }
    );
    assert_eq!(DEFAULT_PORT, 8000);
    assert_eq!(DEFAULT_RATE_LIMIT, 1000);
}

#[test]
fn empty_environment_gives_the_defaults() {
    assert_eq!(ServerConfig::from_env(&unset()), ServerConfig::default());
}

#[test]
fn environment_overrides_each_field() {
    let vars = ServerEnv {
        host: some("0.0.0.0"),
        port: some("8443"),
        jwt_secret: some("s3cr3t"),
        cors_origins: some("https://a.example, https://b.example ,https://c.example"),
        rate_limit: some("25"),
    };
    assert_eq!(
        ServerConfig::from_env(&vars),
        ServerConfig {
            host: "0.0.0.0".to_string(),
            port: 8443,
            jwt_secret: "s3cr3t".to_string(),
            cors_origins: vec![
                "https://a.example".to_string(),
                "https://b.example".to_string(),
                "https://c.example".to_string(),
            ],
            rate_limit: 25,
        }
    );
}

#[test]
fn unreadable_numbers_give_the_defaults() {
    for text in ["", "http", "65536", "-1", " 80", "80 ", "8o"] {
        let vars = ServerEnv { port: some(text), ..unset() };
        assert_eq!(ServerConfig::from_env(&vars).port, 8000, "port text {:?}", text);
    }
    for text in ["", "many", "4294967296", "-5", "1e3"] {
        let vars = ServerEnv { rate_limit: some(text), ..unset() };
        assert_eq!(ServerConfig::from_env(&vars).rate_limit, 1000, "limit text {:?}", text);
    }
    let vars = ServerEnv { port: some("65535"), rate_limit: some("4294967295"), ..unset() };
    let config = ServerConfig::from_env(&vars);
    assert_eq!(config.port, 65535);
    assert_eq!(config.rate_limit, u32::MAX);
    let vars = ServerEnv { port: some("+80"), rate_limit: some("007"), ..unset() };
    let config = ServerConfig::from_env(&vars);
    assert_eq!(config.port, 80);
    assert_eq!(config.rate_limit, 7);
}

#[test]
fn origins_are_split_at_commas_and_trimmed() {
    let origins = |text: &str| {
        ServerConfig::from_env(&ServerEnv { cors_origins: some(text), ..unset() }).cors_origins
    };
    assert_eq!(origins("*"), vec!["*".to_string()]);
    assert_eq!(origins(""), vec![String::new()]);
    assert_eq!(origins(","), vec![String::new(), String::new()]);
    assert_eq!(origins("a,,b"), vec!["a".to_string(), String::new(), "b".to_string()]);
    assert_eq!(origins("  a \t, b\n"), vec!["a".to_string(), "b".to_string()]);
    assert_eq!(origins("a b,c"), vec!["a b".to_string(), "c".to_string()]);
    assert_eq!(origins("a,"), vec!["a".to_string(), String::new()]);
    assert_eq!(origins(",é ,ü"), vec![String::new(), "é".to_string(), "ü".to_string()]);
}

#[test]
fn envelopes() {
    let ok = ApiResponse::success(7u32, "2024-01-01T00:00:00+00:00".to_string());
    assert_eq!(
        ok,
        ApiResponse {
            success: true,
            data: Some(7u32),
            error: None,
            timestamp: "2024-01-01T00:00:00+00:00".to_string(),
        }
    );
    let failed = ApiResponse::<()>::error("Unknown tool: x".to_string(), "t".to_string());
    assert_eq!(
        failed,
        ApiResponse {
            success: false,
            data: None,
            error: Some("Unknown tool: x".to_string()),
            timestamp: "t".to_string(),
        }
    );
}

#[test]
fn claims_hold_their_fields() {
    let claims = Claims { sub: "user".to_string(), exp: 2_000_000_000, iat: 1_700_000_000 };
    assert_eq!(claims.clone(), claims);
    assert!(claims.iat < claims.exp);
}

#[test]
fn layer_takes_the_secret_and_the_service() {
    let middleware = AuthMiddleware::new("secret".to_string());
    let layer = middleware.new_transform(17u8);
    assert_eq!(layer.secret(), "secret");
    assert_eq!(*layer.service(), 17);
}

#[test]
fn health_path_passes_without_a_header() {
    let layer = AuthMiddleware::new("k".to_string()).new_transform(());
    assert_eq!(layer.call("/api/health", &AuthHeader::Missing), AuthStep::Forward);
    assert_eq!(layer.call("/api/health", &AuthHeader::Unreadable), AuthStep::Forward);
    assert_eq!(layer.call("/api/health", &bearer("nonsense")), AuthStep::Forward);
}

#[test]
fn other_paths_need_a_bearer_token() {
    let layer = AuthMiddleware::new("k".to_string()).new_transform(());
    for path in ["/api/scan", "/api/health/", "/api/healthz", "/API/HEALTH", "", "/"] {
        assert_eq!(
            layer.call(path, &AuthHeader::Missing),
            AuthStep::Reject(AuthRejection::MissingHeader)
        );
        assert_eq!(
            layer.call(path, &AuthHeader::Unreadable),
            AuthStep::Reject(AuthRejection::UnreadableHeader)
        );
        assert_eq!(layer.call(path, &bearer("Bearer abc.def")), AuthStep::Verify("abc.def".to_string()));
    }
}

#[test]
fn header_format() {
    let layer = AuthMiddleware::new("k".to_string()).new_transform(());
    let bad = AuthStep::Reject(AuthRejection::BadFormat);
    assert_eq!(layer.call("/x", &bearer("")), bad);
    assert_eq!(layer.call("/x", &bearer("Bearer")), bad);
    assert_eq!(layer.call("/x", &bearer("bearer abc")), bad);
    assert_eq!(layer.call("/x", &bearer("Basic dXNlcjpwdw==")), bad);
    assert_eq!(layer.call("/x", &bearer(" Bearer abc")), bad);
    assert_eq!(layer.call("/x", &bearer("Bearer ")), AuthStep::Verify(String::new()));
    assert_eq!(layer.call("/x", &bearer("Bearer  a b")), AuthStep::Verify(" a b".to_string()));
    assert_eq!(layer.call("/x", &bearer("Bearer tökén")), AuthStep::Verify("tökén".to_string()));
}

#[test]
fn token_check_decides() {
    let layer = AuthMiddleware::new("k".to_string()).new_transform(());
    assert_eq!(layer.conclude(true), AuthStep::Forward);
    assert_eq!(layer.conclude(false), AuthStep::Reject(AuthRejection::InvalidToken));
}

#[test]
fn rejection_texts() {
    assert_eq!(AuthRejection::MissingHeader.message(), "Missing authorization header");
    assert_eq!(AuthRejection::UnreadableHeader.message(), "Invalid authorization header");
    assert_eq!(AuthRejection::BadFormat.message(), "Invalid authorization header format");
    assert_eq!(AuthRejection::InvalidToken.message(), "Invalid token");
}

#[test]
fn white_space_at_the_ends_of_an_origin() {
    let origins = |text: &str| {
        ServerConfig::from_env(&ServerEnv { cors_origins: some(text), ..unset() }).cors_origins
    };
    // Each kind of white space is taken off both ends.
    let spaces = [
        '\u{9}', '\u{a}', '\u{b}', '\u{c}', '\u{d}', ' ', '\u{85}', '\u{a0}', '\u{1680}',
        '\u{2000}', '\u{2005}', '\u{200a}', '\u{2028}', '\u{2029}', '\u{202f}', '\u{205f}',
        '\u{3000}',
    ];
    for c in spaces {
        assert_eq!(origins(&format!("{c}a b{c}{c}")), vec!["a b".to_string()], "char {:?}", c);
        assert_eq!(origins(&format!("{c}")), vec![String::new()], "char {:?}", c);
    }
    // Their neighbours, and characters that only look like space, stay.
    let others = [
        '\u{8}', '\u{e}', '\u{1f}', '!', '*', '\u{84}', '\u{86}', '\u{9f}', '\u{a1}',
        '\u{167f}', '\u{1681}', '\u{180e}', '\u{1fff}', '\u{200b}', '\u{2027}', '\u{202a}',
        '\u{202e}', '\u{2030}', '\u{205e}', '\u{2060}', '\u{2fff}', '\u{3001}', '\u{feff}',
    ];
    for c in others {
        let text = format!("{c}a{c}");
        assert_eq!(origins(&text), vec![text.clone()], "char {:?}", c);
    }
    // White space inside an origin stays.
    assert_eq!(origins(" a \u{3000} b "), vec!["a \u{3000} b".to_string()]);
}

#[test]
fn default_origin_is_kept() {
    assert_eq!(ServerConfig::from_env(&unset()).cors_origins, vec!["*".to_string()]);
    let set = ServerEnv { cors_origins: some("*"), ..unset() };
    assert_eq!(ServerConfig::from_env(&set).cors_origins, vec!["*".to_string()]);
}
