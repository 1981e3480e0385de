use nactl::config::RuntimeConfig;
use nactl::nacos::{
    entry_params, get_config_response, http_error, list_config_params, parse_bool_response,
    parse_login_response, require_success, mutation_response, resolve_search_mode, set_config_params, BoolEnvelope, ConfigSetRequest,
    LoginAttempts, LoginEnvelope, LoginEnvelopeData, LoginEvent, LoginResult, LoginStep,
    NacosError, SearchMode, Session, TokenPlan,
};

fn s(v: &str) -> Option<String> {
    Some(v.to_string())
}

fn pairs(v: &[(&str, &str)]) -> Vec<(String, String)> {
    v.iter().map(|(a, b)| (a.to_string(), b.to_string())).collect()
}

fn config(namespace: &str) -> RuntimeConfig {
    RuntimeConfig {
        config_path: None,
        base_url: "http://127.0.0.1:8848".to_string(),
        context_path: "/nacos".to_string(),
        namespace: namespace.to_string(),
        username: None,
        password: None,
        access_token: None,
        timeout_secs: 10,
        verbose: false,
    }
}

fn envelope() -> LoginEnvelope {
    LoginEnvelope { access_token: None, token_ttl: None, data: None, code: None, message: None }
}

#[test]
fn search_mode_auto_uses_blur_for_wildcards() {
    assert_eq!(resolve_search_mode(Some("app*"), None, SearchMode::Auto), "blur");
    assert_eq!(resolve_search_mode(None, Some("G*"), SearchMode::Auto), "blur");
    assert_eq!(resolve_search_mode(Some("app"), Some("G"), SearchMode::Auto), "accurate");
    assert_eq!(resolve_search_mode(None, None, SearchMode::Auto), "accurate");
    assert_eq!(resolve_search_mode(Some("a*"), None, SearchMode::Accurate), "accurate");
    assert_eq!(resolve_search_mode(None, None, SearchMode::Blur), "blur");
}

#[test]
fn listing_parameters() {
    let p = list_config_params(Some("app*"), Some("DEFAULT_GROUP"), 1, 20, SearchMode::Auto, s("dev"), s("tok"));
    assert_eq!(
        p,
        pairs(&[
            ("pageNo", "1"),
            ("pageSize", "20"),
            ("search", "blur"),
            ("dataId", "app*"),
            ("group", "DEFAULT_GROUP"),
            ("tenant", "dev"),
            ("accessToken", "tok"),
        ])
    );
    let p = list_config_params(None, None, 3, 50, SearchMode::Accurate, None, None);
    assert_eq!(p, pairs(&[("pageNo", "3"), ("pageSize", "50"), ("search", "accurate")]));
}

#[test]
fn entry_and_publish_parameters() {
    assert_eq!(
        entry_params("a.yaml", "G", None, s("t")),
        pairs(&[("dataId", "a.yaml"), ("group", "G"), ("accessToken", "t")])
    );
    let req = ConfigSetRequest {
        data_id: "a.yaml".to_string(),
        group: "G".to_string(),
        content: "k: v".to_string(),
        config_type: s("yaml"),
    };
    assert_eq!(
        set_config_params(&req, s("ns"), None),
        pairs(&[("dataId", "a.yaml"), ("group", "G"), ("content", "k: v"), ("type", "yaml"), ("tenant", "ns")])
    );
}

#[test]
fn http_error_messages() {
    assert_eq!(http_error("list configs", 500, b"  boom \n").message(), "list configs failed with HTTP 500: boom");
    assert_eq!(http_error("login", 403, b"   ").message(), "login failed with HTTP 403");
    assert_eq!(http_error("x", 400, &[0xff, b'a']).message(), "x failed with HTTP 400: \u{FFFD}a");
}

#[test]
fn login_response_top_level_and_nested() {
    let mut e = envelope();
    e.access_token = s("abc");
    e.token_ttl = Some(18000);
    let r = parse_login_response(Some(e), "/v1/auth/login").ok().unwrap();
    assert_eq!(r.access_token, "abc");
    assert_eq!(r.token_ttl, Some(18000));
    assert_eq!(r.endpoint, "/v1/auth/login");

    let mut e = envelope();
    e.code = Some(0);
    e.data = Some(LoginEnvelopeData { access_token: s("nested"), token_ttl: Some(60) });
    let r = parse_login_response(Some(e), "/v3/auth/user/login").ok().unwrap();
    assert_eq!(r.access_token, "nested");
    assert_eq!(r.token_ttl, Some(60));
}

#[test]
fn login_response_errors() {
    let mut e = envelope();
    e.code = Some(403);
    e.message = s("bad credentials");
    assert_eq!(
        parse_login_response(Some(e), "/v1/auth/login").err().unwrap().message(),
        "login failed via /v1/auth/login: bad credentials"
    );
    let mut e = envelope();
    e.code = Some(-1);
    assert_eq!(
        parse_login_response(Some(e), "/v1/auth/login").err().unwrap().message(),
        "login failed via /v1/auth/login: code=-1"
    );
    assert_eq!(
        parse_login_response(Some(envelope()), "/v1/auth/login").err().unwrap().message(),
        "login response does not contain accessToken"
    );
    assert_eq!(
        parse_login_response(None, "/v1/auth/login").err().unwrap().message(),
        "failed to parse login response"
    );
}

#[test]
fn bool_responses() {
    assert!(parse_bool_response("set config", b" true\n", None).is_ok());
    let env = BoolEnvelope { data: Some(true), code: Some(0), message: None };
    assert!(parse_bool_response("set config", b"{\"data\":true}", Some(env)).is_ok());
    let env = BoolEnvelope { data: Some(true), code: Some(500), message: None };
    assert_eq!(
        parse_bool_response("remove config", b"{}", Some(env)).err().unwrap().message(),
        "remove config failed: server returned an error"
    );
    let env = BoolEnvelope { data: None, code: Some(1), message: s("denied") };
    assert_eq!(
        parse_bool_response("set config", b"{}", Some(env)).err().unwrap().message(),
        "set config failed: denied"
    );
    let env = BoolEnvelope { data: Some(false), code: None, message: None };
    assert_eq!(
        parse_bool_response("set config", b"{\"data\":false}", Some(env)).err().unwrap().message(),
        "set config failed: unexpected response {\"data\":false}"
    );
    assert_eq!(
        parse_bool_response("set config", b"false", None).err().unwrap().message(),
        "set config failed: unexpected response false"
    );
}

#[test]
fn mutation_responses() {
    assert!(mutation_response("set config", 200, b"true", None).is_ok());
    let env = BoolEnvelope { data: Some(true), code: None, message: None };
    assert!(mutation_response("remove config", 204, b"{\"data\":true}", Some(env)).is_ok());
    let env = BoolEnvelope { data: Some(true), code: None, message: None };
    assert_eq!(
        mutation_response("set config", 403, b" forbidden ", Some(env)).err().unwrap().message(),
        "set config failed with HTTP 403: forbidden"
    );
    assert_eq!(
        mutation_response("remove config", 500, b"true", None).err().unwrap().message(),
        "remove config failed with HTTP 500: true"
    );
    let env = BoolEnvelope { data: None, code: Some(7), message: s("no") };
    assert_eq!(
        mutation_response("set config", 200, b"{}", Some(env)).err().unwrap().message(),
        "set config failed: no"
    );
    assert_eq!(
        mutation_response("set config", 200, b"ok", None).err().unwrap().message(),
        "set config failed: unexpected response ok"
    );
}

#[test]
fn get_config_responses() {
    assert!(get_config_response(404, b"anything".to_vec()).ok().unwrap().is_none());
    assert!(get_config_response(200, b"config data not exist".to_vec()).ok().unwrap().is_none());
    assert_eq!(
        get_config_response(200, "k: v\n".as_bytes().to_vec()).ok().unwrap().unwrap().content,
        "k: v\n"
    );
    assert_eq!(
        get_config_response(500, b"oops".to_vec()).err().unwrap().message(),
        "get config failed with HTTP 500: oops"
    );
    let err = get_config_response(200, vec![0xc3]).err().unwrap();
    assert!(matches!(err, NacosError::NotUtf8 { .. }));
    assert_eq!(err.cause(), Some("incomplete utf-8 byte sequence from index 0".to_string()));
    let err = get_config_response(200, vec![b'a', 0xff]).err().unwrap();
    assert_eq!(err.cause(), Some("invalid utf-8 sequence of 1 bytes from index 1".to_string()));
    assert_eq!(get_config_response(200, vec![0xc3]).err().unwrap().message(), "config content is not UTF-8");
}

fn attempt(step: LoginStep) -> LoginAttempts {
    match step {
        LoginStep::Attempt(a) => a,
        LoginStep::Finished(_) => panic!("login finished early"),
    }
}

#[test]
fn login_tries_the_endpoints_in_order() {
    let a = LoginAttempts::begin();
    assert_eq!(a.index(), 0);
    assert_eq!(a.endpoint(), "/v3/auth/user/login");
    let a = attempt(a.on_event(LoginEvent::Responded { status: 404, body: vec![], envelope: None }));
    assert_eq!(a.endpoint(), "/v1/auth/users/login");
    assert_eq!(a.index(), 1);
    let a = attempt(a.on_event(LoginEvent::TransportFailed("connection refused".to_string())));
    assert_eq!(a.endpoint(), "/v1/auth/login");
    match a.on_event(LoginEvent::Responded { status: 501, body: vec![], envelope: None }) {
        LoginStep::Finished(Err(e)) => assert_eq!(e.message(), "/v1/auth/login is not available"),
        _ => panic!("expected the last error"),
    }
}

#[test]
fn login_stops_on_success_or_other_errors() {
    let mut e = envelope();
    e.access_token = s("tok");
    let a = attempt(LoginAttempts::begin().on_event(LoginEvent::Responded { status: 405, body: vec![], envelope: None }));
    match a.on_event(LoginEvent::Responded { status: 200, body: b"{}".to_vec(), envelope: Some(e) }) {
        LoginStep::Finished(Ok(r)) => {
            assert_eq!(r.access_token, "tok");
            assert_eq!(r.endpoint, "/v1/auth/users/login");
        }
        _ => panic!("expected a login"),
    }
    match LoginAttempts::begin().on_event(LoginEvent::Responded { status: 403, body: b"forbidden".to_vec(), envelope: None }) {
        LoginStep::Finished(Err(e)) => assert_eq!(e.message(), "login failed with HTTP 403: forbidden"),
        _ => panic!("expected an HTTP error"),
    }
    match LoginAttempts::begin().on_event(LoginEvent::TransportFailed("dns".to_string())) {
        LoginStep::Attempt(a) => {
            let a = attempt(a.on_event(LoginEvent::TransportFailed("dns".to_string())));
            match a.on_event(LoginEvent::TransportFailed("timeout".to_string())) {
                LoginStep::Finished(Err(e)) => assert_eq!(e.message(), "timeout"),
                _ => panic!("expected the transport error"),
            }
        }
        _ => panic!("expected another attempt"),
    }
}

#[test]
fn session_endpoint_and_tenant() {
    let s1 = Session::new(config("public"));
    assert_eq!(s1.endpoint("/v1/cs/configs"), "http://127.0.0.1:8848/nacos/v1/cs/configs");
    assert_eq!(s1.tenant_param(), None);
    assert_eq!(Session::new(config("")).tenant_param(), None);
    assert_eq!(Session::new(config("dev")).tenant_param(), s("dev"));
}

#[test]
fn token_sources() {
    let mut c = config("public");
    assert!(matches!(Session::new(config("public")).token_plan(0), TokenPlan::Anonymous));
    c.access_token = s("static");
    match Session::new(c).token_plan(0) {
        TokenPlan::Configured(t) => assert_eq!(t, "static"),
        _ => panic!("expected the configured token"),
    }
    let mut c = config("public");
    c.username = s("u");
    c.password = s("p");
    c.access_token = s("static");
    let mut session = Session::new(c);
    assert!(matches!(session.token_plan(0), TokenPlan::Login));
    let (u, p) = session.login_credentials().ok().unwrap();
    assert_eq!((u.as_str(), p.as_str()), ("u", "p"));

    let login = LoginResult { access_token: "dyn".to_string(), token_ttl: Some(10), endpoint: "/v1/auth/login".to_string() };
    session.record_login(&login, 1_000);
    // usable for ttl - 5 seconds
    match session.token_plan(1_000 + 4_999_999_999) {
        TokenPlan::Cached(t) => assert_eq!(t, "dyn"),
        _ => panic!("expected the cached token"),
    }
    assert!(matches!(session.token_plan(1_000 + 5_000_000_000), TokenPlan::Login));

    let forever = LoginResult { access_token: "f".to_string(), token_ttl: None, endpoint: "/e".to_string() };
    session.record_login(&forever, 0);
    assert!(matches!(session.token_plan(u128::MAX), TokenPlan::Cached(_)));

    let short = LoginResult { access_token: "s".to_string(), token_ttl: Some(3), endpoint: "/e".to_string() };
    session.record_login(&short, 7);
    assert!(matches!(session.token_plan(7), TokenPlan::Login));
}

#[test]
fn missing_credentials() {
    let mut c = config("public");
    assert_eq!(Session::new(config("public")).login_credentials().err().unwrap().message(), "missing username, set --username or nactl config");
    c.username = s("u");
    assert_eq!(Session::new(c).login_credentials().err().unwrap().message(), "missing password, set --password or nactl config");
}

#[test]
fn success_statuses() {
    assert!(require_success("list configs", 200, b"").is_ok());
    assert!(require_success("list configs", 299, b"").is_ok());
    assert_eq!(require_success("list configs", 302, b"moved").err().unwrap().message(), "list configs failed with HTTP 302: moved");
    assert_eq!(require_success("list configs", 199, b"").err().unwrap().message(), "list configs failed with HTTP 199");
}
