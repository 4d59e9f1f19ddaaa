use herp_node::herp_proxy::{
    authenticate_outcome, confirm_install_start, confirm_install_step, install_outcome,
    register_outcome, resolve_service_id, AuthError, ConfirmInstall, Herp, HttpMethod,
    InstallError, InstallResult, RegistrationError, ResolutionError, Transport,
};
use herp_node::json::JsonValue;
use herp_node::service::{Credentials, Service};

fn s(text: &str) -> JsonValue {
    JsonValue::Str(text.to_string())
}

fn obj(pairs: Vec<(&str, JsonValue)>) -> JsonValue {
    JsonValue::Obj(pairs.into_iter().map(|(k, v)| (k.to_string(), v)).collect())
}

fn default_herp() -> Herp {
    Herp::new(
        String::from("127.0.0.1:5050"),
        obj(vec![
            ("register", s("/services/register")),
            ("login", s("/users/login")),
            ("install", s("/services/install")),
            ("services", s("/content/system/service")),
        ]),
    )
}

fn default_service() -> Service {
    Service {
        name: String::from("rust.skeleton.test"),
        title: String::from("Rust Skeleton Service Test"),
        description: String::from("A service for testing purposes."),
        version: String::from("0.0.1"),
        host: String::from("127.0.0.1:6100"),
    }
}

fn record(id: &str, name: &str, title: &str) -> JsonValue {
    obj(vec![("_id", s(id)), ("name", s(name)), ("title", s(title))])
}

fn response(status: u16, body: JsonValue) -> Transport {
    Transport::Response { status, body: Some(body) }
}

#[test]
fn register_2xx_succeeds() {
    let t = Transport::Response { status: 200, body: None };
    assert_eq!(register_outcome(&t), Ok(()));
    let t = Transport::Response { status: 204, body: None };
    assert_eq!(register_outcome(&t), Ok(()));
}

#[test]
fn register_unreachable_is_connection_error() {
    assert_eq!(
        register_outcome(&Transport::Unreachable),
        Err(RegistrationError::ConnectionError)
    );
}

#[test]
fn register_non_2xx_is_rejected() {
    let t = Transport::Response { status: 500, body: None };
    assert_eq!(
        register_outcome(&t),
        Err(RegistrationError::RegistrationRejected(500))
    );
}

#[test]
fn register_request_posts_descriptor() {
    let herp = default_herp();
    let service = default_service();
    let req = herp.register_request(&service);
    assert_eq!(req.method, HttpMethod::Post);
    assert_eq!(req.url, "http://127.0.0.1:5050/services/register");
    assert!(req.auth.is_none());
    let expected_body = obj(vec![
        ("name", s("rust.skeleton.test")),
        ("title", s("Rust Skeleton Service Test")),
        ("description", s("A service for testing purposes.")),
        ("version", s("0.0.1")),
        ("host", s("127.0.0.1:6100")),
    ]);
    assert_eq!(req.body, Some(expected_body));
}

#[test]
fn get_url_joins_host_and_path() {
    let herp = default_herp();
    assert_eq!(
        herp.get_url(&String::from("login")),
        "http://127.0.0.1:5050/users/login"
    );
    assert!(herp.has_endpoint(&String::from("login")));
    assert!(!herp.has_endpoint(&String::from("missing")));
}

#[test]
fn authenticate_extracts_token() {
    let t = response(200, obj(vec![("token", s("abc"))]));
    assert_eq!(authenticate_outcome(&t), Ok(String::from("abc")));
}

#[test]
fn authenticate_without_token_is_malformed() {
    let t = response(200, obj(vec![("user", s("abc"))]));
    assert_eq!(authenticate_outcome(&t), Err(AuthError::MalformedResponse));
}

#[test]
fn authenticate_non_string_token_is_malformed() {
    let t = response(200, obj(vec![("token", JsonValue::Number)]));
    assert_eq!(authenticate_outcome(&t), Err(AuthError::MalformedResponse));
    let t = response(200, JsonValue::Null);
    assert_eq!(authenticate_outcome(&t), Err(AuthError::MalformedResponse));
}

#[test]
fn authenticate_unreachable_is_connection_error() {
    assert_eq!(
        authenticate_outcome(&Transport::Unreachable),
        Err(AuthError::ConnectionError)
    );
}

#[test]
fn resolve_returns_matching_id() {
    let service = default_service();
    let listing = obj(vec![(
        "data",
        JsonValue::Arr(vec![
            record("000000000000000000000001", "other.service", "Other"),
            record("000000000000000000000002", "rust.skeleton.test", "Rust Skeleton Service Test"),
        ]),
    )]);
    let r = resolve_service_id(&response(200, listing), &service);
    assert_eq!(r, Ok(String::from("000000000000000000000002")));
}

#[test]
fn resolve_without_match_is_not_found() {
    let service = default_service();
    let listing = obj(vec![(
        "data",
        JsonValue::Arr(vec![record("1", "other.service", "Other")]),
    )]);
    assert_eq!(
        resolve_service_id(&response(200, listing), &service),
        Err(ResolutionError::ServiceNotFound)
    );
}

#[test]
fn resolve_with_two_matches_takes_first() {
    let service = default_service();
    let listing = obj(vec![(
        "data",
        JsonValue::Arr(vec![
            record("first", "rust.skeleton.test", "Rust Skeleton Service Test"),
            record("second", "rust.skeleton.test", "Rust Skeleton Service Test"),
        ]),
    )]);
    assert_eq!(
        resolve_service_id(&response(200, listing), &service),
        Ok(String::from("first"))
    );
}

#[test]
fn resolve_name_match_alone_is_not_enough() {
    let service = default_service();
    let listing = obj(vec![(
        "data",
        JsonValue::Arr(vec![record("1", "rust.skeleton.test", "Another Title")]),
    )]);
    assert_eq!(
        resolve_service_id(&response(200, listing), &service),
        Err(ResolutionError::ServiceNotFound)
    );
}

#[test]
fn resolve_non_array_data_is_not_found() {
    let service = default_service();
    let listing = obj(vec![("data", s("not-an-array"))]);
    assert_eq!(
        resolve_service_id(&response(200, listing), &service),
        Err(ResolutionError::ServiceNotFound)
    );
    let listing = obj(vec![("other", s("x"))]);
    assert_eq!(
        resolve_service_id(&response(200, listing), &service),
        Err(ResolutionError::ServiceNotFound)
    );
}

#[test]
fn resolve_match_without_id_is_malformed() {
    let service = default_service();
    let listing = obj(vec![(
        "data",
        JsonValue::Arr(vec![obj(vec![
            ("name", s("rust.skeleton.test")),
            ("title", s("Rust Skeleton Service Test")),
        ])]),
    )]);
    assert_eq!(
        resolve_service_id(&response(200, listing), &service),
        Err(ResolutionError::MalformedResponse)
    );
}

#[test]
fn resolve_unreachable_is_connection_error() {
    let service = default_service();
    assert_eq!(
        resolve_service_id(&Transport::Unreachable, &service),
        Err(ResolutionError::ConnectionError)
    );
}

#[test]
fn install_outcome_string_body_succeeds() {
    let t = response(200, s("ok"));
    assert_eq!(install_outcome(&t), Ok(InstallResult(String::from("ok"))));
}

#[test]
fn install_outcome_object_body_is_rejected() {
    let t = response(200, obj(vec![("status", s("ok"))]));
    assert_eq!(install_outcome(&t), Err(InstallError::InstallRejected));
}

#[test]
fn install_outcome_non_2xx_is_rejected() {
    let t = response(403, s("ok"));
    assert_eq!(install_outcome(&t), Err(InstallError::InstallRejected));
}

#[test]
fn install_outcome_unreachable_is_connection_error() {
    assert_eq!(
        install_outcome(&Transport::Unreachable),
        Err(InstallError::ConnectionError)
    );
}

#[test]
fn confirm_install_non_json_listing_is_malformed() {
    let herp = default_herp();
    let service = default_service();
    let state = ConfirmInstall::Resolving { token: String::from("tok-1") };
    let not_json = Transport::Response { status: 200, body: None };
    let (state, next) = confirm_install_step(&herp, &service, state, &not_json);
    assert!(next.is_none());
    match state {
        ConfirmInstall::Done { result } => {
            assert_eq!(result, Err(InstallError::MalformedResponse))
        }
        other => panic!("conversation should be over, was {:?}", other),
    }
}

#[test]
fn confirm_install_happy_path() {
    let herp = default_herp();
    let service = default_service();
    let credentials = Credentials::new(String::from("your-email@example.com"), String::from("admin"));

    let (state, login_req) = confirm_install_start(&herp, &credentials);
    assert!(matches!(state, ConfirmInstall::Authenticating));
    assert_eq!(login_req.method, HttpMethod::Post);
    assert_eq!(login_req.url, "http://127.0.0.1:5050/users/login");
    assert_eq!(
        login_req.body,
        Some(obj(vec![
            ("email", s("your-email@example.com")),
            ("password", s("admin")),
        ]))
    );

    let login_resp = response(200, obj(vec![("token", s("tok-1"))]));
    let (state, services_req) = confirm_install_step(&herp, &service, state, &login_resp);
    assert!(matches!(state, ConfirmInstall::Resolving { ref token } if token == "tok-1"));
    let services_req = services_req.expect("a services request follows authentication");
    assert_eq!(services_req.method, HttpMethod::Get);
    assert_eq!(services_req.url, "http://127.0.0.1:5050/content/system/service");
    assert_eq!(services_req.auth, Some(String::from("tok-1")));

    let listing = obj(vec![(
        "data",
        JsonValue::Arr(vec![record("id-9", "rust.skeleton.test", "Rust Skeleton Service Test")]),
    )]);
    let (state, install_req) = confirm_install_step(&herp, &service, state, &response(200, listing));
    assert!(matches!(state, ConfirmInstall::Confirming));
    let install_req = install_req.expect("an install request follows resolution");
    assert_eq!(install_req.method, HttpMethod::Get);
    assert_eq!(install_req.url, "http://127.0.0.1:5050/services/install/id-9");
    assert_eq!(install_req.auth, Some(String::from("tok-1")));

    let (state, next) = confirm_install_step(&herp, &service, state, &response(200, s("ok")));
    assert!(next.is_none());
    match state {
        ConfirmInstall::Done { result } => {
            assert_eq!(result, Ok(InstallResult(String::from("ok"))))
        }
        other => panic!("conversation should be over, was {:?}", other),
    }
}

#[test]
fn confirm_install_auth_failure_short_circuits() {
    let herp = default_herp();
    let service = default_service();
    let state = ConfirmInstall::Authenticating;
    let bad_login = response(200, obj(vec![("user", s("nobody"))]));
    let (state, next) = confirm_install_step(&herp, &service, state, &bad_login);
    assert!(next.is_none());
    match state {
        ConfirmInstall::Done { result } => {
            assert_eq!(result, Err(InstallError::AuthorizationFailed))
        }
        other => panic!("conversation should be over, was {:?}", other),
    }
}

#[test]
fn confirm_install_resolution_failure_ends_conversation() {
    let herp = default_herp();
    let service = default_service();
    let state = ConfirmInstall::Resolving { token: String::from("tok-1") };
    let listing = obj(vec![("data", JsonValue::Arr(vec![]))]);
    let (state, next) = confirm_install_step(&herp, &service, state, &response(200, listing));
    assert!(next.is_none());
    match state {
        ConfirmInstall::Done { result } => {
            assert_eq!(result, Err(InstallError::ServiceNotFound))
        }
        other => panic!("conversation should be over, was {:?}", other),
    }
}

#[test]
fn confirm_install_rejection_reported() {
    let herp = default_herp();
    let service = default_service();
    let state = ConfirmInstall::Confirming;
    let (state, _) =
        confirm_install_step(&herp, &service, state, &response(200, obj(vec![("a", s("b"))])));
    match state {
        ConfirmInstall::Done { result } => {
            assert_eq!(result, Err(InstallError::InstallRejected))
        }
        other => panic!("conversation should be over, was {:?}", other),
    }
}
