use launch_core::auth::AuthController;
use launch_core::auth::AuthFlowSession;
use launch_core::auth::LoginStep;
use launch_core::auth::SurfaceObservation;
use launch_core::auth::TickDecision;
use launch_core::auth::conclude_without_exchange;
use launch_core::auth::finish_exchange;
use launch_core::auth::poll_tick;
use launch_core::auth::redirect_origin_str;
use launch_core::creds::CredentialStore;
use launch_core::creds::MinecraftCredentials;
use launch_core::errors::AuthError;
use launch_core::url_query::extract_auth_code;
use launch_core::url_query::str_starts_with;

const REDIRECT: &str = "https://login.live.com/oauth20_desktop.srf";

fn session(started_at_ms: i64) -> AuthFlowSession {
    AuthFlowSession::begin_at(
        "https://login.live.com/oauth20_authorize.srf?client_id=xyz".to_string(),
        "verifier-secret".to_string(),
        started_at_ms,
    )
}

fn creds(uuid: u128, name: &str) -> MinecraftCredentials {
    MinecraftCredentials {
        uuid,
        username: name.to_string(),
        access_token: "access".to_string(),
        refresh_token: "refresh".to_string(),
        expires_at_ms: 9_999,
    }
}

#[test]
fn attempt_expires_at_ten_minutes() {
    let s = session(0);
    assert!(!s.expired_at(599_999));
    assert!(s.expired_at(600_000));
    assert!(s.expired_at(600_001));

    let idle = SurfaceObservation::Navigated {
        url: "https://login.live.com/oauth20_authorize.srf".to_string(),
    };
    assert!(matches!(poll_tick(&s, &idle, 599_999), TickDecision::KeepWaiting));
    assert!(matches!(poll_tick(&s, &idle, 600_000), TickDecision::Expired));
    assert!(matches!(poll_tick(&s, &idle, 1_000_000), TickDecision::Expired));
}

#[test]
fn expired_attempt_via_controller_returns_absent() {
    let mut c = AuthController::new();
    c.begin_at(REDIRECT.to_string(), "tok".to_string(), 0);
    let idle = SurfaceObservation::Navigated {
        url: "https://login.live.com/oauth20_authorize.srf".to_string(),
    };
    let step = c.tick(&idle, 600_000);
    assert!(matches!(step, LoginStep::Expired));
    assert!(c.attempt.is_none());
    assert!(!c.surface_open);
}

#[test]
fn closed_surface_cancels_before_any_exchange() {
    let s = session(0);
    let d = poll_tick(&s, &SurfaceObservation::Closed, 5_000);
    assert!(matches!(d, TickDecision::Cancelled));

    let mut c = AuthController::new();
    c.begin_at(REDIRECT.to_string(), "tok".to_string(), 0);
    let step = c.tick(&SurfaceObservation::Closed, 5_000);
    assert!(matches!(step, LoginStep::Cancelled));
    assert!(c.attempt.is_none());
}

#[test]
fn read_failure_fails_the_attempt() {
    let s = session(0);
    let d = poll_tick(&s, &SurfaceObservation::ReadFailed, 1_000);
    assert!(matches!(d, TickDecision::Failed));
}

#[test]
fn redirect_with_code_triggers_exactly_one_exchange() {
    let mut c = AuthController::new();
    c.begin_at(REDIRECT.to_string(), "verifier-secret".to_string(), 0);

    let nav = SurfaceObservation::Navigated {
        url: format!("{}?code=ABC123", REDIRECT),
    };
    let step = c.tick(&nav, 30_000);
    match step {
        LoginStep::Exchange(req) => {
            assert_eq!(req.code, "ABC123");
            assert_eq!(req.exchange_token, "verifier-secret");
        }
        other => panic!("expected an exchange step, got {:?}", kind_of(&other)),
    }
    // The attempt is consumed: no second exchange can ever be handed out.
    assert!(c.attempt.is_none());
    assert!(!c.surface_open);
}

fn kind_of(step: &LoginStep) -> &'static str {
    match step {
        LoginStep::Wait => "wait",
        LoginStep::Exchange(_) => "exchange",
        LoginStep::Cancelled => "cancelled",
        LoginStep::Expired => "expired",
        LoginStep::Failed => "failed",
    }
}

#[test]
fn successful_exchange_stores_and_returns_credentials() {
    let mut store = CredentialStore::new();
    let r = finish_exchange(&mut store, Ok(creds(77, "steve")));
    let returned = r.unwrap().unwrap();
    assert_eq!(returned.uuid, 77);
    assert_eq!(returned.username, "steve");
    assert_eq!(store.get_user(77).unwrap().username, "steve");
}

#[test]
fn failed_exchange_surfaces_the_error_and_stores_nothing() {
    let mut store = CredentialStore::new();
    let r = finish_exchange(&mut store, Err(AuthError::ExchangeFailed));
    assert_eq!(r.err().unwrap(), AuthError::ExchangeFailed);
    assert_eq!(store.get_users().len(), 0);
}

#[test]
fn cancellation_and_expiry_are_absent_results_not_errors() {
    assert!(matches!(conclude_without_exchange(&LoginStep::Cancelled), Ok(None)));
    assert!(matches!(conclude_without_exchange(&LoginStep::Expired), Ok(None)));
    assert!(matches!(
        conclude_without_exchange(&LoginStep::Failed),
        Err(AuthError::IOFailure)
    ));
}

#[test]
fn second_attempt_closes_the_first_surface() {
    let mut c = AuthController::new();
    let first = c.begin_at("https://one.example/login".to_string(), "t1".to_string(), 0);
    assert!(!first.close_existing);
    assert_eq!(first.open_uri, "https://one.example/login");

    // First attempt still pending: its surface must be closed first.
    let second = c.begin_at("https://two.example/login".to_string(), "t2".to_string(), 1_000);
    assert!(second.close_existing);
    assert_eq!(second.open_uri, "https://two.example/login");
}

#[test]
fn begin_stamps_a_nonnegative_wall_clock_time() {
    let s = AuthFlowSession::begin("https://r.example".to_string(), "tok".to_string());
    assert!(s.started_at_ms >= 0);
    assert_eq!(s.redirect_uri, "https://r.example");
    assert_eq!(s.exchange_token, "tok");
}

#[test]
fn redirect_origin_matching() {
    assert!(str_starts_with(
        "https://login.live.com/oauth20_desktop.srf?code=x",
        redirect_origin_str(),
    ));
    assert!(!str_starts_with(
        "https://login.live.com/oauth20_authorize.srf",
        redirect_origin_str(),
    ));
    assert!(!str_starts_with("https://", redirect_origin_str()));
}

#[test]
fn code_extraction_from_query() {
    assert_eq!(
        extract_auth_code("https://x.example/cb?code=ABC123"),
        Some("ABC123".to_string())
    );
    assert_eq!(
        extract_auth_code("https://x.example/cb?lc=1033&code=M.R3-BAY.abc&state=xyz"),
        Some("M.R3-BAY.abc".to_string())
    );
    assert_eq!(extract_auth_code("https://x.example/cb"), None);
    assert_eq!(extract_auth_code("https://x.example/cb?state=xyz"), None);
    assert_eq!(extract_auth_code("https://x.example/cb?code="), Some(String::new()));
    assert_eq!(extract_auth_code("https://x.example/cb?code"), Some(String::new()));
    assert_eq!(
        extract_auth_code("https://x.example/cb?code=first&code=second"),
        Some("first".to_string())
    );
    assert_eq!(extract_auth_code("https://x.example/cb?mycode=nope"), None);
}
