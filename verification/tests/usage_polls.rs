use claude_deck::usage::{
    access_token, classify_response, CredentialFile, FetchStatus, OauthBlob, PollAction,
    PollError, PollPhase, ResponseClass, TokenPoller,
};

#[test]
fn poll_error_messages() {
    assert_eq!(
        PollError::RateLimited { retry_after_secs: Some(42) }.message(),
        "rate limited by usage endpoint (HTTP 429), retry after 42s"
    );
    assert_eq!(
        PollError::RateLimited { retry_after_secs: None }.message(),
        "rate limited by usage endpoint (HTTP 429)"
    );
    assert_eq!(PollError::Other("no token".to_string()).message(), "no token");
}

#[test]
fn classifies_responses() {
    assert_eq!(
        classify_response(429, Some("17")),
        ResponseClass::RateLimited { retry_after_secs: Some(17) }
    );
    assert_eq!(
        classify_response(429, Some("soon")),
        ResponseClass::RateLimited { retry_after_secs: None }
    );
    assert_eq!(
        classify_response(429, None),
        ResponseClass::RateLimited { retry_after_secs: None }
    );
    assert_eq!(classify_response(200, None), ResponseClass::Success);
    assert_eq!(classify_response(204, Some("5")), ResponseClass::Success);
    assert_eq!(classify_response(401, None), ResponseClass::Failed);
    assert_eq!(classify_response(500, None), ResponseClass::Failed);
    assert_eq!(classify_response(302, None), ResponseClass::Failed);
    assert_eq!(classify_response(199, None), ResponseClass::Failed);
}

#[test]
fn token_from_credentials() {
    let with = CredentialFile {
        claude_ai_oauth: Some(OauthBlob { access_token: "SECRET-REDACTED".to_string() }),
    };
    assert_eq!(access_token(with), Ok("SECRET-REDACTED".to_string()));
    let without = CredentialFile { claude_ai_oauth: None };
    assert_eq!(
        access_token(without),
        Err("no claudeAiOauth field in credential blob".to_string())
    );
}

#[test]
fn cached_token_reused_without_reading_store() {
    let mut p = TokenPoller::new(Some("cached".to_string()));
    assert_eq!(p.start(), PollAction::Fetch("cached".to_string()));
    assert!(p.awaiting_fetch());
    assert_eq!(p.on_fetched(FetchStatus::Success), PollAction::ReturnFetchResult);
    assert_eq!(p.phase, PollPhase::Idle);
    assert_eq!(p.cached, Some("cached".to_string()));
}

#[test]
fn rate_limit_not_masked_by_fresh_read() {
    let mut p = TokenPoller::new(Some("cached".to_string()));
    p.start();
    assert_eq!(p.on_fetched(FetchStatus::RateLimited), PollAction::ReturnFetchResult);
    assert_eq!(p.phase, PollPhase::Idle);
    assert_eq!(p.cached, Some("cached".to_string()));
}

#[test]
fn stale_token_replaced_after_fresh_success() {
    let mut p = TokenPoller::new(Some("stale".to_string()));
    p.start();
    assert_eq!(p.on_fetched(FetchStatus::Failed), PollAction::ReadCredentials);
    assert!(p.awaiting_credentials());
    assert_eq!(
        p.on_credentials(Ok("fresh".to_string())),
        PollAction::Fetch("fresh".to_string())
    );
    assert_eq!(p.cached, Some("stale".to_string()));
    assert_eq!(p.on_fetched(FetchStatus::Success), PollAction::ReturnFetchResult);
    assert_eq!(p.cached, Some("fresh".to_string()));
    assert_eq!(p.phase, PollPhase::Idle);
}

#[test]
fn fresh_token_not_cached_when_it_fails() {
    let mut p = TokenPoller::new(None);
    assert_eq!(p.start(), PollAction::ReadCredentials);
    p.on_credentials(Ok("fresh".to_string()));
    assert_eq!(p.on_fetched(FetchStatus::RateLimited), PollAction::ReturnFetchResult);
    assert_eq!(p.cached, None);
}

#[test]
fn credential_error_ends_poll() {
    let mut p = TokenPoller::new(None);
    p.start();
    assert_eq!(
        p.on_credentials(Err("no credentials found".to_string())),
        PollAction::ReturnCredentialError("no credentials found".to_string())
    );
    assert_eq!(p.phase, PollPhase::Idle);
    assert_eq!(p.cached, None);
}
