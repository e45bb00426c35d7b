use youtube_scheduler::{
    AuthAction, AuthError, AuthEvent, AuthFailure, Authenticator, LoadError, OAuthConfig,
    RefreshReply, StoreError, StoredTokens, Timestamp, TokenGrant,
};

const NOW: i64 = 1704110400;

fn now() -> Timestamp {
    Timestamp::from_unix(NOW).unwrap()
}

fn authenticator() -> Authenticator {
    let config = OAuthConfig {
        client_id: "client-1".to_string(),
        client_secret: "SECRET-REDACTED".to_string(),
        redirect_uri: "http://localhost:8080".to_string(),
    };
    let a = Authenticator::new(&config);
    assert!(matches!(a.pending_action(), AuthAction::LoadStore));
    a
}

fn stored(expires_in: Option<i64>, refresh: Option<&str>) -> StoredTokens {
    StoredTokens {
        access_token: "old-access".to_string(),
        refresh_token: refresh.map(|s| s.to_string()),
        expires_at: expires_in.map(|d| Timestamp::from_unix(NOW + d).unwrap()),
    }
}

#[test]
fn valid_stored_token_is_reused() {
    let mut a = authenticator();
    let action = a.step_at(AuthEvent::Loaded(Ok(stored(Some(301), Some("r1")))), now());
    assert!(matches!(action, AuthAction::Finish(ref t) if t == "old-access"));
    assert_eq!(a.active_token().as_deref(), Some("old-access"));
}

#[test]
fn token_within_margin_is_refreshed_and_keeps_refresh_token() {
    let mut a = authenticator();
    let action = a.step_at(AuthEvent::Loaded(Ok(stored(Some(300), Some("r1")))), now());
    let request = match action {
        AuthAction::Refresh(r) => r,
        other => panic!("unexpected {other:?}"),
    };
    assert_eq!(request.refresh_token, "r1");
    let fields = request.form_fields();
    let expected = [
        ("grant_type", "refresh_token"),
        ("refresh_token", "r1"),
        ("client_id", "client-1"),
        ("client_secret", "SECRET-REDACTED"),
    ];
    assert_eq!(fields.len(), 4);
    for ((k, v), (ek, ev)) in fields.iter().zip(expected.iter()) {
        assert_eq!((k.as_str(), v.as_str()), (*ek, *ev));
    }

    let reply = RefreshReply { access_token: Some("new-access".to_string()), expires_in: None };
    let action = a.step_at(AuthEvent::RefreshFinished(Some(reply)), now());
    match action {
        AuthAction::Save(t) => {
            assert_eq!(t.access_token, "new-access");
            assert_eq!(t.refresh_token.as_deref(), Some("r1"));
            assert_eq!(t.expires_at, Timestamp::from_unix(NOW + 3600));
        }
        other => panic!("unexpected {other:?}"),
    }
    let action = a.step_at(AuthEvent::Saved(Ok(())), now());
    assert!(matches!(action, AuthAction::Finish(ref t) if t == "new-access"));
}

#[test]
fn refresh_reply_lifetime_sets_expiry() {
    let mut a = authenticator();
    a.step_at(AuthEvent::Loaded(Ok(stored(None, Some("r1")))), now());
    let reply = RefreshReply { access_token: Some("x".to_string()), expires_in: Some(120) };
    match a.step_at(AuthEvent::RefreshFinished(Some(reply)), now()) {
        AuthAction::Save(t) => assert_eq!(t.expires_at, Timestamp::from_unix(NOW + 120)),
        other => panic!("unexpected {other:?}"),
    }
}

#[test]
fn failed_refresh_falls_back_to_authorization() {
    let mut a = authenticator();
    a.step_at(AuthEvent::Loaded(Ok(stored(Some(-10), Some("r1")))), now());
    assert!(matches!(a.step_at(AuthEvent::RefreshFinished(None), now()), AuthAction::Authorize));

    let mut b = authenticator();
    b.step_at(AuthEvent::Loaded(Ok(stored(Some(-10), Some("r1")))), now());
    let reply = RefreshReply { access_token: None, expires_in: Some(3600) };
    assert!(matches!(b.step_at(AuthEvent::RefreshFinished(Some(reply)), now()), AuthAction::Authorize));
}

#[test]
fn missing_or_unusable_store_leads_to_authorization() {
    for e in [LoadError::NotFound, LoadError::ReadFailed, LoadError::Malformed] {
        let mut a = authenticator();
        assert!(matches!(a.step_at(AuthEvent::Loaded(Err(e)), now()), AuthAction::Authorize));
    }
    let mut a = authenticator();
    assert!(matches!(a.step_at(AuthEvent::Loaded(Ok(stored(None, None))), now()), AuthAction::Authorize));
}

#[test]
fn authorization_grant_is_stored_then_used() {
    let mut a = authenticator();
    a.step_at(AuthEvent::Loaded(Err(LoadError::NotFound)), now());
    let grant = TokenGrant {
        access_token: "granted".to_string(),
        refresh_token: Some("r2".to_string()),
        expires_in: Some(3599),
    };
    match a.step_at(AuthEvent::Authorized(Ok(grant)), now()) {
        AuthAction::Save(t) => {
            assert_eq!(t.access_token, "granted");
            assert_eq!(t.refresh_token.as_deref(), Some("r2"));
            assert_eq!(t.expires_at, Timestamp::from_unix(NOW + 3599));
        }
        other => panic!("unexpected {other:?}"),
    }
    assert!(matches!(a.step_at(AuthEvent::Saved(Ok(())), now()), AuthAction::Finish(ref t) if t == "granted"));
}

#[test]
fn grant_without_lifetime_has_no_expiry() {
    let mut a = authenticator();
    a.step_at(AuthEvent::Loaded(Err(LoadError::Malformed)), now());
    let grant = TokenGrant { access_token: "g".to_string(), refresh_token: None, expires_in: None };
    match a.step_at(AuthEvent::Authorized(Ok(grant)), now()) {
        AuthAction::Save(t) => {
            assert_eq!(t.expires_at, None);
            assert_eq!(t.refresh_token, None);
        }
        other => panic!("unexpected {other:?}"),
    }
}

#[test]
fn authorization_and_store_errors_are_fatal() {
    let mut a = authenticator();
    a.step_at(AuthEvent::Loaded(Err(LoadError::NotFound)), now());
    let err = AuthError { message: "code rejected".to_string() };
    match a.step_at(AuthEvent::Authorized(Err(err)), now()) {
        AuthAction::Fail(AuthFailure::Authorization(e)) => assert_eq!(e.message, "code rejected"),
        other => panic!("unexpected {other:?}"),
    }
    assert!(a.active_token().is_none());

    let mut b = authenticator();
    b.step_at(AuthEvent::Loaded(Ok(stored(Some(-1), Some("r1")))), now());
    let reply = RefreshReply { access_token: Some("n".to_string()), expires_in: None };
    b.step_at(AuthEvent::RefreshFinished(Some(reply)), now());
    assert!(matches!(
        b.step_at(AuthEvent::Saved(Err(StoreError::WriteFailed)), now()),
        AuthAction::Fail(AuthFailure::Store(StoreError::WriteFailed))
    ));
}

#[test]
fn unrelated_event_repeats_the_pending_action() {
    let mut a = authenticator();
    assert!(matches!(a.step_at(AuthEvent::Saved(Ok(())), now()), AuthAction::LoadStore));
    let mut b = authenticator();
    b.step_at(AuthEvent::Loaded(Ok(stored(Some(1000), None))), now());
    assert!(matches!(b.step_at(AuthEvent::RefreshFinished(None), now()), AuthAction::Finish(_)));
}

#[test]
fn step_reads_the_clock() {
    let mut a = authenticator();
    let far = StoredTokens {
        access_token: "a".to_string(),
        refresh_token: None,
        expires_at: Timestamp::from_unix(8000000000000),
    };
    assert!(matches!(a.step(AuthEvent::Loaded(Ok(far))), AuthAction::Finish(_)));
}
