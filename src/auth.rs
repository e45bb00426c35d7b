//! The credential lifecycle: whether to reuse the stored token, refresh it,
//! or run the interactive authorization flow.
//!
//! The decisions form a state machine. The caller performs each requested
//! action (read the store, call the token endpoint, ask the operator, write
//! the store) and hands the outcome back as an event.

use crate::args::OAuthConfig;
use crate::time::{current_time, secs_in_range, Timestamp};
use vstd::prelude::*;

verus! {

/// A stored token is reused only while it stays valid this many seconds past now.
pub const SAFETY_MARGIN_SECS: i64 = 300;

/// Lifetime assumed for a refreshed token when the endpoint gives none.
pub const DEFAULT_EXPIRES_IN_SECS: u64 = 3600;

/// The credential set kept between runs.
#[derive(Debug)]
pub struct StoredTokens {
    pub access_token: String,
    pub refresh_token: Option<String>,
    pub expires_at: Option<Timestamp>,
}

/// Why the stored credentials could not be loaded.
#[derive(Clone, Copy, Debug, PartialEq, Eq, Structural)]
pub enum LoadError {
    NotFound,
    ReadFailed,
    Malformed,
}

/// Why the credentials could not be stored.
#[derive(Clone, Copy, Debug, PartialEq, Eq, Structural)]
pub enum StoreError {
    WriteFailed,
}

/// A failure of the interactive authorization flow.
#[derive(Debug)]
pub struct AuthError {
    pub message: String,
}

/// Why authentication ended without a token.
#[derive(Debug)]
pub enum AuthFailure {
    Authorization(AuthError),
    Store(StoreError),
}

/// The fields of a successful answer of the token endpoint to a refresh.
#[derive(Debug)]
pub struct RefreshReply {
    pub access_token: Option<String>,
    pub expires_in: Option<u64>,
}

/// The token pair obtained by the interactive authorization flow.
#[derive(Debug)]
pub struct TokenGrant {
    pub access_token: String,
    pub refresh_token: Option<String>,
    pub expires_in: Option<u64>,
}

/// A refresh exchange to send to the token endpoint.
#[derive(Debug)]
pub struct RefreshRequest {
    pub refresh_token: String,
    pub client_id: String,
    pub client_secret: String,
}

/// Where authentication stands.
#[derive(Debug)]
pub enum AuthPhase {
    /// Waiting for the stored credentials.
    Loading,
    /// Waiting for the answer to a refresh with this refresh token.
    Refreshing { refresh_token: String },
    /// Waiting for the interactive authorization flow.
    Authorizing,
    /// Waiting for these credentials to be stored.
    Saving { tokens: StoredTokens },
    /// Finished with this access token.
    Done { access_token: String },
    /// Finished without a token.
    Failed { failure: AuthFailure },
}

/// The outcome of an action, handed back to the state machine.
#[derive(Debug)]
pub enum AuthEvent {
    /// The credential store was read.
    Loaded(Result<StoredTokens, LoadError>),
    /// The refresh exchange answered (`None`: transport error or a
    /// non-success status).
    RefreshFinished(Option<RefreshReply>),
    /// The interactive authorization flow ended.
    Authorized(Result<TokenGrant, AuthError>),
    /// The credential store was written.
    Saved(Result<(), StoreError>),
}

/// What the caller is asked to do next.
#[derive(Debug)]
pub enum AuthAction {
    /// Read the credential store.
    LoadStore,
    /// Send this refresh exchange to the token endpoint.
    Refresh(RefreshRequest),
    /// Run the interactive authorization flow.
    Authorize,
    /// Write these credentials to the store.
    Save(StoredTokens),
    /// Authentication succeeded: use this access token.
    Finish(String),
    /// Authentication failed.
    Fail(AuthFailure),
}

/// The token lifecycle manager: the client's identity and the phase reached.
#[derive(Debug)]
pub struct Authenticator {
    pub client_id: String,
    pub client_secret: String,
    pub phase: AuthPhase,
}

/// Whether a stored token is still valid beyond the safety margin at `now`.
pub open spec fn reusable(tokens: StoredTokens, now: Timestamp) -> bool {
    match tokens.expires_at {
        Some(e) => e.total_nanos() > now.total_nanos() + SAFETY_MARGIN_SECS * 1000000000,
        None => false,
    }
}

/// The instant `secs` seconds after `now`, when it is representable.
pub open spec fn expiry_after(now: Timestamp, secs: u64) -> Option<Timestamp> {
    if secs_in_range(now.secs + secs) {
        Some(now.shifted(secs as int))
    } else {
        None
    }
}

/// The credentials that a successful refresh yields: the new access token,
/// the refresh token that was sent, and an expiry `expires_in` seconds (one hour
/// by default) after `now`.
pub open spec fn refreshed_tokens(
    access_token: String,
    refresh_token: String,
    expires_in: Option<u64>,
    now: Timestamp,
) -> StoredTokens {
    StoredTokens {
        access_token,
        refresh_token: Some(refresh_token),
        expires_at: expiry_after(
            now,
            match expires_in {
                Some(s) => s,
                None => DEFAULT_EXPIRES_IN_SECS,
            },
        ),
    }
}

/// The credentials that the authorization flow yields, expiring
/// `expires_in` seconds after `now` when the provider says so.
pub open spec fn granted_tokens(grant: TokenGrant, now: Timestamp) -> StoredTokens {
    StoredTokens {
        access_token: grant.access_token,
        refresh_token: grant.refresh_token,
        expires_at: match grant.expires_in {
            Some(s) => expiry_after(now, s),
            None => None,
        },
    }
}

/// The phase that follows `phase` on `event` at time `now`. An event that
/// does not answer the pending action leaves the phase as it is.
pub open spec fn next_phase(phase: AuthPhase, event: AuthEvent, now: Timestamp) -> AuthPhase {
    match phase {
        AuthPhase::Loading => match event {
            AuthEvent::Loaded(Ok(tokens)) => if reusable(tokens, now) {
                AuthPhase::Done { access_token: tokens.access_token }
            } else {
                match tokens.refresh_token {
                    Some(rt) => AuthPhase::Refreshing { refresh_token: rt },
                    None => AuthPhase::Authorizing,
                }
            },
            AuthEvent::Loaded(Err(_)) => AuthPhase::Authorizing,
            _ => phase,
        },
        AuthPhase::Refreshing { refresh_token } => match event {
            AuthEvent::RefreshFinished(Some(reply)) => match reply.access_token {
                Some(at) => AuthPhase::Saving {
                    tokens: refreshed_tokens(at, refresh_token, reply.expires_in, now),
                },
                None => AuthPhase::Authorizing,
            },
            AuthEvent::RefreshFinished(None) => AuthPhase::Authorizing,
            _ => phase,
        },
        AuthPhase::Authorizing => match event {
            AuthEvent::Authorized(Ok(grant)) => AuthPhase::Saving {
                tokens: granted_tokens(grant, now),
            },
            AuthEvent::Authorized(Err(e)) => AuthPhase::Failed {
                failure: AuthFailure::Authorization(e),
            },
            _ => phase,
        },
        AuthPhase::Saving { tokens } => match event {
            AuthEvent::Saved(Ok(())) => AuthPhase::Done { access_token: tokens.access_token },
            AuthEvent::Saved(Err(e)) => AuthPhase::Failed { failure: AuthFailure::Store(e) },
            _ => phase,
        },
        AuthPhase::Done { .. } => phase,
        AuthPhase::Failed { .. } => phase,
    }
}

/// The action that the authenticator `a` waits on.
pub open spec fn pending(a: Authenticator) -> AuthAction {
    match a.phase {
        AuthPhase::Loading => AuthAction::LoadStore,
        AuthPhase::Refreshing { refresh_token } => AuthAction::Refresh(
            RefreshRequest {
                refresh_token,
                client_id: a.client_id,
                client_secret: a.client_secret,
            },
        ),
        AuthPhase::Authorizing => AuthAction::Authorize,
        AuthPhase::Saving { tokens } => AuthAction::Save(tokens),
        AuthPhase::Done { access_token } => AuthAction::Finish(access_token),
        AuthPhase::Failed { failure } => AuthAction::Fail(failure),
    }
}

/// The authenticator after `event` at time `now`.
pub open spec fn after(a: Authenticator, event: AuthEvent, now: Timestamp) -> Authenticator {
    Authenticator { phase: next_phase(a.phase, event, now), ..a }
}

/// A stored token that is still valid beyond the safety margin is adopted
/// unchanged: no refresh exchange and no authorization flow is requested.
pub proof fn lemma_valid_token_reused(a: Authenticator, tokens: StoredTokens, now: Timestamp)
    requires
        a.phase is Loading,
        reusable(tokens, now),
    ensures
        after(a, AuthEvent::Loaded(Ok(tokens)), now).phase == (AuthPhase::Done {
            access_token: tokens.access_token,
        }),
        pending(after(a, AuthEvent::Loaded(Ok(tokens)), now)) == AuthAction::Finish(
            tokens.access_token,
        ),
{
}

/// A stored token near expiry with a refresh token is refreshed: the refresh
/// exchange carries the stored refresh token and the client's identity, the
/// new access token is stored together with the stored refresh token and an
/// expiry `expires_in` seconds (one hour by default) after the reply, and
/// once stored it becomes the active token. Stated where that expiry is a
/// representable instant; past it no expiry is stored.
pub proof fn lemma_refresh_persists_new_token(
    a: Authenticator,
    tokens: StoredTokens,
    reply: RefreshReply,
    loaded_at: Timestamp,
    refreshed_at: Timestamp,
    saved_at: Timestamp,
)
    requires
        a.phase is Loading,
        !reusable(tokens, loaded_at),
        tokens.refresh_token is Some,
        reply.access_token is Some,
        secs_in_range(
            refreshed_at.secs + match reply.expires_in {
                Some(k) => k,
                None => DEFAULT_EXPIRES_IN_SECS,
            },
        ),
    ensures
        ({
            let a1 = after(a, AuthEvent::Loaded(Ok(tokens)), loaded_at);
            let a2 = after(a1, AuthEvent::RefreshFinished(Some(reply)), refreshed_at);
            let a3 = after(a2, AuthEvent::Saved(Ok(())), saved_at);
            &&& pending(a1) == AuthAction::Refresh(
                RefreshRequest {
                    refresh_token: tokens.refresh_token->0,
                    client_id: a.client_id,
                    client_secret: a.client_secret,
                },
            )
            &&& pending(a2) == AuthAction::Save(
                refreshed_tokens(
                    reply.access_token->0,
                    tokens.refresh_token->0,
                    reply.expires_in,
                    refreshed_at,
                ),
            )
            &&& refreshed_tokens(
                reply.access_token->0,
                tokens.refresh_token->0,
                reply.expires_in,
                refreshed_at,
            ) == (StoredTokens {
                access_token: reply.access_token->0,
                refresh_token: tokens.refresh_token,
                expires_at: Some(
                    refreshed_at.shifted(
                        match reply.expires_in {
                            Some(k) => k as int,
                            None => DEFAULT_EXPIRES_IN_SECS as int,
                        },
                    ),
                ),
            })
            &&& a3.phase == (AuthPhase::Done { access_token: reply.access_token->0 })
        }),
{
}

/// A refresh that fails (no answer, or an answer without an access token)
/// leads to the interactive authorization flow, not to a failure.
pub proof fn lemma_refresh_failure_falls_back(
    a: Authenticator,
    reply: Option<RefreshReply>,
    now: Timestamp,
)
    requires
        a.phase is Refreshing,
        reply matches Some(r) ==> r.access_token is None,
    ensures
        after(a, AuthEvent::RefreshFinished(reply), now).phase is Authorizing,
        pending(after(a, AuthEvent::RefreshFinished(reply), now)) == AuthAction::Authorize,
{
}

fn copy_text(s: &Option<String>) -> (r: Option<String>)
    ensures
        r == *s,
{
    match s {
        Some(t) => Some(t.clone()),
        None => None,
    }
}

fn copy_tokens(t: &StoredTokens) -> (r: StoredTokens)
    ensures
        r == *t,
{
    StoredTokens {
        access_token: t.access_token.clone(),
        refresh_token: copy_text(&t.refresh_token),
        expires_at: t.expires_at,
    }
}

fn copy_failure(f: &AuthFailure) -> (r: AuthFailure)
    ensures
        r == *f,
{
    match f {
        AuthFailure::Authorization(e) => AuthFailure::Authorization(
            AuthError { message: e.message.clone() },
        ),
        AuthFailure::Store(e) => AuthFailure::Store(*e),
    }
}

/// The instant `secs` seconds after `now`, when it is representable.
fn expiry_in(now: Timestamp, secs: u64) -> (r: Option<Timestamp>)
    requires
        now.wf(),
    ensures
        r == expiry_after(now, secs),
{
    if secs > i64::MAX as u64 {
        None
    } else {
        now.checked_add_secs(secs as i64)
    }
}

impl RefreshRequest {
    /// The form fields of the exchange, in order: `grant_type`,
    /// `refresh_token`, `client_id`, `client_secret`.
    pub fn form_fields(&self) -> (r: Vec<(String, String)>)
        ensures
            r@.len() == 4,
            r@[0].0@ == "grant_type"@ && r@[0].1@ == "refresh_token"@,
            r@[1].0@ == "refresh_token"@ && r@[1].1 == self.refresh_token,
            r@[2].0@ == "client_id"@ && r@[2].1 == self.client_id,
            r@[3].0@ == "client_secret"@ && r@[3].1 == self.client_secret,
    {
        let mut r: Vec<(String, String)> = Vec::new();
        r.push((String::from_str("grant_type"), String::from_str("refresh_token")));
        r.push((String::from_str("refresh_token"), self.refresh_token.clone()));
        r.push((String::from_str("client_id"), self.client_id.clone()));
        r.push((String::from_str("client_secret"), self.client_secret.clone()));
        r
    }
}

impl Authenticator {
    /// A fresh authenticator for a client, about to read the credential store.
    pub fn new(config: &OAuthConfig) -> (r: Authenticator)
        ensures
            r.client_id == config.client_id,
            r.client_secret == config.client_secret,
            r.phase is Loading,
    {
        Authenticator {
            client_id: config.client_id.clone(),
            client_secret: config.client_secret.clone(),
            phase: AuthPhase::Loading,
        }
    }

    /// The action that the authenticator waits on.
    pub fn pending_action(&self) -> (r: AuthAction)
        ensures
            r == pending(*self),
    {
        match &self.phase {
            AuthPhase::Loading => AuthAction::LoadStore,
            AuthPhase::Refreshing { refresh_token } => AuthAction::Refresh(
                RefreshRequest {
                    refresh_token: refresh_token.clone(),
                    client_id: self.client_id.clone(),
                    client_secret: self.client_secret.clone(),
                },
            ),
            AuthPhase::Authorizing => AuthAction::Authorize,
            AuthPhase::Saving { tokens } => AuthAction::Save(copy_tokens(tokens)),
            AuthPhase::Done { access_token } => AuthAction::Finish(access_token.clone()),
            AuthPhase::Failed { failure } => AuthAction::Fail(copy_failure(failure)),
        }
    }

    /// The access token in use, once authentication has succeeded.
    pub fn active_token(&self) -> (r: Option<String>)
        ensures
            r == (match self.phase {
                AuthPhase::Done { access_token } => Some(access_token),
                _ => None::<String>,
            }),
    {
        match &self.phase {
            AuthPhase::Done { access_token } => Some(access_token.clone()),
            _ => None,
        }
    }

    /// Takes in the outcome of the pending action, observed at time `now`,
    /// and returns the next action.
    pub fn step_at(&mut self, event: AuthEvent, now: Timestamp) -> (r: AuthAction)
        requires
            now.wf(),
        ensures
            *final(self) == after(*old(self), event, now),
            r == pending(*final(self)),
    {
        let mut phase = AuthPhase::Authorizing;
        std::mem::swap(&mut self.phase, &mut phase);
        let next = match phase {
            AuthPhase::Loading => match event {
                AuthEvent::Loaded(Ok(tokens)) => {
                    let reuse = match tokens.expires_at {
                        Some(e) => e.later_than(now, SAFETY_MARGIN_SECS),
                        None => false,
                    };
                    if reuse {
                        AuthPhase::Done { access_token: tokens.access_token }
                    } else {
                        match tokens.refresh_token {
                            Some(rt) => AuthPhase::Refreshing { refresh_token: rt },
                            None => AuthPhase::Authorizing,
                        }
                    }
                },
                AuthEvent::Loaded(Err(_)) => AuthPhase::Authorizing,
                _ => AuthPhase::Loading,
            },
            AuthPhase::Refreshing { refresh_token } => match event {
                AuthEvent::RefreshFinished(Some(reply)) => match reply.access_token {
                    Some(at) => {
                        let lifetime = match reply.expires_in {
                            Some(s) => s,
                            None => DEFAULT_EXPIRES_IN_SECS,
                        };
                        AuthPhase::Saving {
                            tokens: StoredTokens {
                                access_token: at,
                                refresh_token: Some(refresh_token),
                                expires_at: expiry_in(now, lifetime),
                            },
                        }
                    },
                    None => AuthPhase::Authorizing,
                },
                AuthEvent::RefreshFinished(None) => AuthPhase::Authorizing,
                _ => AuthPhase::Refreshing { refresh_token },
            },
            AuthPhase::Authorizing => match event {
                AuthEvent::Authorized(Ok(grant)) => {
                    let expires_at = match grant.expires_in {
                        Some(s) => expiry_in(now, s),
                        None => None,
                    };
                    AuthPhase::Saving {
                        tokens: StoredTokens {
                            access_token: grant.access_token,
                            refresh_token: grant.refresh_token,
                            expires_at,
                        },
                    }
                },
                AuthEvent::Authorized(Err(e)) => AuthPhase::Failed {
                    failure: AuthFailure::Authorization(e),
                },
                _ => AuthPhase::Authorizing,
            },
            AuthPhase::Saving { tokens } => match event {
                AuthEvent::Saved(Ok(())) => AuthPhase::Done { access_token: tokens.access_token },
                AuthEvent::Saved(Err(e)) => AuthPhase::Failed { failure: AuthFailure::Store(e) },
                _ => AuthPhase::Saving { tokens },
            },
            AuthPhase::Done { access_token } => AuthPhase::Done { access_token },
            AuthPhase::Failed { failure } => AuthPhase::Failed { failure },
        };
        self.phase = next;
        self.pending_action()
    }

    /// Takes in the outcome of the pending action, observed now, and returns
    /// the next action.
    pub fn step(&mut self, event: AuthEvent) -> (r: AuthAction)
        ensures
            exists|now: Timestamp|
                now.wf() && *final(self) == #[trigger] after(*old(self), event, now),
            r == pending(*final(self)),
    {
        let now = current_time();
        self.step_at(event, now)
    }
}

} // verus!
