//! The authenticated-session bootstrap: the shared session store, the plan
//! read off the persisted credentials record, and the application of refresh
//! and authorization-code-exchange outcomes to the store.

use vstd::prelude::*;

verus! {

/// A token for the music service: the access token itself, the refresh
/// token that renews it, if one was granted, and the expiry instant in
/// seconds since the Unix epoch, if known.
pub struct Token {
    pub access: String,
    pub refresh: Option<String>,
    pub expires_at: Option<i64>,
}

impl Clone for Token {
    /// An exact copy: every field keeps its value.
    fn clone(&self) -> (r: Self)
        ensures
            r == *self,
    {
        Token {
            access: self.access.clone(),
            refresh: match &self.refresh {
                Some(s) => Some(s.clone()),
                None => None,
            },
            expires_at: self.expires_at,
        }
    }
}

/// The persisted credentials record: the application's client identifier
/// and the last saved token, if any.
pub struct AppConfig {
    pub spotify_client_id: String,
    pub spotify_token: Option<Token>,
}

impl Default for AppConfig {
    /// The record before anything was ever saved: an empty client
    /// identifier and no token.
    fn default() -> (c: Self)
        ensures
            c.spotify_client_id@ == Seq::<char>::empty(),
            c.spotify_token is None,
    {
        AppConfig { spotify_client_id: String::new(), spotify_token: None }
    }
}

/// An authenticated session: the handle under which playback is queried.
pub struct Session {
    pub token: Token,
}

/// The single shared mutable resource: the current session, if one is
/// established, and the last-applied credentials record. Writers replace the
/// session wholesale under exclusive access; no partial mutation.
pub struct SessionStore {
    pub session: Option<Session>,
    pub config: AppConfig,
}

impl SessionStore {
    /// A store holding the freshly loaded record and no session yet.
    pub fn new(config: AppConfig) -> (s: SessionStore)
        ensures
            s.session is None,
            s.config == config,
    {
        SessionStore { session: None, config }
    }
}

/// The store after a failed token refresh: the stale session is discarded —
/// nothing remains to be used by mistake — and the record is untouched.
pub open spec fn refresh_failed_store(s: SessionStore) -> SessionStore {
    SessionStore { session: Option::None, config: s.config }
}

/// The store after a token was obtained, by refresh or by a fresh
/// authorization: the session holds exactly that token and the record saves
/// it, write-through, with the client identifier kept.
pub open spec fn token_installed_store(s: SessionStore, t: Token) -> SessionStore {
    SessionStore {
        session: Option::Some((Session { token: t })),
        config: AppConfig {
            spotify_client_id: s.config.spotify_client_id,
            spotify_token: Option::Some(t),
        },
    }
}

/// What the bootstrap does first, read off the loaded record: ask the user
/// for the client identifier — required only once —, try to refresh the
/// saved token, or begin a fresh authorization right away.
pub enum AuthPlan {
    PromptClientId,
    TryRefresh(Token),
    Authorize,
}

/// Reads the bootstrap plan off the record: no client identifier means it
/// must be prompted for; with an identifier, a saved token is tried as a
/// refresh and the lack of one goes straight to authorization.
pub fn initial_plan(cfg: &AppConfig) -> (p: AuthPlan)
    ensures
        cfg.spotify_client_id@.len() == 0 ==> p is PromptClientId,
        cfg.spotify_client_id@.len() > 0 && cfg.spotify_token is None ==> p is Authorize,
        (cfg.spotify_client_id@.len() > 0 ==> (cfg.spotify_token matches Some(t) ==> p
            == AuthPlan::TryRefresh(t))),
{
    let id: &str = &cfg.spotify_client_id;
    if id.is_empty() {
        AuthPlan::PromptClientId
    } else {
        match &cfg.spotify_token {
            Some(t) => AuthPlan::TryRefresh(t.clone()),
            None => AuthPlan::Authorize,
        }
    }
}

/// Records the client identifier the user supplied; the saved token is not
/// touched.
pub fn set_client_id(cfg: &mut AppConfig, id: String)
    ensures
        final(cfg).spotify_client_id == id,
        final(cfg).spotify_token == old(cfg).spotify_token,
{
    cfg.spotify_client_id = id;
}

/// How the service answered a token-refresh attempt.
pub enum RefreshOutcome {
    Refreshed(Token),
    RefreshFailed,
}

/// What the caller must do once a refresh outcome is applied: persist the
/// renewed record, or begin a fresh authorization.
#[derive(Clone, Copy, Debug, PartialEq, Eq, Structural)]
pub enum AuthAction {
    PersistConfig,
    BeginAuthorization,
}

/// Applies a refresh outcome to the store. Success installs the renewed
/// session, saves the token in the record and asks for a write-through
/// persist. Failure discards the stale token, so that no session remains,
/// and downgrades to a fresh authorization — it never ends the process.
pub fn apply_refresh_outcome(store: &mut SessionStore, outcome: RefreshOutcome) -> (act: AuthAction)
    ensures
        (outcome matches RefreshOutcome::Refreshed(t) ==> *final(store) == token_installed_store(
            *old(store),
            t,
        ) && act == AuthAction::PersistConfig),
        outcome is RefreshFailed ==> *final(store) == refresh_failed_store(*old(store)) && act
            == AuthAction::BeginAuthorization,
{
    match outcome {
        RefreshOutcome::Refreshed(t) => {
            store.config.spotify_token = Some(t.clone());
            store.session = Some(Session { token: t });
            AuthAction::PersistConfig
        },
        RefreshOutcome::RefreshFailed => {
            store.session = None;
            AuthAction::BeginAuthorization
        },
    }
}

/// A failure of the one-time bootstrap, fatal to the process.
#[derive(Clone, Copy, Debug, PartialEq, Eq, Structural)]
pub enum AuthError {
    MissingCallbackCode,
}

/// What the callback receiver extracted from the redirect. A missing
/// authorization code is the fatal error; a present one is handed on to be
/// exchanged.
pub fn handle_callback_code(code: Option<String>) -> (r: Result<String, AuthError>)
    ensures
        (code matches Some(c) ==> r == Ok::<String, AuthError>(c)),
        code is None ==> r == Err::<String, AuthError>(AuthError::MissingCallbackCode),
{
    match code {
        Some(c) => Ok(c),
        None => Err(AuthError::MissingCallbackCode),
    }
}

/// How the one-time authorization-code exchange ended.
pub enum ExchangeOutcome {
    Exchanged(Token),
    ExchangeFailed,
}

/// What the caller must do once an exchange outcome is applied: persist the
/// record and start working, or stop the whole process.
#[derive(Clone, Copy, Debug, PartialEq, Eq, Structural)]
pub enum ExchangeAction {
    PersistConfig,
    FatalStop,
}

/// Applies an exchange outcome to the store. Success installs the session
/// for the new token, saves it in the record and asks for a persist.
/// Failure leaves the store as it was and is fatal: the process must stop.
pub fn apply_exchange_outcome(store: &mut SessionStore, outcome: ExchangeOutcome) -> (act:
    ExchangeAction)
    ensures
        (outcome matches ExchangeOutcome::Exchanged(t) ==> *final(store) == token_installed_store(
            *old(store),
            t,
        ) && act == ExchangeAction::PersistConfig),
        outcome is ExchangeFailed ==> *final(store) == *old(store) && act
            == ExchangeAction::FatalStop,
{
    match outcome {
        ExchangeOutcome::Exchanged(t) => {
            store.config.spotify_token = Some(t.clone());
            store.session = Some(Session { token: t });
            ExchangeAction::PersistConfig
        },
        ExchangeOutcome::ExchangeFailed => ExchangeAction::FatalStop,
    }
}

/// A failed token refresh followed by a successful fresh authorization
/// leaves the store holding exactly the newly authorized session — no
/// residual stale session — with the new token saved in the record and the
/// client identifier untouched.
pub proof fn lemma_reauth_leaves_one_session(s: SessionStore, t: Token)
    ensures
        token_installed_store(refresh_failed_store(s), t).session == Option::Some(
            (Session { token: t }),
        ),
        token_installed_store(refresh_failed_store(s), t).config.spotify_token == Option::Some(t),
        token_installed_store(refresh_failed_store(s), t).config.spotify_client_id
            == s.config.spotify_client_id,
{
}

} // verus!
