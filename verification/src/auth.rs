//! The authentication flow controller.
//!
//! One login attempt drives a browser surface through an OAuth
//! authorization-code handshake: the surface is opened at the
//! provider's redirect target, its navigation state is polled on a
//! short interval, and each tick decides among exactly one of
//! waiting on, cancellation (the user closed the surface), expiry
//! (ten minutes passed), failure (reading the surface broke), and
//! exchanging a captured authorization code for credentials.
//!
//! The controller here is the decision core: the shell around the
//! crate opens, reads, and closes the real surface and performs the
//! network exchange, feeding each observation back in as a plain
//! value. Cancellation and expiry are non-error outcomes, reported as
//! an absent result and kept apart from failures.

use vstd::prelude::*;

use crate::creds::CredentialStore;
use crate::creds::MinecraftCredentials;
use crate::creds::contains_user;
use crate::errors::AuthError;
use crate::url_query::auth_code_of;
use crate::url_query::extract_auth_code;
use crate::url_query::starts_with;
use crate::url_query::str_starts_with;

verus! {

/// Maximum lifetime of one login attempt, in milliseconds: ten
/// minutes.
pub const AUTH_MAX_LIFETIME_MS: i64 = 600_000;

/// The provider's redirect-completion origin: a login attempt's
/// surface reaching a location with this prefix carries the outcome
/// of the handshake.
pub open spec fn redirect_origin() -> Seq<char> {
    "https://login.live.com/oauth20_desktop.srf"@
}

/// The redirect-completion origin as a string slice.
pub fn redirect_origin_str() -> (r: &'static str)
    ensures
        r@ == redirect_origin(),
{
    "https://login.live.com/oauth20_desktop.srf"
}

/// Whether an attempt begun at `started_at_ms` has exceeded its
/// maximum lifetime at `now_ms`.
pub open spec fn session_expired(started_at_ms: int, now_ms: int) -> bool {
    now_ms - started_at_ms >= AUTH_MAX_LIFETIME_MS as int
}

/// The mathematical image of one login attempt.
pub struct SessionView {
    pub redirect_uri: Seq<char>,
    pub exchange_token: Seq<char>,
    pub started_at_ms: int,
}

/// One in-progress login attempt: the redirect target the surface
/// must navigate to, the secret needed to complete the code exchange,
/// and when the attempt began. Never persisted; consumed exactly once.
pub struct AuthFlowSession {
    /// URI the browser surface is pointed at to initiate login.
    pub redirect_uri: String,
    /// Opaque secret generated at attempt start, required alongside
    /// the authorization code for the exchange.
    pub exchange_token: String,
    /// When the attempt began, milliseconds since the epoch.
    pub started_at_ms: i64,
}

impl View for AuthFlowSession {
    type V = SessionView;

    open spec fn view(&self) -> SessionView {
        SessionView {
            redirect_uri: self.redirect_uri@,
            exchange_token: self.exchange_token@,
            started_at_ms: self.started_at_ms as int,
        }
    }
}

impl AuthFlowSession {
    /// A session stamped with an explicit start time.
    pub fn begin_at(redirect_uri: String, exchange_token: String, now_ms: i64) -> (s: Self)
        ensures
            s.redirect_uri@ == redirect_uri@,
            s.exchange_token@ == exchange_token@,
            s.started_at_ms == now_ms,
    {
        AuthFlowSession { redirect_uri, exchange_token, started_at_ms: now_ms }
    }

    /// A session stamped with the current wall-clock time.
    pub fn begin(redirect_uri: String, exchange_token: String) -> (s: Self)
        ensures
            s.redirect_uri@ == redirect_uri@,
            s.exchange_token@ == exchange_token@,
            s.started_at_ms >= 0,
    {
        let now: i64 = now_millis();
        Self::begin_at(redirect_uri, exchange_token, now)
    }

    /// Whether this attempt's lifetime is exceeded at `now_ms`.
    pub fn expired_at(&self, now_ms: i64) -> (r: bool)
        ensures
            r == session_expired(self.started_at_ms as int, now_ms as int),
    {
        let elapsed: i128 = now_ms as i128 - self.started_at_ms as i128;
        elapsed >= AUTH_MAX_LIFETIME_MS as i128
    }
}

/// What one poll of the browser surface saw.
pub enum SurfaceObservation {
    /// The surface's identifying metadata is unreadable: the user
    /// closed it.
    Closed,
    /// The surface's current location.
    Navigated { url: String },
    /// Reading the surface's state broke unexpectedly.
    ReadFailed,
}

/// What one tick of the polling loop decides; exactly one holds.
pub enum TickDecision {
    /// Nothing decisive was observed: yield, poll again.
    KeepWaiting,
    /// The user closed the surface: no credentials, not an error.
    Cancelled,
    /// The attempt's lifetime is exceeded: close the surface; no
    /// credentials, not an error.
    Expired,
    /// The redirect carried an authorization code: close the surface
    /// and exchange the code.
    Exchange { code: String },
    /// Surface state could not be read: the attempt failed.
    Failed,
}

/// Decides one tick of the polling loop. Expiry is checked first, as
/// the loop's own bound; a closed surface means cancellation; a
/// location at the redirect-completion origin whose query carries a
/// `code` parameter yields that code for exchange; anything else
/// keeps the loop waiting.
pub fn poll_tick(session: &AuthFlowSession, obs: &SurfaceObservation, now_ms: i64) -> (d:
    TickDecision)
    ensures
        session_expired(session.started_at_ms as int, now_ms as int) ==> d
            == TickDecision::Expired,
        !session_expired(session.started_at_ms as int, now_ms as int) ==> match obs {
            SurfaceObservation::Closed => d == TickDecision::Cancelled,
            SurfaceObservation::ReadFailed => d == TickDecision::Failed,
            SurfaceObservation::Navigated { url } => {
                if starts_with(url@, redirect_origin()) {
                    match auth_code_of(url@) {
                        Some(c) => (d matches TickDecision::Exchange { code } && code@ == c),
                        None => d == TickDecision::KeepWaiting,
                    }
                } else {
                    d == TickDecision::KeepWaiting
                }
            },
        },
{
    if session.expired_at(now_ms) {
        return TickDecision::Expired;
    }
    match obs {
        SurfaceObservation::Closed => TickDecision::Cancelled,
        SurfaceObservation::ReadFailed => TickDecision::Failed,
        SurfaceObservation::Navigated { url } => {
            if str_starts_with(url.as_str(), redirect_origin_str()) {
                match extract_auth_code(url.as_str()) {
                    Some(code) => TickDecision::Exchange { code },
                    None => TickDecision::KeepWaiting,
                }
            } else {
                TickDecision::KeepWaiting
            }
        },
    }
}

/// What the shell must do to start an attempt, in order: first close
/// any surface left from a prior attempt, only afterwards open a new
/// surface at the attempt's redirect target.
pub struct BeginPlan {
    /// A prior attempt's surface is still up and must be closed
    /// before the new surface opens.
    pub close_existing: bool,
    /// Where the new surface must be pointed.
    pub open_uri: String,
}

/// One step of a driven login attempt, as the controller hands it to
/// the shell.
pub enum LoginStep {
    /// Yield, observe the surface again, tick again.
    Wait,
    /// Close the surface and perform this exchange; the controller
    /// hands out at most one exchange per attempt.
    Exchange(ExchangeRequest),
    /// Over, no credentials: the user closed the surface.
    Cancelled,
    /// Over, no credentials: the lifetime was exceeded; close the
    /// surface.
    Expired,
    /// Over: reading the surface broke; close the surface.
    Failed,
}

/// The one exchange call of a successful attempt: the captured
/// authorization code together with the attempt's own exchange token.
pub struct ExchangeRequest {
    pub code: String,
    pub exchange_token: String,
}

/// Drives login attempts, one at a time: the browser surface for
/// login is a singleton, so starting a new attempt first closes any
/// surface a prior attempt left open.
pub struct AuthController {
    /// Whether a login surface is currently up.
    pub surface_open: bool,
    /// The pending attempt, if one is underway.
    pub attempt: Option<AuthFlowSession>,
}

impl AuthController {
    /// A controller with no attempt underway.
    pub fn new() -> (r: Self)
        ensures
            !r.surface_open,
            r.attempt is None,
    {
        AuthController { surface_open: false, attempt: None }
    }

    /// Starts an attempt with an explicit start time. The returned
    /// plan closes a prior attempt's surface exactly when one is
    /// still up, before the new surface opens.
    pub fn begin_at(
        &mut self,
        redirect_uri: String,
        exchange_token: String,
        now_ms: i64,
    ) -> (plan: BeginPlan)
        ensures
            plan.close_existing == old(self).surface_open,
            plan.open_uri@ == redirect_uri@,
            final(self).surface_open,
            final(self).attempt matches Some(s) && s.redirect_uri@ == redirect_uri@
                && s.exchange_token@ == exchange_token@ && s.started_at_ms == now_ms,
    {
        let plan = BeginPlan {
            close_existing: self.surface_open,
            open_uri: redirect_uri.clone(),
        };
        let session = AuthFlowSession::begin_at(redirect_uri, exchange_token, now_ms);
        self.surface_open = true;
        self.attempt = Some(session);
        plan
    }

    /// Starts an attempt stamped with the current wall-clock time.
    pub fn begin(&mut self, redirect_uri: String, exchange_token: String) -> (plan: BeginPlan)
        ensures
            plan.close_existing == old(self).surface_open,
            plan.open_uri@ == redirect_uri@,
            final(self).surface_open,
            final(self).attempt matches Some(s) && s.redirect_uri@ == redirect_uri@
                && s.exchange_token@ == exchange_token@ && s.started_at_ms >= 0,
    {
        let now: i64 = now_millis();
        self.begin_at(redirect_uri, exchange_token, now)
    }

    /// Ticks the pending attempt. A `Wait` step leaves the attempt
    /// untouched; every other step consumes it — so in particular at
    /// most one `Exchange` is ever handed out per attempt, carrying
    /// the captured code and the attempt's own exchange token.
    pub fn tick(&mut self, obs: &SurfaceObservation, now_ms: i64) -> (step: LoginStep)
        requires
            old(self).attempt is Some,
            old(self).surface_open,
        ensures
            ({
                let s = old(self).attempt->0;
                &&& session_expired(s.started_at_ms as int, now_ms as int) ==> step
                    == LoginStep::Expired
                &&& !session_expired(s.started_at_ms as int, now_ms as int) ==> match obs {
                    SurfaceObservation::Closed => step == LoginStep::Cancelled,
                    SurfaceObservation::ReadFailed => step == LoginStep::Failed,
                    SurfaceObservation::Navigated { url } => {
                        if starts_with(url@, redirect_origin()) {
                            match auth_code_of(url@) {
                                Some(c) => (step matches LoginStep::Exchange(req) && req.code@
                                    == c && req.exchange_token@ == s.exchange_token@),
                                None => step == LoginStep::Wait,
                            }
                        } else {
                            step == LoginStep::Wait
                        }
                    },
                }
            }),
            step == LoginStep::Wait ==> *final(self) == *old(self),
            !(step == LoginStep::Wait) ==> final(self).attempt is None
                && !final(self).surface_open,
    {
        let d = match &self.attempt {
            Some(s) => poll_tick(s, obs, now_ms),
            None => {
                // Unreachable: a pending attempt is required.
                proof {
                    assert(false);
                }
                TickDecision::KeepWaiting
            },
        };
        match d {
            TickDecision::KeepWaiting => LoginStep::Wait,
            TickDecision::Cancelled => {
                self.surface_open = false;
                self.attempt = None;
                LoginStep::Cancelled
            },
            TickDecision::Expired => {
                self.surface_open = false;
                self.attempt = None;
                LoginStep::Expired
            },
            TickDecision::Failed => {
                self.surface_open = false;
                self.attempt = None;
                LoginStep::Failed
            },
            TickDecision::Exchange { code } => {
                let exchange_token = match &self.attempt {
                    Some(s) => s.exchange_token.clone(),
                    None => {
                        // Unreachable: the attempt is consumed only below.
                        proof {
                            assert(false);
                        }
                        String::new()
                    },
                };
                self.surface_open = false;
                self.attempt = None;
                LoginStep::Exchange(ExchangeRequest { code, exchange_token })
            },
        }
    }
}

/// The boundary outcome of a terminal step that performs no
/// exchange. Cancellation and expiry are successful calls with an
/// absent result — the user declined or time ran out — and are never
/// conflated with failure; a broken surface read is an error.
pub fn conclude_without_exchange(step: &LoginStep) -> (r: Result<
    Option<MinecraftCredentials>,
    AuthError,
>)
    requires
        !(step matches LoginStep::Wait),
        !(step matches LoginStep::Exchange(_)),
    ensures
        match step {
            LoginStep::Cancelled => (r matches Ok(o) && o is None),
            LoginStep::Expired => (r matches Ok(o) && o is None),
            LoginStep::Failed => r == Err::<Option<MinecraftCredentials>, AuthError>(
                AuthError::IOFailure,
            ),
            _ => false,
        },
{
    match step {
        LoginStep::Cancelled => Ok(None),
        LoginStep::Expired => Ok(None),
        LoginStep::Failed => Err(AuthError::IOFailure),
        _ => {
            // Unreachable: waiting and exchanging steps are excluded.
            proof {
                assert(false);
            }
            Err(AuthError::IOFailure)
        },
    }
}

/// Completes an attempt whose exchange call came back. A successful
/// exchange stores the credentials and returns them; a failed one
/// leaves the store untouched and surfaces the error.
pub fn finish_exchange(
    store: &mut CredentialStore,
    outcome: Result<MinecraftCredentials, AuthError>,
) -> (r: Result<Option<MinecraftCredentials>, AuthError>)
    requires
        old(store).wf(),
    ensures
        final(store).wf(),
        match outcome {
            Ok(c) => {
                &&& (r matches Ok(rr) && rr matches Some(rc) && rc@ == c@)
                &&& contains_user(final(store)@, c.uuid)
                &&& exists|i: int|
                    0 <= i < final(store)@.len() && final(store)@[i] == c@
                &&& forall|x: u128|
                    x != c.uuid ==> (contains_user(final(store)@, x) <==> contains_user(
                        old(store)@,
                        x,
                    ))
            },
            Err(e) => r == Err::<Option<MinecraftCredentials>, AuthError>(e) && final(store)@
                == old(store)@,
        },
{
    match outcome {
        Ok(c) => {
            let returned = c.clone();
            store.add_user(c);
            Ok(Some(returned))
        },
        Err(e) => Err(e),
    }
}

/// Reads the wall clock as milliseconds since the Unix epoch.
///
/// Relies on `chrono::Utc::now`, which returns only when the system
/// clock stands at or after the epoch, read out with
/// `DateTime::timestamp_millis`; the value is therefore nonnegative.
/// Beyond that nothing is promised of it: callers treat the clock as
/// arbitrary.
#[verifier::external_body]
fn now_millis() -> (r: i64)
    ensures
        r >= 0,
{
    chrono::Utc::now().timestamp_millis()
}

} // verus!
