//! OAuth client adapter: builds the identity provider's authorization URL
//! with fresh anti-forgery and proof-of-possession material, and decides both
//! halves of the callback leg. The token exchange and profile fetch
//! themselves are back-channel network calls performed by the surrounding
//! application, which hands their outcome back in as a plain value.

use vstd::prelude::*;

use crate::env::Env;
use crate::secret::{generate_secret, is_alphanumeric_seq};
use crate::session::{
    spec_after_login, spec_clear_pending, LoginState, PendingAuthorization, PendingView,
    SessionState, SessionView,
};
use crate::strutil::str_eq;
use crate::HttpReply;

verus! {

/// Length of the CSRF token round-tripped as the `state` parameter.
pub const CSRF_TOKEN_LEN: usize = 32;

/// Length of the PKCE code verifier; the proof-key standard requires 43 to
/// 128 characters.
pub const PKCE_VERIFIER_LEN: usize = 43;

/// The query parameters the identity provider hands back to the callback.
pub struct AuthRequest {
    pub code: String,
    pub state: String,
}

/// The authenticated user's profile as the identity provider reports it.
pub struct UserInfo {
    pub user_name: String,
    pub real_name: String,
    pub student_id: String,
}

/// Failures of the callback leg.
#[derive(Debug)]
pub enum AuthFailure {
    MissingPendingState,
    CsrfMismatch,
    TokenExchangeFailed,
    ProfileFetchFailed,
}

/// Abstract result of the PKCE S256 transform: the challenge derived from a
/// code verifier. The transform depends on the verifier alone.
pub uninterp spec fn pkce_challenge_of(verifier: Seq<char>) -> Seq<char>;

/// Relies on oauth2's `PkceCodeChallenge::from_code_verifier_sha256`: the
/// S256 challenge (base64url of the SHA-256 digest of the verifier), a
/// function of the verifier alone. The call panics unless the verifier is 43
/// to 128 bytes long, so the alphanumeric requirement pins bytes to
/// characters and the length bound excludes the panic.
#[verifier::external_body]
fn derive_pkce_challenge(verifier: &str) -> (r: String)
    requires
        43 <= verifier@.len() <= 128,
        is_alphanumeric_seq(verifier@),
    ensures
        r@ == pkce_challenge_of(verifier@),
{
    let v = oauth2::PkceCodeVerifier::new(verifier.to_string());
    let c = oauth2::PkceCodeChallenge::from_code_verifier_sha256(&v);
    c.as_str().to_string()
}

/// The identity provider's authorization endpoint URL: the provider base, the
/// fixed authorize path, and the query carrying client id, CSRF state, PKCE
/// challenge and method, the pre-registered callback location derived from
/// the gateway's public base URL, and the requested scope.
pub open spec fn spec_authorization_url(
    oauth_server: Seq<char>,
    client_id: Seq<char>,
    public_url: Seq<char>,
    challenge: Seq<char>,
    state: Seq<char>,
) -> Seq<char> {
    oauth_server + "/api/authorize?response_type=code&client_id="@ + client_id + "&state="@
        + state + "&code_challenge="@ + challenge + "&code_challenge_method=S256&redirect_uri="@
        + public_url + "/callback&scope=api"@
}

/// Renders the authorization endpoint URL for one fresh challenge and state.
pub fn build_authorization_url(env: &Env, challenge: &str, state: &str) -> (r: String)
    ensures
        r@ == spec_authorization_url(
            env.oauth_server@,
            env.oauth_app_id@,
            env.public_url@,
            challenge@,
            state@,
        ),
{
    let mut r = String::from_str(env.oauth_server.as_str());
    r.append("/api/authorize?response_type=code&client_id=");
    r.append(env.oauth_app_id.as_str());
    r.append("&state=");
    r.append(state);
    r.append("&code_challenge=");
    r.append(challenge);
    r.append("&code_challenge_method=S256&redirect_uri=");
    r.append(env.public_url.as_str());
    r.append("/callback&scope=api");
    r
}

/// One authorization request leg: the URL to redirect to and the material the
/// caller must persist into the session before redirecting.
pub struct AuthorizationRequest {
    pub authorization_url: String,
    pub csrf_token: String,
    pub pkce_verifier: String,
}

/// Generates a fresh CSRF token and PKCE challenge/verifier pair and renders
/// the authorization URL carrying them. No side effect: the caller persists
/// the material.
pub fn build_authorization_request(env: &Env) -> (r: AuthorizationRequest)
    ensures
        r.csrf_token@.len() == CSRF_TOKEN_LEN,
        is_alphanumeric_seq(r.csrf_token@),
        r.pkce_verifier@.len() == PKCE_VERIFIER_LEN,
        is_alphanumeric_seq(r.pkce_verifier@),
        r.authorization_url@ == spec_authorization_url(
            env.oauth_server@,
            env.oauth_app_id@,
            env.public_url@,
            pkce_challenge_of(r.pkce_verifier@),
            r.csrf_token@,
        ),
{
    let csrf = generate_secret(CSRF_TOKEN_LEN);
    let verifier = generate_secret(PKCE_VERIFIER_LEN);
    let challenge = derive_pkce_challenge(verifier.as_str());
    let url = build_authorization_url(env, challenge.as_str(), csrf.as_str());
    AuthorizationRequest { authorization_url: url, csrf_token: csrf, pkce_verifier: verifier }
}

/// The `login` leg: generates fresh material, stashes it in the session —
/// overwriting any pending authorization wholesale — and returns the request
/// whose URL the caller redirects the user-agent to.
pub fn login(session: &mut SessionState, env: &Env) -> (r: AuthorizationRequest)
    ensures
        final(session)@ == spec_after_login(old(session)@, r.csrf_token@, r.pkce_verifier@),
        r.csrf_token@.len() == CSRF_TOKEN_LEN,
        is_alphanumeric_seq(r.csrf_token@),
        r.pkce_verifier@.len() == PKCE_VERIFIER_LEN,
        is_alphanumeric_seq(r.pkce_verifier@),
        r.authorization_url@ == spec_authorization_url(
            env.oauth_server@,
            env.oauth_app_id@,
            env.public_url@,
            pkce_challenge_of(r.pkce_verifier@),
            r.csrf_token@,
        ),
{
    let r = build_authorization_request(env);
    session.set_pending(
        PendingAuthorization {
            csrf_token: r.csrf_token.clone(),
            pkce_verifier: r.pkce_verifier.clone(),
        },
    );
    r
}

/// Decision of the callback's anti-forgery check: with no pending
/// authorization the callback fails as `MissingPendingState`; a returned
/// `state` differing from the stored CSRF token fails as `CsrfMismatch`;
/// otherwise the stored material is released for the token exchange.
pub open spec fn spec_callback_decision(s: SessionView, returned_state: Seq<char>) -> Result<
    PendingView,
    AuthFailure,
> {
    match s.pending {
        Option::None => Result::Err(AuthFailure::MissingPendingState),
        Option::Some(p) => if returned_state != p.csrf_token {
            Result::Err(AuthFailure::CsrfMismatch)
        } else {
            Result::Ok(p)
        },
    }
}

/// First half of the callback leg: consumes the pending authorization exactly
/// once — before the CSRF comparison, so a replayed callback can never reuse
/// stale state — and checks the returned `state` against the stored token. On
/// success the caller exchanges `params.code` with the released verifier.
pub fn callback_prepare(session: &mut SessionState, params: &AuthRequest) -> (r: Result<
    PendingAuthorization,
    AuthFailure,
>)
    ensures
        final(session)@ == spec_clear_pending(old(session)@),
        match spec_callback_decision(old(session)@, params.state@) {
            Result::Ok(p) => r matches Ok(pa) && pa@ == p,
            Result::Err(f) => r == Result::<PendingAuthorization, AuthFailure>::Err(f),
        },
{
    let taken = session.take_pending();
    match taken {
        Option::None => Result::Err(AuthFailure::MissingPendingState),
        Option::Some(p) => {
            if str_eq(params.state.as_str(), p.csrf_token.as_str()) {
                Result::Ok(p)
            } else {
                Result::Err(AuthFailure::CsrfMismatch)
            }
        },
    }
}

/// Second half of the callback leg: a fetched profile is promoted wholesale
/// into the durable login identity and the user-agent is sent into the
/// protected area; a failed exchange or profile fetch changes nothing and
/// redirects to the safe default, surfacing no provider detail.
pub fn callback_complete(session: &mut SessionState, env: &Env, outcome: Option<UserInfo>) -> (r:
    HttpReply)
    ensures
        final(session)@.pending == old(session)@.pending,
        match outcome {
            Option::Some(u) => final(session)@.identity == Option::Some(u.user_name@) && (
            r matches HttpReply::Redirect(location) && location@ == env.public_url@ + "/start"@),
            Option::None => final(session)@ == old(session)@ && (r matches HttpReply::Redirect(
                location,
            ) && location@ == "/"@),
        },
{
    match outcome {
        Option::Some(u) => {
            session.set_identity(LoginState { user_name: u.user_name });
            let mut location = String::from_str(env.public_url.as_str());
            location.append("/start");
            HttpReply::Redirect(location)
        },
        Option::None => HttpReply::Redirect(String::from_str("/")),
    }
}

/// Maps a callback failure to the user-visible reply: a missing pending
/// authorization is a plain client error, while the security-relevant
/// failures redirect to the safe default location and never surface detail.
pub fn reply_for_auth_failure(f: &AuthFailure) -> (r: HttpReply)
    ensures
        f is MissingPendingState ==> r is BadRequest,
        !(f is MissingPendingState) ==> (r matches HttpReply::Redirect(location) && location@
            == "/"@),
{
    match f {
        AuthFailure::MissingPendingState => HttpReply::BadRequest,
        _ => HttpReply::Redirect(String::from_str("/")),
    }
}

/// The provider's profile endpoint, derived from the configured base URL.
pub fn profile_url(env: &Env) -> (r: String)
    ensures
        r@ == env.oauth_server@ + "/api/self"@,
{
    let mut r = String::from_str(env.oauth_server.as_str());
    r.append("/api/self");
    r
}

/// The bearer authorization header value carrying an access token.
pub fn bearer_header(access_token: &str) -> (r: String)
    ensures
        r@ == "Bearer "@ + access_token@,
{
    let mut r = String::from_str("Bearer ");
    r.append(access_token);
    r
}

/// CSRF round-trip law: after `login` stored fresh material, a callback whose
/// returned state matches the stored CSRF token passes the check and releases
/// exactly the stored material; a mismatched state is rejected as
/// `CsrfMismatch`; and the callback's cleanup never touches the identity, so
/// a rejected callback leaves no login identity behind.
pub proof fn lemma_csrf_round_trip(
    s: SessionView,
    csrf: Seq<char>,
    pkce: Seq<char>,
    returned: Seq<char>,
)
    ensures
        returned == csrf ==> spec_callback_decision(spec_after_login(s, csrf, pkce), returned)
            == Result::<PendingView, AuthFailure>::Ok(
            PendingView { csrf_token: csrf, pkce_verifier: pkce },
        ),
        returned != csrf ==> spec_callback_decision(spec_after_login(s, csrf, pkce), returned)
            == Result::<PendingView, AuthFailure>::Err(AuthFailure::CsrfMismatch),
        spec_clear_pending(spec_after_login(s, csrf, pkce)).identity == s.identity,
{
}

/// Replay law: once the pending authorization has been consumed — whatever
/// the first callback's outcome was — any further callback on the cleaned
/// session fails with `MissingPendingState`.
pub proof fn lemma_callback_replay(s: SessionView, returned: Seq<char>)
    ensures
        spec_callback_decision(spec_clear_pending(s), returned) == Result::<
            PendingView,
            AuthFailure,
        >::Err(AuthFailure::MissingPendingState),
{
}

} // verus!

