//! Session state manager: a typed view of the per-session values (pending
//! CSRF token, pending PKCE verifier, resolved login identity) together with
//! the login-state extraction gate. The transport of the session (cookie
//! encryption, signing) is the surrounding application's concern.

use vstd::prelude::*;

use crate::HttpReply;

verus! {

/// Transient pending authorization, created at `login` and consumed and
/// deleted at `callback` (success or failure).
pub struct PendingAuthorization {
    pub csrf_token: String,
    pub pkce_verifier: String,
}

/// Abstract value of a pending authorization.
pub ghost struct PendingView {
    pub csrf_token: Seq<char>,
    pub pkce_verifier: Seq<char>,
}

impl View for PendingAuthorization {
    type V = PendingView;

    open spec fn view(&self) -> PendingView {
        PendingView { csrf_token: self.csrf_token@, pkce_verifier: self.pkce_verifier@ }
    }
}

/// The verified, session-durable record of which end user is authenticated.
/// Its presence in the session is the sole authorization gate for container
/// provisioning.
pub struct LoginState {
    pub user_name: String,
}

/// Authorization failure of the login-state extraction gate.
#[derive(Debug)]
pub enum LoginError {
    NotLoggedIn,
}

impl LoginError {
    /// The HTTP status an authorization failure surfaces as: forbidden.
    pub fn status_code(&self) -> (r: u16)
        ensures
            r == 403,
    {
        403
    }
}

/// Abstract session contents.
pub ghost struct SessionView {
    pub pending: Option<PendingView>,
    pub identity: Option<Seq<char>>,
}

/// Typed per-session state. Exactly one pending authorization may exist at a
/// time; a new login overwrites it wholesale.
pub struct SessionState {
    pub pending: Option<PendingAuthorization>,
    pub identity: Option<LoginState>,
}

impl View for SessionState {
    type V = SessionView;

    open spec fn view(&self) -> SessionView {
        SessionView {
            pending: match self.pending {
                Option::Some(p) => Option::Some(p@),
                Option::None => Option::None,
            },
            identity: match self.identity {
                Option::Some(l) => Option::Some(l.user_name@),
                Option::None => Option::None,
            },
        }
    }
}

/// The session after the callback's unconditional cleanup: the pending
/// authorization is gone, the identity untouched.
pub open spec fn spec_clear_pending(s: SessionView) -> SessionView {
    SessionView { pending: Option::None, identity: s.identity }
}

/// The session after `login` stashed fresh anti-forgery material: the pending
/// slot is overwritten wholesale, the identity untouched.
pub open spec fn spec_after_login(s: SessionView, csrf: Seq<char>, pkce: Seq<char>) -> SessionView {
    SessionView {
        pending: Option::Some(PendingView { csrf_token: csrf, pkce_verifier: pkce }),
        identity: s.identity,
    }
}

/// Decision of the login-state extraction gate: the identity if the session
/// carries one, an authorization error otherwise.
pub open spec fn spec_gate(s: SessionView) -> Result<Seq<char>, LoginError> {
    match s.identity {
        Option::Some(u) => Result::Ok(u),
        Option::None => Result::Err(LoginError::NotLoggedIn),
    }
}

impl SessionState {
    /// A fresh, empty session.
    pub fn new() -> (r: SessionState)
        ensures
            r@.pending is None,
            r@.identity is None,
    {
        SessionState { pending: Option::None, identity: Option::None }
    }

    /// Overwrites the pending authorization slot.
    pub fn set_pending(&mut self, p: PendingAuthorization)
        ensures
            final(self)@ == spec_after_login(old(self)@, p@.csrf_token, p@.pkce_verifier),
    {
        self.pending = Option::Some(p);
    }

    /// Removes and returns the pending authorization, leaving the identity
    /// untouched.
    pub fn take_pending(&mut self) -> (r: Option<PendingAuthorization>)
        ensures
            final(self)@ == spec_clear_pending(old(self)@),
            match r {
                Option::Some(p) => old(self)@.pending == Option::Some(p@),
                Option::None => old(self)@.pending is None,
            },
    {
        let mut taken: Option<PendingAuthorization> = Option::None;
        core::mem::swap(&mut taken, &mut self.pending);
        taken
    }

    /// Removes the pending authorization, leaving the identity untouched.
    pub fn clear_pending(&mut self)
        ensures
            final(self)@ == spec_clear_pending(old(self)@),
    {
        self.pending = Option::None;
    }

    /// Replaces the login identity wholesale.
    pub fn set_identity(&mut self, id: LoginState)
        ensures
            final(self)@.identity == Option::Some(id.user_name@),
            final(self)@.pending == old(self)@.pending,
    {
        self.identity = Option::Some(id);
    }
}

impl LoginState {
    /// Login-state extraction gate: returns the identity the session carries,
    /// and fails with `NotLoggedIn` when there is none — never defaulting to
    /// an anonymous identity.
    pub fn from_session(session: &SessionState) -> (r: Result<LoginState, LoginError>)
        ensures
            r is Ok <==> session@.identity is Some,
            r matches Ok(l) ==> session@.identity == Option::Some(l.user_name@),
            r is Err ==> r == Result::<LoginState, LoginError>::Err(LoginError::NotLoggedIn),
    {
        match &session.identity {
            Option::Some(l) => Result::Ok(LoginState { user_name: l.user_name.clone() }),
            Option::None => Result::Err(LoginError::NotLoggedIn),
        }
    }
}

/// Maps a gate failure to the user-visible reply: an explicit forbidden
/// response, so the caller can re-initiate login.
pub fn reply_for_login_error(e: &LoginError) -> (r: HttpReply)
    ensures
        r is Forbidden,
{
    match e {
        LoginError::NotLoggedIn => HttpReply::Forbidden,
    }
}

/// Gate law: extraction fails, with `NotLoggedIn`, exactly when the session
/// carries no login identity; otherwise it yields that identity.
pub proof fn lemma_authorization_gate(s: SessionView)
    ensures
        s.identity is None <==> spec_gate(s) == Result::<Seq<char>, LoginError>::Err(
            LoginError::NotLoggedIn,
        ),
        s.identity matches Some(u) ==> spec_gate(s) == Result::<Seq<char>, LoginError>::Ok(u),
{
}

} // verus!
