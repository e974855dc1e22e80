use vstd::prelude::*;

use crate::client::{
    authorize_spec, client_wf, code_checked_spec, logged_in_spec, login_device_id, open_session_spec,
    send_code_spec, uuid_checked_spec, vm_call_spec, AuthState, ClientView, LoginView, Route,
    SessionView, StepView,
};
use crate::credentials::CredsView;

verus! {

/// With no stored credentials, an advance waits for email and password and
/// asks for no request.
pub proof fn advance_without_credentials(v: ClientView)
    requires
        v.creds is None,
    ensures
        authorize_spec(v).0.auth == AuthState::WaitEmailAndPassword,
        authorize_spec(v).1 == StepView::Done,
{
}

/// After a successful primary login the credentials exist, and while no
/// gateway session exists the next advance asks for discovery for the login's
/// email.
pub proof fn advance_after_login(v: ClientView, login: LoginView, token: Seq<char>, refresh: Seq<char>)
    requires
        client_wf(v),
        v.session is None,
    ensures
        logged_in_spec(v, login, token, refresh).creds == Some(
            CredsView { device_id: login.device_id, email: login.email, refresh, token },
        ),
        client_wf(logged_in_spec(v, login, token, refresh)),
        authorize_spec(logged_in_spec(v, login, token, refresh)).1 == (StepView::Discover {
            email: login.email,
        }),
{
}

/// Once a gateway session exists, no advance asks for discovery again, and no
/// transition replaces or drops the session.
pub proof fn session_at_most_once(
    v: ClientView,
    gap_url: Seq<char>,
    gap_token: Seq<char>,
    status: u16,
    login: LoginView,
    token: Seq<char>,
    refresh: Seq<char>,
)
    requires
        client_wf(v),
        v.session is Some,
    ensures
        !(authorize_spec(v).1 is Discover),
        authorize_spec(v).0.session == v.session,
        open_session_spec(v, gap_url, gap_token).0 == v,
        uuid_checked_spec(v, status).session == v.session,
        code_checked_spec(v, status).session == v.session,
        logged_in_spec(v, login, token, refresh).session == v.session,
{
}

/// Opening a session when none exists stores it, and an advance after that
/// does not ask for discovery.
pub proof fn session_opened(v: ClientView, gap_url: Seq<char>, gap_token: Seq<char>)
    requires
        client_wf(v),
        v.creds is Some,
        v.session is None,
    ensures
        open_session_spec(v, gap_url, gap_token).0.session == Some(
            SessionView { gap_url, gap_token },
        ),
        !(authorize_spec(open_session_spec(v, gap_url, gap_token).0).1 is Discover),
{
}

/// A stored device identifier stays as it is: advances, sessions and status
/// answers leave the credentials alone, and a new primary login reuses the
/// stored identifier instead of a derived one.
pub proof fn device_id_stable(
    v: ClientView,
    derived: Seq<char>,
    gap_url: Seq<char>,
    gap_token: Seq<char>,
    status: u16,
    email: Seq<char>,
    password: Seq<char>,
    token: Seq<char>,
    refresh: Seq<char>,
)
    requires
        v.creds is Some,
    ensures
        authorize_spec(v).0.creds == v.creds,
        open_session_spec(v, gap_url, gap_token).0.creds == v.creds,
        uuid_checked_spec(v, status).creds == v.creds,
        code_checked_spec(v, status).creds == v.creds,
        login_device_id(v, derived) == v.creds->0.device_id,
        logged_in_spec(
            v,
            LoginView { device_id: login_device_id(v, derived), email, password },
            token,
            refresh,
        ).creds->0.device_id == v.creds->0.device_id,
{
}

/// Unless the client is ready, machine queries and start commands send
/// nothing.
pub proof fn vm_calls_only_when_ready(v: ClientView, route: Route)
    requires
        v.auth != AuthState::Ready,
    ensures
        vm_call_spec(v, route) is None,
{
}

/// While a code is awaited it can be sent; an answer of 200 makes the client
/// ready, and one of 403 keeps it waiting for a code.
pub proof fn confirmation_flow(v: ClientView, code: Seq<char>)
    requires
        client_wf(v),
        v.auth == AuthState::WaitEmailCode,
    ensures
        send_code_spec(v, code) is Some,
        send_code_spec(v, code)->0.route == Route::Approval,
        send_code_spec(v, code)->0.code == Some(code),
        code_checked_spec(v, 200).auth == AuthState::Ready,
        code_checked_spec(v, 403).auth == AuthState::WaitEmailCode,
        client_wf(code_checked_spec(v, 200)),
{
}

} // verus!
