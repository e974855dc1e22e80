use vstd::prelude::*;
use vstd::string::*;

use crate::credentials::{Credentials, CredsView};
use crate::device_info::{device_id_of, DeviceInfo};

verus! {

/// Where the account stands in its authentication journey.
#[derive(Debug, Clone, Copy, PartialEq, Eq, Structural)]
pub enum AuthState {
    Unknown,
    WaitEmailAndPassword,
    WaitEmailCode,
    Ready,
}

/// The per-account gateway and the token that it issued for this run.
pub struct GapSession {
    pub gap_url: String,
    pub gap_token: String,
}

pub ghost struct SessionView {
    pub gap_url: Seq<char>,
    pub gap_token: Seq<char>,
}

impl View for GapSession {
    type V = SessionView;

    open spec fn view(&self) -> SessionView {
        SessionView { gap_url: self.gap_url@, gap_token: self.gap_token@ }
    }
}

/// The gateway routes, each a path on the gateway's host.
#[derive(Debug, Clone, Copy, PartialEq, Eq, Structural)]
pub enum Route {
    AuthLogin,
    AuthUuid,
    Approval,
    VmIp,
    VmStart,
}

pub open spec fn route_path(r: Route) -> Seq<char> {
    match r {
        Route::AuthLogin => "shadow/auth_login"@,
        Route::AuthUuid => "shadow/auth_uuid"@,
        Route::Approval => "shadow/client/approval"@,
        Route::VmIp => "shadow/vm/ip"@,
        Route::VmStart => "shadow/vm/start"@,
    }
}

impl Route {
    /// The path that replaces the gateway URL's path for this route.
    pub fn path(&self) -> (r: &'static str)
        ensures
            r@ == route_path(*self),
    {
        match self {
            Route::AuthLogin => "shadow/auth_login",
            Route::AuthUuid => "shadow/auth_uuid",
            Route::Approval => "shadow/client/approval",
            Route::VmIp => "shadow/vm/ip",
            Route::VmStart => "shadow/vm/start",
        }
    }
}

/// An authenticated GET on a gateway route.
pub struct GatewayCall {
    pub route: Route,
    pub gap_url: String,
    /// The value of the `Authorization` header.
    pub authorization: String,
    /// The value of the device header.
    pub device_id: String,
    /// The confirmation code, sent as the `code` query parameter.
    pub code: Option<String>,
}

pub ghost struct CallView {
    pub route: Route,
    pub gap_url: Seq<char>,
    pub authorization: Seq<char>,
    pub device_id: Seq<char>,
    pub code: Option<Seq<char>>,
}

pub open spec fn opt_view(o: Option<String>) -> Option<Seq<char>> {
    match o {
        Some(s) => Some(s@),
        None => None,
    }
}

impl View for GatewayCall {
    type V = CallView;

    open spec fn view(&self) -> CallView {
        CallView {
            route: self.route,
            gap_url: self.gap_url@,
            authorization: self.authorization@,
            device_id: self.device_id@,
            code: opt_view(self.code),
        }
    }
}

/// The exchange of the account's access token for a gateway token: a POST on
/// the gateway's login route, tagged with the device identifier.
pub struct TokenExchange {
    pub gap_url: String,
    pub device_id: String,
    pub token: String,
}

pub ghost struct ExchangeView {
    pub gap_url: Seq<char>,
    pub device_id: Seq<char>,
    pub token: Seq<char>,
}

impl View for TokenExchange {
    type V = ExchangeView;

    open spec fn view(&self) -> ExchangeView {
        ExchangeView { gap_url: self.gap_url@, device_id: self.device_id@, token: self.token@ }
    }
}

/// The primary login request.
pub struct PrimaryLogin {
    pub device_id: String,
    pub email: String,
    pub password: String,
}

pub ghost struct LoginView {
    pub device_id: Seq<char>,
    pub email: Seq<char>,
    pub password: Seq<char>,
}

impl View for PrimaryLogin {
    type V = LoginView;

    open spec fn view(&self) -> LoginView {
        LoginView { device_id: self.device_id@, email: self.email@, password: self.password@ }
    }
}

/// What the caller is to do next on the way to authorization.
pub enum AuthorizeStep {
    /// Nothing to send now.
    Done,
    /// Look up the account's gateway for this email.
    Discover { email: String },
    /// Ask the gateway whether this device is approved.
    CheckUuid(GatewayCall),
}

pub ghost enum StepView {
    Done,
    Discover { email: Seq<char> },
    CheckUuid(CallView),
}

impl View for AuthorizeStep {
    type V = StepView;

    open spec fn view(&self) -> StepView {
        match self {
            AuthorizeStep::Done => StepView::Done,
            AuthorizeStep::Discover { email } => StepView::Discover { email: email@ },
            AuthorizeStep::CheckUuid(c) => StepView::CheckUuid(c@),
        }
    }
}

/// The mathematical state of a client.
pub ghost struct ClientView {
    pub creds: Option<CredsView>,
    pub auth: AuthState,
    pub session: Option<SessionView>,
}

/// Waiting for a code, or ready, only once credentials and a gateway session
/// exist; a gateway session only once credentials exist.
pub open spec fn client_wf(v: ClientView) -> bool {
    &&& (v.auth == AuthState::WaitEmailCode || v.auth == AuthState::Ready) ==> v.creds is Some
        && v.session is Some
    &&& v.session is Some ==> v.creds is Some
}

/// An authenticated call on a route of the session's gateway.
pub open spec fn call_spec(
    s: SessionView,
    device_id: Seq<char>,
    route: Route,
    code: Option<Seq<char>>,
) -> CallView {
    CallView {
        route,
        gap_url: s.gap_url,
        authorization: "Token "@ + s.gap_token,
        device_id,
        code,
    }
}

/// Once a session exists: check the device, unless a code is awaited.
pub open spec fn step_with_session(v: ClientView) -> StepView {
    if v.auth != AuthState::WaitEmailCode {
        StepView::CheckUuid(call_spec(v.session->0, v.creds->0.device_id, Route::AuthUuid, None))
    } else {
        StepView::Done
    }
}

/// The state after one advance, and what it asks the caller to do.
pub open spec fn authorize_spec(v: ClientView) -> (ClientView, StepView) {
    match v.creds {
        None => (ClientView { auth: AuthState::WaitEmailAndPassword, ..v }, StepView::Done),
        Some(c) => if v.session is None {
            (v, StepView::Discover { email: c.email })
        } else {
            (v, step_with_session(v))
        },
    }
}

/// The state once discovery and exchange gave a gateway and its token; a
/// session that exists already is kept.
pub open spec fn open_session_spec(v: ClientView, gap_url: Seq<char>, gap_token: Seq<char>) -> (
    ClientView,
    StepView,
) {
    let w = if v.session is None {
        ClientView { session: Some(SessionView { gap_url, gap_token }), ..v }
    } else {
        v
    };
    (w, step_with_session(w))
}

/// The state after the device check answered `status`.
pub open spec fn uuid_checked_spec(v: ClientView, status: u16) -> ClientView {
    if status == 200 {
        ClientView { auth: AuthState::Ready, ..v }
    } else if status == 412 {
        ClientView { auth: AuthState::WaitEmailCode, ..v }
    } else {
        v
    }
}

/// The state after the confirmation code was answered with `status`.
pub open spec fn code_checked_spec(v: ClientView, status: u16) -> ClientView {
    if status == 200 {
        ClientView { auth: AuthState::Ready, ..v }
    } else if status == 403 {
        ClientView { auth: AuthState::WaitEmailCode, ..v }
    } else {
        v
    }
}

/// The state after a primary login succeeded with these tokens.
pub open spec fn logged_in_spec(
    v: ClientView,
    login: LoginView,
    token: Seq<char>,
    refresh: Seq<char>,
) -> ClientView {
    ClientView {
        creds: Some(
            CredsView { device_id: login.device_id, email: login.email, refresh, token },
        ),
        ..v
    }
}

/// The device identifier of a primary login: the stored one, else the one
/// freshly derived.
pub open spec fn login_device_id(v: ClientView, derived: Seq<char>) -> Seq<char> {
    match v.creds {
        Some(c) => c.device_id,
        None => derived,
    }
}

/// The code submission: only while a code is awaited.
pub open spec fn send_code_spec(v: ClientView, code: Seq<char>) -> Option<CallView> {
    if v.auth == AuthState::WaitEmailCode {
        Some(call_spec(v.session->0, v.creds->0.device_id, Route::Approval, Some(code)))
    } else {
        None
    }
}

/// A call on a machine route: only once ready.
pub open spec fn vm_call_spec(v: ClientView, route: Route) -> Option<CallView> {
    if v.auth == AuthState::Ready {
        Some(call_spec(v.session->0, v.creds->0.device_id, route, None))
    } else {
        None
    }
}

/// The authentication state machine of one account.
pub struct ShadowClient {
    creds: Credentials,
    auth_state: AuthState,
    gap_session: Option<GapSession>,
}

impl View for ShadowClient {
    type V = ClientView;

    closed spec fn view(&self) -> ClientView {
        ClientView {
            creds: self.creds@,
            auth: self.auth_state,
            session: match self.gap_session {
                Some(s) => Some(s@),
                None => None,
            },
        }
    }
}

impl ShadowClient {
    /// A client in the initial state, over the credentials loaded at start.
    pub fn new(creds: Credentials) -> (r: ShadowClient)
        ensures
            r@ == (ClientView { creds: creds@, auth: AuthState::Unknown, session: None }),
            client_wf(r@),
    {
        ShadowClient { creds, auth_state: AuthState::Unknown, gap_session: None }
    }

    pub fn authorization_state(&self) -> (r: AuthState)
        ensures
            r == self@.auth,
    {
        self.auth_state
    }

    /// The credentials, to be persisted by the caller.
    pub fn credentials(&self) -> (r: &Credentials)
        ensures
            r@ == self@.creds,
    {
        &self.creds
    }

    fn gateway_call(&self, route: Route, code: Option<String>) -> (r: GatewayCall)
        requires
            self@.session is Some,
            self@.creds is Some,
        ensures
            r@ == call_spec(self@.session->0, self@.creds->0.device_id, route, opt_view(code)),
    {
        let session = self.gap_session.as_ref().unwrap();
        let device_id = self.creds.device_id().unwrap();
        let mut authorization = String::from_str("Token ");
        authorization.append(session.gap_token.as_str());
        GatewayCall {
            route,
            gap_url: session.gap_url.clone(),
            authorization,
            device_id,
            code,
        }
    }

    fn step_with_session(&self) -> (r: AuthorizeStep)
        requires
            self@.session is Some,
            self@.creds is Some,
        ensures
            r@ == step_with_session(self@),
    {
        if self.auth_state != AuthState::WaitEmailCode {
            AuthorizeStep::CheckUuid(self.gateway_call(Route::AuthUuid, None))
        } else {
            AuthorizeStep::Done
        }
    }

    /// One advance of the state machine: without credentials it waits for
    /// them; without a gateway session it asks for discovery; otherwise it asks
    /// for the device check, unless a confirmation code is awaited.
    pub fn authorize(&mut self) -> (r: AuthorizeStep)
        requires
            client_wf(old(self)@),
        ensures
            client_wf(final(self)@),
            (final(self)@, r@) == authorize_spec(old(self)@),
    {
        if self.creds.device_id().is_none() {
            self.auth_state = AuthState::WaitEmailAndPassword;
            return AuthorizeStep::Done;
        }
        if self.gap_session.is_none() {
            let email = self.creds.email().unwrap();
            return AuthorizeStep::Discover { email };
        }
        self.step_with_session()
    }

    /// The token exchange on the gateway found by discovery, when credentials
    /// exist.
    pub fn exchange_request(&self, gap_url: String) -> (r: Option<TokenExchange>)
        ensures
            r is Some <==> self@.creds is Some,
            r is Some ==> r->0@ == (ExchangeView {
                gap_url: gap_url@,
                device_id: self@.creds->0.device_id,
                token: self@.creds->0.token,
            }),
    {
        match (self.creds.device_id(), self.creds.token()) {
            (Some(device_id), Some(token)) => Some(TokenExchange { gap_url, device_id, token }),
            _ => None,
        }
    }

    /// Records the gateway session (unless one exists already) and asks for the
    /// device check, unless a confirmation code is awaited.
    pub fn open_gap_session(&mut self, gap_url: String, gap_token: String) -> (r: AuthorizeStep)
        requires
            client_wf(old(self)@),
            old(self)@.creds is Some,
        ensures
            client_wf(final(self)@),
            (final(self)@, r@) == open_session_spec(old(self)@, gap_url@, gap_token@),
    {
        if self.gap_session.is_none() {
            self.gap_session = Some(GapSession { gap_url, gap_token });
        }
        self.step_with_session()
    }

    /// Applies the status of the device check: 200 makes the client ready, 412
    /// means a confirmation code is needed, any other leaves the state as it is.
    pub fn uuid_checked(&mut self, status: u16)
        requires
            client_wf(old(self)@),
            old(self)@.session is Some,
        ensures
            client_wf(final(self)@),
            final(self)@ == uuid_checked_spec(old(self)@, status),
    {
        if status == 200 {
            self.auth_state = AuthState::Ready;
        } else if status == 412 {
            self.auth_state = AuthState::WaitEmailCode;
        }
    }

    /// The primary login for this email and password. Its device identifier is
    /// the stored one; only without one is it derived from `device` at
    /// `now_secs`.
    pub fn send_email_password(
        &self,
        email: String,
        password: String,
        device: &DeviceInfo,
        now_secs: u64,
    ) -> (r: PrimaryLogin)
        ensures
            r@ == (LoginView {
                device_id: login_device_id(self@, device_id_of(device@, now_secs)),
                email: email@,
                password: password@,
            }),
    {
        let device_id = match self.creds.device_id() {
            Some(d) => d,
            None => device.hash(now_secs),
        };
        PrimaryLogin { device_id, email, password }
    }

    /// Stores the credentials that a successful primary login gave. The phase
    /// is not advanced here.
    pub fn logged_in(&mut self, login: PrimaryLogin, token: String, refresh: String)
        requires
            client_wf(old(self)@),
        ensures
            client_wf(final(self)@),
            final(self)@ == logged_in_spec(old(self)@, login@, token@, refresh@),
    {
        self.creds.set_credentials(login.device_id, login.email, token, refresh);
    }

    /// The submission of a confirmation code; `None` unless a code is awaited.
    pub fn send_email_code(&self, code: String) -> (r: Option<GatewayCall>)
        requires
            client_wf(self@),
        ensures
            opt_call_view(r) == send_code_spec(self@, code@),
    {
        if self.auth_state != AuthState::WaitEmailCode {
            return None;
        }
        Some(self.gateway_call(Route::Approval, Some(code)))
    }

    /// Applies the answer to a confirmation code: 200 makes the client ready,
    /// 403 keeps it waiting for a code, any other leaves the state as it is.
    pub fn email_code_checked(&mut self, status: u16)
        requires
            client_wf(old(self)@),
            old(self)@.session is Some,
        ensures
            client_wf(final(self)@),
            final(self)@ == code_checked_spec(old(self)@, status),
    {
        if status == 200 {
            self.auth_state = AuthState::Ready;
        } else if status == 403 {
            self.auth_state = AuthState::WaitEmailCode;
        }
    }

    /// The machine-status query; `None` (the state is then unknown, and
    /// nothing is sent) unless the client is ready.
    pub fn fetch_vm_state(&self) -> (r: Option<GatewayCall>)
        requires
            client_wf(self@),
        ensures
            opt_call_view(r) == vm_call_spec(self@, Route::VmIp),
    {
        if self.auth_state != AuthState::Ready {
            return None;
        }
        Some(self.gateway_call(Route::VmIp, None))
    }

    /// The machine-start command; `None` (nothing is sent) unless the client
    /// is ready.
    pub fn start_vm(&self) -> (r: Option<GatewayCall>)
        requires
            client_wf(self@),
        ensures
            opt_call_view(r) == vm_call_spec(self@, Route::VmStart),
    {
        if self.auth_state != AuthState::Ready {
            return None;
        }
        Some(self.gateway_call(Route::VmStart, None))
    }
}

pub open spec fn opt_call_view(o: Option<GatewayCall>) -> Option<CallView> {
    match o {
        Some(c) => Some(c@),
        None => None,
    }
}

} // verus!
