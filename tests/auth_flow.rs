use shadow_auth::{
    AuthState, AuthorizeStep, Credentials, CredsData, DeviceInfo, Route, ShadowClient,
};

fn device() -> DeviceInfo {
    DeviceInfo::new("host1".to_string(), 8, 3600, "Linux".to_string(), "5.4.0".to_string())
}

fn stored(device_id: &str) -> Credentials {
    Credentials::from_data(Some(CredsData {
        device_id: device_id.to_string(),
        email: "a@b.com".to_string(),
        refresh: "R".to_string(),
        token: "T".to_string(),
    }))
}

fn ready_client() -> ShadowClient {
    let mut client = ShadowClient::new(stored("D"));
    client.authorize();
    client.open_gap_session("https://gap.example/".to_string(), "G".to_string());
    client.uuid_checked(200);
    client
}

#[test]
fn empty_store_waits_for_email_and_password() {
    let mut client = ShadowClient::new(Credentials::empty());
    assert_eq!(client.authorization_state(), AuthState::Unknown);
    assert!(matches!(client.authorize(), AuthorizeStep::Done));
    assert_eq!(client.authorization_state(), AuthState::WaitEmailAndPassword);
    assert!(matches!(client.authorize(), AuthorizeStep::Done));
    assert_eq!(client.authorization_state(), AuthState::WaitEmailAndPassword);
}

#[test]
fn login_then_discovery_for_the_email() {
    let mut client = ShadowClient::new(Credentials::empty());
    client.authorize();
    let login = client.send_email_password("a@b.com".to_string(), "pw".to_string(), &device(), 1600000000);
    assert_eq!(login.device_id, "A015233C46009328A34003E810C2650F2616DBFB1BDFB7122C7A4D832F082B94");
    assert_eq!(login.email, "a@b.com");
    assert_eq!(login.password, "pw");
    let derived = login.device_id.clone();
    client.logged_in(login, "T".to_string(), "R".to_string());

    let creds = client.credentials();
    assert_eq!(creds.device_id(), Some(derived.clone()));
    assert_eq!(creds.email(), Some("a@b.com".to_string()));
    assert_eq!(creds.token(), Some("T".to_string()));
    assert_eq!(creds.refresh(), Some("R".to_string()));
    assert_eq!(client.authorization_state(), AuthState::WaitEmailAndPassword);

    match client.authorize() {
        AuthorizeStep::Discover { email } => assert_eq!(email, "a@b.com"),
        _ => panic!("expected discovery"),
    }
    let exchange = client.exchange_request("https://gap.example/".to_string()).unwrap();
    assert_eq!(exchange.gap_url, "https://gap.example/");
    assert_eq!(exchange.device_id, derived);
    assert_eq!(exchange.token, "T");
}

#[test]
fn session_is_resolved_at_most_once() {
    let mut client = ShadowClient::new(stored("D"));
    assert!(matches!(client.authorize(), AuthorizeStep::Discover { .. }));
    match client.open_gap_session("https://first.example/".to_string(), "G1".to_string()) {
        AuthorizeStep::CheckUuid(call) => {
            assert_eq!(call.route, Route::AuthUuid);
            assert_eq!(call.gap_url, "https://first.example/");
            assert_eq!(call.authorization, "Token G1");
            assert_eq!(call.device_id, "D");
            assert!(call.code.is_none());
        }
        _ => panic!("expected the device check"),
    }
    // a status outside the known ones leaves the phase alone
    client.uuid_checked(500);
    assert_eq!(client.authorization_state(), AuthState::Unknown);
    for _ in 0..3 {
        match client.authorize() {
            AuthorizeStep::CheckUuid(call) => assert_eq!(call.gap_url, "https://first.example/"),
            _ => panic!("expected the device check, not discovery"),
        }
    }
    match client.open_gap_session("https://second.example/".to_string(), "G2".to_string()) {
        AuthorizeStep::CheckUuid(call) => {
            assert_eq!(call.gap_url, "https://first.example/");
            assert_eq!(call.authorization, "Token G1");
        }
        _ => panic!("expected the device check"),
    }
}

#[test]
fn stored_device_id_is_kept() {
    let mut client = ShadowClient::new(stored("D"));
    let login = client.send_email_password("x@y.z".to_string(), "pw".to_string(), &device(), 1);
    assert_eq!(login.device_id, "D");
    client.logged_in(login, "T2".to_string(), "R2".to_string());
    client.authorize();
    client.open_gap_session("https://gap.example/".to_string(), "G".to_string());
    client.authorize();
    assert_eq!(client.credentials().device_id(), Some("D".to_string()));
    assert_eq!(client.credentials().email(), Some("x@y.z".to_string()));
}

#[test]
fn device_check_200_is_ready() {
    let client = ready_client();
    assert_eq!(client.authorization_state(), AuthState::Ready);
}

#[test]
fn confirmation_code_flow() {
    let mut client = ShadowClient::new(stored("D"));
    client.authorize();
    client.open_gap_session("https://gap.example/".to_string(), "G".to_string());
    client.uuid_checked(412);
    assert_eq!(client.authorization_state(), AuthState::WaitEmailCode);
    // while a code is awaited, an advance sends nothing
    assert!(matches!(client.authorize(), AuthorizeStep::Done));

    let call = client.send_email_code("1234".to_string()).unwrap();
    assert_eq!(call.route, Route::Approval);
    assert_eq!(call.code, Some("1234".to_string()));
    assert_eq!(call.authorization, "Token G");
    client.email_code_checked(403);
    assert_eq!(client.authorization_state(), AuthState::WaitEmailCode);
    client.email_code_checked(500);
    assert_eq!(client.authorization_state(), AuthState::WaitEmailCode);
    client.email_code_checked(200);
    assert_eq!(client.authorization_state(), AuthState::Ready);
    assert!(client.send_email_code("1234".to_string()).is_none());
}

#[test]
fn machine_calls_need_ready() {
    let mut client = ShadowClient::new(Credentials::empty());
    assert!(client.fetch_vm_state().is_none());
    assert!(client.start_vm().is_none());
    client.authorize();
    assert!(client.fetch_vm_state().is_none());
    assert!(client.start_vm().is_none());

    let client = ready_client();
    let query = client.fetch_vm_state().unwrap();
    assert_eq!(query.route, Route::VmIp);
    assert_eq!(query.authorization, "Token G");
    assert_eq!(query.device_id, "D");
    let start = client.start_vm().unwrap();
    assert_eq!(start.route, Route::VmStart);
}

#[test]
fn route_paths() {
    assert_eq!(Route::AuthLogin.path(), "shadow/auth_login");
    assert_eq!(Route::AuthUuid.path(), "shadow/auth_uuid");
    assert_eq!(Route::Approval.path(), "shadow/client/approval");
    assert_eq!(Route::VmIp.path(), "shadow/vm/ip");
    assert_eq!(Route::VmStart.path(), "shadow/vm/start");
}

#[test]
fn credentials_store() {
    let mut creds = Credentials::empty();
    assert!(creds.device_id().is_none());
    assert!(creds.email().is_none());
    assert!(creds.token().is_none());
    assert!(creds.refresh().is_none());
    assert!(creds.data().is_none());
    creds.set_credentials("D".to_string(), "e".to_string(), "T".to_string(), "R".to_string());
    let data = creds.data().unwrap();
    assert_eq!(data.device_id, "D");
    assert_eq!(data.email, "e");
    assert_eq!(data.token, "T");
    assert_eq!(data.refresh, "R");
}
