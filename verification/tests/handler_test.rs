use webpad::auth::{AuthManager, IpBackoffManager, PasswordCheck};
use webpad::config::Config;
use webpad::gamepad::manager::{DriverOutcome, XGamepad};
use webpad::gamepad::types::RumbleEvent;
use webpad::gamepad::GamepadManager;
use webpad::net::IpAddr;
use webpad::password::hash_sha256;
use webpad::protocol::{ClientMessage, ServerMessage};
use webpad::upnp::PortMapper;
use webpad::web::handler::{acquire_connection_permits, Reaction, SocketEvent, WsQuery};
use webpad::web::server::StatusCode;
use webpad::web::{AppState, ConnectionLimiter, GamepadHandle};

const MILLI: u128 = 1_000_000;
const IP: IpAddr = IpAddr::V4(0xC0A80105);
const OTHER: IpAddr = IpAddr::V4(0xC0A80106);

fn build_state(max_total: usize, max_unauth: usize) -> AppState {
    build(max_total, max_unauth, GamepadHandle::new(None))
}

fn build_with_pads() -> AppState {
    let manager = match GamepadManager::new(&DriverOutcome::Done) {
        Ok(manager) => manager,
        Err(_) => panic!("no manager"),
    };
    build(8, 3, GamepadHandle::new(Some(manager)))
}

fn build(max_total: usize, max_unauth: usize, gamepad: GamepadHandle) -> AppState {
    AppState::new(
        AuthManager::new(hash_sha256("pwd")),
        gamepad,
        PortMapper::new(0),
        Config::default(),
        ConnectionLimiter::new(max_total, max_unauth),
        IpBackoffManager::new(500, 10000, 5),
    )
}

fn open(state: &mut AppState, ip: IpAddr) -> u64 {
    state.ws_upgrade(ip, &WsQuery::default(), None, None).unwrap()
}

fn password(text: &str) -> SocketEvent {
    SocketEvent::Message(ClientMessage::AuthRequest { password: text.to_string() })
}

fn pad(buttons: u16) -> SocketEvent {
    SocketEvent::Message(ClientMessage::GamepadState {
        buttons,
        left_trigger: 1,
        right_trigger: 2,
        thumb_lx: 3,
        thumb_ly: -4,
        thumb_rx: 5,
        thumb_ry: -6,
    })
}

fn admitted(r: Reaction) -> (String, Option<u32>) {
    match r {
        Reaction::Admit { reply: ServerMessage::AuthSuccess { token }, create } => (token, create),
        other => panic!("unexpected reaction: {:?}", other),
    }
}

fn refused(r: Reaction) -> (String, u64) {
    match r {
        Reaction::Refuse { reply: ServerMessage::AuthFailure { reason }, wait_ms } => {
            (reason, wait_ms)
        }
        other => panic!("unexpected reaction: {:?}", other),
    }
}

fn expelled(r: Reaction) -> String {
    match r {
        Reaction::Expel { reply: ServerMessage::AuthFailure { reason } } => reason,
        other => panic!("unexpected reaction: {:?}", other),
    }
}

#[test]
fn permits_granted_when_under_limits() {
    let mut state = build_state(2, 2);
    let query = WsQuery::default();
    let result = acquire_connection_permits(&mut state.connection_limiter, &query, None);
    assert!(result.is_ok());
    let (total, unauth, token) = result.unwrap();
    assert!(token.is_none());
    assert!(unauth.is_some());
    assert_eq!(state.connection_limiter.total_used(), 1);
    assert_eq!(state.connection_limiter.unauth_used(), 1);
    state.connection_limiter.release_total(total);
    state.connection_limiter.release_unauth(unauth.unwrap());
    assert_eq!(state.connection_limiter.total_used(), 0);
    assert_eq!(state.connection_limiter.unauth_used(), 0);
}

#[test]
fn total_limit_reached_returns_503() {
    let mut state = build_state(1, 5);
    let occupied = state.connection_limiter.try_acquire_total().unwrap();
    let query = WsQuery::default();
    let result = acquire_connection_permits(&mut state.connection_limiter, &query, None);
    assert!(result.is_err());
    assert_eq!(result.unwrap_err(), StatusCode::ServiceUnavailable);
    state.connection_limiter.release_total(occupied);
}

#[test]
fn unauth_limit_reached_returns_503() {
    let mut state = build_state(5, 1);
    let occupied_unauth = state.connection_limiter.try_acquire_unauth().unwrap();
    let query = WsQuery::default();
    let result = acquire_connection_permits(&mut state.connection_limiter, &query, None);
    assert!(result.is_err());
    assert_eq!(result.unwrap_err(), StatusCode::ServiceUnavailable);
    assert_eq!(state.connection_limiter.total_used(), 0);
    state.connection_limiter.release_unauth(occupied_unauth);
}

#[test]
fn valid_token_bypasses_unauth_limit() {
    let mut state = build_state(5, 1);
    let token = state.auth.create_session();
    let _occupied_unauth = state.connection_limiter.try_acquire_unauth().unwrap();
    let query = WsQuery { token: Some(token.clone()) };
    let result = acquire_connection_permits(&mut state.connection_limiter, &query, Some(token));
    assert!(result.is_ok());
    let (_total, unauth, token) = result.unwrap();
    assert!(token.is_some());
    assert!(unauth.is_none());
    assert_eq!(state.connection_limiter.unauth_used(), 1);
}

#[test]
fn invalid_token_falls_back_to_unauth_path() {
    let mut state = build_state(5, 1);
    let _occupied_unauth = state.connection_limiter.try_acquire_unauth().unwrap();
    let query = WsQuery { token: Some("invalid".to_string()) };
    let result = acquire_connection_permits(&mut state.connection_limiter, &query, None);
    assert!(result.is_err());
    assert_eq!(result.unwrap_err(), StatusCode::ServiceUnavailable);
}

fn state_of(auth: AuthManager) -> AppState {
    let config = Config::default();
    let limiter = ConnectionLimiter::new(config.max_connections, config.max_unauth_connections);
    let ip_backoff = IpBackoffManager::new(
        config.auth_backoff_base_ms,
        config.auth_backoff_max_ms,
        config.max_auth_failures,
    );
    AppState::new(
        auth,
        GamepadHandle::new(None),
        PortMapper::new(0),
        config,
        limiter,
        ip_backoff,
    )
}

#[test]
fn ws_without_token_returns_101() {
    let mut state = state_of(AuthManager::new("test_password".to_string()));
    assert!(state.ws_upgrade(IP, &WsQuery { token: None }, None, None).is_ok());
}

#[test]
fn ws_with_valid_token_returns_101() {
    let mut auth = AuthManager::new("test_password".to_string());
    let token = auth.create_session();
    let mut state = state_of(auth);
    let id = state.ws_upgrade(IP, &WsQuery { token: Some(token) }, None, None).unwrap();
    assert!(state.is_authenticated(id));
}

#[test]
fn token_of_a_login_lets_in_again() {
    let mut state = build_state(8, 3);
    let id = open(&mut state, IP);
    let (token, _) = admitted(state.handle_event(id, &password("pwd"), 0));
    let again = state.ws_upgrade(IP, &WsQuery { token: Some(token) }, None, None).unwrap();
    assert!(state.is_authenticated(again));
}

#[test]
fn ws_with_wrong_token_returns_101() {
    let mut state = state_of(AuthManager::new("test_password".to_string()));
    let query = WsQuery { token: Some("invalid_token_123".to_string()) };
    let id = state.ws_upgrade(IP, &query, None, None).unwrap();
    assert!(!state.is_authenticated(id));
}

#[test]
fn page_of_another_host_is_refused() {
    let mut state = build_state(8, 3);
    let r = state.ws_upgrade(
        IP,
        &WsQuery::default(),
        Some(b"https://evil.example"),
        Some(b"192.168.1.2:8443"),
    );
    assert_eq!(r, Err(StatusCode::Forbidden));
    assert_eq!(state.connection_limiter.total_used(), 0);
    let r = state.ws_upgrade(
        IP,
        &WsQuery::default(),
        Some(b"https://192.168.1.2:8443"),
        Some(b"192.168.1.2:8443"),
    );
    assert!(r.is_ok());
}

#[test]
fn limits_are_kept_and_freed() {
    let mut state = build_state(3, 2);
    let a = open(&mut state, IP);
    let b = open(&mut state, IP);
    assert_eq!(
        state.ws_upgrade(IP, &WsQuery::default(), None, None),
        Err(StatusCode::ServiceUnavailable)
    );
    admitted(state.handle_event(a, &password("pwd"), 0));
    assert_eq!(state.connection_limiter.unauth_used(), 1);
    let c = open(&mut state, IP);
    admitted(state.handle_event(b, &password("pwd"), 0));
    assert_eq!(
        state.ws_upgrade(IP, &WsQuery::default(), None, None),
        Err(StatusCode::ServiceUnavailable)
    );
    assert_eq!(state.connection_limiter.total_used(), 3);
    assert_eq!(state.connection_limiter.unauth_used(), 1);
    for id in [a, b, c] {
        assert_eq!(state.close_connection(id), None);
    }
    assert_eq!(state.connection_limiter.total_used(), 0);
    assert_eq!(state.connection_limiter.unauth_used(), 0);
    assert_eq!(state.auth.session_count(), 0);
}

#[test]
fn connection_numbers_are_free_ones() {
    let mut state = build_state(8, 8);
    assert_eq!(open(&mut state, IP), 0);
    assert_eq!(open(&mut state, IP), 1);
    assert_eq!(open(&mut state, IP), 2);
    state.close_connection(1);
    assert_eq!(open(&mut state, IP), 1);
    assert_eq!(open(&mut state, IP), 3);
}

#[test]
fn right_password_opens_a_session() {
    let mut state = build_state(8, 3);
    let id = open(&mut state, IP);
    let (token, create) = admitted(state.handle_event(id, &password("pwd"), 0));
    assert_eq!(token.len(), 64);
    assert_eq!(create, None);
    assert!(state.auth.validate_token(&token));
    assert!(state.is_authenticated(id));
    assert_eq!(state.connection_limiter.unauth_used(), 0);
    assert_eq!(state.connection_limiter.total_used(), 1);
}

#[test]
fn second_login_renews_the_session() {
    let mut state = build_with_pads();
    let id = open(&mut state, IP);
    let (first, create) = admitted(state.handle_event(id, &password("pwd"), 0));
    assert_eq!(create, Some(1));
    let (second, create) = admitted(state.handle_event(id, &password("pwd"), 0));
    assert_eq!(create, None);
    assert_ne!(first, second);
    assert!(!state.auth.validate_token(&first));
    assert!(state.auth.validate_token(&second));
    assert_eq!(state.auth.session_count(), 1);
    assert_eq!(state.connection_limiter.unauth_used(), 0);
}

#[test]
fn wrong_password_has_to_wait() {
    let mut state = build_state(8, 3);
    let id = open(&mut state, IP);
    let (reason, wait_ms) = refused(state.handle_event(id, &password("no"), 0));
    assert_eq!(reason, "Wrong password. Wait 500ms before retry. Attempts left: 4.");
    assert_eq!(wait_ms, 500);
    let (reason, wait_ms) = refused(state.handle_event(id, &password("no"), 500 * MILLI));
    assert_eq!(reason, "Wrong password. Wait 1000ms before retry. Attempts left: 3.");
    assert_eq!(wait_ms, 1000);
    assert!(!state.is_authenticated(id));
    assert_eq!(state.connection_limiter.unauth_used(), 1);
}

#[test]
fn no_password_is_looked_at_while_the_address_waits() {
    let mut state = build_state(8, 3);
    let id = open(&mut state, IP);
    let second = open(&mut state, IP);
    let stranger = open(&mut state, OTHER);
    refused(state.handle_event(id, &password("no"), 0));
    for text in ["pwd", "no"] {
        match state.handle_event(second, &password(text), 100 * MILLI) {
            Reaction::PutOff { nanos } => assert_eq!(nanos, 400 * MILLI),
            other => panic!("unexpected reaction: {:?}", other),
        }
    }
    admitted(state.handle_event(stranger, &password("pwd"), 100 * MILLI));
    admitted(state.handle_event(second, &password("pwd"), 500 * MILLI));
}

#[test]
fn fifth_failure_ends_the_connection() {
    let mut state = build_state(8, 3);
    let id = open(&mut state, IP);
    let mut now = 0;
    for _ in 0..4 {
        let (_, wait_ms) = refused(state.handle_event(id, &password("no"), now));
        now += wait_ms as u128 * MILLI;
    }
    let r = state.handle_event(id, &password("no"), now);
    assert!(r.is_end());
    assert_eq!(expelled(r), "Too many failed attempts. Connection closed.");
    state.close_connection(id);
    assert_eq!(
        state.ws_upgrade(IP, &WsQuery::default(), None, None),
        Err(StatusCode::Forbidden)
    );
    assert!(state.ws_upgrade(OTHER, &WsQuery::default(), None, None).is_ok());
}

#[test]
fn failures_of_a_connection_count_past_a_login() {
    let mut state = build_state(8, 3);
    let id = open(&mut state, IP);
    let mut now = 0;
    for _ in 0..4 {
        let (_, wait_ms) = refused(state.handle_event(id, &password("no"), now));
        now += wait_ms as u128 * MILLI;
    }
    admitted(state.handle_event(id, &password("pwd"), now));
    expelled(state.handle_event(id, &password("no"), now));
    assert!(!state.ip_backoff.should_disconnect(IP));
}

#[test]
fn valid_token_passes_a_cut_off_address() {
    let mut state = build_state(8, 1);
    let home = open(&mut state, OTHER);
    let (token, _) = admitted(state.handle_event(home, &password("pwd"), 0));
    for _ in 0..5 {
        state.ip_backoff.record_failure_at(IP, 0);
    }
    assert_eq!(
        state.ws_upgrade(IP, &WsQuery::default(), None, None),
        Err(StatusCode::Forbidden)
    );
    let _taken = open(&mut state, OTHER);
    let id = state.ws_upgrade(IP, &WsQuery { token: Some(token.clone()) }, None, None).unwrap();
    assert!(state.is_authenticated(id));
    state.close_connection(id);
    assert!(!state.auth.validate_token(&token));
}

#[test]
fn login_forgets_the_failures_of_the_address() {
    let mut state = build_state(8, 3);
    let id = open(&mut state, IP);
    refused(state.handle_event(id, &password("no"), 0));
    admitted(state.handle_event(id, &password("pwd"), 500 * MILLI));
    assert_eq!(state.ip_backoff.check_backoff_at(IP, 0), None);
    let (_, wait_ms) = refused(state.handle_event(id, &password("no"), 600 * MILLI));
    assert_eq!(wait_ms, 500);
}

#[test]
fn greeting_names_the_pad() {
    let mut state = build_state(8, 3);
    let id = open(&mut state, IP);
    let connected = ServerMessage::Connected {
        controller_name: "WebPad Virtual Controller".to_string(),
    };
    assert_eq!(state.greeting(id, 0), vec![connected.clone()]);
    let (token, _) = admitted(state.handle_event(id, &password("pwd"), 0));
    let again = state.ws_upgrade(IP, &WsQuery { token: Some(token) }, None, None).unwrap();
    assert_eq!(
        state.greeting(again, 0),
        vec![connected, ServerMessage::AuthSuccess { token: String::new() }]
    );
}

#[test]
fn pad_is_moved_through_its_controller() {
    let mut state = build_with_pads();
    let id = open(&mut state, IP);
    assert_eq!(state.socket_opened(id), None);
    state.greeting(id, 0);
    let (_, create) = admitted(state.handle_event(id, &password("pwd"), 0));
    let controller = create.unwrap();
    assert!(matches!(state.handle_event(id, &pad(7), 8 * MILLI), Reaction::Nothing));
    state.controller_ready(id, &DriverOutcome::Done).unwrap();
    match state.handle_event(id, &pad(7), 16 * MILLI) {
        Reaction::Update { controller: c, report } => {
            assert_eq!(c, controller);
            assert_eq!(
                report,
                XGamepad {
                    buttons: 7,
                    left_trigger: 1,
                    right_trigger: 2,
                    thumb_lx: 3,
                    thumb_ly: -4,
                    thumb_rx: 5,
                    thumb_ry: -6,
                }
            );
        }
        other => panic!("unexpected reaction: {:?}", other),
    }
    assert_eq!(state.close_connection(id), Some(controller));
}

#[test]
fn pad_is_not_moved_too_often() {
    let mut state = build_with_pads();
    let id = open(&mut state, IP);
    state.greeting(id, 1000 * MILLI);
    let (_, create) = admitted(state.handle_event(id, &password("pwd"), 1000 * MILLI));
    assert_eq!(create, Some(1));
    state.controller_ready(id, &DriverOutcome::Done).unwrap();
    let mut at = |nanos: u128| {
        matches!(state.handle_event(id, &pad(1), nanos), Reaction::Update { .. })
    };
    assert!(!at(0));
    assert!(!at(1008 * MILLI - 1));
    assert!(at(1008 * MILLI));
    assert!(!at(1015 * MILLI));
    assert!(at(1016 * MILLI));
}

#[test]
fn outsider_moves_nothing() {
    let mut state = build_with_pads();
    let id = open(&mut state, IP);
    assert!(matches!(state.handle_event(id, &pad(1), 9000 * MILLI), Reaction::Nothing));
    let beat = SocketEvent::Message(ClientMessage::Heartbeat);
    assert!(matches!(state.handle_event(id, &beat, 0), Reaction::Nothing));
    admitted(state.handle_event(id, &password("pwd"), 0));
    assert!(matches!(state.handle_event(id, &beat, 0), Reaction::Send(ServerMessage::Pong)));
}

#[test]
fn failed_controller_leaves_the_client_in() {
    let mut state = build_with_pads();
    let id = open(&mut state, IP);
    let (_, create) = admitted(state.handle_event(id, &password("pwd"), 0));
    assert_eq!(create, Some(1));
    let outcome = DriverOutcome::PluginFailed("full".to_string());
    match state.controller_ready(id, &outcome) {
        Ok(()) => panic!("no error"),
        Err(e) => assert_eq!(e.to_string(), "Create failed: plugin: full"),
    }
    assert!(state.is_authenticated(id));
    assert!(matches!(state.handle_event(id, &pad(1), 8 * MILLI), Reaction::Nothing));
    assert_eq!(state.close_connection(id), None);
}

#[test]
fn client_with_a_token_gets_a_controller_at_once() {
    let mut state = build_with_pads();
    let id = open(&mut state, IP);
    let (token, _) = admitted(state.handle_event(id, &password("pwd"), 0));
    let again = state.ws_upgrade(IP, &WsQuery { token: Some(token) }, None, None).unwrap();
    assert_eq!(state.socket_opened(again), Some(2));
}

#[test]
fn motors_keep_their_sides() {
    let mut state = build_state(8, 3);
    let id = open(&mut state, IP);
    let event = SocketEvent::Rumble(RumbleEvent { large_motor: 128, small_motor: 64 });
    match state.handle_event(id, &event, 0) {
        Reaction::Send(message) => {
            assert_eq!(message, ServerMessage::Rumble { left_motor: 128, right_motor: 64 })
        }
        other => panic!("unexpected reaction: {:?}", other),
    }
    assert!(matches!(
        state.handle_event(id, &SocketEvent::RumbleEnded, 0),
        Reaction::StopRumble
    ));
}

#[test]
fn ends_of_a_connection() {
    let mut state = build_state(8, 3);
    let id = open(&mut state, IP);
    let leave = SocketEvent::Message(ClientMessage::Disconnect { reason: "bye".to_string() });
    for event in [leave, SocketEvent::Closed, SocketEvent::Failed, SocketEvent::Ended] {
        let r = state.handle_event(id, &event, 0);
        assert!(matches!(r, Reaction::End));
        assert!(r.is_end());
    }
    let r = state.handle_event(id, &SocketEvent::HeartbeatTimeout, 30_000 * MILLI);
    assert!(matches!(r, Reaction::Close));
    assert!(r.is_end());
    for event in [SocketEvent::Malformed, SocketEvent::OtherFrame] {
        let r = state.handle_event(id, &event, 0);
        assert!(matches!(r, Reaction::Nothing));
        assert!(!r.is_end());
    }
}

#[test]
fn server_without_hash_lets_nobody_in() {
    let mut state = AppState::new(
        AuthManager::new(String::new()),
        GamepadHandle::new(None),
        PortMapper::new(0),
        Config::default(),
        ConnectionLimiter::new(8, 3),
        IpBackoffManager::new(0, 0, 5),
    );
    let id = open(&mut state, IP);
    refused(state.handle_event(id, &password(""), 0));
    let (reason, wait_ms) = refused(state.handle_event(id, &password("anything"), 0));
    assert_eq!(reason, "Wrong password. Wait 0ms before retry. Attempts left: 3.");
    assert_eq!(wait_ms, 0);
}

#[test]
fn state_reads_its_clock() {
    let state = build_state(1, 1);
    let a = state.now();
    assert!(a <= state.now());
}

#[test]
fn attempts_left_are_those_of_the_address_where_fewer() {
    let mut state = build_state(8, 3);
    for _ in 0..3 {
        state.ip_backoff.record_failure_at(IP, 0);
    }
    let id = open(&mut state, IP);
    let (reason, wait_ms) = refused(state.handle_event(id, &password("no"), 2000 * MILLI));
    assert_eq!(reason, "Wrong password. Wait 4000ms before retry. Attempts left: 1.");
    assert_eq!(wait_ms, 4000);
    expelled(state.handle_event(id, &password("no"), 6000 * MILLI));
}

#[test]
fn connection_without_a_heartbeat_is_closed() {
    let mut state = build_with_pads();
    let id = open(&mut state, IP);
    state.greeting(id, 1000 * MILLI);
    admitted(state.handle_event(id, &password("pwd"), 1000 * MILLI));
    for second in 2..31 {
        state.handle_event(id, &pad(1), second * 1000 * MILLI);
    }
    assert_eq!(state.heartbeat_left(id, 0), Some(30_000 * MILLI));
    assert_eq!(state.heartbeat_left(id, 1000 * MILLI), Some(30_000 * MILLI));
    assert_eq!(state.heartbeat_left(id, 31_000 * MILLI - 1), Some(1));
    assert_eq!(state.heartbeat_left(id, 31_000 * MILLI), None);
    let timeout = SocketEvent::HeartbeatTimeout;
    assert!(matches!(state.handle_event(id, &timeout, 30_000 * MILLI), Reaction::Nothing));
    assert!(matches!(state.handle_event(id, &timeout, 31_000 * MILLI), Reaction::Close));
}

#[test]
fn heartbeat_gives_the_whole_time_again() {
    let mut state = build_state(8, 3);
    let id = open(&mut state, IP);
    let other = open(&mut state, IP);
    state.greeting(id, 0);
    state.greeting(other, 0);
    let beat = SocketEvent::Message(ClientMessage::Heartbeat);
    state.handle_event(id, &beat, 20_000 * MILLI);
    assert_eq!(state.heartbeat_left(id, 20_000 * MILLI), Some(30_000 * MILLI));
    assert_eq!(state.heartbeat_left(id, 50_000 * MILLI), None);
    assert_eq!(state.heartbeat_left(other, 30_000 * MILLI), None);
}

#[test]
fn checked_password_counts_like_a_plain_one() {
    let mut state = build_state(8, 3);
    let id = open(&mut state, IP);
    let run = |state: &AppState, text: &str| {
        PasswordCheck::run(state.auth.stored_hash(), text.to_string())
    };
    let wrong = run(&state, "no");
    let right = run(&state, "pwd");
    assert_eq!(state.wait_left(id, 0), None);
    let (reason, _) = refused(state.handle_checked_request(id, &wrong, 0));
    assert_eq!(reason, "Wrong password. Wait 500ms before retry. Attempts left: 4.");
    assert_eq!(state.wait_left(id, 0), Some(500 * MILLI));
    match state.handle_checked_request(id, &right, 100 * MILLI) {
        Reaction::PutOff { nanos } => assert_eq!(nanos, 400 * MILLI),
        other => panic!("unexpected reaction: {:?}", other),
    }
    admitted(state.handle_checked_request(id, &right, 500 * MILLI));
}

#[test]
fn check_against_another_hash_is_made_anew() {
    let mut state = build_state(8, 3);
    let id = open(&mut state, IP);
    let foreign = PasswordCheck::run(hash_sha256("no"), "no".to_string());
    refused(state.handle_checked_request(id, &foreign, 0));
    let foreign = PasswordCheck::run(hash_sha256("no"), "pwd".to_string());
    admitted(state.handle_checked_request(id, &foreign, 500 * MILLI));
}

#[test]
fn connections_have_controllers_of_their_own() {
    let mut state = build_with_pads();
    let a = open(&mut state, IP);
    let b = open(&mut state, OTHER);
    let (_, first) = admitted(state.handle_event(a, &password("pwd"), 0));
    let (_, second) = admitted(state.handle_event(b, &password("pwd"), 0));
    assert_eq!((first, second), (Some(1), Some(2)));
    state.controller_ready(b, &DriverOutcome::Done).unwrap();
    state.controller_ready(a, &DriverOutcome::Done).unwrap();
    assert_eq!(state.close_connection(a), Some(1));
    assert_eq!(state.close_connection(b), Some(2));
}
