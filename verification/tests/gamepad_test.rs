use webpad::gamepad::manager::{
    default_target_id, rumble_of, to_xgamepad, DriverOutcome, GamepadError, TargetId, XGamepad,
};
use webpad::gamepad::types::{GamepadState, RumbleEvent};
use webpad::gamepad::GamepadManager;
use webpad::protocol::ClientMessage;

#[test]
fn default_gamepad_state_is_all_zero() {
    let state = GamepadState::default();
    assert_eq!(state.buttons, 0);
    assert_eq!(state.left_trigger, 0);
    assert_eq!(state.right_trigger, 0);
    assert_eq!(state.thumb_lx, 0);
    assert_eq!(state.thumb_ly, 0);
    assert_eq!(state.thumb_rx, 0);
    assert_eq!(state.thumb_ry, 0);
}

#[test]
fn from_protocol_message_converts_fields_correctly() {
    let msg = webpad::protocol::ClientMessage::GamepadState {
        buttons: 0x1000,
        left_trigger: 128,
        right_trigger: 255,
        thumb_lx: -16000,
        thumb_ly: 16000,
        thumb_rx: 1000,
        thumb_ry: -2000,
    };
    let state = GamepadState::from_client_message(&msg).unwrap();
    assert_eq!(state.buttons, 0x1000);
    assert_eq!(state.left_trigger, 128);
    assert_eq!(state.right_trigger, 255);
    assert_eq!(state.thumb_lx, -16000);
    assert_eq!(state.thumb_ly, 16000);
    assert_eq!(state.thumb_rx, 1000);
    assert_eq!(state.thumb_ry, -2000);
}

#[test]
fn from_protocol_message_ignores_non_gamepad_messages() {
    let msg = webpad::protocol::ClientMessage::Heartbeat;
    let state = GamepadState::from_client_message(&msg);
    assert!(state.is_none());
}

#[test]
fn is_zero_detects_all_zeros() {
    let state = GamepadState::default();
    assert!(state.is_zero());
}

#[test]
fn is_zero_false_when_buttons_pressed() {
    let state = GamepadState { buttons: 0x1000, ..Default::default() };
    assert!(!state.is_zero());
}

#[test]
fn is_zero_false_when_trigger_pressed() {
    let state = GamepadState { left_trigger: 1, ..Default::default() };
    assert!(!state.is_zero());
}

#[test]
fn is_zero_false_when_thumbstick_moved() {
    let state = GamepadState { thumb_lx: 1, ..Default::default() };
    assert!(!state.is_zero());
}

#[test]
fn merge_overwrites_all_fields() {
    let base = GamepadState {
        buttons: 0x1000,
        left_trigger: 100,
        right_trigger: 200,
        thumb_lx: 1000,
        thumb_ly: -1000,
        thumb_rx: 500,
        thumb_ry: -500,
    };
    let update = GamepadState {
        buttons: 0x2000,
        left_trigger: 50,
        right_trigger: 150,
        thumb_lx: -500,
        thumb_ly: 500,
        thumb_rx: -1000,
        thumb_ry: 1000,
    };
    let merged = base.merge(&update);
    assert_eq!(merged.buttons, 0x2000);
    assert_eq!(merged.left_trigger, 50);
    assert_eq!(merged.right_trigger, 150);
    assert_eq!(merged.thumb_lx, -500);
    assert_eq!(merged.thumb_ly, 500);
}

fn connected() -> GamepadManager {
    match GamepadManager::new(&DriverOutcome::Done) {
        Ok(manager) => manager,
        Err(e) => panic!("no manager: {}", e.to_string()),
    }
}

fn message<T>(r: Result<T, GamepadError>) -> String {
    match r {
        Ok(_) => panic!("no error"),
        Err(e) => e.to_string(),
    }
}

#[test]
fn manager_reports_controller_count() {
    let mut manager = connected();
    assert_eq!(manager.controller_count(), 0);
    manager.shutdown();
}

#[test]
fn create_and_destroy_controller() {
    let mut manager = connected();
    let id = manager.create_controller().unwrap();
    assert!(manager.controller_ready(id, &DriverOutcome::Done).is_ok());
    assert_eq!(manager.controller_count(), 1);
    assert!(manager.destroy_controller(id));
    assert_eq!(manager.controller_count(), 0);
    manager.shutdown();
}

#[test]
fn update_controller_state() {
    let mut manager = connected();
    let id = manager.create_controller().unwrap();
    manager.controller_ready(id, &DriverOutcome::Done).unwrap();

    let state = GamepadState { buttons: 0x1000, left_trigger: 128, ..Default::default() };
    let report = manager.update_state(id, &state).unwrap();
    assert_eq!(report.buttons, 0x1000);
    assert_eq!(report.left_trigger, 128);

    manager.destroy_controller(id);
    manager.shutdown();
}

#[test]
fn update_nonexistent_controller_fails() {
    let mut manager = connected();
    let state = GamepadState::default();
    let result = manager.update_state(999, &state);
    assert!(result.is_err());
    assert_eq!(message(result), "Controller 999 not found");
    manager.shutdown();
}

#[test]
fn double_shutdown_is_safe() {
    let mut manager = connected();
    let id = manager.create_controller().unwrap();
    manager.controller_ready(id, &DriverOutcome::Done).unwrap();
    assert_eq!(manager.shutdown(), vec![id]);
    assert_eq!(manager.shutdown(), Vec::<u32>::new());
    assert_eq!(manager.controller_count(), 0);
}

#[test]
fn numbers_count_up_from_one() {
    let mut manager = connected();
    assert_eq!(manager.create_controller().unwrap(), 1);
    assert_eq!(manager.create_controller().unwrap(), 2);
    assert_eq!(manager.create_controller().unwrap(), 3);
    assert_eq!(manager.controller_count(), 0);
}

#[test]
fn shutdown_gives_up_every_controller() {
    let mut manager = connected();
    for _ in 0..5 {
        let id = manager.create_controller().unwrap();
        manager.controller_ready(id, &DriverOutcome::Done).unwrap();
    }
    let mut gone = manager.shutdown();
    gone.sort();
    assert_eq!(gone, vec![1, 2, 3, 4, 5]);
}

#[test]
fn nothing_works_after_shutdown() {
    let mut manager = connected();
    manager.shutdown();
    assert_eq!(message(manager.create_controller()), "Manager is shut down");
    assert_eq!(
        message(manager.update_state(1, &GamepadState::default())),
        "Manager is shut down"
    );
    assert!(!manager.destroy_controller(1));
}

#[test]
fn failed_controller_is_not_taken_up() {
    let mut manager = connected();
    let id = manager.create_controller().unwrap();
    let e = |s: &str| s.to_string();
    assert_eq!(
        message(manager.controller_ready(id, &DriverOutcome::PluginFailed(e("x")))),
        "Create failed: plugin: x"
    );
    assert_eq!(
        message(manager.controller_ready(id, &DriverOutcome::WaitReadyFailed(e("y")))),
        "Create failed: wait_ready: y"
    );
    assert_eq!(
        message(manager.controller_ready(id, &DriverOutcome::NotificationFailed(e("z")))),
        "Create failed: request_notification: z"
    );
    assert_eq!(
        message(manager.controller_ready(id, &DriverOutcome::TaskLost)),
        "Connection failed: spawn_blocking join failed"
    );
    assert_eq!(message(DriverOutcome::UpdateFailed(e("u")).result()), "Update failed: u");
    assert!(DriverOutcome::Done.result().is_ok());
    assert_eq!(manager.controller_count(), 0);
}

#[test]
fn unreachable_driver_gives_no_manager() {
    let r = GamepadManager::new(&DriverOutcome::ConnectFailed("no bus".to_string()));
    match r {
        Ok(_) => panic!("a manager without a driver"),
        Err(e) => assert_eq!(e.to_string(), "Connection failed: no bus"),
    }
}

#[test]
fn target_is_the_xbox_360_pad() {
    assert_eq!(default_target_id(), TargetId { vendor: 0x045E, product: 0x028E });
}

#[test]
fn report_keeps_every_field() {
    let state = GamepadState {
        buttons: 0xF3FF,
        left_trigger: 1,
        right_trigger: 2,
        thumb_lx: -32768,
        thumb_ly: 32767,
        thumb_rx: -3,
        thumb_ry: 4,
    };
    assert_eq!(
        to_xgamepad(&state),
        XGamepad {
            buttons: 0xF3FF,
            left_trigger: 1,
            right_trigger: 2,
            thumb_lx: -32768,
            thumb_ly: 32767,
            thumb_rx: -3,
            thumb_ry: 4,
        }
    );
}

#[test]
fn rumble_keeps_its_motors_apart() {
    assert_eq!(rumble_of(200, 7), RumbleEvent { large_motor: 200, small_motor: 7 });
    assert_eq!(RumbleEvent::default(), RumbleEvent { large_motor: 0, small_motor: 0 });
}

#[test]
fn only_pad_messages_carry_a_state() {
    let auth = ClientMessage::AuthRequest { password: "p".to_string() };
    let leave = ClientMessage::Disconnect { reason: "r".to_string() };
    assert!(GamepadState::from_client_message(&auth).is_none());
    assert!(GamepadState::from_client_message(&leave).is_none());
}

#[test]
fn is_zero_looks_at_every_field() {
    assert!(!GamepadState { right_trigger: 1, ..Default::default() }.is_zero());
    assert!(!GamepadState { thumb_ly: -1, ..Default::default() }.is_zero());
    assert!(!GamepadState { thumb_rx: 1, ..Default::default() }.is_zero());
    assert!(!GamepadState { thumb_ry: -1, ..Default::default() }.is_zero());
}
