use serial_ctrl::manager::{sManager, CtrlAction};
use serial_ctrl::types::{frameType, serialCtrl, serialSettings, serialState};

fn settings(port: &str) -> serialSettings {
    serialSettings {
        parity: 0,
        stop_bits: 1,
        port_name: port.to_string(),
        baud_rate: 115200,
        decoder: frameType::ASCII,
    }
}

/// A manager that runs a session on `port` with stop channel 7 and thread 9.
fn running(port: &str) -> sManager<u32, u64> {
    let mut m: sManager<u32, u64> = sManager::new();
    match m.handle_cmd_with_id(serialCtrl::NEW(settings(port)), 12) {
        CtrlAction::Start { settings, id } => {
            assert_eq!(settings.port_name, port);
            assert_eq!(id, 12);
        }
        other => panic!("unexpected action {:?}", other),
    }
    assert!(m.attach_serial(7, 9).is_none());
    m
}

#[test]
fn new_manager_is_idle_without_settings() {
    let m: sManager<u32, u64> = sManager::new();
    assert_eq!(m.sState, serialState::IDLE);
    assert!(m.send_target.is_none());
    assert!(m.thread_handle.is_none());
    assert!(!m.get_current_settings());
}

#[test]
fn validate_settings_accepts_everything() {
    let m: sManager<u32, u64> = sManager::new();
    assert!(m.validate_settings(&settings("")));
    assert!(m.validate_settings(&settings("/dev/ttyUSB0")));
}

#[test]
fn new_then_attach_runs_with_the_settings() {
    let m = running("COM3");
    assert_eq!(m.sState, serialState::RUNNING);
    assert_eq!(m.send_target, Some(7));
    assert_eq!(m.thread_handle, Some(9));
    assert_eq!(m.serial_settings.as_ref().unwrap().port_name, "COM3");
    assert!(m.get_current_settings());
}

#[test]
fn new_stores_settings_before_attach() {
    let mut m: sManager<u32, u64> = sManager::new();
    let a = m.handle_cmd_with_id(serialCtrl::NEW(settings("COM1")), 0);
    assert!(matches!(a, CtrlAction::Start { id: 0, .. }));
    assert_eq!(m.sState, serialState::IDLE);
    assert_eq!(m.serial_settings.as_ref().unwrap().port_name, "COM1");
}

#[test]
fn new_is_ignored_while_running() {
    let mut m = running("COM3");
    let a = m.handle_cmd_with_id(serialCtrl::NEW(settings("COM9")), 3);
    assert!(matches!(a, CtrlAction::Ignored));
    assert_eq!(m.sState, serialState::RUNNING);
    assert_eq!(m.serial_settings.as_ref().unwrap().port_name, "COM3");
}

#[test]
fn play_while_running_is_ignored() {
    let mut m = running("COM3");
    assert!(matches!(m.handle_cmd_with_id(serialCtrl::PLAY, 0), CtrlAction::Ignored));
    assert_eq!(m.sState, serialState::RUNNING);
}

#[test]
fn play_without_settings_reports_them_missing() {
    let mut m: sManager<u32, u64> = sManager::new();
    assert!(matches!(m.handle_cmd_with_id(serialCtrl::PLAY, 0), CtrlAction::MissingSettings));
    assert_eq!(m.sState, serialState::IDLE);
}

#[test]
fn pause_then_play_resubmits_the_same_settings() {
    let mut m = running("COM5");
    match m.handle_cmd_with_id(serialCtrl::PAUSE, 0) {
        CtrlAction::Pause(t) => assert_eq!(t, 7),
        other => panic!("unexpected action {:?}", other),
    }
    assert_eq!(m.sState, serialState::IDLE);
    assert!(m.send_target.is_none());
    assert!(m.thread_handle.is_none());
    match m.handle_cmd_with_id(serialCtrl::PLAY, 0) {
        CtrlAction::Resubmit(cfg) => assert_eq!(cfg.port_name, "COM5"),
        other => panic!("unexpected action {:?}", other),
    }
}

#[test]
fn pause_while_idle_is_ignored() {
    let mut m: sManager<u32, u64> = sManager::new();
    assert!(matches!(m.handle_cmd_with_id(serialCtrl::PAUSE, 0), CtrlAction::Ignored));
    assert!(matches!(m.handle_cmd_with_id(serialCtrl::EXIT, 0), CtrlAction::Ignored));
}

#[test]
fn exit_forgets_the_settings() {
    let mut m = running("COM5");
    match m.handle_cmd_with_id(serialCtrl::EXIT, 0) {
        CtrlAction::Exit(t) => assert_eq!(t, 7),
        other => panic!("unexpected action {:?}", other),
    }
    assert_eq!(m.sState, serialState::IDLE);
    assert!(m.serial_settings.is_none());
    assert!(matches!(m.handle_cmd_with_id(serialCtrl::PLAY, 0), CtrlAction::MissingSettings));
}

#[test]
fn serial_exit_releases_the_reader_and_keeps_settings() {
    let mut m = running("COM2");
    assert!(matches!(m.handle_cmd_with_id(serialCtrl::SERIAL_EXIT, 0), CtrlAction::Released));
    assert_eq!(m.sState, serialState::IDLE);
    assert!(m.send_target.is_none());
    assert!(m.thread_handle.is_none());
    assert_eq!(m.serial_settings.as_ref().unwrap().port_name, "COM2");
}

#[test]
fn exit_thread_shuts_down_without_change() {
    let mut m = running("COM2");
    assert!(matches!(m.handle_cmd_with_id(serialCtrl::EXIT_THREAD, 0), CtrlAction::Shutdown));
    assert_eq!(m.sState, serialState::RUNNING);
    assert_eq!(m.send_target, Some(7));
}

#[test]
fn attach_is_refused_while_running_or_without_settings() {
    let mut m = running("COM2");
    assert_eq!(m.attach_serial(1, 2), Some((1, 2)));
    assert_eq!(m.send_target, Some(7));
    let mut idle: sManager<u32, u64> = sManager::new();
    assert_eq!(idle.attach_serial(1, 2), Some((1, 2)));
    assert_eq!(idle.sState, serialState::IDLE);
}

#[test]
fn handle_cmd_draws_an_id_below_255() {
    for _ in 0..200 {
        let mut m: sManager<u32, u64> = sManager::new();
        match m.handle_cmd(serialCtrl::NEW(settings("COM1"))) {
            CtrlAction::Start { id, .. } => assert!(id < 255),
            other => panic!("unexpected action {:?}", other),
        }
    }
}

#[test]
fn a_reader_that_ends_makes_a_running_manager_idle() {
    let mut m = running("COM4");
    let notice = serial_ctrl::serial::exit_notice();
    assert!(matches!(m.handle_cmd(notice), CtrlAction::Exit(7)));
    assert_eq!(m.sState, serialState::IDLE);
}
