use serial_ctrl::engine::{decimal_text, engine_tick};
use serial_ctrl::ffi::{ffiDataType, msgType, opCode, voidData};
use serial_ctrl::front::{
    ctrl_pause_reply, ctrl_play_reply, gState, missing_context_error, resultJson, send_cfg_reply,
    send_cmd_reply, tauriState, testFile, welcome_message,
};
use serial_ctrl::types::serialState;

#[test]
fn front_state_starts_unconfigured_on_com4() {
    let mut g: gState<u8> = gState::new();
    assert!(!g.running && !g.configured);
    assert_eq!(g.addr, "COM4");
    g.set_handle(3);
    assert_eq!(g.appHandle, Some(3));
    g.set_status();
    assert!(g.configured);
    assert!(!g.running);
}

#[test]
fn tauri_state_starts_empty() {
    let t: tauriState<u8> = tauriState::new();
    assert!(t.tauriEngine.is_none());
}

#[test]
fn fixed_replies() {
    assert_eq!(resultJson(), "{\"name\": \"Markus\", \"value\": 5}");
    assert_eq!(testFile(), "fdgsdfgasdfgfdg");
    assert_eq!(missing_context_error(), "FAILED TO GET SERIAL CONTEXT CONTROL");
    assert_eq!(send_cfg_reply(), "Just a message");
}

#[test]
fn control_replies() {
    assert_eq!(ctrl_play_reply(None), Ok("PLAY COMMAND sent successfully!".to_string()));
    assert_eq!(
        ctrl_play_reply(Some("closed".to_string())),
        Err("PLAY COMMAND FAILED TO SEND closed".to_string())
    );
    assert_eq!(ctrl_pause_reply(None), Ok("PAUSE COMMAND sent successfully!".to_string()));
    assert_eq!(
        ctrl_pause_reply(Some("gone".to_string())),
        Err("PAUSE COMMAND FAILED TO SEND gone".to_string())
    );
    assert_eq!(send_cmd_reply(None), Ok(()));
    assert_eq!(
        send_cmd_reply(Some("EOF".to_string())),
        Err("Failed to parse JSON EOF".to_string())
    );
}

#[test]
fn engine_sends_four_events() {
    let mut counter = 0u32;
    let mut sent = Vec::new();
    loop {
        let (text, next, done) = engine_tick(counter);
        sent.push(text);
        counter = next;
        if done {
            break;
        }
    }
    assert_eq!(
        sent,
        vec![
            "{\"name\": \"EVENT_NAME\", \"value\": 0}",
            "{\"name\": \"EVENT_NAME\", \"value\": 1}",
            "{\"name\": \"EVENT_NAME\", \"value\": 2}",
            "{\"name\": \"EVENT_NAME\", \"value\": 3}",
        ]
    );
}

#[test]
fn decimal_text_matches_std() {
    for n in [0u32, 7, 10, 99, 100, 1234567, u32::MAX] {
        assert_eq!(decimal_text(n), n.to_string());
    }
}

#[test]
fn serial_state_text_and_default() {
    assert_eq!(serialState::IDLE.to_string(), "IDLE STATE");
    assert_eq!(serialState::RUNNING.to_string(), "RUNNING STATE");
    assert_eq!(serialState::default(), serialState::IDLE);
}

#[test]
fn ffi_defaults() {
    assert!(matches!(ffiDataType::default(), ffiDataType::UTF8_STRING));
    assert_eq!(opCode::default(), opCode::DEINIT);
    assert_eq!(msgType::default(), msgType::EVENT);
    let v = voidData { data: [1; 10], number: 10 };
    assert_eq!(v.data[9], 1);
}

#[test]
fn welcome_message_names_input_and_debug_setting() {
    assert_eq!(
        welcome_message("output.json", true),
        "Hello!\nUsing \"output.json\" as input. DBG setting is \"true\"\n"
    );
    assert_eq!(
        welcome_message("a b", false),
        format!("Hello!\nUsing \"{}\" as input. DBG setting is \"{}\"\n", "a b", false)
    );
}
