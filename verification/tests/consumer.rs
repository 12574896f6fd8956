use iced::Color;
use slimevr_wrangler::present::{
    battery_tone, box_view, box_views, health_tone, indicator_color, indicator_rgb, needle_index,
    tone_color, tone_rgb, Tone,
};
use slimevr_wrangler::settings::{Handler, WranglerSettings};
use slimevr_wrangler::state::{
    edits_settings, BlacklistResult, Command, MainState, Message, DOT_MILLIS, ROTATE_STEP,
    SEARCH_DOT_STATES, TICK_MILLIS,
};
use slimevr_wrangler::status::{
    Battery, DeviceStatus, JoyconDesign, ServerStatus, Status, StatusBridge,
};
use slimevr_wrangler::text::{
    connection_text, search_dots_text, searching_text, server_tone, update_text,
};

fn status(serial: &str, rotation: (i32, i32, i32)) -> Status {
    Status {
        serial_number: serial.to_string(),
        design: JoyconDesign::Right,
        battery: Battery::Medium,
        status: DeviceStatus::Healthy,
        rotation,
    }
}

fn start() -> (MainState, StatusBridge) {
    let ws = WranglerSettings::new("127.0.0.1:6969".to_string(), false, false);
    (MainState::new(Handler::new(ws), "127.0.0.1:6969".to_string()), StatusBridge::new())
}

#[test]
fn presented_values_apply_tuning_without_touching_raw() {
    let mut ws = WranglerSettings::new(String::new(), false, false);
    ws.joycon_rotation_add("SN".to_string(), 90);
    let s = status("SN", (10, 20, 30));
    let view = box_view(&s, &ws);
    assert_eq!(view.roll, 10);
    assert_eq!(view.pitch, 20);
    assert_eq!(view.yaw, 330);
    assert_eq!(view.mount_rotation, 90);
    assert_eq!(view.scale, 1000);
    assert_eq!(view.design, JoyconDesign::Right);
    assert_eq!(view.indicator, (0x3d, 0xff, 0x81));
    assert_eq!(view.status_tone, Tone::Green);
    assert_eq!(view.battery_tone, Tone::Green);
    assert_eq!(s.rotation, (10, 20, 30));
}

#[test]
fn presented_angles_wrap() {
    let ws = WranglerSettings::new(String::new(), false, false);
    let view = box_view(&status("SN", (-10, 725, i32::MIN)), &ws);
    assert_eq!(view.roll, 350);
    assert_eq!(view.pitch, 5);
    // 2147483648 = 360 * 5965232 + 128
    assert_eq!(view.yaw, 128);
    assert_eq!(view.mount_rotation, 0);
    assert_eq!(needle_index(0), 0);
    assert_eq!(needle_index(359), 359);
    assert_eq!(needle_index(360), 0);
    assert_eq!(needle_index(-1), 359);
}

#[test]
fn box_views_follow_the_list() {
    let mut ws = WranglerSettings::new(String::new(), false, false);
    ws.joycon_scale_set("B".to_string(), 900);
    let list = vec![status("A", (1, 2, 3)), status("B", (4, 5, 6))];
    let views = box_views(&list, &ws);
    assert_eq!(views.len(), 2);
    assert_eq!(views[0], box_view(&list[0], &ws));
    assert_eq!(views[1], box_view(&list[1], &ws));
    assert_eq!(views[0].scale, 1000);
    assert_eq!(views[1].scale, 900);
    assert_eq!(views[1].yaw, 354);
}

#[test]
fn tones_and_indicator() {
    assert_eq!(health_tone(DeviceStatus::Disconnected), Tone::Orange);
    assert_eq!(health_tone(DeviceStatus::NoIMU), Tone::Orange);
    assert_eq!(health_tone(DeviceStatus::LaggyIMU), Tone::Yellow);
    assert_eq!(health_tone(DeviceStatus::Healthy), Tone::Green);
    assert_eq!(battery_tone(Battery::Empty), Tone::Orange);
    assert_eq!(battery_tone(Battery::Critical), Tone::Orange);
    assert_eq!(battery_tone(Battery::Low), Tone::Yellow);
    assert_eq!(battery_tone(Battery::Medium), Tone::Green);
    assert_eq!(battery_tone(Battery::Full), Tone::Green);
    assert_eq!(indicator_rgb(DeviceStatus::Disconnected), (0xff, 0x38, 0x4a));
    assert_eq!(indicator_rgb(DeviceStatus::NoIMU), (0xff, 0x38, 0x4a));
    assert_eq!(indicator_rgb(DeviceStatus::LaggyIMU), (0xff, 0xe3, 0x3c));
    assert_eq!(indicator_rgb(DeviceStatus::Healthy), (0x3d, 0xff, 0x81));
    assert_eq!(tone_rgb(Tone::Orange), (0xff, 0x8c, 0x38));
    assert_eq!(tone_rgb(Tone::Yellow), (0xff, 0xe3, 0x3c));
    assert_eq!(tone_rgb(Tone::Green), (0x3d, 0xff, 0x81));
    assert_eq!(server_tone(ServerStatus::Connected), Tone::Green);
    assert_eq!(server_tone(ServerStatus::Disconnected), Tone::Yellow);
}

#[test]
fn status_line_texts() {
    assert_eq!(search_dots_text(0), "");
    assert_eq!(search_dots_text(3), "...");
    assert_eq!(connection_text(ServerStatus::Connected, "1.2.3.4:6969", ".."), " to 1.2.3.4:6969.");
    assert_eq!(
        connection_text(ServerStatus::Disconnected, "1.2.3.4:6969", ".."),
        ". Trying to connect to 1.2.3.4:6969.."
    );
    assert_eq!(update_text("0.9.1"), "New update found! Version: 0.9.1. ");
    assert_eq!(
        searching_text(".."),
        "Searching for Joycon controllers..\nPlease pair controllers in your system's bluetooth settings if they don't show up here."
    );
}

#[test]
fn initial_state() {
    let (state, _) = start();
    assert!(state.statuses.is_empty());
    assert_eq!(state.search_dots, 0);
    assert!(!state.settings_show);
    assert_eq!(state.server_connected, ServerStatus::Disconnected);
    assert_eq!(state.server_address, "127.0.0.1:6969");
    assert_eq!(state.update_found, None);
    assert!(!state.blacklist_info.visible());
    assert!(!state.blacklist_info.fix_button);
}

#[test]
fn tick_without_publish_changes_nothing() {
    let (mut state, mut bridge) = start();
    assert_eq!(state.update(&mut bridge, Message::Tick), Command::Nothing);
    assert!(state.statuses.is_empty());
    assert_eq!(state.server_connected, ServerStatus::Disconnected);
}

#[test]
fn tick_takes_over_what_was_published() {
    let (mut state, mut bridge) = start();
    bridge.publish_status(vec![status("A", (1, 2, 3))]);
    bridge.publish_server(ServerStatus::Connected);
    state.update(&mut bridge, Message::Tick);
    assert_eq!(state.statuses, vec![status("A", (1, 2, 3))]);
    assert_eq!(state.server_connected, ServerStatus::Connected);
    assert_eq!(bridge.poll_status(), None);
    assert_eq!(bridge.poll_server(), None);
    state.update(&mut bridge, Message::Tick);
    assert_eq!(state.statuses, vec![status("A", (1, 2, 3))]);
    assert_eq!(state.server_connected, ServerStatus::Connected);
    bridge.publish_status(vec![]);
    state.update(&mut bridge, Message::Tick);
    assert!(state.statuses.is_empty());
    assert_eq!(state.server_connected, ServerStatus::Connected);
}

#[test]
fn dot_cycles_through_four() {
    let (mut state, mut bridge) = start();
    assert_eq!(SEARCH_DOT_STATES, 4);
    for expected in [1usize, 2, 3, 0, 1] {
        assert_eq!(state.update(&mut bridge, Message::Dot), Command::Nothing);
        assert_eq!(state.search_dots, expected);
    }
    state.search_dots = usize::MAX;
    state.update(&mut bridge, Message::Dot);
    // usize::MAX is 3 modulo 4, so its successor is 0 modulo 4
    assert_eq!(state.search_dots, 0);
}

#[test]
fn settings_button_toggles() {
    let (mut state, mut bridge) = start();
    state.update(&mut bridge, Message::SettingsPressed);
    assert!(state.settings_show);
    state.update(&mut bridge, Message::SettingsPressed);
    assert!(!state.settings_show);
}

#[test]
fn rotate_buttons_turn_by_quarter() {
    let (mut state, mut bridge) = start();
    assert_eq!(ROTATE_STEP, 90);
    state.update(&mut bridge, Message::JoyconRotate("A".to_string(), false));
    assert_eq!(state.settings.joycon_rotation_get(&"A".to_string()), 270);
    state.update(&mut bridge, Message::JoyconRotate("A".to_string(), true));
    state.update(&mut bridge, Message::JoyconRotate("A".to_string(), true));
    assert_eq!(state.settings.joycon_rotation_get(&"A".to_string()), 90);
    assert_eq!(state.settings.joycon_rotation_get(&"B".to_string()), 0);
}

#[test]
fn scale_slider_is_clamped() {
    let (mut state, mut bridge) = start();
    state.update(&mut bridge, Message::JoyconScale("A".to_string(), 1500));
    assert_eq!(state.settings.joycon_scale_get(&"A".to_string()), 1200);
    state.update(&mut bridge, Message::JoyconScale("A".to_string(), 500));
    assert_eq!(state.settings.joycon_scale_get(&"A".to_string()), 800);
    state.update(&mut bridge, Message::JoyconScale("A".to_string(), 950));
    assert_eq!(state.settings.joycon_scale_get(&"A".to_string()), 950);
}

#[test]
fn settings_edits_reach_the_store() {
    let (mut state, mut bridge) = start();
    state.update(&mut bridge, Message::AddressChange("10.1.1.1:7000".to_string()));
    state.update(&mut bridge, Message::SettingsResetToggled(true));
    let now = state.settings.load();
    assert_eq!(now.address(), "10.1.1.1:7000");
    assert!(now.send_reset());
    assert!(!now.keep_ids());
    state.update(&mut bridge, Message::SettingsIdsToggled(true));
    state.update(&mut bridge, Message::SettingsResetToggled(false));
    let now = state.settings.load();
    assert!(!now.send_reset());
    assert!(now.keep_ids());
    assert_eq!(state.server_address, "127.0.0.1:6969");
}

#[test]
fn update_messages() {
    let (mut state, mut bridge) = start();
    assert_eq!(
        state.update(&mut bridge, Message::UpdateFound(Some("1.2.3".to_string()))),
        Command::Nothing
    );
    assert_eq!(state.update_found, Some("1.2.3".to_string()));
    assert_eq!(state.update(&mut bridge, Message::UpdatePressed), Command::Update);
    assert_eq!(state.update_found, None);
    state.update(&mut bridge, Message::UpdateFound(None));
    assert_eq!(state.update_found, None);
}

#[test]
fn blacklist_messages() {
    let (mut state, mut bridge) = start();
    let found = BlacklistResult { info: "Controllers are blacklisted.".to_string(), fix_button: true };
    assert_eq!(state.update(&mut bridge, Message::BlacklistChecked(found)), Command::Nothing);
    assert!(state.blacklist_info.visible());
    assert!(state.blacklist_info.fix_button);
    assert_eq!(state.blacklist_info.info, "Controllers are blacklisted.");
    assert_eq!(state.update(&mut bridge, Message::BlacklistFixPressed), Command::FixBlacklist);
    assert_eq!(state.blacklist_info, BlacklistResult::info("Updating steam config file....."));
    assert_eq!(state.blacklist_info.info, "Updating steam config file.....");
    assert!(!state.blacklist_info.fix_button);
    assert!(state.blacklist_info.visible());
    assert!(!BlacklistResult::info("").visible());
}

#[test]
fn tuning_change_shows_without_new_sample() {
    let (mut state, mut bridge) = start();
    bridge.publish_status(vec![status("A", (10, 20, 30))]);
    state.update(&mut bridge, Message::Tick);
    let before = box_view(&state.statuses[0], &state.settings.load());
    state.update(&mut bridge, Message::JoyconRotate("A".to_string(), true));
    let after = box_view(&state.statuses[0], &state.settings.load());
    assert_eq!(before.mount_rotation, 0);
    assert_eq!(after.mount_rotation, 90);
    assert_eq!(after.yaw, 330);
    assert_eq!(state.statuses[0].rotation, (10, 20, 30));
}

#[test]
fn colors_come_from_the_channels() {
    assert_eq!(indicator_color(DeviceStatus::Healthy), Color::from_rgb8(0x3d, 0xff, 0x81));
    assert_eq!(indicator_color(DeviceStatus::Healthy).into_rgba8(), [0x3d, 0xff, 0x81, 0xff]);
    assert_eq!(indicator_color(DeviceStatus::NoIMU).into_rgba8(), [0xff, 0x38, 0x4a, 0xff]);
    assert_eq!(indicator_color(DeviceStatus::Disconnected).into_rgba8(), [0xff, 0x38, 0x4a, 0xff]);
    assert_eq!(indicator_color(DeviceStatus::LaggyIMU).into_rgba8(), [0xff, 0xe3, 0x3c, 0xff]);
    assert_eq!(tone_color(Tone::Orange).into_rgba8(), [0xff, 0x8c, 0x38, 0xff]);
    assert_eq!(tone_color(Tone::Yellow), Color::from_rgb8(0xff, 0xe3, 0x3c));
    assert_eq!(tone_color(Tone::Green), Color::from_rgb8(0x3d, 0xff, 0x81));
    assert_eq!(tone_color(Tone::Green).a, 1.0);
}

#[test]
fn which_messages_edit_settings() {
    assert!(edits_settings(&Message::AddressChange(String::new())));
    assert!(edits_settings(&Message::JoyconRotate(String::new(), true)));
    assert!(edits_settings(&Message::JoyconScale(String::new(), 1000)));
    assert!(edits_settings(&Message::SettingsResetToggled(false)));
    assert!(edits_settings(&Message::SettingsIdsToggled(true)));
    assert!(!edits_settings(&Message::Tick));
    assert!(!edits_settings(&Message::Dot));
    assert!(!edits_settings(&Message::SettingsPressed));
    assert!(!edits_settings(&Message::UpdatePressed));
    assert!(!edits_settings(&Message::UpdateFound(None)));
    assert!(!edits_settings(&Message::BlacklistFixPressed));
    assert!(!edits_settings(&Message::BlacklistChecked(BlacklistResult::info(""))));
    assert_eq!(TICK_MILLIS, 50);
    assert_eq!(DOT_MILLIS, 500);
}
