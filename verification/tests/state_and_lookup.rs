use rusted_thunder::app::{
    wake_up_transition, MyApp, UiStep, VehicleCommand, WakeAction, WakeEvent, COMMAND_SETTLE_MS,
    WAKE_POLL_INTERVAL_MS,
};
use rusted_thunder::config::{Config, ConfigError, GlobalConfig};
use rusted_thunder::messages::{MessagesForGUI, MessagesForWorker};
use rusted_thunder::vehicle::{
    find_vehicle_by_name, first_match, is_online, Openings, VehicleData, VehicleSummary,
};

fn vehicle(id: u64, name: &str, state: &str) -> VehicleSummary {
    VehicleSummary {
        id,
        vin: format!("5YJ3E1EA{}", id),
        display_name: name.to_string(),
        state: state.to_string(),
    }
}

fn data(locked: bool, climate_on: bool) -> VehicleData {
    VehicleData {
        car_version: "2020.36.11".to_string(),
        odometer_km: 100,
        battery_level: 50,
        battery_range_km: 200,
        charging_state: "Complete".to_string(),
        minutes_to_full_charge: 0,
        shift_state: None,
        speed_km: 0,
        locked,
        is_auto_conditioning_on: climate_on,
        openings: Openings {
            rear_trunk: 0,
            front_trunk: 0,
            passenger_front_door: 0,
            passenger_rear_door: 0,
            driver_front_door: 0,
            driver_rear_door: 0,
            passenger_front_window: 0,
            passenger_rear_window: 0,
            driver_front_window: 0,
            driver_rear_window: 0,
        },
    }
}

fn command_steps(c: VehicleCommand) -> Vec<UiStep> {
    vec![
        UiStep::ShowLoadingBanner,
        UiStep::Send(c),
        UiStep::Pause { millis: COMMAND_SETTLE_MS },
        UiStep::Refresh,
    ]
}

#[test]
fn online_state_is_recognised() {
    assert!(is_online(&vehicle(1, "a", "online")));
    assert!(!is_online(&vehicle(1, "a", "asleep")));
    assert!(!is_online(&vehicle(1, "a", "Online")));
}

#[test]
fn first_match_finds_first_position() {
    let keys = vec!["a".to_string(), "b".to_string(), "b".to_string()];
    assert_eq!(first_match(&keys, &"b".to_string()), Some(1));
    assert_eq!(first_match(&keys, &"a".to_string()), Some(0));
    assert_eq!(first_match(&keys, &"c".to_string()), None);
    assert_eq!(first_match(&Vec::new(), &"a".to_string()), None);
}

#[test]
fn vehicle_lookup_ignores_case_and_takes_first() {
    let vehicles = vec![
        vehicle(1, "Red Arrow", "online"),
        vehicle(2, "Thunder", "asleep"),
        vehicle(3, "thunder", "online"),
    ];
    assert_eq!(find_vehicle_by_name(&vehicles, "Thunder"), Some(1));
    assert_eq!(find_vehicle_by_name(&vehicles, "THUNDER"), Some(1));
    assert_eq!(find_vehicle_by_name(&vehicles, "red arrow"), Some(0));
    assert_eq!(find_vehicle_by_name(&vehicles, "Blue"), None);
    assert_eq!(find_vehicle_by_name(&Vec::new(), "Thunder"), None);
}

#[test]
fn startup_request_needs_a_vehicle_name() {
    let cfg = Config {
        global: GlobalConfig {
            api_token: "SECRET-REDACTED".to_string(),
            default_vehicle: Some("Thunder".to_string()),
            logspec: None,
        },
    };
    let q = cfg.startup_request().unwrap();
    assert_eq!(q.api_token, "SECRET-REDACTED");
    assert_eq!(q.car_name, "Thunder");

    let missing = Config {
        global: GlobalConfig {
            api_token: "SECRET-REDACTED".to_string(),
            default_vehicle: None,
            logspec: Some("debug".to_string()),
        },
    };
    assert_eq!(missing.startup_request().unwrap_err(), ConfigError::MissingDefaultVehicle);
}

#[test]
fn new_app_has_no_data() {
    let app = MyApp::new(vehicle(7, "Thunder", "asleep"));
    assert_eq!(app.vehicle().id, 7);
    assert!(app.recent_data().is_none());
    let info = app.set_basic_vehicle_info();
    assert_eq!(info.car_name, "Thunder");
    assert_eq!(info.vin, "5YJ3E1EA7");
}

#[test]
fn online_vehicle_needs_no_wake_up() {
    let app = MyApp::new(vehicle(7, "Thunder", "online"));
    assert_eq!(app.wake_up_if_needed(), WakeAction::Finished);
}

#[test]
fn wake_up_protocol_polls_until_online() {
    let mut app = MyApp::new(vehicle(7, "Thunder", "asleep"));
    assert_eq!(app.wake_up_if_needed(), WakeAction::SendWakeUp);
    assert_eq!(app.on_wake_up_event(WakeEvent::WakeUpSent), WakeAction::PollVehicle);
    assert_eq!(
        app.on_wake_up_event(WakeEvent::VehiclePolled(None)),
        WakeAction::Wait { millis: WAKE_POLL_INTERVAL_MS }
    );
    assert_eq!(app.vehicle().state, "asleep");
    assert_eq!(app.on_wake_up_event(WakeEvent::Waited), WakeAction::PollVehicle);
    assert_eq!(
        app.on_wake_up_event(WakeEvent::VehiclePolled(Some(vehicle(7, "Thunder", "waking")))),
        WakeAction::Wait { millis: 1000 }
    );
    assert_eq!(app.vehicle().state, "waking");
    assert_eq!(app.on_wake_up_event(WakeEvent::Waited), WakeAction::PollVehicle);
    assert_eq!(
        app.on_wake_up_event(WakeEvent::VehiclePolled(Some(vehicle(7, "Thunder", "online")))),
        WakeAction::Finished
    );
    assert!(is_online(app.vehicle()));
    assert!(app.recent_data().is_none());
}

#[test]
fn wake_up_transition_without_state() {
    assert_eq!(wake_up_transition(&WakeEvent::WakeUpSent), WakeAction::PollVehicle);
    assert_eq!(wake_up_transition(&WakeEvent::Waited), WakeAction::PollVehicle);
    assert_eq!(
        wake_up_transition(&WakeEvent::VehiclePolled(None)),
        WakeAction::Wait { millis: 1000 }
    );
    assert_eq!(
        wake_up_transition(&WakeEvent::VehiclePolled(Some(vehicle(1, "a", "online")))),
        WakeAction::Finished
    );
}

#[test]
fn refresh_keeps_data_and_renders_it() {
    let mut app = MyApp::new(vehicle(7, "Thunder", "online"));
    let view = app.refresh(data(true, false));
    assert_eq!(view.status_text, "Charging complete");
    assert_eq!(view.odometer_text, "100");
    assert_eq!(view.battery_range_text, "200km");
    assert!(app.recent_data().as_ref().unwrap().locked);
    assert_eq!(app.vehicle().display_name, "Thunder");
}

#[test]
fn latest_refresh_wins() {
    let mut app = MyApp::new(vehicle(7, "Thunder", "online"));
    app.refresh(data(true, false));
    app.refresh(data(false, true));
    let d = app.recent_data().as_ref().unwrap();
    assert!(!d.locked);
    assert!(d.is_auto_conditioning_on);
}

#[test]
fn refresh_and_wake_commute() {
    let mut a = MyApp::new(vehicle(7, "Thunder", "asleep"));
    a.refresh(data(true, false));
    a.on_wake_up_event(WakeEvent::VehiclePolled(Some(vehicle(7, "Thunder", "online"))));
    let mut b = MyApp::new(vehicle(7, "Thunder", "asleep"));
    b.on_wake_up_event(WakeEvent::VehiclePolled(Some(vehicle(7, "Thunder", "online"))));
    b.refresh(data(true, false));
    assert_eq!(a.vehicle().state, b.vehicle().state);
    assert_eq!(
        a.recent_data().as_ref().unwrap().locked,
        b.recent_data().as_ref().unwrap().locked
    );
}

#[test]
fn buttons_plans() {
    let mut app = MyApp::new(vehicle(7, "Thunder", "online"));
    assert_eq!(app.on_refresh_button_clicked(), vec![UiStep::ShowLoadingBanner, UiStep::Refresh]);
    assert_eq!(app.on_frunk_button_clicked(), Vec::<UiStep>::new());
    assert_eq!(app.on_controls_button_clicked(), vec![UiStep::ShowControlsWindow]);

    app.refresh(data(true, false));
    assert_eq!(
        app.on_climate_control_button_clicked(),
        command_steps(VehicleCommand::AutoConditioningStart)
    );
    assert_eq!(app.on_lock_button_clicked(), command_steps(VehicleCommand::DoorUnlock));

    app.refresh(data(false, true));
    assert_eq!(
        app.on_climate_control_button_clicked(),
        command_steps(VehicleCommand::AutoConditioningStop)
    );
    assert_eq!(app.on_lock_button_clicked(), command_steps(VehicleCommand::DoorLock));
}

#[test]
fn messages_carry_library_values() {
    let m = MessagesForGUI::VehicleInfo(vehicle(1, "Thunder", "online"));
    assert!(matches!(m, MessagesForGUI::VehicleInfo(ref v) if v.display_name == "Thunder"));
    let f = MessagesForGUI::FullVehicleData(data(true, true));
    assert!(matches!(f, MessagesForGUI::FullVehicleData(ref d) if d.locked));
    assert_eq!(MessagesForWorker::DoRefresh(), MessagesForWorker::DoRefresh());
}
