use rusted_thunder::dashboard::{
    charging_label, driving_label, km_text, lock_image_path, render, status_label,
};
use rusted_thunder::text::{decimal_string, text_is};
use rusted_thunder::vehicle::{Openings, VehicleData};

fn openings(value: i64) -> Openings {
    Openings {
        rear_trunk: value,
        front_trunk: 0,
        passenger_front_door: value,
        passenger_rear_door: 0,
        driver_front_door: 0,
        driver_rear_door: value,
        passenger_front_window: 0,
        passenger_rear_window: 0,
        driver_front_window: value,
        driver_rear_window: 0,
    }
}

fn data(charging_state: &str, shift_state: Option<&str>) -> VehicleData {
    VehicleData {
        car_version: "2020.36.11".to_string(),
        odometer_km: 12345,
        battery_level: 81,
        battery_range_km: 312,
        charging_state: charging_state.to_string(),
        minutes_to_full_charge: 45,
        shift_state: shift_state.map(|s| s.to_string()),
        speed_km: 80,
        locked: true,
        is_auto_conditioning_on: false,
        openings: openings(1),
    }
}

#[test]
fn decimal_string_formats_like_display() {
    assert_eq!(decimal_string(0), "0");
    assert_eq!(decimal_string(7), "7");
    assert_eq!(decimal_string(10), "10");
    assert_eq!(decimal_string(45), "45");
    assert_eq!(decimal_string(1000), "1000");
    assert_eq!(decimal_string(-45), "-45");
    assert_eq!(decimal_string(i64::MAX), i64::MAX.to_string());
    assert_eq!(decimal_string(i64::MIN), i64::MIN.to_string());
    for n in -1200i64..1200 {
        assert_eq!(decimal_string(n), n.to_string());
    }
}

#[test]
fn text_is_compares_whole_texts() {
    assert!(text_is("online", "online"));
    assert!(!text_is("onlin", "online"));
    assert!(!text_is("Online", "online"));
    assert!(text_is("", ""));
}

#[test]
fn km_text_appends_unit() {
    assert_eq!(km_text(312), "312km");
    assert_eq!(km_text(0), "0km");
    assert_eq!(km_text(-3), "-3km");
}

#[test]
fn charging_label_for_each_state() {
    assert_eq!(charging_label("Disconnected", 45), "");
    assert_eq!(charging_label("Complete", 45), "Charging complete");
    assert_eq!(charging_label("Charging", 45), "Charging... 45 minutes remaining");
    assert_eq!(charging_label("Charging", 0), "Charging... 0 minutes remaining");
    assert_eq!(charging_label("Stopped", 45), "Stopped");
    assert_eq!(charging_label("NoPower", 3), "NoPower");
    assert_eq!(charging_label("charging", 3), "charging");
}

#[test]
fn driving_label_only_in_drive_or_reverse() {
    assert_eq!(driving_label(&Some("D".to_string()), 80), Some("Driving 80km".to_string()));
    assert_eq!(driving_label(&Some("R".to_string()), 5), Some("Driving 5km".to_string()));
    assert_eq!(driving_label(&Some("P".to_string()), 80), None);
    assert_eq!(driving_label(&Some("N".to_string()), 80), None);
    assert_eq!(driving_label(&None, 80), None);
}

#[test]
fn status_label_driving_overrides_charging() {
    assert_eq!(status_label(&data("Charging", Some("D"))), "Driving 80km");
    assert_eq!(status_label(&data("Charging", Some("P"))), "Charging... 45 minutes remaining");
    assert_eq!(status_label(&data("Complete", None)), "Charging complete");
    assert_eq!(status_label(&data("Disconnected", Some("R"))), "Driving 80km");
}

#[test]
fn lock_image_follows_lock_state() {
    assert_eq!(lock_image_path(true), "../images/noun_padlock_174116.png");
    assert_eq!(lock_image_path(false), "../images/noun_padlock_174118.png");
}

#[test]
fn render_shows_every_field() {
    let d = data("Charging", None);
    let v = render(&d);
    assert_eq!(v.car_version, "2020.36.11");
    assert_eq!(v.odometer_text, "12345");
    assert_eq!(v.battery_level, 81);
    assert_eq!(v.battery_range_text, "312km");
    assert_eq!(v.status_text, "Charging... 45 minutes remaining");
    assert!(!v.climate_strikethrough_visible);
    assert_eq!(v.lock_image_path, "../images/noun_padlock_174116.png");
    assert_eq!(v.openings, openings(1));

    let mut d2 = data("Disconnected", Some("D"));
    d2.locked = false;
    d2.is_auto_conditioning_on = true;
    d2.openings = openings(0);
    let v2 = render(&d2);
    assert_eq!(v2.status_text, "Driving 80km");
    assert!(v2.climate_strikethrough_visible);
    assert_eq!(v2.lock_image_path, "../images/noun_padlock_174118.png");
    assert_eq!(v2.openings, openings(0));
}
