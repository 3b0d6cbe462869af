//! What the dashboard shows for a snapshot of a vehicle's data.
use vstd::prelude::*;
use vstd::string::StringExecFns;
use crate::text::{decimal, decimal_string, law_decimal_reads_back, parse_int, text_is};
use crate::vehicle::{Openings, VehicleData};

verus! {

/// The image of the lock button while the doors are locked.
pub open spec fn locked_image_spec() -> Seq<char> {
    "../images/noun_padlock_174116.png"@
}

/// The image of the lock button while the doors are unlocked.
pub open spec fn unlocked_image_spec() -> Seq<char> {
    "../images/noun_padlock_174118.png"@
}

/// A distance in kilometres, such as `312km`.
pub open spec fn km_text_spec(km: int) -> Seq<char> {
    decimal(km) + "km"@
}

/// The charging line for a charging state: empty while disconnected, a
/// fixed text once complete, the minutes left while charging, and the
/// state itself otherwise.
pub open spec fn charging_text(charging_state: Seq<char>, minutes: int) -> Seq<char> {
    if charging_state == "Disconnected"@ {
        Seq::empty()
    } else if charging_state == "Complete"@ {
        "Charging complete"@
    } else if charging_state == "Charging"@ {
        "Charging... "@ + decimal(minutes) + " minutes remaining"@
    } else {
        charging_state
    }
}

/// Whether the gear is drive or reverse.
pub open spec fn is_driving(shift_state: Option<String>) -> bool {
    match shift_state {
        Some(s) => s@ == "D"@ || s@ == "R"@,
        None => false,
    }
}

/// The driving line, such as `Driving 50km`.
pub open spec fn driving_text(speed_km: int) -> Seq<char> {
    "Driving "@ + decimal(speed_km) + "km"@
}

/// The status line: the driving line while in drive or reverse, else the
/// charging line.
pub open spec fn status_text(d: VehicleData) -> Seq<char> {
    if is_driving(d.shift_state) {
        driving_text(d.speed_km as int)
    } else {
        charging_text(d.charging_state@, d.minutes_to_full_charge as int)
    }
}

/// Everything the dashboard shows after a refresh.
#[derive(Clone, Debug)]
pub struct DashboardView {
    pub car_version: String,
    /// The odometer, in kilometres, as a bare number.
    pub odometer_text: String,
    /// The level of the battery bar, in percent.
    pub battery_level: u32,
    /// The remaining range, such as `312km`.
    pub battery_range_text: String,
    pub status_text: String,
    /// The strike through the climate icon is shown while the climate
    /// control is on.
    pub climate_strikethrough_visible: bool,
    pub lock_image_path: String,
    /// The opacity of each door, trunk and window image.
    pub openings: Openings,
}

/// `v` is what the dashboard shows for `d`.
pub open spec fn shows(v: DashboardView, d: VehicleData) -> bool {
    &&& v.car_version@ == d.car_version@
    &&& v.odometer_text@ == decimal(d.odometer_km as int)
    &&& v.battery_level == d.battery_level
    &&& v.battery_range_text@ == km_text_spec(d.battery_range_km as int)
    &&& v.status_text@ == status_text(d)
    &&& v.climate_strikethrough_visible == d.is_auto_conditioning_on
    &&& v.lock_image_path@ == (if d.locked { locked_image_spec() } else { unlocked_image_spec() })
    &&& v.openings == d.openings
}

/// A distance in kilometres, such as `312km`.
pub fn km_text(km: i32) -> (r: String)
    ensures
        r@ == km_text_spec(km as int),
{
    let mut s = decimal_string(km as i64);
    s.append("km");
    s
}

/// The charging line for a charging state and the minutes left to a full
/// charge.
pub fn charging_label(charging_state: &str, minutes_to_full_charge: i32) -> (r: String)
    ensures
        r@ == charging_text(charging_state@, minutes_to_full_charge as int),
{
    if text_is(charging_state, "Disconnected") {
        String::new()
    } else if text_is(charging_state, "Complete") {
        String::from_str("Charging complete")
    } else if text_is(charging_state, "Charging") {
        let mut s = String::from_str("Charging... ");
        let minutes = decimal_string(minutes_to_full_charge as i64);
        s.append(minutes.as_str());
        s.append(" minutes remaining");
        s
    } else {
        String::from_str(charging_state)
    }
}

/// The driving line, where the gear is drive or reverse.
pub fn driving_label(shift_state: &Option<String>, speed_km: i32) -> (r: Option<String>)
    ensures
        r is Some == is_driving(*shift_state),
        r matches Some(t) ==> t@ == driving_text(speed_km as int),
{
    let driving = match shift_state {
        Some(s) => text_is(s.as_str(), "D") || text_is(s.as_str(), "R"),
        None => false,
    };
    if driving {
        let mut t = String::from_str("Driving ");
        let speed = decimal_string(speed_km as i64);
        t.append(speed.as_str());
        t.append("km");
        Some(t)
    } else {
        None
    }
}

/// The status line for a snapshot.
pub fn status_label(d: &VehicleData) -> (r: String)
    ensures
        r@ == status_text(*d),
{
    let charging = charging_label(d.charging_state.as_str(), d.minutes_to_full_charge);
    match driving_label(&d.shift_state, d.speed_km) {
        Some(t) => t,
        None => charging,
    }
}

/// The image of the lock button.
pub fn lock_image_path(locked: bool) -> (r: String)
    ensures
        r@ == (if locked { locked_image_spec() } else { unlocked_image_spec() }),
{
    if locked {
        String::from_str("../images/noun_padlock_174116.png")
    } else {
        String::from_str("../images/noun_padlock_174118.png")
    }
}

/// Everything the dashboard shows for a snapshot.
pub fn render(d: &VehicleData) -> (v: DashboardView)
    ensures
        shows(v, *d),
{
    DashboardView {
        car_version: d.car_version.clone(),
        odometer_text: decimal_string(d.odometer_km as i64),
        battery_level: d.battery_level,
        battery_range_text: km_text(d.battery_range_km),
        status_text: status_label(d),
        climate_strikethrough_visible: d.is_auto_conditioning_on,
        lock_image_path: lock_image_path(d.locked),
        openings: d.openings,
    }
}

/// While charging, the status line is `Charging... ` and `minutes remaining`
/// around a number that reads back as the whole count of minutes to a full
/// charge, for every count.
pub proof fn law_charging_line_shows_minutes(minutes: int)
    ensures
        ({
            let t = charging_text("Charging"@, minutes);
            &&& t.len() > 30
            &&& t.subrange(0, 12) == "Charging... "@
            &&& t.subrange(t.len() - 18, t.len() as int) == " minutes remaining"@
            &&& parse_int(t.subrange(12, t.len() - 18)) == minutes
        }),
{
    reveal_strlit("Charging");
    reveal_strlit("Disconnected");
    reveal_strlit("Complete");
    reveal_strlit("Charging... ");
    reveal_strlit(" minutes remaining");
    assert("Disconnected"@.len() == 12);
    assert("Charging"@.len() == 8);
    assert("Charging"@ != "Disconnected"@);
    assert("Charging"@[1] != "Complete"@[1]);
    law_decimal_reads_back(minutes);
    let t = charging_text("Charging"@, minutes);
    assert(t == "Charging... "@ + decimal(minutes) + " minutes remaining"@);
    assert(t.subrange(0, 12) =~= "Charging... "@);
    assert(t.subrange(t.len() - 18, t.len() as int) =~= " minutes remaining"@);
    assert(t.subrange(12, t.len() - 18) =~= decimal(minutes));
}

/// A disconnected vehicle shows an empty charging line, a complete charge
/// shows `Charging complete`, and any other state that is not `Charging`
/// is shown as it is.
pub proof fn law_charging_line_other_states(state: Seq<char>, minutes: int)
    ensures
        state == "Disconnected"@ ==> charging_text(state, minutes).len() == 0,
        state == "Complete"@ ==> charging_text(state, minutes) == "Charging complete"@,
        state != "Disconnected"@ && state != "Complete"@ && state != "Charging"@
            ==> charging_text(state, minutes) == state,
{
    reveal_strlit("Disconnected");
    reveal_strlit("Complete");
    assert("Disconnected"@.len() == 12);
    assert("Complete"@.len() == 8);
    assert("Complete"@ != "Disconnected"@);
}

/// The driving line is `Driving ` and `km` around a number that reads back
/// as the whole speed, for every speed.
pub proof fn law_driving_line_shows_speed(speed_km: int)
    ensures
        ({
            let t = driving_text(speed_km);
            &&& t.len() > 10
            &&& t.subrange(0, 8) == "Driving "@
            &&& t.subrange(t.len() - 2, t.len() as int) == "km"@
            &&& parse_int(t.subrange(8, t.len() - 2)) == speed_km
        }),
{
    reveal_strlit("Driving ");
    reveal_strlit("km");
    law_decimal_reads_back(speed_km);
    let t = driving_text(speed_km);
    assert(t.subrange(0, 8) =~= "Driving "@);
    assert(t.subrange(t.len() - 2, t.len() as int) =~= "km"@);
    assert(t.subrange(8, t.len() - 2) =~= decimal(speed_km));
}

/// In drive (`D`) or reverse (`R`) the status line shows the speed; in any
/// other gear, or with no gear, it shows the charging line.
pub proof fn law_status_line(d: VehicleData)
    ensures
        (d.shift_state matches Some(g) && (g@ == "D"@ || g@ == "R"@)) ==> ({
            let t = status_text(d);
            &&& t.subrange(0, 8) == "Driving "@
            &&& parse_int(t.subrange(8, t.len() - 2)) == d.speed_km
        }),
        !(d.shift_state matches Some(g) && (g@ == "D"@ || g@ == "R"@)) ==> status_text(d)
            == charging_text(d.charging_state@, d.minutes_to_full_charge as int),
{
    law_driving_line_shows_speed(d.speed_km as int);
}

/// A distance reads back from its text, which ends in `km`.
pub proof fn law_km_text_shows_distance(km: int)
    ensures
        ({
            let t = km_text_spec(km);
            &&& t.len() >= 3
            &&& t.subrange(t.len() - 2, t.len() as int) == "km"@
            &&& parse_int(t.subrange(0, t.len() - 2)) == km
        }),
{
    reveal_strlit("km");
    law_decimal_reads_back(km);
    let t = km_text_spec(km);
    assert(t.subrange(t.len() - 2, t.len() as int) =~= "km"@);
    assert(t.subrange(0, t.len() - 2) =~= decimal(km));
}

/// The dashboard shows the snapshot it was given: each door, trunk and
/// window image takes the opening of the same name, the odometer and range
/// read back as the snapshot's distances, the battery bar is the snapshot's
/// level, the climate strike follows the climate control, and the lock
/// button shows the locked padlock exactly when the doors are locked.
pub proof fn law_dashboard_shows_snapshot(v: DashboardView, d: VehicleData)
    requires
        shows(v, d),
    ensures
        v.openings.rear_trunk == d.openings.rear_trunk,
        v.openings.front_trunk == d.openings.front_trunk,
        v.openings.passenger_front_door == d.openings.passenger_front_door,
        v.openings.passenger_rear_door == d.openings.passenger_rear_door,
        v.openings.driver_front_door == d.openings.driver_front_door,
        v.openings.driver_rear_door == d.openings.driver_rear_door,
        v.openings.passenger_front_window == d.openings.passenger_front_window,
        v.openings.passenger_rear_window == d.openings.passenger_rear_window,
        v.openings.driver_front_window == d.openings.driver_front_window,
        v.openings.driver_rear_window == d.openings.driver_rear_window,
        parse_int(v.odometer_text@) == d.odometer_km,
        parse_int(v.battery_range_text@.subrange(0, v.battery_range_text@.len() - 2)) == d.battery_range_km,
        v.battery_range_text@.subrange(v.battery_range_text@.len() - 2, v.battery_range_text@.len() as int) == "km"@,
        v.battery_level == d.battery_level,
        v.car_version@ == d.car_version@,
        v.status_text@ == status_text(d),
        v.climate_strikethrough_visible == d.is_auto_conditioning_on,
        d.locked ==> v.lock_image_path@ == "../images/noun_padlock_174116.png"@,
        !d.locked ==> v.lock_image_path@ == "../images/noun_padlock_174118.png"@,
{
    law_decimal_reads_back(d.odometer_km as int);
    law_km_text_shows_distance(d.battery_range_km as int);
}

} // verus!
