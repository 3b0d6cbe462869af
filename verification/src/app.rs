//! The dashboard's state and its decisions: what a refresh shows, how the
//! vehicle is woken up, and what each button sets in motion.
use vstd::prelude::*;
use crate::dashboard::{render, shows, DashboardView};
use crate::vehicle::{is_online, is_online_spec, VehicleData, VehicleSummary};

verus! {

/// Milliseconds between two polls of a vehicle that is waking up.
pub const WAKE_POLL_INTERVAL_MS: u64 = 1000;

/// Milliseconds to let a command settle before the data is fetched again.
pub const COMMAND_SETTLE_MS: u64 = 200;

/// A command sent to the vehicle.
#[derive(Clone, Copy, Debug, PartialEq, Eq, Structural)]
pub enum VehicleCommand {
    AutoConditioningStart,
    AutoConditioningStop,
    DoorLock,
    DoorUnlock,
}

/// One step of what a button sets in motion, carried out in order.
#[derive(Clone, Copy, Debug, PartialEq, Eq, Structural)]
pub enum UiStep {
    ShowLoadingBanner,
    Send(VehicleCommand),
    Pause { millis: u64 },
    /// Fetch all of the vehicle's data and pass it to `MyApp::refresh`.
    Refresh,
    ShowControlsWindow,
}

/// What happened since the last step of the wake-up protocol.
#[derive(Debug)]
pub enum WakeEvent {
    /// The wake-up request went out (whether or not it succeeded).
    WakeUpSent,
    /// The vehicle was polled: its description, or `None` where the poll failed.
    VehiclePolled(Option<VehicleSummary>),
    /// The pause between two polls is over.
    Waited,
}

/// The next step of the wake-up protocol.
#[derive(Clone, Copy, Debug, PartialEq, Eq, Structural)]
pub enum WakeAction {
    SendWakeUp,
    PollVehicle,
    Wait { millis: u64 },
    /// The vehicle is online.
    Finished,
}

/// The next step of the wake-up protocol after an event.
pub open spec fn wake_next(event: WakeEvent) -> WakeAction {
    match event {
        WakeEvent::WakeUpSent => WakeAction::PollVehicle,
        WakeEvent::VehiclePolled(Some(v)) => if is_online_spec(v) {
            WakeAction::Finished
        } else {
            WakeAction::Wait { millis: WAKE_POLL_INTERVAL_MS }
        },
        WakeEvent::VehiclePolled(None) => WakeAction::Wait { millis: WAKE_POLL_INTERVAL_MS },
        WakeEvent::Waited => WakeAction::PollVehicle,
    }
}

/// The next step of the wake-up protocol after an event.
pub fn wake_up_transition(event: &WakeEvent) -> (r: WakeAction)
    ensures
        r == wake_next(*event),
        r is Finished ==> (*event matches WakeEvent::VehiclePolled(Some(v)) && is_online_spec(v)),
        *event matches WakeEvent::VehiclePolled(Some(v)) ==> (r is Finished <==> v.state@ == "online"@),
{
    match event {
        WakeEvent::WakeUpSent => WakeAction::PollVehicle,
        WakeEvent::VehiclePolled(Some(v)) => if is_online(v) {
            WakeAction::Finished
        } else {
            WakeAction::Wait { millis: WAKE_POLL_INTERVAL_MS }
        },
        WakeEvent::VehiclePolled(None) => WakeAction::Wait { millis: WAKE_POLL_INTERVAL_MS },
        WakeEvent::Waited => WakeAction::PollVehicle,
    }
}

/// The steps of a button that sends a command: show the loading banner,
/// send it, let it settle, refresh.
pub open spec fn command_plan(c: VehicleCommand) -> Seq<UiStep> {
    seq![
        UiStep::ShowLoadingBanner,
        UiStep::Send(c),
        UiStep::Pause { millis: COMMAND_SETTLE_MS },
        UiStep::Refresh,
    ]
}

/// The climate command: stop the climate control where it is on, else start it.
pub open spec fn climate_command(d: VehicleData) -> VehicleCommand {
    if d.is_auto_conditioning_on {
        VehicleCommand::AutoConditioningStop
    } else {
        VehicleCommand::AutoConditioningStart
    }
}

/// The lock command: unlock locked doors, else lock them.
pub open spec fn lock_command(d: VehicleData) -> VehicleCommand {
    if d.locked {
        VehicleCommand::DoorUnlock
    } else {
        VehicleCommand::DoorLock
    }
}

/// The state of the dashboard as the contracts see it.
pub struct MyAppModel {
    pub vehicle: VehicleSummary,
    pub recent_data: Option<VehicleData>,
}

impl MyAppModel {
    /// The state once a refresh has brought `d`.
    pub open spec fn refreshed(self, d: VehicleData) -> MyAppModel {
        MyAppModel { vehicle: self.vehicle, recent_data: Some(d) }
    }

    /// The state once the wake-up protocol has seen `event`.
    pub open spec fn after_wake_event(self, event: WakeEvent) -> MyAppModel {
        match event {
            WakeEvent::VehiclePolled(Some(v)) => MyAppModel { vehicle: v, recent_data: self.recent_data },
            _ => self,
        }
    }

    /// The steps of the climate control button.
    pub open spec fn climate_plan(self) -> Seq<UiStep>
        recommends
            self.recent_data is Some,
    {
        command_plan(climate_command(self.recent_data->0))
    }

    /// The steps of the lock button.
    pub open spec fn lock_plan(self) -> Seq<UiStep>
        recommends
            self.recent_data is Some,
    {
        command_plan(lock_command(self.recent_data->0))
    }
}

/// The texts of the name and identification number labels.
#[derive(Debug)]
pub struct BasicVehicleInfo {
    pub car_name: String,
    pub vin: String,
}

/// The dashboard of one vehicle: the vehicle and the data last fetched.
pub struct MyApp {
    vehicle: VehicleSummary,
    recent_data: Option<VehicleData>,
}

impl View for MyApp {
    type V = MyAppModel;

    closed spec fn view(&self) -> MyAppModel {
        MyAppModel { vehicle: self.vehicle, recent_data: self.recent_data }
    }
}

impl MyApp {
    /// The dashboard of `vehicle`, before any data is fetched.
    pub fn new(vehicle: VehicleSummary) -> (r: MyApp)
        ensures
            r@ == (MyAppModel { vehicle: vehicle, recent_data: None }),
    {
        MyApp { vehicle, recent_data: None }
    }

    /// The vehicle as last described.
    pub fn vehicle(&self) -> (r: &VehicleSummary)
        ensures
            *r == self@.vehicle,
    {
        &self.vehicle
    }

    /// The data last fetched.
    pub fn recent_data(&self) -> (r: &Option<VehicleData>)
        ensures
            *r == self@.recent_data,
    {
        &self.recent_data
    }

    /// The texts of the vehicle's name and identification number.
    pub fn set_basic_vehicle_info(&self) -> (r: BasicVehicleInfo)
        ensures
            r.car_name@ == self@.vehicle.display_name@,
            r.vin@ == self@.vehicle.vin@,
    {
        BasicVehicleInfo {
            car_name: self.vehicle.display_name.clone(),
            vin: self.vehicle.vin.clone(),
        }
    }

    /// The first step of the wake-up protocol: nothing to do for an online
    /// vehicle, else send the wake-up request.
    pub fn wake_up_if_needed(&self) -> (r: WakeAction)
        ensures
            r == (if is_online_spec(self@.vehicle) {
                WakeAction::Finished
            } else {
                WakeAction::SendWakeUp
            }),
    {
        if is_online(&self.vehicle) {
            WakeAction::Finished
        } else {
            WakeAction::SendWakeUp
        }
    }

    /// The next step of the wake-up protocol; a successful poll replaces
    /// the vehicle's description.
    pub fn on_wake_up_event(&mut self, event: WakeEvent) -> (r: WakeAction)
        ensures
            r == wake_next(event),
            final(self)@ == old(self)@.after_wake_event(event),
            r is Finished ==> is_online_spec(final(self)@.vehicle),
    {
        let r = wake_up_transition(&event);
        match event {
            WakeEvent::VehiclePolled(Some(v)) => {
                self.vehicle = v;
            },
            _ => {},
        }
        r
    }

    /// Keeps freshly fetched data and returns what the dashboard shows for it.
    pub fn refresh(&mut self, all_data: VehicleData) -> (r: DashboardView)
        ensures
            final(self)@ == old(self)@.refreshed(all_data),
            shows(r, all_data),
    {
        self.recent_data = Some(all_data);
        self.do_refresh()
    }

    fn do_refresh(&self) -> (r: DashboardView)
        requires
            self@.recent_data is Some,
        ensures
            shows(r, self@.recent_data->0),
    {
        let d = self.recent_data.as_ref().unwrap();
        render(d)
    }

    /// The steps of the refresh button.
    pub fn on_refresh_button_clicked(&self) -> (r: Vec<UiStep>)
        ensures
            r@ == seq![UiStep::ShowLoadingBanner, UiStep::Refresh],
    {
        vec![UiStep::ShowLoadingBanner, UiStep::Refresh]
    }

    /// The steps of the climate control button, which acts on the data last
    /// fetched.
    pub fn on_climate_control_button_clicked(&self) -> (r: Vec<UiStep>)
        requires
            self@.recent_data is Some,
        ensures
            r@ == self@.climate_plan(),
    {
        let command = match &self.recent_data {
            Some(d) => if d.is_auto_conditioning_on {
                VehicleCommand::AutoConditioningStop
            } else {
                VehicleCommand::AutoConditioningStart
            },
            None => VehicleCommand::AutoConditioningStart,
        };
        command_steps(command)
    }

    /// The steps of the front trunk button: none yet.
    pub fn on_frunk_button_clicked(&self) -> (r: Vec<UiStep>)
        ensures
            r@ == Seq::<UiStep>::empty(),
    {
        Vec::new()
    }

    /// The steps of the lock button, which acts on the data last fetched.
    pub fn on_lock_button_clicked(&self) -> (r: Vec<UiStep>)
        requires
            self@.recent_data is Some,
        ensures
            r@ == self@.lock_plan(),
    {
        let command = match &self.recent_data {
            Some(d) => if d.locked {
                VehicleCommand::DoorUnlock
            } else {
                VehicleCommand::DoorLock
            },
            None => VehicleCommand::DoorLock,
        };
        command_steps(command)
    }

    /// The steps of the controls button.
    pub fn on_controls_button_clicked(&self) -> (r: Vec<UiStep>)
        ensures
            r@ == seq![UiStep::ShowControlsWindow],
    {
        vec![UiStep::ShowControlsWindow]
    }
}

fn command_steps(c: VehicleCommand) -> (r: Vec<UiStep>)
    ensures
        r@ == command_plan(c),
{
    vec![
        UiStep::ShowLoadingBanner,
        UiStep::Send(c),
        UiStep::Pause { millis: COMMAND_SETTLE_MS },
        UiStep::Refresh,
    ]
}


/// A refresh replaces what an earlier refresh brought: the dashboard holds
/// the data of the latest refresh only.
pub proof fn law_latest_refresh_wins(m: MyAppModel, d1: VehicleData, d2: VehicleData)
    ensures
        m.refreshed(d1).refreshed(d2) == m.refreshed(d2),
        m.refreshed(d2).recent_data == Some(d2),
{
}

/// Refreshing and the wake-up protocol touch different parts of the state,
/// so their order does not matter: a refresh keeps the vehicle's
/// description, a wake-up event keeps the data.
pub proof fn law_refresh_and_wake_commute(m: MyAppModel, d: VehicleData, e: WakeEvent)
    ensures
        m.refreshed(d).after_wake_event(e) == m.after_wake_event(e).refreshed(d),
        m.refreshed(d).vehicle == m.vehicle,
        m.after_wake_event(e).recent_data == m.recent_data,
{
}

/// The wake-up protocol finishes exactly when a poll succeeds and finds the
/// vehicle online, and it never asks to send the wake-up request again: the
/// request goes out at most once, from `wake_up_if_needed`.
pub proof fn law_wake_up_protocol(e: WakeEvent)
    ensures
        (wake_next(e) is Finished) <==> (e matches WakeEvent::VehiclePolled(Some(v)) && is_online_spec(v)),
        !(wake_next(e) is SendWakeUp),
        (wake_next(e) is Wait) ==> wake_next(e) == (WakeAction::Wait { millis: WAKE_POLL_INTERVAL_MS }),
{
}

/// Only the state `online` counts as online: for a vehicle in any other
/// state the wake-up protocol starts by sending the wake-up request, and a
/// poll that finds it so waits and polls again; a poll that finds it
/// `online` finishes the protocol.
pub proof fn law_only_online_is_awake(v: VehicleSummary)
    ensures
        is_online_spec(v) <==> v.state@ == "online"@,
        v.state@ != "online"@ ==> wake_next(WakeEvent::VehiclePolled(Some(v)))
            == (WakeAction::Wait { millis: WAKE_POLL_INTERVAL_MS }),
        v.state@ == "online"@ ==> wake_next(WakeEvent::VehiclePolled(Some(v))) == WakeAction::Finished,
{
}

/// After a refresh that brought `d`, the climate control button stops the
/// climate control where `d` found it on and starts it otherwise, and the
/// lock button unlocks the doors where `d` found them locked and locks them
/// otherwise; either then waits and refreshes.
pub proof fn law_buttons_act_on_latest_refresh(m: MyAppModel, d: VehicleData)
    ensures
        m.refreshed(d).climate_plan() == command_plan(
            if d.is_auto_conditioning_on {
                VehicleCommand::AutoConditioningStop
            } else {
                VehicleCommand::AutoConditioningStart
            },
        ),
        m.refreshed(d).lock_plan() == command_plan(
            if d.locked {
                VehicleCommand::DoorUnlock
            } else {
                VehicleCommand::DoorLock
            },
        ),
        m.refreshed(d).climate_plan().last() == UiStep::Refresh,
        m.refreshed(d).lock_plan().last() == UiStep::Refresh,
{
}

} // verus!
