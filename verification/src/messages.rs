//! Messages between the dashboard and the worker that talks to the vehicle.
use vstd::prelude::*;
use crate::vehicle::{VehicleData, VehicleSummary};

verus! {

/// From the worker to the dashboard.
#[derive(Debug)]
pub enum MessagesForGUI {
    VehicleInfo(VehicleSummary),
    FullVehicleData(VehicleData),
}

/// From the dashboard to the worker.
#[derive(Clone, Copy, Debug, PartialEq, Eq, Structural)]
pub enum MessagesForWorker {
    DoRefresh(),
}

} // verus!
