//! Verified core of a desktop dashboard for a Tesla vehicle: the texts and
//! images the dashboard shows for a vehicle's data, the wake-up protocol, the
//! plans that the buttons start, the startup configuration and the vehicle
//! lookup by name.
pub mod text;
pub mod vehicle;
pub mod dashboard;
pub mod app;
pub mod config;
pub mod messages;
