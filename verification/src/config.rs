//! The startup configuration: an access token and the vehicle to show.
use vstd::prelude::*;

verus! {

/// The configuration file's contents.
#[derive(Clone, Debug)]
pub struct Config {
    pub global: GlobalConfig,
}

/// The `[global]` table of the configuration file.
#[derive(Clone, Debug)]
pub struct GlobalConfig {
    pub api_token: String,
    /// The display name of the vehicle to show.
    pub default_vehicle: Option<String>,
    pub logspec: Option<String>,
}

/// Why a configuration cannot start the dashboard.
#[derive(Clone, Copy, Debug, PartialEq, Eq, Structural)]
pub enum ConfigError {
    /// The configuration names no vehicle to show.
    MissingDefaultVehicle,
}

/// What the dashboard needs to reach its vehicle.
#[derive(Clone, Debug)]
pub struct StartupRequest {
    pub api_token: String,
    pub car_name: String,
}

impl Config {
    /// The access token and the name of the vehicle to show; an error where
    /// the configuration names no vehicle.
    pub fn startup_request(&self) -> (r: Result<StartupRequest, ConfigError>)
        ensures
            r is Ok <==> self.global.default_vehicle is Some,
            r matches Ok(q) ==> q.api_token@ == self.global.api_token@
                && q.car_name@ == self.global.default_vehicle->0@,
            r matches Err(e) ==> e == ConfigError::MissingDefaultVehicle,
    {
        match &self.global.default_vehicle {
            Some(name) => Ok(StartupRequest {
                api_token: self.global.api_token.clone(),
                car_name: name.clone(),
            }),
            None => Err(ConfigError::MissingDefaultVehicle),
        }
    }
}

} // verus!
