//! Configuration of a tower: identity, network and site.
//!
//! Coordinates are fixed-point integers: millionths of a degree for latitude
//! and longitude, millimetres for the altitude.

use vstd::prelude::*;

verus! {

/// Identity of the device.
#[derive(Debug, Clone)]
pub struct DeviceConfig {
    /// Number of the tower, part of every telemetry topic.
    pub tower_id: u32,
}

/// Credentials of the wireless network.
#[derive(Debug, Clone)]
pub struct WifiConfig {
    /// Name of the network.
    pub ssid: String,
    /// Passphrase of the network.
    pub password: String,
}

/// Where the tower stands.
#[derive(Debug, Clone)]
pub struct LocationConfig {
    /// Latitude in millionths of a degree, north positive.
    pub latitude: i64,
    /// Longitude in millionths of a degree, east positive.
    pub longitude: i64,
    /// Altitude in millimetres.
    pub altitude: i64,
    /// Offset of local time from UTC, in hours.
    pub timezone_offset_hours: i32,
}

/// The whole configuration.
#[derive(Debug, Clone)]
pub struct Config {
    /// Section `device`.
    pub device: DeviceConfig,
    /// Section `wifi`.
    pub wifi: WifiConfig,
    /// Section `location`.
    pub location: LocationConfig,
}

impl Config {
    /// Name of the wireless network.
    pub fn get_wifi_ssid(&self) -> (ssid: &str)
        ensures
            ssid@ == self.wifi.ssid@,
    {
        self.wifi.ssid.as_str()
    }

    /// Passphrase of the wireless network.
    pub fn get_wifi_password(&self) -> (password: &str)
        ensures
            password@ == self.wifi.password@,
    {
        self.wifi.password.as_str()
    }

    /// Latitude in millionths of a degree.
    pub fn get_latitude(&self) -> (latitude: i64)
        ensures
            latitude == self.location.latitude,
    {
        self.location.latitude
    }

    /// Longitude in millionths of a degree.
    pub fn get_longitude(&self) -> (longitude: i64)
        ensures
            longitude == self.location.longitude,
    {
        self.location.longitude
    }

    /// Altitude in millimetres.
    pub fn get_altitude(&self) -> (altitude: i64)
        ensures
            altitude == self.location.altitude,
    {
        self.location.altitude
    }

    /// Number of the tower.
    pub fn get_tower_id(&self) -> (id: u32)
        ensures
            id == self.device.tower_id,
    {
        self.device.tower_id
    }

    /// Offset of local time from UTC, in hours.
    pub fn get_timezone_offset(&self) -> (hours: i32)
        ensures
            hours == self.location.timezone_offset_hours,
    {
        self.location.timezone_offset_hours
    }
}

} // verus!
