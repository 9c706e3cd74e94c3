//! The record that the controller and the monitor share.

use core::convert::Infallible;
use vstd::prelude::*;
use crate::status::ConnectionStatus;

verus! {

/// The largest port a UDP endpoint can have.
pub const MAX_PORT: u32 = 65535;

/// Parsed payloads. The monitor forwards raw bytes, so nothing is parsed
/// yet and the type has no value: its one variant cannot be built.
#[derive(Debug)]
pub enum SensorData {
    Unparsed(Infallible),
}

impl Clone for SensorData {
    fn clone(&self) -> (copy: Self)
        ensures
            copy == *self,
    {
        match self {
            SensorData::Unparsed(never) => SensorData::Unparsed(*never),
        }
    }
}

/// Where the peer and its camera stream are found.
#[derive(Clone, Debug)]
pub struct Settings {
    /// The peer's IPv4 address, most significant octet first.
    pub robot_address: [u8; 4],
    pub robot_port: u32,
    /// Handed on as it is; nothing here reads it.
    pub camera_url: String,
}

impl Settings {
    /// The port fits a UDP endpoint.
    pub open spec fn wf(&self) -> bool {
        self.robot_port <= MAX_PORT
    }
}

/// The state of the application: the status of the link, the last parsed
/// payload and the settings.
///
/// The whole record is meant to sit behind one lock, so that no reader sees
/// a status that belongs to another attempt than the rest.
#[derive(Clone, Debug)]
pub struct StateManager {
    pub connection: ConnectionStatus,
    pub sensor_data: Option<SensorData>,
    pub settings: Settings,
}

pub type AppState = StateManager;

impl StateManager {
    /// The state at application start: no link, no payload, and the peer at
    /// `10.66.66.5:6969` with its camera at `rtsp://localhost:8554`.
    pub open spec fn initial(&self) -> bool {
        &&& self.connection == ConnectionStatus::Disconnected
        &&& self.sensor_data is None
        &&& self.settings.robot_address@ == seq![10u8, 66u8, 66u8, 5u8]
        &&& self.settings.robot_port == 6969
        &&& self.settings.camera_url@ == "rtsp://localhost:8554"@
    }

    pub fn new() -> (state: Self)
        ensures
            state.initial(),
            state.settings.wf(),
    {
        let robot_address: [u8; 4] = [10, 66, 66, 5];
        StateManager {
            connection: ConnectionStatus::Disconnected,
            sensor_data: None,
            settings: Settings {
                robot_address,
                robot_port: 6969,
                camera_url: String::from_str("rtsp://localhost:8554"),
            },
        }
    }
}

} // verus!
