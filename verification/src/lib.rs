//! Verified core of a BLE-controlled shoe-tightening actuator.
//!
//! The crate holds the decisions of the firmware as plain functions with
//! contracts: how a raw battery sample becomes a percentage, how a tightening
//! command becomes a motor duty, what the GATT dispatcher does with each
//! event, what the advertisement carries and how the peripheral moves between
//! advertising and serving a connection.

pub mod advert;
pub mod battery;
pub mod command;
pub mod control;
pub mod gatt;
pub mod laws;
pub mod link;

pub use advert::{advertisement, EncodingError};
pub use battery::{battery_percent, read_battery, BatteryCell, Calibration};
pub use command::CommandChannel;
pub use control::{duty, ControlLoop};
pub use gatt::{Characteristic, Dispatcher, GattEvent, HandleTable, Lifecycle, Outcome, Reply};
pub use link::{ConnectionManager, LinkAction, LinkEvent, LinkState};
