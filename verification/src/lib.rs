//! Runtime core of an environmental sensor node: capability-based sensor
//! access with per-device graceful degradation, and the state machines
//! that supervise a wireless access point with its DHCP lease service.

pub mod board;
pub mod ip;
pub mod network;
pub mod sensor;
pub mod ssid;
pub mod units;
