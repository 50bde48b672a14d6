//! The decisions of a daemon that manages the Bluetooth connections of Mitch
//! sensors, and of the command line client that talks to it.

pub mod actor_laws;
pub mod actor_steps;
pub mod address;
pub mod btle_actor;
pub mod btle_daemon;
pub mod client;
pub mod connection;
pub mod daemon;
pub mod device_actor;
pub mod device_map;
pub mod mitch;
pub mod protocol;
pub mod request;
pub mod status;
pub mod text;
