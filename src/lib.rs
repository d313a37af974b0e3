//! Durable credential record and station-mode connection supervision for a
//! transit display device.
//!
//! The crate holds the logic of the device: the fixed-layout configuration
//! record with its checksum ([`config`]), the connection supervisor's
//! decisions ([`supervisor`]), the boot and network bring-up sequence
//! ([`bringup`]) and the transit API's value types ([`types`], [`url`]).
//! Radio, flash and network access are left to the caller, who performs what
//! the library decides and hands the results back in.

pub mod bringup;
mod checksum;
pub mod config;
pub mod supervisor;
pub mod types;
pub mod url;

pub use bringup::{resolve_config, BootConfig, Bringup, BringupPhase, BringupStep, Ipv4Address};
pub use checksum::crc32_of;
pub use config::{config_offset, Config, ConfigError, CONFIG_SZ};
pub use supervisor::{backoff_delay, Command, ConnectionState, RadioEvent, Step, Supervisor};
pub use types::{Eta, Line, LineKind, NextTrain, NextTrainsResponse, Station, StationName, TrainCar};
pub use url::{build_next_trains_url, API, USER_AGENT};
