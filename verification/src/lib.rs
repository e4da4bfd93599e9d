//! The logic of a monitor for a Tesla Wall Connector: resolving an abbreviated
//! command, rendering the records that the device reports, and the state
//! machine of the live view. Every function states what it returns in its
//! contract, and Verus proves it.
//!
//! Nothing here reads or writes: a caller fetches and decodes the records,
//! hands them over as plain values, and prints the lines that come back.

pub mod abbreviation;
pub mod chars;
pub mod command;
pub mod duration;
pub mod endpoint;
pub mod lifetime;
pub mod refresh;
pub mod ssid;
pub mod text;
pub mod version;
pub mod vitals;
pub mod wifi;
