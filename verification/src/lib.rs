//! Geotagging core for flight-simulator screenshots.
//!
//! The library holds the verified logic of a small watcher that pairs newly
//! created screenshot files with the simulator's last-known position:
//!
//! - [`position`]: the position sample and its default value;
//! - [`store`]: the last-write-wins snapshot store and its shared,
//!   lock-protected form;
//! - [`telemetry`]: the supervisor state machine that keeps the connection
//!   to the live position feed alive across failures;
//! - [`correlate`]: the rules that turn a filesystem event into a sidecar
//!   record carrying the current snapshot.
//!
//! Everything that talks to the outside world (the simulator connection,
//! the filesystem watcher, writing sidecar files) lives in the surrounding
//! binary, which hands this library plain values and carries out the
//! actions it decides on.

pub mod correlate;
pub mod position;
pub mod store;
pub mod telemetry;
