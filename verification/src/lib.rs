//! Boot-time services of a small network device.
//!
//! - [`filesystem`]: the block driver between a filesystem and NOR flash.
//! - [`config`]: the configuration document, its decoding from TOML, and the
//!   start-up path that loads it from flash or falls back to compiled-in
//!   values.
//! - [`https`] and [`net`]: the record of what an HTTPS client owns and in
//!   which order, the certificate it trusts, and the NTP arithmetic.
//! - [`wifi`]: the order of work that keeps the station associated.
//!
//! Flash, filesystem, radio and sockets stay with the caller: the library
//! decides, the caller acts and reports back.

pub mod config;
pub mod filesystem;
pub mod https;
pub mod net;
pub mod wifi;
