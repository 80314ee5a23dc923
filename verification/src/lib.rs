//! Driver logic for the GY-521 inertial sensor board: register map, configuration
//! encoding, burst decoding, the sampling gate and a bounded sample log.

pub mod gy521;
pub mod utilites;
