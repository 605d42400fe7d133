//! Verified core of a flight-controller IMU driver: bus framing and
//! chip-select discipline for a two-die accelerometer/gyroscope chip, sample
//! decoding, the power-on configuration handshake, the status LED and
//! buzzer logic that run beside it, and the one-shot guard of bring-up.
pub mod bus;
pub mod frame;
pub mod sequencer;
pub mod event;
pub mod led;
pub mod buzzer;
pub mod boot;
