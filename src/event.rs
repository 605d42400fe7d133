//! What the acquisition loop does with each data-ready interrupt.
//!
//! Each die raises its own falling-edge interrupt when a sample is ready;
//! the loop waits for whichever comes first and reads that die. A
//! gyroscope sample drives the orientation estimator; an accelerometer
//! sample only refreshes the cached gravity reference.
use vstd::prelude::*;
use crate::bus::Sensor;
use crate::frame::{sample_frame, sample_command};

verus! {

/// The interrupt that fired first.
#[derive(Clone, Copy, Debug, PartialEq, Eq, Structural)]
pub enum WaitInt {
    Gyro,
    Acc,
}

pub open spec fn sensor_of(ev: WaitInt) -> Sensor {
    match ev {
        WaitInt::Gyro => Sensor::Gyro,
        WaitInt::Acc => Sensor::Acc,
    }
}

/// The die to read after `ev` and the frame that reads its sample.
pub fn event_request(ev: WaitInt) -> (r: (Sensor, Vec<u8>))
    ensures
        r.0 == sensor_of(ev),
        r.1@ == sample_frame(sensor_of(ev)),
{
    let s = match ev {
        WaitInt::Gyro => Sensor::Gyro,
        WaitInt::Acc => Sensor::Acc,
    };
    (s, sample_command(s))
}

/// Whether the sample read after `ev` is fed to the orientation estimator:
/// only rate samples are.
pub fn drives_estimator(ev: WaitInt) -> (r: bool)
    ensures
        r == (ev == WaitInt::Gyro),
{
    match ev {
        WaitInt::Gyro => true,
        WaitInt::Acc => false,
    }
}

} // verus!
