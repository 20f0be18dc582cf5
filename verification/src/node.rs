//! Decisions of bring-up and of the sensor task.

use crate::stts22h::after;
use crate::stts22h::BusError;
use crate::stts22h::Event;
use crate::stts22h::Phase;
use crate::stts22h::Step;
use crate::stts22h::Temperature;
use crate::stts22h::STTS22H;
use vstd::prelude::*;

verus! {

/// Clock of the serial bus, in kilohertz.
pub const BUS_FREQUENCY_KHZ: u32 = 100;

/// Time that the sensor is given after power-up before the first
/// transaction, in milliseconds.
pub const SETTLE_MS: u64 = 100;

/// A wiring or hardware fault. None can be recovered from at run time: the
/// firmware stops with a diagnostic.
#[derive(Clone, Copy, PartialEq, Eq, Debug)]
pub enum Fault {
    /// The sensor could not be configured.
    InitFailed,
    /// The identity register could not be read at bring-up.
    IdentityUnreadable,
    /// The identity register holds `found`, which is not the STTS22H's.
    IdentityMismatch { found: u8 },
}

/// Judges the outcome of `init` at bring-up: a bus error is a fault.
pub fn verify_init(outcome: Result<(), BusError>) -> (verdict: Result<(), Fault>)
    ensures
        verdict == match outcome {
            Ok(()) => Ok::<(), Fault>(()),
            Err(_) => Err(Fault::InitFailed),
        },
{
    match outcome {
        Ok(()) => Ok(()),
        Err(_) => Err(Fault::InitFailed),
    }
}

/// Judges the read of the identity register at bring-up: anything but the
/// byte `0xA0` is a fault, and so is a bus error.
pub fn verify_identity(outcome: Result<u8, BusError>) -> (verdict: Result<(), Fault>)
    ensures
        verdict == match outcome {
            Ok(id) => if id == STTS22H::WHOAMI {
                Ok::<(), Fault>(())
            } else {
                Err(Fault::IdentityMismatch { found: id })
            },
            Err(_) => Err(Fault::IdentityUnreadable),
        },
{
    match outcome {
        Ok(id) => {
            if id == STTS22H::WHOAMI {
                Ok(())
            } else {
                Err(Fault::IdentityMismatch { found: id })
            }
        },
        Err(_) => Err(Fault::IdentityUnreadable),
    }
}

/// The verdict of the sensor task on a read of the identity register.
pub open spec fn rechecked(outcome: Result<u8, BusError>) -> Result<(), Fault> {
    match outcome {
        Ok(id) => if id == STTS22H::WHOAMI {
            Ok(())
        } else {
            Err(Fault::IdentityMismatch { found: id })
        },
        Err(_) => Ok(()),
    }
}

/// Judges a read of the identity register in the sensor task, between two
/// acquisitions. A byte other than `0xA0` is a fault, as at bring-up. A bus
/// error is not: the task passes it over and goes on with the next
/// acquisition.
pub fn recheck_identity(outcome: Result<u8, BusError>) -> (verdict: Result<(), Fault>)
    ensures
        verdict == rechecked(outcome),
{
    match outcome {
        Ok(id) => {
            if id == STTS22H::WHOAMI {
                Ok(())
            } else {
                Err(Fault::IdentityMismatch { found: id })
            }
        },
        Err(_) => Ok(()),
    }
}

/// What the sensor task publishes of an acquisition.
pub open spec fn published(reading: Result<Temperature, BusError>) -> Option<Temperature> {
    match reading {
        Ok(temperature) => if temperature.spec_in_range() {
            Some(temperature)
        } else {
            None
        },
        Err(_) => None,
    }
}

/// What the sensor task publishes of one acquisition: the sample, unless the
/// bus failed or the sample lies outside the range that the sensor is
/// specified for. Either is passed over, and the task goes on with the next
/// acquisition.
pub fn publishable(reading: Result<Temperature, BusError>) -> (sample: Option<Temperature>)
    ensures
        sample == published(reading),
{
    match reading {
        Ok(temperature) => {
            if temperature.in_range() {
                Some(temperature)
            } else {
                None
            }
        },
        Err(_) => None,
    }
}

/// No bus error ends the sensor task: a failed acquisition publishes
/// nothing, a failed read of the identity register is no fault, and the
/// driver is at rest after a bus error in whatever phase it arrived.
pub proof fn lemma_sensor_task_survives_bus_errors(phase: Phase, poll_interval_ms: u64)
    ensures
        published(Err(BusError)) is None,
        rechecked(Err(BusError)) is Ok,
        after(phase, poll_interval_ms, Event::BusError) == (Phase::Idle, Step::Done(Err(BusError))),
{
}

} // verus!
