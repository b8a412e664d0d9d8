//! Actuator logic: how one received command is turned into a hardware
//! write and an acknowledgement.
//!
//! The actuator consumes commands strictly in arrival order. For a
//! `SetFrequency` it clamps the frequency into the table's safe range,
//! resolves the ceiling voltage, and performs the two-step write (value
//! record, then commit marker, each flushed) outside this crate. On a
//! failed write it falls back to the table's lowest operating point and
//! reports `Failed`; on success it reports `Applied`.

use vstd::prelude::*;
use crate::table::{SafeOperatingPointTable, spec_resolve_voltage};
use crate::governor::{GovCommand, SetterAck};

verus! {

/// What the actuator must do for one received command.
#[derive(Clone, Copy, PartialEq, Eq, Structural, Debug)]
pub enum ActuatorAction {
    /// Perform the ordered two-step hardware write of this operating
    /// point.
    Write { freq: u16, voltage: u16 },
    /// Leave the consumer loop.
    Stop,
}

/// `v` clamped into `[lo, hi]`.
pub open spec fn spec_clamp_u16(v: u16, lo: u16, hi: u16) -> u16 {
    if v < lo {
        lo
    } else if v > hi {
        hi
    } else {
        v
    }
}

/// Resolve one command: `SetFrequency` becomes a write of the clamped
/// frequency at its ceiling voltage — never a voltage proven only for
/// a lower frequency — and `Shutdown` stops the consumer.
pub fn handle_command(table: &SafeOperatingPointTable, cmd: &GovCommand) -> (a: ActuatorAction)
    requires
        table.wf(),
    ensures
        cmd matches GovCommand::SetFrequency(f) ==> a == (ActuatorAction::Write {
            freq: spec_clamp_u16(*f, table.spec_min_freq(), table.spec_max_freq()),
            voltage: spec_resolve_voltage(
                table@,
                spec_clamp_u16(*f, table.spec_min_freq(), table.spec_max_freq()),
            ),
        }),
        cmd is Shutdown ==> a == ActuatorAction::Stop,
{
    match cmd {
        GovCommand::SetFrequency(f) => {
            let min = table.min_freq();
            let max = table.max_freq();
            let clamped = if *f < min {
                min
            } else if *f > max {
                max
            } else {
                *f
            };
            let voltage = table.resolve_voltage(clamped);
            ActuatorAction::Write { freq: clamped, voltage }
        },
        GovCommand::Shutdown => ActuatorAction::Stop,
    }
}

/// The acknowledgement owed for one write attempt: `Applied` with the
/// measured latency when the write succeeded, `Failed` carrying the
/// error text when it did not.
pub fn ack_for_outcome(freq: u16, voltage: u16, latency_us: u64, error: Option<String>) -> (ack:
    SetterAck)
    ensures
        error is None ==> ack == (SetterAck::Applied { freq, voltage, latency_us }),
        error matches Some(e) ==> ack == (SetterAck::Failed { freq, error: e }),
{
    match error {
        None => SetterAck::Applied { freq, voltage, latency_us },
        Some(e) => SetterAck::Failed { freq, error: e },
    }
}

} // verus!
