//! The decision of the serial acquisition front-end.
//!
//! With a configured interface the driver opens the port at the configured
//! baud rate and reads line-delimited records; without one it lists the
//! available ports as guidance and the process ends normally.  Opening,
//! reading and listing live with the driver; this module decides between
//! the two.

use vstd::prelude::*;

verus! {

/// How the serial front-end starts.
#[derive(Debug)]
pub enum SerialPlan {
    /// Open this interface at this baud rate and read records from it.
    Open { interface: String, baud: u32 },
    /// No interface was configured: list the available ports and end
    /// normally — guidance, not an error.
    ListPorts,
}

/// Decides how the serial front-end starts, from the configured interface
/// and baud rate.
pub fn plan_serial_session(interface: Option<String>, baud: u32) -> (p: SerialPlan)
    ensures
        (match p {
            SerialPlan::Open { interface: i, baud: b } => interface matches Some(s) && s == i
                && b == baud,
            SerialPlan::ListPorts => interface is None,
        }),
{
    match interface {
        Some(s) => SerialPlan::Open { interface: s, baud },
        None => SerialPlan::ListPorts,
    }
}

} // verus!
