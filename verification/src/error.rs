use vstd::prelude::*;

verus! {

/// Every way in which the control nucleus can fail. Each one is fatal to the
/// thread that meets it.
#[derive(Clone, Copy, Debug, PartialEq, Eq, Structural)]
pub enum Error {
    /// A drained set held no trigger that the state machine can classify.
    UnknownTriggers,
    /// A telemetry payload of the given length, which is not four bytes.
    MalformedPayload(usize),
    /// A notification without any bit set.
    EmptyNotification,
    /// A report was asked for while the network was down.
    NetworkDown,
    /// The backend answered a report with the given status, outside 200..=299.
    RequestFailed(u16),
}

} // verus!
