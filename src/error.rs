//! Failures of the bridge.
use vstd::prelude::*;

verus! {

/// Why a session ended, or why the bridge cannot start.
#[derive(Clone, Copy, Debug, PartialEq, Eq, Structural)]
pub enum SessionError {
    /// No Bluetooth adapter is present: the bridge cannot run at all.
    AdapterAbsent,
    /// Connecting to the peripheral failed.
    ConnectFailed,
    /// Discovering the services of the connected peripheral failed.
    ServiceDiscoveryFailed,
    /// The connected peripheral has no heart-rate measurement characteristic.
    CharacteristicNotFound,
    /// Subscribing to the characteristic, or opening its notifications, failed.
    SubscribeFailed,
    /// Encoding or sending an outbound message failed.
    PublishFailed,
    /// The notification stream ended: the peripheral went away.
    StreamEnded,
}

impl SessionError {
    /// Whether this ending is the normal one, not a failure.
    pub fn is_clean(&self) -> (r: bool)
        ensures
            r == (*self == SessionError::StreamEnded),
    {
        match self {
            SessionError::StreamEnded => true,
            _ => false,
        }
    }
}

/// Picks the adapter to use among those the system enumerates: the first one,
/// or `AdapterAbsent` when there is none.
pub fn select_adapter(adapter_count: usize) -> (r: Result<usize, SessionError>)
    ensures
        adapter_count > 0 <==> r == Ok::<usize, SessionError>(0),
        adapter_count == 0 <==> r == Err::<usize, SessionError>(SessionError::AdapterAbsent),
{
    if adapter_count == 0 {
        Err(SessionError::AdapterAbsent)
    } else {
        Ok(0)
    }
}

} // verus!
