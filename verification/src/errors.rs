use vstd::prelude::*;

verus! {

/// Failure kinds of the connection lifecycle.
///
/// `MalformedIdentity` is the only fatal kind: it marks a configuration
/// defect found before the supervisor starts. Every other kind is
/// recoverable; the supervisor answers it with a full-pipeline restart
/// after a backoff.
#[derive(Debug, PartialEq)]
pub enum BleError {
    /// A target UUID string is not in hyphenated UUID text form.
    MalformedIdentity,
    /// Adapter enumeration returned an empty set.
    NoAdapter,
    /// A full scan found no peripheral advertising the target service.
    NoPeripheral,
    /// The connected peripheral offers no characteristic with this UUID.
    NoCharacteristic(u128),
    /// An adapter-layer operation failed; carries the transport's message.
    TransportError(String),
    /// The notification session ended: idle timeout, stream closure, or a
    /// transport error during the loop. A normal reconnect trigger.
    SessionEnded,
}

impl BleError {
    /// A short diagnostic label for log lines.
    pub fn describe(&self) -> String {
        match self {
            BleError::MalformedIdentity => String::from_str("malformed target identity"),
            BleError::NoAdapter => String::from_str("no Bluetooth adapter found"),
            BleError::NoPeripheral => String::from_str("peripheral not found"),
            BleError::NoCharacteristic(_) => String::from_str("characteristic not found"),
            BleError::TransportError(m) => m.clone(),
            BleError::SessionEnded => String::from_str("session ended"),
        }
    }
}

} // verus!
