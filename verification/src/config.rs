use vstd::prelude::*;

verus! {

/// Tunable timing parameters for the connection lifecycle.
///
/// Durations are carried as whole milliseconds; the driver that executes
/// the supervisor's commands turns them into real sleeps and timeouts.
#[derive(Clone, Copy, Debug, PartialEq, Eq, Structural)]
pub struct BleConfig {
    /// How many times a scan lists the discovered peripherals before giving up.
    pub scan_retries: u32,
    /// Pause between two scan polls, in milliseconds.
    pub scan_interval_ms: u64,
    /// How long the notification session waits for the next packet, in milliseconds.
    pub notify_timeout_ms: u64,
    /// Pause before the supervisor restarts the pipeline after a failure, in milliseconds.
    pub reconnect_backoff_ms: u64,
}

/// The default timing parameters: 30 scan polls one second apart, a ten
/// second notification idle timeout, and a five second reconnect backoff.
pub open spec fn default_config() -> BleConfig {
    BleConfig {
        scan_retries: 30,
        scan_interval_ms: 1000,
        notify_timeout_ms: 10000,
        reconnect_backoff_ms: 5000,
    }
}

impl Default for BleConfig {
    fn default() -> (c: Self)
        ensures
            c == default_config(),
    {
        BleConfig {
            scan_retries: 30,
            scan_interval_ms: 1000,
            notify_timeout_ms: 10000,
            reconnect_backoff_ms: 5000,
        }
    }
}

} // verus!
