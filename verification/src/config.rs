use vstd::prelude::*;

verus! {

/// Configuration consumed by the lifecycle core.
///
/// Durations are whole seconds; zero means "unlimited" for the two
/// timeouts and "none" for the minimum online time.
pub struct Config {
    /// Command line that launches the backing server process.
    pub command: String,

    /// Working directory for the backing process, if configured.
    pub directory: Option<String>,

    /// Restart the backing process automatically after it crashed while online.
    pub wake_on_crash: bool,

    /// Seconds the process may spend starting before it must be killed; 0 = unlimited.
    pub start_timeout: u32,

    /// Seconds the process may spend stopping before it must be killed; 0 = unlimited.
    pub stop_timeout: u32,

    /// Seconds the server is kept online right after it started; 0 = none.
    pub min_online_time: u32,

    /// Seconds of idleness after which the server should go to sleep.
    pub sleep_after: u32,

    /// Whether the remote administrative (RCON) channel may be used to stop.
    pub rcon_enabled: bool,

    /// Port of the remote administrative channel.
    pub rcon_port: u16,

    /// Credential of the remote administrative channel.
    pub rcon_password: String,
}

/// A configured duration in milliseconds.
pub open spec fn millis(secs: u32) -> int {
    secs * 1000
}

/// The deadline `now + secs` still fits the clock's range.
pub open spec fn deadline_fits(now: u64, secs: u32) -> bool {
    now + millis(secs) <= u64::MAX
}

/// Every deadline this configuration can derive from `now` fits the
/// clock's range.  A machine limit on the caller's clock value, nothing
/// more: with a millisecond clock it holds for hundreds of millions of
/// years past the epoch.
pub open spec fn fits_all(c: Config, now: u64) -> bool {
    &&& deadline_fits(now, c.start_timeout)
    &&& deadline_fits(now, c.stop_timeout)
    &&& deadline_fits(now, c.min_online_time)
}

} // verus!
