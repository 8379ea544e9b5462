//! Background scheduled scanning: the user's preference and the decision,
//! on each tick of the background timer, whether to scan now.
//!
//! A background scan is an ordinary scan with an empty list of one-time
//! approvals (see [`crate::scan::ScanSession::start`]), so a check set to
//! "ask every time" is never run by it.

use vstd::prelude::*;

verus! {

/// How often the background timer wakes up to look at the preference.
pub const POLL_INTERVAL_SECS: u64 = 900;

#[derive(Debug, Clone, Copy, PartialEq, Eq, Structural)]
pub enum ScanFrequency {
    Every6Hours,
    Daily,
    Weekly,
}

/// What `std::time::Duration::from_secs(secs)` gives.
pub uninterp spec fn std_duration_from_secs(secs: u64) -> std::time::Duration;

/// Calls `std::time::Duration::from_secs`. The result is named by
/// `std_duration_from_secs`; nothing else is stated of it.
#[verifier::external_body]
fn duration_from_secs(secs: u64) -> (d: std::time::Duration)
    ensures
        d == std_duration_from_secs(secs),
{
    std::time::Duration::from_secs(secs)
}

impl ScanFrequency {
    /// The length of the period in seconds.
    pub open spec fn seconds(self) -> nat {
        match self {
            ScanFrequency::Every6Hours => 6 * 3600,
            ScanFrequency::Daily => 24 * 3600,
            ScanFrequency::Weekly => 24 * 7 * 3600,
        }
    }

    /// The length of the period in seconds.
    pub fn to_secs(self) -> (s: u64)
        ensures
            s == self.seconds(),
    {
        let hours: u64 = match self {
            ScanFrequency::Every6Hours => 6,
            ScanFrequency::Daily => 24,
            ScanFrequency::Weekly => 24 * 7,
        };
        hours * 3600
    }

    /// The length of the period.
    pub fn to_duration(self) -> (d: std::time::Duration)
        ensures
            d == std_duration_from_secs(self.seconds() as u64),
    {
        duration_from_secs(self.to_secs())
    }
}

#[derive(Debug, Clone, Copy, PartialEq, Eq, Structural)]
pub struct BackgroundScanPreference {
    pub enabled: bool,
    pub frequency: ScanFrequency,
}

impl Default for BackgroundScanPreference {
    /// Off by default - this is an opt-in feature.
    fn default() -> (p: BackgroundScanPreference)
        ensures
            !p.enabled,
            p.frequency == ScanFrequency::Daily,
    {
        BackgroundScanPreference { enabled: false, frequency: ScanFrequency::Daily }
    }
}

/// On a tick of the background timer: scan now exactly when background
/// scanning is enabled and at least one period of the chosen frequency has
/// passed since the last background scan (or since the timer started).
pub fn should_run(preference: BackgroundScanPreference, elapsed_secs: u64) -> (r: bool)
    ensures
        r == (preference.enabled && elapsed_secs >= preference.frequency.seconds()),
{
    preference.enabled && elapsed_secs >= preference.frequency.to_secs()
}

} // verus!
