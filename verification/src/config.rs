//! Device configuration, fixed at startup.
use vstd::prelude::*;

verus! {

/// Largest accepted window size, in samples per window.
///
/// Keeping the window below this cap guarantees that a window's running sum
/// of 32-bit samples always fits in a `u64`.
pub const MAX_WINDOW: u64 = 0x1000_0000;

/// Immutable device configuration: network credentials, broker endpoint,
/// and the two tunable knobs of the measurement pipeline (window size and
/// smoothing factor).
///
/// The smoothing factor is the exact rational `smoothing_num / smoothing_den`
/// in `(0, 1]`; a low factor means more smoothing (the newest reading carries
/// little weight).
pub struct Config {
    pub wifi_ssid: String,
    pub wifi_psk: String,
    pub mqtt_url: String,
    pub mqtt_topic: String,
    /// Number of raw samples that make one complete window.
    pub window_size: u64,
    /// Numerator of the smoothing factor.
    pub smoothing_num: u64,
    /// Denominator of the smoothing factor.
    pub smoothing_den: u64,
}

impl Config {
    /// A configuration is well formed when the window holds at least one
    /// sample (and stays under the overflow cap) and the smoothing factor
    /// is a proportion in `(0, 1]`.
    pub open spec fn wf(self) -> bool {
        &&& 1 <= self.window_size <= MAX_WINDOW
        &&& 0 < self.smoothing_num <= self.smoothing_den
    }

    /// Whether the numeric knobs are acceptable, checked at runtime.
    pub fn valid(&self) -> (r: bool)
        ensures
            r == self.wf(),
    {
        1 <= self.window_size && self.window_size <= MAX_WINDOW
            && 0 < self.smoothing_num && self.smoothing_num <= self.smoothing_den
    }
}

} // verus!
