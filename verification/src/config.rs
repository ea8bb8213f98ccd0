//! The constants that configure the central.

use vstd::prelude::*;

verus! {

/// 16-bit UUID of the HID service.
pub const HID_SERVICE: u16 = 0x1812;

/// 16-bit UUID of the report characteristic.
pub const REPORT_CHARACTERISTIC: u16 = 0x2a4d;

/// Seconds from the start of one scan window to the start of the next.
pub const SCAN_INTERVAL_SECS: u64 = 3;

/// Seconds that the radio listens within each scan interval.
pub const SCAN_WINDOW_SECS: u64 = 2;

/// Seconds that one scan waits for a keyboard before it gives up.
pub const SCAN_TIMEOUT_SECS: u64 = 15;

/// Seconds between two reads of the report characteristic.
pub const READ_PERIOD_SECS: u64 = 10;

/// Seconds between two touches of the liveness counter.
pub const LIVENESS_PERIOD_SECS: u64 = 5;

/// Link contexts reserved in the host stack: one for the keyboard, one of
/// headroom for the scanning link.
pub const CONNECTIONS_MAX: usize = 2;

/// L2CAP channels reserved in the host stack: signalling, ATT and one
/// connection-oriented channel.
pub const L2CAP_CHANNELS_MAX: usize = 3;

/// Discovered devices that can wait to be picked up.
pub const HANDOFF_DEPTH: usize = 1;

} // verus!
