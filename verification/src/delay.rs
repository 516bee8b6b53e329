//! Delay-path policy of the node's timing provider.
//!
//! Every blocking wait in the node goes through one provider. Waits shorter
//! than a 10 ms threshold must busy-wait, because sensor protocol timing
//! (illuminance power-up, the gas sensor's measurement cadence) needs
//! sub-millisecond precision that a scheduler tick cannot give; waits of 10 ms
//! or more must yield to the scheduler, because busy-waiting at that scale
//! would starve the other periodic task. The functions here decide the path;
//! the surrounding binary performs the actual wait with the platform's
//! busy-wait and scheduler-wait primitives.

use vstd::prelude::*;

verus! {

/// Busy-wait threshold in milliseconds: a wait shorter than this must not
/// yield to the scheduler.
pub const BUSY_WAIT_THRESHOLD_MS: u16 = 10;

/// Busy-wait threshold in microseconds; the same bound as
/// [`BUSY_WAIT_THRESHOLD_MS`], in the finer unit.
pub const BUSY_WAIT_THRESHOLD_US: u32 = 10_000;

/// How a blocking wait is carried out.
#[derive(Clone, Copy, Debug, PartialEq, Eq, Structural)]
pub enum WaitPath {
    /// Tight, non-yielding busy wait; sub-millisecond accuracy.
    Busy,
    /// Wait that yields to the underlying scheduler.
    Yield,
}

/// The node's single delay provider. It selects, for each requested duration,
/// the wait path that the timing policy prescribes; the caller then blocks for
/// at least the requested duration on that path.
#[derive(Clone, Copy, Debug)]
pub struct GeneralPurposeDelay;

impl GeneralPurposeDelay {
    /// Selects the wait path for a duration given in microseconds.
    pub fn path_us(us: u32) -> (path: WaitPath)
        ensures
            path == WaitPath::Busy <==> us < BUSY_WAIT_THRESHOLD_US,
    {
        if us < BUSY_WAIT_THRESHOLD_US {
            WaitPath::Busy
        } else {
            WaitPath::Yield
        }
    }

    /// Selects the wait path for a duration given in milliseconds.
    pub fn path_ms(ms: u16) -> (path: WaitPath)
        ensures
            path == WaitPath::Busy <==> ms < BUSY_WAIT_THRESHOLD_MS,
    {
        if ms < BUSY_WAIT_THRESHOLD_MS {
            WaitPath::Busy
        } else {
            WaitPath::Yield
        }
    }
}

/// The two path selectors agree: a duration expressed in milliseconds takes
/// the busy path exactly when the same duration in microseconds would, for
/// every duration that the microsecond unit can carry.
pub proof fn lemma_paths_consistent(ms: u16)
    requires
        ms * 1000 <= u32::MAX,
    ensures
        (ms < BUSY_WAIT_THRESHOLD_MS) <==> (ms * 1000 < BUSY_WAIT_THRESHOLD_US),
{
}

} // verus!
