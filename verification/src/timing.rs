//! Run/recovery eligibility for one timed unit (heat, cool, or the fan).

use vstd::prelude::*;

verus! {

/// Timing bookkeeping for one unit: its configured minimum run and
/// recovery durations, the wait remaining toward whichever constraint
/// currently applies, and the timestamps of its last start and stop.
///
/// `None` for a minimum means the unit is unconstrained in that
/// direction; `None` for `wait_seconds` means the current constraint is
/// already satisfied (the unit is eligible now).
#[derive(Clone, Copy, Debug, PartialEq, Eq, PartialOrd, Ord, Hash)]
pub struct TimingUnit {
    /// minimum seconds the unit must keep running once started
    pub min_run_seconds: Option<u32>,
    /// minimum seconds the unit must rest once stopped
    pub min_recover_seconds: Option<u32>,
    /// seconds still to wait before the applicable constraint is met
    pub wait_seconds: Option<u32>,
    /// elapsed-seconds value at which the unit last started
    pub last_start_seconds: Option<u32>,
    /// elapsed-seconds value at which the unit last stopped
    pub last_stop_seconds: Option<u32>,
}

/// The timestamp a constraint is measured from: the recorded change
/// time, or an implicit origin of zero when none was recorded.
pub open spec fn origin_of(last_change: Option<u32>) -> u32 {
    match last_change {
        None => 0u32,
        Some(c) => c,
    }
}

/// Remaining wait toward a minimum-duration constraint.
///
/// With no elapsed time seen yet, the whole configured minimum (if any)
/// remains. With elapsed time `u`, the unit has aged `u - origin` since
/// its last change; it must wait the shortfall if that is still below
/// the minimum, and is eligible (`None`) otherwise.
pub open spec fn spec_wait(
    last_update: Option<u32>,
    min_seconds: Option<u32>,
    last_change: Option<u32>,
) -> Option<u32> {
    match last_update {
        None => min_seconds,
        Some(u) => match min_seconds {
            None => None,
            Some(m) => if u - origin_of(last_change) < m {
                Some((m - (u - origin_of(last_change))) as u32)
            } else {
                None
            },
        },
    }
}

/// The recorded change time does not lie in the future of the elapsed
/// time: exactly what keeps the age subtraction from underflowing.
pub open spec fn change_no_later(last_change: Option<u32>, last_update: Option<u32>) -> bool {
    match last_change {
        None => true,
        Some(c) => match last_update {
            None => true,
            Some(u) => c <= u,
        },
    }
}

/// Computes the remaining wait toward a constraint of `min_seconds`
/// measured from `last_change`, at elapsed time `last_update`.
pub(crate) fn wait_seconds(
    last_update: Option<u32>,
    min_seconds: Option<u32>,
    last_change: Option<u32>,
) -> (r: Option<u32>)
    requires
        change_no_later(last_change, last_update),
    ensures
        r == spec_wait(last_update, min_seconds, last_change),
{
    if let Some(u) = last_update {
        if let Some(m) = min_seconds {
            let delta: u32 = u - last_change.unwrap_or(0);
            if delta < m {
                Some(m - delta)
            } else {
                None
            }
        } else {
            None
        }
    } else {
        min_seconds
    }
}

} // verus!
