//! Proved laws of the controller: the guarantees that hold of every
//! reachable state and every update, stated over the transition
//! specification in [`crate::controller`].

use vstd::prelude::*;

use crate::controller::cool_called;
use crate::controller::fan_mode_set;
use crate::controller::heat_called;
use crate::controller::refreshed;
use crate::controller::spec_output;
use crate::controller::spec_step;
use crate::controller::ticked;
use crate::controller::Hvac;
use crate::controller::HvacService;
use crate::controller::HvacState;
use crate::timing::spec_wait;
use crate::timing::TimingUnit;

verus! {

/// The service opposite to `s`.
pub open spec fn other_service(s: HvacService) -> HvacService {
    match s {
        HvacService::Heat => HvacService::Cool,
        HvacService::Cool => HvacService::Heat,
    }
}

/// The timing unit that belongs to service `s`.
pub open spec fn unit_of(h: Hvac, s: HvacService) -> TimingUnit {
    match s {
        HvacService::Heat => h.heat,
        HvacService::Cool => h.cool,
    }
}

/// Whether service `s` is being demanded.
pub open spec fn calling_of(h: Hvac, s: HvacService) -> bool {
    match s {
        HvacService::Heat => h.heat_calling,
        HvacService::Cool => h.cool_calling,
    }
}

/// Mutual exclusion: heat and cool are never simultaneously active — in
/// any state at all, the active service is one value, so it cannot be
/// both services at once, and no update can produce a state outside
/// that representation.
pub proof fn lemma_mutual_exclusion(h: Hvac)
    ensures
        !(h.active_service == Some(HvacService::Heat) && h.active_service == Some(
            HvacService::Cool,
        )),
        !(spec_step(h).active_service == Some(HvacService::Heat) && spec_step(h).active_service
            == Some(HvacService::Cool)),
{
}

/// Every update preserves well-formedness and leaves the clock alone:
/// recorded change times never pass the elapsed time, and a service is
/// only ever active with the fan running.
pub proof fn lemma_step_preserves_wf(h: Hvac)
    requires
        h.wf(),
    ensures
        spec_step(h).wf(),
        spec_step(h).last_update == h.last_update,
{
}

/// A controller still waiting out a service's recovery constraint of
/// `r` seconds after demanding that service, with no prior run or stop
/// of anything, the fan off and in automatic mode, and the other
/// service not demanded.
pub open spec fn awaiting_recovery(h: Hvac, s: HvacService, r: u32) -> bool {
    &&& h.active_service is None
    &&& !h.fan_active
    &&& h.fan_auto
    &&& calling_of(h, s)
    &&& !calling_of(h, other_service(s))
    &&& unit_of(h, s).min_recover_seconds == Some(r)
    &&& unit_of(h, s).last_stop_seconds is None
}

/// Recovery enforcement, one update: any tick strictly before the
/// recovery time leaves the demanded service off and the fan off, and
/// changes nothing that the eventual start depends on.
pub proof fn lemma_recovery_tick(h: Hvac, s: HvacService, r: u32, t: u32)
    requires
        awaiting_recovery(h, s, r),
        t < r,
    ensures
        awaiting_recovery(spec_step(ticked(h, t)), s, r),
        spec_step(ticked(h, t)).fan.min_recover_seconds == h.fan.min_recover_seconds,
        spec_step(ticked(h, t)).fan.last_stop_seconds == h.fan.last_stop_seconds,
        spec_output(spec_step(ticked(h, t))) == (HvacState { service: None, fan: false }),
{
}

/// Recovery enforcement, the releasing update: once the elapsed time
/// reaches the recovery time — and the fan's own recovery is satisfied
/// then too — the demanded service starts, and the fan with it.
pub proof fn lemma_recovery_start(h: Hvac, s: HvacService, r: u32)
    requires
        awaiting_recovery(h, s, r),
        spec_wait(Some(r), h.fan.min_recover_seconds, h.fan.last_stop_seconds) is None,
    ensures
        spec_output(spec_step(ticked(h, r))) == (HvacState { service: Some(s), fan: true }),
{
}

/// The state after ticking through elapsed seconds `0, 1, .., n - 1`,
/// one update per second.
pub open spec fn after_ticks(h: Hvac, n: nat) -> Hvac
    decreases n,
{
    if n == 0 {
        h
    } else {
        spec_step(ticked(after_ticks(h, (n - 1) as nat), (n - 1) as u32))
    }
}

/// Recovery enforcement over a whole run of ticks: ticking through
/// seconds `0..r` one by one keeps the controller waiting, with
/// everything the eventual start depends on unchanged.
pub proof fn lemma_recovery_holds_through(h: Hvac, s: HvacService, r: u32, n: nat)
    requires
        awaiting_recovery(h, s, r),
        n <= r,
    ensures
        awaiting_recovery(after_ticks(h, n), s, r),
        after_ticks(h, n).fan.min_recover_seconds == h.fan.min_recover_seconds,
        after_ticks(h, n).fan.last_stop_seconds == h.fan.last_stop_seconds,
    decreases n,
{
    if n > 0 {
        lemma_recovery_holds_through(h, s, r, (n - 1) as nat);
        lemma_recovery_tick(after_ticks(h, (n - 1) as nat), s, r, (n - 1) as u32);
    }
}

/// Recovery enforcement, whole: with a recovery constraint of `r` on
/// the demanded service and the fan's recovery satisfied by then,
/// ticking through seconds `0, 1, .., n` yields no active service while
/// `n < r`, and exactly at `n == r` yields the service active with the
/// fan running.
pub proof fn lemma_recovery_enforcement(h: Hvac, s: HvacService, r: u32, n: nat)
    requires
        awaiting_recovery(h, s, r),
        spec_wait(Some(r), h.fan.min_recover_seconds, h.fan.last_stop_seconds) is None,
        n <= r,
    ensures
        n < r ==> spec_output(after_ticks(h, n + 1)) == (HvacState {
            service: None,
            fan: false,
        }),
        n == r ==> spec_output(after_ticks(h, n + 1)) == (HvacState {
            service: Some(s),
            fan: true,
        }),
{
    lemma_recovery_holds_through(h, s, r, n);
    if n < r {
        lemma_recovery_tick(after_ticks(h, n), s, r, n as u32);
    } else {
        lemma_recovery_start(after_ticks(h, n), s, r);
    }
}

/// The active service `s`, no longer demanded, with a minimum run time
/// of `r` seconds counted from its recorded start `t0`.
pub open spec fn running_uncalled(h: Hvac, s: HvacService, r: u32, t0: u32) -> bool {
    &&& h.active_service == Some(s)
    &&& !calling_of(h, s)
    &&& unit_of(h, s).min_run_seconds == Some(r)
    &&& unit_of(h, s).last_start_seconds == Some(t0)
}

/// Run-time enforcement, holding on: before `r` seconds have passed
/// since its start, a service keeps running even though its demand was
/// removed, and nothing its eventual stop depends on changes.
pub proof fn lemma_min_run_keeps_service(h: Hvac, s: HvacService, r: u32, t0: u32, u: u32)
    requires
        h.wf(),
        running_uncalled(h, s, r, t0),
        h.last_update == Some(u),
        u < t0 + r,
    ensures
        spec_step(h).active_service == Some(s),
        spec_step(h).fan_active,
        running_uncalled(spec_step(h), s, r, t0),
{
}

/// Run-time enforcement, release: once `r` seconds have passed since
/// its start, an undemanded service stops in that same update, records
/// its stop time, and leaves the field to the other service — the
/// controller never ends the update with `s` still active.
pub proof fn lemma_min_run_stops_service(h: Hvac, s: HvacService, r: u32, t0: u32, u: u32)
    requires
        h.wf(),
        running_uncalled(h, s, r, t0),
        h.last_update == Some(u),
        t0 + r <= u,
    ensures
        spec_step(h).active_service != Some(s),
        unit_of(spec_step(h), s).last_stop_seconds == Some(u),
        !calling_of(h, other_service(s)) ==> spec_step(h).active_service is None,
{
}

/// A service that is still being demanded never stops, whatever its
/// constraints say.
pub proof fn lemma_service_keeps_while_called(h: Hvac, s: HvacService)
    requires
        h.active_service == Some(s),
        calling_of(h, s),
    ensures
        spec_step(h).active_service == Some(s),
{
}

/// Fan follows service: an update that ends with a service active ends
/// with the fan running — in particular, a service transitioning to
/// active turns the fan on in that same update.
pub proof fn lemma_fan_follows_service(h: Hvac)
    requires
        h.wf(),
    ensures
        spec_step(h).active_service is Some ==> spec_step(h).fan_active,
{
}

/// Fan follows service, automatic stop: with the fan in automatic mode,
/// nothing active and nothing demanded, an update that finds the fan's
/// wait satisfied ends with the fan off.
pub proof fn lemma_fan_auto_stops_when_idle(h: Hvac)
    requires
        h.fan_auto,
        h.active_service is None,
        !h.heat_calling,
        !h.cool_calling,
        refreshed(h).fan.wait_seconds is None,
    ensures
        !spec_step(h).fan_active,
{
}

/// Manual fan forcing: with automatic mode disabled, an update that
/// finds the fan's wait satisfied ends with the fan running, regardless
/// of service state.
pub proof fn lemma_manual_fan_forced_on(h: Hvac)
    requires
        !h.fan_auto,
        refreshed(h).fan.wait_seconds is None,
    ensures
        spec_step(h).fan_active,
{
}

/// Manual fan forcing, back to automatic: re-enabling automatic mode
/// with no service active or demanded and no minimum run time on the
/// fan turns the fan off in that same update.
pub proof fn lemma_auto_reenable_stops_fan(h: Hvac)
    requires
        h.active_service is None,
        !h.heat_calling,
        !h.cool_calling,
        h.fan.min_run_seconds is None,
    ensures
        !spec_step(fan_mode_set(h, true)).fan_active,
{
}

/// Heat-to-cool handoff: demanding cool while heat runs with no run
/// floor on heat and no recovery floor on cool moves the controller
/// from heat-active to cool-active in that one update, the fan running
/// throughout — no intermediate idle snapshot exists.
pub proof fn lemma_heat_to_cool_handoff(h: Hvac)
    requires
        h.wf(),
        h.active_service == Some(HvacService::Heat),
        h.heat.min_run_seconds is None,
        h.cool.min_recover_seconds is None,
    ensures
        spec_step(cool_called(h)).active_service == Some(HvacService::Cool),
        spec_step(cool_called(h)).fan_active,
{
}

/// Cool-to-heat handoff, symmetric to [`lemma_heat_to_cool_handoff`].
pub proof fn lemma_cool_to_heat_handoff(h: Hvac)
    requires
        h.wf(),
        h.active_service == Some(HvacService::Cool),
        h.cool.min_run_seconds is None,
        h.heat.min_recover_seconds is None,
    ensures
        spec_step(heat_called(h)).active_service == Some(HvacService::Heat),
        spec_step(heat_called(h)).fan_active,
{
}

} // verus!
