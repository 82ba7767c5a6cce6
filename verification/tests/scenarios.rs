use hvac::Hvac;
use hvac::HvacService;

// The worked example: heat unconstrained but for a one-minute recovery,
// cool with five-minute floors both ways, fan unconstrained.
#[test]
fn worked_example_heat_then_cool() {
    let mut hvac = Hvac::default()
        .with_heat(None, Some(60))
        .with_cool(Some(300), Some(300))
        .with_fan(None, None);
    let state = hvac.heat();
    assert_eq!(state.service, None);
    assert_eq!(state.fan, false);
    let mut i: u32 = 0;
    while i < 60 {
        let state = hvac.tick(i);
        assert_eq!(state.service, None);
        assert_eq!(state.fan, false);
        i += 1;
    }
    let state = hvac.tick(60);
    assert_eq!(state.service, Some(HvacService::Heat));
    assert_eq!(state.fan, true);
    let state = hvac.cool();
    assert_eq!(state.service, None);
    assert_eq!(state.fan, false);
    let state = hvac.tick(300);
    assert_eq!(state.service, Some(HvacService::Cool));
    assert_eq!(state.fan, true);
}

// Demanding the other service never yields both at once: the handoff
// lands directly on the newly demanded service.
#[test]
fn heat_cool_handoff_is_direct() {
    let mut hvac = Hvac::default()
        .with_heat(None, None)
        .with_cool(None, None)
        .with_fan(None, None);
    let state = hvac.tick(0);
    assert_eq!(state.service, None);
    let state = hvac.heat();
    assert_eq!(state.service, Some(HvacService::Heat));
    assert_eq!(state.fan, true);
    let state = hvac.cool();
    assert_eq!(state.service, Some(HvacService::Cool));
    assert_eq!(state.fan, true);
    let state = hvac.heat();
    assert_eq!(state.service, Some(HvacService::Heat));
    assert_eq!(state.fan, true);
}

// A service whose own constraints are satisfied still waits for the
// fan's recovery before it may start.
#[test]
fn fan_recovery_gates_service_start() {
    let mut hvac = Hvac::default()
        .with_heat(None, None)
        .with_fan(None, Some(50));
    let state = hvac.tick(0);
    assert_eq!(state.service, None);
    let state = hvac.heat();
    assert_eq!(state.service, None);
    assert_eq!(state.fan, false);
    let state = hvac.tick(49);
    assert_eq!(state.service, None);
    assert_eq!(state.fan, false);
    let state = hvac.tick(50);
    assert_eq!(state.service, Some(HvacService::Heat));
    assert_eq!(state.fan, true);
}

// A minimum run time keeps a service on past the removal of its call,
// and releases it exactly once the run time has elapsed.
#[test]
fn min_run_time_holds_service_on() {
    let mut hvac = Hvac::default()
        .with_heat(Some(10), None)
        .with_fan(None, None);
    let state = hvac.tick(0);
    assert_eq!(state.service, None);
    let state = hvac.heat();
    assert_eq!(state.service, Some(HvacService::Heat));
    assert_eq!(state.fan, true);
    let state = hvac.idle();
    assert_eq!(state.service, Some(HvacService::Heat));
    assert_eq!(state.fan, true);
    let state = hvac.tick(9);
    assert_eq!(state.service, Some(HvacService::Heat));
    assert_eq!(state.fan, true);
    let state = hvac.tick(10);
    assert_eq!(state.service, None);
    assert_eq!(state.fan, false);
}

// A service that is still being called keeps running even with its
// minimum run time long satisfied.
#[test]
fn called_service_never_stops() {
    let mut hvac = Hvac::default()
        .with_cool(Some(5), None)
        .with_fan(None, None);
    let state = hvac.tick(0);
    assert_eq!(state.service, None);
    let state = hvac.cool();
    assert_eq!(state.service, Some(HvacService::Cool));
    let state = hvac.tick(1000);
    assert_eq!(state.service, Some(HvacService::Cool));
    assert_eq!(state.fan, true);
    let state = hvac.idle();
    assert_eq!(state.service, None);
}

// Elapsed time at the top of the range is handled like any other value.
#[test]
fn largest_elapsed_value() {
    let mut hvac = Hvac::default().with_heat(None, Some(60));
    let state = hvac.heat();
    assert_eq!(state.service, None);
    let state = hvac.tick(u32::MAX);
    assert_eq!(state.service, Some(HvacService::Heat));
    assert_eq!(state.fan, true);
    let state = hvac.tick(u32::MAX);
    assert_eq!(state.service, Some(HvacService::Heat));
}

// Manual mode forces the fan on the moment its recovery allows, and
// re-enabling automatic mode with nothing active and no fan run floor
// shuts it back off in the same update.
#[test]
fn manual_fan_then_auto_again() {
    let mut hvac = Hvac::default().with_fan(None, Some(30));
    let state = hvac.tick(0);
    assert_eq!(state.fan, false);
    let state = hvac.fan_auto(false);
    assert_eq!(state.fan, false);
    let state = hvac.tick(30);
    assert_eq!(state.fan, true);
    assert_eq!(state.service, None);
    let state = hvac.fan_auto(true);
    assert_eq!(state.fan, false);
    assert_eq!(state.service, None);
}

// Before any tick, a configured recovery must be waited out in full;
// the demanded service reports idle until then.
#[test]
fn recovery_counts_from_zero_before_first_tick() {
    let mut hvac = Hvac::default().with_cool(None, Some(2)).with_fan(None, None);
    let state = hvac.cool();
    assert_eq!(state.service, None);
    assert_eq!(state.fan, false);
    let state = hvac.tick(0);
    assert_eq!(state.service, None);
    let state = hvac.tick(1);
    assert_eq!(state.service, None);
    let state = hvac.tick(2);
    assert_eq!(state.service, Some(HvacService::Cool));
    assert_eq!(state.fan, true);
}
