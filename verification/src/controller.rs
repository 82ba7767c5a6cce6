//! The HVAC controller: data model, transition specification, and the
//! verified executable state machine.

use vstd::prelude::*;

use crate::timing::spec_wait;
use crate::timing::wait_seconds;
use crate::timing::TimingUnit;

verus! {

/// The two mutually exclusive conditioning services.
#[derive(Clone, Copy, Debug, PartialEq, Eq, PartialOrd, Ord, Hash)]
pub enum HvacService {
    /// heating
    Heat,
    /// cooling
    Cool,
}

/// Externally visible snapshot, produced fresh by every operation.
#[derive(Clone, Copy, Debug, PartialEq, Eq, PartialOrd, Ord, Hash)]
pub struct HvacState {
    /// active service, if any
    pub service: Option<HvacService>,
    /// whether the fan is running
    pub fan: bool,
}

/// The controller: one timing unit per service plus the fan, the demand
/// flags, the fan mode, and the last elapsed-seconds value seen.
#[derive(Clone, Copy, Debug, PartialEq, Eq, PartialOrd, Ord, Hash)]
pub struct Hvac {
    /// the service currently energized, if any
    pub active_service: Option<HvacService>,
    /// whether the fan is currently running
    pub fan_active: bool,
    /// last elapsed-seconds value supplied by the caller
    pub last_update: Option<u32>,
    /// whether heat is being demanded
    pub heat_calling: bool,
    /// whether cool is being demanded
    pub cool_calling: bool,
    /// true: fan follows the active service; false: fan forced on once eligible
    pub fan_auto: bool,
    /// timing bookkeeping for the heat service
    pub heat: TimingUnit,
    /// timing bookkeeping for the cool service
    pub cool: TimingUnit,
    /// timing bookkeeping for the fan
    pub fan: TimingUnit,
}

/// A unit's recorded change times never lie in the future of the
/// controller's elapsed time (and can only exist once time was seen).
pub open spec fn stamp_wf(stamp: Option<u32>, last_update: Option<u32>) -> bool {
    match stamp {
        None => true,
        Some(t) => match last_update {
            None => false,
            Some(u) => t <= u,
        },
    }
}

/// Well-formedness of one timing unit relative to the controller clock.
pub open spec fn unit_wf(u: TimingUnit, last_update: Option<u32>) -> bool {
    &&& stamp_wf(u.last_start_seconds, last_update)
    &&& stamp_wf(u.last_stop_seconds, last_update)
}

/// A timing unit with its constraints replaced and the rest unchanged.
pub open spec fn configured(u: TimingUnit, run: Option<u32>, recover: Option<u32>) -> TimingUnit {
    TimingUnit { min_run_seconds: run, min_recover_seconds: recover, ..u }
}

/// Step 1 of the transition: refresh every unit's remaining wait from
/// the current elapsed time — against the run constraint and last start
/// if the unit is presently on, else against the recovery constraint
/// and last stop.
pub open spec fn refreshed(h: Hvac) -> Hvac {
    Hvac {
        heat: TimingUnit {
            wait_seconds: if h.active_service == Some(HvacService::Heat) {
                spec_wait(h.last_update, h.heat.min_run_seconds, h.heat.last_start_seconds)
            } else {
                spec_wait(h.last_update, h.heat.min_recover_seconds, h.heat.last_stop_seconds)
            },
            ..h.heat
        },
        cool: TimingUnit {
            wait_seconds: if h.active_service == Some(HvacService::Cool) {
                spec_wait(h.last_update, h.cool.min_run_seconds, h.cool.last_start_seconds)
            } else {
                spec_wait(h.last_update, h.cool.min_recover_seconds, h.cool.last_stop_seconds)
            },
            ..h.cool
        },
        fan: TimingUnit {
            wait_seconds: if h.fan_active {
                spec_wait(h.last_update, h.fan.min_run_seconds, h.fan.last_start_seconds)
            } else {
                spec_wait(h.last_update, h.fan.min_recover_seconds, h.fan.last_stop_seconds)
            },
            ..h.fan
        },
        ..h
    }
}

/// An active service that is no longer called and whose run constraint
/// is satisfied stops now; the demanded other service, if itself
/// eligible, starts in the same update (a direct handoff); failing
/// that, an eligible fan in automatic mode stops with the service.
pub open spec fn heat_stopped(h: Hvac) -> Hvac {
    let stopped = Hvac {
        active_service: None,
        heat: TimingUnit { last_stop_seconds: h.last_update, ..h.heat },
        ..h
    };
    if h.cool_calling && h.cool.wait_seconds is None {
        Hvac {
            active_service: Some(HvacService::Cool),
            cool: TimingUnit { last_start_seconds: h.last_update, ..h.cool },
            ..stopped
        }
    } else if h.fan_auto && h.fan.wait_seconds is None {
        Hvac {
            fan_active: false,
            fan: TimingUnit { last_stop_seconds: h.last_update, ..h.fan },
            ..stopped
        }
    } else {
        stopped
    }
}

/// Symmetric to [`heat_stopped`], with the roles of the services swapped.
pub open spec fn cool_stopped(h: Hvac) -> Hvac {
    let stopped = Hvac {
        active_service: None,
        cool: TimingUnit { last_stop_seconds: h.last_update, ..h.cool },
        ..h
    };
    if h.heat_calling && h.heat.wait_seconds is None {
        Hvac {
            active_service: Some(HvacService::Heat),
            heat: TimingUnit { last_start_seconds: h.last_update, ..h.heat },
            ..stopped
        }
    } else if h.fan_auto && h.fan.wait_seconds is None {
        Hvac {
            fan_active: false,
            fan: TimingUnit { last_stop_seconds: h.last_update, ..h.fan },
            ..stopped
        }
    } else {
        stopped
    }
}

/// An eligible, demanded service may start only once the fan is
/// available: a stopped, eligible fan starts first, and the service
/// starts in the same update only if the fan then runs. A fan still in
/// recovery gates the service start entirely.
pub open spec fn started_with_fan(h: Hvac, s: HvacService) -> Hvac {
    let with_fan = if !h.fan_active && h.fan.wait_seconds is None {
        Hvac {
            fan_active: true,
            fan: TimingUnit { last_start_seconds: h.last_update, ..h.fan },
            ..h
        }
    } else {
        h
    };
    if with_fan.fan_active {
        match s {
            HvacService::Heat => Hvac {
                active_service: Some(HvacService::Heat),
                heat: TimingUnit { last_start_seconds: h.last_update, ..h.heat },
                ..with_fan
            },
            HvacService::Cool => Hvac {
                active_service: Some(HvacService::Cool),
                cool: TimingUnit { last_start_seconds: h.last_update, ..h.cool },
                ..with_fan
            },
        }
    } else {
        with_fan
    }
}

/// Steps 2 and 3 of the transition: stop or hand off the active
/// service, or — with none active — start the first demanded, eligible
/// service, heat taking priority over cool.
pub open spec fn service_transition(h: Hvac) -> Hvac {
    match h.active_service {
        Some(HvacService::Heat) => if !h.heat_calling && h.heat.wait_seconds is None {
            heat_stopped(h)
        } else {
            h
        },
        Some(HvacService::Cool) => if !h.cool_calling && h.cool.wait_seconds is None {
            cool_stopped(h)
        } else {
            h
        },
        None => if h.heat_calling && h.heat.wait_seconds is None {
            started_with_fan(h, HvacService::Heat)
        } else if h.cool_calling && h.cool.wait_seconds is None {
            started_with_fan(h, HvacService::Cool)
        } else {
            h
        },
    }
}

/// Step 4 of the transition: in automatic mode an eligible fan stops
/// once no service is active; in manual mode an eligible fan is forced
/// on regardless of service state.
pub open spec fn fan_governed(h: Hvac) -> Hvac {
    if h.fan_active && h.fan_auto {
        if h.active_service is None && h.fan.wait_seconds is None {
            Hvac { fan_active: false, ..h }
        } else {
            h
        }
    } else if !h.fan_auto && h.fan.wait_seconds is None {
        Hvac { fan_active: true, ..h }
    } else {
        h
    }
}

/// One whole recompute: refresh the waits, transition the services,
/// govern the fan. Every public operation is this step applied to the
/// controller with its input recorded.
pub open spec fn spec_step(h: Hvac) -> Hvac {
    fan_governed(service_transition(refreshed(h)))
}

/// The externally visible part of a controller state.
pub open spec fn spec_output(h: Hvac) -> HvacState {
    HvacState { service: h.active_service, fan: h.fan_active }
}

/// The controller with a new elapsed-seconds value recorded.
pub open spec fn ticked(h: Hvac, current_seconds: u32) -> Hvac {
    Hvac { last_update: Some(current_seconds), ..h }
}

/// The controller with heat demanded and cool released.
pub open spec fn heat_called(h: Hvac) -> Hvac {
    Hvac { heat_calling: true, cool_calling: false, ..h }
}

/// The controller with cool demanded and heat released.
pub open spec fn cool_called(h: Hvac) -> Hvac {
    Hvac { heat_calling: false, cool_calling: true, ..h }
}

/// The controller with both demands released.
pub open spec fn idled(h: Hvac) -> Hvac {
    Hvac { heat_calling: false, cool_calling: false, ..h }
}

/// The controller with the fan mode replaced.
pub open spec fn fan_mode_set(h: Hvac, fan_auto: bool) -> Hvac {
    Hvac { fan_auto, ..h }
}

impl Hvac {
    /// Well-formedness: every recorded change time is no later than the
    /// elapsed time seen, and a service is only ever active with the
    /// fan running.
    pub open spec fn wf(self) -> bool {
        &&& unit_wf(self.heat, self.last_update)
        &&& unit_wf(self.cool, self.last_update)
        &&& unit_wf(self.fan, self.last_update)
        &&& self.active_service is Some ==> self.fan_active
    }

    /// The freshly constructed controller: idle, fan off and automatic,
    /// no elapsed time seen, and one-minute constraints on heat and the
    /// fan with five-minute constraints on cool.
    pub open spec fn initial() -> Hvac {
        Hvac {
            active_service: None,
            fan_active: false,
            last_update: None,
            heat_calling: false,
            cool_calling: false,
            fan_auto: true,
            heat: TimingUnit {
                min_run_seconds: Some(60u32),
                min_recover_seconds: Some(60u32),
                wait_seconds: Some(60u32),
                last_start_seconds: None,
                last_stop_seconds: None,
            },
            cool: TimingUnit {
                min_run_seconds: Some(300u32),
                min_recover_seconds: Some(300u32),
                wait_seconds: Some(60u32),
                last_start_seconds: None,
                last_stop_seconds: None,
            },
            fan: TimingUnit {
                min_run_seconds: Some(60u32),
                min_recover_seconds: Some(60u32),
                wait_seconds: Some(60u32),
                last_start_seconds: None,
                last_stop_seconds: None,
            },
        }
    }
}

impl Default for Hvac {
    /// Builds the default controller, [`Hvac::initial`].
    fn default() -> (r: Self)
        ensures
            r == Hvac::initial(),
            r.wf(),
    {
        Hvac {
            active_service: None,
            fan_active: false,
            last_update: None,
            heat_calling: false,
            cool_calling: false,
            fan_auto: true,
            heat: TimingUnit {
                min_run_seconds: Some(60),
                min_recover_seconds: Some(60),
                wait_seconds: Some(60),
                last_start_seconds: None,
                last_stop_seconds: None,
            },
            cool: TimingUnit {
                min_run_seconds: Some(300),
                min_recover_seconds: Some(300),
                wait_seconds: Some(60),
                last_start_seconds: None,
                last_stop_seconds: None,
            },
            fan: TimingUnit {
                min_run_seconds: Some(60),
                min_recover_seconds: Some(60),
                wait_seconds: Some(60),
                last_start_seconds: None,
                last_stop_seconds: None,
            },
        }
    }
}

impl Hvac {
    /// Replaces the heat run and recovery constraints; construction-time
    /// configuration, nothing else changes.
    pub fn with_heat(self, min_run_seconds: Option<u32>, min_recover_seconds: Option<u32>) -> (r: Self)
        ensures
            r == (Hvac { heat: configured(self.heat, min_run_seconds, min_recover_seconds), ..self }),
            self.wf() ==> r.wf(),
    {
        let mut next = self;
        next.heat.min_run_seconds = min_run_seconds;
        next.heat.min_recover_seconds = min_recover_seconds;
        next
    }

    /// Replaces the cool run and recovery constraints; construction-time
    /// configuration, nothing else changes.
    pub fn with_cool(self, min_run_seconds: Option<u32>, min_recover_seconds: Option<u32>) -> (r: Self)
        ensures
            r == (Hvac { cool: configured(self.cool, min_run_seconds, min_recover_seconds), ..self }),
            self.wf() ==> r.wf(),
    {
        let mut next = self;
        next.cool.min_run_seconds = min_run_seconds;
        next.cool.min_recover_seconds = min_recover_seconds;
        next
    }

    /// Replaces the fan run and recovery constraints; construction-time
    /// configuration, nothing else changes.
    pub fn with_fan(self, min_run_seconds: Option<u32>, min_recover_seconds: Option<u32>) -> (r: Self)
        ensures
            r == (Hvac { fan: configured(self.fan, min_run_seconds, min_recover_seconds), ..self }),
            self.wf() ==> r.wf(),
    {
        let mut next = self;
        next.fan.min_run_seconds = min_run_seconds;
        next.fan.min_recover_seconds = min_recover_seconds;
        next
    }

    /// The externally visible snapshot of the current state.
    fn state(&self) -> (r: HvacState)
        ensures
            r == spec_output(*self),
    {
        HvacState { service: self.active_service, fan: self.fan_active }
    }

    /// Applies one whole recompute, [`spec_step`], to the controller.
    fn compute(&mut self) -> (r: HvacState)
        requires
            old(self).wf(),
        ensures
            *final(self) == spec_step(*old(self)),
            final(self).wf(),
            r == spec_output(*final(self)),
    {
        let heat_active = match self.active_service {
            Some(HvacService::Heat) => true,
            _ => false,
        };
        self.heat.wait_seconds = if heat_active {
            wait_seconds(self.last_update, self.heat.min_run_seconds, self.heat.last_start_seconds)
        } else {
            wait_seconds(self.last_update, self.heat.min_recover_seconds, self.heat.last_stop_seconds)
        };

        let cool_active = match self.active_service {
            Some(HvacService::Cool) => true,
            _ => false,
        };
        self.cool.wait_seconds = if cool_active {
            wait_seconds(self.last_update, self.cool.min_run_seconds, self.cool.last_start_seconds)
        } else {
            wait_seconds(self.last_update, self.cool.min_recover_seconds, self.cool.last_stop_seconds)
        };

        self.fan.wait_seconds = if self.fan_active {
            wait_seconds(self.last_update, self.fan.min_run_seconds, self.fan.last_start_seconds)
        } else {
            wait_seconds(self.last_update, self.fan.min_recover_seconds, self.fan.last_stop_seconds)
        };

        match self.active_service {
            Some(HvacService::Heat) => {
                if !self.heat_calling && self.heat.wait_seconds.is_none() {
                    self.heat.last_stop_seconds = self.last_update;
                    self.active_service = None;
                    if self.cool_calling && self.cool.wait_seconds.is_none() {
                        self.cool.last_start_seconds = self.last_update;
                        self.active_service = Some(HvacService::Cool);
                    } else if self.fan_auto && self.fan.wait_seconds.is_none() {
                        self.fan.last_stop_seconds = self.last_update;
                        self.fan_active = false;
                    }
                }
            }
            Some(HvacService::Cool) => {
                if !self.cool_calling && self.cool.wait_seconds.is_none() {
                    self.cool.last_stop_seconds = self.last_update;
                    self.active_service = None;
                    if self.heat_calling && self.heat.wait_seconds.is_none() {
                        self.heat.last_start_seconds = self.last_update;
                        self.active_service = Some(HvacService::Heat);
                    } else if self.fan_auto && self.fan.wait_seconds.is_none() {
                        self.fan.last_stop_seconds = self.last_update;
                        self.fan_active = false;
                    }
                }
            }
            None => {
                if self.heat_calling && self.heat.wait_seconds.is_none() {
                    if !self.fan_active && self.fan.wait_seconds.is_none() {
                        self.fan.last_start_seconds = self.last_update;
                        self.fan_active = true;
                    }
                    if self.fan_active {
                        self.heat.last_start_seconds = self.last_update;
                        self.active_service = Some(HvacService::Heat);
                    }
                } else if self.cool_calling && self.cool.wait_seconds.is_none() {
                    if !self.fan_active && self.fan.wait_seconds.is_none() {
                        self.fan.last_start_seconds = self.last_update;
                        self.fan_active = true;
                    }
                    if self.fan_active {
                        self.cool.last_start_seconds = self.last_update;
                        self.active_service = Some(HvacService::Cool);
                    }
                }
            }
        }

        if self.fan_active && self.fan_auto {
            if self.active_service.is_none() && self.fan.wait_seconds.is_none() {
                self.fan_active = false;
            }
        } else if !self.fan_auto && self.fan.wait_seconds.is_none() {
            self.fan_active = true;
        }

        self.state()
    }

    /// Records a new elapsed-seconds value, then recomputes.
    ///
    /// Elapsed time must not decrease across calls: that monotonicity is
    /// this operation's one precondition.
    pub fn tick(&mut self, current_seconds: u32) -> (r: HvacState)
        requires
            old(self).wf(),
            old(self).last_update matches Some(u) ==> u <= current_seconds,
        ensures
            *final(self) == spec_step(ticked(*old(self), current_seconds)),
            final(self).wf(),
            r == spec_output(*final(self)),
    {
        self.last_update = Some(current_seconds);
        self.compute()
    }

    /// Demands heat (releasing any call for cool), then recomputes.
    pub fn heat(&mut self) -> (r: HvacState)
        requires
            old(self).wf(),
        ensures
            *final(self) == spec_step(heat_called(*old(self))),
            final(self).wf(),
            r == spec_output(*final(self)),
    {
        self.heat_calling = true;
        self.cool_calling = false;
        self.compute()
    }

    /// Demands cool (releasing any call for heat), then recomputes.
    pub fn cool(&mut self) -> (r: HvacState)
        requires
            old(self).wf(),
        ensures
            *final(self) == spec_step(cool_called(*old(self))),
            final(self).wf(),
            r == spec_output(*final(self)),
    {
        self.heat_calling = false;
        self.cool_calling = true;
        self.compute()
    }

    /// Sets the fan mode — automatic (fan follows the active service) or
    /// manual (fan forced on once eligible) — then recomputes.
    pub fn fan_auto(&mut self, fan_auto: bool) -> (r: HvacState)
        requires
            old(self).wf(),
        ensures
            *final(self) == spec_step(fan_mode_set(*old(self), fan_auto)),
            final(self).wf(),
            r == spec_output(*final(self)),
    {
        self.fan_auto = fan_auto;
        self.compute()
    }

    /// Releases both demands, then recomputes.
    pub fn idle(&mut self) -> (r: HvacState)
        requires
            old(self).wf(),
        ensures
            *final(self) == spec_step(idled(*old(self))),
            final(self).wf(),
            r == spec_output(*final(self)),
    {
        self.heat_calling = false;
        self.cool_calling = false;
        self.compute()
    }
}

} // verus!
