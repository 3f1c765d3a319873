//! The race between the two protocol probes of one address, and the
//! reachability gate in front of it.
use vstd::prelude::*;
use crate::types::{GatewayDetection, GatewayType};
use crate::probe::ProbeError;

verus! {

/// Seconds allowed to the reachability check, and to the race from its start.
pub const PROBE_TIMEOUT_SECS: u64 = 3;

/// Where a race stands.
#[derive(Clone, Copy, Debug)]
pub enum RaceState {
    /// Waiting; each flag says whether that probe is still running.
    Racing { g1_running: bool, mg3_running: bool },
    /// A probe succeeded first.
    Won(GatewayDetection),
    /// The deadline passed with no success.
    TimedOut,
}

/// What happens to a race.
#[derive(Clone, Copy, Debug)]
pub enum RaceEvent {
    /// The probe of the given kind finished with this result.
    ProbeFinished(GatewayType, Result<GatewayDetection, ProbeError>),
    /// The shared deadline passed.
    DeadlineElapsed,
}

/// The probes that the driver must cancel after a step.
#[derive(Clone, Copy, Debug, PartialEq, Eq, Structural)]
pub struct RaceAction {
    pub cancel_g1: bool,
    pub cancel_mg3: bool,
}

/// Two probes raced under one deadline: the first success wins, a failure
/// only stops that probe, and the deadline ends the race otherwise.
#[derive(Clone, Copy, Debug)]
pub struct ProbeRace {
    pub state: RaceState,
}

pub open spec fn no_cancel() -> RaceAction {
    RaceAction { cancel_g1: false, cancel_mg3: false }
}

/// The state after `e` happens in state `s`.
pub open spec fn race_next(s: RaceState, e: RaceEvent) -> RaceState {
    match s {
        RaceState::Racing { g1_running, mg3_running } => match e {
            RaceEvent::DeadlineElapsed => RaceState::TimedOut,
            RaceEvent::ProbeFinished(g, Ok(d)) => RaceState::Won(d),
            RaceEvent::ProbeFinished(g, Err(_)) => RaceState::Racing {
                g1_running: g1_running && g != GatewayType::G1,
                mg3_running: mg3_running && g != GatewayType::MG3,
            },
        },
        _ => s,
    }
}

/// The cancellations owed when `e` happens in state `s`: every probe still
/// running once the race has ended, but the one that just finished.
pub open spec fn race_action(s: RaceState, e: RaceEvent) -> RaceAction {
    match s {
        RaceState::Racing { g1_running, mg3_running } => match e {
            RaceEvent::DeadlineElapsed => RaceAction { cancel_g1: g1_running, cancel_mg3: mg3_running },
            RaceEvent::ProbeFinished(g, Ok(_)) => RaceAction {
                cancel_g1: g1_running && g != GatewayType::G1,
                cancel_mg3: mg3_running && g != GatewayType::MG3,
            },
            RaceEvent::ProbeFinished(_, Err(_)) => no_cancel(),
        },
        _ => no_cancel(),
    }
}

impl ProbeRace {
    /// Both probes start together.
    pub fn start() -> (r: ProbeRace)
        ensures
            r.state == (RaceState::Racing { g1_running: true, mg3_running: true }),
    {
        ProbeRace { state: RaceState::Racing { g1_running: true, mg3_running: true } }
    }

    /// Takes one event and says which probes to cancel.
    pub fn step(&mut self, e: RaceEvent) -> (a: RaceAction)
        ensures
            final(self).state == race_next(old(self).state, e),
            a == race_action(old(self).state, e),
    {
        match self.state {
            RaceState::Racing { g1_running, mg3_running } => match e {
                RaceEvent::DeadlineElapsed => {
                    self.state = RaceState::TimedOut;
                    RaceAction { cancel_g1: g1_running, cancel_mg3: mg3_running }
                },
                RaceEvent::ProbeFinished(g, Ok(d)) => {
                    self.state = RaceState::Won(d);
                    RaceAction {
                        cancel_g1: g1_running && g != GatewayType::G1,
                        cancel_mg3: mg3_running && g != GatewayType::MG3,
                    }
                },
                RaceEvent::ProbeFinished(g, Err(_)) => {
                    self.state = RaceState::Racing {
                        g1_running: g1_running && g != GatewayType::G1,
                        mg3_running: mg3_running && g != GatewayType::MG3,
                    };
                    RaceAction { cancel_g1: false, cancel_mg3: false }
                },
            },
            _ => RaceAction { cancel_g1: false, cancel_mg3: false },
        }
    }

    /// Whether the race has ended.
    pub fn is_finished(&self) -> (r: bool)
        ensures
            r == !(self.state is Racing),
    {
        match self.state {
            RaceState::Racing { .. } => false,
            _ => true,
        }
    }

    /// The winning detection; `None` while racing and after a timeout.
    pub fn outcome(&self) -> (r: Option<GatewayDetection>)
        ensures
            self.state is Won ==> r == Some(self.state->Won_0),
            !(self.state is Won) ==> r is None,
    {
        match self.state {
            RaceState::Won(d) => Some(d),
            _ => None,
        }
    }
}

/// The race that follows the reachability check: one only when the address
/// accepted the connection.
pub fn after_reachability(reachable: bool) -> (r: Option<ProbeRace>)
    ensures
        reachable ==> r == Some(
            ProbeRace { state: RaceState::Racing { g1_running: true, mg3_running: true } },
        ),
        !reachable ==> r is None,
{
    if reachable {
        Some(ProbeRace::start())
    } else {
        None
    }
}

/// A failure never ends a race: after it the race is still on, and nothing
/// is cancelled.
pub proof fn lemma_failure_suppressed(s: RaceState, g: GatewayType, err: ProbeError)
    requires
        s is Racing,
    ensures
        race_next(s, RaceEvent::ProbeFinished(g, Err(err))) is Racing,
        race_action(s, RaceEvent::ProbeFinished(g, Err(err))) == no_cancel(),
{
}

/// Once a race has ended, no event changes its outcome or cancels anything.
pub proof fn lemma_end_is_final(s: RaceState, e: RaceEvent)
    requires
        !(s is Racing),
    ensures
        race_next(s, e) == s,
        race_action(s, e) == no_cancel(),
{
}

/// After the deadline the race has timed out unless a probe had already won,
/// and every probe still running is cancelled.
pub proof fn lemma_deadline_ends_race(s: RaceState)
    requires
        s is Racing,
    ensures
        race_next(s, RaceEvent::DeadlineElapsed) is TimedOut,
        race_action(s, RaceEvent::DeadlineElapsed) == (RaceAction {
            cancel_g1: s->g1_running,
            cancel_mg3: s->mg3_running,
        }),
{
}

} // verus!
