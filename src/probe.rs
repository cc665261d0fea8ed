use vstd::prelude::*;

verus! {

/// Where the health prober stands between two ticks of its schedule.
#[derive(Clone, Copy, Debug, PartialEq, Eq, Structural)]
pub enum ProbeState {
    Idle,
    Probing,
}

/// The value of the up/down gauge after a connection test.
pub open spec fn gauge_for(ok: bool) -> i64 {
    if ok {
        1
    } else {
        0
    }
}

/// The recurring connectivity check of the upstream server, as a state
/// machine: a tick starts a probe, its result sets the gauge and ends it.
pub struct HealthProber {
    pub state: ProbeState,
    pub gauge: Option<i64>,
}

impl HealthProber {
    /// A prober that has not probed yet.
    pub fn new() -> (r: HealthProber)
        ensures
            r.state == ProbeState::Idle,
            r.gauge is None,
    {
        HealthProber { state: ProbeState::Idle, gauge: None }
    }

    /// A tick of the schedule: starts a probe unless one is running. Returns
    /// whether the connection test should be made now.
    pub fn tick(&mut self) -> (start: bool)
        ensures
            start == (old(self).state == ProbeState::Idle),
            final(self).state == ProbeState::Probing,
            final(self).gauge == old(self).gauge,
    {
        let start = match self.state {
            ProbeState::Idle => true,
            ProbeState::Probing => false,
        };
        self.state = ProbeState::Probing;
        start
    }

    /// The result of the connection test: the gauge reads 1 after a success and
    /// 0 after a failure, and the prober waits for the next tick.
    pub fn finish(&mut self, result: &Result<(), String>) -> (g: i64)
        ensures
            g == gauge_for(result is Ok),
            final(self).gauge == Some(g),
            final(self).state == ProbeState::Idle,
    {
        let g: i64 = match result {
            Ok(()) => 1,
            Err(_) => 0,
        };
        self.gauge = Some(g);
        self.state = ProbeState::Idle;
        g
    }
}

} // verus!
