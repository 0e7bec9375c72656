use vstd::prelude::*;

verus! {

/// How long and how often the readiness probe tries to connect.
#[derive(Clone, Copy, Debug, PartialEq, Eq, Structural)]
pub struct ProbePolicy {
    /// Pause between two failed attempts.
    pub interval_ms: u64,
    /// Time after which no further attempt is made.
    pub deadline_ms: u64,
}

impl ProbePolicy {
    pub open spec fn wf(self) -> bool {
        self.interval_ms > 0
    }
}

/// What the probe does after one connection attempt.
#[derive(Clone, Copy, Debug, PartialEq, Eq, Structural)]
pub enum ProbeStep {
    /// The endpoint accepted the connection.
    Up,
    /// Sleep this many milliseconds, then try again.
    RetryAfter(u64),
    /// The deadline has passed with no success.
    GiveUp,
}

pub open spec fn min(a: int, b: int) -> int {
    if a <= b {
        a
    } else {
        b
    }
}

/// The decision after an attempt made `elapsed` milliseconds into the wait.
pub open spec fn next_step(p: ProbePolicy, elapsed: int, connected: bool) -> ProbeStep {
    if connected {
        ProbeStep::Up
    } else if elapsed >= p.deadline_ms {
        ProbeStep::GiveUp
    } else {
        ProbeStep::RetryAfter(min(p.interval_ms as int, p.deadline_ms - elapsed) as u64)
    }
}

/// Decides what follows a connection attempt. A failed attempt is never an
/// error: it is retried until the deadline, and the last attempt falls on the
/// deadline itself.
pub fn probe_step(p: &ProbePolicy, elapsed_ms: u64, connected: bool) -> (r: ProbeStep)
    ensures
        r == next_step(*p, elapsed_ms as int, connected),
{
    if connected {
        ProbeStep::Up
    } else if elapsed_ms >= p.deadline_ms {
        ProbeStep::GiveUp
    } else {
        let left = p.deadline_ms - elapsed_ms;
        if p.interval_ms <= left {
            ProbeStep::RetryAfter(p.interval_ms)
        } else {
            ProbeStep::RetryAfter(left)
        }
    }
}

/// An endpoint that accepts connections from time `listening_from` on, or never.
pub open spec fn accepts(listening_from: Option<nat>, t: int) -> bool {
    match listening_from {
        Some(l) => l <= t,
        None => false,
    }
}

/// The whole probe against such an endpoint, from an attempt at time `t`:
/// whether it reports the endpoint up, and the time at which it returns.
pub open spec fn probe_run(p: ProbePolicy, listening_from: Option<nat>, t: int) -> (bool, int)
    decreases p.deadline_ms - t,
{
    match next_step(p, t, accepts(listening_from, t)) {
        ProbeStep::Up => (true, t),
        ProbeStep::GiveUp => (false, t),
        ProbeStep::RetryAfter(d) => if d > 0 && t < p.deadline_ms {
            probe_run(p, listening_from, t + d)
        } else {
            (false, t)
        },
    }
}

proof fn lemma_silent_from(p: ProbePolicy, t: int)
    requires
        p.wf(),
        0 <= t <= p.deadline_ms,
    ensures
        probe_run(p, None, t) == (false, p.deadline_ms as int),
    decreases p.deadline_ms - t,
{
    if t < p.deadline_ms {
        let d = min(p.interval_ms as int, p.deadline_ms - t);
        lemma_silent_from(p, t + d);
    }
}

/// An endpoint that never listens is reported down, and the probe returns
/// exactly at its deadline: not before, and not later.
pub proof fn lemma_probe_never_listening(p: ProbePolicy)
    requires
        p.wf(),
    ensures
        probe_run(p, None, 0) == (false, p.deadline_ms as int),
{
    lemma_silent_from(p, 0);
}

proof fn lemma_listening_from(p: ProbePolicy, l: nat, t: int)
    requires
        p.wf(),
        0 <= t <= p.deadline_ms,
        l <= p.deadline_ms,
    ensures
        probe_run(p, Some(l), t).0,
        t <= probe_run(p, Some(l), t).1 <= p.deadline_ms,
        t <= l ==> l <= probe_run(p, Some(l), t).1 < l + p.interval_ms,
        t > l ==> probe_run(p, Some(l), t).1 == t,
    decreases p.deadline_ms - t,
{
    if t < l {
        let d = min(p.interval_ms as int, p.deadline_ms - t);
        lemma_listening_from(p, l, t + d);
    }
}

/// An endpoint that starts listening at `l`, within the deadline, is reported
/// up, no later than the deadline and less than one interval after `l`.
pub proof fn lemma_probe_listening(p: ProbePolicy, l: nat)
    requires
        p.wf(),
        l <= p.deadline_ms,
    ensures
        probe_run(p, Some(l), 0).0,
        l <= probe_run(p, Some(l), 0).1 <= p.deadline_ms,
        probe_run(p, Some(l), 0).1 < l + p.interval_ms,
{
    lemma_listening_from(p, l, 0);
}

} // verus!
