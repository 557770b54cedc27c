//! Decisions of the fixed-cadence tick scheduler.
//!
//! The loop that performs the work (ticking clients, draining the packet
//! queue, advancing the world, sleeping) lives with the caller. The
//! scheduler is told what happened as an event and answers with the next
//! action. Times are nanoseconds read from a monotonic clock.
use vstd::prelude::*;

verus! {

/// The desired step period: ten steps per second.
pub const DESIRED_TIMESTEP_NANOS: u64 = 100_000_000;

/// How long a world step may take before the simulation counts as wedged.
pub const STALL_CEILING_NANOS: u64 = 10_000_000_000;

/// Where the scheduler stands within one iteration of its loop.
#[derive(Clone, Copy, Debug, PartialEq, Eq, Structural)]
pub enum TickPhase {
    /// At the top of the loop, waiting to learn whether to go on.
    Top,
    /// The clients' pass is running.
    ClientPass,
    /// The inbound packet queue is being drained.
    QueueDrain,
    /// World-level state is being advanced under the stall ceiling.
    WorldAdvance,
    /// Sleeping out the rest of the period, or catching up after an overrun.
    Pacing,
    /// The loop has ended.
    Stopped,
}

/// How a world step ended.
#[derive(Clone, Copy, Debug, PartialEq, Eq, Structural)]
pub enum WorldOutcome {
    Completed,
    Failed,
    /// The step did not finish within the stall ceiling.
    Stalled,
}

/// What the loop reports to the scheduler.
#[derive(Clone, Copy, Debug, PartialEq, Eq, Structural)]
pub enum TickEvent {
    /// Top of the loop: the shutdown flag (`running`) and the time.
    Begin { running: bool, now: u64 },
    /// The clients' pass ended; `failures` clients reported an error.
    ClientsTicked { failures: usize },
    /// The packet queue was drained, without a dispatch error when `ok`.
    QueueDrained { ok: bool },
    /// The world step ended, at time `now`.
    WorldAdvanced { outcome: WorldOutcome, now: u64 },
    /// The loop is ready to go on after pacing, at time `now`.
    Resumed { now: u64 },
}

/// What the loop is to do next.
#[derive(Clone, Copy, Debug, PartialEq, Eq, Structural)]
pub enum TickAction {
    /// Run every client's pass with the time step `dt`.
    TickClients { dt: u64 },
    /// Drain the inbound packet queue.
    DrainQueue,
    /// Advance world-level state by `dt`, failing if it takes over `ceiling`.
    AdvanceWorld { dt: u64, ceiling: u64 },
    /// Suspend for `duration`, then report `Resumed`.
    Sleep { duration: u64 },
    /// Warn that the tick overran the period, then report `Resumed` at once.
    WarnOverrun,
    /// Read the shutdown flag and report `Begin`.
    Poll,
    /// Leave the loop normally.
    Stop,
    /// Leave the loop with the error that was reported: a systemic fault.
    Abort,
    /// The world step wedged: end the process loudly.
    Crash,
    /// The event does not fit the phase; nothing changed.
    Ignore,
}

/// The scheduler's state between events.
#[derive(Clone, Copy, Debug, PartialEq, Eq, Structural)]
pub struct TickScheduler {
    pub desired_period: u64,
    pub stall_ceiling: u64,
    /// The measured length of the previous iteration, sleep included: the
    /// time step handed to the next one.
    pub previous_loop_total: u64,
    pub phase: TickPhase,
    /// When the current iteration began.
    pub tick_start: u64,
}

/// Time from `start` to `now`; a clock that went back counts as no time.
pub open spec fn span(start: u64, now: u64) -> u64 {
    if now >= start {
        (now - start) as u64
    } else {
        0
    }
}

impl TickScheduler {
    /// One step of the scheduler: its next state and the action it asks for.
    pub open spec fn spec_step(self, event: TickEvent) -> (TickScheduler, TickAction) {
        match (self.phase, event) {
            (TickPhase::Top, TickEvent::Begin { running, now }) => {
                if running {
                    (
                        TickScheduler { phase: TickPhase::ClientPass, tick_start: now, ..self },
                        TickAction::TickClients { dt: self.previous_loop_total },
                    )
                } else {
                    (TickScheduler { phase: TickPhase::Stopped, ..self }, TickAction::Stop)
                }
            },
            (TickPhase::ClientPass, TickEvent::ClientsTicked { .. }) => (
                TickScheduler { phase: TickPhase::QueueDrain, ..self },
                TickAction::DrainQueue,
            ),
            (TickPhase::QueueDrain, TickEvent::QueueDrained { ok }) => {
                if ok {
                    (
                        TickScheduler { phase: TickPhase::WorldAdvance, ..self },
                        TickAction::AdvanceWorld { dt: self.previous_loop_total, ceiling: self.stall_ceiling },
                    )
                } else {
                    (TickScheduler { phase: TickPhase::Stopped, ..self }, TickAction::Abort)
                }
            },
            (TickPhase::WorldAdvance, TickEvent::WorldAdvanced { outcome, now }) => match outcome {
                WorldOutcome::Completed => {
                    let w = span(self.tick_start, now);
                    if w < self.desired_period {
                        (
                            TickScheduler { phase: TickPhase::Pacing, ..self },
                            TickAction::Sleep { duration: (self.desired_period - w) as u64 },
                        )
                    } else {
                        (TickScheduler { phase: TickPhase::Pacing, ..self }, TickAction::WarnOverrun)
                    }
                },
                WorldOutcome::Failed => (TickScheduler { phase: TickPhase::Stopped, ..self }, TickAction::Abort),
                WorldOutcome::Stalled => (TickScheduler { phase: TickPhase::Stopped, ..self }, TickAction::Crash),
            },
            (TickPhase::Pacing, TickEvent::Resumed { now }) => (
                TickScheduler {
                    phase: TickPhase::Top,
                    previous_loop_total: span(self.tick_start, now),
                    ..self
                },
                TickAction::Poll,
            ),
            _ => (self, TickAction::Ignore),
        }
    }

    /// A scheduler at the top of its loop. The first iteration's time step
    /// is the desired period.
    pub fn new(desired_period: u64, stall_ceiling: u64) -> (r: TickScheduler)
        ensures
            r == (TickScheduler {
                desired_period,
                stall_ceiling,
                previous_loop_total: desired_period,
                phase: TickPhase::Top,
                tick_start: 0,
            }),
    {
        TickScheduler { desired_period, stall_ceiling, previous_loop_total: desired_period, phase: TickPhase::Top, tick_start: 0 }
    }

    /// Takes the next event and answers with the next action.
    pub fn step(&mut self, event: TickEvent) -> (r: TickAction)
        ensures
            (*final(self), r) == old(self).spec_step(event),
    {
        match (self.phase, event) {
            (TickPhase::Top, TickEvent::Begin { running, now }) => {
                if running {
                    self.phase = TickPhase::ClientPass;
                    self.tick_start = now;
                    TickAction::TickClients { dt: self.previous_loop_total }
                } else {
                    self.phase = TickPhase::Stopped;
                    TickAction::Stop
                }
            },
            (TickPhase::ClientPass, TickEvent::ClientsTicked { .. }) => {
                self.phase = TickPhase::QueueDrain;
                TickAction::DrainQueue
            },
            (TickPhase::QueueDrain, TickEvent::QueueDrained { ok }) => {
                if ok {
                    self.phase = TickPhase::WorldAdvance;
                    TickAction::AdvanceWorld { dt: self.previous_loop_total, ceiling: self.stall_ceiling }
                } else {
                    self.phase = TickPhase::Stopped;
                    TickAction::Abort
                }
            },
            (TickPhase::WorldAdvance, TickEvent::WorldAdvanced { outcome, now }) => match outcome {
                WorldOutcome::Completed => {
                    let w = now.saturating_sub(self.tick_start);
                    self.phase = TickPhase::Pacing;
                    if w < self.desired_period {
                        TickAction::Sleep { duration: self.desired_period - w }
                    } else {
                        TickAction::WarnOverrun
                    }
                },
                WorldOutcome::Failed => {
                    self.phase = TickPhase::Stopped;
                    TickAction::Abort
                },
                WorldOutcome::Stalled => {
                    self.phase = TickPhase::Stopped;
                    TickAction::Crash
                },
            },
            (TickPhase::Pacing, TickEvent::Resumed { now }) => {
                self.previous_loop_total = now.saturating_sub(self.tick_start);
                self.phase = TickPhase::Top;
                TickAction::Poll
            },
            _ => TickAction::Ignore,
        }
    }
}

/// Pacing when the work fits in the period: a world step that ends `w`
/// after the tick began, with `w` under the period `p`, asks for a sleep of
/// `p - w`. The next time step is the whole measured iteration: exactly `p`
/// when the loop resumes on time, never less than `p`, and it is what the
/// next iteration hands to the clients.
pub proof fn lemma_pacing_within_period(s: TickScheduler, now: u64, resumed: u64, running_at: u64)
    requires
        s.phase == TickPhase::WorldAdvance,
        s.tick_start <= now,
        now - s.tick_start < s.desired_period,
        now <= resumed,
    ensures
        ({
            let w = now - s.tick_start;
            let (s1, a1) = s.spec_step(TickEvent::WorldAdvanced { outcome: WorldOutcome::Completed, now });
            let (s2, a2) = s1.spec_step(TickEvent::Resumed { now: resumed });
            let (s3, a3) = s2.spec_step(TickEvent::Begin { running: true, now: running_at });
            &&& a1 == TickAction::Sleep { duration: (s.desired_period - w) as u64 }
            &&& a2 == TickAction::Poll
            &&& s2.previous_loop_total == resumed - s.tick_start
            &&& resumed >= now + (s.desired_period - w) ==> s2.previous_loop_total >= s.desired_period
            &&& resumed == now + (s.desired_period - w) ==> s2.previous_loop_total == s.desired_period
            &&& a3 == TickAction::TickClients { dt: s2.previous_loop_total }
        }),
{
}

/// Pacing on overrun: a world step that ends `w` after the tick began, with
/// `w` at least the period, asks for no sleep but an overrun warning, and the
/// next time step is the measured total, at least `w`, not the period.
pub proof fn lemma_pacing_overrun(s: TickScheduler, now: u64, resumed: u64, running_at: u64)
    requires
        s.phase == TickPhase::WorldAdvance,
        s.tick_start <= now,
        now - s.tick_start >= s.desired_period,
        now <= resumed,
    ensures
        ({
            let w = now - s.tick_start;
            let (s1, a1) = s.spec_step(TickEvent::WorldAdvanced { outcome: WorldOutcome::Completed, now });
            let (s2, a2) = s1.spec_step(TickEvent::Resumed { now: resumed });
            let (s3, a3) = s2.spec_step(TickEvent::Begin { running: true, now: running_at });
            &&& a1 == TickAction::WarnOverrun
            &&& s2.previous_loop_total == resumed - s.tick_start
            &&& s2.previous_loop_total >= w
            &&& a3 == TickAction::TickClients { dt: s2.previous_loop_total }
        }),
{
}

/// However many clients failed their pass, the loop goes on to drain the
/// packet queue.
pub proof fn lemma_client_failures_do_not_stop_the_loop(s: TickScheduler, failures: usize)
    requires
        s.phase == TickPhase::ClientPass,
    ensures
        s.spec_step(TickEvent::ClientsTicked { failures }).1 == TickAction::DrainQueue,
        s.spec_step(TickEvent::ClientsTicked { failures }).0.phase == TickPhase::QueueDrain,
{
}

/// A dispatch error while draining the queue ends the loop with that error;
/// a stalled world step ends it with a crash, distinct from any error.
pub proof fn lemma_faults_end_the_loop(s: TickScheduler, now: u64)
    ensures
        s.phase == TickPhase::QueueDrain ==> s.spec_step(TickEvent::QueueDrained { ok: false }) == (
            TickScheduler { phase: TickPhase::Stopped, ..s },
            TickAction::Abort,
        ),
        s.phase == TickPhase::WorldAdvance ==> s.spec_step(
            TickEvent::WorldAdvanced { outcome: WorldOutcome::Stalled, now },
        ) == (TickScheduler { phase: TickPhase::Stopped, ..s }, TickAction::Crash),
{
}

} // verus!
