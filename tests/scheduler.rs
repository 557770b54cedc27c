use world_server::scheduler::{
    TickAction, TickEvent, TickPhase, TickScheduler, WorldOutcome, DESIRED_TIMESTEP_NANOS,
    STALL_CEILING_NANOS,
};

fn through_world_step(s: &mut TickScheduler, start: u64) {
    assert_eq!(s.step(TickEvent::Begin { running: true, now: start }), TickAction::TickClients { dt: s.previous_loop_total });
    assert_eq!(s.step(TickEvent::ClientsTicked { failures: 0 }), TickAction::DrainQueue);
    assert_eq!(
        s.step(TickEvent::QueueDrained { ok: true }),
        TickAction::AdvanceWorld { dt: s.previous_loop_total, ceiling: STALL_CEILING_NANOS }
    );
}

#[test]
fn short_tick_sleeps_out_the_period() {
    let mut s = TickScheduler::new(DESIRED_TIMESTEP_NANOS, STALL_CEILING_NANOS);
    assert_eq!(s.previous_loop_total, 100_000_000);
    through_world_step(&mut s, 1_000);
    let a = s.step(TickEvent::WorldAdvanced { outcome: WorldOutcome::Completed, now: 1_000 + 30_000_000 });
    assert_eq!(a, TickAction::Sleep { duration: 70_000_000 });
    assert_eq!(s.step(TickEvent::Resumed { now: 1_000 + 100_000_000 }), TickAction::Poll);
    assert_eq!(s.previous_loop_total, 100_000_000);
    assert_eq!(s.step(TickEvent::Begin { running: true, now: 100_001_000 }), TickAction::TickClients { dt: 100_000_000 });
}

#[test]
fn long_tick_warns_and_feeds_measured_time_forward() {
    let mut s = TickScheduler::new(DESIRED_TIMESTEP_NANOS, STALL_CEILING_NANOS);
    through_world_step(&mut s, 0);
    let a = s.step(TickEvent::WorldAdvanced { outcome: WorldOutcome::Completed, now: 150_000_000 });
    assert_eq!(a, TickAction::WarnOverrun);
    assert_eq!(s.step(TickEvent::Resumed { now: 150_000_500 }), TickAction::Poll);
    assert_eq!(s.previous_loop_total, 150_000_500);
    assert_eq!(s.step(TickEvent::Begin { running: true, now: 150_000_600 }), TickAction::TickClients { dt: 150_000_500 });
}

#[test]
fn tick_of_exactly_one_period_does_not_sleep() {
    let mut s = TickScheduler::new(DESIRED_TIMESTEP_NANOS, STALL_CEILING_NANOS);
    through_world_step(&mut s, 0);
    assert_eq!(s.step(TickEvent::WorldAdvanced { outcome: WorldOutcome::Completed, now: 100_000_000 }), TickAction::WarnOverrun);
}

#[test]
fn client_failures_still_drain_the_queue() {
    let mut s = TickScheduler::new(DESIRED_TIMESTEP_NANOS, STALL_CEILING_NANOS);
    s.step(TickEvent::Begin { running: true, now: 0 });
    assert_eq!(s.step(TickEvent::ClientsTicked { failures: 3 }), TickAction::DrainQueue);
    assert_eq!(s.phase, TickPhase::QueueDrain);
}

#[test]
fn dispatch_fault_aborts_and_stall_crashes() {
    let mut s = TickScheduler::new(DESIRED_TIMESTEP_NANOS, STALL_CEILING_NANOS);
    s.step(TickEvent::Begin { running: true, now: 0 });
    s.step(TickEvent::ClientsTicked { failures: 0 });
    assert_eq!(s.step(TickEvent::QueueDrained { ok: false }), TickAction::Abort);
    assert_eq!(s.phase, TickPhase::Stopped);

    let mut s = TickScheduler::new(DESIRED_TIMESTEP_NANOS, STALL_CEILING_NANOS);
    through_world_step(&mut s, 0);
    assert_eq!(s.step(TickEvent::WorldAdvanced { outcome: WorldOutcome::Stalled, now: 10_000_000_001 }), TickAction::Crash);
    assert_eq!(s.phase, TickPhase::Stopped);

    let mut s = TickScheduler::new(DESIRED_TIMESTEP_NANOS, STALL_CEILING_NANOS);
    through_world_step(&mut s, 0);
    assert_eq!(s.step(TickEvent::WorldAdvanced { outcome: WorldOutcome::Failed, now: 5 }), TickAction::Abort);
}

#[test]
fn shutdown_flag_stops_at_the_top() {
    let mut s = TickScheduler::new(DESIRED_TIMESTEP_NANOS, STALL_CEILING_NANOS);
    assert_eq!(s.step(TickEvent::Begin { running: false, now: 0 }), TickAction::Stop);
    assert_eq!(s.phase, TickPhase::Stopped);
    assert_eq!(s.step(TickEvent::Begin { running: true, now: 1 }), TickAction::Ignore);
}

#[test]
fn event_out_of_phase_is_ignored() {
    let mut s = TickScheduler::new(DESIRED_TIMESTEP_NANOS, STALL_CEILING_NANOS);
    let before = s;
    assert_eq!(s.step(TickEvent::QueueDrained { ok: true }), TickAction::Ignore);
    assert_eq!(s, before);
}
